//! The animation: three colour channels on a bounded random walk, and the
//! frame painter that leaves two bands of the picture untouched.

use vstd::prelude::*;
use vstd::arithmetic::div_mod::lemma_fundamental_div_mod_converse;

verus! {

/// `v * k / d`, rounded toward zero.
pub open spec fn scaled(v: int, k: int, d: int) -> int {
    if v >= 0 {
        (v * k) / d
    } else {
        -(((-v) * k) / d)
    }
}

/// Whether pixel (`x`, `y`) of a `width` x `height` frame lies in one of the
/// two bands that are never painted: the rows strictly between 3/16 and 4/16
/// of the height, and the columns strictly between 5/32 and 6/32 of the
/// width.
pub open spec fn in_cross(x: int, y: int, width: int, height: int) -> bool {
    ||| scaled(height, 3, 16) < y < scaled(height, 4, 16)
    ||| scaled(width, 5, 32) < x < scaled(width, 6, 32)
}

/// `m * k / d` stays within `m` when `k <= d`.
proof fn lemma_scaled_bounds(m: int, k: int, d: int)
    requires
        0 <= m,
        0 < k <= d,
    ensures
        0 <= m * k <= m * 255 || k > 255,
        0 <= (m * k) / d <= m,
{
    assert(0 <= m * k <= m * d) by (nonlinear_arith)
        requires
            0 <= m,
            0 < k <= d,
    ;
    assert(k <= 255 ==> m * k <= m * 255) by (nonlinear_arith)
        requires
            0 <= m,
            0 < k,
    ;
    assert(0 <= (m * k) / d <= m) by (nonlinear_arith)
        requires
            0 <= m * k <= m * d,
            0 < d,
            0 <= m,
    ;
}

/// `v * k / d` rounded toward zero, computed without overflow.
fn scale(v: isize, k: u8, d: u8) -> (r: i128)
    requires
        0 < k <= d,
    ensures
        r == scaled(v as int, k as int, d as int),
{
    let wide: i128 = v as i128;
    if wide >= 0 {
        let up: u128 = wide as u128;
        proof {
            lemma_scaled_bounds(up as int, k as int, d as int);
        }
        let q: u128 = up * (k as u128) / (d as u128);
        q as i128
    } else {
        let up: u128 = (-wide) as u128;
        proof {
            lemma_scaled_bounds(up as int, k as int, d as int);
        }
        let q: u128 = up * (k as u128) / (d as u128);
        -(q as i128)
    }
}

/// Says whether pixel (`x`, `y`) lies in a band that is never painted.
pub fn cross(x: isize, y: isize, width: isize, height: isize) -> (r: bool)
    ensures
        r == in_cross(x as int, y as int, width as int, height as int),
{
    let row: i128 = y as i128;
    let col: i128 = x as i128;
    if scale(height, 3, 16) < row && row < scale(height, 4, 16) {
        return true;
    }
    if scale(width, 5, 32) < col && col < scale(width, 6, 32) {
        return true;
    }
    false
}

/// The low 16 bits of `v`, read as a signed number.
pub open spec fn wrap16(v: int) -> int {
    let low = v % 65536;
    if low >= 32768 {
        low - 65536
    } else {
        low
    }
}

/// One step of a channel's walk. The step's size is `sample % md`, kept to
/// 16 bits; it is added while moving up and subtracted while moving down, in
/// 16-bit arithmetic. A step that would wrap past the end of the range is
/// not taken: the value holds and the direction flips.
pub open spec fn next_color_spec(up: bool, cur: int, md: int, sample: int) -> (int, bool) {
    let m = wrap16(sample % md);
    let next = wrap16(
        if up {
            cur + m
        } else {
            cur - m
        },
    );
    if (up && next < cur) || (!up && next > cur) {
        (cur, !up)
    } else {
        (next, up)
    }
}

/// Advances one channel by one step. `sample` is the random draw for this
/// step and `md` the bound on the step's size. Returns the new value and the
/// new direction.
pub fn next_color(up: bool, cur: i16, md: i32, sample: i32) -> (r: (i16, bool))
    requires
        md > 0,
        sample >= 0,
    ensures
        (r.0 as int, r.1) == next_color_spec(up, cur as int, md as int, sample as int),
        r.1 != up ==> r.0 == cur,
        r.1 == up && up ==> cur <= r.0,
        r.1 == up && !up ==> r.0 <= cur,
        md <= 32768 && r.1 == up && up ==> r.0 - cur == sample % md,
        md <= 32768 && r.1 == up && !up ==> cur - r.0 == sample % md,
{
    let step: i32 = sample % md;
    let low: i32 = step % 65536;
    let m: i32 = if low >= 32768 {
        low - 65536
    } else {
        low
    };
    let wide: i32 = if up {
        cur as i32 + m
    } else {
        cur as i32 - m
    };
    let next: i32 = if wide > 32767 {
        wide - 65536
    } else if wide < -32768 {
        wide + 65536
    } else {
        wide
    };
    assert(next == wrap16(wide as int));
    if (up && next < cur as i32) || (!up && next > cur as i32) {
        (cur, !up)
    } else {
        (next as i16, up)
    }
}

/// The 32-bit pixel for three channel values: red in bits 16 and up, green
/// in bits 8 and up, blue in the low bits.
pub open spec fn color_spec(r: i16, g: i16, b: i16) -> u32 {
    ((r as u32) << 16) | ((g as u32) << 8) | (b as u32)
}

/// Composes the pixel value of three channels.
pub fn compose_color(r: i16, g: i16, b: i16) -> (c: u32)
    ensures
        c == color_spec(r, g, b),
{
    let red: u32 = #[verifier::truncate] (r as u32);
    let green: u32 = #[verifier::truncate] (g as u32);
    let blue: u32 = #[verifier::truncate] (b as u32);
    (red << 16) | (green << 8) | blue
}

/// While every channel is a byte, the pixel is the 24-bit number
/// red * 65536 + green * 256 + blue.
pub proof fn lemma_color_of_bytes(r: i16, g: i16, b: i16)
    requires
        0 <= r < 256,
        0 <= g < 256,
        0 <= b < 256,
    ensures
        color_spec(r, g, b) == r * 65536 + g * 256 + b,
{
    assert((((r as u32) << 16) | ((g as u32) << 8) | (b as u32)) == (r as u32) * 65536 + (g as u32)
        * 256 + (b as u32)) by (bit_vector)
        requires
            0 <= r < 256,
            0 <= g < 256,
            0 <= b < 256,
    ;
}

/// Writes zero to every byte of `buf`.
pub fn zero_fill(buf: &mut [u8])
    ensures
        final(buf)@.len() == old(buf)@.len(),
        forall|i: int| 0 <= i < final(buf)@.len() ==> final(buf)@[i] == 0,
{
    let n: usize = buf.len();
    let mut i: usize = 0;
    while i < n
        invariant
            i <= n,
            n == buf@.len(),
            buf@.len() == old(buf)@.len(),
            forall|j: int| 0 <= j < i ==> buf@[j] == 0,
        decreases n - i,
    {
        buf[i] = 0;
        i += 1;
    }
}

/// Whether a buffer of `len` pixels holds a `width` x `height` frame whose
/// rows start `stride` bytes apart: a row is at least as long as the
/// picture is wide, and all rows lie inside the buffer.
pub open spec fn frame_fits(len: int, width: int, height: int, stride: int) -> bool {
    &&& width <= stride / 4
    &&& (stride / 4) * height <= len
}

/// What the pixel at index `i` holds after a frame of `color` is painted
/// over a buffer whose rows are `st` pixels apart: `color` where `i` is a
/// visible pixel outside the two bands, and `before` everywhere else.
pub open spec fn painted_pixel(
    before: u32,
    i: int,
    width: int,
    height: int,
    st: int,
    color: u32,
) -> u32 {
    if st > 0 && i < st * height && i % st < width && !in_cross(i % st, i / st, width, height) {
        color
    } else {
        before
    }
}

/// Says whether a buffer of `len` pixels holds the frame.
pub fn holds_frame(len: usize, width: u16, height: u16, stride: u32) -> (r: bool)
    ensures
        r == frame_fits(len as int, width as int, height as int, stride as int),
{
    let st: u64 = (stride / 4) as u64;
    assert(st * (height as u64) <= 0x4000_0000 * 0x1_0000) by (nonlinear_arith)
        requires
            st <= 0x4000_0000,
            height <= 0x1_0000,
    ;
    let rows: u64 = st * (height as u64);
    (width as u64) <= st && rows <= len as u64
}

/// The pixel of column `x` in row `y` sits at index `st * y + x`; after a
/// frame is painted it holds what it held before if (`x`, `y`) lies in one
/// of the two bands, and the frame's colour otherwise.
pub proof fn lemma_pixel_at(
    before: u32,
    x: int,
    y: int,
    width: int,
    height: int,
    st: int,
    color: u32,
)
    requires
        0 <= x < width,
        width <= st,
        0 <= y < height,
    ensures
        painted_pixel(before, st * y + x, width, height, st, color) == if in_cross(
            x,
            y,
            width,
            height,
        ) {
            before
        } else {
            color
        },
{
    assert(st * y == y * st) by (nonlinear_arith);
    lemma_fundamental_div_mod_converse(st * y + x, st, y, x);
    assert(st * y + x < st * height) by (nonlinear_arith)
        requires
            0 <= x < st,
            0 <= y < height,
    ;
}

/// Paints one frame: every visible pixel outside the two bands becomes
/// `color`; pixels inside the bands, the padding at the end of each row and
/// whatever follows the last row keep their values.
pub fn modest_draw(buf: &mut [u32], width: u16, height: u16, stride: u32, color: u32)
    requires
        frame_fits(old(buf)@.len() as int, width as int, height as int, stride as int),
    ensures
        final(buf)@.len() == old(buf)@.len(),
        forall|i: int|
            0 <= i < final(buf)@.len() ==> final(buf)@[i] == painted_pixel(
                old(buf)@[i],
                i,
                width as int,
                height as int,
                stride as int / 4,
                color,
            ),
{
    let st: usize = (stride / 4) as usize;
    let w: usize = width as usize;
    let h: usize = height as usize;
    let n: usize = buf.len();
    let mut y: usize = 0;
    while y < h
        invariant
            y <= h,
            st == stride as int / 4,
            w == width,
            h == height,
            w <= st,
            st * h <= n,
            n == buf@.len(),
            buf@.len() == old(buf)@.len(),
            forall|i: int|
                0 <= i < buf@.len() ==> buf@[i] == if i < st * y {
                    painted_pixel(old(buf)@[i], i, w as int, h as int, st as int, color)
                } else {
                    old(buf)@[i]
                },
        decreases h - y,
    {
        assert(0 <= st * y && st * y + st <= st * h) by (nonlinear_arith)
            requires
                0 <= st,
                0 <= y < h,
        ;
        let k: usize = st * y;
        let mut x: usize = 0;
        while x < w
            invariant
                x <= w,
                y < h,
                k == st * y,
                k + st <= st * h,
                w == width,
                h == height,
                w <= st,
                st * h <= n,
                n == buf@.len(),
                buf@.len() == old(buf)@.len(),
                forall|i: int|
                    0 <= i < buf@.len() ==> buf@[i] == if i < k + x {
                        painted_pixel(old(buf)@[i], i, w as int, h as int, st as int, color)
                    } else {
                        old(buf)@[i]
                    },
            decreases w - x,
        {
            let off: usize = k + x;
            proof {
                lemma_pixel_at(
                    old(buf)@[off as int],
                    x as int,
                    y as int,
                    w as int,
                    h as int,
                    st as int,
                    color,
                );
            }
            if !cross(x as isize, y as isize, w as isize, h as isize) {
                buf[off] = color;
            }
            x += 1;
        }
        proof {
            assert forall|i: int| k + w <= i < k + st implies painted_pixel(
                old(buf)@[i],
                i,
                w as int,
                h as int,
                st as int,
                color,
            ) == old(buf)@[i] by {
                assert(st * y == y * st) by (nonlinear_arith);
                lemma_fundamental_div_mod_converse(i, st as int, y as int, i - k);
            }
            assert(st * (y + 1) == k + st) by (nonlinear_arith)
                requires
                    k == st * y,
            ;
        }
        y += 1;
    }
}

/// Bound on the red channel's step.
pub const RED_BOUND: i32 = 20;

/// Bound on the green channel's step.
pub const GREEN_BOUND: i32 = 10;

/// Bound on the blue channel's step.
pub const BLUE_BOUND: i32 = 5;

/// Number of frames in the animation.
pub const FRAME_COUNT: u32 = 50;

/// Pause after each frame, in microseconds.
pub const FRAME_PAUSE_MICROS: u32 = 100000;

/// The three channels and the direction each is moving in.
#[derive(Debug, Clone, Copy, PartialEq, Eq, Structural)]
pub struct RenderState {
    pub r: i16,
    pub g: i16,
    pub b: i16,
    pub r_up: bool,
    pub g_up: bool,
    pub b_up: bool,
}

impl RenderState {
    /// The state before the first frame: each channel is its random draw
    /// modulo 255, and every channel moves up.
    pub fn start(red: i32, green: i32, blue: i32) -> (s: RenderState)
        requires
            red >= 0,
            green >= 0,
            blue >= 0,
        ensures
            s == (RenderState {
                r: (red % 255) as i16,
                g: (green % 255) as i16,
                b: (blue % 255) as i16,
                r_up: true,
                g_up: true,
                b_up: true,
            }),
            0 <= s.r < 255,
            0 <= s.g < 255,
            0 <= s.b < 255,
    {
        RenderState {
            r: (red % 255) as i16,
            g: (green % 255) as i16,
            b: (blue % 255) as i16,
            r_up: true,
            g_up: true,
            b_up: true,
        }
    }

    /// The state one frame later: each channel takes one step of its walk,
    /// red bounded by 20, green by 10 and blue by 5, with its own random
    /// draw.
    pub fn advance(self, red: i32, green: i32, blue: i32) -> (s: RenderState)
        requires
            red >= 0,
            green >= 0,
            blue >= 0,
        ensures
            (s.r as int, s.r_up) == next_color_spec(self.r_up, self.r as int, 20, red as int),
            (s.g as int, s.g_up) == next_color_spec(self.g_up, self.g as int, 10, green as int),
            (s.b as int, s.b_up) == next_color_spec(self.b_up, self.b as int, 5, blue as int),
    {
        let red_step: (i16, bool) = next_color(self.r_up, self.r, RED_BOUND, red);
        let green_step: (i16, bool) = next_color(self.g_up, self.g, GREEN_BOUND, green);
        let blue_step: (i16, bool) = next_color(self.b_up, self.b, BLUE_BOUND, blue);
        RenderState {
            r: red_step.0,
            g: green_step.0,
            b: blue_step.0,
            r_up: red_step.1,
            g_up: green_step.1,
            b_up: blue_step.1,
        }
    }

    /// The pixel value that this state paints.
    pub fn color(&self) -> (c: u32)
        ensures
            c == color_spec(self.r, self.g, self.b),
    {
        compose_color(self.r, self.g, self.b)
    }
}

/// One iteration of the animation: advances the three channels with their
/// random draws, paints the frame in the new colour and returns the new
/// state.
pub fn draw_frame(
    buf: &mut [u32],
    width: u16,
    height: u16,
    stride: u32,
    state: RenderState,
    red: i32,
    green: i32,
    blue: i32,
) -> (next: RenderState)
    requires
        frame_fits(old(buf)@.len() as int, width as int, height as int, stride as int),
        red >= 0,
        green >= 0,
        blue >= 0,
    ensures
        (next.r as int, next.r_up) == next_color_spec(state.r_up, state.r as int, 20, red as int),
        (next.g as int, next.g_up) == next_color_spec(state.g_up, state.g as int, 10, green as int),
        (next.b as int, next.b_up) == next_color_spec(state.b_up, state.b as int, 5, blue as int),
        final(buf)@.len() == old(buf)@.len(),
        forall|i: int|
            0 <= i < final(buf)@.len() ==> final(buf)@[i] == painted_pixel(
                old(buf)@[i],
                i,
                width as int,
                height as int,
                stride as int / 4,
                color_spec(next.r, next.g, next.b),
            ),
{
    let next: RenderState = state.advance(red, green, blue);
    modest_draw(buf, width, height, stride, next.color());
    next
}

/// Where a channel stands after taking the steps drawn in `samples`, in
/// order, from value `cur` and direction `up`.
pub open spec fn walk(up: bool, cur: int, md: int, samples: Seq<int>) -> (int, bool)
    decreases samples.len(),
{
    if samples.len() == 0 {
        (cur, up)
    } else {
        let before = walk(up, cur, md, samples.drop_last());
        next_color_spec(before.1, before.0, md, samples.last())
    }
}

/// A channel that moves up from `cur` never falls, never turns and never
/// climbs more than `md - 1` per step, as long as the 16-bit range has room
/// for that many steps of that size.
pub proof fn lemma_walk_rises(cur: int, md: int, samples: Seq<int>)
    requires
        0 < md <= 32768,
        -32768 <= cur,
        cur + samples.len() * (md - 1) <= 32767,
        forall|i: int| 0 <= i < samples.len() ==> samples[i] >= 0,
    ensures
        walk(true, cur, md, samples).1,
        cur <= walk(true, cur, md, samples).0 <= cur + samples.len() * (md - 1),
    decreases samples.len(),
{
    if samples.len() > 0 {
        let rest = samples.drop_last();
        assert((samples.len() - 1) * (md - 1) + (md - 1) == samples.len() * (md - 1))
            by (nonlinear_arith);
        assert((samples.len() - 1) * (md - 1) >= 0) by (nonlinear_arith)
            requires
                samples.len() >= 1,
                md >= 1,
        ;
        lemma_walk_rises(cur, md, rest);
        let before = walk(true, cur, md, rest);
        let m = samples.last() % md;
        assert(0 <= m < md);
        assert(wrap16(m) == m);
        assert(wrap16(before.0 + m) == before.0 + m);
    }
}

/// Through a whole animation a channel stays between 0 and 1204 and keeps
/// moving up: it starts below 255 and takes at most 50 steps of less than 20.
pub proof fn lemma_animation_stays_positive(start: int, md: int, samples: Seq<int>)
    requires
        0 <= start < 255,
        0 < md <= 20,
        samples.len() <= 50,
        forall|i: int| 0 <= i < samples.len() ==> samples[i] >= 0,
    ensures
        walk(true, start, md, samples).1,
        0 <= walk(true, start, md, samples).0 <= 1204,
{
    assert(samples.len() * (md - 1) <= 950) by (nonlinear_arith)
        requires
            samples.len() <= 50,
            0 < md <= 20,
    ;
    lemma_walk_rises(start, md, samples);
}

} // verus!
