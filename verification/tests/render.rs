use modeset::render::{
    holds_frame, compose_color, cross, draw_frame, modest_draw, next_color, zero_fill, RenderState,
};

#[test]
fn cross_bands_of_full_hd() {
    for x in 0..1920isize {
        for y in 0..1080isize {
            let expected = (300 < x && x < 360) || (202 < y && y < 270);
            assert_eq!(cross(x, y, 1920, 1080), expected, "x={} y={}", x, y);
        }
    }
}

#[test]
fn cross_band_edges() {
    assert!(!cross(300, 0, 1920, 1080));
    assert!(cross(301, 0, 1920, 1080));
    assert!(cross(359, 0, 1920, 1080));
    assert!(!cross(360, 0, 1920, 1080));
    assert!(!cross(0, 202, 1920, 1080));
    assert!(cross(0, 203, 1920, 1080));
    assert!(cross(0, 269, 1920, 1080));
    assert!(!cross(0, 270, 1920, 1080));
}

#[test]
fn cross_of_tiny_frame_is_empty() {
    for x in 0..8isize {
        for y in 0..8isize {
            assert!(!cross(x, y, 8, 8));
        }
    }
}

#[test]
fn cross_takes_extreme_sizes() {
    assert!(!cross(0, 0, isize::MAX, isize::MAX));
    assert!(cross(0, isize::MAX / 16 * 3 + 10, isize::MAX, isize::MAX));
    assert!(!cross(0, 0, isize::MIN, isize::MIN));
    assert!(!cross(-1, -1, -32, -16));
}

#[test]
fn next_color_steps_up_and_down() {
    assert_eq!(next_color(true, 100, 20, 47), (107, true));
    assert_eq!(next_color(false, 100, 20, 47), (93, false));
    assert_eq!(next_color(true, 100, 20, 40), (100, true));
    assert_eq!(next_color(false, 3, 10, 9), (-6, false));
    assert_eq!(next_color(true, 250, 20, 10), (260, true));
}

#[test]
fn next_color_turns_at_the_end_of_the_range() {
    assert_eq!(next_color(true, 32760, 20, 19), (32760, false));
    assert_eq!(next_color(true, 32760, 20, 7), (32767, true));
    assert_eq!(next_color(false, -32760, 20, 19), (-32760, true));
    assert_eq!(next_color(false, -32760, 20, 8), (-32768, false));
}

#[test]
fn next_color_keeps_step_to_sixteen_bits() {
    // 40000 % 70000 = 40000, which is -25536 in 16 bits
    assert_eq!(next_color(true, 0, 70000, 40000), (0, false));
    assert_eq!(next_color(false, 0, 70000, 40000), (0, true));
    assert_eq!(next_color(true, 5, 65536, 65535 + 65536), (5, false));
}

#[test]
fn next_color_moves_less_than_bound() {
    let mut cur: i16 = 17;
    let mut up = true;
    let mut seed: i32 = 12345;
    for _ in 0..10000 {
        seed = ((seed as i64 * 1103515245 + 12345) % 2147483648) as i32;
        let (next, dir) = next_color(up, cur, 20, seed);
        if dir != up {
            assert_eq!(next, cur);
        } else if up {
            assert!(next >= cur && (next as i32 - cur as i32) < 20);
        } else {
            assert!(next <= cur && (cur as i32 - next as i32) < 20);
        }
        cur = next;
        up = dir;
    }
}

#[test]
fn animation_keeps_rising_for_fifty_frames() {
    let mut state = RenderState::start(254 + 255 * 3, 0, 508);
    assert_eq!((state.r, state.g, state.b), (254, 0, 253));
    assert!(state.r_up && state.g_up && state.b_up);
    for _ in 0..50 {
        let before = state;
        state = state.advance(19, 9, 4);
        assert!(state.r_up && state.g_up && state.b_up);
        assert_eq!(state.r, before.r + 19);
        assert_eq!(state.g, before.g + 9);
        assert_eq!(state.b, before.b + 4);
    }
    assert_eq!((state.r, state.g, state.b), (1204, 450, 453));
}

#[test]
fn color_is_red_green_blue() {
    assert_eq!(compose_color(0x12, 0x34, 0x56), 0x123456);
    assert_eq!(compose_color(0, 0, 0), 0);
    assert_eq!(compose_color(255, 255, 255), 0xffffff);
    assert_eq!(compose_color(0x100, 0, 0), 0x1000000);
    assert_eq!(compose_color(-1, 0, 0), 0xffff0000);
    let state = RenderState { r: 1, g: 2, b: 3, r_up: true, g_up: false, b_up: true };
    assert_eq!(state.color(), 0x010203);
}

#[test]
fn zero_fill_clears_every_byte() {
    let mut buf: Vec<u8> = (0..1000u32).map(|i| (i % 251) as u8 + 1).collect();
    zero_fill(&mut buf);
    assert_eq!(buf.len(), 1000);
    assert!(buf.iter().all(|b| *b == 0));
    let mut empty: Vec<u8> = Vec::new();
    zero_fill(&mut empty);
    assert!(empty.is_empty());
}

#[test]
fn frame_must_lie_inside_buffer() {
    assert!(holds_frame(1920 * 1080, 1920, 1080, 7680));
    assert!(!holds_frame(1920 * 1080 - 1, 1920, 1080, 7680));
    assert!(!holds_frame(1920 * 1080, 1920, 1080, 7676));
    assert!(holds_frame(2048 * 1080, 1920, 1080, 8192));
    assert!(holds_frame(0, 0, 0, 0));
    assert!(holds_frame(0, 0, 5, 3));
}

#[test]
fn modest_draw_paints_outside_the_bands_only() {
    let width: u16 = 64;
    let height: u16 = 32;
    let stride: u32 = 70 * 4 + 3;
    let st = 70usize;
    let mut buf: Vec<u32> = vec![7; st * 32 + 5];
    assert!(holds_frame(buf.len(), width, height, stride));
    modest_draw(&mut buf, width, height, stride, 0xabcdef);
    for i in 0..buf.len() {
        let x = i % st;
        let y = i / st;
        let visible = y < 32 && x < 64;
        // rows strictly between 6 and 8, columns strictly between 10 and 12
        let band = y == 7 || x == 11;
        let expected = if visible && !band { 0xabcdef } else { 7 };
        assert_eq!(buf[i], expected, "x={} y={}", x, y);
    }
}

#[test]
fn bands_of_full_hd_stay_blank() {
    let mut bytes: Vec<u8> = vec![0xff; 16];
    zero_fill(&mut bytes);
    assert_eq!(bytes, vec![0; 16]);
    let mut buf: Vec<u32> = vec![0; 1920 * 1080];
    let mut state = RenderState::start(1000, 2000, 3000);
    for frame in 0..2 {
        state = draw_frame(&mut buf, 1920, 1080, 7680, state, frame * 7 + 3, frame * 5, frame);
        assert!(state.color() != 0);
        for y in 0..1080usize {
            for x in 0..1920usize {
                let band = (300 < x && x < 360) || (202 < y && y < 270);
                let expected = if band { 0 } else { state.color() };
                assert_eq!(buf[y * 1920 + x], expected);
            }
        }
    }
}

#[test]
fn bands_stay_blank_through_the_animation() {
    let width: u16 = 160;
    let height: u16 = 96;
    let stride: u32 = 168 * 4;
    let mut buf: Vec<u32> = vec![0; 168 * 96];
    let mut state = RenderState::start(1000, 2000, 3000);
    assert_eq!((state.r, state.g, state.b), (235, 215, 195));
    for frame in 0..50 {
        state = draw_frame(&mut buf, width, height, stride, state, frame * 7, frame * 5, frame);
        for y in 0..96usize {
            for x in 0..168usize {
                // rows strictly between 18 and 24, columns strictly between 25 and 30
                let band = (18 < y && y < 24) || (25 < x && x < 30);
                let expected = if x >= 160 || band { 0 } else { state.color() };
                assert_eq!(buf[y * 168 + x], expected);
            }
        }
    }
}
