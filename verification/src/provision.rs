//! Negotiating a scan-out buffer with the kernel, one request at a time.
//!
//! The caller sends each request the machine asks for and reports the
//! outcome as an event. A failure at any step makes the machine ask for the
//! release of whatever earlier steps acquired, newest first, before it
//! reports the failure.

use vstd::prelude::*;
use crate::mode::{drm_mode_create_dumb, drm_mode_destroy_dumb, drm_mode_map_dumb};

verus! {

/// Colour depth passed when a frame buffer is registered.
pub const FB_DEPTH: u8 = 32;

/// A provisioned buffer: bytes per row, kernel handle, size in bytes, frame
/// buffer identifier and the offset at which the buffer can be mapped.
#[derive(Debug, Clone, Copy, PartialEq, Eq, Structural)]
pub struct BufferDescriptor {
    pub stride: u32,
    pub handle: u32,
    pub size: u64,
    pub fb: u32,
    pub map_offset: u64,
}

/// Why provisioning failed. The numbers are the kernel's error codes.
#[derive(Debug, Clone, Copy, PartialEq, Eq, Structural)]
pub enum ProvisionError {
    /// The kernel refused to create the buffer.
    CreateDumb(i32),
    /// The kernel created a buffer whose rows are shorter than the picture
    /// or which is too small for all rows.
    UnusableBuffer,
    /// The kernel refused to register the frame buffer.
    CreateFb(i32),
    /// The kernel refused to give a mappable offset.
    MapDumb(i32),
    /// The buffer could not be mapped into memory.
    Mmap,
}

impl ProvisionError {
    /// The text that reports this failure.
    pub open spec fn reason_text(self) -> Seq<char> {
        match self {
            ProvisionError::CreateDumb(_) => "cannot create dumb buffer"@,
            ProvisionError::UnusableBuffer => "dumb buffer does not hold the picture"@,
            ProvisionError::CreateFb(_) => "cannot create frame buffer"@,
            ProvisionError::MapDumb(_) => "cannot map dumb buffer"@,
            ProvisionError::Mmap => "cannot mmap dumb buffer"@,
        }
    }

    /// The text that reports this failure.
    pub fn reason(&self) -> (r: &'static str)
        ensures
            r@ == self.reason_text(),
    {
        match self {
            ProvisionError::CreateDumb(_) => "cannot create dumb buffer",
            ProvisionError::UnusableBuffer => "dumb buffer does not hold the picture",
            ProvisionError::CreateFb(_) => "cannot create frame buffer",
            ProvisionError::MapDumb(_) => "cannot map dumb buffer",
            ProvisionError::Mmap => "cannot mmap dumb buffer",
        }
    }

    /// The kernel's error code, where the failure came with one.
    pub fn code(&self) -> (r: Option<i32>)
        ensures
            r == match *self {
                ProvisionError::CreateDumb(code) => Some(code),
                ProvisionError::CreateFb(code) => Some(code),
                ProvisionError::MapDumb(code) => Some(code),
                _ => None,
            },
    {
        match *self {
            ProvisionError::CreateDumb(code) => Some(code),
            ProvisionError::CreateFb(code) => Some(code),
            ProvisionError::MapDumb(code) => Some(code),
            _ => None,
        }
    }
}

/// Where the negotiation stands. Each waiting state names the request whose
/// outcome it waits for.
#[derive(Debug, Clone, Copy)]
pub enum ProvisionState {
    /// Nothing requested yet.
    Start { width: u32, height: u32 },
    /// Waiting for the buffer to be created.
    Creating { width: u32, height: u32 },
    /// Waiting for the frame buffer to be registered.
    Binding { width: u32, height: u32, stride: u32, handle: u32, size: u64 },
    /// Waiting for the mappable offset.
    Locating { width: u32, height: u32, stride: u32, handle: u32, size: u64, fb: u32 },
    /// Waiting for the buffer to be mapped and cleared.
    Clearing {
        width: u32,
        height: u32,
        stride: u32,
        handle: u32,
        size: u64,
        fb: u32,
        map_offset: u64,
    },
    /// Rolling back: waiting for the frame buffer to be removed; the buffer
    /// `handle` is destroyed next.
    RemovingFb { handle: u32, error: ProvisionError },
    /// Rolling back: waiting for the buffer to be destroyed.
    Destroying { error: ProvisionError },
    /// Finished with a buffer.
    Done(BufferDescriptor),
    /// Finished without one, and with nothing left to release.
    Failed(ProvisionError),
}

/// What the caller reports to the machine.
#[derive(Debug, Clone, Copy)]
pub enum ProvisionEvent {
    /// Start the negotiation.
    Begin,
    /// Outcome of the create request: the kernel's answer, or its error.
    Created(Result<drm_mode_create_dumb, i32>),
    /// Outcome of registering the frame buffer: its identifier, or the error.
    Bound(Result<u32, i32>),
    /// Outcome of the offset request: the kernel's answer, or its error.
    Located(Result<drm_mode_map_dumb, i32>),
    /// Whether the buffer was mapped and cleared.
    Cleared(bool),
    /// A release request has returned; its own outcome does not matter.
    Released,
}

/// What the machine asks the caller to do next.
#[derive(Debug, Clone, Copy, PartialEq, Eq, Structural)]
pub enum ProvisionAction {
    /// Send the create request.
    CreateDumb(drm_mode_create_dumb),
    /// Register a frame buffer over buffer `handle`.
    AddFb { width: u32, height: u32, depth: u8, bpp: u32, pitch: u32, handle: u32 },
    /// Send the offset request.
    MapDumb(drm_mode_map_dumb),
    /// Map `size` bytes at `offset` and write zero to every byte.
    MapAndClear { offset: u64, size: u64 },
    /// Remove the frame buffer with this identifier.
    RmFb(u32),
    /// Send the destroy request.
    DestroyDumb(drm_mode_destroy_dumb),
    /// The negotiation is over; the state holds the result.
    Stop,
    /// The event does not answer the request that is pending; nothing
    /// changed.
    Idle,
}

/// Whether a buffer with rows of `stride` bytes and `size` bytes in all
/// holds a `width` x `height` picture of 4-byte pixels.
pub open spec fn geometry_ok(width: int, height: int, stride: int, size: int) -> bool {
    &&& width * 4 <= stride
    &&& stride * height <= size
}

/// Says whether the kernel's buffer holds the picture.
pub fn holds_picture(width: u32, height: u32, stride: u32, size: u64) -> (r: bool)
    ensures
        r == geometry_ok(width as int, height as int, stride as int, size as int),
{
    assert(stride * height <= 0xffff_ffff * 0xffff_ffff) by (nonlinear_arith)
        requires
            0 <= stride <= 0xffff_ffff,
            0 <= height <= 0xffff_ffff,
    ;
    let row: u64 = (width as u64) * 4;
    let all: u64 = (stride as u64) * (height as u64);
    row <= stride as u64 && all <= size
}

/// The machine's transition: the state after `event` arrives in `state`, and
/// the request to send next.
pub open spec fn create_fb_step(state: ProvisionState, event: ProvisionEvent) -> (
    ProvisionState,
    ProvisionAction,
) {
    match (state, event) {
        (ProvisionState::Start { width, height }, ProvisionEvent::Begin) => (
            ProvisionState::Creating { width, height },
            ProvisionAction::CreateDumb(
                drm_mode_create_dumb {
                    height,
                    width,
                    bpp: 32,
                    flags: 0,
                    handle: 0,
                    pitch: 0,
                    size: 0,
                },
            ),
        ),
        (ProvisionState::Creating { width, height }, ProvisionEvent::Created(Err(code))) => (
            ProvisionState::Failed(ProvisionError::CreateDumb(code)),
            ProvisionAction::Stop,
        ),
        (ProvisionState::Creating { width, height }, ProvisionEvent::Created(Ok(reply))) => {
            if geometry_ok(width as int, height as int, reply.pitch as int, reply.size as int) {
                (
                    ProvisionState::Binding {
                        width,
                        height,
                        stride: reply.pitch,
                        handle: reply.handle,
                        size: reply.size,
                    },
                    ProvisionAction::AddFb {
                        width,
                        height,
                        depth: 32,
                        bpp: 32,
                        pitch: reply.pitch,
                        handle: reply.handle,
                    },
                )
            } else {
                (
                    ProvisionState::Destroying { error: ProvisionError::UnusableBuffer },
                    ProvisionAction::DestroyDumb(drm_mode_destroy_dumb { handle: reply.handle }),
                )
            }
        },
        (
            ProvisionState::Binding { width, height, stride, handle, size },
            ProvisionEvent::Bound(Err(code)),
        ) => (
            ProvisionState::Destroying { error: ProvisionError::CreateFb(code) },
            ProvisionAction::DestroyDumb(drm_mode_destroy_dumb { handle }),
        ),
        (
            ProvisionState::Binding { width, height, stride, handle, size },
            ProvisionEvent::Bound(Ok(fb)),
        ) => (
            ProvisionState::Locating { width, height, stride, handle, size, fb },
            ProvisionAction::MapDumb(drm_mode_map_dumb { handle, pad: 0, offset: 0 }),
        ),
        (
            ProvisionState::Locating { width, height, stride, handle, size, fb },
            ProvisionEvent::Located(Err(code)),
        ) => (
            ProvisionState::RemovingFb { handle, error: ProvisionError::MapDumb(code) },
            ProvisionAction::RmFb(fb),
        ),
        (
            ProvisionState::Locating { width, height, stride, handle, size, fb },
            ProvisionEvent::Located(Ok(reply)),
        ) => (
            ProvisionState::Clearing {
                width,
                height,
                stride,
                handle,
                size,
                fb,
                map_offset: reply.offset,
            },
            ProvisionAction::MapAndClear { offset: reply.offset, size },
        ),
        (
            ProvisionState::Clearing { width, height, stride, handle, size, fb, map_offset },
            ProvisionEvent::Cleared(done),
        ) => {
            if done {
                (
                    ProvisionState::Done(BufferDescriptor { stride, handle, size, fb, map_offset }),
                    ProvisionAction::Stop,
                )
            } else {
                (
                    ProvisionState::RemovingFb { handle, error: ProvisionError::Mmap },
                    ProvisionAction::RmFb(fb),
                )
            }
        },
        (ProvisionState::RemovingFb { handle, error }, ProvisionEvent::Released) => (
            ProvisionState::Destroying { error },
            ProvisionAction::DestroyDumb(drm_mode_destroy_dumb { handle }),
        ),
        (ProvisionState::Destroying { error }, ProvisionEvent::Released) => (
            ProvisionState::Failed(error),
            ProvisionAction::Stop,
        ),
        _ => (state, ProvisionAction::Idle),
    }
}

/// Takes one step of the negotiation: consumes the outcome of the pending
/// request and says what to request next.
pub fn modeset_create_fb(state: ProvisionState, event: ProvisionEvent) -> (r: (
    ProvisionState,
    ProvisionAction,
))
    ensures
        r == create_fb_step(state, event),
{
    match (state, event) {
        (ProvisionState::Start { width, height }, ProvisionEvent::Begin) => (
            ProvisionState::Creating { width, height },
            ProvisionAction::CreateDumb(drm_mode_create_dumb::request(width, height)),
        ),
        (ProvisionState::Creating { width, height }, ProvisionEvent::Created(Err(code))) => (
            ProvisionState::Failed(ProvisionError::CreateDumb(code)),
            ProvisionAction::Stop,
        ),
        (ProvisionState::Creating { width, height }, ProvisionEvent::Created(Ok(reply))) => {
            if holds_picture(width, height, reply.pitch, reply.size) {
                (
                    ProvisionState::Binding {
                        width,
                        height,
                        stride: reply.pitch,
                        handle: reply.handle,
                        size: reply.size,
                    },
                    ProvisionAction::AddFb {
                        width,
                        height,
                        depth: FB_DEPTH,
                        bpp: crate::mode::BITS_PER_PIXEL,
                        pitch: reply.pitch,
                        handle: reply.handle,
                    },
                )
            } else {
                err_destroy(reply.handle, ProvisionError::UnusableBuffer)
            }
        },
        (
            ProvisionState::Binding { width, height, stride, handle, size },
            ProvisionEvent::Bound(Err(code)),
        ) => err_destroy(handle, ProvisionError::CreateFb(code)),
        (
            ProvisionState::Binding { width, height, stride, handle, size },
            ProvisionEvent::Bound(Ok(fb)),
        ) => (
            ProvisionState::Locating { width, height, stride, handle, size, fb },
            ProvisionAction::MapDumb(drm_mode_map_dumb::request(handle)),
        ),
        (
            ProvisionState::Locating { width, height, stride, handle, size, fb },
            ProvisionEvent::Located(Err(code)),
        ) => err_fb(handle, fb, ProvisionError::MapDumb(code)),
        (
            ProvisionState::Locating { width, height, stride, handle, size, fb },
            ProvisionEvent::Located(Ok(reply)),
        ) => (
            ProvisionState::Clearing {
                width,
                height,
                stride,
                handle,
                size,
                fb,
                map_offset: reply.offset,
            },
            ProvisionAction::MapAndClear { offset: reply.offset, size },
        ),
        (
            ProvisionState::Clearing { width, height, stride, handle, size, fb, map_offset },
            ProvisionEvent::Cleared(done),
        ) => {
            if done {
                (
                    ProvisionState::Done(BufferDescriptor { stride, handle, size, fb, map_offset }),
                    ProvisionAction::Stop,
                )
            } else {
                err_fb(handle, fb, ProvisionError::Mmap)
            }
        },
        (ProvisionState::RemovingFb { handle, error }, ProvisionEvent::Released) => err_destroy(
            handle,
            error,
        ),
        (ProvisionState::Destroying { error }, ProvisionEvent::Released) => (
            ProvisionState::Failed(error),
            ProvisionAction::Stop,
        ),
        (state, _) => (state, ProvisionAction::Idle),
    }
}

/// Starts the rollback of a frame buffer and its buffer: the frame buffer
/// goes first, because it refers to the buffer by its handle.
pub fn err_fb(handle: u32, fb: u32, error: ProvisionError) -> (r: (
    ProvisionState,
    ProvisionAction,
))
    ensures
        r == (ProvisionState::RemovingFb { handle, error }, ProvisionAction::RmFb(fb)),
{
    (ProvisionState::RemovingFb { handle, error }, ProvisionAction::RmFb(fb))
}

/// Starts the rollback of a buffer that no frame buffer refers to.
pub fn err_destroy(handle: u32, error: ProvisionError) -> (r: (ProvisionState, ProvisionAction))
    ensures
        r == (
            ProvisionState::Destroying { error },
            ProvisionAction::DestroyDumb(drm_mode_destroy_dumb { handle }),
        ),
{
    (
        ProvisionState::Destroying { error },
        ProvisionAction::DestroyDumb(drm_mode_destroy_dumb::request(handle)),
    )
}

impl ProvisionState {
    /// Whether the negotiation is over.
    pub open spec fn is_terminal(self) -> bool {
        self is Done || self is Failed
    }

    /// The result of a finished negotiation; `None` while it is running.
    pub fn outcome(&self) -> (r: Option<Result<BufferDescriptor, ProvisionError>>)
        ensures
            r == match *self {
                ProvisionState::Done(buffer) => Some(Ok(buffer)),
                ProvisionState::Failed(error) => Some(Err(error)),
                _ => None,
            },
    {
        match *self {
            ProvisionState::Done(buffer) => Some(Ok(buffer)),
            ProvisionState::Failed(error) => Some(Err(error)),
            _ => None,
        }
    }
}

/// A kernel object that the process holds until it asks for its release.
#[derive(Debug, Clone, Copy, PartialEq, Eq, Structural)]
pub enum Resource {
    /// A dumb buffer, by handle.
    Dumb(u32),
    /// A frame buffer, by identifier.
    Fb(u32),
}

/// The kernel objects that a negotiation in `state` holds, oldest first.
pub open spec fn held(state: ProvisionState) -> Seq<Resource> {
    match state {
        ProvisionState::Binding { handle, .. } => seq![Resource::Dumb(handle)],
        ProvisionState::Locating { handle, fb, .. } => seq![
            Resource::Dumb(handle),
            Resource::Fb(fb),
        ],
        ProvisionState::Clearing { handle, fb, .. } => seq![
            Resource::Dumb(handle),
            Resource::Fb(fb),
        ],
        ProvisionState::RemovingFb { handle, .. } => seq![Resource::Dumb(handle)],
        ProvisionState::Done(buffer) => seq![Resource::Dumb(buffer.handle), Resource::Fb(buffer.fb)],
        _ => Seq::empty(),
    }
}

/// What the kernel handed out by the time `event` was reported: a buffer
/// when the pending create request succeeded, a frame buffer when the
/// pending registration succeeded.
pub open spec fn acquired(state: ProvisionState, event: ProvisionEvent) -> Seq<Resource> {
    match (state, event) {
        (ProvisionState::Creating { .. }, ProvisionEvent::Created(Ok(reply))) => seq![
            Resource::Dumb(reply.handle),
        ],
        (ProvisionState::Binding { .. }, ProvisionEvent::Bound(Ok(fb))) => seq![Resource::Fb(fb)],
        _ => Seq::empty(),
    }
}

/// Whether `action` releases nothing, or releases the newest object in
/// `ledger`.
pub open spec fn releases_newest(ledger: Seq<Resource>, action: ProvisionAction) -> bool {
    match action {
        ProvisionAction::RmFb(fb) => ledger.len() > 0 && ledger.last() == Resource::Fb(fb),
        ProvisionAction::DestroyDumb(request) => ledger.len() > 0 && ledger.last()
            == Resource::Dumb(request.handle),
        _ => true,
    }
}

/// The ledger once `action` is carried out.
pub open spec fn settle(ledger: Seq<Resource>, action: ProvisionAction) -> Seq<Resource> {
    match action {
        ProvisionAction::RmFb(_) => ledger.drop_last(),
        ProvisionAction::DestroyDumb(_) => ledger.drop_last(),
        _ => ledger,
    }
}

/// The state a negotiation for a `width` x `height` buffer is in after the
/// caller has reported `events`, in order.
pub open spec fn state_after(width: u32, height: u32, events: Seq<ProvisionEvent>) -> ProvisionState
    decreases events.len(),
{
    if events.len() == 0 {
        ProvisionState::Start { width, height }
    } else {
        create_fb_step(state_after(width, height, events.drop_last()), events.last()).0
    }
}

/// The kernel objects acquired and not yet released after `events`, counted
/// from the requests and outcomes alone.
pub open spec fn ledger_after(width: u32, height: u32, events: Seq<ProvisionEvent>) -> Seq<
    Resource,
>
    decreases events.len(),
{
    if events.len() == 0 {
        Seq::empty()
    } else {
        let before = state_after(width, height, events.drop_last());
        settle(
            ledger_after(width, height, events.drop_last()) + acquired(before, events.last()),
            create_fb_step(before, events.last()).1,
        )
    }
}

/// Whether every release the machine asked for during `events` named the
/// newest object held at that moment.
pub open spec fn releases_in_order(width: u32, height: u32, events: Seq<ProvisionEvent>) -> bool
    decreases events.len(),
{
    if events.len() == 0 {
        true
    } else {
        let before = state_after(width, height, events.drop_last());
        &&& releases_in_order(width, height, events.drop_last())
        &&& releases_newest(
            ledger_after(width, height, events.drop_last()) + acquired(before, events.last()),
            create_fb_step(before, events.last()).1,
        )
    }
}

/// Whether `state` belongs to a negotiation for a `width` x `height`
/// buffer, with a buffer that holds the picture wherever one is held.
pub open spec fn fits(state: ProvisionState, width: u32, height: u32) -> bool {
    match state {
        ProvisionState::Start { width: w, height: h } => w == width && h == height,
        ProvisionState::Creating { width: w, height: h } => w == width && h == height,
        ProvisionState::Binding { width: w, height: h, stride, size, .. } => w == width && h
            == height && geometry_ok(width as int, height as int, stride as int, size as int),
        ProvisionState::Locating { width: w, height: h, stride, size, .. } => w == width && h
            == height && geometry_ok(width as int, height as int, stride as int, size as int),
        ProvisionState::Clearing { width: w, height: h, stride, size, .. } => w == width && h
            == height && geometry_ok(width as int, height as int, stride as int, size as int),
        ProvisionState::Done(buffer) => geometry_ok(
            width as int,
            height as int,
            buffer.stride as int,
            buffer.size as int,
        ),
        _ => true,
    }
}

/// One step of a buffer negotiation keeps the buffer's fit for the picture.
pub proof fn lemma_step_keeps_fit(
    state: ProvisionState,
    event: ProvisionEvent,
    width: u32,
    height: u32,
)
    requires
        fits(state, width, height),
    ensures
        fits(create_fb_step(state, event).0, width, height),
{
}

/// One step keeps the books: a release names the newest object held, and
/// what the next state holds is what was held, plus what the event brought,
/// minus what the action releases.
pub proof fn lemma_step_keeps_ledger(state: ProvisionState, event: ProvisionEvent)
    ensures
        releases_newest(held(state) + acquired(state, event), create_fb_step(state, event).1),
        held(create_fb_step(state, event).0) == settle(
            held(state) + acquired(state, event),
            create_fb_step(state, event).1,
        ),
{
    let ledger = held(state) + acquired(state, event);
    let next = create_fb_step(state, event);
    assert(held(next.0) =~= settle(ledger, next.1));
}

/// Whatever the caller reports, in whatever order: the objects acquired and
/// not yet released are exactly those the state holds, every release named
/// the newest object held, and a held buffer holds the picture.
pub proof fn lemma_ledger_tracks_state(width: u32, height: u32, events: Seq<ProvisionEvent>)
    ensures
        ledger_after(width, height, events) == held(state_after(width, height, events)),
        releases_in_order(width, height, events),
        fits(state_after(width, height, events), width, height),
    decreases events.len(),
{
    if events.len() > 0 {
        lemma_ledger_tracks_state(width, height, events.drop_last());
        lemma_step_keeps_ledger(state_after(width, height, events.drop_last()), events.last());
    }
}

/// A negotiation that ends in failure has released every object it
/// acquired, each exactly once and newest first.
pub proof fn lemma_failure_leaks_nothing(width: u32, height: u32, events: Seq<ProvisionEvent>)
    requires
        state_after(width, height, events) is Failed,
    ensures
        ledger_after(width, height, events) == Seq::<Resource>::empty(),
        releases_in_order(width, height, events),
{
    lemma_ledger_tracks_state(width, height, events);
}

/// A negotiation that ends with a buffer holds that buffer and its frame
/// buffer and nothing else, and the buffer holds the picture.
pub proof fn lemma_success_holds_buffer(width: u32, height: u32, events: Seq<ProvisionEvent>)
    requires
        state_after(width, height, events) is Done,
    ensures
        ledger_after(width, height, events) == seq![
            Resource::Dumb(state_after(width, height, events)->Done_0.handle),
            Resource::Fb(state_after(width, height, events)->Done_0.fb),
        ],
        geometry_ok(
            width as int,
            height as int,
            state_after(width, height, events)->Done_0.stride as int,
            state_after(width, height, events)->Done_0.size as int,
        ),
{
    lemma_ledger_tracks_state(width, height, events);
}

} // verus!
