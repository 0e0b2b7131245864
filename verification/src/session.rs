//! The session's decisions: which controller drives which connector, which
//! outputs become active, and what to program when the session starts and
//! when it ends.

use vstd::prelude::*;
use crate::kms::{DrmModeConnection, DrmModeConnector, DrmModeCrtc, DrmModeEncoder, DrmModeModeInfo};
use crate::mode::drm_mode_destroy_dumb;
use crate::provision::{geometry_ok, holds_picture, BufferDescriptor, ProvisionError, ProvisionState};

verus! {

/// Why the whole session stops.
#[derive(Debug, Clone, Copy, PartialEq, Eq, Structural)]
pub enum SessionError {
    /// The device cannot be asked about dumb buffers, or has none.
    DumbBuffersUnsupported,
    /// The kernel gave no resource catalog.
    NoResources,
    /// The kernel gave no record for a connector of its own catalog.
    NoConnector(u32),
}

/// Why one connector is skipped. Each variant but the last carries the
/// connector's identifier.
#[derive(Debug, Clone, Copy, PartialEq, Eq, Structural)]
pub enum SetupError {
    /// Nothing is plugged in.
    UnusedConnector(u32),
    /// The connector lists no display mode.
    NoValidMode(u32),
    /// No free controller can drive the connector.
    NoSuitableCrtc(u32),
    /// No buffer could be provisioned.
    Provision(ProvisionError),
}

impl SessionError {
    /// The text that reports this failure.
    pub open spec fn reason_text(self) -> Seq<char> {
        match self {
            SessionError::DumbBuffersUnsupported => "drm device does not support dumb buffers"@,
            SessionError::NoResources => "cannot retrieve DRM resources"@,
            SessionError::NoConnector(_) => "cannot retrieve DRM connector"@,
        }
    }

    /// The text that reports this failure.
    pub fn reason(&self) -> (r: &'static str)
        ensures
            r@ == self.reason_text(),
    {
        match self {
            SessionError::DumbBuffersUnsupported => "drm device does not support dumb buffers",
            SessionError::NoResources => "cannot retrieve DRM resources",
            SessionError::NoConnector(_) => "cannot retrieve DRM connector",
        }
    }

    /// The connector the failure is about, where it is about one.
    pub fn connector(&self) -> (r: Option<u32>)
        ensures
            r == match *self {
                SessionError::NoConnector(id) => Some(id),
                _ => None,
            },
    {
        match *self {
            SessionError::NoConnector(id) => Some(id),
            _ => None,
        }
    }
}

impl SetupError {
    /// The text that reports this failure.
    pub open spec fn reason_text(self) -> Seq<char> {
        match self {
            SetupError::UnusedConnector(_) => "ignoring unused connector"@,
            SetupError::NoValidMode(_) => "no valid mode for connector"@,
            SetupError::NoSuitableCrtc(_) => "cannot find suitable CRTC for connector"@,
            SetupError::Provision(error) => error.reason_text(),
        }
    }

    /// The text that reports this failure.
    pub fn reason(&self) -> (r: &'static str)
        ensures
            r@ == self.reason_text(),
    {
        match self {
            SetupError::UnusedConnector(_) => "ignoring unused connector",
            SetupError::NoValidMode(_) => "no valid mode for connector",
            SetupError::NoSuitableCrtc(_) => "cannot find suitable CRTC for connector",
            SetupError::Provision(error) => error.reason(),
        }
    }

    /// The connector the failure is about, where it is about one.
    pub fn connector(&self) -> (r: Option<u32>)
        ensures
            r == match *self {
                SetupError::UnusedConnector(id) => Some(id),
                SetupError::NoValidMode(id) => Some(id),
                SetupError::NoSuitableCrtc(id) => Some(id),
                SetupError::Provision(_) => None,
            },
    {
        match *self {
            SetupError::UnusedConnector(id) => Some(id),
            SetupError::NoValidMode(id) => Some(id),
            SetupError::NoSuitableCrtc(id) => Some(id),
            SetupError::Provision(_) => None,
        }
    }
}

/// One active output: its picture size, its buffer, the mode it runs, the
/// controller that drives it, and what that controller showed before.
#[derive(Debug, Clone, Copy)]
pub struct ModesetDev {
    pub width: u16,
    pub height: u16,
    pub stride: u32,
    pub size: u64,
    pub handle: u32,
    pub map_offset: u64,
    pub mode: DrmModeModeInfo,
    pub fb: u32,
    pub conn: u32,
    pub crtc: u32,
    pub saved_crtc: Option<DrmModeCrtc>,
}

/// What matching decided for one connector: the mode to run and the
/// controller to run it on.
#[derive(Debug, Clone, Copy)]
pub struct SetupPlan {
    pub conn: u32,
    pub crtc: u32,
    pub mode: DrmModeModeInfo,
}

/// A request to program a controller: scan out frame buffer `buffer_id` from
/// position (`x`, `y`) to `connector` in `mode`.
#[derive(Debug, Clone, Copy)]
pub struct SetCrtcRequest {
    pub crtc_id: u32,
    pub buffer_id: u32,
    pub x: u32,
    pub y: u32,
    pub connector: u32,
    pub mode: DrmModeModeInfo,
}

impl ModesetDev {
    /// The picture is as large as the mode says, a row of the buffer is at
    /// least as long as a row of the picture, and all rows lie inside the
    /// buffer.
    pub open spec fn wf(&self) -> bool {
        &&& self.width == self.mode.hdisplay
        &&& self.height == self.mode.vdisplay
        &&& geometry_ok(
            self.width as int,
            self.height as int,
            self.stride as int,
            self.size as int,
        )
    }

    /// The request that puts this output's frame buffer on its controller,
    /// from the top left corner and in the selected mode.
    pub fn activation(&self) -> (r: SetCrtcRequest)
        ensures
            r == (SetCrtcRequest {
                crtc_id: self.crtc,
                buffer_id: self.fb,
                x: 0,
                y: 0,
                connector: self.conn,
                mode: self.mode,
            }),
    {
        SetCrtcRequest {
            crtc_id: self.crtc,
            buffer_id: self.fb,
            x: 0,
            y: 0,
            connector: self.conn,
            mode: self.mode,
        }
    }

    /// Remembers what the controller showed before the session; `None` for
    /// a controller that showed nothing.
    pub fn save_crtc(&mut self, snapshot: Option<DrmModeCrtc>)
        ensures
            *final(self) == (ModesetDev { saved_crtc: snapshot, ..*old(self) }),
    {
        self.saved_crtc = snapshot;
    }

    /// The request that puts the controller back to what it showed before
    /// the session; `None` when nothing was remembered.
    pub fn restoration(&self) -> (r: Option<SetCrtcRequest>)
        ensures
            r == match self.saved_crtc {
                Some(saved) => Some(
                    SetCrtcRequest {
                        crtc_id: saved.crtc_id,
                        buffer_id: saved.buffer_id,
                        x: saved.x,
                        y: saved.y,
                        connector: self.conn,
                        mode: saved.mode,
                    },
                ),
                None => None,
            },
    {
        match self.saved_crtc {
            Some(saved) => Some(
                SetCrtcRequest {
                    crtc_id: saved.crtc_id,
                    buffer_id: saved.buffer_id,
                    x: saved.x,
                    y: saved.y,
                    connector: self.conn,
                    mode: saved.mode,
                },
            ),
            None => None,
        }
    }

    /// What to give back when the session ends: the frame buffer to remove
    /// first, then the request that destroys the buffer under it.
    pub fn release(&self) -> (r: (u32, drm_mode_destroy_dumb))
        ensures
            r == (self.fb, drm_mode_destroy_dumb { handle: self.handle }),
    {
        (self.fb, drm_mode_destroy_dumb::request(self.handle))
    }
}

impl SetupPlan {
    /// The state from which the buffer for this plan is negotiated: a
    /// buffer as large as the mode's picture.
    pub fn provisioner(&self) -> (r: ProvisionState)
        ensures
            r == (ProvisionState::Start {
                width: self.mode.hdisplay as u32,
                height: self.mode.vdisplay as u32,
            }),
    {
        ProvisionState::Start {
            width: self.mode.hdisplay as u32,
            height: self.mode.vdisplay as u32,
        }
    }
}

/// Whether one of `devs` is driven by controller `crtc`.
pub open spec fn claimed(devs: Seq<ModesetDev>, crtc: u32) -> bool {
    exists|i: int| 0 <= i < devs.len() && (#[trigger] devs[i]).crtc == crtc
}

/// No two of `devs` share a controller.
pub open spec fn distinct_crtcs(devs: Seq<ModesetDev>) -> bool {
    forall|i: int, j: int|
        0 <= i < devs.len() && 0 <= j < devs.len() && i != j ==> (#[trigger] devs[i]).crtc != (
        #[trigger] devs[j]).crtc
}

/// Every one of `devs` is well formed.
pub open spec fn all_wf(devs: Seq<ModesetDev>) -> bool {
    forall|i: int| 0 <= i < devs.len() ==> (#[trigger] devs[i]).wf()
}

/// The output that the animation is painted on: the first active one.
pub fn render_target(dev_list: &Vec<ModesetDev>) -> (r: Option<ModesetDev>)
    ensures
        r == if dev_list@.len() > 0 {
            Some(dev_list@[0])
        } else {
            None
        },
{
    if dev_list.len() > 0 {
        Some(dev_list[0])
    } else {
        None
    }
}

/// Decides whether the session may go on after the capability query: only
/// when the query succeeded with a value other than zero.
pub fn modeset_open(cap: Result<u64, i32>) -> (r: Result<(), SessionError>)
    ensures
        r == match cap {
            Ok(value) => if value != 0 {
                Ok::<(), SessionError>(())
            } else {
                Err(SessionError::DumbBuffersUnsupported)
            },
            Err(_) => Err(SessionError::DumbBuffersUnsupported),
        },
{
    match cap {
        Ok(value) => if value != 0 {
            Ok(())
        } else {
            Err(SessionError::DumbBuffersUnsupported)
        },
        Err(_) => Err(SessionError::DumbBuffersUnsupported),
    }
}

/// Says whether an active output is already driven by controller `crtc`.
pub fn is_claimed(dev_list: &Vec<ModesetDev>, crtc: u32) -> (r: bool)
    ensures
        r == claimed(dev_list@, crtc),
{
    let mut i: usize = 0;
    while i < dev_list.len()
        invariant
            i <= dev_list.len(),
            forall|j: int| 0 <= j < i ==> (#[trigger] dev_list@[j]).crtc != crtc,
        decreases dev_list.len() - i,
    {
        if dev_list[i].crtc == crtc {
            return true;
        }
        i += 1;
    }
    false
}

/// The encoder whose record the matcher needs for `conn`: the one bound to
/// the connector, if any.
pub fn encoder_wanted(conn: &DrmModeConnector) -> (r: Option<u32>)
    ensures
        r == if conn.encoder_id != 0 {
            Some(conn.encoder_id)
        } else {
            None
        },
{
    if conn.encoder_id != 0 {
        Some(conn.encoder_id)
    } else {
        None
    }
}

/// The controller for a connector: the one its bound encoder is driven by,
/// if the connector has a bound encoder, that encoder's record was found,
/// the encoder is driven by a controller, and no earlier output claimed it.
/// There is no search among the other controllers.
pub open spec fn find_crtc_spec(
    conn_id: u32,
    encoder_id: u32,
    enc: Option<DrmModeEncoder>,
    devs: Seq<ModesetDev>,
) -> Result<u32, SetupError> {
    if encoder_id != 0 && enc is Some && enc->Some_0.crtc_id != 0 && !claimed(
        devs,
        enc->Some_0.crtc_id,
    ) {
        Ok(enc->Some_0.crtc_id)
    } else {
        Err(SetupError::NoSuitableCrtc(conn_id))
    }
}

/// Picks the controller for connector `conn_id`, whose bound encoder is
/// `encoder_id` (0 for none) and has the record `enc`.
pub fn pick_crtc(
    conn_id: u32,
    encoder_id: u32,
    enc: Option<DrmModeEncoder>,
    dev_list: &Vec<ModesetDev>,
) -> (r: Result<u32, SetupError>)
    ensures
        r == find_crtc_spec(conn_id, encoder_id, enc, dev_list@),
        r is Ok ==> !claimed(dev_list@, r->Ok_0),
{
    if encoder_id != 0 {
        if let Some(encoder) = enc {
            if encoder.crtc_id != 0 && !is_claimed(dev_list, encoder.crtc_id) {
                return Ok(encoder.crtc_id);
            }
        }
    }
    Err(SetupError::NoSuitableCrtc(conn_id))
}

/// Picks the controller for `conn`. `enc` is the record of the encoder that
/// `encoder_wanted` names, or `None` if there is none or it was not found.
pub fn modeset_find_crtc(
    conn: &DrmModeConnector,
    enc: Option<DrmModeEncoder>,
    dev_list: &Vec<ModesetDev>,
) -> (r: Result<u32, SetupError>)
    ensures
        r == find_crtc_spec(conn.connector_id, conn.encoder_id, enc, dev_list@),
        r is Ok ==> !claimed(dev_list@, r->Ok_0),
{
    pick_crtc(conn.connector_id, conn.encoder_id, enc, dev_list)
}

/// The mode a connector will run: its first, if something is plugged in
/// and it lists any.
pub open spec fn usable_mode(conn: DrmModeConnector) -> Result<DrmModeModeInfo, SetupError> {
    if conn.connection != DrmModeConnection::Connected {
        Err(SetupError::UnusedConnector(conn.connector_id))
    } else if conn.modes@.len() == 0 {
        Err(SetupError::NoValidMode(conn.connector_id))
    } else {
        Ok(conn.modes@[0])
    }
}

/// Says whether a connector can become an output at all, and with which
/// mode.
pub fn connector_mode(conn: &DrmModeConnector) -> (r: Result<DrmModeModeInfo, SetupError>)
    ensures
        r == usable_mode(*conn),
{
    match conn.connection {
        DrmModeConnection::Connected => {},
        _ => {
            return Err(SetupError::UnusedConnector(conn.connector_id));
        },
    }
    if conn.modes.len() == 0 {
        return Err(SetupError::NoValidMode(conn.connector_id));
    }
    Ok(conn.modes[0])
}

/// What matching decides for a connector: skipped unless something is
/// plugged in, skipped unless it lists a mode, else its first mode on the
/// controller that `find_crtc_spec` picks.
pub open spec fn setup_spec(
    conn: DrmModeConnector,
    enc: Option<DrmModeEncoder>,
    devs: Seq<ModesetDev>,
) -> Result<SetupPlan, SetupError> {
    match usable_mode(conn) {
        Err(error) => Err(error),
        Ok(mode) => match find_crtc_spec(conn.connector_id, conn.encoder_id, enc, devs) {
            Ok(crtc) => Ok(SetupPlan { conn: conn.connector_id, crtc, mode }),
            Err(error) => Err(error),
        },
    }
}

/// Decides whether `conn` gets an output, and with which mode and
/// controller. `enc` is as for `modeset_find_crtc`.
pub fn modeset_setup_dev(
    conn: &DrmModeConnector,
    enc: Option<DrmModeEncoder>,
    dev_list: &Vec<ModesetDev>,
) -> (r: Result<SetupPlan, SetupError>)
    ensures
        r == setup_spec(*conn, enc, dev_list@),
        r is Ok ==> !claimed(dev_list@, r->Ok_0.crtc),
{
    let mode: DrmModeModeInfo = match connector_mode(conn) {
        Ok(mode) => mode,
        Err(error) => {
            return Err(error);
        },
    };
    match modeset_find_crtc(conn, enc, dev_list) {
        Ok(crtc) => Ok(SetupPlan { conn: conn.connector_id, crtc, mode }),
        Err(error) => Err(error),
    }
}

/// The output that a plan and its buffer make.
pub open spec fn output_of(plan: SetupPlan, buffer: BufferDescriptor) -> ModesetDev {
    ModesetDev {
        width: plan.mode.hdisplay,
        height: plan.mode.vdisplay,
        stride: buffer.stride,
        size: buffer.size,
        handle: buffer.handle,
        map_offset: buffer.map_offset,
        mode: plan.mode,
        fb: buffer.fb,
        conn: plan.conn,
        crtc: plan.crtc,
        saved_crtc: None,
    }
}

/// What becomes of a connector once its buffer negotiation is over: it is
/// skipped if the negotiation failed, if its controller has been claimed in
/// the meantime, or if the buffer does not hold the mode's picture.
pub open spec fn admission(
    devs: Seq<ModesetDev>,
    plan: SetupPlan,
    buffer: Result<BufferDescriptor, ProvisionError>,
) -> Result<ModesetDev, SetupError> {
    match buffer {
        Err(error) => Err(SetupError::Provision(error)),
        Ok(b) => if claimed(devs, plan.crtc) {
            Err(SetupError::NoSuitableCrtc(plan.conn))
        } else if !geometry_ok(
            plan.mode.hdisplay as int,
            plan.mode.vdisplay as int,
            b.stride as int,
            b.size as int,
        ) {
            Err(SetupError::Provision(ProvisionError::UnusableBuffer))
        } else {
            Ok(output_of(plan, b))
        },
    }
}

/// A buffer that holds the mode's picture, for a controller that nobody
/// claimed, always becomes an output.
pub proof fn lemma_fitting_buffer_is_admitted(
    devs: Seq<ModesetDev>,
    plan: SetupPlan,
    buffer: BufferDescriptor,
)
    requires
        !claimed(devs, plan.crtc),
        geometry_ok(
            plan.mode.hdisplay as int,
            plan.mode.vdisplay as int,
            buffer.stride as int,
            buffer.size as int,
        ),
    ensures
        admission(devs, plan, Ok(buffer)) == Ok::<ModesetDev, SetupError>(output_of(plan, buffer)),
        prepare_step(devs, plan, Ok(buffer)) == devs.push(output_of(plan, buffer)),
{
}

/// The active outputs after one more connector has been dealt with.
pub open spec fn prepare_step(
    devs: Seq<ModesetDev>,
    plan: SetupPlan,
    buffer: Result<BufferDescriptor, ProvisionError>,
) -> Seq<ModesetDev> {
    match admission(devs, plan, buffer) {
        Ok(dev) => devs.push(dev),
        Err(_) => devs,
    }
}

/// Ends the work on one connector: appends its output to the active ones,
/// or says why the connector is skipped and leaves them as they are.
pub fn modeset_prepare(
    dev_list: &mut Vec<ModesetDev>,
    plan: &SetupPlan,
    buffer: Result<BufferDescriptor, ProvisionError>,
) -> (r: Result<(), SetupError>)
    ensures
        final(dev_list)@ == prepare_step(old(dev_list)@, *plan, buffer),
        r is Ok <==> admission(old(dev_list)@, *plan, buffer) is Ok,
        r is Err ==> admission(old(dev_list)@, *plan, buffer) == Err::<ModesetDev, SetupError>(
            r->Err_0,
        ),
        distinct_crtcs(old(dev_list)@) ==> distinct_crtcs(final(dev_list)@),
        all_wf(old(dev_list)@) ==> all_wf(final(dev_list)@),
{
    proof {
        lemma_step_keeps_outputs_sound(dev_list@, *plan, buffer);
    }
    match buffer {
        Err(error) => Err(SetupError::Provision(error)),
        Ok(b) => {
            if is_claimed(dev_list, plan.crtc) {
                Err(SetupError::NoSuitableCrtc(plan.conn))
            } else if !holds_picture(
                plan.mode.hdisplay as u32,
                plan.mode.vdisplay as u32,
                b.stride,
                b.size,
            ) {
                Err(SetupError::Provision(ProvisionError::UnusableBuffer))
            } else {
                dev_list.push(
                    ModesetDev {
                        width: plan.mode.hdisplay,
                        height: plan.mode.vdisplay,
                        stride: b.stride,
                        size: b.size,
                        handle: b.handle,
                        map_offset: b.map_offset,
                        mode: plan.mode,
                        fb: b.fb,
                        conn: plan.conn,
                        crtc: plan.crtc,
                        saved_crtc: None,
                    },
                );
                Ok(())
            }
        },
    }
}

/// Dealing with one more connector keeps the controllers distinct and the
/// outputs well formed.
pub proof fn lemma_step_keeps_outputs_sound(
    devs: Seq<ModesetDev>,
    plan: SetupPlan,
    buffer: Result<BufferDescriptor, ProvisionError>,
)
    ensures
        distinct_crtcs(devs) ==> distinct_crtcs(prepare_step(devs, plan, buffer)),
        all_wf(devs) ==> all_wf(prepare_step(devs, plan, buffer)),
{
    let after = prepare_step(devs, plan, buffer);
    if admission(devs, plan, buffer) is Ok {
        let dev = output_of(plan, buffer->Ok_0);
        assert(after == devs.push(dev));
        if distinct_crtcs(devs) {
            assert forall|i: int, j: int|
                0 <= i < after.len() && 0 <= j < after.len() && i != j implies (
            #[trigger] after[i]).crtc != (#[trigger] after[j]).crtc by {
                if i < devs.len() {
                    assert(after[i] == devs[i]);
                }
                if j < devs.len() {
                    assert(after[j] == devs[j]);
                }
            }
        }
        if all_wf(devs) {
            assert forall|i: int| 0 <= i < after.len() implies (#[trigger] after[i]).wf() by {
                if i < devs.len() {
                    assert(after[i] == devs[i]);
                }
            }
        }
    }
}

/// The active outputs after the connectors whose plans and negotiation
/// results are listed in `steps` have been dealt with, in order.
pub open spec fn prepare_all(steps: Seq<(SetupPlan, Result<BufferDescriptor, ProvisionError>)>) -> Seq<
    ModesetDev,
>
    decreases steps.len(),
{
    if steps.len() == 0 {
        Seq::empty()
    } else {
        prepare_step(prepare_all(steps.drop_last()), steps.last().0, steps.last().1)
    }
}

/// Whatever connectors are dealt with, in whatever order and with whatever
/// plans and buffers: no controller drives two active outputs, and every
/// active output has a buffer that holds its picture.
pub proof fn lemma_controllers_unique(
    steps: Seq<(SetupPlan, Result<BufferDescriptor, ProvisionError>)>,
)
    ensures
        distinct_crtcs(prepare_all(steps)),
        all_wf(prepare_all(steps)),
    decreases steps.len(),
{
    if steps.len() > 0 {
        lemma_controllers_unique(steps.drop_last());
        lemma_step_keeps_outputs_sound(
            prepare_all(steps.drop_last()),
            steps.last().0,
            steps.last().1,
        );
    }
}

/// A connector whose bound encoder is driven by a controller that nobody
/// claimed gets that controller; once the controller is claimed, the
/// connector gets none.
pub proof fn lemma_fast_path(
    conn_id: u32,
    encoder_id: u32,
    enc: DrmModeEncoder,
    devs: Seq<ModesetDev>,
)
    requires
        encoder_id != 0,
        enc.crtc_id != 0,
    ensures
        !claimed(devs, enc.crtc_id) ==> find_crtc_spec(conn_id, encoder_id, Some(enc), devs) == Ok::<
            u32,
            SetupError,
        >(enc.crtc_id),
        claimed(devs, enc.crtc_id) ==> find_crtc_spec(conn_id, encoder_id, Some(enc), devs) == Err::<
            u32,
            SetupError,
        >(SetupError::NoSuitableCrtc(conn_id)),
{
}

} // verus!
