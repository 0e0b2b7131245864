//! The session from the capability query to the last release, as a machine
//! that is told what the kernel answered and says what to ask next.
//!
//! Connectors are dealt with in the catalog's order. An output that cannot
//! be matched or provisioned is skipped and reported; only a missing
//! capability, a missing catalog or a missing connector record ends the
//! session early. Whatever became active is released before the session
//! closes, frame buffer first.

use vstd::prelude::*;
use crate::kms::{
    DrmModeConnector, DrmModeCrtc, DrmModeEncoder, DrmModeModeInfo, DrmModeRes, CAP_DUMB_BUFFER,
};
use crate::mode::drm_mode_destroy_dumb;
use crate::provision::{
    create_fb_step, fits, lemma_step_keeps_fit, modeset_create_fb, ProvisionAction,
    ProvisionEvent, ProvisionState,
};
use crate::session::{
    admission, all_wf, connector_mode, claimed, distinct_crtcs, encoder_wanted, find_crtc_spec,
    lemma_step_keeps_outputs_sound, modeset_open, modeset_prepare, output_of, pick_crtc,
    prepare_step,
    usable_mode, ModesetDev, SessionError, SetCrtcRequest, SetupError, SetupPlan,
};

verus! {

/// What is kept of a connector while its encoder's record is fetched.
#[derive(Debug, Clone, Copy)]
pub struct Candidate {
    pub conn: u32,
    pub encoder_id: u32,
    pub mode: DrmModeModeInfo,
}

/// Where the session stands. A waiting phase names the request whose answer
/// it waits for; `index` counts connectors while outputs are prepared and
/// active outputs afterwards.
#[derive(Debug, Clone, Copy)]
pub enum Phase {
    /// Waiting for the capability query.
    Opened,
    /// Waiting for the resource catalog.
    LoadingCatalog,
    /// Waiting for a connector's record.
    FetchingConnector { index: usize },
    /// Waiting for the record of the connector's encoder.
    FetchingEncoder { index: usize, candidate: Candidate },
    /// Waiting for the next answer in the buffer negotiation.
    Provisioning { index: usize, plan: SetupPlan, state: ProvisionState },
    /// Waiting for what the output's controller shows now.
    SavingCrtc { index: usize },
    /// Waiting for the controller to take the output's frame buffer.
    Activating { index: usize },
    /// Waiting for the animation to end.
    Rendering,
    /// Waiting for the controller to take back what it showed before.
    Restoring { index: usize },
    /// Waiting for the output's frame buffer to be removed.
    RemovingFb { index: usize, result: Result<(), SessionError> },
    /// Waiting for the output's buffer to be destroyed.
    Destroying { index: usize, result: Result<(), SessionError> },
    /// The session is over: completed, or aborted for the reason given.
    Closed(Result<(), SessionError>),
}

/// What the caller reports to the session.
#[derive(Debug)]
pub enum SessionEvent {
    /// Answer to the capability query.
    Capability(Result<u64, i32>),
    /// The resource catalog, or `None` if the kernel gave none.
    Catalog(Option<DrmModeRes>),
    /// A connector's record, or `None` if the kernel gave none.
    Connector(Option<DrmModeConnector>),
    /// An encoder's record, or `None` if the kernel gave none.
    Encoder(Option<DrmModeEncoder>),
    /// Outcome of a request of the buffer negotiation.
    Provision(ProvisionEvent),
    /// What a controller shows, or `None` if it shows nothing.
    Crtc(Option<DrmModeCrtc>),
    /// Outcome of programming a controller.
    CrtcSet(Result<(), i32>),
    /// The animation has ended.
    Rendered,
    /// A release request has returned; its own outcome does not matter.
    Released,
}

/// What the session asks the caller to do next.
#[derive(Debug, Clone, Copy)]
pub enum SessionAction {
    /// Query this capability.
    GetCapability(u64),
    /// Fetch the resource catalog.
    GetResources,
    /// Fetch this connector's record.
    GetConnector(u32),
    /// Fetch this encoder's record.
    GetEncoder(u32),
    /// Carry out this request of the buffer negotiation.
    Provision(ProvisionAction),
    /// Fetch what this controller shows.
    GetCrtc(u32),
    /// Program a controller.
    SetCrtc(SetCrtcRequest),
    /// Play the animation on this output.
    Render(ModesetDev),
    /// Remove this frame buffer.
    RmFb(u32),
    /// Send this destroy request.
    DestroyDumb(drm_mode_destroy_dumb),
    /// The session is over; its phase holds the result.
    Stop,
    /// The event does not answer the pending request; nothing changed.
    Idle,
}

/// What the caller should tell the user about the step just taken.
#[derive(Debug, Clone, Copy)]
pub enum Report {
    /// Nothing.
    Nothing,
    /// A connector was skipped.
    Skipped(SetupError),
    /// An output became active with a picture of this size.
    Prepared { conn: u32, width: u16, height: u16 },
    /// A controller refused the output's frame buffer, with this error code.
    NotActivated { conn: u32, code: i32 },
}

/// The answer to one event.
#[derive(Debug, Clone, Copy)]
pub struct SessionStep {
    pub action: SessionAction,
    pub report: Report,
}

/// A session: its phase, the connectors of the catalog, and the outputs
/// that are active.
#[derive(Debug)]
pub struct Session {
    pub phase: Phase,
    pub connectors: Vec<u32>,
    pub devs: Vec<ModesetDev>,
}

/// A session as plain values.
pub ghost struct SessionModel {
    pub phase: Phase,
    pub connectors: Seq<u32>,
    pub devs: Seq<ModesetDev>,
}

/// Turns to connector number `index`, or to activation after the last.
pub open spec fn to_connector(index: int, connectors: Seq<u32>, devs: Seq<ModesetDev>) -> (
    Phase,
    SessionAction,
) {
    if index < connectors.len() {
        (Phase::FetchingConnector { index: index as usize }, SessionAction::GetConnector(connectors[index]))
    } else {
        to_activation(0, devs)
    }
}

/// Turns to the activation of output number `index`, or to the animation
/// after the last.
pub open spec fn to_activation(index: int, devs: Seq<ModesetDev>) -> (Phase, SessionAction) {
    if index < devs.len() {
        (Phase::SavingCrtc { index: index as usize }, SessionAction::GetCrtc(devs[index].crtc))
    } else if devs.len() > 0 {
        (Phase::Rendering, SessionAction::Render(devs[0]))
    } else {
        to_close(0, devs, Ok(()))
    }
}

/// The first output from number `from` on that remembers what its
/// controller showed; the number of outputs if there is none.
pub open spec fn next_saved(devs: Seq<ModesetDev>, from: int) -> int
    decreases devs.len() - from,
{
    if from >= devs.len() {
        devs.len() as int
    } else if devs[from].saved_crtc is Some {
        from
    } else {
        next_saved(devs, from + 1)
    }
}

/// The request that gives output `dev`'s controller back what it showed.
pub open spec fn restoration_of(dev: ModesetDev) -> SetCrtcRequest {
    SetCrtcRequest {
        crtc_id: dev.saved_crtc->Some_0.crtc_id,
        buffer_id: dev.saved_crtc->Some_0.buffer_id,
        x: dev.saved_crtc->Some_0.x,
        y: dev.saved_crtc->Some_0.y,
        connector: dev.conn,
        mode: dev.saved_crtc->Some_0.mode,
    }
}

/// Turns to the restoration of the first output from number `from` on that
/// has something to restore, or to the release of the outputs if none has.
pub open spec fn to_restore(from: int, devs: Seq<ModesetDev>) -> (Phase, SessionAction) {
    let index = next_saved(devs, from);
    if index < devs.len() {
        (Phase::Restoring { index: index as usize }, SessionAction::SetCrtc(restoration_of(devs[index])))
    } else {
        to_close(0, devs, Ok(()))
    }
}

/// Turns to the release of output number `index`, or closes the session
/// with `result` after the last.
pub open spec fn to_close(index: int, devs: Seq<ModesetDev>, result: Result<(), SessionError>) -> (
    Phase,
    SessionAction,
) {
    if index < devs.len() {
        (Phase::RemovingFb { index: index as usize, result }, SessionAction::RmFb(devs[index].fb))
    } else {
        (Phase::Closed(result), SessionAction::Stop)
    }
}

/// The session in its next phase, with nothing to report.
pub open spec fn quiet(m: SessionModel, next: (Phase, SessionAction)) -> (SessionModel, SessionStep) {
    (SessionModel { phase: next.0, ..m }, SessionStep { action: next.1, report: Report::Nothing })
}

/// The session after connector number `index` was skipped for `error`.
pub open spec fn skip(m: SessionModel, index: usize, error: SetupError) -> (
    SessionModel,
    SessionStep,
) {
    let next = to_connector(index + 1, m.connectors, m.devs);
    (SessionModel { phase: next.0, ..m }, SessionStep { action: next.1, report: Report::Skipped(error) })
}

/// The session's transition: what the session is after `event`, and the
/// answer to give.
pub open spec fn session_step(m: SessionModel, event: SessionEvent) -> (SessionModel, SessionStep) {
    match (m.phase, event) {
        (Phase::Opened, SessionEvent::Capability(Ok(value))) => if value != 0 {
            quiet(m, (Phase::LoadingCatalog, SessionAction::GetResources))
        } else {
            quiet(m, (Phase::Closed(Err(SessionError::DumbBuffersUnsupported)), SessionAction::Stop))
        },
        (Phase::Opened, SessionEvent::Capability(Err(_))) => quiet(
            m,
            (Phase::Closed(Err(SessionError::DumbBuffersUnsupported)), SessionAction::Stop),
        ),
        (Phase::LoadingCatalog, SessionEvent::Catalog(None)) => quiet(
            m,
            (Phase::Closed(Err(SessionError::NoResources)), SessionAction::Stop),
        ),
        (Phase::LoadingCatalog, SessionEvent::Catalog(Some(res))) => {
            let next = to_connector(0, res.connectors@, m.devs);
            (
                SessionModel { phase: next.0, connectors: res.connectors@, devs: m.devs },
                SessionStep { action: next.1, report: Report::Nothing },
            )
        },
        (Phase::FetchingConnector { index }, SessionEvent::Connector(None)) => quiet(
            m,
            to_close(0, m.devs, Err(SessionError::NoConnector(m.connectors[index as int]))),
        ),
        (Phase::FetchingConnector { index }, SessionEvent::Connector(Some(conn))) => {
            match usable_mode(conn) {
                Err(error) => skip(m, index, error),
                Ok(mode) => if conn.encoder_id == 0 {
                    skip(m, index, SetupError::NoSuitableCrtc(conn.connector_id))
                } else {
                    quiet(
                        m,
                        (
                            Phase::FetchingEncoder {
                                index,
                                candidate: Candidate {
                                    conn: conn.connector_id,
                                    encoder_id: conn.encoder_id,
                                    mode,
                                },
                            },
                            SessionAction::GetEncoder(conn.encoder_id),
                        ),
                    )
                },
            }
        },
        (Phase::FetchingEncoder { index, candidate }, SessionEvent::Encoder(enc)) => {
            match find_crtc_spec(candidate.conn, candidate.encoder_id, enc, m.devs) {
                Err(error) => skip(m, index, error),
                Ok(crtc) => {
                    let begun = create_fb_step(
                        ProvisionState::Start {
                            width: candidate.mode.hdisplay as u32,
                            height: candidate.mode.vdisplay as u32,
                        },
                        ProvisionEvent::Begin,
                    );
                    quiet(
                        m,
                        (
                            Phase::Provisioning {
                                index,
                                plan: SetupPlan { conn: candidate.conn, crtc, mode: candidate.mode },
                                state: begun.0,
                            },
                            SessionAction::Provision(begun.1),
                        ),
                    )
                },
            }
        },
        (Phase::Provisioning { index, plan, state }, SessionEvent::Provision(answer)) => {
            let inner = create_fb_step(state, answer);
            if inner.1 == ProvisionAction::Idle {
                (m, SessionStep { action: SessionAction::Idle, report: Report::Nothing })
            } else if inner.0.is_terminal() {
                let buffer = match inner.0 {
                    ProvisionState::Done(b) => Ok(b),
                    ProvisionState::Failed(e) => Err(e),
                    _ => arbitrary(),
                };
                let devs = prepare_step(m.devs, plan, buffer);
                let next = to_connector(index + 1, m.connectors, devs);
                (
                    SessionModel { phase: next.0, connectors: m.connectors, devs },
                    SessionStep {
                        action: next.1,
                        report: match admission(m.devs, plan, buffer) {
                            Ok(dev) => Report::Prepared {
                                conn: dev.conn,
                                width: dev.width,
                                height: dev.height,
                            },
                            Err(error) => Report::Skipped(error),
                        },
                    },
                )
            } else {
                quiet(
                    m,
                    (
                        Phase::Provisioning { index, plan, state: inner.0 },
                        SessionAction::Provision(inner.1),
                    ),
                )
            }
        },
        (Phase::SavingCrtc { index }, SessionEvent::Crtc(snapshot)) => {
            let dev = ModesetDev { saved_crtc: snapshot, ..m.devs[index as int] };
            (
                SessionModel {
                    phase: Phase::Activating { index },
                    connectors: m.connectors,
                    devs: m.devs.update(index as int, dev),
                },
                SessionStep {
                    action: SessionAction::SetCrtc(
                        SetCrtcRequest {
                            crtc_id: dev.crtc,
                            buffer_id: dev.fb,
                            x: 0,
                            y: 0,
                            connector: dev.conn,
                            mode: dev.mode,
                        },
                    ),
                    report: Report::Nothing,
                },
            )
        },
        (Phase::Activating { index }, SessionEvent::CrtcSet(outcome)) => {
            let next = to_activation(index + 1, m.devs);
            (
                SessionModel { phase: next.0, ..m },
                SessionStep {
                    action: next.1,
                    report: match outcome {
                        Ok(_) => Report::Nothing,
                        Err(code) => Report::NotActivated { conn: m.devs[index as int].conn, code },
                    },
                },
            )
        },
        (Phase::Rendering, SessionEvent::Rendered) => quiet(m, to_restore(0, m.devs)),
        (Phase::Restoring { index }, SessionEvent::CrtcSet(_)) => quiet(
            m,
            to_restore(index + 1, m.devs),
        ),
        (Phase::RemovingFb { index, result }, SessionEvent::Released) => quiet(
            m,
            (
                Phase::Destroying { index, result },
                SessionAction::DestroyDumb(
                    drm_mode_destroy_dumb { handle: m.devs[index as int].handle },
                ),
            ),
        ),
        (Phase::Destroying { index, result }, SessionEvent::Released) => quiet(
            m,
            to_close(index + 1, m.devs, result),
        ),
        _ => (m, SessionStep { action: SessionAction::Idle, report: Report::Nothing }),
    }
}

/// Whether a phase's counter points at something that exists, and a buffer
/// under negotiation is for a controller nobody has.
pub open spec fn phase_sound(phase: Phase, connectors: Seq<u32>, devs: Seq<ModesetDev>) -> bool {
    match phase {
        Phase::Opened => devs.len() == 0,
        Phase::LoadingCatalog => devs.len() == 0,
        Phase::FetchingConnector { index } => devs.len() <= index < connectors.len(),
        Phase::FetchingEncoder { index, candidate } => devs.len() <= index < connectors.len(),
        Phase::Provisioning { index, plan, state } => {
            &&& devs.len() <= index < connectors.len()
            &&& !claimed(devs, plan.crtc)
            &&& !state.is_terminal()
            &&& fits(state, plan.mode.hdisplay as u32, plan.mode.vdisplay as u32)
        },
        Phase::SavingCrtc { index } => index < devs.len(),
        Phase::Activating { index } => index < devs.len(),
        Phase::Rendering => devs.len() > 0,
        Phase::Restoring { index } => index < devs.len() && devs[index as int].saved_crtc is Some,
        Phase::RemovingFb { index, .. } => index < devs.len(),
        Phase::Destroying { index, .. } => index < devs.len(),
        _ => true,
    }
}

/// Whether a session is sound: there are no more outputs than connectors,
/// no two outputs share a controller, every output's buffer holds its
/// picture, and the phase is sound.
pub open spec fn sound(m: SessionModel) -> bool {
    &&& m.devs.len() <= m.connectors.len() <= usize::MAX
    &&& distinct_crtcs(m.devs)
    &&& all_wf(m.devs)
    &&& phase_sound(m.phase, m.connectors, m.devs)
}

/// Turns to the release of output number `index`.
fn turn_to_close(index: usize, devs: &Vec<ModesetDev>, result: Result<(), SessionError>) -> (r: (
    Phase,
    SessionAction,
))
    requires
        index <= devs.len(),
    ensures
        r == to_close(index as int, devs@, result),
{
    if index < devs.len() {
        (Phase::RemovingFb { index, result }, SessionAction::RmFb(devs[index].fb))
    } else {
        (Phase::Closed(result), SessionAction::Stop)
    }
}

/// Turns to the restoration of the first output from `from` on that has
/// something to restore.
fn turn_to_restore(from: usize, devs: &Vec<ModesetDev>) -> (r: (Phase, SessionAction))
    requires
        from <= devs.len(),
    ensures
        r == to_restore(from as int, devs@),
{
    let mut index: usize = from;
    while index < devs.len()
        invariant
            from <= index <= devs.len(),
            next_saved(devs@, index as int) == next_saved(devs@, from as int),
        decreases devs.len() - index,
    {
        if let Some(request) = devs[index].restoration() {
            return (Phase::Restoring { index }, SessionAction::SetCrtc(request));
        }
        index += 1;
    }
    turn_to_close(0, devs, Ok(()))
}

/// Turns to the activation of output number `index`.
fn turn_to_activation(index: usize, devs: &Vec<ModesetDev>) -> (r: (Phase, SessionAction))
    requires
        index <= devs.len(),
    ensures
        r == to_activation(index as int, devs@),
{
    if index < devs.len() {
        (Phase::SavingCrtc { index }, SessionAction::GetCrtc(devs[index].crtc))
    } else if devs.len() > 0 {
        (Phase::Rendering, SessionAction::Render(devs[0]))
    } else {
        turn_to_close(0, devs, Ok(()))
    }
}

/// Turns to connector number `index`.
fn turn_to_connector(index: usize, connectors: &Vec<u32>, devs: &Vec<ModesetDev>) -> (r: (
    Phase,
    SessionAction,
))
    requires
        index <= connectors.len(),
    ensures
        r == to_connector(index as int, connectors@, devs@),
{
    if index < connectors.len() {
        (Phase::FetchingConnector { index }, SessionAction::GetConnector(connectors[index]))
    } else {
        turn_to_activation(0, devs)
    }
}

/// A search for the next output to restore ends at an output that has
/// something to restore, or past the last output.
pub proof fn lemma_next_saved(devs: Seq<ModesetDev>, from: int)
    requires
        0 <= from <= devs.len(),
    ensures
        from <= next_saved(devs, from) <= devs.len(),
        next_saved(devs, from) < devs.len() ==> devs[next_saved(devs, from)].saved_crtc is Some,
    decreases devs.len() - from,
{
    if from < devs.len() && !(devs[from].saved_crtc is Some) {
        lemma_next_saved(devs, from + 1);
    }
}

/// One step keeps a session sound, whatever the caller reports.
pub proof fn lemma_step_keeps_session_sound(m: SessionModel, event: SessionEvent)
    requires
        sound(m),
    ensures
        sound(session_step(m, event).0),
{
    let after = session_step(m, event).0;
    lemma_next_saved(m.devs, 0);
    match (m.phase, event) {
        (Phase::LoadingCatalog, SessionEvent::Catalog(Some(res))) => {
            assert(res.connectors.len() == res.connectors@.len());
        },
        (Phase::Provisioning { index, plan, state }, SessionEvent::Provision(answer)) => {
            lemma_step_keeps_fit(
                state,
                answer,
                plan.mode.hdisplay as u32,
                plan.mode.vdisplay as u32,
            );
            let inner = create_fb_step(state, answer);
            if inner.0.is_terminal() {
                let buffer = match inner.0 {
                    ProvisionState::Done(b) => Ok(b),
                    ProvisionState::Failed(e) => Err(e),
                    _ => arbitrary(),
                };
                lemma_step_keeps_outputs_sound(m.devs, plan, buffer);
            }
        },
        (Phase::SavingCrtc { index }, SessionEvent::Crtc(snapshot)) => {
            assert forall|i: int| 0 <= i < after.devs.len() implies (#[trigger] after.devs[i]).crtc
                == m.devs[i].crtc && after.devs[i].wf() by {
                assert(m.devs[i].wf());
            }
            assert forall|i: int, j: int|
                0 <= i < after.devs.len() && 0 <= j < after.devs.len() && i != j implies (
            #[trigger] after.devs[i]).crtc != (#[trigger] after.devs[j]).crtc by {
                assert(m.devs[i].crtc != m.devs[j].crtc);
            }
        },
        (Phase::Restoring { index }, SessionEvent::CrtcSet(_)) => {
            lemma_next_saved(m.devs, index + 1);
        },
        _ => {},
    }
}

/// In a sound session a negotiation that ends with a buffer always adds an
/// output for it, so the buffer is released when the session closes; one
/// that ends in failure adds none.
pub proof fn lemma_negotiated_buffer_becomes_output(m: SessionModel, answer: ProvisionEvent)
    requires
        sound(m),
        m.phase is Provisioning,
        create_fb_step(m.phase->Provisioning_state, answer).0.is_terminal(),
    ensures
        session_step(m, SessionEvent::Provision(answer)).0.devs == match create_fb_step(
            m.phase->Provisioning_state,
            answer,
        ).0 {
            ProvisionState::Done(buffer) => m.devs.push(
                output_of(m.phase->Provisioning_plan, buffer),
            ),
            _ => m.devs,
        },
{
    let plan = m.phase->Provisioning_plan;
    lemma_step_keeps_fit(
        m.phase->Provisioning_state,
        answer,
        plan.mode.hdisplay as u32,
        plan.mode.vdisplay as u32,
    );
}

/// The session after the caller has reported `events`, in order, to a
/// session that has just been opened.
pub open spec fn session_after(events: Seq<SessionEvent>) -> SessionModel
    decreases events.len(),
{
    if events.len() == 0 {
        SessionModel { phase: Phase::Opened, connectors: Seq::empty(), devs: Seq::empty() }
    } else {
        session_step(session_after(events.drop_last()), events.last()).0
    }
}

/// Whatever the caller reports, in whatever order: no controller drives two
/// active outputs, and every active output has a buffer that holds its
/// picture.
pub proof fn lemma_session_always_sound(events: Seq<SessionEvent>)
    ensures
        sound(session_after(events)),
        distinct_crtcs(session_after(events).devs),
        all_wf(session_after(events).devs),
    decreases events.len(),
{
    if events.len() > 0 {
        lemma_session_always_sound(events.drop_last());
        lemma_step_keeps_session_sound(session_after(events.drop_last()), events.last());
    }
}

impl Session {
    /// The session as plain values.
    pub open spec fn view(&self) -> SessionModel {
        SessionModel { phase: self.phase, connectors: self.connectors@, devs: self.devs@ }
    }

    /// Whether the session is sound.
    pub open spec fn wf(&self) -> bool {
        sound(self@)
    }

    /// A session on a device that has just been opened, and its first
    /// request: the query for dumb-buffer support.
    pub fn new() -> (r: (Session, SessionAction))
        ensures
            r.0@ == (SessionModel {
                phase: Phase::Opened,
                connectors: Seq::empty(),
                devs: Seq::empty(),
            }),
            r.0.wf(),
            r.1 == SessionAction::GetCapability(1),
    {
        (
            Session { phase: Phase::Opened, connectors: Vec::new(), devs: Vec::new() },
            SessionAction::GetCapability(CAP_DUMB_BUFFER),
        )
    }

    /// The session's result once it is over; `None` while it runs.
    pub fn outcome(&self) -> (r: Option<Result<(), SessionError>>)
        ensures
            r == match self.phase {
                Phase::Closed(result) => Some(result),
                _ => None,
            },
    {
        match self.phase {
            Phase::Closed(result) => Some(result),
            _ => None,
        }
    }

    /// Moves to `next` with nothing to report.
    fn go(&mut self, next: (Phase, SessionAction)) -> (r: SessionStep)
        ensures
            final(self)@ == quiet(old(self)@, next).0,
            r == quiet(old(self)@, next).1,
    {
        self.phase = next.0;
        SessionStep { action: next.1, report: Report::Nothing }
    }

    /// Skips connector number `index` for `error`.
    fn pass(&mut self, index: usize, error: SetupError) -> (r: SessionStep)
        requires
            index < old(self).connectors@.len(),
        ensures
            final(self)@ == skip(old(self)@, index, error).0,
            r == skip(old(self)@, index, error).1,
    {
        assert(index < self.connectors.len());
        let next = turn_to_connector(index + 1, &self.connectors, &self.devs);
        self.phase = next.0;
        SessionStep { action: next.1, report: Report::Skipped(error) }
    }

    /// Takes one step: consumes the answer to the pending request and says
    /// what to request next and what to report.
    pub fn step(&mut self, event: SessionEvent) -> (r: SessionStep)
        requires
            old(self).wf(),
        ensures
            final(self)@ == session_step(old(self)@, event).0,
            r == session_step(old(self)@, event).1,
            final(self).wf(),
    {
        proof {
            lemma_step_keeps_session_sound(self@, event);
        }
        let idle = SessionStep { action: SessionAction::Idle, report: Report::Nothing };
        match (self.phase, event) {
            (Phase::Opened, SessionEvent::Capability(cap)) => {
                match modeset_open(cap) {
                    Ok(_) => self.go((Phase::LoadingCatalog, SessionAction::GetResources)),
                    Err(error) => self.go((Phase::Closed(Err(error)), SessionAction::Stop)),
                }
            },
            (Phase::LoadingCatalog, SessionEvent::Catalog(None)) => self.go(
                (Phase::Closed(Err(SessionError::NoResources)), SessionAction::Stop),
            ),
            (Phase::LoadingCatalog, SessionEvent::Catalog(Some(res))) => {
                self.connectors = res.connectors;
                let next = turn_to_connector(0, &self.connectors, &self.devs);
                self.go(next)
            },
            (Phase::FetchingConnector { index }, SessionEvent::Connector(None)) => {
                let id: u32 = self.connectors[index];
                let next = turn_to_close(0, &self.devs, Err(SessionError::NoConnector(id)));
                self.go(next)
            },
            (Phase::FetchingConnector { index }, SessionEvent::Connector(Some(conn))) => {
                match (connector_mode(&conn), encoder_wanted(&conn)) {
                    (Err(error), _) => self.pass(index, error),
                    (Ok(_), None) => self.pass(
                        index,
                        SetupError::NoSuitableCrtc(conn.connector_id),
                    ),
                    (Ok(mode), Some(encoder_id)) => {
                        let candidate = Candidate { conn: conn.connector_id, encoder_id, mode };
                        self.go(
                            (
                                Phase::FetchingEncoder { index, candidate },
                                SessionAction::GetEncoder(encoder_id),
                            ),
                        )
                    },
                }
            },
            (Phase::FetchingEncoder { index, candidate }, SessionEvent::Encoder(enc)) => {
                match pick_crtc(candidate.conn, candidate.encoder_id, enc, &self.devs) {
                    Err(error) => self.pass(index, error),
                    Ok(crtc) => {
                        let plan = SetupPlan { conn: candidate.conn, crtc, mode: candidate.mode };
                        let begun = modeset_create_fb(plan.provisioner(), ProvisionEvent::Begin);
                        self.go(
                            (
                                Phase::Provisioning { index, plan, state: begun.0 },
                                SessionAction::Provision(begun.1),
                            ),
                        )
                    },
                }
            },
            (Phase::Provisioning { index, plan, state }, SessionEvent::Provision(answer)) => {
                let inner = modeset_create_fb(state, answer);
                match inner.1 {
                    ProvisionAction::Idle => {
                        return idle;
                    },
                    _ => {},
                }
                match inner.0.outcome() {
                    Some(buffer) => {
                        let report = match modeset_prepare(&mut self.devs, &plan, buffer) {
                            Ok(_) => Report::Prepared {
                                conn: plan.conn,
                                width: plan.mode.hdisplay,
                                height: plan.mode.vdisplay,
                            },
                            Err(error) => Report::Skipped(error),
                        };
                        assert(index < self.connectors.len());
                        let next = turn_to_connector(index + 1, &self.connectors, &self.devs);
                        self.phase = next.0;
                        SessionStep { action: next.1, report }
                    },
                    None => self.go(
                        (
                            Phase::Provisioning { index, plan, state: inner.0 },
                            SessionAction::Provision(inner.1),
                        ),
                    ),
                }
            },
            (Phase::SavingCrtc { index }, SessionEvent::Crtc(snapshot)) => {
                let mut dev: ModesetDev = self.devs[index];
                dev.save_crtc(snapshot);
                self.devs[index] = dev;
                self.phase = Phase::Activating { index };
                SessionStep { action: SessionAction::SetCrtc(dev.activation()), report: Report::Nothing }
            },
            (Phase::Activating { index }, SessionEvent::CrtcSet(outcome)) => {
                let report = match outcome {
                    Ok(_) => Report::Nothing,
                    Err(code) => Report::NotActivated { conn: self.devs[index].conn, code },
                };
                assert(index < self.devs.len());
                let next = turn_to_activation(index + 1, &self.devs);
                self.phase = next.0;
                SessionStep { action: next.1, report }
            },
            (Phase::Rendering, SessionEvent::Rendered) => {
                let next = turn_to_restore(0, &self.devs);
                self.go(next)
            },
            (Phase::Restoring { index }, SessionEvent::CrtcSet(_)) => {
                assert(index < self.devs.len());
                let next = turn_to_restore(index + 1, &self.devs);
                self.go(next)
            },
            (Phase::RemovingFb { index, result }, SessionEvent::Released) => {
                let request = self.devs[index].release().1;
                self.go((Phase::Destroying { index, result }, SessionAction::DestroyDumb(request)))
            },
            (Phase::Destroying { index, result }, SessionEvent::Released) => {
                assert(index < self.devs.len());
                let next = turn_to_close(index + 1, &self.devs, result);
                self.go(next)
            },
            _ => idle,
        }
    }
}

} // verus!
