use modeset::kms::{
    DrmModeConnection, DrmModeConnector, DrmModeCrtc, DrmModeEncoder, DrmModeModeInfo, DrmModeRes,
    DrmModeSubPixel,
};
use modeset::orchestrator::{Phase, Report, Session, SessionAction, SessionEvent};
use modeset::provision::{ProvisionAction, ProvisionError, ProvisionEvent};
use modeset::session::{SessionError, SetupError};

fn timing(width: u16, height: u16) -> DrmModeModeInfo {
    DrmModeModeInfo {
        clock: 1,
        hdisplay: width,
        hsync_start: 0,
        hsync_end: 0,
        htotal: 0,
        hskew: 0,
        vdisplay: height,
        vsync_start: 0,
        vsync_end: 0,
        vtotal: 0,
        vscan: 0,
        vrefresh: 60,
        flags: 0,
        mode_type: 0,
        name: [0; 32],
    }
}

/// A device: its connectors as (id, plugged, picture width, encoder,
/// controller of that encoder), the controllers that show something, and a
/// record of every request.
struct Machine {
    connectors: Vec<(u32, bool, u16, u32, u32)>,
    lit: Vec<u32>,
    no_catalog: bool,
    missing_connector: u32,
    fail_fb_for_width: u32,
    fail_set_crtc: u32,
    next_handle: u32,
    live_buffers: Vec<u32>,
    live_fbs: Vec<u32>,
    log: Vec<String>,
}

fn machine(connectors: Vec<(u32, bool, u16, u32, u32)>) -> Machine {
    Machine {
        connectors,
        lit: Vec::new(),
        no_catalog: false,
        missing_connector: 0,
        fail_fb_for_width: 0,
        fail_set_crtc: 0,
        next_handle: 1,
        live_buffers: Vec::new(),
        live_fbs: Vec::new(),
        log: Vec::new(),
    }
}

fn negotiate(m: &mut Machine, action: ProvisionAction) -> ProvisionEvent {
    match action {
        ProvisionAction::CreateDumb(req) => {
            let mut reply = req;
            reply.handle = m.next_handle;
            reply.pitch = req.width * 4;
            reply.size = req.width as u64 * 4 * req.height as u64;
            m.next_handle += 1;
            m.live_buffers.push(reply.handle);
            ProvisionEvent::Created(Ok(reply))
        }
        ProvisionAction::AddFb { width, handle, .. } => {
            if width == m.fail_fb_for_width {
                return ProvisionEvent::Bound(Err(-22));
            }
            m.live_fbs.push(handle + 100);
            ProvisionEvent::Bound(Ok(handle + 100))
        }
        ProvisionAction::MapDumb(req) => {
            let mut reply = req;
            reply.offset = 0x1000 * req.handle as u64;
            ProvisionEvent::Located(Ok(reply))
        }
        ProvisionAction::MapAndClear { .. } => ProvisionEvent::Cleared(true),
        ProvisionAction::RmFb(fb) => {
            let at = m.live_fbs.iter().position(|f| *f == fb).unwrap();
            m.live_fbs.remove(at);
            ProvisionEvent::Released
        }
        ProvisionAction::DestroyDumb(req) => {
            let at = m.live_buffers.iter().position(|h| *h == req.handle).unwrap();
            m.live_buffers.remove(at);
            ProvisionEvent::Released
        }
        other => panic!("not a request: {:?}", other),
    }
}

fn answer(m: &mut Machine, action: SessionAction) -> Option<SessionEvent> {
    Some(match action {
        SessionAction::GetCapability(cap) => {
            assert_eq!(cap, 1);
            SessionEvent::Capability(Ok(1))
        }
        SessionAction::GetResources => {
            if m.no_catalog {
                return Some(SessionEvent::Catalog(None));
            }
            SessionEvent::Catalog(Some(DrmModeRes {
                fbs: Vec::new(),
                crtcs: vec![5, 6, 7],
                connectors: m.connectors.iter().map(|c| c.0).collect(),
                encoders: m.connectors.iter().map(|c| c.3).collect(),
                min_width: 0,
                max_width: 8192,
                min_height: 0,
                max_height: 8192,
            }))
        }
        SessionAction::GetConnector(id) => {
            m.log.push(format!("connector {}", id));
            if id == m.missing_connector {
                return Some(SessionEvent::Connector(None));
            }
            let c = *m.connectors.iter().find(|c| c.0 == id).unwrap();
            SessionEvent::Connector(Some(DrmModeConnector {
                connector_id: c.0,
                encoder_id: c.3,
                connector_type: 0,
                connector_type_id: 0,
                connection: if c.1 {
                    DrmModeConnection::Connected
                } else {
                    DrmModeConnection::Disconnected
                },
                mm_width: 0,
                mm_height: 0,
                subpixel: DrmModeSubPixel::Unknown,
                modes: if c.2 == 0 { Vec::new() } else { vec![timing(c.2, c.2 / 16 * 9)] },
                props: Vec::new(),
                prop_values: Vec::new(),
                encoders: Vec::new(),
            }))
        }
        SessionAction::GetEncoder(id) => {
            let c = *m.connectors.iter().find(|c| c.3 == id).unwrap();
            SessionEvent::Encoder(Some(DrmModeEncoder {
                encoder_id: id,
                encoder_type: 0,
                crtc_id: c.4,
                possible_crtcs: 7,
                possible_clones: 0,
            }))
        }
        SessionAction::Provision(request) => SessionEvent::Provision(negotiate(m, request)),
        SessionAction::GetCrtc(id) => {
            if m.lit.contains(&id) {
                SessionEvent::Crtc(Some(DrmModeCrtc {
                    crtc_id: id,
                    buffer_id: 900 + id,
                    x: 1,
                    y: 2,
                    width: 640,
                    height: 480,
                    mode_valid: 1,
                    mode: timing(640, 480),
                    gamma_size: 0,
                }))
            } else {
                SessionEvent::Crtc(None)
            }
        }
        SessionAction::SetCrtc(req) => {
            m.log.push(format!(
                "set crtc {} fb {} at {},{} conn {} {}x{}",
                req.crtc_id,
                req.buffer_id,
                req.x,
                req.y,
                req.connector,
                req.mode.hdisplay,
                req.mode.vdisplay
            ));
            if req.crtc_id == m.fail_set_crtc {
                SessionEvent::CrtcSet(Err(-13))
            } else {
                SessionEvent::CrtcSet(Ok(()))
            }
        }
        SessionAction::Render(dev) => {
            m.log.push(format!("render conn {}", dev.conn));
            SessionEvent::Rendered
        }
        SessionAction::RmFb(fb) => {
            m.log.push(format!("rmfb {}", fb));
            let at = m.live_fbs.iter().position(|f| *f == fb).unwrap();
            m.live_fbs.remove(at);
            SessionEvent::Released
        }
        SessionAction::DestroyDumb(req) => {
            m.log.push(format!("destroy {}", req.handle));
            let at = m.live_buffers.iter().position(|h| *h == req.handle).unwrap();
            m.live_buffers.remove(at);
            SessionEvent::Released
        }
        SessionAction::Stop => return None,
        SessionAction::Idle => panic!("the session did not take an answer to its own request"),
    })
}

fn play(m: &mut Machine) -> (Session, Vec<String>) {
    let (mut session, mut action) = Session::new();
    let mut reports = Vec::new();
    for _ in 0..1000 {
        let event = match answer(m, action) {
            Some(e) => e,
            None => return (session, reports),
        };
        let step = session.step(event);
        match step.report {
            Report::Nothing => {}
            other => reports.push(format!("{:?}", other)),
        }
        action = step.action;
        for i in 0..session.devs.len() {
            for j in 0..i {
                assert!(session.devs[i].crtc != session.devs[j].crtc);
            }
            let d = &session.devs[i];
            assert!(d.stride as u64 * d.height as u64 <= d.size);
        }
    }
    panic!("the session did not stop");
}

#[test]
fn session_with_one_output() {
    let mut m = machine(vec![(30, true, 1920, 20, 5)]);
    m.lit = vec![5];
    let (session, reports) = play(&mut m);
    assert_eq!(session.outcome(), Some(Ok(())));
    assert_eq!(reports, vec!["Prepared { conn: 30, width: 1920, height: 1080 }"]);
    assert_eq!(
        m.log,
        vec![
            "connector 30",
            "set crtc 5 fb 101 at 0,0 conn 30 1920x1080",
            "render conn 30",
            "set crtc 5 fb 905 at 1,2 conn 30 640x480",
            "rmfb 101",
            "destroy 1",
        ]
    );
    assert_eq!(session.devs.len(), 1);
    assert!(session.devs[0].size >= session.devs[0].stride as u64 * 1080);
    assert!(m.live_buffers.is_empty() && m.live_fbs.is_empty());
}

#[test]
fn session_leaves_dark_controller_alone() {
    let mut m = machine(vec![(30, true, 1920, 20, 5)]);
    let (session, _) = play(&mut m);
    assert_eq!(session.outcome(), Some(Ok(())));
    assert_eq!(
        m.log,
        vec![
            "connector 30",
            "set crtc 5 fb 101 at 0,0 conn 30 1920x1080",
            "render conn 30",
            "rmfb 101",
            "destroy 1",
        ]
    );
}

#[test]
fn session_skips_and_goes_on() {
    let mut m = machine(vec![
        (30, false, 1920, 20, 5),
        (31, true, 0, 21, 5),
        (32, true, 1280, 0, 0),
        (33, true, 1600, 23, 0),
        (34, true, 1024, 24, 6),
        (35, true, 800, 25, 6),
        (36, true, 640, 26, 7),
        (37, true, 320, 27, 5),
    ]);
    m.fail_fb_for_width = 640;
    m.lit = vec![5];
    m.fail_set_crtc = 6;
    let (session, reports) = play(&mut m);
    assert_eq!(session.outcome(), Some(Ok(())));
    assert_eq!(
        reports,
        vec![
            "Skipped(UnusedConnector(30))",
            "Skipped(NoValidMode(31))",
            "Skipped(NoSuitableCrtc(32))",
            "Skipped(NoSuitableCrtc(33))",
            "Prepared { conn: 34, width: 1024, height: 576 }",
            "Skipped(NoSuitableCrtc(35))",
            "Skipped(Provision(CreateFb(-22)))",
            "Prepared { conn: 37, width: 320, height: 180 }",
            "NotActivated { conn: 34, code: -13 }",
        ]
    );
    let got: Vec<(u32, u32)> = session.devs.iter().map(|d| (d.conn, d.crtc)).collect();
    assert_eq!(got, vec![(34, 6), (37, 5)]);
    let tail: Vec<&str> = m.log.iter().skip(8).map(|s| s.as_str()).collect();
    assert_eq!(
        tail,
        vec![
            "set crtc 6 fb 101 at 0,0 conn 34 1024x576",
            "set crtc 5 fb 103 at 0,0 conn 37 320x180",
            "render conn 34",
            "set crtc 5 fb 905 at 1,2 conn 37 640x480",
            "rmfb 101",
            "destroy 1",
            "rmfb 103",
            "destroy 3",
        ]
    );
    assert!(m.live_buffers.is_empty() && m.live_fbs.is_empty());
}

#[test]
fn session_without_outputs_completes() {
    let mut m = machine(Vec::new());
    let (session, reports) = play(&mut m);
    assert_eq!(session.outcome(), Some(Ok(())));
    assert!(reports.is_empty() && m.log.is_empty());
}

#[test]
fn session_aborts_without_capability() {
    let (mut session, action) = Session::new();
    assert!(matches!(action, SessionAction::GetCapability(1)));
    assert_eq!(session.outcome(), None);
    let step = session.step(SessionEvent::Capability(Ok(0)));
    assert!(matches!(step.action, SessionAction::Stop));
    assert_eq!(session.outcome(), Some(Err(SessionError::DumbBuffersUnsupported)));
    let (mut session, _) = Session::new();
    let step = session.step(SessionEvent::Capability(Err(-1)));
    assert!(matches!(step.action, SessionAction::Stop));
    assert_eq!(session.outcome(), Some(Err(SessionError::DumbBuffersUnsupported)));
}

#[test]
fn session_aborts_without_catalog() {
    let mut m = machine(vec![(30, true, 1920, 20, 5)]);
    m.no_catalog = true;
    let (session, _) = play(&mut m);
    assert_eq!(session.outcome(), Some(Err(SessionError::NoResources)));
    assert!(m.log.is_empty());
}

#[test]
fn session_aborts_on_missing_connector_and_releases() {
    let mut m = machine(vec![(30, true, 1920, 20, 5), (31, true, 1280, 21, 6)]);
    m.missing_connector = 31;
    let (session, _) = play(&mut m);
    assert_eq!(session.outcome(), Some(Err(SessionError::NoConnector(31))));
    assert_eq!(m.log, vec!["connector 30", "connector 31", "rmfb 101", "destroy 1"]);
    assert!(m.live_buffers.is_empty() && m.live_fbs.is_empty());
}

#[test]
fn session_ignores_stray_events() {
    let (mut session, _) = Session::new();
    let step = session.step(SessionEvent::Rendered);
    assert!(matches!(step.action, SessionAction::Idle));
    assert!(matches!(step.report, Report::Nothing));
    assert!(matches!(session.phase, Phase::Opened));
    let step = session.step(SessionEvent::Capability(Ok(1)));
    assert!(matches!(step.action, SessionAction::GetResources));
    let step = session.step(SessionEvent::Released);
    assert!(matches!(step.action, SessionAction::Idle));
    assert!(matches!(session.phase, Phase::LoadingCatalog));
}

#[test]
fn session_reports_failed_negotiation() {
    let mut m = machine(vec![(30, true, 640, 20, 5)]);
    m.fail_fb_for_width = 640;
    let (session, reports) = play(&mut m);
    assert_eq!(session.outcome(), Some(Ok(())));
    assert!(session.devs.is_empty());
    assert_eq!(reports, vec![format!("{:?}", Report::Skipped(SetupError::Provision(ProvisionError::CreateFb(-22))))]);
    assert!(m.live_buffers.is_empty() && m.live_fbs.is_empty());
}
