use modeset::mode::{drm_mode_create_dumb, drm_mode_destroy_dumb, drm_mode_map_dumb};
use modeset::provision::{
    holds_picture, err_destroy, err_fb, modeset_create_fb, BufferDescriptor, ProvisionAction,
    ProvisionError, ProvisionEvent, ProvisionState,
};

/// A kernel that hands out one buffer and one frame buffer, can be told to
/// fail at one step, and keeps count of what it handed out and took back.
struct FakeKernel {
    fail_at: u32,
    created: Vec<u32>,
    destroyed: Vec<u32>,
    fbs_added: Vec<u32>,
    fbs_removed: Vec<u32>,
    log: Vec<&'static str>,
}

fn fake(fail_at: u32) -> FakeKernel {
    FakeKernel {
        fail_at,
        created: Vec::new(),
        destroyed: Vec::new(),
        fbs_added: Vec::new(),
        fbs_removed: Vec::new(),
        log: Vec::new(),
    }
}

fn perform(kernel: &mut FakeKernel, action: ProvisionAction) -> Option<ProvisionEvent> {
    match action {
        ProvisionAction::CreateDumb(req) => {
            kernel.log.push("create");
            assert_eq!(req.bpp, 32);
            assert_eq!(req.flags, 0);
            if kernel.fail_at == 1 {
                return Some(ProvisionEvent::Created(Err(12)));
            }
            kernel.created.push(41);
            Some(ProvisionEvent::Created(Ok(drm_mode_create_dumb {
                handle: 41,
                pitch: req.width * 4 + 64,
                size: (req.width as u64 * 4 + 64) * req.height as u64,
                ..req
            })))
        }
        ProvisionAction::AddFb { width, height, depth, bpp, pitch, handle } => {
            kernel.log.push("addfb");
            assert_eq!((width, height, depth, bpp), (1920, 1080, 32, 32));
            assert_eq!(pitch, 1920 * 4 + 64);
            assert_eq!(handle, 41);
            if kernel.fail_at == 2 {
                return Some(ProvisionEvent::Bound(Err(-22)));
            }
            kernel.fbs_added.push(77);
            Some(ProvisionEvent::Bound(Ok(77)))
        }
        ProvisionAction::MapDumb(req) => {
            kernel.log.push("mapdumb");
            assert_eq!(req, drm_mode_map_dumb { handle: 41, pad: 0, offset: 0 });
            if kernel.fail_at == 3 {
                return Some(ProvisionEvent::Located(Err(13)));
            }
            Some(ProvisionEvent::Located(Ok(drm_mode_map_dumb { offset: 0x10000, ..req })))
        }
        ProvisionAction::MapAndClear { offset, size } => {
            kernel.log.push("mmap");
            assert_eq!(offset, 0x10000);
            assert_eq!(size, (1920 * 4 + 64) * 1080);
            Some(ProvisionEvent::Cleared(kernel.fail_at != 4))
        }
        ProvisionAction::RmFb(fb) => {
            kernel.log.push("rmfb");
            assert!(kernel.fbs_added.contains(&fb) && !kernel.fbs_removed.contains(&fb));
            kernel.fbs_removed.push(fb);
            Some(ProvisionEvent::Released)
        }
        ProvisionAction::DestroyDumb(req) => {
            kernel.log.push("destroy");
            assert!(kernel.created.contains(&req.handle));
            assert!(!kernel.destroyed.contains(&req.handle));
            assert_eq!(kernel.fbs_added, kernel.fbs_removed);
            kernel.destroyed.push(req.handle);
            Some(ProvisionEvent::Released)
        }
        ProvisionAction::Stop => None,
        ProvisionAction::Idle => panic!("the machine did not take an answer to its own request"),
    }
}

fn provision(kernel: &mut FakeKernel) -> Result<BufferDescriptor, ProvisionError> {
    let mut state = ProvisionState::Start { width: 1920, height: 1080 };
    let mut event = ProvisionEvent::Begin;
    for _ in 0..16 {
        let (next, action) = modeset_create_fb(state, event);
        state = next;
        match perform(kernel, action) {
            Some(e) => event = e,
            None => return state.outcome().unwrap(),
        }
        assert!(state.outcome().is_none());
    }
    panic!("the machine did not stop");
}

#[test]
fn provision_succeeds() {
    let mut kernel = fake(0);
    let buffer = provision(&mut kernel).unwrap();
    assert_eq!(
        buffer,
        BufferDescriptor {
            stride: 7744,
            handle: 41,
            size: 7744 * 1080,
            fb: 77,
            map_offset: 0x10000
        }
    );
    assert!(buffer.size >= buffer.stride as u64 * 1080);
    assert_eq!(kernel.log, vec!["create", "addfb", "mapdumb", "mmap"]);
    assert!(kernel.destroyed.is_empty() && kernel.fbs_removed.is_empty());
}

#[test]
fn failed_create_releases_nothing() {
    let mut kernel = fake(1);
    assert_eq!(provision(&mut kernel), Err(ProvisionError::CreateDumb(12)));
    assert_eq!(kernel.log, vec!["create"]);
    assert!(kernel.created.is_empty() && kernel.destroyed.is_empty());
}

#[test]
fn failed_add_fb_destroys_the_buffer() {
    let mut kernel = fake(2);
    assert_eq!(provision(&mut kernel), Err(ProvisionError::CreateFb(-22)));
    assert_eq!(kernel.log, vec!["create", "addfb", "destroy"]);
    assert_eq!(kernel.created, kernel.destroyed);
    assert!(kernel.fbs_added.is_empty() && kernel.fbs_removed.is_empty());
}

#[test]
fn failed_map_dumb_removes_fb_then_buffer() {
    let mut kernel = fake(3);
    assert_eq!(provision(&mut kernel), Err(ProvisionError::MapDumb(13)));
    assert_eq!(kernel.log, vec!["create", "addfb", "mapdumb", "rmfb", "destroy"]);
    assert_eq!(kernel.created, kernel.destroyed);
    assert_eq!(kernel.fbs_added, kernel.fbs_removed);
}

#[test]
fn failed_mmap_removes_fb_then_buffer() {
    let mut kernel = fake(4);
    assert_eq!(provision(&mut kernel), Err(ProvisionError::Mmap));
    assert_eq!(kernel.log, vec!["create", "addfb", "mapdumb", "mmap", "rmfb", "destroy"]);
    assert_eq!(kernel.created, vec![41]);
    assert_eq!(kernel.destroyed, vec![41]);
    assert_eq!(kernel.fbs_added, vec![77]);
    assert_eq!(kernel.fbs_removed, vec![77]);
}

#[test]
fn short_buffer_is_destroyed() {
    let state = ProvisionState::Creating { width: 100, height: 10 };
    let reply = drm_mode_create_dumb {
        height: 10,
        width: 100,
        bpp: 32,
        flags: 0,
        handle: 9,
        pitch: 400,
        size: 3999,
    };
    let (state, action) = modeset_create_fb(state, ProvisionEvent::Created(Ok(reply)));
    assert_eq!(action, ProvisionAction::DestroyDumb(drm_mode_destroy_dumb { handle: 9 }));
    let (state, action) = modeset_create_fb(state, ProvisionEvent::Released);
    assert_eq!(action, ProvisionAction::Stop);
    assert_eq!(state.outcome(), Some(Err(ProvisionError::UnusableBuffer)));
}

#[test]
fn stray_event_changes_nothing() {
    let state = ProvisionState::Binding { width: 4, height: 4, stride: 16, handle: 3, size: 64 };
    let (next, action) = modeset_create_fb(state, ProvisionEvent::Cleared(true));
    assert_eq!(action, ProvisionAction::Idle);
    let (_, action) = modeset_create_fb(next, ProvisionEvent::Bound(Ok(8)));
    assert_eq!(action, ProvisionAction::MapDumb(drm_mode_map_dumb { handle: 3, pad: 0, offset: 0 }));
    let done = ProvisionState::Failed(ProvisionError::Mmap);
    let (done, action) = modeset_create_fb(done, ProvisionEvent::Begin);
    assert_eq!(action, ProvisionAction::Idle);
    assert_eq!(done.outcome(), Some(Err(ProvisionError::Mmap)));
}

#[test]
fn geometry_bounds() {
    assert!(holds_picture(1920, 1080, 7680, 7680 * 1080));
    assert!(!holds_picture(1920, 1080, 7679, 7680 * 1080));
    assert!(!holds_picture(1920, 1080, 7680, 7680 * 1080 - 1));
    assert!(holds_picture(0, 0, 0, 0));
    assert!(!holds_picture(u32::MAX, 1, u32::MAX, u64::MAX));
    assert!(holds_picture(1, u32::MAX, u32::MAX, u32::MAX as u64 * u32::MAX as u64));
}

#[test]
fn rollback_starts() {
    let (state, action) = err_fb(5, 6, ProvisionError::Mmap);
    assert_eq!(action, ProvisionAction::RmFb(6));
    let (_, action) = modeset_create_fb(state, ProvisionEvent::Released);
    assert_eq!(action, ProvisionAction::DestroyDumb(drm_mode_destroy_dumb { handle: 5 }));
    let (state, action) = err_destroy(5, ProvisionError::CreateFb(1));
    assert_eq!(action, ProvisionAction::DestroyDumb(drm_mode_destroy_dumb::request(5)));
    let (state, _) = modeset_create_fb(state, ProvisionEvent::Released);
    assert_eq!(state.outcome(), Some(Err(ProvisionError::CreateFb(1))));
}

#[test]
fn requests_are_blank_but_for_their_input() {
    assert_eq!(
        drm_mode_create_dumb::request(640, 480),
        drm_mode_create_dumb {
            height: 480,
            width: 640,
            bpp: 32,
            flags: 0,
            handle: 0,
            pitch: 0,
            size: 0
        }
    );
    assert_eq!(drm_mode_map_dumb::request(3), drm_mode_map_dumb { handle: 3, pad: 0, offset: 0 });
    assert_eq!(drm_mode_destroy_dumb::request(3), drm_mode_destroy_dumb { handle: 3 });
}

#[test]
fn provision_error_reasons() {
    assert_eq!(ProvisionError::CreateDumb(1).reason(), "cannot create dumb buffer");
    assert_eq!(ProvisionError::CreateFb(1).reason(), "cannot create frame buffer");
    assert_eq!(ProvisionError::MapDumb(1).reason(), "cannot map dumb buffer");
    assert_eq!(ProvisionError::Mmap.reason(), "cannot mmap dumb buffer");
    assert_eq!(ProvisionError::UnusableBuffer.reason(), "dumb buffer does not hold the picture");
    assert_eq!(ProvisionError::CreateDumb(-7).code(), Some(-7));
    assert_eq!(ProvisionError::Mmap.code(), None);
}
