use dmabuf_capture::binder::{
    manager_interface, output_interface, Binder, CapabilityProxy, MANAGER_SUPPORTED_VERSION,
    OUTPUT_SUPPORTED_VERSION,
};
use dmabuf_capture::frame::BufferHandle;
use dmabuf_capture::registry::{resolve_last, Advertisement};
use dmabuf_capture::session::{CancelKind, FrameEvent, FrameSession, Phase, Step};

const MGR_ID: u32 = 1;
const OUT1_ID: u32 = 2;
const OUT2_ID: u32 = 3;

fn capability_set() -> Vec<Advertisement> {
    vec![
        Advertisement { id: MGR_ID, interface: manager_interface(), version: 1 },
        Advertisement { id: OUT1_ID, interface: output_interface(), version: 3 },
        Advertisement { id: OUT2_ID, interface: output_interface(), version: 3 },
    ]
}

fn bind_both() -> (CapabilityProxy, CapabilityProxy) {
    let ads = capability_set();
    let mut binder = Binder::new(2);
    let mgr_ad = resolve_last(&ads, &manager_interface()).unwrap();
    let out_ad = resolve_last(&ads, &output_interface()).unwrap();
    assert_eq!(mgr_ad.id, MGR_ID);
    assert_eq!(out_ad.id, OUT2_ID, "the last-advertised output must be selected");
    let manager = binder.bind(&mgr_ad, MANAGER_SUPPORTED_VERSION).unwrap();
    let output = binder.bind(&out_ad, OUTPUT_SUPPORTED_VERSION).unwrap();
    (manager, output)
}

fn frame_640x480_two_planes() -> FrameEvent {
    FrameEvent::Frame {
        width: 640,
        height: 480,
        offset_x: 0,
        offset_y: 0,
        buffer_flags: 0,
        flags: 0,
        format: 875713089,
        mod_high: 0,
        mod_low: 0,
        num_objects: 2,
    }
}

fn object(index: u32, fd: i32) -> FrameEvent {
    FrameEvent::Object {
        index,
        handle: BufferHandle::from_raw(fd),
        offset: 0,
        stride: 2560,
        size: 1228800,
    }
}

#[test]
fn full_capture_round_delivers_completed_frame() {
    let (manager, output) = bind_both();
    let mut session = FrameSession::new();
    let request = session.start_capture(&manager, &output, true);
    assert_eq!(request.manager_proxy_id, manager.proxy_id);
    assert_eq!(request.output_proxy_id, output.proxy_id);
    assert_eq!(request.overlay_cursor, 1);

    assert!(matches!(session.handle_event(frame_640x480_two_planes()), Step::Progress));
    assert!(matches!(session.handle_event(object(0, 10)), Step::Progress));
    assert!(matches!(session.handle_event(object(1, 11)), Step::Progress));
    match session.handle_event(FrameEvent::Ready { tv_sec_hi: 0, tv_sec_lo: 1, tv_nsec: 0 }) {
        Step::Completed { frame } => {
            assert_eq!(frame.meta.width, 640);
            assert_eq!(frame.meta.height, 480);
            assert_eq!(frame.meta.format, 875713089);
            assert_eq!(frame.meta.modifier, 0);
            assert_eq!(frame.buffers.len(), 2);
            assert_eq!(frame.buffers[0].handle.as_raw(), 10);
            assert_eq!(frame.buffers[1].handle.as_raw(), 11);
        }
        _ => panic!("expected Completed"),
    }
    assert_eq!(session.phase(), Phase::Finished);
}

#[test]
fn cancelled_capture_round_returns_no_handles() {
    let (manager, output) = bind_both();
    let mut session = FrameSession::new();
    session.start_capture(&manager, &output, true);

    assert!(matches!(session.handle_event(frame_640x480_two_planes()), Step::Progress));
    assert!(matches!(session.handle_event(object(0, 10)), Step::Progress));
    match session.handle_event(FrameEvent::Cancel { reason: 1 }) {
        Step::Cancelled { kind, reason, discard } => {
            assert_eq!(kind, CancelKind::Permanent);
            assert_eq!(reason, 1);
            assert_eq!(discard.len(), 1);
            assert_eq!(discard[0].handle.as_raw(), 10);
        }
        _ => panic!("expected Cancelled"),
    }
    assert_eq!(session.phase(), Phase::Finished);
    assert_eq!(session.accumulated(), 0, "no handle may remain with the session");
}
