use easydrm::egl_image::{BufferInfo, INVALID_MODIFIER};
use easydrm::gles_context::Activation;
use easydrm::handle::{ConnectorHandle, CrtcHandle, PlaneHandle, PropertyHandle};
use easydrm::monitor::{CrtcInfo, DrawTarget, MonitorResourceAllocation};
use easydrm::property::PropertyTable;
use easydrm::setup::{
    ConnectorPropertiesRequest, ConnectorRequest, DeviceCopy, PropertyListing, UserContextRequest,
};
use easydrm::swapchain::{BufferRequest, SwapchainSlot, GL_FRAMEBUFFER_COMPLETE};
use easydrm::{GlesContextError, Mode, Monitor, MonitorSetupError};

fn mode(width: u16, height: u16) -> Mode {
    Mode {
        clock: 65_000,
        hdisplay: width,
        hsync_start: width,
        hsync_end: width,
        htotal: width,
        hskew: 0,
        vdisplay: height,
        vsync_start: height,
        vsync_end: height,
        vtotal: height,
        vscan: 0,
        vrefresh: 60,
        flags: 0,
        kind: 0,
        name: [0; 32],
    }
}

fn slot(request: BufferRequest, id: u64) -> SwapchainSlot {
    let (width, height) = request.size();
    let info = BufferInfo {
        id,
        width,
        height,
        format: request.format(),
        offset: 0,
        stride: width * 4,
        modifier: INVALID_MODIFIER,
    };
    request
        .allocated(Ok(info))
        .unwrap()
        .exported(Some(9))
        .unwrap()
        .created(1)
        .unwrap()
        .checked(10 + id as u32, 20 + id as u32, GL_FRAMEBUFFER_COMPLETE)
        .unwrap()
}

fn start(connector: u32) -> ConnectorRequest {
    let allocation = MonitorResourceAllocation {
        crtc_info: CrtcInfo {
            handle: CrtcHandle::new(41).unwrap(),
            position: (3, 4),
            mode: None,
            framebuffer: None,
            gamma_length: 256,
        },
        primary_plane: PlaneHandle::new(31).unwrap(),
        cursor_plane: PlaneHandle::new(32),
    };
    Monitor::<u64>::setup(ConnectorHandle::new(connector).unwrap(), allocation)
}

fn with_slots(connector: u32) -> UserContextRequest {
    let request = start(connector)
        .probed(Ok(vec![mode(1024, 768), mode(640, 480)]))
        .unwrap()
        .opened(DeviceCopy::Opened)
        .unwrap()
        .activated(Activation::Current)
        .unwrap();
    let first = slot(request.create_slot(), 1);
    let request = request.built(first);
    let second = slot(request.create_slot(), 2);
    request.built(second)
}

fn with_context(connector: u32) -> ConnectorPropertiesRequest<u64> {
    with_slots(connector).created(5)
}

fn empty() -> PropertyListing {
    PropertyListing::Read(PropertyTable::new())
}

fn monitor(connector: u32) -> Monitor<u64> {
    with_context(connector)
        .listed(empty())
        .unwrap()
        .listed(empty())
        .unwrap()
        .listed(empty())
        .unwrap()
}

fn io_error() -> std::io::Error {
    std::io::Error::new(std::io::ErrorKind::NotFound, "gone")
}

fn drm_reason<V>(outcome: Result<V, MonitorSetupError>) -> String {
    match outcome {
        Err(MonitorSetupError::DrmError(reason)) => reason,
        _ => panic!("a DRM error was expected"),
    }
}

#[test]
fn new_monitor() {
    let monitor = monitor(7);
    assert_eq!(monitor.connector_id().raw(), 7);
    assert_eq!(monitor.crtc().handle.raw(), 41);
    assert_eq!(monitor.crtc().position, (3, 4));
    assert_eq!(monitor.primary_plane().raw(), 31);
    assert_eq!(monitor.cursor_plane().unwrap().raw(), 32);
    assert_eq!(monitor.default_mode(), &mode(1024, 768));
    assert_eq!(monitor.active_mode(), &mode(1024, 768));
    assert!(monitor.requested_mode().is_none());
    assert!(monitor.current_mode().is_none());
    assert!(monitor.can_render());
    assert!(!monitor.was_drawn());
    assert!(monitor.needs_mode_set());
    assert_eq!(monitor.size(), (1024, 768));
    assert_eq!(*monitor.context(), 5);
}

#[test]
fn user_context_is_made_on_the_first_slot() {
    let request = with_slots(7);
    assert_eq!(request.draw_target(), DrawTarget { fbo: 21, width: 1024, height: 768 });
    assert_eq!(request.size(), (1024, 768));
}

#[test]
fn connector_probe_failures() {
    assert!(matches!(
        start(7).probed(Ok(vec![])),
        Err(MonitorSetupError::NoModesFound)
    ));
    match start(7).probed(Err(io_error())) {
        Err(MonitorSetupError::IOError(error)) => {
            assert_eq!(error.kind(), std::io::ErrorKind::NotFound)
        }
        _ => panic!("the probe failed"),
    }
}

#[test]
fn device_failures() {
    let probed = || start(7).probed(Ok(vec![mode(640, 480)])).unwrap();
    assert_eq!(drm_reason(probed().opened(DeviceCopy::NotDuplicated)), "Failed to dup gbm fd");
    assert!(matches!(
        probed().opened(DeviceCopy::Refused(io_error())),
        Err(MonitorSetupError::IOError(_))
    ));
}

#[test]
fn setup_activation_failures() {
    let opened =
        || start(7).probed(Ok(vec![mode(640, 480)])).unwrap().opened(DeviceCopy::Opened).unwrap();
    assert_eq!(
        drm_reason(opened().activated(Activation::Poisoned)),
        "Shared GLES context poisoned"
    );
    assert!(matches!(
        opened().activated(Activation::Refused),
        Err(MonitorSetupError::GlesContextError(GlesContextError::MakeCurrentFailed))
    ));
}

#[test]
fn property_listing_failures() {
    assert_eq!(
        drm_reason(with_context(7).listed(PropertyListing::Unreadable("x".to_string()))),
        "Failed to get connector properties: x"
    );
    let crtc = with_context(7).listed(empty()).unwrap();
    assert_eq!(
        drm_reason(crtc.listed(PropertyListing::Unreadable("y".to_string()))),
        "Failed to get CRTC properties: y"
    );
    let plane = with_context(7).listed(empty()).unwrap().listed(empty()).unwrap();
    assert_eq!(
        drm_reason(plane.listed(PropertyListing::Unreadable("z".to_string()))),
        "Failed to get plane properties: z"
    );
    let plane = with_context(7).listed(empty()).unwrap().listed(empty()).unwrap();
    assert!(matches!(
        plane.listed(PropertyListing::Unavailable(io_error())),
        Err(MonitorSetupError::IOError(_))
    ));
}

#[test]
fn making_current() {
    let mut monitor = monitor(7);
    assert!(matches!(
        monitor.make_current(Activation::Poisoned),
        Err(GlesContextError::MakeCurrentFailed)
    ));
    assert!(matches!(
        monitor.make_current(Activation::Refused),
        Err(GlesContextError::MakeCurrentFailed)
    ));
    assert!(!monitor.was_drawn());
    let target = monitor.make_current(Activation::Current).unwrap();
    assert_eq!(target, DrawTarget { fbo: 21, width: 1024, height: 768 });
    assert!(monitor.was_drawn());
    monitor.reset_drawn_flag();
    assert!(!monitor.was_drawn());
}

#[test]
fn flags_and_context() {
    let mut monitor = monitor(7);
    monitor.set_can_render(false);
    assert!(!monitor.can_render());
    monitor.set_can_render(true);
    assert!(monitor.can_render());
    *monitor.context_mut() += 37;
    assert_eq!(*monitor.context(), 42);
}

#[test]
fn monitors_are_equal_by_connector() {
    let mut changed = monitor(7);
    changed.set_mode(Some(mode(640, 480)));
    assert!(monitor(7) == changed);
    assert!(monitor(7) != monitor(8));
}

#[test]
fn releasing() {
    let monitor = monitor(7);
    let teardowns = monitor.release(true);
    assert_eq!(teardowns[0].fbo, Some(21));
    assert_eq!(teardowns[0].texture, Some(11));
    assert_eq!(teardowns[0].egl_image, Some(1));
    assert_eq!(teardowns[1].fbo, Some(22));
    assert!(teardowns[0].drm_fb.is_none());
    let teardowns = monitor.release(false);
    assert_eq!(teardowns[0].fbo, None);
    assert_eq!(teardowns[0].texture, None);
    assert_eq!(teardowns[0].egl_image, None);
    assert_eq!(teardowns[1].buffer, 2);
}

#[test]
fn property_table_finds_by_name() {
    let mut table = PropertyTable::new();
    assert!(table.get("CRTC_ID").is_none());
    table.insert("CRTC_ID".to_string(), PropertyHandle::new(3).unwrap());
    table.insert("FB_ID".to_string(), PropertyHandle::new(4).unwrap());
    assert_eq!(table.get("CRTC_ID").unwrap().raw(), 3);
    table.insert("CRTC_ID".to_string(), PropertyHandle::new(5).unwrap());
    assert_eq!(table.get("CRTC_ID").unwrap().raw(), 5);
    assert_eq!(table.get("FB_ID").unwrap().raw(), 4);
    assert!(table.get("crtc_id").is_none());
}

#[test]
fn handles_are_never_zero() {
    assert!(PlaneHandle::new(0).is_none());
    assert_eq!(PlaneHandle::new(u32::MAX).unwrap().raw(), u32::MAX);
}

#[test]
fn stages_name_what_to_ask() {
    assert_eq!(start(7).target().raw(), 7);
    assert!(start(7).force_probe());
    let connector = with_context(7);
    assert_eq!(connector.target().raw(), 7);
    let crtc = connector.listed(empty()).unwrap();
    assert_eq!(crtc.target().raw(), 41);
    let plane = crtc.listed(empty()).unwrap();
    assert_eq!(plane.target().raw(), 31);
}

#[test]
fn rendering_and_drawn_follow_the_last_word() {
    let mut monitor = monitor(7);
    monitor.set_can_render(false);
    monitor.set_mode(Some(mode(640, 480)));
    assert!(!monitor.can_render());
    monitor.set_can_render(true);
    monitor.clear_mode_state();
    assert!(monitor.can_render());
    let first = monitor.make_current(Activation::Current).unwrap();
    monitor.reset_drawn_flag();
    assert!(!monitor.was_drawn());
    let second = monitor.make_current(Activation::Current).unwrap();
    monitor.set_can_render(false);
    assert!(monitor.was_drawn());
    assert_eq!(first, second);
}
