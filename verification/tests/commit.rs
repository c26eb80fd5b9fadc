use drm::control::atomic::AtomicModeReq;
use drm::control::property::Value;
use drm::control::{connector, crtc, framebuffer, from_u32, plane, property};
use easydrm::commit::{
    CommitStart, FinishRequest, FramebufferStep, GeometryRequest, ModeStep, PlanarStep,
    PopulatedCommit, LEGACY_BPP, LEGACY_DEPTH,
};
use easydrm::egl_image::{BufferInfo, INVALID_MODIFIER};
use easydrm::gles_context::Activation;
use easydrm::handle::{ConnectorHandle, CrtcHandle, FramebufferHandle, PlaneHandle, PropertyHandle};
use easydrm::monitor::{CrtcInfo, MonitorResourceAllocation};
use easydrm::property::PropertyTable;
use easydrm::request::{assign_all, empty_request, Assignment, Object, PropertyValue};
use easydrm::setup::{DeviceCopy, PropertyListing};
use easydrm::swapchain::{BufferRequest, SwapchainSlot, GL_FRAMEBUFFER_COMPLETE};
use easydrm::{GlesContextError, Mode, Monitor, MonitorSetupError};

const CONNECTOR: u32 = 77;
const CRTC: u32 = 41;
const PLANE: u32 = 31;

const PLANE_NAMES: [(&str, u32); 11] = [
    ("CRTC_ID", 20),
    ("SRC_X", 9),
    ("SRC_Y", 10),
    ("SRC_W", 11),
    ("SRC_H", 12),
    ("CRTC_X", 13),
    ("CRTC_Y", 14),
    ("CRTC_W", 15),
    ("CRTC_H", 16),
    ("FB_ID", 17),
    ("IN_FENCE_FD", 18),
];

fn mode(width: u16, height: u16, vrefresh: u32) -> Mode {
    Mode {
        clock: 148_500,
        hdisplay: width,
        hsync_start: width,
        hsync_end: width,
        htotal: width,
        hskew: 0,
        vdisplay: height,
        vsync_start: height,
        vsync_end: height,
        vtotal: height,
        vscan: 0,
        vrefresh,
        flags: 5,
        kind: 0x48,
        name: [0; 32],
    }
}

fn slot(request: BufferRequest, id: u64, modifier: u64) -> SwapchainSlot {
    let (width, height) = request.size();
    let info = BufferInfo {
        id,
        width,
        height,
        format: request.format(),
        offset: 0,
        stride: width * 4,
        modifier,
    };
    request
        .allocated(Ok(info))
        .unwrap()
        .exported(Some(9))
        .unwrap()
        .created(0x1000 + id)
        .unwrap()
        .checked(100 + id as u32, 200 + id as u32, GL_FRAMEBUFFER_COMPLETE)
        .unwrap()
}

fn table(entries: &[(&str, u32)]) -> PropertyTable {
    let mut table = PropertyTable::new();
    for (name, id) in entries {
        table.insert(name.to_string(), PropertyHandle::new(*id).unwrap());
    }
    table
}

fn monitor_with(plane_names: &[(&str, u32)], crtc_names: &[(&str, u32)]) -> Monitor<&'static str> {
    let allocation = MonitorResourceAllocation {
        crtc_info: CrtcInfo {
            handle: CrtcHandle::new(CRTC).unwrap(),
            position: (0, 0),
            mode: None,
            framebuffer: None,
            gamma_length: 256,
        },
        primary_plane: PlaneHandle::new(PLANE).unwrap(),
        cursor_plane: None,
    };
    let request = Monitor::<&'static str>::setup(ConnectorHandle::new(CONNECTOR).unwrap(), allocation)
        .probed(Ok(vec![mode(1920, 1080, 60), mode(800, 600, 60)]))
        .unwrap()
        .opened(DeviceCopy::Opened)
        .unwrap()
        .activated(Activation::Current)
        .unwrap();
    let first = slot(request.create_slot(), 1, INVALID_MODIFIER);
    let request = request.built(first);
    let second = slot(request.create_slot(), 2, 0);
    request
        .built(second)
        .created("context")
        .listed(PropertyListing::Read(table(&[("CRTC_ID", 20)])))
        .unwrap()
        .listed(PropertyListing::Read(table(crtc_names)))
        .unwrap()
        .listed(PropertyListing::Read(table(plane_names)))
        .unwrap()
}

fn monitor() -> Monitor<&'static str> {
    monitor_with(&PLANE_NAMES, &[("MODE_ID", 22), ("ACTIVE", 21), ("IN_FENCE_FD", 23)])
}

fn fb(id: u32) -> FramebufferHandle {
    FramebufferHandle::new(id).unwrap()
}

fn geometry(monitor: &mut Monitor<&'static str>, fence: Option<i32>, new_fb: u32) -> GeometryRequest {
    let request = match monitor.populate_commit(fence) {
        CommitStart::Ready(request) => request,
        CommitStart::Rebuild(_) => panic!("the slots fit"),
    };
    match monitor.commit_activated(request, Activation::Current).unwrap() {
        FramebufferStep::Present(request) => request,
        FramebufferStep::Missing(request) => match request.added(Some(fb(new_fb))) {
            PlanarStep::Added(request) => monitor.attach_framebuffer(request),
            PlanarStep::Fallback(_) => panic!("there is a framebuffer"),
        },
    }
}

fn finish(step: ModeStep, blob: u64) -> FinishRequest {
    match step {
        ModeStep::Change(request) => request.created(Ok(blob)).unwrap(),
        ModeStep::Keep(request) => request,
    }
}

fn commit(
    monitor: &mut Monitor<&'static str>,
    request: &mut AtomicModeReq,
    fence: Option<i32>,
    new_fb: u32,
    blob: u64,
) -> PopulatedCommit {
    let stage = geometry(monitor, fence, new_fb);
    assert!(monitor.has_geometry_properties());
    let step = monitor.assign_geometry(stage, request);
    monitor.finish_commit(finish(step, blob), request)
}

fn prop(id: u32) -> property::Handle {
    from_u32(id).unwrap()
}

fn expected(width: u64, height: u64, fb: u32, blob: Option<u64>) -> AtomicModeReq {
    let connector: connector::Handle = from_u32(CONNECTOR).unwrap();
    let crtc: crtc::Handle = from_u32(CRTC).unwrap();
    let plane: plane::Handle = from_u32(PLANE).unwrap();
    let fb: framebuffer::Handle = from_u32(fb).unwrap();
    let mut request = AtomicModeReq::new();
    request.add_property(connector, prop(20), Value::CRTC(Some(crtc)));
    request.add_property(plane, prop(20), Value::CRTC(Some(crtc)));
    request.add_property(plane, prop(9), Value::UnsignedRange(0));
    request.add_property(plane, prop(10), Value::UnsignedRange(0));
    request.add_property(plane, prop(11), Value::UnsignedRange(width << 16));
    request.add_property(plane, prop(12), Value::UnsignedRange(height << 16));
    request.add_property(plane, prop(13), Value::SignedRange(0));
    request.add_property(plane, prop(14), Value::SignedRange(0));
    request.add_property(plane, prop(15), Value::UnsignedRange(width));
    request.add_property(plane, prop(16), Value::UnsignedRange(height));
    if let Some(blob) = blob {
        request.add_property(crtc, prop(22), Value::Blob(blob));
        request.add_property(crtc, prop(21), Value::Boolean(true));
    }
    request.add_property(plane, prop(17), Value::Framebuffer(Some(fb)));
    request
}

fn text(request: &AtomicModeReq) -> String {
    format!("{:?}", request)
}

#[test]
fn first_commit_sets_the_default_mode() {
    let mut monitor = monitor();
    assert!(monitor.needs_mode_set());
    assert!(monitor.current_mode().is_none());
    let mut request = empty_request();
    let populated = commit(&mut monitor, &mut request, None, 501, 900);
    assert_eq!(text(&request), text(&expected(1920, 1080, 501, Some(900))));
    assert!(populated.sets_mode());
    assert!(!monitor.can_render());
    assert!(monitor.current_mode().is_none());
    monitor.mark_mode_set(populated);
    assert_eq!(monitor.current_mode(), Some(&mode(1920, 1080, 60)));
    assert!(!monitor.needs_mode_set());
}

#[test]
fn raw_request_of_a_commit() {
    let mut monitor = monitor();
    let mut request = empty_request();
    commit(&mut monitor, &mut request, None, 501, 900);
    let text = text(&request);
    assert!(text.contains("objects: [31, 41, 77]"), "{}", text);
    assert!(text.contains("count_props_per_object: [10, 2, 1]"), "{}", text);
    assert!(
        text.contains("values: [0, 0, 125829120, 70778880, 0, 0, 1920, 1080, 501, 41, 1, 900, 41]"),
        "{}",
        text
    );
}

#[test]
fn later_commits_keep_the_mode_and_alternate_slots() {
    let mut monitor = monitor();
    let mut request = empty_request();
    let first_target = monitor.make_current(Activation::Current).unwrap();
    assert_eq!(first_target.fbo, 201);
    let populated = commit(&mut monitor, &mut request, None, 501, 900);
    monitor.mark_mode_set(populated);
    assert_eq!(monitor.make_current(Activation::Current).unwrap().fbo, 202);

    let mut request = empty_request();
    let populated = commit(&mut monitor, &mut request, None, 502, 901);
    assert!(!populated.sets_mode());
    assert_eq!(text(&request), text(&expected(1920, 1080, 502, None)));
    monitor.mark_mode_set(populated);
    assert_eq!(monitor.current_mode(), Some(&mode(1920, 1080, 60)));
    assert_eq!(monitor.make_current(Activation::Current).unwrap().fbo, 201);

    // The first slot has kept its framebuffer.
    let mut request = empty_request();
    commit(&mut monitor, &mut request, None, 599, 902);
    assert_eq!(text(&request), text(&expected(1920, 1080, 501, None)));
}

#[test]
fn a_failed_atomic_commit_leaves_the_mode_to_be_set() {
    let mut monitor = monitor();
    let mut request = empty_request();
    let _dropped = commit(&mut monitor, &mut request, None, 501, 900);
    assert!(monitor.needs_mode_set());
    let mut request = empty_request();
    let populated = commit(&mut monitor, &mut request, None, 502, 903);
    assert!(populated.sets_mode());
    assert_eq!(text(&request), text(&expected(1920, 1080, 502, Some(903))));
}

#[test]
fn forgetting_the_mode_sets_it_again() {
    let mut monitor = monitor();
    let populated = commit(&mut monitor, &mut empty_request(), None, 501, 900);
    monitor.mark_mode_set(populated);
    monitor.clear_mode_state();
    assert!(monitor.current_mode().is_none());
    assert!(monitor.needs_mode_set());
}

#[test]
fn requesting_modes() {
    let mut monitor = monitor();
    let populated = commit(&mut monitor, &mut empty_request(), None, 501, 900);
    monitor.mark_mode_set(populated);
    monitor.set_mode(Some(mode(800, 600, 60)));
    assert!(monitor.needs_mode_set());
    assert_eq!(monitor.size(), (800, 600));
    assert_eq!(monitor.requested_mode(), Some(&mode(800, 600, 60)));
    assert_eq!(monitor.active_mode(), &mode(800, 600, 60));
    monitor.set_mode(None);
    assert!(!monitor.needs_mode_set());
    assert_eq!(monitor.size(), (1920, 1080));
    assert_eq!(monitor.default_mode(), &mode(1920, 1080, 60));
    monitor.set_mode(Some(mode(1920, 1080, 50)));
    assert!(monitor.needs_mode_set());
}

#[test]
fn another_size_rebuilds_the_swapchain() {
    let mut monitor = monitor();
    commit(&mut monitor, &mut empty_request(), None, 501, 900);
    monitor.set_mode(Some(mode(800, 600, 60)));
    assert!(!monitor.swapchain_fits(&mode(800, 600, 60)));
    assert!(monitor.swapchain_fits(&mode(1920, 1080, 50)));
    let rebuild = match monitor.populate_commit(Some(4)) {
        CommitStart::Rebuild(rebuild) => rebuild,
        CommitStart::Ready(_) => panic!("the slots do not fit"),
    };
    let request = rebuild.activated(Activation::Current).unwrap();
    assert_eq!(request.create_slot().size(), (800, 600));
    let first = slot(request.create_slot(), 3, 0);
    let request = request.built(first);
    let second = slot(request.create_slot(), 4, 0);
    let (request, teardowns) = monitor.replace_swapchain(request.built(second), true);
    assert_eq!(teardowns[0].drm_fb.unwrap().raw(), 501);
    assert_eq!(teardowns[0].fbo, Some(201));
    assert_eq!(teardowns[0].texture, Some(101));
    assert_eq!(teardowns[0].egl_image, Some(0x1001));
    assert_eq!(teardowns[0].buffer, 1);
    assert!(teardowns[1].drm_fb.is_none());
    assert_eq!(teardowns[1].buffer, 2);

    let planar = match monitor.commit_activated(request, Activation::Current).unwrap() {
        FramebufferStep::Missing(planar) => planar,
        FramebufferStep::Present(_) => panic!("the slot is new"),
    };
    assert!(planar.with_modifiers());
    assert_eq!(planar.buffer().id, 3);
    let attachment = match planar.added(Some(fb(601))) {
        PlanarStep::Added(attachment) => attachment,
        PlanarStep::Fallback(_) => panic!("there is a framebuffer"),
    };
    let stage = monitor.attach_framebuffer(attachment);
    let mut request = empty_request();
    let step = monitor.assign_geometry(stage, &mut request);
    let populated = monitor.finish_commit(finish(step, 910), &mut request);
    let mut wanted = expected(800, 600, 601, Some(910));
    let plane: plane::Handle = from_u32(PLANE).unwrap();
    wanted.add_property(plane, prop(18), Value::SignedRange(4));
    assert_eq!(text(&request), text(&wanted));
    monitor.mark_mode_set(populated);
    assert_eq!(monitor.current_mode(), Some(&mode(800, 600, 60)));
    assert!(monitor.swapchain_fits(&mode(800, 600, 60)));
    assert_eq!(monitor.make_current(Activation::Current).unwrap().fbo, 204);
}

#[test]
fn without_the_lock_only_buffers_are_given_up() {
    let mut monitor = monitor();
    monitor.set_mode(Some(mode(800, 600, 60)));
    let rebuild = match monitor.populate_commit(None) {
        CommitStart::Rebuild(rebuild) => rebuild,
        CommitStart::Ready(_) => panic!("the slots do not fit"),
    };
    let request = rebuild.activated(Activation::Current).unwrap();
    let first = slot(request.create_slot(), 3, 0);
    let request = request.built(first);
    let second = slot(request.create_slot(), 4, 0);
    let (_, teardowns) = monitor.replace_swapchain(request.built(second), false);
    assert!(teardowns[0].drm_fb.is_none());
    assert_eq!(teardowns[0].fbo, None);
    assert_eq!(teardowns[0].texture, None);
    assert_eq!(teardowns[0].egl_image, None);
    assert_eq!(teardowns[0].buffer, 1);
    assert_eq!(teardowns[1].buffer, 2);
}

#[test]
fn activation_failures() {
    let mut monitor = monitor();
    let request = match monitor.populate_commit(None) {
        CommitStart::Ready(request) => request,
        CommitStart::Rebuild(_) => panic!("the slots fit"),
    };
    match monitor.commit_activated(request, Activation::Poisoned) {
        Err(MonitorSetupError::DrmError(reason)) => {
            assert_eq!(reason, "Shared GLES context poisoned")
        }
        _ => panic!("the context is poisoned"),
    }
    monitor.set_mode(Some(mode(800, 600, 60)));
    let rebuild = match monitor.populate_commit(None) {
        CommitStart::Rebuild(rebuild) => rebuild,
        CommitStart::Ready(_) => panic!("the slots do not fit"),
    };
    assert!(matches!(
        rebuild.activated(Activation::Refused),
        Err(MonitorSetupError::GlesContextError(GlesContextError::MakeCurrentFailed))
    ));
    assert!(monitor.can_render());
}

#[test]
fn framebuffer_fallback() {
    let monitor = monitor();
    let request = match monitor.populate_commit(None) {
        CommitStart::Ready(request) => request,
        CommitStart::Rebuild(_) => panic!("the slots fit"),
    };
    let planar = match monitor.commit_activated(request, Activation::Current).unwrap() {
        FramebufferStep::Missing(planar) => planar,
        FramebufferStep::Present(_) => panic!("the slot is new"),
    };
    assert!(!planar.with_modifiers());
    let legacy = match planar.added(None) {
        PlanarStep::Fallback(legacy) => legacy,
        PlanarStep::Added(_) => panic!("there is no framebuffer"),
    };
    assert_eq!(legacy.format(), (24, 32));
    assert_eq!((LEGACY_DEPTH, LEGACY_BPP), (24, 32));
    assert_eq!(legacy.buffer().id, 1);
    let error = legacy.added(Err("Permission denied".to_string())).unwrap_err();
    assert_eq!(error.message(), "DRM error: Failed to add framebuffer: Permission denied");
}

#[test]
fn fallback_framebuffer_is_used() {
    let mut monitor = monitor();
    let request = match monitor.populate_commit(None) {
        CommitStart::Ready(request) => request,
        CommitStart::Rebuild(_) => panic!("the slots fit"),
    };
    let planar = match monitor.commit_activated(request, Activation::Current).unwrap() {
        FramebufferStep::Missing(planar) => planar,
        FramebufferStep::Present(_) => panic!("the slot is new"),
    };
    let legacy = match planar.added(None) {
        PlanarStep::Fallback(legacy) => legacy,
        PlanarStep::Added(_) => panic!("there is no framebuffer"),
    };
    let stage = monitor.attach_framebuffer(legacy.added(Ok(fb(555))).unwrap());
    let mut request = empty_request();
    let step = monitor.assign_geometry(stage, &mut request);
    monitor.finish_commit(finish(step, 900), &mut request);
    assert_eq!(text(&request), text(&expected(1920, 1080, 555, Some(900))));
}

#[test]
fn blob_failure_keeps_the_slot() {
    let mut monitor = monitor();
    let stage = geometry(&mut monitor, None, 501);
    let mut request = empty_request();
    let blob = match monitor.assign_geometry(stage, &mut request) {
        ModeStep::Change(blob) => blob,
        ModeStep::Keep(_) => panic!("the mode is new"),
    };
    assert_eq!(blob.mode(), mode(1920, 1080, 60));
    let error = blob.created(Err("No space left".to_string())).unwrap_err();
    assert_eq!(error.message(), "DRM error: Failed to create mode blob: No space left");
    assert!(monitor.can_render());
    assert!(monitor.needs_mode_set());
    assert_eq!(monitor.make_current(Activation::Current).unwrap().fbo, 201);
    // What had been entered before the failure stays in the request.
    assert!(text(&request).contains("count_props_per_object: [9, 1]"));
}

#[test]
fn fence_on_the_plane() {
    let mut monitor = monitor();
    let mut request = empty_request();
    commit(&mut monitor, &mut request, Some(-1), 501, 900);
    let mut wanted = expected(1920, 1080, 501, Some(900));
    let plane: plane::Handle = from_u32(PLANE).unwrap();
    wanted.add_property(plane, prop(18), Value::SignedRange(-1));
    assert_eq!(text(&request), text(&wanted));
    assert!(text(&request).contains("18446744073709551615"));
}

#[test]
fn fence_on_the_crtc() {
    let mut monitor =
        monitor_with(&PLANE_NAMES[..10], &[("MODE_ID", 22), ("ACTIVE", 21), ("IN_FENCE_FD", 23)]);
    let mut request = empty_request();
    commit(&mut monitor, &mut request, Some(12), 501, 900);
    let mut wanted = expected(1920, 1080, 501, Some(900));
    let crtc: crtc::Handle = from_u32(CRTC).unwrap();
    wanted.add_property(crtc, prop(23), Value::SignedRange(12));
    assert_eq!(text(&request), text(&wanted));
}

#[test]
fn fence_without_a_property() {
    let mut monitor = monitor_with(&PLANE_NAMES[..10], &[("MODE_ID", 22), ("ACTIVE", 21)]);
    let mut request = empty_request();
    commit(&mut monitor, &mut request, Some(12), 501, 900);
    assert_eq!(text(&request), text(&expected(1920, 1080, 501, Some(900))));
}

#[test]
fn other_monitors_entries_stay() {
    let mut monitor = monitor();
    let other: plane::Handle = from_u32(99).unwrap();
    let mut request = empty_request();
    request.add_property(other, prop(17), Value::UnsignedRange(5));
    commit(&mut monitor, &mut request, None, 501, 900);
    let mut wanted = expected(1920, 1080, 501, Some(900));
    wanted.add_property(other, prop(17), Value::UnsignedRange(5));
    assert_eq!(text(&request), text(&wanted));
}

#[test]
fn missing_properties_are_noticed() {
    assert!(monitor().has_geometry_properties());
    assert!(monitor().has_mode_properties());
    assert!(monitor().has_framebuffer_property());
    for missing in 0..9 {
        let mut names = PLANE_NAMES.to_vec();
        names.remove(missing);
        assert!(!monitor_with(&names, &[]).has_geometry_properties());
    }
    assert!(!monitor_with(&PLANE_NAMES[..9], &[]).has_framebuffer_property());
    assert!(!monitor_with(&PLANE_NAMES, &[("MODE_ID", 22)]).has_mode_properties());
    assert!(!monitor_with(&PLANE_NAMES, &[("ACTIVE", 22)]).has_mode_properties());
}

#[test]
fn later_entries_override_earlier_ones() {
    let entry = |id: u32, value: PropertyValue| Assignment {
        object: Object::Plane(PlaneHandle::new(PLANE).unwrap()),
        property: PropertyHandle::new(id).unwrap(),
        value,
    };
    let mut request = empty_request();
    assign_all(
        &mut request,
        &vec![
            entry(9, PropertyValue::UnsignedRange(1)),
            entry(10, PropertyValue::Boolean(false)),
            entry(9, PropertyValue::SignedRange(-2)),
        ],
    );
    let text = text(&request);
    assert!(text.contains("count_props_per_object: [2]"), "{}", text);
    assert!(text.contains("values: [18446744073709551614, 0]"), "{}", text);
}

#[test]
fn what_a_monitor_was_set_up_with_stays() {
    let mut monitor = monitor();
    monitor.set_mode(Some(mode(1920, 1080, 50)));
    monitor.make_current(Activation::Current).unwrap();
    let populated = commit(&mut monitor, &mut empty_request(), None, 501, 900);
    monitor.mark_mode_set(populated);
    monitor.set_can_render(true);
    *monitor.context_mut() = "another";
    assert_eq!(monitor.default_mode(), &mode(1920, 1080, 60));
    assert_eq!(monitor.current_mode(), Some(&mode(1920, 1080, 50)));
    assert_eq!(monitor.connector_id().raw(), CONNECTOR);
    assert_eq!(monitor.crtc().handle.raw(), CRTC);
    assert_eq!(monitor.primary_plane().raw(), PLANE);
    assert!(monitor.was_drawn());
    assert!(monitor.can_render());
    assert_eq!(*monitor.context(), "another");
}

#[test]
fn a_commit_sets_the_mode_it_was_planned_in() {
    let mut monitor = monitor();
    let populated = commit(&mut monitor, &mut empty_request(), None, 501, 900);
    monitor.mark_mode_set(populated);
    monitor.set_mode(Some(mode(1920, 1080, 50)));
    let stage = geometry(&mut monitor, None, 502);
    // Another wish while the commit is under way does not touch it.
    monitor.set_mode(None);
    let mut request = empty_request();
    let blob = match monitor.assign_geometry(stage, &mut request) {
        ModeStep::Change(blob) => blob,
        ModeStep::Keep(_) => panic!("the kernel does not use the planned mode"),
    };
    assert_eq!(blob.mode(), mode(1920, 1080, 50));
    let populated = monitor.finish_commit(blob.created(Ok(904)).unwrap(), &mut request);
    monitor.mark_mode_set(populated);
    assert_eq!(monitor.current_mode(), Some(&mode(1920, 1080, 50)));
    assert!(monitor.needs_mode_set());
}
