use drm::buffer::{DrmFourcc, DrmModifier};
use easydrm::egl_image::{image_attributes, BufferInfo, INVALID_MODIFIER};
use easydrm::error::io_error_message;
use easydrm::gles_context::find_egl_config;
use easydrm::mode::Mode;
use easydrm::swapchain::{
    create_slot, destroy_slot, AttachmentPlan, SwapchainSlot, TexturePlan, XRGB8888,
};
use easydrm::{GlesContext, GlesContextError, MonitorSetupError};

fn buffer(modifier: u64) -> BufferInfo {
    BufferInfo {
        id: 1,
        width: 1920,
        height: 1080,
        format: XRGB8888,
        offset: 64,
        stride: 7680,
        modifier,
    }
}

fn native(mode: Mode) -> drm::control::Mode {
    let mut name = [0; 32];
    for i in 0..32 {
        name[i] = mode.name[i] as _;
    }
    drm::control::Mode::from(drm_ffi::drm_mode_modeinfo {
        clock: mode.clock,
        hdisplay: mode.hdisplay,
        hsync_start: mode.hsync_start,
        hsync_end: mode.hsync_end,
        htotal: mode.htotal,
        hskew: mode.hskew,
        vdisplay: mode.vdisplay,
        vsync_start: mode.vsync_start,
        vsync_end: mode.vsync_end,
        vtotal: mode.vtotal,
        vscan: mode.vscan,
        vrefresh: mode.vrefresh,
        flags: mode.flags,
        type_: mode.kind,
        name,
    })
}

fn sample_mode() -> Mode {
    let mut name = [0; 32];
    name[0] = b'a';
    name[31] = b'z';
    Mode {
        clock: 1,
        hdisplay: 2,
        hsync_start: 3,
        hsync_end: 4,
        htotal: 5,
        hskew: 6,
        vdisplay: 7,
        vsync_start: 8,
        vsync_end: 9,
        vtotal: 10,
        vscan: 11,
        vrefresh: 12,
        flags: 13,
        kind: 14,
        name,
    }
}

#[test]
fn modes_agree_with_the_kernel_interface() {
    let mode = sample_mode();
    assert_eq!(mode.size(), native(mode).size());
    let mut variants = vec![mode; 15];
    variants[0].clock += 1;
    variants[1].hdisplay += 1;
    variants[2].hsync_start += 1;
    variants[3].hsync_end += 1;
    variants[4].htotal += 1;
    variants[5].hskew += 1;
    variants[6].vdisplay += 1;
    variants[7].vsync_start += 1;
    variants[8].vsync_end += 1;
    variants[9].vtotal += 1;
    variants[10].vscan += 1;
    variants[11].vrefresh += 1;
    variants[12].flags += 1;
    variants[13].kind += 1;
    variants[14].name[31] += 1;
    assert!(mode == sample_mode());
    for variant in variants {
        assert!(variant != mode);
        assert!(native(variant) != native(mode));
    }
}

#[test]
fn constants_agree_with_the_kernel_interface() {
    assert_eq!(XRGB8888, DrmFourcc::Xrgb8888 as u32);
    assert_eq!(INVALID_MODIFIER, u64::from(DrmModifier::Invalid));
}

#[test]
fn attributes_without_modifier() {
    assert!(!buffer(INVALID_MODIFIER).has_modifier());
    assert_eq!(
        image_attributes(&buffer(INVALID_MODIFIER), 17),
        vec![
            0x3057, 1920, 0x3056, 1080, 0x3271, 0x3432_5258, 0x3272, 17, 0x3273, 64, 0x3274, 7680,
            0x3038
        ]
    );
}

#[test]
fn attributes_with_modifier() {
    let code = 0x0300_0000_FFFF_FFFE;
    assert!(buffer(code).has_modifier());
    assert!(buffer(0).has_modifier());
    assert_eq!(
        image_attributes(&buffer(code), -3),
        vec![
            0x3057, 1920, 0x3056, 1080, 0x3271, 0x3432_5258, 0x3272, -3, 0x3273, 64, 0x3274, 7680,
            0x3443, -2, 0x3444, 0x0300_0000, 0x3038
        ]
    );
}

#[test]
fn attributes_keep_large_numbers_by_their_bits() {
    let mut large = buffer(INVALID_MODIFIER);
    large.width = u32::MAX;
    large.offset = 0x8000_0000;
    let attributes = image_attributes(&large, 0);
    assert_eq!(attributes[1], -1);
    assert_eq!(attributes[9], i32::MIN);
}

#[test]
fn best_config_is_the_last_with_most_samples() {
    assert_eq!(find_egl_config(Some(&vec![0, 4, 4, 2])).unwrap(), 2);
    assert_eq!(find_egl_config(Some(&vec![8, 4])).unwrap(), 0);
    assert_eq!(find_egl_config(Some(&vec![0, 0, 0])).unwrap(), 2);
    assert_eq!(find_egl_config(Some(&vec![0])).unwrap(), 0);
    assert!(matches!(find_egl_config(Some(&vec![])), Err(GlesContextError::NoConfigFound)));
    assert!(matches!(find_egl_config(None), Err(GlesContextError::NoConfigFound)));
}

#[test]
fn context_creation() {
    let context = GlesContext::new(true)
        .unwrap()
        .opened(true)
        .unwrap()
        .listed(Some(&vec![0, 4, 2]))
        .unwrap();
    assert_eq!(context.config(), 1);
    let context = context.created(Ok(())).unwrap().activated(true).unwrap();
    assert_eq!(context.config(), 1);
    assert!(context.make_current_surfaceless(true).is_ok());
    assert!(matches!(
        context.make_current_surfaceless(false),
        Err(GlesContextError::MakeCurrentFailed)
    ));
}

#[test]
fn context_creation_failures() {
    assert!(matches!(GlesContext::new(false), Err(GlesContextError::DisplayCreationFailed)));
    assert!(matches!(
        GlesContext::new(true).unwrap().opened(false),
        Err(GlesContextError::DisplayCreationFailed)
    ));
    let display = || GlesContext::new(true).unwrap().opened(true).unwrap();
    assert!(matches!(display().listed(None), Err(GlesContextError::NoConfigFound)));
    let config = || display().listed(Some(&vec![1])).unwrap();
    let error = config().created(Err("bad".to_string())).unwrap_err();
    assert_eq!(error.message(), "Failed to create EGL context: bad");
    assert!(matches!(
        config().created(Ok(())).unwrap().activated(false),
        Err(GlesContextError::MakeCurrentFailed)
    ));
}

#[test]
fn slot_creation_failures() {
    let request = || create_slot(&sample_mode());
    assert_eq!(request().size(), (2, 7));
    assert_eq!(request().format(), XRGB8888);
    assert_eq!(request().usage(), 0b101);
    let refused = std::io::Error::new(std::io::ErrorKind::OutOfMemory, "full");
    assert!(matches!(request().allocated(Err(refused)), Err(MonitorSetupError::IOError(_))));
    let export = || request().allocated(Ok(buffer(0))).unwrap();
    assert_eq!(
        export().exported(None).unwrap_err().message(),
        "DRM error: Failed to export BO dmabuf fd"
    );
    assert_eq!(export().buffer(), buffer(0));
    let image = || export().exported(Some(3)).unwrap();
    assert_eq!(image().attributes(), &image_attributes(&buffer(0), 3));
    assert_eq!(image().target(), 0x3270);
    assert_eq!(
        image().created(0).unwrap_err().message(),
        "DRM error: eglCreateImageKHR failed for monitor swapchain slot"
    );
    let framebuffer = || image().created(0xbeef).unwrap();
    assert_eq!(framebuffer().egl_image(), 0xbeef);
    assert_eq!(
        framebuffer().texture(),
        TexturePlan {
            target: 0x0de1,
            min_filter: 0x2601,
            mag_filter: 0x2601,
            wrap_s: 0x812f,
            wrap_t: 0x812f,
            egl_image: 0xbeef,
        }
    );
    assert_eq!(
        framebuffer().attachment(),
        AttachmentPlan {
            target: 0x8d40,
            attachment: 0x8ce0,
            texture_target: 0x0de1,
            level: 0,
        }
    );
    for status in [0, 0x8cd6, 0x8cdd, 0xf, 0x10, u32::MAX] {
        assert_eq!(
            framebuffer().checked(1, 2, status).unwrap_err().message(),
            format!("DRM error: Failed to create framebuffer, status={status:#x}")
        );
    }
    let slot = framebuffer().checked(1, 2, 0x8cd5).unwrap();
    assert_eq!((slot.texture, slot.fbo, slot.egl_image), (1, 2, 0xbeef));
    assert_eq!(slot.buffer, buffer(0));
    assert!(slot.drm_fb.is_none());
}

#[test]
fn destroying_leaves_out_what_is_not_there() {
    let slot = SwapchainSlot {
        buffer: buffer(0),
        fbo: 0,
        texture: 0,
        egl_image: 0,
        drm_fb: None,
    };
    let teardown = destroy_slot(&slot);
    assert_eq!((teardown.fbo, teardown.texture, teardown.egl_image), (None, None, None));
    assert_eq!(teardown.buffer, 1);
}

#[test]
fn error_messages() {
    assert_eq!(
        GlesContextError::DisplayCreationFailed.message(),
        "Failed to create EGL display"
    );
    assert_eq!(GlesContextError::NoConfigFound.message(), "No suitable EGL config found");
    assert_eq!(
        GlesContextError::MakeCurrentFailed.message(),
        "Failed to make context current"
    );
    let refused = std::io::Error::new(std::io::ErrorKind::Other, "card is busy");
    assert_eq!(MonitorSetupError::from(refused).message(), "IO Error: card is busy");
    assert_eq!(io_error_message("card is busy"), "IO Error: card is busy");
    assert_eq!(MonitorSetupError::NotConnected.message(), "monitor is not connected");
    assert_eq!(
        MonitorSetupError::NoCRTCFound.message(),
        "monitor doesn't have any crtcs available"
    );
    assert_eq!(
        MonitorSetupError::NoModesFound.message(),
        "monitor doesn't have any display modes"
    );
    assert_eq!(
        MonitorSetupError::NoPrimaryPlaneFound.message(),
        "no primary plane found for this monitor"
    );
    assert_eq!(
        MonitorSetupError::from(GlesContextError::NoConfigFound).message(),
        "failed to create OpenGL ES context: No suitable EGL config found"
    );
    assert_eq!(MonitorSetupError::DrmError("why".to_string()).message(), "DRM error: why");
}
