//! The buffers that a monitor draws into and scans out from in turn.
//!
//! Creating a slot alternates between outside work and decisions. Each stage
//! below stands for what is to be done next; handing it what came of that
//! gives the next stage or the failure, and in the end the slot.
use vstd::prelude::*;
use vstd::string::StringExecFns;

use crate::egl_image::{BufferInfo, EGL_LINUX_DMA_BUF_EXT, image_attributes};
use crate::error::{MonitorSetupError, drm_error, prefixed};
use crate::handle::FramebufferHandle;
use crate::mode::Mode;

verus! {

/// The four-character code of the pixel format of every slot, 32 bits of
/// which 8 each are red, green and blue.
pub const XRGB8888: u32 = 0x3432_5258;

/// The allocator's flag for a buffer that is shown on a screen.
pub const GBM_BO_USE_SCANOUT: u32 = 1;

/// The allocator's flag for a buffer that is rendered to.
pub const GBM_BO_USE_RENDERING: u32 = 4;

pub const GL_TEXTURE_2D: u32 = 0x0DE1;

pub const GL_LINEAR: u32 = 0x2601;

pub const GL_CLAMP_TO_EDGE: u32 = 0x812F;

pub const GL_FRAMEBUFFER: u32 = 0x8D40;

pub const GL_COLOR_ATTACHMENT0: u32 = 0x8CE0;

/// What OpenGL answers if a framebuffer can be drawn into.
pub const GL_FRAMEBUFFER_COMPLETE: u32 = 0x8CD5;

/// One buffer with what OpenGL and the kernel know of it.
#[derive(Clone, Copy, Debug)]
pub struct SwapchainSlot {
    /// The buffer.
    pub buffer: BufferInfo,
    /// The OpenGL framebuffer that draws into the buffer; zero if none.
    pub fbo: u32,
    /// The OpenGL texture on the buffer; zero if none.
    pub texture: u32,
    /// The address of the EGL image of the buffer; zero if none.
    pub egl_image: u64,
    /// The kernel's framebuffer on the buffer, once it has been added.
    pub drm_fb: Option<FramebufferHandle>,
}

/// A buffer is to be allocated that can be scanned out and rendered to.
#[derive(Debug)]
pub struct BufferRequest {
    width: u32,
    height: u32,
}

/// The buffer's memory is to be exported as a file descriptor.
#[derive(Debug)]
pub struct ExportRequest {
    buffer: BufferInfo,
}

/// The exported buffer is to be imported as an EGL image.
#[derive(Debug)]
pub struct ImageRequest {
    buffer: BufferInfo,
    attributes: Vec<i32>,
}

/// A texture on the image and a framebuffer on the texture are to be created,
/// and the framebuffer's status is to be checked.
#[derive(Debug)]
pub struct FramebufferRequest {
    buffer: BufferInfo,
    egl_image: u64,
}

/// A texture to create.
#[derive(Clone, Copy, Debug, PartialEq, Eq, Structural)]
pub struct TexturePlan {
    /// What the texture is bound as.
    pub target: u32,
    /// How it is sampled when it is shrunk.
    pub min_filter: u32,
    /// How it is sampled when it is enlarged.
    pub mag_filter: u32,
    /// How it goes on beyond its left and right edge.
    pub wrap_s: u32,
    /// How it goes on beyond its upper and lower edge.
    pub wrap_t: u32,
    /// The address of the EGL image that holds its pixels.
    pub egl_image: u64,
}

/// The texture of a slot: its pixels are those of the image, sampled linearly
/// and clamped to the edges.
pub open spec fn texture_plan_of(egl_image: u64) -> TexturePlan {
    TexturePlan {
        target: GL_TEXTURE_2D,
        min_filter: GL_LINEAR,
        mag_filter: GL_LINEAR,
        wrap_s: GL_CLAMP_TO_EDGE,
        wrap_t: GL_CLAMP_TO_EDGE,
        egl_image,
    }
}

/// How a texture is attached to a framebuffer.
#[derive(Clone, Copy, Debug, PartialEq, Eq, Structural)]
pub struct AttachmentPlan {
    /// What the framebuffer is bound as.
    pub target: u32,
    /// Where the texture is attached.
    pub attachment: u32,
    /// What the texture is bound as.
    pub texture_target: u32,
    /// Which of the texture's levels is attached.
    pub level: i32,
}

/// The attachment of a slot: the texture's base level takes the colours.
pub open spec fn color_attachment() -> AttachmentPlan {
    AttachmentPlan {
        target: GL_FRAMEBUFFER,
        attachment: GL_COLOR_ATTACHMENT0,
        texture_target: GL_TEXTURE_2D,
        level: 0,
    }
}

/// Begins to create a slot that is as large as the mode.
pub fn create_slot(mode: &Mode) -> (next: BufferRequest)
    ensures
        next.extent() == (mode.hdisplay as u32, mode.vdisplay as u32),
{
    let (width, height) = mode.size();
    BufferRequest { width: width as u32, height: height as u32 }
}

impl BufferRequest {
    /// Width and height in pixels.
    pub closed spec fn extent(self) -> (u32, u32) {
        (self.width, self.height)
    }

    /// Width and height of the buffer to allocate, in pixels.
    pub fn size(&self) -> (size: (u32, u32))
        ensures
            size == self.extent(),
    {
        (self.width, self.height)
    }

    /// The pixel format of the buffer to allocate.
    pub fn format(&self) -> (format: u32)
        ensures
            format == XRGB8888,
    {
        XRGB8888
    }

    /// The flags of the buffer to allocate: it is shown and rendered to, and
    /// nothing else is asked of it.
    pub fn usage(&self) -> (usage: u32)
        ensures
            usage == GBM_BO_USE_SCANOUT | GBM_BO_USE_RENDERING,
    {
        GBM_BO_USE_SCANOUT | GBM_BO_USE_RENDERING
    }

    /// Takes the allocated buffer, or why there is none.
    pub fn allocated(self, outcome: Result<BufferInfo, std::io::Error>) -> (next: Result<
        ExportRequest,
        MonitorSetupError,
    >)
        ensures
            next is Ok <==> outcome is Ok,
            next matches Ok(request) ==> request.source() == outcome->Ok_0,
            next matches Err(error) ==> error == MonitorSetupError::IOError(outcome->Err_0),
    {
        match outcome {
            Ok(buffer) => Ok(ExportRequest { buffer }),
            Err(error) => Err(MonitorSetupError::from(error)),
        }
    }
}

impl ExportRequest {
    /// The buffer to export.
    pub closed spec fn source(self) -> BufferInfo {
        self.buffer
    }

    /// The buffer to export.
    pub fn buffer(&self) -> (buffer: BufferInfo)
        ensures
            buffer == self.source(),
    {
        self.buffer
    }

    /// Takes the file descriptor, or `None` if there is none.
    pub fn exported(self, fd: Option<i32>) -> (next: Result<ImageRequest, MonitorSetupError>)
        ensures
            next is Ok <==> fd is Some,
            next matches Ok(request) ==> request.source() == self.source()
                && request.attribute_list() == crate::egl_image::attributes_of(
                self.source(),
                fd->0,
            ),
            next matches Err(error) ==> error.is_drm_error("Failed to export BO dmabuf fd"@),
    {
        match fd {
            Some(fd) => {
                let attributes = image_attributes(&self.buffer, fd);
                Ok(ImageRequest { buffer: self.buffer, attributes })
            },
            None => Err(drm_error("Failed to export BO dmabuf fd")),
        }
    }
}

impl ImageRequest {
    /// The exported buffer.
    pub closed spec fn source(self) -> BufferInfo {
        self.buffer
    }

    /// The attributes of the image.
    pub closed spec fn attribute_list(self) -> Seq<i32> {
        self.attributes@
    }

    /// What kind of thing the image is imported from.
    pub fn target(&self) -> (target: u32)
        ensures
            target == EGL_LINUX_DMA_BUF_EXT,
    {
        EGL_LINUX_DMA_BUF_EXT
    }

    /// The attributes to import the buffer with.
    pub fn attributes(&self) -> (attributes: &Vec<i32>)
        ensures
            attributes@ == self.attribute_list(),
    {
        &self.attributes
    }

    /// Takes the address of the image, zero if there is none.
    pub fn created(self, egl_image: u64) -> (next: Result<FramebufferRequest, MonitorSetupError>)
        ensures
            next is Ok <==> egl_image != 0,
            next matches Ok(request) ==> request.source() == self.source() && request.image()
                == egl_image,
            next matches Err(error) ==> error.is_drm_error(
                "eglCreateImageKHR failed for monitor swapchain slot"@,
            ),
    {
        if egl_image == 0 {
            Err(drm_error("eglCreateImageKHR failed for monitor swapchain slot"))
        } else {
            Ok(FramebufferRequest { buffer: self.buffer, egl_image })
        }
    }
}

impl FramebufferRequest {
    /// The imported buffer.
    pub closed spec fn source(self) -> BufferInfo {
        self.buffer
    }

    /// The address of the image.
    pub closed spec fn image(self) -> u64 {
        self.egl_image
    }

    /// The address of the image to create the texture on.
    pub fn egl_image(&self) -> (egl_image: u64)
        ensures
            egl_image == self.image(),
    {
        self.egl_image
    }

    /// The texture to create.
    pub fn texture(&self) -> (texture: TexturePlan)
        ensures
            texture == texture_plan_of(self.image()),
    {
        TexturePlan {
            target: GL_TEXTURE_2D,
            min_filter: GL_LINEAR,
            mag_filter: GL_LINEAR,
            wrap_s: GL_CLAMP_TO_EDGE,
            wrap_t: GL_CLAMP_TO_EDGE,
            egl_image: self.egl_image,
        }
    }

    /// How to attach the texture to the framebuffer.
    pub fn attachment(&self) -> (attachment: AttachmentPlan)
        ensures
            attachment == color_attachment(),
    {
        AttachmentPlan {
            target: GL_FRAMEBUFFER,
            attachment: GL_COLOR_ATTACHMENT0,
            texture_target: GL_TEXTURE_2D,
            level: 0,
        }
    }

    /// Takes the texture, the framebuffer and the framebuffer's status.
    pub fn checked(self, texture: u32, fbo: u32, status: u32) -> (slot: Result<
        SwapchainSlot,
        MonitorSetupError,
    >)
        ensures
            slot is Ok <==> status == GL_FRAMEBUFFER_COMPLETE,
            slot matches Ok(slot) ==> slot == (SwapchainSlot {
                buffer: self.source(),
                fbo,
                texture,
                egl_image: self.image(),
                drm_fb: None,
            }),
            slot matches Err(error) ==> error.is_drm_error(
                "Failed to create framebuffer, status=0x"@ + hex_digits(status as nat),
            ),
    {
        if status != GL_FRAMEBUFFER_COMPLETE {
            let digits = hex(status);
            let reason = prefixed("Failed to create framebuffer, status=0x", digits.as_str());
            return Err(MonitorSetupError::DrmError(reason));
        }
        Ok(
            SwapchainSlot {
                buffer: self.buffer,
                fbo,
                texture,
                egl_image: self.egl_image,
                drm_fb: None,
            },
        )
    }
}

/// The lower-case hexadecimal digit of a number below sixteen.
pub open spec fn hex_digit(value: nat) -> char {
    if value < 10 {
        ('0' as nat + value) as char
    } else {
        ('a' as nat + value - 10) as char
    }
}

/// The hexadecimal digits of a number, without leading zeros.
pub open spec fn hex_digits(value: nat) -> Seq<char>
    decreases value,
{
    if value < 16 {
        seq![hex_digit(value)]
    } else {
        hex_digits(value / 16).push(hex_digit(value % 16))
    }
}

fn digit_text(value: u32) -> (text: &'static str)
    requires
        value < 16,
    ensures
        text@ == seq![hex_digit(value as nat)],
{
    proof {
        reveal_strlit("0");
        reveal_strlit("1");
        reveal_strlit("2");
        reveal_strlit("3");
        reveal_strlit("4");
        reveal_strlit("5");
        reveal_strlit("6");
        reveal_strlit("7");
        reveal_strlit("8");
        reveal_strlit("9");
        reveal_strlit("a");
        reveal_strlit("b");
        reveal_strlit("c");
        reveal_strlit("d");
        reveal_strlit("e");
        reveal_strlit("f");
    }
    match value {
        0 => "0",
        1 => "1",
        2 => "2",
        3 => "3",
        4 => "4",
        5 => "5",
        6 => "6",
        7 => "7",
        8 => "8",
        9 => "9",
        10 => "a",
        11 => "b",
        12 => "c",
        13 => "d",
        14 => "e",
        _ => "f",
    }
}

/// The hexadecimal digits of a number, without leading zeros.
fn hex(value: u32) -> (text: String)
    ensures
        text@ == hex_digits(value as nat),
    decreases value,
{
    let mut text = if value < 16 {
        String::new()
    } else {
        hex(value / 16)
    };
    let ghost before = text@;
    let digit = digit_text(value % 16);
    text.append(digit);
    assert(text@ =~= before.push(hex_digit((value % 16) as nat)));
    text
}

/// What is to be destroyed of a slot that is no longer needed, in this order.
#[derive(Clone, Copy, Debug)]
pub struct SlotTeardown {
    /// The kernel's framebuffer.
    pub drm_fb: Option<FramebufferHandle>,
    /// The OpenGL framebuffer.
    pub fbo: Option<u32>,
    /// The OpenGL texture.
    pub texture: Option<u32>,
    /// The EGL image.
    pub egl_image: Option<u64>,
    /// The buffer, by its number. It is released in any case.
    pub buffer: u64,
}

/// What destroying the slot comes to: whatever OpenGL and EGL have of it. The
/// kernel's framebuffer stays.
pub open spec fn teardown_of(slot: SwapchainSlot) -> SlotTeardown {
    SlotTeardown {
        drm_fb: None,
        fbo: if slot.fbo != 0 {
            Some(slot.fbo)
        } else {
            None
        },
        texture: if slot.texture != 0 {
            Some(slot.texture)
        } else {
            None
        },
        egl_image: if slot.egl_image != 0 {
            Some(slot.egl_image)
        } else {
            None
        },
        buffer: slot.buffer.id,
    }
}

/// Which objects of the slot to destroy.
pub fn destroy_slot(slot: &SwapchainSlot) -> (teardown: SlotTeardown)
    ensures
        teardown == teardown_of(*slot),
{
    SlotTeardown {
        drm_fb: None,
        fbo: if slot.fbo != 0 {
            Some(slot.fbo)
        } else {
            None
        },
        texture: if slot.texture != 0 {
            Some(slot.texture)
        } else {
            None
        },
        egl_image: if slot.egl_image != 0 {
            Some(slot.egl_image)
        } else {
            None
        },
        buffer: slot.buffer.id,
    }
}

/// What giving up a slot's buffer alone comes to.
pub open spec fn abandonment_of(slot: SwapchainSlot) -> SlotTeardown {
    SlotTeardown {
        drm_fb: None,
        fbo: None,
        texture: None,
        egl_image: None,
        buffer: slot.buffer.id,
    }
}

/// What is to become of a slot that another one replaces. Without the lock on
/// the shared context nothing but the buffer can be given up.
pub open spec fn retirement_of(slot: SwapchainSlot, locked: bool) -> SlotTeardown {
    if locked {
        SlotTeardown { drm_fb: slot.drm_fb, ..teardown_of(slot) }
    } else {
        abandonment_of(slot)
    }
}

/// What is to become of a slot that another one replaces.
pub fn retire_slot(slot: &SwapchainSlot, locked: bool) -> (teardown: SlotTeardown)
    ensures
        teardown == retirement_of(*slot, locked),
{
    if locked {
        let mut teardown = destroy_slot(slot);
        teardown.drm_fb = slot.drm_fb;
        teardown
    } else {
        SlotTeardown {
            drm_fb: None,
            fbo: None,
            texture: None,
            egl_image: None,
            buffer: slot.buffer.id,
        }
    }
}

/// Two slots, of which one is drawn into.
#[derive(Debug)]
pub struct Swapchain {
    slots: [SwapchainSlot; 2],
    current: usize,
}

impl Swapchain {
    /// There are two slots, and the position is that of one of them.
    #[verifier::type_invariant]
    pub open(crate) spec fn well_formed(self) -> bool {
        self.slots().len() == 2 && 0 <= self.current() < 2
    }

    /// The slots.
    pub closed spec fn slots(self) -> Seq<SwapchainSlot> {
        self.slots@
    }

    /// The position of the slot that is drawn into.
    pub closed spec fn current(self) -> int {
        self.current as int
    }

    /// Two slots, of which the first is drawn into.
    pub fn new(first: SwapchainSlot, second: SwapchainSlot) -> (swapchain: Self)
        ensures
            swapchain.slots() == seq![first, second],
            swapchain.current() == 0,
    {
        let swapchain = Swapchain { slots: [first, second], current: 0 };
        assert(swapchain.slots() =~= seq![first, second]);
        swapchain
    }

    /// The slot at a position.
    pub fn slot(&self, index: usize) -> (slot: SwapchainSlot)
        requires
            index < 2,
        ensures
            slot == self.slots()[index as int],
            self.slots().len() == 2,
    {
        self.slots[index]
    }

    /// The slot that is drawn into.
    pub fn current_slot(&self) -> (slot: SwapchainSlot)
        ensures
            slot == self.slots()[self.current()],
            self.slots().len() == 2,
            0 <= self.current() < 2,
    {
        proof {
            use_type_invariant(self);
        }
        self.slots[self.current]
    }

    /// Notes the kernel's framebuffer of the slot that is drawn into.
    pub fn attach(&mut self, framebuffer: FramebufferHandle)
        ensures
            final(self).current() == old(self).current(),
            final(self).slots() == old(self).slots().update(
                old(self).current(),
                SwapchainSlot {
                    drm_fb: Some(framebuffer),
                    ..old(self).slots()[old(self).current()]
                },
            ),
    {
        let mut slot = self.current_slot();
        slot.drm_fb = Some(framebuffer);
        let current = self.current;
        let mut slots = self.slots;
        slots[current] = slot;
        self.slots = slots;
    }

    /// Turns to the other slot.
    pub fn advance(&mut self)
        ensures
            final(self).slots() == old(self).slots(),
            final(self).current() == (old(self).current() + 1) % 2,
    {
        proof {
            use_type_invariant(&*self);
        }
        self.current = (self.current + 1) % self.slots.len();
    }
}

} // verus!
