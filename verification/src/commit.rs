//! Adding a monitor's drawn frame to an atomic commit.
//!
//! Populating a commit alternates between outside work and decisions. Each
//! stage below stands for what is to be done next; handing it, or the monitor
//! with it, what came of that gives the next stage or the failure. A monitor
//! changes only in the steps that take it by `&mut`.
use drm::control::atomic::AtomicModeReq;
use vstd::prelude::*;

use crate::egl_image::BufferInfo;
use crate::error::{MonitorSetupError, prefixed};
use crate::gles_context::Activation;
use crate::handle::{FramebufferHandle, PropertyHandle};
use crate::mode::Mode;
use crate::monitor::{Monitor, MonitorState, check_activation, is_activation_error};
use crate::property::PropertyTable;
use crate::request::{Assignment, Object, PropertyValue, assign_all, assigned, has_room, request_contents};
use crate::swapchain::{BufferRequest, SlotTeardown, Swapchain, SwapchainSlot, create_slot, retire_slot, retirement_of};

verus! {

/// What a commit is to show: the mode that was wanted when it began, and the
/// fence to wait for, as a file descriptor that stays the caller's.
#[derive(Clone, Copy, Debug)]
pub struct CommitPlan {
    pub mode: Mode,
    pub in_fence_fd: Option<i32>,
}

/// How a commit begins.
#[derive(Debug)]
pub enum CommitStart {
    /// The slots have another size than the mode and are to be replaced.
    Rebuild(RebuildRequest),
    /// The slots can be used as they are.
    Ready(ActivationRequest),
}

/// The shared context is to be activated for creating slots.
#[derive(Debug)]
pub struct RebuildRequest {
    plan: CommitPlan,
}

/// The first new slot is to be created.
#[derive(Debug)]
pub struct FirstSlotRequest {
    plan: CommitPlan,
}

/// The second new slot is to be created.
#[derive(Debug)]
pub struct SecondSlotRequest {
    plan: CommitPlan,
    first: SwapchainSlot,
}

/// The old slots are to give way to the new ones.
#[derive(Debug)]
pub struct ReplacementRequest {
    plan: CommitPlan,
    first: SwapchainSlot,
    second: SwapchainSlot,
}

/// The shared context is to be activated for committing.
#[derive(Debug)]
pub struct ActivationRequest {
    plan: CommitPlan,
}

/// How the drawn slot gets a framebuffer of the kernel's.
#[derive(Debug)]
pub enum FramebufferStep {
    /// It has one.
    Present(GeometryRequest),
    /// One is to be added.
    Missing(PlanarRequest),
}

/// A framebuffer is to be added to the buffer plane by plane.
#[derive(Debug)]
pub struct PlanarRequest {
    plan: CommitPlan,
    buffer: BufferInfo,
    with_modifiers: bool,
}

/// What came of adding a framebuffer plane by plane.
#[derive(Debug)]
pub enum PlanarStep {
    /// There is a framebuffer.
    Added(AttachmentRequest),
    /// A framebuffer is to be added the old way.
    Fallback(LegacyRequest),
}

/// A framebuffer is to be added to the buffer the old way.
#[derive(Debug)]
pub struct LegacyRequest {
    plan: CommitPlan,
    buffer: BufferInfo,
}

/// The new framebuffer is to be noted in the drawn slot.
#[derive(Debug)]
pub struct AttachmentRequest {
    plan: CommitPlan,
    framebuffer: FramebufferHandle,
}

/// What the plane shows of the buffer, and where, is to be entered.
#[derive(Debug)]
pub struct GeometryRequest {
    plan: CommitPlan,
    framebuffer: FramebufferHandle,
}

/// Whether the commit tells the kernel the mode.
#[derive(Debug)]
pub enum ModeStep {
    /// It does, and a blob with the mode is to be created.
    Change(BlobRequest),
    /// The kernel uses the mode already.
    Keep(FinishRequest),
}

/// A blob with the mode is to be created.
#[derive(Debug)]
pub struct BlobRequest {
    plan: CommitPlan,
    framebuffer: FramebufferHandle,
}

/// The rest is to be entered.
#[derive(Debug)]
pub struct FinishRequest {
    plan: CommitPlan,
    framebuffer: FramebufferHandle,
    mode_blob: Option<u64>,
}

/// A monitor's part of a commit has been entered, and the commit may be
/// issued.
#[derive(Debug)]
pub struct PopulatedCommit {
    mode: Option<Mode>,
}

/// The depth of a framebuffer that is added the old way.
pub const LEGACY_DEPTH: u32 = 24;

/// The bits per pixel of a framebuffer that is added the old way.
pub const LEGACY_BPP: u32 = 32;

impl CommitStart {
    /// What the commit is to show.
    pub open spec fn plan(self) -> CommitPlan {
        match self {
            CommitStart::Rebuild(request) => request.plan(),
            CommitStart::Ready(request) => request.plan(),
        }
    }
}

impl RebuildRequest {
    /// What the commit is to show.
    pub closed spec fn plan(self) -> CommitPlan {
        self.plan
    }

    /// Takes what came of activating the shared context.
    pub fn activated(self, activation: Activation) -> (next: Result<
        FirstSlotRequest,
        MonitorSetupError,
    >)
        ensures
            next is Ok <==> activation == Activation::Current,
            next matches Ok(request) ==> request.plan() == self.plan(),
            next matches Err(error) ==> is_activation_error(activation, error),
    {
        match check_activation(activation) {
            Ok(()) => Ok(FirstSlotRequest { plan: self.plan }),
            Err(error) => Err(error),
        }
    }
}

impl FirstSlotRequest {
    /// What the commit is to show.
    pub closed spec fn plan(self) -> CommitPlan {
        self.plan
    }

    /// Begins to create the slot, as large as the mode.
    pub fn create_slot(&self) -> (next: BufferRequest)
        ensures
            next.extent() == (self.plan().mode.hdisplay as u32, self.plan().mode.vdisplay as u32),
    {
        create_slot(&self.plan.mode)
    }

    /// Takes the slot.
    pub fn built(self, slot: SwapchainSlot) -> (next: SecondSlotRequest)
        ensures
            next.plan() == self.plan(),
            next.first() == slot,
    {
        SecondSlotRequest { plan: self.plan, first: slot }
    }
}

impl SecondSlotRequest {
    /// What the commit is to show.
    pub closed spec fn plan(self) -> CommitPlan {
        self.plan
    }

    /// The first new slot.
    pub closed spec fn first(self) -> SwapchainSlot {
        self.first
    }

    /// Begins to create the slot, as large as the mode.
    pub fn create_slot(&self) -> (next: BufferRequest)
        ensures
            next.extent() == (self.plan().mode.hdisplay as u32, self.plan().mode.vdisplay as u32),
    {
        create_slot(&self.plan.mode)
    }

    /// Takes the slot.
    pub fn built(self, slot: SwapchainSlot) -> (next: ReplacementRequest)
        ensures
            next.plan() == self.plan(),
            next.first() == self.first(),
            next.second() == slot,
    {
        ReplacementRequest { plan: self.plan, first: self.first, second: slot }
    }
}

impl ReplacementRequest {
    /// What the commit is to show.
    pub closed spec fn plan(self) -> CommitPlan {
        self.plan
    }

    /// The first new slot.
    pub closed spec fn first(self) -> SwapchainSlot {
        self.first
    }

    /// The second new slot.
    pub closed spec fn second(self) -> SwapchainSlot {
        self.second
    }
}

impl ActivationRequest {
    /// What the commit is to show.
    pub closed spec fn plan(self) -> CommitPlan {
        self.plan
    }
}

impl PlanarRequest {
    /// What the commit is to show.
    pub closed spec fn plan(self) -> CommitPlan {
        self.plan
    }

    /// The buffer of the drawn slot.
    pub closed spec fn target(self) -> BufferInfo {
        self.buffer
    }

    /// Whether the layout modifier goes with the framebuffer. The kernel's
    /// interface wants it to if and only if the buffer has one.
    pub closed spec fn modified(self) -> bool {
        self.with_modifiers
    }

    /// The buffer to add the framebuffer to.
    pub fn buffer(&self) -> (buffer: BufferInfo)
        ensures
            buffer == self.target(),
    {
        self.buffer
    }

    /// Whether to hand over the layout modifier with the framebuffer.
    pub fn with_modifiers(&self) -> (with_modifiers: bool)
        ensures
            with_modifiers == self.modified(),
    {
        self.with_modifiers
    }

    /// Takes the framebuffer, or `None` if the kernel refused.
    pub fn added(self, framebuffer: Option<FramebufferHandle>) -> (next: PlanarStep)
        ensures
            match next {
                PlanarStep::Added(request) => framebuffer == Some(request.framebuffer())
                    && request.plan() == self.plan(),
                PlanarStep::Fallback(request) => framebuffer is None && request.plan()
                    == self.plan() && request.target() == self.target(),
            },
    {
        match framebuffer {
            Some(framebuffer) => PlanarStep::Added(
                AttachmentRequest { plan: self.plan, framebuffer },
            ),
            None => PlanarStep::Fallback(LegacyRequest { plan: self.plan, buffer: self.buffer }),
        }
    }
}

impl LegacyRequest {
    /// What the commit is to show.
    pub closed spec fn plan(self) -> CommitPlan {
        self.plan
    }

    /// The buffer of the drawn slot.
    pub closed spec fn target(self) -> BufferInfo {
        self.buffer
    }

    /// The buffer to add the framebuffer to.
    pub fn buffer(&self) -> (buffer: BufferInfo)
        ensures
            buffer == self.target(),
    {
        self.buffer
    }

    /// The framebuffer's depth and bits per pixel.
    pub fn format(&self) -> (format: (u32, u32))
        ensures
            format == (LEGACY_DEPTH, LEGACY_BPP),
    {
        (LEGACY_DEPTH, LEGACY_BPP)
    }

    /// Takes the framebuffer, or why there is none.
    pub fn added(self, outcome: Result<FramebufferHandle, String>) -> (next: Result<
        AttachmentRequest,
        MonitorSetupError,
    >)
        ensures
            next is Ok <==> outcome is Ok,
            next matches Ok(request) ==> request.framebuffer() == outcome->Ok_0 && request.plan()
                == self.plan(),
            next matches Err(error) ==> error.is_drm_error(
                "Failed to add framebuffer: "@ + outcome->Err_0@,
            ),
    {
        match outcome {
            Ok(framebuffer) => Ok(AttachmentRequest { plan: self.plan, framebuffer }),
            Err(reason) => Err(
                MonitorSetupError::DrmError(
                    prefixed("Failed to add framebuffer: ", reason.as_str()),
                ),
            ),
        }
    }
}

impl AttachmentRequest {
    /// What the commit is to show.
    pub closed spec fn plan(self) -> CommitPlan {
        self.plan
    }

    /// The new framebuffer.
    pub closed spec fn framebuffer(self) -> FramebufferHandle {
        self.framebuffer
    }
}

impl GeometryRequest {
    /// What the commit is to show.
    pub closed spec fn plan(self) -> CommitPlan {
        self.plan
    }

    /// The framebuffer of the drawn slot.
    pub closed spec fn framebuffer(self) -> FramebufferHandle {
        self.framebuffer
    }
}

impl BlobRequest {
    /// What the commit is to show.
    pub closed spec fn plan(self) -> CommitPlan {
        self.plan
    }

    /// The framebuffer of the drawn slot.
    pub closed spec fn framebuffer(self) -> FramebufferHandle {
        self.framebuffer
    }

    /// The mode to put into the blob.
    pub fn mode(&self) -> (mode: Mode)
        ensures
            mode == self.plan().mode,
    {
        self.plan.mode
    }

    /// Takes the number of the blob, or why there is none.
    pub fn created(self, outcome: Result<u64, String>) -> (next: Result<
        FinishRequest,
        MonitorSetupError,
    >)
        ensures
            next is Ok <==> outcome is Ok,
            next matches Ok(request) ==> request.plan() == self.plan() && request.framebuffer()
                == self.framebuffer() && request.mode_blob() == Some(outcome->Ok_0),
            next matches Err(error) ==> error.is_drm_error(
                "Failed to create mode blob: "@ + outcome->Err_0@,
            ),
    {
        match outcome {
            Ok(blob) => Ok(
                FinishRequest {
                    plan: self.plan,
                    framebuffer: self.framebuffer,
                    mode_blob: Some(blob),
                },
            ),
            Err(reason) => Err(
                MonitorSetupError::DrmError(
                    prefixed("Failed to create mode blob: ", reason.as_str()),
                ),
            ),
        }
    }
}

impl FinishRequest {
    /// What the commit is to show.
    pub closed spec fn plan(self) -> CommitPlan {
        self.plan
    }

    /// The framebuffer of the drawn slot.
    pub closed spec fn framebuffer(self) -> FramebufferHandle {
        self.framebuffer
    }

    /// The blob with the mode, if the commit tells the kernel the mode.
    pub closed spec fn mode_blob(self) -> Option<u64> {
        self.mode_blob
    }
}

impl PopulatedCommit {
    /// The mode that the commit tells the kernel, if it does.
    pub closed spec fn mode(self) -> Option<Mode> {
        self.mode
    }

    /// Whether the commit tells the kernel a mode, which the kernel has to be
    /// allowed to change for it.
    pub fn sets_mode(&self) -> (sets_mode: bool)
        ensures
            sets_mode == (self.mode() is Some),
    {
        self.mode.is_some()
    }
}

/// A number of pixels with sixteen binary places.
pub open spec fn fixed_point(pixels: u16) -> u64 {
    (pixels * 0x1_0000) as u64
}

/// A number of pixels with sixteen binary places.
fn to_fixed_point(pixels: u16) -> (fixed: u64)
    ensures
        fixed == fixed_point(pixels),
{
    let wide = pixels as u64;
    assert(wide << 16u64 == wide * 0x1_0000) by (bit_vector)
        requires
            wide <= 0xFFFF,
    ;
    wide << 16u64
}

impl<T> MonitorState<T> {
    /// Whether the kernel has the properties that say what a plane shows, and
    /// where.
    pub open spec fn has_geometry_properties(self) -> bool {
        &&& self.connector_properties.contains_key("CRTC_ID"@)
        &&& self.plane_properties.contains_key("CRTC_ID"@)
        &&& self.plane_properties.contains_key("SRC_X"@)
        &&& self.plane_properties.contains_key("SRC_Y"@)
        &&& self.plane_properties.contains_key("SRC_W"@)
        &&& self.plane_properties.contains_key("SRC_H"@)
        &&& self.plane_properties.contains_key("CRTC_X"@)
        &&& self.plane_properties.contains_key("CRTC_Y"@)
        &&& self.plane_properties.contains_key("CRTC_W"@)
        &&& self.plane_properties.contains_key("CRTC_H"@)
    }

    /// Whether the kernel has the properties that set a mode.
    pub open spec fn has_mode_properties(self) -> bool {
        &&& self.crtc_properties.contains_key("MODE_ID"@)
        &&& self.crtc_properties.contains_key("ACTIVE"@)
    }

    /// Whether the kernel has the property that hands a plane a framebuffer.
    pub open spec fn has_framebuffer_property(self) -> bool {
        self.plane_properties.contains_key("FB_ID"@)
    }

    /// An entry for the primary plane.
    pub open spec fn plane_entry(self, name: Seq<char>, value: PropertyValue) -> Assignment {
        Assignment {
            object: Object::Plane(self.primary_plane),
            property: self.plane_properties[name],
            value,
        }
    }

    /// An entry for the scan-out engine.
    pub open spec fn crtc_entry(self, name: Seq<char>, value: PropertyValue) -> Assignment {
        Assignment {
            object: Object::Crtc(self.crtc.handle),
            property: self.crtc_properties[name],
            value,
        }
    }

    /// The entries that have the connector show the scan-out engine, and the
    /// scan-out engine the whole of the plane's buffer in the mode's size.
    pub open spec fn geometry_entries(self, mode: Mode) -> Seq<Assignment> {
        seq![
            Assignment {
                object: Object::Connector(self.connector),
                property: self.connector_properties["CRTC_ID"@],
                value: PropertyValue::Crtc(self.crtc.handle),
            },
            self.plane_entry("CRTC_ID"@, PropertyValue::Crtc(self.crtc.handle)),
            self.plane_entry("SRC_X"@, PropertyValue::UnsignedRange(0)),
            self.plane_entry("SRC_Y"@, PropertyValue::UnsignedRange(0)),
            self.plane_entry("SRC_W"@, PropertyValue::UnsignedRange(fixed_point(mode.hdisplay))),
            self.plane_entry("SRC_H"@, PropertyValue::UnsignedRange(fixed_point(mode.vdisplay))),
            self.plane_entry("CRTC_X"@, PropertyValue::SignedRange(0)),
            self.plane_entry("CRTC_Y"@, PropertyValue::SignedRange(0)),
            self.plane_entry("CRTC_W"@, PropertyValue::UnsignedRange(mode.hdisplay as u64)),
            self.plane_entry("CRTC_H"@, PropertyValue::UnsignedRange(mode.vdisplay as u64)),
        ]
    }

    /// The entries that set the mode of a blob, if there is one.
    pub open spec fn mode_entries(self, mode_blob: Option<u64>) -> Seq<Assignment> {
        match mode_blob {
            Some(blob) => seq![
                self.crtc_entry("MODE_ID"@, PropertyValue::Blob(blob)),
                self.crtc_entry("ACTIVE"@, PropertyValue::Boolean(true)),
            ],
            None => Seq::empty(),
        }
    }

    /// The entry that has the kernel wait for the fence before it shows the
    /// framebuffer: for the plane if the plane can wait, else for the scan-out
    /// engine if that can.
    pub open spec fn fence_entries(self, in_fence_fd: Option<i32>) -> Seq<Assignment> {
        match in_fence_fd {
            Some(fd) => if self.plane_properties.contains_key("IN_FENCE_FD"@) {
                seq![self.plane_entry("IN_FENCE_FD"@, PropertyValue::SignedRange(fd as i64))]
            } else if self.crtc_properties.contains_key("IN_FENCE_FD"@) {
                seq![self.crtc_entry("IN_FENCE_FD"@, PropertyValue::SignedRange(fd as i64))]
            } else {
                Seq::empty()
            },
            None => Seq::empty(),
        }
    }

    /// The entries that follow on the mode's blob: the mode, the framebuffer
    /// and the fence.
    pub open spec fn finish_entries(
        self,
        framebuffer: FramebufferHandle,
        mode_blob: Option<u64>,
        in_fence_fd: Option<i32>,
    ) -> Seq<Assignment> {
        self.mode_entries(mode_blob).push(
            self.plane_entry("FB_ID"@, PropertyValue::Framebuffer(framebuffer)),
        ) + self.fence_entries(in_fence_fd)
    }
}

/// The handle of a property that is there.
fn lookup(table: &PropertyTable, name: &str) -> (handle: PropertyHandle)
    requires
        table@.contains_key(name@),
    ensures
        handle == table@[name@],
{
    table.get(name).unwrap()
}

/// Whether all of the named properties are there.
fn has_all(table: &PropertyTable, names: &Vec<&str>) -> (all: bool)
    ensures
        all == forall|i: int|
            0 <= i < names@.len() ==> table@.contains_key(#[trigger] names@[i]@),
{
    let mut i: usize = 0;
    while i < names.len()
        invariant
            i <= names@.len(),
            forall|j: int| 0 <= j < i ==> table@.contains_key(#[trigger] names@[j]@),
        decreases names@.len() - i,
    {
        if table.get(names[i]).is_none() {
            assert(!table@.contains_key(names@[i as int]@));
            return false;
        }
        i += 1;
    }
    true
}

impl<T> Monitor<T> {
    /// Whether the slots are as large as the mode.
    pub fn swapchain_fits(&self, mode: &Mode) -> (fits: bool)
        ensures
            fits == self@.fits(*mode),
            fits <==> self@.slots[0].buffer.width == mode.hdisplay
                && self@.slots[0].buffer.height == mode.vdisplay,
    {
        let (width, height) = mode.size();
        let slot = self.swapchain.slot(0);
        slot.buffer.width == width as u32 && slot.buffer.height == height as u32
    }

    /// Begins to populate a commit with the monitor's drawn slot in the mode
    /// that the application wants, to be shown once the fence is open.
    pub fn populate_commit(&self, in_fence_fd: Option<i32>) -> (start: CommitStart)
        ensures
            start.plan() == (CommitPlan { mode: self@.active_mode(), in_fence_fd }),
            start is Ready <==> self@.fits(self@.active_mode()),
            start matches CommitStart::Ready(ready) ==> {
                let buffer = self@.slots[0].buffer;
                &&& ready.plan() == (CommitPlan { mode: self@.active_mode(), in_fence_fd })
                &&& buffer.width == ready.plan().mode.hdisplay
                &&& buffer.height == ready.plan().mode.vdisplay
            },
            start matches CommitStart::Rebuild(rebuild) ==> rebuild.plan() == (CommitPlan {
                mode: self@.active_mode(),
                in_fence_fd,
            }),
            self@.double_buffered(),
    {
        proof {
            use_type_invariant(&self.swapchain);
        }
        let mode = *self.active_mode();
        let plan = CommitPlan { mode, in_fence_fd };
        if self.swapchain_fits(&mode) {
            CommitStart::Ready(ActivationRequest { plan })
        } else {
            CommitStart::Rebuild(RebuildRequest { plan })
        }
    }

    /// Replaces the slots, and takes whether the shared context could be
    /// locked for destroying the old ones. Gives what is to be destroyed.
    pub fn replace_swapchain(&mut self, request: ReplacementRequest, locked: bool) -> (next: (
        ActivationRequest,
        [SlotTeardown; 2],
    ))
        ensures
            next.0.plan() == request.plan(),
            final(self)@ == old(self)@.swapchain_replaced(request.first(), request.second()),
            forall|i: int|
                0 <= i < 2 ==> #[trigger] next.1@[i] == retirement_of(old(self)@.slots[i], locked),
    {
        let first = self.swapchain.slot(0);
        let second = self.swapchain.slot(1);
        let teardowns = [retire_slot(&first, locked), retire_slot(&second, locked)];
        self.swapchain = Swapchain::new(request.first, request.second);
        (ActivationRequest { plan: request.plan }, teardowns)
    }

    /// Takes what came of activating the shared context. Gives how the drawn
    /// slot gets a framebuffer.
    pub fn commit_activated(&self, request: ActivationRequest, activation: Activation) -> (next:
        Result<FramebufferStep, MonitorSetupError>)
        ensures
            next is Ok <==> activation == Activation::Current,
            next matches Ok(step) ==> match step {
                FramebufferStep::Present(present) => self@.drawn_slot().drm_fb == Some(
                    present.framebuffer(),
                ) && present.plan() == request.plan(),
                FramebufferStep::Missing(missing) => self@.drawn_slot().drm_fb is None
                    && missing.plan() == request.plan() && missing.target()
                    == self@.drawn_slot().buffer && missing.modified()
                    == self@.drawn_slot().buffer.modified(),
            },
            next matches Err(error) ==> is_activation_error(activation, error),
    {
        match check_activation(activation) {
            Ok(()) => {
                let slot = self.swapchain.current_slot();
                let step = match slot.drm_fb {
                    Some(framebuffer) => FramebufferStep::Present(
                        GeometryRequest { plan: request.plan, framebuffer },
                    ),
                    None => FramebufferStep::Missing(
                        PlanarRequest {
                            plan: request.plan,
                            buffer: slot.buffer,
                            with_modifiers: slot.buffer.has_modifier(),
                        },
                    ),
                };
                Ok(step)
            },
            Err(error) => Err(error),
        }
    }

    /// Notes a new framebuffer in the drawn slot, for this commit and later
    /// ones.
    pub fn attach_framebuffer(&mut self, request: AttachmentRequest) -> (next: GeometryRequest)
        ensures
            next.plan() == request.plan(),
            next.framebuffer() == request.framebuffer(),
            final(self)@ == old(self)@.framebuffer_attached(request.framebuffer()),
    {
        self.swapchain.attach(request.framebuffer);
        GeometryRequest { plan: request.plan, framebuffer: request.framebuffer }
    }

    /// Whether the kernel has the properties that `assign_geometry` needs.
    pub fn has_geometry_properties(&self) -> (present: bool)
        ensures
            present == self@.has_geometry_properties(),
    {
        let names: Vec<&str> = vec![
            "CRTC_ID",
            "SRC_X",
            "SRC_Y",
            "SRC_W",
            "SRC_H",
            "CRTC_X",
            "CRTC_Y",
            "CRTC_W",
            "CRTC_H",
        ];
        let present = has_all(&self.plane_properties, &names);
        proof {
            let props = self.plane_properties@;
            if present {
                assert(props.contains_key(names@[0]@));
                assert(props.contains_key(names@[1]@));
                assert(props.contains_key(names@[2]@));
                assert(props.contains_key(names@[3]@));
                assert(props.contains_key(names@[4]@));
                assert(props.contains_key(names@[5]@));
                assert(props.contains_key(names@[6]@));
                assert(props.contains_key(names@[7]@));
                assert(props.contains_key(names@[8]@));
            }
        }
        present && self.connector_properties.get("CRTC_ID").is_some()
    }

    /// Whether the kernel has the properties that `finish_commit` needs to
    /// set a mode.
    pub fn has_mode_properties(&self) -> (present: bool)
        ensures
            present == self@.has_mode_properties(),
    {
        self.crtc_properties.get("MODE_ID").is_some() && self.crtc_properties.get(
            "ACTIVE",
        ).is_some()
    }

    /// Whether the kernel has the property that `finish_commit` needs to hand
    /// over the framebuffer.
    pub fn has_framebuffer_property(&self) -> (present: bool)
        ensures
            present == self@.has_framebuffer_property(),
    {
        self.plane_properties.get("FB_ID").is_some()
    }

    /// Enters what the plane shows, and where. Gives whether the commit tells
    /// the kernel its mode, which it does unless the kernel is using that.
    pub fn assign_geometry(&self, request: GeometryRequest, atomic_req: &mut AtomicModeReq) -> (next:
        ModeStep)
        requires
            self@.has_geometry_properties(),
            has_room(request_contents(*old(atomic_req)), 10),
        ensures
            request_contents(*final(atomic_req)) == assigned(
                request_contents(*old(atomic_req)),
                self@.geometry_entries(request.plan().mode),
            ),
            forall|n: nat|
                has_room(request_contents(*old(atomic_req)), n + 10) ==> #[trigger] has_room(
                    request_contents(*final(atomic_req)),
                    n,
                ),
            next is Change <==> self@.needs_mode(request.plan().mode),
            match next {
                ModeStep::Change(blob) => blob.plan() == request.plan() && blob.framebuffer()
                    == request.framebuffer(),
                ModeStep::Keep(finish) => finish.plan() == request.plan() && finish.framebuffer()
                    == request.framebuffer() && finish.mode_blob() is None,
            },
    {
        let (width, height) = request.plan.mode.size();
        let connector = Object::Connector(self.connector_id);
        let plane = Object::Plane(self.primary_plane_id);
        let crtc = PropertyValue::Crtc(self.current_crtc.handle);
        let table = &self.plane_properties;
        let entries: Vec<Assignment> = vec![
            Assignment {
                object: connector,
                property: lookup(&self.connector_properties, "CRTC_ID"),
                value: crtc,
            },
            Assignment { object: plane, property: lookup(table, "CRTC_ID"), value: crtc },
            Assignment {
                object: plane,
                property: lookup(table, "SRC_X"),
                value: PropertyValue::UnsignedRange(0),
            },
            Assignment {
                object: plane,
                property: lookup(table, "SRC_Y"),
                value: PropertyValue::UnsignedRange(0),
            },
            Assignment {
                object: plane,
                property: lookup(table, "SRC_W"),
                value: PropertyValue::UnsignedRange(to_fixed_point(width)),
            },
            Assignment {
                object: plane,
                property: lookup(table, "SRC_H"),
                value: PropertyValue::UnsignedRange(to_fixed_point(height)),
            },
            Assignment {
                object: plane,
                property: lookup(table, "CRTC_X"),
                value: PropertyValue::SignedRange(0),
            },
            Assignment {
                object: plane,
                property: lookup(table, "CRTC_Y"),
                value: PropertyValue::SignedRange(0),
            },
            Assignment {
                object: plane,
                property: lookup(table, "CRTC_W"),
                value: PropertyValue::UnsignedRange(width as u64),
            },
            Assignment {
                object: plane,
                property: lookup(table, "CRTC_H"),
                value: PropertyValue::UnsignedRange(height as u64),
            },
        ];
        assert(entries@ =~= self@.geometry_entries(request.plan().mode));
        assign_all(atomic_req, &entries);
        if self.needs_mode(&request.plan.mode) {
            ModeStep::Change(BlobRequest { plan: request.plan, framebuffer: request.framebuffer })
        } else {
            ModeStep::Keep(
                FinishRequest {
                    plan: request.plan,
                    framebuffer: request.framebuffer,
                    mode_blob: None,
                },
            )
        }
    }

    /// Enters the mode, the framebuffer and the fence, and turns to the other
    /// slot, which may not be drawn into before this frame is on screen.
    pub fn finish_commit(&mut self, request: FinishRequest, atomic_req: &mut AtomicModeReq) -> (
    populated: PopulatedCommit)
        requires
            old(self)@.has_framebuffer_property(),
            request.mode_blob() is Some ==> old(self)@.has_mode_properties(),
            has_room(request_contents(*old(atomic_req)), 4),
        ensures
            request_contents(*final(atomic_req)) == assigned(
                request_contents(*old(atomic_req)),
                old(self)@.finish_entries(
                    request.framebuffer(),
                    request.mode_blob(),
                    request.plan().in_fence_fd,
                ),
            ),
            forall|n: nat|
                has_room(request_contents(*old(atomic_req)), n + 4) ==> #[trigger] has_room(
                    request_contents(*final(atomic_req)),
                    n,
                ),
            final(self)@ == old(self)@.handed_over(),
            old(self)@.double_buffered(),
            final(self)@.double_buffered(),
            populated.mode() == (if request.mode_blob() is Some {
                Some(request.plan().mode)
            } else {
                None
            }),
    {
        let plane = Object::Plane(self.primary_plane_id);
        let crtc = Object::Crtc(self.current_crtc.handle);
        let mut entries: Vec<Assignment> = Vec::new();
        if let Some(blob) = request.mode_blob {
            entries.push(
                Assignment {
                    object: crtc,
                    property: lookup(&self.crtc_properties, "MODE_ID"),
                    value: PropertyValue::Blob(blob),
                },
            );
            entries.push(
                Assignment {
                    object: crtc,
                    property: lookup(&self.crtc_properties, "ACTIVE"),
                    value: PropertyValue::Boolean(true),
                },
            );
        }
        entries.push(
            Assignment {
                object: plane,
                property: lookup(&self.plane_properties, "FB_ID"),
                value: PropertyValue::Framebuffer(request.framebuffer),
            },
        );
        if let Some(fd) = request.plan.in_fence_fd {
            let value = PropertyValue::SignedRange(fd as i64);
            if let Some(property) = self.plane_properties.get("IN_FENCE_FD") {
                entries.push(Assignment { object: plane, property, value });
            } else if let Some(property) = self.crtc_properties.get("IN_FENCE_FD") {
                entries.push(Assignment { object: crtc, property, value });
            }
        }
        assert(entries@ =~= self@.finish_entries(
            request.framebuffer(),
            request.mode_blob(),
            request.plan().in_fence_fd,
        ));
        assign_all(atomic_req, &entries);
        proof {
            use_type_invariant(&self.swapchain);
            assert forall|n: nat|
                has_room(request_contents(*old(atomic_req)), n + 4) implies #[trigger] has_room(
                request_contents(*atomic_req),
                n,
            ) by {
                assert(has_room(request_contents(*old(atomic_req)), n + entries@.len()));
            }
        }
        self.swapchain.advance();
        self.first_frame = false;
        self.can_render = false;
        let mode = match request.mode_blob {
            Some(_) => Some(request.plan.mode),
            None => None,
        };
        PopulatedCommit { mode }
    }

    /// Notes the mode that a commit has told the kernel. To be called once
    /// the commit has succeeded, and not if it failed.
    pub fn mark_mode_set(&mut self, commit: PopulatedCommit)
        ensures
            final(self)@ == old(self)@.mode_told(commit.mode()),
    {
        if let Some(mode) = commit.mode {
            self.current_mode = Some(mode);
        }
    }
}

} // verus!
