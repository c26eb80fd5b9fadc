//! A connected monitor: its modes, its swapchain and whether it is ready to
//! be drawn.
use vstd::prelude::*;

use crate::egl_image::law_attribute_bits;
use crate::error::{GlesContextError, MonitorSetupError, drm_error};
use crate::gles_context::Activation;
use crate::handle::{ConnectorHandle, CrtcHandle, FramebufferHandle, PlaneHandle, PropertyHandle};
use crate::mode::Mode;
use crate::property::PropertyTable;
use crate::swapchain::{SlotTeardown, Swapchain, SwapchainSlot, abandonment_of, destroy_slot, retire_slot, teardown_of};

verus! {

/// A scan-out engine as the kernel described it when the monitor was set up.
#[derive(Clone, Copy, Debug)]
pub struct CrtcInfo {
    pub handle: CrtcHandle,
    pub position: (u32, u32),
    pub mode: Option<Mode>,
    pub framebuffer: Option<FramebufferHandle>,
    pub gamma_length: u32,
}

/// The kernel's objects that are set aside for one monitor.
#[derive(Clone, Copy, Debug)]
pub struct MonitorResourceAllocation {
    pub crtc_info: CrtcInfo,
    pub primary_plane: PlaneHandle,
    pub cursor_plane: Option<PlaneHandle>,
}

/// Where to draw: a framebuffer and the size of its viewport.
#[derive(Clone, Copy, Debug, PartialEq, Eq, Structural)]
pub struct DrawTarget {
    pub fbo: u32,
    pub width: i32,
    pub height: i32,
}

impl DrawTarget {
    /// The framebuffer and the whole buffer of a slot.
    pub open spec fn of(slot: SwapchainSlot) -> Self {
        DrawTarget {
            fbo: slot.fbo,
            width: slot.buffer.width as i32,
            height: slot.buffer.height as i32,
        }
    }

    /// The framebuffer and the whole buffer of a slot.
    pub(crate) fn new(slot: &SwapchainSlot) -> (target: Self)
        ensures
            target == Self::of(*slot),
    {
        DrawTarget {
            fbo: slot.fbo,
            width: #[verifier::truncate] (slot.buffer.width as i32),
            height: #[verifier::truncate] (slot.buffer.height as i32),
        }
    }
}

/// Represents a connected display monitor with a monitor-local swapchain, and
/// a value of the user's.
#[derive(Debug)]
pub struct Monitor<T> {
    pub(crate) connector_id: ConnectorHandle,
    pub(crate) current_crtc: CrtcInfo,
    pub(crate) default_mode: Mode,
    pub(crate) requested_mode: Option<Mode>,
    pub(crate) current_mode: Option<Mode>,
    pub(crate) primary_plane_id: PlaneHandle,
    pub(crate) cursor_plane_id: Option<PlaneHandle>,
    pub(crate) swapchain: Swapchain,
    pub(crate) can_render: bool,
    pub(crate) was_drawn: bool,
    pub(crate) connector_properties: PropertyTable,
    pub(crate) crtc_properties: PropertyTable,
    pub(crate) plane_properties: PropertyTable,
    pub(crate) first_frame: bool,
    pub(crate) user_context: T,
}

/// What a monitor is at a moment.
pub struct MonitorState<T> {
    pub connector: ConnectorHandle,
    pub crtc: CrtcInfo,
    /// The best mode, found when the monitor was set up.
    pub default_mode: Mode,
    /// The mode that the application wants; `None` stands for the default.
    pub requested_mode: Option<Mode>,
    /// The mode that the kernel is using, as far as that is known.
    pub current_mode: Option<Mode>,
    pub primary_plane: PlaneHandle,
    pub cursor_plane: Option<PlaneHandle>,
    pub slots: Seq<SwapchainSlot>,
    /// The position of the slot that is drawn into.
    pub current_slot: int,
    pub can_render: bool,
    pub was_drawn: bool,
    pub connector_properties: Map<Seq<char>, PropertyHandle>,
    pub crtc_properties: Map<Seq<char>, PropertyHandle>,
    pub plane_properties: Map<Seq<char>, PropertyHandle>,
    pub first_frame: bool,
    pub context: T,
}

impl<T> MonitorState<T> {
    /// Whether there are two slots, of which one is drawn into.
    pub open spec fn double_buffered(self) -> bool {
        self.slots.len() == 2 && 0 <= self.current_slot < 2
    }

    /// The slot that is drawn into.
    pub open spec fn drawn_slot(self) -> SwapchainSlot {
        self.slots[self.current_slot]
    }

    /// The mode that the application wants.
    pub open spec fn active_mode(self) -> Mode {
        match self.requested_mode {
            Some(mode) => mode,
            None => self.default_mode,
        }
    }

    /// Whether the kernel is not known to be using the mode.
    pub open spec fn needs_mode(self, mode: Mode) -> bool {
        self.current_mode != Some(mode)
    }

    /// Whether the kernel has yet to be told the mode that the application
    /// wants.
    pub open spec fn needs_mode_set(self) -> bool {
        self.needs_mode(self.active_mode())
    }

    /// Whether the buffers are as large as the mode. The slots are always
    /// created together, so the first one tells.
    pub open spec fn fits(self, mode: Mode) -> bool {
        self.slots[0].buffer.width == mode.hdisplay && self.slots[0].buffer.height == mode.vdisplay
    }

    /// After a mode has been requested.
    pub open spec fn mode_requested(self, mode: Option<Mode>) -> Self {
        MonitorState { requested_mode: mode, ..self }
    }

    /// After the monitor has been made the one to draw to.
    pub open spec fn made_current(self) -> Self {
        MonitorState { was_drawn: true, ..self }
    }

    /// After the note that it was drawn has been taken back.
    pub open spec fn drawn_reset(self) -> Self {
        MonitorState { was_drawn: false, ..self }
    }

    /// After drawing has been allowed or forbidden.
    pub open spec fn rendering(self, allowed: bool) -> Self {
        MonitorState { can_render: allowed, ..self }
    }

    /// After it has been forgotten what the kernel is using.
    pub open spec fn mode_forgotten(self) -> Self {
        MonitorState { current_mode: None, first_frame: true, ..self }
    }

    /// After a commit that told the kernel the given mode, or no mode.
    pub open spec fn mode_told(self, mode: Option<Mode>) -> Self {
        match mode {
            Some(mode) => MonitorState { current_mode: Some(mode), ..self },
            None => self,
        }
    }

    /// After the slots have been replaced.
    pub open spec fn swapchain_replaced(self, first: SwapchainSlot, second: SwapchainSlot) -> Self {
        MonitorState { slots: seq![first, second], current_slot: 0, ..self }
    }

    /// After the kernel's framebuffer of the drawn slot has been noted.
    pub open spec fn framebuffer_attached(self, framebuffer: FramebufferHandle) -> Self {
        MonitorState {
            slots: self.slots.update(
                self.current_slot,
                SwapchainSlot { drm_fb: Some(framebuffer), ..self.drawn_slot() },
            ),
            ..self
        }
    }

    /// After the drawn slot has been handed to a commit.
    pub open spec fn handed_over(self) -> Self {
        MonitorState {
            current_slot: (self.current_slot + 1) % 2,
            first_frame: false,
            can_render: false,
            ..self
        }
    }

    /// After the user's value has been replaced.
    pub open spec fn context_replaced(self, context: T) -> Self {
        MonitorState { context, ..self }
    }
}

impl<T> View for Monitor<T> {
    type V = MonitorState<T>;

    open(crate) spec fn view(&self) -> MonitorState<T> {
        MonitorState {
            connector: self.connector_id,
            crtc: self.current_crtc,
            default_mode: self.default_mode,
            requested_mode: self.requested_mode,
            current_mode: self.current_mode,
            primary_plane: self.primary_plane_id,
            cursor_plane: self.cursor_plane_id,
            slots: self.swapchain.slots(),
            current_slot: self.swapchain.current(),
            can_render: self.can_render,
            was_drawn: self.was_drawn,
            connector_properties: self.connector_properties@,
            crtc_properties: self.crtc_properties@,
            plane_properties: self.plane_properties@,
            first_frame: self.first_frame,
            context: self.user_context,
        }
    }
}

/// Two monitors are the same if they have the same connector.
impl<T> PartialEq for Monitor<T> {
    fn eq(&self, other: &Self) -> (same: bool) {
        other.connector_id.raw() == self.connector_id.raw()
    }
}

impl<T> vstd::std_specs::cmp::PartialEqSpecImpl for Monitor<T> {
    open spec fn obeys_eq_spec() -> bool {
        true
    }

    open spec fn eq_spec(&self, other: &Self) -> bool {
        other@.connector.id() == self@.connector.id()
    }
}

impl<T> Eq for Monitor<T> {

}

/// Whether a failed activation of the shared context is reported as `error`.
pub open spec fn is_activation_error(activation: Activation, error: MonitorSetupError) -> bool {
    match activation {
        Activation::Poisoned => error.is_drm_error("Shared GLES context poisoned"@),
        Activation::Refused => error == MonitorSetupError::GlesContextError(
            GlesContextError::MakeCurrentFailed,
        ),
        Activation::Current => false,
    }
}

/// What an activation of the shared context means to setting up and to
/// committing.
pub(crate) fn check_activation(activation: Activation) -> (outcome: Result<(), MonitorSetupError>)
    ensures
        outcome is Ok <==> activation == Activation::Current,
        outcome matches Err(error) ==> is_activation_error(activation, error),
{
    match activation {
        Activation::Poisoned => Err(drm_error("Shared GLES context poisoned")),
        Activation::Refused => Err(MonitorSetupError::from(GlesContextError::MakeCurrentFailed)),
        Activation::Current => Ok(()),
    }
}

impl<T> Monitor<T> {
    /// The user's value.
    pub fn context(&self) -> (context: &T)
        ensures
            *context == self@.context,
    {
        &self.user_context
    }

    /// The user's value, to change.
    pub fn context_mut(&mut self) -> (context: &mut T)
        ensures
            *context == old(self)@.context,
            final(self)@ == old(self)@.context_replaced(*final(context)),
    {
        &mut self.user_context
    }

    /// Whether the last frame is on screen and the next one may be drawn.
    pub fn can_render(&self) -> (can_render: bool)
        ensures
            can_render == self@.can_render,
    {
        self.can_render
    }

    /// Whether the monitor has been drawn to.
    pub fn was_drawn(&self) -> (was_drawn: bool)
        ensures
            was_drawn == self@.was_drawn,
    {
        self.was_drawn
    }

    /// Allows or forbids drawing.
    pub fn set_can_render(&mut self, value: bool)
        ensures
            final(self)@ == old(self)@.rendering(value),
    {
        self.can_render = value;
    }

    /// Takes back the note that the monitor has been drawn to.
    pub fn reset_drawn_flag(&mut self)
        ensures
            final(self)@ == old(self)@.drawn_reset(),
    {
        self.was_drawn = false;
    }

    /// Takes what came of activating the shared context. Gives where to draw,
    /// and notes that the monitor has been drawn to.
    pub fn make_current(&mut self, activation: Activation) -> (target: Result<
        DrawTarget,
        GlesContextError,
    >)
        ensures
            old(self)@.double_buffered(),
            target is Ok <==> activation == Activation::Current,
            target matches Ok(target) ==> target == DrawTarget::of(old(self)@.drawn_slot())
                && final(self)@ == old(self)@.made_current(),
            target matches Ok(target) ==> {
                let drawn = old(self)@.slots[old(self)@.current_slot];
                &&& target.fbo == drawn.fbo
                &&& target.width as u32 == drawn.buffer.width
                &&& target.height as u32 == drawn.buffer.height
            },
            target matches Err(error) ==> error == GlesContextError::MakeCurrentFailed
                && final(self)@ == old(self)@,
    {
        proof {
            use_type_invariant(&self.swapchain);
        }
        match activation {
            Activation::Current => {
                let slot = self.swapchain.current_slot();
                self.was_drawn = true;
                proof {
                    law_attribute_bits(slot.buffer.width);
                    law_attribute_bits(slot.buffer.height);
                }
                Ok(DrawTarget::new(&slot))
            },
            _ => Err(GlesContextError::MakeCurrentFailed),
        }
    }

    /// Whether the kernel has yet to be told the mode that the application
    /// wants: on the first frame, after the mode has been forgotten, and after
    /// another mode has been requested.
    pub fn needs_mode_set(&self) -> (needed: bool)
        ensures
            needed == self@.needs_mode_set(),
            needed == (self@.current_mode != Some(self@.active_mode())),
    {
        self.needs_mode(self.active_mode())
    }

    /// Whether the kernel is not known to be using the mode.
    pub(crate) fn needs_mode(&self, mode: &Mode) -> (needed: bool)
        ensures
            needed == self@.needs_mode(*mode),
    {
        match &self.current_mode {
            Some(current) => *current != *mode,
            None => true,
        }
    }

    /// Forgets which mode the kernel is using, as when another program has
    /// had the display meanwhile.
    pub fn clear_mode_state(&mut self)
        ensures
            final(self)@ == old(self)@.mode_forgotten(),
    {
        self.current_mode = None;
        self.first_frame = true;
    }

    /// The connector's handle.
    pub fn connector_id(&self) -> (handle: ConnectorHandle)
        ensures
            handle == self@.connector,
    {
        self.connector_id
    }

    /// The scan-out engine.
    pub fn crtc(&self) -> (crtc: &CrtcInfo)
        ensures
            *crtc == self@.crtc,
    {
        &self.current_crtc
    }

    /// The best mode, found when the monitor was set up.
    pub fn default_mode(&self) -> (mode: &Mode)
        ensures
            *mode == self@.default_mode,
    {
        &self.default_mode
    }

    /// The mode that the kernel is using, as far as that is known.
    pub fn current_mode(&self) -> (mode: Option<&Mode>)
        ensures
            mode == (match self@.current_mode {
                Some(mode) => Some(&mode),
                None => None,
            }),
    {
        self.current_mode.as_ref()
    }

    /// The mode that was requested.
    pub fn requested_mode(&self) -> (mode: Option<&Mode>)
        ensures
            mode == (match self@.requested_mode {
                Some(mode) => Some(&mode),
                None => None,
            }),
    {
        self.requested_mode.as_ref()
    }

    /// Requests a mode; `None` requests the default.
    pub fn set_mode(&mut self, mode: Option<Mode>)
        ensures
            final(self)@ == old(self)@.mode_requested(mode),
    {
        self.requested_mode = mode;
    }

    /// The mode that the application wants.
    pub fn active_mode(&self) -> (mode: &Mode)
        ensures
            *mode == self@.active_mode(),
    {
        match &self.requested_mode {
            Some(mode) => mode,
            None => &self.default_mode,
        }
    }

    /// The plane that scans out the swapchain.
    pub fn primary_plane(&self) -> (handle: PlaneHandle)
        ensures
            handle == self@.primary_plane,
    {
        self.primary_plane_id
    }

    /// The plane set aside for a cursor, if any.
    pub fn cursor_plane(&self) -> (handle: Option<PlaneHandle>)
        ensures
            handle == self@.cursor_plane,
    {
        self.cursor_plane_id
    }

    /// Width and height in pixels of the mode that the application wants.
    pub fn size(&self) -> (size: (u16, u16))
        ensures
            size == self@.active_mode().dimensions(),
            size.0 == self@.active_mode().hdisplay,
            size.1 == self@.active_mode().vdisplay,
    {
        self.active_mode().size()
    }

    /// What is to be destroyed when the monitor goes away. Without the lock
    /// on the shared context nothing but the buffers is given up.
    pub fn release(&self, locked: bool) -> (teardowns: [SlotTeardown; 2])
        ensures
            self@.slots.len() == 2,
            forall|i: int|
                0 <= i < 2 ==> #[trigger] teardowns@[i] == (if locked {
                    teardown_of(self@.slots[i])
                } else {
                    abandonment_of(self@.slots[i])
                }),
    {
        let first = self.swapchain.slot(0);
        let second = self.swapchain.slot(1);
        if locked {
            [destroy_slot(&first), destroy_slot(&second)]
        } else {
            [retire_slot(&first, false), retire_slot(&second, false)]
        }
    }
}

} // verus!
