//! Setting up a monitor.
//!
//! Setting up alternates between outside work and decisions. Each stage below
//! stands for what is to be done next; handing it what came of that gives the
//! next stage or the failure, and in the end the monitor.
use vstd::prelude::*;

use crate::error::{MonitorSetupError, drm_error, prefixed};
use crate::gles_context::Activation;
use crate::handle::{ConnectorHandle, CrtcHandle, PlaneHandle, PropertyHandle};
use crate::mode::Mode;
use crate::monitor::{DrawTarget, Monitor, MonitorResourceAllocation, MonitorState, check_activation, is_activation_error};
use crate::property::PropertyTable;
use crate::swapchain::{BufferRequest, Swapchain, SwapchainSlot, create_slot};

verus! {

/// What a monitor is set up from.
#[derive(Clone, Copy, Debug)]
pub struct SetupBasis {
    pub connector_id: ConnectorHandle,
    pub allocation: MonitorResourceAllocation,
    pub default_mode: Mode,
}

/// The connector is to be probed for its modes.
#[derive(Debug)]
pub struct ConnectorRequest {
    connector_id: ConnectorHandle,
    allocation: MonitorResourceAllocation,
}

/// The buffer allocator's device is to be duplicated and opened again.
#[derive(Debug)]
pub struct DeviceRequest {
    basis: SetupBasis,
}

/// What came of duplicating the device and opening it again.
#[derive(Debug)]
pub enum DeviceCopy {
    /// The file descriptor could not be duplicated.
    NotDuplicated,
    /// The allocator refused the duplicate.
    Refused(std::io::Error),
    /// The duplicate is open.
    Opened,
}

/// The shared context is to be locked and made current.
#[derive(Debug)]
pub struct ActivationRequest {
    basis: SetupBasis,
}

/// The first slot is to be created.
#[derive(Debug)]
pub struct FirstSlotRequest {
    basis: SetupBasis,
}

/// The second slot is to be created.
#[derive(Debug)]
pub struct SecondSlotRequest {
    basis: SetupBasis,
    first: SwapchainSlot,
}

/// The first slot is to be bound for drawing, and the user's value is to be
/// made.
#[derive(Debug)]
pub struct UserContextRequest {
    basis: SetupBasis,
    first: SwapchainSlot,
    second: SwapchainSlot,
}

/// What came of reading the properties of an object.
#[derive(Debug)]
pub enum PropertyListing {
    /// The list of properties could not be had.
    Unavailable(std::io::Error),
    /// The list could not be read; the text says why.
    Unreadable(String),
    /// The properties.
    Read(PropertyTable),
}

/// The properties of the connector are to be read.
#[derive(Debug)]
pub struct ConnectorPropertiesRequest<T> {
    basis: SetupBasis,
    first: SwapchainSlot,
    second: SwapchainSlot,
    context: T,
}

/// The properties of the scan-out engine are to be read.
#[derive(Debug)]
pub struct CrtcPropertiesRequest<T> {
    previous: ConnectorPropertiesRequest<T>,
    connector_properties: PropertyTable,
}

/// The properties of the primary plane are to be read.
#[derive(Debug)]
pub struct PlanePropertiesRequest<T> {
    previous: CrtcPropertiesRequest<T>,
    crtc_properties: PropertyTable,
}

impl<T> Monitor<T> {
    /// Begins to set up the monitor on a connector with the objects that are
    /// set aside for it.
    pub fn setup(
        connector_id: ConnectorHandle,
        allocation: MonitorResourceAllocation,
    ) -> (next: ConnectorRequest)
        ensures
            next.connector() == connector_id,
            next.resources() == allocation,
    {
        ConnectorRequest { connector_id, allocation }
    }
}

impl ConnectorRequest {
    /// The connector to probe.
    pub closed spec fn connector(self) -> ConnectorHandle {
        self.connector_id
    }

    /// The objects that are set aside for the monitor.
    pub closed spec fn resources(self) -> MonitorResourceAllocation {
        self.allocation
    }

    /// The connector to probe.
    pub fn target(&self) -> (handle: ConnectorHandle)
        ensures
            handle == self.connector(),
    {
        self.connector_id
    }

    /// Whether the connector is to be probed anew rather than taken as last
    /// seen, which it always is.
    pub fn force_probe(&self) -> (force: bool)
        ensures
            force,
    {
        true
    }

    /// Takes the connector's modes, the best one first, or why there are
    /// none to be had.
    pub fn probed(self, outcome: Result<Vec<Mode>, std::io::Error>) -> (next: Result<
        DeviceRequest,
        MonitorSetupError,
    >)
        ensures
            next is Ok <==> (outcome matches Ok(modes) && modes@.len() > 0),
            next matches Ok(request) ==> request.basis() == (SetupBasis {
                connector_id: self.connector(),
                allocation: self.resources(),
                default_mode: outcome->Ok_0@[0],
            }),
            next matches Err(error) ==> error == (match outcome {
                Ok(_) => MonitorSetupError::NoModesFound,
                Err(error) => MonitorSetupError::IOError(error),
            }),
    {
        match outcome {
            Ok(modes) => {
                if modes.len() == 0 {
                    return Err(MonitorSetupError::NoModesFound);
                }
                let basis = SetupBasis {
                    connector_id: self.connector_id,
                    allocation: self.allocation,
                    default_mode: modes[0],
                };
                Ok(DeviceRequest { basis })
            },
            Err(error) => Err(MonitorSetupError::from(error)),
        }
    }
}

impl DeviceRequest {
    /// What the monitor is set up from.
    pub closed spec fn basis(self) -> SetupBasis {
        self.basis
    }

    /// Takes what came of duplicating the device and opening it again.
    pub fn opened(self, outcome: DeviceCopy) -> (next: Result<ActivationRequest, MonitorSetupError>)
        ensures
            next is Ok <==> outcome is Opened,
            next matches Ok(request) ==> request.basis() == self.basis(),
            next matches Err(error) ==> match outcome {
                DeviceCopy::NotDuplicated => error.is_drm_error("Failed to dup gbm fd"@),
                DeviceCopy::Refused(reason) => error == MonitorSetupError::IOError(reason),
                DeviceCopy::Opened => false,
            },
    {
        match outcome {
            DeviceCopy::NotDuplicated => Err(drm_error("Failed to dup gbm fd")),
            DeviceCopy::Refused(reason) => Err(MonitorSetupError::from(reason)),
            DeviceCopy::Opened => Ok(ActivationRequest { basis: self.basis }),
        }
    }
}

impl ActivationRequest {
    /// What the monitor is set up from.
    pub closed spec fn basis(self) -> SetupBasis {
        self.basis
    }

    /// Takes what came of activating the shared context.
    pub fn activated(self, activation: Activation) -> (next: Result<
        FirstSlotRequest,
        MonitorSetupError,
    >)
        ensures
            next is Ok <==> activation == Activation::Current,
            next matches Ok(request) ==> request.basis() == self.basis(),
            next matches Err(error) ==> is_activation_error(activation, error),
    {
        match check_activation(activation) {
            Ok(()) => Ok(FirstSlotRequest { basis: self.basis }),
            Err(error) => Err(error),
        }
    }
}

impl FirstSlotRequest {
    /// What the monitor is set up from.
    pub closed spec fn basis(self) -> SetupBasis {
        self.basis
    }

    /// Begins to create the slot, as large as the default mode.
    pub fn create_slot(&self) -> (next: BufferRequest)
        ensures
            next.extent() == (
                self.basis().default_mode.hdisplay as u32,
                self.basis().default_mode.vdisplay as u32,
            ),
    {
        create_slot(&self.basis.default_mode)
    }

    /// Takes the slot.
    pub fn built(self, slot: SwapchainSlot) -> (next: SecondSlotRequest)
        ensures
            next.basis() == self.basis(),
            next.first() == slot,
    {
        SecondSlotRequest { basis: self.basis, first: slot }
    }
}

impl SecondSlotRequest {
    /// What the monitor is set up from.
    pub closed spec fn basis(self) -> SetupBasis {
        self.basis
    }

    /// The first slot.
    pub closed spec fn first(self) -> SwapchainSlot {
        self.first
    }

    /// Begins to create the slot, as large as the default mode.
    pub fn create_slot(&self) -> (next: BufferRequest)
        ensures
            next.extent() == (
                self.basis().default_mode.hdisplay as u32,
                self.basis().default_mode.vdisplay as u32,
            ),
    {
        create_slot(&self.basis.default_mode)
    }

    /// Takes the slot.
    pub fn built(self, slot: SwapchainSlot) -> (next: UserContextRequest)
        ensures
            next.basis() == self.basis(),
            next.slots() == seq![self.first(), slot],
    {
        UserContextRequest { basis: self.basis, first: self.first, second: slot }
    }
}

impl UserContextRequest {
    /// What the monitor is set up from.
    pub closed spec fn basis(self) -> SetupBasis {
        self.basis
    }

    /// The slots.
    pub closed spec fn slots(self) -> Seq<SwapchainSlot> {
        seq![self.first, self.second]
    }

    /// Where the user's value is made to draw: the first slot.
    pub fn draw_target(&self) -> (target: DrawTarget)
        ensures
            target == DrawTarget::of(self.slots()[0]),
    {
        DrawTarget::new(&self.first)
    }

    /// Width and height in pixels of the default mode.
    pub fn size(&self) -> (size: (usize, usize))
        ensures
            size.0 == self.basis().default_mode.hdisplay,
            size.1 == self.basis().default_mode.vdisplay,
    {
        let (width, height) = self.basis.default_mode.size();
        (width as usize, height as usize)
    }

    /// Takes the user's value.
    pub fn created<T>(self, context: T) -> (next: ConnectorPropertiesRequest<T>)
        ensures
            next.basis() == self.basis(),
            next.slots() == self.slots(),
            next.context() == context,
    {
        ConnectorPropertiesRequest {
            basis: self.basis,
            first: self.first,
            second: self.second,
            context,
        }
    }
}

/// Whether a listing that failed is reported as `error`; `what` begins the
/// text of the failure to read it.
pub open spec fn is_listing_error(
    listing: PropertyListing,
    what: Seq<char>,
    error: MonitorSetupError,
) -> bool {
    match listing {
        PropertyListing::Unavailable(reason) => error == MonitorSetupError::IOError(reason),
        PropertyListing::Unreadable(reason) => error.is_drm_error(what + reason@),
        PropertyListing::Read(_) => false,
    }
}

/// The table of a listing, or the failure.
fn read_listing(listing: PropertyListing, what: &str) -> (outcome: Result<
    PropertyTable,
    MonitorSetupError,
>)
    ensures
        outcome is Ok <==> listing is Read,
        outcome matches Ok(table) ==> table == listing->Read_0,
        outcome matches Err(error) ==> is_listing_error(listing, what@, error),
{
    match listing {
        PropertyListing::Unavailable(reason) => Err(MonitorSetupError::from(reason)),
        PropertyListing::Unreadable(reason) => Err(
            MonitorSetupError::DrmError(prefixed(what, reason.as_str())),
        ),
        PropertyListing::Read(table) => Ok(table),
    }
}

impl<T> ConnectorPropertiesRequest<T> {
    /// What the monitor is set up from.
    pub closed spec fn basis(self) -> SetupBasis {
        self.basis
    }

    /// The slots.
    pub closed spec fn slots(self) -> Seq<SwapchainSlot> {
        seq![self.first, self.second]
    }

    /// The user's value.
    pub closed spec fn context(self) -> T {
        self.context
    }

    /// The connector whose properties to read.
    pub fn target(&self) -> (handle: ConnectorHandle)
        ensures
            handle == self.basis().connector_id,
    {
        self.basis.connector_id
    }

    /// Takes the properties of the connector.
    pub fn listed(self, listing: PropertyListing) -> (next: Result<
        CrtcPropertiesRequest<T>,
        MonitorSetupError,
    >)
        ensures
            next is Ok <==> listing is Read,
            next matches Ok(request) ==> request.origin() == self
                && request.connector_properties() == listing->Read_0@,
            next matches Err(error) ==> is_listing_error(
                listing,
                "Failed to get connector properties: "@,
                error,
            ),
    {
        match read_listing(listing, "Failed to get connector properties: ") {
            Ok(table) => Ok(CrtcPropertiesRequest { previous: self, connector_properties: table }),
            Err(error) => Err(error),
        }
    }
}

impl<T> CrtcPropertiesRequest<T> {
    /// The stage before this one.
    pub closed spec fn origin(self) -> ConnectorPropertiesRequest<T> {
        self.previous
    }

    /// The properties of the connector.
    pub closed spec fn connector_properties(self) -> Map<Seq<char>, PropertyHandle> {
        self.connector_properties@
    }

    /// The scan-out engine whose properties to read.
    pub fn target(&self) -> (handle: CrtcHandle)
        ensures
            handle == self.origin().basis().allocation.crtc_info.handle,
    {
        self.previous.basis.allocation.crtc_info.handle
    }

    /// Takes the properties of the scan-out engine.
    pub fn listed(self, listing: PropertyListing) -> (next: Result<
        PlanePropertiesRequest<T>,
        MonitorSetupError,
    >)
        ensures
            next is Ok <==> listing is Read,
            next matches Ok(request) ==> request.origin() == self && request.crtc_properties()
                == listing->Read_0@,
            next matches Err(error) ==> is_listing_error(
                listing,
                "Failed to get CRTC properties: "@,
                error,
            ),
    {
        match read_listing(listing, "Failed to get CRTC properties: ") {
            Ok(table) => Ok(PlanePropertiesRequest { previous: self, crtc_properties: table }),
            Err(error) => Err(error),
        }
    }
}

impl<T> PlanePropertiesRequest<T> {
    /// The stage before this one.
    pub closed spec fn origin(self) -> CrtcPropertiesRequest<T> {
        self.previous
    }

    /// The properties of the scan-out engine.
    pub closed spec fn crtc_properties(self) -> Map<Seq<char>, PropertyHandle> {
        self.crtc_properties@
    }

    /// The plane whose properties to read.
    pub fn target(&self) -> (handle: PlaneHandle)
        ensures
            handle == self.origin().origin().basis().allocation.primary_plane,
    {
        self.previous.previous.basis.allocation.primary_plane
    }

    /// Takes the properties of the primary plane, which completes the monitor.
    pub fn listed(self, listing: PropertyListing) -> (monitor: Result<
        Monitor<T>,
        MonitorSetupError,
    >)
        ensures
            monitor is Ok <==> listing is Read,
            monitor matches Ok(monitor) ==> monitor@ == initial_state(
                self.origin().origin().basis(),
                self.origin().origin().slots(),
                self.origin().connector_properties(),
                self.crtc_properties(),
                listing->Read_0@,
                self.origin().origin().context(),
            ) && monitor@.double_buffered(),
            monitor matches Err(error) ==> is_listing_error(
                listing,
                "Failed to get plane properties: "@,
                error,
            ),
    {
        let plane_properties = match read_listing(listing, "Failed to get plane properties: ") {
            Ok(table) => table,
            Err(error) => {
                return Err(error);
            },
        };
        let crtc_properties = self.crtc_properties;
        let CrtcPropertiesRequest { previous, connector_properties } = self.previous;
        let ConnectorPropertiesRequest { basis, first, second, context } = previous;
        Ok(
            Monitor {
                connector_id: basis.connector_id,
                current_crtc: basis.allocation.crtc_info,
                default_mode: basis.default_mode,
                requested_mode: None,
                current_mode: None,
                primary_plane_id: basis.allocation.primary_plane,
                cursor_plane_id: basis.allocation.cursor_plane,
                swapchain: Swapchain::new(first, second),
                can_render: true,
                was_drawn: false,
                connector_properties,
                crtc_properties,
                plane_properties,
                first_frame: true,
                user_context: context,
            },
        )
    }
}

/// A monitor that has just been set up: no mode is requested, the kernel's
/// mode is not known, and the first slot may be drawn into.
pub open spec fn initial_state<T>(
    basis: SetupBasis,
    slots: Seq<SwapchainSlot>,
    connector_properties: Map<Seq<char>, PropertyHandle>,
    crtc_properties: Map<Seq<char>, PropertyHandle>,
    plane_properties: Map<Seq<char>, PropertyHandle>,
    context: T,
) -> MonitorState<T> {
    MonitorState {
        connector: basis.connector_id,
        crtc: basis.allocation.crtc_info,
        default_mode: basis.default_mode,
        requested_mode: None,
        current_mode: None,
        primary_plane: basis.allocation.primary_plane,
        cursor_plane: basis.allocation.cursor_plane,
        slots,
        current_slot: 0,
        can_render: true,
        was_drawn: false,
        connector_properties,
        crtc_properties,
        plane_properties,
        first_frame: true,
        context,
    }
}

} // verus!
