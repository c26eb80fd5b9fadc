//! What the library's answers amount to, in terms of what goes in: the fields
//! of a mode, a buffer or a monitor, and the numbers that the kernel, EGL and
//! OpenGL get to see.
use vstd::prelude::*;
use vstd::std_specs::cmp::PartialEqSpec;

use crate::commit::{ActivationRequest, CommitStart, RebuildRequest};
use crate::egl_image::{
    BufferInfo, EGL_DMA_BUF_PLANE0_FD_EXT, EGL_DMA_BUF_PLANE0_MODIFIER_HI_EXT,
    EGL_DMA_BUF_PLANE0_MODIFIER_LO_EXT, EGL_DMA_BUF_PLANE0_OFFSET_EXT,
    EGL_DMA_BUF_PLANE0_PITCH_EXT, EGL_HEIGHT, EGL_LINUX_DRM_FOURCC_EXT, EGL_WIDTH, attributes_of,
    law_attribute_bits, law_modifier_words,
};
use crate::error::{GlesContextError, MonitorSetupError};
use crate::gles_context::{Activation, is_best_config};
use crate::handle::{
    ConnectorHandle, CrtcHandle, FramebufferHandle, PlaneHandle, PropertyHandle,
};
use crate::laws::{law_commit_holds_every_entry, law_commit_parts};
use crate::mode::Mode;
use crate::monitor::{DrawTarget, MonitorState, is_activation_error};
use crate::request::{
    Assignment, Contents, Object, PropertyValue, assigned, has_room, law_assigned_frame,
};
use crate::setup::{PropertyListing, SetupBasis, initial_state, is_listing_error};
use crate::swapchain::{
    SwapchainSlot, abandonment_of, color_attachment, hex_digits, retirement_of, teardown_of,
    texture_plan_of,
};

verus! {

/// Whether the request gives the object's property the number.
pub open spec fn holds(
    contents: Contents,
    object: u32,
    property: PropertyHandle,
    number: int,
) -> bool {
    &&& contents.contains_key((object, property.id()))
    &&& contents[(object, property.id())] == number
}

/// Where the kernel numbers objects and properties apart, a populated commit
/// holds these numbers. The plane takes the rectangle from the upper left
/// corner, as wide and as high as the mode's visible part, in 65536ths of a
/// pixel, and puts it on the screen in that size, without the blanking.
/// Connector and plane are given the scan-out engine, and the plane the
/// framebuffer. The blob and the fence are handed on as they are, a negative
/// number by its two's complement, and the fence to the plane before the
/// scan-out engine.
pub proof fn law_commit_numbers<T>(
    state: MonitorState<T>,
    contents: Contents,
    mode: Mode,
    framebuffer: FramebufferHandle,
    mode_blob: Option<u64>,
    in_fence_fd: Option<i32>,
)
    requires
        state.has_geometry_properties(),
        state.has_framebuffer_property(),
        mode_blob is Some ==> state.has_mode_properties(),
        state.numbered_apart(),
    ensures
        ({
            let after = assigned(
                assigned(contents, state.geometry_entries(mode)),
                state.finish_entries(framebuffer, mode_blob, in_fence_fd),
            );
            let connector = state.connector.id();
            let crtc = state.crtc.handle.id();
            let plane = state.primary_plane.id();
            let of_plane = state.plane_properties;
            let of_crtc = state.crtc_properties;
            &&& holds(after, plane, of_plane["SRC_X"@], 0)
            &&& holds(after, plane, of_plane["SRC_Y"@], 0)
            &&& holds(after, plane, of_plane["SRC_W"@], mode.hdisplay * 65536)
            &&& holds(after, plane, of_plane["SRC_H"@], mode.vdisplay * 65536)
            &&& holds(after, plane, of_plane["CRTC_X"@], 0)
            &&& holds(after, plane, of_plane["CRTC_Y"@], 0)
            &&& holds(after, plane, of_plane["CRTC_W"@], mode.hdisplay as int)
            &&& holds(after, plane, of_plane["CRTC_H"@], mode.vdisplay as int)
            &&& holds(after, plane, of_plane["CRTC_ID"@], crtc as int)
            &&& holds(after, connector, state.connector_properties["CRTC_ID"@], crtc as int)
            &&& holds(after, plane, of_plane["FB_ID"@], framebuffer.id() as int)
            &&& mode_blob matches Some(blob) ==> {
                &&& holds(after, crtc, of_crtc["MODE_ID"@], blob as int)
                &&& holds(after, crtc, of_crtc["ACTIVE"@], 1)
            }
            &&& in_fence_fd matches Some(fd) ==> {
                let number = if fd >= 0 {
                    fd as int
                } else {
                    fd + 0x1_0000_0000_0000_0000
                };
                if of_plane.contains_key("IN_FENCE_FD"@) {
                    holds(after, plane, of_plane["IN_FENCE_FD"@], number)
                } else {
                    of_crtc.contains_key("IN_FENCE_FD"@) ==> holds(
                        after,
                        crtc,
                        of_crtc["IN_FENCE_FD"@],
                        number,
                    )
                }
            }
        }),
{
    law_commit_parts(state, contents, mode, framebuffer, mode_blob, in_fence_fd);
    let entries = state.commit_entries(mode, framebuffer, mode_blob, in_fence_fd);
    let after = assigned(contents, entries);
    assert forall|i: int| 0 <= i < entries.len() implies holds(
        after,
        (#[trigger] entries[i]).object.id(),
        entries[i].property,
        entries[i].value.raw_value() as int,
    ) by {
        law_commit_holds_every_entry(state, contents, mode, framebuffer, mode_blob, in_fence_fd, i);
    }
    let shift = if mode_blob is Some {
        2int
    } else {
        0int
    };
    assert(entries[0].property == state.connector_properties["CRTC_ID"@]);
    assert(entries[1].property == state.plane_properties["CRTC_ID"@]);
    assert(entries[2].property == state.plane_properties["SRC_X"@]);
    assert(entries[3].property == state.plane_properties["SRC_Y"@]);
    assert(entries[4].property == state.plane_properties["SRC_W"@]);
    assert(entries[5].property == state.plane_properties["SRC_H"@]);
    law_raw_signed(0);
    assert(entries[6].property == state.plane_properties["CRTC_X"@]);
    assert(entries[7].property == state.plane_properties["CRTC_Y"@]);
    assert(entries[8].property == state.plane_properties["CRTC_W"@]);
    assert(entries[9].property == state.plane_properties["CRTC_H"@]);
    if mode_blob is Some {
        assert(entries[10].property == state.crtc_properties["MODE_ID"@]);
        assert(entries[11].property == state.crtc_properties["ACTIVE"@]);
    }
    assert(entries[10 + shift].property == state.plane_properties["FB_ID"@]);
    if in_fence_fd is Some && state.fence_entries(in_fence_fd).len() > 0 {
        law_raw_signed(in_fence_fd->0 as i64);
        assert(entries[11 + shift] == state.fence_entries(in_fence_fd)[0]);
    }
}

/// A populated commit leaves alone whatever the request holds for any
/// property but the ones that place the frame, the mode's if a blob with the
/// mode was made, and the one that takes the fence if one was given.
pub proof fn law_commit_touches_nothing_else<T>(
    state: MonitorState<T>,
    contents: Contents,
    mode: Mode,
    framebuffer: FramebufferHandle,
    mode_blob: Option<u64>,
    in_fence_fd: Option<i32>,
    key: (u32, u32),
)
    requires
        key != (state.connector.id(), state.connector_properties["CRTC_ID"@].id()),
        key != (state.primary_plane.id(), state.plane_properties["CRTC_ID"@].id()),
        key != (state.primary_plane.id(), state.plane_properties["SRC_X"@].id()),
        key != (state.primary_plane.id(), state.plane_properties["SRC_Y"@].id()),
        key != (state.primary_plane.id(), state.plane_properties["SRC_W"@].id()),
        key != (state.primary_plane.id(), state.plane_properties["SRC_H"@].id()),
        key != (state.primary_plane.id(), state.plane_properties["CRTC_X"@].id()),
        key != (state.primary_plane.id(), state.plane_properties["CRTC_Y"@].id()),
        key != (state.primary_plane.id(), state.plane_properties["CRTC_W"@].id()),
        key != (state.primary_plane.id(), state.plane_properties["CRTC_H"@].id()),
        key != (state.primary_plane.id(), state.plane_properties["FB_ID"@].id()),
        mode_blob is Some ==> {
            &&& key != (state.crtc.handle.id(), state.crtc_properties["MODE_ID"@].id())
            &&& key != (state.crtc.handle.id(), state.crtc_properties["ACTIVE"@].id())
        },
        in_fence_fd is Some && state.plane_properties.contains_key("IN_FENCE_FD"@) ==> key != (
            state.primary_plane.id(),
            state.plane_properties["IN_FENCE_FD"@].id(),
        ),
        in_fence_fd is Some && !state.plane_properties.contains_key("IN_FENCE_FD"@)
            && state.crtc_properties.contains_key("IN_FENCE_FD"@) ==> key != (
            state.crtc.handle.id(),
            state.crtc_properties["IN_FENCE_FD"@].id(),
        ),
    ensures
        ({
            let after = assigned(
                assigned(contents, state.geometry_entries(mode)),
                state.finish_entries(framebuffer, mode_blob, in_fence_fd),
            );
            &&& after.contains_key(key) == contents.contains_key(key)
            &&& contents.contains_key(key) ==> after[key] == contents[key]
        }),
{
    law_commit_parts(state, contents, mode, framebuffer, mode_blob, in_fence_fd);
    let entries = state.commit_entries(mode, framebuffer, mode_blob, in_fence_fd);
    assert forall|i: int| 0 <= i < entries.len() implies (#[trigger] entries[i]).key() != key by {}
    law_assigned_frame(contents, entries, key);
}

/// Slots fit a mode if and only if the first one is as wide and as high as the
/// mode's visible part. So what a commit takes from a buffer that fits, in
/// 65536ths of a pixel, is the whole of the buffer and no more.
pub proof fn law_fitting_buffer_is_shown_whole<T>(
    state: MonitorState<T>,
    contents: Contents,
    framebuffer: FramebufferHandle,
    mode_blob: Option<u64>,
    in_fence_fd: Option<i32>,
    mode: Mode,
)
    ensures
        state.fits(mode) <==> state.slots[0].buffer.width == mode.hdisplay
            && state.slots[0].buffer.height == mode.vdisplay,
        ({
            let after = assigned(
                assigned(contents, state.geometry_entries(mode)),
                state.finish_entries(framebuffer, mode_blob, in_fence_fd),
            );
            let plane = state.primary_plane.id();
            let of_plane = state.plane_properties;
            let buffer = state.slots[0].buffer;
            state.fits(mode) && state.has_geometry_properties() && state.has_framebuffer_property()
                && (mode_blob is Some ==> state.has_mode_properties()) && state.numbered_apart()
                ==> {
                &&& holds(after, plane, of_plane["SRC_W"@], buffer.width * 65536)
                &&& holds(after, plane, of_plane["SRC_H"@], buffer.height * 65536)
            }
        }),
{
    if state.has_geometry_properties() && state.has_framebuffer_property() && (mode_blob is Some
        ==> state.has_mode_properties()) && state.numbered_apart() {
        law_commit_numbers(state, contents, mode, framebuffer, mode_blob, in_fence_fd);
    }
}

/// A commit goes on in the plan that it began with, whether or not the slots
/// are replaced first.
pub proof fn law_commit_start_plan(rebuild: RebuildRequest, ready: ActivationRequest)
    ensures
        CommitStart::Rebuild(rebuild).plan() == rebuild.plan(),
        CommitStart::Ready(ready).plan() == ready.plan(),
{
}

/// Which properties the steps of a commit ask for.
pub proof fn law_needed_properties<T>(state: MonitorState<T>)
    ensures
        state.has_geometry_properties() <==> {
            let of_plane = state.plane_properties;
            &&& state.connector_properties.contains_key("CRTC_ID"@)
            &&& of_plane.contains_key("CRTC_ID"@)
            &&& of_plane.contains_key("SRC_X"@) && of_plane.contains_key("SRC_Y"@)
            &&& of_plane.contains_key("SRC_W"@) && of_plane.contains_key("SRC_H"@)
            &&& of_plane.contains_key("CRTC_X"@) && of_plane.contains_key("CRTC_Y"@)
            &&& of_plane.contains_key("CRTC_W"@) && of_plane.contains_key("CRTC_H"@)
        },
        state.has_mode_properties() <==> {
            &&& state.crtc_properties.contains_key("MODE_ID"@)
            &&& state.crtc_properties.contains_key("ACTIVE"@)
        },
        state.has_framebuffer_property() <==> state.plane_properties.contains_key("FB_ID"@),
{
}

/// An entry is about the number of its object and of its property.
pub proof fn law_entry_key(
    connector: ConnectorHandle,
    crtc: CrtcHandle,
    plane: PlaneHandle,
    property: PropertyHandle,
    value: PropertyValue,
)
    ensures
        (Assignment { object: Object::Connector(connector), property, value }).key() == (
            connector.id(),
            property.id(),
        ),
        (Assignment { object: Object::Crtc(crtc), property, value }).key() == (
            crtc.id(),
            property.id(),
        ),
        (Assignment { object: Object::Plane(plane), property, value }).key() == (
            plane.id(),
            property.id(),
        ),
{
}

/// The kernel takes a signed number that is not negative as it is, and a
/// negative one by its two's complement.
pub proof fn law_raw_signed(value: i64)
    ensures
        value >= 0 ==> PropertyValue::SignedRange(value).raw_value() == value,
        value < 0 ==> PropertyValue::SignedRange(value).raw_value() == value
            + 0x1_0000_0000_0000_0000,
{
    assert(value < 0 ==> (value as u64) == value + 0x1_0000_0000_0000_0000) by (bit_vector);
}

/// The kernel takes an unsigned number and a blob as they are, truth as one,
/// falsehood as zero, and an object by its number.
pub proof fn law_raw_values(number: u64, crtc: CrtcHandle, framebuffer: FramebufferHandle)
    ensures
        PropertyValue::UnsignedRange(number).raw_value() == number,
        PropertyValue::Blob(number).raw_value() == number,
        PropertyValue::Boolean(true).raw_value() == 1,
        PropertyValue::Boolean(false).raw_value() == 0,
        PropertyValue::Crtc(crtc).raw_value() == crtc.id(),
        PropertyValue::Framebuffer(framebuffer).raw_value() == framebuffer.id(),
{
}

/// A request can take more entries if and only if their number and the number
/// of those that it holds fit in 32 bits together.
pub proof fn law_room(contents: Contents, extra: nat)
    ensures
        has_room(contents, extra) <==> contents.dom().finite() && contents.dom().len() + extra
            <= 0xFFFF_FFFF,
{
}

/// A monitor that has just been set up has requested nothing and wants the
/// first mode that its connector listed, whatever the scan-out engine was
/// showing. It stands on the objects and the properties that were found for
/// it, has the two slots as they were made and the first of them to draw into,
/// may be drawn and has not been, and holds the user's value.
pub proof fn law_after_setup<T>(
    basis: SetupBasis,
    slots: Seq<SwapchainSlot>,
    connector_properties: Map<Seq<char>, PropertyHandle>,
    crtc_properties: Map<Seq<char>, PropertyHandle>,
    plane_properties: Map<Seq<char>, PropertyHandle>,
    context: T,
)
    ensures
        ({
            let state = initial_state(
                basis,
                slots,
                connector_properties,
                crtc_properties,
                plane_properties,
                context,
            );
            &&& state.requested_mode is None
            &&& state.active_mode() == basis.default_mode
            &&& state.default_mode == basis.default_mode
            &&& state.current_mode is None
            &&& state.connector == basis.connector_id
            &&& state.crtc == basis.allocation.crtc_info
            &&& state.primary_plane == basis.allocation.primary_plane
            &&& state.cursor_plane == basis.allocation.cursor_plane
            &&& state.connector_properties == connector_properties
            &&& state.crtc_properties == crtc_properties
            &&& state.plane_properties == plane_properties
            &&& state.slots == slots
            &&& state.current_slot == 0
            &&& state.drawn_slot() == slots[0]
            &&& state.can_render
            &&& !state.was_drawn
            &&& state.first_frame
            &&& state.context == context
        }),
{
}

/// Which listing of properties is reported as which failure.
pub proof fn law_listing_errors(listing: PropertyListing, what: Seq<char>, error: MonitorSetupError)
    ensures
        is_listing_error(listing, what, error) ==> listing !is Read,
        listing matches PropertyListing::Unavailable(reason) ==> (is_listing_error(
            listing,
            what,
            error,
        ) <==> error == MonitorSetupError::IOError(reason)),
        listing matches PropertyListing::Unreadable(reason) ==> (is_listing_error(
            listing,
            what,
            error,
        ) <==> (error matches MonitorSetupError::DrmError(text) && text@ == what + reason@)),
{
}

/// Which activation of the shared context is reported as which failure.
pub proof fn law_activation_errors(activation: Activation, error: MonitorSetupError)
    ensures
        activation == Activation::Current ==> !is_activation_error(activation, error),
        activation == Activation::Refused ==> (is_activation_error(activation, error) <==> error
            == MonitorSetupError::GlesContextError(GlesContextError::MakeCurrentFailed)),
        activation == Activation::Poisoned ==> (is_activation_error(activation, error) <==> (
        error matches MonitorSetupError::DrmError(text) && text@
            == "Shared GLES context poisoned"@)),
{
}

/// A DRM failure is for the reason that it carries, word for word.
pub proof fn law_drm_error_reason(error: MonitorSetupError, reason: Seq<char>)
    ensures
        error.is_drm_error(reason) <==> (error matches MonitorSetupError::DrmError(text) && text@
            == reason),
{
}

/// Whether a text begins with one part, ends with another and has nothing in
/// between.
pub open spec fn consists_of(text: Seq<char>, beginning: Seq<char>, end: Seq<char>) -> bool {
    &&& text.len() == beginning.len() + end.len()
    &&& forall|i: int| 0 <= i < beginning.len() ==> text[i] == beginning[i]
    &&& forall|i: int| 0 <= i < end.len() ==> text[beginning.len() + i] == end[i]
}

/// A failure that has a cause is told by what failed, followed by the whole of
/// the cause.
pub proof fn law_causes_are_told(reason: String, error: GlesContextError)
    ensures
        consists_of(
            GlesContextError::EglContextCreationFailed(reason).text(),
            "Failed to create EGL context: "@,
            reason@,
        ),
        consists_of(MonitorSetupError::DrmError(reason).text(), "DRM error: "@, reason@),
        consists_of(
            MonitorSetupError::GlesContextError(error).text(),
            "failed to create OpenGL ES context: "@,
            error.text(),
        ),
{
}

/// Where to draw is the framebuffer of the slot, over the whole width and
/// height of its buffer.
pub proof fn law_draw_target_is_whole_buffer(slot: SwapchainSlot)
    ensures
        DrawTarget::of(slot).fbo == slot.fbo,
        DrawTarget::of(slot).width as u32 == slot.buffer.width,
        DrawTarget::of(slot).height as u32 == slot.buffer.height,
        slot.buffer.width <= i32::MAX ==> DrawTarget::of(slot).width == slot.buffer.width,
        slot.buffer.height <= i32::MAX ==> DrawTarget::of(slot).height == slot.buffer.height,
{
    law_attribute_bits(slot.buffer.width);
    law_attribute_bits(slot.buffer.height);
}

/// Whether the name stands in a list of names and values, and every value
/// behind it, taken by its bits, is the number.
pub open spec fn names_value(list: Seq<i32>, name: i32, number: u32) -> bool {
    &&& exists|i: int| is_name_at(list, name, i)
    &&& forall|i: int| #[trigger] is_name_at(list, name, i) ==> list[i + 1] as u32 == number
}

/// Whether the name stands at the position, which is one for names.
pub open spec fn is_name_at(list: Seq<i32>, name: i32, index: int) -> bool {
    0 <= index < list.len() - 1 && index % 2 == 0 && list[index] == name
}

/// Behind each name in the attribute list stands the buffer's own datum of
/// that name: its width, height, format, offset and row length, whatever the
/// width would make one expect of the latter. The file descriptor is the
/// exported one. The modifier stands there in two words if one is known, and
/// else not at all.
pub proof fn law_attribute_values(buffer: BufferInfo, fd: i32)
    ensures
        ({
            let list = attributes_of(buffer, fd);
            &&& names_value(list, EGL_WIDTH, buffer.width)
            &&& names_value(list, EGL_HEIGHT, buffer.height)
            &&& names_value(list, EGL_LINUX_DRM_FOURCC_EXT, buffer.format)
            &&& names_value(list, EGL_DMA_BUF_PLANE0_FD_EXT, fd as u32)
            &&& forall|i: int| #[trigger]
                is_name_at(list, EGL_DMA_BUF_PLANE0_FD_EXT, i) ==> list[i + 1] == fd
            &&& names_value(list, EGL_DMA_BUF_PLANE0_OFFSET_EXT, buffer.offset)
            &&& names_value(list, EGL_DMA_BUF_PLANE0_PITCH_EXT, buffer.stride)
            &&& if buffer.modifier != 0x00ff_ffff_ffff_ffff {
                let low = (buffer.modifier % 0x1_0000_0000) as u32;
                let high = (buffer.modifier / 0x1_0000_0000) as u32;
                &&& names_value(list, EGL_DMA_BUF_PLANE0_MODIFIER_LO_EXT, low)
                &&& names_value(list, EGL_DMA_BUF_PLANE0_MODIFIER_HI_EXT, high)
            } else {
                forall|i: int|
                    !is_name_at(list, EGL_DMA_BUF_PLANE0_MODIFIER_LO_EXT, i) && !is_name_at(
                        list,
                        EGL_DMA_BUF_PLANE0_MODIFIER_HI_EXT,
                        i,
                    )
            }
        }),
{
    let list = attributes_of(buffer, fd);
    law_attribute_bits(buffer.width);
    law_attribute_bits(buffer.height);
    law_attribute_bits(buffer.format);
    law_attribute_bits(buffer.offset);
    law_attribute_bits(buffer.stride);
    law_modifier_words(buffer.modifier);
    assert(is_name_at(list, EGL_WIDTH, 0));
    assert(is_name_at(list, EGL_HEIGHT, 2));
    assert(is_name_at(list, EGL_LINUX_DRM_FOURCC_EXT, 4));
    assert(is_name_at(list, EGL_DMA_BUF_PLANE0_FD_EXT, 6));
    assert(is_name_at(list, EGL_DMA_BUF_PLANE0_OFFSET_EXT, 8));
    assert(is_name_at(list, EGL_DMA_BUF_PLANE0_PITCH_EXT, 10));
    if buffer.modifier != 0x00ff_ffff_ffff_ffff {
        assert(is_name_at(list, EGL_DMA_BUF_PLANE0_MODIFIER_LO_EXT, 12));
        assert(is_name_at(list, EGL_DMA_BUF_PLANE0_MODIFIER_HI_EXT, 14));
    }
}

/// A layout modifier is known of a buffer unless its code is the one for
/// "unknown".
pub proof fn law_known_modifier(buffer: BufferInfo)
    ensures
        buffer.modified() <==> buffer.modifier != 0x00ff_ffff_ffff_ffff,
{
}

/// The texture of a slot holds the pixels of the slot's own image, is sampled
/// linearly either way, and ends at its edges; its base level takes the
/// framebuffer's colours.
pub proof fn law_texture_is_on_the_image(egl_image: u64)
    ensures
        texture_plan_of(egl_image).egl_image == egl_image,
        texture_plan_of(egl_image).target == 0x0DE1,
        texture_plan_of(egl_image).min_filter == 0x2601,
        texture_plan_of(egl_image).mag_filter == 0x2601,
        texture_plan_of(egl_image).wrap_s == 0x812F,
        texture_plan_of(egl_image).wrap_t == 0x812F,
        color_attachment().texture_target == texture_plan_of(egl_image).target,
        color_attachment().target == 0x8D40,
        color_attachment().attachment == 0x8CE0,
        color_attachment().level == 0,
{
}

/// Destroying a slot takes what OpenGL and EGL have of it, by its own number
/// and if there is any, and its buffer, and leaves the kernel's framebuffer.
/// Retiring it under the lock takes the kernel's framebuffer too. Without the
/// lock the buffer alone is taken.
pub proof fn law_teardown(slot: SwapchainSlot)
    ensures
        forall|number: u32|
            teardown_of(slot).fbo == Some(number) <==> number != 0 && number == slot.fbo,
        forall|number: u32|
            teardown_of(slot).texture == Some(number) <==> number != 0 && number == slot.texture,
        forall|address: u64|
            teardown_of(slot).egl_image == Some(address) <==> address != 0 && address
                == slot.egl_image,
        teardown_of(slot).drm_fb is None,
        teardown_of(slot).buffer == slot.buffer.id,
        retirement_of(slot, true).fbo == teardown_of(slot).fbo,
        retirement_of(slot, true).texture == teardown_of(slot).texture,
        retirement_of(slot, true).egl_image == teardown_of(slot).egl_image,
        retirement_of(slot, true).drm_fb == slot.drm_fb,
        retirement_of(slot, true).buffer == slot.buffer.id,
        retirement_of(slot, false) == abandonment_of(slot),
        abandonment_of(slot).fbo is None,
        abandonment_of(slot).texture is None,
        abandonment_of(slot).egl_image is None,
        abandonment_of(slot).drm_fb is None,
        abandonment_of(slot).buffer == slot.buffer.id,
{
}

/// The number that a lower-case hexadecimal digit stands for.
pub open spec fn digit_number(digit: char) -> int {
    if '0' <= digit <= '9' {
        digit as int - '0' as int
    } else {
        digit as int - 'a' as int + 10
    }
}

/// The number that a row of hexadecimal digits stands for.
pub open spec fn hex_number(digits: Seq<char>) -> int
    decreases digits.len(),
{
    if digits.len() == 0 {
        0
    } else {
        hex_number(digits.drop_last()) * 16 + digit_number(digits.last())
    }
}

/// The digits of a number are lower-case hexadecimal digits, stand for the
/// number, and begin with a zero only if the number is zero.
pub proof fn law_hex_digits(value: nat)
    ensures
        hex_number(hex_digits(value)) == value,
        hex_digits(value).len() > 0,
        forall|i: int|
            0 <= i < hex_digits(value).len() ==> '0' <= #[trigger] hex_digits(value)[i] <= '9'
                || 'a' <= hex_digits(value)[i] <= 'f',
        hex_digits(value)[0] == '0' <==> value == 0,
        value == 0 ==> hex_digits(value).len() == 1,
    decreases value,
{
    let digits = hex_digits(value);
    if value < 16 {
        assert(digits.drop_last() =~= Seq::empty());
        assert(hex_number(digits.drop_last()) == 0);
    } else {
        law_hex_digits(value / 16);
        assert(digits.drop_last() =~= hex_digits(value / 16));
    }
}

/// A mode's size is that of its visible part.
pub proof fn law_mode_dimensions(mode: Mode)
    ensures
        mode.dimensions().0 == mode.hdisplay,
        mode.dimensions().1 == mode.vdisplay,
{
}

/// Two modes are the same if and only if they agree in every field and in
/// every byte of the name.
pub proof fn law_same_mode(a: Mode, b: Mode)
    ensures
        PartialEqSpec::eq_spec(&a, &b) <==> {
            &&& a.clock == b.clock
            &&& a.hdisplay == b.hdisplay
            &&& a.hsync_start == b.hsync_start
            &&& a.hsync_end == b.hsync_end
            &&& a.htotal == b.htotal
            &&& a.hskew == b.hskew
            &&& a.vdisplay == b.vdisplay
            &&& a.vsync_start == b.vsync_start
            &&& a.vsync_end == b.vsync_end
            &&& a.vtotal == b.vtotal
            &&& a.vscan == b.vscan
            &&& a.vrefresh == b.vrefresh
            &&& a.flags == b.flags
            &&& a.kind == b.kind
            &&& forall|i: int| 0 <= i < 32 ==> #[trigger] a.name@[i] == b.name@[i]
        },
{
    if forall|i: int| 0 <= i < 32 ==> #[trigger] a.name@[i] == b.name@[i] {
        assert(a.name =~= b.name);
    }
}

/// The best configuration has as many samples as any, and is the last one of
/// those that have; there is one unless the list is empty.
pub proof fn law_best_config(samples: Seq<u8>, index: int)
    ensures
        is_best_config(samples, index) <==> {
            &&& 0 <= index < samples.len()
            &&& forall|i: int| 0 <= i < samples.len() ==> samples[i] <= samples[index]
            &&& forall|i: int|
                0 <= i < samples.len() && samples[i] == samples[index] ==> i <= index
        },
{
}

/// The wanted mode is the requested one, or else the default, and a mode is
/// needed if and only if the kernel is not known to be using just that mode.
pub proof fn law_wanted_mode<T>(state: MonitorState<T>, mode: Mode)
    ensures
        state.requested_mode == Some(mode) ==> state.active_mode() == mode,
        state.requested_mode is None ==> state.active_mode() == state.default_mode,
        !state.needs_mode(mode) <==> (state.current_mode matches Some(current) && current == mode),
        state.needs_mode_set() <==> state.needs_mode(state.active_mode()),
{
}

/// The slot that is drawn into is the one at the current position, of two.
pub proof fn law_drawn_slot<T>(state: MonitorState<T>)
    ensures
        state.double_buffered() <==> state.slots.len() == 2 && (state.current_slot == 0
            || state.current_slot == 1),
        state.drawn_slot() == state.slots[state.current_slot],
{
}

/// The requested mode is the last one requested; nothing else changes it.
pub proof fn law_requested_mode_follows_requests<T>(
    state: MonitorState<T>,
    request: Option<Mode>,
    allowed: bool,
    told: Option<Mode>,
    first: SwapchainSlot,
    second: SwapchainSlot,
    framebuffer: FramebufferHandle,
    context: T,
)
    ensures
        state.mode_requested(request).requested_mode == request,
        state.made_current().requested_mode == state.requested_mode,
        state.drawn_reset().requested_mode == state.requested_mode,
        state.rendering(allowed).requested_mode == state.requested_mode,
        state.mode_forgotten().requested_mode == state.requested_mode,
        state.mode_told(told).requested_mode == state.requested_mode,
        state.swapchain_replaced(first, second).requested_mode == state.requested_mode,
        state.framebuffer_attached(framebuffer).requested_mode == state.requested_mode,
        state.handed_over().requested_mode == state.requested_mode,
        state.context_replaced(context).requested_mode == state.requested_mode,
{
}

/// The mode that the kernel is held to use is the one that it was last told,
/// and none after it has been forgotten. Telling no mode and everything else
/// leave it alone.
pub proof fn law_current_mode_follows_the_kernel<T>(
    state: MonitorState<T>,
    request: Option<Mode>,
    allowed: bool,
    told: Option<Mode>,
    first: SwapchainSlot,
    second: SwapchainSlot,
    framebuffer: FramebufferHandle,
    context: T,
)
    ensures
        state.mode_requested(request).current_mode == state.current_mode,
        state.made_current().current_mode == state.current_mode,
        state.drawn_reset().current_mode == state.current_mode,
        state.rendering(allowed).current_mode == state.current_mode,
        state.mode_forgotten().current_mode is None,
        state.mode_told(told).current_mode == (if told is Some {
            told
        } else {
            state.current_mode
        }),
        state.swapchain_replaced(first, second).current_mode == state.current_mode,
        state.framebuffer_attached(framebuffer).current_mode == state.current_mode,
        state.handed_over().current_mode == state.current_mode,
        state.context_replaced(context).current_mode == state.current_mode,
{
}

/// Drawing is allowed or forbidden as was last said, and forbidden once a frame
/// has been handed over. Nothing else changes it.
pub proof fn law_can_render_follows_page_flips<T>(
    state: MonitorState<T>,
    request: Option<Mode>,
    allowed: bool,
    told: Option<Mode>,
    first: SwapchainSlot,
    second: SwapchainSlot,
    framebuffer: FramebufferHandle,
    context: T,
)
    ensures
        state.mode_requested(request).can_render == state.can_render,
        state.made_current().can_render == state.can_render,
        state.drawn_reset().can_render == state.can_render,
        state.rendering(allowed).can_render == allowed,
        state.mode_forgotten().can_render == state.can_render,
        state.mode_told(told).can_render == state.can_render,
        state.swapchain_replaced(first, second).can_render == state.can_render,
        state.framebuffer_attached(framebuffer).can_render == state.can_render,
        !state.handed_over().can_render,
        state.context_replaced(context).can_render == state.can_render,
{
}

/// Making the monitor current notes that it was drawn, and taking that back
/// unnotes it. Nothing else changes it.
pub proof fn law_was_drawn_follows_drawing<T>(
    state: MonitorState<T>,
    request: Option<Mode>,
    allowed: bool,
    told: Option<Mode>,
    first: SwapchainSlot,
    second: SwapchainSlot,
    framebuffer: FramebufferHandle,
    context: T,
)
    ensures
        state.mode_requested(request).was_drawn == state.was_drawn,
        state.made_current().was_drawn,
        !state.drawn_reset().was_drawn,
        state.rendering(allowed).was_drawn == state.was_drawn,
        state.mode_forgotten().was_drawn == state.was_drawn,
        state.mode_told(told).was_drawn == state.was_drawn,
        state.swapchain_replaced(first, second).was_drawn == state.was_drawn,
        state.framebuffer_attached(framebuffer).was_drawn == state.was_drawn,
        state.handed_over().was_drawn == state.was_drawn,
        state.context_replaced(context).was_drawn == state.was_drawn,
{
}

/// A frame is the first one after the mode has been forgotten, until a frame
/// has been handed over. Nothing else changes that.
pub proof fn law_first_frame_follows_commits<T>(
    state: MonitorState<T>,
    request: Option<Mode>,
    allowed: bool,
    told: Option<Mode>,
    first: SwapchainSlot,
    second: SwapchainSlot,
    framebuffer: FramebufferHandle,
    context: T,
)
    ensures
        state.mode_requested(request).first_frame == state.first_frame,
        state.made_current().first_frame == state.first_frame,
        state.drawn_reset().first_frame == state.first_frame,
        state.rendering(allowed).first_frame == state.first_frame,
        state.mode_forgotten().first_frame,
        state.mode_told(told).first_frame == state.first_frame,
        state.swapchain_replaced(first, second).first_frame == state.first_frame,
        state.framebuffer_attached(framebuffer).first_frame == state.first_frame,
        !state.handed_over().first_frame,
        state.context_replaced(context).first_frame == state.first_frame,
{
}

/// The user's value is the one last put there; nothing else changes it.
pub proof fn law_context_follows_the_user<T>(
    state: MonitorState<T>,
    request: Option<Mode>,
    allowed: bool,
    told: Option<Mode>,
    first: SwapchainSlot,
    second: SwapchainSlot,
    framebuffer: FramebufferHandle,
    context: T,
)
    ensures
        state.mode_requested(request).context == state.context,
        state.made_current().context == state.context,
        state.drawn_reset().context == state.context,
        state.rendering(allowed).context == state.context,
        state.mode_forgotten().context == state.context,
        state.mode_told(told).context == state.context,
        state.swapchain_replaced(first, second).context == state.context,
        state.framebuffer_attached(framebuffer).context == state.context,
        state.handed_over().context == state.context,
        state.context_replaced(context).context == context,
{
}

/// Handing a frame over turns to the other slot, and replacing the slots to the
/// first. Nothing else changes which slot is drawn into.
pub proof fn law_position_follows_commits<T>(
    state: MonitorState<T>,
    request: Option<Mode>,
    allowed: bool,
    told: Option<Mode>,
    first: SwapchainSlot,
    second: SwapchainSlot,
    framebuffer: FramebufferHandle,
    context: T,
)
    requires
        state.double_buffered(),
    ensures
        state.mode_requested(request).current_slot == state.current_slot,
        state.made_current().current_slot == state.current_slot,
        state.drawn_reset().current_slot == state.current_slot,
        state.rendering(allowed).current_slot == state.current_slot,
        state.mode_forgotten().current_slot == state.current_slot,
        state.mode_told(told).current_slot == state.current_slot,
        state.swapchain_replaced(first, second).current_slot == 0,
        state.framebuffer_attached(framebuffer).current_slot == state.current_slot,
        state.handed_over().current_slot == 1 - state.current_slot,
        state.context_replaced(context).current_slot == state.current_slot,
{
}

/// The slots change by being replaced, by just the two new ones in order, and
/// by a framebuffer being noted. That changes nothing but the framebuffer of
/// the slot that is drawn into.
pub proof fn law_slots_follow_rebuilds<T>(
    state: MonitorState<T>,
    request: Option<Mode>,
    allowed: bool,
    told: Option<Mode>,
    first: SwapchainSlot,
    second: SwapchainSlot,
    framebuffer: FramebufferHandle,
    context: T,
)
    requires
        state.double_buffered(),
    ensures
        state.mode_requested(request).slots == state.slots,
        state.made_current().slots == state.slots,
        state.drawn_reset().slots == state.slots,
        state.rendering(allowed).slots == state.slots,
        state.mode_forgotten().slots == state.slots,
        state.mode_told(told).slots == state.slots,
        state.swapchain_replaced(first, second).slots.len() == 2 && state.swapchain_replaced(first, second).slots[0] == first && state.swapchain_replaced(first, second).slots[1] == second,
        ({
            let before = state.slots[state.current_slot];
            let after = state.framebuffer_attached(framebuffer).slots[state.current_slot];
            &&& state.framebuffer_attached(framebuffer).slots.len() == 2
            &&& state.framebuffer_attached(framebuffer).slots[1 - state.current_slot] == state.slots[1 - state.current_slot]
            &&& after.drm_fb == Some(framebuffer)
            &&& after.buffer == before.buffer
            &&& after.fbo == before.fbo
            &&& after.texture == before.texture
            &&& after.egl_image == before.egl_image
        }),
        state.handed_over().slots == state.slots,
        state.context_replaced(context).slots == state.slots,
{
}

} // verus!
