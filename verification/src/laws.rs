//! What holds of monitors and their commits whatever is done with them.
use vstd::prelude::*;

use crate::commit::fixed_point;
use crate::handle::{FramebufferHandle, PropertyHandle};
use crate::mode::Mode;
use crate::monitor::{DrawTarget, Monitor, MonitorState};
use crate::request::{Assignment, Contents, PropertyValue, assigned, law_assigned_frame, law_assigned_value, lemma_assigned_join};
use crate::setup::{SetupBasis, initial_state};
use crate::swapchain::SwapchainSlot;

verus! {

/// The things that change a monitor.
pub ghost enum Operation<T> {
    RequestMode(Option<Mode>),
    MakeCurrent,
    ResetDrawn,
    AllowRendering(bool),
    ForgetMode,
    TellMode(Option<Mode>),
    ReplaceSwapchain(SwapchainSlot, SwapchainSlot),
    AttachFramebuffer(FramebufferHandle),
    HandOver,
    ReplaceContext(T),
}

impl<T> MonitorState<T> {
    /// After an operation.
    pub open spec fn after(self, operation: Operation<T>) -> Self {
        match operation {
            Operation::RequestMode(mode) => self.mode_requested(mode),
            Operation::MakeCurrent => self.made_current(),
            Operation::ResetDrawn => self.drawn_reset(),
            Operation::AllowRendering(allowed) => self.rendering(allowed),
            Operation::ForgetMode => self.mode_forgotten(),
            Operation::TellMode(mode) => self.mode_told(mode),
            Operation::ReplaceSwapchain(first, second) => self.swapchain_replaced(first, second),
            Operation::AttachFramebuffer(framebuffer) => self.framebuffer_attached(framebuffer),
            Operation::HandOver => self.handed_over(),
            Operation::ReplaceContext(context) => self.context_replaced(context),
        }
    }

    /// After operations in turn.
    pub open spec fn after_all(self, operations: Seq<Operation<T>>) -> Self
        decreases operations.len(),
    {
        if operations.len() == 0 {
            self
        } else {
            self.after_all(operations.drop_last()).after(operations.last())
        }
    }

    /// After populating a commit has begun: the slots may have been replaced,
    /// and the drawn slot may have got a new framebuffer.
    pub open spec fn attempted(
        self,
        rebuilt: Option<(SwapchainSlot, SwapchainSlot)>,
        added: Option<FramebufferHandle>,
    ) -> Self {
        let ready = match rebuilt {
            Some((first, second)) => self.swapchain_replaced(first, second),
            None => self,
        };
        match added {
            Some(framebuffer) => ready.framebuffer_attached(framebuffer),
            None => ready,
        }
    }

    /// After a commit has been populated.
    pub open spec fn populated(
        self,
        rebuilt: Option<(SwapchainSlot, SwapchainSlot)>,
        added: Option<FramebufferHandle>,
    ) -> Self {
        self.attempted(rebuilt, added).handed_over()
    }

    /// All entries of a populated commit.
    pub open spec fn commit_entries(
        self,
        mode: Mode,
        framebuffer: FramebufferHandle,
        mode_blob: Option<u64>,
        in_fence_fd: Option<i32>,
    ) -> Seq<Assignment> {
        self.geometry_entries(mode) + self.finish_entries(framebuffer, mode_blob, in_fence_fd)
    }

    /// Whether the kernel numbers the monitor's objects apart, and the
    /// properties of each object.
    pub open spec fn numbered_apart(self) -> bool {
        &&& self.connector.id() != self.crtc.handle.id()
        &&& self.connector.id() != self.primary_plane.id()
        &&& self.crtc.handle.id() != self.primary_plane.id()
        &&& apart(self.plane_properties)
        &&& apart(self.crtc_properties)
    }
}

/// Whether different names have different handles.
pub open spec fn apart(properties: Map<Seq<char>, PropertyHandle>) -> bool {
    forall|a: Seq<char>, b: Seq<char>|
        properties.contains_key(a) && properties.contains_key(b) && a != b ==> (
        #[trigger] properties[a]).id() != (#[trigger] properties[b]).id()
}

/// A monitor that has just been set up needs a mode set: the first frame
/// comes with one.
pub proof fn law_first_frame_sets_mode<T>(
    basis: SetupBasis,
    slots: Seq<SwapchainSlot>,
    connector_properties: Map<Seq<char>, PropertyHandle>,
    crtc_properties: Map<Seq<char>, PropertyHandle>,
    plane_properties: Map<Seq<char>, PropertyHandle>,
    context: T,
)
    ensures
        initial_state(
            basis,
            slots,
            connector_properties,
            crtc_properties,
            plane_properties,
            context,
        ).needs_mode_set(),
{
}

/// A monitor whose mode has been forgotten needs a mode set: the first frame
/// after the display has been given back comes with one.
pub proof fn law_forgotten_mode_is_set_again<T>(state: MonitorState<T>)
    ensures
        state.mode_forgotten().needs_mode_set(),
{
}

/// A requested mode is set if and only if the kernel is not using it, where
/// requesting none stands for the default.
pub proof fn law_requested_mode_is_set<T>(state: MonitorState<T>, mode: Option<Mode>)
    ensures
        state.mode_requested(mode).active_mode() == (match mode {
            Some(mode) => mode,
            None => state.default_mode,
        }),
        state.mode_requested(mode).needs_mode_set() <==> state.current_mode != Some(
            state.mode_requested(mode).active_mode(),
        ),
{
}

/// Once a commit has told the kernel the wanted mode, nothing but requesting
/// another mode or forgetting the mode makes a mode set needed again.
pub proof fn law_mode_is_set_once<T>(state: MonitorState<T>, operations: Seq<Operation<T>>)
    requires
        forall|i: int|
            0 <= i < operations.len() ==> !((#[trigger] operations[i]) is RequestMode)
                && !(operations[i] is ForgetMode) && !(operations[i] matches Operation::TellMode(
                mode,
            ) && mode != None::<Mode> && mode != Some(state.active_mode())),
    ensures
        !state.mode_told(Some(state.active_mode())).after_all(operations).needs_mode_set(),
        state.mode_told(Some(state.active_mode())).after_all(operations).active_mode()
            == state.active_mode(),
    decreases operations.len(),
{
    if operations.len() > 0 {
        let last = operations.last();
        assert(last == operations[operations.len() - 1]);
        assert forall|i: int| 0 <= i < operations.drop_last().len() implies !((
        #[trigger] operations.drop_last()[i]) is RequestMode) && !(operations.drop_last()[i] is ForgetMode)
            && !(operations.drop_last()[i] matches Operation::TellMode(mode) && mode != None::<
            Mode,
        > && mode != Some(state.active_mode())) by {
            assert(operations.drop_last()[i] == operations[i]);
        }
        law_mode_is_set_once(state, operations.drop_last());
    }
}

/// What a monitor is set up with stays as it is: its connector, its scan-out
/// engine, its planes, their properties and the default mode.
pub proof fn law_identity_is_fixed<T>(state: MonitorState<T>, operations: Seq<Operation<T>>)
    ensures
        state.after_all(operations).connector == state.connector,
        state.after_all(operations).crtc == state.crtc,
        state.after_all(operations).default_mode == state.default_mode,
        state.after_all(operations).primary_plane == state.primary_plane,
        state.after_all(operations).cursor_plane == state.cursor_plane,
        state.after_all(operations).connector_properties == state.connector_properties,
        state.after_all(operations).crtc_properties == state.crtc_properties,
        state.after_all(operations).plane_properties == state.plane_properties,
    decreases operations.len(),
{
    if operations.len() > 0 {
        law_identity_is_fixed(state, operations.drop_last());
    }
}

/// The requested mode changes by requesting a mode alone, and the mode that
/// the kernel is held to use by a successful commit or by forgetting it alone.
pub proof fn law_who_changes_modes<T>(state: MonitorState<T>, operation: Operation<T>)
    ensures
        state.after(operation).requested_mode != state.requested_mode
            ==> operation is RequestMode,
        state.after(operation).current_mode != state.current_mode ==> operation is TellMode
            || operation is ForgetMode,
{
}

/// There are always two slots, of which one is drawn into.
pub proof fn law_double_buffering<T>(state: MonitorState<T>, operations: Seq<Operation<T>>)
    requires
        state.double_buffered(),
    ensures
        state.after_all(operations).double_buffered(),
    decreases operations.len(),
{
    if operations.len() > 0 {
        law_double_buffering(state, operations.drop_last());
    }
}

/// A monitor that has just been set up has two slots, of which the first is
/// drawn into.
pub proof fn law_set_up_double_buffered<T>(
    basis: SetupBasis,
    first: SwapchainSlot,
    second: SwapchainSlot,
    connector_properties: Map<Seq<char>, PropertyHandle>,
    crtc_properties: Map<Seq<char>, PropertyHandle>,
    plane_properties: Map<Seq<char>, PropertyHandle>,
    context: T,
)
    ensures
        ({
            let state = initial_state(
                basis,
                seq![first, second],
                connector_properties,
                crtc_properties,
                plane_properties,
                context,
            );
            state.double_buffered() && state.drawn_slot() == first
        }),
{
}

/// A slot that has been handed over is not the next one to be drawn into, but
/// the next but one.
pub proof fn law_slots_alternate<T>(state: MonitorState<T>)
    requires
        state.double_buffered(),
    ensures
        state.handed_over().current_slot != state.current_slot,
        state.handed_over().handed_over().current_slot == state.current_slot,
        state.handed_over().slots == state.slots,
{
}

/// Whether an operation forbids drawing.
pub open spec fn forbids_rendering<T>(operation: Operation<T>) -> bool {
    operation is HandOver || operation == Operation::<T>::AllowRendering(false)
}

/// Whether the operation at `index` allows drawing, and none behind it forbids
/// it.
pub open spec fn allowed_since<T>(operations: Seq<Operation<T>>, index: int) -> bool {
    &&& 0 <= index < operations.len()
    &&& operations[index] == Operation::<T>::AllowRendering(true)
    &&& forall|i: int| index < i < operations.len() ==> !forbids_rendering(#[trigger] operations[i])
}

/// A monitor may be drawn if and only if that has been allowed since it was
/// last forbidden, be it by handing over a frame or otherwise, or was so at
/// the outset and has not been forbidden.
pub proof fn law_who_may_be_drawn<T>(state: MonitorState<T>, operations: Seq<Operation<T>>)
    ensures
        state.after_all(operations).can_render <==> {
            ||| exists|i: int| allowed_since(operations, i)
            ||| state.can_render && forall|i: int|
                0 <= i < operations.len() ==> !forbids_rendering(#[trigger] operations[i])
        },
    decreases operations.len(),
{
    if operations.len() > 0 {
        let fewer = operations.drop_last();
        let last = operations.last();
        let end = operations.len() - 1;
        law_who_may_be_drawn(state, fewer);
        assert(forall|i: int| 0 <= i < end ==> fewer[i] == operations[i]);
        assert(operations[end] == last);
        if last == Operation::<T>::AllowRendering(true) {
            assert(allowed_since(operations, end));
        } else if !forbids_rendering(last) {
            assert forall|i: int| allowed_since(fewer, i) implies allowed_since(
                operations,
                i,
            ) by {}
            assert forall|i: int| allowed_since(operations, i) implies allowed_since(fewer, i) by {
                assert(i != end);
                assert forall|j: int| i < j < fewer.len() implies !forbids_rendering(
                    #[trigger] fewer[j],
                ) by {
                    assert(fewer[j] == operations[j]);
                }
            }
            if forall|i: int| 0 <= i < end ==> !forbids_rendering(#[trigger] fewer[i]) {
                assert forall|i: int| 0 <= i < operations.len() implies !forbids_rendering(
                    #[trigger] operations[i],
                ) by {
                    if i < end {
                        assert(fewer[i] == operations[i]);
                    }
                }
            }
            if forall|i: int|
                0 <= i < operations.len() ==> !forbids_rendering(#[trigger] operations[i]) {
                assert forall|i: int| 0 <= i < end implies !forbids_rendering(
                    #[trigger] fewer[i],
                ) by {
                    assert(fewer[i] == operations[i]);
                }
            }
        }
    }
}

/// After a frame has been handed over, the monitor may not be drawn before it
/// is allowed to again.
pub proof fn law_no_drawing_before_page_flip<T>(
    state: MonitorState<T>,
    operations: Seq<Operation<T>>,
)
    requires
        forall|i: int|
            0 <= i < operations.len() ==> #[trigger] operations[i]
                != Operation::<T>::AllowRendering(true),
    ensures
        !state.handed_over().after_all(operations).can_render,
{
    law_who_may_be_drawn(state.handed_over(), operations);
}

/// Whether the operation at `index` makes the monitor current, and none behind
/// it takes the note of that back.
pub open spec fn drawn_since<T>(operations: Seq<Operation<T>>, index: int) -> bool {
    &&& 0 <= index < operations.len()
    &&& operations[index] is MakeCurrent
    &&& forall|i: int| index < i < operations.len() ==> !((#[trigger] operations[i]) is ResetDrawn)
}

/// A monitor counts as drawn if and only if it has been made current since
/// that was last taken back, or did so at the outset and it was not taken
/// back.
pub proof fn law_who_counts_as_drawn<T>(state: MonitorState<T>, operations: Seq<Operation<T>>)
    ensures
        state.after_all(operations).was_drawn <==> {
            ||| exists|i: int| drawn_since(operations, i)
            ||| state.was_drawn && forall|i: int|
                0 <= i < operations.len() ==> !((#[trigger] operations[i]) is ResetDrawn)
        },
    decreases operations.len(),
{
    if operations.len() > 0 {
        let fewer = operations.drop_last();
        let last = operations.last();
        let end = operations.len() - 1;
        law_who_counts_as_drawn(state, fewer);
        assert(operations[end] == last);
        if last is MakeCurrent {
            assert(drawn_since(operations, end));
        } else if !(last is ResetDrawn) {
            assert forall|i: int| drawn_since(fewer, i) implies drawn_since(operations, i) by {
                assert forall|j: int| i < j < operations.len() implies !((
                #[trigger] operations[j]) is ResetDrawn) by {
                    if j < end {
                        assert(fewer[j] == operations[j]);
                    }
                }
            }
            assert forall|i: int| drawn_since(operations, i) implies drawn_since(fewer, i) by {
                assert(i != end);
                assert forall|j: int| i < j < fewer.len() implies !((#[trigger] fewer[j]) is ResetDrawn) by {
                    assert(fewer[j] == operations[j]);
                }
            }
            if forall|i: int| 0 <= i < end ==> !((#[trigger] fewer[i]) is ResetDrawn) {
                assert forall|i: int| 0 <= i < operations.len() implies !((
                #[trigger] operations[i]) is ResetDrawn) by {
                    if i < end {
                        assert(fewer[i] == operations[i]);
                    }
                }
            }
            if forall|i: int|
                0 <= i < operations.len() ==> !((#[trigger] operations[i]) is ResetDrawn) {
                assert forall|i: int| 0 <= i < end implies !((#[trigger] fewer[i]) is ResetDrawn) by {
                    assert(fewer[i] == operations[i]);
                }
            }
        }
    }
}

/// A monitor that has been made current counts as drawn until that is taken
/// back.
pub proof fn law_drawn_until_reset<T>(state: MonitorState<T>, operations: Seq<Operation<T>>)
    requires
        forall|i: int|
            0 <= i < operations.len() ==> !((#[trigger] operations[i]) is ResetDrawn),
    ensures
        state.made_current().after_all(operations).was_drawn,
{
    law_who_counts_as_drawn(state.made_current(), operations);
}

/// Where to draw stays the same until a frame is handed over or the slots are
/// replaced.
pub proof fn law_draw_target_stays<T>(state: MonitorState<T>, operations: Seq<Operation<T>>)
    requires
        state.double_buffered(),
        forall|i: int|
            0 <= i < operations.len() ==> !((#[trigger] operations[i]) is HandOver)
                && !(operations[i] is ReplaceSwapchain),
    ensures
        state.after_all(operations).current_slot == state.current_slot,
        DrawTarget::of(state.after_all(operations).drawn_slot()) == DrawTarget::of(
            state.drawn_slot(),
        ),
    decreases operations.len(),
{
    if operations.len() > 0 {
        let fewer = operations.drop_last();
        assert(operations.last() == operations[operations.len() - 1]);
        assert forall|i: int| 0 <= i < fewer.len() implies !((#[trigger] fewer[i]) is HandOver)
            && !(fewer[i] is ReplaceSwapchain) by {
            assert(fewer[i] == operations[i]);
        }
        law_draw_target_stays(state, fewer);
        law_double_buffering(state, fewer);
    }
}

/// A framebuffer that has been noted in a slot stays there as long as the
/// slots do: every later commit of the slot uses it again.
pub proof fn law_framebuffer_is_kept<T>(
    state: MonitorState<T>,
    framebuffer: FramebufferHandle,
    operations: Seq<Operation<T>>,
)
    requires
        state.double_buffered(),
        forall|i: int|
            0 <= i < operations.len() ==> !((#[trigger] operations[i]) is ReplaceSwapchain)
                && !(operations[i] is AttachFramebuffer),
    ensures
        state.framebuffer_attached(framebuffer).drawn_slot().drm_fb == Some(framebuffer),
        state.framebuffer_attached(framebuffer).after_all(operations).slots
            == state.framebuffer_attached(framebuffer).slots,
    decreases operations.len(),
{
    if operations.len() > 0 {
        assert(operations.last() == operations[operations.len() - 1]);
        assert forall|i: int| 0 <= i < operations.drop_last().len() implies !((
        #[trigger] operations.drop_last()[i]) is ReplaceSwapchain) && !(
        operations.drop_last()[i] is AttachFramebuffer) by {
            assert(operations.drop_last()[i] == operations[i]);
        }
        law_framebuffer_is_kept(state, framebuffer, operations.drop_last());
    }
}

/// New slots of the mode's size are not replaced again for the same mode.
pub proof fn law_rebuilt_swapchain_fits<T>(
    state: MonitorState<T>,
    mode: Mode,
    first: SwapchainSlot,
    second: SwapchainSlot,
)
    requires
        first.buffer.width == mode.hdisplay,
        first.buffer.height == mode.vdisplay,
    ensures
        state.swapchain_replaced(first, second).fits(mode),
{
}

/// A populated commit leaves the monitor's modes, its note of having been
/// drawn and the user's value alone, forbids drawing, and turns to the other
/// slot; if the slots have been replaced, the first new one is handed over.
pub proof fn law_populated_commit<T>(
    state: MonitorState<T>,
    rebuilt: Option<(SwapchainSlot, SwapchainSlot)>,
    added: Option<FramebufferHandle>,
)
    requires
        state.double_buffered(),
    ensures
        state.populated(rebuilt, added).requested_mode == state.requested_mode,
        state.populated(rebuilt, added).current_mode == state.current_mode,
        state.populated(rebuilt, added).active_mode() == state.active_mode(),
        state.populated(rebuilt, added).was_drawn == state.was_drawn,
        state.populated(rebuilt, added).context == state.context,
        state.populated(rebuilt, added).double_buffered(),
        !state.populated(rebuilt, added).can_render,
        !state.populated(rebuilt, added).first_frame,
        state.populated(rebuilt, added).current_slot == (if rebuilt is Some {
            1
        } else {
            1 - state.current_slot
        }),
{
}

/// A commit that could not be populated leaves the monitor to be drawn again
/// as it was: nothing changes but the slots and, with new slots, which of them
/// is drawn into.
pub proof fn law_failed_commit<T>(
    state: MonitorState<T>,
    rebuilt: Option<(SwapchainSlot, SwapchainSlot)>,
    added: Option<FramebufferHandle>,
)
    ensures
        state.attempted(rebuilt, added) == (MonitorState {
            slots: state.attempted(rebuilt, added).slots,
            current_slot: if rebuilt is Some {
                0
            } else {
                state.current_slot
            },
            ..state
        }),
        rebuilt is None && added is None ==> state.attempted(rebuilt, added) == state,
{
}

/// The two parts in which a commit is populated make up all of its entries.
pub proof fn law_commit_parts<T>(
    state: MonitorState<T>,
    contents: Contents,
    mode: Mode,
    framebuffer: FramebufferHandle,
    mode_blob: Option<u64>,
    in_fence_fd: Option<i32>,
)
    ensures
        assigned(
            assigned(contents, state.geometry_entries(mode)),
            state.finish_entries(framebuffer, mode_blob, in_fence_fd),
        ) == assigned(
            contents,
            state.commit_entries(mode, framebuffer, mode_blob, in_fence_fd),
        ),
{
    lemma_assigned_join(
        contents,
        state.geometry_entries(mode),
        state.finish_entries(framebuffer, mode_blob, in_fence_fd),
    );
}

/// A monitor's commit leaves alone what the request holds for objects other
/// than the monitor's connector, scan-out engine and primary plane.
pub proof fn law_monitors_are_isolated<T>(
    state: MonitorState<T>,
    contents: Contents,
    mode: Mode,
    framebuffer: FramebufferHandle,
    mode_blob: Option<u64>,
    in_fence_fd: Option<i32>,
    object: u32,
    property: u32,
)
    requires
        object != state.connector.id(),
        object != state.crtc.handle.id(),
        object != state.primary_plane.id(),
    ensures
        ({
            let after = assigned(
                contents,
                state.commit_entries(mode, framebuffer, mode_blob, in_fence_fd),
            );
            &&& after.contains_key((object, property)) == contents.contains_key((object, property))
            &&& contents.contains_key((object, property)) ==> after[(object, property)]
                == contents[(object, property)]
        }),
{
    let entries = state.commit_entries(mode, framebuffer, mode_blob, in_fence_fd);
    assert forall|i: int| 0 <= i < entries.len() implies (#[trigger] entries[i]).key() != (
        object,
        property,
    ) by {}
    law_assigned_frame(contents, entries, (object, property));
}

/// The names of the properties that a commit assigns are all different.
proof fn lemma_names_differ()
    ensures
        forall|i: int, j: int|
            0 <= i < j < plane_names().len() ==> #[trigger] plane_names()[i]
                != #[trigger] plane_names()[j],
        "MODE_ID"@ != "ACTIVE"@,
        "MODE_ID"@ != "IN_FENCE_FD"@,
        "ACTIVE"@ != "IN_FENCE_FD"@,
{
    reveal_strlit("CRTC_ID");
    reveal_strlit("SRC_X");
    reveal_strlit("SRC_Y");
    reveal_strlit("SRC_W");
    reveal_strlit("SRC_H");
    reveal_strlit("CRTC_X");
    reveal_strlit("CRTC_Y");
    reveal_strlit("CRTC_W");
    reveal_strlit("CRTC_H");
    reveal_strlit("FB_ID");
    reveal_strlit("IN_FENCE_FD");
    reveal_strlit("MODE_ID");
    reveal_strlit("ACTIVE");
    assert("CRTC_ID"@[0] == 'C' && "CRTC_ID"@[5] == 'I');
    assert("CRTC_X"@[5] == 'X');
    assert("CRTC_Y"@[5] == 'Y');
    assert("CRTC_W"@[5] == 'W');
    assert("CRTC_H"@[5] == 'H');
    assert("SRC_X"@[4] == 'X' && "SRC_X"@[0] == 'S');
    assert("SRC_Y"@[4] == 'Y' && "SRC_Y"@[0] == 'S');
    assert("SRC_W"@[4] == 'W' && "SRC_W"@[0] == 'S');
    assert("SRC_H"@[4] == 'H' && "SRC_H"@[0] == 'S');
    assert("FB_ID"@[0] == 'F');
    assert("MODE_ID"@.len() == 7);
    assert("ACTIVE"@.len() == 6);
    assert("IN_FENCE_FD"@.len() == 11);
}

/// The plane's properties in the order in which a commit assigns them.
spec fn plane_names() -> Seq<Seq<char>> {
    seq![
        "CRTC_ID"@,
        "SRC_X"@,
        "SRC_Y"@,
        "SRC_W"@,
        "SRC_H"@,
        "CRTC_X"@,
        "CRTC_Y"@,
        "CRTC_W"@,
        "CRTC_H"@,
        "FB_ID"@,
        "IN_FENCE_FD"@,
    ]
}

/// Whether a request assigns the value to the object's property.
pub open spec fn assigns(contents: Contents, entry: Assignment) -> bool {
    contents.contains_key(entry.key()) && contents[entry.key()] == entry.value.raw_value()
}

/// Where the kernel numbers objects and properties apart, no entry of a
/// commit overrides another: the request holds each of them in the end.
pub proof fn law_commit_holds_every_entry<T>(
    state: MonitorState<T>,
    contents: Contents,
    mode: Mode,
    framebuffer: FramebufferHandle,
    mode_blob: Option<u64>,
    in_fence_fd: Option<i32>,
    index: int,
)
    requires
        state.has_geometry_properties(),
        state.has_framebuffer_property(),
        mode_blob is Some ==> state.has_mode_properties(),
        state.numbered_apart(),
        0 <= index < state.commit_entries(mode, framebuffer, mode_blob, in_fence_fd).len(),
    ensures
        assigns(
            assigned(contents, state.commit_entries(mode, framebuffer, mode_blob, in_fence_fd)),
            state.commit_entries(mode, framebuffer, mode_blob, in_fence_fd)[index],
        ),
{
    let entries = state.commit_entries(mode, framebuffer, mode_blob, in_fence_fd);
    lemma_names_differ();
    let names = plane_names();
    let shift = if mode_blob is Some { 2int } else { 0int };
    // The place of a plane's entry in the list of names, and its name.
    let place = |i: int| if i < 10 { i - 1 } else { i - 1 - shift };
    assert forall|i: int| 0 <= i < entries.len() && (#[trigger] entries[i]).object is Plane implies {
        &&& 0 <= place(i) < names.len()
        &&& state.plane_properties.contains_key(names[place(i)])
        &&& entries[i] == state.plane_entry(names[place(i)], entries[i].value)
    } by {}
    assert forall|i: int| index < i < entries.len() implies (#[trigger] entries[i]).key()
        != entries[index].key() by {
        if entries[i].object is Plane && entries[index].object is Plane {
            assert(place(index) < place(i));
            assert(names[place(index)] != names[place(i)]);
        }
    }
    law_assigned_value(contents, entries, index);
}

/// Where the kernel numbers objects and properties apart, a populated commit
/// has the connector show the scan-out engine and the plane the framebuffer,
/// sets the mode if a blob with it was made, and has the plane, or else the
/// scan-out engine, wait for the fence if one was given and it can wait.
pub proof fn law_commit_shows_the_frame<T>(
    state: MonitorState<T>,
    contents: Contents,
    mode: Mode,
    framebuffer: FramebufferHandle,
    mode_blob: Option<u64>,
    in_fence_fd: Option<i32>,
)
    requires
        state.has_geometry_properties(),
        state.has_framebuffer_property(),
        mode_blob is Some ==> state.has_mode_properties(),
        state.numbered_apart(),
    ensures
        ({
            let after = assigned(
                contents,
                state.commit_entries(mode, framebuffer, mode_blob, in_fence_fd),
            );
            let crtc = PropertyValue::Crtc(state.crtc.handle);
            &&& after.contains_pair(
                (state.connector.id(), state.connector_properties["CRTC_ID"@].id()),
                state.crtc.handle.id() as u64,
            )
            &&& assigns(after, state.plane_entry("CRTC_ID"@, crtc))
            &&& assigns(after, state.plane_entry("FB_ID"@, PropertyValue::Framebuffer(framebuffer)))
            &&& mode_blob matches Some(blob) ==> {
                &&& assigns(after, state.crtc_entry("MODE_ID"@, PropertyValue::Blob(blob)))
                &&& assigns(after, state.crtc_entry("ACTIVE"@, PropertyValue::Boolean(true)))
            }
            &&& in_fence_fd matches Some(fd) ==> {
                let fence = PropertyValue::SignedRange(fd as i64);
                if state.plane_properties.contains_key("IN_FENCE_FD"@) {
                    assigns(after, state.plane_entry("IN_FENCE_FD"@, fence))
                } else {
                    state.crtc_properties.contains_key("IN_FENCE_FD"@) ==> assigns(
                        after,
                        state.crtc_entry("IN_FENCE_FD"@, fence),
                    )
                }
            }
        }),
{
    let entries = state.commit_entries(mode, framebuffer, mode_blob, in_fence_fd);
    assert forall|i: int| 0 <= i < entries.len() implies assigns(
        assigned(contents, entries),
        #[trigger] entries[i],
    ) by {
        law_commit_holds_every_entry(
            state,
            contents,
            mode,
            framebuffer,
            mode_blob,
            in_fence_fd,
            i,
        );
    }
    let crtc = PropertyValue::Crtc(state.crtc.handle);
    assert(entries[0].key() == (
        state.connector.id(),
        state.connector_properties["CRTC_ID"@].id(),
    ));
    assert(entries[1] == state.plane_entry("CRTC_ID"@, crtc));
    let shift = if mode_blob is Some {
        2int
    } else {
        0int
    };
    if mode_blob is Some {
        assert(entries[10] == state.crtc_entry("MODE_ID"@, PropertyValue::Blob(mode_blob->0)));
        assert(entries[11] == state.crtc_entry("ACTIVE"@, PropertyValue::Boolean(true)));
    }
    assert(entries[10 + shift] == state.plane_entry(
        "FB_ID"@,
        PropertyValue::Framebuffer(framebuffer),
    ));
    if state.fence_entries(in_fence_fd).len() > 0 {
        assert(entries[11 + shift] == state.fence_entries(in_fence_fd)[0]);
    }
}

/// Where the kernel numbers objects and properties apart, a whole commit of a
/// monitor shows the slot that was drawn into, in the mode that the application
/// wants, and the next frame is drawn into the other slot. The slots may have
/// been replaced on the way, and the drawn slot may have got its framebuffer.
pub proof fn law_commit_shows_the_drawn_slot<T>(
    state: MonitorState<T>,
    contents: Contents,
    rebuilt: Option<(SwapchainSlot, SwapchainSlot)>,
    added: Option<FramebufferHandle>,
    mode_blob: Option<u64>,
    in_fence_fd: Option<i32>,
)
    requires
        state.double_buffered(),
        state.has_geometry_properties(),
        state.has_framebuffer_property(),
        mode_blob is Some ==> state.has_mode_properties(),
        state.numbered_apart(),
        state.attempted(rebuilt, added).drawn_slot().drm_fb is Some,
    ensures
        ({
            let ready = state.attempted(rebuilt, added);
            let shown = ready.drawn_slot().drm_fb->0;
            let after = assigned(
                contents,
                ready.commit_entries(state.active_mode(), shown, mode_blob, in_fence_fd),
            );
            let next = state.populated(rebuilt, added);
            &&& added matches Some(framebuffer) ==> shown == framebuffer
            &&& rebuilt is None && added is None ==> shown == state.drawn_slot().drm_fb->0
            &&& assigns(after, state.plane_entry("FB_ID"@, PropertyValue::Framebuffer(shown)))
            &&& forall|i: int|
                0 <= i < state.geometry_entries(state.active_mode()).len() ==> assigns(
                    after,
                    #[trigger] state.geometry_entries(state.active_mode())[i],
                )
            &&& next.current_slot == 1 - ready.current_slot
            &&& DrawTarget::of(next.drawn_slot()) == DrawTarget::of(
                ready.slots[1 - ready.current_slot],
            )
            &&& rebuilt is None ==> DrawTarget::of(next.drawn_slot()) == DrawTarget::of(
                state.slots[1 - state.current_slot],
            )
        }),
{
    let ready = state.attempted(rebuilt, added);
    let mode = state.active_mode();
    let shown = ready.drawn_slot().drm_fb->0;
    let entries = ready.commit_entries(mode, shown, mode_blob, in_fence_fd);
    law_commit_shows_the_frame(ready, contents, mode, shown, mode_blob, in_fence_fd);
    assert(ready.geometry_entries(mode) =~= state.geometry_entries(mode));
    assert forall|i: int| 0 <= i < state.geometry_entries(mode).len() implies assigns(
        assigned(contents, entries),
        #[trigger] state.geometry_entries(mode)[i],
    ) by {
        assert(entries[i] == state.geometry_entries(mode)[i]);
        law_commit_holds_every_entry(ready, contents, mode, shown, mode_blob, in_fence_fd, i);
    }
}

/// Where the kernel numbers objects and properties apart, a commit without a
/// blob leaves alone what the request holds of the mode.
pub proof fn law_mode_is_left_alone<T>(
    state: MonitorState<T>,
    contents: Contents,
    mode: Mode,
    framebuffer: FramebufferHandle,
    in_fence_fd: Option<i32>,
)
    requires
        state.has_mode_properties(),
        state.numbered_apart(),
    ensures
        ({
            let after = assigned(
                contents,
                state.commit_entries(mode, framebuffer, None, in_fence_fd),
            );
            forall|name: Seq<char>|
                #![trigger state.crtc_properties[name]]
                name == "MODE_ID"@ || name == "ACTIVE"@ ==> {
                    let key = (state.crtc.handle.id(), state.crtc_properties[name].id());
                    &&& after.contains_key(key) == contents.contains_key(key)
                    &&& contents.contains_key(key) ==> after[key] == contents[key]
                }
        }),
{
    let entries = state.commit_entries(mode, framebuffer, None, in_fence_fd);
    lemma_names_differ();
    assert forall|name: Seq<char>|
        #![trigger state.crtc_properties[name]]
        name == "MODE_ID"@ || name == "ACTIVE"@ implies {
        let key = (state.crtc.handle.id(), state.crtc_properties[name].id());
        &&& assigned(contents, entries).contains_key(key) == contents.contains_key(key)
        &&& contents.contains_key(key) ==> assigned(contents, entries)[key] == contents[key]
    } by {
        let key = (state.crtc.handle.id(), state.crtc_properties[name].id());
        assert forall|i: int| 0 <= i < entries.len() implies (#[trigger] entries[i]).key()
            != key by {
            if entries[i].object is Crtc {
                assert(entries[i].property == state.crtc_properties["IN_FENCE_FD"@]);
            }
        }
        law_assigned_frame(contents, entries, key);
    }
}

/// The number of pixels comes back from its form with sixteen binary places,
/// which are zero.
pub proof fn law_fixed_point(pixels: u16)
    ensures
        fixed_point(pixels) / 0x1_0000 == pixels,
        fixed_point(pixels) % 0x1_0000 == 0,
{
}

/// Being the same monitor is reflexive, symmetric and transitive, and the same
/// monitors have the same connector to be hashed by.
pub proof fn law_same_monitor<T>(a: Monitor<T>, b: Monitor<T>, c: Monitor<T>)
    ensures
        vstd::std_specs::cmp::PartialEqSpec::eq_spec(&a, &a),
        vstd::std_specs::cmp::PartialEqSpec::eq_spec(&a, &b)
            == vstd::std_specs::cmp::PartialEqSpec::eq_spec(&b, &a),
        vstd::std_specs::cmp::PartialEqSpec::eq_spec(&a, &b)
            && vstd::std_specs::cmp::PartialEqSpec::eq_spec(&b, &c)
            ==> vstd::std_specs::cmp::PartialEqSpec::eq_spec(&a, &c),
        vstd::std_specs::cmp::PartialEqSpec::eq_spec(&a, &b) <==> a@.connector.id()
            == b@.connector.id(),
{
}

} // verus!
