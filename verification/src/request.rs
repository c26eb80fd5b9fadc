//! Atomic commit requests: assignments of values to properties of
//! mode-setting objects, to take effect together.
use drm::control::atomic::AtomicModeReq;
use drm::control::property::Value;
use drm::control::{from_u32, plane};
use vstd::prelude::*;

use crate::handle::{ConnectorHandle, CrtcHandle, FramebufferHandle, PlaneHandle, PropertyHandle};

verus! {

/// The request type of the `drm` crate. What it holds is `request_contents`.
#[verifier::external_type_specification]
#[verifier::external_body]
pub struct ExAtomicModeReq(AtomicModeReq);

/// What a request holds: for pairs of an object's and a property's number,
/// the raw value that the property is to take.
pub uninterp spec fn request_contents(request: AtomicModeReq) -> Map<(u32, u32), u64>;

/// Raw values by pairs of an object's and a property's number.
pub type Contents = Map<(u32, u32), u64>;

/// `AtomicModeReq::new` makes a request that holds nothing.
pub assume_specification[ AtomicModeReq::new ]() -> (request: AtomicModeReq)
    ensures
        request_contents(request) == Contents::empty(),
;

/// The object that a property belongs to.
#[derive(Clone, Copy, Debug)]
pub enum Object {
    Connector(ConnectorHandle),
    Crtc(CrtcHandle),
    Plane(PlaneHandle),
}

impl Object {
    /// The object's number.
    pub open spec fn id(self) -> u32 {
        match self {
            Object::Connector(handle) => handle.id(),
            Object::Crtc(handle) => handle.id(),
            Object::Plane(handle) => handle.id(),
        }
    }

    fn raw(&self) -> (raw: u32)
        ensures
            raw == self.id(),
            raw != 0,
    {
        match self {
            Object::Connector(handle) => handle.raw(),
            Object::Crtc(handle) => handle.raw(),
            Object::Plane(handle) => handle.raw(),
        }
    }
}

/// The value of a property.
#[derive(Clone, Copy, Debug)]
pub enum PropertyValue {
    UnsignedRange(u64),
    SignedRange(i64),
    Boolean(bool),
    Crtc(CrtcHandle),
    Framebuffer(FramebufferHandle),
    Blob(u64),
}

impl PropertyValue {
    /// The value as the kernel takes it: a signed number by its two's
    /// complement, an object by its number.
    pub open spec fn raw_value(self) -> u64 {
        match self {
            PropertyValue::UnsignedRange(value) => value,
            PropertyValue::SignedRange(value) => value as u64,
            PropertyValue::Boolean(value) => if value {
                1
            } else {
                0
            },
            PropertyValue::Crtc(handle) => handle.id() as u64,
            PropertyValue::Framebuffer(handle) => handle.id() as u64,
            PropertyValue::Blob(id) => id,
        }
    }
}

/// One entry of a request.
#[derive(Clone, Copy, Debug)]
pub struct Assignment {
    pub object: Object,
    pub property: PropertyHandle,
    pub value: PropertyValue,
}

impl Assignment {
    /// Which object's which property the entry is about.
    pub open spec fn key(self) -> (u32, u32) {
        (self.object.id(), self.property.id())
    }
}

/// What a request holds once the entries have been added in turn: of two
/// entries for the same property, the later one counts.
pub open spec fn assigned(contents: Contents, entries: Seq<Assignment>) -> Contents
    decreases entries.len(),
{
    if entries.len() == 0 {
        contents
    } else {
        assigned(contents, entries.drop_last()).insert(
            entries.last().key(),
            entries.last().value.raw_value(),
        )
    }
}

/// Whether a request can take `extra` more entries. The `drm` crate counts
/// entries in 32 bits.
pub open spec fn has_room(contents: Contents, extra: nat) -> bool {
    contents.dom().finite() && contents.len() + extra <= u32::MAX
}

/// Calls `AtomicModeReq::add_property`, which enters the value's raw form for
/// the object's property and replaces what the request held for it before.
/// Of the object's handle the call reads the number alone, so a plane's handle
/// stands for any.
#[verifier::external_body]
fn add_property(request: &mut AtomicModeReq, object: u32, property: u32, value: PropertyValue)
    requires
        object != 0,
        property != 0,
        has_room(request_contents(*old(request)), 1),
    ensures
        request_contents(*final(request)) == request_contents(*old(request)).insert(
            (object, property),
            value.raw_value(),
        ),
{
    let object = from_u32::<plane::Handle>(object).unwrap();
    let property = from_u32(property).unwrap();
    let value = match value {
        PropertyValue::UnsignedRange(value) => Value::UnsignedRange(value),
        PropertyValue::SignedRange(value) => Value::SignedRange(value),
        PropertyValue::Boolean(value) => Value::Boolean(value),
        PropertyValue::Crtc(handle) => Value::CRTC(from_u32(handle.raw())),
        PropertyValue::Framebuffer(handle) => Value::Framebuffer(from_u32(handle.raw())),
        PropertyValue::Blob(id) => Value::Blob(id),
    };
    request.add_property(object, property, value);
}

/// A request that holds nothing yet.
pub fn empty_request() -> (request: AtomicModeReq)
    ensures
        request_contents(request) == Contents::empty(),
        has_room(request_contents(request), u32::MAX as nat),
{
    AtomicModeReq::new()
}

/// Adds the entries to the request, in order.
pub fn assign_all(request: &mut AtomicModeReq, entries: &Vec<Assignment>)
    requires
        has_room(request_contents(*old(request)), entries@.len()),
    ensures
        request_contents(*final(request)) == assigned(
            request_contents(*old(request)),
            entries@,
        ),
        forall|n: nat|
            has_room(request_contents(*old(request)), n + entries@.len()) ==> #[trigger] has_room(
                request_contents(*final(request)),
                n,
            ),
{
    let ghost before = request_contents(*request);
    let mut i: usize = 0;
    assert(entries@.take(0) =~= Seq::empty());
    while i < entries.len()
        invariant
            i <= entries.len(),
            has_room(before, entries@.len()),
            before == request_contents(*old(request)),
            request_contents(*request) == assigned(before, entries@.take(i as int)),
        decreases entries.len() - i,
    {
        let entry = entries[i];
        proof {
            law_assigned_size(before, entries@.take(i as int));
            assert(entries@.take(i + 1).drop_last() =~= entries@.take(i as int));
        }
        add_property(request, entry.object.raw(), entry.property.raw(), entry.value);
        i += 1;
    }
    assert(entries@.take(i as int) =~= entries@);
    proof {
        law_assigned_size(before, entries@);
    }
}

/// A request grows by at most one with each entry, so it keeps the room that
/// the entries do not take.
pub proof fn law_assigned_size(contents: Contents, entries: Seq<Assignment>)
    requires
        contents.dom().finite(),
    ensures
        assigned(contents, entries).dom().finite(),
        assigned(contents, entries).len() <= contents.len() + entries.len(),
        forall|n: nat|
            has_room(contents, n + entries.len()) ==> #[trigger] has_room(
                assigned(contents, entries),
                n,
            ),
    decreases entries.len(),
{
    if entries.len() > 0 {
        law_assigned_size(contents, entries.drop_last());
    }
}

/// Adding entries one list after the other is adding the joined list.
pub(crate) proof fn lemma_assigned_join(
    contents: Contents,
    first: Seq<Assignment>,
    second: Seq<Assignment>,
)
    ensures
        assigned(contents, first + second) == assigned(assigned(contents, first), second),
    decreases second.len(),
{
    if second.len() == 0 {
        assert(first + second =~= first);
    } else {
        assert((first + second).drop_last() =~= first + second.drop_last());
        lemma_assigned_join(contents, first, second.drop_last());
    }
}

/// Entries leave alone what a request holds for properties that none of them
/// is about.
pub proof fn law_assigned_frame(
    contents: Contents,
    entries: Seq<Assignment>,
    key: (u32, u32),
)
    requires
        forall|i: int| 0 <= i < entries.len() ==> (#[trigger] entries[i]).key() != key,
    ensures
        assigned(contents, entries).contains_key(key) == contents.contains_key(key),
        contents.contains_key(key) ==> assigned(contents, entries)[key] == contents[key],
    decreases entries.len(),
{
    if entries.len() > 0 {
        assert(entries.last().key() != key);
        assert forall|i: int| 0 <= i < entries.drop_last().len() implies (
        #[trigger] entries.drop_last()[i]).key() != key by {
            assert(entries.drop_last()[i] == entries[i]);
        }
        law_assigned_frame(contents, entries.drop_last(), key);
    }
}

/// An entry that no later entry overrides decides its property's value.
pub proof fn law_assigned_value(
    contents: Contents,
    entries: Seq<Assignment>,
    index: int,
)
    requires
        0 <= index < entries.len(),
        forall|i: int| index < i < entries.len() ==> (#[trigger] entries[i]).key()
            != entries[index].key(),
    ensures
        assigned(contents, entries).contains_key(entries[index].key()),
        assigned(contents, entries)[entries[index].key()] == entries[index].value.raw_value(),
    decreases entries.len(),
{
    if index < entries.len() - 1 {
        assert(entries.last().key() != entries[index].key());
        assert(entries.drop_last()[index] == entries[index]);
        assert forall|i: int| index < i < entries.drop_last().len() implies (
        #[trigger] entries.drop_last()[i]).key() != entries.drop_last()[index].key() by {
            assert(entries.drop_last()[i] == entries[i]);
        }
        law_assigned_value(contents, entries.drop_last(), index);
    }
}

} // verus!
