//! Handles of kernel mode-setting objects.
use std::marker::PhantomData;
use vstd::prelude::*;

verus! {

/// Marks the handle of a connector.
#[derive(Clone, Copy, Debug)]
pub struct Connector;

/// Marks the handle of a CRTC.
#[derive(Clone, Copy, Debug)]
pub struct Crtc;

/// Marks the handle of a plane.
#[derive(Clone, Copy, Debug)]
pub struct Plane;

/// Marks the handle of a property.
#[derive(Clone, Copy, Debug)]
pub struct Property;

/// Marks the handle of a framebuffer.
#[derive(Clone, Copy, Debug)]
pub struct Framebuffer;

/// The number under which the kernel knows an object of kind `K`. It is never
/// zero: the kernel uses zero for "no object".
#[derive(Debug)]
pub struct Handle<K> {
    raw: u32,
    kind: PhantomData<K>,
}

pub type ConnectorHandle = Handle<Connector>;

pub type CrtcHandle = Handle<Crtc>;

pub type PlaneHandle = Handle<Plane>;

pub type PropertyHandle = Handle<Property>;

pub type FramebufferHandle = Handle<Framebuffer>;

impl<K> Clone for Handle<K> {
    fn clone(&self) -> (copy: Self)
        ensures
            copy == *self,
    {
        *self
    }
}

impl<K> Copy for Handle<K> {

}

impl<K> Handle<K> {
    /// The object's number.
    pub closed spec fn id(self) -> u32 {
        self.raw
    }

    #[verifier::type_invariant]
    spec fn nonzero(self) -> bool {
        self.raw != 0
    }

    /// The handle of the object numbered `raw`, if there can be one.
    pub fn new(raw: u32) -> (handle: Option<Self>)
        ensures
            handle is Some <==> raw != 0,
            handle matches Some(h) ==> h.id() == raw,
    {
        if raw == 0 {
            None
        } else {
            Some(Handle { raw, kind: PhantomData })
        }
    }

    /// The object's number, which is not zero.
    pub fn raw(&self) -> (raw: u32)
        ensures
            raw == self.id(),
            raw != 0,
    {
        proof {
            use_type_invariant(self);
        }
        self.raw
    }
}

} // verus!
