//! Display modes.
use vstd::prelude::*;

verus! {

/// Resolution and timing of a display mode, field by field as the kernel
/// describes it. Two modes are the same mode if every field agrees.
#[derive(Clone, Copy, Debug)]
pub struct Mode {
    pub clock: u32,
    pub hdisplay: u16,
    pub hsync_start: u16,
    pub hsync_end: u16,
    pub htotal: u16,
    pub hskew: u16,
    pub vdisplay: u16,
    pub vsync_start: u16,
    pub vsync_end: u16,
    pub vtotal: u16,
    pub vscan: u16,
    pub vrefresh: u32,
    pub flags: u32,
    pub kind: u32,
    pub name: [u8; 32],
}

impl Mode {
    /// Width and height in pixels.
    pub open spec fn dimensions(self) -> (u16, u16) {
        (self.hdisplay, self.vdisplay)
    }

    /// Width and height in pixels.
    pub fn size(&self) -> (size: (u16, u16))
        ensures
            size == self.dimensions(),
            size.0 == self.hdisplay,
            size.1 == self.vdisplay,
    {
        (self.hdisplay, self.vdisplay)
    }
}

/// Whether two mode names agree byte by byte.
fn same_name(a: &[u8; 32], b: &[u8; 32]) -> (same: bool)
    ensures
        same == (*a == *b),
{
    let mut i: usize = 0;
    while i < 32
        invariant
            i <= 32,
            forall|j: int| 0 <= j < i ==> a@[j] == b@[j],
        decreases 32 - i,
    {
        if a[i] != b[i] {
            return false;
        }
        i += 1;
    }
    assert(*a =~= *b);
    true
}

impl PartialEq for Mode {
    fn eq(&self, other: &Self) -> (same: bool) {
        self.clock == other.clock
            && self.hdisplay == other.hdisplay
            && self.hsync_start == other.hsync_start
            && self.hsync_end == other.hsync_end
            && self.htotal == other.htotal
            && self.hskew == other.hskew
            && self.vdisplay == other.vdisplay
            && self.vsync_start == other.vsync_start
            && self.vsync_end == other.vsync_end
            && self.vtotal == other.vtotal
            && self.vscan == other.vscan
            && self.vrefresh == other.vrefresh
            && self.flags == other.flags
            && self.kind == other.kind
            && same_name(&self.name, &other.name)
    }
}

impl vstd::std_specs::cmp::PartialEqSpecImpl for Mode {
    open spec fn obeys_eq_spec() -> bool {
        true
    }

    open spec fn eq_spec(&self, other: &Self) -> bool {
        *self == *other
    }
}

impl Eq for Mode {

}

} // verus!
