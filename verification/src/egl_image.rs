//! The attribute list with which EGL imports a scan-out buffer as an image.
use drm::buffer::DrmModifier;
use vstd::prelude::*;

verus! {

pub const EGL_NONE: i32 = 0x3038;

pub const EGL_WIDTH: i32 = 0x3057;

pub const EGL_HEIGHT: i32 = 0x3056;

/// What kind of thing an image is imported from.
pub const EGL_LINUX_DMA_BUF_EXT: u32 = 0x3270;

pub const EGL_LINUX_DRM_FOURCC_EXT: i32 = 0x3271;

pub const EGL_DMA_BUF_PLANE0_FD_EXT: i32 = 0x3272;

pub const EGL_DMA_BUF_PLANE0_OFFSET_EXT: i32 = 0x3273;

pub const EGL_DMA_BUF_PLANE0_PITCH_EXT: i32 = 0x3274;

pub const EGL_DMA_BUF_PLANE0_MODIFIER_LO_EXT: i32 = 0x3443;

pub const EGL_DMA_BUF_PLANE0_MODIFIER_HI_EXT: i32 = 0x3444;

/// The code that stands for "no modifier known".
pub const INVALID_MODIFIER: u64 = 0x00ff_ffff_ffff_ffff;

/// A scan-out buffer as its allocator describes it.
#[derive(Clone, Copy, Debug, PartialEq, Eq, Structural)]
pub struct BufferInfo {
    /// A number of the owner's choice, by which the buffer is found again.
    pub id: u64,
    pub width: u32,
    pub height: u32,
    /// The pixel format's four-character code.
    pub format: u32,
    /// Where the first plane begins, in bytes.
    pub offset: u32,
    /// The length of a row, in bytes.
    pub stride: u32,
    /// The code of the layout modifier.
    pub modifier: u64,
}

/// Takes the code through `DrmModifier`'s `From<u64>` and compares the result
/// with `DrmModifier::Invalid` by `==`. It is equal for exactly one code.
#[verifier::external_body]
fn is_invalid_modifier(code: u64) -> (invalid: bool)
    ensures
        invalid == (code == INVALID_MODIFIER),
{
    DrmModifier::from(code) == DrmModifier::Invalid
}

impl BufferInfo {
    /// Whether a layout modifier is known of the buffer.
    pub open spec fn modified(self) -> bool {
        self.modifier != INVALID_MODIFIER
    }

    /// Whether a layout modifier is known of the buffer.
    pub fn has_modifier(&self) -> (known: bool)
        ensures
            known == self.modified(),
    {
        !is_invalid_modifier(self.modifier)
    }
}

/// The lower 32 bits.
pub open spec fn low_word(code: u64) -> i32 {
    (code & 0xFFFF_FFFF) as i32
}

/// The upper 32 bits.
pub open spec fn high_word(code: u64) -> i32 {
    ((code >> 32u64) & 0xFFFF_FFFF) as i32
}

/// The attributes of the buffer's only plane, exported as file descriptor
/// `fd`: names and values in turn, and an end mark. An unsigned number is
/// given by its bits. The modifier is left out if none is known.
pub open spec fn attributes_of(buffer: BufferInfo, fd: i32) -> Seq<i32> {
    let plane = seq![
        EGL_WIDTH,
        buffer.width as i32,
        EGL_HEIGHT,
        buffer.height as i32,
        EGL_LINUX_DRM_FOURCC_EXT,
        buffer.format as i32,
        EGL_DMA_BUF_PLANE0_FD_EXT,
        fd,
        EGL_DMA_BUF_PLANE0_OFFSET_EXT,
        buffer.offset as i32,
        EGL_DMA_BUF_PLANE0_PITCH_EXT,
        buffer.stride as i32,
    ];
    let modifier = if buffer.modified() {
        seq![
            EGL_DMA_BUF_PLANE0_MODIFIER_LO_EXT,
            low_word(buffer.modifier),
            EGL_DMA_BUF_PLANE0_MODIFIER_HI_EXT,
            high_word(buffer.modifier),
        ]
    } else {
        Seq::empty()
    };
    (plane + modifier).push(EGL_NONE)
}

/// The attribute list for importing the buffer.
pub fn image_attributes(buffer: &BufferInfo, fd: i32) -> (attributes: Vec<i32>)
    ensures
        attributes@ == attributes_of(*buffer, fd),
{
    let mut attributes: Vec<i32> = vec![
        EGL_WIDTH,
        #[verifier::truncate] (buffer.width as i32),
        EGL_HEIGHT,
        #[verifier::truncate] (buffer.height as i32),
        EGL_LINUX_DRM_FOURCC_EXT,
        #[verifier::truncate] (buffer.format as i32),
        EGL_DMA_BUF_PLANE0_FD_EXT,
        fd,
        EGL_DMA_BUF_PLANE0_OFFSET_EXT,
        #[verifier::truncate] (buffer.offset as i32),
        EGL_DMA_BUF_PLANE0_PITCH_EXT,
        #[verifier::truncate] (buffer.stride as i32),
    ];
    if buffer.has_modifier() {
        let code = buffer.modifier;
        attributes.push(EGL_DMA_BUF_PLANE0_MODIFIER_LO_EXT);
        attributes.push(#[verifier::truncate] ((code & 0xFFFF_FFFF) as i32));
        attributes.push(EGL_DMA_BUF_PLANE0_MODIFIER_HI_EXT);
        attributes.push(#[verifier::truncate] (((code >> 32u64) & 0xFFFF_FFFF) as i32));
    }
    attributes.push(EGL_NONE);
    assert(attributes@ =~= attributes_of(*buffer, fd));
    attributes
}

/// Nothing of a modifier is lost in its two words.
pub proof fn law_modifier_words(code: u64)
    ensures
        (high_word(code) as u32) * 0x1_0000_0000 + (low_word(code) as u32) == code,
{
    assert((((code >> 32u64) & 0xFFFF_FFFF) as i32 as u32) * 0x1_0000_0000 + (((code
        & 0xFFFF_FFFF) as i32) as u32) == code) by (bit_vector);
}

/// Nothing of an unsigned attribute is lost in its signed form.
pub proof fn law_attribute_bits(value: u32)
    ensures
        (value as i32) as u32 == value,
{
    assert((value as i32) as u32 == value) by (bit_vector);
}

/// The list consists of names with their values and of an end mark behind
/// them, and no name in it is the end mark.
pub proof fn law_attribute_list_shape(buffer: BufferInfo, fd: i32)
    ensures
        attributes_of(buffer, fd).len() == if buffer.modified() {
            17nat
        } else {
            13nat
        },
        attributes_of(buffer, fd).last() == EGL_NONE,
        forall|i: int|
            0 <= i && 2 * i < attributes_of(buffer, fd).len() - 1 ==> #[trigger] attributes_of(
                buffer,
                fd,
            )[2 * i] != EGL_NONE,
{
}

} // verus!
