//! Bit-flag sets. A set keeps the bits that its type names and no others.
use crate::sys;
use vstd::prelude::*;

verus! {

/// The bits of `raw` that `known` names.
pub open spec fn truncated(raw: u32, known: u32) -> u32 {
    raw & known
}

/// Whether `raw` holds no bit outside `known`.
pub open spec fn within(raw: u32, known: u32) -> bool {
    raw & !known == 0
}

/// Truncation keeps the named bits and drops the others; a mask that holds
/// only named bits is left as it is.
pub proof fn lemma_truncated(raw: u32, known: u32)
    ensures
        within(truncated(raw, known), known),
        within(raw, known) ==> truncated(raw, known) == raw,
        truncated(raw, known) == raw ==> within(raw, known),
        truncated(truncated(raw, known), known) == truncated(raw, known),
{
    assert((raw & known) & !known == 0) by (bit_vector);
    assert(raw & !known == 0 ==> raw & known == raw) by (bit_vector);
    assert(raw & known == raw ==> raw & !known == 0) by (bit_vector);
    assert((raw & known) & known == raw & known) by (bit_vector);
}

/// Whether every bit of `part` is set in `whole`.
pub open spec fn covers(whole: u32, part: u32) -> bool {
    whole & part == part
}

/// What a format can be used for.
#[derive(Clone, Copy, PartialEq, Eq, Debug, Default, Structural)]
pub struct FormatFeatureFlags {
    pub bits: u32,
}

impl FormatFeatureFlags {
    /// The union of the bits that this type names.
    pub open spec fn known() -> u32 {
        0x7FFF_FFFFu32
    }

    /// Whether the set holds named bits only.
    pub open spec fn wf(self) -> bool {
        within(self.bits, Self::known())
    }

    /// The set that a raw mask stands for: its named bits.
    pub open spec fn of_bits(raw: u32) -> Self {
        Self { bits: truncated(raw, Self::known()) }
    }

    /// The empty set.
    pub fn empty() -> (r: Self)
        ensures
            r.bits == 0,
            r.wf(),
    {
        assert(0u32 & !0x7FFF_FFFFu32 == 0) by (bit_vector);
        Self { bits: 0 }
    }

    /// The set of every named bit.
    pub fn all() -> (r: Self)
        ensures
            r.bits == Self::known(),
            r.wf(),
    {
        assert(0x7FFF_FFFFu32 & !0x7FFF_FFFFu32 == 0) by (bit_vector);
        Self { bits: 0x7FFF_FFFF }
    }

    /// The raw mask of the set.
    pub fn bits(&self) -> (r: u32)
        ensures
            r == self.bits,
    {
        self.bits
    }

    /// Reads a raw mask, refusing one that holds a bit without a name.
    pub fn from_bits(raw: u32) -> (r: Option<Self>)
        ensures
            within(raw, Self::known()) ==> r == Some(Self { bits: raw }),
            !within(raw, Self::known()) ==> r is None,
    {
        if raw & !0x7FFF_FFFFu32 == 0 {
            Some(Self { bits: raw })
        } else {
            None
        }
    }

    /// Reads a raw mask, dropping every bit without a name.
    pub fn from_bits_truncate(raw: u32) -> (r: Self)
        ensures
            r == Self::of_bits(raw),
            r.wf(),
    {
        proof {
            lemma_truncated(raw, Self::known());
        }
        Self { bits: raw & 0x7FFF_FFFFu32 }
    }

    /// Whether the set is empty.
    pub fn is_empty(&self) -> (r: bool)
        ensures
            r == (self.bits == 0),
    {
        self.bits == 0
    }

    /// Whether every bit of `other` is in the set.
    pub fn contains(&self, other: Self) -> (r: bool)
        ensures
            r == covers(self.bits, other.bits),
    {
        self.bits & other.bits == other.bits
    }

    /// The named bits are exactly the listed constants together.
    pub proof fn lemma_known_is_union()
        ensures
            Self::known() == sys::VK_FORMAT_FEATURE_SAMPLED_IMAGE_BIT
                | sys::VK_FORMAT_FEATURE_STORAGE_IMAGE_BIT
                | sys::VK_FORMAT_FEATURE_STORAGE_IMAGE_ATOMIC_BIT
                | sys::VK_FORMAT_FEATURE_UNIFORM_TEXEL_BUFFER_BIT
                | sys::VK_FORMAT_FEATURE_STORAGE_TEXEL_BUFFER_BIT
                | sys::VK_FORMAT_FEATURE_STORAGE_TEXEL_BUFFER_ATOMIC_BIT
                | sys::VK_FORMAT_FEATURE_VERTEX_BUFFER_BIT
                | sys::VK_FORMAT_FEATURE_COLOR_ATTACHMENT_BIT
                | sys::VK_FORMAT_FEATURE_COLOR_ATTACHMENT_BLEND_BIT
                | sys::VK_FORMAT_FEATURE_DEPTH_STENCIL_ATTACHMENT_BIT
                | sys::VK_FORMAT_FEATURE_BLIT_SRC_BIT
                | sys::VK_FORMAT_FEATURE_BLIT_DST_BIT
                | sys::VK_FORMAT_FEATURE_SAMPLED_IMAGE_FILTER_LINEAR_BIT
                | sys::VK_FORMAT_FEATURE_SAMPLED_IMAGE_FILTER_CUBIC_BIT_IMG
                | sys::VK_FORMAT_FEATURE_TRANSFER_SRC_BIT_KHR
                | sys::VK_FORMAT_FEATURE_TRANSFER_DST_BIT_KHR
                | sys::VK_FORMAT_FEATURE_SAMPLED_IMAGE_FILTER_MINMAX_BIT_EXT
                | sys::VK_FORMAT_FEATURE_FLAG_BITS_MAX_ENUM,
    {
        assert(0x7FFF_FFFFu32 == 0x00000001u32 | 0x00000002u32 | 0x00000004u32 | 0x00000008u32 | 0x00000010u32 | 0x00000020u32 | 0x00000040u32 | 0x00000080u32 | 0x00000100u32 | 0x00000200u32 | 0x00000400u32 | 0x00000800u32 | 0x00001000u32 | 0x00002000u32 | 0x00004000u32 | 0x00008000u32 | 0x00010000u32 | 0x7FFFFFFFu32) by (bit_vector);
    }

    /// A raw mask of named bits survives raw to semantic to raw, and every
    /// well-formed set survives semantic to raw to semantic. A mask with other
    /// bits loses exactly those.
    pub proof fn lemma_round_trip(raw: u32, set: Self)
        ensures
            within(raw, Self::known()) ==> Self::of_bits(raw).bits == raw,
            Self::of_bits(raw).bits == raw & Self::known(),
            set.wf() ==> Self::of_bits(set.bits) == set,
    {
        lemma_truncated(raw, Self::known());
        lemma_truncated(set.bits, Self::known());
    }
}

/// Options of a memory mapping.
#[derive(Clone, Copy, PartialEq, Eq, Debug, Default, Structural)]
pub struct MemoryMapFlags {
    pub bits: u32,
}

impl MemoryMapFlags {
    /// The union of the bits that this type names.
    pub open spec fn known() -> u32 {
        0x7FFF_FFFFu32
    }

    /// Whether the set holds named bits only.
    pub open spec fn wf(self) -> bool {
        within(self.bits, Self::known())
    }

    /// The set that a raw mask stands for: its named bits.
    pub open spec fn of_bits(raw: u32) -> Self {
        Self { bits: truncated(raw, Self::known()) }
    }

    /// The empty set.
    pub fn empty() -> (r: Self)
        ensures
            r.bits == 0,
            r.wf(),
    {
        assert(0u32 & !0x7FFF_FFFFu32 == 0) by (bit_vector);
        Self { bits: 0 }
    }

    /// The set of every named bit.
    pub fn all() -> (r: Self)
        ensures
            r.bits == Self::known(),
            r.wf(),
    {
        assert(0x7FFF_FFFFu32 & !0x7FFF_FFFFu32 == 0) by (bit_vector);
        Self { bits: 0x7FFF_FFFF }
    }

    /// The raw mask of the set.
    pub fn bits(&self) -> (r: u32)
        ensures
            r == self.bits,
    {
        self.bits
    }

    /// Reads a raw mask, refusing one that holds a bit without a name.
    pub fn from_bits(raw: u32) -> (r: Option<Self>)
        ensures
            within(raw, Self::known()) ==> r == Some(Self { bits: raw }),
            !within(raw, Self::known()) ==> r is None,
    {
        if raw & !0x7FFF_FFFFu32 == 0 {
            Some(Self { bits: raw })
        } else {
            None
        }
    }

    /// Reads a raw mask, dropping every bit without a name.
    pub fn from_bits_truncate(raw: u32) -> (r: Self)
        ensures
            r == Self::of_bits(raw),
            r.wf(),
    {
        proof {
            lemma_truncated(raw, Self::known());
        }
        Self { bits: raw & 0x7FFF_FFFFu32 }
    }

    /// Whether the set is empty.
    pub fn is_empty(&self) -> (r: bool)
        ensures
            r == (self.bits == 0),
    {
        self.bits == 0
    }

    /// Whether every bit of `other` is in the set.
    pub fn contains(&self, other: Self) -> (r: bool)
        ensures
            r == covers(self.bits, other.bits),
    {
        self.bits & other.bits == other.bits
    }

    /// The named bits are exactly the listed constants together.
    pub proof fn lemma_known_is_union()
        ensures
            Self::known() == sys::VK_MEMORY_MAP_FLAG_BITS_MAX_ENUM,
    {
        assert(0x7FFF_FFFFu32 == 0x7FFFFFFFu32) by (bit_vector);
    }

    /// A raw mask of named bits survives raw to semantic to raw, and every
    /// well-formed set survives semantic to raw to semantic. A mask with other
    /// bits loses exactly those.
    pub proof fn lemma_round_trip(raw: u32, set: Self)
        ensures
            within(raw, Self::known()) ==> Self::of_bits(raw).bits == raw,
            Self::of_bits(raw).bits == raw & Self::known(),
            set.wf() ==> Self::of_bits(set.bits) == set,
    {
        lemma_truncated(raw, Self::known());
        lemma_truncated(set.bits, Self::known());
    }
}

/// The aspects of an image.
#[derive(Clone, Copy, PartialEq, Eq, Debug, Default, Structural)]
pub struct ImageAspectFlags {
    pub bits: u32,
}

impl ImageAspectFlags {
    /// The union of the bits that this type names.
    pub open spec fn known() -> u32 {
        0x7FFF_FFFFu32
    }

    /// Whether the set holds named bits only.
    pub open spec fn wf(self) -> bool {
        within(self.bits, Self::known())
    }

    /// The set that a raw mask stands for: its named bits.
    pub open spec fn of_bits(raw: u32) -> Self {
        Self { bits: truncated(raw, Self::known()) }
    }

    /// The empty set.
    pub fn empty() -> (r: Self)
        ensures
            r.bits == 0,
            r.wf(),
    {
        assert(0u32 & !0x7FFF_FFFFu32 == 0) by (bit_vector);
        Self { bits: 0 }
    }

    /// The set of every named bit.
    pub fn all() -> (r: Self)
        ensures
            r.bits == Self::known(),
            r.wf(),
    {
        assert(0x7FFF_FFFFu32 & !0x7FFF_FFFFu32 == 0) by (bit_vector);
        Self { bits: 0x7FFF_FFFF }
    }

    /// The raw mask of the set.
    pub fn bits(&self) -> (r: u32)
        ensures
            r == self.bits,
    {
        self.bits
    }

    /// Reads a raw mask, refusing one that holds a bit without a name.
    pub fn from_bits(raw: u32) -> (r: Option<Self>)
        ensures
            within(raw, Self::known()) ==> r == Some(Self { bits: raw }),
            !within(raw, Self::known()) ==> r is None,
    {
        if raw & !0x7FFF_FFFFu32 == 0 {
            Some(Self { bits: raw })
        } else {
            None
        }
    }

    /// Reads a raw mask, dropping every bit without a name.
    pub fn from_bits_truncate(raw: u32) -> (r: Self)
        ensures
            r == Self::of_bits(raw),
            r.wf(),
    {
        proof {
            lemma_truncated(raw, Self::known());
        }
        Self { bits: raw & 0x7FFF_FFFFu32 }
    }

    /// Whether the set is empty.
    pub fn is_empty(&self) -> (r: bool)
        ensures
            r == (self.bits == 0),
    {
        self.bits == 0
    }

    /// Whether every bit of `other` is in the set.
    pub fn contains(&self, other: Self) -> (r: bool)
        ensures
            r == covers(self.bits, other.bits),
    {
        self.bits & other.bits == other.bits
    }

    /// The named bits are exactly the listed constants together.
    pub proof fn lemma_known_is_union()
        ensures
            Self::known() == sys::VK_IMAGE_ASPECT_COLOR_BIT
                | sys::VK_IMAGE_ASPECT_DEPTH_BIT
                | sys::VK_IMAGE_ASPECT_STENCIL_BIT
                | sys::VK_IMAGE_ASPECT_METADATA_BIT
                | sys::VK_IMAGE_ASPECT_FLAG_BITS_MAX_ENUM,
    {
        assert(0x7FFF_FFFFu32 == 0x00000001u32 | 0x00000002u32 | 0x00000004u32 | 0x00000008u32 | 0x7FFFFFFFu32) by (bit_vector);
    }

    /// A raw mask of named bits survives raw to semantic to raw, and every
    /// well-formed set survives semantic to raw to semantic. A mask with other
    /// bits loses exactly those.
    pub proof fn lemma_round_trip(raw: u32, set: Self)
        ensures
            within(raw, Self::known()) ==> Self::of_bits(raw).bits == raw,
            Self::of_bits(raw).bits == raw & Self::known(),
            set.wf() ==> Self::of_bits(set.bits) == set,
    {
        lemma_truncated(raw, Self::known());
        lemma_truncated(set.bits, Self::known());
    }
}

/// Sparse properties of an image format.
#[derive(Clone, Copy, PartialEq, Eq, Debug, Default, Structural)]
pub struct SparseImageFormatFlags {
    pub bits: u32,
}

impl SparseImageFormatFlags {
    /// The union of the bits that this type names.
    pub open spec fn known() -> u32 {
        0x7FFF_FFFFu32
    }

    /// Whether the set holds named bits only.
    pub open spec fn wf(self) -> bool {
        within(self.bits, Self::known())
    }

    /// The set that a raw mask stands for: its named bits.
    pub open spec fn of_bits(raw: u32) -> Self {
        Self { bits: truncated(raw, Self::known()) }
    }

    /// The empty set.
    pub fn empty() -> (r: Self)
        ensures
            r.bits == 0,
            r.wf(),
    {
        assert(0u32 & !0x7FFF_FFFFu32 == 0) by (bit_vector);
        Self { bits: 0 }
    }

    /// The set of every named bit.
    pub fn all() -> (r: Self)
        ensures
            r.bits == Self::known(),
            r.wf(),
    {
        assert(0x7FFF_FFFFu32 & !0x7FFF_FFFFu32 == 0) by (bit_vector);
        Self { bits: 0x7FFF_FFFF }
    }

    /// The raw mask of the set.
    pub fn bits(&self) -> (r: u32)
        ensures
            r == self.bits,
    {
        self.bits
    }

    /// Reads a raw mask, refusing one that holds a bit without a name.
    pub fn from_bits(raw: u32) -> (r: Option<Self>)
        ensures
            within(raw, Self::known()) ==> r == Some(Self { bits: raw }),
            !within(raw, Self::known()) ==> r is None,
    {
        if raw & !0x7FFF_FFFFu32 == 0 {
            Some(Self { bits: raw })
        } else {
            None
        }
    }

    /// Reads a raw mask, dropping every bit without a name.
    pub fn from_bits_truncate(raw: u32) -> (r: Self)
        ensures
            r == Self::of_bits(raw),
            r.wf(),
    {
        proof {
            lemma_truncated(raw, Self::known());
        }
        Self { bits: raw & 0x7FFF_FFFFu32 }
    }

    /// Whether the set is empty.
    pub fn is_empty(&self) -> (r: bool)
        ensures
            r == (self.bits == 0),
    {
        self.bits == 0
    }

    /// Whether every bit of `other` is in the set.
    pub fn contains(&self, other: Self) -> (r: bool)
        ensures
            r == covers(self.bits, other.bits),
    {
        self.bits & other.bits == other.bits
    }

    /// The named bits are exactly the listed constants together.
    pub proof fn lemma_known_is_union()
        ensures
            Self::known() == sys::VK_SPARSE_IMAGE_FORMAT_SINGLE_MIPTAIL_BIT
                | sys::VK_SPARSE_IMAGE_FORMAT_ALIGNED_MIP_SIZE_BIT
                | sys::VK_SPARSE_IMAGE_FORMAT_NONSTANDARD_BLOCK_SIZE_BIT
                | sys::VK_SPARSE_IMAGE_FORMAT_FLAG_BITS_MAX_ENUM,
    {
        assert(0x7FFF_FFFFu32 == 0x00000001u32 | 0x00000002u32 | 0x00000004u32 | 0x7FFFFFFFu32) by (bit_vector);
    }

    /// A raw mask of named bits survives raw to semantic to raw, and every
    /// well-formed set survives semantic to raw to semantic. A mask with other
    /// bits loses exactly those.
    pub proof fn lemma_round_trip(raw: u32, set: Self)
        ensures
            within(raw, Self::known()) ==> Self::of_bits(raw).bits == raw,
            Self::of_bits(raw).bits == raw & Self::known(),
            set.wf() ==> Self::of_bits(set.bits) == set,
    {
        lemma_truncated(raw, Self::known());
        lemma_truncated(set.bits, Self::known());
    }
}

/// How query results are written.
#[derive(Clone, Copy, PartialEq, Eq, Debug, Default, Structural)]
pub struct QueryResultFlags {
    pub bits: u32,
}

impl QueryResultFlags {
    /// The union of the bits that this type names.
    pub open spec fn known() -> u32 {
        0x7FFF_FFFFu32
    }

    /// Whether the set holds named bits only.
    pub open spec fn wf(self) -> bool {
        within(self.bits, Self::known())
    }

    /// The set that a raw mask stands for: its named bits.
    pub open spec fn of_bits(raw: u32) -> Self {
        Self { bits: truncated(raw, Self::known()) }
    }

    /// The empty set.
    pub fn empty() -> (r: Self)
        ensures
            r.bits == 0,
            r.wf(),
    {
        assert(0u32 & !0x7FFF_FFFFu32 == 0) by (bit_vector);
        Self { bits: 0 }
    }

    /// The set of every named bit.
    pub fn all() -> (r: Self)
        ensures
            r.bits == Self::known(),
            r.wf(),
    {
        assert(0x7FFF_FFFFu32 & !0x7FFF_FFFFu32 == 0) by (bit_vector);
        Self { bits: 0x7FFF_FFFF }
    }

    /// The raw mask of the set.
    pub fn bits(&self) -> (r: u32)
        ensures
            r == self.bits,
    {
        self.bits
    }

    /// Reads a raw mask, refusing one that holds a bit without a name.
    pub fn from_bits(raw: u32) -> (r: Option<Self>)
        ensures
            within(raw, Self::known()) ==> r == Some(Self { bits: raw }),
            !within(raw, Self::known()) ==> r is None,
    {
        if raw & !0x7FFF_FFFFu32 == 0 {
            Some(Self { bits: raw })
        } else {
            None
        }
    }

    /// Reads a raw mask, dropping every bit without a name.
    pub fn from_bits_truncate(raw: u32) -> (r: Self)
        ensures
            r == Self::of_bits(raw),
            r.wf(),
    {
        proof {
            lemma_truncated(raw, Self::known());
        }
        Self { bits: raw & 0x7FFF_FFFFu32 }
    }

    /// Whether the set is empty.
    pub fn is_empty(&self) -> (r: bool)
        ensures
            r == (self.bits == 0),
    {
        self.bits == 0
    }

    /// Whether every bit of `other` is in the set.
    pub fn contains(&self, other: Self) -> (r: bool)
        ensures
            r == covers(self.bits, other.bits),
    {
        self.bits & other.bits == other.bits
    }

    /// The named bits are exactly the listed constants together.
    pub proof fn lemma_known_is_union()
        ensures
            Self::known() == sys::VK_QUERY_RESULT_64_BIT
                | sys::VK_QUERY_RESULT_WAIT_BIT
                | sys::VK_QUERY_RESULT_WITH_AVAILABILITY_BIT
                | sys::VK_QUERY_RESULT_PARTIAL_BIT
                | sys::VK_QUERY_RESULT_FLAG_BITS_MAX_ENUM,
    {
        assert(0x7FFF_FFFFu32 == 0x00000001u32 | 0x00000002u32 | 0x00000004u32 | 0x00000008u32 | 0x7FFFFFFFu32) by (bit_vector);
    }

    /// A raw mask of named bits survives raw to semantic to raw, and every
    /// well-formed set survives semantic to raw to semantic. A mask with other
    /// bits loses exactly those.
    pub proof fn lemma_round_trip(raw: u32, set: Self)
        ensures
            within(raw, Self::known()) ==> Self::of_bits(raw).bits == raw,
            Self::of_bits(raw).bits == raw & Self::known(),
            set.wf() ==> Self::of_bits(set.bits) == set,
    {
        lemma_truncated(raw, Self::known());
        lemma_truncated(set.bits, Self::known());
    }
}

} // verus!
