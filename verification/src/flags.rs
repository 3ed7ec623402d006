//! The flag word of a buffer header.

use vstd::prelude::*;

verus! {

/// A set of buffer flags, kept as the 32-bit word that crosses the boundary.
///
/// The four low bits are named. The remaining twenty-eight form the error mask,
/// so every bit of the word belongs to some flag.
#[derive(Debug, Clone, Copy, PartialEq, Eq, Hash, Structural)]
pub struct SvtFlags {
    bits: u32,
}

impl View for SvtFlags {
    type V = u32;

    closed spec fn view(&self) -> u32 {
        self.bits
    }
}

/// Marks the end of the stream.
pub const BUFFERFLAG_EOS: u32 = 1;

/// The packet shows a frame that was coded earlier.
pub const BUFFERFLAG_SHOW_EXT: u32 = 2;

/// The packet starts with a temporal delimiter.
pub const BUFFERFLAG_HAS_TD: u32 = 4;

/// The packet holds an alternate reference frame.
pub const BUFFERFLAG_IS_ALT_REF: u32 = 8;

/// The bits that report an error.
pub const BUFFERFLAG_ERROR_MASK: u32 = 0xFFFF_FFF0;

/// The union of all defined flags.
pub open spec fn all_bits() -> u32 {
    BUFFERFLAG_EOS | BUFFERFLAG_SHOW_EXT | BUFFERFLAG_HAS_TD | BUFFERFLAG_IS_ALT_REF
        | BUFFERFLAG_ERROR_MASK
}

/// Whether every bit set in `wanted` is also set in `word`.
pub open spec fn holds_all(word: u32, wanted: u32) -> bool {
    word & wanted == wanted
}

/// The defined flags together cover the whole word.
pub proof fn lemma_all_bits_full()
    ensures
        all_bits() == u32::MAX,
{
    assert(1u32 | 2u32 | 4u32 | 8u32 | 0xFFFF_FFF0u32 == 0xFFFF_FFFFu32) by (bit_vector);
}

/// No word has a bit outside the defined flags.
pub proof fn lemma_no_unknown_bits(word: u32)
    ensures
        word & !all_bits() == 0,
{
    assert(word & !(1u32 | 2u32 | 4u32 | 8u32 | 0xFFFF_FFF0u32) == 0) by (bit_vector);
}

impl SvtFlags {
    /// The set with no flag.
    pub fn empty() -> (flags: SvtFlags)
        ensures
            flags@ == 0,
    {
        SvtFlags { bits: 0 }
    }

    /// The set with every defined flag.
    pub fn all() -> (flags: SvtFlags)
        ensures
            flags@ == all_bits(),
            flags@ == u32::MAX,
    {
        proof {
            lemma_all_bits_full();
        }
        SvtFlags { bits: 0xFFFF_FFFF }
    }

    /// The set that holds exactly the bits of `bits`.
    pub fn from_bits_retain(bits: u32) -> (flags: SvtFlags)
        ensures
            flags@ == bits,
    {
        SvtFlags { bits }
    }

    /// The word that holds exactly the flags of this set.
    pub fn bits(&self) -> (bits: u32)
        ensures
            bits == self@,
    {
        self.bits
    }

    /// The set that a word stands for, or `None` where the word has a bit that
    /// no flag defines. The defined flags cover the word, so the answer is never
    /// `None`.
    pub fn from_bits(bits: u32) -> (flags: Option<SvtFlags>)
        ensures
            flags is Some <==> bits & !all_bits() == 0,
            flags is Some,
            flags->0@ == bits,
    {
        proof {
            lemma_no_unknown_bits(bits);
        }
        let known: u32 = BUFFERFLAG_EOS | BUFFERFLAG_SHOW_EXT | BUFFERFLAG_HAS_TD
            | BUFFERFLAG_IS_ALT_REF | BUFFERFLAG_ERROR_MASK;
        if bits & !known == 0 {
            Some(SvtFlags { bits })
        } else {
            None
        }
    }

    /// Whether no flag is set.
    pub fn is_empty(&self) -> (yes: bool)
        ensures
            yes <==> self@ == 0,
    {
        self.bits == 0
    }

    /// Whether every flag of `other` is set in this set.
    pub fn contains(&self, other: SvtFlags) -> (yes: bool)
        ensures
            yes <==> holds_all(self@, other@),
    {
        self.bits & other.bits == other.bits
    }
}

} // verus!
