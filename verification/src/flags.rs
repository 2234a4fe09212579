use vstd::prelude::*;

verus! {

/// The bit set of a message's flags, in Discord's encoding.
///
/// Any `u64` is a valid value: bits without a name are kept as they are,
/// so that union and difference never lose information.
#[derive(Clone, Copy, Debug, PartialEq, Eq, Structural)]
pub struct MessageFlags {
    bits: u64,
}

/// Bit of a reply that only the invoking user sees.
pub open spec fn ephemeral_bit() -> u64 {
    0x40
}

/// Bit that hides a message's embeds.
pub open spec fn suppress_embeds_bit() -> u64 {
    0x4
}

/// Bit that marks a message built from the second generation of components.
pub open spec fn components_v2_bit() -> u64 {
    0x8000
}

impl View for MessageFlags {
    type V = u64;

    open spec fn view(&self) -> u64 {
        self.spec_bits()
    }
}

impl MessageFlags {
    pub closed spec fn spec_bits(&self) -> u64 {
        self.bits
    }

    /// The flag set with exactly the given bits.
    pub fn from_bits_retain(bits: u64) -> (r: MessageFlags)
        ensures
            r@ == bits,
    {
        MessageFlags { bits }
    }

    /// The empty flag set.
    pub fn empty() -> (r: MessageFlags)
        ensures
            r@ == 0,
    {
        MessageFlags { bits: 0 }
    }

    /// The raw bits of this flag set.
    pub fn bits(&self) -> (r: u64)
        ensures
            r == self@,
    {
        self.bits
    }

    /// The flag that makes a reply visible to the invoking user only.
    pub fn ephemeral() -> (r: MessageFlags)
        ensures
            r@ == ephemeral_bit(),
    {
        MessageFlags { bits: 0x40 }
    }

    /// The flag that suppresses the embeds of a message.
    pub fn suppress_embeds() -> (r: MessageFlags)
        ensures
            r@ == suppress_embeds_bit(),
    {
        MessageFlags { bits: 0x4 }
    }

    /// The flag of messages laid out with the second generation of components.
    pub fn is_components_v2() -> (r: MessageFlags)
        ensures
            r@ == components_v2_bit(),
    {
        MessageFlags { bits: 0x8000 }
    }

    /// Every bit that is set in `self` or in `other`.
    pub fn union(self, other: MessageFlags) -> (r: MessageFlags)
        ensures
            r@ == self@ | other@,
    {
        MessageFlags { bits: self.bits | other.bits }
    }

    /// The bits of `self` that are not set in `other`.
    pub fn difference(self, other: MessageFlags) -> (r: MessageFlags)
        ensures
            r@ == self@ & !other@,
    {
        MessageFlags { bits: self.bits & !other.bits }
    }

    /// Whether every bit of `other` is set in `self`.
    pub fn contains(&self, other: MessageFlags) -> (r: bool)
        ensures
            r == (self@ & other@ == other@),
    {
        self.bits & other.bits == other.bits
    }
}

/// Which parts of an existing response an edit removes when the reply
/// leaves them unset.
#[derive(Clone, Copy, Debug, PartialEq, Eq, Structural)]
pub struct ClearFlags {
    pub mentions: bool,
    pub components: bool,
    pub content: bool,
    pub embeds: bool,
}

impl ClearFlags {
    /// No part is marked for removal.
    pub fn empty() -> (r: ClearFlags)
        ensures
            r == (ClearFlags { mentions: false, components: false, content: false, embeds: false }),
    {
        ClearFlags { mentions: false, components: false, content: false, embeds: false }
    }
}

} // verus!
