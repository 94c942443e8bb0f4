//! Bit masks of the per-drawable flags.
//!
//! The engine hands these back as raw bytes, so a value of either type may
//! carry bits that no mask defines; `is_valid` tells such values apart.
use vstd::prelude::*;

verus! {

/// Bit masks for the static drawable flags.
#[derive(Clone, Copy, Debug, PartialEq, Eq, Structural, Hash)]
pub struct ConstantFlags {
    /// The raw byte as the engine stores it.
    pub bits: u8,
}

/// Every bit that a [`ConstantFlags`] mask defines.
pub const CONSTANT_FLAGS_ALL: u8 = 0x01 | 0x02 | 0x04 | 0x08;

/// Every bit that a [`DynamicFlags`] mask defines.
pub const DYNAMIC_FLAGS_ALL: u8 = 0x01 | 0x02 | 0x04 | 0x08 | 0x10 | 0x20;

/// `true` when `bits` sets no bit outside `all`.
pub open spec fn only_bits_of(bits: u8, all: u8) -> bool {
    bits & !all == 0
}

impl ConstantFlags {
    /// Additive blend mode mask.
    pub const BLEND_ADDITIVE: u8 = 0x01;
    /// Multiplicative blend mode mask.
    pub const BLEND_MULTIPLICATIVE: u8 = 0x02;
    /// Double-sidedness mask.
    pub const IS_DOUBLE_SIDED: u8 = 0x04;
    /// Inversion mode mask.
    pub const IS_INVERTED_MASK: u8 = 0x08;

    /// The raw byte.
    pub open spec fn spec_bits(self) -> u8 {
        self.bits
    }

    /// Whether only defined bits are set.
    pub open spec fn spec_is_valid(self) -> bool {
        only_bits_of(self.bits, CONSTANT_FLAGS_ALL)
    }

    /// Wraps a raw byte as it is, defined bits or not.
    pub fn from_bits_retain(bits: u8) -> (r: Self)
        ensures
            r.spec_bits() == bits,
    {
        ConstantFlags { bits }
    }

    /// Wraps a raw byte if it sets only defined bits.
    pub fn from_bits(bits: u8) -> (r: Option<Self>)
        ensures
            r == (if only_bits_of(bits, CONSTANT_FLAGS_ALL) {
                Some(ConstantFlags { bits })
            } else {
                None
            }),
    {
        let f = ConstantFlags { bits };
        if f.is_valid() {
            Some(f)
        } else {
            None
        }
    }

    /// The raw byte.
    pub fn bits(&self) -> (r: u8)
        ensures
            r == self.spec_bits(),
    {
        self.bits
    }

    /// No bit set.
    pub fn empty() -> (r: Self)
        ensures
            r.spec_bits() == 0,
    {
        ConstantFlags { bits: 0 }
    }

    /// All defined bits set.
    pub fn all() -> (r: Self)
        ensures
            r.spec_bits() == CONSTANT_FLAGS_ALL,
    {
        ConstantFlags { bits: CONSTANT_FLAGS_ALL }
    }

    /// Returns `true` if every bit of `mask` is set.
    pub fn contains(&self, mask: u8) -> (r: bool)
        ensures
            r == (self.bits & mask == mask),
    {
        self.bits & mask == mask
    }

    /// Returns `true` if no bit outside the defined masks is set.
    pub fn is_valid(&self) -> (r: bool)
        ensures
            r == self.spec_is_valid(),
    {
        (self.bits & !CONSTANT_FLAGS_ALL) == 0
    }
}

/// Bit masks for the dynamic drawable flags.
#[derive(Clone, Copy, Debug, PartialEq, Eq, Structural, Hash)]
pub struct DynamicFlags {
    /// The raw byte as the engine stores it.
    pub bits: u8,
}

impl DynamicFlags {
    /// A bit is set when the drawable is displayed.
    pub const IS_VISIBLE: u8 = 0x01;
    /// A bit is raised when `IS_VISIBLE` has been changed from the previous state.
    pub const VISIBILITY_DID_CHANGE: u8 = 0x02;
    /// A bit is raised when the opacity of a drawable has been changed.
    pub const OPACITY_DID_CHANGE: u8 = 0x04;
    /// A bit is raised when the draw order of a drawable has been changed.
    pub const DRAW_ORDER_DID_CHANGE: u8 = 0x08;
    /// A bit is raised when the rendering order of a drawable has been changed.
    pub const RENDER_ORDER_DID_CHANGE: u8 = 0x10;
    /// A bit is raised when the vertex positions of a drawable has been changed.
    pub const VERTEX_POSITIONS_DID_CHANGE: u8 = 0x20;

    /// The raw byte.
    pub open spec fn spec_bits(self) -> u8 {
        self.bits
    }

    /// Whether only defined bits are set.
    pub open spec fn spec_is_valid(self) -> bool {
        only_bits_of(self.bits, DYNAMIC_FLAGS_ALL)
    }

    /// Wraps a raw byte as it is, defined bits or not.
    pub fn from_bits_retain(bits: u8) -> (r: Self)
        ensures
            r.spec_bits() == bits,
    {
        DynamicFlags { bits }
    }

    /// Wraps a raw byte if it sets only defined bits.
    pub fn from_bits(bits: u8) -> (r: Option<Self>)
        ensures
            r == (if only_bits_of(bits, DYNAMIC_FLAGS_ALL) {
                Some(DynamicFlags { bits })
            } else {
                None
            }),
    {
        let f = DynamicFlags { bits };
        if f.is_valid() {
            Some(f)
        } else {
            None
        }
    }

    /// The raw byte.
    pub fn bits(&self) -> (r: u8)
        ensures
            r == self.spec_bits(),
    {
        self.bits
    }

    /// No bit set.
    pub fn empty() -> (r: Self)
        ensures
            r.spec_bits() == 0,
    {
        DynamicFlags { bits: 0 }
    }

    /// All defined bits set.
    pub fn all() -> (r: Self)
        ensures
            r.spec_bits() == DYNAMIC_FLAGS_ALL,
    {
        DynamicFlags { bits: DYNAMIC_FLAGS_ALL }
    }

    /// Returns `true` if every bit of `mask` is set.
    pub fn contains(&self, mask: u8) -> (r: bool)
        ensures
            r == (self.bits & mask == mask),
    {
        self.bits & mask == mask
    }

    /// Returns `true` if no bit outside the defined masks is set.
    pub fn is_valid(&self) -> (r: bool)
        ensures
            r == self.spec_is_valid(),
    {
        (self.bits & !DYNAMIC_FLAGS_ALL) == 0
    }
}

} // verus!
