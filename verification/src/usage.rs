//! Buffer usage capabilities.
//!
//! A [`Usage`] value is a 16-bit bit-field whose nine named bits each grant
//! the buffer one independently selectable role. The value space is closed:
//! any bit outside the nine named ones is invalid input, and
//! [`Usage::from_bits`] rejects it.

use vstd::prelude::*;

verus! {

/// Bit for buffers usable as the source of a transfer (copy) operation.
pub const TRANSFER_SRC: u16 = 0x1;
/// Bit for buffers usable as the destination of a transfer (copy) operation.
pub const TRANSFER_DST: u16 = 0x2;
/// Bit for buffers usable as a uniform (constant) buffer.
pub const UNIFORM: u16 = 0x4;
/// Bit for buffers usable as a storage buffer.
pub const STORAGE: u16 = 0x8;
/// Bit for buffers usable as a uniform texel buffer.
pub const UNIFORM_TEXEL: u16 = 0x10;
/// Bit for buffers usable as a storage texel buffer.
pub const STORAGE_TEXEL: u16 = 0x20;
/// Bit for buffers usable as an index buffer.
pub const INDEX: u16 = 0x40;
/// Bit for buffers usable as the source of indirect draw commands.
pub const INDIRECT: u16 = 0x80;
/// Bit for buffers usable as a vertex buffer.
pub const VERTEX: u16 = 0x100;
/// Union of all nine named usage bits: exactly the valid usage values.
pub const USAGE_MASK: u16 = 0x1ff;

/// Declared set of operations a buffer resource is permitted to participate
/// in, as the union of named capability bits.
#[derive(Clone, Copy, Debug, PartialEq, Eq, Hash, Structural)]
pub struct Usage {
    bits: u16,
}

impl View for Usage {
    type V = u16;

    closed spec fn view(&self) -> u16 {
        self.bits
    }
}

/// True of exactly the nine named usage bits.
pub open spec fn is_usage_flag(bit: u16) -> bool {
    ||| bit == TRANSFER_SRC
    ||| bit == TRANSFER_DST
    ||| bit == UNIFORM
    ||| bit == STORAGE
    ||| bit == UNIFORM_TEXEL
    ||| bit == STORAGE_TEXEL
    ||| bit == INDEX
    ||| bit == INDIRECT
    ||| bit == VERTEX
}

impl Usage {
    /// A value is valid when it is built from named bits alone.
    pub open spec fn is_valid(self) -> bool {
        self@ & USAGE_MASK == self@
    }

    /// Whether the value grants transfer capability: it intersects
    /// {`TRANSFER_SRC`, `TRANSFER_DST`}.
    pub open spec fn spec_can_transfer(self) -> bool {
        self@ & (TRANSFER_SRC | TRANSFER_DST) != 0
    }

    /// The usage that grants no capability at all.
    pub fn empty() -> (u: Usage)
        ensures
            u@ == 0u16,
            u.is_valid(),
    {
        proof {
            assert(0u16 & USAGE_MASK == 0u16) by (bit_vector);
        }
        Usage { bits: 0 }
    }

    /// The usage granting every named capability.
    pub fn all() -> (u: Usage)
        ensures
            u@ == USAGE_MASK,
            u.is_valid(),
    {
        proof {
            assert(0x1ffu16 & 0x1ffu16 == 0x1ffu16) by (bit_vector);
        }
        Usage { bits: USAGE_MASK }
    }

    /// Builds a usage from raw bits, rejecting any bit outside the nine named
    /// ones.
    pub fn from_bits(bits: u16) -> (r: Option<Usage>)
        ensures
            match r {
                Some(u) => u@ == bits && u.is_valid(),
                None => bits & USAGE_MASK != bits,
            },
    {
        if bits & USAGE_MASK == bits {
            Some(Usage { bits })
        } else {
            None
        }
    }

    /// The raw bits of the value.
    pub fn bits(&self) -> (b: u16)
        ensures
            b == self@,
    {
        self.bits
    }

    /// The union of the capabilities of both values.
    pub fn union(self, other: Usage) -> (u: Usage)
        ensures
            u@ == self@ | other@,
            self.is_valid() && other.is_valid() ==> u.is_valid(),
    {
        proof {
            let a = self@;
            let b = other@;
            assert(a & USAGE_MASK == a && b & USAGE_MASK == b ==> (a | b) & USAGE_MASK == (a
                | b)) by (bit_vector);
        }
        Usage { bits: self.bits | other.bits }
    }

    /// The capabilities granted by both values at once.
    pub fn intersection(self, other: Usage) -> (u: Usage)
        ensures
            u@ == self@ & other@,
            self.is_valid() && other.is_valid() ==> u.is_valid(),
    {
        proof {
            let a = self@;
            let b = other@;
            assert(a & USAGE_MASK == a && b & USAGE_MASK == b ==> (a & b) & USAGE_MASK == (a
                & b)) by (bit_vector);
        }
        Usage { bits: self.bits & other.bits }
    }

    /// Whether every capability of `other` is also granted by `self`.
    pub fn contains(self, other: Usage) -> (b: bool)
        ensures
            b == (self@ & other@ == other@),
    {
        self.bits & other.bits == other.bits
    }

    /// Whether `self` and `other` grant at least one capability in common.
    pub fn intersects(self, other: Usage) -> (b: bool)
        ensures
            b == (self@ & other@ != 0),
    {
        self.bits & other.bits != 0
    }

    /// Can this buffer be used in transfer operations?
    pub fn can_transfer(&self) -> (b: bool)
        ensures
            b == self.spec_can_transfer(),
    {
        self.bits & (TRANSFER_SRC | TRANSFER_DST) != 0
    }
}

/// Bit independence: setting one named usage bit neither sets nor clears any
/// other named bit, so the nine capabilities can be granted in any
/// combination.
pub proof fn lemma_usage_bits_independent(bits: u16, set_bit: u16, other: u16)
    requires
        is_usage_flag(set_bit),
        is_usage_flag(other),
        set_bit != other,
    ensures
        (bits | set_bit) & other == bits & other,
{
    assert((bits | set_bit) & other == bits & other) by (bit_vector)
        requires
            is_usage_flag(set_bit),
            is_usage_flag(other),
            set_bit != other,
    ;
}

} // verus!
