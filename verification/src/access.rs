//! Buffer access and synchronization-state flags.
//!
//! An [`Access`] value is a 16-bit bit-field over twelve named bits in a
//! namespace disjoint from [`crate::usage::Usage`], describing the set of
//! memory-access types or pipeline stages a buffer is (or must be) exposed to
//! at a point in time. [`State`] is the semantic alias under which a buffer's
//! current synchronization state is recorded.

use vstd::prelude::*;

verus! {

/// Bit for reads performed by a transfer (copy) operation.
pub const TRANSFER_READ: u16 = 0x01;
/// Bit for writes performed by a transfer (copy) operation.
pub const TRANSFER_WRITE: u16 = 0x02;
/// Bit for index fetches performed by an indexed draw.
pub const INDEX_BUFFER_READ: u16 = 0x10;
/// Bit for vertex-attribute fetches performed by a draw.
pub const VERTEX_BUFFER_READ: u16 = 0x20;
/// Bit for constant (uniform) buffer fetches performed by a shader.
pub const CONSTANT_BUFFER_READ: u16 = 0x40;
/// Bit for command fetches performed by an indirect draw or dispatch.
pub const INDIRECT_COMMAND_READ: u16 = 0x80;
/// Bit for generic shader reads.
pub const SHADER_READ: u16 = 0x100;
/// Bit for generic shader writes.
pub const SHADER_WRITE: u16 = 0x200;
/// Bit for reads performed by the host.
pub const HOST_READ: u16 = 0x400;
/// Bit for writes performed by the host.
pub const HOST_WRITE: u16 = 0x800;
/// Bit for generic memory reads.
pub const MEMORY_READ: u16 = 0x1000;
/// Bit for generic memory writes.
pub const MEMORY_WRITE: u16 = 0x2000;
/// Union of all twelve named access bits: exactly the valid access values.
pub const ACCESS_MASK: u16 = 0x3ff3;

/// Set of memory-access types or pipeline stages a buffer is currently (or
/// must be) exposed to, as the union of named access bits.
#[derive(Clone, Copy, Debug, PartialEq, Eq, Hash, Structural)]
pub struct Access {
    bits: u16,
}

/// Buffer state: the access set a buffer is subject to at a point in time.
pub type State = Access;

impl View for Access {
    type V = u16;

    closed spec fn view(&self) -> u16 {
        self.bits
    }
}

impl Access {
    /// A value is valid when it is built from named bits alone.
    pub open spec fn is_valid(self) -> bool {
        self@ & ACCESS_MASK == self@
    }

    /// The access set naming no access at all.
    pub fn empty() -> (a: Access)
        ensures
            a@ == 0u16,
            a.is_valid(),
    {
        proof {
            assert(0u16 & ACCESS_MASK == 0u16) by (bit_vector);
        }
        Access { bits: 0 }
    }

    /// The access set naming every named access.
    pub fn all() -> (a: Access)
        ensures
            a@ == ACCESS_MASK,
            a.is_valid(),
    {
        proof {
            assert(0x3ff3u16 & 0x3ff3u16 == 0x3ff3u16) by (bit_vector);
        }
        Access { bits: ACCESS_MASK }
    }

    /// Builds an access set from raw bits, rejecting any bit outside the
    /// twelve named ones.
    pub fn from_bits(bits: u16) -> (r: Option<Access>)
        ensures
            match r {
                Some(a) => a@ == bits && a.is_valid(),
                None => bits & ACCESS_MASK != bits,
            },
    {
        if bits & ACCESS_MASK == bits {
            Some(Access { bits })
        } else {
            None
        }
    }

    /// The raw bits of the value.
    pub fn bits(&self) -> (b: u16)
        ensures
            b == self@,
    {
        self.bits
    }

    /// The union of the accesses of both values.
    pub fn union(self, other: Access) -> (a: Access)
        ensures
            a@ == self@ | other@,
            self.is_valid() && other.is_valid() ==> a.is_valid(),
    {
        proof {
            let x = self@;
            let y = other@;
            assert(x & ACCESS_MASK == x && y & ACCESS_MASK == y ==> (x | y) & ACCESS_MASK == (x
                | y)) by (bit_vector);
        }
        Access { bits: self.bits | other.bits }
    }

    /// The accesses named by both values at once.
    pub fn intersection(self, other: Access) -> (a: Access)
        ensures
            a@ == self@ & other@,
            self.is_valid() && other.is_valid() ==> a.is_valid(),
    {
        proof {
            let x = self@;
            let y = other@;
            assert(x & ACCESS_MASK == x && y & ACCESS_MASK == y ==> (x & y) & ACCESS_MASK == (x
                & y)) by (bit_vector);
        }
        Access { bits: self.bits & other.bits }
    }

    /// Whether every access of `other` is also named by `self`.
    pub fn contains(self, other: Access) -> (b: bool)
        ensures
            b == (self@ & other@ == other@),
    {
        self.bits & other.bits == other.bits
    }

    /// Whether `self` and `other` name at least one access in common.
    pub fn intersects(self, other: Access) -> (b: bool)
        ensures
            b == (self@ & other@ != 0),
    {
        self.bits & other.bits != 0
    }
}

} // verus!
