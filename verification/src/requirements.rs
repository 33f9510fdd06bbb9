//! Memory-requirement negotiation for an unbound buffer.
//!
//! The backend reports native [`Requirements`] for a buffer; when the
//! buffer's declared [`Usage`] permits transfer operations, the alignment is
//! widened to the device's minimum copy-offset alignment. The backend is
//! reached only through the narrow [`Device`] capability trait, whose two
//! queries are read-only oracles.

use crate::usage::Usage;
use vstd::prelude::*;

verus! {

/// Backend-reported constraints that a buffer's backing memory allocation
/// must satisfy.
#[derive(Clone, Copy, Debug, PartialEq, Eq, Hash, Structural)]
pub struct Requirements {
    /// Size of the allocation, in bytes.
    pub size: u64,
    /// Required alignment of the allocation's offset, in bytes.
    pub alignment: u64,
    /// Bit-mask of the memory types the allocation may come from.
    pub type_mask: u64,
}

/// Device limits consulted by the negotiation: backend- and
/// hardware-specific constraints queried from the device.
#[derive(Clone, Copy, Debug, PartialEq, Eq, Hash, Structural)]
pub struct Limits {
    /// Smallest alignment the device accepts for the offset of a buffer
    /// copy, in bytes.
    pub min_buffer_copy_offset_alignment: u64,
}

/// The narrow capability interface a backend device must offer to the
/// negotiation: exactly two read-only queries. `B` is the backend's opaque
/// unbound-buffer handle. Both queries take the device by exclusive
/// reference, as backends demand, but must leave it unchanged.
pub trait Device<B>: Sized {
    /// The requirements the device would report for `buffer`.
    spec fn spec_buffer_requirements(&self, buffer: &B) -> Requirements;

    /// The limits the device would report.
    spec fn spec_limits(&self) -> Limits;

    /// Queries the native memory requirements of an unbound buffer.
    fn get_buffer_requirements(&mut self, buffer: &B) -> (r: Requirements)
        ensures
            *final(self) == *old(self),
            r == old(self).spec_buffer_requirements(buffer),
    ;

    /// Queries the device's limits.
    fn get_limits(&mut self) -> (l: Limits)
        ensures
            *final(self) == *old(self),
            l == old(self).spec_limits(),
    ;
}

/// The negotiated requirements: the base requirements with the alignment
/// widened to the copy-offset limit when the usage permits transfer
/// operations, and unchanged otherwise.
pub open spec fn spec_complete_requirements(base: Requirements, usage: Usage, limits: Limits) -> Requirements {
    if usage.spec_can_transfer() {
        Requirements {
            size: base.size,
            alignment: if limits.min_buffer_copy_offset_alignment >= base.alignment {
                limits.min_buffer_copy_offset_alignment
            } else {
                base.alignment
            },
            type_mask: base.type_mask,
        }
    } else {
        base
    }
}

/// Retrieve the complete memory requirements for this buffer, taking usage
/// and device limits into account.
///
/// The result is determined by the device's (unchanged) state, the buffer
/// and the usage; the alignment is only ever widened, never narrowed, and
/// size and memory-type mask pass through untouched.
pub fn complete_requirements<B, D: Device<B>>(device: &mut D, buffer: &B, usage: Usage) -> (r:
    Requirements)
    ensures
        *final(device) == *old(device),
        r == spec_complete_requirements(
            old(device).spec_buffer_requirements(buffer),
            usage,
            old(device).spec_limits(),
        ),
        r.alignment >= old(device).spec_buffer_requirements(buffer).alignment,
        r.size == old(device).spec_buffer_requirements(buffer).size,
        r.type_mask == old(device).spec_buffer_requirements(buffer).type_mask,
{
    let mut requirements = device.get_buffer_requirements(buffer);
    if usage.can_transfer() {
        let limits = device.get_limits();
        if limits.min_buffer_copy_offset_alignment >= requirements.alignment {
            requirements.alignment = limits.min_buffer_copy_offset_alignment;
        }
    }
    requirements
}

/// Alignment negotiation, stated arithmetically: with transfer capability the
/// negotiated alignment is exactly `max` of the base alignment and the
/// copy-offset limit; without it the requirements come back unchanged.
pub proof fn lemma_complete_requirements_alignment(base: Requirements, usage: Usage, limits: Limits)
    ensures
        usage.spec_can_transfer() ==> spec_complete_requirements(base, usage, limits).alignment
            == vstd::math::max(base.alignment as int, limits.min_buffer_copy_offset_alignment as int),
        !usage.spec_can_transfer() ==> spec_complete_requirements(base, usage, limits) == base,
{
}

/// Calling the negotiation twice with identical inputs yields identical
/// results: both queries are read-only, so the second call sees the same
/// device state as the first.
pub fn complete_requirements_twice<B, D: Device<B>>(device: &mut D, buffer: &B, usage: Usage) -> (pair: (
    Requirements,
    Requirements,
))
    ensures
        pair.0 == pair.1,
        *final(device) == *old(device),
{
    let first = complete_requirements(device, buffer, usage);
    let second = complete_requirements(device, buffer, usage);
    (first, second)
}

/// A side-effect-free device returning fixed answers, against which the
/// negotiation logic can be exercised without any real backend.
#[derive(Clone, Copy, Debug, PartialEq, Eq, Hash, Structural)]
pub struct StubDevice {
    /// The requirements the stub reports for every buffer.
    pub requirements: Requirements,
    /// The limits the stub reports.
    pub limits: Limits,
}

impl<B> Device<B> for StubDevice {
    open spec fn spec_buffer_requirements(&self, buffer: &B) -> Requirements {
        self.requirements
    }

    open spec fn spec_limits(&self) -> Limits {
        self.limits
    }

    fn get_buffer_requirements(&mut self, buffer: &B) -> (r: Requirements) {
        self.requirements
    }

    fn get_limits(&mut self) -> (l: Limits) {
        self.limits
    }
}

} // verus!
