use crate::status::DriverError;
use vstd::prelude::*;

verus! {

/// Flag bits of a memory descriptor: the region is already mapped
/// into kernel space, or backed by nonpaged pool (and so always
/// kernel-visible).
pub const MDL_MAPPED_TO_SYSTEM_VA: u16 = 0x0001;
pub const MDL_SOURCE_IS_NONPAGED_POOL: u16 = 0x0004;

/// How resolving a direct-transfer buffer ended: the region is
/// kernel-addressable, or the platform could not map it (no virtual
/// address space available).
#[derive(Clone, Copy, PartialEq, Eq, Debug)]
pub enum MappingOutcome {
    Mapped,
    Exhausted,
}

/// True when a descriptor with these flags already carries a
/// kernel-visible mapping, so resolution reuses it instead of paying
/// for a new one. Mapping on demand is needed only when neither flag
/// is set.
pub open spec fn mapping_reusable_spec(mdl_flags: u16) -> bool {
    mdl_flags & (MDL_MAPPED_TO_SYSTEM_VA | MDL_SOURCE_IS_NONPAGED_POOL) != 0
}

/// The reuse-or-map decision of buffer resolution.
pub fn mapping_reusable(mdl_flags: u16) -> (reusable: bool)
    ensures
        reusable == mapping_reusable_spec(mdl_flags),
{
    mdl_flags & (MDL_MAPPED_TO_SYSTEM_VA | MDL_SOURCE_IS_NONPAGED_POOL) != 0
}

/// The single length gate every handler routes through: a request
/// whose declared length is below the operation's minimum fails with
/// `BufferTooSmall`, and its buffer is never interpreted.
pub fn check_min_length(declared: u32, required_min: u32) -> (r: Result<(), DriverError>)
    ensures
        r is Ok <==> declared >= required_min,
        r is Err ==> r == Err::<(), DriverError>(DriverError::BufferTooSmall),
{
    if declared < required_min {
        Err(DriverError::BufferTooSmall)
    } else {
        Ok(())
    }
}

} // verus!
