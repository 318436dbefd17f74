use vstd::prelude::*;

verus! {

/// The test behind the memory warning: used memory of 90 or more (in the
/// units that the system reports) is critical.
pub fn memory_usage_is_critical(used_memory: u64) -> (r: bool)
    ensures
        r == (used_memory >= 90),
{
    used_memory >= 90
}

} // verus!
