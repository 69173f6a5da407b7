//! The secondary source of memory sizes: the counters that a
//! `sysinfo::System` holds since it was last refreshed.

use vstd::prelude::*;

verus! {

/// `sysinfo::System`, opaque to the verifier: a set of counters read from
/// the operating system when the value was made or last refreshed.
#[verifier::external_type_specification]
#[verifier::external_body]
pub struct ExSystem(sysinfo::System);

/// The installed memory, in bytes, that a `System` holds.
pub uninterp spec fn held_total_memory(system: sysinfo::System) -> u64;

/// The memory in use, in bytes, that a `System` holds.
pub uninterp spec fn held_used_memory(system: sysinfo::System) -> u64;

/// The memory available for use, in bytes, that a `System` holds.
pub uninterp spec fn held_available_memory(system: sysinfo::System) -> u64;

/// `sysinfo::System::total_memory` hands out the size that the value
/// stored at its last refresh. It reads a field and nothing else, so the
/// result depends on the value alone; what the size is, is not stated.
pub assume_specification[ sysinfo::System::total_memory ](system: &sysinfo::System) -> (r: u64)
    ensures
        r == held_total_memory(*system),
;

/// `sysinfo::System::available_memory` hands out the available size that
/// the value stored at its last refresh. It reads a field and nothing
/// else; what the size is, is not stated.
pub assume_specification[ sysinfo::System::available_memory ](system: &sysinfo::System) -> (r:
    u64)
    ensures
        r == held_available_memory(*system),
;

/// `sysinfo::System::used_memory` computes the memory in use from the
/// counters that the value stored at its last refresh. On some platforms
/// it hands out a stored size; on others it subtracts the stored available
/// size from the stored total, which must not go below zero: hence the
/// `requires`. The result depends on the value alone; nothing is stated of
/// its size, nor that it stays within the total.
pub assume_specification[ sysinfo::System::used_memory ](system: &sysinfo::System) -> (r: u64)
    requires
        held_available_memory(*system) <= held_total_memory(*system),
    ensures
        r == held_used_memory(*system),
;

/// Memory in use out of a total, both in bytes and from one provider.
#[derive(Clone, Copy, Debug, PartialEq, Eq, Structural)]
pub struct MemoryShare {
    pub used: u64,
    pub total: u64,
}

/// What a `System` has to say about memory: its total, and its used
/// size where the counters are consistent. Counters that show more memory
/// available than installed leave nothing in use.
pub open spec fn held_memory(system: sysinfo::System) -> MemoryShare {
    MemoryShare {
        used: if held_available_memory(system) <= held_total_memory(system) {
            held_used_memory(system)
        } else {
            0
        },
        total: held_total_memory(system),
    }
}

/// Reads total and used memory from the counters of `system`.
///
/// The used size is asked for only where the available size is within the
/// total; otherwise it is reported as 0.
pub fn sample_memory(system: &sysinfo::System) -> (r: MemoryShare)
    ensures
        r == held_memory(*system),
{
    let total: u64 = system.total_memory();
    let used: u64 = if system.available_memory() <= total {
        system.used_memory()
    } else {
        0
    };
    MemoryShare { used, total }
}

} // verus!
