//! Clamping a recommended heap size against the physical memory of the machine.
use vstd::prelude::*;

verus! {

/// Heap settings for a Java process, in megabytes.
#[derive(Debug, Clone, Copy, PartialEq, Eq, Structural)]
pub struct MemorySettings {
    pub maximum: u32,
}

/// The smallest heap, in megabytes, that a recommendation is ever clamped to.
pub const MINIMUM_HEAP_MB: u32 = 512;

/// Megabytes that are kept free for the system when the machine has more than this much memory.
pub const RESERVED_SYSTEM_MB: u32 = 2048;

/// Whole megabytes of a byte count, truncated to 32 bits as a `u32` cast does.
pub open spec fn total_ram_mb(total_memory_bytes: u64) -> u32 {
    (total_memory_bytes / 1048576) as u32
}

pub open spec fn min_u32(a: u32, b: u32) -> u32 {
    if a <= b { a } else { b }
}

pub open spec fn max_u32(a: u32, b: u32) -> u32 {
    if a >= b { a } else { b }
}

/// The heap size granted for a recommendation of `recommended_mb` on a machine with
/// `total_mb` megabytes of memory: `min(recommended, total - 2048)` on machines with more
/// than 2048 MB; on smaller machines, the recommendation capped at the whole memory (above
/// 512 MB) and raised to at least 512 MB.
pub open spec fn clamp_against_total_mb(recommended_mb: u32, total_mb: u32) -> u32 {
    if total_mb > RESERVED_SYSTEM_MB {
        min_u32(recommended_mb, (total_mb - RESERVED_SYSTEM_MB) as u32)
    } else if total_mb > MINIMUM_HEAP_MB {
        max_u32(min_u32(recommended_mb, total_mb), MINIMUM_HEAP_MB)
    } else {
        max_u32(recommended_mb, MINIMUM_HEAP_MB)
    }
}

/// The heap size granted for a recommendation on a machine that reports
/// `total_memory_bytes` bytes of memory.
pub open spec fn clamp_against_total_bytes(recommended_mb: u32, total_memory_bytes: u64) -> u32 {
    clamp_against_total_mb(recommended_mb, total_ram_mb(total_memory_bytes))
}

/// Clamps `recommended_mb` against a machine with `total_memory_bytes` bytes of memory:
/// `min(recommended, total - 2048)` when the machine has more than 2048 MB; otherwise at most
/// the whole memory (when above 512 MB) and at least 512 MB.
pub fn clamp_to_total_memory(recommended_mb: u32, total_memory_bytes: u64) -> (clamped: u32)
    ensures
        clamped == clamp_against_total_bytes(recommended_mb, total_memory_bytes),
{
    #[verifier::truncate]
    let total_ram_mb: u32 = (total_memory_bytes / (1024 * 1024)) as u32;
    if total_ram_mb > RESERVED_SYSTEM_MB {
        let max_safe: u32 = total_ram_mb - RESERVED_SYSTEM_MB;
        if recommended_mb <= max_safe { recommended_mb } else { max_safe }
    } else if total_ram_mb > MINIMUM_HEAP_MB {
        let capped: u32 = if recommended_mb <= total_ram_mb { recommended_mb } else { total_ram_mb };
        if capped >= MINIMUM_HEAP_MB { capped } else { MINIMUM_HEAP_MB }
    } else {
        if recommended_mb >= MINIMUM_HEAP_MB { recommended_mb } else { MINIMUM_HEAP_MB }
    }
}

#[verifier::external_type_specification]
#[verifier::external_body]
pub struct ExSystem(sysinfo::System);

/// `sysinfo::System::new` builds an empty system snapshot, with nothing loaded yet.
/// Nothing is claimed of the snapshot.
pub assume_specification[ sysinfo::System::new ]() -> sysinfo::System;

/// `sysinfo::System::refresh_memory` reloads the memory figures of the snapshot.
/// Nothing is claimed of the new figures: they come from the machine.
pub assume_specification[ sysinfo::System::refresh_memory ](system: &mut sysinfo::System);

/// `sysinfo::System::total_memory` reports the machine's memory in bytes. The figure comes
/// from the machine, so nothing is claimed of it beyond its type.
pub assume_specification[ sysinfo::System::total_memory ](system: &sysinfo::System) -> u64;

/// Clamps a recommended heap size against the physical memory of this machine, as
/// `min(recommended, total - 2048)` on machines with more than 2048 MB.
/// The memory figure is the one `total_memory` reports for a snapshot made by
/// `System::new` and then loaded by `refresh_memory`; the result is the clamp against that
/// figure. It is at most the larger of the recommendation and 512 MB, and it is positive
/// when the recommendation is.
pub fn clamp_recommended_memory(recommended_mb: u32) -> (clamped: u32)
    ensures
        exists|created: sysinfo::System, refreshing: &mut sysinfo::System, total_memory_bytes: u64|
            {
                &&& call_ensures(sysinfo::System::new, (), created)
                &&& mut_ref_current(refreshing) == created
                &&& call_ensures(sysinfo::System::refresh_memory, (refreshing,), ())
                &&& call_ensures(
                    sysinfo::System::total_memory,
                    (&mut_ref_future(refreshing),),
                    total_memory_bytes,
                )
                &&& clamped == clamp_against_total_bytes(recommended_mb, total_memory_bytes)
            },
        exists|total_memory_bytes: u64|
            clamped == #[trigger] clamp_against_total_bytes(recommended_mb, total_memory_bytes),
        clamped <= max_u32(recommended_mb, MINIMUM_HEAP_MB),
        recommended_mb > 0 ==> clamped > 0,
{
    let mut system = sysinfo::System::new();
    system.refresh_memory();
    let total_memory_bytes: u64 = system.total_memory();
    clamp_to_total_memory(recommended_mb, total_memory_bytes)
}

/// On a machine with more than 2048 MB the grant is `min(recommended, total - 2048)`: the
/// system keeps 2048 MB, and a recommendation that fits is granted as it is. On smaller
/// machines the grant is at least 512 MB, and within the whole memory when that exceeds
/// 512 MB. Everywhere the grant is at most the larger of the recommendation and 512 MB, and
/// positive when the recommendation is.
pub proof fn law_clamp_bounds(recommended_mb: u32, total_mb: u32)
    ensures
        total_mb > RESERVED_SYSTEM_MB ==> clamp_against_total_mb(recommended_mb, total_mb)
            == (if recommended_mb + 2048 <= total_mb {
            recommended_mb as int
        } else {
            total_mb - 2048
        }),
        total_mb > RESERVED_SYSTEM_MB ==> clamp_against_total_mb(recommended_mb, total_mb)
            + RESERVED_SYSTEM_MB <= total_mb,
        recommended_mb + RESERVED_SYSTEM_MB < total_mb ==> clamp_against_total_mb(
            recommended_mb,
            total_mb,
        ) == recommended_mb,
        total_mb <= RESERVED_SYSTEM_MB ==> clamp_against_total_mb(recommended_mb, total_mb)
            >= MINIMUM_HEAP_MB,
        MINIMUM_HEAP_MB < total_mb ==> clamp_against_total_mb(recommended_mb, total_mb) <= total_mb,
        clamp_against_total_mb(recommended_mb, total_mb) <= max_u32(recommended_mb, MINIMUM_HEAP_MB),
        recommended_mb > 0 ==> clamp_against_total_mb(recommended_mb, total_mb) > 0,
{
}

/// The heap granted for a recommendation on this machine is the clamp against the memory
/// the machine reports once its memory figures are loaded: on a machine of more than
/// 2048 MB it is `min(recommended, total - 2048)` and leaves 2048 MB to the system; on a
/// smaller machine it is at least 512 MB.
pub proof fn law_machine_clamp(recommended_mb: u32, clamped: u32)
    requires
        call_ensures(clamp_recommended_memory, (recommended_mb,), clamped),
    ensures
        exists|refreshing: &mut sysinfo::System, total_memory_bytes: u64|
            {
                &&& call_ensures(sysinfo::System::refresh_memory, (refreshing,), ())
                &&& call_ensures(
                    sysinfo::System::total_memory,
                    (&mut_ref_future(refreshing),),
                    total_memory_bytes,
                )
                &&& ((total_memory_bytes / 1048576) as u32) > 2048 ==> {
                    &&& clamped == if recommended_mb + 2048 <= ((total_memory_bytes / 1048576) as u32) {
                        recommended_mb as int
                    } else {
                        ((total_memory_bytes / 1048576) as u32) - 2048
                    }
                    &&& clamped + 2048 <= ((total_memory_bytes / 1048576) as u32)
                }
                &&& ((total_memory_bytes / 1048576) as u32) <= 2048 ==> clamped >= 512
            },
{
}

/// A larger recommendation is never granted less heap on the same machine.
pub proof fn law_clamp_monotone(smaller_mb: u32, larger_mb: u32, total_mb: u32)
    requires
        smaller_mb <= larger_mb,
    ensures
        clamp_against_total_mb(smaller_mb, total_mb) <= clamp_against_total_mb(larger_mb, total_mb),
{
}

} // verus!
