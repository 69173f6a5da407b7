//! The aggregator: merges the four extractors' results and the secondary
//! source's memory sizes into one snapshot.

use vstd::prelude::*;
use crate::extract::{
    first_record, first_text_or, cpu_cores_of, cpu_name_of, memory_of, get_cpu_info, get_gpu_info,
    get_memory_info, get_os_info, QueryOutcome, INTEGRATED_GRAPHICS, UNKNOWN_SYSTEM,
    UNKNOWN_VERSION,
};
use crate::secondary::{held_memory, sample_memory, MemoryShare};

verus! {

/// Hardware and operating-system facts at one instant.
///
/// Percentages are left to the caller: `memory_usage` holds the two sizes
/// whose quotient is the share of memory in use.
#[derive(Clone, Debug)]
pub struct SystemInfo {
    pub cpu_name: String,
    pub cpu_cores: usize,
    pub memory_total: u64,
    pub memory_used: u64,
    pub memory_usage: MemoryShare,
    pub gpu_name: String,
    pub gpu_usage: u32,
    pub os_name: String,
    pub os_version: String,
}

/// The mathematical value of a [`SystemInfo`].
pub struct SystemInfoView {
    pub cpu_name: Seq<char>,
    pub cpu_cores: usize,
    pub memory_total: u64,
    pub memory_used: u64,
    pub memory_usage: MemoryShare,
    pub gpu_name: Seq<char>,
    pub gpu_usage: u32,
    pub os_name: Seq<char>,
    pub os_version: Seq<char>,
}

impl View for SystemInfo {
    type V = SystemInfoView;

    open spec fn view(&self) -> SystemInfoView {
        SystemInfoView {
            cpu_name: self.cpu_name@,
            cpu_cores: self.cpu_cores,
            memory_total: self.memory_total,
            memory_used: self.memory_used,
            memory_usage: self.memory_usage,
            gpu_name: self.gpu_name@,
            gpu_usage: self.gpu_usage,
            os_name: self.os_name@,
            os_version: self.os_version@,
        }
    }
}

/// The sizes that the share of memory in use is derived from: the primary
/// source's where it gave a total, else the secondary source's.
pub open spec fn usage_basis(primary: (u64, u64), secondary: MemoryShare) -> MemoryShare {
    if primary.0 > 0 {
        MemoryShare { used: primary.1, total: primary.0 }
    } else {
        secondary
    }
}

/// The total that is reported: the primary source's unless it is 0.
pub open spec fn resolved_total(primary: (u64, u64), secondary: MemoryShare) -> u64 {
    if primary.0 > 0 {
        primary.0
    } else {
        secondary.total
    }
}

/// The used size that is reported: the primary source's unless it is 0.
pub open spec fn resolved_used(primary: (u64, u64), secondary: MemoryShare) -> u64 {
    if primary.1 > 0 {
        primary.1
    } else {
        secondary.used
    }
}

/// The snapshot that the extractors' results and the secondary source's
/// sizes make up.
pub open spec fn snapshot_of(
    cpu_name: Seq<char>,
    cpu_cores: usize,
    primary: (u64, u64),
    gpu_name: Seq<char>,
    os_name: Seq<char>,
    os_version: Seq<char>,
    secondary: MemoryShare,
) -> SystemInfoView {
    SystemInfoView {
        cpu_name,
        cpu_cores,
        memory_total: resolved_total(primary, secondary),
        memory_used: resolved_used(primary, secondary),
        memory_usage: usage_basis(primary, secondary),
        gpu_name,
        gpu_usage: 0,
        os_name,
        os_version,
    }
}

/// The snapshot that four query outcomes and the secondary source's sizes
/// lead to.
pub open spec fn system_info_of(
    cpu: QueryOutcome,
    memory: QueryOutcome,
    gpu: QueryOutcome,
    os: QueryOutcome,
    secondary: MemoryShare,
) -> SystemInfoView {
    snapshot_of(
        cpu_name_of(first_record(cpu)),
        cpu_cores_of(first_record(cpu)),
        memory_of(first_record(memory)),
        first_text_or(first_record(gpu), "Name"@, INTEGRATED_GRAPHICS@),
        first_text_or(first_record(os), "Caption"@, UNKNOWN_SYSTEM@),
        first_text_or(first_record(os), "Version"@, UNKNOWN_VERSION@),
        secondary,
    )
}

/// Merges the extractors' results with the secondary source's sizes.
///
/// `memory` is the primary source's total and used size; a total of 0
/// stands for "no data".
pub fn assemble(
    cpu: (String, usize),
    memory: (u64, u64),
    gpu_name: String,
    os: (String, String),
    secondary: MemoryShare,
) -> (r: SystemInfo)
    ensures
        r@ == snapshot_of(cpu.0@, cpu.1, memory, gpu_name@, os.0@, os.1@, secondary),
{
    let memory_usage = if memory.0 > 0 {
        MemoryShare { used: memory.1, total: memory.0 }
    } else {
        secondary
    };
    let memory_total: u64 = if memory.0 > 0 {
        memory.0
    } else {
        secondary.total
    };
    let memory_used: u64 = if memory.1 > 0 {
        memory.1
    } else {
        secondary.used
    };
    SystemInfo {
        cpu_name: cpu.0,
        cpu_cores: cpu.1,
        memory_total,
        memory_used,
        memory_usage,
        gpu_name,
        gpu_usage: 0,
        os_name: os.0,
        os_version: os.1,
    }
}

/// One snapshot from the answers to the four queries and the counters of
/// `system`.
///
/// Never fails: whatever an answer lacks is replaced by its placeholder,
/// and memory sizes that the primary source does not give come from
/// `system`.
pub fn get_system_info(
    system: &sysinfo::System,
    cpu: &QueryOutcome,
    memory: &QueryOutcome,
    gpu: &QueryOutcome,
    os: &QueryOutcome,
) -> (r: Result<SystemInfo, String>)
    ensures
        r is Ok,
        r.unwrap()@ == system_info_of(*cpu, *memory, *gpu, *os, held_memory(*system)),
        r.unwrap().gpu_usage == 0,
{
    let secondary = sample_memory(system);
    let cpu_info = get_cpu_info(cpu);
    let memory_info = get_memory_info(memory);
    let gpu_name = get_gpu_info(gpu);
    let os_info = get_os_info(os);
    Ok(assemble(cpu_info, memory_info, gpu_name, os_info, secondary))
}

} // verus!
