//! What holds of every snapshot, stated over the spec functions of the
//! extractors and the aggregator.

use vstd::prelude::*;
use crate::extract::{
    cpu_cores_of, cpu_name_of, first_record, first_text_or, memory_of, QueryOutcome,
    RecordView, INTEGRATED_GRAPHICS, UNKNOWN_CPU, UNKNOWN_SYSTEM, UNKNOWN_VERSION,
};
use crate::secondary::MemoryShare;
use crate::snapshot::system_info_of;

verus! {

/// The core count is at least 1, whatever the answer holds.
pub proof fn lemma_cores_at_least_one(first: Option<RecordView>)
    ensures
        cpu_cores_of(first) >= 1,
{
}

/// The CPU name is never empty, whatever the answer holds.
pub proof fn lemma_cpu_name_never_empty(first: Option<RecordView>)
    ensures
        cpu_name_of(first).len() > 0,
{
    reveal_strlit("unknown CPU");
}

/// A query that failed, or whose answer is empty, gives every extractor's
/// defaults: the placeholders, one core, and no memory sizes.
pub proof fn lemma_no_answer_gives_defaults(outcome: QueryOutcome)
    requires
        outcome is Err || outcome.unwrap()@.len() == 0,
    ensures
        first_record(outcome) is None,
        cpu_name_of(first_record(outcome)) == UNKNOWN_CPU@,
        cpu_cores_of(first_record(outcome)) == 1,
        first_text_or(first_record(outcome), "Name"@, INTEGRATED_GRAPHICS@) == INTEGRATED_GRAPHICS@,
        first_text_or(first_record(outcome), "Caption"@, UNKNOWN_SYSTEM@) == UNKNOWN_SYSTEM@,
        first_text_or(first_record(outcome), "Version"@, UNKNOWN_VERSION@) == UNKNOWN_VERSION@,
        memory_of(first_record(outcome)) == (0u64, 0u64),
{
}

/// The memory extractor never reports more memory in use than in total.
pub proof fn lemma_used_within_total(first: Option<RecordView>)
    ensures
        memory_of(first).1 <= memory_of(first).0,
{
}

/// Where the primary source gives a used size other than 0, the snapshot
/// takes both sizes from it, and the used size stays within the total.
pub proof fn lemma_primary_sizes_ordered(
    cpu: QueryOutcome,
    memory: QueryOutcome,
    gpu: QueryOutcome,
    os: QueryOutcome,
    secondary: MemoryShare,
)
    requires
        memory_of(first_record(memory)).1 > 0,
    ensures
        system_info_of(cpu, memory, gpu, os, secondary).memory_total > 0,
        system_info_of(cpu, memory, gpu, os, secondary).memory_used <= system_info_of(
            cpu,
            memory,
            gpu,
            os,
            secondary,
        ).memory_total,
{
}

/// Where the primary source gives a total of 0, total, used size and the
/// basis of the share in use are the secondary source's.
pub proof fn lemma_zero_total_takes_secondary(
    cpu: QueryOutcome,
    memory: QueryOutcome,
    gpu: QueryOutcome,
    os: QueryOutcome,
    secondary: MemoryShare,
)
    requires
        memory_of(first_record(memory)).0 == 0,
    ensures
        system_info_of(cpu, memory, gpu, os, secondary).memory_total == secondary.total,
        system_info_of(cpu, memory, gpu, os, secondary).memory_used == secondary.used,
        system_info_of(cpu, memory, gpu, os, secondary).memory_usage == secondary,
{
}

/// GPU usage is 0 in every snapshot.
pub proof fn lemma_gpu_usage_zero(
    cpu: QueryOutcome,
    memory: QueryOutcome,
    gpu: QueryOutcome,
    os: QueryOutcome,
    secondary: MemoryShare,
)
    ensures
        system_info_of(cpu, memory, gpu, os, secondary).gpu_usage == 0,
{
}

/// Queries that all fail give every placeholder, one core, and memory
/// sizes from the secondary source alone.
pub proof fn lemma_failed_queries_give_placeholders(
    cpu: QueryOutcome,
    memory: QueryOutcome,
    gpu: QueryOutcome,
    os: QueryOutcome,
    secondary: MemoryShare,
)
    requires
        cpu is Err,
        memory is Err,
        gpu is Err,
        os is Err,
    ensures
        system_info_of(cpu, memory, gpu, os, secondary).cpu_name == UNKNOWN_CPU@,
        system_info_of(cpu, memory, gpu, os, secondary).cpu_cores == 1,
        system_info_of(cpu, memory, gpu, os, secondary).gpu_name == INTEGRATED_GRAPHICS@,
        system_info_of(cpu, memory, gpu, os, secondary).os_name == UNKNOWN_SYSTEM@,
        system_info_of(cpu, memory, gpu, os, secondary).os_version == UNKNOWN_VERSION@,
        system_info_of(cpu, memory, gpu, os, secondary).memory_total == secondary.total,
        system_info_of(cpu, memory, gpu, os, secondary).memory_used == secondary.used,
        system_info_of(cpu, memory, gpu, os, secondary).memory_usage == secondary,
{
}

/// Names, version and core count depend on the CPU, GPU and OS answers
/// alone: two snapshots from the same three answers agree on them,
/// whatever the memory answers and the counters were.
pub proof fn lemma_static_fields_ignore_counters(
    cpu: QueryOutcome,
    gpu: QueryOutcome,
    os: QueryOutcome,
    memory_a: QueryOutcome,
    secondary_a: MemoryShare,
    memory_b: QueryOutcome,
    secondary_b: MemoryShare,
)
    ensures
        ({
            let a = system_info_of(cpu, memory_a, gpu, os, secondary_a);
            let b = system_info_of(cpu, memory_b, gpu, os, secondary_b);
            &&& a.cpu_name == b.cpu_name
            &&& a.cpu_cores == b.cpu_cores
            &&& a.gpu_name == b.gpu_name
            &&& a.gpu_usage == b.gpu_usage
            &&& a.os_name == b.os_name
            &&& a.os_version == b.os_version
        }),
{
}

} // verus!
