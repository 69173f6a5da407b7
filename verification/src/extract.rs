//! The four extractors: each reads the first record of one query's answer
//! and substitutes a fixed placeholder for whatever the answer lacks.

use vstd::prelude::*;
use vstd::string::StringExecFns;
use crate::decimal::{decimal_u64, parse_u64};
use crate::record::{FieldValue, FieldValueView, RawRecord};

verus! {

/// The query that the CPU extractor's answer belongs to.
pub const CPU_QUERY: &'static str = "SELECT Name, NumberOfCores FROM Win32_Processor";

/// The query for memory sizes.
pub const MEMORY_QUERY: &'static str =
    "SELECT TotalPhysicalMemory, FreePhysicalMemory FROM Win32_ComputerSystem";

/// The query for video controllers; it leaves out controllers without a
/// name itself, so the extractor does no filtering.
pub const GPU_QUERY: &'static str =
    "SELECT Name FROM Win32_VideoController WHERE Name IS NOT NULL";

/// The query for the operating system's caption and version.
pub const OS_QUERY: &'static str = "SELECT Caption, Version FROM Win32_OperatingSystem";

/// Reported in place of a CPU name that could not be read.
pub const UNKNOWN_CPU: &'static str = "unknown CPU";

/// Reported in place of a GPU name that could not be read.
pub const INTEGRATED_GRAPHICS: &'static str = "integrated graphics";

/// Reported in place of an operating system name that could not be read.
pub const UNKNOWN_SYSTEM: &'static str = "unknown";

/// Reported in place of an operating system version that could not be read.
pub const UNKNOWN_VERSION: &'static str = "unknown";

/// Why a query has no answer.
#[derive(Clone, Copy, Debug, PartialEq, Eq)]
pub enum QueryFailure {
    /// The management interface could not be initialised or connected to.
    Connection,
    /// The query was rejected, or the interface was unreachable when it ran.
    Query,
}

/// What one query came back with.
pub type QueryOutcome = Result<Vec<RawRecord>, QueryFailure>;

/// A record as a mapping from field names to values.
pub type RecordView = Map<Seq<char>, FieldValueView>;

/// The only record an extractor consults: the first of the answer, if the
/// query has an answer and the answer is not empty.
pub open spec fn first_record(outcome: QueryOutcome) -> Option<RecordView> {
    match outcome {
        Ok(records) => if records@.len() > 0 {
            Some(records@[0]@)
        } else {
            None
        },
        Err(_) => None,
    }
}

/// The text of the field `key`, or `fallback` where the record has no such
/// field or the field is not text.
pub open spec fn text_or(record: RecordView, key: Seq<char>, fallback: Seq<char>) -> Seq<char> {
    if record.contains_key(key) {
        match record[key] {
            FieldValueView::Text(s) => s,
            _ => fallback,
        }
    } else {
        fallback
    }
}

/// The text of the field `key` of the first record, or `fallback`.
pub open spec fn first_text_or(
    first: Option<RecordView>,
    key: Seq<char>,
    fallback: Seq<char>,
) -> Seq<char> {
    match first {
        Some(record) => text_or(record, key, fallback),
        None => fallback,
    }
}

/// The CPU name of the first record: its `Name` where that is text and
/// not empty, else the placeholder.
pub open spec fn cpu_name_of(first: Option<RecordView>) -> Seq<char> {
    let name = first_text_or(first, "Name"@, UNKNOWN_CPU@);
    if name.len() > 0 {
        name
    } else {
        UNKNOWN_CPU@
    }
}

/// The core count of the first record: its `NumberOfCores` where that is a
/// 32-bit integer of either sign and at least 1, else 1.
pub open spec fn cpu_cores_of(first: Option<RecordView>) -> usize {
    match first {
        Some(record) => if record.contains_key("NumberOfCores"@) {
            match record["NumberOfCores"@] {
                FieldValueView::I4(n) => if n >= 1 {
                    n as usize
                } else {
                    1
                },
                FieldValueView::UI4(n) => if n >= 1 {
                    n as usize
                } else {
                    1
                },
                _ => 1,
            }
        } else {
            1
        },
        None => 1,
    }
}

/// Installed memory in bytes as a record gives it in either encoding:
/// `TotalPhysicalMemory` as an unsigned 64-bit integer or as text.
pub open spec fn installed_bytes_of(record: RecordView) -> u64 {
    if record.contains_key("TotalPhysicalMemory"@) {
        match record["TotalPhysicalMemory"@] {
            FieldValueView::UI8(n) => n,
            FieldValueView::Text(s) => count_from_text(s),
            _ => 0,
        }
    } else {
        0
    }
}

/// A byte or kilobyte count given as decimal text; 0 where the text is no
/// such count.
pub open spec fn count_from_text(s: Seq<char>) -> u64 {
    match decimal_u64(s) {
        Some(n) => n,
        None => 0,
    }
}

/// Installed memory in bytes: `TotalPhysicalMemory`, read from text only.
pub open spec fn total_bytes_of(record: RecordView) -> u64 {
    if record.contains_key("TotalPhysicalMemory"@) {
        match record["TotalPhysicalMemory"@] {
            FieldValueView::Text(s) => count_from_text(s),
            _ => 0,
        }
    } else {
        0
    }
}

/// Free memory in kilobytes: `FreePhysicalMemory`, read from text or from
/// an unsigned 32-bit integer.
pub open spec fn free_kilobytes_of(record: RecordView) -> u64 {
    if record.contains_key("FreePhysicalMemory"@) {
        match record["FreePhysicalMemory"@] {
            FieldValueView::Text(s) => count_from_text(s),
            FieldValueView::UI4(n) => n as u64,
            _ => 0,
        }
    } else {
        0
    }
}

/// Bytes in use: the total less the free kilobytes times 1024, and 0 where
/// more is free than there is in total.
pub open spec fn used_bytes(total: u64, free_kilobytes: u64) -> u64 {
    if free_kilobytes * 1024 <= total {
        (total - free_kilobytes * 1024) as u64
    } else {
        0
    }
}

/// Total and used memory of the first record; both 0 without one.
pub open spec fn memory_of(first: Option<RecordView>) -> (u64, u64) {
    match first {
        Some(record) => (
            total_bytes_of(record),
            used_bytes(total_bytes_of(record), free_kilobytes_of(record)),
        ),
        None => (0, 0),
    }
}

fn first_of<'a>(outcome: &'a QueryOutcome) -> (r: Option<&'a RawRecord>)
    ensures
        match r {
            Some(record) => first_record(*outcome) == Some(record@),
            None => first_record(*outcome) is None,
        },
{
    match outcome {
        Ok(records) => if records.len() > 0 {
            Some(&records[0])
        } else {
            None
        },
        Err(_) => None,
    }
}

fn text_field_or(record: &RawRecord, key: &str, fallback: &str) -> (r: String)
    ensures
        r@ == text_or(record@, key@, fallback@),
{
    match record.get(key) {
        Some(FieldValue::Text(s)) => s.clone(),
        _ => String::from_str(fallback),
    }
}

fn count_of_text(s: &String) -> (r: u64)
    ensures
        r == count_from_text(s@),
{
    match parse_u64(s.as_str()) {
        Some(n) => n,
        None => 0,
    }
}

/// Total memory less free memory, never below zero.
pub fn memory_in_use(total: u64, free_kilobytes: u64) -> (r: u64)
    ensures
        r == used_bytes(total, free_kilobytes),
        r <= total,
{
    if free_kilobytes > total / 1024 {
        0
    } else {
        total - free_kilobytes * 1024
    }
}

/// CPU name and core count from the answer to [`CPU_QUERY`].
///
/// Only the first record counts: processors of further sockets are not
/// added up. The name is never empty and the count never below 1.
pub fn get_cpu_info(outcome: &QueryOutcome) -> (r: (String, usize))
    ensures
        r.0@ == cpu_name_of(first_record(*outcome)),
        r.1 == cpu_cores_of(first_record(*outcome)),
        r.0@.len() > 0,
        r.1 >= 1,
{
    proof {
        reveal_strlit("unknown CPU");
    }
    match first_of(outcome) {
        Some(cpu) => {
            let found = text_field_or(cpu, "Name", UNKNOWN_CPU);
            let name = if found.as_str().is_empty() {
                String::from_str(UNKNOWN_CPU)
            } else {
                found
            };
            let cores: usize = match cpu.get("NumberOfCores") {
                Some(FieldValue::I4(n)) => if *n >= 1 {
                    *n as usize
                } else {
                    1
                },
                Some(FieldValue::UI4(n)) => if *n >= 1 {
                    *n as usize
                } else {
                    1
                },
                _ => 1,
            };
            (name, cores)
        },
        None => (String::from_str(UNKNOWN_CPU), 1),
    }
}

/// Installed memory in bytes from an answer that gives it as a number or
/// as text; `None` where the query failed or its answer is empty.
pub fn get_installed_memory(outcome: &QueryOutcome) -> (r: Option<u64>)
    ensures
        r == match first_record(*outcome) {
            Some(record) => Some(installed_bytes_of(record)),
            None => None,
        },
{
    match first_of(outcome) {
        Some(mem) => {
            let total: u64 = match mem.get("TotalPhysicalMemory") {
                Some(FieldValue::UI8(n)) => *n,
                Some(FieldValue::Text(s)) => count_of_text(s),
                _ => 0,
            };
            Some(total)
        },
        None => None,
    }
}

/// GPU name from the answer to [`GPU_QUERY`].
pub fn get_gpu_info(outcome: &QueryOutcome) -> (r: String)
    ensures
        r@ == first_text_or(first_record(*outcome), "Name"@, INTEGRATED_GRAPHICS@),
{
    match first_of(outcome) {
        Some(gpu) => text_field_or(gpu, "Name", INTEGRATED_GRAPHICS),
        None => String::from_str(INTEGRATED_GRAPHICS),
    }
}

/// Total and used memory in bytes from the answer to [`MEMORY_QUERY`].
///
/// A total of 0 says that the answer gave no usable size.
pub fn get_memory_info(outcome: &QueryOutcome) -> (r: (u64, u64))
    ensures
        r == memory_of(first_record(*outcome)),
        r.1 <= r.0,
{
    match first_of(outcome) {
        Some(mem) => {
            let total: u64 = match mem.get("TotalPhysicalMemory") {
                Some(FieldValue::Text(s)) => count_of_text(s),
                _ => 0,
            };
            let free_kb: u64 = match mem.get("FreePhysicalMemory") {
                Some(FieldValue::Text(s)) => count_of_text(s),
                Some(FieldValue::UI4(n)) => *n as u64,
                _ => 0,
            };
            (total, memory_in_use(total, free_kb))
        },
        None => (0, 0),
    }
}

/// Operating system name and version from the answer to [`OS_QUERY`].
pub fn get_os_info(outcome: &QueryOutcome) -> (r: (String, String))
    ensures
        r.0@ == first_text_or(first_record(*outcome), "Caption"@, UNKNOWN_SYSTEM@),
        r.1@ == first_text_or(first_record(*outcome), "Version"@, UNKNOWN_VERSION@),
{
    match first_of(outcome) {
        Some(os) => (
            text_field_or(os, "Caption", UNKNOWN_SYSTEM),
            text_field_or(os, "Version", UNKNOWN_VERSION),
        ),
        None => (String::from_str(UNKNOWN_SYSTEM), String::from_str(UNKNOWN_VERSION)),
    }
}

} // verus!
