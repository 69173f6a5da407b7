use hardware_info::extract::{QueryFailure, QueryOutcome};
use hardware_info::record::{FieldValue, RawRecord};
use hardware_info::secondary::{sample_memory, MemoryShare};
use hardware_info::snapshot::{assemble, get_system_info, SystemInfo};

fn one(fields: Vec<(&str, FieldValue)>) -> QueryOutcome {
    let mut r = RawRecord::new();
    for (name, value) in fields {
        r.insert(name, value);
    }
    Ok(vec![r])
}

fn text(s: &str) -> FieldValue {
    FieldValue::Text(s.to_string())
}

fn parts(memory: (u64, u64), secondary: MemoryShare) -> SystemInfo {
    assemble(
        ("Sample CPU".to_string(), 8),
        memory,
        "Sample GPU".to_string(),
        ("Sample OS".to_string(), "10.0.1".to_string()),
        secondary,
    )
}

#[test]
fn assemble_keeps_primary_sizes() {
    let s = parts((17179869184, 15032385536), MemoryShare { used: 5, total: 9 });
    assert_eq!(s.cpu_name, "Sample CPU");
    assert_eq!(s.cpu_cores, 8);
    assert_eq!(s.memory_total, 17179869184);
    assert_eq!(s.memory_used, 15032385536);
    assert_eq!(s.memory_usage, MemoryShare { used: 15032385536, total: 17179869184 });
    assert_eq!(s.gpu_name, "Sample GPU");
    assert_eq!(s.gpu_usage, 0);
    assert_eq!(s.os_name, "Sample OS");
    assert_eq!(s.os_version, "10.0.1");
}

#[test]
fn assemble_takes_secondary_when_total_is_zero() {
    let s = parts((0, 0), MemoryShare { used: 5, total: 9 });
    assert_eq!(s.memory_total, 9);
    assert_eq!(s.memory_used, 5);
    assert_eq!(s.memory_usage, MemoryShare { used: 5, total: 9 });
}

#[test]
fn assemble_resolves_used_on_its_own() {
    let s = parts((2048, 0), MemoryShare { used: 5000, total: 9000 });
    assert_eq!(s.memory_total, 2048);
    assert_eq!(s.memory_used, 5000);
    assert_eq!(s.memory_usage, MemoryShare { used: 0, total: 2048 });
}

#[test]
fn assemble_with_both_sources_empty() {
    let s = parts((0, 0), MemoryShare { used: 0, total: 0 });
    assert_eq!(s.memory_total, 0);
    assert_eq!(s.memory_used, 0);
    assert_eq!(s.memory_usage, MemoryShare { used: 0, total: 0 });
}

#[test]
fn gpu_usage_is_always_zero() {
    for memory in [(0u64, 0u64), (10, 0), (10, 4)] {
        assert_eq!(parts(memory, MemoryShare { used: 1, total: 2 }).gpu_usage, 0);
    }
}

#[test]
fn unreachable_primary_gives_placeholders_and_secondary_sizes() {
    let system = sysinfo::System::new_all();
    for failure in [QueryFailure::Connection, QueryFailure::Query] {
        let q: QueryOutcome = Err(failure);
        let s = get_system_info(&system, &q, &q, &q, &q).unwrap();
        assert_eq!(s.cpu_name, "unknown CPU");
        assert_eq!(s.cpu_cores, 1);
        assert_eq!(s.gpu_name, "integrated graphics");
        assert_eq!(s.gpu_usage, 0);
        assert_eq!(s.os_name, "unknown");
        assert_eq!(s.os_version, "unknown");
        assert!(system.available_memory() <= system.total_memory());
        assert_eq!(s.memory_total, system.total_memory());
        assert_eq!(s.memory_used, system.used_memory());
        assert_eq!(
            s.memory_usage,
            MemoryShare { used: system.used_memory(), total: system.total_memory() }
        );
    }
}

#[test]
fn secondary_sample_reads_the_system() {
    let system = sysinfo::System::new_all();
    let m = sample_memory(&system);
    assert!(system.available_memory() <= system.total_memory());
    assert_eq!(m.total, system.total_memory());
    assert_eq!(m.used, system.used_memory());
    assert!(m.total > 0);
    assert_ne!(m.total, m.used);
}

#[test]
fn unrefreshed_system_holds_no_memory() {
    let system = sysinfo::System::new();
    let m = sample_memory(&system);
    assert_eq!(m, MemoryShare { used: 0, total: 0 });
}

#[test]
fn empty_cpu_name_and_zero_cores_get_defaults() {
    let system = sysinfo::System::new_all();
    let cpu = one(vec![("Name", text("")), ("NumberOfCores", FieldValue::UI4(0))]);
    let none: QueryOutcome = Ok(vec![]);
    let s = get_system_info(&system, &cpu, &none, &none, &none).unwrap();
    assert_eq!(s.cpu_name, "unknown CPU");
    assert_eq!(s.cpu_cores, 1);
}

#[test]
fn full_answers_give_full_snapshot() {
    let system = sysinfo::System::new_all();
    let cpu = one(vec![("Name", text("Sample CPU")), ("NumberOfCores", FieldValue::I4(8))]);
    let memory = one(vec![
        ("TotalPhysicalMemory", text("17179869184")),
        ("FreePhysicalMemory", FieldValue::UI4(2097152)),
    ]);
    let gpu = one(vec![("Name", text("Sample GPU"))]);
    let os = one(vec![("Caption", text("Sample OS")), ("Version", text("10.0.1"))]);
    let r = get_system_info(&system, &cpu, &memory, &gpu, &os);
    assert!(r.is_ok());
    let s = r.unwrap();
    assert_eq!(s.cpu_name, "Sample CPU");
    assert_eq!(s.cpu_cores, 8);
    assert_eq!(s.memory_total, 17179869184);
    assert_eq!(s.memory_used, 15032385536);
    assert_eq!(s.memory_usage, MemoryShare { used: 15032385536, total: 17179869184 });
    let percent = s.memory_usage.used as f32 / s.memory_usage.total as f32 * 100.0;
    assert!((percent - 87.5).abs() < 0.001);
    assert_eq!(s.gpu_name, "Sample GPU");
    assert_eq!(s.gpu_usage, 0);
    assert_eq!(s.os_name, "Sample OS");
    assert_eq!(s.os_version, "10.0.1");
}

#[test]
fn one_failed_query_leaves_the_others() {
    let system = sysinfo::System::new_all();
    let cpu = one(vec![("Name", text("Sample CPU")), ("NumberOfCores", FieldValue::UI4(4))]);
    let failed: QueryOutcome = Err(QueryFailure::Query);
    let os = one(vec![("Caption", text("Sample OS")), ("Version", text("10.0.1"))]);
    let s = get_system_info(&system, &cpu, &failed, &failed, &os).unwrap();
    assert_eq!(s.cpu_name, "Sample CPU");
    assert_eq!(s.cpu_cores, 4);
    assert_eq!(s.gpu_name, "integrated graphics");
    assert_eq!(s.os_name, "Sample OS");
    assert_eq!(s.memory_total, system.total_memory());
    assert_eq!(s.memory_used, system.used_memory());
}

#[test]
fn empty_gpu_answer_gives_integrated_graphics() {
    let system = sysinfo::System::new_all();
    let none: QueryOutcome = Ok(vec![]);
    let s = get_system_info(&system, &none, &none, &none, &none).unwrap();
    assert_eq!(s.gpu_name, "integrated graphics");
}

#[test]
fn repeated_calls_agree_on_static_fields() {
    let cpu = one(vec![("Name", text("Sample CPU")), ("NumberOfCores", FieldValue::I4(8))]);
    let gpu = one(vec![("Name", text("Sample GPU"))]);
    let os = one(vec![("Caption", text("Sample OS")), ("Version", text("10.0.1"))]);
    let memory_a = one(vec![("TotalPhysicalMemory", text("4096"))]);
    let memory_b: QueryOutcome = Err(QueryFailure::Connection);
    let a = get_system_info(&sysinfo::System::new_all(), &cpu, &memory_a, &gpu, &os).unwrap();
    let b = get_system_info(&sysinfo::System::new(), &cpu, &memory_b, &gpu, &os).unwrap();
    assert_eq!(a.cpu_name, b.cpu_name);
    assert_eq!(a.cpu_cores, b.cpu_cores);
    assert_eq!(a.gpu_name, b.gpu_name);
    assert_eq!(a.gpu_usage, b.gpu_usage);
    assert_eq!(a.os_name, b.os_name);
    assert_eq!(a.os_version, b.os_version);
}

#[test]
fn used_within_total_when_primary_gives_both() {
    let system = sysinfo::System::new_all();
    let none: QueryOutcome = Ok(vec![]);
    for (total, free) in [("4096", 1u32), ("17179869184", 2097152), ("1025", 1)] {
        let memory = one(vec![
            ("TotalPhysicalMemory", text(total)),
            ("FreePhysicalMemory", FieldValue::UI4(free)),
        ]);
        let s = get_system_info(&system, &none, &memory, &none, &none).unwrap();
        assert!(s.memory_total > 0);
        assert!(s.memory_used <= s.memory_total);
    }
}
