use framework::memory::{
    host_memory_snapshot, is_low_ram, managed_heap_mib, memory_bytes_to_jlong, memory_class,
    memory_info, parse_kib_value, parse_meminfo,
    sysinfo_snapshot, MemorySnapshot, SysInfo, KIB, MIB,
};

#[test]
fn meminfo_parser_returns_kernel_values_in_bytes() {
    let snapshot = parse_meminfo(
        "MemTotal:       32423572 kB\nMemFree:          100000 kB\n\
         MemAvailable:   17081728 kB\nBuffers:           50000 kB\n",
    )
    .expect("valid meminfo must parse");
    assert_eq!(snapshot.total_bytes, 32_423_572 * KIB);
    assert_eq!(snapshot.available_bytes, 17_081_728 * KIB);
}

#[test]
fn meminfo_parser_rejects_missing_wrong_unit_and_overflow() {
    assert_eq!(parse_meminfo("MemTotal: 4 kB\n"), None);
    assert_eq!(
        parse_meminfo("MemTotal: 4096 MB\nMemAvailable: 2048 kB\n"),
        None
    );
    assert_eq!(
        parse_meminfo(&format!("MemTotal: {} kB\nMemAvailable: 1 kB\n", u64::MAX)),
        None
    );
}

#[test]
fn snapshot_clamps_available_and_classifies_low_ram() {
    let low = MemorySnapshot::new(512 * MIB, 900 * MIB).expect("non-zero total");
    assert_eq!(low.available_bytes, low.total_bytes);
    assert!(low.is_low_ram_device());

    let normal = MemorySnapshot::new(2 * 1024 * MIB, 1024 * MIB).expect("non-zero total");
    assert!(!normal.is_low_ram_device());
    assert_eq!(MemorySnapshot::new(0, 0), None);
}

#[test]
fn live_host_snapshot_is_nonzero_and_heap_class_matches_boot_plan() {
    let snapshot = host_memory_snapshot(
        Some("MemTotal:       32423572 kB\nMemAvailable:   17081728 kB\n"),
        None,
    )
    .expect("Linux must expose meminfo or sysinfo");
    assert!(snapshot.total_bytes >= snapshot.available_bytes);
    assert!(snapshot.total_bytes >= MIB);
    assert_eq!(managed_heap_mib(), 768);
}

#[test]
fn the_kernel_counters_stand_in_for_meminfo() {
    let info = SysInfo { total_ram: 1000, free_ram: 400, buffer_ram: 100, mem_unit: 0 };
    let counted = sysinfo_snapshot(info).expect("non-zero total");
    assert_eq!(counted.total_bytes, 1000);
    assert_eq!(counted.available_bytes, 500);
    assert_eq!(host_memory_snapshot(Some("nothing"), Some(info)), Some(counted));
    assert_eq!(host_memory_snapshot(None, None), None);
    let scaled = SysInfo { total_ram: 3, free_ram: 1, buffer_ram: 1, mem_unit: 4096 };
    assert_eq!(
        sysinfo_snapshot(scaled).map(|s| (s.total_bytes, s.available_bytes)),
        Some((12288, 8192))
    );
}

#[test]
fn values_are_read_in_kibibytes() {
    let line: Vec<char> = "MemTotal:  12 kB".chars().collect();
    assert_eq!(parse_kib_value(&line, "MemTotal:"), Some(12 * 1024));
    assert_eq!(parse_kib_value(&line, "MemFree:"), None);
    assert_eq!(memory_bytes_to_jlong(12), 12);
    assert_eq!(MemorySnapshot::new(5 * MIB + 7, 0).map(|s| s.total_mib()), Some(5));
}

#[test]
fn an_app_is_told_of_the_memory() {
    let snapshot = MemorySnapshot::new(4096, 1024).expect("non-zero total");
    let info = memory_info(snapshot);
    assert_eq!((info.total_mem, info.avail_mem), (4096, 1024));
    assert_eq!(info.threshold, 0);
    assert_eq!(info.foreground_app_threshold, 0);
    assert!(!info.low_memory);
    assert_eq!(memory_class(), 768);
    assert!(is_low_ram(Some(snapshot)));
    assert!(!is_low_ram(None));
}
