//! Looking into the memory of processes.

use sentinelld::memory_scanner::patterns::{
    byte_counts, check_memory_patterns, entropy_sample, has_nop_sled,
};
use sentinelld::memory_scanner::regions::{
    region_name, untouched, BufferFinding, Region, RegionScan, RegionStep, MEM_COMMIT, MEM_IMAGE,
    PAGE_EXECUTE_READ, PAGE_EXECUTE_READWRITE,
};
use sentinelld::memory_scanner::{
    add_module, list_processes, MemoryScanBudget, MemorySeverity, MemoryTimeoutReason, ModuleInfo,
    ProcessInfo,
};

fn calculate_entropy(data: &[u8]) -> f64 {
    if data.is_empty() {
        return 0.0;
    }
    let len = data.len() as f64;
    let mut entropy = 0.0f64;
    for count in byte_counts(data) {
        if count > 0 {
            let p = count as f64 / len;
            entropy -= p * p.log2();
        }
    }
    entropy
}

/// The entropy of the sample in words, where it is high.
fn high_entropy(data: &[u8]) -> Option<String> {
    let n = entropy_sample(data.len())?;
    let entropy = calculate_entropy(&data[..n]);
    if entropy > 7.5 {
        Some(format!("{entropy:.2}"))
    } else {
        None
    }
}

fn info(pid: u32, name: &str, memory_mb: u64) -> Option<ProcessInfo> {
    Some(ProcessInfo { pid, name: name.to_string(), path: None, memory_mb })
}

#[test]
fn pe_header_detection() {
    let mut findings = Vec::new();
    let mut data = vec![0u8; 256];
    data[0] = 0x4D;
    data[1] = 0x5A;
    data[60] = 0x80;
    data[61] = 0x00;
    data[62] = 0x00;
    data[63] = 0x00;
    data[0x80] = 0x50;
    data[0x81] = 0x45;
    data[0x82] = 0x00;
    data[0x83] = 0x00;
    check_memory_patterns(&data, 0x10000, 256, None, &mut findings);
    assert_eq!(findings.len(), 1);
    assert!(findings[0].description.contains("PE header"));
}

#[test]
fn broken_pe_header_is_ignored() {
    let mut findings = Vec::new();
    let mut data = vec![0u8; 256];
    data[0] = 0x4D;
    data[1] = 0x5A;
    for i in 60..64 {
        data[i] = 0xFF;
    }
    check_memory_patterns(&data, 0, 256, None, &mut findings);
    assert!(findings.is_empty());
}

#[test]
fn nop_sled_detection() {
    let mut findings = Vec::new();
    let mut data = vec![0u8; 100];
    for b in data.iter_mut().take(40) {
        *b = 0x90;
    }
    check_memory_patterns(&data, 0x20000, 100, None, &mut findings);
    assert!(findings.iter().any(|f| f.description.contains("NOP sled")));
    let mut short = vec![0x90u8; 31];
    short.push(0);
    short.extend(vec![0x90u8; 31]);
    assert!(!has_nop_sled(&short));
}

#[test]
fn clean_memory_no_findings() {
    let mut findings = Vec::new();
    let data = vec![0xCC; 256];
    check_memory_patterns(&data, 0x30000, 256, None, &mut findings);
    assert!(findings.is_empty());
}

#[test]
fn list_processes_returns_something() {
    let procs = list_processes(vec![
        info(0, "idle", 1),
        info(4, "System", 10),
        info(8, "", 99),
        None,
        info(16, "b", 50),
        info(20, "c", 10),
    ]);
    assert!(!procs.is_empty(), "Should find running processes");
    let order: Vec<u32> = procs.iter().map(|p| p.pid).collect();
    assert_eq!(order, vec![16, 4, 20]);
}

#[test]
fn reflective_loader_detection() {
    let mut findings = Vec::new();
    let mut data = vec![0u8; 256];
    data[10..26].copy_from_slice(b"ReflectiveLoader");
    check_memory_patterns(&data, 0x40000, 256, None, &mut findings);
    assert!(findings.iter().any(|f| f.description.contains("Reflective DLL")));
}

#[test]
fn api_resolution_detection() {
    let mut findings = Vec::new();
    let mut data = vec![0u8; 1024];
    data[10..22].copy_from_slice(b"kernel32.dll");
    data[100..112].copy_from_slice(b"VirtualAlloc");
    data[200..214].copy_from_slice(b"GetProcAddress");
    let entropy = high_entropy(&data);
    check_memory_patterns(&data, 0x50000, 1024, entropy.as_deref(), &mut findings);
    assert!(findings.iter().any(|f| f.description.contains("API resolution")));
    assert!(findings[0].description.contains("(3/5 common APIs"));
}

#[test]
fn process_hollowing_detection() {
    let mut findings = Vec::new();
    let mut data = vec![0u8; 256];
    data[10..30].copy_from_slice(b"NtUnmapViewOfSection");
    check_memory_patterns(&data, 0x60000, 256, None, &mut findings);
    assert!(findings.iter().any(|f| f.description.contains("hollowing")));
}

#[test]
fn entropy_calculation() {
    let zeros = vec![0u8; 1024];
    assert!(calculate_entropy(&zeros) < 0.01);
    let random: Vec<u8> = (0..1024).map(|i| (i * 37 + 13) as u8).collect();
    assert!(calculate_entropy(&random) > 6.0);
    assert_eq!(byte_counts(&zeros)[0], 1024);
    assert_eq!(entropy_sample(1023), None);
    assert_eq!(entropy_sample(70_000), Some(65_536));
}

#[test]
fn high_entropy_detection() {
    let mut findings = Vec::new();
    let data: Vec<u8> = (0..4096).map(|i| ((i * 251 + 97) % 256) as u8).collect();
    let entropy = high_entropy(&data);
    check_memory_patterns(&data, 0x70000, 4096, entropy.as_deref(), &mut findings);
    assert!(findings.iter().any(|f| f.description.contains("entropy")));
    assert!(findings[0].description.contains("(8.00)"));
}

fn scan_of(pid: u32) -> RegionScan {
    RegionScan::begin(pid, 1, MemoryScanBudget::default(), None, Vec::new()).expect("not itself")
}

#[test]
fn self_process_skipped() {
    assert!(RegionScan::begin(7, 7, MemoryScanBudget::default(), None, Vec::new()).is_none());
    let result = untouched(7, true, 0);
    assert_eq!(result.regions_scanned, 0);
    assert!(result.findings.is_empty());
    assert!(result.errors.is_empty());
    let result = untouched(4, false, 0);
    assert_eq!(result.errors, vec!["Memory scanning only supported on Windows".to_string()]);
}

#[test]
fn cancelled_scan_stops() {
    let mut scan = scan_of(4);
    assert!(!scan.before_query(true, 0));
    let result = scan.finish(3);
    assert!(matches!(result.skip_reasons[0], MemoryTimeoutReason::Cancelled));
    assert_eq!(result.regions_scanned, 0);
    let mut scan = scan_of(4);
    scan.access_denied();
    assert_eq!(scan.result.access_denied_count, 1);
    assert!(matches!(scan.result.skip_reasons[0], MemoryTimeoutReason::AccessDenied));
}

#[test]
fn walk_reads_executable_regions() {
    let mut scan = scan_of(4);
    assert!(scan.before_query(false, 0));
    let data_region =
        Region { base: 0, size: 4096, state: MEM_COMMIT, protect: 0x04, kind: MEM_IMAGE };
    assert_eq!(scan.see_region(Some(data_region)), RegionStep::Pass);
    assert!(scan.advance(&data_region));
    let code = Region {
        base: 0x10000,
        size: 8192,
        state: MEM_COMMIT,
        protect: PAGE_EXECUTE_READWRITE,
        kind: 0x20000,
    };
    assert!(scan.before_query(false, 1));
    assert_eq!(scan.see_region(Some(code)), RegionStep::Read(8192));
    assert_eq!(scan.result.findings.len(), 2);
    assert!(scan.result.findings[0].description.starts_with("RWX memory region (8 KB)"));
    assert!(scan.result.findings[1].description.starts_with("Unbacked executable memory (8 KB)"));
    let found = vec![BufferFinding {
        description: "packed".to_string(),
        weight: 15,
        technical_detail: Some("rule".to_string()),
    }];
    scan.take_in(&code, &vec![0xCCu8; 100], &found, None);
    assert_eq!(scan.result.bytes_scanned, 100);
    assert_eq!(scan.result.findings[2].severity, MemorySeverity::Malicious);
    assert_eq!(scan.result.findings[2].yara_rule.as_deref(), Some("rule"));
    assert!(scan.advance(&code));
    assert_eq!(scan.address, 0x12000);
    // A region that ends before the address leads nowhere.
    assert!(scan.before_query(false, 1));
    assert_eq!(scan.see_region(Some(data_region)), RegionStep::Pass);
    assert!(!scan.advance(&data_region));
    assert_eq!(region_name(4, 0x7ff0_0000), "pid4:0x7ff00000");
}

#[test]
fn walk_respects_its_budget() {
    let budget = MemoryScanBudget {
        max_region_size_mb: 1,
        max_total_scan_mb: 1,
        max_regions_per_process: 2,
        timeout_secs: 30,
    };
    let mut scan = RegionScan::begin(4, 1, budget, None, Vec::new()).expect("not itself");
    let large = Region {
        base: 0x1000,
        size: 2 << 20,
        state: MEM_COMMIT,
        protect: PAGE_EXECUTE_READ,
        kind: MEM_IMAGE,
    };
    assert!(scan.before_query(false, 0));
    assert_eq!(scan.see_region(Some(large)), RegionStep::Read(1 << 20));
    assert_eq!(scan.result.skip_reasons, vec![MemoryTimeoutReason::RegionTooLarge]);
    scan.take_in(&large, &vec![0u8; 16], &vec![], None);
    assert!(scan.advance(&large));
    assert!(!scan.before_query(false, 30));
    assert!(scan.before_query(false, 29));
    assert_eq!(scan.see_region(Some(large)), RegionStep::Stop);
    assert_eq!(scan.result.errors, vec!["Max scan bytes reached — stopping".to_string()]);
    assert!(!scan.before_query(false, 0));
    assert_eq!(
        scan.result.skip_reasons.last(),
        Some(&MemoryTimeoutReason::RegionLimitReached)
    );
    let mut failed = scan_of(4);
    assert!(failed.before_query(false, 0));
    assert_eq!(failed.see_region(Some(large)), RegionStep::Read(2 << 20));
    failed.take_in(&large, &[], &vec![], None);
    assert_eq!(failed.result.skip_reasons, vec![MemoryTimeoutReason::ReadFailed]);
    assert_eq!(failed.see_region(None), RegionStep::Stop);
}

#[test]
fn budget_defaults_are_sane() {
    let b = MemoryScanBudget::default();
    assert_eq!(b.max_region_size_mb, 64);
    assert_eq!(b.max_total_scan_mb, 256);
    assert_eq!(b.max_regions_per_process, 512);
    assert_eq!(b.timeout_secs, 30);
}

#[test]
fn module_info_fields() {
    let m = ModuleInfo {
        name: "test.dll".into(),
        path: "C:\\test.dll".into(),
        base_address: 0x7FF00000,
        size: 4096,
    };
    assert_eq!(m.name, "test.dll");
    assert_eq!(m.size, 4096);
    let mut modules = Vec::new();
    assert!(add_module(&mut modules, m));
}
