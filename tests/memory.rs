use xlora_core::memory::{
    available_memory_from_vm_stat, parse_vm_stat, total_memory_from_sysctl, DeviceKind,
    MemorySource, MemoryUsage, PlatformQueryError, VmStatCounts,
};

const VM_STAT: &str = "Mach Virtual Memory Statistics: (page size of 16384 bytes)
Pages free:                               12345.
Pages active:                            500000.
Pages inactive:                           67890.
Pages speculative:                         1234.
Pages wired down:                        200000.
";

#[test]
fn vm_stat_figures_are_read() {
    let c = parse_vm_stat(VM_STAT).unwrap();
    assert_eq!(
        c,
        VmStatCounts { free_pages: 12345, inactive_pages: 67890, page_size: 16384 }
    );
}

#[test]
fn vm_stat_available_memory() {
    let v = available_memory_from_vm_stat(VM_STAT).unwrap();
    assert_eq!(v, (12345 + 67890) * 16384);
}

#[test]
fn vm_stat_without_page_size_gives_zero() {
    let out = "Pages free: 10.\nPages inactive: 20.\n";
    assert_eq!(available_memory_from_vm_stat(&out), Ok(0));
    let c = parse_vm_stat(&out).unwrap();
    assert_eq!(c.free_pages, 10);
    assert_eq!(c.inactive_pages, 20);
    assert_eq!(c.page_size, 0);
}

#[test]
fn vm_stat_empty_output_gives_zero() {
    assert_eq!(available_memory_from_vm_stat(""), Ok(0));
}

#[test]
fn vm_stat_last_line_without_newline() {
    let out = "Mach Virtual Memory Statistics: (page size of 4096 bytes)\r\nPages free: 3.";
    let c = parse_vm_stat(&out).unwrap();
    assert_eq!(c.page_size, 4096);
    assert_eq!(c.free_pages, 3);
    assert_eq!(available_memory_from_vm_stat(&out), Ok(3 * 4096));
}

#[test]
fn vm_stat_malformed_count_is_an_error() {
    let out = "Pages free: lots.\n";
    assert_eq!(parse_vm_stat(&out), Err(PlatformQueryError::Malformed));
}

#[test]
fn vm_stat_malformed_page_size_is_an_error() {
    let out = "Mach Virtual Memory Statistics: (page size of many bytes)\n";
    assert_eq!(
        available_memory_from_vm_stat(&out),
        Err(PlatformQueryError::Malformed)
    );
}

#[test]
fn vm_stat_count_too_large_is_an_error() {
    let out = "Pages free: 99999999999999999999999999.\n";
    assert_eq!(parse_vm_stat(&out), Err(PlatformQueryError::Malformed));
}

#[test]
fn vm_stat_product_overflow_is_an_error() {
    let out = format!(
        "Mach Virtual Memory Statistics: (page size of 16384 bytes)\nPages free: {}.\n",
        usize::MAX / 2
    );
    assert_eq!(
        available_memory_from_vm_stat(&out),
        Err(PlatformQueryError::Overflow)
    );
}

#[test]
fn sysctl_total_memory() {
    assert_eq!(total_memory_from_sysctl("hw.memsize: 17179869184\n"), Ok(17179869184));
}

#[test]
fn sysctl_without_label() {
    assert_eq!(total_memory_from_sysctl("  42  "), Ok(42));
}

#[test]
fn sysctl_accepts_plus_and_unicode_space() {
    assert_eq!(total_memory_from_sysctl("hw.memsize: +1024\u{a0}\n"), Ok(1024));
    assert_eq!(total_memory_from_sysctl("hw.memsize: hw.memsize: 7"), Ok(7));
}

#[test]
fn vm_stat_count_is_the_third_token() {
    let out = "Pages free: 10. extra\nPages inactive:\t+20\n";
    let c = parse_vm_stat(out).unwrap();
    assert_eq!(c.free_pages, 10);
    assert_eq!(c.inactive_pages, 20);
}

#[test]
fn vm_stat_line_without_count_is_skipped() {
    let out = "Pages free:\nPages inactive: 5.\n";
    let c = parse_vm_stat(out).unwrap();
    assert_eq!(c.free_pages, 0);
    assert_eq!(c.inactive_pages, 5);
}

#[test]
fn sysctl_garbage_is_an_error() {
    assert_eq!(
        total_memory_from_sysctl("sysctl: unknown oid 'hw.memsize'\n"),
        Err(PlatformQueryError::Malformed)
    );
    assert_eq!(total_memory_from_sysctl(""), Err(PlatformQueryError::Malformed));
}

#[test]
fn memory_sources_by_device() {
    let m = MemoryUsage;
    assert_eq!(m.available_memory_source(DeviceKind::Cpu), MemorySource::SystemInfo);
    assert_eq!(m.available_memory_source(DeviceKind::Metal), MemorySource::VmStat);
    assert_eq!(m.available_memory_source(DeviceKind::Cuda), MemorySource::Unsupported);
    assert_eq!(m.total_memory_source(DeviceKind::Cpu), MemorySource::SystemInfo);
    assert_eq!(m.total_memory_source(DeviceKind::Metal), MemorySource::Sysctl);
    assert_eq!(m.total_memory_source(DeviceKind::Cuda), MemorySource::Unsupported);
}

#[test]
fn system_bytes_fit() {
    assert_eq!(MemoryUsage.bytes_from_system(8_000_000_000), Ok(8_000_000_000));
}

#[test]
fn vm_stat_splits_on_unicode_white_space() {
    let out = "Pages free:\u{a0}12.\nPages inactive:\u{3000}\u{2009}8.\n";
    let c = parse_vm_stat(out).unwrap();
    assert_eq!(c.free_pages, 12);
    assert_eq!(c.inactive_pages, 8);
}
