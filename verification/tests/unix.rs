use host_stats::unix::{
    Kernel, MemoryCounters, Platform, Volume, DARWIN, KERN_OSRELEASE, LINUX, NAME_CAPACITY,
    SYSCTL_FAILED,
};
use host_stats::{
    Amount, DiskInfo, MemoryInfo, OsError, ResourceError, NO_COMPUTER_NAME, NO_DISK_INFO,
    NO_MEMORY_INFO, NO_OS_RELEASE,
};

fn written(text: &[u8]) -> Vec<u8> {
    let mut buffer = Platform::name_buffer();
    buffer[..text.len()].copy_from_slice(text);
    buffer
}

fn sysctl_failed() -> ResourceError {
    ResourceError::IO(OsError::Message("sysctl() failed".to_string()))
}

fn counters() -> MemoryCounters {
    MemoryCounters {
        status: 0,
        total: Amount { count: 8_589_934_592, unit: 1 },
        free: Amount { count: 1000, unit: 4096 },
        swap_total: Amount { count: 2_147_483_648, unit: 1 },
        swap_free: Amount { count: 1_073_742_000, unit: 1 },
    }
}

#[test]
fn unix_label_follows_the_kernel() {
    assert_eq!(Platform::os_type(Kernel::Linux), "Linux");
    assert_eq!(Platform::os_type(Kernel::Darwin), "Darwin");
    assert_eq!(Platform::os_type(Kernel::Linux), LINUX.to_string());
    assert_eq!(Platform::os_type(Kernel::Darwin), DARWIN.to_string());
}

#[test]
fn unix_cpu_count_is_at_least_one() {
    match Platform::cpu_stats() {
        Ok(stat) => assert!(stat.num_of_processors >= 1),
        Err(e) => assert_eq!(e, ResourceError::Generic("cannot get cpu information".to_string())),
    }
}

#[test]
fn release_query_is_named_by_two_numbers() {
    assert_eq!(KERN_OSRELEASE, [1, 2]);
}

#[test]
fn sysctl_outcome_is_told_by_zero() {
    assert_eq!(Platform::sysctl_outcome(0), Ok(()));
    assert_eq!(Platform::sysctl_outcome(-1), Err(sysctl_failed()));
    assert_eq!(Platform::sysctl_outcome(1), Err(sysctl_failed()));
    assert_eq!(SYSCTL_FAILED, "sysctl() failed");
}

#[test]
fn unix_name_buffer_is_256_zero_bytes() {
    let buffer = Platform::name_buffer();
    assert_eq!(buffer.len(), NAME_CAPACITY);
    assert_eq!(buffer.len(), 256);
    assert!(buffer.iter().all(|b| *b == 0));
}

#[test]
fn host_name_ends_at_the_first_zero_byte() {
    assert_eq!(Platform::computer_name(0, written(b"build-host")), Ok("build-host".to_string()));
    assert_eq!(
        Platform::computer_name(0, b"alpha\0beta\0gamma".to_vec()),
        Ok("alpha".to_string())
    );
}

#[test]
fn host_name_that_fills_the_buffer_is_kept_whole() {
    let buffer = vec![b'a'; 256];
    assert_eq!(Platform::computer_name(0, buffer), Ok("a".repeat(256)));
}

#[test]
fn host_name_is_decoded_as_utf8() {
    assert_eq!(
        Platform::computer_name(0, written("h\u{f4}te-\u{65e5}\u{672c}".as_bytes())),
        Ok("h\u{f4}te-\u{65e5}\u{672c}".to_string())
    );
}

#[test]
fn host_name_bytes_that_are_not_utf8_are_replaced() {
    assert_eq!(
        Platform::computer_name(0, written(b"ho\xffst")),
        Ok("ho\u{fffd}st".to_string())
    );
    assert_eq!(Platform::computer_name(0, written(b"\xc3")), Ok("\u{fffd}".to_string()));
}

#[test]
fn host_name_failures_are_one_error() {
    let refused = Err(ResourceError::Generic(NO_COMPUTER_NAME.to_string()));
    assert_eq!(Platform::computer_name(-1, written(b"build-host")), refused);
    assert_eq!(Platform::computer_name(1, written(b"build-host")), refused);
    assert_eq!(Platform::computer_name(0, written(b"")), refused);
    assert_eq!(Platform::computer_name(0, b"\0host".to_vec()), refused);
    assert_eq!(Platform::computer_name(0, Vec::new()), refused);
}

#[test]
fn unix_release_is_the_text_before_the_zero_byte() {
    assert_eq!(Platform::os_release(0, written(b"23.1.0")), Ok("23.1.0".to_string()));
    assert_eq!(
        Platform::os_release(0, written(b"6.18.44-generic")),
        Ok("6.18.44-generic".to_string())
    );
    assert_eq!(Platform::os_release(0, written(b"5.\xfe")), Ok("5.\u{fffd}".to_string()));
}

#[test]
fn unix_release_failures() {
    assert_eq!(Platform::os_release(-1, written(b"23.1.0")), Err(sysctl_failed()));
    assert_eq!(
        Platform::os_release(0, written(b"")),
        Err(ResourceError::Generic(NO_OS_RELEASE.to_string()))
    );
}

#[test]
fn unix_memory_is_given_in_kibibytes() {
    assert_eq!(
        Platform::memory_stats(&counters()),
        Ok(MemoryInfo {
            total: 8_388_608,
            free: 4000,
            avail: 0,
            buffers: 0,
            cached: 0,
            swap_total: 2_097_152,
            swap_free: 1_048_576,
        })
    );
}

#[test]
fn unix_memory_rounds_pages_down_to_kibibytes() {
    let reply = MemoryCounters { free: Amount { count: 3, unit: 512 }, ..counters() };
    assert_eq!(Platform::memory_stats(&reply).map(|m| m.free), Ok(1));
    let reply = MemoryCounters { free: Amount { count: 1 << 33, unit: 1 << 40 }, ..counters() };
    assert_eq!(Platform::memory_stats(&reply).map(|m| m.free), Ok(1 << 63));
    let reply = MemoryCounters { total: Amount { count: 2_097_152, unit: 4096 }, ..counters() };
    assert_eq!(Platform::memory_stats(&reply).map(|m| m.total), Ok(8_388_608));
}

#[test]
fn unix_memory_failures() {
    let refused = Err(ResourceError::Generic(NO_MEMORY_INFO.to_string()));
    let reply = MemoryCounters { status: -1, ..counters() };
    assert_eq!(Platform::memory_stats(&reply), Err(sysctl_failed()));
    let reply = MemoryCounters { total: Amount { count: 1023, unit: 1 }, ..counters() };
    assert_eq!(Platform::memory_stats(&reply), refused);
    let beyond = Amount { count: 1 << 34, unit: 1 << 40 };
    assert_eq!(Platform::memory_stats(&MemoryCounters { total: beyond, ..counters() }), refused);
    assert_eq!(Platform::memory_stats(&MemoryCounters { free: beyond, ..counters() }), refused);
    assert_eq!(
        Platform::memory_stats(&MemoryCounters { swap_total: beyond, ..counters() }),
        refused
    );
    assert_eq!(
        Platform::memory_stats(&MemoryCounters { swap_free: beyond, ..counters() }),
        refused
    );
}

#[test]
fn unix_disk_multiplies_block_size_by_block_counts() {
    let reply = Volume { status: 0, block_size: 4096, total_blocks: 61_035_156, free_blocks: 1000 };
    assert_eq!(
        Platform::disk_stats(&reply),
        Ok(DiskInfo { total: 249_999_998_976, free: 4_096_000 })
    );
}

#[test]
fn unix_disk_failures() {
    let reply = Volume { status: -1, block_size: 4096, total_blocks: 10, free_blocks: 1 };
    assert_eq!(Platform::disk_stats(&reply), Err(sysctl_failed()));
    let reply = Volume { status: 0, block_size: 1 << 32, total_blocks: 1 << 32, free_blocks: 1 };
    assert_eq!(
        Platform::disk_stats(&reply),
        Err(ResourceError::Generic(NO_DISK_INFO.to_string()))
    );
    let reply = Volume { status: 0, block_size: 1 << 32, total_blocks: 1, free_blocks: 1 << 32 };
    assert_eq!(
        Platform::disk_stats(&reply),
        Err(ResourceError::Generic(NO_DISK_INFO.to_string()))
    );
}
