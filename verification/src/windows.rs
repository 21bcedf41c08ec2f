//! The Windows family: what goes into and what is made of the outcomes of
//! `GetDiskFreeSpaceW`, `GlobalMemoryStatusEx`, `GetVersionExW` and
//! `GetComputerNameW`.
//!
//! Each outcome is taken as the primitive left it: the value it returned,
//! what it wrote, and the thread's last error code read right after it.

use vstd::prelude::*;
use crate::text::{
    decode_utf16, dotted3, dotted_numeric, encode_utf16, lemma_dotted3_numeric, push_decimal,
    utf16,
};
use crate::{
    kib, logical_cpus, non_empty, to_kib, CpuInfo, DiskInfo, MemoryInfo, OsError, ResourceError,
    NO_COMPUTER_NAME, NO_CPU_INFO, NO_DISK_INFO, NO_MEMORY_INFO,
};

verus! {

/// Label of this family.
pub const OS_TYPE: &'static str = "Windows";

/// Longest computer name, in UTF-16 units, that a name buffer has room for.
pub const MAX_COMPUTERNAME_LENGTH: usize = 255;

/// The entry point of the Windows family. It holds nothing.
pub struct Platform;

/// Outcome of `GetDiskFreeSpaceW`.
#[derive(Debug, Clone, Copy)]
pub struct DiskSpace {
    /// The value returned; 1 reports success.
    pub status: i32,
    pub sectors_per_cluster: u32,
    pub bytes_per_sector: u32,
    pub free_clusters: u32,
    pub total_clusters: u32,
    /// The last error code, read after the call.
    pub last_error: i32,
}

/// Outcome of `GlobalMemoryStatusEx`: byte counts.
#[derive(Debug, Clone, Copy)]
pub struct MemoryStatus {
    /// The value returned; 1 reports success.
    pub status: i32,
    pub total_phys: u64,
    pub avail_phys: u64,
    pub total_page_file: u64,
    pub avail_page_file: u64,
    /// The last error code, read after the call.
    pub last_error: i32,
}

/// Outcome of `GetVersionExW`.
#[derive(Debug, Clone, Copy)]
pub struct OsVersion {
    /// The value returned; 1 reports success.
    pub status: i32,
    pub major: u32,
    pub minor: u32,
    pub build: u32,
    /// The last error code, read after the call.
    pub last_error: i32,
}

impl DiskSpace {
    /// Whether the call reported success.
    pub open spec fn succeeded(self) -> bool {
        self.status == 1
    }

    /// Size of a cluster in bytes.
    pub open spec fn bytes_per_cluster(self) -> int {
        self.sectors_per_cluster * self.bytes_per_sector
    }

    /// Size of the volume in bytes.
    pub open spec fn total_bytes(self) -> int {
        self.bytes_per_cluster() * self.total_clusters
    }

    /// Free space on the volume in bytes.
    pub open spec fn free_bytes(self) -> int {
        self.bytes_per_cluster() * self.free_clusters
    }

    /// Whether both byte counts fit the fields of a `DiskInfo`.
    pub open spec fn representable(self) -> bool {
        self.total_bytes() <= u64::MAX && self.free_bytes() <= u64::MAX
    }

    /// What a volume in working order reports: clusters of some size, at
    /// least one of them, and no more free ones than there are.
    pub open spec fn in_order(self) -> bool {
        &&& self.sectors_per_cluster > 0
        &&& self.bytes_per_sector > 0
        &&& self.total_clusters > 0
        &&& self.free_clusters <= self.total_clusters
    }
}

impl MemoryStatus {
    /// Whether the call reported success.
    pub open spec fn succeeded(self) -> bool {
        self.status == 1
    }

    /// The figures in kibibytes. The primitive tells nothing of available,
    /// buffer and cache memory, which are 0.
    pub open spec fn normalized(self) -> MemoryInfo {
        MemoryInfo {
            total: kib(self.total_phys as int) as u64,
            free: kib(self.avail_phys as int) as u64,
            avail: 0,
            buffers: 0,
            cached: 0,
            swap_total: kib(self.total_page_file as int) as u64,
            swap_free: kib(self.avail_page_file as int) as u64,
        }
    }
}

impl OsVersion {
    /// Whether the call reported success.
    pub open spec fn succeeded(self) -> bool {
        self.status == 1
    }

    /// The release text: major, minor and build number, each in decimal.
    pub open spec fn release(self) -> Seq<char> {
        dotted3(self.major as nat, self.minor as nat, self.build as nat)
    }
}

proof fn lemma_cluster_bytes(sectors: u32, bytes: u32)
    ensures
        0 <= sectors * bytes <= u64::MAX,
{
    assert(0 <= sectors * bytes <= 0xffff_ffff * 0xffff_ffff) by (nonlinear_arith)
        requires
            0 <= sectors <= 0xffff_ffff,
            0 <= bytes <= 0xffff_ffff,
    ;
}

proof fn lemma_in_order(per_cluster: int, free: int, total: int)
    requires
        per_cluster > 0,
        total > 0,
        0 <= free <= total,
    ensures
        per_cluster * total > 0,
        per_cluster * free <= per_cluster * total,
{
    assert(per_cluster * total > 0 && per_cluster * free <= per_cluster * total)
        by (nonlinear_arith)
        requires
            per_cluster > 0,
            total > 0,
            0 <= free <= total,
    ;
}

impl Platform {
    /// The path as `GetDiskFreeSpaceW` takes it: in UTF-16, with a zero
    /// after it.
    pub fn wide_path(path: &str) -> (wide: Vec<u16>)
        ensures
            wide@ == utf16(path@).push(0),
    {
        let mut wide = encode_utf16(path);
        wide.push(0);
        wide
    }

    /// Capacity of the volume that `reply` was read from.
    ///
    /// A cluster has `sectors_per_cluster * bytes_per_sector` bytes, and the
    /// volume as many bytes as its clusters have. A failed call gives the
    /// last error code, and counts too large for a `DiskInfo` give the
    /// `Generic` error.
    pub fn disk_stats(reply: &DiskSpace) -> (r: Result<DiskInfo, ResourceError>)
        ensures
            match r {
                Ok(disk) => {
                    &&& reply.succeeded()
                    &&& disk.total == reply.total_bytes()
                    &&& disk.free == reply.free_bytes()
                },
                Err(e) => if reply.succeeded() {
                    !reply.representable() && e.is_generic(NO_DISK_INFO@)
                } else {
                    e.is_os_code(reply.last_error)
                },
            },
            reply.succeeded() && reply.representable() && reply.in_order() ==> r is Ok
                && r->Ok_0.healthy(),
    {
        if reply.status != 1 {
            return Err(ResourceError::IO(OsError::Code(reply.last_error)));
        }
        proof {
            lemma_cluster_bytes(reply.sectors_per_cluster, reply.bytes_per_sector);
            if reply.in_order() {
                assert(reply.bytes_per_cluster() > 0) by (nonlinear_arith)
                    requires
                        reply.sectors_per_cluster > 0,
                        reply.bytes_per_sector > 0,
                        reply.bytes_per_cluster() == reply.sectors_per_cluster
                            * reply.bytes_per_sector,
                ;
                lemma_in_order(
                    reply.bytes_per_cluster(),
                    reply.free_clusters as int,
                    reply.total_clusters as int,
                );
            }
        }
        let per_cluster: u64 = reply.sectors_per_cluster as u64 * reply.bytes_per_sector as u64;
        let total = per_cluster.checked_mul(reply.total_clusters as u64);
        let free = per_cluster.checked_mul(reply.free_clusters as u64);
        match (total, free) {
            (Some(total), Some(free)) => Ok(DiskInfo { total, free }),
            _ => Err(ResourceError::generic(NO_DISK_INFO)),
        }
    }

    /// Memory usage in kibibytes, from the byte counts in `reply`.
    ///
    /// A failed call gives the last error code. A host without a whole
    /// kibibyte of memory gives the `Generic` error, so that a result
    /// always has a total above 0.
    pub fn memory_stats(reply: &MemoryStatus) -> (r: Result<MemoryInfo, ResourceError>)
        ensures
            match r {
                Ok(memory) => {
                    &&& reply.succeeded()
                    &&& kib(reply.total_phys as int) > 0
                    &&& memory == reply.normalized()
                },
                Err(e) => if reply.succeeded() {
                    kib(reply.total_phys as int) == 0 && e.is_generic(NO_MEMORY_INFO@)
                } else {
                    e.is_os_code(reply.last_error)
                },
            },
            r matches Ok(memory) ==> {
                &&& memory.total > 0
                &&& memory.avail == 0
                &&& memory.buffers == 0
                &&& memory.cached == 0
            },
    {
        if reply.status != 1 {
            return Err(ResourceError::IO(OsError::Code(reply.last_error)));
        }
        let total = to_kib(reply.total_phys);
        if total == 0 {
            return Err(ResourceError::generic(NO_MEMORY_INFO));
        }
        Ok(
            MemoryInfo {
                total,
                free: to_kib(reply.avail_phys),
                avail: 0,
                buffers: 0,
                cached: 0,
                swap_total: to_kib(reply.total_page_file),
                swap_free: to_kib(reply.avail_page_file),
            },
        )
    }

    /// The release as `major.minor.build`, each number in decimal. A failed
    /// call gives the last error code.
    pub fn os_release(reply: &OsVersion) -> (r: Result<String, ResourceError>)
        ensures
            match r {
                Ok(release) => reply.succeeded() && release@ == reply.release(),
                Err(e) => !reply.succeeded() && e.is_os_code(reply.last_error),
            },
            r matches Ok(release) ==> dotted_numeric(release@),
    {
        if reply.status != 1 {
            return Err(ResourceError::IO(OsError::Code(reply.last_error)));
        }
        let mut release = String::new();
        push_decimal(&mut release, reply.major);
        release.append(".");
        push_decimal(&mut release, reply.minor);
        release.append(".");
        push_decimal(&mut release, reply.build);
        proof {
            reveal_strlit(".");
            lemma_dotted3_numeric(reply.major as nat, reply.minor as nat, reply.build as nat);
        }
        Ok(release)
    }

    /// The label of this family. It reads nothing and cannot fail.
    pub fn os_type() -> (label: String)
        ensures
            label@ == OS_TYPE@,
    {
        String::from_str(OS_TYPE)
    }

    /// Reads the number of logical processors of this host.
    ///
    /// The count comes from the operating system, so no input decides
    /// whether one comes back; `CpuInfo::from_count` says what is made of
    /// each count.
    pub fn cpu_stats() -> (r: Result<CpuInfo, ResourceError>)
        ensures
            match r {
                Ok(cpu) => cpu.num_of_processors >= 1,
                Err(e) => e.is_generic(NO_CPU_INFO@),
            },
    {
        CpuInfo::from_count(logical_cpus())
    }

    /// A buffer for `GetComputerNameW`: room for the longest name and the
    /// zero after it, all zero.
    pub fn name_buffer() -> (buffer: Vec<u16>)
        ensures
            buffer@.len() == MAX_COMPUTERNAME_LENGTH + 1,
            forall|i: int| 0 <= i < buffer@.len() ==> buffer@[i] == 0,
    {
        vec![0u16; MAX_COMPUTERNAME_LENGTH + 1]
    }

    /// The computer name from an outcome of `GetComputerNameW`: `status` is
    /// the value returned, where 0 reports failure, `buffer` what was
    /// written, and `len` the number of units of the name as the call left
    /// it.
    ///
    /// The name is the text whose UTF-16 form the first `len` units are.
    /// A failed call, a length of 0 or beyond the buffer, and units that
    /// are the UTF-16 form of no text all give the same error.
    pub fn computer_name(status: i32, buffer: Vec<u16>, len: u32) -> (r: Result<
        String,
        ResourceError,
    >)
        ensures
            match r {
                Ok(name) => {
                    &&& status != 0
                    &&& 0 < len <= buffer@.len()
                    &&& utf16(name@) == buffer@.take(len as int)
                },
                Err(e) => {
                    &&& e.is_generic(NO_COMPUTER_NAME@)
                    &&& {
                        ||| status == 0
                        ||| len == 0
                        ||| len > buffer@.len()
                        ||| forall|s: Seq<char>| #[trigger] utf16(s) != buffer@.take(len as int)
                    }
                },
            },
            r matches Ok(name) ==> name@.len() > 0,
    {
        if status == 0 || len == 0 || len as usize > buffer.len() {
            return Err(ResourceError::generic(NO_COMPUTER_NAME));
        }
        let mut units = buffer;
        units.truncate(len as usize);
        assert(units@ =~= buffer@.take(len as int));
        match decode_utf16(&units) {
            Some(text) => non_empty(text, NO_COMPUTER_NAME),
            None => Err(ResourceError::generic(NO_COMPUTER_NAME)),
        }
    }
}

} // verus!
