//! The Unix family: what is made of the outcomes of `gethostname` and of
//! `sysctl` queries by numeric name.
//!
//! Each outcome is taken as the primitive left it: the value it returned,
//! where 0 reports success, and what it wrote.

use vstd::prelude::*;
use vstd::utf8::{decode_utf8, valid_utf8};
use crate::text::{c_string, decode_utf8_lossy, truncate_at_nul, utf8_lossy};
use crate::{
    logical_cpus, non_empty, Amount, CpuInfo, DiskInfo, MemoryInfo, OsError, ResourceError,
    NO_COMPUTER_NAME, NO_CPU_INFO, NO_DISK_INFO, NO_MEMORY_INFO, NO_OS_RELEASE,
};

verus! {

/// Label of the family on a Darwin kernel.
pub const DARWIN: &'static str = "Darwin";

/// Label of the family on any other kernel.
pub const LINUX: &'static str = "Linux";

/// Size in bytes of the buffer that a host name or a release is read into.
pub const NAME_CAPACITY: usize = 0x100;

/// Numeric name of the kernel's release text: `kern.osrelease`.
pub const KERN_OSRELEASE: [i32; 2] = [1, 2];

/// Description carried by the error for a failed `sysctl`.
pub const SYSCTL_FAILED: &'static str = "sysctl() failed";

/// The kernel that a build is made for.
#[derive(Debug, Clone, Copy, PartialEq, Eq)]
pub enum Kernel {
    Darwin,
    Linux,
}

/// The entry point of the Unix family. It holds nothing.
pub struct Platform;

/// Block counts of one filesystem, as queried.
#[derive(Debug, Clone, Copy)]
pub struct Volume {
    /// The value that the query returned.
    pub status: i32,
    /// Bytes in a block.
    pub block_size: u64,
    pub total_blocks: u64,
    pub free_blocks: u64,
}

/// Memory counters, each in the unit in which the kernel keeps it.
#[derive(Debug, Clone, Copy)]
pub struct MemoryCounters {
    /// The value that the queries returned: that of the first one that
    /// failed, or 0.
    pub status: i32,
    pub total: Amount,
    pub free: Amount,
    pub swap_total: Amount,
    pub swap_free: Amount,
}

impl Kernel {
    /// The label of the family on this kernel.
    pub open spec fn label(self) -> Seq<char> {
        match self {
            Kernel::Darwin => DARWIN@,
            Kernel::Linux => LINUX@,
        }
    }
}

impl Volume {
    /// Size of the filesystem in bytes.
    pub open spec fn total_bytes(self) -> int {
        self.block_size * self.total_blocks
    }

    /// Free space on the filesystem in bytes.
    pub open spec fn free_bytes(self) -> int {
        self.block_size * self.free_blocks
    }

    /// Whether both byte counts fit the fields of a `DiskInfo`.
    pub open spec fn representable(self) -> bool {
        self.total_bytes() <= u64::MAX && self.free_bytes() <= u64::MAX
    }

    /// What a filesystem in working order reports: blocks of some size, at
    /// least one of them, and no more free ones than there are.
    pub open spec fn in_order(self) -> bool {
        &&& self.block_size > 0
        &&& self.total_blocks > 0
        &&& self.free_blocks <= self.total_blocks
    }
}

impl MemoryCounters {
    /// The figures in kibibytes. The counters tell nothing of available,
    /// buffer and cache memory, which are 0.
    pub open spec fn normalized(self) -> MemoryInfo {
        MemoryInfo {
            total: self.total.kib() as u64,
            free: self.free.kib() as u64,
            avail: 0,
            buffers: 0,
            cached: 0,
            swap_total: self.swap_total.kib() as u64,
            swap_free: self.swap_free.kib() as u64,
        }
    }

    /// Whether a `MemoryInfo` can hold the figures: a total above 0, and
    /// each figure within its field.
    pub open spec fn usable(self) -> bool {
        &&& 0 < self.total.kib() <= u64::MAX
        &&& self.free.kib() <= u64::MAX
        &&& self.swap_total.kib() <= u64::MAX
        &&& self.swap_free.kib() <= u64::MAX
    }
}

impl Platform {
    /// Tells a `sysctl` call that went through from one that failed, by the
    /// value it returned.
    pub fn sysctl_outcome(status: i32) -> (r: Result<(), ResourceError>)
        ensures
            match r {
                Ok(_) => status == 0,
                Err(e) => status != 0 && e.is_os_message(SYSCTL_FAILED@),
            },
    {
        if status == 0 {
            Ok(())
        } else {
            Err(ResourceError::IO(OsError::Message(String::from_str(SYSCTL_FAILED))))
        }
    }

    /// Capacity of the filesystem that `reply` was read from: as many bytes
    /// as its blocks have. A failed query gives the `IO` error, and counts
    /// too large for a `DiskInfo` the `Generic` error.
    pub fn disk_stats(reply: &Volume) -> (r: Result<DiskInfo, ResourceError>)
        ensures
            match r {
                Ok(disk) => {
                    &&& reply.status == 0
                    &&& disk.total == reply.total_bytes()
                    &&& disk.free == reply.free_bytes()
                },
                Err(e) => if reply.status == 0 {
                    !reply.representable() && e.is_generic(NO_DISK_INFO@)
                } else {
                    e.is_os_message(SYSCTL_FAILED@)
                },
            },
            reply.status == 0 && reply.representable() && reply.in_order() ==> r is Ok
                && r->Ok_0.healthy(),
    {
        match Self::sysctl_outcome(reply.status) {
            Err(e) => { return Err(e); },
            Ok(_) => {},
        }
        proof {
            if reply.in_order() {
                assert(reply.total_bytes() > 0 && reply.free_bytes() <= reply.total_bytes())
                    by (nonlinear_arith)
                    requires
                        reply.block_size > 0,
                        reply.total_blocks > 0,
                        0 <= reply.free_blocks <= reply.total_blocks,
                        reply.total_bytes() == reply.block_size * reply.total_blocks,
                        reply.free_bytes() == reply.block_size * reply.free_blocks,
                ;
            }
        }
        let total = reply.block_size.checked_mul(reply.total_blocks);
        let free = reply.block_size.checked_mul(reply.free_blocks);
        match (total, free) {
            (Some(total), Some(free)) => Ok(DiskInfo { total, free }),
            _ => Err(ResourceError::generic(NO_DISK_INFO)),
        }
    }

    /// Memory usage in kibibytes, from counters in the kernel's units.
    ///
    /// A failed query gives the `IO` error. Counters that leave the total
    /// at 0, or a figure beyond its field, give the `Generic` error.
    pub fn memory_stats(reply: &MemoryCounters) -> (r: Result<MemoryInfo, ResourceError>)
        ensures
            match r {
                Ok(memory) => {
                    &&& reply.status == 0
                    &&& reply.usable()
                    &&& memory == reply.normalized()
                },
                Err(e) => if reply.status == 0 {
                    !reply.usable() && e.is_generic(NO_MEMORY_INFO@)
                } else {
                    e.is_os_message(SYSCTL_FAILED@)
                },
            },
            r matches Ok(memory) ==> {
                &&& memory.total > 0
                &&& memory.avail == 0
                &&& memory.buffers == 0
                &&& memory.cached == 0
            },
    {
        match Self::sysctl_outcome(reply.status) {
            Err(e) => { return Err(e); },
            Ok(_) => {},
        }
        let figures = (
            reply.total.to_kib(),
            reply.free.to_kib(),
            reply.swap_total.to_kib(),
            reply.swap_free.to_kib(),
        );
        match figures {
            (Some(total), Some(free), Some(swap_total), Some(swap_free)) => {
                if total == 0 {
                    Err(ResourceError::generic(NO_MEMORY_INFO))
                } else {
                    Ok(
                        MemoryInfo {
                            total,
                            free,
                            avail: 0,
                            buffers: 0,
                            cached: 0,
                            swap_total,
                            swap_free,
                        },
                    )
                }
            },
            _ => Err(ResourceError::generic(NO_MEMORY_INFO)),
        }
    }

    /// The kernel's release text from an outcome of the `KERN_OSRELEASE`
    /// query: `status` is the value returned and `buffer` what was written.
    ///
    /// The text is what stands before the first zero byte, decoded as UTF-8
    /// with U+FFFD for what is not: for bytes that are UTF-8, the text that
    /// they encode. A failed query gives the `IO` error, an empty text the
    /// `Generic` error.
    pub fn os_release(status: i32, buffer: Vec<u8>) -> (r: Result<String, ResourceError>)
        ensures
            match r {
                Ok(release) => {
                    &&& status == 0
                    &&& release@ == utf8_lossy(c_string(buffer@))
                    &&& release@.len() > 0
                },
                Err(e) => if status == 0 {
                    utf8_lossy(c_string(buffer@)).len() == 0 && e.is_generic(NO_OS_RELEASE@)
                } else {
                    e.is_os_message(SYSCTL_FAILED@)
                },
            },
            status == 0 && valid_utf8(c_string(buffer@)) ==> if c_string(buffer@).len() > 0 {
                r is Ok && r->Ok_0@ == decode_utf8(c_string(buffer@))
            } else {
                r is Err
            },
    {
        match Self::sysctl_outcome(status) {
            Err(e) => { return Err(e); },
            Ok(_) => {},
        }
        let mut bytes = buffer;
        truncate_at_nul(&mut bytes);
        non_empty(decode_utf8_lossy(&bytes), NO_OS_RELEASE)
    }

    /// The label of this family on the given kernel. It reads nothing and
    /// cannot fail.
    pub fn os_type(kernel: Kernel) -> (label: String)
        ensures
            label@ == kernel.label(),
    {
        match kernel {
            Kernel::Darwin => String::from_str(DARWIN),
            Kernel::Linux => String::from_str(LINUX),
        }
    }

    /// Reads the number of logical processors of this host.
    ///
    /// The count comes from the operating system, so no input decides
    /// whether one comes back; `CpuInfo::from_count` says what is made of
    /// each count.
    pub fn cpu_stats() -> (r: Result<CpuInfo, ResourceError>)
        ensures
            match r {
                Ok(cpu) => cpu.num_of_processors >= 1,
                Err(e) => e.is_generic(NO_CPU_INFO@),
            },
    {
        CpuInfo::from_count(logical_cpus())
    }

    /// A buffer for `gethostname` or for the release query: `NAME_CAPACITY`
    /// bytes, all zero.
    pub fn name_buffer() -> (buffer: Vec<u8>)
        ensures
            buffer@.len() == NAME_CAPACITY,
            forall|i: int| 0 <= i < buffer@.len() ==> buffer@[i] == 0,
    {
        vec![0u8; NAME_CAPACITY]
    }

    /// The host name from an outcome of `gethostname`: `status` is the
    /// value returned and `buffer` what was written.
    ///
    /// The name is what stands before the first zero byte, decoded as UTF-8
    /// with U+FFFD for what is not: for bytes that are UTF-8, the text that
    /// they encode. A failed call and an empty name give the same error.
    pub fn computer_name(status: i32, buffer: Vec<u8>) -> (r: Result<String, ResourceError>)
        ensures
            match r {
                Ok(name) => {
                    &&& status == 0
                    &&& name@ == utf8_lossy(c_string(buffer@))
                    &&& name@.len() > 0
                },
                Err(e) => {
                    &&& e.is_generic(NO_COMPUTER_NAME@)
                    &&& (status != 0 || utf8_lossy(c_string(buffer@)).len() == 0)
                },
            },
            status == 0 && valid_utf8(c_string(buffer@)) ==> if c_string(buffer@).len() > 0 {
                r is Ok && r->Ok_0@ == decode_utf8(c_string(buffer@))
            } else {
                r is Err
            },
    {
        if status != 0 {
            return Err(ResourceError::generic(NO_COMPUTER_NAME));
        }
        let mut bytes = buffer;
        truncate_at_nul(&mut bytes);
        non_empty(decode_utf8_lossy(&bytes), NO_COMPUTER_NAME)
    }
}

} // verus!
