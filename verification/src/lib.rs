//! Point-in-time statistics about the host: disk capacity, memory, processor
//! count, operating-system release and type, and the host name.
//!
//! The native calls that read these from the operating system are made by
//! the embedding program. This crate holds everything that happens around
//! them: what is handed to a primitive, how its outcome is told from a
//! failure, and how the raw numbers and bytes become the normalized results
//! below. One module per operating-system family holds that family's rules;
//! a build selects the one that matches its target.

use vstd::prelude::*;

pub mod text;
pub mod unix;
pub mod windows;

verus! {

/// Number of bytes in one kibibyte, the unit of every [`MemoryInfo`] field.
pub const KB: u64 = 1024;

/// Capacity of one filesystem, in bytes.
#[derive(Debug, Clone, Copy, PartialEq, Eq)]
pub struct DiskInfo {
    pub total: u64,
    pub free: u64,
}

/// Memory usage in kibibytes. A field that the queried interface does not
/// expose is 0.
#[derive(Debug, Clone, Copy, PartialEq, Eq)]
pub struct MemoryInfo {
    pub total: u64,
    pub free: u64,
    pub avail: u64,
    pub buffers: u64,
    pub cached: u64,
    /// Total swap memory.
    pub swap_total: u64,
    pub swap_free: u64,
}

/// Number of logical processors.
#[derive(Debug, Clone, Copy, PartialEq, Eq)]
pub struct CpuInfo {
    pub num_of_processors: usize,
}

/// What the operating system gave as the cause of a failed call.
#[derive(Debug, PartialEq, Eq)]
pub enum OsError {
    /// The native error code, unchanged.
    Code(i32),
    /// A description, where the call leaves no code worth keeping.
    Message(String),
}

/// Why a query gave no result. Every error is final for its call.
#[derive(Debug, PartialEq, Eq)]
pub enum ResourceError {
    /// A native call reported failure.
    IO(OsError),
    /// The call went through but its answer cannot be used.
    Generic(String),
}

impl DiskInfo {
    /// What holds of a filesystem in working order: it has room, and no
    /// more of it is free than there is.
    pub open spec fn healthy(self) -> bool {
        self.total > 0 && self.free <= self.total
    }
}

/// Whole kibibytes in `bytes`.
pub open spec fn kib(bytes: int) -> int {
    bytes / 1024
}

/// Converts a byte count to whole kibibytes, rounding down.
pub fn to_kib(bytes: u64) -> (k: u64)
    ensures
        k == kib(bytes as int),
{
    bytes / KB
}

/// A quantity of memory in the unit in which its source counts it: `count`
/// units of `unit` bytes each. Pages are counted so, and bytes with a unit
/// of 1.
#[derive(Debug, Clone, Copy, PartialEq, Eq)]
pub struct Amount {
    pub count: u64,
    pub unit: u64,
}

impl Amount {
    /// The quantity in bytes.
    pub open spec fn bytes(self) -> int {
        self.count * self.unit
    }

    /// Whole kibibytes in the quantity.
    pub open spec fn kib(self) -> int {
        kib(self.bytes())
    }

    /// Converts the quantity to whole kibibytes, rounding down. Gives
    /// `None` where the number is beyond `u64`.
    pub fn to_kib(&self) -> (k: Option<u64>)
        ensures
            match k {
                Some(k) => k == self.kib(),
                None => self.kib() > u64::MAX,
            },
    {
        proof {
            assert(0 <= self.count * self.unit <= u128::MAX) by (nonlinear_arith)
                requires
                    0 <= self.count <= u64::MAX,
                    0 <= self.unit <= u64::MAX,
            ;
        }
        let bytes: u128 = self.count as u128 * self.unit as u128;
        let k: u128 = bytes / 1024;
        if k > u64::MAX as u128 {
            None
        } else {
            Some(k as u64)
        }
    }
}

/// Reason of the error for a processor count that cannot be used.
pub const NO_CPU_INFO: &'static str = "cannot get cpu information";

/// Reason of the error for a host name that cannot be used.
pub const NO_COMPUTER_NAME: &'static str = "cannot get computer name";

/// Reason of the error for memory figures that cannot be used.
pub const NO_MEMORY_INFO: &'static str = "cannot get memory information";

/// Reason of the error for disk figures that cannot be used.
pub const NO_DISK_INFO: &'static str = "cannot get disk information";

/// Reason of the error for a release text that cannot be used.
pub const NO_OS_RELEASE: &'static str = "cannot get os release";

impl ResourceError {
    /// Whether this is the `Generic` error with the given reason.
    pub open spec fn is_generic(self, reason: Seq<char>) -> bool {
        self matches ResourceError::Generic(m) && m@ == reason
    }

    /// Whether this is the `IO` error that carries the given native code.
    pub open spec fn is_os_code(self, code: i32) -> bool {
        self == ResourceError::IO(OsError::Code(code))
    }

    /// Whether this is the `IO` error that carries the given description.
    pub open spec fn is_os_message(self, message: Seq<char>) -> bool {
        self matches ResourceError::IO(OsError::Message(m)) && m@ == message
    }

    /// The `Generic` error with the given reason.
    pub fn generic(reason: &str) -> (e: ResourceError)
        ensures
            e.is_generic(reason@),
    {
        ResourceError::Generic(String::from_str(reason))
    }
}

impl CpuInfo {
    /// Takes a processor count as the host reported it. A host has at least
    /// one processor, so a count of 0 is refused.
    pub fn from_count(count: usize) -> (r: Result<CpuInfo, ResourceError>)
        ensures
            match r {
                Ok(cpu) => count >= 1 && cpu.num_of_processors == count,
                Err(e) => count == 0 && e.is_generic(NO_CPU_INFO@),
            },
    {
        if count >= 1 {
            Ok(CpuInfo { num_of_processors: count })
        } else {
            Err(ResourceError::generic(NO_CPU_INFO))
        }
    }
}

/// Takes a decoded text that a result must not hold empty: the text comes
/// back where it has at least one character, and the `Generic` error with
/// `reason` where it has none.
pub fn non_empty(text: String, reason: &str) -> (r: Result<String, ResourceError>)
    ensures
        match r {
            Ok(kept) => text@.len() > 0 && kept@ == text@,
            Err(e) => text@.len() == 0 && e.is_generic(reason@),
        },
{
    if text.as_str().is_empty() {
        Err(ResourceError::generic(reason))
    } else {
        Ok(text)
    }
}

/// Calls `num_cpus::get`, which asks the operating system for the number
/// of logical processors that this process may run on.
///
/// Trusted, not proved. Nothing is claimed of the number.
#[verifier::external_body]
pub(crate) fn logical_cpus() -> usize {
    num_cpus::get()
}

} // verus!
