//! The immutable point-in-time bundle of measured system state.
//!
//! A `Snapshot` is produced once per tick by the external monitoring
//! interface and shared by reference counting, so every page observes the
//! identical value without copying and nothing mutates it after
//! construction. The interface's own record types are held here as plain
//! values; ratios that the interface reports as floating point are carried
//! as parts per million.

use std::sync::Arc;
use vstd::prelude::*;

verus! {

/// A handle to the live monitoring interface, retained by the dispatcher
/// once the interface is ready.
#[derive(Clone, Copy, Debug, PartialEq, Eq, Structural)]
pub struct InterfaceHandle {
    /// Identity of the connection the interface was initialized with.
    pub connection_id: u64,
}

/// One level of the processor's cache hierarchy.
#[derive(Clone, Copy, Debug, PartialEq, Eq, Structural)]
pub struct CacheInfo {
    pub level: u8,
    pub kind: CacheKind,
    /// Size in bytes.
    pub size: u64,
}

/// What a processor cache stores.
#[derive(Clone, Copy, Debug, PartialEq, Eq, Structural)]
pub enum CacheKind {
    Data,
    Instruction,
    Unified,
}

/// Unchanging facts about the processor.
#[derive(Clone, Debug, PartialEq, Eq)]
pub struct CpuStatic {
    pub model: String,
    pub physical_cores: u64,
    pub logical_cores: u64,
    pub caches: Vec<CacheInfo>,
}

/// The processor reading of one tick.
#[derive(Clone, Copy, Debug, PartialEq, Eq, Structural)]
pub struct CpuDynamic {
    /// Current clock speed in MHz.
    pub speed_mhz: u64,
    /// Overall usage as parts per million of full load.
    pub usage_ppm: u64,
}

/// Unchanging facts about memory.
#[derive(Clone, Copy, Debug, PartialEq, Eq, Structural)]
pub struct MemoryStatic {
    /// Installed resident memory in bytes.
    pub resident_capacity: u64,
    /// Installed swap in bytes.
    pub swap_capacity: u64,
}

/// The memory reading of one tick.
#[derive(Clone, Copy, Debug, PartialEq, Eq, Structural)]
pub struct MemoryDynamic {
    /// Resident memory in use, in bytes.
    pub resident: u64,
    /// Swap in use, in bytes.
    pub swap: u64,
}

/// One row of the per-process table.
#[derive(Clone, Copy, Debug, PartialEq, Eq, Structural)]
pub struct ProcessInfo {
    pub pid: u64,
    /// Resident memory of the process, in bytes.
    pub resident: u64,
    /// Processor usage of the process, parts per million.
    pub cpu_ppm: u64,
}

/// An immutable bundle of all measured subsystems for one tick.
#[derive(Clone, Debug, PartialEq, Eq)]
pub struct Snapshot {
    pub cpu_static: CpuStatic,
    pub cpu_dynamic: CpuDynamic,
    pub mem_static: MemoryStatic,
    pub mem_dynamic: MemoryDynamic,
    pub processes: Vec<ProcessInfo>,
}

/// Mathematical model of `CpuStatic`.
#[verifier::ext_equal]
pub ghost struct CpuStaticView {
    pub model: Seq<char>,
    pub physical_cores: u64,
    pub logical_cores: u64,
    pub caches: Seq<CacheInfo>,
}

/// Mathematical model of a `Snapshot`.
#[verifier::ext_equal]
pub ghost struct SnapshotView {
    pub cpu_static: CpuStaticView,
    pub cpu_dynamic: CpuDynamic,
    pub mem_static: MemoryStatic,
    pub mem_dynamic: MemoryDynamic,
    pub processes: Seq<ProcessInfo>,
}

impl View for CpuStatic {
    type V = CpuStaticView;

    open spec fn view(&self) -> CpuStaticView {
        CpuStaticView {
            model: self.model@,
            physical_cores: self.physical_cores,
            logical_cores: self.logical_cores,
            caches: self.caches@,
        }
    }
}

impl View for Snapshot {
    type V = SnapshotView;

    open spec fn view(&self) -> SnapshotView {
        SnapshotView {
            cpu_static: self.cpu_static@,
            cpu_dynamic: self.cpu_dynamic,
            mem_static: self.mem_static,
            mem_dynamic: self.mem_dynamic,
            processes: self.processes@,
        }
    }
}

/// Relies on `alloc::sync::Arc::clone`: the clone is another pointer to the
/// same allocation, so it observes the very value the original does.
#[verifier::external_body]
pub fn arc_clone<T>(arc: &Arc<T>) -> (cloned: Arc<T>)
    ensures
        cloned == *arc,
{
    Arc::clone(arc)
}

/// The fraction `part / whole`, in parts per million, rounded toward zero;
/// zero when `whole` is zero, and full scale when `part` reaches `whole`.
pub open spec fn ratio_ppm_spec(part: u64, whole: u64) -> int {
    if whole == 0 {
        0
    } else if part >= whole {
        1_000_000
    } else {
        (part * 1_000_000) / (whole as int)
    }
}

/// Fixed-point representation of the ratio `part / whole`, used for trend
/// samples such as the resident-memory fraction.
pub fn ratio_ppm(part: u64, whole: u64) -> (ppm: u64)
    ensures
        ppm == ratio_ppm_spec(part, whole),
        ppm <= 1_000_000,
{
    if whole == 0 {
        0
    } else if part >= whole {
        1_000_000
    } else {
        let wide: u128 = (part as u128) * 1_000_000;
        let quotient: u128 = wide / (whole as u128);
        proof {
            assert((part * 1_000_000) / (whole as int) < 1_000_000) by (nonlinear_arith)
                requires
                    0 < whole,
                    part < whole,
            ;
        }
        quotient as u64
    }
}

} // verus!
