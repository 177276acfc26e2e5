//! The display pages and the contract they share.
//!
//! Every page accepts each broadcast message and updates its private state;
//! the registry holds the pages as one tagged collection and dispatches to
//! them without knowing which is which. Pages are mutually independent: no
//! page reads another's state, and the snapshot they share is immutable.

use crate::app::{Message, MessageV};
use crate::config::Config;
use crate::history::{neutral_window, pushed, HistoryBuffer};
use crate::snapshot::{arc_clone, ratio_ppm, ratio_ppm_spec, Snapshot, SnapshotView};
use std::sync::Arc;
use vstd::prelude::*;

verus! {

/// How many samples every trend window holds.
pub const HISTORY_LEN: usize = 30;

/// The per-process table page.
pub struct ProcessPage {
    snap: Option<Arc<Snapshot>>,
    config: Config,
}

/// Mathematical model of a `ProcessPage`.
#[verifier::ext_equal]
pub ghost struct ProcessPageV {
    pub snap: Option<SnapshotView>,
    pub config: Config,
}

impl View for ProcessPage {
    type V = ProcessPageV;

    closed spec fn view(&self) -> ProcessPageV {
        ProcessPageV {
            snap: match self.snap {
                Some(snapshot) => Some(snapshot@),
                None => None,
            },
            config: self.config,
        }
    }
}

/// A process page reacts to snapshots and configuration changes.
pub open spec fn process_page_step(page: ProcessPageV, msg: MessageV) -> ProcessPageV {
    match msg {
        MessageV::Snapshot(snapshot) => ProcessPageV { snap: Some(snapshot), ..page },
        MessageV::UpdateConfig(config) => ProcessPageV { config, ..page },
        _ => page,
    }
}

impl ProcessPage {
    /// A page that has seen no snapshot yet.
    pub fn new(config: Config) -> (page: ProcessPage)
        ensures
            page@ == (ProcessPageV { snap: None, config }),
    {
        ProcessPage { snap: None, config }
    }

    /// Receives one broadcast message.
    pub fn update(&mut self, msg: &Message)
        ensures
            final(self)@ == process_page_step(old(self)@, msg@),
    {
        match msg {
            Message::Snapshot(snapshot) => {
                self.snap = Some(arc_clone(snapshot));
            },
            Message::UpdateConfig(config) => {
                self.config = *config;
            },
            _ => {},
        }
    }

    /// The snapshot the page last saw, if any.
    pub fn snapshot(&self) -> (snap: &Option<Arc<Snapshot>>)
        ensures
            snap is Some <==> self@.snap is Some,
            snap matches Some(s) ==> self@.snap == Some(s@),
    {
        &self.snap
    }

    /// The page's own copy of the configuration.
    pub fn config(&self) -> (config: Config)
        ensures
            config == self@.config,
    {
        self.config
    }
}

/// The processor half of the resources page.
pub struct CpuPage {
    snap: Option<Arc<Snapshot>>,
}

/// Mathematical model of a `CpuPage`.
#[verifier::ext_equal]
pub ghost struct CpuPageV {
    pub snap: Option<SnapshotView>,
}

impl View for CpuPage {
    type V = CpuPageV;

    closed spec fn view(&self) -> CpuPageV {
        CpuPageV {
            snap: match self.snap {
                Some(snapshot) => Some(snapshot@),
                None => None,
            },
        }
    }
}

/// A processor page reacts to snapshots alone.
pub open spec fn cpu_page_step(page: CpuPageV, msg: MessageV) -> CpuPageV {
    match msg {
        MessageV::Snapshot(snapshot) => CpuPageV { snap: Some(snapshot) },
        _ => page,
    }
}

impl CpuPage {
    /// A page that has seen no snapshot yet.
    pub fn new() -> (page: CpuPage)
        ensures
            page@ == (CpuPageV { snap: None }),
    {
        CpuPage { snap: None }
    }

    /// Receives one broadcast message.
    pub fn update(&mut self, msg: &Message)
        ensures
            final(self)@ == cpu_page_step(old(self)@, msg@),
    {
        match msg {
            Message::Snapshot(snapshot) => {
                self.snap = Some(arc_clone(snapshot));
            },
            _ => {},
        }
    }

    /// The snapshot the page last saw, if any.
    pub fn snapshot(&self) -> (snap: &Option<Arc<Snapshot>>)
        ensures
            snap is Some <==> self@.snap is Some,
            snap matches Some(s) ==> self@.snap == Some(s@),
    {
        &self.snap
    }
}

/// The memory half of the resources page: the latest reading plus a trend
/// window of the resident-memory fraction.
pub struct MemoryPage {
    snap: Option<Arc<Snapshot>>,
    config: Config,
    usage_history: HistoryBuffer<u64>,
}

/// Mathematical model of a `MemoryPage`.
#[verifier::ext_equal]
pub ghost struct MemoryPageV {
    pub snap: Option<SnapshotView>,
    pub config: Config,
    /// Resident-memory fraction per tick, parts per million, oldest first.
    pub history: Seq<u64>,
}

impl MemoryPageV {
    /// The trend window always holds exactly `HISTORY_LEN` samples.
    pub open spec fn wf(self) -> bool {
        self.history.len() == HISTORY_LEN
    }
}

impl View for MemoryPage {
    type V = MemoryPageV;

    closed spec fn view(&self) -> MemoryPageV {
        MemoryPageV {
            snap: match self.snap {
                Some(snapshot) => Some(snapshot@),
                None => None,
            },
            config: self.config,
            history: self.usage_history@,
        }
    }
}

/// The trend sample one snapshot contributes: the resident-memory fraction
/// in parts per million.
pub open spec fn memory_sample(snapshot: SnapshotView) -> u64 {
    ratio_ppm_spec(snapshot.mem_dynamic.resident, snapshot.mem_static.resident_capacity) as u64
}

/// A memory page reacts to snapshots — storing the reading and pushing one
/// trend sample — and to configuration changes.
pub open spec fn memory_page_step(page: MemoryPageV, msg: MessageV) -> MemoryPageV {
    match msg {
        MessageV::Snapshot(snapshot) => MemoryPageV {
            snap: Some(snapshot),
            history: pushed(page.history, memory_sample(snapshot)),
            ..page
        },
        MessageV::UpdateConfig(config) => MemoryPageV { config, ..page },
        _ => page,
    }
}

impl MemoryPage {
    /// A page that has seen no snapshot yet, its trend window all neutral.
    pub fn new(config: Config) -> (page: MemoryPage)
        ensures
            page@ == (MemoryPageV {
                snap: None,
                config,
                history: neutral_window(HISTORY_LEN as nat, 0u64),
            }),
            page@.wf(),
    {
        MemoryPage { snap: None, config, usage_history: HistoryBuffer::new(HISTORY_LEN, 0u64) }
    }

    /// Receives one broadcast message.
    pub fn update(&mut self, msg: &Message)
        requires
            old(self)@.wf(),
        ensures
            final(self)@ == memory_page_step(old(self)@, msg@),
            final(self)@.wf(),
    {
        match msg {
            Message::Snapshot(snapshot) => {
                let sample = ratio_ppm(
                    snapshot.mem_dynamic.resident,
                    snapshot.mem_static.resident_capacity,
                );
                self.snap = Some(arc_clone(snapshot));
                self.usage_history.push(sample);
            },
            Message::UpdateConfig(config) => {
                self.config = *config;
            },
            _ => {},
        }
    }

    /// The snapshot the page last saw, if any.
    pub fn snapshot(&self) -> (snap: &Option<Arc<Snapshot>>)
        ensures
            snap is Some <==> self@.snap is Some,
            snap matches Some(s) ==> self@.snap == Some(s@),
    {
        &self.snap
    }

    /// The page's own copy of the configuration.
    pub fn config(&self) -> (config: Config)
        ensures
            config == self@.config,
    {
        self.config
    }

    /// The trend window, oldest first.
    pub fn history(&self) -> (history: &HistoryBuffer<u64>)
        ensures
            history@ == self@.history,
    {
        &self.usage_history
    }
}

/// The resources page: processor and memory, side by side.
pub struct ResourcePage {
    cpu: CpuPage,
    memory: MemoryPage,
}

/// Mathematical model of a `ResourcePage`.
#[verifier::ext_equal]
pub ghost struct ResourcePageV {
    pub cpu: CpuPageV,
    pub memory: MemoryPageV,
}

impl View for ResourcePage {
    type V = ResourcePageV;

    closed spec fn view(&self) -> ResourcePageV {
        ResourcePageV { cpu: self.cpu@, memory: self.memory@ }
    }
}

/// A resources page hands every message to both halves.
pub open spec fn resource_page_step(page: ResourcePageV, msg: MessageV) -> ResourcePageV {
    ResourcePageV {
        cpu: cpu_page_step(page.cpu, msg),
        memory: memory_page_step(page.memory, msg),
    }
}

impl ResourcePage {
    /// A page that has seen no snapshot yet.
    pub fn new(config: Config) -> (page: ResourcePage)
        ensures
            page@ == (ResourcePageV {
                cpu: CpuPageV { snap: None },
                memory: MemoryPageV {
                    snap: None,
                    config,
                    history: neutral_window(HISTORY_LEN as nat, 0u64),
                },
            }),
            page@.memory.wf(),
    {
        ResourcePage { cpu: CpuPage::new(), memory: MemoryPage::new(config) }
    }

    /// Receives one broadcast message.
    pub fn update(&mut self, msg: &Message)
        requires
            old(self)@.memory.wf(),
        ensures
            final(self)@ == resource_page_step(old(self)@, msg@),
            final(self)@.memory.wf(),
    {
        self.cpu.update(msg);
        self.memory.update(msg);
    }

    /// The processor half.
    pub fn cpu(&self) -> (cpu: &CpuPage)
        ensures
            cpu@ == self@.cpu,
    {
        &self.cpu
    }

    /// The memory half.
    pub fn memory(&self) -> (memory: &MemoryPage)
        ensures
            memory@ == self@.memory,
    {
        &self.memory
    }
}

/// One display page: the capability set is uniform, the state is not.
pub enum Page {
    Processes(ProcessPage),
    Resources(ResourcePage),
}

/// Mathematical model of a `Page`.
pub ghost enum PageV {
    Processes(ProcessPageV),
    Resources(ResourcePageV),
}

impl PageV {
    /// Every trend window a page owns holds its fixed number of samples.
    pub open spec fn wf(self) -> bool {
        match self {
            PageV::Processes(page) => true,
            PageV::Resources(page) => page.memory.wf(),
        }
    }
}

impl View for Page {
    type V = PageV;

    open spec fn view(&self) -> PageV {
        match self {
            Page::Processes(page) => PageV::Processes(page@),
            Page::Resources(page) => PageV::Resources(page@),
        }
    }
}

/// One broadcast step of any page.
pub open spec fn page_step(page: PageV, msg: MessageV) -> PageV {
    match page {
        PageV::Processes(page) => PageV::Processes(process_page_step(page, msg)),
        PageV::Resources(page) => PageV::Resources(resource_page_step(page, msg)),
    }
}

impl Page {
    /// Receives one broadcast message.
    pub fn update(&mut self, msg: &Message)
        requires
            old(self)@.wf(),
        ensures
            final(self)@ == page_step(old(self)@, msg@),
            final(self)@.wf(),
    {
        match self {
            Page::Processes(page) => page.update(msg),
            Page::Resources(page) => page.update(msg),
        }
    }
}

} // verus!
