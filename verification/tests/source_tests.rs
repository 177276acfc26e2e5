use observatory_core::snapshot::{
    CacheInfo, CacheKind, CpuDynamic, CpuStatic, InterfaceHandle, MemoryDynamic, MemoryStatic,
    ProcessInfo, Snapshot,
};
use observatory_core::source::{
    source_step, Fault, SourceAction, SourceEvent, SourceState, Supervisor, SupervisorDecision,
};

fn sample_snapshot(tick: u64) -> Snapshot {
    Snapshot {
        cpu_static: CpuStatic {
            model: "sample cpu".to_string(),
            physical_cores: 4,
            logical_cores: 8,
            caches: vec![CacheInfo { level: 1, kind: CacheKind::Data, size: 32 * 1024 }],
        },
        cpu_dynamic: CpuDynamic { speed_mhz: 3000 + tick, usage_ppm: 120_000 },
        mem_static: MemoryStatic { resident_capacity: 16_000, swap_capacity: 8_000 },
        mem_dynamic: MemoryDynamic { resident: 4_000 + tick, swap: 100 },
        processes: vec![ProcessInfo { pid: 1, resident: 2_048, cpu_ppm: 10_000 }],
    }
}

#[test]
fn startup_fault_terminates_the_task() {
    // Interface initialization fails: the task halts with the startup fault
    // and stays terminated whatever arrives afterwards.
    let (state, action) = source_step(SourceState::Initializing, SourceEvent::InitFailed);
    assert_eq!(state, SourceState::Terminated { fault: Fault::Startup });
    assert_eq!(action, Some(SourceAction::Halt { fault: Fault::Startup }));

    let (state, action) = source_step(
        state,
        SourceEvent::SignalReceived { snapshot: sample_snapshot(0) },
    );
    assert_eq!(state, SourceState::Terminated { fault: Fault::Startup });
    assert_eq!(action, None);
}

#[test]
fn happy_path_announces_then_streams() {
    let handle = InterfaceHandle { connection_id: 7 };
    let (state, action) = source_step(
        SourceState::Initializing,
        SourceEvent::InitSucceeded { interface: handle },
    );
    assert_eq!(state, SourceState::Announcing { interface: handle });
    assert_eq!(action, Some(SourceAction::Announce { interface: handle }));

    let (state, action) = source_step(state, SourceEvent::AnnouncementDelivered);
    assert_eq!(state, SourceState::Streaming { interface: handle });
    assert_eq!(action, Some(SourceAction::AwaitSignal));

    let snapshot = sample_snapshot(1);
    let (state, action) = source_step(
        state,
        SourceEvent::SignalReceived { snapshot: snapshot.clone() },
    );
    assert_eq!(state, SourceState::Streaming { interface: handle });
    assert_eq!(action, Some(SourceAction::Forward { snapshot }));

    let (state, action) = source_step(state, SourceEvent::SnapshotDelivered);
    assert_eq!(state, SourceState::Streaming { interface: handle });
    assert_eq!(action, Some(SourceAction::AwaitSignal));
}

#[test]
fn exhausted_stream_is_fatal() {
    let handle = InterfaceHandle { connection_id: 1 };
    let state = SourceState::Streaming { interface: handle };
    let (state, action) = source_step(state, SourceEvent::StreamExhausted);
    assert_eq!(state, SourceState::Terminated { fault: Fault::Stream });
    assert_eq!(action, Some(SourceAction::Halt { fault: Fault::Stream }));
}

#[test]
fn supervisor_backs_off_exponentially_then_gives_up() {
    let mut supervisor = Supervisor::new(3, 100);
    assert_eq!(
        supervisor.on_fault(Fault::Startup),
        SupervisorDecision::Restart { delay_ms: 100 }
    );
    assert_eq!(
        supervisor.on_fault(Fault::Stream),
        SupervisorDecision::Restart { delay_ms: 200 }
    );
    assert_eq!(
        supervisor.on_fault(Fault::Delivery),
        SupervisorDecision::Restart { delay_ms: 400 }
    );
    assert_eq!(supervisor.on_fault(Fault::Startup), SupervisorDecision::GiveUp);
    assert_eq!(supervisor.on_fault(Fault::Startup), SupervisorDecision::GiveUp);
}

#[test]
fn supervisor_delay_saturates() {
    let mut supervisor = Supervisor::new(2, u64::MAX - 1);
    assert_eq!(
        supervisor.on_fault(Fault::Stream),
        SupervisorDecision::Restart { delay_ms: u64::MAX - 1 }
    );
    assert_eq!(
        supervisor.on_fault(Fault::Stream),
        SupervisorDecision::Restart { delay_ms: u64::MAX }
    );
    assert_eq!(supervisor.on_fault(Fault::Stream), SupervisorDecision::GiveUp);
}

#[test]
fn refused_delivery_is_fatal() {
    let handle = InterfaceHandle { connection_id: 1 };
    let state = SourceState::Streaming { interface: handle };
    let (state, action) = source_step(state, SourceEvent::DeliveryRefused);
    assert_eq!(state, SourceState::Terminated { fault: Fault::Delivery });
    assert_eq!(action, Some(SourceAction::Halt { fault: Fault::Delivery }));

    let state = SourceState::Announcing { interface: handle };
    let (state, action) = source_step(state, SourceEvent::DeliveryRefused);
    assert_eq!(state, SourceState::Terminated { fault: Fault::Delivery });
    assert_eq!(action, Some(SourceAction::Halt { fault: Fault::Delivery }));
}
