use std::sync::Arc;

use observatory_core::app::{
    watcher_message, AppModel, ContextPage, DispatcherState, Effect, MenuAction, Message,
};
use observatory_core::channel::{BoundedChannel, SendOutcome};
use observatory_core::config::{Config, ConfigUpdate};
use observatory_core::page::Page;
use observatory_core::snapshot::{
    ratio_ppm, CacheInfo, CacheKind, CpuDynamic, CpuStatic, InterfaceHandle, MemoryDynamic,
    MemoryStatic, ProcessInfo, Snapshot,
};

fn sample_snapshot(tick: u64) -> Snapshot {
    Snapshot {
        cpu_static: CpuStatic {
            model: "sample cpu".to_string(),
            physical_cores: 4,
            logical_cores: 8,
            caches: vec![CacheInfo { level: 2, kind: CacheKind::Unified, size: 1024 * 1024 }],
        },
        cpu_dynamic: CpuDynamic { speed_mhz: 2_400 + tick, usage_ppm: 310_000 },
        mem_static: MemoryStatic { resident_capacity: 16_000, swap_capacity: 8_000 },
        mem_dynamic: MemoryDynamic { resident: 4_000, swap: 0 },
        processes: vec![ProcessInfo { pid: 42, resident: 512, cpu_ppm: 5_000 }],
    }
}

#[test]
fn init_registers_two_pages_processes_active() {
    let app = AppModel::init(Config::default());
    assert_eq!(app.state(), DispatcherState::Uninitialized);
    assert!(app.interface().is_none());
    assert_eq!(app.nav().len(), 2);
    let active = app.active_entry().expect("pages are registered");
    assert_eq!(active.label, "Processes");
    assert_eq!(app.window_title().as_str(), "Observatory — Processes");
}

#[test]
fn snapshot_updates_every_page_but_renders_only_the_active_one() {
    // Two pages are registered, the process table active by default. One
    // snapshot arrives: both pages' state updates, while the rendered
    // (active) page stays the process table.
    let mut app = AppModel::init(Config::default());
    let snapshot = sample_snapshot(1);
    let effects = app.update(&Message::Snapshot(Arc::new(snapshot.clone())));
    assert!(effects.is_empty());

    match &app.nav().entry_at(0).page {
        Page::Processes(page) => {
            let seen = page.snapshot().as_ref().expect("the process page saw the snapshot");
            assert_eq!(**seen, snapshot);
        }
        Page::Resources(_) => panic!("the first entry is the process table"),
    }
    match &app.nav().entry_at(1).page {
        Page::Resources(page) => {
            let seen = page.cpu().snapshot().as_ref().expect("the cpu page saw the snapshot");
            assert_eq!(seen.cpu_dynamic.speed_mhz, 2_401);
            let history = page.memory().history();
            // resident 4_000 of 16_000 is a quarter: 250_000 parts per million.
            assert_eq!(history.get(history.len() - 1), 250_000);
            assert_eq!(history.get(0), 0);
        }
        Page::Processes(_) => panic!("the second entry is the resources page"),
    }

    let active = app.active_entry().expect("pages are registered");
    assert_eq!(active.label, "Processes");
    assert_eq!(app.window_title().as_str(), "Observatory — Processes");
}

#[test]
fn without_interface_announcement_pages_stay_unloaded() {
    // Initialization failed upstream: no announcement and no snapshot ever
    // arrive. The dispatcher stays uninitialized and every page still shows
    // nothing loaded.
    let mut app = AppModel::init(Config::default());
    let effects = app.update(&Message::NoOp);
    assert!(effects.is_empty());
    assert_eq!(app.state(), DispatcherState::Uninitialized);
    assert!(app.interface().is_none());
    match &app.nav().entry_at(0).page {
        Page::Processes(page) => assert!(page.snapshot().is_none()),
        Page::Resources(_) => panic!("the first entry is the process table"),
    }
    match &app.nav().entry_at(1).page {
        Page::Resources(page) => {
            assert!(page.cpu().snapshot().is_none());
            assert!(page.memory().snapshot().is_none());
            let history = page.memory().history();
            for i in 0..history.len() {
                assert_eq!(history.get(i), 0);
            }
        }
        Page::Processes(_) => panic!("the second entry is the resources page"),
    }
}

#[test]
fn interface_announcement_takes_the_dispatcher_live() {
    let mut app = AppModel::init(Config::default());
    let handle = InterfaceHandle { connection_id: 3 };
    let effects = app.update(&Message::InterfaceLoaded(handle));
    assert!(effects.is_empty());
    assert_eq!(app.state(), DispatcherState::Live);
    assert_eq!(app.interface(), Some(handle));
}

#[test]
fn nav_selection_switches_page_and_title() {
    let mut app = AppModel::init(Config::default());
    let resources_id = app.nav().entry_at(1).id;
    app.on_nav_select(resources_id);
    let active = app.active_entry().expect("pages are registered");
    assert_eq!(active.label, "Resources");
    assert_eq!(app.window_title().as_str(), "Observatory — Resources");

    // An identity that was never issued changes nothing.
    app.on_nav_select(12_345);
    let active = app.active_entry().expect("pages are registered");
    assert_eq!(active.label, "Resources");
    assert_eq!(app.window_title().as_str(), "Observatory — Resources");
}

#[test]
fn config_update_reaches_dispatcher_and_pages() {
    let mut app = AppModel::init(Config::default());
    let config = Config { scale_by_core: true, multicore_view: true };
    app.update(&Message::UpdateConfig(config));
    assert_eq!(app.config(), config);
    match &app.nav().entry_at(0).page {
        Page::Processes(page) => assert_eq!(page.config(), config),
        Page::Resources(_) => panic!("the first entry is the process table"),
    }
    match &app.nav().entry_at(1).page {
        Page::Resources(page) => assert_eq!(page.memory().config(), config),
        Page::Processes(_) => panic!("the second entry is the resources page"),
    }
}

#[test]
fn toggling_the_same_context_page_flips_the_drawer() {
    let mut app = AppModel::init(Config::default());
    assert_eq!(app.context_page(), ContextPage::About);
    assert!(!app.show_context());
    app.update(&Message::ToggleContextPage(ContextPage::About));
    assert!(app.show_context());
    app.update(&Message::ToggleContextPage(ContextPage::About));
    assert!(!app.show_context());
    app.update(&Message::ToggleContextPage(ContextPage::Settings));
    assert_eq!(app.context_page(), ContextPage::Settings);
    assert!(app.show_context());
}

#[test]
fn context_drawer_shows_the_requested_page_only_while_open() {
    let mut app = AppModel::init(Config::default());
    assert_eq!(app.context_drawer(), None);
    app.update(&Message::ToggleContextPage(ContextPage::Settings));
    assert_eq!(app.context_drawer(), Some(ContextPage::Settings));
    app.update(&Message::ToggleContextPage(ContextPage::Settings));
    assert_eq!(app.context_drawer(), None);
}

#[test]
fn ui_actions_come_back_as_effects() {
    let mut app = AppModel::init(Config::default());
    let effects = app.update(&Message::OpenRepositoryUrl);
    assert_eq!(effects, vec![Effect::OpenRepository]);
    let effects = app.update(&Message::LaunchUrl("https://example.invalid/x".to_string()));
    assert_eq!(effects, vec![Effect::OpenUrl("https://example.invalid/x".to_string())]);
    let effects = app.update(&Message::SetScaleByCore(true));
    assert_eq!(effects, vec![Effect::PersistScaleByCore(true)]);
    let effects = app.update(&Message::SetMulticoreView(false));
    assert_eq!(effects, vec![Effect::PersistMulticoreView(false)]);
}

#[test]
fn menu_actions_toggle_their_context_pages() {
    match MenuAction::Settings.message() {
        Message::ToggleContextPage(page) => assert_eq!(page, ContextPage::Settings),
        _ => panic!("the settings action toggles the settings page"),
    }
    match MenuAction::About.message() {
        Message::ToggleContextPage(page) => assert_eq!(page, ContextPage::About),
        _ => panic!("the about action toggles the about page"),
    }
}

#[test]
fn watcher_forwards_the_new_config_despite_errors() {
    let update = ConfigUpdate {
        config: Config { scale_by_core: true, multicore_view: false },
        errors: vec!["bad value for some key".to_string()],
    };
    match watcher_message(&update) {
        Message::UpdateConfig(config) => assert_eq!(config, update.config),
        _ => panic!("the watcher forwards a config update"),
    }
}

#[test]
fn disconnection_is_visible_and_pages_freeze_on_stale_values() {
    let mut app = AppModel::init(Config::default());
    app.update(&Message::InterfaceLoaded(InterfaceHandle { connection_id: 9 }));
    let snapshot = sample_snapshot(5);
    app.update(&Message::Snapshot(Arc::new(snapshot.clone())));

    // The supervised source task goes down: the status is visible, and the
    // pages keep their last-known values.
    app.update(&Message::SourceDisconnected);
    assert_eq!(app.state(), DispatcherState::Disconnected);
    assert!(app.interface().is_none());
    match &app.nav().entry_at(0).page {
        Page::Processes(page) => {
            let seen = page.snapshot().as_ref().expect("the last snapshot is kept");
            assert_eq!(**seen, snapshot);
        }
        Page::Resources(_) => panic!("the first entry is the process table"),
    }

    // A successful restart announces a fresh interface and goes live again.
    app.update(&Message::InterfaceLoaded(InterfaceHandle { connection_id: 10 }));
    assert_eq!(app.state(), DispatcherState::Live);
    assert_eq!(app.interface(), Some(InterfaceHandle { connection_id: 10 }));
}

#[test]
fn shutdown_ends_the_loop() {
    let mut app = AppModel::init(Config::default());
    app.shutdown();
    assert_eq!(app.state(), DispatcherState::Shutdown);
}

#[test]
fn ratio_ppm_exact_values() {
    assert_eq!(ratio_ppm(0, 100), 0);
    assert_eq!(ratio_ppm(1, 4), 250_000);
    assert_eq!(ratio_ppm(1, 3), 333_333);
    assert_eq!(ratio_ppm(5, 5), 1_000_000);
    assert_eq!(ratio_ppm(7, 5), 1_000_000);
    assert_eq!(ratio_ppm(3, 0), 0);
    assert_eq!(ratio_ppm(u64::MAX - 1, u64::MAX), 999_999);
}

#[test]
fn snapshots_arrive_in_order_through_the_channel() {
    // The source wraps each snapshot in shared ownership and sends it; the
    // dispatcher drains the channel and broadcasts each in order.
    let mut chan: BoundedChannel<Message> = BoundedChannel::new(10);
    for tick in 1..=3u64 {
        let outcome = chan.try_send(Message::Snapshot(Arc::new(sample_snapshot(tick))));
        assert!(matches!(outcome, SendOutcome::Sent));
    }
    let mut app = AppModel::init(Config::default());
    let mut seen: Vec<u64> = Vec::new();
    while let Some(message) = chan.recv() {
        app.update(&message);
        match &app.nav().entry_at(1).page {
            Page::Resources(page) => {
                let snap = page.cpu().snapshot().as_ref().expect("a snapshot was broadcast");
                seen.push(snap.cpu_dynamic.speed_mhz);
            }
            Page::Processes(_) => panic!("the second entry is the resources page"),
        }
    }
    assert_eq!(seen, vec![2_401, 2_402, 2_403]);
}
