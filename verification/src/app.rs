//! The dispatcher: the application model and its single message loop.
//!
//! Every event — a snapshot from the source task, a configuration change
//! from the watcher, or a user action — enters one serialized stream. The
//! dispatcher routes its own state changes, broadcasts the event to every
//! registered page (not only the active one, so inactive pages keep their
//! history warm), and re-derives the window title from the active page's
//! label. Outside work the loop asks for — opening a URL, persisting a
//! toggle — is returned as effects for the shell to perform.

use crate::config::{Config, ConfigUpdate};
use crate::history::neutral_window;
use crate::page::{
    page_step, CpuPageV, MemoryPageV, Page, PageV, ProcessPage, ProcessPageV, ResourcePage,
    ResourcePageV, HISTORY_LEN,
};
use crate::registry::{activate_model, broadcast_model, PageEntry, PageRegistry, RegistryV};
use crate::snapshot::{InterfaceHandle, Snapshot, SnapshotView};
use std::sync::Arc;
use vstd::prelude::*;
use vstd::string::StringExecFns;

verus! {

/// The context page shown in the context drawer.
#[derive(Clone, Copy, Debug, PartialEq, Eq, Structural)]
pub enum ContextPage {
    About,
    Settings,
    PageAbout,
}

impl Default for ContextPage {
    /// The about page.
    fn default() -> (page: ContextPage)
        ensures
            page == ContextPage::About,
    {
        ContextPage::About
    }
}

/// Actions reachable from the menu bar.
#[derive(Clone, Copy, Debug, PartialEq, Eq, Structural)]
pub enum MenuAction {
    Settings,
    About,
}

impl MenuAction {
    /// The message a menu action emits: each toggles its context page.
    pub fn message(&self) -> (message: Message)
        ensures
            *self == MenuAction::Settings ==> message == Message::ToggleContextPage(
                ContextPage::Settings,
            ),
            *self == MenuAction::About ==> message == Message::ToggleContextPage(
                ContextPage::About,
            ),
    {
        match self {
            MenuAction::Settings => Message::ToggleContextPage(ContextPage::Settings),
            MenuAction::About => Message::ToggleContextPage(ContextPage::About),
        }
    }
}

/// Messages emitted by the application, its widgets and its background
/// tasks.
#[derive(Clone, Debug)]
pub enum Message {
    NoOp,
    /// The one-time announcement that the monitoring interface is live.
    InterfaceLoaded(InterfaceHandle),
    OpenRepositoryUrl,
    ToggleContextPage(ContextPage),
    /// A new configuration value from the watcher.
    UpdateConfig(Config),
    LaunchUrl(String),
    SetScaleByCore(bool),
    SetMulticoreView(bool),
    /// One tick's measurements, shared with every page.
    Snapshot(Arc<Snapshot>),
    /// The supervised source task is down (restarting or given up):
    /// telemetry is stalled and the last-known values are stale.
    SourceDisconnected,
}

/// Mathematical model of a `Message`.
pub ghost enum MessageV {
    NoOp,
    InterfaceLoaded(InterfaceHandle),
    OpenRepositoryUrl,
    ToggleContextPage(ContextPage),
    UpdateConfig(Config),
    LaunchUrl(Seq<char>),
    SetScaleByCore(bool),
    SetMulticoreView(bool),
    Snapshot(SnapshotView),
    SourceDisconnected,
}

impl View for Message {
    type V = MessageV;

    open spec fn view(&self) -> MessageV {
        match self {
            Message::NoOp => MessageV::NoOp,
            Message::InterfaceLoaded(handle) => MessageV::InterfaceLoaded(*handle),
            Message::OpenRepositoryUrl => MessageV::OpenRepositoryUrl,
            Message::ToggleContextPage(page) => MessageV::ToggleContextPage(*page),
            Message::UpdateConfig(config) => MessageV::UpdateConfig(*config),
            Message::LaunchUrl(url) => MessageV::LaunchUrl(url@),
            Message::SetScaleByCore(on) => MessageV::SetScaleByCore(*on),
            Message::SetMulticoreView(on) => MessageV::SetMulticoreView(*on),
            Message::Snapshot(snapshot) => MessageV::Snapshot(snapshot@),
            Message::SourceDisconnected => MessageV::SourceDisconnected,
        }
    }
}

/// The message the configuration watcher forwards for one change
/// notification. Validation errors ride along for logging only: they are
/// never fatal, and the new configuration value is forwarded regardless.
pub fn watcher_message(update: &ConfigUpdate) -> (message: Message)
    ensures
        message == Message::UpdateConfig(update.config),
{
    Message::UpdateConfig(update.config)
}

/// Outside work the dispatcher asks the shell to perform after an event.
#[derive(Clone, Debug, PartialEq, Eq)]
pub enum Effect {
    /// Open the application's repository in the browser.
    OpenRepository,
    /// Open the given URL in the browser.
    OpenUrl(String),
    /// Persist the scale-by-core toggle to the configuration store.
    PersistScaleByCore(bool),
    /// Persist the multicore-view toggle to the configuration store.
    PersistMulticoreView(bool),
}

/// Mathematical model of an `Effect`.
pub ghost enum EffectV {
    OpenRepository,
    OpenUrl(Seq<char>),
    PersistScaleByCore(bool),
    PersistMulticoreView(bool),
}

impl View for Effect {
    type V = EffectV;

    open spec fn view(&self) -> EffectV {
        match self {
            Effect::OpenRepository => EffectV::OpenRepository,
            Effect::OpenUrl(url) => EffectV::OpenUrl(url@),
            Effect::PersistScaleByCore(on) => EffectV::PersistScaleByCore(*on),
            Effect::PersistMulticoreView(on) => EffectV::PersistMulticoreView(*on),
        }
    }
}

/// The models of a sequence of effects.
pub open spec fn effects_view(effects: Seq<Effect>) -> Seq<EffectV> {
    effects.map(|i: int, effect: Effect| effect@)
}

/// Where the dispatcher stands: no interface handle yet, snapshots flowing,
/// the source task down and pages frozen on stale values, or the loop wound
/// down at process termination.
#[derive(Clone, Copy, Debug, PartialEq, Eq, Structural)]
pub enum DispatcherState {
    Uninitialized,
    Live,
    Disconnected,
    Shutdown,
}

/// The application model: the dispatcher's whole state.
pub struct AppModel {
    context_page: ContextPage,
    show_context: bool,
    nav: PageRegistry,
    config: Config,
    interface: Option<InterfaceHandle>,
    window_title: String,
    state: DispatcherState,
}

/// Mathematical model of the `AppModel`.
#[verifier::ext_equal]
pub ghost struct AppModelV {
    pub context_page: ContextPage,
    pub show_context: bool,
    pub nav: RegistryV,
    pub config: Config,
    pub interface: Option<InterfaceHandle>,
    pub window_title: Seq<char>,
    pub state: DispatcherState,
}

impl AppModelV {
    /// The registry is well formed, and the dispatcher holds an interface
    /// handle exactly from the moment it goes live.
    pub open spec fn wf(self) -> bool {
        &&& self.nav.wf()
        &&& (self.state is Uninitialized ==> self.interface is None)
        &&& (self.state is Live ==> self.interface is Some)
    }
}

impl View for AppModel {
    type V = AppModelV;

    closed spec fn view(&self) -> AppModelV {
        AppModelV {
            context_page: self.context_page,
            show_context: self.show_context,
            nav: self.nav@,
            config: self.config,
            interface: self.interface,
            window_title: self.window_title@,
            state: self.state,
        }
    }
}

/// The application's name, the stem of every window title.
pub open spec fn app_title() -> Seq<char> {
    "Observatory"@
}

/// The label of the active page, once anything is registered.
pub open spec fn active_label(nav: RegistryV) -> Option<Seq<char>> {
    if nav.entries.len() > 0 {
        Some(nav.entries[nav.active].label)
    } else {
        None
    }
}

/// The window title: the application's name, and the active page's label
/// after a separator once a page is registered.
pub open spec fn title_of(label: Option<Seq<char>>) -> Seq<char> {
    match label {
        Some(label) => app_title() + " — "@ + label,
        None => app_title(),
    }
}

/// The dispatcher's own routing of one message, before the broadcast: the
/// context drawer toggles, a new configuration value is adopted, and the
/// one-time interface announcement takes the dispatcher live.
pub open spec fn route_model(m: AppModelV, msg: MessageV) -> AppModelV {
    match msg {
        MessageV::ToggleContextPage(page) => if m.context_page == page {
            AppModelV { show_context: !m.show_context, ..m }
        } else {
            AppModelV { context_page: page, show_context: true, ..m }
        },
        MessageV::UpdateConfig(config) => AppModelV { config, ..m },
        MessageV::InterfaceLoaded(handle) => AppModelV {
            interface: Some(handle),
            state: DispatcherState::Live,
            ..m
        },
        MessageV::SourceDisconnected => AppModelV {
            interface: None,
            state: DispatcherState::Disconnected,
            ..m
        },
        _ => m,
    }
}

/// The outside work one message asks for.
pub open spec fn update_effects(msg: MessageV) -> Seq<EffectV> {
    match msg {
        MessageV::OpenRepositoryUrl => seq![EffectV::OpenRepository],
        MessageV::LaunchUrl(url) => seq![EffectV::OpenUrl(url)],
        MessageV::SetScaleByCore(on) => seq![EffectV::PersistScaleByCore(on)],
        MessageV::SetMulticoreView(on) => seq![EffectV::PersistMulticoreView(on)],
        _ => Seq::empty(),
    }
}

/// One full dispatch step: route the message, broadcast it to every
/// registered page, then re-derive the window title from the active page's
/// label.
pub open spec fn update_model(m: AppModelV, msg: MessageV) -> AppModelV {
    let routed = route_model(m, msg);
    let swept = AppModelV { nav: broadcast_model(routed.nav, msg), ..routed };
    AppModelV { window_title: title_of(active_label(swept.nav)), ..swept }
}

/// One page-selection step: activate the identity, then re-derive the title.
pub open spec fn select_model(m: AppModelV, id: u64) -> AppModelV {
    let nav = activate_model(m.nav, id);
    AppModelV { nav, window_title: title_of(active_label(nav)), ..m }
}

impl AppModel {
    /// The registry invariant holds and the view is well formed.
    pub closed spec fn inv(&self) -> bool {
        &&& self.nav.inv()
        &&& self@.wf()
    }

    /// The model at startup: two pages registered — the process table, then
    /// the resources page — with the process table active by default, the
    /// dispatcher not yet live, and the title naming the active page.
    pub fn init(config: Config) -> (app: AppModel)
        ensures
            app.inv(),
            app@.state == DispatcherState::Uninitialized,
            app@.interface is None,
            app@.config == config,
            app@.context_page == ContextPage::About,
            !app@.show_context,
            app@.nav.entries.len() == 2,
            app@.nav.active == 0,
            app@.nav.entries[0].label == "Processes"@,
            app@.nav.entries[0].page == PageV::Processes(ProcessPageV { snap: None, config }),
            app@.nav.entries[1].label == "Resources"@,
            app@.nav.entries[1].page == PageV::Resources(ResourcePageV {
                cpu: CpuPageV { snap: None },
                memory: MemoryPageV {
                    snap: None,
                    config,
                    history: neutral_window(HISTORY_LEN as nat, 0u64),
                },
            }),
            app@.window_title == title_of(Some("Processes"@)),
    {
        let mut nav = PageRegistry::new();
        let processes = Page::Processes(ProcessPage::new(config));
        let resources = Page::Resources(ResourcePage::new(config));
        let _processes_id = nav.insert(
            "Processes".to_owned(),
            "utilities-terminal-symbolic".to_owned(),
            processes,
        );
        let _resources_id = nav.insert(
            "Resources".to_owned(),
            "utilities-system-monitor-symbolic".to_owned(),
            resources,
        );
        let mut app = AppModel {
            context_page: ContextPage::default(),
            show_context: false,
            nav,
            config,
            interface: None,
            window_title: String::new(),
            state: DispatcherState::Uninitialized,
        };
        app.update_title();
        app
    }

    /// Recomputes the window title from the active page's label and returns
    /// it for the shell to apply; nothing else moves.
    pub fn update_title(&mut self) -> (title: String)
        requires
            old(self).inv(),
        ensures
            final(self).inv(),
            final(self)@ == (AppModelV {
                window_title: title_of(active_label(old(self)@.nav)),
                ..old(self)@
            }),
            title@ == final(self)@.window_title,
    {
        let mut title = "Observatory".to_owned();
        match self.nav.active_entry() {
            Some(entry) => {
                title.append(" — ");
                title.append(entry.label.as_str());
            },
            None => {},
        }
        self.window_title = title.clone();
        proof {
            assert(self@ =~= (AppModelV {
                window_title: title_of(active_label(old(self)@.nav)),
                ..old(self)@
            }));
        }
        title
    }

    /// Handles one message of the serialized event stream: routes it,
    /// broadcasts it to every registered page exactly once, in order,
    /// re-derives the window title, and returns the outside work the shell
    /// must perform.
    pub fn update(&mut self, message: &Message) -> (effects: Vec<Effect>)
        requires
            old(self).inv(),
        ensures
            final(self).inv(),
            final(self)@ == update_model(old(self)@, message@),
            effects_view(effects@) == update_effects(message@),
    {
        let mut effects: Vec<Effect> = Vec::new();
        match message {
            Message::OpenRepositoryUrl => {
                effects.push(Effect::OpenRepository);
            },
            Message::ToggleContextPage(page) => {
                if self.context_page == *page {
                    self.show_context = !self.show_context;
                } else {
                    self.context_page = *page;
                    self.show_context = true;
                }
            },
            Message::UpdateConfig(config) => {
                self.config = *config;
            },
            Message::LaunchUrl(url) => {
                effects.push(Effect::OpenUrl(url.clone()));
            },
            Message::InterfaceLoaded(handle) => {
                self.interface = Some(*handle);
                self.state = DispatcherState::Live;
            },
            Message::SourceDisconnected => {
                self.interface = None;
                self.state = DispatcherState::Disconnected;
            },
            Message::SetScaleByCore(on) => {
                effects.push(Effect::PersistScaleByCore(*on));
            },
            Message::SetMulticoreView(on) => {
                effects.push(Effect::PersistMulticoreView(*on));
            },
            _ => {},
        }
        self.nav.broadcast(message);
        self.update_title();
        proof {
            assert(self@ =~= update_model(old(self)@, message@));
            assert(effects_view(effects@) =~= update_effects(message@));
        }
        effects
    }

    /// Selects a page by identity (an unknown identity changes nothing) and
    /// re-derives the window title.
    pub fn on_nav_select(&mut self, id: u64)
        requires
            old(self).inv(),
        ensures
            final(self).inv(),
            final(self)@ == select_model(old(self)@, id),
    {
        let _found = self.nav.activate(id);
        self.update_title();
        proof {
            assert(self@ =~= select_model(old(self)@, id));
        }
    }

    /// Winds the loop down at process termination.
    pub fn shutdown(&mut self)
        requires
            old(self).inv(),
        ensures
            final(self).inv(),
            final(self)@ == (AppModelV { state: DispatcherState::Shutdown, ..old(self)@ }),
    {
        self.state = DispatcherState::Shutdown;
    }

    /// Which context page the drawer shows right now: none while the drawer
    /// is closed.
    pub fn context_drawer(&self) -> (page: Option<ContextPage>)
        ensures
            page == if self@.show_context {
                Some(self@.context_page)
            } else {
                None::<ContextPage>
            },
    {
        if self.show_context {
            Some(self.context_page)
        } else {
            None
        }
    }

    /// The registry of pages.
    pub fn nav(&self) -> (nav: &PageRegistry)
        requires
            self.inv(),
        ensures
            nav@ == self@.nav,
            nav.inv(),
    {
        &self.nav
    }

    /// The active page's entry, the one whose view is rendered.
    pub fn active_entry(&self) -> (entry: Option<&PageEntry>)
        requires
            self.inv(),
        ensures
            self@.nav.entries.len() == 0 <==> entry is None,
            entry matches Some(e) ==> e@ == self@.nav.entries[self@.nav.active],
    {
        self.nav.active_entry()
    }

    /// The current window title.
    pub fn window_title(&self) -> (title: &String)
        ensures
            title@ == self@.window_title,
    {
        &self.window_title
    }

    /// The dispatcher's own copy of the configuration.
    pub fn config(&self) -> (config: Config)
        ensures
            config == self@.config,
    {
        self.config
    }

    /// Where the dispatcher stands.
    pub fn state(&self) -> (state: DispatcherState)
        ensures
            state == self@.state,
    {
        self.state
    }

    /// The interface handle, once the dispatcher is live.
    pub fn interface(&self) -> (interface: Option<InterfaceHandle>)
        ensures
            interface == self@.interface,
    {
        self.interface
    }

    /// Which context page the drawer would show.
    pub fn context_page(&self) -> (page: ContextPage)
        ensures
            page == self@.context_page,
    {
        self.context_page
    }

    /// Whether the context drawer is open.
    pub fn show_context(&self) -> (shown: bool)
        ensures
            shown == self@.show_context,
    {
        self.show_context
    }
}

/// The dispatcher after a whole sequence of events, processed in order.
pub open spec fn run_model(m: AppModelV, msgs: Seq<MessageV>) -> AppModelV
    decreases msgs.len(),
{
    if msgs.len() == 0 {
        m
    } else {
        update_model(run_model(m, msgs.drop_last()), msgs.last())
    }
}

/// A single page after the same sequence of events, taken one at a time.
pub open spec fn run_page(page: PageV, msgs: Seq<MessageV>) -> PageV
    decreases msgs.len(),
{
    if msgs.len() == 0 {
        page
    } else {
        page_step(run_page(page, msgs.drop_last()), msgs.last())
    }
}

/// Broadcast completeness. However many events the dispatcher processes,
/// every registered page's state is the fold of its own step function over
/// exactly those events, in the original order — each event reaches each
/// page exactly once, no page is skipped, and registration order, metadata
/// and the active selection are untouched.
pub proof fn lemma_broadcast_completeness(m: AppModelV, msgs: Seq<MessageV>)
    ensures
        run_model(m, msgs).nav.entries.len() == m.nav.entries.len(),
        run_model(m, msgs).nav.active == m.nav.active,
        forall|i: int| 0 <= i < m.nav.entries.len() ==> {
            let entry = #[trigger] run_model(m, msgs).nav.entries[i];
            &&& entry.id == m.nav.entries[i].id
            &&& entry.label == m.nav.entries[i].label
            &&& entry.icon == m.nav.entries[i].icon
            &&& entry.page == run_page(m.nav.entries[i].page, msgs)
        },
    decreases msgs.len(),
{
    if msgs.len() > 0 {
        lemma_broadcast_completeness(m, msgs.drop_last());
        let prev = run_model(m, msgs.drop_last());
        let last = msgs.last();
        assert(route_model(prev, last).nav == prev.nav);
        assert(run_model(m, msgs).nav.entries == broadcast_model(prev.nav, last).entries);
    }
}

} // verus!
