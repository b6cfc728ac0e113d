//! The decisions of the background worker: what each command of the user
//! interface does to the worker's state, and what work it calls for.
use crate::models::{ProxyLink, SourcesConfig, SourcesV};
use crate::sources::{
    add_custom_link_spec, add_subscription, add_subscription_spec, remove_custom_link,
    remove_custom_link_spec, remove_subscription, remove_subscription_spec, result_view,
    add_custom_link, toggle_custom_link, toggle_custom_link_spec, toggle_subscription,
    toggle_subscription_spec,
};
use crate::text::{chars_of, concat, decimal, decimal_digits, string_of};
use vstd::prelude::*;

verus! {

/// One row of the list of configurations, ready to be drawn.
#[derive(Clone, Debug, Default)]
pub struct UiConfig {
    pub name: String,
    pub flag: String,
    pub ping: String,
    pub speed: String,
    pub selected: bool,
    pub is_connected: bool,
}

/// What the user interface asks the worker to do.
pub enum Command {
    LoadAll,
    StartSearch,
    RetestConfigs,
    ToggleVpn,
    SelectConfig(usize),
    AddSubscription { name: String, url: String },
    RemoveSubscription(usize),
    ToggleSubscription(usize),
    AddCustomLink(String),
    RemoveCustomLink(usize),
    ToggleCustomLink(usize),
    Shutdown,
}

/// The part of the worker's state that its decisions read and change.
pub struct WorkerCore {
    /// How many working configurations there are.
    pub n_configs: usize,
    pub selected_index: Option<usize>,
    pub connected_index: Option<usize>,
    pub is_connected: bool,
    pub sources: SourcesConfig,
}

/// The work a command leaves to the worker, after its state has changed.
#[derive(Debug)]
pub enum WorkerAction {
    /// Load the saved configurations, then `configs_loaded` and publish.
    LoadSaved,
    /// Fetch, test and keep working configurations; `is_retest` retests
    /// the ones there are instead of fetching new links.
    RunSearch { is_retest: bool },
    /// Stop the running proxy and restore the network settings, then publish.
    StopVpn,
    /// Start the proxy with configuration `index`, then `vpn_started` if it
    /// came up, and publish.
    Connect(usize),
    /// Publish the state.
    Publish,
    /// Save the sources, then publish.
    SaveSources,
    /// Show `message` as the last error (none for `None`), save the
    /// sources, then publish.
    ReportAndSave(Option<String>),
    /// Stop the running proxy and end the worker.
    Shutdown,
}

pub enum ActionV {
    LoadSaved,
    RunSearch { is_retest: bool },
    StopVpn,
    Connect(usize),
    Publish,
    SaveSources,
    ReportAndSave(Option<Seq<char>>),
    Shutdown,
}

impl View for WorkerAction {
    type V = ActionV;

    open spec fn view(&self) -> ActionV {
        match self {
            WorkerAction::LoadSaved => ActionV::LoadSaved,
            WorkerAction::RunSearch { is_retest } => ActionV::RunSearch { is_retest: *is_retest },
            WorkerAction::StopVpn => ActionV::StopVpn,
            WorkerAction::Connect(i) => ActionV::Connect(*i),
            WorkerAction::Publish => ActionV::Publish,
            WorkerAction::SaveSources => ActionV::SaveSources,
            WorkerAction::ReportAndSave(m) => ActionV::ReportAndSave(
                match m {
                    Some(s) => Some(s@),
                    None => None,
                },
            ),
            WorkerAction::Shutdown => ActionV::Shutdown,
        }
    }
}

pub struct CoreV {
    pub n_configs: nat,
    pub selected_index: Option<usize>,
    pub connected_index: Option<usize>,
    pub is_connected: bool,
    pub sources: SourcesV,
}

impl View for WorkerCore {
    type V = CoreV;

    open spec fn view(&self) -> CoreV {
        CoreV {
            n_configs: self.n_configs as nat,
            selected_index: self.selected_index,
            connected_index: self.connected_index,
            is_connected: self.is_connected,
            sources: self.sources@,
        }
    }
}

/// The state with the sources replaced.
pub open spec fn with_sources(c: CoreV, s: SourcesV) -> CoreV {
    CoreV { sources: s, ..c }
}

/// The state with no proxy running.
pub open spec fn disconnected(c: CoreV) -> CoreV {
    CoreV { is_connected: false, connected_index: None, ..c }
}

/// The state and the work that `cmd` gives, where the state was `c`.
pub open spec fn step_spec(c: CoreV, cmd: Command) -> (CoreV, ActionV) {
    match cmd {
        Command::LoadAll => (c, ActionV::LoadSaved),
        Command::StartSearch => (c, ActionV::RunSearch { is_retest: false }),
        Command::RetestConfigs => (c, ActionV::RunSearch { is_retest: true }),
        Command::ToggleVpn => if c.is_connected {
            (disconnected(c), ActionV::StopVpn)
        } else {
            match c.selected_index {
                Some(i) => if (i as nat) < c.n_configs {
                    (c, ActionV::Connect(i))
                } else {
                    (c, ActionV::Publish)
                },
                None => (c, ActionV::Publish),
            }
        },
        Command::SelectConfig(i) => if (i as nat) < c.n_configs {
            (CoreV { selected_index: Some(i), ..c }, ActionV::Publish)
        } else {
            (c, ActionV::Publish)
        },
        Command::AddSubscription { name, url } => (
            with_sources(c, add_subscription_spec(c.sources, name@, url@)),
            ActionV::SaveSources,
        ),
        Command::RemoveSubscription(i) => (
            with_sources(c, remove_subscription_spec(c.sources, i as int)),
            ActionV::SaveSources,
        ),
        Command::ToggleSubscription(i) => (
            with_sources(c, toggle_subscription_spec(c.sources, i as int)),
            ActionV::SaveSources,
        ),
        Command::AddCustomLink(raw) => {
            let (s, res) = add_custom_link_spec(c.sources, raw@);
            (
                with_sources(c, s),
                ActionV::ReportAndSave(
                    match res {
                        Ok(()) => None,
                        Err(m) => Some(m),
                    },
                ),
            )
        },
        Command::RemoveCustomLink(i) => (
            with_sources(c, remove_custom_link_spec(c.sources, i as int)),
            ActionV::SaveSources,
        ),
        Command::ToggleCustomLink(i) => (
            with_sources(c, toggle_custom_link_spec(c.sources, i as int)),
            ActionV::SaveSources,
        ),
        Command::Shutdown => (disconnected(c), ActionV::Shutdown),
    }
}

/// Applies a command of the user interface to the worker's state and says
/// what work is left to do.
pub fn handle_command(core: &mut WorkerCore, cmd: Command) -> (r: WorkerAction)
    ensures
        final(core)@ == step_spec(old(core)@, cmd).0,
        r@ == step_spec(old(core)@, cmd).1,
{
    match cmd {
        Command::LoadAll => WorkerAction::LoadSaved,
        Command::StartSearch => WorkerAction::RunSearch { is_retest: false },
        Command::RetestConfigs => WorkerAction::RunSearch { is_retest: true },
        Command::ToggleVpn => {
            if core.is_connected {
                core.is_connected = false;
                core.connected_index = None;
                WorkerAction::StopVpn
            } else {
                match core.selected_index {
                    Some(i) => if i < core.n_configs {
                        WorkerAction::Connect(i)
                    } else {
                        WorkerAction::Publish
                    },
                    None => WorkerAction::Publish,
                }
            }
        },
        Command::SelectConfig(i) => {
            if i < core.n_configs {
                core.selected_index = Some(i);
            }
            WorkerAction::Publish
        },
        Command::AddSubscription { name, url } => {
            add_subscription(&mut core.sources, name, url);
            WorkerAction::SaveSources
        },
        Command::RemoveSubscription(i) => {
            remove_subscription(&mut core.sources, i);
            WorkerAction::SaveSources
        },
        Command::ToggleSubscription(i) => {
            toggle_subscription(&mut core.sources, i);
            WorkerAction::SaveSources
        },
        Command::AddCustomLink(raw) => {
            match add_custom_link(&mut core.sources, raw) {
                Ok(()) => WorkerAction::ReportAndSave(None),
                Err(m) => WorkerAction::ReportAndSave(Some(m)),
            }
        },
        Command::RemoveCustomLink(i) => {
            remove_custom_link(&mut core.sources, i);
            WorkerAction::SaveSources
        },
        Command::ToggleCustomLink(i) => {
            toggle_custom_link(&mut core.sources, i);
            WorkerAction::SaveSources
        },
        Command::Shutdown => {
            core.is_connected = false;
            core.connected_index = None;
            WorkerAction::Shutdown
        },
    }
}

/// The state once `n` configurations replace the ones there were.
pub open spec fn configs_loaded_spec(c: CoreV, n: nat) -> CoreV {
    CoreV {
        n_configs: n,
        selected_index: if n == 0 {
            None
        } else {
            Some(0)
        },
        ..c
    }
}

/// Records that `n` configurations replace the ones there were: the first
/// is selected, none where there are none.
pub fn configs_loaded(core: &mut WorkerCore, n: usize)
    ensures
        final(core)@ == configs_loaded_spec(old(core)@, n as nat),
{
    core.n_configs = n;
    core.selected_index = if n == 0 {
        None
    } else {
        Some(0)
    };
}

/// Records that the proxy is running with configuration `index`.
pub fn vpn_started(core: &mut WorkerCore, index: usize)
    ensures
        final(core)@ == (CoreV { is_connected: true, connected_index: Some(index), ..old(core)@ }),
{
    core.is_connected = true;
    core.connected_index = Some(index);
}

/// Whether row `i` is the selected one, and whether it is the one connected.
pub fn row_marks(core: &WorkerCore, i: usize) -> (r: (bool, bool))
    ensures
        r.0 == (core.selected_index == Some(i)),
        r.1 == (core.is_connected && core.connected_index == Some(i)),
{
    let selected = match core.selected_index {
        Some(s) => s == i,
        None => false,
    };
    let connected = core.is_connected && match core.connected_index {
        Some(c) => c == i,
        None => false,
    };
    (selected, connected)
}

/// The latency column of a row: the milliseconds and ` ms`.
pub fn ping_text(latency_ms: u128) -> (r: String)
    ensures
        r@ == decimal(latency_ms as nat) + " ms"@,
{
    string_of(&concat(&decimal_digits(latency_ms), &chars_of(" ms")))
}

/// At most this many links from the sources are tested in one search.
pub const MAX_SEARCH_LINKS: usize = 150;

/// Keeps the first `MAX_SEARCH_LINKS` links.
pub fn limit_links(links: &mut Vec<ProxyLink>)
    ensures
        final(links)@ == old(links)@.subrange(
            0,
            if old(links)@.len() < MAX_SEARCH_LINKS {
                old(links)@.len() as int
            } else {
                MAX_SEARCH_LINKS as int
            },
        ),
{
    links.truncate(MAX_SEARCH_LINKS);
}

/// The links that a search tests: a fresh search keeps the first
/// `MAX_SEARCH_LINKS` that the sources gave, a retest all the saved ones.
pub open spec fn search_links_spec(links: Seq<ProxyLink>, is_retest: bool) -> Seq<ProxyLink> {
    if is_retest || links.len() < MAX_SEARCH_LINKS {
        links
    } else {
        links.subrange(0, MAX_SEARCH_LINKS as int)
    }
}

/// The links that a search goes on to test, or `None` where there are none
/// and the search ends with `no_links_message`.
pub fn search_links(links: Vec<ProxyLink>, is_retest: bool) -> (r: Option<Vec<ProxyLink>>)
    ensures
        search_links_spec(links@, is_retest).len() == 0 ==> r is None,
        search_links_spec(links@, is_retest).len() > 0 ==> (r matches Some(v) && v@
            == search_links_spec(links@, is_retest)),
        r matches Some(v) ==> v@.len() <= if is_retest {
            links@.len()
        } else {
            MAX_SEARCH_LINKS as nat
        },
{
    let mut links = links;
    if !is_retest {
        limit_links(&mut links);
    }
    if links.len() == 0 {
        None
    } else {
        Some(links)
    }
}

/// The error shown after gathering links: the first of them, if any.
pub fn first_error(errors: &Vec<String>) -> (r: Option<String>)
    ensures
        errors@.len() == 0 ==> r is None,
        errors@.len() > 0 ==> (r matches Some(e) && e@ == errors@[0]@),
{
    if errors.len() == 0 {
        None
    } else {
        Some(errors[0].clone())
    }
}

/// The message shown when a search finds no link at all.
pub fn no_links_message() -> (r: String)
    ensures
        r@ == "Не найдено ни одной конфигурации. Проверьте источники."@,
{
    String::from_str("Не найдено ни одной конфигурации. Проверьте источники.")
}

/// Switching the proxy off from a connected state leaves it disconnected,
/// with no configuration marked as connected.
pub proof fn law_toggle_off_disconnects(c: CoreV)
    requires
        c.is_connected,
    ensures
        !step_spec(c, Command::ToggleVpn).0.is_connected,
        step_spec(c, Command::ToggleVpn).0.connected_index is None,
{
}

/// A selection only ever points at an existing configuration: selecting
/// keeps `selected_index < n_configs` once it holds.
pub proof fn law_selection_in_range(c: CoreV, i: usize)
    requires
        c.selected_index matches Some(s) ==> (s as nat) < c.n_configs,
    ensures
        step_spec(c, Command::SelectConfig(i)).0.selected_index matches Some(s) ==> (s as nat)
            < c.n_configs,
{
}

/// Searching from the sources is what StartSearch asks for, testing the
/// saved servers again is what RetestConfigs asks for, and loading the
/// saved servers is what LoadAll asks for; none of them changes the state.
pub proof fn law_search_commands(c: CoreV)
    ensures
        step_spec(c, Command::StartSearch) == (c, ActionV::RunSearch { is_retest: false }),
        step_spec(c, Command::RetestConfigs) == (c, ActionV::RunSearch { is_retest: true }),
        step_spec(c, Command::LoadAll) == (c, ActionV::LoadSaved),
{
}

/// Switching the proxy on connects to the selected configuration where one
/// is selected among those there, and otherwise only shows the state again;
/// the state does not change either way.
pub proof fn law_toggle_on_connects_selected(c: CoreV)
    requires
        !c.is_connected,
    ensures
        step_spec(c, Command::ToggleVpn).0 == c,
        (c.selected_index matches Some(i) && (i as nat) < c.n_configs) ==> step_spec(
            c,
            Command::ToggleVpn,
        ).1 == ActionV::Connect(c.selected_index->0),
        !(c.selected_index matches Some(i) && (i as nat) < c.n_configs) ==> step_spec(
            c,
            Command::ToggleVpn,
        ).1 == ActionV::Publish,
{
}

/// Shutting down stops the proxy and leaves no configuration connected.
pub proof fn law_shutdown_disconnects(c: CoreV)
    ensures
        step_spec(c, Command::Shutdown).1 == ActionV::Shutdown,
        !step_spec(c, Command::Shutdown).0.is_connected,
        step_spec(c, Command::Shutdown).0.connected_index is None,
        step_spec(c, Command::Shutdown).0.sources == c.sources,
{
}

} // verus!
