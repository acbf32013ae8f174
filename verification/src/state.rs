//! The console's state: which view is shown, what is selected, filtered and
//! being edited, and the messages shown to the user. Work that needs the
//! outside world (running providers, editors, charts) is done by the caller,
//! which hands the outcome back to the methods here.
use vstd::prelude::*;

use crate::config::{
    same_document_config, AppConfig, DocumentProviderConfig, MonitorProviderConfig, WorkspaceConfig,
};
use crate::dataframe::{
    filter_indexes, lemma_matching_indexes, lowercase_of, rows_at, rows_view, CellValue, DataFrame,
};
use crate::document::DocumentResource;
use crate::error::{error_text, DeliError, DeliErrorKind};
use crate::gnuplot::{ChartPlan, ChartRenderStatus, TimeSeriesFrame};
use crate::text::{
    append_chars, chars_of, concat, concat3, copy_strings, nat_digits, owned, push_char, slice_chars,
    string_of, trim, trim_str, u64_text,
};

verus! {

/// The views of the console.
#[derive(Debug, Clone, Copy, PartialEq, Eq, Structural)]
pub enum ActiveView {
    Documents,
    Configs,
    Worktree,
    Monitoring,
    Services,
}

/// The name a view is shown under.
pub open spec fn view_label(v: ActiveView) -> Seq<char> {
    match v {
        ActiveView::Documents => "Documents"@,
        ActiveView::Configs => "Configs"@,
        ActiveView::Worktree => "Worktree"@,
        ActiveView::Monitoring => "Monitoring"@,
        ActiveView::Services => "Services"@,
    }
}

impl ActiveView {
    /// The name this view is shown under.
    pub fn label(&self) -> (res: &'static str)
        ensures
            res@ == view_label(*self),
    {
        match self {
            ActiveView::Documents => "Documents",
            ActiveView::Configs => "Configs",
            ActiveView::Worktree => "Worktree",
            ActiveView::Monitoring => "Monitoring",
            ActiveView::Services => "Services",
        }
    }

    /// Every view, in the order the sidebar lists them.
    pub fn all() -> (res: [ActiveView; 5])
        ensures
            res@ == seq![
                ActiveView::Documents,
                ActiveView::Configs,
                ActiveView::Worktree,
                ActiveView::Monitoring,
                ActiveView::Services,
            ],
    {
        let res = [
            ActiveView::Documents,
            ActiveView::Configs,
            ActiveView::Worktree,
            ActiveView::Monitoring,
            ActiveView::Services,
        ];
        assert(res@ =~= seq![
            ActiveView::Documents,
            ActiveView::Configs,
            ActiveView::Worktree,
            ActiveView::Monitoring,
            ActiveView::Services,
        ]);
        res
    }
}

/// An index kept inside a list of `len` items (0 for an empty list).
pub open spec fn clamped(index: int, len: int) -> int {
    if len <= 0 {
        0
    } else if index < len - 1 {
        index
    } else {
        len - 1
    }
}

/// An index moved by `delta` in a list of `len` items: down to 0 at least,
/// up to the last item at most (0 for an empty list).
pub open spec fn stepped(index: int, len: int, delta: int) -> int {
    if len <= 0 {
        0
    } else if delta < 0 {
        if index + delta < 0 {
            0
        } else {
            index + delta
        }
    } else {
        clamped(index + delta, len)
    }
}

/// An index moved by `delta` around a list of `len` items, wrapping at both
/// ends (0 for an empty list).
pub open spec fn wrapped(index: int, len: int, delta: int) -> int {
    if len <= 0 {
        0
    } else {
        (index + delta) % len
    }
}

/// Keeps an index inside a list of `len` items.
pub fn clamp_index(index: usize, len: usize) -> (res: usize)
    ensures
        res == clamped(index as int, len as int),
{
    if len == 0 {
        0
    } else if index < len - 1 {
        index
    } else {
        len - 1
    }
}

/// The size of a negative step.
fn magnitude(delta: isize) -> (res: usize)
    requires
        delta < 0,
    ensures
        res == -delta,
{
    let m = (-(delta + 1)) as usize;
    m + 1
}

/// Moves an index by `delta` in a list of `len` items (see `stepped`).
pub fn step_index(index: usize, len: usize, delta: isize) -> (res: usize)
    ensures
        res == stepped(index as int, len as int, delta as int),
{
    if len == 0 {
        return 0;
    }
    if delta < 0 {
        let m = magnitude(delta);
        if index < m {
            0
        } else {
            index - m
        }
    } else {
        let d = delta as usize;
        let moved = if index > usize::MAX - d {
            usize::MAX
        } else {
            index + d
        };
        clamp_index(moved, len)
    }
}

/// The Euclidean remainder of a negative number `-a - 1` by `len`.
proof fn lemma_negative_remainder(a: int, len: int)
    requires
        a >= 0,
        len > 0,
    ensures
        (-a - 1) % len == len - 1 - a % len,
{
    let q = a / len;
    let r = a % len;
    assert(a == q * len + r) by (nonlinear_arith)
        requires
            len > 0,
            q == a / len,
            r == a % len,
    ;
    assert(0 <= r < len);
    assert(-a - 1 == (-q - 1) * len + (len - 1 - r)) by (nonlinear_arith)
        requires
            a == q * len + r,
    ;
    vstd::arithmetic::div_mod::lemma_fundamental_div_mod_converse(
        -a - 1,
        len,
        -q - 1,
        len - 1 - r,
    );
}

/// Moves an index by `delta` around a list of `len` items (see `wrapped`).
pub fn wrap_index(index: usize, len: usize, delta: isize) -> (res: usize)
    requires
        index <= isize::MAX,
        len <= isize::MAX,
        isize::MIN <= index + delta <= isize::MAX,
    ensures
        res == wrapped(index as int, len as int, delta as int),
        len > 0 ==> res < len,
{
    if len == 0 {
        return 0;
    }
    let sum: isize = index as isize + delta;
    if sum >= 0 {
        (sum as usize) % len
    } else {
        let a = (-(sum + 1)) as usize;
        proof {
            lemma_negative_remainder(a as int, len as int);
        }
        len - 1 - a % len
    }
}

/// Where the `i`-th character stands in a text of `len` characters: the end
/// when there is no such character.
pub open spec fn char_pos(len: int, i: int) -> int {
    if i < len {
        i
    } else {
        len
    }
}

/// The state of one monitoring source: its provider, current query and
/// presets.
#[derive(Debug, Clone)]
pub struct MonitorSourceState {
    pub name: String,
    pub query: String,
    pub query_presets: Vec<String>,
    pub preset_index: usize,
}

/// Where the metric graph is drawn, in terminal cells.
#[derive(Debug, Clone, Copy, PartialEq, Eq, Structural)]
pub struct GraphArea {
    pub x: u16,
    pub y: u16,
    pub width: u16,
    pub height: u16,
}

/// Everything the console shows and edits.
#[derive(Debug)]
pub struct AppState {
    pub workspace_name: String,
    pub workspace_root: String,
    pub active_view: ActiveView,
    pub command_palette_open: bool,
    pub command_query: String,
    pub command_cursor: usize,
    pub notifications: Vec<String>,
    pub documents: Vec<DocumentResource>,
    pub config_frame: DataFrame,
    pub service_frame: DataFrame,
    pub monitor_frame: Option<TimeSeriesFrame>,
    pub action_commands: Vec<String>,
    pub document_provider_configs: Vec<DocumentProviderConfig>,
    pub document_index: usize,
    pub document_scroll: usize,
    /// The text the document editor is to be reloaded with, until the caller
    /// has reloaded it.
    pub document_editor_reload: Option<String>,
    pub document_editor_dirty: bool,
    pub document_editor_mode: bool,
    pub config_index: usize,
    pub config_filter_query: String,
    pub config_filter_mode: bool,
    /// Whether the inspector is to be reloaded with the selected row, until
    /// the caller has reloaded it.
    pub config_editor_reload: bool,
    pub config_editor_row: Option<usize>,
    pub config_editor_dirty: bool,
    pub config_editor_mode: bool,
    pub service_index: usize,
    pub service_filter_query: String,
    pub service_filter_mode: bool,
    pub monitor_query: String,
    /// The text the query editor is to be reloaded with, until the caller has
    /// reloaded it.
    pub monitor_query_editor_reload: Option<String>,
    pub monitor_query_mode: bool,
    pub monitor_chart_plan: Option<ChartPlan>,
    pub monitor_chart_status: Option<ChartRenderStatus>,
    pub monitor_chart_ascii: Option<String>,
    pub monitor_sources: Vec<MonitorSourceState>,
    pub monitor_provider_index: usize,
    pub monitor_live_poll: bool,
    pub monitor_refresh_seconds: u64,
    pub tick_count: u64,
    pub monitor_graph_area: GraphArea,
    pub ad_hoc_documents: Vec<DocumentResource>,
    pub refresh_count: usize,
}

/// The workspaces to choose from: the configured ones, or the default one
/// ("default" rooted at ".") when none is configured; each as name and root.
pub open spec fn workspace_choices(config: AppConfig) -> Seq<(Seq<char>, Seq<char>)> {
    if config.workspaces.len() == 0 {
        seq![("default"@, "."@)]
    } else {
        config.workspaces@.map_values(|w: WorkspaceConfig| (w.name@, w.root@))
    }
}

/// The first choice named `name`, if any.
pub open spec fn first_named(choices: Seq<(Seq<char>, Seq<char>)>, name: Seq<char>, n: int) -> Option<
    int,
>
    decreases n,
{
    if n <= 0 {
        None
    } else {
        match first_named(choices, name, n - 1) {
            Some(k) => Some(k),
            None => if choices[n - 1].0 == name {
                Some(n - 1)
            } else {
                None
            },
        }
    }
}

/// Where the first choice named `name` stands, found among the first `n`.
proof fn lemma_first_named(choices: Seq<(Seq<char>, Seq<char>)>, name: Seq<char>, n: int)
    requires
        0 <= n <= choices.len(),
    ensures
        match first_named(choices, name, n) {
            Some(k) => 0 <= k < n && choices[k].0 == name && forall|j: int|
                0 <= j < k ==> choices[j].0 != name,
            None => forall|j: int| 0 <= j < n ==> choices[j].0 != name,
        },
    decreases n,
{
    if n > 0 {
        lemma_first_named(choices, name, n - 1);
    }
}

/// The workspace the console opens: the one named by the override, else the
/// first; an override that names no workspace is refused with "workspace
/// '<name>' not found".
pub open spec fn selected_workspace(config: AppConfig, workspace_override: Option<Seq<char>>) -> Result<
    (Seq<char>, Seq<char>),
    Seq<char>,
> {
    let choices = workspace_choices(config);
    match workspace_override {
        Some(name) => match first_named(choices, name, choices.len() as int) {
            Some(k) => Ok(choices[k]),
            None => Err("workspace '"@ + name + "' not found"@),
        },
        None => Ok(choices[0]),
    }
}

/// The view of an optional string.
pub open spec fn opt_text(o: Option<String>) -> Option<Seq<char>> {
    match o {
        Some(s) => Some(s@),
        None => None,
    }
}

/// Chooses the workspace to open (see `selected_workspace`).
pub fn select_workspace(config: &AppConfig, workspace_override: Option<String>) -> (res: Result<
    WorkspaceConfig,
    DeliError,
>)
    ensures
        match selected_workspace(*config, opt_text(workspace_override)) {
            Ok(w) => res matches Ok(ws) && ws.name@ == w.0 && ws.root@ == w.1,
            Err(m) => res matches Err(e) && e.kind == DeliErrorKind::Configuration && e.message@
                == m && e.retry_hint is None,
        },
{
    let ghost choices = workspace_choices(*config);
    let mut workspaces: Vec<WorkspaceConfig> = Vec::new();
    if config.workspaces.len() == 0 {
        workspaces.push(WorkspaceConfig { name: owned("default"), root: owned(".") });
    } else {
        let mut i: usize = 0;
        while i < config.workspaces.len()
            invariant
                i <= config.workspaces.len(),
                workspaces@.len() == i,
                forall|k: int|
                    0 <= k < i ==> #[trigger] workspaces@[k].name@ == config.workspaces@[k].name@
                        && workspaces@[k].root@ == config.workspaces@[k].root@,
            decreases config.workspaces.len() - i,
        {
            let w = &config.workspaces[i];
            workspaces.push(WorkspaceConfig { name: w.name.clone(), root: w.root.clone() });
            i += 1;
        }
    }
    assert(workspaces@.len() == choices.len());
    assert(forall|k: int|
        0 <= k < choices.len() ==> (#[trigger] workspaces@[k].name@, workspaces@[k].root@)
            == choices[k]);
    match workspace_override {
        Some(name) => {
            let mut i: usize = 0;
            while i < workspaces.len()
                invariant
                    i <= workspaces.len(),
                    workspaces@.len() == choices.len(),
                    forall|k: int|
                        0 <= k < choices.len() ==> (#[trigger] workspaces@[k].name@,
                        workspaces@[k].root@) == choices[k],
                    first_named(choices, name@, i as int) is None,
                    opt_text(workspace_override) == Some(name@),
                    choices == workspace_choices(*config),
                decreases workspaces.len() - i,
            {
                proof {
                    lemma_first_named(choices, name@, i as int);
                }
                if workspaces[i].name == name {
                    let w = &workspaces[i];
                    proof {
                        assert(choices[i as int] == (workspaces@[i as int].name@,
                        workspaces@[i as int].root@));
                        assert(first_named(choices, name@, i + 1) == Some(i as int));
                        lemma_first_named(choices, name@, choices.len() as int);
                        let k = first_named(choices, name@, choices.len() as int)->0;
                        assert(k == i);
                    }
                    return Ok(WorkspaceConfig { name: w.name.clone(), root: w.root.clone() });
                }
                i += 1;
            }
            let mut msg = owned("workspace '");
            msg.append(name.as_str());
            msg.append("' not found");
            Err(DeliError::new(DeliErrorKind::Configuration, msg))
        },
        None => {
            let w = &workspaces[0];
            Ok(WorkspaceConfig { name: w.name.clone(), root: w.root.clone() })
        },
    }
}

/// The first preset equal to the query, among the first `n`.
pub open spec fn first_preset(presets: Seq<String>, q: Seq<char>, n: int) -> Option<int>
    decreases n,
{
    if n <= 0 {
        None
    } else {
        match first_preset(presets, q, n - 1) {
            Some(k) => Some(k),
            None => if presets[n - 1]@ == q {
                Some(n - 1)
            } else {
                None
            },
        }
    }
}

/// Where the query stands among the presets: its first position, else 0.
pub open spec fn preset_position(presets: Seq<String>, q: Seq<char>) -> int {
    match first_preset(presets, q, presets.len() as int) {
        Some(k) => k,
        None => 0,
    }
}

/// The text of an optional string, empty when there is none.
pub open spec fn text_or_empty(o: Option<String>) -> Seq<char> {
    match o {
        Some(s) => s@,
        None => Seq::empty(),
    }
}

/// The state a monitoring source starts in: the provider's query (empty when
/// it has none), its presets, and the position of the query among them.
pub open spec fn is_initial_source(s: MonitorSourceState, p: MonitorProviderConfig) -> bool {
    &&& s.name == p.name
    &&& s.query@ == text_or_empty(p.query)
    &&& s.query_presets@ == p.query_presets@
    &&& s.preset_index == preset_position(p.query_presets@, text_or_empty(p.query))
}

/// Once a preset is found among the first `m`, it stays the first one.
proof fn lemma_first_preset_stays(presets: Seq<String>, q: Seq<char>, m: int, n: int)
    requires
        0 <= m <= n,
        first_preset(presets, q, m) is Some,
    ensures
        first_preset(presets, q, n) == first_preset(presets, q, m),
    decreases n - m,
{
    if m < n {
        lemma_first_preset_stays(presets, q, m, n - 1);
    }
}

/// The first position of the query among the presets, if any.
fn find_preset_opt(presets: &Vec<String>, q: &String) -> (res: Option<usize>)
    ensures
        match first_preset(presets@, q@, presets@.len() as int) {
            Some(k) => 0 <= k < presets.len() && res == Some(k as usize),
            None => res is None,
        },
{
    let mut i: usize = 0;
    while i < presets.len()
        invariant
            i <= presets.len(),
            first_preset(presets@, q@, i as int) is None,
        decreases presets.len() - i,
    {
        if presets[i] == *q {
            proof {
                assert(first_preset(presets@, q@, i + 1) == Some(i as int));
                lemma_first_preset_stays(presets@, q@, i + 1, presets.len() as int);
            }
            return Some(i);
        }
        i += 1;
    }
    proof {
        lemma_first_preset_range(presets@, q@, presets.len() as int);
    }
    None
}

/// The position of the query among the presets (see `preset_position`).
fn find_preset(presets: &Vec<String>, q: &String) -> (res: usize)
    ensures
        res == preset_position(presets@, q@),
{
    match find_preset_opt(presets, q) {
        Some(k) => k,
        None => 0,
    }
}

/// A preset found among the first `n` stands before `n`.
proof fn lemma_first_preset_range(presets: Seq<String>, q: Seq<char>, n: int)
    ensures
        first_preset(presets, q, n) matches Some(k) ==> 0 <= k < n,
    decreases n,
{
    if n > 0 {
        lemma_first_preset_range(presets, q, n - 1);
    }
}

/// The sources of the configured monitoring providers, in order.
pub fn initial_sources(providers: &Vec<MonitorProviderConfig>) -> (res: Vec<MonitorSourceState>)
    ensures
        res.len() == providers.len(),
        forall|k: int| 0 <= k < res.len() ==> is_initial_source(#[trigger] res@[k], providers@[k]),
{
    let mut out: Vec<MonitorSourceState> = Vec::new();
    let mut i: usize = 0;
    while i < providers.len()
        invariant
            i <= providers.len(),
            out.len() == i,
            forall|k: int| 0 <= k < i ==> is_initial_source(#[trigger] out@[k], providers@[k]),
        decreases providers.len() - i,
    {
        let p = &providers[i];
        let query = match &p.query {
            Some(q) => q.clone(),
            None => String::new(),
        };
        let preset_index = find_preset(&p.query_presets, &query);
        out.push(
            MonitorSourceState {
                name: p.name.clone(),
                query,
                query_presets: copy_strings(&p.query_presets),
                preset_index,
            },
        );
        i += 1;
    }
    out
}

/// A copy of the document provider configurations.
fn copy_document_configs(v: &Vec<DocumentProviderConfig>) -> (res: Vec<DocumentProviderConfig>)
    ensures
        res.len() == v.len(),
        forall|k: int| 0 <= k < v.len() ==> same_document_config(#[trigger] res@[k], v@[k]),
{
    let mut out: Vec<DocumentProviderConfig> = Vec::new();
    let mut i: usize = 0;
    while i < v.len()
        invariant
            i <= v.len(),
            out.len() == i,
            forall|k: int| 0 <= k < i ==> same_document_config(#[trigger] out@[k], v@[k]),
        decreases v.len() - i,
    {
        out.push(v[i].copy());
        i += 1;
    }
    out
}

/// The state the console opens in, for the configuration and the chosen
/// workspace (name and root).
pub open spec fn is_initial(s: AppState, config: AppConfig, ws: (Seq<char>, Seq<char>)) -> bool {
    &&& s.workspace_name@ == ws.0
    &&& s.workspace_root@ == ws.1
    &&& s.active_view == ActiveView::Documents
    &&& !s.command_palette_open
    &&& s.command_query@ == Seq::<char>::empty()
    &&& s.command_cursor == 0
    &&& s.notifications@.len() == 1
    &&& s.notifications@[0]@ == "Welcome to deli"@
    &&& s.documents@.len() == 0
    &&& s.config_frame.columns@.len() == 0 && s.config_frame.rows@.len() == 0
    &&& s.service_frame.columns@.len() == 0 && s.service_frame.rows@.len() == 0
    &&& s.monitor_frame is None
    &&& s.action_commands@.len() == 0
    &&& s.document_provider_configs@.len() == config.document_providers@.len()
    &&& forall|k: int|
        0 <= k < s.document_provider_configs@.len() ==> same_document_config(
            #[trigger] s.document_provider_configs@[k],
            config.document_providers@[k],
        )
    &&& s.document_index == 0 && s.document_scroll == 0
    &&& s.document_editor_reload is None
    &&& !s.document_editor_dirty && !s.document_editor_mode
    &&& s.config_index == 0 && s.config_filter_query@ == Seq::<char>::empty()
    &&& !s.config_filter_mode && !s.config_editor_reload && s.config_editor_row is None
    &&& !s.config_editor_dirty && !s.config_editor_mode
    &&& s.service_index == 0 && s.service_filter_query@ == Seq::<char>::empty()
    &&& !s.service_filter_mode
    &&& s.monitor_query@ == (if config.monitor_providers.len() == 0 {
        Seq::<char>::empty()
    } else {
        text_or_empty(config.monitor_providers@[0].query)
    })
    &&& s.monitor_query_editor_reload is None
    &&& !s.monitor_query_mode
    &&& s.monitor_chart_plan is None && s.monitor_chart_status is None
    &&& s.monitor_chart_ascii is None
    &&& s.monitor_sources@.len() == config.monitor_providers@.len()
    &&& forall|k: int|
        0 <= k < s.monitor_sources@.len() ==> is_initial_source(
            #[trigger] s.monitor_sources@[k],
            config.monitor_providers@[k],
        )
    &&& s.monitor_provider_index == 0
    &&& !s.monitor_live_poll
    &&& s.monitor_refresh_seconds == (if config.ui.refresh_seconds == 0 {
        1
    } else {
        config.ui.refresh_seconds
    })
    &&& s.tick_count == 0
    &&& s.monitor_graph_area == GraphArea { x: 0, y: 0, width: 96, height: 18 }
    &&& s.ad_hoc_documents@.len() == 0
    &&& s.refresh_count == 0
}

impl AppState {
    /// The state the console opens in (see `is_initial`), in the workspace
    /// that `selected_workspace` chooses; fails as it does.
    pub fn new(config: &AppConfig, workspace_override: Option<String>) -> (res: Result<
        Self,
        DeliError,
    >)
        ensures
            match selected_workspace(*config, opt_text(workspace_override)) {
                Ok(w) => res matches Ok(s) && is_initial(s, *config, w),
                Err(m) => res matches Err(e) && e.kind == DeliErrorKind::Configuration
                    && e.message@ == m && e.retry_hint is None,
            },
    {
        let workspace = match select_workspace(config, workspace_override) {
            Ok(w) => w,
            Err(e) => {
                return Err(e);
            },
        };
        let monitor_query = if config.monitor_providers.len() == 0 {
            String::new()
        } else {
            match &config.monitor_providers[0].query {
                Some(q) => q.clone(),
                None => String::new(),
            }
        };
        let mut notifications: Vec<String> = Vec::new();
        notifications.push(owned("Welcome to deli"));
        let refresh = if config.ui.refresh_seconds == 0 {
            1
        } else {
            config.ui.refresh_seconds
        };
        Ok(
            AppState {
                workspace_name: workspace.name,
                workspace_root: workspace.root,
                active_view: ActiveView::Documents,
                command_palette_open: false,
                command_query: String::new(),
                command_cursor: 0,
                notifications,
                documents: Vec::new(),
                config_frame: DataFrame::empty(),
                service_frame: DataFrame::empty(),
                monitor_frame: None,
                action_commands: Vec::new(),
                document_provider_configs: copy_document_configs(&config.document_providers),
                document_index: 0,
                document_scroll: 0,
                document_editor_reload: None,
                document_editor_dirty: false,
                document_editor_mode: false,
                config_index: 0,
                config_filter_query: String::new(),
                config_filter_mode: false,
                config_editor_reload: false,
                config_editor_row: None,
                config_editor_dirty: false,
                config_editor_mode: false,
                service_index: 0,
                service_filter_query: String::new(),
                service_filter_mode: false,
                monitor_query,
                monitor_query_editor_reload: None,
                monitor_query_mode: false,
                monitor_chart_plan: None,
                monitor_chart_status: None,
                monitor_chart_ascii: None,
                monitor_sources: initial_sources(&config.monitor_providers),
                monitor_provider_index: 0,
                monitor_live_poll: false,
                monitor_refresh_seconds: refresh,
                tick_count: 0,
                monitor_graph_area: GraphArea { x: 0, y: 0, width: 96, height: 18 },
                ad_hoc_documents: Vec::new(),
                refresh_count: 0,
            },
        )
    }
}

/// The rows of the configuration table that its filter keeps.
pub open spec fn config_rows_shown(s: AppState) -> Seq<usize> {
    filter_indexes(rows_view(s.config_frame.rows@), s.config_filter_query@)
}

/// The rows of the service table that its filter keeps.
pub open spec fn service_rows_shown(s: AppState) -> Seq<usize> {
    filter_indexes(rows_view(s.service_frame.rows@), s.service_filter_query@)
}

/// The rows a filter keeps are rows of the table.
pub proof fn lemma_shown_rows_in_range(rows: Seq<Vec<CellValue>>, query: Seq<char>)
    requires
        rows.len() <= usize::MAX,
    ensures
        forall|k: int|
            0 <= k < filter_indexes(rows_view(rows), query).len() ==> filter_indexes(
                rows_view(rows),
                query,
            )[k] < rows.len(),
{
    if trim(query).len() != 0 {
        lemma_matching_indexes(rows_view(rows), lowercase_of(query), rows.len() as int);
    }
}

/// The configuration row the selection stands on, if any.
pub open spec fn selected_config_row(s: AppState) -> Option<usize> {
    if s.config_index < config_rows_shown(s).len() {
        Some(config_rows_shown(s)[s.config_index as int])
    } else {
        None
    }
}

/// The service row the selection stands on, if any.
pub open spec fn selected_service_row(s: AppState) -> Option<usize> {
    if s.service_index < service_rows_shown(s).len() {
        Some(service_rows_shown(s)[s.service_index as int])
    } else {
        None
    }
}

/// The text the document editor shows: the selected document's source, or a
/// placeholder heading.
pub open spec fn document_payload(s: AppState) -> Seq<char> {
    if s.document_index < s.documents.len() {
        s.documents@[s.document_index as int].raw@
    } else {
        "# No document selected\n"@
    }
}

/// The document editor's fields after following the selection of `before`:
/// unless it holds unsaved edits and the reload is not forced, it is to be
/// reloaded with `document_payload` and holds no edits.
pub open spec fn document_editor_follows(before: AppState, after: AppState, force: bool) -> bool {
    if !force && before.document_editor_dirty {
        after.document_editor_reload == before.document_editor_reload
            && after.document_editor_dirty
    } else {
        &&& after.document_editor_reload matches Some(t) && t@ == document_payload(before)
        &&& !after.document_editor_dirty
    }
}

/// `after` is `before` with the document editor following the selection.
pub open spec fn document_synced(before: AppState, after: AppState, force: bool) -> bool {
    &&& after == (AppState {
        document_editor_reload: after.document_editor_reload,
        document_editor_dirty: after.document_editor_dirty,
        ..before
    })
    &&& document_editor_follows(before, after, force)
}

/// The inspector's fields after following the selected row of `before`:
/// unless it holds unsaved edits of that same row and the reload is not
/// forced, it is to be reloaded with the row and holds no edits.
pub open spec fn config_editor_follows(before: AppState, after: AppState, force: bool) -> bool {
    let selected = selected_config_row(before);
    if !force && before.config_editor_dirty && before.config_editor_row == selected {
        &&& after.config_editor_row == before.config_editor_row
        &&& after.config_editor_reload == before.config_editor_reload
        &&& after.config_editor_dirty
    } else {
        &&& after.config_editor_row == selected
        &&& after.config_editor_reload
        &&& !after.config_editor_dirty
    }
}

/// `after` is `before` with the inspector following the selected row.
pub open spec fn config_synced(before: AppState, after: AppState, force: bool) -> bool {
    &&& after == (AppState {
        config_editor_row: after.config_editor_row,
        config_editor_reload: after.config_editor_reload,
        config_editor_dirty: after.config_editor_dirty,
        ..before
    })
    &&& config_editor_follows(before, after, force)
}

/// `after` holds the messages of `before` with `msg` added at the top.
pub open spec fn noted(before: Seq<String>, after: Seq<String>, msg: Seq<char>) -> bool {
    &&& after.len() == before.len() + 1
    &&& after[0]@ == msg
    &&& after.drop_first() == before
}

/// `after` is `before` with one message added at the top.
pub open spec fn notified(before: AppState, after: AppState, msg: Seq<char>) -> bool {
    &&& after == (AppState { notifications: after.notifications, ..before })
    &&& noted(before.notifications@, after.notifications@, msg)
}

/// The command text with the character inserted at the cursor.
pub open spec fn inserted_at_cursor(q: Seq<char>, cursor: int, c: char) -> Seq<char> {
    q.insert(char_pos(q.len() as int, cursor), c)
}

/// The command text without the characters from `from` up to `to`, each
/// taken as a position in it.
pub open spec fn without_range(q: Seq<char>, from: int, to: int) -> Seq<char> {
    q.take(char_pos(q.len() as int, from)) + q.skip(char_pos(q.len() as int, to))
}

/// The cursor moved by `delta`: not below 0, and when moving right not past
/// the end of the text.
pub open spec fn moved_cursor(cursor: int, len: int, delta: int) -> int {
    if delta < 0 {
        if cursor + delta < 0 {
            0
        } else {
            cursor + delta
        }
    } else if cursor + delta < len {
        cursor + delta
    } else {
        len
    }
}

impl AppState {
    /// Adds a message at the top of the message list.
    pub fn notify(&mut self, msg: String)
        ensures
            notified(*old(self), *final(self), msg@),
    {
        self.notifications.insert(0, msg);
        assert(self.notifications@.drop_first() =~= old(self).notifications@);
    }

    /// The document under the selection, if any.
    pub fn current_document(&self) -> (res: Option<&DocumentResource>)
        ensures
            self.document_index < self.documents.len() ==> res == Some(
                &self.documents@[self.document_index as int],
            ),
            self.document_index >= self.documents.len() ==> res is None,
    {
        if self.document_index < self.documents.len() {
            Some(&self.documents[self.document_index])
        } else {
            None
        }
    }

    /// The configuration row under the selection (see `selected_config_row`).
    pub fn selected_config_row_index(&self) -> (res: Option<usize>)
        ensures
            res == selected_config_row(*self),
    {
        let idx = self.config_frame.filter_row_indexes(self.config_filter_query.as_str());
        if self.config_index < idx.len() {
            Some(idx[self.config_index])
        } else {
            None
        }
    }

    /// The service row under the selection (see `selected_service_row`).
    pub fn selected_service_row_index(&self) -> (res: Option<usize>)
        ensures
            res == selected_service_row(*self),
    {
        let idx = self.service_frame.filter_row_indexes(self.service_filter_query.as_str());
        if self.service_index < idx.len() {
            Some(idx[self.service_index])
        } else {
            None
        }
    }

    /// The configuration table as its filter shows it.
    pub fn filtered_config_frame(&self) -> (res: DataFrame)
        ensures
            res.columns@ == self.config_frame.columns@,
            rows_view(res.rows@) == rows_at(rows_view(self.config_frame.rows@), config_rows_shown(*self)),
    {
        self.config_frame.filter_contains(self.config_filter_query.as_str())
    }

    /// The service table as its filter shows it.
    pub fn filtered_service_frame(&self) -> (res: DataFrame)
        ensures
            res.columns@ == self.service_frame.columns@,
            rows_view(res.rows@) == rows_at(
                rows_view(self.service_frame.rows@),
                service_rows_shown(*self),
            ),
    {
        self.service_frame.filter_contains(self.service_filter_query.as_str())
    }

    /// How many configuration rows the filter keeps.
    pub(crate) fn config_rows_count(&self) -> (res: usize)
        ensures
            res == config_rows_shown(*self).len(),
    {
        self.config_frame.filter_row_indexes(self.config_filter_query.as_str()).len()
    }

    /// How many service rows the filter keeps.
    pub(crate) fn service_rows_count(&self) -> (res: usize)
        ensures
            res == service_rows_shown(*self).len(),
    {
        self.service_frame.filter_row_indexes(self.service_filter_query.as_str()).len()
    }

    /// Reloads the document editor from the selection (see
    /// `document_synced`).
    pub fn sync_document_editor(&mut self, force: bool)
        ensures
            document_synced(*old(self), *final(self), force),
    {
        if !force && self.document_editor_dirty {
            return;
        }
        let payload = if self.document_index < self.documents.len() {
            self.documents[self.document_index].raw.clone()
        } else {
            owned("# No document selected\n")
        };
        self.document_editor_reload = Some(payload);
        self.document_editor_dirty = false;
    }

    /// Reloads the inspector from the selected row (see `config_synced`).
    pub fn sync_config_editor(&mut self, force: bool)
        ensures
            config_synced(*old(self), *final(self), force),
    {
        let selected = self.selected_config_row_index();
        if !force && self.config_editor_dirty && self.config_editor_row == selected {
            return;
        }
        self.config_editor_row = selected;
        self.config_editor_reload = true;
        self.config_editor_dirty = false;
    }

    /// Opens the command palette with the cursor at the end of the command.
    pub fn open_command_palette(&mut self)
        ensures
            *final(self) == (AppState {
                command_palette_open: true,
                command_cursor: old(self).command_query@.len() as usize,
                ..*old(self)
            }),
    {
        self.command_palette_open = true;
        self.command_cursor = chars_of(self.command_query.as_str()).len();
    }

    /// Closes the command palette.
    pub fn close_command_palette(&mut self)
        ensures
            *final(self) == (AppState { command_palette_open: false, ..*old(self) }),
    {
        self.command_palette_open = false;
    }

    /// Opens the palette when closed, closes it when open.
    pub fn toggle_command_palette(&mut self)
        ensures
            old(self).command_palette_open ==> *final(self) == (AppState {
                command_palette_open: false,
                ..*old(self)
            }),
            !old(self).command_palette_open ==> *final(self) == (AppState {
                command_palette_open: true,
                command_cursor: old(self).command_query@.len() as usize,
                ..*old(self)
            }),
    {
        if self.command_palette_open {
            self.close_command_palette();
        } else {
            self.open_command_palette();
        }
    }

    /// Inserts a character at the cursor and moves the cursor past it.
    pub fn insert_command_char(&mut self, character: char)
        requires
            old(self).command_cursor < usize::MAX,
        ensures
            final(self).command_query@ == inserted_at_cursor(
                old(self).command_query@,
                old(self).command_cursor as int,
                character,
            ),
            *final(self) == (AppState {
                command_query: final(self).command_query,
                command_cursor: (old(self).command_cursor + 1) as usize,
                ..*old(self)
            }),
    {
        let mut v = chars_of(self.command_query.as_str());
        let p = if self.command_cursor < v.len() {
            self.command_cursor
        } else {
            v.len()
        };
        v.insert(p, character);
        self.command_query = string_of(&v);
        self.command_cursor = self.command_cursor + 1;
    }

    /// Replaces the command text by the text without the characters from
    /// `from` up to `to` (positions in characters).
    fn remove_command_range(&mut self, from: usize, to: usize)
        requires
            from <= to,
        ensures
            final(self).command_query@ == without_range(
                old(self).command_query@,
                from as int,
                to as int,
            ),
            *final(self) == (AppState { command_query: final(self).command_query, ..*old(self) }),
            old(self).command_query@.len() <= usize::MAX,
    {
        let v = chars_of(self.command_query.as_str());
        let start = if from < v.len() {
            from
        } else {
            v.len()
        };
        let end = if to < v.len() {
            to
        } else {
            v.len()
        };
        let mut kept = slice_chars(&v, 0, start);
        let tail = slice_chars(&v, end, v.len());
        append_chars(&mut kept, &tail);
        assert(kept@ =~= without_range(v@, from as int, to as int));
        self.command_query = string_of(&kept);
    }

    /// Deletes the character before the cursor; nothing at the start.
    pub fn delete_command_backward(&mut self)
        ensures
            old(self).command_cursor == 0 ==> *final(self) == *old(self),
            old(self).command_cursor > 0 ==> final(self).command_query@ == without_range(
                old(self).command_query@,
                old(self).command_cursor - 1,
                old(self).command_cursor as int,
            ) && *final(self) == (AppState {
                command_query: final(self).command_query,
                command_cursor: (old(self).command_cursor - 1) as usize,
                ..*old(self)
            }),
    {
        if self.command_cursor == 0 {
            return;
        }
        self.remove_command_range(self.command_cursor - 1, self.command_cursor);
        self.command_cursor = self.command_cursor - 1;
    }

    /// Deletes the character under the cursor; nothing at the end.
    pub fn delete_command_forward(&mut self)
        ensures
            old(self).command_cursor >= old(self).command_query@.len() ==> *final(self)
                == *old(self),
            old(self).command_cursor < old(self).command_query@.len() ==> final(self).command_query@
                == old(self).command_query@.remove(old(self).command_cursor as int)
                && *final(self) == (AppState {
                command_query: final(self).command_query,
                ..*old(self)
            }),
    {
        let len = chars_of(self.command_query.as_str()).len();
        if self.command_cursor >= len {
            return;
        }
        self.remove_command_range(self.command_cursor, self.command_cursor + 1);
        assert(self.command_query@ =~= old(self).command_query@.remove(
            old(self).command_cursor as int,
        ));
    }

    /// Moves the cursor by `delta` characters (see `moved_cursor`).
    pub fn move_command_cursor(&mut self, delta: isize)
        ensures
            *final(self) == (AppState {
                command_cursor: moved_cursor(
                    old(self).command_cursor as int,
                    old(self).command_query@.len() as int,
                    delta as int,
                ) as usize,
                ..*old(self)
            }),
    {
        let len = chars_of(self.command_query.as_str()).len();
        if delta < 0 {
            let m = magnitude(delta);
            self.command_cursor = if self.command_cursor < m {
                0
            } else {
                self.command_cursor - m
            };
        } else {
            let d = delta as usize;
            self.command_cursor = if self.command_cursor > usize::MAX - d {
                len
            } else if self.command_cursor + d < len {
                self.command_cursor + d
            } else {
                len
            };
        }
    }

    /// Moves the cursor to the start of the command.
    pub fn command_cursor_home(&mut self)
        ensures
            *final(self) == (AppState { command_cursor: 0, ..*old(self) }),
    {
        self.command_cursor = 0;
    }

    /// Moves the cursor to the end of the command.
    pub fn command_cursor_end(&mut self)
        ensures
            *final(self) == (AppState {
                command_cursor: old(self).command_query@.len() as usize,
                ..*old(self)
            }),
    {
        self.command_cursor = chars_of(self.command_query.as_str()).len();
    }

    /// Deletes everything before the cursor and moves the cursor to the start.
    pub fn kill_command_to_start(&mut self)
        ensures
            final(self).command_query@ == without_range(
                old(self).command_query@,
                0,
                old(self).command_cursor as int,
            ),
            *final(self) == (AppState {
                command_query: final(self).command_query,
                command_cursor: 0,
                ..*old(self)
            }),
    {
        self.remove_command_range(0, self.command_cursor);
        self.command_cursor = 0;
    }

    /// Deletes everything from the cursor on; the cursor stays.
    pub fn kill_command_to_end(&mut self)
        ensures
            final(self).command_query@ == old(self).command_query@.take(
                char_pos(old(self).command_query@.len() as int, old(self).command_cursor as int),
            ),
            *final(self) == (AppState { command_query: final(self).command_query, ..*old(self) }),
    {
        self.remove_command_range(self.command_cursor, usize::MAX);
        assert(self.command_query@ =~= old(self).command_query@.take(
            char_pos(old(self).command_query@.len() as int, old(self).command_cursor as int),
        ));
    }
}

/// A source with a new query; its preset follows when the query is one of
/// its presets.
pub open spec fn source_with_query(src: MonitorSourceState, q: String) -> MonitorSourceState {
    MonitorSourceState {
        query: q,
        preset_index: match first_preset(src.query_presets@, q@, src.query_presets@.len() as int) {
            Some(k) => k as usize,
            None => src.preset_index,
        },
        ..src
    }
}

/// The text without its last character, if it has one (`String::pop`).
pub open spec fn without_last(q: Seq<char>) -> Seq<char> {
    if q.len() == 0 {
        q
    } else {
        q.drop_last()
    }
}

/// The tick count after one more tick, held at its maximum.
pub open spec fn next_tick(t: u64) -> u64 {
    if t < u64::MAX {
        (t + 1) as u64
    } else {
        t
    }
}

/// The area the graph is drawn in: at least 20 cells wide and 8 high.
pub open spec fn normalized_area(a: GraphArea) -> GraphArea {
    GraphArea {
        x: a.x,
        y: a.y,
        width: if a.width < 20 {
            20
        } else {
            a.width
        },
        height: if a.height < 8 {
            8
        } else {
            a.height
        },
    }
}

/// What became of fetching the current monitoring source.
#[derive(Debug)]
pub enum MonitorFetch {
    /// No provider of that name is registered.
    Unregistered,
    /// The provider was asked, with this outcome.
    Fetched(Result<TimeSeriesFrame, DeliError>),
}

/// The sizes the charts are drawn at, from the graph area.
#[derive(Debug, Clone, Copy, PartialEq, Eq, Structural)]
pub struct ChartDimensions {
    pub ascii_width: u16,
    pub ascii_height: u16,
    pub pixel_width: u32,
    pub pixel_height: u32,
}

/// The sizes the charts are drawn at: the text chart fills the area less its
/// border (at least 20 by 8), the image is 10 by 20 pixels per cell of the
/// normalized area.
pub open spec fn chart_dimensions_of(a: GraphArea) -> ChartDimensions {
    let aw: int = if a.width >= 2 {
        a.width - 2
    } else {
        0
    };
    let ah: int = if a.height >= 2 {
        a.height - 2
    } else {
        0
    };
    let n = normalized_area(a);
    ChartDimensions {
        ascii_width: (if aw < 20 {
            20
        } else {
            aw
        }) as u16,
        ascii_height: (if ah < 8 {
            8
        } else {
            ah
        }) as u16,
        pixel_width: (n.width * 10) as u32,
        pixel_height: (n.height * 20) as u32,
    }
}

impl AppState {
    /// Shows a view; the editing modes of the other views end.
    pub fn activate_view(&mut self, view: ActiveView)
        ensures
            *final(self) == (AppState {
                active_view: view,
                config_filter_mode: old(self).config_filter_mode && view == ActiveView::Configs,
                config_editor_mode: old(self).config_editor_mode && view == ActiveView::Configs,
                document_editor_mode: old(self).document_editor_mode && view
                    == ActiveView::Documents,
                monitor_query_mode: old(self).monitor_query_mode && view == ActiveView::Monitoring,
                service_filter_mode: old(self).service_filter_mode && view == ActiveView::Services,
                ..*old(self)
            }),
    {
        self.active_view = view;
        if view != ActiveView::Configs {
            self.config_filter_mode = false;
            self.config_editor_mode = false;
        }
        if view != ActiveView::Documents {
            self.document_editor_mode = false;
        }
        if view != ActiveView::Monitoring {
            self.monitor_query_mode = false;
        }
        if view != ActiveView::Services {
            self.service_filter_mode = false;
        }
    }

    /// Moves the selection of the current view by `delta` (see `stepped`);
    /// the editors follow the selection.
    pub fn move_selection(&mut self, delta: isize)
        ensures
            old(self).active_view == ActiveView::Documents ==> document_synced(
                AppState {
                    document_index: stepped(
                        old(self).document_index as int,
                        old(self).documents.len() as int,
                        delta as int,
                    ) as usize,
                    document_scroll: 0,
                    ..*old(self)
                },
                *final(self),
                false,
            ),
            old(self).active_view == ActiveView::Configs ==> config_synced(
                AppState {
                    config_index: stepped(
                        old(self).config_index as int,
                        config_rows_shown(*old(self)).len() as int,
                        delta as int,
                    ) as usize,
                    ..*old(self)
                },
                *final(self),
                false,
            ),
            old(self).active_view == ActiveView::Services ==> *final(self) == (AppState {
                service_index: stepped(
                    old(self).service_index as int,
                    service_rows_shown(*old(self)).len() as int,
                    delta as int,
                ) as usize,
                ..*old(self)
            }),
            (old(self).active_view == ActiveView::Worktree || old(self).active_view
                == ActiveView::Monitoring) ==> *final(self) == *old(self),
    {
        match self.active_view {
            ActiveView::Documents => {
                self.document_index = step_index(self.document_index, self.documents.len(), delta);
                self.document_scroll = 0;
                self.sync_document_editor(false);
            },
            ActiveView::Configs => {
                let rows = self.config_rows_count();
                self.config_index = step_index(self.config_index, rows, delta);
                self.sync_config_editor(false);
            },
            ActiveView::Services => {
                let rows = self.service_rows_count();
                self.service_index = step_index(self.service_index, rows, delta);
            },
            _ => {},
        }
    }

    /// Scrolls the document reader by `delta` lines.
    pub fn scroll_current(&mut self, delta: isize)
        ensures
            old(self).active_view == ActiveView::Documents ==> *final(self) == (AppState {
                document_scroll: stepped(
                    old(self).document_scroll as int,
                    usize::MAX as int,
                    delta as int,
                ) as usize,
                ..*old(self)
            }),
            old(self).active_view != ActiveView::Documents ==> *final(self) == *old(self),
    {
        if self.active_view == ActiveView::Documents {
            self.document_scroll = step_index(self.document_scroll, usize::MAX, delta);
        }
    }

    /// Starts or ends filtering the table of the current view; filtering
    /// the configuration table ends editing it.
    pub fn toggle_config_filter_mode(&mut self)
        ensures
            old(self).active_view == ActiveView::Configs ==> *final(self) == (AppState {
                config_filter_mode: !old(self).config_filter_mode,
                config_editor_mode: old(self).config_editor_mode && old(self).config_filter_mode,
                ..*old(self)
            }),
            old(self).active_view == ActiveView::Services ==> *final(self) == (AppState {
                service_filter_mode: !old(self).service_filter_mode,
                ..*old(self)
            }),
            (old(self).active_view != ActiveView::Configs && old(self).active_view
                != ActiveView::Services) ==> *final(self) == *old(self),
    {
        match self.active_view {
            ActiveView::Configs => {
                self.config_filter_mode = !self.config_filter_mode;
                if self.config_filter_mode {
                    self.config_editor_mode = false;
                }
            },
            ActiveView::Services => {
                self.service_filter_mode = !self.service_filter_mode;
            },
            _ => {},
        }
    }

    /// In the document view, starts or ends editing the document, and says
    /// so.
    pub fn toggle_document_editor_mode(&mut self)
        ensures
            old(self).active_view != ActiveView::Documents ==> *final(self) == *old(self),
            old(self).active_view == ActiveView::Documents ==> {
                &&& *final(self) == (AppState {
                    document_editor_reload: final(self).document_editor_reload,
                    document_editor_dirty: final(self).document_editor_dirty,
                    document_editor_mode: !old(self).document_editor_mode,
                    notifications: final(self).notifications,
                    ..*old(self)
                })
                &&& document_editor_follows(*old(self), *final(self), false)
                &&& noted(
                    old(self).notifications@,
                    final(self).notifications@,
                    if old(self).document_editor_mode {
                        "Document editor disabled"@
                    } else {
                        "Document editor enabled"@
                    },
                )
            },
    {
        if self.active_view != ActiveView::Documents {
            return;
        }
        self.sync_document_editor(false);
        self.document_editor_mode = !self.document_editor_mode;
        let msg = if self.document_editor_mode {
            owned("Document editor enabled")
        } else {
            owned("Document editor disabled")
        };
        self.notify(msg);
    }

    /// In the configuration view, starts or ends editing the selected row in
    /// the inspector, and says so.
    pub fn toggle_config_editor_mode(&mut self)
        ensures
            old(self).active_view != ActiveView::Configs ==> *final(self) == *old(self),
            old(self).active_view == ActiveView::Configs ==> {
                &&& *final(self) == (AppState {
                    config_editor_row: final(self).config_editor_row,
                    config_editor_reload: final(self).config_editor_reload,
                    config_editor_dirty: final(self).config_editor_dirty,
                    config_editor_mode: !old(self).config_editor_mode,
                    notifications: final(self).notifications,
                    ..*old(self)
                })
                &&& config_editor_follows(*old(self), *final(self), false)
                &&& noted(
                    old(self).notifications@,
                    final(self).notifications@,
                    if old(self).config_editor_mode {
                        "Config inspector editing disabled"@
                    } else {
                        "Config inspector editing enabled"@
                    },
                )
            },
    {
        if self.active_view != ActiveView::Configs {
            return;
        }
        self.sync_config_editor(false);
        self.config_editor_mode = !self.config_editor_mode;
        let msg = if self.config_editor_mode {
            owned("Config inspector editing enabled")
        } else {
            owned("Config inspector editing disabled")
        };
        self.notify(msg);
    }

    /// Adds a character to the filter being typed; the selection goes back
    /// to the first row kept.
    pub fn append_filter_char(&mut self, character: char)
        ensures
            old(self).config_filter_mode ==> {
                &&& final(self).config_filter_query@ == old(self).config_filter_query@.push(
                    character,
                )
                &&& config_synced(
                    AppState {
                        config_filter_query: final(self).config_filter_query,
                        config_index: 0,
                        ..*old(self)
                    },
                    *final(self),
                    false,
                )
            },
            !old(self).config_filter_mode && old(self).service_filter_mode ==> {
                &&& final(self).service_filter_query@ == old(self).service_filter_query@.push(
                    character,
                )
                &&& *final(self) == (AppState {
                    service_filter_query: final(self).service_filter_query,
                    service_index: 0,
                    ..*old(self)
                })
            },
            !old(self).config_filter_mode && !old(self).service_filter_mode ==> *final(self)
                == *old(self),
    {
        if self.config_filter_mode {
            push_char(&mut self.config_filter_query, character);
            let rows = self.config_rows_count();
            self.config_index = clamp_index(0, rows);
            self.sync_config_editor(false);
        } else if self.service_filter_mode {
            push_char(&mut self.service_filter_query, character);
            let rows = self.service_rows_count();
            self.service_index = clamp_index(0, rows);
        }
    }

    /// Removes the last character of the filter being typed; the selection
    /// is kept inside the rows now kept.
    pub fn pop_filter_char(&mut self)
        ensures
            old(self).config_filter_mode ==> {
                &&& final(self).config_filter_query@ == without_last(
                    old(self).config_filter_query@,
                )
                &&& ({
                    let m = AppState {
                        config_filter_query: final(self).config_filter_query,
                        ..*old(self)
                    };
                    config_synced(
                        AppState {
                            config_index: clamped(
                                old(self).config_index as int,
                                config_rows_shown(m).len() as int,
                            ) as usize,
                            ..m
                        },
                        *final(self),
                        false,
                    )
                })
            },
            !old(self).config_filter_mode && old(self).service_filter_mode ==> {
                &&& final(self).service_filter_query@ == without_last(
                    old(self).service_filter_query@,
                )
                &&& ({
                    let m = AppState {
                        service_filter_query: final(self).service_filter_query,
                        ..*old(self)
                    };
                    *final(self) == (AppState {
                        service_index: clamped(
                            old(self).service_index as int,
                            service_rows_shown(m).len() as int,
                        ) as usize,
                        ..m
                    })
                })
            },
            !old(self).config_filter_mode && !old(self).service_filter_mode ==> *final(self)
                == *old(self),
    {
        if self.config_filter_mode {
            self.config_filter_query = popped(&self.config_filter_query);
            let rows = self.config_rows_count();
            self.config_index = clamp_index(self.config_index, rows);
            self.sync_config_editor(false);
        } else if self.service_filter_mode {
            self.service_filter_query = popped(&self.service_filter_query);
            let rows = self.service_rows_count();
            self.service_index = clamp_index(self.service_index, rows);
        }
    }

    /// Ends filtering in both tables.
    pub fn clear_filter_mode(&mut self)
        ensures
            *final(self) == (AppState {
                config_filter_mode: false,
                service_filter_mode: false,
                ..*old(self)
            }),
    {
        self.config_filter_mode = false;
        self.service_filter_mode = false;
    }

    /// The name of the current monitoring source, if any.
    pub fn current_monitor_provider_name(&self) -> (res: Option<&str>)
        ensures
            self.monitor_provider_index < self.monitor_sources.len() ==> (res matches Some(n)
                && n@ == self.monitor_sources@[self.monitor_provider_index as int].name@),
            self.monitor_provider_index >= self.monitor_sources.len() ==> res is None,
    {
        if self.monitor_provider_index < self.monitor_sources.len() {
            Some(self.monitor_sources[self.monitor_provider_index].name.as_str())
        } else {
            None
        }
    }

    /// In the monitoring view, starts editing the metric query (loading the
    /// current query into the editor) or ends it, and says so.
    pub fn toggle_monitor_query_mode(&mut self)
        ensures
            old(self).active_view != ActiveView::Monitoring ==> *final(self) == *old(self),
            old(self).active_view == ActiveView::Monitoring ==> {
                &&& *final(self) == (AppState {
                    monitor_query_editor_reload: if old(self).monitor_query_mode {
                        old(self).monitor_query_editor_reload
                    } else {
                        Some(old(self).monitor_query)
                    },
                    monitor_query_mode: !old(self).monitor_query_mode,
                    notifications: final(self).notifications,
                    ..*old(self)
                })
                &&& noted(
                    old(self).notifications@,
                    final(self).notifications@,
                    if old(self).monitor_query_mode {
                        "Metric query editing disabled"@
                    } else {
                        "Metric query editing enabled"@
                    },
                )
            },
    {
        if self.active_view != ActiveView::Monitoring {
            return;
        }
        if !self.monitor_query_mode {
            self.monitor_query_editor_reload = Some(self.monitor_query.clone());
        }
        self.monitor_query_mode = !self.monitor_query_mode;
        let msg = if self.monitor_query_mode {
            owned("Metric query editing enabled")
        } else {
            owned("Metric query editing disabled")
        };
        self.notify(msg);
    }

    /// Applies the metric query: the editor's text, trimmed, when there is an
    /// editor; the current source takes it (and its preset follows). Ends
    /// editing, says so, and returns that the metrics are to be fetched again.
    pub fn apply_monitor_query(&mut self, editor_content: Option<String>) -> (refresh: bool)
        ensures
            refresh,
            final(self).monitor_query@ == match editor_content {
                Some(c) => trim(c@),
                None => old(self).monitor_query@,
            },
            *final(self) == (AppState {
                monitor_query: final(self).monitor_query,
                monitor_sources: final(self).monitor_sources,
                monitor_query_mode: false,
                notifications: final(self).notifications,
                ..*old(self)
            }),
            old(self).monitor_provider_index < old(self).monitor_sources.len() ==> final(self).monitor_sources@ == old(self).monitor_sources@.update(
                old(self).monitor_provider_index as int,
                source_with_query(
                    old(self).monitor_sources@[old(self).monitor_provider_index as int],
                    final(self).monitor_query,
                ),
            ),
            old(self).monitor_provider_index >= old(self).monitor_sources.len() ==> final(self).monitor_sources == old(self).monitor_sources,
            noted(
                old(self).notifications@,
                final(self).notifications@,
                "Applied metric query: "@ + final(self).monitor_query@,
            ),
    {
        if let Some(content) = editor_content {
            self.monitor_query = trim_str(content.as_str());
        }
        let current_query = self.monitor_query.clone();
        let i = self.monitor_provider_index;
        if i < self.monitor_sources.len() {
            set_source_query(&mut self.monitor_sources, i, current_query);
        }
        self.monitor_query_mode = false;
        let msg = concat("Applied metric query: ", self.monitor_query.as_str());
        self.notify(msg);
        true
    }

    /// Moves to the next (or previous) monitoring source, wrapping around;
    /// its query becomes the current one. Says what it did, and returns
    /// whether the metrics are to be fetched again.
    pub fn cycle_monitor_provider(&mut self, delta: isize) -> (refresh: bool)
        requires
            old(self).monitor_sources.len() <= isize::MAX,
            old(self).monitor_provider_index <= isize::MAX,
            isize::MIN <= old(self).monitor_provider_index + delta <= isize::MAX,
        ensures
            old(self).monitor_sources.len() == 0 ==> !refresh && notified(
                *old(self),
                *final(self),
                "No monitoring providers configured"@,
            ),
            old(self).monitor_sources.len() > 0 ==> refresh && ({
                let i = wrapped(
                    old(self).monitor_provider_index as int,
                    old(self).monitor_sources.len() as int,
                    delta as int,
                );
                let src = old(self).monitor_sources@[i];
                &&& *final(self) == (AppState {
                    monitor_provider_index: i as usize,
                    monitor_query: src.query,
                    monitor_query_editor_reload: Some(src.query),
                    notifications: final(self).notifications,
                    ..*old(self)
                })
                &&& noted(
                    old(self).notifications@,
                    final(self).notifications@,
                    "Switched monitor provider to "@ + src.name@,
                )
            }),
    {
        let len = self.monitor_sources.len();
        if len == 0 {
            self.notify(owned("No monitoring providers configured"));
            return false;
        }
        self.monitor_provider_index = wrap_index(self.monitor_provider_index, len, delta);
        let i = self.monitor_provider_index;
        self.monitor_query = self.monitor_sources[i].query.clone();
        self.monitor_query_editor_reload = Some(self.monitor_query.clone());
        let msg = concat("Switched monitor provider to ", self.monitor_sources[i].name.as_str());
        self.notify(msg);
        true
    }

    /// Moves the current source to its next (or previous) query preset,
    /// wrapping around; the preset becomes the current query. Says what it
    /// did, and returns whether the metrics are to be fetched again.
    pub fn cycle_monitor_preset(&mut self, delta: isize) -> (refresh: bool)
        requires
            old(self).monitor_provider_index < old(self).monitor_sources.len() ==> ({
                let src = old(self).monitor_sources@[old(self).monitor_provider_index as int];
                &&& src.query_presets.len() <= isize::MAX
                &&& src.preset_index <= isize::MAX
                &&& isize::MIN <= src.preset_index + delta <= isize::MAX
            }),
        ensures
            old(self).monitor_provider_index >= old(self).monitor_sources.len() ==> !refresh
                && notified(*old(self), *final(self), "No monitoring providers configured"@),
            old(self).monitor_provider_index < old(self).monitor_sources.len() ==> ({
                let i = old(self).monitor_provider_index as int;
                let src = old(self).monitor_sources@[i];
                if src.query_presets.len() == 0 {
                    !refresh && notified(
                        *old(self),
                        *final(self),
                        "Current provider has no query presets"@,
                    )
                } else {
                    let k = wrapped(
                        src.preset_index as int,
                        src.query_presets.len() as int,
                        delta as int,
                    );
                    let q = src.query_presets@[k];
                    &&& refresh
                    &&& *final(self) == (AppState {
                        monitor_sources: final(self).monitor_sources,
                        monitor_query: q,
                        monitor_query_editor_reload: Some(q),
                        notifications: final(self).notifications,
                        ..*old(self)
                    })
                    &&& final(self).monitor_sources@ == old(self).monitor_sources@.update(
                        i,
                        MonitorSourceState { preset_index: k as usize, query: q, ..src },
                    )
                    &&& noted(
                        old(self).notifications@,
                        final(self).notifications@,
                        "Applied query preset: "@ + q@,
                    )
                }
            }),
    {
        let i = self.monitor_provider_index;
        if i >= self.monitor_sources.len() {
            self.notify(owned("No monitoring providers configured"));
            return false;
        }
        if self.monitor_sources[i].query_presets.len() == 0 {
            self.notify(owned("Current provider has no query presets"));
            return false;
        }
        let mut source = self.monitor_sources.remove(i);
        source.preset_index = wrap_index(
            source.preset_index,
            source.query_presets.len(),
            delta,
        );
        let next_query = source.query_presets[source.preset_index].clone();
        source.query = next_query.clone();
        self.monitor_sources.insert(i, source);
        assert(self.monitor_sources@ =~= old(self).monitor_sources@.update(
            i as int,
            self.monitor_sources@[i as int],
        ));
        self.monitor_query = next_query;
        self.monitor_query_editor_reload = Some(self.monitor_query.clone());
        let msg = concat("Applied query preset: ", self.monitor_query.as_str());
        self.notify(msg);
        true
    }

    /// Turns live polling on or off, and says so.
    pub fn toggle_monitor_live_poll(&mut self)
        ensures
            *final(self) == (AppState {
                monitor_live_poll: !old(self).monitor_live_poll,
                notifications: final(self).notifications,
                ..*old(self)
            }),
            noted(
                old(self).notifications@,
                final(self).notifications@,
                if old(self).monitor_live_poll {
                    "Live polling disabled"@
                } else {
                    "Live polling enabled ("@ + nat_digits(old(self).monitor_refresh_seconds as nat)
                        + "s)"@
                },
            ),
    {
        self.monitor_live_poll = !self.monitor_live_poll;
        let msg = if self.monitor_live_poll {
            let secs = u64_text(self.monitor_refresh_seconds);
            concat3("Live polling enabled (", secs.as_str(), "s)")
        } else {
            owned("Live polling disabled")
        };
        self.notify(msg);
    }

    /// Whether live polling is on.
    pub fn monitor_live_poll(&self) -> (res: bool)
        ensures
            res == self.monitor_live_poll,
    {
        self.monitor_live_poll
    }

    /// One tick of the clock: counts it, keeps the twelve newest messages,
    /// and returns whether live polling is due on this tick.
    pub fn on_tick(&mut self) -> (refresh: bool)
        requires
            old(self).monitor_refresh_seconds > 0,
        ensures
            final(self).notifications@ == if old(self).notifications.len() > 12 {
                old(self).notifications@.take(12)
            } else {
                old(self).notifications@
            },
            *final(self) == (AppState {
                tick_count: next_tick(old(self).tick_count),
                notifications: final(self).notifications,
                ..*old(self)
            }),
            refresh == (old(self).monitor_live_poll && next_tick(old(self).tick_count)
                % old(self).monitor_refresh_seconds == 0),
    {
        self.tick_count = if self.tick_count < u64::MAX {
            self.tick_count + 1
        } else {
            self.tick_count
        };
        if self.notifications.len() > 12 {
            self.notifications.truncate(12);
        }
        self.monitor_live_poll && self.tick_count % self.monitor_refresh_seconds == 0
    }

    /// Records where the graph is drawn (see `normalized_area`); returns
    /// whether that changed, in which case the charts are to be drawn again.
    pub fn sync_monitor_graph_area(&mut self, area: GraphArea) -> (changed: bool)
        ensures
            changed == (normalized_area(area) != old(self).monitor_graph_area),
            changed ==> *final(self) == (AppState {
                monitor_graph_area: normalized_area(area),
                ..*old(self)
            }),
            !changed ==> *final(self) == *old(self),
    {
        let normalized = GraphArea {
            x: area.x,
            y: area.y,
            width: if area.width < 20 {
                20
            } else {
                area.width
            },
            height: if area.height < 8 {
                8
            } else {
                area.height
            },
        };
        if normalized == self.monitor_graph_area {
            return false;
        }
        self.monitor_graph_area = normalized;
        true
    }

    /// The sizes the charts are drawn at (see `chart_dimensions_of`).
    pub fn chart_dimensions(&self) -> (res: ChartDimensions)
        ensures
            res == chart_dimensions_of(self.monitor_graph_area),
    {
        let a = self.monitor_graph_area;
        let aw: u16 = if a.width >= 2 {
            a.width - 2
        } else {
            0
        };
        let ah: u16 = if a.height >= 2 {
            a.height - 2
        } else {
            0
        };
        let nw: u32 = if a.width < 20 {
            20
        } else {
            a.width as u32
        };
        let nh: u32 = if a.height < 8 {
            8
        } else {
            a.height as u32
        };
        ChartDimensions {
            ascii_width: if aw < 20 {
                20
            } else {
                aw
            },
            ascii_height: if ah < 8 {
                8
            } else {
                ah
            },
            pixel_width: nw * 10,
            pixel_height: nh * 20,
        }
    }

    /// Records the charts drawn for the loaded metrics (text chart, plan and
    /// outcome); without metrics, or without charts, clears them.
    pub fn apply_chart(&mut self, rendered: Option<(Option<String>, ChartPlan, ChartRenderStatus)>)
        ensures
            (old(self).monitor_frame is Some && rendered is Some) ==> *final(self) == (AppState {
                monitor_chart_ascii: rendered.unwrap().0,
                monitor_chart_plan: Some(rendered.unwrap().1),
                monitor_chart_status: Some(rendered.unwrap().2),
                ..*old(self)
            }),
            !(old(self).monitor_frame is Some && rendered is Some) ==> *final(self) == (AppState {
                monitor_chart_ascii: None,
                monitor_chart_plan: None,
                monitor_chart_status: None,
                ..*old(self)
            }),
    {
        match (self.monitor_frame.is_some(), rendered) {
            (true, Some((ascii, plan, status))) => {
                self.monitor_chart_ascii = ascii;
                self.monitor_chart_plan = Some(plan);
                self.monitor_chart_status = Some(status);
            },
            _ => {
                self.monitor_chart_ascii = None;
                self.monitor_chart_plan = None;
                self.monitor_chart_status = None;
            },
        }
    }

    /// Reloads the metric query editor with the current query.
    pub fn sync_monitor_query_editor(&mut self)
        ensures
            *final(self) == (AppState {
                monitor_query_editor_reload: Some(old(self).monitor_query),
                ..*old(self)
            }),
    {
        self.monitor_query_editor_reload = Some(self.monitor_query.clone());
    }

    /// Records what fetching the current monitoring source gave: its
    /// metrics, or none, with a message when the provider is not registered
    /// or failed.
    pub fn apply_monitor_fetch(&mut self, fetch: MonitorFetch)
        ensures
            old(self).monitor_provider_index >= old(self).monitor_sources.len() ==> *final(self)
                == (AppState { monitor_frame: None, ..*old(self) }),
            old(self).monitor_provider_index < old(self).monitor_sources.len() ==> ({
                let name = old(self).monitor_sources@[old(self).monitor_provider_index as int].name@;
                match fetch {
                    MonitorFetch::Unregistered => notified(
                        AppState { monitor_frame: None, ..*old(self) },
                        *final(self),
                        "Monitor provider '"@ + name + "' is not registered"@,
                    ),
                    MonitorFetch::Fetched(Ok(frame)) => *final(self) == (AppState {
                        monitor_frame: Some(frame),
                        ..*old(self)
                    }),
                    MonitorFetch::Fetched(Err(e)) => notified(
                        AppState { monitor_frame: None, ..*old(self) },
                        *final(self),
                        name + " provider error: "@ + error_text(e),
                    ),
                }
            }),
    {
        if self.monitor_provider_index >= self.monitor_sources.len() {
            self.monitor_frame = None;
            return;
        }
        let name = self.monitor_sources[self.monitor_provider_index].name.clone();
        match fetch {
            MonitorFetch::Unregistered => {
                self.monitor_frame = None;
                let msg = concat3("Monitor provider '", name.as_str(), "' is not registered");
                self.notify(msg);

            },
            MonitorFetch::Fetched(Ok(frame)) => {
                self.monitor_frame = Some(frame);
            },
            MonitorFetch::Fetched(Err(e)) => {
                self.monitor_frame = None;
                let text = e.to_text();
                let msg = concat3(name.as_str(), " provider error: ", text.as_str());
                self.notify(msg);
            },
        }
    }
}

/// Gives the `i`-th source a new query (see `source_with_query`).
fn set_source_query(sources: &mut Vec<MonitorSourceState>, i: usize, q: String)
    requires
        i < old(sources).len(),
    ensures
        final(sources)@ == old(sources)@.update(i as int, source_with_query(old(sources)@[i as int], q)),
{
    let mut source = sources.remove(i);
    let found = find_preset_opt(&source.query_presets, &q);
    source.query = q;
    if let Some(k) = found {
        source.preset_index = k;
    }
    sources.insert(i, source);
    assert(sources@ =~= old(sources)@.update(i as int, source_with_query(old(sources)@[i as int], q)));
}

/// The text without its last character, if it has one.
pub(crate) fn popped(q: &String) -> (res: String)
    ensures
        res@ == without_last(q@),
{
    let v = chars_of(q.as_str());
    if v.len() == 0 {
        return String::new();
    }
    let kept = slice_chars(&v, 0, v.len() - 1);
    string_of(&kept)
}

} // verus!
