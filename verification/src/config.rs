//! The console's configuration: workspaces, providers and UI settings.
use vstd::prelude::*;

use crate::text::{copy_opt_string, copy_strings, owned};

verus! {

/// The whole configuration of the console.
#[derive(Debug, Clone)]
pub struct AppConfig {
    pub workspaces: Vec<WorkspaceConfig>,
    pub document_providers: Vec<DocumentProviderConfig>,
    pub config_providers: Vec<ProviderConfig>,
    pub monitor_providers: Vec<MonitorProviderConfig>,
    pub action_providers: Vec<ProviderConfig>,
    pub service_providers: Vec<ProviderConfig>,
    pub ui: UiConfig,
}

/// A named workspace and its root directory.
#[derive(Debug, Clone)]
pub struct WorkspaceConfig {
    pub name: String,
    pub root: String,
}

/// A provider backed by one command.
#[derive(Debug, Clone)]
pub struct ProviderConfig {
    pub name: String,
    pub command: CommandSpec,
}

/// Where documents come from.
#[derive(Debug, Clone, Copy, PartialEq, Eq, Structural)]
pub enum DocumentProviderKind {
    Command,
    Notion,
    Feishu,
}

/// A document provider as configured.
#[derive(Debug, Clone)]
pub struct DocumentProviderConfig {
    pub name: String,
    pub kind: Option<DocumentProviderKind>,
    pub command: Option<CommandSpec>,
    pub endpoint: Option<String>,
    pub token_env: Option<String>,
    pub app_id_env: Option<String>,
    pub app_secret_env: Option<String>,
    pub authorize_url: Option<String>,
    pub token_url: Option<String>,
    pub refresh_url: Option<String>,
    pub notion_version: String,
    pub ids: Vec<String>,
    pub redirect_port: u16,
}

/// Where metrics come from.
#[derive(Debug, Clone, Copy, PartialEq, Eq, Structural)]
pub enum MonitorProviderKind {
    Command,
    Prometheus,
    VictoriaMetrics,
    OpenTsdb,
}

/// A monitoring provider as configured.
#[derive(Debug, Clone)]
pub struct MonitorProviderConfig {
    pub name: String,
    pub kind: Option<MonitorProviderKind>,
    pub command: Option<CommandSpec>,
    pub endpoint: Option<String>,
    pub query: Option<String>,
    pub query_presets: Vec<String>,
    pub step_seconds: u64,
    pub lookback_minutes: u64,
}

/// A program, its arguments and an optional working directory relative to
/// the workspace root.
#[derive(Debug, Clone)]
pub struct CommandSpec {
    pub program: String,
    pub args: Vec<String>,
    pub cwd: Option<String>,
}

/// User interface settings.
#[derive(Debug, Clone)]
pub struct UiConfig {
    pub refresh_seconds: u64,
    pub keybindings: Vec<KeybindingConfig>,
}

/// A key and the action it triggers.
#[derive(Debug, Clone)]
pub struct KeybindingConfig {
    pub key: String,
    pub action: String,
}

/// Seconds between refreshes when nothing else is configured.
pub fn default_refresh_seconds() -> (res: u64)
    ensures
        res == 30,
{
    30
}

/// Seconds between metric samples when nothing else is configured.
pub fn default_step_seconds() -> (res: u64)
    ensures
        res == 60,
{
    60
}

/// Minutes of metric history when nothing else is configured.
pub fn default_lookback_minutes() -> (res: u64)
    ensures
        res == 60,
{
    60
}

/// The Notion API version sent when nothing else is configured.
pub fn default_notion_version() -> (res: String)
    ensures
        res@ == "2026-03-11"@,
{
    owned("2026-03-11")
}

/// The local port of the sign-in callback when nothing else is configured.
pub fn default_redirect_port() -> (res: u16)
    ensures
        res == 32323,
{
    32323
}

/// A key binding from two literals.
fn binding(key: &str, action: &str) -> (res: KeybindingConfig)
    ensures
        res.key@ == key@,
        res.action@ == action@,
{
    KeybindingConfig { key: owned(key), action: owned(action) }
}

impl Default for UiConfig {
    /// Refresh every 30 seconds; keys 1 to 4 open documents, configs,
    /// worktree and monitoring.
    fn default() -> (res: Self)
        ensures
            res.refresh_seconds == 30,
            res.keybindings.len() == 4,
            res.keybindings[0].key@ == "1"@ && res.keybindings[0].action@ == "documents"@,
            res.keybindings[1].key@ == "2"@ && res.keybindings[1].action@ == "configs"@,
            res.keybindings[2].key@ == "3"@ && res.keybindings[2].action@ == "worktree"@,
            res.keybindings[3].key@ == "4"@ && res.keybindings[3].action@ == "monitoring"@,
    {
        let mut keybindings: Vec<KeybindingConfig> = Vec::new();
        keybindings.push(binding("1", "documents"));
        keybindings.push(binding("2", "configs"));
        keybindings.push(binding("3", "worktree"));
        keybindings.push(binding("4", "monitoring"));
        UiConfig { refresh_seconds: default_refresh_seconds(), keybindings }
    }
}

/// The workspace used when none is configured.
pub fn default_workspace() -> (res: WorkspaceConfig)
    ensures
        res.name@ == "default"@,
        res.root@ == "."@,
{
    WorkspaceConfig { name: owned("default"), root: owned(".") }
}

impl Default for AppConfig {
    /// One workspace "default" rooted at ".", no providers, default UI.
    fn default() -> (res: Self)
        ensures
            res.workspaces.len() == 1,
            res.workspaces[0].name@ == "default"@,
            res.workspaces[0].root@ == "."@,
            res.document_providers.len() == 0,
            res.config_providers.len() == 0,
            res.monitor_providers.len() == 0,
            res.action_providers.len() == 0,
            res.service_providers.len() == 0,
            res.ui.refresh_seconds == 30,
            res.ui.keybindings.len() == 4,
            res.ui.keybindings[0].key@ == "1"@ && res.ui.keybindings[0].action@ == "documents"@,
            res.ui.keybindings[1].key@ == "2"@ && res.ui.keybindings[1].action@ == "configs"@,
            res.ui.keybindings[2].key@ == "3"@ && res.ui.keybindings[2].action@ == "worktree"@,
            res.ui.keybindings[3].key@ == "4"@ && res.ui.keybindings[3].action@ == "monitoring"@,
    {
        let mut workspaces: Vec<WorkspaceConfig> = Vec::new();
        workspaces.push(default_workspace());
        AppConfig {
            workspaces,
            document_providers: Vec::new(),
            config_providers: Vec::new(),
            monitor_providers: Vec::new(),
            action_providers: Vec::new(),
            service_providers: Vec::new(),
            ui: UiConfig::default(),
        }
    }
}

/// Two commands hold the same program, arguments and directory.
pub open spec fn same_command(a: CommandSpec, b: CommandSpec) -> bool {
    a.program == b.program && a.args@ == b.args@ && a.cwd == b.cwd
}

/// Two optional commands are both absent or hold the same command.
pub open spec fn same_opt_command(a: Option<CommandSpec>, b: Option<CommandSpec>) -> bool {
    match (a, b) {
        (Some(x), Some(y)) => same_command(x, y),
        (None, None) => true,
        _ => false,
    }
}

impl CommandSpec {
    /// A copy of this command.
    pub fn copy(&self) -> (res: Self)
        ensures
            same_command(res, *self),
    {
        CommandSpec {
            program: self.program.clone(),
            args: copy_strings(&self.args),
            cwd: copy_opt_string(&self.cwd),
        }
    }
}

/// A copy of an optional command.
pub fn copy_opt_command(c: &Option<CommandSpec>) -> (res: Option<CommandSpec>)
    ensures
        same_opt_command(res, *c),
{
    match c {
        Some(c) => Some(c.copy()),
        None => None,
    }
}

impl WorkspaceConfig {
    /// A copy of this workspace.
    pub fn copy(&self) -> (res: Self)
        ensures
            res == *self,
    {
        WorkspaceConfig { name: self.name.clone(), root: self.root.clone() }
    }
}

/// Two document provider configurations hold the same settings.
pub open spec fn same_document_config(a: DocumentProviderConfig, b: DocumentProviderConfig) -> bool {
    &&& a.name == b.name
    &&& a.kind == b.kind
    &&& same_opt_command(a.command, b.command)
    &&& a.endpoint == b.endpoint
    &&& a.token_env == b.token_env
    &&& a.app_id_env == b.app_id_env
    &&& a.app_secret_env == b.app_secret_env
    &&& a.authorize_url == b.authorize_url
    &&& a.token_url == b.token_url
    &&& a.refresh_url == b.refresh_url
    &&& a.notion_version == b.notion_version
    &&& a.ids@ == b.ids@
    &&& a.redirect_port == b.redirect_port
}

impl DocumentProviderConfig {
    /// A copy of this provider configuration.
    pub fn copy(&self) -> (res: Self)
        ensures
            same_document_config(res, *self),
    {
        DocumentProviderConfig {
            name: self.name.clone(),
            kind: self.kind,
            command: copy_opt_command(&self.command),
            endpoint: copy_opt_string(&self.endpoint),
            token_env: copy_opt_string(&self.token_env),
            app_id_env: copy_opt_string(&self.app_id_env),
            app_secret_env: copy_opt_string(&self.app_secret_env),
            authorize_url: copy_opt_string(&self.authorize_url),
            token_url: copy_opt_string(&self.token_url),
            refresh_url: copy_opt_string(&self.refresh_url),
            notion_version: self.notion_version.clone(),
            ids: copy_strings(&self.ids),
            redirect_port: self.redirect_port,
        }
    }
}

/// The kind of a document provider; a provider without one runs a command.
pub open spec fn document_kind_of(config: DocumentProviderConfig) -> DocumentProviderKind {
    match config.kind {
        Some(kind) => kind,
        None => DocumentProviderKind::Command,
    }
}

/// The kind of a document provider; a provider without one runs a command.
pub fn document_kind(config: &DocumentProviderConfig) -> (res: DocumentProviderKind)
    ensures
        res == document_kind_of(*config),
{
    match config.kind {
        Some(kind) => kind,
        None => DocumentProviderKind::Command,
    }
}

/// The kind of a monitoring provider; a provider without one runs a command.
pub open spec fn monitor_kind_of(config: MonitorProviderConfig) -> MonitorProviderKind {
    match config.kind {
        Some(kind) => kind,
        None => MonitorProviderKind::Command,
    }
}

/// The kind of a monitoring provider; a provider without one runs a command.
pub fn monitor_kind(config: &MonitorProviderConfig) -> (res: MonitorProviderKind)
    ensures
        res == monitor_kind_of(*config),
{
    match config.kind {
        Some(kind) => kind,
        None => MonitorProviderKind::Command,
    }
}

} // verus!
