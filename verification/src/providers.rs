//! Providers backed by commands: their configuration, the command lines they
//! run and how their output becomes documents.
use vstd::prelude::*;

use crate::config::{
    copy_opt_command, same_command, CommandSpec, DocumentProviderConfig, MonitorProviderConfig,
    ProviderConfig,
};
use crate::dataframe::DataFrame;
use crate::gnuplot::TimeSeriesFrame;
use crate::document::{
    document_title, normalized_blocks, nodes_view, DocumentFormat, DocumentResource,
};
use crate::error::{DeliError, DeliErrorKind};
use crate::text::{
    chars_of, copy_opt_string, copy_strings, join, join_strings, owned, replace, str_replace,
    trim, trim_str,
};

verus! {

/// What a provider is asked in: the workspace's root directory.
#[derive(Debug, Clone)]
pub struct ProviderContext {
    pub workspace_root: String,
}

/// A source of documents. Listing and saving are the implementor's own
/// (commands, web services); a provider that does not save refuses with
/// "document provider is read-only".
pub trait DocumentProvider: Send + Sync {
    fn name(&self) -> &str;

    fn list_documents(&self, context: &ProviderContext) -> Result<Vec<DocumentResource>, DeliError>;

    fn save_document(&self, _context: &ProviderContext, _document: &DocumentResource) -> (res: Result<
        DocumentResource,
        DeliError,
    >)
        default_ensures
            res matches Err(e) && e.kind == DeliErrorKind::Provider && e.message@
                == "document provider is read-only"@ && e.retry_hint is None,
    {
        Err(DeliError::new(DeliErrorKind::Provider, owned("document provider is read-only")))
    }
}

/// A source of a configuration table.
pub trait ConfigProvider: Send + Sync {
    fn name(&self) -> &str;

    fn fetch(&self, context: &ProviderContext) -> Result<DataFrame, DeliError>;
}

/// A source of metrics for a query.
pub trait MonitorProvider: Send + Sync {
    fn name(&self) -> &str;

    fn fetch(&self, context: &ProviderContext, query: &str) -> Result<TimeSeriesFrame, DeliError>;
}

/// A source of commands the worktree view offers.
pub trait ActionProvider: Send + Sync {
    fn name(&self) -> &str;

    fn commands(&self) -> Vec<CommandSpec>;
}

/// Documents listed by a command as a JSON array.
#[derive(Debug, Clone)]
pub struct CommandDocumentProvider {
    pub name: String,
    pub command: CommandSpec,
}

/// A configuration table printed by a command as JSON.
#[derive(Debug, Clone)]
pub struct CommandConfigProvider {
    pub name: String,
    pub command: CommandSpec,
}

/// Metrics printed by a command as JSON, for a query.
#[derive(Debug, Clone)]
pub struct CommandMonitorProvider {
    pub name: String,
    pub command: CommandSpec,
}

/// An action that runs a command.
#[derive(Debug, Clone)]
pub struct CommandActionProvider {
    pub name: String,
    pub command: CommandSpec,
}

/// A service inventory printed by a command as JSON.
#[derive(Debug, Clone)]
pub struct CommandServiceProvider {
    pub name: String,
    pub command: CommandSpec,
}

/// The error for a provider without a command: "<what> provider '<name>' is
/// missing command".
pub open spec fn is_missing_command_error(e: DeliError, what: Seq<char>, name: Seq<char>) -> bool {
    e.kind == DeliErrorKind::Configuration && e.message@ == what + " provider '"@ + name
        + "' is missing command"@ && e.retry_hint is None
}

/// The error for a provider without a command.
fn missing_command(what: &str, name: &String) -> (res: DeliError)
    ensures
        is_missing_command_error(res, what@, name@),
{
    let mut msg = owned(what);
    msg.append(" provider '");
    msg.append(name.as_str());
    msg.append("' is missing command");
    DeliError::new(DeliErrorKind::Configuration, msg)
}

impl CommandDocumentProvider {
    /// A document provider from its configuration, which must name a command.
    pub fn new(config: &DocumentProviderConfig) -> (res: Result<Self, DeliError>)
        ensures
            match config.command {
                Some(c) => res matches Ok(p) && p.name == config.name && same_command(p.command, c),
                None => res matches Err(e) && is_missing_command_error(e, "document"@, config.name@),
            },
    {
        match &config.command {
            Some(c) => Ok(CommandDocumentProvider { name: config.name.clone(), command: c.copy() }),
            None => Err(missing_command("document", &config.name)),
        }
    }
}

impl CommandConfigProvider {
    /// A configuration provider from its configuration.
    pub fn new(config: &ProviderConfig) -> (res: Self)
        ensures
            res.name == config.name,
            same_command(res.command, config.command),
    {
        CommandConfigProvider { name: config.name.clone(), command: config.command.copy() }
    }
}

impl CommandMonitorProvider {
    /// A monitoring provider from its configuration, which must name a
    /// command.
    pub fn new(config: &MonitorProviderConfig) -> (res: Result<Self, DeliError>)
        ensures
            match config.command {
                Some(c) => res matches Ok(p) && p.name == config.name && same_command(p.command, c),
                None => res matches Err(e) && is_missing_command_error(e, "monitor"@, config.name@),
            },
    {
        match &config.command {
            Some(c) => Ok(CommandMonitorProvider { name: config.name.clone(), command: c.copy() }),
            None => Err(missing_command("monitor", &config.name)),
        }
    }
}

impl CommandActionProvider {
    /// An action provider from its configuration.
    pub fn new(config: &ProviderConfig) -> (res: Self)
        ensures
            res.name == config.name,
            same_command(res.command, config.command),
    {
        CommandActionProvider { name: config.name.clone(), command: config.command.copy() }
    }
}

impl ActionProvider for CommandActionProvider {
    /// The provider's name.
    fn name(&self) -> (res: &str)
        ensures
            res@ == self.name@,
    {
        self.name.as_str()
    }

    /// The commands this provider offers: its one command.
    fn commands(&self) -> (res: Vec<CommandSpec>)
        ensures
            res.len() == 1,
            same_command(res[0], self.command),
    {
        let mut out: Vec<CommandSpec> = Vec::new();
        out.push(self.command.copy());
        out
    }
}

impl CommandServiceProvider {
    /// A service provider from its configuration.
    pub fn new(config: &ProviderConfig) -> (res: Self)
        ensures
            res.name == config.name,
            same_command(res.command, config.command),
    {
        CommandServiceProvider { name: config.name.clone(), command: config.command.copy() }
    }
}

/// A command argument with the query put in place of each `{{query}}`;
/// unchanged without a query.
pub open spec fn expanded(value: Seq<char>, query: Option<Seq<char>>) -> Seq<char> {
    match query {
        Some(q) => replace(value, "{{query}}"@, q),
        None => value,
    }
}

/// The characters of an optional string slice.
pub open spec fn opt_str_view(o: Option<&str>) -> Option<Seq<char>> {
    match o {
        Some(s) => Some(s@),
        None => None,
    }
}

/// Puts the query in place of each `{{query}}` (see `expanded`).
pub fn expand_template(value: &str, query: Option<&str>) -> (res: String)
    ensures
        res@ == expanded(value@, opt_str_view(query)),
{
    match query {
        Some(q) => {
            proof {
                reveal_strlit("{{query}}");
            }
            str_replace(value, "{{query}}", q)
        },
        None => owned(value),
    }
}

/// The command to run for a query: program, arguments and directory with
/// the query put in.
pub fn expanded_command(command: &CommandSpec, query: Option<&str>) -> (res: CommandSpec)
    ensures
        res.program@ == expanded(command.program@, opt_str_view(query)),
        res.args@.len() == command.args@.len(),
        forall|k: int|
            0 <= k < res.args@.len() ==> res.args@[k]@ == expanded(
                command.args@[k]@,
                opt_str_view(query),
            ),
        match command.cwd {
            Some(c) => res.cwd matches Some(d) && d@ == expanded(c@, opt_str_view(query)),
            None => res.cwd is None,
        },
{
    let program = expand_template(command.program.as_str(), query);
    let mut args: Vec<String> = Vec::new();
    let mut i: usize = 0;
    while i < command.args.len()
        invariant
            i <= command.args.len(),
            args@.len() == i,
            forall|k: int|
                0 <= k < i ==> args@[k]@ == expanded(command.args@[k]@, opt_str_view(query)),
        decreases command.args.len() - i,
    {
        args.push(expand_template(command.args[i].as_str(), query));
        i += 1;
    }
    let cwd = match &command.cwd {
        Some(c) => Some(expand_template(c.as_str(), query)),
        None => None,
    };
    CommandSpec { program, args, cwd }
}

/// The format a document's format name stands for: "mintlify", "markdown",
/// else plain text.
pub open spec fn format_named(value: Seq<char>) -> DocumentFormat {
    if value == "mintlify"@ {
        DocumentFormat::Mintlify
    } else if value == "markdown"@ {
        DocumentFormat::Markdown
    } else {
        DocumentFormat::PlainText
    }
}

/// The format a document's format name stands for.
pub fn parse_format(value: &str) -> (res: DocumentFormat)
    ensures
        res == format_named(value@),
{
    let v = owned(value);
    if v == owned("mintlify") {
        DocumentFormat::Mintlify
    } else if v == owned("markdown") {
        DocumentFormat::Markdown
    } else {
        DocumentFormat::PlainText
    }
}

/// A document as a document command prints it.
#[derive(Debug, Clone)]
pub struct RawDocument {
    pub id: String,
    pub path: String,
    pub format: String,
    pub raw: String,
}

/// The document a printed entry gives: normalized in its format, recorded as
/// coming from the provider under its path, not editable.
pub open spec fn is_listed_document(d: DocumentResource, raw: RawDocument, provider: Seq<char>) -> bool {
    let format = format_named(raw.format@);
    &&& d.id == raw.id
    &&& d.path == raw.path
    &&& d.raw == raw.raw
    &&& d.format == format
    &&& nodes_view(d.nodes@) == normalized_blocks(raw.raw@, format)
    &&& d.title@ == document_title(normalized_blocks(raw.raw@, format), raw.path@)
    &&& d.provider_name matches Some(p) && p@ == provider
    &&& d.remote_id == Some(raw.path)
    &&& !d.editable
    &&& d.source_url is None
}

/// The documents that a document command's entries give, in order.
pub fn documents_from_raw(provider_name: &str, raws: Vec<RawDocument>) -> (res: Vec<DocumentResource>)
    ensures
        res.len() == raws.len(),
        forall|k: int| 0 <= k < res.len() ==> is_listed_document(res@[k], raws@[k], provider_name@),
{
    let mut out: Vec<DocumentResource> = Vec::new();
    let mut i: usize = 0;
    while i < raws.len()
        invariant
            i <= raws.len(),
            out.len() == i,
            forall|k: int| 0 <= k < i ==> is_listed_document(out@[k], raws@[k], provider_name@),
        decreases raws.len() - i,
    {
        let r = &raws[i];
        let format = parse_format(r.format.as_str());
        let doc = DocumentResource::from_source(
            r.id.clone(),
            r.path.clone(),
            format,
            r.raw.clone(),
        ).with_origin(owned(provider_name), r.path.clone(), false);
        out.push(doc);
        i += 1;
    }
    out
}

/// A command as shown in the action list: the program and its arguments
/// separated by spaces, trimmed.
pub open spec fn command_line_text(command: CommandSpec) -> Seq<char> {
    trim(command.program@ + " "@ + join(command.args@.map_values(|a: String| a@), " "@))
}

/// A command as shown in the action list.
pub fn command_line(command: &CommandSpec) -> (res: String)
    ensures
        res@ == command_line_text(*command),
{
    let args = join_strings(&command.args, " ");
    let mut line = command.program.clone();
    line.append(" ");
    line.append(args.as_str());
    trim_str(line.as_str())
}

/// The error for a provider whose output does not parse: "invalid <what>
/// provider payload: <detail>" with a hint.
pub fn invalid_payload_error(what: &str, detail: &str, hint: &str) -> (res: DeliError)
    ensures
        res.kind == DeliErrorKind::Provider,
        res.message@ == "invalid "@ + what@ + " provider payload: "@ + detail@,
        res.retry_hint matches Some(h) && h@ == hint@,
{
    let mut msg = owned("invalid ");
    msg.append(what);
    msg.append(" provider payload: ");
    msg.append(detail);
    DeliError::new(DeliErrorKind::Provider, msg).with_retry_hint(owned(hint))
}

/// The error for a command that could not start: "failed to launch
/// <program>: <detail>".
pub fn launch_error(program: &str, detail: &str) -> (res: DeliError)
    ensures
        res.kind == DeliErrorKind::Provider,
        res.message@ == "failed to launch "@ + program@ + ": "@ + detail@,
        res.retry_hint matches Some(h) && h@ == "Verify the command exists and is executable."@,
{
    let mut msg = owned("failed to launch ");
    msg.append(program);
    msg.append(": ");
    msg.append(detail);
    DeliError::new(DeliErrorKind::Provider, msg).with_retry_hint(
        owned("Verify the command exists and is executable."),
    )
}

/// The error for a command that failed: "<program> exited with <status>:
/// <stderr trimmed>" with a hint.
pub fn exit_error(program: &str, status: &str, stderr: &str, hint: &str) -> (res: DeliError)
    ensures
        res.kind == DeliErrorKind::Provider,
        res.message@ == program@ + " exited with "@ + status@ + ": "@ + trim(stderr@),
        res.retry_hint matches Some(h) && h@ == hint@,
{
    let mut msg = owned(program);
    msg.append(" exited with ");
    msg.append(status);
    msg.append(": ");
    let t = trim_str(stderr);
    msg.append(t.as_str());
    DeliError::new(DeliErrorKind::Provider, msg).with_retry_hint(owned(hint))
}

} // verus!
