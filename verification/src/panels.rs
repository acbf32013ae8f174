//! The text of the console's panels: the document list and reader, the
//! tables, the operations list, the monitoring summary, the details and the
//! messages, each as the lines the panel shows.
use vstd::prelude::*;

use crate::dataframe::{display_of, rows_at, rows_view, CellValue, ColumnSchema};
use crate::document::{nodes_view, DocumentNode, DocumentResource, NodeView};
use crate::gnuplot::ChartRenderStatus;
use crate::state::{config_rows_shown, selected_config_row, selected_service_row, service_rows_shown, ActiveView, AppState};
use crate::text::{
    chars_of, concat, concat3, join, join_strings, lines, lines_chars, nat_digits, owned,
    repeat_char, string_of, strings_of, u64_text,
};

verus! {

/// The characters of each string.
pub open spec fn texts(v: Seq<String>) -> Seq<Seq<char>> {
    v.map_values(|s: String| s@)
}

/// Adds a line at the end.
fn push_line(out: &mut Vec<String>, line: String)
    ensures
        texts(final(out)@) == texts(old(out)@).push(line@),
{
    out.push(line);
    assert(texts(out@) =~= texts(old(out)@).push(line@));
}

/// Adds lines at the end.
fn push_lines(out: &mut Vec<String>, more: Vec<String>)
    ensures
        texts(final(out)@) == texts(old(out)@) + texts(more@),
{
    let mut i: usize = 0;
    while i < more.len()
        invariant
            i <= more.len(),
            texts(out@) == texts(old(out)@) + texts(more@.take(i as int)),
        decreases more.len() - i,
    {
        push_line(out, more[i].clone());
        assert(texts(more@.take(i + 1)) =~= texts(more@.take(i as int)).push(more@[i as int]@));
        assert(texts(out@) =~= texts(old(out)@) + texts(more@.take(i + 1)));
        i += 1;
    }
    assert(more@.take(more.len() as int) =~= more@);
}

/// A list with one line.
fn single(line: &str) -> (res: Vec<String>)
    ensures
        texts(res@) == seq![line@],
{
    let mut out: Vec<String> = Vec::new();
    push_line(&mut out, owned(line));
    assert(texts(out@) =~= seq![line@]);
    out
}

/// The decimal text of a count.
pub fn count_text(n: usize) -> (res: String)
    ensures
        res@ == nat_digits(n as nat),
{
    u64_text(n as u64)
}

/// The mark in front of a list entry: `>` on the selected one.
pub open spec fn marker(selected: bool) -> Seq<char> {
    if selected {
        ">"@
    } else {
        " "@
    }
}

/// The lines of the document list: each document's title and path, the
/// selected one marked.
pub open spec fn document_list_text(s: AppState) -> Seq<Seq<char>> {
    if s.documents.len() == 0 {
        seq!["No documents loaded"@]
    } else {
        Seq::new(
            s.documents@.len(),
            |i: int|
                marker(i == s.document_index) + " "@ + s.documents@[i].title@ + " ("@
                    + s.documents@[i].path@ + ")"@,
        )
    }
}

/// The `#` marks of a heading of the given level.
pub open spec fn heading_marks(level: u8) -> Seq<char> {
    Seq::new(level as nat, |i: int| '#')
}

/// The lines a block is shown as, followed by an empty line.
pub open spec fn block_lines(n: NodeView) -> Seq<Seq<char>> {
    (match n {
        NodeView::Heading { level, text } => seq![heading_marks(level) + " "@ + text],
        NodeView::Paragraph(t) => seq![t],
        NodeView::CodeBlock(t) => seq!["```"@] + lines(t) + seq!["```"@],
        NodeView::ListItem(t) => seq!["- "@ + t],
        NodeView::Quote(t) => seq!["> "@ + t],
    }) + seq![Seq::<char>::empty()]
}

/// The lines of the blocks, in order.
pub open spec fn blocks_lines(nodes: Seq<NodeView>) -> Seq<Seq<char>>
    decreases nodes.len(),
{
    if nodes.len() == 0 {
        Seq::empty()
    } else {
        blocks_lines(nodes.drop_last()) + block_lines(nodes.last())
    }
}

/// The lines a document is read as: its title, its source, an empty line,
/// then its blocks.
pub open spec fn document_lines(d: DocumentResource) -> Seq<Seq<char>> {
    seq!["# "@ + d.title@, "Source: "@ + d.path@, Seq::<char>::empty()] + blocks_lines(
        nodes_view(d.nodes@),
    )
}

/// The lines of one block (see `block_lines`).
fn render_block(node: &DocumentNode) -> (res: Vec<String>)
    ensures
        texts(res@) == block_lines(node@),
{
    let mut out: Vec<String> = Vec::new();
    match node {
        DocumentNode::Heading { level, text } => {
            let mut marks = repeat_char('#', *level as usize);
            assert(marks@ =~= heading_marks(*level));
            let mut line = string_of(&marks);
            line.append(" ");
            line.append(text.as_str());
            push_line(&mut out, line);
        },
        DocumentNode::Paragraph(t) => {
            push_line(&mut out, t.clone());
        },
        DocumentNode::CodeBlock(t) => {
            push_line(&mut out, owned("```"));
            let pieces = lines_chars(&chars_of(t.as_str()));
            let ls = strings_of(&pieces);
            assert(texts(ls@) == lines(t@));
            push_lines(&mut out, ls);
            push_line(&mut out, owned("```"));
        },
        DocumentNode::ListItem(t) => {
            push_line(&mut out, concat("- ", t.as_str()));
        },
        DocumentNode::Quote(t) => {
            push_line(&mut out, concat("> ", t.as_str()));
        },
    }
    push_line(&mut out, String::new());
    assert(texts(out@) =~= block_lines(node@));
    out
}

/// The lines a document is read as (see `document_lines`).
pub fn render_document(document: &DocumentResource) -> (res: Vec<String>)
    ensures
        texts(res@) == document_lines(*document),
{
    let mut out: Vec<String> = Vec::new();
    push_line(&mut out, concat("# ", document.title.as_str()));
    push_line(&mut out, concat("Source: ", document.path.as_str()));
    push_line(&mut out, String::new());
    let ghost head = texts(out@);
    let mut i: usize = 0;
    while i < document.nodes.len()
        invariant
            i <= document.nodes.len(),
            texts(out@) == head + blocks_lines(nodes_view(document.nodes@.take(i as int))),
        decreases document.nodes.len() - i,
    {
        let more = render_block(&document.nodes[i]);
        push_lines(&mut out, more);
        assert(nodes_view(document.nodes@.take(i + 1)).drop_last() =~= nodes_view(
            document.nodes@.take(i as int),
        ));
        assert(out@.len() >= 0);
        assert(texts(out@) =~= head + blocks_lines(nodes_view(document.nodes@.take(i + 1))));
        i += 1;
    }
    assert(document.nodes@.take(document.nodes.len() as int) =~= document.nodes@);
    assert(head =~= seq!["# "@ + document.title@, "Source: "@ + document.path@, Seq::<char>::empty()]);
    out
}

/// The lines the reader shows: the selected document from the scroll
/// position on, or a placeholder without a selection.
pub open spec fn reader_text(s: AppState) -> Seq<Seq<char>> {
    if s.document_index < s.documents.len() {
        let all = document_lines(s.documents@[s.document_index as int]);
        if s.document_scroll >= all.len() {
            Seq::empty()
        } else {
            all.skip(s.document_scroll as int)
        }
    } else {
        seq!["No document selected"@]
    }
}

/// A filter as shown: `<none>` when empty.
pub open spec fn shown_filter(q: Seq<char>) -> Seq<char> {
    if q.len() == 0 {
        "<none>"@
    } else {
        q
    }
}

/// ` [editing]` while a filter is being typed.
pub open spec fn editing_suffix(editing: bool) -> Seq<char> {
    if editing {
        " [editing]"@
    } else {
        ""@
    }
}

/// A row as shown: its cells separated by ` | `.
pub open spec fn row_text(row: Seq<CellValue>) -> Seq<char> {
    join(row.map_values(|c: CellValue| display_of(c)), " | "@)
}

/// The lines of the configuration table: the filter, the column names, and
/// the first twenty rows the filter keeps, the selected one marked.
pub open spec fn config_text(s: AppState) -> Seq<Seq<char>> {
    let rows = rows_at(rows_view(s.config_frame.rows@), config_rows_shown(s));
    let n: int = if rows.len() < 20 {
        rows.len() as int
    } else {
        20
    };
    if s.config_frame.columns.len() == 0 {
        seq!["No config rows loaded"@]
    } else {
        seq![
            "Filter: "@ + shown_filter(s.config_filter_query@) + editing_suffix(s.config_filter_mode),
            join(s.config_frame.columns@.map_values(|c: ColumnSchema| c.name@), " | "@),
        ] + Seq::new(n as nat, |i: int| marker(i == s.config_index) + " "@ + row_text(rows[i]))
    }
}

/// The lines of the worktree panel.
pub open spec fn worktree_text(s: AppState) -> Seq<Seq<char>> {
    seq![
        "Workspace: "@ + s.workspace_root@,
        "Planned actions: open path, launch command, jump to worktree"@,
    ] + if s.action_commands.len() == 0 {
        seq!["No action providers configured"@]
    } else {
        texts(s.action_commands@)
    }
}

/// A row as a record: each column's name with the cell under it, as far as
/// both go.
pub open spec fn zipped_record(columns: Seq<ColumnSchema>, row: Seq<CellValue>) -> Seq<
    (Seq<char>, Seq<char>),
> {
    let n: int = if columns.len() < row.len() {
        columns.len() as int
    } else {
        row.len() as int
    };
    Seq::new(n as nat, |i: int| (columns[i].name@, display_of(row[i])))
}

/// The record of the selected configuration row, if any.
pub open spec fn config_record_of(s: AppState) -> Option<Seq<(Seq<char>, Seq<char>)>> {
    match selected_config_row(s) {
        Some(r) => if r < s.config_frame.rows.len() {
            Some(zipped_record(s.config_frame.columns@, s.config_frame.rows@[r as int]@))
        } else {
            None
        },
        None => None,
    }
}

/// The record of the selected service row, if any.
pub open spec fn service_record_of(s: AppState) -> Option<Seq<(Seq<char>, Seq<char>)>> {
    match selected_service_row(s) {
        Some(r) => if r < s.service_frame.rows.len() {
            Some(zipped_record(s.service_frame.columns@, s.service_frame.rows@[r as int]@))
        } else {
            None
        },
        None => None,
    }
}

/// The characters of each pair.
pub open spec fn pairs_view(v: Seq<(String, String)>) -> Seq<(Seq<char>, Seq<char>)> {
    v.map_values(|p: (String, String)| (p.0@, p.1@))
}

/// A row as a record (see `zipped_record`).
fn record_pairs(columns: &Vec<ColumnSchema>, row: &Vec<CellValue>) -> (res: Vec<(String, String)>)
    ensures
        pairs_view(res@) == zipped_record(columns@, row@),
{
    let n = if columns.len() < row.len() {
        columns.len()
    } else {
        row.len()
    };
    let mut out: Vec<(String, String)> = Vec::new();
    let mut i: usize = 0;
    while i < n
        invariant
            i <= n,
            n <= columns.len(),
            n <= row.len(),
            pairs_view(out@) == zipped_record(columns@, row@).take(i as int),
        decreases n - i,
    {
        let ghost before = out@;
        let pair = (columns[i].name.clone(), row[i].as_display());
        assert(pair.0@ == columns@[i as int].name@);
        out.push(pair);
        assert(pairs_view(out@) =~= pairs_view(before).push((pair.0@, pair.1@)));
        assert(zipped_record(columns@, row@)[i as int] == (pair.0@, pair.1@));
        assert(pairs_view(out@) =~= zipped_record(columns@, row@).take(i + 1));
        i += 1;
    }
    assert(zipped_record(columns@, row@).take(n as int) =~= zipped_record(columns@, row@));
    out
}

/// The lines of the operations panel: what can be done, and the first
/// eight fields of the selected resource.
pub open spec fn service_action_text(s: AppState) -> Seq<Seq<char>> {
    if s.service_frame.columns.len() == 0 {
        seq!["No service resources loaded"@]
    } else {
        seq![
            "Read-only operations for now"@,
            "d describe selected resource"@,
            "r refresh inventory"@,
            "f filter resources"@,
        ] + match service_record_of(s) {
            Some(rec) => {
                let n: int = if rec.len() < 8 {
                    rec.len() as int
                } else {
                    8
                };
                seq!["Selected resource:"@] + Seq::new(
                    n as nat,
                    |i: int|
                        if rec[i].0 == "actions"@ {
                            rec[i].0 + ": "@ + rec[i].1
                        } else {
                            rec[i].0 + "="@ + rec[i].1
                        },
                )
            },
            None => Seq::empty(),
        }
    }
}

/// What a chart rendering came to, as shown.
pub open spec fn status_text(status: ChartRenderStatus) -> Seq<char> {
    match status {
        ChartRenderStatus::Rendered(p) => "gnuplot: rendered "@ + p@,
        ChartRenderStatus::Skipped(r) => "gnuplot: "@ + r@,
        ChartRenderStatus::Failed(r) => "gnuplot failed: "@ + r@,
    }
}

/// The name of the current monitoring source, or `none`.
pub open spec fn provider_label(s: AppState) -> Seq<char> {
    if s.monitor_provider_index < s.monitor_sources.len() {
        s.monitor_sources@[s.monitor_provider_index as int].name@
    } else {
        "none"@
    }
}

/// The lines of the monitoring panel: the text chart, the title, provider
/// and query, the series summary, and what came of rendering the chart.
pub open spec fn monitor_text(s: AppState, summary: Seq<Seq<char>>) -> Seq<Seq<char>> {
    match s.monitor_frame {
        Some(frame) => {
            let chart = match s.monitor_chart_ascii {
                Some(a) => a@,
                None => "No chart rendered yet"@,
            };
            lines(chart) + seq![
                Seq::<char>::empty(),
                frame.title@,
                "Provider: "@ + provider_label(s),
                "Query: "@ + s.monitor_query@,
            ] + summary + match s.monitor_chart_status {
                Some(st) => seq![Seq::<char>::empty(), status_text(st)],
                None => Seq::empty(),
            }
        },
        None => seq!["No monitoring series loaded"@],
    }
}

/// `true` or `false`.
pub open spec fn bool_word(b: bool) -> Seq<char> {
    if b {
        "true"@
    } else {
        "false"@
    }
}

/// `editing` or `read-only`.
pub open spec fn mode_word(editing: bool) -> Seq<char> {
    if editing {
        "editing"@
    } else {
        "read-only"@
    }
}

/// ` (dirty)` while there are unsaved edits.
pub open spec fn dirty_suffix(dirty: bool) -> Seq<char> {
    if dirty {
        " (dirty)"@
    } else {
        ""@
    }
}

/// Each field of a record as `name: value`.
pub open spec fn record_lines(rec: Seq<(Seq<char>, Seq<char>)>) -> Seq<Seq<char>> {
    Seq::new(rec.len(), |i: int| rec[i].0 + ": "@ + rec[i].1)
}

/// The hint on how metrics are drawn: as an image in a kitty terminal, else
/// as text; nothing without metrics.
pub open spec fn monitor_hint(s: AppState, supports_kitty: bool) -> Seq<char> {
    match s.monitor_frame {
        Some(_) => if supports_kitty {
            "Kitty graph renderer ready"@
        } else {
            "Kitty unavailable, using text fallback"@
        },
        None => "No chart loaded"@,
    }
}

/// The details of the current view.
pub open spec fn view_details(s: AppState) -> Seq<Seq<char>> {
    match s.active_view {
        ActiveView::Documents => if s.document_index < s.documents.len() {
            let d = s.documents@[s.document_index as int];
            seq![
                "Selected doc: "@ + d.title@,
                "Path: "@ + d.path@,
                "Scroll: "@ + nat_digits(s.document_scroll as nat),
                "Editable: "@ + (if d.editable {
                    "yes"@
                } else {
                    "no"@
                }),
                "Editor: "@ + mode_word(s.document_editor_mode) + dirty_suffix(
                    s.document_editor_dirty,
                ),
            ]
        } else {
            Seq::empty()
        },
        ActiveView::Configs => seq![
            "Filter query: "@ + s.config_filter_query@,
            "Inspector: "@ + mode_word(s.config_editor_mode) + dirty_suffix(s.config_editor_dirty),
        ] + match config_record_of(s) {
            Some(rec) => seq!["Selected row:"@] + record_lines(rec),
            None => Seq::empty(),
        },
        ActiveView::Worktree => Seq::empty(),
        ActiveView::Services => seq!["Service filter: "@ + s.service_filter_query@] + match service_record_of(s) {
            Some(rec) => seq!["Selected service resource:"@] + record_lines(rec),
            None => Seq::empty(),
        },
        ActiveView::Monitoring => seq![
            "Metric query: "@ + s.monitor_query@,
            "Metric provider: "@ + provider_label(s),
            "Live polling: "@ + (if s.monitor_live_poll {
                "on"@
            } else {
                "off"@
            }) + " ("@ + nat_digits(s.monitor_refresh_seconds as nat) + "s)"@,
            "Query panel: "@ + mode_word(s.monitor_query_mode),
        ] + match s.monitor_chart_plan {
            Some(p) => seq!["Chart output: "@ + p.output_path@],
            None => Seq::empty(),
        },
    }
}

/// The lines of the details panel: the workspace and counts, the size of
/// the table exported as JSON, the current view's details, and how metrics
/// are drawn.
pub open spec fn detail_text(s: AppState, json_export_len: nat, supports_kitty: bool) -> Seq<
    Seq<char>,
> {
    seq![
        "Workspace root: "@ + s.workspace_root@,
        "Docs: "@ + nat_digits(s.documents@.len()),
        "Config rows: "@ + nat_digits(config_rows_shown(s).len()),
        "Service resources: "@ + nat_digits(service_rows_shown(s).len()),
        "Monitor loaded: "@ + bool_word(s.monitor_frame is Some),
        "Exports: JSON "@ + nat_digits(json_export_len) + " bytes"@,
    ] + view_details(s) + seq![monitor_hint(s, supports_kitty)]
}

/// One message as listed: its 1-based number right-aligned in two columns.
pub open spec fn message_line(number: nat, msg: Seq<char>) -> Seq<char> {
    (if number < 10 {
        " "@
    } else {
        ""@
    }) + nat_digits(number) + ". "@ + msg
}

/// The lines of the message panel: the eight newest messages, numbered.
pub open spec fn message_text(s: AppState) -> Seq<Seq<char>> {
    let n: int = if s.notifications.len() < 8 {
        s.notifications.len() as int
    } else {
        8
    };
    if s.notifications.len() == 0 {
        seq!["No messages yet"@]
    } else {
        Seq::new(n as nat, |i: int| message_line((i + 1) as nat, s.notifications@[i]@))
    }
}

/// The text of each cell of a row.
fn row_displays(row: &Vec<CellValue>) -> (res: Vec<String>)
    ensures
        texts(res@) == row@.map_values(|c: CellValue| display_of(c)),
{
    let mut out: Vec<String> = Vec::new();
    let mut i: usize = 0;
    while i < row.len()
        invariant
            i <= row.len(),
            texts(out@) == row@.take(i as int).map_values(|c: CellValue| display_of(c)),
        decreases row.len() - i,
    {
        push_line(&mut out, row[i].as_display());
        assert(row@.take(i + 1).map_values(|c: CellValue| display_of(c)) =~= row@.take(
            i as int,
        ).map_values(|c: CellValue| display_of(c)).push(display_of(row@[i as int])));
        i += 1;
    }
    assert(row@.take(row.len() as int) =~= row@);
    out
}

/// The names of the columns.
fn column_names(columns: &Vec<ColumnSchema>) -> (res: Vec<String>)
    ensures
        texts(res@) == columns@.map_values(|c: ColumnSchema| c.name@),
{
    let mut out: Vec<String> = Vec::new();
    let mut i: usize = 0;
    while i < columns.len()
        invariant
            i <= columns.len(),
            texts(out@) == columns@.take(i as int).map_values(|c: ColumnSchema| c.name@),
        decreases columns.len() - i,
    {
        push_line(&mut out, columns[i].name.clone());
        assert(columns@.take(i + 1).map_values(|c: ColumnSchema| c.name@) =~= columns@.take(
            i as int,
        ).map_values(|c: ColumnSchema| c.name@).push(columns@[i as int].name@));
        i += 1;
    }
    assert(columns@.take(columns.len() as int) =~= columns@);
    out
}

/// A marked entry: `>` or a space, then a space, then the text.
fn marked(selected: bool, text: &str) -> (res: String)
    ensures
        res@ == marker(selected) + " "@ + text@,
{
    let m = if selected {
        ">"
    } else {
        " "
    };
    concat3(m, " ", text)
}

/// Each field of a record as `name: value`, after a heading line.
fn record_block(heading: &str, rec: &Vec<(String, String)>) -> (res: Vec<String>)
    ensures
        texts(res@) == seq![heading@] + record_lines(pairs_view(rec@)),
{
    let mut out = single(heading);
    let mut i: usize = 0;
    while i < rec.len()
        invariant
            i <= rec.len(),
            texts(out@) == seq![heading@] + record_lines(pairs_view(rec@)).take(i as int),
        decreases rec.len() - i,
    {
        push_line(&mut out, concat3(rec[i].0.as_str(), ": ", rec[i].1.as_str()));
        assert(record_lines(pairs_view(rec@)).take(i + 1) =~= record_lines(pairs_view(rec@)).take(
            i as int,
        ).push(rec@[i as int].0@ + ": "@ + rec@[i as int].1@));
        i += 1;
    }
    assert(record_lines(pairs_view(rec@)).take(rec.len() as int) =~= record_lines(
        pairs_view(rec@),
    ));
    out
}

impl AppState {
    /// The lines of the document list (see `document_list_text`).
    pub fn document_list_lines(&self) -> (res: Vec<String>)
        ensures
            texts(res@) == document_list_text(*self),
    {
        if self.documents.len() == 0 {
            return single("No documents loaded");
        }
        let mut out: Vec<String> = Vec::new();
        let mut i: usize = 0;
        while i < self.documents.len()
            invariant
                i <= self.documents.len(),
                self.documents.len() > 0,
                texts(out@) == document_list_text(*self).take(i as int),
            decreases self.documents.len() - i,
        {
            let d = &self.documents[i];
            let mut line = marked(i == self.document_index, d.title.as_str());
            line.append(" (");
            line.append(d.path.as_str());
            line.append(")");
            push_line(&mut out, line);
            assert(document_list_text(*self).take(i + 1) =~= document_list_text(*self).take(
                i as int,
            ).push(line@));
            i += 1;
        }
        assert(document_list_text(*self).take(self.documents.len() as int) =~= document_list_text(
            *self,
        ));
        out
    }

    /// The lines the reader shows (see `reader_text`).
    pub fn document_reader_lines(&self) -> (res: Vec<String>)
        ensures
            texts(res@) == reader_text(*self),
    {
        let document = match self.current_document() {
            Some(d) => d,
            None => {
                return single("No document selected");
            },
        };
        let all = render_document(document);
        let mut out: Vec<String> = Vec::new();
        if self.document_scroll >= all.len() {
            assert(texts(out@) =~= reader_text(*self));
            return out;
        }
        let mut i: usize = self.document_scroll;
        while i < all.len()
            invariant
                self.document_scroll <= i <= all.len(),
                texts(out@) == texts(all@).subrange(self.document_scroll as int, i as int),
            decreases all.len() - i,
        {
            push_line(&mut out, all[i].clone());
            assert(texts(all@).subrange(self.document_scroll as int, i + 1) =~= texts(
                all@,
            ).subrange(self.document_scroll as int, i as int).push(all@[i as int]@));
            i += 1;
        }
        assert(texts(all@).subrange(self.document_scroll as int, all.len() as int) =~= texts(
            all@,
        ).skip(self.document_scroll as int));
        out
    }

    /// The lines of the configuration table (see `config_text`).
    pub fn config_lines(&self) -> (res: Vec<String>)
        ensures
            texts(res@) == config_text(*self),
    {
        let frame = self.filtered_config_frame();
        if frame.columns.len() == 0 {
            return single("No config rows loaded");
        }
        let ghost rows = rows_at(rows_view(self.config_frame.rows@), config_rows_shown(*self));
        let mut out: Vec<String> = Vec::new();
        let mut first = owned("Filter: ");
        if self.config_filter_query.as_str().is_empty() {
            first.append("<none>");
        } else {
            first.append(self.config_filter_query.as_str());
        }
        let suffix = if self.config_filter_mode {
            " [editing]"
        } else {
            ""
        };
        first.append(suffix);
        proof {
            assert(self.config_filter_query@.len() == 0 <==> self.config_filter_query@ =~= Seq::<
                char,
            >::empty());
        }
        push_line(&mut out, first);
        let names = column_names(&frame.columns);
        push_line(&mut out, join_strings(&names, " | "));
        let ghost head = texts(out@);
        let n = if frame.rows.len() < 20 {
            frame.rows.len()
        } else {
            20
        };
        let mut i: usize = 0;
        while i < n
            invariant
                i <= n,
                n <= frame.rows.len(),
                rows_view(frame.rows@) == rows,
                texts(out@) == head + Seq::new(
                    i as nat,
                    |k: int| marker(k == self.config_index) + " "@ + row_text(rows[k]),
                ),
            decreases n - i,
        {
            let cells = row_displays(&frame.rows[i]);
            let joined = join_strings(&cells, " | ");
            assert(rows[i as int] == frame.rows@[i as int]@);
            let line = marked(i == self.config_index, joined.as_str());
            push_line(&mut out, line);
            assert(Seq::new(
                (i + 1) as nat,
                |k: int| marker(k == self.config_index) + " "@ + row_text(rows[k]),
            ) =~= Seq::new(
                i as nat,
                |k: int| marker(k == self.config_index) + " "@ + row_text(rows[k]),
            ).push(line@));
            i += 1;
        }
        assert(head =~= seq![
            "Filter: "@ + shown_filter(self.config_filter_query@) + editing_suffix(
                self.config_filter_mode,
            ),
            join(self.config_frame.columns@.map_values(|c: ColumnSchema| c.name@), " | "@),
        ]);
        assert(rows.len() == frame.rows@.len());
        assert(texts(out@) =~= config_text(*self));
        out
    }

    /// The lines of the worktree panel (see `worktree_text`).
    pub fn worktree_lines(&self) -> (res: Vec<String>)
        ensures
            texts(res@) == worktree_text(*self),
    {
        let mut out: Vec<String> = Vec::new();
        push_line(&mut out, concat("Workspace: ", self.workspace_root.as_str()));
        push_line(&mut out, owned("Planned actions: open path, launch command, jump to worktree"));
        if self.action_commands.len() == 0 {
            push_line(&mut out, owned("No action providers configured"));
        } else {
            let mut i: usize = 0;
            let ghost head = texts(out@);
            while i < self.action_commands.len()
                invariant
                    i <= self.action_commands.len(),
                    texts(out@) == head + texts(self.action_commands@.take(i as int)),
                decreases self.action_commands.len() - i,
            {
                push_line(&mut out, self.action_commands[i].clone());
                assert(texts(self.action_commands@.take(i + 1)) =~= texts(
                    self.action_commands@.take(i as int),
                ).push(self.action_commands@[i as int]@));
                i += 1;
            }
            assert(self.action_commands@.take(self.action_commands.len() as int)
                =~= self.action_commands@);
        }
        assert(texts(out@) =~= worktree_text(*self));
        out
    }

    /// The record of the selected configuration row (see
    /// `config_record_of`).
    pub fn selected_config_record(&self) -> (res: Option<Vec<(String, String)>>)
        ensures
            match config_record_of(*self) {
                Some(rec) => res matches Some(r) && pairs_view(r@) == rec,
                None => res is None,
            },
    {
        let row_index = match self.selected_config_row_index() {
            Some(r) => r,
            None => {
                return None;
            },
        };
        if row_index >= self.config_frame.rows.len() {
            return None;
        }
        Some(record_pairs(&self.config_frame.columns, &self.config_frame.rows[row_index]))
    }

    /// The record of the selected service row (see `service_record_of`).
    pub fn selected_service_record(&self) -> (res: Option<Vec<(String, String)>>)
        ensures
            match service_record_of(*self) {
                Some(rec) => res matches Some(r) && pairs_view(r@) == rec,
                None => res is None,
            },
    {
        let row_index = match self.selected_service_row_index() {
            Some(r) => r,
            None => {
                return None;
            },
        };
        if row_index >= self.service_frame.rows.len() {
            return None;
        }
        Some(record_pairs(&self.service_frame.columns, &self.service_frame.rows[row_index]))
    }

    /// The lines of the operations panel (see `service_action_text`).
    pub fn service_action_lines(&self) -> (res: Vec<String>)
        ensures
            texts(res@) == service_action_text(*self),
    {
        if self.service_frame.columns.len() == 0 {
            return single("No service resources loaded");
        }
        let mut out: Vec<String> = Vec::new();
        push_line(&mut out, owned("Read-only operations for now"));
        push_line(&mut out, owned("d describe selected resource"));
        push_line(&mut out, owned("r refresh inventory"));
        push_line(&mut out, owned("f filter resources"));
        let ghost head = texts(out@);
        match self.selected_service_record() {
            Some(rec) => {
                push_line(&mut out, owned("Selected resource:"));
                let ghost p = pairs_view(rec@);
                let n = if rec.len() < 8 {
                    rec.len()
                } else {
                    8
                };
                let mut i: usize = 0;
                while i < n
                    invariant
                        i <= n,
                        n <= rec.len(),
                        p == pairs_view(rec@),
                        texts(out@) == head + seq!["Selected resource:"@] + Seq::new(
                            i as nat,
                            |k: int|
                                if p[k].0 == "actions"@ {
                                    p[k].0 + ": "@ + p[k].1
                                } else {
                                    p[k].0 + "="@ + p[k].1
                                },
                        ),
                    decreases n - i,
                {
                    let key = &rec[i].0;
                    let value = &rec[i].1;
                    let is_actions = *key == owned("actions");
                    let line = if is_actions {
                        concat3(key.as_str(), ": ", value.as_str())
                    } else {
                        concat3(key.as_str(), "=", value.as_str())
                    };
                    push_line(&mut out, line);
                    assert(Seq::new(
                        (i + 1) as nat,
                        |k: int|
                            if p[k].0 == "actions"@ {
                                p[k].0 + ": "@ + p[k].1
                            } else {
                                p[k].0 + "="@ + p[k].1
                            },
                    ) =~= Seq::new(
                        i as nat,
                        |k: int|
                            if p[k].0 == "actions"@ {
                                p[k].0 + ": "@ + p[k].1
                            } else {
                                p[k].0 + "="@ + p[k].1
                            },
                    ).push(line@));
                    i += 1;
                }
            },
            None => {},
        }
        assert(texts(out@) =~= service_action_text(*self));
        out
    }

    /// The name of the current monitoring source, or `none`.
    fn provider_label_text(&self) -> (res: String)
        ensures
            res@ == provider_label(*self),
    {
        match self.current_monitor_provider_name() {
            Some(n) => owned(n),
            None => owned("none"),
        }
    }

    /// The lines of the monitoring panel, with the series summary that the
    /// caller formatted (see `monitor_text`).
    pub fn monitor_lines(&self, summary: &Vec<String>) -> (res: Vec<String>)
        ensures
            texts(res@) == monitor_text(*self, texts(summary@)),
    {
        let frame = match &self.monitor_frame {
            Some(f) => f,
            None => {
                return single("No monitoring series loaded");
            },
        };
        let chart = match &self.monitor_chart_ascii {
            Some(a) => a.clone(),
            None => owned("No chart rendered yet"),
        };
        let pieces = lines_chars(&chars_of(chart.as_str()));
        let mut out = strings_of(&pieces);
        assert(texts(out@) == lines(chart@));
        push_line(&mut out, String::new());
        push_line(&mut out, frame.title.clone());
        let label = self.provider_label_text();
        push_line(&mut out, concat("Provider: ", label.as_str()));
        push_line(&mut out, concat("Query: ", self.monitor_query.as_str()));
        let mut i: usize = 0;
        let ghost head = texts(out@);
        while i < summary.len()
            invariant
                i <= summary.len(),
                texts(out@) == head + texts(summary@.take(i as int)),
            decreases summary.len() - i,
        {
            push_line(&mut out, summary[i].clone());
            assert(texts(summary@.take(i + 1)) =~= texts(summary@.take(i as int)).push(
                summary@[i as int]@,
            ));
            i += 1;
        }
        assert(summary@.take(summary.len() as int) =~= summary@);
        match &self.monitor_chart_status {
            Some(status) => {
                push_line(&mut out, String::new());
                let line = match status {
                    ChartRenderStatus::Rendered(p) => concat("gnuplot: rendered ", p.as_str()),
                    ChartRenderStatus::Skipped(r) => concat("gnuplot: ", r.as_str()),
                    ChartRenderStatus::Failed(r) => concat("gnuplot failed: ", r.as_str()),
                };
                push_line(&mut out, line);
            },
            None => {},
        }
        assert(texts(out@) =~= monitor_text(*self, texts(summary@)));
        out
    }

    /// How metrics are drawn (see `monitor_hint`).
    pub fn monitor_detail_hint(&self, supports_kitty: bool) -> (res: String)
        ensures
            res@ == monitor_hint(*self, supports_kitty),
    {
        match &self.monitor_frame {
            Some(_) => if supports_kitty {
                owned("Kitty graph renderer ready")
            } else {
                owned("Kitty unavailable, using text fallback")
            },
            None => owned("No chart loaded"),
        }
    }

    /// The lines of the message panel (see `message_text`).
    pub fn message_lines(&self) -> (res: Vec<String>)
        ensures
            texts(res@) == message_text(*self),
    {
        if self.notifications.len() == 0 {
            return single("No messages yet");
        }
        let n = if self.notifications.len() < 8 {
            self.notifications.len()
        } else {
            8
        };
        let mut out: Vec<String> = Vec::new();
        let mut i: usize = 0;
        while i < n
            invariant
                i <= n,
                n <= 8,
                n <= self.notifications.len(),
                self.notifications.len() > 0,
                texts(out@) == message_text(*self).take(i as int),
            decreases n - i,
        {
            let number = count_text(i + 1);
            let mut line = if i + 1 < 10 {
                owned(" ")
            } else {
                String::new()
            };
            line.append(number.as_str());
            line.append(". ");
            line.append(self.notifications[i].as_str());
            push_line(&mut out, line);
            assert(message_text(*self).take(i + 1) =~= message_text(*self).take(i as int).push(
                line@,
            ));
            i += 1;
        }
        assert(message_text(*self).take(n as int) =~= message_text(*self));
        out
    }
}

impl AppState {
    /// The details of the current view (see `view_details`).
    fn view_detail_lines(&self) -> (res: Vec<String>)
        ensures
            texts(res@) == view_details(*self),
    {
        let mut out: Vec<String> = Vec::new();
        match self.active_view {
            ActiveView::Documents => {
                match self.current_document() {
                    Some(d) => {
                        push_line(&mut out, concat("Selected doc: ", d.title.as_str()));
                        push_line(&mut out, concat("Path: ", d.path.as_str()));
                        let scroll = count_text(self.document_scroll);
                        push_line(&mut out, concat("Scroll: ", scroll.as_str()));
                        let editable = if d.editable {
                            "yes"
                        } else {
                            "no"
                        };
                        push_line(&mut out, concat("Editable: ", editable));
                        let mode = if self.document_editor_mode {
                            "editing"
                        } else {
                            "read-only"
                        };
                        let dirty = if self.document_editor_dirty {
                            " (dirty)"
                        } else {
                            ""
                        };
                        push_line(&mut out, concat3("Editor: ", mode, dirty));
                    },
                    None => {},
                }
            },
            ActiveView::Configs => {
                push_line(&mut out, concat("Filter query: ", self.config_filter_query.as_str()));
                let mode = if self.config_editor_mode {
                    "editing"
                } else {
                    "read-only"
                };
                let dirty = if self.config_editor_dirty {
                    " (dirty)"
                } else {
                    ""
                };
                push_line(&mut out, concat3("Inspector: ", mode, dirty));
                match self.selected_config_record() {
                    Some(rec) => {
                        let block = record_block("Selected row:", &rec);
                        push_lines(&mut out, block);
                    },
                    None => {},
                }
            },
            ActiveView::Worktree => {},
            ActiveView::Services => {
                push_line(&mut out, concat("Service filter: ", self.service_filter_query.as_str()));
                match self.selected_service_record() {
                    Some(rec) => {
                        let block = record_block("Selected service resource:", &rec);
                        push_lines(&mut out, block);
                    },
                    None => {},
                }
            },
            ActiveView::Monitoring => {
                push_line(&mut out, concat("Metric query: ", self.monitor_query.as_str()));
                let label = self.provider_label_text();
                push_line(&mut out, concat("Metric provider: ", label.as_str()));
                let on = if self.monitor_live_poll {
                    "on"
                } else {
                    "off"
                };
                let mut live = concat3("Live polling: ", on, " (");
                let secs = u64_text(self.monitor_refresh_seconds);
                live.append(secs.as_str());
                live.append("s)");
                push_line(&mut out, live);
                let mode = if self.monitor_query_mode {
                    "editing"
                } else {
                    "read-only"
                };
                push_line(&mut out, concat("Query panel: ", mode));
                match &self.monitor_chart_plan {
                    Some(p) => {
                        push_line(&mut out, concat("Chart output: ", p.output_path.as_str()));
                    },
                    None => {},
                }
            },
        }
        assert(texts(out@) =~= view_details(*self));
        out
    }

    /// The lines of the details panel, with the length of the configuration
    /// table exported as JSON, which the caller measured (see
    /// `detail_text`).
    pub fn detail_lines(&self, json_export_len: usize, supports_kitty: bool) -> (res: Vec<String>)
        ensures
            texts(res@) == detail_text(*self, json_export_len as nat, supports_kitty),
    {
        let mut out: Vec<String> = Vec::new();
        push_line(&mut out, concat("Workspace root: ", self.workspace_root.as_str()));
        let docs = count_text(self.documents.len());
        push_line(&mut out, concat("Docs: ", docs.as_str()));
        let configs = count_text(self.config_rows_count());
        push_line(&mut out, concat("Config rows: ", configs.as_str()));
        let services = count_text(self.service_rows_count());
        push_line(&mut out, concat("Service resources: ", services.as_str()));
        let loaded = if self.monitor_frame.is_some() {
            "true"
        } else {
            "false"
        };
        push_line(&mut out, concat("Monitor loaded: ", loaded));
        let json = count_text(json_export_len);
        push_line(&mut out, concat3("Exports: JSON ", json.as_str(), " bytes"));
        let details = self.view_detail_lines();
        push_lines(&mut out, details);
        push_line(&mut out, self.monitor_detail_hint(supports_kitty));
        assert(texts(out@) =~= detail_text(*self, json_export_len as nat, supports_kitty));
        out
    }
}

} // verus!
