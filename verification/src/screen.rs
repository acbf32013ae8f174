//! What the screen shows around the panels: the sidebar, panel titles, the
//! palette's suggestions and cursor, column widths, and the colours derived
//! from the terminal's background.
use vstd::prelude::*;

use crate::dataframe::{display_of, CellValue};
use crate::state::{view_label, ActiveView, AppState};
use crate::terminal_theme::TerminalColor;
use crate::text::{
    ascii_lower, ascii_lower_chars, chars_of, concat, concat3, owned, starts_with,
    str_starts_with, string_of,
};

verus! {

/// The lines of the sidebar: every view, the active one marked.
pub open spec fn sidebar_text(active: ActiveView) -> Seq<Seq<char>> {
    let views = seq![
        ActiveView::Documents,
        ActiveView::Configs,
        ActiveView::Worktree,
        ActiveView::Monitoring,
        ActiveView::Services,
    ];
    Seq::new(
        5,
        |i: int|
            (if views[i] == active {
                ">"@
            } else {
                " "@
            }) + " "@ + view_label(views[i]),
    )
}

/// The lines of the sidebar (see `sidebar_text`).
pub fn sidebar_lines(active: ActiveView) -> (res: Vec<String>)
    ensures
        res@.map_values(|s: String| s@) == sidebar_text(active),
{
    let views = ActiveView::all();
    let mut out: Vec<String> = Vec::new();
    let mut i: usize = 0;
    while i < 5
        invariant
            i <= 5,
            views@ == seq![
                ActiveView::Documents,
                ActiveView::Configs,
                ActiveView::Worktree,
                ActiveView::Monitoring,
                ActiveView::Services,
            ],
            out@.map_values(|s: String| s@) == sidebar_text(active).take(i as int),
        decreases 5 - i,
    {
        let view = views[i];
        let mark = if view == active {
            ">"
        } else {
            " "
        };
        let line = concat3(mark, " ", view.label());
        let ghost before = out@;
        out.push(line);
        assert(out@.map_values(|s: String| s@) =~= before.map_values(|s: String| s@).push(line@));
        assert(sidebar_text(active).take(i + 1) =~= sidebar_text(active).take(i as int).push(
            line@,
        ));
        i += 1;
    }
    assert(sidebar_text(active).take(5) =~= sidebar_text(active));
    out
}

/// Which table a title is for.
#[derive(Debug, Clone, Copy, PartialEq, Eq, Structural)]
pub enum TableKind {
    Configs,
    Services,
}

/// The title of a table panel: its name, its filter (`<none>` when empty),
/// and `[editing]` while the filter is typed.
pub open spec fn table_title_text(kind: TableKind, filter: Seq<char>, editing: bool) -> Seq<char> {
    (match kind {
        TableKind::Configs => "Configs filter: "@,
        TableKind::Services => "Services filter: "@,
    }) + (if filter.len() == 0 {
        "<none>"@
    } else {
        filter
    }) + (if editing {
        " [editing]"@
    } else {
        ""@
    })
}

/// The title of a table panel (see `table_title_text`).
pub fn table_title(kind: TableKind, filter: &str, editing: bool) -> (res: String)
    ensures
        res@ == table_title_text(kind, filter@, editing),
{
    let name = match kind {
        TableKind::Configs => "Configs filter: ",
        TableKind::Services => "Services filter: ",
    };
    let shown = if filter.is_empty() {
        "<none>"
    } else {
        filter
    };
    let suffix = if editing {
        " [editing]"
    } else {
        ""
    };
    concat3(name, shown, suffix)
}

/// The title of the inspector: read-only, editing, or editing with unsaved
/// edits.
pub open spec fn inspector_title_text(editing: bool, dirty: bool) -> Seq<char> {
    if editing {
        if dirty {
            "Inspector [editing, dirty]"@
        } else {
            "Inspector [editing]"@
        }
    } else {
        "Inspector [read-only]"@
    }
}

/// The title of the inspector (see `inspector_title_text`).
pub fn inspector_title(editing: bool, dirty: bool) -> (res: &'static str)
    ensures
        res@ == inspector_title_text(editing, dirty),
{
    if editing {
        if dirty {
            "Inspector [editing, dirty]"
        } else {
            "Inspector [editing]"
        }
    } else {
        "Inspector [read-only]"
    }
}

/// The title of the metric query panel.
pub fn metric_query_title(editing: bool) -> (res: &'static str)
    ensures
        res@ == if editing {
            "Metric Query [editing]"@
        } else {
            "Metric Query [read-only]"@
        },
{
    if editing {
        "Metric Query [editing]"
    } else {
        "Metric Query [read-only]"
    }
}

/// The width of the details panel: wider for the inspector.
pub open spec fn detail_width_of(view: ActiveView) -> u16 {
    if view == ActiveView::Configs {
        48
    } else {
        36
    }
}

/// The width of the details panel (see `detail_width_of`).
pub fn detail_panel_width(view: ActiveView) -> (res: u16)
    ensures
        res == detail_width_of(view),
{
    if view == ActiveView::Configs {
        48
    } else {
        36
    }
}

/// How wide a table column may be.
#[derive(Debug, Clone, Copy, PartialEq, Eq, Structural)]
pub enum ColumnWidth {
    /// At least this many cells.
    Min(u16),
    /// Exactly this many cells.
    Length(u16),
}

/// The width of a service table column, by its name: names of resources are
/// wide, short attributes fixed, the rest flexible.
pub open spec fn service_column_width_of(name: Seq<char>) -> ColumnWidth {
    if name == "name"@ || name == "resource"@ {
        ColumnWidth::Min(18)
    } else if name == "kind"@ || name == "type"@ || name == "status"@ || name == "region"@ || name
        == "namespace"@ {
        ColumnWidth::Length(14)
    } else {
        ColumnWidth::Min(12)
    }
}

/// The width of a service table column (see `service_column_width_of`).
pub fn service_column_width(name: &String) -> (res: ColumnWidth)
    ensures
        res == service_column_width_of(name@),
{
    if *name == owned("name") || *name == owned("resource") {
        ColumnWidth::Min(18)
    } else if *name == owned("kind") || *name == owned("type") || *name == owned("status")
        || *name == owned("region") || *name == owned("namespace") {
        ColumnWidth::Length(14)
    } else {
        ColumnWidth::Min(12)
    }
}

/// The suggestions under the palette's input: for a web address how to
/// open it, for "connect feishu" (any ASCII case) what connecting does,
/// else the list of commands.
pub open spec fn palette_suggestion_text(query: Seq<char>) -> Seq<Seq<char>> {
    if starts_with(query, "http://"@) || starts_with(query, "https://"@) {
        seq!["Open remote URL"@, "Paste a Notion or Feishu/Lark document link, then press Enter"@]
    } else if ascii_lower(query) == "connect feishu"@ {
        seq![
            "Connect Feishu user session"@,
            "Opens browser auth, captures callback, then stores a local session token"@,
        ]
    } else {
        seq![
            "open document"@,
            "open remote url"@,
            "connect feishu"@,
            "refresh providers"@,
            "switch workspace"@,
            "run worktree command"@,
        ]
    }
}

/// The suggestions under the palette's input (see
/// `palette_suggestion_text`).
pub fn palette_suggestions(query: &str) -> (res: Vec<&'static str>)
    ensures
        res@.map_values(|s: &str| s@) == palette_suggestion_text(query@),
{
    let mut out: Vec<&'static str> = Vec::new();
    if str_starts_with(query, "http://") || str_starts_with(query, "https://") {
        out.push("Open remote URL");
        out.push("Paste a Notion or Feishu/Lark document link, then press Enter");
    } else if string_of(&ascii_lower_chars(&chars_of(query))) == owned("connect feishu") {
        out.push("Connect Feishu user session");
        out.push("Opens browser auth, captures callback, then stores a local session token");
    } else {
        out.push("open document");
        out.push("open remote url");
        out.push("connect feishu");
        out.push("refresh providers");
        out.push("switch workspace");
        out.push("run worktree command");
    }
    assert(out@.map_values(|s: &str| s@) =~= palette_suggestion_text(query@));
    out
}

/// `a + b`, held at the largest `u16`.
pub open spec fn add_held(a: int, b: int) -> int {
    if a + b > u16::MAX {
        u16::MAX as int
    } else {
        a + b
    }
}

/// Where the palette's cursor is drawn on its input line: two cells after
/// the prompt's start for the prompt, then one per character before the
/// cursor (the count taken modulo 2^16 as a `u16`), but never past the
/// input's last cell.
pub open spec fn palette_cursor_x_of(x: u16, width: u16, cursor: usize) -> u16 {
    let offset = ((if cursor + 2 > usize::MAX {
        usize::MAX as int
    } else {
        cursor + 2
    }) % 65536) as int;
    let at = add_held(x as int, offset);
    let right = add_held(x as int, width as int);
    let last = if right >= 1 {
        right - 1
    } else {
        0
    };
    (if at < last {
        at
    } else {
        last
    }) as u16
}

/// Where the palette's cursor is drawn (see `palette_cursor_x_of`).
pub fn palette_cursor_x(x: u16, width: u16, cursor: usize) -> (res: u16)
    ensures
        res == palette_cursor_x_of(x, width, cursor),
{
    let moved: usize = if cursor > usize::MAX - 2 {
        usize::MAX
    } else {
        cursor + 2
    };
    let offset: u16 = (moved % 65536) as u16;
    let at: u16 = if x > u16::MAX - offset {
        u16::MAX
    } else {
        x + offset
    };
    let right: u16 = if x > u16::MAX - width {
        u16::MAX
    } else {
        x + width
    };
    let last: u16 = if right >= 1 {
        right - 1
    } else {
        0
    };
    if at < last {
        at
    } else {
        last
    }
}

/// A colour by its red, green and blue components.
#[derive(Debug, Clone, Copy, PartialEq, Eq, Structural)]
pub struct Rgb {
    pub r: u8,
    pub g: u8,
    pub b: u8,
}

/// A component moved by `amount`, kept between 0 and 255.
pub open spec fn nudged(c: u8, amount: int) -> u8 {
    let v = c + amount;
    (if v < 0 {
        0
    } else if v > 255 {
        255
    } else {
        v
    }) as u8
}

/// A colour with each component moved by `amount` (see `nudged`).
pub open spec fn nudge_color(c: TerminalColor, amount: int) -> Rgb {
    Rgb { r: nudged(c.r, amount), g: nudged(c.g, amount), b: nudged(c.b, amount) }
}

/// Moves one component by `amount`, kept between 0 and 255.
fn nudge_component(c: u8, amount: i16) -> (res: u8)
    requires
        -255 <= amount <= 255,
    ensures
        res == nudged(c, amount as int),
{
    let v: i16 = c as i16 + amount;
    if v < 0 {
        0
    } else if v > 255 {
        255
    } else {
        v as u8
    }
}

/// Moves a colour by `amount` (see `nudge_color`).
pub fn nudge(c: TerminalColor, amount: i16) -> (res: Rgb)
    requires
        -255 <= amount <= 255,
    ensures
        res == nudge_color(c, amount as int),
{
    Rgb {
        r: nudge_component(c.r, amount),
        g: nudge_component(c.g, amount),
        b: nudge_component(c.b, amount),
    }
}

/// The colours of the screen, from the terminal's background.
#[derive(Debug, Clone, Copy, PartialEq, Eq, Structural)]
pub struct ThemeColors {
    pub panel_bg: Rgb,
    pub panel_alt_bg: Rgb,
    pub overlay_bg: Rgb,
    pub muted_fg: Rgb,
    pub accent_fg: Rgb,
}

/// The colours for a background: panels a little lighter on a dark
/// background and a little darker on a light one, muted text far from the
/// background, and a warm accent.
pub open spec fn theme_colors_of(background: TerminalColor, is_dark: bool) -> ThemeColors {
    ThemeColors {
        panel_bg: nudge_color(background, if is_dark { 10 } else { -10 }),
        panel_alt_bg: nudge_color(background, if is_dark { 16 } else { -16 }),
        overlay_bg: nudge_color(background, if is_dark { 6 } else { -6 }),
        muted_fg: nudge_color(background, if is_dark { 110 } else { -110 }),
        accent_fg: if is_dark {
            Rgb { r: 224, g: 198, b: 140 }
        } else {
            Rgb { r: 126, g: 88, b: 30 }
        },
    }
}

/// The colours for a background, whether it is dark being decided by the
/// caller (see `theme_colors_of`).
pub fn theme_colors(background: TerminalColor, is_dark: bool) -> (res: ThemeColors)
    ensures
        res == theme_colors_of(background, is_dark),
{
    let sign: i16 = if is_dark {
        1
    } else {
        -1
    };
    ThemeColors {
        panel_bg: nudge(background, 10 * sign),
        panel_alt_bg: nudge(background, 16 * sign),
        overlay_bg: nudge(background, 6 * sign),
        muted_fg: nudge(background, 110 * sign),
        accent_fg: if is_dark {
            Rgb { r: 224, g: 198, b: 140 }
        } else {
            Rgb { r: 126, g: 88, b: 30 }
        },
    }
}

impl AppState {
    /// The suggestions under the palette's input, for the command typed.
    pub fn command_suggestions(&self) -> (res: Vec<&'static str>)
        ensures
            res@.map_values(|s: &str| s@) == palette_suggestion_text(self.command_query@),
    {
        palette_suggestions(self.command_query.as_str())
    }
}

/// How many rows a table panel shows: 40 configuration rows, 60 service
/// rows.
pub open spec fn table_row_limit_of(kind: TableKind) -> nat {
    match kind {
        TableKind::Configs => 40,
        TableKind::Services => 60,
    }
}

/// A row as a table panel shows it: its marker (">" on the selected row,
/// else " "), whether it is selected, and its cells' texts.
#[derive(Debug, Clone, PartialEq, Eq)]
pub struct ShownRow {
    pub marker: String,
    pub selected: bool,
    pub cells: Vec<String>,
}

/// Whether `shown` is row `i` of a table as the panel shows it.
pub open spec fn is_shown_row(shown: ShownRow, row: Seq<CellValue>, i: int, selected: int) -> bool {
    &&& shown.selected == (i == selected)
    &&& shown.marker@ == (if i == selected {
        ">"@
    } else {
        " "@
    })
    &&& shown.cells@.map_values(|c: String| c@) == row.map_values(|c: CellValue| display_of(c))
}

/// The texts of a row's cells.
fn cell_texts(row: &Vec<CellValue>) -> (res: Vec<String>)
    ensures
        res@.map_values(|c: String| c@) == row@.map_values(|c: CellValue| display_of(c)),
{
    let mut out: Vec<String> = Vec::new();
    let mut k: usize = 0;
    while k < row.len()
        invariant
            k <= row.len(),
            out.len() == k,
            forall|j: int| 0 <= j < k ==> (#[trigger] out@[j])@ == display_of(row@[j]),
        decreases row.len() - k,
    {
        out.push(row[k].as_display());
        k += 1;
    }
    assert(out@.map_values(|c: String| c@) =~= row@.map_values(|c: CellValue| display_of(c)));
    out
}

/// The rows a table panel shows: the first ones, up to the panel's limit
/// (see `table_row_limit_of`), the selected one marked.
pub fn shown_rows(kind: TableKind, rows: &Vec<Vec<CellValue>>, selected: usize) -> (res: Vec<ShownRow>)
    ensures
        res.len() == (if rows.len() < table_row_limit_of(kind) {
            rows.len() as nat
        } else {
            table_row_limit_of(kind)
        }),
        forall|i: int|
            0 <= i < res.len() ==> is_shown_row(#[trigger] res@[i], rows@[i]@, i, selected as int),
{
    let limit: usize = match kind {
        TableKind::Configs => 40,
        TableKind::Services => 60,
    };
    let n = if rows.len() < limit {
        rows.len()
    } else {
        limit
    };
    let mut out: Vec<ShownRow> = Vec::new();
    let mut i: usize = 0;
    while i < n
        invariant
            i <= n <= rows.len(),
            out.len() == i,
            forall|j: int|
                0 <= j < i ==> is_shown_row(#[trigger] out@[j], rows@[j]@, j, selected as int),
        decreases n - i,
    {
        let is_selected = i == selected;
        let marker = if is_selected {
            owned(">")
        } else {
            owned(" ")
        };
        out.push(ShownRow { marker, selected: is_selected, cells: cell_texts(&rows[i]) });
        i += 1;
    }
    out
}

} // verus!
