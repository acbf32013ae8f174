//! Properties that hold across calls and for every input.
use vstd::prelude::*;

use crate::dataframe::{
    filter_indexes, first_missing, lemma_uniform_column_preorder, total_preorder_on,
    uniform_column, lemma_matching_indexes, lowercase_of, matching_indexes,
    record_of, row_matches, CellValue, ColumnSchema,
};
use crate::document::{is_component_line, mint_run, md_blocks, md_run, same_document, DocumentResource, MarkdownEventView, NodeView};
use crate::session::others;
use crate::state::{char_pos, inserted_at_cursor, moved_cursor, stepped, without_range, wrapped};
use crate::terminal_theme::{
    hex_digit, hex_max, hex_prefix_len, hex_value, is_hex, lemma_hex_prefix, scaled_component,
};
use crate::dataframe::{cell_at, row_order, text_order, sorted_by, CellOrder, DateTimeCell, FloatCell};
use crate::feishu::{token_plan, FeishuTokenPlan, FeishuUserSession};
use crate::keys::{key_action_of, Key, KeyAction, KeyPress};
use crate::state::ActiveView;
use crate::remote::{is_feishu_host, is_notion_host, remote_target, segment_position, RemoteTarget};
use crate::text::{ascii_lower, split, trim_char};
use crate::text::trim;

verus! {

/// Typing a character and deleting the one before the cursor gives back the
/// command as it was, whenever the cursor stood within the command.
pub proof fn law_insert_then_delete_restores(q: Seq<char>, cursor: int, c: char)
    requires
        0 <= cursor <= q.len(),
    ensures
        without_range(inserted_at_cursor(q, cursor, c), cursor, cursor + 1) == q,
{
    let ins = inserted_at_cursor(q, cursor, c);
    assert(ins.len() == q.len() + 1);
    assert(char_pos(ins.len() as int, cursor) == cursor);
    assert(char_pos(ins.len() as int, cursor + 1) == cursor + 1);
    assert(ins.take(cursor) + ins.skip(cursor + 1) =~= q);
}

/// Moving the cursor never takes it past the end of the command when it
/// started within it, nor below the start.
pub proof fn law_cursor_stays_within_command(cursor: int, len: int, delta: int)
    requires
        0 <= cursor <= len,
    ensures
        0 <= moved_cursor(cursor, len, delta) <= len,
{
}

/// A selection moved in a non-empty list stays on an item of the list when
/// it started on one.
pub proof fn law_selection_stays_in_list(index: int, len: int, delta: int)
    requires
        0 <= index < len,
    ensures
        0 <= stepped(index, len, delta) < len,
{
}

/// Cycling through a non-empty list always lands on one of its items, and
/// a full turn comes back to the start.
pub proof fn law_cycle_stays_in_list(index: int, len: int, delta: int)
    requires
        0 <= index < len,
    ensures
        0 <= wrapped(index, len, delta) < len,
        wrapped(index, len, len) == index,
{
    vstd::arithmetic::div_mod::lemma_mod_bound(index + delta, len);
    vstd::arithmetic::div_mod::lemma_mod_add_multiples_vanish(index, len);
    vstd::arithmetic::div_mod::lemma_small_mod(index as nat, len as nat);
}

/// A blank filter keeps every row, in order.
pub proof fn law_blank_filter_keeps_every_row(rows: Seq<Seq<CellValue>>, query: Seq<char>)
    requires
        trim(query).len() == 0,
        rows.len() <= usize::MAX,
    ensures
        filter_indexes(rows, query).len() == rows.len(),
        forall|i: int| 0 <= i < rows.len() ==> filter_indexes(rows, query)[i] == i,
{
}

/// A filter keeps a row exactly when one of its cells contains the query
/// (both lowered), and keeps the rows in their order.
pub proof fn law_filter_keeps_matching_rows(rows: Seq<Seq<CellValue>>, query: Seq<char>)
    requires
        trim(query).len() != 0,
        rows.len() <= usize::MAX,
    ensures
        forall|i: int|
            0 <= i < rows.len() ==> (filter_indexes(rows, query).contains(i as usize)
                <==> row_matches(rows[i], lowercase_of(query))),
        forall|a: int, b: int|
            0 <= a < b < filter_indexes(rows, query).len() ==> filter_indexes(rows, query)[a]
                < filter_indexes(rows, query)[b],
{
    let q = lowercase_of(query);
    lemma_matching_indexes(rows, q, rows.len() as int);
    assert forall|i: int| 0 <= i < rows.len() implies (filter_indexes(rows, query).contains(
        i as usize,
    ) <==> row_matches(rows[i], q)) by {
        lemma_kept_exactly(rows, q, rows.len() as int, i);
    }
}

/// Among the first `n` rows, row `i` is kept exactly when it matches.
proof fn lemma_kept_exactly(rows: Seq<Seq<CellValue>>, q: Seq<char>, n: int, i: int)
    requires
        0 <= i < n <= rows.len(),
        n <= usize::MAX,
    ensures
        matching_indexes(rows, q, n).contains(i as usize) <==> row_matches(rows[i], q),
    decreases n,
{
    lemma_matching_indexes(rows, q, n - 1);
    let prev = matching_indexes(rows, q, n - 1);
    if i < n - 1 {
        lemma_kept_exactly(rows, q, n - 1, i);
        if row_matches(rows[n - 1], q) {
            let cur = prev.push((n - 1) as usize);
            if cur.contains(i as usize) {
                let k = choose|k: int| 0 <= k < cur.len() && cur[k] == i as usize;
                if k == prev.len() {
                    assert(cur[k] == (n - 1) as usize);
                } else {
                    assert(prev[k] == i as usize);
                }
            }
            if prev.contains(i as usize) {
                let k = choose|k: int| 0 <= k < prev.len() && prev[k] == i as usize;
                assert(cur[k] == i as usize);
            }
        }
    } else {
        if row_matches(rows[n - 1], q) {
            let cur = prev.push((n - 1) as usize);
            assert(cur[prev.len() as int] == (n - 1) as usize);
        } else {
            if prev.contains(i as usize) {
                let k = choose|k: int| 0 <= k < prev.len() && prev[k] == i as usize;
                assert(prev[k] < n - 1);
            }
        }
    }
}

/// Opening a document that is already listed replaces it: afterwards the
/// list holds exactly one entry that is that document, the last one.
pub proof fn law_open_document_listed_once(docs: Seq<DocumentResource>, doc: DocumentResource)
    ensures
        forall|k: int|
            0 <= k < others(docs, doc).push(doc).len() ==> (same_document(
                #[trigger] others(docs, doc).push(doc)[k],
                doc,
            ) <==> k == others(docs, doc).len()),
{
    lemma_others_exclude(docs, doc);
    let list = others(docs, doc).push(doc);
    assert forall|k: int| 0 <= k < list.len() implies (same_document(#[trigger] list[k], doc)
        <==> k == others(docs, doc).len()) by {
        if k < others(docs, doc).len() {
            assert(list[k] == others(docs, doc)[k]);
        }
    }
}

/// No document kept by `others` is the one left out.
proof fn lemma_others_exclude(docs: Seq<DocumentResource>, doc: DocumentResource)
    ensures
        forall|k: int|
            0 <= k < others(docs, doc).len() ==> !same_document(#[trigger] others(docs, doc)[k], doc),
    decreases docs.len(),
{
    if docs.len() > 0 {
        lemma_others_exclude(docs.drop_first(), doc);
        let head: Seq<DocumentResource> = if same_document(docs[0], doc) {
            Seq::empty()
        } else {
            seq![docs[0]]
        };
        let rest = others(docs.drop_first(), doc);
        assert(others(docs, doc) == head + rest);
        assert forall|k: int| 0 <= k < others(docs, doc).len() implies !same_document(
            #[trigger] others(docs, doc)[k],
            doc,
        ) by {
            if k < head.len() {
                assert(others(docs, doc)[k] == docs[0]);
            } else {
                assert(others(docs, doc)[k] == rest[k - head.len()]);
            }
        }
    }
}

/// A row replaced with converted cells (as `update_row_from_cells` does on
/// success) reads back (as `record_at` reads it) as each column's name with
/// its new cell, and the other rows stay as they were.
pub proof fn law_updated_row_reads_back(
    columns: Seq<ColumnSchema>,
    rows: Seq<Seq<CellValue>>,
    row: int,
    cells: Seq<Option<CellValue>>,
)
    requires
        0 <= row < rows.len(),
        cells.len() == columns.len(),
        first_missing(cells, cells.len() as int) is None,
    ensures
        ({
            let after = rows.update(row, cells.map_values(|c: Option<CellValue>| c->0));
            &&& record_of(columns, after[row]) == Seq::new(
                columns.len(),
                |i: int| (columns[i].name, cells[i]->0),
            )
            &&& forall|j: int| 0 <= j < rows.len() && j != row ==> after[j] == rows[j]
        }),
{
    let after = rows.update(row, cells.map_values(|c: Option<CellValue>| c->0));
    assert(record_of(columns, after[row]) =~= Seq::new(
        columns.len(),
        |i: int| (columns[i].name, cells[i]->0),
    ));
}

/// The lowercase hexadecimal digit for a value below sixteen.
pub open spec fn hex_char(d: nat) -> char {
    if d < 10 {
        ((48 + d) as u32) as char
    } else {
        ((87 + d) as u32) as char
    }
}

/// The lowest `n` hexadecimal digits of `v`, most significant first.
pub open spec fn hex_digits(v: nat, n: nat) -> Seq<char>
    decreases n,
{
    if n == 0 {
        Seq::empty()
    } else {
        hex_digits(v / 16, (n - 1) as nat).push(hex_char(v % 16))
    }
}

/// A value that fits `n` hexadecimal digits is what its digits read as.
proof fn lemma_hex_digits_read_back(v: nat, n: nat)
    requires
        v <= hex_max(n),
    ensures
        hex_digits(v, n).len() == n,
        forall|k: int| 0 <= k < n ==> is_hex(#[trigger] hex_digits(v, n)[k]),
        hex_value(hex_digits(v, n)) == v,
    decreases n,
{
    if n > 0 {
        let d = v % 16;
        let c = hex_char(d);
        assert(v / 16 <= hex_max((n - 1) as nat));
        lemma_hex_digits_read_back(v / 16, (n - 1) as nat);
        let s = hex_digits(v / 16, (n - 1) as nat);
        assert(hex_digits(v, n) == s.push(c));
        assert(s.push(c).drop_last() =~= s);
        assert(is_hex(c) && hex_digit(c) == d);
        assert forall|k: int| 0 <= k < n implies is_hex(#[trigger] hex_digits(v, n)[k]) by {
            if k < n - 1 {
                assert(s.push(c)[k] == s[k]);
            }
        }
    }
}

/// The colour component that xterm reports for an 8-bit channel, four
/// hexadecimal digits of the channel times 257 (or two digits of the channel
/// itself), reads back as that channel.
pub proof fn law_reported_component_reads_back(channel: u8)
    ensures
        scaled_component(hex_digits(channel as nat * 257, 4)) == Some(channel),
        scaled_component(hex_digits(channel as nat, 2)) == Some(channel),
{
    assert(hex_max(4) == 65535) by {
        reveal_with_fuel(hex_max, 5);
    }
    assert(hex_max(2) == 255) by {
        reveal_with_fuel(hex_max, 3);
    }
    let wide = channel as nat * 257;
    lemma_hex_digits_read_back(wide, 4);
    lemma_hex_digits_read_back(channel as nat, 2);
    let s4 = hex_digits(wide, 4);
    let s2 = hex_digits(channel as nat, 2);
    lemma_hex_prefix(s4, 4);
    lemma_hex_prefix(s2, 2);
    assert(s4.take(4) =~= s4);
    assert(s2.take(2) =~= s2);
    assert((wide * 255) / 65535 == channel) by (nonlinear_arith)
        requires
            wide == channel as nat * 257,
    ;
    assert((channel as nat * 255) / 255 == channel) by (nonlinear_arith);
}

/// When the cells a column holds are all of one kind (and no float among
/// them is NaN), comparing rows on that column is a total preorder, in
/// either direction; so sorting on it (`sort_by_column`) gives the rows in
/// order, equal rows keeping their order.
pub proof fn law_one_kind_column_sorts(rows: Seq<Seq<CellValue>>, column: int, ascending: bool)
    requires
        uniform_column(rows, column),
    ensures
        total_preorder_on(rows, column, ascending),
{
    lemma_uniform_column_preorder(rows, column, ascending);
}

/// Normalizing Markdown (`parse_markdown`, for the reader's events) gives
/// no blocks exactly when the reader's events build none and the source is
/// blank; a source that is not blank, for which the events build no block,
/// gives exactly one paragraph: the source trimmed.
pub proof fn law_markdown_blocks_empty_only_when_blank(source: Seq<char>, events: Seq<MarkdownEventView>)
    ensures
        (md_blocks(source, events).len() == 0) == (md_run(events).nodes.len() == 0 && trim(
            source,
        ).len() == 0),
        md_run(events).nodes.len() == 0 && trim(source).len() != 0 ==> md_blocks(source, events)
            == seq![NodeView::Paragraph(trim(source))],
{
}

/// A row whose cell in `column` is `cell`.
pub open spec fn has_cell(row: Seq<CellValue>, column: int, cell: CellValue) -> bool {
    0 <= column < row.len() && row[column] == cell
}

/// Sorting compares typed cells by value: a smaller integer, an earlier
/// timestamp, `false` before `true`, and a float of lower rank come first
/// when ascending and last when descending, whichever row is asked first.
pub proof fn law_typed_cells_order_by_value(a: Seq<CellValue>, b: Seq<CellValue>, column: int)
    ensures
        forall|x: i64, y: i64|
            has_cell(a, column, CellValue::Int(x)) && has_cell(b, column, CellValue::Int(y)) && x < y
                ==> #[trigger] row_order(a, b, column, true) == CellOrder::Less && row_order(
                b,
                a,
                column,
                true,
            ) == CellOrder::Greater && row_order(a, b, column, false) == CellOrder::Greater
                && row_order(b, a, column, false) == CellOrder::Less,
        forall|x: DateTimeCell, y: DateTimeCell|
            has_cell(a, column, CellValue::DateTime(x)) && has_cell(b, column, CellValue::DateTime(y))
                && x.nanos < y.nanos ==> #[trigger] row_order(a, b, column, true) == CellOrder::Less
                && row_order(b, a, column, true) == CellOrder::Greater && row_order(
                a,
                b,
                column,
                false,
            ) == CellOrder::Greater && row_order(b, a, column, false) == CellOrder::Less,
        has_cell(a, column, CellValue::Bool(false)) && has_cell(b, column, CellValue::Bool(true))
            ==> row_order(a, b, column, true) == CellOrder::Less && row_order(b, a, column, true)
            == CellOrder::Greater && row_order(a, b, column, false) == CellOrder::Greater,
        forall|x: FloatCell, y: FloatCell|
            has_cell(a, column, CellValue::Float(x)) && has_cell(b, column, CellValue::Float(y))
                && x.rank is Some && y.rank is Some && x.rank->0 < y.rank->0 ==> #[trigger] row_order(
                a,
                b,
                column,
                true,
            ) == CellOrder::Less && row_order(b, a, column, true) == CellOrder::Greater
                && row_order(a, b, column, false) == CellOrder::Greater,
{
    reveal(row_order);
}

/// Timestamps a sort puts in ascending order are non-decreasing in time,
/// and in descending order non-increasing.
pub proof fn law_sorted_timestamps_follow_time(
    rows: Seq<Seq<CellValue>>,
    perm: Seq<usize>,
    column: int,
    ascending: bool,
)
    requires
        forall|k: int| 0 <= k < perm.len() ==> perm[k] < rows.len(),
        forall|i: int|
            0 <= i < rows.len() ==> 0 <= column < rows[i].len() && rows[i][column] is DateTime,
        sorted_by(rows, perm, column, ascending),
    ensures
        forall|i: int, j: int|
            0 <= i < j < perm.len() ==> if ascending {
                (rows[perm[i] as int][column]->DateTime_0).nanos <= (rows[perm[j] as int][
                column]->DateTime_0).nanos
            } else {
                (rows[perm[i] as int][column]->DateTime_0).nanos >= (rows[perm[j] as int][
                column]->DateTime_0).nanos
            },
{
    reveal(row_order);
    assert forall|i: int, j: int| 0 <= i < j < perm.len() implies if ascending {
        (rows[perm[i] as int][column]->DateTime_0).nanos <= (rows[perm[j] as int][
        column]->DateTime_0).nanos
    } else {
        (rows[perm[i] as int][column]->DateTime_0).nanos >= (rows[perm[j] as int][
        column]->DateTime_0).nanos
    } by {
        let ri = rows[perm[i] as int];
        let rj = rows[perm[j] as int];
        assert(row_order(rj, ri, column, ascending) != CellOrder::Less);
        assert(cell_at(ri, column) == Some(ri[column]));
        assert(cell_at(rj, column) == Some(rj[column]));
    }
}

/// Text compares by its first differing character, and a proper prefix
/// comes first.
proof fn lemma_text_first_difference(p: Seq<char>, x: Seq<char>, y: Seq<char>)
    requires
        (x.len() == 0 && y.len() > 0) || (x.len() > 0 && y.len() > 0 && (x[0] as u32) < (
        y[0] as u32)),
    ensures
        text_order(p + x, p + y) == CellOrder::Less,
    decreases p.len(),
{
    if p.len() > 0 {
        assert((p + x).drop_first() =~= p.drop_first() + x);
        assert((p + y).drop_first() =~= p.drop_first() + y);
        lemma_text_first_difference(p.drop_first(), x, y);
    } else {
        assert(p + x =~= x);
        assert(p + y =~= y);
    }
}

/// Text cells sort by their characters: after a common beginning, the text
/// whose next character has the lower code comes first, and a text that
/// ends where the other goes on comes first (when ascending; last when
/// descending).
pub proof fn law_text_cells_order_by_characters(
    a: Seq<CellValue>,
    b: Seq<CellValue>,
    column: int,
    s: String,
    t: String,
    common: Seq<char>,
    rest_s: Seq<char>,
    rest_t: Seq<char>,
)
    requires
        has_cell(a, column, CellValue::String(s)),
        has_cell(b, column, CellValue::String(t)),
        s@ == common + rest_s,
        t@ == common + rest_t,
        (rest_s.len() == 0 && rest_t.len() > 0) || (rest_s.len() > 0 && rest_t.len() > 0 && (
        rest_s[0] as u32) < (rest_t[0] as u32)),
    ensures
        row_order(a, b, column, true) == CellOrder::Less,
        row_order(a, b, column, false) == CellOrder::Greater,
{
    reveal(row_order);
    lemma_text_first_difference(common, rest_s, rest_t);
}

/// The stored session's token is used only while it stays valid for more
/// than a minute; an expiring session is refreshed when it has a refresh
/// token, and otherwise (or without a session) the fallback variable is
/// read.
pub proof fn law_token_plan_uses_only_valid_sessions(session: Option<FeishuUserSession>, now: i64)
    ensures
        token_plan(session, now) matches FeishuTokenPlan::UseSession(t) ==> (session matches Some(s)
            && s.expires_at > now + 60 && t == s.access_token),
        token_plan(session, now) matches FeishuTokenPlan::Refresh(r) ==> (session matches Some(s)
            && s.expires_at <= now + 60 && r == s.refresh_token && r@.len() > 0),
        session is Some && session->0.expires_at > now + 60 ==> token_plan(session, now)
            == FeishuTokenPlan::UseSession(session->0.access_token),
        session is Some && session->0.expires_at <= now + 60 && session->0.refresh_token@.len() == 0
            ==> token_plan(session, now) == FeishuTokenPlan::UseEnvironment,
        session is Some && session->0.expires_at <= now + 60 && session->0.refresh_token@.len() > 0
            ==> token_plan(session, now) == FeishuTokenPlan::Refresh(session->0.refresh_token),
        session is None ==> token_plan(session, now) == FeishuTokenPlan::UseEnvironment,
{
}

/// In the normal mode, Up and `k` (and Control-`p`) move the selection one
/// row up, and Down and `j` (and Control-`n`) the same step down; PageUp and
/// `p` scroll eight lines back, PageDown and `n` eight forward; `q` and
/// Control-`c` quit; `1` to `4` show the documents, configuration, worktree
/// and monitoring views; `/` opens the palette.
pub proof fn law_normal_mode_keys(control: bool)
    ensures
        ({
            let act = |k: Key| key_action_of(false, false, false, false, KeyPress { key: k, control });
            &&& (act(Key::Up) is MoveSelection && act(Key::Up)->MoveSelection_0 == -1)
            &&& (act(Key::Char('k')) is MoveSelection && act(Key::Char('k'))->MoveSelection_0 == -1)
            &&& (act(Key::Down) is MoveSelection && act(Key::Down)->MoveSelection_0 == 1)
            &&& (act(Key::Char('j')) is MoveSelection && act(Key::Char('j'))->MoveSelection_0 == 1)
            &&& (act(Key::PageUp) is ScrollCurrent && act(Key::PageUp)->ScrollCurrent_0 == -8)
            &&& (act(Key::PageDown) is ScrollCurrent && act(Key::PageDown)->ScrollCurrent_0 == 8)
            &&& act(Key::Char('q')) == KeyAction::Quit
            &&& act(Key::Char('1')) == KeyAction::ActivateView(ActiveView::Documents)
            &&& act(Key::Char('2')) == KeyAction::ActivateView(ActiveView::Configs)
            &&& act(Key::Char('3')) == KeyAction::ActivateView(ActiveView::Worktree)
            &&& act(Key::Char('4')) == KeyAction::ActivateView(ActiveView::Monitoring)
            &&& act(Key::Char('/')) == KeyAction::FlipPalette
            &&& control ==> (act(Key::Char('p')) is MoveSelection && act(Key::Char('p'))->MoveSelection_0 == -1)
                && (act(Key::Char('n')) is MoveSelection && act(Key::Char('n'))->MoveSelection_0 == 1) && act(Key::Char('c'))
                == KeyAction::Quit
            &&& !control ==> (act(Key::Char('p')) is ScrollCurrent && act(Key::Char('p'))->ScrollCurrent_0 == -8)
                && (act(Key::Char('n')) is ScrollCurrent && act(Key::Char('n'))->ScrollCurrent_0 == 8)
        }),
{
}

/// With the palette open every character is typed into the command; while
/// a filter is typed every character without Control goes to the filter,
/// and Esc or Enter ends it.
pub proof fn law_typing_modes_take_characters(c: char, control: bool, others: bool)
    ensures
        key_action_of(true, others, others, others, KeyPress { key: Key::Char(c), control })
            == KeyAction::PushCommandChar(c),
        key_action_of(false, true, others, others, KeyPress { key: Key::Char(c), control: false })
            == KeyAction::AppendFilterChar(c),
        key_action_of(false, true, others, others, KeyPress { key: Key::Esc, control })
            == KeyAction::ClearFilterMode,
        key_action_of(false, true, others, others, KeyPress { key: Key::Enter, control })
            == KeyAction::ClearFilterMode,
{
}

/// The lines that are not component tag lines, in order.
pub open spec fn non_component_lines(ls: Seq<Seq<char>>) -> Seq<Seq<char>>
    decreases ls.len(),
{
    if ls.len() == 0 {
        Seq::empty()
    } else if is_component_line(trim(ls.last())) {
        non_component_lines(ls.drop_last())
    } else {
        non_component_lines(ls.drop_last()).push(ls.last())
    }
}

/// Once the front matter has closed, the stripping is outside it.
proof fn lemma_mint_closed_is_outside(ls: Seq<Seq<char>>)
    ensures
        mint_run(ls).frontmatter_consumed ==> !mint_run(ls).in_frontmatter,
    decreases ls.len(),
{
    if ls.len() > 0 {
        lemma_mint_closed_is_outside(ls.drop_last());
    }
}

/// Mintlify stripping, once the front matter has closed (after the first
/// `k` lines), keeps every later line that is not a component tag line, in
/// order (a later `---` among them), and the front matter stays closed.
pub proof fn law_mintlify_keeps_body_after_front_matter(ls: Seq<Seq<char>>, k: int)
    requires
        0 <= k <= ls.len(),
        mint_run(ls.take(k)).frontmatter_consumed,
    ensures
        mint_run(ls).frontmatter_consumed,
        mint_run(ls).kept == mint_run(ls.take(k)).kept + non_component_lines(ls.skip(k)),
    decreases ls.len(),
{
    if ls.len() == k {
        assert(ls.take(k) =~= ls);
        assert(ls.skip(k) =~= Seq::<Seq<char>>::empty());
    } else {
        let prev = ls.drop_last();
        assert(prev.take(k) =~= ls.take(k));
        law_mintlify_keeps_body_after_front_matter(prev, k);
        lemma_mint_closed_is_outside(prev);
        assert(ls.skip(k).drop_last() =~= prev.skip(k));
        assert(ls.skip(k).last() == ls.last());
        assert(mint_run(ls) == crate::document::mint_step(mint_run(prev), ls.last()));
    }
}

/// The first segment with a name is found where it stands.
proof fn lemma_segment_position_first(segments: Seq<Seq<char>>, name: Seq<char>, i: int)
    requires
        0 <= i < segments.len(),
        segments[i] == name,
        forall|j: int| 0 <= j < i ==> segments[j] != name,
    ensures
        segment_position(segments, name) == Some(i),
    decreases i,
{
    if i > 0 {
        assert forall|j: int| 0 <= j < i - 1 implies segments.drop_first()[j] != name by {
            assert(segments.drop_first()[j] == segments[j + 1]);
        }
        lemma_segment_position_first(segments.drop_first(), name, i - 1);
    }
}

/// A name that no segment has is not found.
proof fn lemma_segment_position_absent(segments: Seq<Seq<char>>, name: Seq<char>)
    requires
        forall|j: int| 0 <= j < segments.len() ==> segments[j] != name,
    ensures
        segment_position(segments, name) is None,
    decreases segments.len(),
{
    if segments.len() > 0 {
        assert forall|j: int| 0 <= j < segments.len() - 1 implies segments.drop_first()[j]
            != name by {
            assert(segments.drop_first()[j] == segments[j + 1]);
        }
        lemma_segment_position_absent(segments.drop_first(), name);
    }
}

/// On a Feishu or Lark host (and not a Notion one), a path whose segments
/// hold `docx` followed by an id points to that document; one without
/// `docx` whose segments hold `wiki` followed by an id points to that wiki
/// document (the first `docx` or `wiki` segment counts).
pub proof fn law_feishu_paths_name_the_document(host: Seq<char>, path: Seq<char>, i: int)
    requires
        is_feishu_host(ascii_lower(host)),
        !is_notion_host(ascii_lower(host)),
    ensures
        ({
            let segs = split(trim_char(path, '/'), '/');
            &&& (0 <= i && i + 1 < segs.len() && segs[i] == "docx"@ && forall|j: int|
                0 <= j < i ==> segs[j] != "docx"@) ==> remote_target(Some(host), path) == Some(
                RemoteTarget::Feishu(segs[i + 1]),
            )
            &&& (0 <= i && i + 1 < segs.len() && segs[i] == "wiki"@ && (forall|j: int|
                0 <= j < i ==> segs[j] != "wiki"@) && forall|j: int|
                0 <= j < segs.len() ==> segs[j] != "docx"@) ==> remote_target(Some(host), path)
                == Some(RemoteTarget::Feishu(segs[i + 1]))
        }),
{
    let segs = split(trim_char(path, '/'), '/');
    if 0 <= i && i + 1 < segs.len() && segs[i] == "docx"@ && forall|j: int|
        0 <= j < i ==> segs[j] != "docx"@ {
        lemma_segment_position_first(segs, "docx"@, i);
    }
    if 0 <= i && i + 1 < segs.len() && segs[i] == "wiki"@ && (forall|j: int|
        0 <= j < i ==> segs[j] != "wiki"@) && forall|j: int|
        0 <= j < segs.len() ==> segs[j] != "docx"@ {
        lemma_segment_position_first(segs, "wiki"@, i);
        lemma_segment_position_absent(segs, "docx"@);
    }
}

/// Inside an opening front matter, stripping keeps nothing.
proof fn lemma_mint_inside_front_matter(ls: Seq<Seq<char>>, close: int, m: int)
    requires
        1 <= m <= close < ls.len(),
        trim(ls[0]) == "---"@,
        forall|q: int| 0 < q < close ==> trim(#[trigger] ls[q]) != "---"@,
    ensures
        mint_run(ls.take(m)).in_frontmatter,
        !mint_run(ls.take(m)).frontmatter_consumed,
        mint_run(ls.take(m)).kept.len() == 0,
    decreases m,
{
    assert(ls.take(m).drop_last() =~= ls.take(m - 1));
    assert(ls.take(m).last() == ls[m - 1]);
    assert(mint_run(ls.take(m)) == crate::document::mint_step(mint_run(ls.take(m - 1)), ls[m - 1]));
    if m > 1 {
        lemma_mint_inside_front_matter(ls, close, m - 1);
        assert(trim(ls[m - 1]) != "---"@);
    } else {
        assert(ls.take(0) =~= Seq::<Seq<char>>::empty());
    }
}

/// A source that opens with a `---` line drops everything up to and
/// including the next `---` line (the front matter), keeps nothing of it,
/// and counts the front matter as closed.
pub proof fn law_mintlify_drops_opening_front_matter(ls: Seq<Seq<char>>, close: int)
    requires
        0 < close < ls.len(),
        trim(ls[0]) == "---"@,
        trim(ls[close]) == "---"@,
        forall|m: int| 0 < m < close ==> trim(#[trigger] ls[m]) != "---"@,
    ensures
        mint_run(ls.take(close + 1)).frontmatter_consumed,
        !mint_run(ls.take(close + 1)).in_frontmatter,
        mint_run(ls.take(close + 1)).kept.len() == 0,
{
    lemma_mint_inside_front_matter(ls, close, close);
    assert(ls.take(close + 1).drop_last() =~= ls.take(close));
    assert(ls.take(close + 1).last() == ls[close]);
    assert(mint_run(ls.take(close + 1)) == crate::document::mint_step(
        mint_run(ls.take(close)),
        ls[close],
    ));
}

/// While the inspector is edited, Esc ends editing, Control-`s` saves and
/// Control-`e` exports; while the metric query is edited, Esc ends editing
/// and Enter applies it.
pub proof fn law_editing_mode_keys(control: bool)
    ensures
        key_action_of(false, false, true, false, KeyPress { key: Key::Esc, control })
            == KeyAction::ToggleConfigEditorMode,
        key_action_of(false, false, true, false, KeyPress { key: Key::Char('s'), control: true })
            == KeyAction::SaveConfigEditor,
        key_action_of(false, false, true, false, KeyPress { key: Key::Char('e'), control: true })
            == KeyAction::ExportConfigEditor,
        key_action_of(false, false, false, true, KeyPress { key: Key::Esc, control })
            == KeyAction::ToggleMonitorQueryMode,
        key_action_of(false, false, false, true, KeyPress { key: Key::Enter, control })
            == KeyAction::ApplyMonitorQuery,
{
}

} // verus!
