//! Typed tables of configuration and service data: filtering, sorting, records
//! and CSV export.
use vstd::prelude::*;

use crate::text::{
    chars_of, contains, contains_chars, i64_text, int_text, is_blank, join, join_strings, owned,
    replace, str_contains, str_replace, trim,
};

verus! {

/// The declared type of a column.
#[derive(Debug, Clone, Copy, PartialEq, Eq, Structural)]
pub enum ColumnType {
    String,
    Int,
    Float,
    Bool,
    DateTime,
    Json,
}

/// The name and declared type of a column.
#[derive(Debug, Clone, PartialEq, Eq)]
pub struct ColumnSchema {
    pub name: String,
    pub kind: ColumnType,
}

/// A floating-point cell: the text it is shown as (three decimals), the
/// number as JSON writes it, and, unless the number is NaN, a key whose
/// integer order is the numeric order.
#[derive(Debug, Clone, PartialEq, Eq)]
pub struct FloatCell {
    pub display: String,
    pub json: String,
    pub rank: Option<i64>,
}

/// A timestamp cell: the text it is shown as (RFC 3339) and its nanoseconds
/// since the Unix epoch.
#[derive(Debug, Clone, PartialEq, Eq)]
pub struct DateTimeCell {
    pub display: String,
    pub nanos: i128,
}

/// One value of a table.
#[derive(Debug, Clone, PartialEq, Eq)]
pub enum CellValue {
    String(String),
    Int(i64),
    Float(FloatCell),
    Bool(bool),
    DateTime(DateTimeCell),
    /// A JSON value, held as its compact serialization.
    Json(String),
    Null,
}

/// A table: named, typed columns and rows of cells.
#[derive(Debug, Clone, PartialEq, Eq)]
pub struct DataFrame {
    pub columns: Vec<ColumnSchema>,
    pub rows: Vec<Vec<CellValue>>,
}

/// The formats a table can be exported in.
#[derive(Debug, Clone, Copy, PartialEq, Eq, Structural)]
pub enum ExportFormat {
    Json,
    Csv,
    Ndjson,
}

/// The outcome of comparing two cells.
#[derive(Debug, Clone, Copy, PartialEq, Eq, Structural)]
pub enum CellOrder {
    Less,
    Equal,
    Greater,
}

/// The text a cell is shown as.
pub open spec fn display_of(c: CellValue) -> Seq<char> {
    match c {
        CellValue::String(s) => s@,
        CellValue::Int(n) => int_text(n as int),
        CellValue::Float(f) => f.display@,
        CellValue::Bool(b) => if b {
            "true"@
        } else {
            "false"@
        },
        CellValue::DateTime(d) => d.display@,
        CellValue::Json(t) => t@,
        CellValue::Null => "null"@,
    }
}

impl CellValue {
    /// The text this cell is shown as.
    pub fn as_display(&self) -> (res: String)
        ensures
            res@ == display_of(*self),
    {
        match self {
            CellValue::String(s) => s.clone(),
            CellValue::Int(n) => i64_text(*n),
            CellValue::Float(f) => f.display.clone(),
            CellValue::Bool(b) => if *b {
                owned("true")
            } else {
                owned("false")
            },
            CellValue::DateTime(d) => d.display.clone(),
            CellValue::Json(t) => t.clone(),
            CellValue::Null => owned("null"),
        }
    }

    /// A copy of this cell.
    pub fn copy(&self) -> (res: Self)
        ensures
            res == *self,
    {
        match self {
            CellValue::String(s) => CellValue::String(s.clone()),
            CellValue::Int(n) => CellValue::Int(*n),
            CellValue::Float(f) => CellValue::Float(
                FloatCell { display: f.display.clone(), json: f.json.clone(), rank: f.rank },
            ),
            CellValue::Bool(b) => CellValue::Bool(*b),
            CellValue::DateTime(d) => CellValue::DateTime(
                DateTimeCell { display: d.display.clone(), nanos: d.nanos },
            ),
            CellValue::Json(t) => CellValue::Json(t.clone()),
            CellValue::Null => CellValue::Null,
        }
    }
}

/// A copy of a row.
pub fn copy_row(row: &Vec<CellValue>) -> (res: Vec<CellValue>)
    ensures
        res@ == row@,
{
    let mut out: Vec<CellValue> = Vec::new();
    let mut i: usize = 0;
    while i < row.len()
        invariant
            i <= row.len(),
            out@ == row@.take(i as int),
        decreases row.len() - i,
    {
        out.push(row[i].copy());
        assert(row@.take(i + 1) =~= row@.take(i as int).push(row@[i as int]));
        i += 1;
    }
    assert(row@.take(row.len() as int) =~= row@);
    out
}

/// A copy of a column list.
pub fn copy_columns(cols: &Vec<ColumnSchema>) -> (res: Vec<ColumnSchema>)
    ensures
        res@ == cols@,
{
    let mut out: Vec<ColumnSchema> = Vec::new();
    let mut i: usize = 0;
    while i < cols.len()
        invariant
            i <= cols.len(),
            out@ == cols@.take(i as int),
        decreases cols.len() - i,
    {
        out.push(ColumnSchema { name: cols[i].name.clone(), kind: cols[i].kind });
        assert(cols@.take(i + 1) =~= cols@.take(i as int).push(cols@[i as int]));
        i += 1;
    }
    assert(cols@.take(cols.len() as int) =~= cols@);
    out
}

/// The rows of a table as sequences of cells.
pub open spec fn rows_view(rows: Seq<Vec<CellValue>>) -> Seq<Seq<CellValue>> {
    rows.map_values(|r: Vec<CellValue>| r@)
}

/// Text lowered as `str::to_lowercase` lowers it.
pub uninterp spec fn lowercase_of(s: Seq<char>) -> Seq<char>;

/// Lowers text with `str::to_lowercase` (full Unicode case mapping). The
/// contract only names the result.
#[verifier::external_body]
fn lowercase(s: &str) -> (res: String)
    ensures
        res@ == lowercase_of(s@),
{
    s.to_lowercase()
}

/// Whether some cell of the row, shown and lowered, contains the lowered
/// query `q`.
pub open spec fn row_matches(row: Seq<CellValue>, q: Seq<char>) -> bool {
    exists|k: int| 0 <= k < row.len() && contains(lowercase_of(display_of(row[k])), q)
}

/// The indexes, in order, of the first `n` rows that match the lowered query.
pub open spec fn matching_indexes(rows: Seq<Seq<CellValue>>, q: Seq<char>, n: int) -> Seq<usize>
    decreases n,
{
    if n <= 0 {
        Seq::empty()
    } else if row_matches(rows[n - 1], q) {
        matching_indexes(rows, q, n - 1).push((n - 1) as usize)
    } else {
        matching_indexes(rows, q, n - 1)
    }
}

/// The rows a filter keeps: all of them for a blank query, else those with a
/// cell whose lowered text contains the lowered query.
pub open spec fn filter_indexes(rows: Seq<Seq<CellValue>>, query: Seq<char>) -> Seq<usize> {
    if trim(query).len() == 0 {
        Seq::new(rows.len(), |i: int| i as usize)
    } else {
        matching_indexes(rows, lowercase_of(query), rows.len() as int)
    }
}

/// The rows at the given indexes.
pub open spec fn rows_at(rows: Seq<Seq<CellValue>>, idx: Seq<usize>) -> Seq<Seq<CellValue>> {
    idx.map_values(|i: usize| rows[i as int])
}

/// Every index of `matching_indexes` is below `n` and the list is increasing.
pub proof fn lemma_matching_indexes(rows: Seq<Seq<CellValue>>, q: Seq<char>, n: int)
    requires
        0 <= n <= rows.len(),
        n <= usize::MAX,
    ensures
        forall|k: int|
            0 <= k < matching_indexes(rows, q, n).len() ==> matching_indexes(rows, q, n)[k] < n,
        forall|a: int, b: int|
            0 <= a < b < matching_indexes(rows, q, n).len() ==> matching_indexes(rows, q, n)[a]
                < matching_indexes(rows, q, n)[b],
    decreases n,
{
    if n > 0 {
        lemma_matching_indexes(rows, q, n - 1);
        let prev = matching_indexes(rows, q, n - 1);
        let cur = matching_indexes(rows, q, n);
        if row_matches(rows[n - 1], q) {
            assert(cur == prev.push((n - 1) as usize));
            assert forall|k: int| 0 <= k < cur.len() implies cur[k] < n by {
                if k < prev.len() {
                    assert(cur[k] == prev[k]);
                }
            }
            assert forall|a: int, b: int| 0 <= a < b < cur.len() implies cur[a] < cur[b] by {
                assert(cur[a] == prev[a]);
                assert(prev[a] < n - 1);
                if b < prev.len() {
                    assert(cur[b] == prev[b]);
                }
            }
        }
    }
}

impl DataFrame {
    /// A table without columns or rows.
    pub fn empty() -> (res: Self)
        ensures
            res.columns.len() == 0,
            res.rows.len() == 0,
    {
        DataFrame { columns: Vec::new(), rows: Vec::new() }
    }

    /// Whether the row contains the lowered query in some lowered cell.
    fn row_contains(row: &Vec<CellValue>, q: &Vec<char>) -> (res: bool)
        ensures
            res == row_matches(row@, q@),
    {
        let mut k: usize = 0;
        while k < row.len()
            invariant
                k <= row.len(),
                forall|m: int|
                    0 <= m < k ==> !contains(lowercase_of(display_of(#[trigger] row@[m])), q@),
            decreases row.len() - k,
        {
            let shown = row[k].as_display();
            let lowered = lowercase(shown.as_str());
            if contains_chars(&chars_of(lowered.as_str()), q) {
                return true;
            }
            k += 1;
        }
        false
    }

    /// The indexes of the rows that the query keeps (see `filter_indexes`).
    pub fn filter_row_indexes(&self, query: &str) -> (res: Vec<usize>)
        ensures
            res@ == filter_indexes(rows_view(self.rows@), query@),
    {
        let ghost rows = rows_view(self.rows@);
        let mut out: Vec<usize> = Vec::new();
        if is_blank(&chars_of(query)) {
            let mut i: usize = 0;
            while i < self.rows.len()
                invariant
                    i <= self.rows.len(),
                    out@ == Seq::new(i as nat, |k: int| k as usize),
                decreases self.rows.len() - i,
            {
                out.push(i);
                assert(out@ =~= Seq::new((i + 1) as nat, |k: int| k as usize));
                i += 1;
            }
            assert(out@ =~= filter_indexes(rows, query@));
            return out;
        }
        let lowered = lowercase(query);
        let q = chars_of(lowered.as_str());
        let mut i: usize = 0;
        while i < self.rows.len()
            invariant
                i <= self.rows.len(),
                rows == rows_view(self.rows@),
                q@ == lowercase_of(query@),
                out@ == matching_indexes(rows, q@, i as int),
            decreases self.rows.len() - i,
        {
            assert(rows[i as int] == self.rows@[i as int]@);
            if Self::row_contains(&self.rows[i], &q) {
                out.push(i);
            }
            i += 1;
        }
        out
    }

    /// The table with only the rows that the query keeps (see
    /// `filter_indexes`), columns unchanged.
    pub fn filter_contains(&self, query: &str) -> (res: Self)
        ensures
            res.columns@ == self.columns@,
            rows_view(res.rows@) == rows_at(
                rows_view(self.rows@),
                filter_indexes(rows_view(self.rows@), query@),
            ),
    {
        let idx = self.filter_row_indexes(query);
        let ghost rows = rows_view(self.rows@);
        proof {
            assert(rows.len() == self.rows.len());
            if trim(query@).len() != 0 {
                lemma_matching_indexes(rows, lowercase_of(query@), rows.len() as int);
            }
        }
        let mut out: Vec<Vec<CellValue>> = Vec::new();
        let mut k: usize = 0;
        while k < idx.len()
            invariant
                k <= idx.len(),
                rows == rows_view(self.rows@),
                idx@ == filter_indexes(rows, query@),
                forall|m: int| 0 <= m < idx@.len() ==> idx@[m] < rows.len(),
                rows_view(out@) == rows_at(rows, idx@.take(k as int)),
            decreases idx.len() - k,
        {
            let i = idx[k];
            let row = copy_row(&self.rows[i]);
            let ghost before = rows_view(out@);
            out.push(row);
            assert(rows_view(out@) =~= before.push(rows[i as int]));
            assert(rows_at(rows, idx@.take(k + 1)) =~= rows_at(rows, idx@.take(k as int)).push(
                rows[i as int],
            ));
            k += 1;
        }
        assert(idx@.take(idx.len() as int) =~= idx@);
        DataFrame { columns: copy_columns(&self.columns), rows: out }
    }
}


/// Lexicographic comparison of texts by code point (the order of `str`).
pub open spec fn text_order(a: Seq<char>, b: Seq<char>) -> CellOrder
    decreases a.len(),
{
    if a.len() == 0 {
        if b.len() == 0 {
            CellOrder::Equal
        } else {
            CellOrder::Less
        }
    } else if b.len() == 0 {
        CellOrder::Greater
    } else if (a[0] as u32) < (b[0] as u32) {
        CellOrder::Less
    } else if (a[0] as u32) > (b[0] as u32) {
        CellOrder::Greater
    } else {
        text_order(a.drop_first(), b.drop_first())
    }
}

/// The order of two integers.
pub open spec fn int_order(a: int, b: int) -> CellOrder {
    if a < b {
        CellOrder::Less
    } else if a > b {
        CellOrder::Greater
    } else {
        CellOrder::Equal
    }
}

/// How two (possibly missing) cells compare when a table is sorted: integers,
/// booleans and timestamps by value, floats by value with NaN equal to
/// anything, other pairs by their shown text; a missing cell comes first.
pub open spec fn cell_order(a: Option<CellValue>, b: Option<CellValue>) -> CellOrder {
    match (a, b) {
        (Some(CellValue::Int(x)), Some(CellValue::Int(y))) => int_order(x as int, y as int),
        (Some(CellValue::Float(x)), Some(CellValue::Float(y))) => match (x.rank, y.rank) {
            (Some(p), Some(q)) => int_order(p as int, q as int),
            _ => CellOrder::Equal,
        },
        (Some(CellValue::Bool(x)), Some(CellValue::Bool(y))) => int_order(
            if x {
                1
            } else {
                0
            },
            if y {
                1
            } else {
                0
            },
        ),
        (Some(CellValue::DateTime(x)), Some(CellValue::DateTime(y))) => int_order(
            x.nanos as int,
            y.nanos as int,
        ),
        (Some(x), Some(y)) => text_order(display_of(x), display_of(y)),
        (None, None) => CellOrder::Equal,
        (None, Some(_)) => CellOrder::Less,
        (Some(_), None) => CellOrder::Greater,
    }
}

/// The order read in the given direction.
pub open spec fn directed(o: CellOrder, ascending: bool) -> CellOrder {
    if ascending {
        o
    } else {
        match o {
            CellOrder::Less => CellOrder::Greater,
            CellOrder::Equal => CellOrder::Equal,
            CellOrder::Greater => CellOrder::Less,
        }
    }
}

/// The cell of a row in a column, if the row has one.
pub open spec fn cell_at(row: Seq<CellValue>, column: int) -> Option<CellValue> {
    if 0 <= column < row.len() {
        Some(row[column])
    } else {
        None
    }
}

/// How two rows compare on a column in a direction.
#[verifier::opaque]
pub open spec fn row_order(a: Seq<CellValue>, b: Seq<CellValue>, column: int, ascending: bool) -> CellOrder {
    directed(cell_order(cell_at(a, column), cell_at(b, column)), ascending)
}

/// The row comparison is a total preorder on these rows: `Less` one way is
/// `Greater` the other, and "not less" is transitive.
pub open spec fn total_preorder_on(rows: Seq<Seq<CellValue>>, column: int, ascending: bool) -> bool {
    &&& forall|x: int, y: int|
        #![trigger row_order(rows[x], rows[y], column, ascending)]
        0 <= x < rows.len() && 0 <= y < rows.len() ==> ((row_order(rows[x], rows[y], column, ascending)
            == CellOrder::Less) <==> (row_order(rows[y], rows[x], column, ascending)
            == CellOrder::Greater))
    &&& forall|x: int, y: int, z: int|
        #![trigger row_order(rows[x], rows[y], column, ascending), row_order(rows[y], rows[z], column, ascending)]
        0 <= x < rows.len() && 0 <= y < rows.len() && 0 <= z < rows.len() && row_order(
            rows[x],
            rows[y],
            column,
            ascending,
        ) != CellOrder::Less && row_order(rows[y], rows[z], column, ascending) != CellOrder::Less
            ==> row_order(rows[x], rows[z], column, ascending) != CellOrder::Less
}

/// `j` occurs in `perm`.
pub open spec fn lists(perm: Seq<usize>, j: int) -> bool {
    exists|k: int| 0 <= k < perm.len() && perm[k] == j
}

/// `perm` lists each of `0..n` exactly once.
pub open spec fn is_permutation(perm: Seq<usize>, n: int) -> bool {
    &&& perm.len() == n
    &&& forall|k: int| 0 <= k < perm.len() ==> perm[k] < n
    &&& forall|a: int, b: int| 0 <= a < b < perm.len() ==> perm[a] != perm[b]
    &&& forall|j: int| 0 <= j < n ==> #[trigger] lists(perm, j)
}

/// The rows taken in the order `perm` are sorted on the column: no row comes
/// before one that is less than it.
pub open spec fn sorted_by(rows: Seq<Seq<CellValue>>, perm: Seq<usize>, column: int, ascending: bool) -> bool {
    forall|a: int, b: int|
        0 <= a < b < perm.len() ==> row_order(rows[perm[b] as int], rows[perm[a] as int], column, ascending)
            != CellOrder::Less
}

/// Rows that compare equal keep their original order in `perm`.
pub open spec fn stable_by(rows: Seq<Seq<CellValue>>, perm: Seq<usize>, column: int, ascending: bool) -> bool {
    forall|a: int, b: int|
        0 <= a < b < perm.len() && row_order(rows[perm[a] as int], rows[perm[b] as int], column, ascending)
            == CellOrder::Equal ==> perm[a] < perm[b]
}

/// The position of the first column with the given name, if any.
pub open spec fn column_position(columns: Seq<ColumnSchema>, name: Seq<char>) -> Option<int>
    decreases columns.len(),
{
    if columns.len() == 0 {
        None
    } else if columns[0].name@ == name {
        Some(0)
    } else {
        match column_position(columns.drop_first(), name) {
            Some(i) => Some(i + 1),
            None => None,
        }
    }
}

/// Compares two texts by code point.
fn compare_text(a: &Vec<char>, b: &Vec<char>) -> (res: CellOrder)
    ensures
        res == text_order(a@, b@),
{
    let mut i: usize = 0;
    assert(a@.skip(0) =~= a@ && b@.skip(0) =~= b@);
    loop
        invariant
            i <= a.len() && i <= b.len(),
            text_order(a@, b@) == text_order(a@.skip(i as int), b@.skip(i as int)),
        decreases a.len() - i,
    {
        let ghost sa = a@.skip(i as int);
        let ghost sb = b@.skip(i as int);
        if i == a.len() {
            if i == b.len() {
                return CellOrder::Equal;
            } else {
                return CellOrder::Less;
            }
        }
        if i == b.len() {
            return CellOrder::Greater;
        }
        assert(sa[0] == a@[i as int] && sb[0] == b@[i as int]);
        if (a[i] as u32) < (b[i] as u32) {
            return CellOrder::Less;
        }
        if (a[i] as u32) > (b[i] as u32) {
            return CellOrder::Greater;
        }
        assert(sa.drop_first() =~= a@.skip(i + 1));
        assert(sb.drop_first() =~= b@.skip(i + 1));
        i += 1;
    }
}

/// The order of two integers, as values.
fn order_of(less: bool, greater: bool) -> (res: CellOrder)
    requires
        !(less && greater),
    ensures
        less ==> res == CellOrder::Less,
        greater ==> res == CellOrder::Greater,
        !less && !greater ==> res == CellOrder::Equal,
{
    if less {
        CellOrder::Less
    } else if greater {
        CellOrder::Greater
    } else {
        CellOrder::Equal
    }
}

/// A cell behind an optional reference, as an optional cell.
pub open spec fn opt_cell(o: Option<&CellValue>) -> Option<CellValue> {
    match o {
        Some(c) => Some(*c),
        None => None,
    }
}

/// How two (possibly missing) cells compare when a table is sorted, in a
/// direction (see `cell_order`).
pub fn compare_cells(left: Option<&CellValue>, right: Option<&CellValue>, ascending: bool) -> (res:
    CellOrder)
    ensures
        res == directed(cell_order(opt_cell(left), opt_cell(right)), ascending),
{
    let ordering = match (left, right) {
        (Some(CellValue::Int(x)), Some(CellValue::Int(y))) => order_of(*x < *y, *x > *y),
        (Some(CellValue::Float(x)), Some(CellValue::Float(y))) => match (x.rank, y.rank) {
            (Some(p), Some(q)) => order_of(p < q, p > q),
            _ => CellOrder::Equal,
        },
        (Some(CellValue::Bool(x)), Some(CellValue::Bool(y))) => order_of(!*x && *y, *x && !*y),
        (Some(CellValue::DateTime(x)), Some(CellValue::DateTime(y))) => order_of(
            x.nanos < y.nanos,
            x.nanos > y.nanos,
        ),
        (Some(x), Some(y)) => {
            let dx = x.as_display();
            let dy = y.as_display();
            compare_text(&chars_of(dx.as_str()), &chars_of(dy.as_str()))
        },
        (None, None) => CellOrder::Equal,
        (None, Some(_)) => CellOrder::Less,
        (Some(_), None) => CellOrder::Greater,
    };
    if ascending {
        ordering
    } else {
        match ordering {
            CellOrder::Less => CellOrder::Greater,
            CellOrder::Equal => CellOrder::Equal,
            CellOrder::Greater => CellOrder::Less,
        }
    }
}

/// How two rows compare on a column in a direction.
fn compare_rows(a: &Vec<CellValue>, b: &Vec<CellValue>, column: usize, ascending: bool) -> (res:
    CellOrder)
    ensures
        res == row_order(a@, b@, column as int, ascending),
{
    let left = if column < a.len() {
        Some(&a[column])
    } else {
        None
    };
    let right = if column < b.len() {
        Some(&b[column])
    } else {
        None
    };
    let r = compare_cells(left, right, ascending);
    proof {
        reveal(row_order);
    }
    r
}

/// Two cells of one kind, ordered by value (floats other than NaN) or by
/// their text.
pub open spec fn same_kind(a: CellValue, b: CellValue) -> bool {
    match (a, b) {
        (CellValue::String(_), CellValue::String(_)) => true,
        (CellValue::Int(_), CellValue::Int(_)) => true,
        (CellValue::Float(x), CellValue::Float(y)) => x.rank is Some && y.rank is Some,
        (CellValue::Bool(_), CellValue::Bool(_)) => true,
        (CellValue::DateTime(_), CellValue::DateTime(_)) => true,
        (CellValue::Json(_), CellValue::Json(_)) => true,
        (CellValue::Null, CellValue::Null) => true,
        _ => false,
    }
}

/// The cells the rows have in a column are all of one kind, and no float
/// among them is NaN.
pub open spec fn uniform_column(rows: Seq<Seq<CellValue>>, column: int) -> bool {
    forall|x: int, y: int|
        #![trigger cell_at(rows[x], column), cell_at(rows[y], column)]
        0 <= x < rows.len() && 0 <= y < rows.len() && cell_at(rows[x], column) is Some && cell_at(
            rows[y],
            column,
        ) is Some ==> same_kind(cell_at(rows[x], column)->0, cell_at(rows[y], column)->0)
}

/// Text order flips with its arguments.
proof fn lemma_text_order_flip(a: Seq<char>, b: Seq<char>)
    ensures
        (text_order(a, b) == CellOrder::Less) == (text_order(b, a) == CellOrder::Greater),
        (text_order(a, b) == CellOrder::Equal) == (text_order(b, a) == CellOrder::Equal),
    decreases a.len(),
{
    if a.len() > 0 && b.len() > 0 && (a[0] as u32) == (b[0] as u32) {
        lemma_text_order_flip(a.drop_first(), b.drop_first());
    }
}

/// "Not less" in text order is transitive.
proof fn lemma_text_order_trans(a: Seq<char>, b: Seq<char>, c: Seq<char>)
    requires
        text_order(a, b) != CellOrder::Less,
        text_order(b, c) != CellOrder::Less,
    ensures
        text_order(a, c) != CellOrder::Less,
    decreases a.len(),
{
    if a.len() > 0 && b.len() > 0 && c.len() > 0 && (a[0] as u32) == (b[0] as u32) && (b[0] as u32)
        == (c[0] as u32) {
        lemma_text_order_trans(a.drop_first(), b.drop_first(), c.drop_first());
    }
}

/// The row order flips with its arguments.
proof fn lemma_row_order_flip(a: Seq<CellValue>, b: Seq<CellValue>, column: int, ascending: bool)
    ensures
        (row_order(a, b, column, ascending) == CellOrder::Less) == (row_order(b, a, column, ascending)
            == CellOrder::Greater),
{
    reveal(row_order);
    let (x, y) = (cell_at(a, column), cell_at(b, column));
    match (x, y) {
        (Some(p), Some(q)) => {
            lemma_text_order_flip(display_of(p), display_of(q));
        },
        _ => {},
    }
}

/// "Not less" in the row order is transitive over cells of one kind.
proof fn lemma_row_order_trans(
    a: Seq<CellValue>,
    b: Seq<CellValue>,
    c: Seq<CellValue>,
    column: int,
    ascending: bool,
)
    requires
        cell_at(a, column) is Some && cell_at(b, column) is Some ==> same_kind(
            cell_at(a, column)->0,
            cell_at(b, column)->0,
        ),
        cell_at(b, column) is Some && cell_at(c, column) is Some ==> same_kind(
            cell_at(b, column)->0,
            cell_at(c, column)->0,
        ),
        cell_at(a, column) is Some && cell_at(c, column) is Some ==> same_kind(
            cell_at(a, column)->0,
            cell_at(c, column)->0,
        ),
        row_order(a, b, column, ascending) != CellOrder::Less,
        row_order(b, c, column, ascending) != CellOrder::Less,
    ensures
        row_order(a, c, column, ascending) != CellOrder::Less,
{
    reveal(row_order);
    let (x, y, z) = (cell_at(a, column), cell_at(b, column), cell_at(c, column));
    if x is Some && y is Some && z is Some {
        let (p, q, r) = (x->0, y->0, z->0);
        lemma_text_order_flip(display_of(p), display_of(q));
        lemma_text_order_flip(display_of(q), display_of(r));
        lemma_text_order_flip(display_of(p), display_of(r));
        if ascending {
            if text_order(display_of(p), display_of(q)) != CellOrder::Less && text_order(
                display_of(q),
                display_of(r),
            ) != CellOrder::Less {
                lemma_text_order_trans(display_of(p), display_of(q), display_of(r));
            }
        } else {
            if text_order(display_of(r), display_of(q)) != CellOrder::Less && text_order(
                display_of(q),
                display_of(p),
            ) != CellOrder::Less {
                lemma_text_order_trans(display_of(r), display_of(q), display_of(p));
            }
        }
    }
}

/// On a column whose cells are of one kind, the row order is a total
/// preorder.
pub(crate) proof fn lemma_uniform_column_preorder(rows: Seq<Seq<CellValue>>, column: int, ascending: bool)
    requires
        uniform_column(rows, column),
    ensures
        total_preorder_on(rows, column, ascending),
{
    assert forall|x: int, y: int|
        #![trigger row_order(rows[x], rows[y], column, ascending)]
        0 <= x < rows.len() && 0 <= y < rows.len() implies ((row_order(
        rows[x],
        rows[y],
        column,
        ascending,
    ) == CellOrder::Less) <==> (row_order(rows[y], rows[x], column, ascending)
        == CellOrder::Greater)) by {
        lemma_row_order_flip(rows[x], rows[y], column, ascending);
    }
    assert forall|x: int, y: int, z: int|
        #![trigger row_order(rows[x], rows[y], column, ascending), row_order(rows[y], rows[z], column, ascending)]
        0 <= x < rows.len() && 0 <= y < rows.len() && 0 <= z < rows.len() && row_order(
            rows[x],
            rows[y],
            column,
            ascending,
        ) != CellOrder::Less && row_order(rows[y], rows[z], column, ascending) != CellOrder::Less
        implies row_order(rows[x], rows[z], column, ascending) != CellOrder::Less by {
        assert(cell_at(rows[x], column) == cell_at(rows[x], column));
        assert(cell_at(rows[y], column) == cell_at(rows[y], column));
        assert(cell_at(rows[z], column) == cell_at(rows[z], column));
        lemma_row_order_trans(rows[x], rows[y], rows[z], column, ascending);
    }
}

/// Inserting row `i` at position `p`, after the rows it is not less than and
/// before those it is less than, keeps the order a permutation and, under a
/// total preorder, sorted and stable.
proof fn lemma_insert_keeps_order(
    rv: Seq<Seq<CellValue>>,
    old_idx: Seq<usize>,
    p: int,
    i: int,
    c: int,
    ascending: bool,
)
    requires
        0 <= i < rv.len(),
        i < usize::MAX,
        0 <= p <= old_idx.len(),
        is_permutation(old_idx, i),
        total_preorder_on(rv, c, ascending) ==> sorted_by(rv, old_idx, c, ascending) && stable_by(
            rv,
            old_idx,
            c,
            ascending,
        ),
        forall|q: int|
            p <= q < old_idx.len() ==> row_order(rv[i], rv[old_idx[q] as int], c, ascending)
                == CellOrder::Less,
        p > 0 ==> row_order(rv[i], rv[old_idx[p - 1] as int], c, ascending) != CellOrder::Less,
    ensures
        is_permutation(old_idx.insert(p, i as usize), i + 1),
        total_preorder_on(rv, c, ascending) ==> sorted_by(
            rv,
            old_idx.insert(p, i as usize),
            c,
            ascending,
        ) && stable_by(rv, old_idx.insert(p, i as usize), c, ascending),
{
    let n = old_idx.insert(p, i as usize);
    assert forall|k: int| 0 <= k < n.len() implies n[k] < i + 1 by {
        if k < p {
            assert(n[k] == old_idx[k]);
        } else if k > p {
            assert(n[k] == old_idx[k - 1]);
        }
    }
    assert forall|a: int, b: int| 0 <= a < b < n.len() implies n[a] != n[b] by {
        if a < p {
            assert(n[a] == old_idx[a]);
        } else if a > p {
            assert(n[a] == old_idx[a - 1]);
        }
        if b < p {
            assert(n[b] == old_idx[b]);
        } else if b > p {
            assert(n[b] == old_idx[b - 1]);
        }
    }
    assert forall|j: int| 0 <= j < i + 1 implies #[trigger] lists(n, j) by {
        if j == i {
            assert(n[p] == j);
        } else {
            assert(lists(old_idx, j));
            let k0 = choose|k: int| 0 <= k < old_idx.len() && old_idx[k] == j;
            if k0 < p {
                assert(n[k0] == j);
            } else {
                assert(n[k0 + 1] == j);
            }
        }
    }
    if total_preorder_on(rv, c, ascending) {
        assert forall|a: int, b: int| 0 <= a < b < n.len() implies row_order(
            rv[n[b] as int],
            rv[n[a] as int],
            c,
            ascending,
        ) != CellOrder::Less by {
            if b < p {
                assert(n[a] == old_idx[a] && n[b] == old_idx[b]);
            } else if b == p {
                assert(n[a] == old_idx[a]);
                assert(n[b] == i);
                let last = old_idx[p - 1] as int;
                if a < p - 1 {
                    assert(row_order(rv[last], rv[old_idx[a] as int], c, ascending)
                        != CellOrder::Less);
                    assert(row_order(rv[i], rv[last], c, ascending) != CellOrder::Less);
                }
            } else if a < p {
                assert(n[a] == old_idx[a] && n[b] == old_idx[b - 1]);
            } else if a == p {
                assert(n[a] == i && n[b] == old_idx[b - 1]);
                assert(row_order(rv[i], rv[old_idx[b - 1] as int], c, ascending) == CellOrder::Less);
            } else {
                assert(n[a] == old_idx[a - 1] && n[b] == old_idx[b - 1]);
            }
        }
        assert forall|a: int, b: int|
            0 <= a < b < n.len() && row_order(rv[n[a] as int], rv[n[b] as int], c, ascending)
                == CellOrder::Equal implies n[a] < n[b] by {
            if b < p {
                assert(n[a] == old_idx[a] && n[b] == old_idx[b]);
            } else if b == p {
                assert(n[a] == old_idx[a]);
            } else if a < p {
                assert(n[a] == old_idx[a] && n[b] == old_idx[b - 1]);
            } else if a == p {
                assert(n[a] == i && n[b] == old_idx[b - 1]);
                assert(row_order(rv[i], rv[old_idx[b - 1] as int], c, ascending) == CellOrder::Less);
            } else {
                assert(n[a] == old_idx[a - 1] && n[b] == old_idx[b - 1]);
            }
        }
    }
}

/// The order in which a stable sort on the column puts the rows: a
/// permutation of the row indexes; when the comparison is a total preorder on
/// these rows, the rows taken in this order are sorted and rows that compare
/// equal keep their relative order.
pub fn sorted_row_order(rows: &Vec<Vec<CellValue>>, column: usize, ascending: bool) -> (res: Vec<
    usize,
>)
    ensures
        is_permutation(res@, rows.len() as int),
        total_preorder_on(rows_view(rows@), column as int, ascending) ==> sorted_by(
            rows_view(rows@),
            res@,
            column as int,
            ascending,
        ) && stable_by(rows_view(rows@), res@, column as int, ascending),
{
    let ghost rv = rows_view(rows@);
    let ghost c = column as int;
    let ghost total = total_preorder_on(rv, c, ascending);
    let mut idx: Vec<usize> = Vec::new();
    let mut i: usize = 0;
    while i < rows.len()
        invariant
            i <= rows.len(),
            rv == rows_view(rows@),
            c == column as int,
            total == total_preorder_on(rv, c, ascending),
            is_permutation(idx@, i as int),
            total ==> sorted_by(rv, idx@, c, ascending) && stable_by(rv, idx@, c, ascending),
        decreases rows.len() - i,
    {
        let mut p: usize = idx.len();
        while p > 0 && compare_rows(&rows[i], &rows[idx[p - 1]], column, ascending)
            == CellOrder::Less
            invariant
                i < rows.len(),
                rv == rows_view(rows@),
                c == column as int,
                p <= idx.len(),
                idx.len() == i,
                forall|k: int| 0 <= k < idx@.len() ==> idx@[k] < i,
                forall|q: int|
                    p <= q < idx@.len() ==> row_order(rv[i as int], rv[idx@[q] as int], c, ascending)
                        == CellOrder::Less,
            decreases p,
        {
            assert(rv[idx@[p - 1] as int] == rows@[idx@[p - 1] as int]@);
            assert(rv[i as int] == rows@[i as int]@);
            p -= 1;
        }
        proof {
            assert(rv[i as int] == rows@[i as int]@);
            if p > 0 {
                assert(rv[idx@[p - 1] as int] == rows@[idx@[p - 1] as int]@);
            }
        }
        let ghost old_idx = idx@;
        idx.insert(p, i);
        proof {
            lemma_insert_keeps_order(rv, old_idx, p as int, i as int, c, ascending);
        }
        i += 1;
    }
    idx
}

impl DataFrame {
    /// The position of the first column with the given name, if any.
    pub fn column_index(&self, name: &str) -> (res: Option<usize>)
        ensures
            match res {
                Some(i) => column_position(self.columns@, name@) == Some(i as int),
                None => column_position(self.columns@, name@) is None,
            },
    {
        let mut i: usize = 0;
        let target = owned(name);
        assert(self.columns@.skip(0) =~= self.columns@);
        while i < self.columns.len()
            invariant
                i <= self.columns.len(),
                target@ == name@,
                ({
                    let r = column_position(self.columns@.skip(i as int), name@);
                    match column_position(self.columns@, name@) {
                        Some(k) => r is Some && k == r->0 + i,
                        None => r is None,
                    }
                }),
            decreases self.columns.len() - i,
        {
            let ghost rest = self.columns@.skip(i as int);
            assert(rest[0] == self.columns@[i as int]);
            if self.columns[i].name == target {
                return Some(i);
            }
            assert(rest.drop_first() =~= self.columns@.skip(i + 1));
            i += 1;
        }
        None
    }

    /// The rows at the given indexes, copied.
    fn rows_in_order(&self, idx: &Vec<usize>) -> (res: Vec<Vec<CellValue>>)
        requires
            forall|k: int| 0 <= k < idx@.len() ==> idx@[k] < self.rows.len(),
        ensures
            rows_view(res@) == rows_at(rows_view(self.rows@), idx@),
    {
        let ghost rows = rows_view(self.rows@);
        let mut out: Vec<Vec<CellValue>> = Vec::new();
        let mut k: usize = 0;
        while k < idx.len()
            invariant
                k <= idx.len(),
                rows == rows_view(self.rows@),
                forall|m: int| 0 <= m < idx@.len() ==> idx@[m] < self.rows.len(),
                rows_view(out@) == rows_at(rows, idx@.take(k as int)),
            decreases idx.len() - k,
        {
            let i = idx[k];
            let row = copy_row(&self.rows[i]);
            let ghost before = rows_view(out@);
            out.push(row);
            assert(rows_view(out@) =~= before.push(rows[i as int]));
            assert(rows_at(rows, idx@.take(k + 1)) =~= rows_at(rows, idx@.take(k as int)).push(
                rows[i as int],
            ));
            k += 1;
        }
        assert(idx@.take(idx.len() as int) =~= idx@);
        out
    }

    /// The table with its rows stably sorted on the named column; unchanged
    /// when no column has that name. The rows come out as a permutation of
    /// the old ones; when the comparison is a total preorder on them (see
    /// `total_preorder_on`), in particular when the column's cells are of one
    /// kind (see `uniform_column`), they are sorted and equal rows keep their
    /// order.
    pub fn sort_by_column(&self, column_name: &str, ascending: bool) -> (res: Self)
        ensures
            res.columns@ == self.columns@,
            match column_position(self.columns@, column_name@) {
                None => rows_view(res.rows@) == rows_view(self.rows@),
                Some(c) => exists|perm: Seq<usize>|
                    {
                        &&& is_permutation(perm, self.rows.len() as int)
                        &&& rows_view(res.rows@) == rows_at(rows_view(self.rows@), perm)
                        &&& total_preorder_on(rows_view(self.rows@), c, ascending) ==> sorted_by(
                            rows_view(self.rows@),
                            perm,
                            c,
                            ascending,
                        ) && stable_by(rows_view(self.rows@), perm, c, ascending)
                        &&& uniform_column(rows_view(self.rows@), c) ==> sorted_by(
                            rows_view(self.rows@),
                            perm,
                            c,
                            ascending,
                        ) && stable_by(rows_view(self.rows@), perm, c, ascending)
                    },
            },
    {
        match self.column_index(column_name) {
            None => {
                let mut all: Vec<usize> = Vec::new();
                let mut i: usize = 0;
                while i < self.rows.len()
                    invariant
                        i <= self.rows.len(),
                        all@ == Seq::new(i as nat, |k: int| k as usize),
                    decreases self.rows.len() - i,
                {
                    all.push(i);
                    assert(all@ =~= Seq::new((i + 1) as nat, |k: int| k as usize));
                    i += 1;
                }
                let rows = self.rows_in_order(&all);
                assert(rows_at(rows_view(self.rows@), all@) =~= rows_view(self.rows@));
                DataFrame { columns: copy_columns(&self.columns), rows }
            },
            Some(c) => {
                proof {
                    if uniform_column(rows_view(self.rows@), c as int) {
                        lemma_uniform_column_preorder(rows_view(self.rows@), c as int, ascending);
                    }
                }
                let order = sorted_row_order(&self.rows, c, ascending);
                let rows = self.rows_in_order(&order);
                DataFrame { columns: copy_columns(&self.columns), rows }
            },
        }
    }
}


/// Whether a CSV field must be quoted: it holds a comma, a quote or a newline.
pub open spec fn needs_quotes(v: Seq<char>) -> bool {
    contains(v, ","@) || contains(v, "\""@) || contains(v, "\n"@)
}

/// A value as a CSV field: quoted, with quotes doubled, when it must be.
pub open spec fn csv_field(v: Seq<char>) -> Seq<char> {
    if needs_quotes(v) {
        "\""@ + replace(v, "\""@, "\"\""@) + "\""@
    } else {
        v
    }
}

/// A value as a CSV field: quoted, with quotes doubled, when it holds a
/// comma, a quote or a newline.
pub fn escape_csv(value: &str) -> (res: String)
    ensures
        res@ == csv_field(value@),
{
    if str_contains(value, ",") || str_contains(value, "\"") || str_contains(value, "\n") {
        proof {
            reveal_strlit("\"");
        }
        let inner = str_replace(value, "\"", "\"\"");
        let mut out = owned("\"");
        out.append(inner.as_str());
        out.append("\"");
        out
    } else {
        owned(value)
    }
}

/// The CSV line of a row: its cells shown and escaped, joined with commas.
pub open spec fn csv_row(row: Seq<CellValue>) -> Seq<char> {
    join(row.map_values(|c: CellValue| csv_field(display_of(c))), ","@)
}

/// The CSV header: the escaped column names joined with commas.
pub open spec fn csv_header(columns: Seq<ColumnSchema>) -> Seq<char> {
    join(columns.map_values(|c: ColumnSchema| csv_field(c.name@)), ","@)
}

/// A table as CSV: the header line, then one line per row, each ended by a
/// newline; when the rows' text is empty only the header line.
pub open spec fn csv_text(columns: Seq<ColumnSchema>, rows: Seq<Seq<CellValue>>) -> Seq<char> {
    let body = join(rows.map_values(|r: Seq<CellValue>| csv_row(r)), "\n"@);
    if body.len() == 0 {
        csv_header(columns) + "\n"@
    } else {
        csv_header(columns) + "\n"@ + body + "\n"@
    }
}

/// The CSV line of a row.
fn csv_row_text(row: &Vec<CellValue>) -> (res: String)
    ensures
        res@ == csv_row(row@),
{
    let mut fields: Vec<String> = Vec::new();
    let mut i: usize = 0;
    while i < row.len()
        invariant
            i <= row.len(),
            fields@.map_values(|f: String| f@) == row@.take(i as int).map_values(
                |c: CellValue| csv_field(display_of(c)),
            ),
        decreases row.len() - i,
    {
        let shown = row[i].as_display();
        let f = escape_csv(shown.as_str());
        let ghost before = fields@.map_values(|f: String| f@);
        fields.push(f);
        assert(fields@.map_values(|f: String| f@) =~= before.push(csv_field(display_of(row@[i as int]))));
        assert(row@.take(i + 1).map_values(|c: CellValue| csv_field(display_of(c))) =~= row@.take(
            i as int,
        ).map_values(|c: CellValue| csv_field(display_of(c))).push(csv_field(display_of(row@[i as int]))));
        i += 1;
    }
    assert(row@.take(row.len() as int) =~= row@);
    join_strings(&fields, ",")
}

/// A table as CSV (see `csv_text`).
pub fn export_csv(columns: &Vec<ColumnSchema>, rows: &Vec<Vec<CellValue>>) -> (res: String)
    ensures
        res@ == csv_text(columns@, rows_view(rows@)),
{
    let mut names: Vec<String> = Vec::new();
    let mut i: usize = 0;
    while i < columns.len()
        invariant
            i <= columns.len(),
            names@.map_values(|f: String| f@) == columns@.take(i as int).map_values(
                |c: ColumnSchema| csv_field(c.name@),
            ),
        decreases columns.len() - i,
    {
        let f = escape_csv(columns[i].name.as_str());
        let ghost before = names@.map_values(|f: String| f@);
        names.push(f);
        assert(names@.map_values(|f: String| f@) =~= before.push(csv_field(columns@[i as int].name@)));
        assert(columns@.take(i + 1).map_values(|c: ColumnSchema| csv_field(c.name@)) =~= columns@.take(
            i as int,
        ).map_values(|c: ColumnSchema| csv_field(c.name@)).push(csv_field(columns@[i as int].name@)));
        i += 1;
    }
    assert(columns@.take(columns.len() as int) =~= columns@);
    let header = join_strings(&names, ",");
    let ghost rv = rows_view(rows@);
    let mut lines: Vec<String> = Vec::new();
    let mut r: usize = 0;
    while r < rows.len()
        invariant
            r <= rows.len(),
            rv == rows_view(rows@),
            lines@.map_values(|f: String| f@) == rv.take(r as int).map_values(
                |row: Seq<CellValue>| csv_row(row),
            ),
        decreases rows.len() - r,
    {
        let line = csv_row_text(&rows[r]);
        let ghost before = lines@.map_values(|f: String| f@);
        lines.push(line);
        assert(rv[r as int] == rows@[r as int]@);
        assert(lines@.map_values(|f: String| f@) =~= before.push(csv_row(rv[r as int])));
        assert(rv.take(r + 1).map_values(|row: Seq<CellValue>| csv_row(row)) =~= rv.take(
            r as int,
        ).map_values(|row: Seq<CellValue>| csv_row(row)).push(csv_row(rv[r as int])));
        r += 1;
    }
    assert(rv.take(rows.len() as int) =~= rv);
    let body = join_strings(&lines, "\n");
    let mut out = header;
    out.append("\n");
    if body.as_str().is_empty() {
        out
    } else {
        out.append(body.as_str());
        out.append("\n");
        out
    }
}

/// The name a column type is written with in messages.
pub open spec fn column_type_name(kind: ColumnType) -> Seq<char> {
    match kind {
        ColumnType::String => "String"@,
        ColumnType::Int => "Int"@,
        ColumnType::Float => "Float"@,
        ColumnType::Bool => "Bool"@,
        ColumnType::DateTime => "DateTime"@,
        ColumnType::Json => "Json"@,
    }
}

impl ColumnType {
    /// The name this type is written with in messages.
    pub fn name(&self) -> (res: String)
        ensures
            res@ == column_type_name(*self),
    {
        match self {
            ColumnType::String => owned("String"),
            ColumnType::Int => owned("Int"),
            ColumnType::Float => owned("Float"),
            ColumnType::Bool => owned("Bool"),
            ColumnType::DateTime => owned("DateTime"),
            ColumnType::Json => owned("Json"),
        }
    }
}

/// A row as a record: each column's name with the row's cell in it, or null
/// where the row is short.
pub open spec fn record_of(columns: Seq<ColumnSchema>, row: Seq<CellValue>) -> Seq<(String, CellValue)> {
    Seq::new(
        columns.len(),
        |i: int|
            (
                columns[i].name,
                match cell_at(row, i) {
                    Some(c) => c,
                    None => CellValue::Null,
                },
            ),
    )
}

/// The first column whose converted cell is missing, among the first `n`.
pub open spec fn first_missing(cells: Seq<Option<CellValue>>, n: int) -> Option<int>
    decreases n,
{
    if n <= 0 {
        None
    } else {
        match first_missing(cells, n - 1) {
            Some(k) => Some(k),
            None => if cells[n - 1] is None {
                Some(n - 1)
            } else {
                None
            },
        }
    }
}

impl DataFrame {
    /// The table as CSV (see `csv_text`).
    pub fn to_csv(&self) -> (res: String)
        ensures
            res@ == csv_text(self.columns@, rows_view(self.rows@)),
    {
        export_csv(&self.columns, &self.rows)
    }

    /// The record of a row (see `record_of`), if the row exists.
    pub fn record_at(&self, row_index: usize) -> (res: Option<Vec<(String, CellValue)>>)
        ensures
            row_index < self.rows.len() ==> (res matches Some(r) && r@ == record_of(
                self.columns@,
                self.rows@[row_index as int]@,
            )),
            row_index >= self.rows.len() ==> res is None,
    {
        if row_index >= self.rows.len() {
            return None;
        }
        let row = &self.rows[row_index];
        let mut out: Vec<(String, CellValue)> = Vec::new();
        let mut i: usize = 0;
        while i < self.columns.len()
            invariant
                i <= self.columns.len(),
                row == &self.rows[row_index as int],
                out@ == record_of(self.columns@, row@).take(i as int),
            decreases self.columns.len() - i,
        {
            let cell = if i < row.len() {
                row[i].copy()
            } else {
                CellValue::Null
            };
            out.push((self.columns[i].name.clone(), cell));
            assert(record_of(self.columns@, row@).take(i + 1) =~= record_of(self.columns@, row@).take(
                i as int,
            ).push(record_of(self.columns@, row@)[i as int]));
            i += 1;
        }
        assert(record_of(self.columns@, row@).take(self.columns.len() as int) =~= record_of(
            self.columns@,
            row@,
        ));
        Some(out)
    }

    /// Replaces a row with converted cells, one per column (`None` where a
    /// value did not fit its column's type). Fails, leaving the table as it
    /// was, with "row index out of range" for a missing row, else with
    /// "column '<name>' expects <type>" for the first column without a cell.
    pub fn update_row_from_cells(&mut self, row_index: usize, cells: Vec<Option<CellValue>>) -> (res:
        Result<(), String>)
        requires
            cells.len() == old(self).columns.len(),
        ensures
            final(self).columns@ == old(self).columns@,
            row_index >= old(self).rows.len() ==> (res matches Err(e) && e@
                == "row index out of range"@ && *final(self) == *old(self)),
            row_index < old(self).rows.len() ==> match first_missing(cells@, cells.len() as int) {
                Some(k) => (res matches Err(e) && e@ == "column '"@ + old(self).columns@[k].name@
                    + "' expects "@ + column_type_name(old(self).columns@[k].kind)
                    && *final(self) == *old(self)),
                None => res is Ok && final(self).rows@ == old(self).rows@.update(
                    row_index as int,
                    final(self).rows@[row_index as int],
                ) && final(self).rows@[row_index as int]@ == cells@.map_values(
                    |c: Option<CellValue>| c->0,
                ),
            },
    {
        if row_index >= self.rows.len() {
            return Err(owned("row index out of range"));
        }
        let mut updated: Vec<CellValue> = Vec::new();
        let mut i: usize = 0;
        while i < cells.len()
            invariant
                i <= cells.len(),
                row_index < self.rows.len(),
                cells.len() == self.columns.len(),
                first_missing(cells@, i as int) is None,
                updated@ == cells@.take(i as int).map_values(|c: Option<CellValue>| c->0),
            decreases cells.len() - i,
        {
            match &cells[i] {
                Some(c) => {
                    updated.push(c.copy());
                    assert(cells@.take(i + 1).map_values(|c: Option<CellValue>| c->0) =~= cells@.take(
                        i as int,
                    ).map_values(|c: Option<CellValue>| c->0).push(cells@[i as int]->0));
                },
                None => {
                    proof {
                        lemma_first_missing_stays(cells@, i as int + 1, cells.len() as int);
                    }
                    let mut msg = owned("column '");
                    msg.append(self.columns[i].name.as_str());
                    msg.append("' expects ");
                    let kind_name = self.columns[i].kind.name();
                    msg.append(kind_name.as_str());
                    return Err(msg);
                },
            }
            i += 1;
        }
        assert(cells@.take(cells.len() as int) =~= cells@);
        self.rows.set(row_index, updated);
        Ok(())
    }
}

/// Once a missing cell is found among the first `m`, it stays the first one
/// among more.
proof fn lemma_first_missing_stays(cells: Seq<Option<CellValue>>, m: int, n: int)
    requires
        0 <= m <= n,
        first_missing(cells, m) is Some,
    ensures
        first_missing(cells, n) == first_missing(cells, m),
    decreases n - m,
{
    if m < n {
        lemma_first_missing_stays(cells, m, n - 1);
    }
}


/// A JSON value as a column reads it.
#[derive(Debug)]
pub enum JsonScalar {
    Null,
    Bool(bool),
    /// A number: its value when it is a whole number that fits `i64`, and
    /// its floating-point cell when it has a floating-point value.
    Number { whole: Option<i64>, float: Option<FloatCell> },
    Text(String),
    /// An array or an object.
    Compound,
}

/// A JSON value of a record: what it is, and its compact serialization.
#[derive(Debug)]
pub struct JsonField {
    pub value: JsonScalar,
    pub json: String,
}

/// What chrono reads from an RFC 3339 timestamp, taken to UTC: its RFC 3339
/// text, its seconds since the Unix epoch and the nanoseconds past that
/// second; nothing when chrono rejects the text.
pub uninterp spec fn rfc3339_utc_of(text: Seq<char>) -> Option<(Seq<char>, i64, u32)>;

/// Reads an RFC 3339 timestamp with `chrono::DateTime::parse_from_rfc3339`,
/// converts it to UTC (`with_timezone(&Utc)`) and returns `to_rfc3339`,
/// `timestamp` and `timestamp_subsec_nanos`; `None` when chrono rejects the
/// text. The contract says only that the result is a function of the text
/// (`rfc3339_utc_of`); what chrono accepts and prints is not stated.
#[verifier::external_body]
fn parse_rfc3339_utc(text: &str) -> (res: Option<(String, i64, u32)>)
    ensures
        match res {
            Some((display, secs, nanos)) => rfc3339_utc_of(text@) == Some((display@, secs, nanos)),
            None => rfc3339_utc_of(text@) is None,
        },
{
    chrono::DateTime::parse_from_rfc3339(text).ok().map(|parsed| {
        let utc = parsed.with_timezone(&chrono::Utc);
        (utc.to_rfc3339(), utc.timestamp(), utc.timestamp_subsec_nanos())
    })
}

/// The timestamp read from a field, when it is text.
pub open spec fn field_instant(field: JsonField) -> Option<(Seq<char>, i64, u32)> {
    match field.value {
        JsonScalar::Text(t) => rfc3339_utc_of(t@),
        _ => None,
    }
}

/// Whether `res` is the cell a field gives in a column of the given type,
/// `instant` being the timestamp read from the field's text: null fits any
/// column; text, whole numbers, numbers and booleans fit columns of their
/// type; a timestamp column takes text that reads as a timestamp; a JSON
/// column takes any value as its serialization, and a text column takes a
/// value of another kind the same way; nothing else fits.
pub open spec fn is_column_cell(
    kind: ColumnType,
    field: JsonField,
    instant: Option<(Seq<char>, i64, u32)>,
    res: Option<CellValue>,
) -> bool {
    match field.value {
        JsonScalar::Null => res == Some(CellValue::Null),
        _ => match kind {
            ColumnType::Json => res == Some(CellValue::Json(field.json)),
            ColumnType::String => match field.value {
                JsonScalar::Text(t) => res == Some(CellValue::String(t)),
                _ => res == Some(CellValue::String(field.json)),
            },
            ColumnType::Int => match field.value {
                JsonScalar::Number { whole, float } => match whole {
                    Some(n) => res == Some(CellValue::Int(n)),
                    None => res is None,
                },
                _ => res is None,
            },
            ColumnType::Float => match field.value {
                JsonScalar::Number { whole, float } => match float {
                    Some(f) => res == Some(CellValue::Float(f)),
                    None => res is None,
                },
                _ => res is None,
            },
            ColumnType::Bool => match field.value {
                JsonScalar::Bool(b) => res == Some(CellValue::Bool(b)),
                _ => res is None,
            },
            ColumnType::DateTime => match field.value {
                JsonScalar::Text(_) => match instant {
                    Some((display, secs, nanos)) => res matches Some(CellValue::DateTime(d))
                        && d.display@ == display && d.nanos == secs * 1_000_000_000int + nanos,
                    None => res is None,
                },
                _ => res is None,
            },
        },
    }
}

/// The cell a field gives in a column of the given type, from the timestamp
/// read from its text (see `is_column_cell`).
pub fn cell_from_field(kind: ColumnType, field: JsonField, instant: Option<(String, i64, u32)>) -> (res:
    Option<CellValue>)
    ensures
        is_column_cell(
            kind,
            field,
            match instant {
                Some((d, s, n)) => Some((d@, s, n)),
                None => None,
            },
            res,
        ),
{
    match field.value {
        JsonScalar::Null => Some(CellValue::Null),
        JsonScalar::Text(t) => match kind {
            ColumnType::Json => Some(CellValue::Json(field.json)),
            ColumnType::String => Some(CellValue::String(t)),
            ColumnType::DateTime => match instant {
                Some((display, secs, nanos)) => {
                    let total: i128 = secs as i128 * 1_000_000_000i128 + nanos as i128;
                    Some(CellValue::DateTime(DateTimeCell { display, nanos: total }))
                },
                None => None,
            },
            _ => None,
        },
        JsonScalar::Number { whole, float } => match kind {
            ColumnType::Json => Some(CellValue::Json(field.json)),
            ColumnType::String => Some(CellValue::String(field.json)),
            ColumnType::Int => match whole {
                Some(n) => Some(CellValue::Int(n)),
                None => None,
            },
            ColumnType::Float => match float {
                Some(f) => Some(CellValue::Float(f)),
                None => None,
            },
            _ => None,
        },
        JsonScalar::Bool(b) => match kind {
            ColumnType::Json => Some(CellValue::Json(field.json)),
            ColumnType::String => Some(CellValue::String(field.json)),
            ColumnType::Bool => Some(CellValue::Bool(b)),
            _ => None,
        },
        JsonScalar::Compound => match kind {
            ColumnType::Json => Some(CellValue::Json(field.json)),
            ColumnType::String => Some(CellValue::String(field.json)),
            _ => None,
        },
    }
}

/// The cell a JSON field gives in a column of the given type; a text field
/// in a timestamp column is read with chrono (see `is_column_cell` and
/// `field_instant`).
pub fn cell_for_column(kind: ColumnType, field: JsonField) -> (res: Option<CellValue>)
    ensures
        is_column_cell(kind, field, field_instant(field), res),
{
    let instant = match (&field.value, kind) {
        (JsonScalar::Text(t), ColumnType::DateTime) => parse_rfc3339_utc(t.as_str()),
        _ => None,
    };
    cell_from_field(kind, field, instant)
}

impl JsonField {
    /// A copy of this field.
    pub fn copy(&self) -> (res: Self)
        ensures
            res == *self,
    {
        let value = match &self.value {
            JsonScalar::Null => JsonScalar::Null,
            JsonScalar::Bool(b) => JsonScalar::Bool(*b),
            JsonScalar::Number { whole, float } => JsonScalar::Number {
                whole: *whole,
                float: match float {
                    Some(f) => Some(
                        FloatCell { display: f.display.clone(), json: f.json.clone(), rank: f.rank },
                    ),
                    None => None,
                },
            },
            JsonScalar::Text(t) => JsonScalar::Text(t.clone()),
            JsonScalar::Compound => JsonScalar::Compound,
        };
        JsonField { value, json: self.json.clone() }
    }
}

/// The position of the first field named `name` among the first `n` fields
/// of a record.
pub open spec fn first_named(record: Seq<(String, JsonField)>, name: Seq<char>, n: int) -> Option<
    int,
>
    decreases n,
{
    if n <= 0 {
        None
    } else {
        match first_named(record, name, n - 1) {
            Some(i) => Some(i),
            None => if record[n - 1].0@ == name {
                Some(n - 1)
            } else {
                None
            },
        }
    }
}

/// Once a field is found among the first `m`, it stays the first one among
/// more.
proof fn lemma_first_named_stays(record: Seq<(String, JsonField)>, name: Seq<char>, m: int, n: int)
    requires
        0 <= m <= n,
        first_named(record, name, m) is Some,
    ensures
        first_named(record, name, n) == first_named(record, name, m),
    decreases n - m,
{
    if m < n {
        lemma_first_named_stays(record, name, m, n - 1);
    }
}

/// A field found among the first `n` is one of them, with that name.
proof fn lemma_first_named_range(record: Seq<(String, JsonField)>, name: Seq<char>, n: int)
    requires
        first_named(record, name, n) is Some,
    ensures
        0 <= first_named(record, name, n)->0 < n,
        record[first_named(record, name, n)->0].0@ == name,
    decreases n,
{
    if n > 0 && first_named(record, name, n - 1) is Some {
        lemma_first_named_range(record, name, n - 1);
    }
}

/// The position of the first field of the record with this name.
fn find_named(record: &Vec<(String, JsonField)>, name: &String) -> (res: Option<usize>)
    ensures
        res matches Some(i) ==> i < record.len() && first_named(record@, name@, record.len() as int)
            == Some(i as int),
        res is None ==> first_named(record@, name@, record.len() as int) is None,
{
    let mut i: usize = 0;
    while i < record.len()
        invariant
            i <= record.len(),
            first_named(record@, name@, i as int) is None,
        decreases record.len() - i,
    {
        if record[i].0 == *name {
            assert(first_named(record@, name@, i + 1) == Some(i as int));
            proof {
                lemma_first_named_stays(record@, name@, i + 1, record.len() as int);
            }
            return Some(i);
        }
        i += 1;
    }
    None
}

/// The cells a JSON record gives a row: for each column, the first field of
/// its name converted to the column's type (see `is_column_cell`), or null
/// when the record has no such field.
pub open spec fn is_record_cell(column: ColumnSchema, record: Seq<(String, JsonField)>, cell: Option<
    CellValue,
>) -> bool {
    match first_named(record, column.name@, record.len() as int) {
        Some(i) => is_column_cell(column.kind, record[i].1, field_instant(record[i].1), cell),
        None => cell == Some(CellValue::Null),
    }
}

/// Converts a JSON record for a row, one cell per column (see
/// `is_record_cell`); `None` where a field does not fit its column.
pub fn record_cells(columns: &Vec<ColumnSchema>, record: &Vec<(String, JsonField)>) -> (res: Vec<
    Option<CellValue>,
>)
    ensures
        res.len() == columns.len(),
        forall|k: int| 0 <= k < columns.len() ==> is_record_cell(columns@[k], record@, #[trigger] res@[k]),
{
    let mut out: Vec<Option<CellValue>> = Vec::new();
    let mut k: usize = 0;
    while k < columns.len()
        invariant
            k <= columns.len(),
            out.len() == k,
            forall|j: int| 0 <= j < k ==> is_record_cell(columns@[j], record@, #[trigger] out@[j]),
        decreases columns.len() - k,
    {
        let found = find_named(record, &columns[k].name);
        let cell = match found {
            Some(i) => {
                let field = record[i].1.copy();
                cell_for_column(columns[k].kind, field)
            },
            None => Some(CellValue::Null),
        };
        out.push(cell);
        k += 1;
    }
    out
}

} // verus!
