//! Schemas, rows and pages built from what the engine reports.
use vstd::prelude::*;
use crate::models::{inserted, keys_distinct, ColumnInfo, Row};
use crate::values::{cast_cell_text, display_text, format_cast_cell, format_value, CellValue};

verus! {

/// The columns whose metadata could be decoded, in the order reported.
pub open spec fn decoded(cols: Seq<Option<ColumnInfo>>) -> Seq<ColumnInfo>
    decreases cols.len(),
{
    if cols.len() == 0 {
        Seq::empty()
    } else {
        match cols.last() {
            Some(c) => decoded(cols.drop_last()).push(c),
            None => decoded(cols.drop_last()),
        }
    }
}

/// The cell at position `i` of a record, `None` where it could not be read.
pub open spec fn cell_at(cells: Seq<Option<CellValue>>, i: int) -> Option<CellValue> {
    if 0 <= i < cells.len() {
        cells[i]
    } else {
        None
    }
}

/// The text of cell `i` on the ad-hoc path: a cell that could not be read
/// shows as `NULL`.
pub open spec fn value_text(cells: Seq<Option<CellValue>>, i: int) -> Seq<char> {
    match cell_at(cells, i) {
        Some(v) => display_text(v),
        None => "NULL"@,
    }
}

/// The insertions that build a paged-read row: column `i` gets the text of
/// cell `i`.
pub open spec fn cast_entries(names: Seq<Seq<char>>, cells: Seq<Option<CellValue>>) -> Seq<
    (Seq<char>, Seq<char>),
> {
    Seq::new(names.len(), |i: int| (names[i], cast_cell_text(cell_at(cells, i))))
}

/// The insertions that build an ad-hoc query row.
pub open spec fn value_entries(names: Seq<Seq<char>>, cells: Seq<Option<CellValue>>) -> Seq<
    (Seq<char>, Seq<char>),
> {
    Seq::new(names.len(), |i: int| (names[i], value_text(cells, i)))
}

/// The names of a list of columns.
pub open spec fn schema_names(schema: Seq<ColumnInfo>) -> Seq<Seq<char>> {
    schema.map_values(|c: ColumnInfo| c.name@)
}

/// The rows that `LIMIT limit OFFSET offset` keeps of a result set.
pub open spec fn window<T>(rows: Seq<T>, limit: nat, offset: nat) -> Seq<T> {
    let start = if offset < rows.len() { offset as int } else { rows.len() as int };
    let end = if offset + limit < rows.len() { (offset + limit) as int } else { rows.len() as int };
    rows.subrange(start, end)
}

/// The total number of rows on pages `0 .. k` of size `p`.
pub open spec fn rows_on_pages<T>(rows: Seq<T>, p: nat, k: nat) -> nat
    decreases k,
{
    if k == 0 {
        0
    } else {
        rows_on_pages(rows, p, (k - 1) as nat) + window(rows, p, ((k - 1) * p) as nat).len()
    }
}

/// Pages `0 .. k` of size `p`, one after the other.
pub open spec fn pages_joined<T>(rows: Seq<T>, p: nat, k: nat) -> Seq<T>
    decreases k,
{
    if k == 0 {
        Seq::empty()
    } else {
        pages_joined(rows, p, (k - 1) as nat) + window(rows, p, ((k - 1) * p) as nat)
    }
}

/// The columns whose metadata could be decoded, in the order reported.
pub fn keep_decoded(cols: Vec<Option<ColumnInfo>>) -> (r: Vec<ColumnInfo>)
    ensures
        r@ == decoded(cols@),
{
    let ghost all = cols@;
    let n = cols.len();
    let mut rest = cols;
    let mut out: Vec<ColumnInfo> = Vec::new();
    let mut taken: usize = 0;
    while rest.len() > 0
        invariant
            taken <= all.len(),
            all.len() == n,
            rest@ == all.subrange(taken as int, all.len() as int),
            out@ == decoded(all.subrange(0, taken as int)),
        decreases rest@.len(),
    {
        assert(taken < all.len());
        let item = rest.remove(0);
        proof {
            let next = all.subrange(0, taken + 1);
            assert(next.drop_last() =~= all.subrange(0, taken as int));
            assert(next.last() == item);
        }
        match item {
            Some(c) => out.push(c),
            None => {},
        }
        taken = taken + 1;
        assert(rest@ =~= all.subrange(taken as int, all.len() as int));
    }
    assert(all.subrange(0, all.len() as int) =~= all);
    out
}

/// The names of the columns, in order.
pub fn column_names(schema: &Vec<ColumnInfo>) -> (r: Vec<String>)
    ensures
        r@.map_values(|s: String| s@) == schema_names(schema@),
{
    let mut out: Vec<String> = Vec::new();
    let mut i: usize = 0;
    while i < schema.len()
        invariant
            i <= schema@.len(),
            out@.len() == i,
            forall|j: int| 0 <= j < i ==> #[trigger] out@[j]@ == schema@[j].name@,
        decreases schema@.len() - i,
    {
        out.push(schema[i].name.clone());
        i = i + 1;
    }
    assert(out@.map_values(|s: String| s@) =~= schema_names(schema@));
    out
}

proof fn lemma_prefix_entries(e: Seq<(Seq<char>, Seq<char>)>, i: int)
    requires
        0 <= i < e.len(),
    ensures
        e.subrange(0, i + 1).drop_last() == e.subrange(0, i),
        e.subrange(0, i + 1).last() == e[i],
{
    assert(e.subrange(0, i + 1).drop_last() =~= e.subrange(0, i));
}

/// A paged-read row: each name in turn is set to the text of the cell at its
/// position, a later equal name replacing an earlier one.
pub fn cast_row(names: &Vec<String>, cells: &Vec<Option<CellValue>>) -> (r: Row)
    ensures
        r.wf(),
        r.view() == inserted(cast_entries(names@.map_values(|s: String| s@), cells@)),
{
    let ghost e = cast_entries(names@.map_values(|s: String| s@), cells@);
    let mut row = Row::new();
    let mut i: usize = 0;
    while i < names.len()
        invariant
            i <= names@.len(),
            e.len() == names@.len(),
            e == cast_entries(names@.map_values(|s: String| s@), cells@),
            row.wf(),
            row.view() == inserted(e.subrange(0, i as int)),
        decreases names@.len() - i,
    {
        let text = if i < cells.len() {
            format_cast_cell(&cells[i])
        } else {
            format_cast_cell(&None)
        };
        proof {
            lemma_prefix_entries(e, i as int);
        }
        row.insert(names[i].clone(), text);
        i = i + 1;
    }
    assert(e.subrange(0, e.len() as int) =~= e);
    row
}

/// An ad-hoc query row: each column name in turn is set to the display text
/// of the cell at its position, `NULL` where the cell could not be read.
pub fn value_row(schema: &Vec<ColumnInfo>, cells: &Vec<Option<CellValue>>) -> (r: Row)
    ensures
        r.wf(),
        r.view() == inserted(value_entries(schema_names(schema@), cells@)),
{
    let ghost e = value_entries(schema_names(schema@), cells@);
    let mut row = Row::new();
    let mut i: usize = 0;
    while i < schema.len()
        invariant
            i <= schema@.len(),
            e.len() == schema@.len(),
            e == value_entries(schema_names(schema@), cells@),
            row.wf(),
            row.view() == inserted(e.subrange(0, i as int)),
        decreases schema@.len() - i,
    {
        let text = if i < cells.len() {
            match &cells[i] {
                Some(v) => format_value(v),
                None => String::from_str("NULL"),
            }
        } else {
            String::from_str("NULL")
        };
        proof {
            lemma_prefix_entries(e, i as int);
        }
        row.insert(schema[i].name.clone(), text);
        i = i + 1;
    }
    assert(e.subrange(0, e.len() as int) =~= e);
    row
}

/// The rows of a page on the paged-read path, one per record, in order.
pub fn cast_page(names: &Vec<String>, records: &Vec<Vec<Option<CellValue>>>) -> (r: Vec<Row>)
    ensures
        r@.len() == records@.len(),
        forall|k: int|
            0 <= k < r@.len() ==> #[trigger] r@[k].wf() && r@[k].view() == inserted(
                cast_entries(names@.map_values(|s: String| s@), records@[k]@),
            ),
{
    let mut out: Vec<Row> = Vec::new();
    let mut k: usize = 0;
    while k < records.len()
        invariant
            k <= records@.len(),
            out@.len() == k,
            forall|j: int|
                0 <= j < k ==> #[trigger] out@[j].wf() && out@[j].view() == inserted(
                    cast_entries(names@.map_values(|s: String| s@), records@[j]@),
                ),
        decreases records@.len() - k,
    {
        out.push(cast_row(names, &records[k]));
        k = k + 1;
    }
    out
}

/// The rows of an ad-hoc query slice, one per record, in order.
pub fn value_page(schema: &Vec<ColumnInfo>, records: &Vec<Vec<Option<CellValue>>>) -> (r: Vec<Row>)
    ensures
        r@.len() == records@.len(),
        forall|k: int|
            0 <= k < r@.len() ==> #[trigger] r@[k].wf() && r@[k].view() == inserted(
                value_entries(schema_names(schema@), records@[k]@),
            ),
{
    let mut out: Vec<Row> = Vec::new();
    let mut k: usize = 0;
    while k < records.len()
        invariant
            k <= records@.len(),
            out@.len() == k,
            forall|j: int|
                0 <= j < k ==> #[trigger] out@[j].wf() && out@[j].view() == inserted(
                    value_entries(schema_names(schema@), records@[j]@),
                ),
        decreases records@.len() - k,
    {
        out.push(value_row(schema, &records[k]));
        k = k + 1;
    }
    out
}

/// The offset of page `page` of size `page_size`: `None` where it does not
/// fit in a `usize`.
pub fn page_offset(page: usize, page_size: usize) -> (r: Option<usize>)
    ensures
        r.is_some() == (page * page_size <= usize::MAX),
        r.is_some() ==> r.unwrap() == page * page_size,
{
    page.checked_mul(page_size)
}

/// A page of size `p > 0` at offset `i * p` holds at most `p` rows, and none
/// once that offset reaches the end of the result set.
pub proof fn lemma_page_bounded<T>(rows: Seq<T>, i: nat, p: nat)
    requires
        p > 0,
    ensures
        window(rows, p, i * p).len() <= p,
        i * p >= rows.len() ==> window(rows, p, i * p).len() == 0,
{
}

proof fn lemma_pages_prefix<T>(rows: Seq<T>, p: nat, k: nat)
    requires
        p > 0,
    ensures
        pages_joined(rows, p, k) == rows.subrange(
            0,
            if k * p < rows.len() { (k * p) as int } else { rows.len() as int },
        ),
        rows_on_pages(rows, p, k) == pages_joined(rows, p, k).len(),
    decreases k,
{
    if k > 0 {
        let j = (k - 1) as nat;
        lemma_pages_prefix(rows, p, j);
        assert(j * p + p == k * p) by (nonlinear_arith)
            requires
                j + 1 == k,
        ;
        assert(j * p <= k * p) by (nonlinear_arith)
            requires
                j + 1 == k,
        ;
        assert(pages_joined(rows, p, k) =~= rows.subrange(
            0,
            if k * p < rows.len() { (k * p) as int } else { rows.len() as int },
        ));
    } else {
        assert(pages_joined(rows, p, k) =~= rows.subrange(0, 0));
    }
}

/// Paging with a fixed page size `p > 0` through pages `0 .. k`, where
/// `k * p` reaches the end of the result set, visits every row once and in
/// order: the pages joined are the result set, and their sizes add up to its
/// row count.
pub proof fn lemma_pages_cover<T>(rows: Seq<T>, p: nat, k: nat)
    requires
        p > 0,
        k * p >= rows.len(),
    ensures
        pages_joined(rows, p, k) == rows,
        rows_on_pages(rows, p, k) == rows.len(),
{
    lemma_pages_prefix(rows, p, k);
    assert(rows.subrange(0, rows.len() as int) =~= rows);
}

/// One slice at offset 0 whose size is the row count holds the whole result
/// set.
pub proof fn lemma_whole_slice<T>(rows: Seq<T>)
    ensures
        window(rows, rows.len(), 0) == rows,
{
    assert(window(rows, rows.len(), 0) =~= rows);
}

/// A null cell reads `NULL` on both paths, and so does a cell that could not
/// be read on the ad-hoc path.
pub proof fn lemma_null_text(cells: Seq<Option<CellValue>>, i: int)
    ensures
        display_text(CellValue::Null) == "NULL"@,
        cast_cell_text(Some(CellValue::Null)) == "NULL"@,
        cell_at(cells, i) == Some(CellValue::Null) ==> value_text(cells, i) == "NULL"@,
        cell_at(cells, i).is_none() ==> value_text(cells, i) == "NULL"@,
{
}

} // verus!
