use parquet_viewer::models::{ColumnInfo, Row};
use parquet_viewer::pages::{
    cast_page, cast_row, column_names, keep_decoded, page_offset, value_page, value_row,
};
use parquet_viewer::values::CellValue;

fn col(name: &str, ty: &str) -> ColumnInfo {
    ColumnInfo { name: name.to_string(), type_: ty.to_string() }
}

fn text(s: &str) -> Option<CellValue> {
    Some(CellValue::Text(s.as_bytes().to_vec()))
}

fn key(s: &str) -> String {
    s.to_string()
}

/// What `LIMIT limit OFFSET offset` keeps of a result set.
fn window<T: Clone>(rows: &[T], limit: usize, offset: usize) -> Vec<T> {
    rows.iter().skip(offset).take(limit).cloned().collect()
}

#[test]
fn row_insert_and_replace() {
    let mut row = Row::new();
    assert_eq!(row.len(), 0);
    row.insert(key("id"), key("1"));
    row.insert(key("name"), key("Ana"));
    row.insert(key("id"), key("2"));
    assert_eq!(row.len(), 2);
    assert_eq!(row.get(&key("id")), Some(&key("2")));
    assert_eq!(row.get(&key("name")), Some(&key("Ana")));
    assert_eq!(row.get(&key("age")), None);
}

#[test]
fn undecoded_columns_are_dropped_in_order() {
    let cols = vec![Some(col("a", "INTEGER")), None, Some(col("b", "VARCHAR")), None];
    let kept = keep_decoded(cols);
    assert_eq!(kept.len(), 2);
    assert_eq!(kept[0].name, "a");
    assert_eq!(kept[0].type_, "INTEGER");
    assert_eq!(kept[1].name, "b");
    assert_eq!(kept[1].type_, "VARCHAR");
    assert_eq!(keep_decoded(vec![None, None]).len(), 0);
}

#[test]
fn names_follow_schema_order() {
    let schema = vec![col("z", "INTEGER"), col("a", "VARCHAR"), col("m", "DATE")];
    assert_eq!(column_names(&schema), vec![key("z"), key("a"), key("m")]);
}

#[test]
fn cast_row_keys_and_placeholders() {
    let names = vec![key("id"), key("name"), key("extra")];
    let row = cast_row(&names, &vec![text("1"), Some(CellValue::Null)]);
    assert_eq!(row.len(), 3);
    assert_eq!(row.get(&key("id")), Some(&key("1")));
    assert_eq!(row.get(&key("name")), Some(&key("NULL")));
    assert_eq!(row.get(&key("extra")), Some(&key("[ERRO]")));
}

#[test]
fn repeated_name_keeps_last_cell() {
    let names = vec![key("v"), key("v")];
    let row = cast_row(&names, &vec![text("first"), text("second")]);
    assert_eq!(row.len(), 1);
    assert_eq!(row.get(&key("v")), Some(&key("second")));
}

#[test]
fn value_row_unreadable_cell_is_null() {
    let schema = vec![col("n", "INTEGER"), col("d", "DATE"), col("x", "VARCHAR")];
    let row = value_row(&schema, &vec![Some(CellValue::Int(5)), Some(CellValue::Date32(1)), None]);
    assert_eq!(row.get(&key("n")), Some(&key("5")));
    assert_eq!(row.get(&key("d")), Some(&key("1970-01-02")));
    assert_eq!(row.get(&key("x")), Some(&key("NULL")));
    let short = value_row(&schema, &Vec::new());
    assert_eq!(short.get(&key("n")), Some(&key("NULL")));
}

#[test]
fn pages_keep_record_order() {
    let names = vec![key("id")];
    let records = vec![vec![text("3")], vec![text("4")]];
    let rows = cast_page(&names, &records);
    assert_eq!(rows.len(), 2);
    assert_eq!(rows[0].get(&key("id")), Some(&key("3")));
    assert_eq!(rows[1].get(&key("id")), Some(&key("4")));
    let schema = vec![col("id", "BIGINT")];
    let rows = value_page(&schema, &vec![vec![Some(CellValue::BigInt(9))]]);
    assert_eq!(rows.len(), 1);
    assert_eq!(rows[0].get(&key("id")), Some(&key("9")));
    assert_eq!(cast_page(&names, &Vec::new()).len(), 0);
}

#[test]
fn offsets_of_pages() {
    assert_eq!(page_offset(0, 25), Some(0));
    assert_eq!(page_offset(1, 2), Some(2));
    assert_eq!(page_offset(2, 2), Some(4));
    assert_eq!(page_offset(usize::MAX, 2), None);
    assert_eq!(page_offset(usize::MAX, 1), Some(usize::MAX));
}

#[test]
fn pages_hold_at_most_page_size() {
    let rows: Vec<u32> = (0..7).collect();
    for p in 1..5usize {
        for i in 0..6usize {
            let page = window(&rows, p, page_offset(i, p).unwrap());
            assert!(page.len() <= p);
            if i * p >= rows.len() {
                assert!(page.is_empty());
            }
        }
    }
}

#[test]
fn page_sizes_add_up_to_row_count() {
    let rows: Vec<u32> = (0..11).collect();
    for p in 1..13usize {
        let mut seen: Vec<u32> = Vec::new();
        let mut i = 0usize;
        loop {
            let page = window(&rows, p, page_offset(i, p).unwrap());
            if page.is_empty() {
                break;
            }
            seen.extend(page);
            i += 1;
        }
        assert_eq!(seen, rows);
    }
}

#[test]
fn whole_result_in_one_slice() {
    let rows: Vec<u32> = (0..9).collect();
    assert_eq!(window(&rows, rows.len(), 0), rows);
}

#[test]
fn row_pairs_in_first_set_order() {
    let mut row = Row::new();
    row.insert(key("b"), key("1"));
    row.insert(key("a"), key("2"));
    row.insert(key("b"), key("3"));
    assert_eq!(row.pairs(), &[(key("b"), key("3")), (key("a"), key("2"))][..]);
}
