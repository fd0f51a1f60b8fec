use parquet_viewer::flows::{MetadataRead, PageRead, QueryView};
use parquet_viewer::models::ColumnInfo;
use parquet_viewer::values::CellValue;

fn col(name: &str, ty: &str) -> ColumnInfo {
    ColumnInfo { name: name.to_string(), type_: ty.to_string() }
}

fn key(s: &str) -> String {
    s.to_string()
}

fn text(s: &str) -> Option<CellValue> {
    Some(CellValue::Text(s.as_bytes().to_vec()))
}

/// Five records of `(id INT, name VARCHAR)`, cast to text.
fn five_records() -> Vec<Vec<Option<CellValue>>> {
    let names = ["Ana", "Bia", "Caio", "Duda", "Enzo"];
    (0..5).map(|i| vec![text(&(i + 1).to_string()), text(names[i])]).collect()
}

fn five_record_schema() -> Vec<Option<ColumnInfo>> {
    vec![Some(col("id", "INTEGER")), Some(col("name", "VARCHAR"))]
}

/// What `LIMIT limit OFFSET offset` keeps of a result set.
fn window<T: Clone>(rows: &[T], limit: usize, offset: usize) -> Vec<T> {
    rows.iter().skip(offset).take(limit).cloned().collect()
}

#[test]
fn second_page_of_five_rows() {
    let read = PageRead::start(key("people.parquet"), 1, 2, None, None).unwrap();
    assert_eq!(read.query, "DESCRIBE SELECT * FROM 'people.parquet';");
    assert_eq!(read.offset, 2);
    let fetch = read.on_schema(Ok(five_record_schema())).unwrap();
    assert_eq!(
        fetch.query,
        "SELECT \"id\"::VARCHAR, \"name\"::VARCHAR FROM 'people.parquet'  LIMIT 2 OFFSET 2"
    );
    let rows = fetch.on_rows(Ok(window(&five_records(), 2, 2))).unwrap();
    assert_eq!(rows.len(), 2);
    assert_eq!(rows[0].get(&key("id")), Some(&key("3")));
    assert_eq!(rows[0].get(&key("name")), Some(&key("Caio")));
    assert_eq!(rows[1].get(&key("id")), Some(&key("4")));
}

#[test]
fn last_page_of_five_rows() {
    let read = PageRead::start(key("people.parquet"), 2, 2, None, None).unwrap();
    let fetch = read.on_schema(Ok(five_record_schema())).unwrap();
    assert!(fetch.query.ends_with("LIMIT 2 OFFSET 4"));
    let rows = fetch.on_rows(Ok(window(&five_records(), 2, 4))).unwrap();
    assert_eq!(rows.len(), 1);
    assert_eq!(rows[0].get(&key("id")), Some(&key("5")));
    assert_eq!(rows[0].get(&key("name")), Some(&key("Enzo")));
}

#[test]
fn sorted_page_query() {
    let read = PageRead::start(key("p.parquet"), 0, 3, Some(key("name")), Some(key("desc"))).unwrap();
    let fetch = read.on_schema(Ok(vec![Some(col("name", "VARCHAR"))])).unwrap();
    assert_eq!(
        fetch.query,
        "SELECT \"name\"::VARCHAR FROM 'p.parquet' ORDER BY \"name\" DESC LIMIT 3 OFFSET 0"
    );
}

#[test]
fn page_offset_overflow_is_an_error() {
    assert!(PageRead::start(key("p.parquet"), usize::MAX, 2, None, None).is_err());
}

#[test]
fn page_read_failures_pass_through() {
    let read = PageRead::start(key("missing.parquet"), 0, 2, None, None).unwrap();
    assert_eq!(read.on_schema(Err(key("IO Error: no such file"))).err(), Some(key("IO Error: no such file")));
    let read = PageRead::start(key("p.parquet"), 0, 2, None, None).unwrap();
    let fetch = read.on_schema(Ok(five_record_schema())).unwrap();
    assert_eq!(fetch.on_rows(Err(key("boom"))).err(), Some(key("boom")));
}

#[test]
fn metadata_of_a_file() {
    let read = MetadataRead::start(key("people.parquet"));
    assert_eq!(read.query, "DESCRIBE SELECT * FROM 'people.parquet';");
    let count = read.on_schema(Ok(vec![Some(col("id", "INTEGER")), None])).unwrap();
    assert_eq!(count.query, "SELECT COUNT(*) FROM 'people.parquet';");
    let meta = count.on_count(Ok(5)).unwrap();
    assert_eq!(meta.file_path, "people.parquet");
    assert_eq!(meta.total_rows, 5);
    assert_eq!(meta.schema.len(), 1);
    assert_eq!(meta.schema[0].name, "id");
}

#[test]
fn metadata_rows_match_pages() {
    let records = five_records();
    let meta = MetadataRead::start(key("people.parquet"))
        .on_schema(Ok(five_record_schema()))
        .unwrap()
        .on_count(Ok(records.len() as i64))
        .unwrap();
    let mut seen = 0usize;
    for page in 0..4usize {
        let fetch = PageRead::start(key("people.parquet"), page, 2, None, None)
            .unwrap()
            .on_schema(Ok(five_record_schema()))
            .unwrap();
        seen += fetch.on_rows(Ok(window(&records, 2, page * 2))).unwrap().len();
    }
    assert_eq!(seen as i64, meta.total_rows);
}

#[test]
fn metadata_failures_pass_through() {
    assert_eq!(MetadataRead::start(key("x")).on_schema(Err(key("bad"))).err(), Some(key("bad")));
    let count = MetadataRead::start(key("x")).on_schema(Ok(Vec::new())).unwrap();
    assert_eq!(count.on_count(Err(key("late"))).err(), Some(key("late")));
}

#[test]
fn ad_hoc_query_end_to_end() {
    let view = QueryView::start("people.parquet", "  SELECT id, name FROM t WHERE id > 1; ", 2, 1);
    assert_eq!(view.query, "CREATE OR REPLACE VIEW t AS SELECT * FROM 'people.parquet';");
    assert_eq!(view.clean, "SELECT id, name FROM t WHERE id > 1");
    let count = view.on_view(Ok(())).unwrap();
    assert_eq!(count.query, "SELECT COUNT(*) FROM (SELECT id, name FROM t WHERE id > 1)");
    let describe = count.on_count(Ok(4)).unwrap();
    assert_eq!(describe.query, "DESCRIBE SELECT * FROM (SELECT id, name FROM t WHERE id > 1)");
    let slice = describe
        .on_columns(Ok(vec![Some(col("id", "INTEGER")), Some(col("name", "VARCHAR"))]))
        .unwrap();
    assert_eq!(slice.query, "SELECT * FROM (SELECT id, name FROM t WHERE id > 1) LIMIT 2 OFFSET 1");
    let records = vec![
        vec![Some(CellValue::Int(3)), text("Caio")],
        vec![Some(CellValue::Int(4)), Some(CellValue::Null)],
    ];
    let result = slice.on_rows(Ok(records), 12).unwrap();
    assert_eq!(result.total_rows, 4);
    assert_eq!(result.execution_time_ms, 12);
    assert_eq!(result.schema.len(), 2);
    assert_eq!(result.rows.len(), 2);
    assert_eq!(result.rows[0].get(&key("id")), Some(&key("3")));
    assert_eq!(result.rows[0].get(&key("name")), Some(&key("Caio")));
    assert_eq!(result.rows[1].get(&key("name")), Some(&key("NULL")));
}

#[test]
fn ad_hoc_total_matches_full_slice() {
    let records = five_records();
    let slice = QueryView::start("people.parquet", "SELECT * FROM t", 5, 0)
        .on_view(Ok(()))
        .unwrap()
        .on_count(Ok(records.len() as i64))
        .unwrap()
        .on_columns(Ok(five_record_schema()))
        .unwrap();
    assert!(slice.query.ends_with("LIMIT 5 OFFSET 0"));
    let result = slice.on_rows(Ok(window(&records, 5, 0)), 0).unwrap();
    assert_eq!(result.rows.len() as i64, result.total_rows);
}

#[test]
fn malformed_query_gives_only_an_error() {
    let view = QueryView::start("people.parquet", "SELECT (id FROM t", 10, 0);
    let count = view.on_view(Ok(())).unwrap();
    let outcome = count.on_count(Err(key("Parser Error: syntax error at end of input")));
    assert_eq!(outcome.err(), Some(key("Parser Error: syntax error at end of input")));
}

#[test]
fn ad_hoc_failures_at_each_step() {
    let view = QueryView::start("missing.parquet", "SELECT 1", 1, 0);
    assert_eq!(view.on_view(Err(key("no file"))).err(), Some(key("no file")));
    let describe = QueryView::start("p", "SELECT 1", 1, 0).on_view(Ok(())).unwrap().on_count(Ok(1)).unwrap();
    assert_eq!(describe.on_columns(Err(key("d"))).err(), Some(key("d")));
    let slice = QueryView::start("p", "SELECT 1", 1, 0)
        .on_view(Ok(()))
        .unwrap()
        .on_count(Ok(1))
        .unwrap()
        .on_columns(Ok(Vec::new()))
        .unwrap();
    assert_eq!(slice.on_rows(Err(key("r")), 3).err(), Some(key("r")));
}
