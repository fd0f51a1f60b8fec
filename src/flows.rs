//! The request flows, one step per engine call. Each step holds the statement
//! to run next; the caller runs it and hands the engine's reply to the step,
//! which gives the next step or the outcome. A failed reply ends the flow
//! with the engine's message and nothing else.
use vstd::prelude::*;
use crate::decimal::decimal_text;
use crate::models::{inserted, ColumnInfo, FileMetadata, QueryResult, Row};
use crate::pages::{
    cast_entries, cast_page, column_names, decoded, keep_decoded, schema_names, value_entries,
    value_page,
};
use crate::sql::{
    clean_query, clean_query_text, count_query, describe_query, opt_view, order_clause_text,
    page_query, page_query_text, row_count_query, schema_query, sliced_query, view_statement,
};
use crate::values::CellValue;

verus! {

/// Paged read, first step: describe the file's columns.
pub struct PageRead {
    pub query: String,
    pub file_path: String,
    pub limit: usize,
    pub offset: usize,
    pub sort_col: Option<String>,
    pub sort_order: Option<String>,
}

/// Paged read, second step: fetch the page.
pub struct PageFetch {
    pub query: String,
    pub names: Vec<String>,
}

impl PageRead {
    /// Starts reading page `page` of size `page_size`; fails when the page's
    /// offset does not fit in a `usize`.
    pub fn start(
        file_path: String,
        page: usize,
        page_size: usize,
        sort_col: Option<String>,
        sort_order: Option<String>,
    ) -> (r: Result<PageRead, String>)
        ensures
            r.is_ok() == (page * page_size <= usize::MAX),
            r matches Ok(s) ==> {
                &&& s.query@ == "DESCRIBE SELECT * FROM '"@ + file_path@ + "';"@
                &&& s.file_path == file_path
                &&& s.limit == page_size
                &&& s.offset == page * page_size
                &&& s.sort_col == sort_col
                &&& s.sort_order == sort_order
            },
    {
        match page.checked_mul(page_size) {
            Some(offset) => Ok(
                PageRead {
                    query: schema_query(file_path.as_str()),
                    file_path,
                    limit: page_size,
                    offset,
                    sort_col,
                    sort_order,
                },
            ),
            None => Err(String::from_str("page offset out of range")),
        }
    }

    /// Takes the described columns; on success the next step fetches the
    /// decoded columns, cast to text, in their reported order.
    pub fn on_schema(self, reply: Result<Vec<Option<ColumnInfo>>, String>) -> (r: Result<
        PageFetch,
        String,
    >)
        ensures
            reply is Err ==> r == Err::<PageFetch, String>(reply->Err_0),
            reply matches Ok(cols) ==> (r matches Ok(f) && {
                &&& f.names@.map_values(|s: String| s@) == schema_names(decoded(cols@))
                &&& f.query@ == page_query_text(
                    self.file_path@,
                    schema_names(decoded(cols@)),
                    order_clause_text(opt_view(self.sort_col), opt_view(self.sort_order)),
                    self.limit as nat,
                    self.offset as nat,
                )
            }),
    {
        match reply {
            Err(e) => Err(e),
            Ok(cols) => {
                let schema = keep_decoded(cols);
                let names = column_names(&schema);
                let query = page_query(
                    self.file_path.as_str(),
                    &names,
                    &self.sort_col,
                    &self.sort_order,
                    self.limit,
                    self.offset,
                );
                Ok(PageFetch { query, names })
            },
        }
    }
}

impl PageFetch {
    /// Takes the fetched records and gives one row per record, in order.
    pub fn on_rows(self, reply: Result<Vec<Vec<Option<CellValue>>>, String>) -> (r: Result<
        Vec<Row>,
        String,
    >)
        ensures
            reply is Err ==> r == Err::<Vec<Row>, String>(reply->Err_0),
            reply matches Ok(recs) ==> (r matches Ok(rows) && {
                &&& rows@.len() == recs@.len()
                &&& forall|k: int|
                    0 <= k < rows@.len() ==> #[trigger] rows@[k].wf() && rows@[k].view()
                        == inserted(cast_entries(self.names@.map_values(|s: String| s@), recs@[k]@))
            }),
    {
        match reply {
            Err(e) => Err(e),
            Ok(recs) => Ok(cast_page(&self.names, &recs)),
        }
    }
}

/// File metadata, first step: describe the file's columns.
pub struct MetadataRead {
    pub query: String,
    pub file_path: String,
}

/// File metadata, second step: count the file's rows.
pub struct MetadataCount {
    pub query: String,
    pub file_path: String,
    pub schema: Vec<ColumnInfo>,
}

impl MetadataRead {
    /// Starts reading the metadata of a file.
    pub fn start(file_path: String) -> (r: MetadataRead)
        ensures
            r.query@ == "DESCRIBE SELECT * FROM '"@ + file_path@ + "';"@,
            r.file_path == file_path,
    {
        MetadataRead { query: schema_query(file_path.as_str()), file_path }
    }

    /// Takes the described columns; on success the next step counts the rows.
    pub fn on_schema(self, reply: Result<Vec<Option<ColumnInfo>>, String>) -> (r: Result<
        MetadataCount,
        String,
    >)
        ensures
            reply is Err ==> r == Err::<MetadataCount, String>(reply->Err_0),
            reply matches Ok(cols) ==> (r matches Ok(c) && {
                &&& c.query@ == "SELECT COUNT(*) FROM '"@ + self.file_path@ + "';"@
                &&& c.file_path == self.file_path
                &&& c.schema@ == decoded(cols@)
            }),
    {
        match reply {
            Err(e) => Err(e),
            Ok(cols) => {
                let query = row_count_query(self.file_path.as_str());
                Ok(MetadataCount { query, file_path: self.file_path, schema: keep_decoded(cols) })
            },
        }
    }
}

impl MetadataCount {
    /// Takes the row count and gives the metadata.
    pub fn on_count(self, reply: Result<i64, String>) -> (r: Result<FileMetadata, String>)
        ensures
            reply is Err ==> r == Err::<FileMetadata, String>(reply->Err_0),
            reply matches Ok(n) ==> (r matches Ok(m) && {
                &&& m.file_path == self.file_path
                &&& m.total_rows == n
                &&& m.schema == self.schema
            }),
    {
        match reply {
            Err(e) => Err(e),
            Ok(n) => Ok(FileMetadata { file_path: self.file_path, total_rows: n, schema: self.schema }),
        }
    }
}

/// Ad-hoc query, first step: make the file queryable as the view `t`.
pub struct QueryView {
    pub query: String,
    pub clean: String,
    pub limit: usize,
    pub offset: usize,
}

/// Ad-hoc query, second step: count the rows of the whole query.
pub struct QueryCount {
    pub query: String,
    pub clean: String,
    pub limit: usize,
    pub offset: usize,
}

/// Ad-hoc query, third step: describe the query's columns.
pub struct QueryDescribe {
    pub query: String,
    pub clean: String,
    pub limit: usize,
    pub offset: usize,
    pub total_rows: i64,
}

/// Ad-hoc query, last step: fetch the requested slice.
pub struct QuerySlice {
    pub query: String,
    pub schema: Vec<ColumnInfo>,
    pub total_rows: i64,
}

impl QueryView {
    /// Starts an ad-hoc query over a file, keeping `limit` rows from `offset`.
    pub fn start(file_path: &str, user_query: &str, limit: usize, offset: usize) -> (r: QueryView)
        ensures
            r.query@ == "CREATE OR REPLACE VIEW t AS SELECT * FROM '"@ + file_path@ + "';"@,
            r.clean@ == clean_query_text(user_query@),
            r.limit == limit,
            r.offset == offset,
    {
        QueryView { query: view_statement(file_path), clean: clean_query(user_query), limit, offset }
    }

    /// Takes the outcome of making the view; on success the next step counts
    /// the rows of the whole query.
    pub fn on_view(self, reply: Result<(), String>) -> (r: Result<QueryCount, String>)
        ensures
            reply is Err ==> r == Err::<QueryCount, String>(reply->Err_0),
            reply is Ok ==> (r matches Ok(c) && {
                &&& c.query@ == "SELECT COUNT(*) FROM ("@ + self.clean@ + ")"@
                &&& c.clean == self.clean
                &&& c.limit == self.limit
                &&& c.offset == self.offset
            }),
    {
        match reply {
            Err(e) => Err(e),
            Ok(()) => {
                let query = count_query(self.clean.as_str());
                Ok(QueryCount { query, clean: self.clean, limit: self.limit, offset: self.offset })
            },
        }
    }
}

impl QueryCount {
    /// Takes the row count of the whole query; on success the next step
    /// describes its columns.
    pub fn on_count(self, reply: Result<i64, String>) -> (r: Result<QueryDescribe, String>)
        ensures
            reply is Err ==> r == Err::<QueryDescribe, String>(reply->Err_0),
            reply matches Ok(n) ==> (r matches Ok(d) && {
                &&& d.query@ == "DESCRIBE SELECT * FROM ("@ + self.clean@ + ")"@
                &&& d.clean == self.clean
                &&& d.limit == self.limit
                &&& d.offset == self.offset
                &&& d.total_rows == n
            }),
    {
        match reply {
            Err(e) => Err(e),
            Ok(n) => {
                let query = describe_query(self.clean.as_str());
                Ok(
                    QueryDescribe {
                        query,
                        clean: self.clean,
                        limit: self.limit,
                        offset: self.offset,
                        total_rows: n,
                    },
                )
            },
        }
    }
}

impl QueryDescribe {
    /// Takes the described columns; on success the next step fetches the
    /// slice.
    pub fn on_columns(self, reply: Result<Vec<Option<ColumnInfo>>, String>) -> (r: Result<
        QuerySlice,
        String,
    >)
        ensures
            reply is Err ==> r == Err::<QuerySlice, String>(reply->Err_0),
            reply matches Ok(cols) ==> (r matches Ok(s) && {
                &&& s.query@ == "SELECT * FROM ("@ + self.clean@ + ") LIMIT "@ + decimal_text(
                    self.limit as nat,
                ) + " OFFSET "@ + decimal_text(self.offset as nat)
                &&& s.schema@ == decoded(cols@)
                &&& s.total_rows == self.total_rows
            }),
    {
        match reply {
            Err(e) => Err(e),
            Ok(cols) => {
                let query = sliced_query(self.clean.as_str(), self.limit, self.offset);
                Ok(QuerySlice { query, schema: keep_decoded(cols), total_rows: self.total_rows })
            },
        }
    }
}

impl QuerySlice {
    /// Takes the fetched records and the time the whole flow took, and gives
    /// the result: one row per record, keyed by the query's column names.
    pub fn on_rows(self, reply: Result<Vec<Vec<Option<CellValue>>>, String>, elapsed_ms: u128) -> (r:
        Result<QueryResult, String>)
        ensures
            reply is Err ==> r == Err::<QueryResult, String>(reply->Err_0),
            reply matches Ok(recs) ==> (r matches Ok(q) && {
                &&& q.schema == self.schema
                &&& q.total_rows == self.total_rows
                &&& q.execution_time_ms == elapsed_ms
                &&& q.rows@.len() == recs@.len()
                &&& forall|k: int|
                    0 <= k < q.rows@.len() ==> #[trigger] q.rows@[k].wf() && q.rows@[k].view()
                        == inserted(value_entries(schema_names(self.schema@), recs@[k]@))
            }),
    {
        match reply {
            Err(e) => Err(e),
            Ok(recs) => {
                let rows = value_page(&self.schema, &recs);
                Ok(
                    QueryResult {
                        schema: self.schema,
                        rows,
                        execution_time_ms: elapsed_ms,
                        total_rows: self.total_rows,
                    },
                )
            },
        }
    }
}

} // verus!
