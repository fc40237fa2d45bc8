//! The table-facing request and read-model types: browse/search options,
//! per-table configuration, summaries, and export descriptions.

use vstd::prelude::*;
use std::collections::HashMap;
use crate::error::AppError;
use crate::filter::{Filter, FilterChain};
use crate::query::{query_sql, where_sql, BasableQuery, QueryOperation, QueryOrder};

verus! {

/// Table column used for querying table history, such as when a row was
/// added or when a row was updated.
#[derive(Clone, Debug)]
pub struct HistoryColumn {
    pub name: String,
    pub pattern: String,
}

/// The type of a `SpecialColumn`.
#[derive(Clone, Copy, Debug, PartialEq, Eq, Structural)]
pub enum SpecialValueType {
    Image,
    Audio,
    Video,
    PDF,
    Webpage,
}

/// Special columns are columns whose values should lead to some sort of
/// media type.
#[derive(Clone, Debug)]
pub struct SpecialColumn {
    pub name: String,
    pub special_type: SpecialValueType,
    pub path: String,
}

/// The action that should trigger a `NotifyEvent`.
#[derive(Clone, Copy, Debug, PartialEq, Eq, Structural)]
pub enum NotifyTrigger {
    Create,
    Update,
    Delete,
}

/// When a `NotifyEvent` should fire around its trigger.
#[derive(Clone, Copy, Debug, PartialEq, Eq, Structural)]
pub enum NotifyTriggerTime {
    Before,
    After,
}

/// The REST method expected by the webhook URL.
#[derive(Clone, Copy, Debug, PartialEq, Eq, Structural)]
pub enum NotifyEventMethod {
    Get,
    Post,
    Delete,
    Put,
    Patch,
}

/// What should happen to the triggering operation when notification
/// fails: proceed anyway, or fail the operation.
#[derive(Clone, Copy, Debug, PartialEq, Eq, Structural)]
pub enum OnNotifyError {
    Fail,
    Proceed,
}

/// An event sent to a given webhook URL on a certain trigger.
#[derive(Clone, Debug)]
pub struct NotifyEvent {
    pub trigger: NotifyTrigger,
    pub trigger_time: NotifyTriggerTime,
    pub method: NotifyEventMethod,
    pub url: String,
    pub on_error: OnNotifyError,
}

/// Per-table presentation and behaviour configuration, read as defaults
/// by the compiler and summary logic, never persisted here.
#[derive(Clone, Debug)]
pub struct TableConfig {
    pub label: String,
    pub name: String,
    /// Name of the column to use as primary key.
    pub pk_column: Option<String>,
    /// Total number of items to be loaded for each pagination.
    pub items_per_page: usize,
    /// Column for querying when a row was created.
    pub created_column: Option<HistoryColumn>,
    /// Column for querying when a row was updated.
    pub updated_column: Option<HistoryColumn>,
    /// Special columns that return a `SpecialValueType`.
    pub special_columns: Option<Vec<SpecialColumn>>,
    /// Notification events for this table.
    pub events: Option<Vec<NotifyEvent>>,
    /// Columns to exclude from fetch queries.
    pub exclude_columns: Option<Vec<String>>,
}

impl PartialEq for TableConfig {
    /// Two configurations are the same exactly when their labels agree.
    fn eq(&self, other: &Self) -> (r: bool) {
        self.label == other.label
    }
}

impl vstd::std_specs::cmp::PartialEqSpecImpl for TableConfig {
    open spec fn obeys_eq_spec() -> bool {
        true
    }

    open spec fn eq_spec(&self, other: &Self) -> bool {
        self.label@ == other.label@
    }
}

impl Default for TableConfig {
    /// The fresh configuration: empty names, one hundred items per page,
    /// everything else omitted.
    fn default() -> (c: TableConfig)
        ensures
            c.label@ == Seq::<char>::empty(),
            c.name@ == Seq::<char>::empty(),
            c.pk_column is None,
            c.items_per_page == 100,
            c.created_column is None,
            c.updated_column is None,
            c.special_columns is None,
            c.events is None,
            c.exclude_columns is None,
    {
        TableConfig {
            pk_column: None,
            label: String::new(),
            name: String::new(),
            items_per_page: 100,
            created_column: None,
            updated_column: None,
            special_columns: None,
            events: None,
            exclude_columns: None,
        }
    }
}

/// A free-text search specification: the columns searched and the term.
#[derive(Clone, Debug)]
pub struct TableSearchOpts {
    pub search_cols: Vec<String>,
    pub query: String,
}

/// A browse or search request against one table.
#[derive(Clone, Debug)]
pub struct TableQueryOpts {
    /// The table we are querying.
    pub table: String,
    /// Query offset.
    pub offset: usize,
    /// Query row count.
    pub row_count: usize,
    /// Query filters.
    pub filters: Option<Vec<Filter>>,
    /// The columns you want selected in the query. If set to `None` all
    /// fields will be selected.
    pub columns: Option<Vec<String>>,
    pub order_by: Option<QueryOrder>,
    pub search_opts: Option<TableSearchOpts>,
}

/// How a compiled browse query relates to the options it came from: the
/// requested column subset is selected, offset and row count are copied
/// verbatim, the filters fill the chain (an absent list leaves it empty),
/// order and search pass through, and no join, grouping or having part is
/// attached.
pub open spec fn browse_query_of(opts: TableQueryOpts, q: BasableQuery) -> bool {
    &&& q.table == opts.table
    &&& q.operation == QueryOperation::SelectData(opts.columns)
    &&& q.row_count == Some(opts.row_count)
    &&& q.offset == Some(opts.offset)
    &&& q.filters.filters@ == (match opts.filters {
        Some(fs) => fs@,
        None => Seq::<Filter>::empty(),
    })
    &&& q.left_join is None
    &&& q.group_by is None
    &&& q.having.filters@.len() == 0
    &&& q.order_by == opts.order_by
    &&& q.search_opts == opts.search_opts
}

impl TableQueryOpts {
    /// Whether this request carries a free-text search specification.
    pub fn is_search_mode(&self) -> (b: bool)
        ensures
            b == (self.search_opts is Some),
    {
        self.search_opts.is_some()
    }

    /// Compiles the browse/search request into a query model. Every
    /// request compiles: the result is always `Ok`.
    pub fn to_query(self) -> (r: Result<BasableQuery, AppError>)
        ensures
            r matches Ok(q) && browse_query_of(self, q),
    {
        let TableQueryOpts { table, offset, row_count, filters, columns, order_by, search_opts } =
            self;
        let operation = QueryOperation::SelectData(columns);
        let filter_chain = match filters {
            Some(fs) => FilterChain::prefill(fs),
            None => FilterChain::empty(),
        };
        let q = BasableQuery {
            table,
            operation,
            row_count: Some(row_count),
            offset: Some(offset),
            filters: filter_chain,
            order_by,
            search_opts,
            ..Default::default()
        };
        Ok(q)
    }
}

/// Law: a browse intent with no filters, no search and no column subset
/// compiles to a query that selects every column of the target table at
/// the given offset and row count, with no grouping, having or join.
pub proof fn lemma_plain_browse_selects_all(opts: TableQueryOpts, q: BasableQuery)
    requires
        browse_query_of(opts, q),
        opts.filters is None,
        opts.search_opts is None,
        opts.columns is None,
    ensures
        q.operation == QueryOperation::SelectData(None::<Vec<String>>),
        q.table == opts.table,
        q.row_count == Some(opts.row_count),
        q.offset == Some(opts.offset),
        q.group_by is None,
        q.having.filters@.len() == 0,
        q.left_join is None,
        q.filters.filters@.len() == 0,
        q.search_opts is None,
{
}

/// Law: compiling the same browse intent twice yields structurally
/// identical queries — every field a renderer reads agrees — so the two
/// render to the same SQL text; compilation has no observable side
/// effect.
pub proof fn lemma_browse_compile_idempotent(opts: TableQueryOpts, q1: BasableQuery, q2: BasableQuery)
    requires
        browse_query_of(opts, q1),
        browse_query_of(opts, q2),
    ensures
        query_sql(q1) == query_sql(q2),
{
    assert(where_sql(q1.filters, q1.search_opts) == where_sql(q2.filters, q2.search_opts));
    assert(crate::query::having_sql(q1.having) == crate::query::having_sql(q2.having));
}

/// A point-in-time snapshot of one table, recomputed per request.
#[derive(Clone, Debug)]
pub struct TableSummary {
    pub name: String,
    pub row_count: u32,
    pub col_count: u32,
    pub created: Option<String>,
    pub updated: Option<String>,
}

/// A row-update request surface: which rows to touch and what to write.
#[derive(Debug)]
pub struct UpdateTableData {
    pub unique_key: String,
    pub columns: Vec<String>,
    pub unique_values: Vec<String>,
    pub input: Vec<HashMap<String, String>>,
}

/// The closed set of export renderings a table extract can take.
#[derive(Clone, Copy, Debug, PartialEq, Eq, Structural)]
pub enum TableExportFormat {
    CSV,
    TSV,
    PSV,
    TEXT,
    JSON,
    HTML,
    XML,
}

/// The file extension of an export format.
pub open spec fn extension_of(f: TableExportFormat) -> Seq<char> {
    match f {
        TableExportFormat::CSV => "csv"@,
        TableExportFormat::TSV => "tsv"@,
        TableExportFormat::PSV => "psv"@,
        TableExportFormat::TEXT => "txt"@,
        TableExportFormat::JSON => "json"@,
        TableExportFormat::HTML => "html"@,
        TableExportFormat::XML => "xml"@,
    }
}

/// The MIME type of an export format.
pub open spec fn mimetype_of(f: TableExportFormat) -> Seq<char> {
    match f {
        TableExportFormat::CSV => "text/csv"@,
        TableExportFormat::TSV => "text/tab-separated-values"@,
        TableExportFormat::PSV => "text/plain"@,
        TableExportFormat::TEXT => "text/plain"@,
        TableExportFormat::JSON => "application/json"@,
        TableExportFormat::HTML => "text/html"@,
        TableExportFormat::XML => "application/xml"@,
    }
}

/// The field delimiter of an export format, for the delimited ones.
pub open spec fn delimiter_of(f: TableExportFormat) -> Option<Seq<char>> {
    match f {
        TableExportFormat::CSV => Some(","@),
        TableExportFormat::TSV => Some("\\t"@),
        TableExportFormat::PSV => Some("|"@),
        TableExportFormat::TEXT => Some(";"@),
        _ => None,
    }
}

impl TableExportFormat {
    /// The file extension used when naming an export of this format.
    pub fn as_extension(&self) -> (r: String)
        ensures
            r@ == extension_of(*self),
    {
        match self {
            TableExportFormat::CSV => "csv".to_owned(),
            TableExportFormat::TSV => "tsv".to_owned(),
            TableExportFormat::PSV => "psv".to_owned(),
            TableExportFormat::TEXT => "txt".to_owned(),
            TableExportFormat::JSON => "json".to_owned(),
            TableExportFormat::HTML => "html".to_owned(),
            TableExportFormat::XML => "xml".to_owned(),
        }
    }

    /// The MIME type served with an export of this format.
    pub fn as_mimetype(&self) -> (r: String)
        ensures
            r@ == mimetype_of(*self),
    {
        match self {
            TableExportFormat::CSV => "text/csv".to_owned(),
            TableExportFormat::TSV => "text/tab-separated-values".to_owned(),
            // No specific MIME type; plain text is the closest match.
            TableExportFormat::PSV => "text/plain".to_owned(),
            TableExportFormat::TEXT => "text/plain".to_owned(),
            TableExportFormat::JSON => "application/json".to_owned(),
            TableExportFormat::HTML => "text/html".to_owned(),
            TableExportFormat::XML => "application/xml".to_owned(),
        }
    }

    /// The field delimiter of this format, where one applies.
    pub fn field_delimiter(&self) -> (r: Option<String>)
        ensures
            match r {
                Some(s) => delimiter_of(*self) matches Some(d) && s@ == d,
                None => delimiter_of(*self) is None,
            },
    {
        match self {
            TableExportFormat::CSV => Some(",".to_owned()),
            TableExportFormat::TSV => Some("\\t".to_owned()),
            TableExportFormat::PSV => Some("|".to_owned()),
            TableExportFormat::TEXT => Some(";".to_owned()),
            _ => None,
        }
    }
}

/// Which slice of the queried rows an export keeps.
#[derive(Clone, Copy, Debug)]
pub struct TableExportTrim {
    pub offset: usize,
    pub count: usize,
}

/// A table export request: the format, the query to run, and an optional
/// trim of the result.
#[derive(Debug)]
pub struct TableExportOpts {
    pub format: TableExportFormat,
    pub query_opts: TableQueryOpts,
    pub trim: Option<TableExportTrim>,
}

/// A rendered export handed back to the presentation layer.
#[derive(Clone, Debug)]
pub struct TableExportResponse {
    pub data: String,
    pub mimetype: String,
    pub filename: String,
}

} // verus!
