//! The intermediate representation every regular query compiles to, and
//! its rendering to SQL text.

use vstd::prelude::*;
use crate::filter::{chain_sql, FilterChain};
use crate::sqltext::{dec_str, escaped_sq, join_sep, push_escaped, push_joined, push_u64, str_views};
use crate::table::TableSearchOpts;

verus! {

/// The operation a query performs: a select with an optional explicit
/// column list (`None` selects every column).
#[derive(Clone, Debug)]
pub enum QueryOperation {
    SelectData(Option<Vec<String>>),
}

/// An order specification: direction plus the column ordered by.
#[allow(non_camel_case_types)]
#[derive(Clone, Debug)]
pub enum QueryOrder {
    ASC(String),
    DESC(String),
}

/// The query model: a target table or join expression, an operation, and
/// independently omittable paging, filtering, grouping, having, order and
/// search parts. Constructed fresh per request and immutable once
/// compiled.
#[derive(Clone, Debug)]
pub struct BasableQuery {
    pub table: String,
    pub operation: QueryOperation,
    pub row_count: Option<usize>,
    pub offset: Option<usize>,
    pub filters: FilterChain,
    pub left_join: Option<String>,
    pub group_by: Option<Vec<String>>,
    pub having: FilterChain,
    pub order_by: Option<QueryOrder>,
    pub search_opts: Option<TableSearchOpts>,
}

impl Default for BasableQuery {
    /// A select of every column from an unnamed table, with every
    /// optional part omitted.
    fn default() -> (q: BasableQuery)
        ensures
            q.table@ == Seq::<char>::empty(),
            q.operation == QueryOperation::SelectData(None::<Vec<String>>),
            q.row_count is None,
            q.offset is None,
            q.filters.filters@ == Seq::<crate::filter::Filter>::empty(),
            q.left_join is None,
            q.group_by is None,
            q.having.filters@ == Seq::<crate::filter::Filter>::empty(),
            q.order_by is None,
            q.search_opts is None,
    {
        BasableQuery {
            table: String::new(),
            operation: QueryOperation::SelectData(None),
            row_count: None,
            offset: None,
            filters: FilterChain::empty(),
            left_join: None,
            group_by: None,
            having: FilterChain::empty(),
            order_by: None,
            search_opts: None,
        }
    }
}

/// The select list's text: `*` when no column list is given.
pub open spec fn select_list_sql(op: QueryOperation) -> Seq<char> {
    match op {
        QueryOperation::SelectData(cols) => match cols {
            None => "*"@,
            Some(cs) => join_sep(str_views(cs@), ", "@),
        },
    }
}

/// One free-text search condition: the column matched against the quoted,
/// escaped term.
pub open spec fn like_one_sql(col: Seq<char>, term: Seq<char>) -> Seq<char> {
    col + " LIKE '%"@ + escaped_sq(term) + "%'"@
}

/// The parenthesised disjunction a search specification renders to.
pub open spec fn search_sql(s: TableSearchOpts) -> Seq<char> {
    "("@ + join_sep(
        str_views(s.search_cols@).map_values(|c: Seq<char>| like_one_sql(c, s.query@)),
        " OR "@,
    ) + ")"@
}

/// The order clause's text.
pub open spec fn order_sql(o: QueryOrder) -> Seq<char> {
    match o {
        QueryOrder::ASC(c) => " ORDER BY "@ + c@ + " ASC"@,
        QueryOrder::DESC(c) => " ORDER BY "@ + c@ + " DESC"@,
    }
}

/// The where clause: filters and search specification joined by `AND`,
/// or empty when both are absent.
pub open spec fn where_sql(filters: FilterChain, search: Option<TableSearchOpts>) -> Seq<char> {
    match search {
        Some(s) => if filters.filters@.len() != 0 {
            " WHERE "@ + chain_sql(filters.filters@) + " AND "@ + search_sql(s)
        } else {
            " WHERE "@ + search_sql(s)
        },
        None => if filters.filters@.len() != 0 {
            " WHERE "@ + chain_sql(filters.filters@)
        } else {
            Seq::empty()
        },
    }
}

/// The optional left-join clause's text.
pub open spec fn join_clause_sql(j: Option<String>) -> Seq<char> {
    match j {
        Some(j) => " LEFT JOIN "@ + j@,
        None => Seq::empty(),
    }
}

/// The optional group-by clause's text.
pub open spec fn group_by_sql(g: Option<Vec<String>>) -> Seq<char> {
    match g {
        Some(g) => " GROUP BY "@ + join_sep(str_views(g@), ", "@),
        None => Seq::empty(),
    }
}

/// The optional having clause's text.
pub open spec fn having_sql(having: FilterChain) -> Seq<char> {
    if having.filters@.len() != 0 {
        " HAVING "@ + chain_sql(having.filters@)
    } else {
        Seq::empty()
    }
}

/// The optional order clause's text.
pub open spec fn order_clause_sql(o: Option<QueryOrder>) -> Seq<char> {
    match o {
        Some(o) => order_sql(o),
        None => Seq::empty(),
    }
}

/// The optional limit clause's text.
pub open spec fn limit_sql(n: Option<usize>) -> Seq<char> {
    match n {
        Some(n) => " LIMIT "@ + dec_str(n as nat),
        None => Seq::empty(),
    }
}

/// The optional offset clause's text.
pub open spec fn offset_sql(n: Option<usize>) -> Seq<char> {
    match n {
        Some(n) => " OFFSET "@ + dec_str(n as nat),
        None => Seq::empty(),
    }
}

/// The exact SQL text a query model renders to.
pub open spec fn query_sql(q: BasableQuery) -> Seq<char> {
    "SELECT "@ + select_list_sql(q.operation) + " FROM "@ + q.table@ + join_clause_sql(
        q.left_join,
    ) + where_sql(q.filters, q.search_opts) + group_by_sql(q.group_by) + having_sql(q.having)
        + order_clause_sql(q.order_by) + limit_sql(q.row_count) + offset_sql(q.offset)
}

/// Appends the search specification's text.
fn push_search_sql(out: &mut String, s: &TableSearchOpts)
    ensures
        final(out)@ == old(out)@ + search_sql(*s),
{
    let ghost likes = str_views(s.search_cols@).map_values(
        |c: Seq<char>| like_one_sql(c, s.query@),
    );
    out.append("(");
    let mut i: usize = 0;
    while i < s.search_cols.len()
        invariant
            0 <= i <= s.search_cols@.len(),
            likes == str_views(s.search_cols@).map_values(
                |c: Seq<char>| like_one_sql(c, s.query@),
            ),
            out@ == old(out)@ + "("@ + join_sep(likes.take(i as int), " OR "@),
        decreases s.search_cols@.len() - i,
    {
        if i > 0 {
            out.append(" OR ");
        }
        out.append(s.search_cols[i].as_str());
        out.append(" LIKE '%");
        push_escaped(out, s.query.as_str());
        out.append("%'");
        proof {
            assert(likes.take(i + 1).drop_last() =~= likes.take(i as int));
            assert(likes.take(i + 1).last() == likes[i as int]);
            assert(likes[i as int] == like_one_sql(s.search_cols@[i as int]@, s.query@));
            assert(out@ =~= old(out)@ + "("@ + join_sep(likes.take(i + 1), " OR "@));
        }
        i = i + 1;
    }
    out.append(")");
    proof {
        assert(likes.take(s.search_cols@.len() as int) =~= likes);
        assert(out@ =~= old(out)@ + search_sql(*s));
    }
}

/// Appends the select list.
fn push_select_list(out: &mut String, op: &QueryOperation)
    ensures
        final(out)@ == old(out)@ + select_list_sql(*op),
{
    match op {
        QueryOperation::SelectData(cols) => match cols {
            None => {
                out.append("*");
            },
            Some(cs) => {
                push_joined(out, cs, ", ");
            },
        },
    }
}

/// Appends the optional left-join clause.
fn push_join_clause(out: &mut String, j: &Option<String>)
    ensures
        final(out)@ == old(out)@ + join_clause_sql(*j),
{
    match j {
        Some(j) => {
            out.append(" LEFT JOIN ");
            out.append(j.as_str());
            proof {
                assert(out@ =~= old(out)@ + join_clause_sql(Some(*j)));
            }
        },
        None => {
            proof {
                assert(out@ =~= old(out)@ + join_clause_sql(None::<String>));
            }
        },
    }
}

/// Appends the where clause.
fn push_where_clause(out: &mut String, filters: &FilterChain, search: &Option<TableSearchOpts>)
    ensures
        final(out)@ == old(out)@ + where_sql(*filters, *search),
{
    let has_filters = filters.not_empty();
    match search {
        Some(s) => {
            out.append(" WHERE ");
            if has_filters {
                filters.push_sql(out);
                out.append(" AND ");
            }
            push_search_sql(out, s);
            proof {
                assert(out@ =~= old(out)@ + where_sql(*filters, Some(*s)));
            }
        },
        None => {
            if has_filters {
                out.append(" WHERE ");
                filters.push_sql(out);
            }
            proof {
                assert(out@ =~= old(out)@ + where_sql(*filters, None::<TableSearchOpts>));
            }
        },
    }
}

/// Appends the optional group-by clause.
fn push_group_by(out: &mut String, g: &Option<Vec<String>>)
    ensures
        final(out)@ == old(out)@ + group_by_sql(*g),
{
    match g {
        Some(g) => {
            out.append(" GROUP BY ");
            push_joined(out, g, ", ");
            proof {
                assert(out@ =~= old(out)@ + group_by_sql(Some(*g)));
            }
        },
        None => {
            proof {
                assert(out@ =~= old(out)@ + group_by_sql(None::<Vec<String>>));
            }
        },
    }
}

/// Appends the optional having clause.
fn push_having(out: &mut String, having: &FilterChain)
    ensures
        final(out)@ == old(out)@ + having_sql(*having),
{
    if having.not_empty() {
        out.append(" HAVING ");
        having.push_sql(out);
        proof {
            assert(out@ =~= old(out)@ + having_sql(*having));
        }
    }
}

/// Appends the optional order clause.
fn push_order_clause(out: &mut String, o: &Option<QueryOrder>)
    ensures
        final(out)@ == old(out)@ + order_clause_sql(*o),
{
    match o {
        Some(QueryOrder::ASC(c)) => {
            out.append(" ORDER BY ");
            out.append(c.as_str());
            out.append(" ASC");
            proof {
                assert(out@ =~= old(out)@ + order_clause_sql(*o));
            }
        },
        Some(QueryOrder::DESC(c)) => {
            out.append(" ORDER BY ");
            out.append(c.as_str());
            out.append(" DESC");
            proof {
                assert(out@ =~= old(out)@ + order_clause_sql(*o));
            }
        },
        None => {},
    }
}

/// Appends the optional limit clause.
fn push_limit(out: &mut String, n: &Option<usize>)
    ensures
        final(out)@ == old(out)@ + limit_sql(*n),
{
    match n {
        Some(n) => {
            out.append(" LIMIT ");
            push_u64(out, *n as u64);
            proof {
                assert(out@ =~= old(out)@ + limit_sql(Some(*n)));
            }
        },
        None => {},
    }
}

/// Appends the optional offset clause.
fn push_offset(out: &mut String, n: &Option<usize>)
    ensures
        final(out)@ == old(out)@ + offset_sql(*n),
{
    match n {
        Some(n) => {
            out.append(" OFFSET ");
            push_u64(out, *n as u64);
            proof {
                assert(out@ =~= old(out)@ + offset_sql(Some(*n)));
            }
        },
        None => {},
    }
}

impl BasableQuery {
    /// Renders the model to its SQL text: the structured-query output
    /// path of the compiler.
    pub fn sql_text(&self) -> (s: String)
        ensures
            s@ == query_sql(*self),
    {
        let mut out = String::new();
        out.append("SELECT ");
        push_select_list(&mut out, &self.operation);
        out.append(" FROM ");
        out.append(self.table.as_str());
        push_join_clause(&mut out, &self.left_join);
        push_where_clause(&mut out, &self.filters, &self.search_opts);
        push_group_by(&mut out, &self.group_by);
        push_having(&mut out, &self.having);
        push_order_clause(&mut out, &self.order_by);
        push_limit(&mut out, &self.row_count);
        push_offset(&mut out, &self.offset);
        proof {
            assert(out@ =~= query_sql(*self));
        }
        out
    }
}

} // verus!
