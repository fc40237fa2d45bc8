//! Trend analysis intents and their compilation: a two-column comparison
//! within one table (intra-model), or a count aggregation joining a
//! primary table to a foreign one (cross-model).

use vstd::prelude::*;
use crate::error::{AppError, ErrorKind};
use crate::filter::{chain_sql, cond_sql, filter_sql, Filter, FilterChain, FilterCondition, FilterOperator};
use crate::query::{query_sql, BasableQuery, QueryOperation, QueryOrder};
use crate::sqltext::{dec_str, join_sep, str_views};

verus! {

/// The kind of trend analysis: within one table, or across two.
#[derive(Clone, Copy, Debug)]
pub enum TrendAnalysisType {
    IntraModel,
    CrossModel,
}

/// Order of the analysis series.
#[allow(non_camel_case_types)]
#[derive(Clone, Copy, Debug)]
pub enum TrendAnalysisOrder {
    DESC,
    ASC,
}

/// The SQL keyword of an order direction.
pub open spec fn order_keyword(o: TrendAnalysisOrder) -> Seq<char> {
    match o {
        TrendAnalysisOrder::DESC => "DESC"@,
        TrendAnalysisOrder::ASC => "ASC"@,
    }
}

impl TrendAnalysisOrder {
    /// The keyword this direction renders to in SQL text.
    pub fn sql_keyword(&self) -> (s: String)
        ensures
            s@ == order_keyword(*self),
    {
        match self {
            TrendAnalysisOrder::DESC => "DESC".to_owned(),
            TrendAnalysisOrder::ASC => "ASC".to_owned(),
        }
    }
}

/// The options a cross-model analysis additionally requires.
#[derive(Clone, Debug)]
pub struct CrossOptions {
    /// The foreign table we want to connect to.
    pub foreign_table: String,
    /// Column on the primary table that should be targeted by the
    /// dependent column of the foreign table.
    pub target_col: String,
}

/// A trend analysis request.
#[derive(Clone, Debug)]
pub struct TrendAnalysisOpts {
    /// The primary table to analyze.
    pub table: String,
    /// The kind of trend analysis to perform.
    pub analysis_type: TrendAnalysisType,
    /// The column holding the independent variable.
    pub xcol: String,
    /// The column holding the dependent variable. For a cross-model
    /// analysis, the column on the foreign table used as foreign key.
    pub ycol: String,
    /// Order of the analysis series.
    pub order: TrendAnalysisOrder,
    /// Limit of returned analysis rows.
    pub limit: usize,
    /// Required when the analysis kind is cross-model.
    pub cross: Option<CrossOptions>,
}

/// Whether `ob` orders by `col` in direction `ord`.
pub open spec fn order_by_matches(ob: Option<QueryOrder>, ord: TrendAnalysisOrder, col: Seq<char>) -> bool {
    match ord {
        TrendAnalysisOrder::DESC => ob matches Some(QueryOrder::DESC(c)) && c@ == col,
        TrendAnalysisOrder::ASC => ob matches Some(QueryOrder::ASC(c)) && c@ == col,
    }
}

/// How a compiled intra-model query relates to its intent: it selects
/// exactly the independent and dependent columns from the one table,
/// ordered on the dependent column, limited, with no join, filter,
/// grouping or having part.
pub open spec fn intra_query_of(opts: TrendAnalysisOpts, q: BasableQuery) -> bool {
    &&& q.table@ == opts.table@
    &&& (match q.operation {
        QueryOperation::SelectData(Some(cols)) => {
            &&& cols@.len() == 2
            &&& cols@[0]@ == opts.xcol@
            &&& cols@[1]@ == opts.ycol@
        },
        _ => false,
    })
    &&& q.row_count == Some(opts.limit)
    &&& q.offset is None
    &&& q.filters.filters@.len() == 0
    &&& q.left_join is None
    &&& q.group_by is None
    &&& q.having.filters@.len() == 0
    &&& order_by_matches(q.order_by, opts.order, opts.ycol@)
    &&& q.search_opts is None
}

/// How a compiled cross-model query relates to its intent: the
/// independent column is selected from the aliased primary table, a count
/// of the dependent column from the aliased foreign table, a left join
/// links the two, grouping is on the independent column, and a forced
/// having clause keeps only buckets whose count exceeds zero.
pub open spec fn cross_query_of(opts: TrendAnalysisOpts, q: BasableQuery) -> bool {
    match opts.cross {
        Some(c) => {
            &&& q.table@ == opts.table@ + " x"@
            &&& (match q.operation {
                QueryOperation::SelectData(Some(cols)) => {
                    &&& cols@.len() == 2
                    &&& cols@[0]@ == "x."@ + opts.xcol@ + " AS "@ + opts.xcol@
                    &&& cols@[1]@ == "COUNT(y."@ + opts.ycol@ + ") AS "@ + opts.ycol@
                },
                _ => false,
            })
            &&& q.left_join matches Some(j) && j@ == c.foreign_table@ + " y ON x."@
                + c.target_col@ + " = y."@ + opts.ycol@
            &&& q.group_by matches Some(g) && g@.len() == 1 && g@[0]@ == opts.xcol@
            &&& q.having.filters@.len() == 1
            &&& (match q.having.filters@[0] {
                Filter::BASE(fc) => fc.column@ == opts.ycol@ && (match fc.operator {
                    FilterOperator::Gt(v) => v@ == "0"@,
                    _ => false,
                }),
                _ => false,
            })
            &&& q.row_count == Some(opts.limit)
            &&& q.offset is None
            &&& q.filters.filters@.len() == 0
            &&& order_by_matches(q.order_by, opts.order, opts.ycol@)
            &&& q.search_opts is None
        },
        None => false,
    }
}

/// Everything of the cross-model SQL text before its having clause.
pub open spec fn cross_prefix_sql(opts: TrendAnalysisOpts, c: CrossOptions) -> Seq<char> {
    "SELECT "@ + "x."@ + opts.xcol@ + " AS "@ + opts.xcol@ + ", "@ + "COUNT(y."@ + opts.ycol@
        + ") AS "@ + opts.ycol@ + " FROM "@ + opts.table@ + " x"@ + " LEFT JOIN "@
        + c.foreign_table@ + " y ON x."@ + c.target_col@ + " = y."@ + opts.ycol@ + " GROUP BY "@
        + opts.xcol@
}

/// Everything of the cross-model SQL text after its having clause.
pub open spec fn cross_suffix_sql(opts: TrendAnalysisOpts) -> Seq<char> {
    " ORDER BY "@ + opts.ycol@ + " "@ + order_keyword(opts.order) + " LIMIT "@ + dec_str(
        opts.limit as nat,
    )
}

/// The forced having clause of a cross-model analysis: the dependent
/// aggregate count must exceed zero.
pub open spec fn cross_having_sql(opts: TrendAnalysisOpts) -> Seq<char> {
    " HAVING "@ + opts.ycol@ + " > 0"@
}

/// The exact SQL text an intra-model intent compiles to.
pub open spec fn intra_sql(opts: TrendAnalysisOpts) -> Seq<char> {
    "SELECT "@ + opts.xcol@ + ", "@ + opts.ycol@ + " FROM "@ + opts.table@ + " ORDER BY "@
        + opts.ycol@ + " "@ + order_keyword(opts.order) + " LIMIT "@ + dec_str(opts.limit as nat)
}

/// The exact SQL text a cross-model intent compiles to.
pub open spec fn cross_sql(opts: TrendAnalysisOpts) -> Seq<char> {
    match opts.cross {
        Some(c) => cross_prefix_sql(opts, c) + cross_having_sql(opts) + cross_suffix_sql(opts),
        None => Seq::empty(),
    }
}

/// The exact SQL text a trend intent compiles to, by its kind.
pub open spec fn trend_sql(opts: TrendAnalysisOpts) -> Seq<char> {
    match opts.analysis_type {
        TrendAnalysisType::IntraModel => intra_sql(opts),
        TrendAnalysisType::CrossModel => cross_sql(opts),
    }
}

impl TrendAnalysisOpts {
    /// Whether this intent can compile: a cross-model analysis demands
    /// its cross options.
    pub open spec fn compiles(self) -> bool {
        !(self.analysis_type matches TrendAnalysisType::CrossModel && self.cross is None)
    }

    /// Compiles the intent into a query model. A cross-model intent
    /// without its cross options is a request error, never a silent
    /// default.
    pub fn to_query(&self) -> (r: Result<BasableQuery, AppError>)
        ensures
            r is Ok <==> self.compiles(),
            r matches Err(e) ==> e.kind == ErrorKind::MissingRequiredOption,
            r matches Ok(q) ==> (match self.analysis_type {
                TrendAnalysisType::IntraModel => intra_query_of(*self, q),
                TrendAnalysisType::CrossModel => cross_query_of(*self, q),
            }),
    {
        match self.analysis_type {
            TrendAnalysisType::IntraModel => {
                let mut cols: Vec<String> = Vec::new();
                cols.push(self.xcol.clone());
                cols.push(self.ycol.clone());
                let operation = QueryOperation::SelectData(Some(cols));
                let order = match self.order {
                    TrendAnalysisOrder::DESC => QueryOrder::DESC(self.ycol.clone()),
                    TrendAnalysisOrder::ASC => QueryOrder::ASC(self.ycol.clone()),
                };
                let q = BasableQuery {
                    table: self.table.clone(),
                    operation,
                    order_by: Some(order),
                    row_count: Some(self.limit),
                    ..Default::default()
                };
                Ok(q)
            },
            TrendAnalysisType::CrossModel => match &self.cross {
                Some(cross) => {
                    let mut col_x = String::new();
                    col_x.append("x.");
                    col_x.append(self.xcol.as_str());
                    col_x.append(" AS ");
                    col_x.append(self.xcol.as_str());
                    let mut col_y = String::new();
                    col_y.append("COUNT(y.");
                    col_y.append(self.ycol.as_str());
                    col_y.append(") AS ");
                    col_y.append(self.ycol.as_str());
                    let mut cols: Vec<String> = Vec::new();
                    cols.push(col_x);
                    cols.push(col_y);
                    let operation = QueryOperation::SelectData(Some(cols));

                    let mut table = self.table.clone();
                    table.append(" x");

                    let mut left_join = String::new();
                    left_join.append(cross.foreign_table.as_str());
                    left_join.append(" y ON x.");
                    left_join.append(cross.target_col.as_str());
                    left_join.append(" = y.");
                    left_join.append(self.ycol.as_str());

                    let mut group_by: Vec<String> = Vec::new();
                    group_by.push(self.xcol.clone());

                    let mut having = FilterChain::new();
                    having.add_one(
                        Filter::BASE(
                            FilterCondition {
                                column: self.ycol.clone(),
                                operator: FilterOperator::Gt("0".to_owned()),
                            },
                        ),
                    );

                    let order = match self.order {
                        TrendAnalysisOrder::DESC => QueryOrder::DESC(self.ycol.clone()),
                        TrendAnalysisOrder::ASC => QueryOrder::ASC(self.ycol.clone()),
                    };

                    let q = BasableQuery {
                        operation,
                        having,
                        table,
                        left_join: Some(left_join),
                        group_by: Some(group_by),
                        order_by: Some(order),
                        row_count: Some(self.limit),
                        ..Default::default()
                    };
                    Ok(q)
                },
                None => Err(AppError::missing_option("You must provide cross model options.")),
            },
        }
    }

    /// Compiles the intent and renders it to its SQL text.
    pub fn build_query(&self) -> (r: Result<String, AppError>)
        ensures
            r is Ok <==> self.compiles(),
            r matches Err(e) ==> e.kind == ErrorKind::MissingRequiredOption,
            r matches Ok(s) ==> s@ == trend_sql(*self),
    {
        let q = match self.to_query() {
            Ok(q) => q,
            Err(e) => {
                return Err(e);
            },
        };
        let s = q.sql_text();
        proof {
            match self.analysis_type {
                TrendAnalysisType::IntraModel => {
                    lemma_intra_query_sql(*self, q);
                },
                TrendAnalysisType::CrossModel => {
                    lemma_cross_query_sql(*self, q);
                },
            }
        }
        Ok(s)
    }
}

/// An intra-model query model renders to exactly the intra-model SQL text.
#[verifier::rlimit(100)]
#[verifier::spinoff_prover]
pub proof fn lemma_intra_query_sql(opts: TrendAnalysisOpts, q: BasableQuery)
    requires
        intra_query_of(opts, q),
    ensures
        query_sql(q) == intra_sql(opts),
{
    let cols = (match q.operation {
        QueryOperation::SelectData(Some(cols)) => cols,
        _ => arbitrary(),
    });
    let vs = str_views(cols@);
    assert(vs.len() == 2);
    assert(vs[0] == opts.xcol@ && vs[1] == opts.ycol@);
    let single = seq![vs[0]];
    assert(vs.drop_last() =~= single);
    assert(join_sep(single, ", "@) == single[0]);
    assert(join_sep(vs, ", "@) == join_sep(vs.drop_last(), ", "@) + ", "@ + vs.last());
    assert(join_sep(vs, ", "@) == vs[0] + ", "@ + vs[1]);
    match q.order_by {
        Some(o) => {
            reveal_strlit(" ASC");
            reveal_strlit(" DESC");
            reveal_strlit(" ");
            reveal_strlit("ASC");
            reveal_strlit("DESC");
            assert(crate::query::order_sql(o) =~= " ORDER BY "@ + opts.ycol@ + " "@
                + order_keyword(opts.order));
        },
        None => {
            assert(false);
        },
    }
    assert(query_sql(q) =~= intra_sql(opts));
}

/// A cross-model query model renders to exactly the cross-model SQL text.
#[verifier::rlimit(100)]
#[verifier::spinoff_prover]
pub proof fn lemma_cross_query_sql(opts: TrendAnalysisOpts, q: BasableQuery)
    requires
        cross_query_of(opts, q),
    ensures
        query_sql(q) == cross_sql(opts),
{
    let c = opts.cross.unwrap();
    let cols = (match q.operation {
        QueryOperation::SelectData(Some(cols)) => cols,
        _ => arbitrary(),
    });
    let vs = str_views(cols@);
    assert(vs.len() == 2);
    assert(vs[0] == cols@[0]@ && vs[1] == cols@[1]@);
    let single = seq![vs[0]];
    assert(vs.drop_last() =~= single);
    assert(join_sep(single, ", "@) == single[0]);
    assert(join_sep(vs, ", "@) == join_sep(vs.drop_last(), ", "@) + ", "@ + vs.last());
    assert(join_sep(vs, ", "@) == vs[0] + ", "@ + vs[1]);
    let g = q.group_by.unwrap();
    assert(str_views(g@) =~= seq![opts.xcol@]);
    assert(join_sep(str_views(g@), ", "@) == opts.xcol@);
    // the having chain of one condition renders to `<ycol> > 0`
    let fs = q.having.filters@;
    assert(fs.drop_last() =~= Seq::<Filter>::empty());
    assert(chain_sql(Seq::<Filter>::empty()) == Seq::<char>::empty());
    assert(chain_sql(fs) == chain_sql(fs.drop_last()) + filter_sql(fs.last(), true));
    assert(Seq::<char>::empty() + filter_sql(fs[0], true) =~= filter_sql(fs[0], true));
    assert(chain_sql(fs) == filter_sql(fs[0], true));
    match fs[0] {
        Filter::BASE(fc) => {
            assert(filter_sql(fs[0], true) == cond_sql(fc));
            reveal_strlit(" > ");
            reveal_strlit("0");
            reveal_strlit(" > 0");
            assert(cond_sql(fc) =~= opts.ycol@ + " > 0"@);
        },
        _ => {
            assert(false);
        },
    }
    match q.order_by {
        Some(o) => {
            reveal_strlit(" ASC");
            reveal_strlit(" DESC");
            reveal_strlit(" ");
            reveal_strlit("ASC");
            reveal_strlit("DESC");
            assert(crate::query::order_sql(o) =~= " ORDER BY "@ + opts.ycol@ + " "@
                + order_keyword(opts.order));
        },
        None => {
            assert(false);
        },
    }
    assert(query_sql(q) =~= cross_sql(opts));
}

/// Law: the SQL a cross-model intent compiles to always carries a having
/// clause demanding the dependent aggregate count exceed zero, whatever
/// the rest of the intent holds.
pub proof fn lemma_cross_sql_has_having(opts: TrendAnalysisOpts)
    requires
        opts.analysis_type matches TrendAnalysisType::CrossModel,
        opts.cross is Some,
    ensures
        trend_sql(opts) == cross_prefix_sql(opts, opts.cross.unwrap()) + (" HAVING "@
            + opts.ycol@ + " > 0"@) + cross_suffix_sql(opts),
{
}

/// Law: compiling the same trend intent twice yields the same SQL text;
/// compilation has no observable side effect.
pub proof fn lemma_trend_compile_idempotent(opts: TrendAnalysisOpts, s1: Seq<char>, s2: Seq<char>)
    requires
        s1 == trend_sql(opts),
        s2 == trend_sql(opts),
    ensures
        s1 == s2,
{
}

} // verus!
