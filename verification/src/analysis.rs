//! The result value model of the analytical queries, the chrono and
//! category intents with their SQL text, and the marshaling of raw rows
//! into typed result series.

use vstd::prelude::*;
use crate::error::AppError;
use crate::row::{CellValue, DataRow, SimpleDate, date_text};
use crate::sqltext::{dec_str, push_u64};
use crate::trend::TrendAnalysisType;

verus! {

/// A semantic axis value: the closed set analytical results are marshaled
/// into, chosen per analysis kind, not per raw driver type. A
/// double-precision value is carried by its IEEE-754 bit pattern.
#[derive(Clone, Debug)]
pub enum AnalysisValue {
    Date(SimpleDate),
    UInt(u64),
    Double(u64),
    Text(String),
}

/// One analysis point: exactly one independent-axis value paired with one
/// dependent-axis value.
#[derive(Clone, Debug)]
pub struct AnalysisResult {
    pub x: AnalysisValue,
    pub y: AnalysisValue,
}

impl AnalysisResult {
    /// Pairs an independent-axis value with a dependent-axis value.
    pub fn new(x: AnalysisValue, y: AnalysisValue) -> (r: AnalysisResult)
        ensures
            r.x == x,
            r.y == y,
    {
        AnalysisResult { x, y }
    }
}

/// An ordered analysis series, in row order.
pub type AnalysisResults = Vec<AnalysisResult>;

/// Time-bucket granularities of a chrono analysis, each rendering to the
/// SQL date function of its name.
#[derive(Clone, Copy, Debug, PartialEq, Eq, Structural)]
pub enum ChronoAnalysisBasis {
    Daily,
    Monthly,
    Yearly,
}

/// The bucketing function a basis renders to.
pub open spec fn basis_fn_sql(b: ChronoAnalysisBasis) -> Seq<char> {
    match b {
        ChronoAnalysisBasis::Daily => "DATE"@,
        ChronoAnalysisBasis::Monthly => "MONTH"@,
        ChronoAnalysisBasis::Yearly => "YEAR"@,
    }
}

/// An inclusive date range.
#[derive(Clone, Copy, Debug)]
pub struct ChronoAnalysisRange {
    pub start: SimpleDate,
    pub end: SimpleDate,
}

impl ChronoAnalysisRange {
    /// The inclusive start of the range.
    pub fn start(&self) -> (d: SimpleDate)
        ensures
            d == self.start,
    {
        self.start
    }

    /// The inclusive end of the range.
    pub fn end(&self) -> (d: SimpleDate)
        ensures
            d == self.end,
    {
        self.end
    }
}

/// A chrono analysis request: rows of one table bucketed over a date
/// column at a fixed granularity, within an inclusive date range.
#[derive(Clone, Debug)]
pub struct ChronoAnalysisOpts {
    pub table: String,
    pub chrono_col: String,
    pub basis: ChronoAnalysisBasis,
    pub range: ChronoAnalysisRange,
}

/// The exact SQL text a chrono intent compiles to. The two result-column
/// aliases are fixed, engine-internal names, so the marshaling layer can
/// locate them regardless of source column naming.
pub open spec fn chrono_sql(o: ChronoAnalysisOpts) -> Seq<char> {
    "SELECT "@ + basis_fn_sql(o.basis) + "("@ + o.chrono_col@ + ") AS "@
        + "BASABLE_CHRONO_BASIS_VALUE"@ + ", "@ + "COUNT(*) AS "@ + "BASABLE_CHRONO_RESULT"@
        + " FROM "@ + o.table@ + " WHERE "@ + o.chrono_col@ + " BETWEEN '"@ + date_text(
        o.range.start,
    ) + "' AND '"@ + date_text(o.range.end) + "'"@ + " GROUP BY "@ + basis_fn_sql(o.basis) + "("@
        + o.chrono_col@ + ")"@ + " ORDER BY "@ + "BASABLE_CHRONO_BASIS_VALUE"@
}

/// Appends the bucketing function's name.
fn push_basis_fn(out: &mut String, b: &ChronoAnalysisBasis)
    ensures
        final(out)@ == old(out)@ + basis_fn_sql(*b),
{
    match b {
        ChronoAnalysisBasis::Daily => out.append("DATE"),
        ChronoAnalysisBasis::Monthly => out.append("MONTH"),
        ChronoAnalysisBasis::Yearly => out.append("YEAR"),
    }
}

impl ChronoAnalysisOpts {
    /// Compiles the intent directly to SQL text: the bucketing expression
    /// is a function call applied to a column, so this path bypasses the
    /// structured query model.
    pub fn build_query(&self) -> (s: String)
        ensures
            s@ == chrono_sql(*self),
    {
        let mut out = String::new();
        out.append("SELECT ");
        push_basis_fn(&mut out, &self.basis);
        out.append("(");
        out.append(self.chrono_col.as_str());
        out.append(") AS ");
        out.append("BASABLE_CHRONO_BASIS_VALUE");
        out.append(", ");
        out.append("COUNT(*) AS ");
        out.append("BASABLE_CHRONO_RESULT");
        out.append(" FROM ");
        out.append(self.table.as_str());
        out.append(" WHERE ");
        out.append(self.chrono_col.as_str());
        out.append(" BETWEEN '");
        let start_text = self.range.start().render();
        out.append(start_text.as_str());
        out.append("' AND '");
        let end_text = self.range.end().render();
        out.append(end_text.as_str());
        out.append("'");
        out.append(" GROUP BY ");
        push_basis_fn(&mut out, &self.basis);
        out.append("(");
        out.append(self.chrono_col.as_str());
        out.append(")");
        out.append(" ORDER BY ");
        out.append("BASABLE_CHRONO_BASIS_VALUE");
        proof {
            assert(out@ =~= chrono_sql(*self));
        }
        out
    }
}

/// The rendering hint a category analysis carries for the front end.
#[derive(Clone, Copy, Debug, PartialEq, Eq, Structural)]
pub enum CategoryGraphType {
    Bar,
    Pie,
}

/// A category analysis request: row counts of one table grouped by the
/// values of a target column.
#[derive(Clone, Debug)]
pub struct CategoryGraphOpts {
    pub table: String,
    pub graph_type: CategoryGraphType,
    pub target_col: String,
    pub limit: usize,
}

/// The exact SQL text a category intent compiles to.
pub open spec fn category_sql(o: CategoryGraphOpts) -> Seq<char> {
    "SELECT COUNT(*) AS COUNT, "@ + o.target_col@ + " FROM "@ + o.table@ + " GROUP BY "@
        + o.target_col@ + " LIMIT "@ + dec_str(o.limit as nat)
}

impl CategoryGraphOpts {
    /// Compiles the intent directly to SQL text.
    pub fn build_query(&self) -> (s: String)
        ensures
            s@ == category_sql(*self),
    {
        let mut out = String::new();
        out.append("SELECT COUNT(*) AS COUNT, ");
        out.append(self.target_col.as_str());
        out.append(" FROM ");
        out.append(self.table.as_str());
        out.append(" GROUP BY ");
        out.append(self.target_col.as_str());
        out.append(" LIMIT ");
        push_u64(&mut out, self.limit as u64);
        proof {
            assert(out@ =~= category_sql(*self));
        }
        out
    }
}

/// The unsigned reading of a cell, where it has one.
pub open spec fn cell_as_u64(c: CellValue) -> Option<u64> {
    match c {
        CellValue::UInt(u) => Some(u),
        CellValue::Int(i) => if i >= 0 {
            Some(i as u64)
        } else {
            None
        },
        _ => None,
    }
}

/// Reads a cell as an unsigned integer, where it holds one.
pub fn read_cell_u64(c: &CellValue) -> (r: Option<u64>)
    ensures
        r == cell_as_u64(*c),
{
    match c {
        CellValue::UInt(u) => Some(*u),
        CellValue::Int(i) => if *i >= 0 {
            Some(*i as u64)
        } else {
            None
        },
        _ => None,
    }
}

/// The analysis point a trend row yields, where its cells can be typed
/// for the analysis kind: the independent axis is the text of the
/// independent column; the dependent axis is the float of the dependent
/// column for an intra-model analysis, and its unsigned count for a
/// cross-model one.
pub open spec fn trend_point_of(
    kind: TrendAnalysisType,
    xcol: Seq<char>,
    ycol: Seq<char>,
    row: DataRow,
) -> Option<AnalysisResult> {
    match row.lookup(xcol) {
        Some(CellValue::Text(s)) => match kind {
            TrendAnalysisType::IntraModel => match row.lookup(ycol) {
                Some(CellValue::Float(b)) => Some(
                    AnalysisResult { x: AnalysisValue::Text(s), y: AnalysisValue::Double(b) },
                ),
                _ => None,
            },
            TrendAnalysisType::CrossModel => match row.lookup(ycol) {
                Some(c) => match cell_as_u64(c) {
                    Some(u) => Some(
                        AnalysisResult { x: AnalysisValue::Text(s), y: AnalysisValue::UInt(u) },
                    ),
                    None => None,
                },
                None => None,
            },
        },
        _ => None,
    }
}

/// Maps trend rows into an analysis series, in row order: each row's
/// independent text and kind-typed dependent value, or a driver error on
/// the first row that cannot be typed.
pub fn marshal_trend_rows(
    kind: TrendAnalysisType,
    xcol: &String,
    ycol: &String,
    rows: &Vec<DataRow>,
) -> (r: Result<AnalysisResults, AppError>)
    ensures
        r matches Ok(res) ==> res@.len() == rows@.len() && forall|i: int|
            0 <= i < rows@.len() ==> #[trigger] trend_point_of(kind, xcol@, ycol@, rows@[i])
                == Some(res@[i]),
        r is Err ==> exists|i: int|
            0 <= i < rows@.len() && #[trigger] trend_point_of(kind, xcol@, ycol@, rows@[i])
                is None,
{
    let mut res: Vec<AnalysisResult> = Vec::new();
    let mut i: usize = 0;
    while i < rows.len()
        invariant
            0 <= i <= rows@.len(),
            res@.len() == i,
            forall|j: int|
                0 <= j < i ==> #[trigger] trend_point_of(kind, xcol@, ycol@, rows@[j]) == Some(
                    res@[j],
                ),
        decreases rows@.len() - i,
    {
        let row = &rows[i];
        let x = match row.get(xcol) {
            Some(CellValue::Text(s)) => AnalysisValue::Text(s.clone()),
            _ => {
                proof {
                    assert(trend_point_of(kind, xcol@, ycol@, rows@[i as int]) is None);
                }
                return Err(AppError::driver("unexpected independent value in trend row"));
            },
        };
        let y = match kind {
            TrendAnalysisType::IntraModel => match row.get(ycol) {
                Some(CellValue::Float(b)) => AnalysisValue::Double(*b),
                _ => {
                    proof {
                        assert(trend_point_of(kind, xcol@, ycol@, rows@[i as int]) is None);
                    }
                    return Err(AppError::driver("unexpected dependent value in trend row"));
                },
            },
            TrendAnalysisType::CrossModel => {
                let c = match row.get(ycol) {
                    Some(c) => c,
                    None => {
                        proof {
                            assert(trend_point_of(kind, xcol@, ycol@, rows@[i as int]) is None);
                        }
                        return Err(AppError::driver("missing dependent value in trend row"));
                    },
                };
                match read_cell_u64(c) {
                    Some(u) => AnalysisValue::UInt(u),
                    None => {
                        proof {
                            assert(trend_point_of(kind, xcol@, ycol@, rows@[i as int]) is None);
                        }
                        return Err(AppError::driver("unexpected dependent value in trend row"));
                    },
                }
            },
        };
        res.push(AnalysisResult { x, y });
        i = i + 1;
    }
    Ok(res)
}

/// The analysis point a chrono row yields, where its cells can be typed
/// for the basis: the bucket value (a date for the daily basis, an
/// unsigned integer for any other) paired with the bucket's count.
pub open spec fn chrono_point_of(basis: ChronoAnalysisBasis, row: DataRow) -> Option<
    AnalysisResult,
> {
    match row.lookup("BASABLE_CHRONO_BASIS_VALUE"@) {
        Some(xc) => match row.lookup("BASABLE_CHRONO_RESULT"@) {
            Some(yc) => match cell_as_u64(yc) {
                Some(u) => match basis {
                    ChronoAnalysisBasis::Daily => match xc {
                        CellValue::Date(d) => Some(
                            AnalysisResult {
                                x: AnalysisValue::Date(d),
                                y: AnalysisValue::UInt(u),
                            },
                        ),
                        _ => None,
                    },
                    _ => match cell_as_u64(xc) {
                        Some(xu) => Some(
                            AnalysisResult {
                                x: AnalysisValue::UInt(xu),
                                y: AnalysisValue::UInt(u),
                            },
                        ),
                        None => None,
                    },
                },
                None => None,
            },
            None => None,
        },
        None => None,
    }
}

/// Maps chrono rows into an analysis series, in row order, typing the
/// bucket value by the basis, or a driver error on the first row that
/// cannot be typed.
pub fn marshal_chrono_rows(basis: ChronoAnalysisBasis, rows: &Vec<DataRow>) -> (r: Result<
    AnalysisResults,
    AppError,
>)
    ensures
        r matches Ok(res) ==> res@.len() == rows@.len() && forall|i: int|
            0 <= i < rows@.len() ==> #[trigger] chrono_point_of(basis, rows@[i]) == Some(res@[i]),
        r is Err ==> exists|i: int|
            0 <= i < rows@.len() && #[trigger] chrono_point_of(basis, rows@[i]) is None,
{
    let xname: String = "BASABLE_CHRONO_BASIS_VALUE".to_owned();
    let yname: String = "BASABLE_CHRONO_RESULT".to_owned();
    let mut res: Vec<AnalysisResult> = Vec::new();
    let mut i: usize = 0;
    while i < rows.len()
        invariant
            xname@ == "BASABLE_CHRONO_BASIS_VALUE"@,
            yname@ == "BASABLE_CHRONO_RESULT"@,
            0 <= i <= rows@.len(),
            res@.len() == i,
            forall|j: int|
                0 <= j < i ==> #[trigger] chrono_point_of(basis, rows@[j]) == Some(res@[j]),
        decreases rows@.len() - i,
    {
        let row = &rows[i];
        let xc = match row.get(&xname) {
            Some(c) => c,
            None => {
                proof {
                    assert(chrono_point_of(basis, rows@[i as int]) is None);
                }
                return Err(AppError::driver("missing bucket value in chrono row"));
            },
        };
        let y = match row.get(&yname) {
            Some(c) => match read_cell_u64(c) {
                Some(u) => AnalysisValue::UInt(u),
                None => {
                    proof {
                    assert(chrono_point_of(basis, rows@[i as int]) is None);
                }
                return Err(AppError::driver("unexpected bucket count in chrono row"));
                },
            },
            None => {
                proof {
                    assert(chrono_point_of(basis, rows@[i as int]) is None);
                }
                return Err(AppError::driver("missing bucket count in chrono row"));
            },
        };
        let x = match basis {
            ChronoAnalysisBasis::Daily => match xc {
                CellValue::Date(d) => AnalysisValue::Date(*d),
                _ => {
                    proof {
                    assert(chrono_point_of(basis, rows@[i as int]) is None);
                }
                return Err(AppError::driver("unexpected bucket value in chrono row"));
                },
            },
            _ => match read_cell_u64(xc) {
                Some(xu) => AnalysisValue::UInt(xu),
                None => {
                    proof {
                    assert(chrono_point_of(basis, rows@[i as int]) is None);
                }
                return Err(AppError::driver("unexpected bucket value in chrono row"));
                },
            },
        };
        res.push(AnalysisResult { x, y });
        i = i + 1;
    }
    Ok(res)
}

/// How one cell is read as a semantic value when no analysis kind fixes
/// the variant: each raw shape maps to the nearest semantic one, a null
/// to empty text and a negative integer to its decimal text.
pub open spec fn cell_value_matches(c: CellValue, v: AnalysisValue) -> bool {
    match c {
        CellValue::Null => v matches AnalysisValue::Text(s) && s@ == Seq::<char>::empty(),
        CellValue::UInt(u) => v == AnalysisValue::UInt(u),
        CellValue::Int(i) => if i >= 0 {
            v == AnalysisValue::UInt(i as u64)
        } else {
            v matches AnalysisValue::Text(s) && s@ == "-"@ + dec_str((-(i as int)) as nat)
        },
        CellValue::Float(b) => v == AnalysisValue::Double(b),
        CellValue::Text(t) => v matches AnalysisValue::Text(s) && s@ == t@,
        CellValue::Date(d) => v == AnalysisValue::Date(d),
    }
}

/// Reads one cell as a semantic value, with no analysis kind fixing the
/// variant.
pub fn read_cell_value(c: &CellValue) -> (v: AnalysisValue)
    ensures
        cell_value_matches(*c, v),
{
    match c {
        CellValue::Null => AnalysisValue::Text(String::new()),
        CellValue::UInt(u) => AnalysisValue::UInt(*u),
        CellValue::Int(i) => if *i >= 0 {
            AnalysisValue::UInt(*i as u64)
        } else {
            let mut s = String::new();
            s.append("-");
            let wide: i128 = -(*i as i128);
            let m: u64 = wide as u64;
            proof {
                assert(m == -(*i as int));
            }
            push_u64(&mut s, m);
            proof {
                assert(s@ =~= "-"@ + dec_str((-(*i as int)) as nat));
            }
            AnalysisValue::Text(s)
        },
        CellValue::Float(b) => AnalysisValue::Double(*b),
        CellValue::Text(t) => AnalysisValue::Text(t.clone()),
        CellValue::Date(d) => AnalysisValue::Date(*d),
    }
}

/// Whether a category row carries everything a point needs.
pub open spec fn category_row_ok(target: Seq<char>, row: DataRow) -> bool {
    &&& (match row.lookup("COUNT"@) {
        Some(c) => cell_as_u64(c) is Some,
        None => false,
    })
    &&& row.lookup(target) is Some
}

/// The analysis point a category row yields: the group's count on the
/// independent axis, and the grouped value, read semantically, on the
/// dependent axis.
pub open spec fn category_point_of(target: Seq<char>, row: DataRow, p: AnalysisResult) -> bool {
    &&& (match row.lookup("COUNT"@) {
        Some(c) => p.x matches AnalysisValue::UInt(u) && cell_as_u64(c) == Some(u),
        None => false,
    })
    &&& (match row.lookup(target) {
        Some(c) => cell_value_matches(c, p.y),
        None => false,
    })
}

/// Maps category rows into an analysis series, in row order, or a driver
/// error on the first row without a readable count or target value.
pub fn marshal_category_rows(target: &String, rows: &Vec<DataRow>) -> (r: Result<
    AnalysisResults,
    AppError,
>)
    ensures
        r matches Ok(res) ==> res@.len() == rows@.len() && forall|i: int|
            0 <= i < rows@.len() ==> #[trigger] category_point_of(target@, rows@[i], res@[i]),
        r is Err ==> exists|i: int|
            0 <= i < rows@.len() && !(#[trigger] category_row_ok(target@, rows@[i])),
{
    let count_name: String = "COUNT".to_owned();
    let mut res: Vec<AnalysisResult> = Vec::new();
    let mut i: usize = 0;
    while i < rows.len()
        invariant
            count_name@ == "COUNT"@,
            0 <= i <= rows@.len(),
            res@.len() == i,
            forall|j: int|
                0 <= j < i ==> #[trigger] category_point_of(target@, rows@[j], res@[j]),
        decreases rows@.len() - i,
    {
        let row = &rows[i];
        let x = match row.get(&count_name) {
            Some(c) => match read_cell_u64(c) {
                Some(u) => AnalysisValue::UInt(u),
                None => {
                    proof {
                    assert(!category_row_ok(target@, rows@[i as int]));
                }
                return Err(AppError::driver("unexpected group count in category row"));
                },
            },
            None => {
                proof {
                    assert(!category_row_ok(target@, rows@[i as int]));
                }
                return Err(AppError::driver("missing group count in category row"));
            },
        };
        let y = match row.get(target) {
            Some(c) => read_cell_value(c),
            None => {
                proof {
                    assert(!category_row_ok(target@, rows@[i as int]));
                }
                return Err(AppError::driver("missing target value in category row"));
            },
        };
        res.push(AnalysisResult { x, y });
        i = i + 1;
    }
    Ok(res)
}

/// Law: within one trend series the dependent-axis variant is fixed by
/// the analysis kind alone — the float variant for an intra-model
/// analysis, the unsigned-integer variant for a cross-model one — for
/// every row a backend could hand back.
pub proof fn lemma_trend_dependent_axis_variant(
    kind: TrendAnalysisType,
    xcol: Seq<char>,
    ycol: Seq<char>,
    row: DataRow,
    p: AnalysisResult,
)
    requires
        trend_point_of(kind, xcol, ycol, row) == Some(p),
    ensures
        p.x is Text,
        match kind {
            TrendAnalysisType::IntraModel => p.y is Double,
            TrendAnalysisType::CrossModel => p.y is UInt,
        },
{
}

/// Law: within one chrono series the independent-axis variant is fixed
/// by the basis alone — the date variant for the daily basis, the
/// unsigned-integer variant for any other — and the dependent axis is
/// always the unsigned count, for every row a backend could hand back.
pub proof fn lemma_chrono_axis_variants(basis: ChronoAnalysisBasis, row: DataRow, p: AnalysisResult)
    requires
        chrono_point_of(basis, row) == Some(p),
    ensures
        basis matches ChronoAnalysisBasis::Daily ==> p.x is Date,
        !(basis matches ChronoAnalysisBasis::Daily) ==> p.x is UInt,
        p.y is UInt,
{
}

} // verus!
