//! The analytical execution layer: one operation per analysis kind, each
//! compiling its intent, executing it through a backend connector, and
//! typing the returned rows by the kind-specific rule.

use vstd::prelude::*;
use crate::analysis::{
    category_point_of, chrono_point_of, lemma_chrono_axis_variants,
    lemma_trend_dependent_axis_variant, marshal_category_rows, marshal_chrono_rows,
    marshal_trend_rows, AnalysisResult, AnalysisResults, CategoryGraphOpts, ChronoAnalysisBasis,
    ChronoAnalysisOpts,
};
use crate::backend::BackendConnector;
use crate::error::{AppError, ErrorKind};
use crate::trend::{TrendAnalysisOpts, TrendAnalysisType};

verus! {

/// The axis-variant rule of a trend series: every independent value is
/// text, and every dependent value is the float variant for an
/// intra-model analysis and the unsigned-integer variant for a
/// cross-model one.
pub open spec fn trend_series_typed(kind: TrendAnalysisType, res: Seq<AnalysisResult>) -> bool {
    forall|i: int|
        0 <= i < res.len() ==> (#[trigger] res[i]).x is Text && (match kind {
            TrendAnalysisType::IntraModel => res[i].y is Double,
            TrendAnalysisType::CrossModel => res[i].y is UInt,
        })
}

/// The axis-variant rule of a chrono series: every independent value is
/// the date variant under the daily basis and the unsigned-integer
/// variant under any other, and every dependent value is the unsigned
/// count.
pub open spec fn chrono_series_typed(basis: ChronoAnalysisBasis, res: Seq<AnalysisResult>) -> bool {
    forall|i: int|
        0 <= i < res.len() ==> ((basis matches ChronoAnalysisBasis::Daily ==> (#[trigger] res[i]).x
            is Date) && (!(basis matches ChronoAnalysisBasis::Daily) ==> res[i].x is UInt) && res[
            i
        ].y is UInt)
}

/// The axis-variant rule of a category series: every independent value
/// is the unsigned group count.
pub open spec fn category_series_typed(res: Seq<AnalysisResult>) -> bool {
    forall|i: int| 0 <= i < res.len() ==> (#[trigger] res[i]).x is UInt
}

/// Executes a trend analysis: compiles the intent, executes the SQL, and
/// types each returned row for the analysis kind. A compile failure is
/// translated into the driver-error channel, so callers see one error
/// channel regardless of which path produced the failure.
pub fn trend_graph<C: BackendConnector>(conn: &C, opts: &TrendAnalysisOpts) -> (r: Result<
    AnalysisResults,
    AppError,
>)
    ensures
        !opts.compiles() ==> (r matches Err(e) && e.kind == ErrorKind::DriverError),
        r matches Ok(res) ==> trend_series_typed(opts.analysis_type, res@),
{
    let sql = match opts.build_query() {
        Ok(s) => s,
        Err(_) => {
            return Err(AppError::driver("could not build the trend analysis query"));
        },
    };
    let rows = match conn.exec_query(sql.as_str()) {
        Ok(r) => r,
        Err(e) => {
            return Err(e);
        },
    };
    let res = match marshal_trend_rows(opts.analysis_type, &opts.xcol, &opts.ycol, &rows) {
        Ok(r) => r,
        Err(e) => {
            return Err(e);
        },
    };
    proof {
        assert forall|i: int| 0 <= i < res@.len() implies (#[trigger] res@[i]).x is Text && (
        match opts.analysis_type {
            TrendAnalysisType::IntraModel => res@[i].y is Double,
            TrendAnalysisType::CrossModel => res@[i].y is UInt,
        }) by {
            lemma_trend_dependent_axis_variant(
                opts.analysis_type,
                opts.xcol@,
                opts.ycol@,
                rows@[i],
                res@[i],
            );
        }
    }
    Ok(res)
}

/// Executes a chrono analysis: compiles the intent (this path never
/// fails to compile), executes the SQL, and types each returned row by
/// the basis.
pub fn chrono_graph<C: BackendConnector>(conn: &C, opts: &ChronoAnalysisOpts) -> (r: Result<
    AnalysisResults,
    AppError,
>)
    ensures
        r matches Ok(res) ==> chrono_series_typed(opts.basis, res@),
{
    let sql = opts.build_query();
    let rows = match conn.exec_query(sql.as_str()) {
        Ok(r) => r,
        Err(e) => {
            return Err(e);
        },
    };
    let res = match marshal_chrono_rows(opts.basis, &rows) {
        Ok(r) => r,
        Err(e) => {
            return Err(e);
        },
    };
    proof {
        assert forall|i: int| 0 <= i < res@.len() implies ((opts.basis
            matches ChronoAnalysisBasis::Daily ==> (#[trigger] res@[i]).x is Date) && (!(opts.basis
            matches ChronoAnalysisBasis::Daily) ==> res@[i].x is UInt) && res@[i].y is UInt) by {
            lemma_chrono_axis_variants(opts.basis, rows@[i], res@[i]);
        }
    }
    Ok(res)
}

/// Executes a category analysis: compiles the intent (this path never
/// fails to compile), executes the SQL, and pairs each group's count
/// with its semantically read value.
pub fn category_graph<C: BackendConnector>(conn: &C, opts: &CategoryGraphOpts) -> (r: Result<
    AnalysisResults,
    AppError,
>)
    ensures
        r matches Ok(res) ==> category_series_typed(res@),
{
    let sql = opts.build_query();
    let rows = match conn.exec_query(sql.as_str()) {
        Ok(r) => r,
        Err(e) => {
            return Err(e);
        },
    };
    let res = match marshal_category_rows(&opts.target_col, &rows) {
        Ok(r) => r,
        Err(e) => {
            return Err(e);
        },
    };
    proof {
        assert forall|i: int| 0 <= i < res@.len() implies (#[trigger] res@[i]).x is UInt by {
            assert(category_point_of(opts.target_col@, rows@[i], res@[i]));
        }
    }
    Ok(res)
}

} // verus!
