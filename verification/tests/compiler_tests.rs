use basable_query::error::ErrorKind;
use basable_query::filter::{Filter, FilterCondition, FilterOperator};
use basable_query::query::QueryOrder;
use basable_query::table::{TableConfig, TableExportFormat, TableQueryOpts, TableSearchOpts};
use basable_query::trend::{
    CrossOptions, TrendAnalysisOpts, TrendAnalysisOrder, TrendAnalysisType,
};
use basable_query::analysis::{
    CategoryGraphOpts, CategoryGraphType, ChronoAnalysisBasis, ChronoAnalysisOpts,
    ChronoAnalysisRange,
};
use basable_query::row::SimpleDate;

fn plain_browse(table: &str, offset: usize, row_count: usize) -> TableQueryOpts {
    TableQueryOpts {
        table: table.to_string(),
        offset,
        row_count,
        filters: None,
        columns: None,
        order_by: None,
        search_opts: None,
    }
}

fn cross_trend() -> TrendAnalysisOpts {
    TrendAnalysisOpts {
        table: "users".to_string(),
        analysis_type: TrendAnalysisType::CrossModel,
        xcol: "country".to_string(),
        ycol: "order_id".to_string(),
        order: TrendAnalysisOrder::DESC,
        limit: 10,
        cross: Some(CrossOptions {
            foreign_table: "orders".to_string(),
            target_col: "id".to_string(),
        }),
    }
}

#[test]
fn plain_browse_selects_all_columns() {
    let q = plain_browse("orders", 0, 20).to_query().unwrap();
    assert!(q.group_by.is_none());
    assert!(q.left_join.is_none());
    assert_eq!(q.having.filters.len(), 0);
    assert_eq!(q.filters.filters.len(), 0);
    assert_eq!(q.row_count, Some(20));
    assert_eq!(q.offset, Some(0));
    assert_eq!(q.sql_text(), "SELECT * FROM orders LIMIT 20 OFFSET 0");
}

#[test]
fn browse_with_columns_filters_order_and_search() {
    let opts = TableQueryOpts {
        table: "people".to_string(),
        offset: 40,
        row_count: 5,
        filters: Some(vec![
            Filter::BASE(FilterCondition {
                column: "age".to_string(),
                operator: FilterOperator::Gt("30".to_string()),
            }),
            Filter::OR(FilterCondition {
                column: "city".to_string(),
                operator: FilterOperator::Equals("'Lagos'".to_string()),
            }),
        ]),
        columns: Some(vec!["name".to_string(), "age".to_string()]),
        order_by: Some(QueryOrder::ASC("age".to_string())),
        search_opts: Some(TableSearchOpts {
            search_cols: vec!["name".to_string(), "city".to_string()],
            query: "o'brien".to_string(),
        }),
    };
    let q = opts.to_query().unwrap();
    assert_eq!(
        q.sql_text(),
        "SELECT name, age FROM people WHERE age > 30 OR city = 'Lagos' AND \
         (name LIKE '%o''brien%' OR city LIKE '%o''brien%') \
         ORDER BY age ASC LIMIT 5 OFFSET 40"
    );
}

#[test]
fn search_mode_follows_search_opts() {
    let plain = plain_browse("t", 0, 1);
    assert!(!plain.is_search_mode());
    let mut searched = plain_browse("t", 0, 1);
    searched.search_opts = Some(TableSearchOpts { search_cols: vec![], query: "x".to_string() });
    assert!(searched.is_search_mode());
}

#[test]
fn filter_operators_render() {
    let cases: Vec<(FilterOperator, &str)> = vec![
        (FilterOperator::Equals("1".to_string()), "c = 1"),
        (FilterOperator::NotEquals("1".to_string()), "c <> 1"),
        (FilterOperator::Gt("1".to_string()), "c > 1"),
        (FilterOperator::Lt("1".to_string()), "c < 1"),
        (FilterOperator::Gte("1".to_string()), "c >= 1"),
        (FilterOperator::Lte("1".to_string()), "c <= 1"),
        (FilterOperator::Like("'%a%'".to_string()), "c LIKE '%a%'"),
        (
            FilterOperator::In(vec!["1".to_string(), "2".to_string()]),
            "c IN (1, 2)",
        ),
        (FilterOperator::IsNull, "c IS NULL"),
        (FilterOperator::IsNotNull, "c IS NOT NULL"),
    ];
    for (op, expected) in cases {
        let mut opts = plain_browse("t", 0, 1);
        opts.filters = Some(vec![Filter::BASE(FilterCondition {
            column: "c".to_string(),
            operator: op,
        })]);
        let sql = opts.to_query().unwrap().sql_text();
        let expected_sql = format!("SELECT * FROM t WHERE {} LIMIT 1 OFFSET 0", expected);
        assert_eq!(sql, expected_sql);
    }
}

#[test]
fn intra_trend_compiles_to_two_column_select() {
    let opts = TrendAnalysisOpts {
        table: "sales".to_string(),
        analysis_type: TrendAnalysisType::IntraModel,
        xcol: "month".to_string(),
        ycol: "revenue".to_string(),
        order: TrendAnalysisOrder::ASC,
        limit: 12,
        cross: None,
    };
    let sql = opts.build_query().unwrap();
    assert_eq!(sql, "SELECT month, revenue FROM sales ORDER BY revenue ASC LIMIT 12");
}

#[test]
fn cross_trend_compiles_to_joined_count() {
    let sql = cross_trend().build_query().unwrap();
    assert_eq!(
        sql,
        "SELECT x.country AS country, COUNT(y.order_id) AS order_id FROM users x \
         LEFT JOIN orders y ON x.id = y.order_id GROUP BY country \
         HAVING order_id > 0 ORDER BY order_id DESC LIMIT 10"
    );
}

#[test]
fn cross_trend_sql_always_carries_having_clause() {
    let mut opts = cross_trend();
    opts.order = TrendAnalysisOrder::ASC;
    opts.limit = 3;
    let sql = opts.build_query().unwrap();
    assert!(sql.contains(" HAVING order_id > 0 "));
}

#[test]
fn cross_trend_without_cross_options_is_an_error() {
    let mut opts = cross_trend();
    opts.cross = None;
    let err = opts.to_query().unwrap_err();
    assert!(matches!(err.kind, ErrorKind::MissingRequiredOption));
    let err = opts.build_query().unwrap_err();
    assert!(matches!(err.kind, ErrorKind::MissingRequiredOption));
}

#[test]
fn compiling_twice_yields_identical_text() {
    let s1 = cross_trend().build_query().unwrap();
    let s2 = cross_trend().build_query().unwrap();
    assert_eq!(s1, s2);
    let q1 = plain_browse("orders", 0, 20).to_query().unwrap().sql_text();
    let q2 = plain_browse("orders", 0, 20).to_query().unwrap().sql_text();
    assert_eq!(q1, q2);
}

#[test]
fn chrono_daily_compiles_to_date_bucketing() {
    let opts = ChronoAnalysisOpts {
        table: "events".to_string(),
        chrono_col: "created_at".to_string(),
        basis: ChronoAnalysisBasis::Daily,
        range: ChronoAnalysisRange {
            start: SimpleDate { year: 2024, month: 1, day: 1 },
            end: SimpleDate { year: 2024, month: 1, day: 7 },
        },
    };
    assert_eq!(
        opts.build_query(),
        "SELECT DATE(created_at) AS BASABLE_CHRONO_BASIS_VALUE, \
         COUNT(*) AS BASABLE_CHRONO_RESULT FROM events \
         WHERE created_at BETWEEN '2024-01-01' AND '2024-01-07' \
         GROUP BY DATE(created_at) ORDER BY BASABLE_CHRONO_BASIS_VALUE"
    );
    assert_eq!(opts.build_query(), opts.build_query());
}

#[test]
fn chrono_monthly_compiles_to_month_bucketing() {
    let opts = ChronoAnalysisOpts {
        table: "events".to_string(),
        chrono_col: "day".to_string(),
        basis: ChronoAnalysisBasis::Monthly,
        range: ChronoAnalysisRange {
            start: SimpleDate { year: 987, month: 2, day: 3 },
            end: SimpleDate { year: 2024, month: 12, day: 31 },
        },
    };
    let sql = opts.build_query();
    assert!(sql.starts_with("SELECT MONTH(day) AS BASABLE_CHRONO_BASIS_VALUE"));
    assert!(sql.contains("BETWEEN '0987-02-03' AND '2024-12-31'"));
}

#[test]
fn category_compiles_to_grouped_count() {
    let opts = CategoryGraphOpts {
        table: "users".to_string(),
        graph_type: CategoryGraphType::Pie,
        target_col: "country".to_string(),
        limit: 10,
    };
    assert_eq!(
        opts.build_query(),
        "SELECT COUNT(*) AS COUNT, country FROM users GROUP BY country LIMIT 10"
    );
}

#[test]
fn trend_order_keywords() {
    assert_eq!(TrendAnalysisOrder::DESC.sql_keyword(), "DESC");
    assert_eq!(TrendAnalysisOrder::ASC.sql_keyword(), "ASC");
}

#[test]
fn export_format_extensions() {
    assert_eq!(TableExportFormat::CSV.as_extension(), "csv");
    assert_eq!(TableExportFormat::TSV.as_extension(), "tsv");
    assert_eq!(TableExportFormat::PSV.as_extension(), "psv");
    assert_eq!(TableExportFormat::TEXT.as_extension(), "txt");
    assert_eq!(TableExportFormat::JSON.as_extension(), "json");
    assert_eq!(TableExportFormat::HTML.as_extension(), "html");
    assert_eq!(TableExportFormat::XML.as_extension(), "xml");
}

#[test]
fn export_format_mimetypes() {
    assert_eq!(TableExportFormat::CSV.as_mimetype(), "text/csv");
    assert_eq!(TableExportFormat::TSV.as_mimetype(), "text/tab-separated-values");
    assert_eq!(TableExportFormat::PSV.as_mimetype(), "text/plain");
    assert_eq!(TableExportFormat::TEXT.as_mimetype(), "text/plain");
    assert_eq!(TableExportFormat::JSON.as_mimetype(), "application/json");
    assert_eq!(TableExportFormat::HTML.as_mimetype(), "text/html");
    assert_eq!(TableExportFormat::XML.as_mimetype(), "application/xml");
}

#[test]
fn export_format_delimiters() {
    assert_eq!(TableExportFormat::CSV.field_delimiter(), Some(",".to_string()));
    assert_eq!(TableExportFormat::TSV.field_delimiter(), Some("\\t".to_string()));
    assert_eq!(TableExportFormat::PSV.field_delimiter(), Some("|".to_string()));
    assert_eq!(TableExportFormat::TEXT.field_delimiter(), Some(";".to_string()));
    assert_eq!(TableExportFormat::JSON.field_delimiter(), None);
    assert_eq!(TableExportFormat::HTML.field_delimiter(), None);
    assert_eq!(TableExportFormat::XML.field_delimiter(), None);
}

#[test]
fn table_config_defaults_and_equality() {
    let mut a = TableConfig::default();
    assert_eq!(a.items_per_page, 100);
    assert!(a.pk_column.is_none());
    let mut b = TableConfig::default();
    a.label = "shared".to_string();
    b.label = "shared".to_string();
    b.name = "different".to_string();
    assert!(a == b);
    b.label = "other".to_string();
    assert!(a != b);
}

#[test]
fn date_rendering_pads_every_field() {
    assert_eq!(SimpleDate { year: 2024, month: 1, day: 7 }.render(), "2024-01-07");
    assert_eq!(SimpleDate { year: 987, month: 11, day: 30 }.render(), "0987-11-30");
    assert_eq!(SimpleDate { year: 3, month: 10, day: 2 }.render(), "0003-10-02");
}

#[test]
fn chrono_yearly_compiles_to_year_bucketing() {
    let opts = ChronoAnalysisOpts {
        table: "events".to_string(),
        chrono_col: "ts".to_string(),
        basis: ChronoAnalysisBasis::Yearly,
        range: ChronoAnalysisRange {
            start: SimpleDate { year: 2000, month: 1, day: 1 },
            end: SimpleDate { year: 2024, month: 12, day: 31 },
        },
    };
    assert!(opts.build_query().starts_with("SELECT YEAR(ts) AS "));
}

#[test]
fn later_base_links_attach_with_and() {
    let mut opts = plain_browse("t", 0, 1);
    opts.filters = Some(vec![
        Filter::BASE(FilterCondition {
            column: "a".to_string(),
            operator: FilterOperator::IsNull,
        }),
        Filter::BASE(FilterCondition {
            column: "b".to_string(),
            operator: FilterOperator::IsNotNull,
        }),
        Filter::AND(FilterCondition {
            column: "c".to_string(),
            operator: FilterOperator::IsNull,
        }),
    ]);
    let sql = opts.to_query().unwrap().sql_text();
    assert_eq!(
        sql,
        "SELECT * FROM t WHERE a IS NULL AND b IS NOT NULL AND c IS NULL LIMIT 1 OFFSET 0"
    );
}
