use std::cell::Cell;

use basable_query::analysis::{
    read_cell_value, AnalysisResult, AnalysisValue, CategoryGraphOpts, CategoryGraphType, ChronoAnalysisBasis,
    ChronoAnalysisOpts, ChronoAnalysisRange,
};
use basable_query::backend::{
    column_count_from_rows, connection_details, db_size_from_rows, parse_size_text,
    query_table_summaries, summary_from_row, version_from_rows, BackendConnector, DbSize,
};
use basable_query::error::{AppError, ErrorKind};
use basable_query::graphs::{category_graph, chrono_graph, trend_graph};
use basable_query::row::{CellValue, DataRow, SimpleDate};
use basable_query::trend::{
    CrossOptions, TrendAnalysisOpts, TrendAnalysisOrder, TrendAnalysisType,
};
use basable_query::table::{TableQueryOpts, TableSearchOpts};

/// A canned backend: hands back fixed rows keyed by a query fragment and
/// counts the round trips it was asked for.
struct FakeConnector {
    responses: Vec<(String, Vec<DataRow>)>,
    calls: Cell<u32>,
}

impl FakeConnector {
    fn new(responses: Vec<(String, Vec<DataRow>)>) -> FakeConnector {
        FakeConnector { responses, calls: Cell::new(0) }
    }

    fn single(rows: Vec<DataRow>) -> FakeConnector {
        FakeConnector::new(vec![(String::new(), rows)])
    }
}

impl BackendConnector for FakeConnector {
    fn exec_query(&self, query: &str) -> Result<Vec<DataRow>, AppError> {
        self.calls.set(self.calls.get() + 1);
        for (fragment, rows) in &self.responses {
            if query.contains(fragment.as_str()) {
                return Ok(rows.clone());
            }
        }
        panic!("unexpected query: {}", query);
    }
}

fn row(cells: Vec<(&str, CellValue)>) -> DataRow {
    let mut r = DataRow::new();
    for (name, value) in cells {
        r.add_cell(name.to_string(), value);
    }
    r
}

fn cross_trend() -> TrendAnalysisOpts {
    TrendAnalysisOpts {
        table: "users".to_string(),
        analysis_type: TrendAnalysisType::CrossModel,
        xcol: "country".to_string(),
        ycol: "order_id".to_string(),
        order: TrendAnalysisOrder::DESC,
        limit: 10,
        cross: Some(CrossOptions {
            foreign_table: "orders".to_string(),
            target_col: "id".to_string(),
        }),
    }
}

#[test]
fn cross_trend_without_options_issues_zero_backend_calls() {
    let conn = FakeConnector::single(vec![]);
    let mut opts = cross_trend();
    opts.cross = None;
    let err = trend_graph(&conn, &opts).unwrap_err();
    assert!(matches!(err.kind, ErrorKind::DriverError));
    assert_eq!(conn.calls.get(), 0);
}

#[test]
fn cross_trend_series_is_unsigned() {
    let rows = vec![
        row(vec![
            ("country", CellValue::Text("NG".to_string())),
            ("order_id", CellValue::Int(7)),
        ]),
        row(vec![
            ("country", CellValue::Text("DE".to_string())),
            ("order_id", CellValue::UInt(3)),
        ]),
    ];
    let conn = FakeConnector::single(rows);
    let res = trend_graph(&conn, &cross_trend()).unwrap();
    assert_eq!(conn.calls.get(), 1);
    assert_eq!(res.len(), 2);
    for p in &res {
        assert!(matches!(p.x, AnalysisValue::Text(_)));
        assert!(matches!(p.y, AnalysisValue::UInt(_)));
    }
    assert!(matches!(&res[0].y, AnalysisValue::UInt(7)));
    assert!(matches!(&res[1].y, AnalysisValue::UInt(3)));
}

#[test]
fn intra_trend_series_is_float() {
    let rows = vec![
        row(vec![
            ("month", CellValue::Text("jan".to_string())),
            ("revenue", CellValue::Float(2.5f64.to_bits())),
        ]),
        row(vec![
            ("month", CellValue::Text("feb".to_string())),
            ("revenue", CellValue::Float(4.25f64.to_bits())),
        ]),
    ];
    let conn = FakeConnector::single(rows);
    let opts = TrendAnalysisOpts {
        table: "sales".to_string(),
        analysis_type: TrendAnalysisType::IntraModel,
        xcol: "month".to_string(),
        ycol: "revenue".to_string(),
        order: TrendAnalysisOrder::ASC,
        limit: 12,
        cross: None,
    };
    let res = trend_graph(&conn, &opts).unwrap();
    assert_eq!(res.len(), 2);
    for p in &res {
        assert!(matches!(p.y, AnalysisValue::Double(_)));
    }
    match &res[0].y {
        AnalysisValue::Double(bits) => assert_eq!(f64::from_bits(*bits), 2.5),
        _ => unreachable!(),
    }
}

#[test]
fn intra_trend_rejects_untyped_rows() {
    let rows = vec![row(vec![
        ("month", CellValue::Text("jan".to_string())),
        ("revenue", CellValue::Text("not a number".to_string())),
    ])];
    let conn = FakeConnector::single(rows);
    let opts = TrendAnalysisOpts {
        table: "sales".to_string(),
        analysis_type: TrendAnalysisType::IntraModel,
        xcol: "month".to_string(),
        ycol: "revenue".to_string(),
        order: TrendAnalysisOrder::ASC,
        limit: 12,
        cross: None,
    };
    let err = trend_graph(&conn, &opts).unwrap_err();
    assert!(matches!(err.kind, ErrorKind::DriverError));
}

#[test]
fn chrono_daily_series_has_date_buckets_and_counts_sum() {
    let days: Vec<(u8, i64)> = vec![(1, 2), (3, 3), (7, 5)];
    let rows: Vec<DataRow> = days
        .iter()
        .map(|(day, count)| {
            row(vec![
                (
                    "BASABLE_CHRONO_BASIS_VALUE",
                    CellValue::Date(SimpleDate { year: 2024, month: 1, day: *day }),
                ),
                ("BASABLE_CHRONO_RESULT", CellValue::Int(*count)),
            ])
        })
        .collect();
    let conn = FakeConnector::single(rows);
    let opts = ChronoAnalysisOpts {
        table: "events".to_string(),
        chrono_col: "created_at".to_string(),
        basis: ChronoAnalysisBasis::Daily,
        range: ChronoAnalysisRange {
            start: SimpleDate { year: 2024, month: 1, day: 1 },
            end: SimpleDate { year: 2024, month: 1, day: 7 },
        },
    };
    let res = chrono_graph(&conn, &opts).unwrap();
    assert_eq!(res.len(), 3);
    let mut total: u64 = 0;
    for (i, p) in res.iter().enumerate() {
        match &p.x {
            AnalysisValue::Date(d) => assert_eq!(d.day, days[i].0),
            _ => unreachable!(),
        }
        match &p.y {
            AnalysisValue::UInt(u) => total += u,
            _ => unreachable!(),
        }
    }
    assert_eq!(total, 10);
}

#[test]
fn chrono_monthly_series_has_unsigned_buckets() {
    let rows = vec![row(vec![
        ("BASABLE_CHRONO_BASIS_VALUE", CellValue::Int(4)),
        ("BASABLE_CHRONO_RESULT", CellValue::UInt(9)),
    ])];
    let conn = FakeConnector::single(rows);
    let opts = ChronoAnalysisOpts {
        table: "events".to_string(),
        chrono_col: "created_at".to_string(),
        basis: ChronoAnalysisBasis::Monthly,
        range: ChronoAnalysisRange {
            start: SimpleDate { year: 2024, month: 1, day: 1 },
            end: SimpleDate { year: 2024, month: 12, day: 31 },
        },
    };
    let res = chrono_graph(&conn, &opts).unwrap();
    assert!(matches!(res[0].x, AnalysisValue::UInt(4)));
    assert!(matches!(res[0].y, AnalysisValue::UInt(9)));
}

#[test]
fn category_series_pairs_counts_with_values() {
    let rows = vec![
        row(vec![
            ("COUNT", CellValue::Int(12)),
            ("country", CellValue::Text("NG".to_string())),
        ]),
        row(vec![("COUNT", CellValue::UInt(5)), ("country", CellValue::Null)]),
    ];
    let conn = FakeConnector::single(rows);
    let opts = CategoryGraphOpts {
        table: "users".to_string(),
        graph_type: CategoryGraphType::Bar,
        target_col: "country".to_string(),
        limit: 10,
    };
    let res = category_graph(&conn, &opts).unwrap();
    assert_eq!(res.len(), 2);
    assert!(matches!(res[0].x, AnalysisValue::UInt(12)));
    match &res[0].y {
        AnalysisValue::Text(s) => assert_eq!(s, "NG"),
        _ => unreachable!(),
    }
    match &res[1].y {
        AnalysisValue::Text(s) => assert_eq!(s, ""),
        _ => unreachable!(),
    }
}

#[test]
fn analysis_result_pairs_its_axes() {
    let p = AnalysisResult::new(
        AnalysisValue::Text("jan".to_string()),
        AnalysisValue::UInt(4),
    );
    assert!(matches!(p.x, AnalysisValue::Text(_)));
    assert!(matches!(p.y, AnalysisValue::UInt(4)));
}

#[test]
fn semantic_cell_reading_covers_every_shape() {
    assert!(matches!(read_cell_value(&CellValue::UInt(3)), AnalysisValue::UInt(3)));
    assert!(matches!(read_cell_value(&CellValue::Int(3)), AnalysisValue::UInt(3)));
    match read_cell_value(&CellValue::Int(-45)) {
        AnalysisValue::Text(s) => assert_eq!(s, "-45"),
        _ => unreachable!(),
    }
    assert!(matches!(read_cell_value(&CellValue::Float(1.5f64.to_bits())), AnalysisValue::Double(_)));
    match read_cell_value(&CellValue::Date(SimpleDate { year: 2020, month: 6, day: 9 })) {
        AnalysisValue::Date(d) => assert_eq!(d.year, 2020),
        _ => unreachable!(),
    }
}

#[test]
fn row_lookup_takes_the_first_match() {
    let r = row(vec![
        ("a", CellValue::UInt(1)),
        ("a", CellValue::UInt(2)),
    ]);
    match r.get(&"a".to_string()) {
        Some(CellValue::UInt(u)) => assert_eq!(*u, 1),
        _ => unreachable!(),
    }
    assert!(r.get(&"b".to_string()).is_none());
}

#[test]
fn zero_column_table_summarises_without_error() {
    assert_eq!(column_count_from_rows(&vec![]).unwrap(), 0);
    let count_row = row(vec![("count(*)", CellValue::Int(0))]);
    assert_eq!(column_count_from_rows(&vec![count_row]).unwrap(), 0);
    let listing = row(vec![
        ("TABLE_NAME", CellValue::Text("empty_one".to_string())),
        ("TABLE_ROWS", CellValue::UInt(0)),
        ("CREATE_TIME", CellValue::Null),
        ("UPDATE_TIME", CellValue::Null),
    ]);
    let summary = summary_from_row(&listing, 0).unwrap();
    assert_eq!(summary.col_count, 0);
    assert_eq!(summary.name, "empty_one");
    assert!(summary.created.is_none());
}

#[test]
fn summary_reads_history_columns_independently() {
    let listing = row(vec![
        ("TABLE_NAME", CellValue::Text("orders".to_string())),
        ("TABLE_ROWS", CellValue::UInt(41)),
        ("CREATE_TIME", CellValue::Date(SimpleDate { year: 2023, month: 5, day: 1 })),
        ("UPDATE_TIME", CellValue::Date(SimpleDate { year: 2024, month: 2, day: 29 })),
    ]);
    let summary = summary_from_row(&listing, 6).unwrap();
    assert_eq!(summary.row_count, 41);
    assert_eq!(summary.col_count, 6);
    assert_eq!(summary.created, Some("2023-05-01".to_string()));
    assert_eq!(summary.updated, Some("2024-02-29".to_string()));
}

#[test]
fn version_rows_become_variable_pairs() {
    let rows = vec![
        row(vec![
            ("Variable_name", CellValue::Text("version".to_string())),
            ("Value", CellValue::Text("8.0.36".to_string())),
        ]),
        row(vec![
            ("Variable_name", CellValue::Text("version_comment".to_string())),
            ("Value", CellValue::Text("MySQL Community Server".to_string())),
        ]),
    ];
    let vars = version_from_rows(&rows).unwrap();
    assert_eq!(vars.len(), 2);
    assert_eq!(vars[0].name, "version");
    assert_eq!(vars[0].value, "8.0.36");
}

#[test]
fn repeated_variable_names_collapse_to_the_last_value() {
    let rows = vec![
        row(vec![
            ("Variable_name", CellValue::Text("version".to_string())),
            ("Value", CellValue::Text("8.0.35".to_string())),
        ]),
        row(vec![
            ("Variable_name", CellValue::Text("version_comment".to_string())),
            ("Value", CellValue::Text("MySQL".to_string())),
        ]),
        row(vec![
            ("Variable_name", CellValue::Text("version".to_string())),
            ("Value", CellValue::Text("8.0.36".to_string())),
        ]),
    ];
    let vars = version_from_rows(&rows).unwrap();
    assert_eq!(vars.len(), 2);
    assert_eq!(vars[0].name, "version");
    assert_eq!(vars[0].value, "8.0.36");
    assert_eq!(vars[1].name, "version_comment");
}

#[test]
fn size_text_parses_to_tenths() {
    assert_eq!(parse_size_text("123.4"), Some(1234));
    assert_eq!(parse_size_text("0.0"), Some(0));
    assert_eq!(parse_size_text("7"), Some(70));
    assert_eq!(parse_size_text(""), None);
    assert_eq!(parse_size_text("12a.4"), None);
    assert_eq!(parse_size_text("1.23"), None);
    let rows = vec![row(vec![("size", CellValue::Text("123.4".to_string()))])];
    let size = db_size_from_rows(&rows).unwrap();
    assert_eq!(size, DbSize { tenths_mb: 1234 });
    assert_eq!(size.text(), "123.4");
    assert_eq!(db_size_from_rows(&vec![]).unwrap().text(), "0.0");
}

#[test]
fn connection_details_compose_the_metadata_round_trips() {
    let listing = row(vec![
        ("TABLE_NAME", CellValue::Text("orders".to_string())),
        ("TABLE_ROWS", CellValue::UInt(2)),
        ("CREATE_TIME", CellValue::Null),
        ("UPDATE_TIME", CellValue::Null),
    ]);
    let version_row = row(vec![
        ("Variable_name", CellValue::Text("version".to_string())),
        ("Value", CellValue::Text("8.0.36".to_string())),
    ]);
    let count_row = row(vec![("count(*)", CellValue::Int(4))]);
    let size_row = row(vec![("size", CellValue::Text("1.5".to_string()))]);
    let conn = FakeConnector::new(vec![
        ("SHOW VARIABLES".to_string(), vec![version_row]),
        ("information_schema.columns".to_string(), vec![count_row]),
        ("ROUND(SUM(data_length".to_string(), vec![size_row]),
        ("information_schema.tables".to_string(), vec![listing]),
    ]);
    let details =
        connection_details(&conn, &"shop".to_string(), "conn-1".to_string()).unwrap();
    assert_eq!(details.id, "conn-1");
    assert_eq!(details.version.len(), 1);
    assert_eq!(details.tables.len(), 1);
    assert_eq!(details.tables[0].col_count, 4);
    assert_eq!(details.db_size.text(), "1.5");
    // listing, one column count, version, size
    assert_eq!(conn.calls.get(), 4);
    let summaries = query_table_summaries(&conn, &"shop".to_string()).unwrap();
    assert_eq!(summaries[0].name, "orders");
}

#[test]
fn search_escaping_survives_to_the_rendered_text() {
    let opts = TableQueryOpts {
        table: "people".to_string(),
        offset: 0,
        row_count: 1,
        filters: None,
        columns: None,
        order_by: None,
        search_opts: Some(TableSearchOpts {
            search_cols: vec!["name".to_string()],
            query: "it's".to_string(),
        }),
    };
    let sql = opts.to_query().unwrap().sql_text();
    assert_eq!(
        sql,
        "SELECT * FROM people WHERE (name LIKE '%it''s%') LIMIT 1 OFFSET 0"
    );
}

#[test]
fn size_parsing_honours_the_width_limit() {
    assert_eq!(
        parse_size_text("999999999999999999.9"),
        Some(9999999999999999999)
    );
    assert_eq!(parse_size_text("9999999999999999999.9"), None);
    assert_eq!(parse_size_text("9999999999999999999"), None);
}

#[test]
fn empty_rows_have_no_cells() {
    let r = DataRow::new();
    assert!(r.get(&"anything".to_string()).is_none());
}
