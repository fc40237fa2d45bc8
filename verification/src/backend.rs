//! The backend-abstraction boundary: the one capability every database
//! backend implements, the introspection SQL the reference MySQL backend
//! issues, and the typed reading of what those queries hand back.

use vstd::prelude::*;
use crate::analysis::cell_as_u64;
use crate::error::AppError;
use crate::row::{date_text, lookup_cells, CellValue, DataRow};
use crate::sqltext::{all_digits, dec_str, dec_val, digit_val, escaped_sq, is_digit, lemma_dec_val_bound, lemma_pow10_mono, parse_digits, pow10, push_escaped, push_u64};
use crate::table::TableSummary;

verus! {

/// The polymorphic contract every database backend implements: execute
/// one SQL statement as one blocking round trip and hand its rows back as
/// modeled data. Everything else this crate does with a backend is built
/// on this one capability; implementations live outside the verified
/// library, next to the driver they wrap.
pub trait BackendConnector {
    /// Executes one SQL statement; a driver failure surfaces as an error.
    fn exec_query(&self, query: &str) -> Result<Vec<DataRow>, AppError>;
}

/// One server metadata variable, as version introspection reports it.
#[derive(Clone, Debug)]
pub struct DbServerVariable {
    pub name: String,
    pub value: String,
}

/// A database size in megabytes, carried in tenths so the one decimal
/// the backend reports survives exactly.
#[derive(Clone, Copy, Debug, PartialEq, Eq, Structural)]
pub struct DbSize {
    pub tenths_mb: u64,
}

impl DbSize {
    /// The display text of the size, one decimal place.
    pub fn text(&self) -> (s: String)
        ensures
            s@ == dec_str((self.tenths_mb / 10) as nat) + "."@ + dec_str(
                (self.tenths_mb % 10) as nat,
            ),
    {
        let mut out = String::new();
        push_u64(&mut out, self.tenths_mb / 10);
        out.append(".");
        push_u64(&mut out, self.tenths_mb % 10);
        proof {
            assert(out@ =~= dec_str((self.tenths_mb / 10) as nat) + "."@ + dec_str(
                (self.tenths_mb % 10) as nat,
            ));
        }
        out
    }
}

/// What a connection reports of itself: its id, the summaries of its
/// tables, the server's version variables, and the schema's size.
#[derive(Clone, Debug)]
pub struct DbConnectionDetails {
    pub id: String,
    pub tables: Vec<TableSummary>,
    pub version: Vec<DbServerVariable>,
    pub db_size: DbSize,
}

/// The version-variable introspection statement.
pub open spec fn version_query_sql() -> Seq<char> {
    "SHOW VARIABLES WHERE Variable_name IN ('version_compile_os', 'version', 'version_comment', 'version_compile_zlib')"@
}

/// Builds the version-variable introspection statement.
pub fn build_version_query() -> (s: String)
    ensures
        s@ == version_query_sql(),
{
    "SHOW VARIABLES WHERE Variable_name IN ('version_compile_os', 'version', 'version_comment', 'version_compile_zlib')".to_owned()
}

/// The base-table listing statement for one schema, ordered by name.
pub open spec fn tables_query_sql(db: Seq<char>) -> Seq<char> {
    "SELECT table_name, table_rows, create_time, update_time FROM information_schema.tables WHERE table_schema = '"@
        + escaped_sq(db) + "' ORDER BY table_name"@
}

/// Builds the base-table listing statement for one schema.
pub fn build_tables_query(db: &String) -> (s: String)
    ensures
        s@ == tables_query_sql(db@),
{
    let mut out = String::new();
    out.append(
        "SELECT table_name, table_rows, create_time, update_time FROM information_schema.tables WHERE table_schema = '",
    );
    push_escaped(&mut out, db.as_str());
    out.append("' ORDER BY table_name");
    proof {
        assert(out@ =~= tables_query_sql(db@));
    }
    out
}

/// The column-count statement for one table of one schema.
pub open spec fn column_count_query_sql(db: Seq<char>, table: Seq<char>) -> Seq<char> {
    "SELECT count(*) FROM information_schema.columns WHERE table_schema = '"@ + escaped_sq(db)
        + "' AND table_name = '"@ + escaped_sq(table) + "' ORDER BY table_name"@
}

/// Builds the column-count statement for one table of one schema.
pub fn build_column_count_query(db: &String, table: &String) -> (s: String)
    ensures
        s@ == column_count_query_sql(db@, table@),
{
    let mut out = String::new();
    out.append("SELECT count(*) FROM information_schema.columns WHERE table_schema = '");
    push_escaped(&mut out, db.as_str());
    out.append("' AND table_name = '");
    push_escaped(&mut out, table.as_str());
    out.append("' ORDER BY table_name");
    proof {
        assert(out@ =~= column_count_query_sql(db@, table@));
    }
    out
}

/// The schema-size statement: data plus index length summed over the
/// schema, rounded to one decimal megabyte.
pub open spec fn size_query_sql(db: Seq<char>) -> Seq<char> {
    "SELECT table_schema '"@ + escaped_sq(db)
        + "', ROUND(SUM(data_length + index_length) / 1024 / 1024, 1) 'size' FROM information_schema.tables WHERE table_schema = '"@
        + escaped_sq(db) + "' GROUP BY table_schema"@
}

/// Builds the schema-size statement.
pub fn build_size_query(db: &String) -> (s: String)
    ensures
        s@ == size_query_sql(db@),
{
    let mut out = String::new();
    out.append("SELECT table_schema '");
    push_escaped(&mut out, db.as_str());
    out.append(
        "', ROUND(SUM(data_length + index_length) / 1024 / 1024, 1) 'size' FROM information_schema.tables WHERE table_schema = '",
    );
    push_escaped(&mut out, db.as_str());
    out.append("' GROUP BY table_schema");
    proof {
        assert(out@ =~= size_query_sql(db@));
    }
    out
}

/// The variable pair one introspection row yields, where both cells are
/// text.
pub open spec fn server_variable_of(row: DataRow) -> Option<(Seq<char>, Seq<char>)> {
    match (row.lookup("Variable_name"@), row.lookup("Value"@)) {
        (Some(CellValue::Text(n)), Some(CellValue::Text(v))) => Some((n@, v@)),
        _ => None,
    }
}

/// The value of the last introspection row carrying `name`, if any:
/// the map reading of repeated variable names, where a later row wins.
pub open spec fn last_variable_value(rows: Seq<DataRow>, name: Seq<char>) -> Option<Seq<char>>
    decreases rows.len(),
{
    if rows.len() == 0 {
        None
    } else {
        match server_variable_of(rows.last()) {
            Some(p) => if p.0 == name {
                Some(p.1)
            } else {
                last_variable_value(rows.drop_last(), name)
            },
            None => last_variable_value(rows.drop_last(), name),
        }
    }
}

/// Finds the variable named `name` among those already collected.
fn find_variable(vars: &Vec<DbServerVariable>, name: &String) -> (r: Option<usize>)
    ensures
        match r {
            Some(k) => 0 <= k < vars@.len() && vars@[k as int].name@ == name@,
            None => forall|m: int| 0 <= m < vars@.len() ==> vars@[m].name@ != name@,
        },
{
    let mut k: usize = 0;
    while k < vars.len()
        invariant
            0 <= k <= vars@.len(),
            forall|m: int| 0 <= m < k ==> vars@[m].name@ != name@,
        decreases vars@.len() - k,
    {
        if vars[k].name == *name {
            return Some(k);
        }
        k = k + 1;
    }
    None
}

/// Types version-introspection rows into a mapping of variable names to
/// values: each name appears once, in order of first appearance, and a
/// later row's value overwrites an earlier one's; or a driver error on
/// the first row without both text cells.
pub fn version_from_rows(rows: &Vec<DataRow>) -> (r: Result<Vec<DbServerVariable>, AppError>)
    ensures
        r matches Ok(vars) ==> {
            &&& forall|k: int, l: int|
                0 <= k < l < vars@.len() ==> (#[trigger] vars@[k]).name@ != (
                #[trigger] vars@[l]).name@
            &&& forall|k: int|
                0 <= k < vars@.len() ==> last_variable_value(
                    rows@,
                    (#[trigger] vars@[k]).name@,
                ) == Some(vars@[k].value@)
            &&& forall|i: int|
                0 <= i < rows@.len() ==> (#[trigger] server_variable_of(rows@[i]) matches Some(p)
                    && exists|k: int| 0 <= k < vars@.len() && (#[trigger] vars@[k]).name@ == p.0)
        },
        r is Err ==> exists|i: int|
            0 <= i < rows@.len() && #[trigger] server_variable_of(rows@[i]) is None,
{
    let var_key: String = "Variable_name".to_owned();
    let val_key: String = "Value".to_owned();
    let mut vars: Vec<DbServerVariable> = Vec::new();
    let mut i: usize = 0;
    while i < rows.len()
        invariant
            var_key@ == "Variable_name"@,
            val_key@ == "Value"@,
            0 <= i <= rows@.len(),
            forall|k: int, l: int|
                0 <= k < l < vars@.len() ==> (#[trigger] vars@[k]).name@ != (
                #[trigger] vars@[l]).name@,
            forall|k: int|
                0 <= k < vars@.len() ==> last_variable_value(
                    rows@.take(i as int),
                    (#[trigger] vars@[k]).name@,
                ) == Some(vars@[k].value@),
            forall|j: int|
                0 <= j < i ==> (#[trigger] server_variable_of(rows@[j]) matches Some(p)
                    && exists|k: int| 0 <= k < vars@.len() && (#[trigger] vars@[k]).name@ == p.0),
        decreases rows@.len() - i,
    {
        let row = &rows[i];
        let name = match row.get(&var_key) {
            Some(CellValue::Text(n)) => n.clone(),
            _ => {
                proof {
                    assert(server_variable_of(rows@[i as int]) is None);
                }
                return Err(AppError::driver("unexpected variable name in version row"));
            },
        };
        let value = match row.get(&val_key) {
            Some(CellValue::Text(v)) => v.clone(),
            _ => {
                proof {
                    assert(server_variable_of(rows@[i as int]) is None);
                }
                return Err(AppError::driver("unexpected variable value in version row"));
            },
        };
        let ghost n_view = name@;
        let ghost v_view = value@;
        proof {
            assert(server_variable_of(rows@[i as int]) == Some((n_view, v_view)));
            assert(rows@.take(i + 1).drop_last() =~= rows@.take(i as int));
            assert(rows@.take(i + 1).last() == rows@[i as int]);
        }
        let found = find_variable(&vars, &name);
        let entry = DbServerVariable { name, value };
        let ghost ev = entry;
        let ghost old_vars = vars@;
        match found {
            Some(k) => {
                vars.remove(k);
                vars.insert(k, entry);
                proof {
                    assert(vars@ =~= old_vars.update(k as int, ev));
                    assert forall|m: int| 0 <= m < vars@.len() implies (#[trigger] vars@[m]).name@
                        == old_vars[m].name@ by {
                        if m == k {
                            assert(vars@[m] == ev);
                            assert(old_vars[k as int].name@ == n_view);
                        }
                    }
                    assert forall|m: int| 0 <= m < vars@.len() implies last_variable_value(
                        rows@.take(i + 1),
                        (#[trigger] vars@[m]).name@,
                    ) == Some(vars@[m].value@) by {
                        if m == k {
                            assert(vars@[m].name@ == n_view && vars@[m].value@ == v_view);
                            assert(last_variable_value(rows@.take(i + 1), n_view) == Some(v_view));
                        } else {
                            assert(vars@[m] == old_vars[m]);
                            assert(old_vars[m].name@ != old_vars[k as int].name@);
                            assert(vars@[m].name@ != n_view);
                            assert(last_variable_value(rows@.take(i + 1), vars@[m].name@)
                                == last_variable_value(rows@.take(i as int), vars@[m].name@));
                        }
                    }
                    assert forall|j: int| 0 <= j < i + 1 implies (#[trigger] server_variable_of(
                        rows@[j],
                    ) matches Some(p) && exists|k2: int|
                        0 <= k2 < vars@.len() && (#[trigger] vars@[k2]).name@ == p.0) by {
                        if j == i {
                            assert(vars@[k as int].name@ == n_view);
                        } else {
                            match server_variable_of(rows@[j]) {
                                Some(p) => {
                                    let k0 = choose|k2: int|
                                        0 <= k2 < old_vars.len() && (#[trigger] old_vars[
                                            k2
                                        ]).name@ == p.0;
                                    assert(vars@[k0].name@ == p.0);
                                },
                                None => {
                                    assert(false);
                                },
                            }
                        }
                    }
                }
            },
            None => {
                vars.push(entry);
                proof {
                    assert(vars@ == old_vars.push(ev));
                    let last: int = old_vars.len() as int;
                    assert(vars@[last].name@ == n_view && vars@[last].value@ == v_view);
                    assert forall|m: int| 0 <= m < vars@.len() implies last_variable_value(
                        rows@.take(i + 1),
                        (#[trigger] vars@[m]).name@,
                    ) == Some(vars@[m].value@) by {
                        if m == last {
                            assert(last_variable_value(rows@.take(i + 1), n_view) == Some(v_view));
                        } else {
                            assert(vars@[m] == old_vars[m]);
                            assert(vars@[m].name@ != n_view);
                            assert(last_variable_value(rows@.take(i + 1), vars@[m].name@)
                                == last_variable_value(rows@.take(i as int), vars@[m].name@));
                        }
                    }
                    assert forall|j: int| 0 <= j < i + 1 implies (#[trigger] server_variable_of(
                        rows@[j],
                    ) matches Some(p) && exists|k2: int|
                        0 <= k2 < vars@.len() && (#[trigger] vars@[k2]).name@ == p.0) by {
                        if j == i {
                            assert(vars@[last].name@ == n_view);
                        } else {
                            match server_variable_of(rows@[j]) {
                                Some(p) => {
                                    let k0 = choose|k2: int|
                                        0 <= k2 < old_vars.len() && (#[trigger] old_vars[
                                            k2
                                        ]).name@ == p.0;
                                    assert(vars@[k0].name@ == p.0);
                                },
                                None => {
                                    assert(false);
                                },
                            }
                        }
                    }
                }
            },
        }
        i = i + 1;
    }
    proof {
        assert(rows@.take(rows@.len() as int) =~= rows@);
    }
    Ok(vars)
}

/// An optional history timestamp: an absent or null cell yields none,
/// and a date cell yields its display text.
pub open spec fn history_text_of(c: Option<CellValue>, t: Option<String>) -> bool {
    match c {
        Some(CellValue::Date(d)) => t matches Some(s) && s@ == date_text(d),
        Some(CellValue::Null) => t is None,
        None => t is None,
        _ => false,
    }
}

/// Whether one tables-listing row carries everything a summary needs: a
/// text name, an unsigned row count that fits, and history cells that
/// are dates, null or absent.
pub open spec fn summary_row_ok(row: DataRow) -> bool {
    &&& row.lookup("TABLE_NAME"@) matches Some(CellValue::Text(n))
    &&& (match row.lookup("TABLE_ROWS"@) {
        Some(c) => cell_as_u64(c) matches Some(u) && u <= u32::MAX,
        _ => false,
    })
    &&& (match row.lookup("CREATE_TIME"@) {
        Some(CellValue::Date(d)) => true,
        Some(CellValue::Null) => true,
        None => true,
        _ => false,
    })
    &&& (match row.lookup("UPDATE_TIME"@) {
        Some(CellValue::Date(d)) => true,
        Some(CellValue::Null) => true,
        None => true,
        _ => false,
    })
}

/// How a summary relates to the tables-listing row it came from and the
/// separately queried column count: name and row count are the row's,
/// the created and updated texts are the independently sourced history
/// cells' display texts.
pub open spec fn summary_of_row(row: DataRow, col_count: u32, s: TableSummary) -> bool {
    &&& (match row.lookup("TABLE_NAME"@) {
        Some(CellValue::Text(n)) => s.name@ == n@,
        _ => false,
    })
    &&& (match row.lookup("TABLE_ROWS"@) {
        Some(c) => cell_as_u64(c) matches Some(u) && u <= u32::MAX && s.row_count == u,
        _ => false,
    })
    &&& s.col_count == col_count
    &&& history_text_of(row.lookup("CREATE_TIME"@), s.created)
    &&& history_text_of(row.lookup("UPDATE_TIME"@), s.updated)
}

/// Reads one optional history cell into its display text.
fn read_history_cell(c: Option<&CellValue>) -> (r: Result<Option<String>, AppError>)
    ensures
        r matches Ok(t) ==> history_text_of(
            match c {
                Some(v) => Some(*v),
                None => None,
            },
            t,
        ),
        r is Err ==> !(match c {
            Some(CellValue::Date(d)) => true,
            Some(CellValue::Null) => true,
            None => true,
            _ => false,
        }),
{
    match c {
        Some(CellValue::Date(d)) => Ok(Some(d.render())),
        Some(CellValue::Null) => Ok(None),
        None => Ok(None),
        _ => Err(AppError::driver("unexpected history value in table row")),
    }
}

/// Assembles the summary one tables-listing row yields, given the
/// table's separately queried column count.
pub fn summary_from_row(row: &DataRow, col_count: u32) -> (r: Result<TableSummary, AppError>)
    ensures
        r matches Ok(s) ==> summary_of_row(*row, col_count, s),
        r is Err ==> !summary_row_ok(*row),
{
    let name_key: String = "TABLE_NAME".to_owned();
    let rows_key: String = "TABLE_ROWS".to_owned();
    let created_key: String = "CREATE_TIME".to_owned();
    let updated_key: String = "UPDATE_TIME".to_owned();
    let name = match row.get(&name_key) {
        Some(CellValue::Text(n)) => n.clone(),
        _ => {
            return Err(AppError::driver("unexpected table name in table row"));
        },
    };
    let row_count_wide = match row.get(&rows_key) {
        Some(c) => match crate::analysis::read_cell_u64(c) {
            Some(u) => u,
            None => {
                return Err(AppError::driver("unexpected row count in table row"));
            },
        },
        None => {
            return Err(AppError::driver("missing row count in table row"));
        },
    };
    if row_count_wide > u32::MAX as u64 {
        return Err(AppError::driver("row count too large in table row"));
    }
    let row_count: u32 = row_count_wide as u32;
    let created = match read_history_cell(row.get(&created_key)) {
        Ok(t) => t,
        Err(e) => {
            return Err(e);
        },
    };
    let updated = match read_history_cell(row.get(&updated_key)) {
        Ok(t) => t,
        Err(e) => {
            return Err(e);
        },
    };
    Ok(TableSummary { name, row_count, col_count, created, updated })
}

/// The column count the count query's rows yield: zero when no row came
/// back, else the first row's count cell, where it fits.
pub open spec fn column_count_of(rows: Seq<DataRow>) -> Option<u32> {
    if rows.len() == 0 {
        Some(0)
    } else {
        match lookup_cells(rows[0].entries@, "count(*)"@) {
            Some(c) => match cell_as_u64(c) {
                Some(u) => if u <= u32::MAX {
                    Some(u as u32)
                } else {
                    None
                },
                None => None,
            },
            None => None,
        }
    }
}

/// Reads the column count out of the count query's rows: a table with
/// zero columns, or an empty result, yields zero without erroring.
pub fn column_count_from_rows(rows: &Vec<DataRow>) -> (r: Result<u32, AppError>)
    ensures
        r matches Ok(c) ==> column_count_of(rows@) == Some(c),
        r is Err ==> column_count_of(rows@) is None,
{
    if rows.len() == 0 {
        return Ok(0);
    }
    let count_key: String = "count(*)".to_owned();
    match rows[0].get(&count_key) {
        Some(c) => match crate::analysis::read_cell_u64(c) {
            Some(u) => if u <= u32::MAX as u64 {
                Ok(u as u32)
            } else {
                Err(AppError::driver("column count too large"))
            },
            None => Err(AppError::driver("unexpected column count value")),
        },
        None => Err(AppError::driver("missing column count value")),
    }
}

/// The tenths-of-a-megabyte reading of a size text: an unsigned decimal
/// of at most eighteen integer digits, optionally followed by a dot and
/// one fractional digit.
pub open spec fn size_tenths_of(s: Seq<char>) -> Option<nat> {
    if s.len() >= 3 && s[s.len() - 2] == '.' {
        if all_digits(s.take(s.len() - 2)) && s.len() - 2 <= 18 && is_digit(s.last()) {
            Some(dec_val(s.take(s.len() - 2)) * 10 + digit_val(s.last()))
        } else {
            None
        }
    } else if 1 <= s.len() <= 18 && all_digits(s) {
        Some(dec_val(s) * 10)
    } else {
        None
    }
}

/// Parses the size text a backend hands back into tenths of a megabyte.
pub fn parse_size_text(s: &str) -> (r: Option<u64>)
    ensures
        match r {
            Some(v) => size_tenths_of(s@) == Some(v as nat),
            None => size_tenths_of(s@) is None,
        },
{
    let n: usize = s.unicode_len();
    if n >= 3 && s.get_char(n - 2) == '.' {
        if n - 2 > 18 {
            return None;
        }
        let last: char = s.get_char(n - 1);
        let lu: u32 = last as u32;
        if lu < 48 || lu > 57 {
            return None;
        }
        match parse_digits(s, n - 2) {
            Some(ip) => {
                proof {
                    lemma_dec_val_bound(s@.take(n - 2));
                    lemma_pow10_mono(s@.take(n - 2).len() as nat, 18);
                    assert(pow10(18) == 1000000000000000000) by {
                        reveal_with_fuel(pow10, 20);
                    }
                }
                let d: u64 = (lu - 48) as u64;
                Some(ip * 10 + d)
            },
            None => None,
        }
    } else {
        if n == 0 || n > 18 {
            return None;
        }
        match parse_digits(s, n) {
            Some(v) => {
                proof {
                    assert(s@.take(n as int) =~= s@);
                    lemma_dec_val_bound(s@);
                    lemma_pow10_mono(s@.len() as nat, 18);
                    assert(pow10(18) == 1000000000000000000) by {
                        reveal_with_fuel(pow10, 20);
                    }
                }
                Some(v * 10)
            },
            None => {
                proof {
                    assert(s@.take(n as int) =~= s@);
                }
                None
            },
        }
    }
}

/// The size the size query's rows yield: zero tenths when no row came
/// back, else the first row's parsed size text.
pub open spec fn db_size_of(rows: Seq<DataRow>) -> Option<nat> {
    if rows.len() == 0 {
        Some(0)
    } else {
        match lookup_cells(rows[0].entries@, "size"@) {
            Some(CellValue::Text(s)) => size_tenths_of(s@),
            _ => None,
        }
    }
}

/// Reads the schema size out of the size query's rows: an empty result
/// yields zero.
pub fn db_size_from_rows(rows: &Vec<DataRow>) -> (r: Result<DbSize, AppError>)
    ensures
        r matches Ok(z) ==> db_size_of(rows@) == Some(z.tenths_mb as nat),
        r is Err ==> db_size_of(rows@) is None,
{
    if rows.len() == 0 {
        return Ok(DbSize { tenths_mb: 0 });
    }
    let size_key: String = "size".to_owned();
    match rows[0].get(&size_key) {
        Some(CellValue::Text(s)) => match parse_size_text(s.as_str()) {
            Some(v) => Ok(DbSize { tenths_mb: v }),
            None => Err(AppError::driver("unexpected size value")),
        },
        _ => Err(AppError::driver("unexpected size value")),
    }
}

/// Queries the server's version variables: one round trip;
/// `version_from_rows` carries the exact typing of whatever rows come
/// back.
pub fn show_version<C: BackendConnector>(conn: &C) -> Result<Vec<DbServerVariable>, AppError> {
    let sql = build_version_query();
    let rows = match conn.exec_query(sql.as_str()) {
        Ok(r) => r,
        Err(e) => {
            return Err(e);
        },
    };
    version_from_rows(&rows)
}

/// Lists the schema's base tables, ordered by name: one round trip.
pub fn query_tables<C: BackendConnector>(conn: &C, db_name: &String) -> Result<
    Vec<DataRow>,
    AppError,
> {
    let sql = build_tables_query(db_name);
    conn.exec_query(sql.as_str())
}

/// Queries one table's column count: one round trip;
/// `column_count_from_rows` carries the exact reading, and a table with
/// zero columns yields zero without erroring.
pub fn query_column_count<C: BackendConnector>(
    conn: &C,
    db_name: &String,
    table: &String,
) -> Result<u32, AppError> {
    let sql = build_column_count_query(db_name, table);
    let rows = match conn.exec_query(sql.as_str()) {
        Ok(r) => r,
        Err(e) => {
            return Err(e);
        },
    };
    column_count_from_rows(&rows)
}

/// Assembles the summaries out of the listing rows and the separately
/// queried column counts, one summary per row, in listing order.
pub fn summaries_of(rows: &Vec<DataRow>, counts: &Vec<u32>) -> (r: Result<
    Vec<TableSummary>,
    AppError,
>)
    requires
        counts@.len() == rows@.len(),
    ensures
        r matches Ok(s) ==> s@.len() == rows@.len() && forall|i: int|
            0 <= i < rows@.len() ==> summary_of_row(rows@[i], counts@[i], #[trigger] s@[i]),
        r is Err ==> exists|i: int|
            0 <= i < rows@.len() && !(#[trigger] summary_row_ok(rows@[i])),
{
    let mut out: Vec<TableSummary> = Vec::new();
    let mut i: usize = 0;
    while i < rows.len()
        invariant
            counts@.len() == rows@.len(),
            0 <= i <= rows@.len(),
            out@.len() == i,
            forall|j: int|
                0 <= j < i ==> summary_of_row(rows@[j], counts@[j], #[trigger] out@[j]),
        decreases rows@.len() - i,
    {
        match summary_from_row(&rows[i], counts[i]) {
            Ok(s) => out.push(s),
            Err(e) => {
                proof {
                    assert(!summary_row_ok(rows@[i as int]));
                }
                return Err(e);
            },
        }
        i = i + 1;
    }
    Ok(out)
}

/// Assembles one summary per base table: a tables listing plus one
/// column-count round trip per table; `summaries_of` carries the exact
/// assembly of whatever the round trips hand back.
pub fn query_table_summaries<C: BackendConnector>(conn: &C, db_name: &String) -> Result<
    Vec<TableSummary>,
    AppError,
> {
    let rows = match query_tables(conn, db_name) {
        Ok(r) => r,
        Err(e) => {
            return Err(e);
        },
    };
    let name_key: String = "TABLE_NAME".to_owned();
    let mut counts: Vec<u32> = Vec::new();
    let mut i: usize = 0;
    while i < rows.len()
        invariant
            0 <= i <= rows@.len(),
            counts@.len() == i,
        decreases rows@.len() - i,
    {
        match rows[i].get(&name_key) {
            Some(CellValue::Text(n)) => match query_column_count(conn, db_name, n) {
                Ok(c) => counts.push(c),
                Err(e) => {
                    return Err(e);
                },
            },
            _ => {
                return Err(AppError::driver("unexpected table name in table row"));
            },
        }
        i = i + 1;
    }
    summaries_of(&rows, &counts)
}

/// Queries the schema's size in megabytes: one round trip;
/// `db_size_from_rows` carries the exact reading.
pub fn query_db_size<C: BackendConnector>(conn: &C, db_name: &String) -> Result<DbSize, AppError> {
    let sql = build_size_query(db_name);
    let rows = match conn.exec_query(sql.as_str()) {
        Ok(r) => r,
        Err(e) => {
            return Err(e);
        },
    };
    db_size_from_rows(&rows)
}

/// Assembles the connection-details read model: the version variables of
/// `show_version`, the summaries of `query_table_summaries` and the size
/// of `query_db_size`, under the connector's stable id; the first failing
/// round trip is surfaced unchanged and no partial details come back.
pub fn connection_details<C: BackendConnector>(
    conn: &C,
    db_name: &String,
    id: String,
) -> (r: Result<DbConnectionDetails, AppError>)
    ensures
        r matches Ok(d) ==> d.id == id,
{
    let version = match show_version(conn) {
        Ok(v) => v,
        Err(e) => {
            return Err(e);
        },
    };
    let tables = match query_table_summaries(conn, db_name) {
        Ok(t) => t,
        Err(e) => {
            return Err(e);
        },
    };
    let db_size = match query_db_size(conn, db_name) {
        Ok(z) => z,
        Err(e) => {
            return Err(e);
        },
    };
    Ok(DbConnectionDetails { id, tables, version, db_size })
}

} // verus!
