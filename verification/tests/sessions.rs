use libsql_binding::database::opened;
use libsql_binding::open_file;
use libsql_binding::open_in_memory;
use libsql_binding::transaction::may_begin;
use libsql_binding::transaction::settle;
use futures::executor::block_on;
use libsql_binding::error::surface;
use libsql_binding::Column;
use libsql_binding::Connection;
use libsql_binding::CursorId;
use libsql_binding::Ending;
use libsql_binding::Error;
use libsql_binding::Fetched;
use libsql_binding::HostValue;
use libsql_binding::Row;
use libsql_binding::Rows;
use libsql_binding::Transaction;
use libsql_binding::TxState;
use libsql_binding::Value;
use libsql_binding::ValueType;

fn session() -> Connection {
    let db = open_in_memory().expect("an in-memory database opens");
    db.connect().expect("a session opens")
}

fn text(s: &str) -> HostValue {
    HostValue::Str(s.to_string())
}

fn kind(kind: libsql::ValueType) -> ValueType {
    match kind {
        libsql::ValueType::Integer => ValueType::Integer,
        libsql::ValueType::Real => ValueType::Real,
        libsql::ValueType::Text => ValueType::Text,
        libsql::ValueType::Blob => ValueType::Blob,
        libsql::ValueType::Null => ValueType::Null,
    }
}

fn column(record: &libsql::Row, i: i32) -> Column {
    let (value, decimal) = match record.get_value(i).expect("a value") {
        libsql::Value::Null => (Value::Null, String::new()),
        libsql::Value::Integer(n) => (Value::Integer(n), String::new()),
        libsql::Value::Real(x) => (Value::Real(x.to_bits()), x.to_string()),
        libsql::Value::Text(s) => (Value::Text(s), String::new()),
        libsql::Value::Blob(b) => (Value::Blob(b), String::new()),
    };
    Column {
        name: record.column_name(i).map(|name| name.to_owned()),
        kind: record.column_type(i).map(kind).map_err(|e| e.to_string()),
        value,
        decimal,
    }
}

fn read(fetched: Fetched) -> Row {
    let cells: Vec<Column> =
        (0..fetched.column_count()).map(|i| column(fetched.record(), i)).collect();
    fetched.into_row(cells).expect("as many columns as the cursor has")
}

fn next_row(rows: &mut Rows) -> Option<Row> {
    rows.next().expect("fetch").map(read)
}

fn next_in(tx: &mut Transaction, id: CursorId) -> Option<Row> {
    tx.next(id).expect("fetch").map(read)
}

fn name(rows: &Rows, i: i32) -> Option<String> {
    rows.column_name(i, rows.engine().column_name(i).map(|name| name.to_owned()))
}

fn name_in(tx: &Transaction, id: CursorId, i: i32) -> Result<Option<String>, Error> {
    let reported = tx.rows(id)?.engine().column_name(i).map(|name| name.to_owned());
    tx.column_name(id, i, reported)
}

fn batch(tx: &Transaction, sql: &str) -> Result<(), Error> {
    surface(block_on(tx.session()?.execute_batch(sql)).map(|_| ()))
}

fn is_engine_error<T>(r: &Result<T, Error>) -> bool {
    matches!(r, Err(Error::Engine(_)))
}

#[test]
fn create_insert_and_read_back() {
    let conn = session();
    conn.execute("CREATE TABLE t(a INTEGER, b TEXT)", &vec![]).expect("create");
    let changed = conn.execute("INSERT INTO t VALUES (1,'x')", &vec![]).expect("insert");
    assert_eq!(changed, 1);
    let mut rows = conn.query("SELECT a,b FROM t", &vec![]).expect("select");
    let first = next_row(&mut rows).expect("one record");
    assert_eq!(first.get(0), Ok(HostValue::Integer(1)));
    assert_eq!(first.get(1), Ok(HostValue::Str("x".to_string())));
    let second = rows.next().expect("second fetch");
    assert!(second.is_none());
}

#[test]
fn record_has_the_cursors_columns() {
    let conn = session();
    conn.execute("CREATE TABLE t(a INTEGER, b TEXT, c BLOB)", &vec![]).expect("create");
    conn.execute("INSERT INTO t VALUES (1,'x',x'00ff')", &vec![]).expect("insert");
    let mut rows = conn.query("SELECT a,b,c FROM t", &vec![]).expect("select");
    assert_eq!(rows.column_count(), 3);
    let row = next_row(&mut rows).expect("one record");
    assert_eq!(row.column_count(), 3);
    assert_eq!(row.column_name(0), Some("a".to_string()));
    assert_eq!(row.column_name(2), Some("c".to_string()));
    assert_eq!(row.column_name(3), None);
    assert_eq!(row.column_type(0), Ok(ValueType::Integer));
    assert_eq!(row.column_type(1), Ok(ValueType::Text));
    assert_eq!(row.column_type(2), Ok(ValueType::Blob));
    assert_eq!(row.get(2), Ok(HostValue::Bytes(vec![0, 255])));
    assert_eq!(row.get(3), Err(Error::IndexOutOfRange(3)));
    assert_eq!(row.get(-1), Err(Error::IndexOutOfRange(-1)));
}

#[test]
fn record_survives_the_cursor_moving_on() {
    let conn = session();
    conn.execute("CREATE TABLE t(a INTEGER)", &vec![]).expect("create");
    conn.execute("INSERT INTO t VALUES (1),(2)", &vec![]).expect("insert");
    let mut rows = conn.query("SELECT a FROM t ORDER BY a", &vec![]).expect("select");
    let first = next_row(&mut rows).expect("first record");
    let second = next_row(&mut rows).expect("second record");
    assert_eq!(first.get(0), Ok(HostValue::Integer(1)));
    assert_eq!(second.get(0), Ok(HostValue::Integer(2)));
    assert!(rows.next().expect("fetch").is_none());
    assert_eq!(first.get(0), Ok(HostValue::Integer(1)));
}

#[test]
fn column_count_stays_the_same() {
    let conn = session();
    conn.execute("CREATE TABLE t(a INTEGER, b TEXT)", &vec![]).expect("create");
    conn.execute("INSERT INTO t VALUES (1,'x'),(2,'y')", &vec![]).expect("insert");
    let mut rows = conn.query("SELECT a,b FROM t", &vec![]).expect("select");
    assert_eq!(rows.column_count(), 2);
    let mut fetched: u32 = 0;
    while let Some(row) = next_row(&mut rows) {
        assert_eq!(row.column_count(), 2);
        assert_eq!(rows.column_count(), 2);
        fetched += 1;
    }
    assert_eq!(fetched, 2);
    assert_eq!(rows.column_count(), 2);
    assert!(rows.next().expect("fetch").is_none());
    assert_eq!(rows.column_count(), 2);
}

#[test]
fn end_of_results_is_final() {
    let conn = session();
    conn.execute("CREATE TABLE t(a INTEGER)", &vec![]).expect("create");
    conn.execute("INSERT INTO t VALUES (1)", &vec![]).expect("insert");
    let mut rows = conn.query("SELECT a FROM t", &vec![]).expect("select");
    assert!(!rows.at_end());
    assert!(rows.next().expect("fetch").is_some());
    assert!(rows.next().expect("fetch").is_none());
    assert!(rows.at_end());
    let mut again: u32 = 0;
    while again < 5 {
        assert!(matches!(rows.next(), Ok(None)));
        assert!(rows.at_end());
        again += 1;
    }
}

#[test]
fn empty_result_ends_at_once() {
    let conn = session();
    conn.execute("CREATE TABLE t(a INTEGER)", &vec![]).expect("create");
    let mut rows = conn.query("SELECT a FROM t", &vec![]).expect("select");
    assert_eq!(rows.column_count(), 1);
    assert!(matches!(rows.next(), Ok(None)));
    assert!(matches!(rows.next(), Ok(None)));
}

#[test]
fn cursor_metadata() {
    let conn = session();
    conn.execute("CREATE TABLE t(a INTEGER, b TEXT)", &vec![]).expect("create");
    let rows = conn.query("SELECT a, b AS bee FROM t", &vec![]).expect("select");
    assert_eq!(name(&rows, 0), Some("a".to_string()));
    assert_eq!(name(&rows, 1), Some("bee".to_string()));
    assert_eq!(name(&rows, 2), None);
    assert_eq!(name(&rows, -1), None);
    assert_eq!(rows.column_type(2), Err(Error::IndexOutOfRange(2)));
    assert_eq!(rows.column_type(-1), Err(Error::IndexOutOfRange(-1)));
    let inside = rows.column_type(0);
    assert!(inside.is_ok() || is_engine_error(&inside));
}

#[test]
fn cursor_name_is_the_report_within_the_columns() {
    let conn = session();
    let rows = conn.query("SELECT 1 AS one, 2 AS two", &vec![]).expect("select");
    assert_eq!(rows.column_count(), 2);
    assert_eq!(rows.column_name(0, Some("given".to_string())), Some("given".to_string()));
    assert_eq!(rows.column_name(1, None), None);
    assert_eq!(rows.column_name(2, Some("beyond".to_string())), None);
    assert_eq!(rows.column_name(-1, Some("before".to_string())), None);
    assert_eq!(name(&rows, 1), Some("two".to_string()));
}

#[test]
fn cursor_kind_follows_the_record() {
    let conn = session();
    let mut rows = conn.query("SELECT 1, 'x', x'00', NULL, 1.5", &vec![]).expect("select");
    let row = next_row(&mut rows).expect("one record");
    assert_eq!(rows.column_type(0), Ok(ValueType::Integer));
    assert_eq!(rows.column_type(1), Ok(ValueType::Text));
    assert_eq!(rows.column_type(2), Ok(ValueType::Blob));
    assert_eq!(rows.column_type(3), Ok(ValueType::Null));
    assert_eq!(rows.column_type(4), Ok(ValueType::Real));
    assert_eq!(rows.column_type(5), Err(Error::IndexOutOfRange(5)));
    assert_eq!(row.column_type(4), Ok(ValueType::Real));
    let expected = format!(
        "Row {{\n{}1: 1,\n'x': x,\nx'00': \u{0},\nNULL: null,\n1.5: 1.5\n{}}}",
        " ".repeat(20),
        " ".repeat(16)
    );
    assert_eq!(row.to_display_string(), expected);
}

#[test]
fn fetched_record_takes_exactly_the_cursors_columns() {
    let conn = session();
    conn.execute("CREATE TABLE t(a INTEGER, b INTEGER)", &vec![]).expect("create");
    conn.execute("INSERT INTO t VALUES (1,2),(3,4),(5,6)", &vec![]).expect("insert");
    let mut rows = conn.query("SELECT a, b FROM t ORDER BY a", &vec![]).expect("select");
    let first = rows.next().expect("fetch").expect("first record");
    assert_eq!(first.column_count(), 2);
    let one = vec![column(first.record(), 0)];
    assert!(matches!(first.into_row(one), Err(Error::IndexOutOfRange(1))));
    let second = rows.next().expect("fetch").expect("second record");
    let three =
        vec![column(second.record(), 0), column(second.record(), 1), column(second.record(), 1)];
    assert!(matches!(second.into_row(three), Err(Error::IndexOutOfRange(2))));
    let third = rows.next().expect("fetch").expect("third record");
    assert!(matches!(third.into_row(vec![]), Err(Error::IndexOutOfRange(0))));
    let row = {
        let mut again = conn.query("SELECT a, b FROM t ORDER BY a", &vec![]).expect("select");
        next_row(&mut again).expect("first record")
    };
    assert_eq!(row.get(1), Ok(HostValue::Integer(2)));
}

#[test]
fn path_with_a_zero_byte_opens_and_does_not_connect() {
    let db = open_file("/tmp/bad\0name.db").expect("the engine builds a handle for any path");
    assert!(matches!(
        db.connect(),
        Err(Error::Connection(ref m)) if m == "the path holds a zero byte"
    ));
    assert!(matches!(
        db.connect(),
        Err(Error::Connection(ref m)) if m == "the path holds a zero byte"
    ));
    let other = open_file("\0").expect("the engine builds a handle for any path");
    assert!(matches!(other.connect(), Err(Error::Connection(_))));
}

#[test]
fn path_that_the_engine_takes_for_memory_connects() {
    let db = open_file(":memory:/").expect("a handle");
    let conn = db.connect().expect("a session");
    conn.execute("CREATE TABLE t(a INTEGER)", &vec![]).expect("create");
    assert_eq!(conn.execute("INSERT INTO t VALUES (1)", &vec![]), Ok(1));
}

fn raw_record(sql: &str) -> libsql::Row {
    let db = block_on(libsql::Builder::new_local(":memory:").build()).expect("a database");
    let conn = db.connect().expect("a session");
    let mut rows = block_on(conn.query(sql, ())).expect("a result set");
    block_on(rows.next()).expect("a fetch").expect("a record")
}

#[test]
fn take_hands_out_the_record_in_the_reply() {
    let conn = session();
    let mut rows = conn.query("SELECT 1, 2", &vec![]).expect("select");
    let fetched = rows.take(Ok(Some(raw_record("SELECT 10, 20")))).expect("taken").expect("a record");
    assert_eq!(fetched.column_count(), 2);
    assert!(!rows.at_end());
    let row = read(fetched);
    assert_eq!(row.get(0), Ok(HostValue::Integer(10)));
    assert_eq!(row.get(1), Ok(HostValue::Integer(20)));
    let again = rows.take(Ok(Some(raw_record("SELECT 30, 40")))).expect("taken").expect("a record");
    assert_eq!(read(again).get(1), Ok(HostValue::Integer(40)));
    assert_eq!(rows.column_count(), 2);
}

#[test]
fn take_passes_the_engines_error_on() {
    let conn = session();
    let mut rows = conn.query("SELECT 1", &vec![]).expect("select");
    let r = rows.take(Err(libsql::Error::Misuse("broken".to_string())));
    assert!(matches!(r, Err(Error::Engine(ref m)) if m == "API misuse: `broken`"));
    assert!(!rows.at_end());
    assert!(rows.next().expect("fetch").is_some());
}

#[test]
fn take_makes_the_engines_end_final() {
    let conn = session();
    let mut rows = conn.query("SELECT 1", &vec![]).expect("select");
    assert!(matches!(rows.take(Ok(None)), Ok(None)));
    assert!(rows.at_end());
    assert!(matches!(rows.take(Ok(Some(raw_record("SELECT 5")))), Ok(None)));
    assert!(matches!(rows.take(Err(libsql::Error::NullValue)), Ok(None)));
    assert!(matches!(rows.next(), Ok(None)));
    assert!(rows.at_end());
    assert_eq!(rows.column_count(), 1);
}

#[test]
fn session_is_handed_out_only_while_active() {
    let conn = session();
    let mut tx = conn.transaction().expect("begin");
    assert!(tx.session().is_ok());
    assert_eq!(tx.rollback(), Ok(()));
    assert!(matches!(tx.session(), Err(Error::AlreadyFinalized)));
    assert!(matches!(tx.rows(CursorId { index: 0 }), Err(Error::StaleReference)));
}

#[test]
fn text_parameter_round_trips() {
    let conn = session();
    conn.execute("CREATE TABLE t(i INTEGER, r REAL, s TEXT)", &vec![]).expect("create");
    let params = vec![text("42"), text("1.5"), text("héllo wörld")];
    conn.execute("INSERT INTO t VALUES (?1, ?2, ?3)", &params).expect("insert");
    let mut rows = conn.query("SELECT i, r, s FROM t", &vec![]).expect("select");
    let row = next_row(&mut rows).expect("one record");
    assert_eq!(row.get(0), Ok(HostValue::Integer(42)));
    assert_eq!(row.get(1), Ok(HostValue::Number(1.5f64.to_bits())));
    assert_eq!(row.get(2), Ok(HostValue::Str("héllo wörld".to_string())));
}

#[test]
fn query_parameters_select() {
    let conn = session();
    conn.execute("CREATE TABLE t(a TEXT)", &vec![]).expect("create");
    conn.execute("INSERT INTO t VALUES ('x'),('y')", &vec![]).expect("insert");
    let mut rows = conn.query("SELECT a FROM t WHERE a = ?1", &vec![text("y")]).expect("select");
    let row = next_row(&mut rows).expect("one record");
    assert_eq!(row.get(0), Ok(HostValue::Str("y".to_string())));
    assert!(rows.next().expect("fetch").is_none());
}

#[test]
fn non_string_parameter_is_a_type_mismatch() {
    let conn = session();
    conn.execute("CREATE TABLE t(a INTEGER)", &vec![]).expect("create");
    let bad = vec![HostValue::Integer(1)];
    assert_eq!(conn.execute("INSERT INTO t VALUES (?1)", &bad), Err(Error::TypeMismatch));
    assert!(matches!(conn.query("SELECT ?1", &bad), Err(Error::TypeMismatch)));
    let mut rows = conn.query("SELECT count(*) FROM t", &vec![]).expect("select");
    let row = next_row(&mut rows).expect("one record");
    assert_eq!(row.get(0), Ok(HostValue::Integer(0)));
}

#[test]
fn engine_failure_is_an_engine_error() {
    let conn = session();
    let r = conn.execute("INSERT INTO missing VALUES (1)", &vec![]);
    assert!(is_engine_error(&r));
    match r {
        Err(e) => assert!(e.message().contains("missing")),
        Ok(_) => panic!("the table does not exist"),
    }
    assert!(matches!(conn.query("SELEKT 1", &vec![]), Err(Error::Engine(_))));
}

#[test]
fn mismatched_parameter_count_does_not_crash() {
    let conn = session();
    conn.execute("CREATE TABLE t(a TEXT, b TEXT)", &vec![]).expect("create");
    let too_many = vec![text("1"), text("2"), text("3")];
    let r = conn.query("SELECT a FROM t WHERE a = ?1", &too_many);
    assert!(r.is_ok() || matches!(r, Err(Error::Engine(_))));
    let too_few = vec![text("1")];
    let q = conn.execute("INSERT INTO t VALUES (?1, ?2)", &too_few);
    assert!(q.is_ok() || is_engine_error(&q));
}

#[test]
fn changes_and_rowid_follow_the_engine() {
    let conn = session();
    conn.execute("CREATE TABLE t(a INTEGER)", &vec![]).expect("create");
    conn.execute("INSERT INTO t VALUES (5),(6),(7)", &vec![]).expect("insert");
    assert_eq!(conn.changes(), 3);
    assert_eq!(conn.last_insert_rowid(), 3);
}

#[test]
fn rollback_undoes_and_ends_the_transaction() {
    let db = open_file("/tmp/libsql_binding_rollback.db").expect("a database file opens");
    let conn = db.connect().expect("a session opens");
    conn.execute("CREATE TABLE IF NOT EXISTS t(a INTEGER)", &vec![]).expect("create");
    conn.execute("DELETE FROM t", &vec![]).expect("clear");
    let mut tx = conn.transaction().expect("begin");
    assert_eq!(tx.current_state(), TxState::Active);
    assert_eq!(tx.execute("INSERT INTO t VALUES (1)", &vec![]), Ok(1));
    assert_eq!(tx.rollback(), Ok(()));
    assert_eq!(tx.current_state(), TxState::RolledBack);
    let fresh = db.connect().expect("a second session opens");
    let mut rows = fresh.query("SELECT count(*) FROM t", &vec![]).expect("select");
    let row = next_row(&mut rows).expect("one record");
    assert_eq!(row.get(0), Ok(HostValue::Integer(0)));
    assert_eq!(tx.commit(), Err(Error::AlreadyFinalized));
    assert_eq!(tx.current_state(), TxState::RolledBack);
}

#[test]
fn commit_keeps_and_ends_the_transaction() {
    let conn = session();
    conn.execute("CREATE TABLE t(a INTEGER)", &vec![]).expect("create");
    let mut tx = conn.transaction().expect("begin");
    assert_eq!(tx.execute("INSERT INTO t VALUES (1)", &vec![]), Ok(1));
    assert_eq!(tx.commit(), Ok(()));
    assert_eq!(tx.current_state(), TxState::Committed);
    assert_eq!(tx.commit(), Err(Error::AlreadyFinalized));
    assert_eq!(tx.rollback(), Err(Error::AlreadyFinalized));
    assert_eq!(tx.current_state(), TxState::Committed);
    let mut rows = conn.query("SELECT count(*) FROM t", &vec![]).expect("select");
    let row = next_row(&mut rows).expect("one record");
    assert_eq!(row.get(0), Ok(HostValue::Integer(1)));
}

#[test]
fn ended_transaction_refuses_everything() {
    let conn = session();
    conn.execute("CREATE TABLE t(a INTEGER)", &vec![]).expect("create");
    let mut tx = conn.transaction().expect("begin");
    assert_eq!(tx.finish(Ending::Rollback), Ok(()));
    assert_eq!(tx.execute("INSERT INTO t VALUES (1)", &vec![]), Err(Error::AlreadyFinalized));
    assert_eq!(batch(&tx, "DELETE FROM t"), Err(Error::AlreadyFinalized));
    assert_eq!(tx.query("SELECT 1", &vec![]), Err(Error::AlreadyFinalized));
    assert_eq!(tx.execute("x", &vec![HostValue::Nil]), Err(Error::AlreadyFinalized));
    assert_eq!(tx.finish(Ending::Commit), Err(Error::AlreadyFinalized));
    assert_eq!(tx.finish(Ending::Rollback), Err(Error::AlreadyFinalized));
}

#[test]
fn transaction_runs_batches_and_refuses_bad_parameters() {
    let conn = session();
    let mut tx = conn.transaction().expect("begin");
    assert_eq!(
        batch(&tx, "CREATE TABLE t(a INTEGER); INSERT INTO t VALUES (1); INSERT INTO t VALUES (2);"),
        Ok(())
    );
    assert!(tx.session().is_ok());
    assert_eq!(tx.execute("INSERT INTO t VALUES (?1)", &vec![HostValue::Nil]), Err(Error::TypeMismatch));
    assert_eq!(tx.query("SELECT ?1", &vec![HostValue::Bytes(vec![])]), Err(Error::TypeMismatch));
    assert!(is_engine_error(&batch(&tx, "NOT SQL AT ALL")));
    assert!(is_engine_error(&tx.execute("INSERT INTO absent VALUES (1)", &vec![])));
    assert_eq!(tx.current_state(), TxState::Active);
    assert_eq!(tx.commit(), Ok(()));
    let mut rows = conn.query("SELECT count(*) FROM t", &vec![]).expect("select");
    let row = next_row(&mut rows).expect("one record");
    assert_eq!(row.get(0), Ok(HostValue::Integer(2)));
}

#[test]
fn transaction_cursor_is_reached_by_handle() {
    let conn = session();
    conn.execute("CREATE TABLE t(a INTEGER, b TEXT)", &vec![]).expect("create");
    let mut tx = conn.transaction().expect("begin");
    tx.execute("INSERT INTO t VALUES (?1, ?2)", &vec![text("7"), text("seven")]).expect("insert");
    let id = tx.query("SELECT a, b FROM t", &vec![]).expect("select");
    assert_eq!(id, CursorId { index: 0 });
    assert_eq!(tx.column_count(id), Ok(2));
    assert_eq!(name_in(&tx, id, 1), Ok(Some("b".to_string())));
    assert_eq!(name_in(&tx, id, 2), Ok(None));
    assert_eq!(tx.column_type(id, 2), Err(Error::IndexOutOfRange(2)));
    let row = next_in(&mut tx, id).expect("one record");
    assert_eq!(row.get(0), Ok(HostValue::Integer(7)));
    assert_eq!(row.get(1), Ok(HostValue::Str("seven".to_string())));
    assert!(matches!(tx.next(id), Ok(None)));
    assert!(matches!(tx.next(id), Ok(None)));
    let second = tx.query("SELECT a FROM t", &vec![]).expect("select");
    assert_eq!(second, CursorId { index: 1 });
    assert_eq!(tx.column_count(second), Ok(1));
    assert_eq!(tx.commit(), Ok(()));
    assert_eq!(row.get(0), Ok(HostValue::Integer(7)));
}

#[test]
fn cursor_of_an_ended_transaction_is_stale() {
    let conn = session();
    conn.execute("CREATE TABLE t(a INTEGER)", &vec![]).expect("create");
    conn.execute("INSERT INTO t VALUES (1),(2)", &vec![]).expect("insert");
    let mut tx = conn.transaction().expect("begin");
    let id = tx.query("SELECT a FROM t", &vec![]).expect("select");
    assert!(tx.next(id).expect("fetch").is_some());
    assert_eq!(tx.rollback(), Ok(()));
    assert!(matches!(tx.next(id), Err(Error::StaleReference)));
    assert_eq!(tx.column_count(id), Err(Error::StaleReference));
    assert_eq!(name_in(&tx, id, 0), Err(Error::StaleReference));
    assert_eq!(tx.column_type(id, 0), Err(Error::StaleReference));
}

#[test]
fn unknown_handle_is_stale() {
    let conn = session();
    let mut tx = conn.transaction().expect("begin");
    let never = CursorId { index: 0 };
    assert!(matches!(tx.next(never), Err(Error::StaleReference)));
    assert_eq!(tx.column_count(never), Err(Error::StaleReference));
    let id = tx.query("SELECT 1", &vec![]).expect("select");
    let beyond = CursorId { index: id.index + 1 };
    assert!(matches!(tx.next(beyond), Err(Error::StaleReference)));
    assert!(matches!(tx.next(CursorId { index: usize::MAX }), Err(Error::StaleReference)));
    assert!(tx.next(id).expect("fetch").is_some());
}

#[test]
fn second_transaction_on_a_busy_session_conflicts() {
    let conn = session();
    let mut first = conn.transaction().expect("begin");
    assert!(matches!(conn.transaction(), Err(Error::ConcurrencyConflict)));
    assert_eq!(first.current_state(), TxState::Active);
    assert_eq!(first.commit(), Ok(()));
    let mut second = conn.transaction().expect("begin again");
    assert_eq!(second.rollback(), Ok(()));
}

#[test]
fn ended_transaction_reports_what_it_saw_last() {
    let conn = session();
    conn.execute("CREATE TABLE t(a INTEGER)", &vec![]).expect("create");
    let mut tx = conn.transaction().expect("begin");
    assert!(!tx.is_autocommit());
    tx.execute("INSERT INTO t VALUES (1),(2)", &vec![]).expect("insert");
    assert_eq!(tx.changes(), 2);
    assert_eq!(tx.last_insert_rowid(), 2);
    assert_eq!(tx.commit(), Ok(()));
    conn.execute("INSERT INTO t VALUES (3),(4),(5)", &vec![]).expect("insert");
    assert_eq!(conn.changes(), 3);
    assert_eq!(tx.changes(), 2);
    assert_eq!(tx.last_insert_rowid(), 2);
    assert!(!tx.is_autocommit());
    assert_eq!(tx.changes(), 2);
}

#[test]
fn settle_follows_the_engines_answer() {
    assert_eq!(settle(Ending::Commit, Ok(())), (TxState::Committed, Ok(())));
    assert_eq!(settle(Ending::Rollback, Ok(())), (TxState::RolledBack, Ok(())));
    let failed = settle(Ending::Commit, Err(libsql::Error::Misuse("late".to_string())));
    assert_eq!(failed, (TxState::Failed, Err(Error::Engine("API misuse: `late`".to_string()))));
    let undone = settle(Ending::Rollback, Err(libsql::Error::NullValue));
    assert_eq!(undone, (TxState::Failed, Err(Error::Engine("Null value".to_string()))));
}

#[test]
fn only_an_idle_session_may_begin() {
    assert_eq!(may_begin(true), Ok(()));
    assert_eq!(may_begin(false), Err(Error::ConcurrencyConflict));
}

#[test]
fn failure_to_open_is_a_connection_error() {
    let r = opened("anywhere.db", Err(libsql::Error::ConnectionFailed("down".to_string())));
    assert!(matches!(
        r,
        Err(Error::Connection(ref m)) if m == "Failed to connect to database: `down`"
    ));
}

#[test]
fn unreachable_file_is_a_connection_error() {
    let outcome = match open_file("/no/such/directory/anywhere/data.db") {
        Ok(db) => db.connect().map(|_| ()),
        Err(e) => Err(e),
    };
    assert!(matches!(outcome, Err(Error::Connection(_))));
}

#[test]
fn sessions_of_one_database_share_it() {
    let db = open_file("/tmp/libsql_binding_shared.db").expect("a database file opens");
    let one = db.connect().expect("a session opens");
    let two = db.connect().expect("a second session opens");
    one.execute("CREATE TABLE IF NOT EXISTS t(a TEXT)", &vec![]).expect("create");
    one.execute("DELETE FROM t", &vec![]).expect("clear");
    one.execute("INSERT INTO t VALUES (?1)", &vec![text("shared")]).expect("insert");
    let mut rows = two.query("SELECT a FROM t", &vec![]).expect("select");
    let row = next_row(&mut rows).expect("one record");
    assert_eq!(row.get(0), Ok(HostValue::Str("shared".to_string())));
}

#[test]
fn fetching_leaves_the_record_unread() {
    let conn = session();
    let mut rows = conn.query("SELECT CAST(x'ff' AS TEXT), 7", &vec![]).expect("select");
    let fetched = rows.next().expect("fetch").expect("one record");
    assert_eq!(fetched.column_count(), 2);
    assert_eq!(rows.column_type(0), Ok(ValueType::Text));
    assert_eq!(rows.column_type(1), Ok(ValueType::Integer));
    let cells = vec![
        Column {
            name: None,
            kind: Ok(ValueType::Text),
            value: Value::Blob(vec![0xff]),
            decimal: String::new(),
        },
        column(fetched.record(), 1),
    ];
    let row = fetched.into_row(cells).expect("two columns");
    assert_eq!(row.get(0), Ok(HostValue::Bytes(vec![0xff])));
    assert_eq!(row.get(1), Ok(HostValue::Integer(7)));
    assert!(matches!(rows.next(), Ok(None)));
}
