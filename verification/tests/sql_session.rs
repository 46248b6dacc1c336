//! Drives the library through a real database session: the scalar function
//! is registered on an in-memory connection under the library's registration
//! record, then evaluated from SQL, the way the host engine evaluates it.

use hamming_ext::extension::{STATUS_GENERIC_ERROR, STATUS_OK};
use hamming_ext::{hamming_distance, hamming_registration};
use rusqlite::functions::FunctionFlags;
use rusqlite::Connection;

fn register_hamming(conn: &Connection) -> rusqlite::Result<()> {
    let reg = hamming_registration();
    let mut flags = FunctionFlags::empty();
    if reg.utf8_only {
        flags |= FunctionFlags::SQLITE_UTF8;
    }
    if reg.deterministic {
        flags |= FunctionFlags::SQLITE_DETERMINISTIC;
    }
    conn.create_scalar_function(reg.name, reg.arity, flags, |ctx| {
        let a: Vec<u8> = ctx.get(0)?;
        let b: Vec<u8> = ctx.get(1)?;
        assert!(a.len() <= (i64::MAX / 8) as usize);
        hamming_distance(&a, &b).map_err(|e| {
            rusqlite::Error::UserFunctionError(Box::new(std::io::Error::new(
                std::io::ErrorKind::InvalidInput,
                e.message(),
            )))
        })
    })
}

fn eval(conn: &Connection, sql: &str) -> rusqlite::Result<i64> {
    conn.query_row(sql, [], |row| row.get(0))
}

#[test]
fn sql_callers_see_the_distance_after_registration() {
    let conn = Connection::open_in_memory().unwrap();
    register_hamming(&conn).unwrap();
    assert_eq!(eval(&conn, "SELECT hamming_distance(x'00', x'FF')"), Ok(8));
    assert_eq!(eval(&conn, "SELECT hamming_distance(x'', x'')"), Ok(0));
    assert_eq!(
        eval(&conn, "SELECT hamming_distance(x'0000', x'0001')"),
        Ok(1)
    );
}

#[test]
fn two_independent_sql_evaluations_agree() {
    let conn = Connection::open_in_memory().unwrap();
    register_hamming(&conn).unwrap();
    let first = eval(&conn, "SELECT hamming_distance(x'AA', x'55')").unwrap();
    let second = eval(&conn, "SELECT hamming_distance(x'AA', x'55')").unwrap();
    assert_eq!(first, 8);
    assert_eq!(second, 8);
}

#[test]
fn a_length_mismatch_is_a_row_level_error_not_a_crash() {
    let conn = Connection::open_in_memory().unwrap();
    register_hamming(&conn).unwrap();
    let err = eval(&conn, "SELECT hamming_distance(x'00', x'0000')");
    assert!(err.is_err());
    let msg = format!("{}", err.unwrap_err());
    assert!(msg.contains("BLOBs must be same length"));
    // the connection survives and later statements still work
    assert_eq!(eval(&conn, "SELECT hamming_distance(x'01', x'03')"), Ok(1));
}

#[test]
fn library_status_codes_are_the_host_status_codes() {
    assert_eq!(STATUS_OK, rusqlite::ffi::SQLITE_OK);
    assert_eq!(STATUS_GENERIC_ERROR, rusqlite::ffi::SQLITE_ERROR);
}
