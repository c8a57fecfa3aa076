use sqlx_core::database::Postgres;
use sqlx_core::error::Error;
use sqlx_core::executor::{
    execute_many_counts, execute_total, fetch_all, fetch_one, fetch_optional, fetch_rows,
    Execute, FetchStep, Query,
};

type Item = Result<FetchStep<&'static str>, Error>;

fn count(n: u64) -> Item {
    Ok(FetchStep::Count(n))
}

fn row(r: &'static str) -> Item {
    Ok(FetchStep::Row(r))
}

#[test]
fn it_preserves_execution_order() {
    // a multi-statement script mixing DDL, DML and SELECT yields its
    // counts and rows exactly in source order:
    // CREATE ...; SELECT 'a'; INSERT ...; SELECT id FROM ...
    let items: Vec<Item> = vec![count(0), row("a"), count(1), row("generated id")];
    let rows = fetch_rows(items);
    assert_eq!(rows.len(), 2);
    assert!(matches!(rows[0], Ok("a")));
    assert!(matches!(rows[1], Ok("generated id")));

    let items: Vec<Item> = vec![count(0), row("a"), count(1), row("generated id")];
    let counts = execute_many_counts(items);
    assert_eq!(counts.len(), 2);
    assert!(matches!(counts[0], Ok(0)));
    assert!(matches!(counts[1], Ok(1)));
}

#[test]
fn it_sums_affected_rows() {
    let items: Vec<Item> = vec![count(3), row("x"), count(4), count(5)];
    assert_eq!(execute_total(items).unwrap(), 12);
}

#[test]
fn it_executes_an_empty_stream_with_zero_affected_rows() {
    // an empty query string produces an empty stream: zero affected
    // rows and no error
    let items: Vec<Item> = vec![];
    assert_eq!(execute_total(items).unwrap(), 0);
}

#[test]
fn it_collects_all_rows() {
    let items: Vec<Item> = vec![row("a"), count(1), row("b")];
    assert_eq!(fetch_all(items).unwrap(), vec!["a", "b"]);
}

#[test]
fn it_aborts_collection_at_the_first_error() {
    let items: Vec<Item> = vec![row("a"), Err(Error::Protocol(String::from("bad frame")))];
    assert!(matches!(fetch_all(items), Err(Error::Protocol(_))));
}

#[test]
fn it_fetches_the_first_row_or_none() {
    // zero rows: None
    let items: Vec<Item> = vec![count(2)];
    assert_eq!(fetch_optional(items).unwrap(), None);

    // one row: Some(row), later items left unconsumed
    let items: Vec<Item> = vec![count(0), row("first"), row("second")];
    assert_eq!(fetch_optional(items).unwrap(), Some("first"));
}

#[test]
fn it_requires_exactly_one_row_for_fetch_one() {
    let items: Vec<Item> = vec![count(0)];
    assert!(matches!(fetch_one(items), Err(Error::RowNotFound)));

    let items: Vec<Item> = vec![row("only")];
    assert_eq!(fetch_one(items).unwrap(), "only");
}

#[test]
fn it_propagates_an_error_before_the_first_row() {
    let items: Vec<Item> = vec![
        Err(Error::Protocol(String::from("definitely not a correct query"))),
        row("never reached"),
    ];
    assert!(matches!(fetch_optional(items), Err(Error::Protocol(_))));
}

#[test]
fn it_executes_bare_query_strings_without_arguments() {
    let mut q: &str = "select 1 + 1";
    assert_eq!(Execute::<Postgres>::query(&q), "select 1 + 1");
    assert!(Execute::<Postgres>::take_arguments(&mut q).is_none());
}

#[test]
fn it_takes_query_arguments_only_once() {
    let mut q: Query<Postgres> = Query {
        sql: String::from("SELECT $1"),
        arguments: Some(sqlx_core::postgres::arguments::PgArguments::new()),
    };
    assert_eq!(q.query(), "SELECT $1");
    assert!(q.take_arguments().is_some());
    assert!(q.take_arguments().is_none());
}

#[test]
fn it_reports_error_kinds() {
    assert_eq!(
        Error::RowNotFound.kind_message(),
        "no rows returned by a query that expected to return at least one row"
    );
    assert_eq!(
        Error::ColumnNotFound(String::from("x")).kind_message(),
        "no column found with the given name"
    );
}

#[test]
fn it_wraps_json_values_transparently() {
    let j = sqlx_core::types::Json(5i32);
    assert_eq!(*j.as_ref(), 5);
    assert_eq!(j.into_inner(), 5);
}
