use inventory_demo::config::{variable_name, Config, ConfigError};
use inventory_demo::driver::{Action, Driver, Event, SqlType, SqlValue};
use inventory_demo::sql;

fn some(s: &str) -> Option<String> {
    Some(s.to_string())
}

#[test]
fn missing_host_is_reported_first() {
    let r = Config::from_env(None, None, None, None);
    assert_eq!(r.err(), Some(ConfigError::MissingHost));
    let r = Config::from_env(None, some("u"), some("p"), None);
    assert_eq!(r.err(), Some(ConfigError::MissingHost));
}

#[test]
fn missing_user_and_password_are_reported() {
    let r = Config::from_env(some("h"), None, some("p"), None);
    assert_eq!(r.err(), Some(ConfigError::MissingUser));
    let r = Config::from_env(some("h"), some("u"), None, None);
    assert_eq!(r.err(), Some(ConfigError::MissingPassword));
}

#[test]
fn error_names_the_missing_variable() {
    assert_eq!(variable_name(ConfigError::MissingHost), "POSTGRES_HOST");
    assert_eq!(variable_name(ConfigError::MissingUser), "POSTGRES_USER");
    assert_eq!(
        variable_name(ConfigError::MissingPassword),
        "POSTGRES_PASSWORD"
    );
}

#[test]
fn dbname_defaults_to_postgres() {
    let c = Config::from_env(some("h"), some("u"), some("p"), None).unwrap();
    assert_eq!(c.dbname, "postgres");
    let c = Config::from_env(some("h"), some("u"), some("p"), some("mydb")).unwrap();
    assert_eq!(c.dbname, "mydb");
}

#[test]
fn connection_url_is_exact_and_demands_tls() {
    let c = Config::from_env(some("db.example"), some("alice"), some("sekrit"), None).unwrap();
    let url = c.connection_url();
    assert_eq!(
        url,
        "host=db.example port=5432 user=alice password=sekrit dbname=postgres sslmode=require"
    );
    assert!(url.ends_with(" sslmode=require"));
}

#[test]
fn statement_texts_are_the_fixed_ones() {
    assert_eq!(
        sql::create_table_sql(),
        "CREATE TABLE inventory (id serial PRIMARY KEY, name VARCHAR(50), quantity INTEGER);"
    );
    assert_eq!(sql::drop_table_sql(), "DROP TABLE inventory");
    assert_eq!(
        sql::insert_sql(),
        "INSERT INTO inventory (name, quantity) VALUES ($1, $2) RETURNING id;"
    );
    assert_eq!(sql::select_all_sql(), "SELECT * FROM inventory;");
    assert_eq!(
        sql::select_by_id_sql(),
        "SELECT name, quantity FROM inventory where id=$1;"
    );
    assert_eq!(
        sql::update_sql(),
        "UPDATE inventory SET quantity = $1 WHERE name = $2 RETURNING quantity;"
    );
    assert_eq!(
        sql::delete_sql(),
        "DELETE FROM inventory WHERE id = $1 RETURNING id,name,quantity;"
    );
}

#[test]
fn item_names_carry_their_number() {
    assert_eq!(sql::item_name(1), "item-1");
    assert_eq!(sql::item_name(2), "item-2");
    assert_eq!(sql::item_name(3), "item-3");
    assert_eq!(sql::item_name(4), "item-4");
    assert_eq!(sql::item_name(5), "item-5");
}

fn expect_insert(a: &Action, name: &str, quantity: Option<i32>, typed: bool) {
    match a {
        Action::QueryOne { sql: s, types, params } => {
            assert_eq!(s, sql::insert_sql());
            if typed {
                assert_eq!(types.len(), 2);
                assert!(matches!(types[0], SqlType::Varchar));
                assert!(matches!(types[1], SqlType::Int4));
            } else {
                assert!(types.is_empty());
            }
            assert_eq!(params.len(), 2);
            match &params[0] {
                SqlValue::Text(n) => assert_eq!(n, name),
                _ => panic!("first insert parameter must be the name"),
            }
            match &params[1] {
                SqlValue::Int(v) => match quantity {
                    Some(q) => assert_eq!(*v, q),
                    None => assert!((10..=50).contains(v)),
                },
                _ => panic!("second insert parameter must be the quantity"),
            }
        }
        _ => panic!("expected an insert"),
    }
}

fn expect_update(a: &Action, name: &str) {
    match a {
        Action::QueryOne { sql: s, types, params } => {
            assert_eq!(s, sql::update_sql());
            assert_eq!(types.len(), 2);
            assert!(matches!(types[0], SqlType::Int4));
            assert!(matches!(types[1], SqlType::Varchar));
            assert_eq!(params.len(), 2);
            match &params[0] {
                SqlValue::Int(v) => assert!((10..=50).contains(v)),
                _ => panic!("first update parameter must be the quantity"),
            }
            match &params[1] {
                SqlValue::Text(n) => assert_eq!(n, name),
                _ => panic!("second update parameter must be the name"),
            }
        }
        _ => panic!("expected an update"),
    }
}

#[test]
fn driver_walks_the_whole_session_in_order() {
    let mut d = Driver::new();
    let a = d.next(Event::Start);
    assert!(matches!(&a, Action::Execute { sql: s } if s == sql::drop_table_sql()));
    // dropping an absent table fails, and that is tolerated
    let a = d.next(Event::Failed);
    assert!(matches!(&a, Action::Execute { sql: s } if s == sql::create_table_sql()));
    let a = d.next(Event::Succeeded);
    expect_insert(&a, "item-1", Some(42), false);
    let a = d.next(Event::Succeeded);
    expect_insert(&a, "item-2", Some(43), true);
    let a = d.next(Event::Succeeded);
    expect_insert(&a, "item-3", None, true);
    let a = d.next(Event::Succeeded);
    expect_insert(&a, "item-4", None, true);
    let a = d.next(Event::Succeeded);
    expect_insert(&a, "item-5", None, true);
    let a = d.next(Event::Succeeded);
    expect_insert(&a, "item-1", None, true);
    let a = d.next(Event::Succeeded);
    match &a {
        Action::QueryOne { sql: s, types, params } => {
            assert_eq!(s, sql::select_by_id_sql());
            assert_eq!(types.len(), 1);
            assert!(matches!(types[0], SqlType::Int4));
            assert!(matches!(params[0], SqlValue::Int(1)));
        }
        _ => panic!("expected the point lookup"),
    }
    let a = d.next(Event::Succeeded);
    assert!(matches!(&a, Action::QueryAll { sql: s } if s == sql::select_all_sql()));
    let a = d.next(Event::Succeeded);
    expect_update(&a, "item-1");
    let a = d.next(Event::Succeeded);
    expect_update(&a, "item-2");
    let a = d.next(Event::Succeeded);
    expect_update(&a, "item-3");
    let a = d.next(Event::Succeeded);
    expect_update(&a, "item-4");
    let a = d.next(Event::Succeeded);
    expect_update(&a, "item-5");
    let a = d.next(Event::Succeeded);
    match &a {
        Action::QueryOne { sql: s, types, params } => {
            assert_eq!(s, sql::delete_sql());
            assert_eq!(types.len(), 1);
            assert!(matches!(types[0], SqlType::Int4));
            match &params[0] {
                SqlValue::Int(v) => assert!((1..=5).contains(v)),
                _ => panic!("the delete parameter must be the id"),
            }
        }
        _ => panic!("expected the delete"),
    }
    let a = d.next(Event::Succeeded);
    assert!(matches!(a, Action::Close));
    let a = d.next(Event::Succeeded);
    assert!(matches!(a, Action::Done { ok: true }));
    // the finished session stays finished
    let a = d.next(Event::Succeeded);
    assert!(matches!(a, Action::Done { ok: true }));
}

#[test]
fn any_failure_after_the_drop_is_fatal() {
    let mut d = Driver::new();
    d.next(Event::Start);
    d.next(Event::Succeeded);
    // the create fails
    let a = d.next(Event::Failed);
    assert!(matches!(a, Action::Done { ok: false }));
    let a = d.next(Event::Succeeded);
    assert!(matches!(a, Action::Done { ok: false }));
}
