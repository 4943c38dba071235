use data_service::config::{build_config, ConfigError};
use data_service::response::{insert_response, root_response, rows_to_json};
use data_service::row::{DataRow, Value};
use data_service::service::{insert_row, list_response};
use data_service::table::{InsertError, Table};

fn row(id: i32, value: f32) -> DataRow {
    DataRow {
        id,
        value: Value {
            bits: value.to_bits(),
            text: value.to_string(),
        },
    }
}

#[test]
fn root_is_constant_hello() {
    assert_eq!(root_response(), "Hello world!");
    assert_eq!(root_response(), "Hello world!");
}

#[test]
fn config_missing_database_url_fails() {
    let r = build_config(None, Some("8080".to_string()));
    assert_eq!(r.err(), Some(ConfigError::MissingDatabaseUrl));
}

#[test]
fn config_missing_both_reports_database_url_first() {
    let r = build_config(None, None);
    assert_eq!(r.err(), Some(ConfigError::MissingDatabaseUrl));
}

#[test]
fn config_missing_port_fails() {
    let r = build_config(Some("postgres://localhost/db".to_string()), None);
    assert_eq!(r.err(), Some(ConfigError::MissingPort));
}

#[test]
fn config_complete_is_kept_as_given() {
    let c = build_config(
        Some("postgres://localhost/db".to_string()),
        Some("8080".to_string()),
    )
    .unwrap();
    assert_eq!(c.database_url.as_str(), "postgres://localhost/db");
    assert_eq!(c.port.as_str(), "8080");
    assert_eq!(
        data_service::config::bind_address(c.port.as_str()).as_str(),
        "0.0.0.0:8080"
    );
}

#[test]
fn empty_table_lists_as_empty_array() {
    let t = Table::new();
    assert_eq!(t.row_count(), 0);
    assert_eq!(list_response(&t), "[]");
}

#[test]
fn insert_confirms_with_exact_text() {
    let mut t = Table::new();
    let r = insert_row(&mut t, row(1, 3.5));
    assert_eq!(r.unwrap(), "Inserted data with id: 1, value: 3.5");
}

#[test]
fn inserted_row_appears_in_listing() {
    let mut t = Table::new();
    insert_row(&mut t, row(1, 3.5)).unwrap();
    assert_eq!(list_response(&t), "[{\"id\":1,\"value\":3.5}]");
    assert!(t.contains_id(1));
}

#[test]
fn duplicate_id_is_refused_and_table_unchanged() {
    let mut t = Table::new();
    insert_row(&mut t, row(1, 3.5)).unwrap();
    let before = list_response(&t);
    let r = insert_row(&mut t, row(1, 7.25));
    assert_eq!(r.err(), Some(InsertError::DuplicateId));
    assert_eq!(list_response(&t), before);
    assert_eq!(t.row_count(), 1);
}

#[test]
fn listing_keeps_insertion_order() {
    let mut t = Table::new();
    insert_row(&mut t, row(2, 0.5)).unwrap();
    insert_row(&mut t, row(-7, 0.25)).unwrap();
    insert_row(&mut t, row(0, 1.0)).unwrap();
    assert_eq!(
        list_response(&t),
        "[{\"id\":2,\"value\":0.5},{\"id\":-7,\"value\":0.25},{\"id\":0,\"value\":1}]"
    );
}

#[test]
fn negative_id_is_confirmed_with_sign() {
    let mut t = Table::new();
    let r = insert_row(&mut t, row(-7, 0.25));
    assert_eq!(r.unwrap(), "Inserted data with id: -7, value: 0.25");
}

#[test]
fn extreme_ids_render_exactly() {
    assert_eq!(
        insert_response(i32::MAX, "1"),
        "Inserted data with id: 2147483647, value: 1"
    );
    assert_eq!(
        insert_response(i32::MIN, "1"),
        "Inserted data with id: -2147483648, value: 1"
    );
    assert_eq!(insert_response(0, "0"), "Inserted data with id: 0, value: 0");
}

#[test]
fn value_bits_keep_the_exact_representation() {
    let r = row(1, 3.5);
    assert_eq!(f32::from_bits(r.value.bits), 3.5);
}

#[test]
fn rows_to_json_matches_listing() {
    let rows = vec![row(10, 2.5), row(11, -4.75)];
    assert_eq!(
        rows_to_json(&rows),
        "[{\"id\":10,\"value\":2.5},{\"id\":11,\"value\":-4.75}]"
    );
}
