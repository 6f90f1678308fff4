use ticket_entries::entry::{CreateEntry, UpdateEntry};
use ticket_entries::errors::RepoError;
use ticket_entries::sql::{
    build_update, delete_statement, id_params, insert_params, insert_statement,
    select_all_statement, select_by_id_statement, SqlValue,
};

fn no_update() -> UpdateEntry {
    UpdateEntry {
        customer_id: None,
        customer_name: None,
        show_name: None,
        ticket_count: None,
        showtime: None,
    }
}

#[test]
fn fixed_statements_are_exact() {
    assert_eq!(
        select_all_statement(),
        "SELECT id, customer_id, customer_name, show_name, ticket_count, showtime FROM entries"
    );
    assert_eq!(
        select_by_id_statement(),
        "SELECT id, customer_id, customer_name, show_name, ticket_count, showtime FROM entries WHERE id = :id"
    );
    assert_eq!(
        insert_statement(),
        "INSERT INTO entries (customer_id, customer_name, show_name, ticket_count, showtime) VALUES (:customer_id, :customer_name, :show_name, :ticket_count, :showtime)"
    );
    assert_eq!(delete_statement(), "DELETE FROM entries WHERE id = :id");
}

#[test]
fn insert_params_bind_all_five_fields_in_order() {
    let c = CreateEntry {
        customer_id: "001".to_string(),
        customer_name: "Ana".to_string(),
        show_name: "Matrix".to_string(),
        ticket_count: 2,
        showtime: "20:00".to_string(),
    };
    let ps = insert_params(&c);
    assert_eq!(ps.len(), 5);
    assert_eq!(ps[0].name, "customer_id");
    match &ps[0].value {
        SqlValue::Text(s) => assert_eq!(s, "001"),
        _ => panic!("expected text"),
    }
    assert_eq!(ps[1].name, "customer_name");
    assert_eq!(ps[2].name, "show_name");
    assert_eq!(ps[3].name, "ticket_count");
    match ps[3].value {
        SqlValue::Uint(n) => assert_eq!(n, 2),
        _ => panic!("expected uint"),
    }
    assert_eq!(ps[4].name, "showtime");
    match &ps[4].value {
        SqlValue::Text(s) => assert_eq!(s, "20:00"),
        _ => panic!("expected text"),
    }
}

#[test]
fn id_params_bind_the_identity() {
    let ps = id_params(31);
    assert_eq!(ps.len(), 1);
    assert_eq!(ps[0].name, "id");
    match ps[0].value {
        SqlValue::Uint(n) => assert_eq!(n, 31),
        _ => panic!("expected uint"),
    }
}

#[test]
fn build_update_with_no_fields_is_rejected() {
    assert!(matches!(build_update(4, &no_update()), Err(RepoError::InvalidRequest)));
}

#[test]
fn build_update_single_field() {
    let mut u = no_update();
    u.ticket_count = Some(3);
    let (q, ps) = build_update(9, &u).unwrap();
    assert_eq!(q, "UPDATE entries SET ticket_count = :ticket_count WHERE id = :id");
    assert_eq!(ps.len(), 2);
    assert_eq!(ps[0].name, "id");
    match ps[0].value {
        SqlValue::Uint(n) => assert_eq!(n, 9),
        _ => panic!("expected uint"),
    }
    assert_eq!(ps[1].name, "ticket_count");
    match ps[1].value {
        SqlValue::Uint(n) => assert_eq!(n, 3),
        _ => panic!("expected uint"),
    }
}

#[test]
fn build_update_joins_supplied_fields_in_column_order() {
    let u = UpdateEntry {
        customer_id: Some("77".to_string()),
        customer_name: None,
        show_name: Some("Alien".to_string()),
        ticket_count: None,
        showtime: Some("22:15".to_string()),
    };
    let (q, ps) = build_update(5, &u).unwrap();
    assert_eq!(
        q,
        "UPDATE entries SET customer_id = :customer_id, show_name = :show_name, showtime = :showtime WHERE id = :id"
    );
    assert_eq!(ps.len(), 4);
    assert_eq!(ps[0].name, "id");
    assert_eq!(ps[1].name, "customer_id");
    match &ps[1].value {
        SqlValue::Text(s) => assert_eq!(s, "77"),
        _ => panic!("expected text"),
    }
    assert_eq!(ps[2].name, "show_name");
    assert_eq!(ps[3].name, "showtime");
}

#[test]
fn build_update_all_fields() {
    let u = UpdateEntry {
        customer_id: Some("10".to_string()),
        customer_name: Some("Leo".to_string()),
        show_name: Some("Heat".to_string()),
        ticket_count: Some(1),
        showtime: Some("19:00".to_string()),
    };
    let (q, ps) = build_update(2, &u).unwrap();
    assert_eq!(
        q,
        "UPDATE entries SET customer_id = :customer_id, customer_name = :customer_name, show_name = :show_name, ticket_count = :ticket_count, showtime = :showtime WHERE id = :id"
    );
    assert_eq!(ps.len(), 6);
}
