use ticket_entries::entry::{CreateEntry, Entry, UpdateEntry};
use ticket_entries::errors::RepoError;
use ticket_entries::http::{respond_create, respond_delete, respond_get, respond_update, Body};
use ticket_entries::table::Table;

fn payload(customer_id: &str, customer_name: &str, show_name: &str, ticket_count: u32, showtime: &str) -> CreateEntry {
    CreateEntry {
        customer_id: customer_id.to_string(),
        customer_name: customer_name.to_string(),
        show_name: show_name.to_string(),
        ticket_count,
        showtime: showtime.to_string(),
    }
}

fn no_update() -> UpdateEntry {
    UpdateEntry {
        customer_id: None,
        customer_name: None,
        show_name: None,
        ticket_count: None,
        showtime: None,
    }
}

fn assert_fields(e: &Entry, customer_id: &str, customer_name: &str, show_name: &str, ticket_count: u32, showtime: &str) {
    assert_eq!(e.customer_id, customer_id);
    assert_eq!(e.customer_name, customer_name);
    assert_eq!(e.show_name, show_name);
    assert_eq!(e.ticket_count, ticket_count);
    assert_eq!(e.showtime, showtime);
}

#[test]
fn empty_table_has_nothing() {
    let mut t = Table::new();
    assert!(t.list_all().is_empty());
    assert!(t.get_by_id(1).is_none());
    assert_eq!(t.delete(1), 0);
}

#[test]
fn create_then_get_matches_input() {
    let mut t = Table::new();
    let id = t.create(payload("17", "Luz", "Dune", 4, "18:30")).unwrap();
    let e = t.get_by_id(id).unwrap();
    assert_eq!(e.id, Some(id));
    assert_fields(&e, "17", "Luz", "Dune", 4, "18:30");
}

#[test]
fn duplicate_customer_id_conflicts_without_partial_row() {
    let mut t = Table::new();
    t.create(payload("42", "Ana", "Matrix", 2, "20:00")).unwrap();
    let second = t.create(payload("42", "Eva", "Alien", 1, "22:00"));
    assert_eq!(second, Err(RepoError::Conflict));
    let rows = t.list_all();
    assert_eq!(rows.len(), 1);
    assert_fields(&rows[0], "42", "Ana", "Matrix", 2, "20:00");
}

#[test]
fn empty_update_is_rejected_and_touches_nothing() {
    let mut t = Table::new();
    let id = t.create(payload("7", "Rai", "Heat", 1, "21:00")).unwrap();
    let r = t.update(id, &no_update());
    assert_eq!(r, Err(RepoError::InvalidRequest));
    let e = t.get_by_id(id).unwrap();
    assert_fields(&e, "7", "Rai", "Heat", 1, "21:00");
}

#[test]
fn update_of_missing_id_affects_zero_rows_and_maps_to_404() {
    let mut t = Table::new();
    let mut u = no_update();
    u.ticket_count = Some(9);
    let r = t.update(12345, &u);
    assert_eq!(r, Ok(0));
    let rep = respond_update(r);
    assert_eq!(rep.status, 404);
}

#[test]
fn update_changes_one_field_and_keeps_the_rest() {
    let mut t = Table::new();
    let id = t.create(payload("8", "Ana", "Matrix", 2, "20:00")).unwrap();
    let mut u = no_update();
    u.ticket_count = Some(3);
    assert_eq!(t.update(id, &u), Ok(1));
    let e = t.get_by_id(id).unwrap();
    assert_fields(&e, "8", "Ana", "Matrix", 3, "20:00");
}

#[test]
fn update_without_change_affects_zero_rows() {
    let mut t = Table::new();
    let id = t.create(payload("9", "Ana", "Matrix", 2, "20:00")).unwrap();
    let mut u = no_update();
    u.ticket_count = Some(2);
    assert_eq!(t.update(id, &u), Ok(0));
}

#[test]
fn update_to_taken_customer_id_conflicts() {
    let mut t = Table::new();
    t.create(payload("1", "Ana", "Matrix", 2, "20:00")).unwrap();
    let id2 = t.create(payload("2", "Eva", "Alien", 1, "22:00")).unwrap();
    let mut u = no_update();
    u.customer_id = Some("1".to_string());
    assert_eq!(t.update(id2, &u), Err(RepoError::Conflict));
    let e = t.get_by_id(id2).unwrap();
    assert_eq!(e.customer_id, "2");
}

#[test]
fn update_keeping_own_customer_id_is_no_conflict() {
    let mut t = Table::new();
    let id = t.create(payload("5", "Ana", "Matrix", 2, "20:00")).unwrap();
    let mut u = no_update();
    u.customer_id = Some("5".to_string());
    u.ticket_count = Some(6);
    assert_eq!(t.update(id, &u), Ok(1));
    let e = t.get_by_id(id).unwrap();
    assert_fields(&e, "5", "Ana", "Matrix", 6, "20:00");
}

#[test]
fn delete_twice_answers_404_not_500() {
    let mut t = Table::new();
    let id = t.create(payload("3", "Ana", "Matrix", 2, "20:00")).unwrap();
    let first = t.delete(id);
    assert_eq!(first, 1);
    assert_eq!(respond_delete(Ok(first)).status, 200);
    let second = t.delete(id);
    assert_eq!(second, 0);
    assert_eq!(respond_delete(Ok(second)).status, 404);
}

#[test]
fn list_all_returns_every_row_in_order() {
    let mut t = Table::new();
    let id1 = t.create(payload("1", "Ana", "Matrix", 2, "20:00")).unwrap();
    let id2 = t.create(payload("2", "Eva", "Alien", 1, "22:00")).unwrap();
    let rows = t.list_all();
    assert_eq!(rows.len(), 2);
    assert_eq!(rows[0].id, Some(id1));
    assert_eq!(rows[1].id, Some(id2));
}

#[test]
fn end_to_end_create_read_update_delete() {
    let mut t = Table::new();

    let created = t.create(payload("001", "Ana", "Matrix", 2, "20:00"));
    let rep = respond_create(created);
    assert_eq!(rep.status, 201);
    // The confirmation identifies the assigned id; the rest of the chain
    // works only from what the client learned here.
    let id = match rep.body {
        Body::Created(id) => id,
        _ => panic!("expected the assigned identity"),
    };
    assert_eq!(respond_get(Ok(t.get_by_id(id))).status, 200);
    let e = t.get_by_id(id).unwrap();
    assert_fields(&e, "001", "Ana", "Matrix", 2, "20:00");

    let mut u = no_update();
    u.ticket_count = Some(3);
    let updated = t.update(id, &u);
    assert_eq!(respond_update(updated).status, 200);
    let e = t.get_by_id(id).unwrap();
    assert_fields(&e, "001", "Ana", "Matrix", 3, "20:00");

    let deleted = t.delete(id);
    assert_eq!(respond_delete(Ok(deleted)).status, 200);

    let gone = t.get_by_id(id);
    assert!(gone.is_none());
    let rep = respond_get(Ok(gone));
    assert_eq!(rep.status, 404);
    match rep.body {
        Body::Message(m) => assert_eq!(m, "entry not found"),
        _ => panic!("expected a message body"),
    }
}
