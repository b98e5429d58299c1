use hhireg::facade::{
    add_registration, delete_registration, export_csv, initialize_db, list_registrations,
};
use hhireg::store::Store;

fn fresh_store() -> Store {
    Store::open_in_memory().expect("in-memory store should open")
}

#[test]
fn facade_add_and_list_round() {
    let mut store = fresh_store();
    add_registration(&mut store, "Ada", "Lovelace", "555").expect("add should succeed");
    let listed = list_registrations(&store).expect("list should succeed");
    assert_eq!(listed.len(), 1);
    assert_eq!(listed[0].first, "Ada");
}

#[test]
fn facade_rejects_invalid_with_flat_message() {
    let mut store = fresh_store();
    let msg = add_registration(&mut store, "Ada", "", "555").unwrap_err();
    assert_eq!(msg, "Please fill in First, Surname and Phone.");
    assert_eq!(list_registrations(&store).expect("list should succeed").len(), 0);
}

#[test]
fn facade_delete_and_export() {
    let mut store = fresh_store();
    initialize_db(&mut store).expect("initialize should succeed");
    add_registration(&mut store, "Ada", "Lovelace", "555").expect("add should succeed");
    add_registration(&mut store, "Grace", "Hopper", "556").expect("add should succeed");
    let listed = list_registrations(&store).expect("list should succeed");
    delete_registration(&mut store, listed[0].id).expect("delete should succeed");
    let doc = export_csv(&store).expect("export should succeed");
    let lines: Vec<&str> = doc.lines().collect();
    assert_eq!(lines.len(), 2);
    assert_eq!(lines[0], "id,first,surname,phone,created_at");
    assert!(lines[1].contains("Ada,Lovelace,555"));
}
