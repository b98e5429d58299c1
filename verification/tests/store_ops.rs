use hhireg::errors::AppError;
use hhireg::store::Store;

fn fresh_store() -> Store {
    Store::open_in_memory().expect("in-memory store should open")
}

#[test]
fn add_then_list_contains_new_record() {
    let mut store = fresh_store();
    store.add("Ada", "Lovelace", "555-0100").expect("add should succeed");
    let listed = store.list().expect("list should succeed");
    assert_eq!(listed.len(), 1);
    assert_eq!(listed[0].first, "Ada");
    assert_eq!(listed[0].surname, "Lovelace");
    assert_eq!(listed[0].phone, "555-0100");
    assert!(listed[0].id >= 1);
    assert!(!listed[0].created_at.is_empty());
}

#[test]
fn add_trims_all_fields() {
    let mut store = fresh_store();
    store.add("  Ada ", "\tLovelace\n", " 555-0100 ").expect("add should succeed");
    let listed = store.list().expect("list should succeed");
    assert_eq!(listed[0].first, "Ada");
    assert_eq!(listed[0].surname, "Lovelace");
    assert_eq!(listed[0].phone, "555-0100");
}

#[test]
fn add_rejects_empty_first() {
    let mut store = fresh_store();
    let err = store.add("", "Lovelace", "555").unwrap_err();
    assert!(err.is_validation());
    assert_eq!(err.message(), "Please fill in First, Surname and Phone.");
    assert_eq!(store.list().expect("list should succeed").len(), 0);
}

#[test]
fn add_rejects_whitespace_surname() {
    let mut store = fresh_store();
    let err = store.add("Ada", "   \t", "555").unwrap_err();
    assert!(err.is_validation());
    assert_eq!(store.list().expect("list should succeed").len(), 0);
}

#[test]
fn add_rejects_unicode_whitespace_only_field() {
    let mut store = fresh_store();
    let err = store.add("\u{a0}", "Lovelace", "555").unwrap_err();
    assert!(err.is_validation());
    let err = store.add("Ada", "\u{2003}\u{a0}", "555").unwrap_err();
    assert!(err.is_validation());
    assert_eq!(store.list().expect("list should succeed").len(), 0);
}

#[test]
fn add_trims_unicode_whitespace() {
    let mut store = fresh_store();
    store.add("\u{a0}Ada\u{a0}", "\u{2003}Lovelace", "555\u{3000}").expect("add should succeed");
    let listed = store.list().expect("list should succeed");
    assert_eq!(listed[0].first, "Ada");
    assert_eq!(listed[0].surname, "Lovelace");
    assert_eq!(listed[0].phone, "555");
}

#[test]
fn add_rejects_whitespace_phone() {
    let mut store = fresh_store();
    let err = store.add("Ada", "Lovelace", " \n ").unwrap_err();
    assert!(err.is_validation());
    assert_eq!(store.list().expect("list should succeed").len(), 0);
}

#[test]
fn add_assigns_fresh_increasing_ids() {
    let mut store = fresh_store();
    store.add("A", "A", "1").expect("add should succeed");
    store.add("B", "B", "2").expect("add should succeed");
    store.add("C", "C", "3").expect("add should succeed");
    let listed = store.list().expect("list should succeed");
    let ids: Vec<i64> = listed.iter().map(|r| r.id).collect();
    assert!(ids[0] > ids[1] && ids[1] > ids[2]);
    // deleting the record with the largest id never frees that id for reuse
    let top = ids[0];
    store.delete(top).expect("delete should succeed");
    store.add("D", "D", "4").expect("add should succeed");
    let after = store.list().expect("list should succeed");
    assert!(after[0].id > top);
}

#[test]
fn delete_nonexistent_id_is_noop_success() {
    let mut store = fresh_store();
    store.add("Ada", "Lovelace", "555").expect("add should succeed");
    store.add("Grace", "Hopper", "556").expect("add should succeed");
    let before: Vec<(i64, String)> =
        store.list().expect("list should succeed").into_iter().map(|r| (r.id, r.first)).collect();
    store.delete(999_999).expect("deleting an absent id should succeed");
    let after: Vec<(i64, String)> =
        store.list().expect("list should succeed").into_iter().map(|r| (r.id, r.first)).collect();
    assert_eq!(before, after);
}

#[test]
fn delete_removes_only_the_named_record() {
    let mut store = fresh_store();
    store.add("Ada", "Lovelace", "555").expect("add should succeed");
    store.add("Grace", "Hopper", "556").expect("add should succeed");
    let listed = store.list().expect("list should succeed");
    let ada_id = listed.iter().find(|r| r.first == "Ada").map(|r| r.id).unwrap();
    store.delete(ada_id).expect("delete should succeed");
    let after = store.list().expect("list should succeed");
    assert_eq!(after.len(), 1);
    assert_eq!(after[0].first, "Grace");
}

#[test]
fn list_newest_first_export_oldest_first() {
    let mut store = fresh_store();
    store.add("A", "AA", "1").expect("add should succeed");
    store.add("B", "BB", "2").expect("add should succeed");
    store.add("C", "CC", "3").expect("add should succeed");
    let listed = store.list().expect("list should succeed");
    let names: Vec<&str> = listed.iter().map(|r| r.first.as_str()).collect();
    assert_eq!(names, ["C", "B", "A"]);
    let doc = store.export_csv().expect("export should succeed");
    let lines: Vec<&str> = doc.lines().collect();
    assert_eq!(lines.len(), 4);
    assert!(lines[1].starts_with(&format!("{},A,AA,1,", listed[2].id)));
    assert!(lines[2].starts_with(&format!("{},B,BB,2,", listed[1].id)));
    assert!(lines[3].starts_with(&format!("{},C,CC,3,", listed[0].id)));
}

#[test]
fn export_header_is_exact() {
    let store = fresh_store();
    let doc = store.export_csv().expect("export should succeed");
    assert_eq!(doc, "id,first,surname,phone,created_at\n");
}

#[test]
fn export_round_trips_through_a_csv_reader() {
    let mut store = fresh_store();
    store.add("Ada, Augusta", "Lovelace", "555").expect("add should succeed");
    store.add("Grace \"Amazing\"", "Hopper", "5 5 6").expect("add should succeed");
    let doc = store.export_csv().expect("export should succeed");
    let mut reader = csv::ReaderBuilder::new().has_headers(true).from_reader(doc.as_bytes());
    let headers = reader.headers().expect("header row should parse").clone();
    let wanted: Vec<&str> = vec!["id", "first", "surname", "phone", "created_at"];
    assert_eq!(headers.iter().collect::<Vec<&str>>(), wanted);
    let rows: Vec<csv::StringRecord> =
        reader.records().map(|r| r.expect("row should parse")).collect();
    let mut listed = store.list().expect("list should succeed");
    listed.reverse();
    assert_eq!(rows.len(), listed.len());
    for (row, rec) in rows.iter().zip(listed.iter()) {
        assert_eq!(row.get(0).unwrap(), rec.id.to_string());
        assert_eq!(row.get(1).unwrap(), rec.first);
        assert_eq!(row.get(2).unwrap(), rec.surname);
        assert_eq!(row.get(3).unwrap(), rec.phone);
        assert_eq!(row.get(4).unwrap(), rec.created_at);
    }
}

#[test]
fn initialize_is_idempotent() {
    let mut store = fresh_store();
    store.add("Ada", "Lovelace", "555").expect("add should succeed");
    store.initialize().expect("initialize should succeed again");
    store.initialize().expect("initialize should succeed a third time");
    let listed = store.list().expect("list should succeed");
    assert_eq!(listed.len(), 1);
    assert_eq!(listed[0].first, "Ada");
}

#[test]
fn open_at_persists_rows_across_stores() {
    let nanos = std::time::SystemTime::now()
        .duration_since(std::time::UNIX_EPOCH)
        .unwrap()
        .as_nanos();
    let path = format!("/tmp/hhireg_test_{nanos}.db");
    {
        let mut store = Store::open_at(&path).expect("file store should open");
        store.add("Ada", "Lovelace", "555").expect("add should succeed");
    }
    let store = Store::open_at(&path).expect("file store should reopen");
    let listed = store.list().expect("list should succeed");
    assert_eq!(listed.len(), 1);
    assert_eq!(listed[0].surname, "Lovelace");
}

#[test]
fn open_at_unreachable_path_is_storage_error() {
    let err = match Store::open_at("/nonexistent_dir_for_hhireg/x.db") {
        Ok(_) => panic!("opening under a missing directory should fail"),
        Err(e) => e,
    };
    assert!(matches!(err, AppError::Storage(_)));
    assert!(!err.message().is_empty());
}
