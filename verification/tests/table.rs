use kvstore::store::{removal, upsert};
use kvstore::table::Table;
use rusqlite::Connection;

#[test]
fn empty_table_holds_nothing() {
    let table = Table::new();
    assert_eq!(table.count(), 0);
    assert_eq!(table.list_keys(), Vec::<String>::new());
    assert_eq!(table.get("k"), None);
}

#[test]
fn table_put_then_get() {
    let mut table = Table::new();
    assert_eq!(table.put("k", "{ \"a\": 1 }"), 1);
    assert_eq!(table.get("k"), Some("{ \"a\": 1 }".to_string()));
    assert_eq!(table.get("other"), None);
}

#[test]
fn table_put_twice_leaves_one_row() {
    let mut table = Table::new();
    table.put("a", "0");
    assert_eq!(table.put("k", "v1"), 1);
    assert_eq!(table.put("k", "v2"), 1);
    assert_eq!(table.get("k"), Some("v2".to_string()));
    assert_eq!(table.count(), 2);
    assert_eq!(table.list_keys(), vec!["a".to_string(), "k".to_string()]);
    assert_eq!(table.get("a"), Some("0".to_string()));
}

#[test]
fn table_update_reaches_every_row_under_the_key() {
    let mut table = Table::new();
    assert_eq!(table.apply(&upsert(&None, "k", "a")), 1);
    assert_eq!(table.apply(&upsert(&None, "j", "x")), 1);
    assert_eq!(table.apply(&upsert(&None, "k", "b")), 1);
    assert_eq!(table.count(), 3);
    assert_eq!(table.get("k"), Some("a".to_string()));
    assert_eq!(table.put("k", "c"), 2);
    assert_eq!(table.count(), 3);
    assert_eq!(table.get("k"), Some("c".to_string()));
    assert_eq!(table.get("j"), Some("x".to_string()));
    assert_eq!(table.apply(&removal("k")), 2);
    assert_eq!(table.list_keys(), vec!["j".to_string()]);
}

#[test]
fn table_delete_absent_and_present() {
    let mut table = Table::new();
    table.put("a", "1");
    table.put("b", "2");
    assert_eq!(table.delete("c"), 0);
    assert_eq!(table.count(), 2);
    assert_eq!(table.delete("a"), 1);
    assert_eq!(table.get("a"), None);
    assert_eq!(table.get("b"), Some("2".to_string()));
    assert_eq!(table.count(), 1);
    assert_eq!(table.delete("a"), 0);
}

#[test]
fn table_count_is_the_number_of_keys() {
    let mut table = Table::new();
    for (key, data) in [("a", "1"), ("b", "2"), ("a", "3"), ("c", "4")] {
        table.put(key, data);
        assert_eq!(table.count(), table.list_keys().len());
    }
    table.delete("b");
    assert_eq!(table.count(), table.list_keys().len());
    assert_eq!(table.count(), 2);
}

#[test]
fn table_and_database_agree() {
    let conn = Connection::open_in_memory().unwrap();
    kvstore::store::create_schema(&conn).unwrap();
    let mut table = Table::new();
    let steps = [
        ("put", "dev/app1", "{\"n\":1}"),
        ("put", "dev/app2", "{\"n\":2}"),
        ("put", "dev/app1", "{\"n\":3}"),
        ("delete", "dev/app3", ""),
        ("put", "a/b/c", "[]"),
        ("delete", "dev/app2", ""),
        ("put", "dev/app2", "null"),
        ("delete", "a/b/c", ""),
    ];
    for (what, key, data) in steps {
        if what == "put" {
            assert_eq!(kvstore::store::put_data(&conn, key, data).unwrap(), table.put(key, data));
        } else {
            assert_eq!(kvstore::store::delete_data(&conn, key).unwrap(), table.delete(key));
        }
        for probe in ["dev/app1", "dev/app2", "dev/app3", "a/b/c"] {
            assert_eq!(kvstore::store::get_data(&conn, probe), table.get(probe));
        }
        assert_eq!(kvstore::store::count_keys(&conn).unwrap(), table.count());
        let mut stored = kvstore::store::get_all_keys(&conn).unwrap();
        let mut held = table.list_keys();
        stored.sort();
        held.sort();
        assert_eq!(stored, held);
    }
}

#[test]
fn table_with_two_inserts_under_one_key() {
    let mut table = Table::new();
    let seen_by_first = table.get("k");
    let seen_by_second = table.get("k");
    assert_eq!(table.apply(&upsert(&seen_by_first, "k", "v1")), 1);
    assert_eq!(table.apply(&upsert(&seen_by_second, "k", "v2")), 1);
    assert_eq!(table.count(), 2);
    assert_eq!(table.get("k"), Some("v1".to_string()));
    assert_eq!(table.put("k", "v3"), 2);
    assert_eq!(table.count(), 2);
    assert_eq!(table.list_keys(), vec!["k".to_string(), "k".to_string()]);
}
