use kvstore::gateway::{
    check_key, delete, delete_reply, error_body, get, key_count, list_keys, post, put, route,
    status_of, stored, Method, Operation, Status, DELETED,
};
use kvstore::store::{create_schema, StoreError};
use rusqlite::Connection;
use serde_json::{Number, Value};

fn fresh() -> Connection {
    let conn = Connection::open_in_memory().unwrap();
    create_schema(&conn).unwrap();
    conn
}

fn path(segments: &[&str]) -> Vec<String> {
    segments.iter().map(|s| s.to_string()).collect()
}

fn log_level_debug() -> Value {
    let mut object = serde_json::Map::new();
    object.insert("log_level".to_string(), Value::String("debug".to_string()));
    Value::Object(object)
}

#[test]
fn status_codes() {
    assert_eq!(Status::Success.code(), 200);
    assert_eq!(Status::NotFound.code(), 404);
    assert_eq!(status_of(&Some("{}".to_string())), Status::Success);
    assert_eq!(status_of(&None), Status::NotFound);
}

#[test]
fn routes_of_a_configuration() {
    let segments = path(&["config", "dev", "app1"]);
    assert!(matches!(route(Method::Get, &segments),
        Some(Operation::Get { env, app }) if env == "dev" && app == "app1"));
    assert!(matches!(route(Method::Post, &segments),
        Some(Operation::Put { env, app }) if env == "dev" && app == "app1"));
    assert!(matches!(route(Method::Put, &segments),
        Some(Operation::Put { env, app }) if env == "dev" && app == "app1"));
    assert!(matches!(route(Method::Delete, &segments),
        Some(Operation::Delete { env, app }) if env == "dev" && app == "app1"));
    assert!(matches!(route(Method::Head, &segments),
        Some(Operation::Check { env, app }) if env == "dev" && app == "app1"));
}

#[test]
fn routes_of_keys_and_count() {
    assert!(matches!(route(Method::Get, &path(&["keys"])), Some(Operation::ListKeys)));
    assert!(matches!(route(Method::Get, &path(&["count"])), Some(Operation::KeyCount)));
    for method in [Method::Post, Method::Put, Method::Delete, Method::Head] {
        assert!(route(method, &path(&["keys"])).is_none());
        assert!(route(method, &path(&["count"])).is_none());
    }
}

#[test]
fn other_paths_have_no_route() {
    for method in [Method::Get, Method::Post, Method::Put, Method::Delete, Method::Head] {
        assert!(route(method, &path(&[])).is_none());
        assert!(route(method, &path(&["config"])).is_none());
        assert!(route(method, &path(&["config", "dev"])).is_none());
        assert!(route(method, &path(&["config", "dev", "app1", "x"])).is_none());
        assert!(route(method, &path(&["Config", "dev", "app1"])).is_none());
        assert!(route(method, &path(&["keys", "dev", "app1"])).is_none());
        assert!(route(method, &path(&["key"])).is_none());
    }
}

#[test]
fn delete_reply_by_outcome() {
    assert_eq!(delete_reply(&Ok(0)), None);
    assert_eq!(delete_reply(&Ok(1)), Some("{\"status\":\"deleted\"}".to_string()));
    assert_eq!(delete_reply(&Ok(7)), Some(DELETED.to_string()));
    assert_eq!(
        delete_reply(&Err(StoreError { message: "database is locked".to_string() })),
        Some("{\"status\":\"error\",\"msg\":\"database is locked\"}".to_string())
    );
}

#[test]
fn error_body_holds_the_message_as_it_is() {
    assert_eq!(error_body(""), "{\"status\":\"error\",\"msg\":\"\"}");
    assert_eq!(error_body("a \"b\""), "{\"status\":\"error\",\"msg\":\"a \"b\"\"}");
}

#[test]
fn post_stores_compact_json() {
    let conn = fresh();
    let mut object = serde_json::Map::new();
    object.insert("b".to_string(), Value::Array(vec![Value::Null, Value::Bool(true)]));
    object.insert("a".to_string(), Value::Number(Number::from(1)));
    let value = Value::Object(object);
    let body = post(&conn, "dev", "app1", &value).unwrap();
    assert_eq!(body, "{\"a\":1,\"b\":[null,true]}");
    assert_eq!(get(&conn, "dev", "app1"), Some(body));
}

#[test]
fn stored_value_parses_back_to_what_was_put() {
    let conn = fresh();
    let value: Value =
        serde_json::from_str("{ \"z\": [1, 2.5, \"x\\ny\", {\"k\": null}],\n \"a\": false }")
            .unwrap();
    put(&conn, "env", "app", &value).unwrap();
    let stored = get(&conn, "env", "app").unwrap();
    let parsed: Value = serde_json::from_str(&stored).unwrap();
    assert_eq!(parsed, value);
}

#[test]
fn put_replaces_the_whole_value() {
    let conn = fresh();
    put(&conn, "dev", "app1", &log_level_debug()).unwrap();
    let mut object = serde_json::Map::new();
    object.insert("lang".to_string(), Value::String("eng".to_string()));
    put(&conn, "dev", "app1", &Value::Object(object)).unwrap();
    assert_eq!(get(&conn, "dev", "app1"), Some("{\"lang\":\"eng\"}".to_string()));
    assert_eq!(key_count(&conn).unwrap(), 1);
}

#[test]
fn delete_of_absent_configuration_is_not_found() {
    let conn = fresh();
    let reply = delete(&conn, "dev", "nothing");
    assert_eq!(reply, None);
    assert_eq!(status_of(&reply), Status::NotFound);
}

#[test]
fn delete_reports_a_failure_of_the_store() {
    let bare = Connection::open_in_memory().unwrap();
    let reply = delete(&bare, "dev", "app1").unwrap();
    assert!(reply.starts_with("{\"status\":\"error\",\"msg\":\""));
    assert!(reply.ends_with("\"}"));
    assert!(reply.contains("no such table"));
}

#[test]
fn handlers_fail_where_the_store_fails() {
    let bare = Connection::open_in_memory().unwrap();
    assert!(post(&bare, "dev", "app1", &Value::Null).is_err());
    assert!(list_keys(&bare).is_err());
    assert!(key_count(&bare).is_err());
    assert_eq!(get(&bare, "dev", "app1"), None);
    assert_eq!(check_key(&bare, "dev", "app1"), Status::NotFound);
}

#[test]
fn segments_with_a_separator_share_a_key() {
    let conn = fresh();
    put(&conn, "a/b", "c", &Value::String("first".to_string())).unwrap();
    assert_eq!(get(&conn, "a", "b/c"), Some("\"first\"".to_string()));
    put(&conn, "a", "b/c", &Value::String("second".to_string())).unwrap();
    assert_eq!(get(&conn, "a/b", "c"), Some("\"second\"".to_string()));
    assert_eq!(list_keys(&conn).unwrap(), vec!["a/b/c".to_string()]);
}

#[test]
fn configuration_life_cycle() {
    let conn = fresh();
    put(&conn, "dev", "other", &Value::Null).unwrap();
    let segments = path(&["config", "dev", "app1"]);

    let body = match route(Method::Put, &segments) {
        Some(Operation::Put { env, app }) => put(&conn, &env, &app, &log_level_debug()).unwrap(),
        _ => panic!("no route"),
    };
    assert_eq!(body, "{\"log_level\":\"debug\"}");
    let before = key_count(&conn).unwrap();

    let found = match route(Method::Get, &segments) {
        Some(Operation::Get { env, app }) => get(&conn, &env, &app),
        _ => panic!("no route"),
    };
    assert_eq!(status_of(&found).code(), 200);
    assert_eq!(found, Some("{\"log_level\":\"debug\"}".to_string()));

    let status = match route(Method::Head, &segments) {
        Some(Operation::Check { env, app }) => check_key(&conn, &env, &app),
        _ => panic!("no route"),
    };
    assert_eq!(status.code(), 200);
    assert!(list_keys(&conn).unwrap().contains(&"dev/app1".to_string()));

    let deleted = match route(Method::Delete, &segments) {
        Some(Operation::Delete { env, app }) => delete(&conn, &env, &app),
        _ => panic!("no route"),
    };
    assert_eq!(status_of(&deleted).code(), 200);
    assert_eq!(deleted, Some("{\"status\":\"deleted\"}".to_string()));

    let gone = get(&conn, "dev", "app1");
    assert_eq!(gone, None);
    assert_eq!(status_of(&gone).code(), 404);
    assert_eq!(check_key(&conn, "dev", "app1").code(), 404);
    assert!(!list_keys(&conn).unwrap().contains(&"dev/app1".to_string()));
    assert_eq!(key_count(&conn).unwrap(), before - 1);
}

#[test]
fn stored_entry_is_the_composed_key_and_the_compact_text() {
    let (key, text) = stored("dev", "app1", &log_level_debug());
    assert_eq!(key, "dev/app1");
    assert_eq!(text, "{\"log_level\":\"debug\"}");
}

#[test]
fn post_stores_what_it_answers() {
    let conn = fresh();
    let body = post(&conn, "dev", "app1", &log_level_debug()).unwrap();
    assert_eq!(kvstore::store::get_data(&conn, "dev/app1"), Some(body));
    assert_eq!(list_keys(&conn).unwrap(), vec!["dev/app1".to_string()]);
}

#[test]
fn count_is_the_length_of_the_key_list() {
    let conn = fresh();
    put(&conn, "dev", "app1", &Value::Null).unwrap();
    put(&conn, "dev", "app2", &Value::Null).unwrap();
    put(&conn, "dev", "app1", &Value::Bool(true)).unwrap();
    assert_eq!(key_count(&conn).unwrap(), list_keys(&conn).unwrap().len());
    assert_eq!(key_count(&conn).unwrap(), 2);
}
