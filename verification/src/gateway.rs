//! The HTTP side of the store: which operation a request asks for, and
//! what each operation answers. The handlers take a connection that the
//! caller has borrowed for the one request.

use crate::json::{json_text, render};
use crate::key::{compose_key, composed};
use crate::sqlite::error_text;
use crate::store::{
    count_keys, delete_data, from_engine, get_all_keys, get_data, put_data, StoreError, WriteView,
    NO_COUNT,
};
use crate::table::{affected, first_data, lemma_found_iff_counted, Entry};
use vstd::prelude::*;

verus! {

/// The methods that the gateway answers.
#[derive(Clone, Copy, Debug, PartialEq, Eq, Structural)]
pub enum Method {
    Get,
    Post,
    Put,
    Delete,
    Head,
}

/// The two statuses that the gateway itself chooses between.
#[derive(Clone, Copy, Debug, PartialEq, Eq, Structural)]
pub enum Status {
    Success,
    NotFound,
}

impl Status {
    pub open spec fn spec_code(self) -> u16 {
        match self {
            Status::Success => 200,
            Status::NotFound => 404,
        }
    }

    /// The status as a number.
    pub fn code(self) -> (code: u16)
        ensures
            code == self.spec_code(),
    {
        match self {
            Status::Success => 200,
            Status::NotFound => 404,
        }
    }
}

/// What a request asks of the store.
#[derive(Debug)]
pub enum Operation {
    /// The configuration of `app` in `env`.
    Get { env: String, app: String },
    /// Store the body as the configuration of `app` in `env`.
    Put { env: String, app: String },
    /// Remove the configuration of `app` in `env`.
    Delete { env: String, app: String },
    /// Whether `app` in `env` has a configuration.
    Check { env: String, app: String },
    /// Every key.
    ListKeys,
    /// The number of keys.
    KeyCount,
}

/// An [`Operation`] with its strings as sequences of characters.
pub ghost enum OperationView {
    Get { env: Seq<char>, app: Seq<char> },
    Put { env: Seq<char>, app: Seq<char> },
    Delete { env: Seq<char>, app: Seq<char> },
    Check { env: Seq<char>, app: Seq<char> },
    ListKeys,
    KeyCount,
}

impl View for Operation {
    type V = OperationView;

    open spec fn view(&self) -> OperationView {
        match self {
            Operation::Get { env, app } => OperationView::Get { env: env@, app: app@ },
            Operation::Put { env, app } => OperationView::Put { env: env@, app: app@ },
            Operation::Delete { env, app } => OperationView::Delete { env: env@, app: app@ },
            Operation::Check { env, app } => OperationView::Check { env: env@, app: app@ },
            Operation::ListKeys => OperationView::ListKeys,
            Operation::KeyCount => OperationView::KeyCount,
        }
    }
}

/// What `method` asks of the configuration of `app` in `env`.
pub open spec fn on_config(method: Method, env: Seq<char>, app: Seq<char>) -> OperationView {
    match method {
        Method::Get => OperationView::Get { env, app },
        Method::Post => OperationView::Put { env, app },
        Method::Put => OperationView::Put { env, app },
        Method::Delete => OperationView::Delete { env, app },
        Method::Head => OperationView::Check { env, app },
    }
}

/// The routes: `/config/{env}/{app}` under every method, `/keys` and
/// `/count` under GET, and nothing else. A path is given by its segments.
pub open spec fn route_of(method: Method, segments: Seq<Seq<char>>) -> Option<OperationView> {
    if segments.len() == 3 && segments[0] == "config"@ {
        Some(on_config(method, segments[1], segments[2]))
    } else if segments.len() == 1 && method == Method::Get && segments[0] == "keys"@ {
        Some(OperationView::ListKeys)
    } else if segments.len() == 1 && method == Method::Get && segments[0] == "count"@ {
        Some(OperationView::KeyCount)
    } else {
        None
    }
}

/// What an optional operation holds, as characters.
pub open spec fn operation_of(routed: Option<Operation>) -> Option<OperationView> {
    match routed {
        Some(operation) => Some(operation@),
        None => None,
    }
}

/// The operation that a request asks for, from its method and the segments
/// of its path; `None` where no route matches.
pub fn route(method: Method, segments: &Vec<String>) -> (routed: Option<Operation>)
    ensures
        operation_of(routed) == route_of(method, segments.deep_view()),
{
    proof {
        assert forall|i: int| 0 <= i < segments.len() implies segments.deep_view()[i]
            == segments[i]@ by {}
        assert(segments.deep_view().len() == segments.len());
    }
    if segments.len() == 3 && segments[0] == String::from_str("config") {
        let env = segments[1].clone();
        let app = segments[2].clone();
        Some(
            match method {
                Method::Get => Operation::Get { env, app },
                Method::Post => Operation::Put { env, app },
                Method::Put => Operation::Put { env, app },
                Method::Delete => Operation::Delete { env, app },
                Method::Head => Operation::Check { env, app },
            },
        )
    } else if segments.len() == 1 {
        match method {
            Method::Get => {
                if segments[0] == String::from_str("keys") {
                    Some(Operation::ListKeys)
                } else if segments[0] == String::from_str("count") {
                    Some(Operation::KeyCount)
                } else {
                    None
                }
            },
            _ => None,
        }
    } else {
        None
    }
}

/// The body that reports a deletion.
pub const DELETED: &'static str = "{\"status\":\"deleted\"}";

/// What stands before the message in the body that reports a failure.
pub const ERROR_HEAD: &'static str = "{\"status\":\"error\",\"msg\":\"";

/// What stands after the message in the body that reports a failure.
pub const ERROR_TAIL: &'static str = "\"}";

/// The body that reports a failure with `message`. The message is put
/// between the quotes as it is.
pub open spec fn error_body_of(message: Seq<char>) -> Seq<char> {
    ERROR_HEAD@ + message + ERROR_TAIL@
}

/// The body that reports a failure with `message`.
pub fn error_body(message: &str) -> (body: String)
    ensures
        body@ == error_body_of(message@),
{
    let mut body = String::from_str(ERROR_HEAD);
    body.append(message);
    body.append(ERROR_TAIL);
    body
}

/// The status that goes with an optional body: found where there is one.
pub fn status_of(reply: &Option<String>) -> (status: Status)
    ensures
        status == if reply is Some {
            Status::Success
        } else {
            Status::NotFound
        },
{
    match reply {
        Some(_) => Status::Success,
        None => Status::NotFound,
    }
}

/// The body that answers a deletion, as characters: none where no row was
/// removed, the report of the deletion where one was, the report of the
/// failure where the store failed.
pub open spec fn delete_reply_of(outcome: Result<usize, StoreError>) -> Option<Seq<char>> {
    match outcome {
        Ok(changed) => if changed == 0 {
            None
        } else {
            Some(DELETED@)
        },
        Err(error) => Some(error_body_of(error.message@)),
    }
}

/// What an optional body holds, as characters.
pub open spec fn body_of(reply: Option<String>) -> Option<Seq<char>> {
    match reply {
        Some(body) => Some(body@),
        None => None,
    }
}

/// The answer to a deletion, from what the store returned.
pub fn delete_reply(outcome: &Result<usize, StoreError>) -> (reply: Option<String>)
    ensures
        body_of(reply) == delete_reply_of(*outcome),
{
    match outcome {
        Ok(changed) => {
            if *changed == 0 {
                None
            } else {
                Some(String::from_str(DELETED))
            }
        },
        Err(error) => Some(error_body(error.message.as_str())),
    }
}

/// On a table that the delete statement alone writes to, a deletion is
/// answered with no body where the key had no row, and with the report of
/// the deletion where it had one.
pub proof fn lemma_delete_reply_follows_the_table(rows: Seq<Entry>, key: Seq<char>, changed: usize)
    requires
        changed == affected(rows, WriteView::Delete { key }),
    ensures
        delete_reply_of(Ok(changed)) == if first_data(rows, key) is Some {
            Some(DELETED@)
        } else {
            None
        },
{
    lemma_found_iff_counted(rows, key);
}

/// The stored configuration of `app` in `env`; `None`, which the caller
/// answers with 404, where there is none or the lookup failed.
pub fn get(conn: &rusqlite::Connection, env: &str, app: &str) -> (reply: Option<String>) {
    let key = compose_key(env, app);
    get_data(conn, key.as_str())
}

/// The key and the text under which `data` is stored as the
/// configuration of `app` in `env`: the composed key, and the value
/// written back as compact JSON.
pub fn stored(env: &str, app: &str, data: &serde_json::Value) -> (entry: (String, String))
    ensures
        entry.0@ == composed(env@, app@),
        entry.1@ == json_text(*data),
{
    (compose_key(env, app), render(data))
}

/// Stores `data`, written back as compact JSON, as the configuration of
/// `app` in `env`, and answers with the text that was stored, or with the
/// engine's failure to store it.
pub fn post(conn: &rusqlite::Connection, env: &str, app: &str, data: &serde_json::Value) -> (reply:
    Result<String, StoreError>)
    ensures
        reply matches Ok(body) ==> body@ == json_text(*data),
        reply matches Err(failed) ==> from_engine(failed),
{
    let (key, text) = stored(env, app, data);
    match put_data(conn, key.as_str(), text.as_str()) {
        Ok(_) => Ok(text),
        Err(error) => Err(error),
    }
}

/// The same as [`post`].
pub fn put(conn: &rusqlite::Connection, env: &str, app: &str, data: &serde_json::Value) -> (reply:
    Result<String, StoreError>)
    ensures
        reply matches Ok(body) ==> body@ == json_text(*data),
        reply matches Err(failed) ==> from_engine(failed),
{
    post(conn, env, app, data)
}

/// Removes the configuration of `app` in `env`. `None`, which the caller
/// answers with 404, where there was none; else a body that reports the
/// deletion or the failure.
pub fn delete(conn: &rusqlite::Connection, env: &str, app: &str) -> (reply: Option<String>)
    ensures
        reply matches Some(body) ==> body@ == DELETED@ || exists|error: rusqlite::Error|
            body@ == error_body_of(#[trigger] error_text(error)),
{
    let key = compose_key(env, app);
    let outcome = delete_data(conn, key.as_str());
    proof {
        if outcome is Err {
            let failed = outcome->Err_0;
            let error = choose|error: rusqlite::Error|
                failed.message@ == #[trigger] error_text(error);
            assert(error_body_of(failed.message@) == error_body_of(error_text(error)));
        }
    }
    delete_reply(&outcome)
}

/// Whether `app` in `env` has a configuration, as a status.
pub fn check_key(conn: &rusqlite::Connection, env: &str, app: &str) -> (status: Status) {
    let key = compose_key(env, app);
    status_of(&get_data(conn, key.as_str()))
}

/// Every key in the store, or the engine's failure to list them.
pub fn list_keys(conn: &rusqlite::Connection) -> (keys: Result<Vec<String>, StoreError>)
    ensures
        keys matches Err(failed) ==> from_engine(failed),
{
    get_all_keys(conn)
}

/// The number of keys in the store, or why there is no count.
pub fn key_count(conn: &rusqlite::Connection) -> (count: Result<usize, StoreError>)
    ensures
        count matches Err(failed) ==> from_engine(failed) || failed.message@ == NO_COUNT@,
{
    count_keys(conn)
}

} // verus!
