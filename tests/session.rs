use distkv::executor::execute;
use distkv::node::KVStore;
use distkv::protocol::{decode, Verb};
use distkv::response::{encode, Response, HELP_LINE};
use distkv::session::{Action, Event, Phase, Session};

fn send(session: &mut Session, store: &mut KVStore, line: &str) -> Action {
    session.on_event(store, Event::Line(line.to_string()))
}

fn reply(a: Action) -> String {
    match a {
        Action::Reply(t) => t,
        _ => panic!("expected a reply"),
    }
}

#[test]
fn encodes_each_response() {
    assert_eq!(encode(&Response::Stored), "✅ Key set successfully.\n");
    assert_eq!(
        encode(&Response::Found { key: "k".to_string(), value: "v w".to_string() }),
        "🔍 k = v w\n"
    );
    assert_eq!(
        encode(&Response::Missing { verb: Verb::Get, key: "k".to_string() }),
        "❌ Key 'k' not found.\n"
    );
    assert_eq!(encode(&Response::Missing { verb: Verb::Delete, key: "k".to_string() }), "❌ Key not found.\n");
    assert_eq!(
        encode(&Response::Missing { verb: Verb::Update, key: "k".to_string() }),
        "❌ Key not found for update.\n"
    );
    assert_eq!(encode(&Response::Deleted), "🗑️ Key deleted.\n");
    assert_eq!(encode(&Response::Updated { previous: "old".to_string() }), "✅ Key updated. Old value: old\n");
    assert_eq!(encode(&Response::Keys(vec![])), "⚠️ No keys stored.\n");
    assert_eq!(encode(&Response::Keys(vec!["a".to_string()])), "🗂️ Stored keys: a\n");
    assert_eq!(
        encode(&Response::Keys(vec!["a".to_string(), "b".to_string(), "c".to_string()])),
        "🗂️ Stored keys: a, b, c\n"
    );
    assert_eq!(encode(&Response::Cleared), "🧹 Store cleared.\n");
    assert_eq!(encode(&Response::Help), HELP_LINE);
    assert_eq!(encode(&Response::Usage(Verb::Put)), "⚠️ Usage: SET <key> <value>\n");
    assert_eq!(encode(&Response::Usage(Verb::Get)), "⚠️ Usage: GET <key>\n");
    assert_eq!(encode(&Response::Usage(Verb::Delete)), "⚠️ Usage: DELETE <key>\n");
    assert_eq!(encode(&Response::Usage(Verb::Update)), "⚠️ Usage: UPDATE <key> <new_value>\n");
    assert_eq!(
        encode(&Response::Unknown("xyz".to_string())),
        "❓ Unknown command 'xyz'. Type 'HELP' for available commands.\n"
    );
    assert_eq!(encode(&Response::Farewell), "👋 Bye.\n");
}

#[test]
fn execute_blank_gives_nothing() {
    let mut store = KVStore::new();
    assert!(execute(&mut store, decode("  ")).is_none());
}

#[test]
fn execute_list_gives_all_keys() {
    let mut store = KVStore::new();
    store.set("a".to_string(), "1".to_string());
    store.set("b".to_string(), "2".to_string());
    match execute(&mut store, decode("LIST")) {
        Some(Response::Keys(mut keys)) => {
            keys.sort();
            assert_eq!(keys, vec!["a".to_string(), "b".to_string()]);
        }
        _ => panic!("expected keys"),
    }
}

#[test]
fn session_runs_a_conversation() {
    let mut store = KVStore::new();
    let mut s = Session::new();
    assert_eq!(reply(send(&mut s, &mut store, "SET k v1\n")), "✅ Key set successfully.\n");
    assert_eq!(reply(send(&mut s, &mut store, "GET k\n")), "🔍 k = v1\n");
    assert_eq!(reply(send(&mut s, &mut store, "GET k\n")), "🔍 k = v1\n");
    assert_eq!(reply(send(&mut s, &mut store, "set k v2\n")), "✅ Key set successfully.\n");
    assert_eq!(reply(send(&mut s, &mut store, "get k\n")), "🔍 k = v2\n");
    assert_eq!(reply(send(&mut s, &mut store, "UPDATE k v3\n")), "✅ Key updated. Old value: v2\n");
    assert_eq!(reply(send(&mut s, &mut store, "UPDATE z v\n")), "❌ Key not found for update.\n");
    assert_eq!(reply(send(&mut s, &mut store, "GET z\n")), "❌ Key 'z' not found.\n");
    assert_eq!(reply(send(&mut s, &mut store, "DELETE k\n")), "🗑️ Key deleted.\n");
    assert_eq!(reply(send(&mut s, &mut store, "DELETE k\n")), "❌ Key not found.\n");
    assert_eq!(reply(send(&mut s, &mut store, "LIST\n")), "⚠️ No keys stored.\n");
    assert_eq!(reply(send(&mut s, &mut store, "HELP\n")), HELP_LINE);
    assert!(s.is_open());
}

#[test]
fn session_list_then_clear() {
    let mut store = KVStore::new();
    let mut s = Session::new();
    send(&mut s, &mut store, "SET a 1");
    send(&mut s, &mut store, "SET b 2");
    let listed = reply(send(&mut s, &mut store, "LIST"));
    assert!(listed == "🗂️ Stored keys: a, b\n" || listed == "🗂️ Stored keys: b, a\n");
    assert_eq!(reply(send(&mut s, &mut store, "CLEAR")), "🧹 Store cleared.\n");
    assert_eq!(reply(send(&mut s, &mut store, "LIST")), "⚠️ No keys stored.\n");
}

#[test]
fn session_survives_malformed_lines() {
    let mut store = KVStore::new();
    let mut s = Session::new();
    assert_eq!(reply(send(&mut s, &mut store, "SET k")), "⚠️ Usage: SET <key> <value>\n");
    assert_eq!(
        reply(send(&mut s, &mut store, "BOGUS x")),
        "❓ Unknown command 'BOGUS'. Type 'HELP' for available commands.\n"
    );
    assert_eq!(reply(send(&mut s, &mut store, "GET a b")), "⚠️ Usage: GET <key>\n");
    assert!(s.is_open());
    assert!(store.keys().is_empty());
    assert_eq!(reply(send(&mut s, &mut store, "SET k v")), "✅ Key set successfully.\n");
    assert_eq!(store.get("k"), Some("v".to_string()));
}

#[test]
fn session_blank_line_waits() {
    let mut store = KVStore::new();
    let mut s = Session::new();
    assert!(matches!(send(&mut s, &mut store, "\n"), Action::Wait));
    assert_eq!(s.current_phase(), Phase::Open);
}

#[test]
fn session_exit_replies_then_closes() {
    let mut store = KVStore::new();
    let mut s = Session::new();
    match send(&mut s, &mut store, "exit") {
        Action::ReplyThenClose(t) => assert_eq!(t, "👋 Bye.\n"),
        _ => panic!("expected a farewell"),
    }
    assert_eq!(s.current_phase(), Phase::ClosedByExit);
    assert!(matches!(send(&mut s, &mut store, "SET k v"), Action::Close));
    assert_eq!(store.get("k"), None);
}

#[test]
fn session_close_and_errors() {
    let mut store = KVStore::new();
    let mut a = Session::new();
    let mut b = Session::new();
    let mut c = Session::new();
    send(&mut a, &mut store, "SET k v");
    assert!(matches!(a.on_event(&mut store, Event::PeerClosed), Action::Close));
    assert_eq!(a.current_phase(), Phase::ClosedByPeer);
    assert!(matches!(b.on_event(&mut store, Event::ReadFailed), Action::Close));
    assert_eq!(b.current_phase(), Phase::ClosedByError);
    assert!(matches!(c.on_event(&mut store, Event::WriteFailed), Action::Close));
    assert_eq!(c.current_phase(), Phase::ClosedByError);
    let mut d = Session::new();
    assert_eq!(reply(send(&mut d, &mut store, "GET k")), "🔍 k = v\n");
}

#[test]
fn last_write_is_seen_across_sessions() {
    let mut store = KVStore::new();
    let mut sessions = vec![Session::new(), Session::new(), Session::new()];
    for (i, s) in sessions.iter_mut().enumerate() {
        send(s, &mut store, &format!("SET k conn-{}", i));
    }
    let mut observer = Session::new();
    assert_eq!(reply(send(&mut observer, &mut store, "GET k")), "🔍 k = conn-2\n");
}
