use distkv::protocol::{decode, Command, Verb};

fn put(line: &str) -> Option<(String, String)> {
    match decode(line) {
        Command::Put { key, value } => Some((key, value)),
        _ => None,
    }
}

#[test]
fn set_takes_rest_of_line_as_value() {
    assert_eq!(put("SET k hello world"), Some(("k".to_string(), "hello world".to_string())));
}

#[test]
fn verbs_ignore_case() {
    assert_eq!(put("set k v"), Some(("k".to_string(), "v".to_string())));
    assert_eq!(put("SeT k v"), Some(("k".to_string(), "v".to_string())));
    assert!(matches!(decode("list"), Command::List));
    assert!(matches!(decode("Clear"), Command::Clear));
    assert!(matches!(decode("help"), Command::Help));
    assert!(matches!(decode("exit"), Command::Exit));
}

#[test]
fn arguments_keep_their_case() {
    assert_eq!(put("set Key Value"), Some(("Key".to_string(), "Value".to_string())));
}

#[test]
fn trailing_newline_and_blanks_are_dropped() {
    assert_eq!(put("  SET k v \r\n"), Some(("k".to_string(), "v".to_string())));
    match decode("GET k\n") {
        Command::Get { key } => assert_eq!(key, "k"),
        _ => panic!("expected GET"),
    }
}

#[test]
fn blank_lines_decode_to_blank() {
    assert!(matches!(decode(""), Command::Blank));
    assert!(matches!(decode("   \t\r\n"), Command::Blank));
}

#[test]
fn set_with_too_few_arguments_is_usage() {
    assert!(matches!(decode("SET"), Command::Usage(Verb::Put)));
    assert!(matches!(decode("SET k"), Command::Usage(Verb::Put)));
    assert!(matches!(decode("SET k "), Command::Usage(Verb::Put)));
}

#[test]
fn get_and_delete_need_exactly_one_key() {
    assert!(matches!(decode("GET"), Command::Usage(Verb::Get)));
    assert!(matches!(decode("GET a b"), Command::Usage(Verb::Get)));
    assert!(matches!(decode("DELETE"), Command::Usage(Verb::Delete)));
    assert!(matches!(decode("DELETE a b"), Command::Usage(Verb::Delete)));
    match decode("DELETE a") {
        Command::Delete { key } => assert_eq!(key, "a"),
        _ => panic!("expected DELETE"),
    }
}

#[test]
fn update_needs_key_and_value() {
    assert!(matches!(decode("UPDATE k"), Command::Usage(Verb::Update)));
    match decode("update k new value") {
        Command::Update { key, value } => {
            assert_eq!(key, "k");
            assert_eq!(value, "new value");
        }
        _ => panic!("expected UPDATE"),
    }
}

#[test]
fn empty_key_is_usage() {
    assert!(matches!(decode("SET  v"), Command::Usage(Verb::Put)));
    assert!(matches!(decode("GET "), Command::Usage(Verb::Get)));
}

#[test]
fn extra_tokens_after_list_are_ignored() {
    assert!(matches!(decode("LIST everything"), Command::List));
    assert!(matches!(decode("EXIT now please"), Command::Exit));
}

#[test]
fn unknown_verb_is_kept_as_written() {
    match decode("Frobnicate a b") {
        Command::Unknown(v) => assert_eq!(v, "Frobnicate"),
        _ => panic!("expected an unknown verb"),
    }
    assert!(matches!(decode("SETX k v"), Command::Unknown(_)));
    assert!(matches!(decode("\tSET k v"), Command::Put { .. }));
}

#[test]
fn tab_is_not_a_field_separator() {
    match decode("SET\tk v") {
        Command::Unknown(v) => assert_eq!(v, "SET\tk"),
        _ => panic!("expected an unknown verb"),
    }
}
