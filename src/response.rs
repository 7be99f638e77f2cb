use vstd::prelude::*;
use crate::protocol::Verb;

verus! {

/// The outcome of one command, before it is written as a line.
pub enum Response {
    /// SET stored its value.
    Stored,
    /// GET found `key` holding `value`.
    Found { key: String, value: String },
    /// GET, DELETE or UPDATE named a key that is not stored.
    Missing { verb: Verb, key: String },
    /// DELETE removed its key.
    Deleted,
    /// UPDATE replaced `previous`.
    Updated { previous: String },
    /// LIST: the stored keys, in no particular order.
    Keys(Vec<String>),
    /// CLEAR removed every entry.
    Cleared,
    /// HELP: the supported verbs.
    Help,
    /// A known verb had the wrong arguments.
    Usage(Verb),
    /// The verb, as written, is not known.
    Unknown(String),
    /// EXIT: the session ends after this line.
    Farewell,
}

/// The views of a sequence of strings.
pub open spec fn views(v: Seq<String>) -> Seq<Seq<char>> {
    v.map_values(|s: String| s@)
}

/// The items of `v` with ", " between each two.
pub open spec fn joined(v: Seq<Seq<char>>) -> Seq<char>
    decreases v.len(),
{
    if v.len() == 0 {
        Seq::empty()
    } else if v.len() == 1 {
        v[0]
    } else {
        joined(v.drop_last()) + ", "@ + v.last()
    }
}

/// How a verb's expected arguments are shown.
pub open spec fn usage_text(v: Verb) -> Seq<char> {
    match v {
        Verb::Put => "⚠️ Usage: SET <key> <value>\n"@,
        Verb::Get => "⚠️ Usage: GET <key>\n"@,
        Verb::Delete => "⚠️ Usage: DELETE <key>\n"@,
        Verb::Update => "⚠️ Usage: UPDATE <key> <new_value>\n"@,
    }
}

/// The line of text that answers with `r`.
pub open spec fn response_text(r: &Response) -> Seq<char> {
    match r {
        Response::Stored => "✅ Key set successfully.\n"@,
        Response::Found { key, value } => "🔍 "@ + key@ + " = "@ + value@ + "\n"@,
        Response::Missing { verb, key } => match verb {
            Verb::Delete => "❌ Key not found.\n"@,
            Verb::Update => "❌ Key not found for update.\n"@,
            _ => "❌ Key '"@ + key@ + "' not found.\n"@,
        },
        Response::Deleted => "🗑️ Key deleted.\n"@,
        Response::Updated { previous } => "✅ Key updated. Old value: "@ + previous@ + "\n"@,
        Response::Keys(keys) => if keys@.len() == 0 {
            "⚠️ No keys stored.\n"@
        } else {
            "🗂️ Stored keys: "@ + joined(views(keys@)) + "\n"@
        },
        Response::Cleared => "🧹 Store cleared.\n"@,
        Response::Help => HELP_LINE@,
        Response::Usage(v) => usage_text(*v),
        Response::Unknown(w) => "❓ Unknown command '"@ + w@ + "'. Type 'HELP' for available commands.\n"@,
        Response::Farewell => "👋 Bye.\n"@,
    }
}

/// The answer to HELP.
pub const HELP_LINE: &'static str =
    "🆘 Available commands: SET <key> <value> | GET <key> | DELETE <key> | UPDATE <key> <new_value> | LIST | CLEAR | HELP | EXIT\n";

/// The keys of `keys` with ", " between each two.
fn join_keys(keys: &Vec<String>) -> (r: String)
    ensures
        r@ == joined(views(keys@)),
{
    let mut r = String::new();
    let mut i: usize = 0;
    while i < keys.len()
        invariant
            i <= keys@.len(),
            r@ == joined(views(keys@).subrange(0, i as int)),
        decreases keys@.len() - i,
    {
        let ghost done = views(keys@).subrange(0, i as int + 1);
        assert(done.drop_last() =~= views(keys@).subrange(0, i as int));
        if i > 0 {
            r.append(", ");
        } else {
            assert(done =~= seq![keys@[0]@]);
        }
        r.append(keys[i].as_str());
        i = i + 1;
    }
    assert(views(keys@).subrange(0, keys@.len() as int) =~= views(keys@));
    r
}

/// Writes `r` as its line of text.
pub fn encode(r: &Response) -> (t: String)
    ensures
        t@ == response_text(r),
{
    match r {
        Response::Stored => String::from_str("✅ Key set successfully.\n"),
        Response::Found { key, value } => {
            let mut t = String::from_str("🔍 ");
            t.append(key.as_str());
            t.append(" = ");
            t.append(value.as_str());
            t.append("\n");
            t
        },
        Response::Missing { verb, key } => match verb {
            Verb::Delete => String::from_str("❌ Key not found.\n"),
            Verb::Update => String::from_str("❌ Key not found for update.\n"),
            _ => {
                let mut t = String::from_str("❌ Key '");
                t.append(key.as_str());
                t.append("' not found.\n");
                t
            },
        },
        Response::Deleted => String::from_str("🗑️ Key deleted.\n"),
        Response::Updated { previous } => {
            let mut t = String::from_str("✅ Key updated. Old value: ");
            t.append(previous.as_str());
            t.append("\n");
            t
        },
        Response::Keys(keys) => {
            if keys.len() == 0 {
                String::from_str("⚠️ No keys stored.\n")
            } else {
                let mut t = String::from_str("🗂️ Stored keys: ");
                let list = join_keys(keys);
                t.append(list.as_str());
                t.append("\n");
                t
            }
        },
        Response::Cleared => String::from_str("🧹 Store cleared.\n"),
        Response::Help => String::from_str(HELP_LINE),
        Response::Usage(v) => match v {
            Verb::Put => String::from_str("⚠️ Usage: SET <key> <value>\n"),
            Verb::Get => String::from_str("⚠️ Usage: GET <key>\n"),
            Verb::Delete => String::from_str("⚠️ Usage: DELETE <key>\n"),
            Verb::Update => String::from_str("⚠️ Usage: UPDATE <key> <new_value>\n"),
        },
        Response::Unknown(w) => {
            let mut t = String::from_str("❓ Unknown command '");
            t.append(w.as_str());
            t.append("'. Type 'HELP' for available commands.\n");
            t
        },
        Response::Farewell => String::from_str("👋 Bye.\n"),
    }
}

} // verus!
