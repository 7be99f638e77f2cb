use vstd::prelude::*;

verus! {

/// A verb whose arguments are checked when a line is decoded.
#[derive(Clone, Copy, Debug, PartialEq, Eq, Structural)]
pub enum Verb {
    Put,
    Get,
    Delete,
    Update,
}

/// One decoded request line.
pub enum Command {
    /// SET: store `value` under `key`, creating or overwriting it.
    Put { key: String, value: String },
    /// Read the value of `key`.
    Get { key: String },
    /// Remove `key`.
    Delete { key: String },
    /// Replace the value of `key`, which must already exist.
    Update { key: String, value: String },
    /// List every stored key.
    List,
    /// Remove every entry.
    Clear,
    /// Show the supported verbs.
    Help,
    /// End the session.
    Exit,
    /// A line holding nothing but blanks: no reply is owed.
    Blank,
    /// A known verb with a wrong number of arguments, or an empty key.
    Usage(Verb),
    /// A verb that is not known; carries the verb as it was written.
    Unknown(String),
}

/// The mathematical form of a [`Command`].
pub enum CommandView {
    Put(Seq<char>, Seq<char>),
    Get(Seq<char>),
    Delete(Seq<char>),
    Update(Seq<char>, Seq<char>),
    List,
    Clear,
    Help,
    Exit,
    Blank,
    Usage(Verb),
    Unknown(Seq<char>),
}

impl View for Command {
    type V = CommandView;

    open spec fn view(&self) -> CommandView {
        match self {
            Command::Put { key, value } => CommandView::Put(key@, value@),
            Command::Get { key } => CommandView::Get(key@),
            Command::Delete { key } => CommandView::Delete(key@),
            Command::Update { key, value } => CommandView::Update(key@, value@),
            Command::List => CommandView::List,
            Command::Clear => CommandView::Clear,
            Command::Help => CommandView::Help,
            Command::Exit => CommandView::Exit,
            Command::Blank => CommandView::Blank,
            Command::Usage(v) => CommandView::Usage(*v),
            Command::Unknown(w) => CommandView::Unknown(w@),
        }
    }
}

/// The characters that surround a request line and are dropped from it.
pub open spec fn is_blank_char(c: char) -> bool {
    c == ' ' || c == '\t' || c == '\n' || c == '\r' || c == '\u{0B}' || c == '\u{0C}'
}

/// The first position at or after `i` that does not hold a blank character.
pub open spec fn lead_end(s: Seq<char>, i: int) -> int
    decreases s.len() - i,
{
    if 0 <= i < s.len() && is_blank_char(s[i]) {
        lead_end(s, i + 1)
    } else {
        i
    }
}

/// The end of `s.subrange(lo, j)` once the blank characters at its end are dropped.
pub open spec fn trail_start(s: Seq<char>, lo: int, j: int) -> int
    decreases j - lo,
{
    if lo < j && is_blank_char(s[j - 1]) {
        trail_start(s, lo, j - 1)
    } else {
        j
    }
}

/// `s` without the blank characters at its start and its end.
pub open spec fn trimmed(s: Seq<char>) -> Seq<char> {
    let a = lead_end(s, 0);
    s.subrange(a, trail_start(s, a, s.len() as int))
}

/// The position of the first space at or after `i`, or the length of `s`.
pub open spec fn space_from(s: Seq<char>, i: int) -> int
    decreases s.len() - i,
{
    if i < 0 || i >= s.len() {
        s.len() as int
    } else if s[i] == ' ' {
        i
    } else {
        space_from(s, i + 1)
    }
}

/// `t` cut at its first two spaces: one, two or three fields, the last of
/// which is the rest of the line and may hold spaces itself.
pub open spec fn fields(t: Seq<char>) -> Seq<Seq<char>> {
    let p = space_from(t, 0);
    if p >= t.len() {
        seq![t]
    } else {
        let rest = t.subrange(p + 1, t.len() as int);
        let q = space_from(rest, 0);
        if q >= rest.len() {
            seq![t.subrange(0, p), rest]
        } else {
            seq![t.subrange(0, p), rest.subrange(0, q), rest.subrange(q + 1, rest.len() as int)]
        }
    }
}

/// `c` is the upper-case letter `u`, in either ASCII case, or equals `u`.
pub open spec fn same_letter(c: char, u: char) -> bool {
    c == u || (65 <= u as u32 && u as u32 <= 90 && c as u32 == u as u32 + 32)
}

/// The token `v` spells the upper-case word `w`, ignoring ASCII case.
pub open spec fn names(v: Seq<char>, w: Seq<char>) -> bool {
    v.len() == w.len() && forall|i: int| 0 <= i < v.len() ==> same_letter(v[i], w[i])
}

/// What the request line `s` asks for.
pub open spec fn decoded(s: Seq<char>) -> CommandView {
    let t = trimmed(s);
    if t.len() == 0 {
        CommandView::Blank
    } else {
        let f = fields(t);
        let v = f[0];
        if names(v, "SET"@) {
            if f.len() == 3 && f[1].len() > 0 {
                CommandView::Put(f[1], f[2])
            } else {
                CommandView::Usage(Verb::Put)
            }
        } else if names(v, "GET"@) {
            if f.len() == 2 && f[1].len() > 0 {
                CommandView::Get(f[1])
            } else {
                CommandView::Usage(Verb::Get)
            }
        } else if names(v, "DELETE"@) {
            if f.len() == 2 && f[1].len() > 0 {
                CommandView::Delete(f[1])
            } else {
                CommandView::Usage(Verb::Delete)
            }
        } else if names(v, "UPDATE"@) {
            if f.len() == 3 && f[1].len() > 0 {
                CommandView::Update(f[1], f[2])
            } else {
                CommandView::Usage(Verb::Update)
            }
        } else if names(v, "LIST"@) {
            CommandView::List
        } else if names(v, "CLEAR"@) {
            CommandView::Clear
        } else if names(v, "HELP"@) {
            CommandView::Help
        } else if names(v, "EXIT"@) {
            CommandView::Exit
        } else {
            CommandView::Unknown(v)
        }
    }
}

fn is_blank(c: char) -> (r: bool)
    ensures
        r == is_blank_char(c),
{
    c == ' ' || c == '\t' || c == '\n' || c == '\r' || c == '\u{0B}' || c == '\u{0C}'
}

/// The bounds of `s` once blank characters are dropped from both ends.
fn trim_bounds(s: &str) -> (r: (usize, usize))
    ensures
        r.0 <= r.1 <= s@.len(),
        s@.subrange(r.0 as int, r.1 as int) == trimmed(s@),
{
    let n = s.unicode_len();
    let mut a: usize = 0;
    loop
        invariant
            n == s@.len(),
            a <= n,
            lead_end(s@, a as int) == lead_end(s@, 0),
        ensures
            a == lead_end(s@, 0),
        decreases n - a,
    {
        if a >= n || !is_blank(s.get_char(a)) {
            break;
        }
        a = a + 1;
    }
    let mut b: usize = n;
    loop
        invariant
            n == s@.len(),
            a <= b <= n,
            lead_end(s@, 0) == a,
            trail_start(s@, a as int, b as int) == trail_start(s@, a as int, n as int),
        ensures
            b == trail_start(s@, a as int, n as int),
        decreases b - a,
    {
        if b <= a || !is_blank(s.get_char(b - 1)) {
            break;
        }
        b = b - 1;
    }
    (a, b)
}

/// The position of the first space in `t`, or its length.
fn first_space(t: &str) -> (r: usize)
    ensures
        r == space_from(t@, 0),
        r <= t@.len(),
{
    let n = t.unicode_len();
    let mut i: usize = 0;
    loop
        invariant
            n == t@.len(),
            i <= n,
            space_from(t@, i as int) == space_from(t@, 0),
        ensures
            i == space_from(t@, 0),
        decreases n - i,
    {
        if i >= n || t.get_char(i) == ' ' {
            break;
        }
        i = i + 1;
    }
    i
}

/// Whether the token `tok` spells the upper-case word `word`, ignoring ASCII case.
fn spells(tok: &str, word: &str) -> (r: bool)
    ensures
        r == names(tok@, word@),
{
    let n = tok.unicode_len();
    if n != word.unicode_len() {
        return false;
    }
    let mut i: usize = 0;
    while i < n
        invariant
            n == tok@.len(),
            n == word@.len(),
            i <= n,
            forall|j: int| 0 <= j < i ==> same_letter(tok@[j], word@[j]),
        decreases n - i,
    {
        let c = tok.get_char(i);
        let u = word.get_char(i);
        let folded = 65 <= u as u32 && u as u32 <= 90 && c as u32 == u as u32 + 32;
        if !(c == u || folded) {
            return false;
        }
        i = i + 1;
    }
    true
}

/// Decodes one request line.
pub fn decode(line: &str) -> (r: Command)
    ensures
        r@ == decoded(line@),
{
    let (a, b) = trim_bounds(line);
    if a == b {
        return Command::Blank;
    }
    let t = line.substring_char(a, b);
    let n = t.unicode_len();
    let p = first_space(t);
    let verb = t.substring_char(0, p);
    let mut count: usize = 1;
    let mut first: &str = "";
    let mut second: &str = "";
    if p < n {
        let rest = t.substring_char(p + 1, n);
        let rn = rest.unicode_len();
        let q = first_space(rest);
        if q < rn {
            count = 3;
            first = rest.substring_char(0, q);
            second = rest.substring_char(q + 1, rn);
        } else {
            count = 2;
            first = rest;
        }
    }
    let ghost f = fields(t@);
    assert(f.len() == count);
    assert(f[0] == verb@);
    assert(count >= 2 ==> f[1] == first@);
    assert(count == 3 ==> f[2] == second@);
    let has_key = count >= 2 && !first.is_empty();
    if spells(verb, "SET") {
        if count == 3 && has_key {
            Command::Put { key: String::from_str(first), value: String::from_str(second) }
        } else {
            Command::Usage(Verb::Put)
        }
    } else if spells(verb, "GET") {
        if count == 2 && has_key {
            Command::Get { key: String::from_str(first) }
        } else {
            Command::Usage(Verb::Get)
        }
    } else if spells(verb, "DELETE") {
        if count == 2 && has_key {
            Command::Delete { key: String::from_str(first) }
        } else {
            Command::Usage(Verb::Delete)
        }
    } else if spells(verb, "UPDATE") {
        if count == 3 && has_key {
            Command::Update { key: String::from_str(first), value: String::from_str(second) }
        } else {
            Command::Usage(Verb::Update)
        }
    } else if spells(verb, "LIST") {
        Command::List
    } else if spells(verb, "CLEAR") {
        Command::Clear
    } else if spells(verb, "HELP") {
        Command::Help
    } else if spells(verb, "EXIT") {
        Command::Exit
    } else {
        Command::Unknown(String::from_str(verb))
    }
}

} // verus!
