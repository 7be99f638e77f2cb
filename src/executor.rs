use vstd::prelude::*;
use crate::node::{KVStore, StoreMap, lists_keys};
use crate::protocol::{Command, CommandView, Verb};
use crate::response::Response;

verus! {

/// The map after command `c` has run on `m`.
pub open spec fn next_map(m: StoreMap, c: CommandView) -> StoreMap {
    match c {
        CommandView::Put(k, v) => m.insert(k, v),
        CommandView::Delete(k) => m.remove(k),
        CommandView::Update(k, v) => if m.contains_key(k) {
            m.insert(k, v)
        } else {
            m
        },
        CommandView::Clear => StoreMap::empty(),
        _ => m,
    }
}

/// `r` is what command `c` answers when it runs on `m`: exact but for the
/// order in which LIST gives the keys.
pub open spec fn answers(m: StoreMap, c: CommandView, r: Option<Response>) -> bool {
    match c {
        CommandView::Blank => r is None,
        CommandView::Put(_, _) => r == Some(Response::Stored),
        CommandView::Get(k) => match r {
            Some(Response::Found { key, value }) => m.contains_key(k) && key@ == k
                && value@ == m[k],
            Some(Response::Missing { verb, key }) => !m.contains_key(k) && verb == Verb::Get
                && key@ == k,
            _ => false,
        },
        CommandView::Delete(k) => match r {
            Some(Response::Deleted) => m.contains_key(k),
            Some(Response::Missing { verb, key }) => !m.contains_key(k) && verb == Verb::Delete
                && key@ == k,
            _ => false,
        },
        CommandView::Update(k, _) => match r {
            Some(Response::Updated { previous }) => m.contains_key(k) && previous@ == m[k],
            Some(Response::Missing { verb, key }) => !m.contains_key(k) && verb == Verb::Update
                && key@ == k,
            _ => false,
        },
        CommandView::List => match r {
            Some(Response::Keys(keys)) => lists_keys(keys@, m),
            _ => false,
        },
        CommandView::Clear => r == Some(Response::Cleared),
        CommandView::Help => r == Some(Response::Help),
        CommandView::Exit => r == Some(Response::Farewell),
        CommandView::Usage(v) => r == Some(Response::Usage(v)),
        CommandView::Unknown(w) => match r {
            Some(Response::Unknown(x)) => x@ == w,
            _ => false,
        },
    }
}

/// Runs one command on the store, as a single step, and says how it went.
pub fn execute(store: &mut KVStore, cmd: Command) -> (r: Option<Response>)
    requires
        old(store).wf(),
    ensures
        final(store).wf(),
        final(store)@ == next_map(old(store)@, cmd@),
        answers(old(store)@, cmd@, r),
{
    match cmd {
        Command::Put { key, value } => {
            store.set(key, value);
            Some(Response::Stored)
        },
        Command::Get { key } => match store.get(key.as_str()) {
            Some(value) => Some(Response::Found { key, value }),
            None => Some(Response::Missing { verb: Verb::Get, key }),
        },
        Command::Delete { key } => {
            if store.delete(key.as_str()) {
                Some(Response::Deleted)
            } else {
                Some(Response::Missing { verb: Verb::Delete, key })
            }
        },
        Command::Update { key, value } => {
            let name = key.clone();
            match store.update(key, value) {
                Some(previous) => Some(Response::Updated { previous }),
                None => Some(Response::Missing { verb: Verb::Update, key: name }),
            }
        },
        Command::List => Some(Response::Keys(store.keys())),
        Command::Clear => {
            store.clear();
            Some(Response::Cleared)
        },
        Command::Help => Some(Response::Help),
        Command::Exit => Some(Response::Farewell),
        Command::Blank => None,
        Command::Usage(v) => Some(Response::Usage(v)),
        Command::Unknown(w) => Some(Response::Unknown(w)),
    }
}

} // verus!
