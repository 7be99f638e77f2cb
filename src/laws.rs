use vstd::prelude::*;
use crate::executor::{answers, next_map};
use crate::node::{StoreMap, lookup};
use crate::protocol::{decoded, CommandView, Verb};
use crate::response::{response_text, Response};
use crate::session::{action_fits, map_after, phase_after, Action, Event, Phase};

verus! {

/// A GET leaves the map as it was, so a second GET of the same key gives
/// the same answer as the first.
pub proof fn lemma_read_is_repeatable(m: StoreMap, k: Seq<char>, r1: Option<Response>, r2: Option<Response>)
    requires
        answers(m, CommandView::Get(k), r1),
        answers(next_map(m, CommandView::Get(k)), CommandView::Get(k), r2),
    ensures
        next_map(m, CommandView::Get(k)) == m,
        r1 is Some && r2 is Some,
        response_text(&r1.unwrap()) == response_text(&r2.unwrap()),
{
}

/// Of two SETs of one key, the later one's value is what GET then finds.
pub proof fn lemma_last_write_wins(
    m: StoreMap,
    k: Seq<char>,
    v1: Seq<char>,
    v2: Seq<char>,
    r: Option<Response>,
)
    requires
        answers(
            next_map(next_map(m, CommandView::Put(k, v1)), CommandView::Put(k, v2)),
            CommandView::Get(k),
            r,
        ),
    ensures
        match r {
            Some(Response::Found { key, value }) => key@ == k && value@ == v2,
            _ => false,
        },
{
}

/// After a SET, DELETE of that key finds it; a GET then finds nothing, and a
/// second DELETE finds nothing either.
pub proof fn lemma_delete_removes(
    m: StoreMap,
    k: Seq<char>,
    v: Seq<char>,
    d1: Option<Response>,
    g: Option<Response>,
    d2: Option<Response>,
)
    requires
        answers(next_map(m, CommandView::Put(k, v)), CommandView::Delete(k), d1),
        answers(
            next_map(next_map(m, CommandView::Put(k, v)), CommandView::Delete(k)),
            CommandView::Get(k),
            g,
        ),
        answers(
            next_map(next_map(m, CommandView::Put(k, v)), CommandView::Delete(k)),
            CommandView::Delete(k),
            d2,
        ),
    ensures
        d1 == Some(Response::Deleted),
        lookup(next_map(next_map(m, CommandView::Put(k, v)), CommandView::Delete(k)), k) is None,
        match g {
            Some(Response::Missing { verb, key }) => verb == Verb::Get && key@ == k,
            _ => false,
        },
        match d2 {
            Some(Response::Missing { verb, key }) => verb == Verb::Delete && key@ == k,
            _ => false,
        },
{
}

/// UPDATE of an absent key finds nothing and creates nothing.
pub proof fn lemma_update_absent_creates_nothing(
    m: StoreMap,
    k: Seq<char>,
    v: Seq<char>,
    r: Option<Response>,
)
    requires
        !m.contains_key(k),
        answers(m, CommandView::Update(k, v), r),
    ensures
        match r {
            Some(Response::Missing { verb, key }) => verb == Verb::Update && key@ == k,
            _ => false,
        },
        next_map(m, CommandView::Update(k, v)) == m,
        lookup(next_map(m, CommandView::Update(k, v)), k) is None,
{
}

/// UPDATE of a stored key gives back the value it held and stores the new one.
pub proof fn lemma_update_present_replaces(
    m: StoreMap,
    k: Seq<char>,
    v: Seq<char>,
    r: Option<Response>,
)
    requires
        m.contains_key(k),
        answers(m, CommandView::Update(k, v), r),
    ensures
        match r {
            Some(Response::Updated { previous }) => previous@ == m[k],
            _ => false,
        },
        lookup(next_map(m, CommandView::Update(k, v)), k) == Some(v),
{
}

/// On a fresh store, after SET of `a` and SET of `b`, LIST gives exactly the
/// keys `a` and `b`; after CLEAR, LIST gives no key.
pub proof fn lemma_list_then_clear(
    a: Seq<char>,
    va: Seq<char>,
    b: Seq<char>,
    vb: Seq<char>,
    listed: Option<Response>,
    after_clear: Option<Response>,
)
    requires
        answers(
            next_map(next_map(StoreMap::empty(), CommandView::Put(a, va)), CommandView::Put(b, vb)),
            CommandView::List,
            listed,
        ),
        answers(
            next_map(
                next_map(next_map(StoreMap::empty(), CommandView::Put(a, va)), CommandView::Put(b, vb)),
                CommandView::Clear,
            ),
            CommandView::List,
            after_clear,
        ),
    ensures
        match listed {
            Some(Response::Keys(keys)) => {
                &&& forall|i: int| 0 <= i < keys@.len() ==> keys@[i]@ == a || keys@[i]@ == b
                &&& exists|i: int| 0 <= i < keys@.len() && keys@[i]@ == a
                &&& exists|i: int| 0 <= i < keys@.len() && keys@[i]@ == b
            },
            _ => false,
        },
        match after_clear {
            Some(Response::Keys(keys)) => keys@.len() == 0,
            _ => false,
        },
{
    let m = next_map(next_map(StoreMap::empty(), CommandView::Put(a, va)), CommandView::Put(b, vb));
    assert(m.contains_key(a) && m.contains_key(b));
    match listed {
        Some(Response::Keys(keys)) => {
            assert forall|i: int| 0 <= i < keys@.len() implies keys@[i]@ == a || keys@[i]@ == b by {
                assert(m.contains_key(keys@[i]@));
            }
        },
        _ => {},
    }
    match after_clear {
        Some(Response::Keys(keys)) => {
            if keys@.len() > 0 {
                assert(next_map(m, CommandView::Clear).contains_key(keys@[0]@));
            }
        },
        _ => {},
    }
}

/// The map after running `cmds`, one at a time and in order, from `m`.
pub open spec fn run(m: StoreMap, cmds: Seq<CommandView>) -> StoreMap
    decreases cmds.len(),
{
    if cmds.len() == 0 {
        m
    } else {
        next_map(run(m, cmds.drop_last()), cmds.last())
    }
}

/// Command `c` writes value `v` under key `k`.
pub open spec fn writes(c: CommandView, k: Seq<char>, v: Seq<char>) -> bool {
    c == CommandView::Put(k, v) || c == CommandView::Update(k, v)
}

/// Every value stored after a run from a fresh store was written whole, under
/// its key, by one of the run's commands.
pub proof fn lemma_stored_values_were_written(cmds: Seq<CommandView>, k: Seq<char>)
    requires
        run(StoreMap::empty(), cmds).contains_key(k),
    ensures
        exists|i: int| 0 <= i < cmds.len() && writes(cmds[i], k, run(StoreMap::empty(), cmds)[k]),
    decreases cmds.len(),
{
    let before = run(StoreMap::empty(), cmds.drop_last());
    let n = cmds.len() - 1;
    let c = cmds.last();
    let after = run(StoreMap::empty(), cmds);
    if writes(c, k, after[k]) {
        assert(writes(cmds[n], k, after[k]));
    } else {
        assert(before.contains_key(k) && after[k] == before[k]);
        lemma_stored_values_were_written(cmds.drop_last(), k);
        let i = choose|i: int| 0 <= i < cmds.drop_last().len() && writes(cmds.drop_last()[i], k, before[k]);
        assert(writes(cmds[i], k, after[k]));
    }
}

/// A GET after any run from a fresh store finds only a value that some
/// command of the run wrote whole under that key.
pub proof fn lemma_read_sees_a_write(cmds: Seq<CommandView>, k: Seq<char>, r: Option<Response>)
    requires
        answers(run(StoreMap::empty(), cmds), CommandView::Get(k), r),
    ensures
        match r {
            Some(Response::Found { key, value }) => exists|i: int|
                0 <= i < cmds.len() && writes(cmds[i], k, value@),
            _ => true,
        },
{
    if run(StoreMap::empty(), cmds).contains_key(k) {
        lemma_stored_values_were_written(cmds, k);
    }
}

/// A line with an unknown verb or wrong arguments leaves the map as it was,
/// keeps the session open, and is answered.
pub proof fn lemma_bad_line_keeps_session(m: StoreMap, line: String, a: Action)
    requires
        decoded(line@) is Usage || decoded(line@) is Unknown,
        action_fits(Phase::Open, &Event::Line(line), m, &a),
    ensures
        phase_after(Phase::Open, &Event::Line(line)) == Phase::Open,
        map_after(Phase::Open, &Event::Line(line), m) == m,
        a is Reply,
{
}

/// A close or a failure of one connection leaves the map as it was.
pub proof fn lemma_close_keeps_map(p: Phase, e: Event, m: StoreMap)
    requires
        !(e is Line),
    ensures
        map_after(p, &e, m) == m,
        phase_after(p, &e) != Phase::Open,
{
}

} // verus!
