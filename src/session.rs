use vstd::prelude::*;
use crate::executor::{answers, execute, next_map};
use crate::node::{KVStore, StoreMap};
use crate::protocol::{decode, decoded, Command, CommandView};
use crate::response::{encode, response_text, Response};

verus! {

/// Where a connection's session stands.
#[derive(Clone, Copy, Debug, PartialEq, Eq, Structural)]
pub enum Phase {
    /// Waiting for the next request line.
    Open,
    /// The peer closed the stream.
    ClosedByPeer,
    /// Reading or writing failed.
    ClosedByError,
    /// The peer sent EXIT.
    ClosedByExit,
}

/// What the connection reports to its session.
pub enum Event {
    /// A request line arrived.
    Line(String),
    /// The peer closed the stream.
    PeerClosed,
    /// Reading from the stream failed.
    ReadFailed,
    /// Writing a reply failed.
    WriteFailed,
}

/// What the connection is to do next.
pub enum Action {
    /// Write nothing; read the next line.
    Wait,
    /// Write this line, then read the next one.
    Reply(String),
    /// Write this line, then close the connection.
    ReplyThenClose(String),
    /// Close the connection.
    Close,
}

/// The phase that follows `p` on `e`.
pub open spec fn phase_after(p: Phase, e: &Event) -> Phase {
    if p != Phase::Open {
        p
    } else {
        match e {
            Event::Line(l) => if decoded(l@) is Exit {
                Phase::ClosedByExit
            } else {
                Phase::Open
            },
            Event::PeerClosed => Phase::ClosedByPeer,
            _ => Phase::ClosedByError,
        }
    }
}

/// The map after `e` reaches a session in phase `p`.
pub open spec fn map_after(p: Phase, e: &Event, m: StoreMap) -> StoreMap {
    match e {
        Event::Line(l) => if p == Phase::Open {
            next_map(m, decoded(l@))
        } else {
            m
        },
        _ => m,
    }
}

/// `t` is the text of an answer that command `c` may give on `m`.
pub open spec fn fitting_reply(m: StoreMap, c: CommandView, t: Seq<char>) -> bool {
    exists|r: Response| answers(m, c, Some(r)) && #[trigger] response_text(&r) == t
}

/// `a` is the action owed when `e` reaches a session in phase `p` over map `m`.
pub open spec fn action_fits(p: Phase, e: &Event, m: StoreMap, a: &Action) -> bool {
    if p != Phase::Open {
        a is Close
    } else {
        match e {
            Event::Line(l) => {
                let c = decoded(l@);
                match a {
                    Action::Wait => c is Blank,
                    Action::Reply(t) => !(c is Blank) && !(c is Exit) && fitting_reply(m, c, t@),
                    Action::ReplyThenClose(t) => c is Exit && t@ == response_text(
                        &Response::Farewell,
                    ),
                    Action::Close => false,
                }
            },
            _ => a is Close,
        }
    }
}

/// One connection's request/response cycle.
pub struct Session {
    phase: Phase,
}

impl Session {
    /// A session that waits for its first line.
    pub fn new() -> (r: Self)
        ensures
            r.phase() == Phase::Open,
    {
        Session { phase: Phase::Open }
    }

    /// Where the session stands.
    pub closed spec fn phase(&self) -> Phase {
        self.phase
    }

    /// Where the session stands.
    pub fn current_phase(&self) -> (r: Phase)
        ensures
            r == self.phase(),
    {
        self.phase
    }

    /// Whether the session still takes lines.
    pub fn is_open(&self) -> (r: bool)
        ensures
            r == (self.phase() == Phase::Open),
    {
        self.phase == Phase::Open
    }

    /// Takes one event: decodes and runs a request line as a single step on
    /// the store, or ends the session on a close or a failure.
    pub fn on_event(&mut self, store: &mut KVStore, event: Event) -> (a: Action)
        requires
            old(store).wf(),
        ensures
            final(store).wf(),
            final(self).phase() == phase_after(old(self).phase(), &event),
            final(store)@ == map_after(old(self).phase(), &event, old(store)@),
            action_fits(old(self).phase(), &event, old(store)@, &a),
    {
        if self.phase != Phase::Open {
            return Action::Close;
        }
        match event {
            Event::Line(line) => {
                let cmd = decode(line.as_str());
                let exiting = match cmd {
                    Command::Exit => true,
                    _ => false,
                };
                match execute(store, cmd) {
                    None => Action::Wait,
                    Some(r) => {
                        let t = encode(&r);
                        if exiting {
                            self.phase = Phase::ClosedByExit;
                            Action::ReplyThenClose(t)
                        } else {
                            Action::Reply(t)
                        }
                    },
                }
            },
            Event::PeerClosed => {
                self.phase = Phase::ClosedByPeer;
                Action::Close
            },
            Event::ReadFailed | Event::WriteFailed => {
                self.phase = Phase::ClosedByError;
                Action::Close
            },
        }
    }
}

} // verus!
