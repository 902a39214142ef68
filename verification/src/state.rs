//! The per-conversation game state and its single-state transition on a ping.

use vstd::prelude::*;

verus! {

/// Time allowed for the opposing player to respond before the round ends,
/// in milliseconds.
pub const PONG_TIMEOUT_MS: u64 = 3000;

/// Cooldown after a penalty or a win before a new round may start,
/// in milliseconds.
pub const COOLDOWN_MS: u64 = 5000;

/// The mathematical model of a conversation's game state. Instants are
/// unbounded integers; the responder identity is a sequence of characters.
pub ghost enum StateV {
    Start,
    Hold { since: int },
    Win { since: int },
    Pong { since: int, counter: int, last_user: Seq<char> },
}

/// The game state of one conversation.
///
/// Instants are milliseconds on the caller's monotone clock. `Start` means no
/// game is in progress; `Hold` is the cooldown after a self-response penalty;
/// `Win` is the cooldown after a winner was declared; `Pong` is an active
/// round, carrying the instant it (re)started, the round's generation counter,
/// and the identity of the most recent responder.
#[derive(Debug, Clone, PartialEq)]
pub enum GameState {
    Start,
    Hold(u64),
    Win(u64),
    Pong(u64, u64, String),
}

impl View for GameState {
    type V = StateV;

    open spec fn view(&self) -> StateV {
        match self {
            GameState::Start => StateV::Start,
            GameState::Hold(since) => StateV::Hold { since: *since as int },
            GameState::Win(since) => StateV::Win { since: *since as int },
            GameState::Pong(since, counter, last_user) => StateV::Pong {
                since: *since as int,
                counter: *counter as int,
                last_user: last_user@,
            },
        }
    }
}

/// Whether instant `now` still falls in the cooldown window that began at
/// instant `since`.
pub open spec fn within_cooldown(since: int, now: int) -> bool {
    now < since + COOLDOWN_MS
}

/// The generation counter of a state: the counter of an active round, 0
/// otherwise.
pub open spec fn counter_of(s: StateV) -> int {
    match s {
        StateV::Pong { counter, .. } => counter,
        _ => 0,
    }
}

/// The instant a state was entered: when a cooldown began, or when a round
/// last advanced; 0 for `Start`, which no instant enters.
pub open spec fn since_of(s: StateV) -> int {
    match s {
        StateV::Start => 0,
        StateV::Hold { since } => since,
        StateV::Win { since } => since,
        StateV::Pong { since, .. } => since,
    }
}

/// What a ping by `user` at instant `now` makes of state `s`:
/// `None` means the ping is not honored with a new state (either it fell in a
/// `Hold` cooldown, or the user responded to their own turn and forfeits).
pub open spec fn ping_result(s: StateV, user: Seq<char>, now: int) -> Option<StateV> {
    match s {
        StateV::Start => Some(StateV::Pong { since: now, counter: 0, last_user: user }),
        StateV::Hold { since } => if within_cooldown(since, now) {
            None
        } else {
            Some(StateV::Pong { since: now, counter: 0, last_user: user })
        },
        StateV::Win { since } => if within_cooldown(since, now) {
            Some(StateV::Win { since })
        } else {
            Some(StateV::Pong { since: now, counter: 0, last_user: user })
        },
        StateV::Pong { since, counter, last_user } => if user == last_user {
            None
        } else {
            Some(StateV::Pong { since: now, counter: counter + 1, last_user: user })
        },
    }
}

/// The view of an optional game state.
pub open spec fn opt_state_view(r: Option<GameState>) -> Option<StateV> {
    match r {
        Some(g) => Some(g@),
        None => None,
    }
}

/// Executable cooldown test, exact against `within_cooldown`.
pub fn in_cooldown(since: u64, now: u64) -> (r: bool)
    ensures
        r == within_cooldown(since as int, now as int),
{
    now < since || now - since < COOLDOWN_MS
}

impl GameState {
    /// The state of a conversation no game has touched.
    pub fn new() -> (s: Self)
        ensures
            s@ == StateV::Start,
    {
        GameState::Start
    }

    /// The cooldown state entered at instant `now` after a self-response
    /// penalty.
    pub fn hold(now: u64) -> (s: Self)
        ensures
            s@ == (StateV::Hold { since: now as int }),
    {
        GameState::Hold(now)
    }

    /// The cooldown state entered at instant `now` after a winner was
    /// declared.
    pub fn win(now: u64) -> (s: Self)
        ensures
            s@ == (StateV::Win { since: now as int }),
    {
        GameState::Win(now)
    }

    /// The next state after `username` pings at instant `now`, or `None`
    /// where the ping is not honored with a new state (see `ping_result`).
    pub fn ping(self, username: String, now: u64) -> (r: Option<Self>)
        requires
            counter_of(self@) < u64::MAX,
        ensures
            opt_state_view(r) == ping_result(self@, username@, now as int),
    {
        match self {
            GameState::Start => Some(GameState::Pong(now, 0, username)),
            GameState::Hold(since) => {
                if in_cooldown(since, now) {
                    None
                } else {
                    Some(GameState::Pong(now, 0, username))
                }
            },
            GameState::Win(since) => {
                if in_cooldown(since, now) {
                    Some(GameState::Win(since))
                } else {
                    Some(GameState::Pong(now, 0, username))
                }
            },
            GameState::Pong(_, counter, prev_username) => {
                if username == prev_username {
                    None
                } else {
                    Some(GameState::Pong(now, counter + 1, username))
                }
            },
        }
    }

    /// The generation counter of an active round, 0 in any other state.
    pub fn counter(&self) -> (c: u64)
        ensures
            c as int == counter_of(self@),
    {
        match *self {
            GameState::Pong(_, counter, _) => counter,
            _ => 0,
        }
    }
}

} // verus!
