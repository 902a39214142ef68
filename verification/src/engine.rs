//! The game actor: the owned map of game states, the events it consumes, the
//! effects it emits, and the step it takes for each event.

use std::collections::HashMap;
use vstd::prelude::*;
use vstd::string::StringExecFns;
use vstd::map::*;

use crate::state::COOLDOWN_MS;
use crate::state::PONG_TIMEOUT_MS;
use crate::state::GameState;
use crate::state::StateV;
use crate::state::counter_of;
use crate::state::in_cooldown;
use crate::state::within_cooldown;

verus! {

broadcast use vstd::std_specs::hash::group_hash_axioms;

/// The mathematical model of an event.
pub ghost enum MessageV {
    Ping { chat_id: i64, user: Seq<char> },
    TimesUp { chat_id: i64, counter: int },
    RemoveHold { chat_id: i64 },
}

/// An event the actor consumes: a user pinged a conversation, a scheduled
/// round timeout fired (tagged with the generation counter in effect when it
/// was scheduled), or a scheduled end-of-cooldown signal fired.
#[derive(Debug, Clone, PartialEq)]
pub enum GameMessage {
    Ping(i64, String),
    TimesUp(i64, u64),
    RemoveHold(i64),
}

impl View for GameMessage {
    type V = MessageV;

    open spec fn view(&self) -> MessageV {
        match self {
            GameMessage::Ping(chat_id, user) => MessageV::Ping {
                chat_id: *chat_id,
                user: user@,
            },
            GameMessage::TimesUp(chat_id, counter) => MessageV::TimesUp {
                chat_id: *chat_id,
                counter: *counter as int,
            },
            GameMessage::RemoveHold(chat_id) => MessageV::RemoveHold { chat_id: *chat_id },
        }
    }
}

impl GameMessage {
    /// The event for a ping by `username` in conversation `chat_id`.
    pub fn ping(chat_id: i64, username: String) -> (m: Self)
        ensures
            m@ == (MessageV::Ping { chat_id, user: username@ }),
    {
        GameMessage::Ping(chat_id, username)
    }

    /// The round-timeout event for conversation `chat_id`, tagged with the
    /// generation `counter` of the round it was scheduled for.
    pub fn times_up(chat_id: i64, counter: u64) -> (m: Self)
        ensures
            m@ == (MessageV::TimesUp { chat_id, counter: counter as int }),
    {
        GameMessage::TimesUp(chat_id, counter)
    }

    /// The end-of-cooldown event for conversation `chat_id`.
    pub fn remove_hold(chat_id: i64) -> (m: Self)
        ensures
            m@ == (MessageV::RemoveHold { chat_id }),
    {
        GameMessage::RemoveHold(chat_id)
    }
}

/// The mathematical model of an outbound notification.
pub ghost struct NotificationV {
    pub chat_id: i64,
    pub text: Seq<char>,
}

/// An outbound plain-text notification for a conversation. Delivery is
/// fire-and-forget and happens outside the engine.
#[derive(Debug, Clone, PartialEq)]
pub struct Notification {
    pub chat_id: i64,
    pub text: String,
}

impl View for Notification {
    type V = NotificationV;

    open spec fn view(&self) -> NotificationV {
        NotificationV { chat_id: self.chat_id, text: self.text@ }
    }
}

/// The mathematical model of a scheduling request.
pub ghost struct ScheduleV {
    pub delay_ms: int,
    pub message: MessageV,
}

/// A request to deliver `message` back into the actor's event queue no
/// earlier than `delay_ms` milliseconds from now. Timers are never cancelled;
/// stale events are filtered by the actor itself.
#[derive(Debug, Clone, PartialEq)]
pub struct Schedule {
    pub delay_ms: u64,
    pub message: GameMessage,
}

impl View for Schedule {
    type V = ScheduleV;

    open spec fn view(&self) -> ScheduleV {
        ScheduleV { delay_ms: self.delay_ms as int, message: self.message@ }
    }
}

/// The mathematical model of one step's effects.
pub ghost struct EffectsV {
    pub notes: Seq<NotificationV>,
    pub schedules: Seq<ScheduleV>,
}

/// Everything one step asks of the outside: notifications to deliver, in
/// order, and timer events to schedule.
#[derive(Debug, Clone, PartialEq)]
pub struct Effects {
    pub notes: Vec<Notification>,
    pub schedules: Vec<Schedule>,
}

impl View for Effects {
    type V = EffectsV;

    open spec fn view(&self) -> EffectsV {
        EffectsV {
            notes: self.notes@.map_values(|n: Notification| n@),
            schedules: self.schedules@.map_values(|s: Schedule| s@),
        }
    }
}

/// The map from conversation id to game state, exclusively owned and mutated
/// by the actor. A conversation with no entry is implicitly in `Start`.
pub struct GameMap {
    m: HashMap<i64, GameState>,
}

impl View for GameMap {
    type V = Map<i64, StateV>;

    closed spec fn view(&self) -> Map<i64, StateV> {
        self.m@.map_values(|s: GameState| s@)
    }
}

/// The effective state of conversation `chat_id`: its entry if one exists,
/// `Start` otherwise.
pub open spec fn state_of(m: Map<i64, StateV>, chat_id: i64) -> StateV {
    if m.dom().contains(chat_id) {
        m[chat_id]
    } else {
        StateV::Start
    }
}

impl GameMap {
    /// An empty map: every conversation is in `Start`.
    pub fn new() -> (g: Self)
        ensures
            g@ == Map::<i64, StateV>::empty(),
    {
        let g = GameMap { m: HashMap::new() };
        proof {
            assert(g@ =~= Map::<i64, StateV>::empty());
        }
        g
    }

    /// The entry for conversation `chat_id`, if one exists.
    pub fn get(&self, chat_id: i64) -> (r: Option<&GameState>)
        ensures
            match r {
                Some(s) => self@.dom().contains(chat_id) && s@ == self@[chat_id],
                None => !self@.dom().contains(chat_id),
            },
    {
        let r = self.m.get(&chat_id);
        proof {
            assert(self.m@.dom() =~= self@.dom());
        }
        r
    }

    /// How many conversations have an entry.
    pub fn len(&self) -> (n: usize)
        ensures
            n == self@.len(),
    {
        proof {
            assert(self.m@.dom() =~= self@.dom());
        }
        self.m.len()
    }

    fn insert(&mut self, chat_id: i64, s: GameState)
        ensures
            final(self)@ == old(self)@.insert(chat_id, s@),
    {
        let ghost sv = s@;
        self.m.insert(chat_id, s);
        proof {
            assert(final(self)@ =~= old(self)@.insert(chat_id, sv));
        }
    }

    fn remove(&mut self, chat_id: i64)
        ensures
            final(self)@ == old(self)@.remove(chat_id),
    {
        self.m.remove(&chat_id);
        proof {
            assert(final(self)@ =~= old(self)@.remove(chat_id));
        }
    }
}

/// The text announcing a fresh round.
pub open spec fn new_game_text() -> Seq<char> {
    "New game!"@
}

/// The text acknowledging a turn.
pub open spec fn pong_text() -> Seq<char> {
    "pong"@
}

/// The text sent to a ping that falls in a win cooldown.
pub open spec fn please_wait_text() -> Seq<char> {
    "Please wait 5 seconds"@
}

/// The text sent to a user who responded to their own turn.
pub open spec fn self_pong_text() -> Seq<char> {
    "Don't ping your own pong. You lose."@
}

/// The text announcing that `user` won a round.
pub open spec fn wins_text(user: Seq<char>) -> Seq<char> {
    user + " wins"@
}

/// The mathematical model of one step of the actor: the map afterwards, the
/// notifications it emits, in order, and the timer events it schedules.
pub ghost struct StepV {
    pub game_map: Map<i64, StateV>,
    pub notes: Seq<NotificationV>,
    pub schedules: Seq<ScheduleV>,
}

/// A step that changes nothing, emits nothing and schedules nothing.
pub open spec fn no_op(m: Map<i64, StateV>) -> StepV {
    StepV { game_map: m, notes: Seq::empty(), schedules: Seq::empty() }
}

/// The step that starts a fresh round in conversation `chat_id`: the round
/// begins at `now` with counter 0 and `user` as the first responder, the
/// conversation hears "New game!" then "pong", and a round timeout tagged 0
/// is scheduled.
pub open spec fn fresh_round(
    m: Map<i64, StateV>,
    chat_id: i64,
    user: Seq<char>,
    now: int,
) -> StepV {
    StepV {
        game_map: m.insert(chat_id, StateV::Pong { since: now, counter: 0, last_user: user }),
        notes: seq![
            NotificationV { chat_id, text: new_game_text() },
            NotificationV { chat_id, text: pong_text() },
        ],
        schedules: seq![
            ScheduleV {
                delay_ms: PONG_TIMEOUT_MS as int,
                message: MessageV::TimesUp { chat_id, counter: 0 },
            },
        ],
    }
}

/// What a ping by `user` in conversation `chat_id` at instant `now` does:
/// from `Start`, or from a `Hold` or `Win` whose cooldown has elapsed, it
/// starts a fresh round; inside a `Hold` cooldown it is ignored silently;
/// inside a `Win` cooldown it only asks the user to wait; in an active round
/// it either penalizes a self-response with a `Hold` or passes the turn to
/// `user` with the counter advanced.
pub open spec fn ping_step(m: Map<i64, StateV>, chat_id: i64, user: Seq<char>, now: int) -> StepV {
    match state_of(m, chat_id) {
        StateV::Start => fresh_round(m, chat_id, user, now),
        StateV::Hold { since } => if within_cooldown(since, now) {
            no_op(m)
        } else {
            fresh_round(m, chat_id, user, now)
        },
        StateV::Win { since } => if within_cooldown(since, now) {
            StepV {
                game_map: m,
                notes: seq![NotificationV { chat_id, text: please_wait_text() }],
                schedules: Seq::empty(),
            }
        } else {
            fresh_round(m, chat_id, user, now)
        },
        StateV::Pong { since, counter, last_user } => if user == last_user {
            StepV {
                game_map: m.insert(chat_id, StateV::Hold { since: now }),
                notes: seq![NotificationV { chat_id, text: self_pong_text() }],
                schedules: seq![
                    ScheduleV {
                        delay_ms: COOLDOWN_MS as int,
                        message: MessageV::RemoveHold { chat_id },
                    },
                ],
            }
        } else {
            StepV {
                game_map: m.insert(
                    chat_id,
                    StateV::Pong { since: now, counter: counter + 1, last_user: user },
                ),
                notes: seq![NotificationV { chat_id, text: pong_text() }],
                schedules: seq![
                    ScheduleV {
                        delay_ms: PONG_TIMEOUT_MS as int,
                        message: MessageV::TimesUp { chat_id, counter: counter + 1 },
                    },
                ],
            }
        },
    }
}

/// What a round timeout tagged `tag` does in conversation `chat_id` at
/// instant `now`: if the conversation is in an active round whose counter
/// still equals `tag`, the last responder wins and the win cooldown begins;
/// a stale tag, or any state other than an active round, makes it a no-op.
pub open spec fn times_up_step(m: Map<i64, StateV>, chat_id: i64, tag: int, now: int) -> StepV {
    match state_of(m, chat_id) {
        StateV::Pong { since, counter, last_user } => if counter == tag {
            StepV {
                game_map: m.insert(chat_id, StateV::Win { since: now }),
                notes: seq![NotificationV { chat_id, text: wins_text(last_user) }],
                schedules: seq![
                    ScheduleV {
                        delay_ms: COOLDOWN_MS as int,
                        message: MessageV::RemoveHold { chat_id },
                    },
                ],
            }
        } else {
            no_op(m)
        },
        _ => no_op(m),
    }
}

/// What an end-of-cooldown signal does in conversation `chat_id`: in a `Hold`
/// or `Win` it removes the entry, reverting the conversation to the implicit
/// `Start`; in any other state it is a no-op. It never emits or schedules
/// anything.
pub open spec fn remove_hold_step(m: Map<i64, StateV>, chat_id: i64) -> StepV {
    match state_of(m, chat_id) {
        StateV::Hold { .. } => StepV {
            game_map: m.remove(chat_id),
            notes: Seq::empty(),
            schedules: Seq::empty(),
        },
        StateV::Win { .. } => StepV {
            game_map: m.remove(chat_id),
            notes: Seq::empty(),
            schedules: Seq::empty(),
        },
        _ => no_op(m),
    }
}

/// One step of the actor: the transition table, dispatched on the event.
pub open spec fn spec_step(m: Map<i64, StateV>, message: MessageV, now: int) -> StepV {
    match message {
        MessageV::Ping { chat_id, user } => ping_step(m, chat_id, user, now),
        MessageV::TimesUp { chat_id, counter } => times_up_step(m, chat_id, counter, now),
        MessageV::RemoveHold { chat_id } => remove_hold_step(m, chat_id),
    }
}

/// The notification that announces `user` as the winner in conversation
/// `chat_id`.
pub fn winner(chat_id: i64, user: &str) -> (n: Notification)
    ensures
        n@ == (NotificationV { chat_id, text: wins_text(user@) }),
{
    Notification { chat_id, text: user.to_owned().concat(" wins") }
}

/// What a ping decides before any mutation: the branch of the transition
/// table it falls under, with the data the branch needs.
enum PingDecision {
    FreshRound,
    Ignore,
    PleaseWait,
    Penalty,
    Advance(u64),
}

/// Handles a ping by `user` in conversation `chat_id` at instant `now`,
/// exactly as `ping_step` says: mutates the map and returns the notifications
/// and scheduling requests of that step.
pub fn user_pinged(game_map: &mut GameMap, chat_id: i64, user: String, now: u64) -> (eff: Effects)
    requires
        counter_of(state_of(old(game_map)@, chat_id)) < u64::MAX,
    ensures
        ({
            let step = ping_step(old(game_map)@, chat_id, user@, now as int);
            &&& final(game_map)@ == step.game_map
            &&& eff@.notes == step.notes
            &&& eff@.schedules == step.schedules
        }),
{
    let ghost user_v = user@;
    let decision = match game_map.get(chat_id) {
        None => PingDecision::FreshRound,
        Some(GameState::Start) => PingDecision::FreshRound,
        Some(GameState::Hold(since)) => {
            if in_cooldown(*since, now) {
                PingDecision::Ignore
            } else {
                PingDecision::FreshRound
            }
        },
        Some(GameState::Win(since)) => {
            if in_cooldown(*since, now) {
                PingDecision::PleaseWait
            } else {
                PingDecision::FreshRound
            }
        },
        Some(GameState::Pong(_, counter, last_user)) => {
            if user == *last_user {
                PingDecision::Penalty
            } else {
                PingDecision::Advance(*counter)
            }
        },
    };

    let mut notes: Vec<Notification> = Vec::new();
    let mut schedules: Vec<Schedule> = Vec::new();
    match decision {
        PingDecision::FreshRound => {
            notes.push(Notification { chat_id, text: "New game!".to_owned() });
            notes.push(Notification { chat_id, text: "pong".to_owned() });
            schedules.push(
                Schedule { delay_ms: PONG_TIMEOUT_MS, message: GameMessage::times_up(chat_id, 0) },
            );
            game_map.insert(chat_id, GameState::Pong(now, 0, user));
        },
        PingDecision::Ignore => {},
        PingDecision::PleaseWait => {
            notes.push(Notification { chat_id, text: "Please wait 5 seconds".to_owned() });
        },
        PingDecision::Penalty => {
            notes.push(
                Notification { chat_id, text: "Don't ping your own pong. You lose.".to_owned() },
            );
            schedules.push(
                Schedule { delay_ms: COOLDOWN_MS, message: GameMessage::remove_hold(chat_id) },
            );
            game_map.insert(chat_id, GameState::hold(now));
        },
        PingDecision::Advance(counter) => {
            notes.push(Notification { chat_id, text: "pong".to_owned() });
            schedules.push(
                Schedule {
                    delay_ms: PONG_TIMEOUT_MS,
                    message: GameMessage::times_up(chat_id, counter + 1),
                },
            );
            game_map.insert(chat_id, GameState::Pong(now, counter + 1, user));
        },
    }
    let eff = Effects { notes, schedules };
    proof {
        let step = ping_step(old(game_map)@, chat_id, user_v, now as int);
        assert(eff@.notes =~= step.notes);
        assert(eff@.schedules =~= step.schedules);
    }
    eff
}

/// Handles a round timeout tagged `timeout_counter` in conversation `chat_id`
/// at instant `now`, exactly as `times_up_step` says: declares the last
/// responder the winner when the tag is current, and ignores a stale tag.
pub fn times_up(game_map: &mut GameMap, chat_id: i64, timeout_counter: u64, now: u64) -> (eff:
    Effects)
    ensures
        ({
            let step = times_up_step(old(game_map)@, chat_id, timeout_counter as int, now as int);
            &&& final(game_map)@ == step.game_map
            &&& eff@.notes == step.notes
            &&& eff@.schedules == step.schedules
        }),
{
    let won: Option<Notification> = match game_map.get(chat_id) {
        Some(GameState::Pong(_, counter, username)) => {
            if *counter == timeout_counter {
                Some(winner(chat_id, username.as_str()))
            } else {
                None
            }
        },
        _ => None,
    };

    let mut notes: Vec<Notification> = Vec::new();
    let mut schedules: Vec<Schedule> = Vec::new();
    match won {
        Some(n) => {
            notes.push(n);
            schedules.push(
                Schedule { delay_ms: COOLDOWN_MS, message: GameMessage::remove_hold(chat_id) },
            );
            game_map.insert(chat_id, GameState::win(now));
        },
        None => {},
    }
    let eff = Effects { notes, schedules };
    proof {
        let step = times_up_step(old(game_map)@, chat_id, timeout_counter as int, now as int);
        assert(eff@.notes =~= step.notes);
        assert(eff@.schedules =~= step.schedules);
    }
    eff
}

/// Handles an end-of-cooldown signal in conversation `chat_id`, exactly as
/// `remove_hold_step` says: removes the entry of a conversation in `Hold` or
/// `Win`, and does nothing otherwise.
pub fn remove_hold(game_map: &mut GameMap, chat_id: i64)
    ensures
        final(game_map)@ == remove_hold_step(old(game_map)@, chat_id).game_map,
{
    let in_cooldown_state = match game_map.get(chat_id) {
        Some(GameState::Hold(_)) => true,
        Some(GameState::Win(_)) => true,
        _ => false,
    };
    if in_cooldown_state {
        game_map.remove(chat_id);
    }
}

/// One step of the actor on event `message` at instant `now`: mutates the map
/// and returns the effects, exactly as `spec_step` says. The caller performs
/// the effects: delivers each notification and arranges for each scheduled
/// message to re-enter the event queue after its delay.
pub fn handle_message(game_map: &mut GameMap, message: GameMessage, now: u64) -> (eff: Effects)
    requires
        message@ matches MessageV::Ping { chat_id, .. } ==> counter_of(
            state_of(old(game_map)@, chat_id),
        ) < u64::MAX,
    ensures
        ({
            let step = spec_step(old(game_map)@, message@, now as int);
            &&& final(game_map)@ == step.game_map
            &&& eff@.notes == step.notes
            &&& eff@.schedules == step.schedules
        }),
{
    match message {
        GameMessage::Ping(chat_id, user) => user_pinged(game_map, chat_id, user, now),
        GameMessage::TimesUp(chat_id, timeout_counter) => times_up(
            game_map,
            chat_id,
            timeout_counter,
            now,
        ),
        GameMessage::RemoveHold(chat_id) => {
            remove_hold(game_map, chat_id);
            let eff = Effects { notes: Vec::new(), schedules: Vec::new() };
            proof {
                assert(eff@.notes =~= Seq::<NotificationV>::empty());
                assert(eff@.schedules =~= Seq::<ScheduleV>::empty());
            }
            eff
        },
    }
}

} // verus!
