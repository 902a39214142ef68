//! Laws of the engine, stated and proved over the spec-level step function.
//!
//! Each law quantifies over every map, conversation, identity and instant its
//! statement allows; none is tied to chosen values.

use vstd::prelude::*;

use crate::engine::MessageV;
use crate::engine::NotificationV;
use crate::engine::new_game_text;
use crate::engine::pong_text;
use crate::engine::spec_step;
use crate::engine::state_of;
use crate::state::StateV;
use crate::state::counter_of;
use crate::state::since_of;
use crate::state::within_cooldown;

verus! {

/// In a conversation with no existing entry, a first ping always starts a
/// fresh round — state `Pong` entered at `now` with counter 0 and the pinging
/// user as responder — and emits exactly "New game!" then "pong".
pub proof fn lemma_first_ping(m: Map<i64, StateV>, chat_id: i64, user: Seq<char>, now: int)
    requires
        !m.dom().contains(chat_id),
    ensures
        ({
            let step = spec_step(m, MessageV::Ping { chat_id, user }, now);
            &&& step.game_map == m.insert(
                chat_id,
                StateV::Pong { since: now, counter: 0, last_user: user },
            )
            &&& step.notes == seq![
                NotificationV { chat_id, text: new_game_text() },
                NotificationV { chat_id, text: pong_text() },
            ]
        }),
{
}

/// A round timeout whose tag does not equal the conversation's current `Pong`
/// counter — and any round timeout outside an active round — is a no-op: the
/// map is unchanged, nothing is emitted, nothing is scheduled.
pub proof fn lemma_stale_times_up(m: Map<i64, StateV>, chat_id: i64, tag: int, now: int)
    requires
        state_of(m, chat_id) matches StateV::Pong { counter, .. } ==> counter != tag,
    ensures
        ({
            let step = spec_step(m, MessageV::TimesUp { chat_id, counter: tag }, now);
            &&& step.game_map == m
            &&& step.notes == Seq::<NotificationV>::empty()
            &&& step.schedules.len() == 0
        }),
{
}

/// Two consecutive pings by the same user, the first of which lands the
/// conversation in an active round, always make the second a self-response:
/// the conversation transitions to `Hold` entered at the second ping's
/// instant, never to `Pong`.
pub proof fn lemma_self_ping_penalty(
    m: Map<i64, StateV>,
    chat_id: i64,
    user: Seq<char>,
    t1: int,
    t2: int,
)
    requires
        state_of(
            spec_step(m, MessageV::Ping { chat_id, user }, t1).game_map,
            chat_id,
        ) matches StateV::Pong { .. },
    ensures
        ({
            let m1 = spec_step(m, MessageV::Ping { chat_id, user }, t1).game_map;
            let m2 = spec_step(m1, MessageV::Ping { chat_id, user }, t2).game_map;
            &&& state_of(m2, chat_id) == (StateV::Hold { since: t2 })
            &&& !(state_of(m2, chat_id) matches StateV::Pong { .. })
        }),
{
}

/// A ping delivered to a conversation in a `Hold` or `Win` cooldown never
/// changes any state while the cooldown lasts; once the cooldown has elapsed
/// it always starts a fresh round with counter 0.
pub proof fn lemma_cooldown_ping(m: Map<i64, StateV>, chat_id: i64, user: Seq<char>, now: int)
    requires
        (state_of(m, chat_id) matches StateV::Hold { .. }) || (state_of(
            m,
            chat_id,
        ) matches StateV::Win { .. }),
    ensures
        ({
            let step = spec_step(m, MessageV::Ping { chat_id, user }, now);
            &&& within_cooldown(since_of(state_of(m, chat_id)), now) ==> step.game_map == m
            &&& !within_cooldown(since_of(state_of(m, chat_id)), now) ==> state_of(
                step.game_map,
                chat_id,
            ) == (StateV::Pong { since: now, counter: 0, last_user: user })
        }),
{
}

/// An end-of-cooldown signal has an effect exactly in `Hold` and `Win`, where
/// it removes the conversation's entry; delivered to a conversation in
/// `Start` or in an active round it is a no-op. It never emits or schedules
/// anything.
pub proof fn lemma_remove_hold_effect(m: Map<i64, StateV>, chat_id: i64, now: int)
    ensures
        ({
            let s = state_of(m, chat_id);
            let step = spec_step(m, MessageV::RemoveHold { chat_id }, now);
            &&& ((s matches StateV::Hold { .. }) || (s matches StateV::Win { .. }))
                ==> step.game_map == m.remove(chat_id)
            &&& ((s matches StateV::Start) || (s matches StateV::Pong { .. })) ==> step.game_map
                == m
            &&& step.notes.len() == 0
            &&& step.schedules.len() == 0
        }),
{
}

/// Within one conversation the generation counter never goes backwards: any
/// single event that leaves the conversation in an active round both before
/// and after has the counter afterwards at least the counter before.
pub proof fn lemma_counter_monotone(m: Map<i64, StateV>, message: MessageV, now: int, chat_id: i64)
    ensures
        ({
            let m2 = spec_step(m, message, now).game_map;
            ((state_of(m, chat_id) matches StateV::Pong { .. }) && (state_of(
                m2,
                chat_id,
            ) matches StateV::Pong { .. })) ==> counter_of(state_of(m2, chat_id)) >= counter_of(
                state_of(m, chat_id),
            )
        }),
{
}

} // verus!
