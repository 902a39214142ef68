//! A per-conversation "ping-pong" game engine.
//!
//! Each conversation runs an independent state machine: a `Ping` from a user
//! starts or continues a round, a scheduled `TimesUp` ends a round when no
//! opponent responded in time, and a scheduled `RemoveHold` ends the cooldown
//! that follows a penalty or a win. Races between user events and
//! independently scheduled timeouts are resolved by a generation counter:
//! a stale timeout whose tag no longer matches the round's counter is ignored.
//!
//! The engine is pure: it consumes one event at a time together with the
//! current time, mutates its owned map of game states, and returns the
//! notifications to deliver and the timer events to schedule. All I/O
//! (receiving commands, sending messages, running timers) lives outside.

pub mod engine;
pub mod laws;
pub mod state;
