use pingpong::engine::Effects;
use pingpong::engine::GameMap;
use pingpong::engine::GameMessage;
use pingpong::engine::Notification;
use pingpong::engine::Schedule;
use pingpong::engine::handle_message;
use pingpong::engine::remove_hold;
use pingpong::engine::times_up;
use pingpong::engine::user_pinged;
use pingpong::engine::winner;
use pingpong::state::GameState;

fn texts(eff: &Effects) -> Vec<&str> {
    eff.notes.iter().map(|n| n.text.as_str()).collect()
}

#[test]
fn first_ping_starts_game() {
    let mut gm = GameMap::new();
    let eff = user_pinged(&mut gm, 7, "alice".to_string(), 0);
    assert_eq!(gm.get(7), Some(&GameState::Pong(0, 0, "alice".to_string())));
    assert_eq!(
        eff.notes,
        vec![
            Notification { chat_id: 7, text: "New game!".to_string() },
            Notification { chat_id: 7, text: "pong".to_string() },
        ]
    );
    assert_eq!(
        eff.schedules,
        vec![Schedule { delay_ms: 3000, message: GameMessage::TimesUp(7, 0) }]
    );
}

#[test]
fn stale_times_up_is_a_no_op() {
    let mut gm = GameMap::new();
    user_pinged(&mut gm, 7, "alice".to_string(), 0);
    user_pinged(&mut gm, 7, "bob".to_string(), 1000);
    // the round's counter is now 1; the timeout tagged 0 is stale
    let eff = times_up(&mut gm, 7, 0, 3000);
    assert_eq!(gm.get(7), Some(&GameState::Pong(1000, 1, "bob".to_string())));
    assert!(eff.notes.is_empty());
    assert!(eff.schedules.is_empty());
}

#[test]
fn times_up_outside_a_round_is_a_no_op() {
    let mut gm = GameMap::new();
    let eff = times_up(&mut gm, 7, 0, 3000);
    assert_eq!(gm.get(7), None);
    assert!(eff.notes.is_empty());
    assert!(eff.schedules.is_empty());
}

#[test]
fn current_times_up_declares_winner() {
    let mut gm = GameMap::new();
    user_pinged(&mut gm, 7, "alice".to_string(), 0);
    let eff = times_up(&mut gm, 7, 0, 3000);
    assert_eq!(gm.get(7), Some(&GameState::Win(3000)));
    assert_eq!(texts(&eff), vec!["alice wins"]);
    assert_eq!(
        eff.schedules,
        vec![Schedule { delay_ms: 5000, message: GameMessage::RemoveHold(7) }]
    );
}

#[test]
fn self_ping_enters_hold() {
    let mut gm = GameMap::new();
    user_pinged(&mut gm, 7, "alice".to_string(), 0);
    let eff = user_pinged(&mut gm, 7, "alice".to_string(), 1000);
    assert_eq!(gm.get(7), Some(&GameState::Hold(1000)));
    assert_eq!(texts(&eff), vec!["Don't ping your own pong. You lose."]);
    assert_eq!(
        eff.schedules,
        vec![Schedule { delay_ms: 5000, message: GameMessage::RemoveHold(7) }]
    );
}

#[test]
fn ping_in_hold_cooldown_is_silently_ignored() {
    let mut gm = GameMap::new();
    user_pinged(&mut gm, 7, "alice".to_string(), 0);
    user_pinged(&mut gm, 7, "alice".to_string(), 1000);
    let eff = user_pinged(&mut gm, 7, "bob".to_string(), 4000);
    assert_eq!(gm.get(7), Some(&GameState::Hold(1000)));
    assert!(eff.notes.is_empty());
    assert!(eff.schedules.is_empty());
}

#[test]
fn ping_after_hold_cooldown_starts_fresh_round() {
    let mut gm = GameMap::new();
    user_pinged(&mut gm, 7, "alice".to_string(), 0);
    user_pinged(&mut gm, 7, "alice".to_string(), 1000);
    let eff = user_pinged(&mut gm, 7, "bob".to_string(), 6000);
    assert_eq!(gm.get(7), Some(&GameState::Pong(6000, 0, "bob".to_string())));
    assert_eq!(texts(&eff), vec!["New game!", "pong"]);
    assert_eq!(
        eff.schedules,
        vec![Schedule { delay_ms: 3000, message: GameMessage::TimesUp(7, 0) }]
    );
}

#[test]
fn ping_in_win_cooldown_asks_to_wait() {
    let mut gm = GameMap::new();
    user_pinged(&mut gm, 7, "alice".to_string(), 0);
    times_up(&mut gm, 7, 0, 3000);
    let eff = user_pinged(&mut gm, 7, "bob".to_string(), 4000);
    assert_eq!(gm.get(7), Some(&GameState::Win(3000)));
    assert_eq!(texts(&eff), vec!["Please wait 5 seconds"]);
    assert!(eff.schedules.is_empty());
}

#[test]
fn ping_after_win_cooldown_starts_fresh_round() {
    let mut gm = GameMap::new();
    user_pinged(&mut gm, 7, "alice".to_string(), 0);
    times_up(&mut gm, 7, 0, 3000);
    let eff = user_pinged(&mut gm, 7, "bob".to_string(), 8000);
    assert_eq!(gm.get(7), Some(&GameState::Pong(8000, 0, "bob".to_string())));
    assert_eq!(texts(&eff), vec!["New game!", "pong"]);
}

#[test]
fn remove_hold_removes_hold_entry() {
    let mut gm = GameMap::new();
    user_pinged(&mut gm, 7, "alice".to_string(), 0);
    user_pinged(&mut gm, 7, "alice".to_string(), 1000);
    remove_hold(&mut gm, 7);
    assert_eq!(gm.get(7), None);
    assert_eq!(gm.len(), 0);
}

#[test]
fn remove_hold_removes_win_entry() {
    let mut gm = GameMap::new();
    user_pinged(&mut gm, 7, "alice".to_string(), 0);
    times_up(&mut gm, 7, 0, 3000);
    remove_hold(&mut gm, 7);
    assert_eq!(gm.get(7), None);
}

#[test]
fn remove_hold_is_a_no_op_on_start() {
    let mut gm = GameMap::new();
    remove_hold(&mut gm, 7);
    assert_eq!(gm.get(7), None);
    assert_eq!(gm.len(), 0);
}

#[test]
fn remove_hold_is_a_no_op_on_active_round() {
    let mut gm = GameMap::new();
    user_pinged(&mut gm, 7, "alice".to_string(), 0);
    remove_hold(&mut gm, 7);
    assert_eq!(gm.get(7), Some(&GameState::Pong(0, 0, "alice".to_string())));
}

#[test]
fn conversations_are_independent() {
    let mut gm = GameMap::new();
    user_pinged(&mut gm, 7, "alice".to_string(), 0);
    user_pinged(&mut gm, 8, "bob".to_string(), 500);
    assert_eq!(gm.len(), 2);
    assert_eq!(gm.get(7), Some(&GameState::Pong(0, 0, "alice".to_string())));
    assert_eq!(gm.get(8), Some(&GameState::Pong(500, 0, "bob".to_string())));
    remove_hold(&mut gm, 7);
    assert_eq!(gm.len(), 2);
}

#[test]
fn winner_text_is_exact() {
    let n = winner(7, "bob");
    assert_eq!(n, Notification { chat_id: 7, text: "bob wins".to_string() });
}

#[test]
fn message_constructors() {
    assert_eq!(GameMessage::ping(7, "alice".to_string()), GameMessage::Ping(7, "alice".to_string()));
    assert_eq!(GameMessage::times_up(7, 3), GameMessage::TimesUp(7, 3));
    assert_eq!(GameMessage::remove_hold(7), GameMessage::RemoveHold(7));
}

#[test]
fn full_scenario() {
    // conversation 7, times in milliseconds from t=0
    let mut gm = GameMap::new();

    // t=0: alice pings: new round, counter 0
    let eff = handle_message(&mut gm, GameMessage::ping(7, "alice".to_string()), 0);
    assert_eq!(gm.get(7), Some(&GameState::Pong(0, 0, "alice".to_string())));
    assert_eq!(texts(&eff), vec!["New game!", "pong"]);
    assert_eq!(
        eff.schedules,
        vec![Schedule { delay_ms: 3000, message: GameMessage::TimesUp(7, 0) }]
    );

    // t=1s: bob pings: round advances to counter 1
    let eff = handle_message(&mut gm, GameMessage::ping(7, "bob".to_string()), 1000);
    assert_eq!(gm.get(7), Some(&GameState::Pong(1000, 1, "bob".to_string())));
    assert_eq!(texts(&eff), vec!["pong"]);
    assert_eq!(
        eff.schedules,
        vec![Schedule { delay_ms: 3000, message: GameMessage::TimesUp(7, 1) }]
    );

    // t=3s: the timeout scheduled at t=0 fires: its tag 0 is stale, ignored
    let eff = handle_message(&mut gm, GameMessage::times_up(7, 0), 3000);
    assert_eq!(gm.get(7), Some(&GameState::Pong(1000, 1, "bob".to_string())));
    assert!(eff.notes.is_empty());
    assert!(eff.schedules.is_empty());

    // t=4s: the timeout scheduled at t=1s fires: tag 1 is current, bob wins
    let eff = handle_message(&mut gm, GameMessage::times_up(7, 1), 4000);
    assert_eq!(gm.get(7), Some(&GameState::Win(4000)));
    assert_eq!(texts(&eff), vec!["bob wins"]);
    assert_eq!(
        eff.schedules,
        vec![Schedule { delay_ms: 5000, message: GameMessage::RemoveHold(7) }]
    );

    // t=5s: alice pings within the win cooldown: state unchanged
    let eff = handle_message(&mut gm, GameMessage::ping(7, "alice".to_string()), 5000);
    assert_eq!(gm.get(7), Some(&GameState::Win(4000)));
    assert_eq!(texts(&eff), vec!["Please wait 5 seconds"]);

    // t=9s: the end-of-cooldown signal fires: entry removed
    let eff = handle_message(&mut gm, GameMessage::remove_hold(7), 9000);
    assert_eq!(gm.get(7), None);
    assert!(eff.notes.is_empty());
    assert!(eff.schedules.is_empty());

    // t=10s: carol pings: a fresh round starts
    let eff = handle_message(&mut gm, GameMessage::ping(7, "carol".to_string()), 10000);
    assert_eq!(gm.get(7), Some(&GameState::Pong(10000, 0, "carol".to_string())));
    assert_eq!(texts(&eff), vec!["New game!", "pong"]);
}
