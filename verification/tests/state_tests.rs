use pingpong::state::GameState;
use pingpong::state::in_cooldown;
use pingpong::state::COOLDOWN_MS;
use pingpong::state::PONG_TIMEOUT_MS;

#[test]
fn constants_match_design() {
    assert_eq!(PONG_TIMEOUT_MS, 3000);
    assert_eq!(COOLDOWN_MS, 5000);
}

#[test]
fn cooldown_window_edges() {
    assert!(in_cooldown(1000, 1000));
    assert!(in_cooldown(1000, 5999));
    assert!(!in_cooldown(1000, 6000));
    assert!(!in_cooldown(1000, 7000));
    // an instant before the window began still counts as inside it
    assert!(in_cooldown(1000, 500));
}

#[test]
fn ping_from_start_begins_round() {
    let s = GameState::new();
    let next = s.ping("alice".to_string(), 42);
    assert_eq!(next, Some(GameState::Pong(42, 0, "alice".to_string())));
}

#[test]
fn ping_in_hold_cooldown_is_not_honored() {
    let s = GameState::hold(1000);
    assert_eq!(s.ping("alice".to_string(), 3000), None);
}

#[test]
fn ping_after_hold_cooldown_begins_round() {
    let s = GameState::hold(1000);
    let next = s.ping("alice".to_string(), 6000);
    assert_eq!(next, Some(GameState::Pong(6000, 0, "alice".to_string())));
}

#[test]
fn ping_in_win_cooldown_keeps_state() {
    let s = GameState::win(1000);
    assert_eq!(s.ping("alice".to_string(), 3000), Some(GameState::Win(1000)));
}

#[test]
fn ping_after_win_cooldown_begins_round() {
    let s = GameState::win(1000);
    let next = s.ping("alice".to_string(), 6000);
    assert_eq!(next, Some(GameState::Pong(6000, 0, "alice".to_string())));
}

#[test]
fn self_ping_is_not_honored() {
    let s = GameState::Pong(0, 4, "alice".to_string());
    assert_eq!(s.ping("alice".to_string(), 1000), None);
}

#[test]
fn other_user_ping_advances_counter() {
    let s = GameState::Pong(0, 4, "alice".to_string());
    let next = s.ping("bob".to_string(), 1000);
    assert_eq!(next, Some(GameState::Pong(1000, 5, "bob".to_string())));
}

#[test]
fn counter_reads_round_counter() {
    assert_eq!(GameState::Pong(0, 7, "alice".to_string()).counter(), 7);
    assert_eq!(GameState::new().counter(), 0);
    assert_eq!(GameState::hold(3).counter(), 0);
    assert_eq!(GameState::win(3).counter(), 0);
}
