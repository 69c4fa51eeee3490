use chess_tui::session::{Event, Incoming, Reaction, SessionState, SubmitError};

fn feed(s: &mut SessionState, text: &str) -> Vec<Event> {
    let mut events = Vec::new();
    let r = s.on_incoming(Incoming::Text(text.to_string()), &mut events);
    assert_eq!(r, Reaction::Continue);
    events
}

#[test]
fn submit_writes_frame_and_marks_pending() {
    let mut s = SessionState::new("abcd1234");
    let frame = s.submit_move("e2e4", 20, false).unwrap();
    assert_eq!(frame, r#"{"d":{"a":0,"b":0,"l":20,"u":"e2e4"},"t":"move"}"#);
    assert_eq!(s.pending_move().as_deref(), Some("e2e4"));
    assert!(!s.last_move_acked());
    assert_eq!(s.game_id(), "abcd1234");
}

#[test]
fn submit_escapes_the_move() {
    let mut s = SessionState::new("g");
    let frame = s.submit_move("e2\"e4", 20, false).unwrap();
    assert_eq!(frame, r#"{"d":{"a":0,"b":0,"l":20,"u":"e2\"e4"},"t":"move"}"#);
}

#[test]
fn second_submission_while_pending_is_refused() {
    let mut s = SessionState::new("g");
    assert!(s.submit_move("e2e4", 20, false).is_ok());
    assert_eq!(s.submit_move("d2d4", 20, false), Err(SubmitError::MovePending));
    assert_eq!(s.submit_move("e2e4", 50, true), Err(SubmitError::MovePending));
    assert_eq!(s.pending_move().as_deref(), Some("e2e4"));
}

#[test]
fn ack_clears_pending() {
    let mut s = SessionState::new("g");
    s.submit_move("e2e4", 20, false).unwrap();
    let events = feed(&mut s, r#"{"t":"ack","d":1}"#);
    assert!(events.is_empty());
    assert_eq!(s.pending_move(), None);
    assert!(s.last_move_acked());
    assert!(s.submit_move("g1f3", 20, false).is_ok());
}

#[test]
fn resync_clears_pending() {
    let mut s = SessionState::new("g");
    s.submit_move("e2e4", 20, false).unwrap();
    let events = feed(&mut s, r#"{"t":"resync"}"#);
    assert_eq!(events, vec![Event::ResyncRequired]);
    assert_eq!(s.pending_move(), None);
}

#[test]
fn reload_without_pending_still_signals() {
    let mut s = SessionState::new("g");
    let events = feed(&mut s, r#"{"t":"reload"}"#);
    assert_eq!(events, vec![Event::ResyncRequired]);
    assert_eq!(s.pending_move(), None);
}

#[test]
fn end_data_ends_game_for_good() {
    let mut s = SessionState::new("g");
    let events = feed(&mut s, r#"{"t":"endData","d":{"status":"mate"}}"#);
    assert_eq!(events, vec![Event::GameEnded]);
    assert!(s.is_game_ended());
    feed(&mut s, r#"{"t":"resync"}"#);
    feed(&mut s, r#"{"t":"reload"}"#);
    assert!(s.is_game_ended());
    assert_eq!(s.submit_move("e2e4", 20, false), Err(SubmitError::GameEnded));
}

#[test]
fn move_with_winner_ends_game() {
    let mut s = SessionState::new("g");
    let events = feed(&mut s, r#"{"t":"move","d":{"uci":"f7f6","fen":"8/8/8/8/8/8/8/8 w - - 0 1","ply":9,"winner":"black"}}"#);
    assert_eq!(
        events,
        vec![
            Event::OpponentMove("f7f6".to_string()),
            Event::PositionUpdate("8/8/8/8/8/8/8/8 w - - 0 1".to_string()),
            Event::GameEnded
        ]
    );
    assert!(s.is_game_ended());
    assert_eq!(s.ack_counter(), 9);
    assert_eq!(s.submit_move("e2e4", 20, false), Err(SubmitError::GameEnded));
}

#[test]
fn move_prefers_uci_field() {
    let mut s = SessionState::new("g");
    let events = feed(&mut s, r#"{"t":"move","d":{"uci":"a2a3","u":"h2h3"}}"#);
    assert_eq!(events, vec![Event::OpponentMove("a2a3".to_string())]);
    let events = feed(&mut s, r#"{"t":"move","d":{"u":"h7h6"}}"#);
    assert_eq!(events, vec![Event::OpponentMove("h7h6".to_string())]);
}

#[test]
fn ack_counter_overwritten_by_lower_ply() {
    let mut s = SessionState::new("g");
    feed(&mut s, r#"{"t":"move","d":{"ply":7}}"#);
    assert_eq!(s.ack_counter(), 7);
    feed(&mut s, r#"{"t":"move","d":{"ply":5}}"#);
    assert_eq!(s.ack_counter(), 5);
    let frame = s.submit_move("e7e5", 20, false).unwrap();
    assert_eq!(frame, r#"{"d":{"a":5,"b":0,"l":20,"u":"e7e5"},"t":"move"}"#);
}

#[test]
fn ignored_frames_change_nothing() {
    let mut s = SessionState::new("g");
    s.submit_move("e2e4", 20, false).unwrap();
    assert!(feed(&mut s, r#"{"t":"crowd","d":{"white":true,"black":true}}"#).is_empty());
    assert!(feed(&mut s, r#"{"t":"somethingNew"}"#).is_empty());
    assert!(feed(&mut s, "{broken").is_empty());
    assert_eq!(s.pending_move().as_deref(), Some("e2e4"));
    assert!(!s.is_game_ended());
}

#[test]
fn drain_with_nothing_available_is_empty() {
    let mut s = SessionState::new("g");
    let mut events = Vec::new();
    assert_eq!(s.on_incoming(Incoming::WouldBlock, &mut events), Reaction::Stop);
    assert!(events.is_empty());
}

#[test]
fn ping_is_answered_with_pong() {
    let mut s = SessionState::new("g");
    let mut events = Vec::new();
    assert_eq!(s.on_incoming(Incoming::Ping(vec![1, 2, 3]), &mut events), Reaction::Pong(vec![1, 2, 3]));
    assert_eq!(s.on_incoming(Incoming::Close, &mut events), Reaction::Stop);
    assert_eq!(s.on_incoming(Incoming::Failed, &mut events), Reaction::Fatal);
    assert_eq!(s.on_incoming(Incoming::Other, &mut events), Reaction::Continue);
    assert!(events.is_empty());
}
