use chess_tui::protocol::{decode_message, encode_move_frame, EndData, LichessMessage};

#[test]
fn decode_move_with_all_fields() {
    let text = r#"{"t":"move","d":{"uci":"e2e4","san":"e4","fen":"rnbqkbnr/pppppppp/8/8/4P3/8/PPPP1PPP/RNBQKBNR b KQkq - 0 1","ply":1}}"#;
    match decode_message(text) {
        Some(LichessMessage::Move { d, terminal }) => {
            assert_eq!(d.uci.as_deref(), Some("e2e4"));
            assert_eq!(d.san.as_deref(), Some("e4"));
            assert_eq!(d.ply, Some(1));
            assert_eq!(d.u, None);
            assert!(d.fen.is_some());
            assert!(!terminal);
        }
        other => panic!("unexpected {:?}", other),
    }
}

#[test]
fn decode_move_with_status_is_terminal() {
    let text = r#"{"t":"move","d":{"u":"d1h5","status":{"id":30,"name":"mate"},"winner":"white"}}"#;
    match decode_message(text) {
        Some(LichessMessage::Move { d, terminal }) => {
            assert_eq!(d.u.as_deref(), Some("d1h5"));
            assert!(terminal);
        }
        other => panic!("unexpected {:?}", other),
    }
}

#[test]
fn decode_kinds() {
    assert_eq!(decode_message(r#"{"t":"ack","d":3}"#), Some(LichessMessage::Ack));
    assert_eq!(decode_message(r#"{"t":"reload"}"#), Some(LichessMessage::Reload));
    assert_eq!(decode_message(r#"{"t":"resync"}"#), Some(LichessMessage::Resync));
    assert_eq!(decode_message(r#"{"t":"crowd","d":{"white":true}}"#), Some(LichessMessage::Crowd));
    assert_eq!(decode_message(r#"{"t":"clockInc"}"#), Some(LichessMessage::Unrecognized));
}

#[test]
fn decode_end_data() {
    let m = decode_message(r#"{"t":"endData","d":{"status":"resign","winner":"black"}}"#);
    assert_eq!(
        m,
        Some(LichessMessage::EndData {
            d: EndData { status: Some("resign".to_string()), winner: Some("black".to_string()) }
        })
    );
}

#[test]
fn decode_unreadable_frames() {
    assert_eq!(decode_message("not json"), None);
    assert_eq!(decode_message(r#"{"d":{}}"#), None);
    assert_eq!(decode_message(r#"{"t":5}"#), None);
    assert_eq!(decode_message(""), None);
}

#[test]
fn encode_normal_frame() {
    assert_eq!(
        encode_move_frame("\"e2e4\"", 0, false, 20),
        r#"{"d":{"a":0,"b":0,"l":20,"u":"e2e4"},"t":"move"}"#
    );
}

#[test]
fn encode_large_numbers() {
    assert_eq!(
        encode_move_frame("\"g1f3\"", 4294967295, true, 1050),
        r#"{"d":{"a":4294967295,"b":1,"l":1050,"u":"g1f3"},"t":"move"}"#
    );
}
