//! The tagged messages of the game socket: what a received text frame holds,
//! and the text of an outgoing move frame.
use vstd::prelude::*;
use crate::json::{
    json_member_str, json_nested_has, json_nested_str, json_nested_uint, member_str, nested_has,
    nested_str, nested_uint, opt_view, parse_json, parses_as_json,
};

verus! {

/// The payload of a `move` message.
#[derive(Debug, Clone, PartialEq, Eq)]
pub struct MoveData {
    /// The move in coordinate notation.
    pub u: Option<String>,
    /// The acknowledgement number.
    pub a: Option<u32>,
    /// The high-commitment flag, 0 or 1.
    pub b: Option<u32>,
    /// The reported lag in milliseconds.
    pub l: Option<u32>,
    /// The move in algebraic notation.
    pub san: Option<String>,
    /// The position after the move.
    pub fen: Option<String>,
    /// The ply the game has reached.
    pub ply: Option<u32>,
    /// The move in coordinate notation, under its alternative field.
    pub uci: Option<String>,
}

/// The payload of an `endData` message.
#[derive(Debug, Clone, PartialEq, Eq)]
pub struct EndData {
    pub status: Option<String>,
    pub winner: Option<String>,
}

/// A received message, by its kind tag `"t"`.
#[derive(Debug, Clone, PartialEq, Eq)]
pub enum LichessMessage {
    /// `move`; `terminal` is set when the payload carries a status or a winner.
    Move { d: MoveData, terminal: bool },
    Ack,
    EndData { d: EndData },
    Reload,
    Resync,
    Crowd,
    /// A kind this client does not know.
    Unrecognized,
}

/// What the session logic reads of a received text frame.
pub enum MessageModel {
    Move { ply: Option<u32>, mv: Option<Seq<char>>, fen: Option<Seq<char>>, terminal: bool },
    Ack,
    EndGame,
    Reload,
    Resync,
    Crowd,
    Unrecognized,
    /// Not a JSON document, or one without a string tag `"t"`.
    Unreadable,
}

/// An integer read from JSON, as a `u32` (truncated).
pub open spec fn narrow(v: Option<u64>) -> Option<u32> {
    match v {
        Some(x) => Some(x as u32),
        None => None,
    }
}

/// The move a `move` payload reports: the `uci` field, else the `u` field.
pub open spec fn reported_move(text: Seq<char>) -> Option<Seq<char>> {
    if json_nested_str(text, "d"@, "uci"@) is Some {
        json_nested_str(text, "d"@, "uci"@)
    } else {
        json_nested_str(text, "d"@, "u"@)
    }
}

/// What a received text frame means to the session, read through serde_json.
pub open spec fn text_model(text: Seq<char>) -> MessageModel {
    if !parses_as_json(text) {
        MessageModel::Unreadable
    } else {
        match json_member_str(text, "t"@) {
            None => MessageModel::Unreadable,
            Some(t) => if t == "move"@ {
                MessageModel::Move {
                    ply: narrow(json_nested_uint(text, "d"@, "ply"@)),
                    mv: reported_move(text),
                    fen: json_nested_str(text, "d"@, "fen"@),
                    terminal: json_nested_has(text, "d"@, "status"@) || json_nested_has(text, "d"@, "winner"@),
                }
            } else if t == "ack"@ {
                MessageModel::Ack
            } else if t == "endData"@ {
                MessageModel::EndGame
            } else if t == "reload"@ {
                MessageModel::Reload
            } else if t == "resync"@ {
                MessageModel::Resync
            } else if t == "crowd"@ {
                MessageModel::Crowd
            } else {
                MessageModel::Unrecognized
            },
        }
    }
}

/// Every field of a `move` payload as the text holds it.
pub open spec fn move_data_fits(d: MoveData, text: Seq<char>) -> bool {
    &&& opt_view(d.u) == json_nested_str(text, "d"@, "u"@)
    &&& d.a == narrow(json_nested_uint(text, "d"@, "a"@))
    &&& d.b == narrow(json_nested_uint(text, "d"@, "b"@))
    &&& d.l == narrow(json_nested_uint(text, "d"@, "l"@))
    &&& opt_view(d.san) == json_nested_str(text, "d"@, "san"@)
    &&& opt_view(d.fen) == json_nested_str(text, "d"@, "fen"@)
    &&& d.ply == narrow(json_nested_uint(text, "d"@, "ply"@))
    &&& opt_view(d.uci) == json_nested_str(text, "d"@, "uci"@)
}

impl LichessMessage {
    pub open spec fn model(self) -> MessageModel {
        match self {
            LichessMessage::Move { d, terminal } => MessageModel::Move {
                ply: d.ply,
                mv: if d.uci is Some { opt_view(d.uci) } else { opt_view(d.u) },
                fen: opt_view(d.fen),
                terminal,
            },
            LichessMessage::Ack => MessageModel::Ack,
            LichessMessage::EndData { .. } => MessageModel::EndGame,
            LichessMessage::Reload => MessageModel::Reload,
            LichessMessage::Resync => MessageModel::Resync,
            LichessMessage::Crowd => MessageModel::Crowd,
            LichessMessage::Unrecognized => MessageModel::Unrecognized,
        }
    }
}

fn data_u32(doc: &crate::json::JsonDoc, key: &str) -> (r: Option<u32>)
    ensures
        r == narrow(json_nested_uint(doc.source(), "d"@, key@)),
{
    match nested_uint(doc, "d", key) {
        Some(x) => Some(x as u32),
        None => None,
    }
}

fn tag_is(t: &String, kind: &str) -> (r: bool)
    ensures
        r == (t@ == kind@),
{
    let k = kind.to_owned();
    *t == k
}

/// Decodes one received text frame. `None` when the text is not a JSON
/// document with a string tag `"t"`; such a frame is skipped.
pub fn decode_message(text: &str) -> (r: Option<LichessMessage>)
    ensures
        r is None <==> text_model(text@) is Unreadable,
        r matches Some(m) ==> m.model() == text_model(text@),
        r matches Some(LichessMessage::Move { d, .. }) ==> move_data_fits(d, text@),
        r matches Some(LichessMessage::EndData { d }) ==> opt_view(d.status) == json_nested_str(
            text@,
            "d"@,
            "status"@,
        ) && opt_view(d.winner) == json_nested_str(text@, "d"@, "winner"@),
{
    let doc = match parse_json(text) {
        Some(doc) => doc,
        None => return None,
    };
    let tag = match member_str(&doc, "t") {
        Some(t) => t,
        None => return None,
    };
    if tag_is(&tag, "move") {
        let d = MoveData {
            u: nested_str(&doc, "d", "u"),
            a: data_u32(&doc, "a"),
            b: data_u32(&doc, "b"),
            l: data_u32(&doc, "l"),
            san: nested_str(&doc, "d", "san"),
            fen: nested_str(&doc, "d", "fen"),
            ply: data_u32(&doc, "ply"),
            uci: nested_str(&doc, "d", "uci"),
        };
        let terminal = nested_has(&doc, "d", "status") || nested_has(&doc, "d", "winner");
        Some(LichessMessage::Move { d, terminal })
    } else if tag_is(&tag, "ack") {
        Some(LichessMessage::Ack)
    } else if tag_is(&tag, "endData") {
        let d = EndData { status: nested_str(&doc, "d", "status"), winner: nested_str(&doc, "d", "winner") };
        Some(LichessMessage::EndData { d })
    } else if tag_is(&tag, "reload") {
        Some(LichessMessage::Reload)
    } else if tag_is(&tag, "resync") {
        Some(LichessMessage::Resync)
    } else if tag_is(&tag, "crowd") {
        Some(LichessMessage::Crowd)
    } else {
        Some(LichessMessage::Unrecognized)
    }
}

/// The decimal digits of `n`, most significant first, with no leading zero.
pub open spec fn decimal(n: nat) -> Seq<char>
    decreases n,
{
    if n < 10 {
        "0123456789"@.subrange(n as int, n + 1int)
    } else {
        decimal(n / 10) + "0123456789"@.subrange((n % 10) as int, (n % 10) + 1int)
    }
}

/// The text of an outgoing move frame: the move as a JSON string literal
/// `quoted`, the acknowledgement counter, the high-commitment flag as 0 or 1
/// and the lag in milliseconds; members in the order serde_json writes them.
pub open spec fn move_frame(quoted: Seq<char>, ack: u32, high_commitment: bool, lag_ms: u32) -> Seq<
    char,
> {
    "{\"d\":{\"a\":"@ + decimal(ack as nat) + ",\"b\":"@ + (if high_commitment {
        "1"@
    } else {
        "0"@
    }) + ",\"l\":"@ + decimal(lag_ms as nat) + ",\"u\":"@ + quoted + "},\"t\":\"move\"}"@
}

fn push_decimal(out: &mut String, n: u32)
    ensures
        final(out)@ == old(out)@ + decimal(n as nat),
    decreases n,
{
    let digits = "0123456789";
    proof {
        reveal_strlit("0123456789");
    }
    if n >= 10 {
        push_decimal(out, n / 10);
    }
    let d = (n % 10) as usize;
    out.append(digits.substring_char(d, d + 1));
    assert(out@ =~= old(out)@ + decimal(n as nat));
}

/// The text of an outgoing move frame for a move already written as a JSON
/// string literal.
pub fn encode_move_frame(quoted: &str, ack: u32, high_commitment: bool, lag_ms: u32) -> (r: String)
    ensures
        r@ == move_frame(quoted@, ack, high_commitment, lag_ms),
{
    let mut out = String::new();
    out.append("{\"d\":{\"a\":");
    push_decimal(&mut out, ack);
    out.append(",\"b\":");
    if high_commitment {
        out.append("1");
    } else {
        out.append("0");
    }
    out.append(",\"l\":");
    push_decimal(&mut out, lag_ms);
    out.append(",\"u\":");
    out.append(quoted);
    out.append("},\"t\":\"move\"}");
    assert(out@ =~= move_frame(quoted@, ack, high_commitment, lag_ms));
    out
}

} // verus!
