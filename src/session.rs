//! The move lifecycle of one game: at most one move awaits the server's
//! acknowledgement, the acknowledgement counter follows the server's ply, and
//! the end of the game is final.
use vstd::prelude::*;
use crate::json::{json_quoted, opt_view, quote_json};
use crate::protocol::{
    decode_message, encode_move_frame, move_frame, text_model, LichessMessage, MessageModel,
};

verus! {

/// An event handed to the consumers of the session.
#[derive(Debug, Clone, PartialEq, Eq)]
pub enum Event {
    OpponentMove(String),
    PositionUpdate(String),
    GameEnded,
    ResyncRequired,
}

/// An event, with its strings as character sequences.
pub enum EventModel {
    OpponentMove(Seq<char>),
    PositionUpdate(Seq<char>),
    GameEnded,
    ResyncRequired,
}

impl View for Event {
    type V = EventModel;

    open spec fn view(&self) -> EventModel {
        match self {
            Event::OpponentMove(m) => EventModel::OpponentMove(m@),
            Event::PositionUpdate(p) => EventModel::PositionUpdate(p@),
            Event::GameEnded => EventModel::GameEnded,
            Event::ResyncRequired => EventModel::ResyncRequired,
        }
    }
}

pub open spec fn views(events: Seq<Event>) -> Seq<EventModel> {
    events.map_values(|e: Event| e@)
}

/// Why a move was not submitted.
#[derive(Clone, Copy, Debug, PartialEq, Eq, Structural)]
pub enum SubmitError {
    GameEnded,
    MovePending,
    /// The frame could not be encoded or written.
    TransportFailure,
}

/// A frame, or condition, that the transport reports to a drain.
#[derive(Debug, Clone, PartialEq, Eq)]
pub enum Incoming {
    Text(String),
    Ping(Vec<u8>),
    Close,
    /// Nothing more is available now.
    WouldBlock,
    /// A read failed for another reason.
    Failed,
    /// Any other frame, which is ignored.
    Other,
}

/// What the drain does after one incoming frame.
#[derive(Debug, Clone, PartialEq, Eq)]
pub enum Reaction {
    /// Read the next frame.
    Continue,
    /// Answer with a pong carrying these bytes, then read the next frame.
    Pong(Vec<u8>),
    /// End this drain normally.
    Stop,
    /// End this drain and report the read failure.
    Fatal,
}

/// The abstract state of a session: the pending move, the acknowledgement
/// counter, whether the game ended, and whether the last move was acknowledged.
pub struct SessionModel {
    pub game_id: Seq<char>,
    pub pending: Option<Seq<char>>,
    pub ack: u32,
    pub ended: bool,
    pub accepted: bool,
}

pub open spec fn result_view(r: Result<String, SubmitError>) -> Result<Seq<char>, SubmitError> {
    match r {
        Ok(s) => Ok(s@),
        Err(e) => Err(e),
    }
}

/// The events that one received message produces.
pub open spec fn message_events(m: MessageModel) -> Seq<EventModel> {
    match m {
        MessageModel::Move { mv, fen, terminal, .. } => (match mv {
            Some(x) => seq![EventModel::OpponentMove(x)],
            None => seq![],
        }) + (match fen {
            Some(f) => seq![EventModel::PositionUpdate(f)],
            None => seq![],
        }) + (if terminal {
            seq![EventModel::GameEnded]
        } else {
            seq![]
        }),
        MessageModel::EndGame => seq![EventModel::GameEnded],
        MessageModel::Reload | MessageModel::Resync => seq![EventModel::ResyncRequired],
        _ => seq![],
    }
}

impl SessionModel {
    /// The state after one received message.
    pub open spec fn on_message(self, m: MessageModel) -> SessionModel {
        match m {
            MessageModel::Move { ply, terminal, .. } => SessionModel {
                ack: match ply {
                    Some(p) => p,
                    None => self.ack,
                },
                ended: self.ended || terminal,
                ..self
            },
            MessageModel::Ack => SessionModel { pending: None, accepted: true, ..self },
            MessageModel::EndGame => SessionModel { ended: true, ..self },
            MessageModel::Reload | MessageModel::Resync => SessionModel { pending: None, ..self },
            _ => self,
        }
    }

    /// The state after a sequence of received messages, in order.
    pub open spec fn on_messages(self, ms: Seq<MessageModel>) -> SessionModel
        decreases ms.len(),
    {
        if ms.len() == 0 {
            self
        } else {
            self.on_message(ms[0]).on_messages(ms.drop_first())
        }
    }

    /// What a submission returns: the frame to write, or why none is written.
    pub open spec fn submit_outcome(self, uci: Seq<char>, lag_ms: u32, high_commitment: bool) -> Result<
        Seq<char>,
        SubmitError,
    > {
        if self.ended {
            Err(SubmitError::GameEnded)
        } else if self.pending is Some {
            Err(SubmitError::MovePending)
        } else {
            match json_quoted(uci) {
                Some(q) => Ok(move_frame(q, self.ack, high_commitment, lag_ms)),
                None => Err(SubmitError::TransportFailure),
            }
        }
    }

    /// The state after a submission: the move is pending when a frame is written.
    pub open spec fn after_submit(self, uci: Seq<char>, lag_ms: u32, high_commitment: bool) -> SessionModel {
        if self.submit_outcome(uci, lag_ms, high_commitment) is Ok {
            SessionModel { pending: Some(uci), accepted: false, ..self }
        } else {
            self
        }
    }
}

/// The move-lifecycle state of one game.
#[derive(Debug)]
pub struct SessionState {
    game_id: String,
    pending_move: Option<String>,
    current_ack: u32,
    game_ended: bool,
    last_move_acked: bool,
}

impl View for SessionState {
    type V = SessionModel;

    closed spec fn view(&self) -> SessionModel {
        SessionModel {
            game_id: self.game_id@,
            pending: opt_view(self.pending_move),
            ack: self.current_ack,
            ended: self.game_ended,
            accepted: self.last_move_acked,
        }
    }
}

impl SessionState {
    pub fn new(game_id: &str) -> (r: SessionState)
        ensures
            r@ == (SessionModel {
                game_id: game_id@,
                pending: None,
                ack: 0,
                ended: false,
                accepted: false,
            }),
    {
        SessionState {
            game_id: game_id.to_owned(),
            pending_move: None,
            current_ack: 0,
            game_ended: false,
            last_move_acked: false,
        }
    }

    /// Submits a move. On success the move is pending and the frame to write is
    /// returned; on an error nothing changes and nothing is to be written.
    pub fn submit_move(&mut self, uci: &str, lag_ms: u32, high_commitment: bool) -> (r: Result<
        String,
        SubmitError,
    >)
        ensures
            result_view(r) == old(self)@.submit_outcome(uci@, lag_ms, high_commitment),
            final(self)@ == old(self)@.after_submit(uci@, lag_ms, high_commitment),
    {
        if self.game_ended {
            return Err(SubmitError::GameEnded);
        }
        if self.pending_move.is_some() {
            return Err(SubmitError::MovePending);
        }
        let quoted = match quote_json(uci) {
            Some(q) => q,
            None => return Err(SubmitError::TransportFailure),
        };
        let frame = encode_move_frame(quoted.as_str(), self.current_ack, high_commitment, lag_ms);
        self.pending_move = Some(uci.to_owned());
        self.last_move_acked = false;
        Ok(frame)
    }

    /// Applies one decoded message and appends the events it produces.
    pub fn apply_message(&mut self, m: &LichessMessage, events: &mut Vec<Event>)
        ensures
            final(self)@ == old(self)@.on_message(m.model()),
            views(final(events)@) == views(old(events)@) + message_events(m.model()),
    {
        let ghost start = events@;
        match m {
            LichessMessage::Move { d, terminal } => {
                if let Some(p) = d.ply {
                    self.current_ack = p;
                }
                if let Some(x) = &d.uci {
                    events.push(Event::OpponentMove(x.clone()));
                } else if let Some(x) = &d.u {
                    events.push(Event::OpponentMove(x.clone()));
                }
                if let Some(f) = &d.fen {
                    events.push(Event::PositionUpdate(f.clone()));
                }
                if *terminal {
                    self.game_ended = true;
                    events.push(Event::GameEnded);
                }
            },
            LichessMessage::Ack => {
                self.last_move_acked = true;
                self.pending_move = None;
            },
            LichessMessage::EndData { .. } => {
                self.game_ended = true;
                events.push(Event::GameEnded);
            },
            LichessMessage::Reload | LichessMessage::Resync => {
                self.pending_move = None;
                events.push(Event::ResyncRequired);
            },
            LichessMessage::Crowd | LichessMessage::Unrecognized => {},
        }
        assert(views(events@) =~= views(start) + message_events(m.model()));
    }

    /// Decodes one received text frame and applies it; a frame that cannot be
    /// decoded changes nothing.
    pub fn handle_text(&mut self, text: &str, events: &mut Vec<Event>)
        ensures
            final(self)@ == old(self)@.on_message(text_model(text@)),
            views(final(events)@) == views(old(events)@) + message_events(text_model(text@)),
    {
        match decode_message(text) {
            Some(m) => self.apply_message(&m, events),
            None => {
                assert(views(events@) =~= views(events@) + message_events(text_model(text@)));
            },
        }
    }

    /// Decides what a drain does with one incoming frame or condition.
    pub fn on_incoming(&mut self, input: Incoming, events: &mut Vec<Event>) -> (r: Reaction)
        ensures
            match input {
                Incoming::Text(t) => r is Continue && final(self)@ == old(self)@.on_message(
                    text_model(t@),
                ) && views(final(events)@) == views(old(events)@) + message_events(
                    text_model(t@),
                ),
                Incoming::Ping(p) => r == Reaction::Pong(p) && final(self)@ == old(self)@
                    && final(events)@ == old(events)@,
                Incoming::Close | Incoming::WouldBlock => r is Stop && final(self)@ == old(self)@
                    && final(events)@ == old(events)@,
                Incoming::Failed => r is Fatal && final(self)@ == old(self)@ && final(events)@
                    == old(events)@,
                Incoming::Other => r is Continue && final(self)@ == old(self)@ && final(events)@
                    == old(events)@,
            },
    {
        match input {
            Incoming::Text(t) => {
                self.handle_text(t.as_str(), events);
                Reaction::Continue
            },
            Incoming::Ping(p) => Reaction::Pong(p),
            Incoming::Close | Incoming::WouldBlock => Reaction::Stop,
            Incoming::Failed => Reaction::Fatal,
            Incoming::Other => Reaction::Continue,
        }
    }

    pub fn is_game_ended(&self) -> (r: bool)
        ensures
            r == self@.ended,
    {
        self.game_ended
    }

    pub fn game_id(&self) -> (r: &str)
        ensures
            r@ == self@.game_id,
    {
        self.game_id.as_str()
    }

    pub fn pending_move(&self) -> (r: Option<String>)
        ensures
            opt_view(r) == self@.pending,
    {
        self.pending_move.clone()
    }

    pub fn ack_counter(&self) -> (r: u32)
        ensures
            r == self@.ack,
    {
        self.current_ack
    }

    /// Whether the last submitted move was acknowledged.
    pub fn last_move_acked(&self) -> (r: bool)
        ensures
            r == self@.accepted,
    {
        self.last_move_acked
    }
}

} // verus!
