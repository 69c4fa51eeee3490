//! The dispatch policy above a session: whether to submit, duplicate
//! suppression within a cool-down window, and lag compensation.
use vstd::prelude::*;
use crate::session::{SessionModel, SessionState, SubmitError};

verus! {

/// The time, in milliseconds, within which the same move is not sent twice.
pub const DUPLICATE_WINDOW_MS: u64 = 500;

/// The lag reported with a move in normal mode.
pub const NORMAL_LAG_MS: u32 = 20;

/// The lag reported with a move in panic mode.
pub const PANIC_LAG_MS: u32 = 50;

/// Why the dispatcher sent no frame.
#[derive(Clone, Copy, Debug, PartialEq, Eq, Structural)]
pub enum DispatchError {
    /// The same move was sent less than the cool-down window ago.
    Duplicate,
    /// The session refused the move.
    Rejected(SubmitError),
}

/// The abstract state of the controller; `last_sent` is the last move that
/// was not suppressed, with the time it was dispatched.
pub struct ControllerModel {
    pub enabled: bool,
    pub panic_mode: bool,
    pub engine_calculating: bool,
    pub last_sent: Option<(Seq<char>, u64)>,
}

/// The lag reported with a move.
pub open spec fn lag_for(panic_mode: bool) -> u32 {
    if panic_mode {
        PANIC_LAG_MS
    } else {
        NORMAL_LAG_MS
    }
}

pub open spec fn dispatch_view(r: Result<String, DispatchError>) -> Result<Seq<char>, DispatchError> {
    match r {
        Ok(s) => Ok(s@),
        Err(e) => Err(e),
    }
}

impl ControllerModel {
    /// The move was sent last, at a time less than the window before `now_ms`
    /// (a clock that went backwards counts as no time passed).
    pub open spec fn is_duplicate(self, uci: Seq<char>, now_ms: u64) -> bool {
        match self.last_sent {
            Some((m, t)) => m == uci && now_ms < t + DUPLICATE_WINDOW_MS,
            None => false,
        }
    }

    pub open spec fn should_auto_move(self, is_our_turn: bool) -> bool {
        self.enabled && is_our_turn && !self.engine_calculating
    }

    /// What a dispatch returns, given the session it would submit to.
    pub open spec fn dispatch_outcome(self, uci: Seq<char>, now_ms: u64, s: SessionModel) -> Result<
        Seq<char>,
        DispatchError,
    > {
        if self.is_duplicate(uci, now_ms) {
            Err(DispatchError::Duplicate)
        } else {
            match s.submit_outcome(uci, lag_for(self.panic_mode), self.panic_mode) {
                Ok(frame) => Ok(frame),
                Err(e) => Err(DispatchError::Rejected(e)),
            }
        }
    }

    /// The controller after a dispatch: a move that is not a duplicate is
    /// recorded with its time, whatever the session answers.
    pub open spec fn after_dispatch(self, uci: Seq<char>, now_ms: u64) -> ControllerModel {
        if self.is_duplicate(uci, now_ms) {
            self
        } else {
            ControllerModel { last_sent: Some((uci, now_ms)), ..self }
        }
    }

    /// The session after a dispatch.
    pub open spec fn session_after(self, uci: Seq<char>, now_ms: u64, s: SessionModel) -> SessionModel {
        if self.is_duplicate(uci, now_ms) {
            s
        } else {
            s.after_submit(uci, lag_for(self.panic_mode), self.panic_mode)
        }
    }
}

/// Controller for automatic move execution.
#[derive(Debug)]
pub struct AutoMoveController {
    enabled: bool,
    panic_mode: bool,
    engine_calculating: bool,
    last_move_sent: Option<String>,
    last_move_time: Option<u64>,
}

impl View for AutoMoveController {
    type V = ControllerModel;

    closed spec fn view(&self) -> ControllerModel {
        ControllerModel {
            enabled: self.enabled,
            panic_mode: self.panic_mode,
            engine_calculating: self.engine_calculating,
            last_sent: match (self.last_move_sent, self.last_move_time) {
                (Some(m), Some(t)) => Some((m@, t)),
                _ => None,
            },
        }
    }
}

impl AutoMoveController {
    pub fn new() -> (r: AutoMoveController)
        ensures
            r@ == (ControllerModel {
                enabled: false,
                panic_mode: false,
                engine_calculating: false,
                last_sent: None,
            }),
    {
        AutoMoveController {
            enabled: false,
            panic_mode: false,
            engine_calculating: false,
            last_move_sent: None,
            last_move_time: None,
        }
    }

    pub fn set_enabled(&mut self, enabled: bool)
        ensures
            final(self)@ == (ControllerModel { enabled, ..old(self)@ }),
    {
        self.enabled = enabled;
    }

    pub fn is_enabled(&self) -> (r: bool)
        ensures
            r == self@.enabled,
    {
        self.enabled
    }

    pub fn set_panic_mode(&mut self, panic: bool)
        ensures
            final(self)@ == (ControllerModel { panic_mode: panic, ..old(self)@ }),
    {
        self.panic_mode = panic;
    }

    pub fn is_panic_mode(&self) -> (r: bool)
        ensures
            r == self@.panic_mode,
    {
        self.panic_mode
    }

    /// Whether a move should be made now: enabled, our turn, and the engine
    /// not still calculating.
    pub fn should_auto_move(&self, is_our_turn: bool) -> (r: bool)
        ensures
            r == self@.should_auto_move(is_our_turn),
    {
        if !self.enabled {
            return false;
        }
        if !is_our_turn {
            return false;
        }
        if self.engine_calculating {
            return false;
        }
        true
    }

    /// Submits `uci` to the session at time `now_ms`, unless the same move was
    /// sent less than the cool-down window ago. The lag and the
    /// high-commitment flag follow panic mode. On success the frame to write
    /// is returned.
    pub fn execute_auto_move(&mut self, uci: &str, now_ms: u64, session: &mut SessionState) -> (r: Result<
        String,
        DispatchError,
    >)
        ensures
            dispatch_view(r) == old(self)@.dispatch_outcome(uci@, now_ms, old(session)@),
            final(self)@ == old(self)@.after_dispatch(uci@, now_ms),
            final(session)@ == old(self)@.session_after(uci@, now_ms, old(session)@),
    {
        if let (Some(last_uci), Some(last_time)) = (&self.last_move_sent, &self.last_move_time) {
            let same = *last_uci == uci.to_owned();
            if same && (now_ms <= *last_time || now_ms - *last_time < DUPLICATE_WINDOW_MS) {
                return Err(DispatchError::Duplicate);
            }
        }
        self.last_move_sent = Some(uci.to_owned());
        self.last_move_time = Some(now_ms);
        let lag_ms = if self.panic_mode {
            PANIC_LAG_MS
        } else {
            NORMAL_LAG_MS
        };
        let berserked = self.panic_mode;
        match session.submit_move(uci, lag_ms, berserked) {
            Ok(frame) => Ok(frame),
            Err(e) => Err(DispatchError::Rejected(e)),
        }
    }

    pub fn set_engine_calculating(&mut self, calculating: bool)
        ensures
            final(self)@ == (ControllerModel { engine_calculating: calculating, ..old(self)@ }),
    {
        self.engine_calculating = calculating;
    }

    pub fn is_engine_calculating(&self) -> (r: bool)
        ensures
            r == self@.engine_calculating,
    {
        self.engine_calculating
    }
}

impl Default for AutoMoveController {
    fn default() -> (r: AutoMoveController)
        ensures
            r@ == (ControllerModel {
                enabled: false,
                panic_mode: false,
                engine_calculating: false,
                last_sent: None,
            }),
    {
        AutoMoveController::new()
    }
}

} // verus!
