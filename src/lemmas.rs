//! Properties of the move lifecycle and the dispatch policy, proved over the
//! models that the executable functions' contracts use.
use vstd::prelude::*;
use crate::auto_move::{lag_for, ControllerModel, DispatchError, NORMAL_LAG_MS, PANIC_LAG_MS};
use crate::json::json_quoted;
use crate::protocol::{move_frame, MessageModel};
use crate::session::{message_events, EventModel, SessionModel, SubmitError};

verus! {

/// While a move is pending and the game goes on, a submission is refused as
/// `MovePending` and changes nothing, so no frame is written.
pub proof fn lemma_pending_blocks_submission(
    s: SessionModel,
    uci: Seq<char>,
    lag_ms: u32,
    high_commitment: bool,
)
    requires
        s.pending is Some,
        !s.ended,
    ensures
        s.submit_outcome(uci, lag_ms, high_commitment) == Err::<Seq<char>, SubmitError>(
            SubmitError::MovePending,
        ),
        s.after_submit(uci, lag_ms, high_commitment) == s,
{
}

/// After a submission that wrote a frame, the next submission, of any move,
/// is refused as `MovePending` (or `GameEnded`) and writes nothing.
pub proof fn lemma_second_submission_refused(
    s: SessionModel,
    first: Seq<char>,
    second: Seq<char>,
    lag1: u32,
    high1: bool,
    lag2: u32,
    high2: bool,
)
    requires
        s.submit_outcome(first, lag1, high1) is Ok,
    ensures
        s.after_submit(first, lag1, high1).pending == Some(first),
        s.after_submit(first, lag1, high1).submit_outcome(second, lag2, high2) == Err::<
            Seq<char>,
            SubmitError,
        >(SubmitError::MovePending),
        s.after_submit(first, lag1, high1).after_submit(second, lag2, high2) == s.after_submit(
            first,
            lag1,
            high1,
        ),
{
}

/// Received messages never clear the end of the game.
pub proof fn lemma_ended_stays(s: SessionModel, ms: Seq<MessageModel>)
    requires
        s.ended,
    ensures
        s.on_messages(ms).ended,
    decreases ms.len(),
{
    if ms.len() > 0 {
        lemma_ended_stays(s.on_message(ms[0]), ms.drop_first());
    }
}

/// Once a message has produced `GameEnded`, the game stays ended whatever
/// follows (resync and reload included), and every submission is refused as
/// `GameEnded`.
pub proof fn lemma_termination_sticky(
    s: SessionModel,
    m: MessageModel,
    later: Seq<MessageModel>,
    uci: Seq<char>,
    lag_ms: u32,
    high_commitment: bool,
)
    requires
        message_events(m).contains(EventModel::GameEnded),
    ensures
        s.on_message(m).on_messages(later).ended,
        s.on_message(m).on_messages(later).submit_outcome(uci, lag_ms, high_commitment) == Err::<
            Seq<char>,
            SubmitError,
        >(SubmitError::GameEnded),
{
    assert(s.on_message(m).ended) by {
        if let MessageModel::Move { mv, fen, terminal, .. } = m {
            if !terminal {
                let evs = message_events(m);
                let k = choose|k: int| 0 <= k < evs.len() && evs[k] == EventModel::GameEnded;
                assert(evs[k] != EventModel::GameEnded);
            }
        }
    }
    lemma_ended_stays(s.on_message(m), later);
}

/// An acknowledgement clears the pending move.
pub proof fn lemma_ack_clears_pending(s: SessionModel)
    ensures
        s.on_message(MessageModel::Ack).pending is None,
        s.on_message(MessageModel::Ack).accepted,
{
}

/// A reload or resync clears the pending move, whether or not one was
/// pending, and produces exactly one `ResyncRequired`.
pub proof fn lemma_resync_clears_pending(s: SessionModel, m: MessageModel)
    requires
        m is Reload || m is Resync,
    ensures
        s.on_message(m).pending is None,
        message_events(m) == seq![EventModel::ResyncRequired],
{
}

/// A move message with a ply sets the acknowledgement counter to that ply,
/// lower or higher than before: the server's value always wins.
pub proof fn lemma_ack_counter_overwrite(s: SessionModel, m: MessageModel, p: u32)
    requires
        m matches MessageModel::Move { ply, .. } && ply == Some(p),
    ensures
        s.on_message(m).ack == p,
{
}

/// Dispatching the same move twice: the second is suppressed, and changes
/// nothing, exactly when it comes less than the window after the first;
/// otherwise it goes to the session like any move.
pub proof fn lemma_duplicate_window(
    c: ControllerModel,
    s: SessionModel,
    uci: Seq<char>,
    t1: u64,
    t2: u64,
)
    requires
        !c.is_duplicate(uci, t1),
        t1 <= t2,
    ensures
        ({
            let c1 = c.after_dispatch(uci, t1);
            let s1 = c.session_after(uci, t1, s);
            &&& c.dispatch_outcome(uci, t1, s) == match s.submit_outcome(
                uci,
                lag_for(c.panic_mode),
                c.panic_mode,
            ) {
                Ok(f) => Ok::<Seq<char>, DispatchError>(f),
                Err(e) => Err(DispatchError::Rejected(e)),
            }
            &&& (t2 < t1 + 500 ==> c1.dispatch_outcome(uci, t2, s1) == Err::<
                Seq<char>,
                DispatchError,
            >(DispatchError::Duplicate) && c1.after_dispatch(uci, t2) == c1 && c1.session_after(
                uci,
                t2,
                s1,
            ) == s1)
            &&& (t2 >= t1 + 500 ==> !c1.is_duplicate(uci, t2))
        }),
{
}

/// A dispatched move carries a lag of 20 ms and no high-commitment flag in
/// normal mode, and 50 ms with the flag in panic mode.
pub proof fn lemma_lag_compensation(c: ControllerModel, s: SessionModel, uci: Seq<char>, now_ms: u64)
    requires
        !c.is_duplicate(uci, now_ms),
        !s.ended,
        s.pending is None,
        json_quoted(uci) is Some,
    ensures
        c.dispatch_outcome(uci, now_ms, s) == Ok::<Seq<char>, DispatchError>(
            move_frame(
                json_quoted(uci)->Some_0,
                s.ack,
                c.panic_mode,
                if c.panic_mode {
                    50u32
                } else {
                    20u32
                },
            ),
        ),
{
    assert(PANIC_LAG_MS == 50 && NORMAL_LAG_MS == 20);
}

} // verus!
