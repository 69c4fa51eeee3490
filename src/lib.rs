//! Move synchronisation for a real-time game socket: frame decoding and
//! encoding, the single-pending-move lifecycle, and the dispatch policy that
//! decides when a candidate move is submitted.

pub mod json;
pub mod protocol;
pub mod session;
pub mod auto_move;
pub mod auth;
pub mod lemmas;
