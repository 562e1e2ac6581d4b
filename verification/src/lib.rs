//! Core logic of a browser wallet panel: an application state machine that
//! bridges a synchronous per-frame UI loop with asynchronous, fallible wallet
//! calls, using single-slot hand-off channels and explicit awaiting states so
//! that at most one request of each kind is ever in flight.
//!
//! A failed request does not leave the machine stuck in an awaiting state and
//! gets no state of its own: the failure comes back through the same channel
//! as a success would, the machine returns to `Ready` with the error recorded
//! for display, and the trigger controls reappear so the user can retry.

pub mod state;
pub mod ui;
pub mod channel;
pub mod laws;
