//! A minting authority for a fixed collection of numbered tokens.
//!
//! The authority provisions a child token contract, then hands out token
//! identifiers one at a time by drawing them, without replacement, from a pool
//! that shrinks with every mint. Each operation is a transition on an explicit
//! [`state::State`]; the host that stores the state and delivers messages stays
//! outside this crate.
//!
//! The draw is pseudo-random only: its seed is made of the block height, the
//! block time and the requester's address, all of which are public or chosen by
//! the caller. Whoever can predict or influence them can predict or bias the
//! outcome. The contracts below pin the algorithm down exactly; they do not
//! make it unpredictable.

pub mod contract;
pub mod draw;
pub mod error;
pub mod host;
pub mod msg;
pub mod pool;
pub mod run;
pub mod state;
pub mod text;
