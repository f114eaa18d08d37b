//! A shared pixel canvas with a bounded change journal.
//!
//! The grid holds one colour token per cell and is the authoritative state.
//! Every committed cell write is recorded in a bounded journal, which lets
//! polling clients catch up incrementally, or tells them to fetch a full
//! snapshot once events they have not seen were evicted.

pub mod key;
pub mod grid;
pub mod api;
pub mod journal;
pub mod sync;
pub mod state;
