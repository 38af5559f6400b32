//! A forum state engine: posts, threaded comments, toggle-style upvotes,
//! profiles and a reward ledger, mutated only by authorized actions that are
//! either direct or made through a delegated, time-boxed session.

pub mod error;
pub mod identity;
pub mod content;
pub mod reward;
pub mod state;
pub mod service;
pub mod dispatch;
