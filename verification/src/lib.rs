//! Search and evaluation core of a UCI chess engine.
//!
//! The crate provides the verified core of the engine: the score algebra,
//! the transposition table, move-ordering heuristics, static exchange
//! evaluation, the static evaluators, the incremental-accumulator adapter,
//! the time manager, the opening-book probe and the quiescence search.
//! Board representation and legal-move generation come from the `chess`
//! crate; every call into it stands behind a trusted declaration in
//! `interop`.

pub mod types;
pub mod score;
pub mod killers;
pub mod history;
pub mod tt;
pub mod uci;
pub mod limits;
pub mod position;
pub mod ordering;
pub mod interop;
pub mod see;
pub mod hce;
pub mod endgame;
pub mod nnue;
pub mod eval;
pub mod book;
pub mod qsearch;
