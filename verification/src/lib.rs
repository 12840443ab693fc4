//! Core of a UCI chess engine: a tapered static evaluation, an algebraic
//! score type with a total order, MVV-LVA move ordering, a shared
//! transposition cache, and an alpha-beta search with quiescence extension.
//!
//! Chess rules (move generation, move application, terminal predicates,
//! hashing) are supplied by the `shakmaty` crate through the narrow trusted
//! boundary in [`chess`]; everything else is verified.

pub mod chess;
pub mod engine;
pub mod evaluation;
pub mod search;
pub mod util;
