//! Text decorators: a chain of small transformations (alternating case,
//! reversal, vaporwave spacing, shuffling, sorting, case folding and
//! leet-speak) selected by command-line flags and applied in order.
pub mod args;
pub mod casefold;
pub mod decorator;
pub mod laws;
pub mod leet;
pub mod pipeline;
pub mod stupidify;
pub mod text;
