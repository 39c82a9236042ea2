//! A small text search: the lines of a text that hold a query, with or without
//! regard to case, and the configuration of one run of it. Beside it stand a few
//! smaller pieces: shapes, coins, points, words, summaries and a guessing game.

pub mod coin;
pub mod config;
pub mod encoding;
pub mod excerpt;
pub mod guess;
pub mod laws;
pub mod point;
pub mod search;
pub mod shapes;
pub mod summary;
pub mod text;
pub mod words;
