//! Tags news articles with the politicians and companies they mention, and
//! keeps only the articles that mention at least one of each.

pub mod classify;
pub mod files;
pub mod matching;
pub mod pattern;
pub mod roster;
pub mod text;
