//! A parallel vanity-key search engine: the predicate that decides whether a
//! public identifier carries the wanted prefix, the decisions each search
//! worker takes, a progress counter, a first-write-wins result sink, and the
//! framing of the two-column record store that keeps the winning identifier.
pub mod matching;
pub mod progress;
pub mod store;
pub mod sink;
pub mod config;
pub mod search;
pub mod coordinator;
