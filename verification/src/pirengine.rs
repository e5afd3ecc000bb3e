//! Representation of a home: its areas, how they connect, and lookup tables
//! keyed by text.

pub mod home;
pub mod trie;
