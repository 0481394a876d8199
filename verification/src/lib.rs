//! Core of a terminal file manager: the marked selection, collision-free
//! destination names, the decisions of a background transfer, and the cache of
//! directory listings that has to follow every change of the tree.

pub mod cache;
pub mod commands;
pub mod conflict;
pub mod error;
pub mod footer;
pub mod fs;
pub mod line;
pub mod selection;
pub mod sort;
pub mod text;
pub mod textfield;
pub mod transfer;
pub mod tree;
pub mod worker;
