//! The directory navigator and indexing trigger of a desktop file indexer.
//!
//! The library holds the decisions: which path the browser shows, which
//! catalog of entries describes it, which event subscriptions are live, and
//! which index job results are published. Listing directories, walking trees
//! and drawing widgets are done by the program around it, which hands the
//! outcomes back as plain values.

pub mod path;
pub mod catalog;
pub mod cursor;
pub mod registry;
pub mod navigator;
pub mod indexing;
pub mod models;
