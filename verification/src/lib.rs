//! State and view synchronisation core of a recipe, pantry and knowledge-base
//! desktop application.
//!
//! The crate holds the single application state, the transition function that
//! reacts to user and system events, the reconciler that decides which view
//! regions are rebuilt, and the rules by which forms and lists are filled. It
//! draws nothing itself: the embedding program owns the widgets, the data
//! engine and the worker threads, and exchanges plain values with this crate.

pub mod app;
pub mod blocks;
pub mod config;
pub mod dialogs;
pub mod freshness;
pub mod kb;
pub mod laws;
pub mod messages;
pub mod numbers;
pub mod order;
pub mod pantry;
pub mod recipes;
pub mod reconcile;
pub mod settings;
pub mod records;
pub mod text;
pub mod ui_constants;
pub mod utils;
