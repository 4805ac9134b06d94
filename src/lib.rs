//! A plugin manager for the Kakoune editor: flattens a declarative tree of
//! plugins, drives each plugin's git/filesystem synchronisation as a state
//! machine, renders the configuration fragments Kakoune loads, and collects
//! the outcome of a run.
pub mod laws;
pub mod plugin;
pub mod report;
pub mod setup;
pub mod sync;
pub mod text;
pub mod tree;
