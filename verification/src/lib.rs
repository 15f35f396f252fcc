//! Core of a personal time-tracking record keeper.
//!
//! A user logs intervals of work as clock entries, edits and deletes them,
//! and sees their totals. This crate holds the data model of that and the
//! operations that keep it consistent. It draws nothing and it reads and
//! writes no files: a program around it does.
//!
//! - [`time`]: times of day as plain fields.
//! - [`granularity`]: the rounding resolutions and the flooring of times
//!   to them.
//! - [`format`]: durations and clock readings as text.
//! - [`time_picker`]: every recordable time of a day, its text, and the
//!   way back from text to time.
//! - [`entry`]: a clock entry and its duration.
//! - [`entry_order`]: the order of entries by a column.
//! - [`store`]: the ordered collection of entries.
//! - [`undo`]: the bounded history of deleted entries.
//! - [`model`]: the model that is persisted and the state of a session.
//! - [`record`]: starting and stopping a recording.
//! - [`clock_entries_table`]: what the actions on the table of entries do.
//! - [`stats_view`]: the totals over the entries.
//! - [`db`]: what loading and saving decide.
//!
//! Every function states what it returns or changes, over the views of the
//! types and over the `*_spec` functions beside it. What holds of several
//! functions together is stated in the `lemma_*` functions.

pub mod time;
pub mod granularity;
pub mod format;
pub mod time_picker;
pub mod entry;
pub mod entry_order;
pub mod store;
pub mod undo;
pub mod model;
pub mod record;
pub mod clock_entries_table;
pub mod stats_view;
pub mod db;
