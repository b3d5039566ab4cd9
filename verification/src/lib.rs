//! Verified core of a terminal wallet for the IOTA network: display types,
//! amount formatting, list navigation, explorer tree cursors, the transaction
//! builder form model and the application state machine.

pub mod text;
pub mod formatting;
pub mod types;
pub mod lookup;
pub mod tx_builder;
pub mod explorer;
pub mod wallet;
pub mod calendar;
pub mod state;
pub mod seqs;
pub mod listing;
pub mod actions;
pub mod input;
pub mod portfolio;
pub mod events;
pub mod common;
pub mod nav;
pub mod autocomplete;
pub mod details;
pub mod jumps;
pub mod command_form;
pub mod keys;
pub mod popup_keys;
pub mod explorer_keys;
pub mod hints;
pub mod screen_keys;
pub mod context_keys;
pub mod grid_keys;
pub mod dispatch;
pub mod mouse;
pub mod geometry;
pub mod json;
