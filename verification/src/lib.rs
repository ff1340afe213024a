//! Conselju: a gift-concierge dialog library.
//!
//! The crate implements the conversational core of a gift-recommendation
//! assistant: an intent classifier over free text, a per-user slot-filling
//! conversation state machine, a recommendation engine with filtering and
//! ranking, and a time-bounded result cache.  All logic is specified and
//! verified; transport, persistence and the external search provider are
//! kept outside and talk to the library through plain values.

pub mod api_types;
pub mod cache;
pub mod config;
pub mod conversation;
pub mod dialog;
pub mod engine;
pub mod error;
pub mod gift;
pub mod i18n;
pub mod intent;
pub mod orchestrator;
pub mod seqs;
pub mod text;
pub mod user_store;
pub mod ws_types;
