//! Aggregation of death-match server event feeds into per-match summaries.
//!
//! Raw events go through a lifecycle composer, optional analyses (means of
//! death, player identities, reported scores), the kills analysis and a
//! summarizer, which yields one summary per match. Log lines are parsed into raw
//! events, and summaries are rendered as text.
use vstd::prelude::*;

pub mod analysed_event;
pub mod bll_config;
pub mod config;
pub mod dal_config;
pub mod deserializer;
pub mod deserializer_logs;
pub mod dtos;
pub mod events;
pub mod events_translation;
pub mod laws;
pub mod line_shape;
pub mod log_deserializer;
pub mod ordering;
pub mod presentation;
pub mod presentation_config;
pub mod quake3_logs;
pub mod readers;
pub mod report;
pub mod stages;
pub mod summarizer;
pub mod summary_logic;
pub mod text;
