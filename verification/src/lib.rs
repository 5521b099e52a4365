//! Reactive state and analytics core of a trading dashboard.
//!
//! The crate holds the state containers behind the dashboard's views:
//! observable cells, cached derived values, an effect registry with
//! cancellation, a pipeline for long-running actions, and the journal and
//! analysis models that the views display.

pub mod aftermarket;
pub mod analysis;
pub mod cell;
pub mod clock;
pub mod console;
pub mod dashboard;
pub mod decimal;
pub mod derived;
pub mod effects;
pub mod journal;
pub mod ledger;
pub mod market;
pub mod pipeline;
pub mod text;
