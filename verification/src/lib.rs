//! Event reservations: organizers open events with a capacity, attendees
//! reserve spots, confirm them through an emailed link and check in with
//! per-seat tokens.
//!
//! The crate holds the reservation lifecycle (creating, pending, confirmed),
//! the per-event capacity ledger, the three kinds of token and a reference
//! store whose operations keep every event within its capacity.

pub mod api;
pub mod clock;
pub mod config;
pub mod db;
pub mod db_view;
pub mod email;
pub mod error;
pub mod handlers;
pub mod ident;
pub mod laws;
pub mod ledger;
pub mod models;
pub mod rows;
pub mod text;
pub mod validation;
