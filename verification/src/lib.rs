//! Live tracking of a fixed set of monitored transit routes.
//!
//! The crate holds the rules of the tracker: the route directory and its
//! snapshots, the bounded history of polls, the classification of a feed
//! response, and the two schedules (directory refresh and vehicle poll) as
//! state machines. Every function is verified against its contract.

pub mod config;
pub mod directory;
pub mod error;
pub mod feed;
pub mod gate;
pub mod history;
pub mod json;
pub mod model;
pub mod poller;
pub mod refresher;
pub mod snapshot;
pub mod table;
pub mod text;
pub mod tracker;

pub use crate::error::{ApiError, Error, HistoryError};
pub use crate::history::get_history;
pub use crate::model::{Record, RouteInfo};
