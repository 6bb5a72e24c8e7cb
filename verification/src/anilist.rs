//! The list service's data model and the logic that runs on it.

pub mod copies;
pub mod dates;
pub mod display;
pub mod filter;
pub mod lookup;
pub mod models;
pub mod offsets;
pub mod progress;
pub mod ranking;
pub mod reconcile;
pub mod relations;
pub mod request;
pub mod search;
pub mod similarity;
pub mod titles;
pub mod views;
