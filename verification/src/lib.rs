//! Core logic of a small transit-station finder page.
//!
//! The page acquires the user's position, asks a remote service for the
//! nearest transit station, and renders the outcome. This crate holds the
//! verified heart of that flow: the geolocation adapter's error
//! classification, the station query's data handling, and the page state
//! machine with its pure render function. The host shell around it performs
//! the actual browser and network calls and feeds their outcomes in as plain
//! events.

pub mod geolocation;
pub mod page;
pub mod query;
