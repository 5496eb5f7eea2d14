//! Detection of captive portals and automatic login through their web form.
//!
//! The library holds the decisions: reading a probe response, scraping a
//! login form, building the submission, classifying the portal's answer and
//! sequencing one check cycle. Network and process I/O stay with the caller,
//! which performs the actions that the [`machine::Machine`] asks for.

pub mod text;
pub mod outcome;
pub mod probe;
pub mod config;
pub mod form;
pub mod captive;
pub mod machine;
pub mod platform;
pub mod api;
