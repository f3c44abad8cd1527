//! Wallpaper generation client: request construction, response reading,
//! credential and resolution-class validation, and the state machine that
//! drives one remote image-generation job to a terminal outcome.

pub mod config;
pub mod error;
pub mod json;
pub mod poller;
pub mod prompt;
pub mod requests;
