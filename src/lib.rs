//! Change detection and verification-pipeline logic for a bot that watches
//! game titles for new builds and checks their gamedata.

pub mod decimal;
pub mod snapshot;
pub mod tracker;
pub mod poller;
pub mod pipeline;
pub mod commands;
