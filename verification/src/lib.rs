//! Core of a weather-alert relay: polls a public alert feed, tells new alerts
//! from ones already delivered, stays silent during quiet hours, forgets
//! alerts that have ended, and takes configuration changes without losing
//! track of what it has delivered.
//!
//! Everything here is plain computation. Timers, the network and the chat
//! service live with the caller, which hands events to a
//! [`coordinator::Coordinator`] and carries out what it answers.

pub mod alert;
pub mod clock;
pub mod config;
pub mod coordinator;
pub mod db;
pub mod dedup;
pub mod feed;
pub mod json;
pub mod relay;
pub mod roles;
pub mod uptime;
pub mod words;
