//! Core of an endpoint-security agent that detects credential-theft behaviour
//! against local browser data stores and, under policy, contains the threat by
//! asserting a host-wide network block with a bounded automatic self-restore.
//!
//! The crate holds the verified logic: the detection pipeline, the kill-switch
//! state machine and firewall-rule reconciliation model, the signed-artifact
//! verifier, and the license and threat-feed managers. File, network and
//! firewall side effects are performed by the surrounding binary, which calls
//! into the contracts stated here.

pub mod agent;
pub mod collector;
pub mod config;
pub mod console;
pub mod engine;
pub mod feed;
pub mod firewall;
pub mod incident_store;
pub mod killswitch;
pub mod license;
pub mod paths;
pub mod protected_paths;
pub mod response;
pub mod rules;
pub mod signing;
pub mod text;
pub mod types;
