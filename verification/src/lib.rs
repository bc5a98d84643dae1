//! Management-plane logic of the WireSentinel controller: roles and
//! authorization, enrollment, device and policy records, policy bundles,
//! and the summaries that the controller reports for each security domain.

pub mod text;
pub mod auth;
pub mod models;
pub mod api;
pub mod json;
pub mod policy;
pub mod devices;
pub mod enrollment;
pub mod audit;
pub mod federation;
pub mod cloud_controllers;
pub mod cloud_reporter;
pub mod metrics;
pub mod tally;
pub mod xdr;
pub mod kernel;
pub mod mixnet;
pub mod anonymity;
pub mod ztna;
pub mod sse;
pub mod cnapp;
pub mod ai_security;
pub mod stored;
pub mod split_templates;
pub mod tcp_termination;
