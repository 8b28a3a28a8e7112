//! Core logic of a multi-tenant endpoint-monitoring service: probe-result
//! classification, certificate inspection, alerting rules, task planning,
//! bounded-concurrency dispatch bookkeeping, and statistical aggregation.

pub mod aggregate;
pub mod alert;
pub mod auth;
pub mod config;
pub mod dispatch;
pub mod error;
pub mod model;
pub mod naming;
pub mod requests;
pub mod ssl;
pub mod tasks;
pub mod text;
pub mod time;
pub mod uptime;
