//! The core of an address parsing service: the validation of the address
//! text, the steps of a request, the metrics registry with its latency
//! histogram, the text exposition of the metrics, the health report and
//! the settings.
//!
//! The parser itself, the network and the clock belong to the service that
//! is built around this library.
pub mod config;
pub mod decimal;
pub mod exposition;
pub mod handler;
pub mod health;
pub mod histogram;
pub mod history;
pub mod metrics;
pub mod validator;
