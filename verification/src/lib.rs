//! Core of a terminal wifi dashboard: the shared application state machine
//! driven by key commands, the telemetry pipeline that turns raw interface
//! readings into display rows, and the anonymization policy for identity
//! fields.

pub mod anonymize;
pub mod appstate;
pub mod telemetry;
