//! Normalisation of sensor telemetry into one canonical model, the values
//! derived from it for display, and the refresh state machine around them.

pub mod adapter;
pub mod alert;
pub mod clock;
pub mod decimal;
pub mod error;
pub mod fields;
pub mod gateway;
pub mod ieee;
pub mod json;
pub mod model;
pub mod passthrough;
pub mod rows;
pub mod scheduler;
pub mod trend;
