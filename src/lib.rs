//! Client library for a prediction-market trading service: request building,
//! reply classification, input validation, table rows and the buy workflow.
pub mod api;
pub mod commands;
pub mod errors;
pub mod text;
pub mod workflow;
