//! A chat bot library: layered configuration resolution, command dispatch,
//! and weather-forecast extraction and formatting.

pub mod config;
pub mod dispatch;
pub mod json;
pub mod text;
pub mod weather;
