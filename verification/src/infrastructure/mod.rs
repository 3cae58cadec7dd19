pub mod config;
pub mod http;
pub mod ids;
pub mod json;
pub mod parsing;
pub mod pattern;
