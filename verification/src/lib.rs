pub mod application;
pub mod domain;
pub mod error;
pub mod infrastructure;
pub mod interface;
pub mod text;

pub use crate::error::KTalkError;
