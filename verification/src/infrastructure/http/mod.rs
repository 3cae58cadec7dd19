pub mod dto;
pub mod pagination;
