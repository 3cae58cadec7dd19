pub mod auth;
pub mod bot;
pub mod history;
pub mod room;
