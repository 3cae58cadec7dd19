pub mod history_mapper;
pub mod xmpp;
