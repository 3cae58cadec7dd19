pub mod history;
pub mod room_binding;
pub mod room_flow;
pub mod system_session;
pub mod websocket;
pub mod xmpp_session;
