//! Addresses of KTalk's websocket endpoints.
use vstd::prelude::*;

use crate::text::{chars_of, replace_all, replace_chars, string_from_chars};

verus! {

/// `base_url` with its scheme switched to the websocket one:
/// `https://` becomes `wss://`, then `http://` becomes `ws://`.
pub open spec fn websocket_base(base_url: Seq<char>) -> Seq<char> {
    replace_all(replace_all(base_url, "https://"@, "wss://"@), "http://"@, "ws://"@)
}

/// The address of the system websocket.
pub open spec fn system_ws_url(base_url: Seq<char>) -> Seq<char> {
    websocket_base(base_url) + "/system/ws"@
}

/// The address of the XMPP websocket of a conference.
pub open spec fn xmpp_ws_url(
    base_url: Seq<char>,
    conference_id: Seq<char>,
    session_token: Seq<char>,
) -> Seq<char> {
    websocket_base(base_url) + "/jitsi/xmpp-websocket?room="@ + conference_id + "&sessionToken="@
        + session_token
}

/// See `websocket_base`.
pub fn websocket_base_url(base_url: &str) -> (r: String)
    ensures
        r@ == websocket_base(base_url@),
{
    proof {
        reveal_strlit("https://");
        reveal_strlit("wss://");
        reveal_strlit("http://");
        reveal_strlit("ws://");
    }
    let s = chars_of(base_url);
    let s = replace_chars(&s, &chars_of("https://"), &chars_of("wss://"));
    let s = replace_chars(&s, &chars_of("http://"), &chars_of("ws://"));
    string_from_chars(s.as_slice())
}

/// See `system_ws_url`.
pub fn system_websocket_url(base_url: &str) -> (r: String)
    ensures
        r@ == system_ws_url(base_url@),
{
    websocket_base_url(base_url).concat("/system/ws")
}

/// See `xmpp_ws_url`.
pub fn xmpp_websocket_url(base_url: &str, conference_id: &str, session_token: &str) -> (r: String)
    ensures
        r@ == xmpp_ws_url(base_url@, conference_id@, session_token@),
{
    websocket_base_url(base_url).concat("/jitsi/xmpp-websocket?room=").concat(conference_id).concat(
        "&sessionToken=",
    ).concat(session_token)
}

} // verus!
