//! The system websocket: sign-in, room chat and keep-alive messages.
//!
//! Every message is a JSON object with the action `a`, its `data`, a fresh
//! request id `reqId` and, after sign-in, the `session` id that the server
//! handed out. Objects are written as `serde_json` writes them: members in
//! key order, no spaces.
use vstd::prelude::*;

use crate::error::{KTalkError, KTalkErrorView};
use crate::infrastructure::ids::{is_lower_hex, is_simple_uuid, new_uuid_simple};
use crate::infrastructure::json::{
    json_error_text, json_is_valid, json_nested_member_str, json_quoted, json_string_literal,
    lookup_nested_member_str,
};
use crate::text::{chars_of, copy_range, string_from_chars};

verus! {

/// A request id: ten lowercase hexadecimal digits, the start of the simple
/// form of a UUID.
pub open spec fn is_request_id(id: Seq<char>) -> bool {
    &&& id.len() == 10
    &&& forall|i: int| 0 <= i < 10 ==> is_lower_hex(#[trigger] id[i])
    &&& exists|u: Seq<char>| is_simple_uuid(u) && id == u.take(10)
}

pub open spec fn connect_message(req_id: Seq<char>, session_token: Seq<char>) -> Seq<char> {
    "{\"a\":\"connect\",\"data\":{\"clientType\":\"Web\",\"signInToken\":"@ + json_quoted(
        session_token,
    ) + ",\"webAppVersion\":\"master\"},\"reqId\":"@ + json_quoted(req_id) + "}"@
}

/// The tail shared by every message sent within a session.
pub open spec fn in_session(req_id: Seq<char>, session_id: Seq<char>) -> Seq<char> {
    ",\"reqId\":"@ + json_quoted(req_id) + ",\"session\":"@ + json_quoted(session_id) + "}"@
}

pub open spec fn subscribe_message(req_id: Seq<char>, session_id: Seq<char>) -> Seq<char> {
    "{\"a\":\"message_subscribe\",\"data\":{\"topic\":\"personal\"}"@ + in_session(
        req_id,
        session_id,
    )
}

pub open spec fn user_status_message(
    req_id: Seq<char>,
    user_id: Seq<char>,
    session_id: Seq<char>,
) -> Seq<char> {
    "{\"a\":\"user_status\",\"data\":{\"status\":\"inMeeting\",\"userKey\":"@ + json_quoted(
        user_id,
    ) + "}"@ + in_session(req_id, session_id)
}

pub open spec fn chat_join_message(
    req_id: Seq<char>,
    room_name: Seq<char>,
    session_id: Seq<char>,
) -> Seq<char> {
    "{\"a\":\"chat_join\",\"data\":{\"name\":"@ + json_quoted(room_name)
        + ",\"platform\":\"web\",\"popup\":false}"@ + in_session(req_id, session_id)
}

pub open spec fn chat_send_message(
    req_id: Seq<char>,
    room_name: Seq<char>,
    text: Seq<char>,
    session_id: Seq<char>,
) -> Seq<char> {
    "{\"a\":\"chat_send\",\"data\":{\"name\":"@ + json_quoted(room_name)
        + ",\"platform\":\"web\",\"text\":"@ + json_quoted(text) + "}"@ + in_session(
        req_id,
        session_id,
    )
}

pub open spec fn ping_message(req_id: Seq<char>, session_id: Seq<char>) -> Seq<char> {
    "{\"a\":\"ping\",\"data\":{}"@ + in_session(req_id, session_id)
}

pub open spec fn chat_ping_message(
    req_id: Seq<char>,
    room_name: Seq<char>,
    session_id: Seq<char>,
) -> Seq<char> {
    "{\"a\":\"chat_ping\",\"data\":{\"name\":"@ + json_quoted(room_name) + "}"@ + in_session(
        req_id,
        session_id,
    )
}

/// The messages that enter a room: subscribe, set the status to "in
/// meeting", join the room's chat.
pub open spec fn enter_room_messages(
    ids: Seq<Seq<char>>,
    user_id: Seq<char>,
    room_name: Seq<char>,
    session_id: Seq<char>,
) -> Seq<Seq<char>> {
    seq![
        subscribe_message(ids[0], session_id),
        user_status_message(ids[1], user_id, session_id),
        chat_join_message(ids[2], room_name, session_id),
    ]
}

/// The request id taken from `uuid`: its first ten characters.
pub fn request_id_of(uuid: &str) -> (r: String)
    requires
        uuid@.len() >= 10,
    ensures
        r@ == uuid@.take(10),
{
    let id = chars_of(uuid);
    let first = copy_range(&id, 0, 10);
    assert(first@ =~= uuid@.take(10));
    string_from_chars(first.as_slice())
}

/// A fresh request id: the first ten digits of the simple form of a random
/// UUID.
pub fn new_request_id() -> (r: String)
    ensures
        is_request_id(r@),
{
    let uuid = new_uuid_simple();
    let r = request_id_of(uuid.as_str());
    assert(is_simple_uuid(uuid@) && r@ == uuid@.take(10));
    assert forall|i: int| 0 <= i < 10 implies is_lower_hex(#[trigger] r@[i]) by {
        assert(r@[i] == uuid@[i]);
    }
    r
}

/// See `connect_message`.
pub fn connect_payload(req_id: &str, session_token: &str) -> (r: String)
    ensures
        r@ == connect_message(req_id@, session_token@),
{
    "{\"a\":\"connect\",\"data\":{\"clientType\":\"Web\",\"signInToken\":".to_owned().concat(
        json_string_literal(session_token).as_str(),
    ).concat(",\"webAppVersion\":\"master\"},\"reqId\":").concat(
        json_string_literal(req_id).as_str(),
    ).concat("}")
}

fn in_session_str(req_id: &str, session_id: &str) -> (r: String)
    ensures
        r@ == in_session(req_id@, session_id@),
{
    ",\"reqId\":".to_owned().concat(json_string_literal(req_id).as_str()).concat(
        ",\"session\":",
    ).concat(json_string_literal(session_id).as_str()).concat("}")
}

/// See `subscribe_message`.
pub fn subscribe_payload(req_id: &str, session_id: &str) -> (r: String)
    ensures
        r@ == subscribe_message(req_id@, session_id@),
{
    "{\"a\":\"message_subscribe\",\"data\":{\"topic\":\"personal\"}".to_owned().concat(
        in_session_str(req_id, session_id).as_str(),
    )
}

/// See `user_status_message`.
pub fn user_status_payload(req_id: &str, user_id: &str, session_id: &str) -> (r: String)
    ensures
        r@ == user_status_message(req_id@, user_id@, session_id@),
{
    "{\"a\":\"user_status\",\"data\":{\"status\":\"inMeeting\",\"userKey\":".to_owned().concat(
        json_string_literal(user_id).as_str(),
    ).concat("}").concat(in_session_str(req_id, session_id).as_str())
}

/// See `chat_join_message`.
pub fn chat_join_payload(req_id: &str, room_name: &str, session_id: &str) -> (r: String)
    ensures
        r@ == chat_join_message(req_id@, room_name@, session_id@),
{
    "{\"a\":\"chat_join\",\"data\":{\"name\":".to_owned().concat(
        json_string_literal(room_name).as_str(),
    ).concat(",\"platform\":\"web\",\"popup\":false}").concat(
        in_session_str(req_id, session_id).as_str(),
    )
}

/// See `chat_send_message`.
pub fn chat_send_payload(req_id: &str, room_name: &str, text: &str, session_id: &str) -> (r:
    String)
    ensures
        r@ == chat_send_message(req_id@, room_name@, text@, session_id@),
{
    "{\"a\":\"chat_send\",\"data\":{\"name\":".to_owned().concat(
        json_string_literal(room_name).as_str(),
    ).concat(",\"platform\":\"web\",\"text\":").concat(json_string_literal(text).as_str()).concat(
        "}",
    ).concat(in_session_str(req_id, session_id).as_str())
}

/// See `ping_message`.
pub fn ping_payload(req_id: &str, session_id: &str) -> (r: String)
    ensures
        r@ == ping_message(req_id@, session_id@),
{
    "{\"a\":\"ping\",\"data\":{}".to_owned().concat(in_session_str(req_id, session_id).as_str())
}

/// See `chat_ping_message`.
pub fn chat_ping_payload(req_id: &str, room_name: &str, session_id: &str) -> (r: String)
    ensures
        r@ == chat_ping_message(req_id@, room_name@, session_id@),
{
    "{\"a\":\"chat_ping\",\"data\":{\"name\":".to_owned().concat(
        json_string_literal(room_name).as_str(),
    ).concat("}").concat(in_session_str(req_id, session_id).as_str())
}

/// The sign-in message under a fresh request id.
pub fn connect_frame(session_token: &str) -> (r: String)
    ensures
        exists|id: Seq<char>| is_request_id(id) && r@ == connect_message(id, session_token@),
{
    let id = new_request_id();
    connect_payload(id.as_str(), session_token)
}

/// The messages that enter a room (see `enter_room_messages`), each under a
/// fresh request id.
pub fn enter_room_frames(user_id: &str, room_name: &str, session_id: &str) -> (r: Vec<String>)
    ensures
        exists|ids: Seq<Seq<char>>|
            ids.len() == 3 && (forall|i: int| 0 <= i < 3 ==> is_request_id(#[trigger] ids[i]))
                && r.deep_view() == enter_room_messages(ids, user_id@, room_name@, session_id@),
{
    let a = new_request_id();
    let b = new_request_id();
    let c = new_request_id();
    let mut r: Vec<String> = Vec::new();
    r.push(subscribe_payload(a.as_str(), session_id));
    r.push(user_status_payload(b.as_str(), user_id, session_id));
    r.push(chat_join_payload(c.as_str(), room_name, session_id));
    let ghost ids = seq![a@, b@, c@];
    assert(r.deep_view() =~= enter_room_messages(ids, user_id@, room_name@, session_id@));
    assert forall|i: int| 0 <= i < 3 implies is_request_id(#[trigger] ids[i]) by {
        if i == 0 {
            assert(ids[i] == a@);
        } else if i == 1 {
            assert(ids[i] == b@);
        } else {
            assert(ids[i] == c@);
        }
    }
    assert(exists|x: Seq<Seq<char>>|
        #![trigger enter_room_messages(x, user_id@, room_name@, session_id@)]
        x.len() == 3 && (forall|i: int| 0 <= i < 3 ==> is_request_id(#[trigger] x[i]))
            && r.deep_view() == enter_room_messages(x, user_id@, room_name@, session_id@));
    r
}

/// The messages that post `text` to a room's chat: those that enter the
/// room, then the chat message, each under a fresh request id.
pub fn chat_frames(user_id: &str, room_name: &str, text: &str, session_id: &str) -> (r: Vec<
    String,
>)
    ensures
        exists|ids: Seq<Seq<char>>|
            ids.len() == 4 && (forall|i: int| 0 <= i < 4 ==> is_request_id(#[trigger] ids[i]))
                && r.deep_view() == enter_room_messages(ids, user_id@, room_name@, session_id@).push(
                chat_send_message(ids[3], room_name@, text@, session_id@),
            ),
{
    let mut r = enter_room_frames(user_id, room_name, session_id);
    let ghost before = r.deep_view();
    let ghost ids3 = choose|ids: Seq<Seq<char>>|
        ids.len() == 3 && (forall|i: int| 0 <= i < 3 ==> is_request_id(#[trigger] ids[i]))
            && before == enter_room_messages(ids, user_id@, room_name@, session_id@);
    let d = new_request_id();
    let m = chat_send_payload(d.as_str(), room_name, text, session_id);
    r.push(m);
    let ghost ids = ids3.push(d@);
    assert(enter_room_messages(ids, user_id@, room_name@, session_id@) =~= enter_room_messages(
        ids3,
        user_id@,
        room_name@,
        session_id@,
    ));
    assert(r.deep_view() =~= before.push(m@));
    assert forall|i: int| 0 <= i < 4 implies is_request_id(#[trigger] ids[i]) by {
        if i < 3 {
            assert(ids[i] == ids3[i]);
        } else {
            assert(ids[i] == d@);
        }
    }
    assert(ids[3] == d@);
    assert(exists|x: Seq<Seq<char>>|
        #![trigger enter_room_messages(x, user_id@, room_name@, session_id@)]
        x.len() == 4 && (forall|i: int| 0 <= i < 4 ==> is_request_id(#[trigger] x[i]))
            && r.deep_view() == enter_room_messages(x, user_id@, room_name@, session_id@).push(
            chat_send_message(x[3], room_name@, text@, session_id@),
        ));
    r
}

/// The keep-alive messages: a session ping and a chat ping, each under a
/// fresh request id.
pub fn keepalive_frames(room_name: &str, session_id: &str) -> (r: Vec<String>)
    ensures
        exists|a: Seq<char>, b: Seq<char>|
            is_request_id(a) && is_request_id(b) && r.deep_view() == seq![
                ping_message(a, session_id@),
                chat_ping_message(b, room_name@, session_id@),
            ],
{
    let a = new_request_id();
    let b = new_request_id();
    let mut r: Vec<String> = Vec::new();
    r.push(ping_payload(a.as_str(), session_id));
    r.push(chat_ping_payload(b.as_str(), room_name, session_id));
    assert(r.deep_view() =~= seq![
        ping_message(a@, session_id@),
        chat_ping_message(b@, room_name@, session_id@),
    ]);
    r
}

/// Reads the session id that the server sends after sign-in: the string at
/// `data.sessionId` of a JSON message. A message that is not JSON is a JSON
/// error carrying the parser's message; any other message carries no
/// session id.
pub fn session_id_from_frame(text: &str) -> (r: Result<Option<String>, KTalkError>)
    ensures
        r is Err <==> !json_is_valid(text@),
        r matches Err(e) ==> e@ == KTalkErrorView::Json(json_error_text(text@)),
        r matches Ok(v) ==> v.deep_view() == json_nested_member_str(text@, "data"@, "sessionId"@),
{
    match lookup_nested_member_str(text, "data", "sessionId") {
        Ok(v) => Ok(v),
        Err(m) => Err(KTalkError::Json(m)),
    }
}

/// The error when the system websocket closes before a session id came.
pub fn missing_session_id() -> (e: KTalkError)
    ensures
        e@ == KTalkErrorView::Protocol("system websocket did not return a sessionId"@),
{
    KTalkError::Protocol("system websocket did not return a sessionId".to_owned())
}

/// Something that happened while waiting for the session id.
#[derive(Debug)]
pub enum SignInEvent {
    /// A text frame (binary frames are read as text too).
    Text(String),
    /// Any other frame.
    Other,
    /// Receiving failed.
    Failed(KTalkError),
    /// The server closed the socket.
    Closed,
}

/// What the sign-in does next.
#[derive(Debug)]
pub enum SignInAction {
    /// Wait for the next frame.
    Wait,
    /// Signed in under this session id: the room messages may go out.
    SignedIn(String),
    /// Sign-in failed.
    Fail(KTalkError),
}

/// The model of a sign-in action.
pub enum SignInActionView {
    Wait,
    SignedIn(Seq<char>),
    Fail(KTalkErrorView),
}

impl View for SignInAction {
    type V = SignInActionView;

    open spec fn view(&self) -> SignInActionView {
        match self {
            SignInAction::Wait => SignInActionView::Wait,
            SignInAction::SignedIn(id) => SignInActionView::SignedIn(id@),
            SignInAction::Fail(e) => SignInActionView::Fail(e@),
        }
    }
}

/// After the sign-in message went out: a text frame that is not JSON fails
/// the sign-in; one that carries `data.sessionId` ends it; others are
/// skipped, as are non-text frames. A receive failure fails it, and so does
/// a socket that closes first.
pub open spec fn sign_in_action(e: SignInEvent) -> SignInActionView {
    match e {
        SignInEvent::Text(t) => if !json_is_valid(t@) {
            SignInActionView::Fail(KTalkErrorView::Json(json_error_text(t@)))
        } else {
            match json_nested_member_str(t@, "data"@, "sessionId"@) {
                Some(id) => SignInActionView::SignedIn(id),
                None => SignInActionView::Wait,
            }
        },
        SignInEvent::Other => SignInActionView::Wait,
        SignInEvent::Failed(err) => SignInActionView::Fail(err@),
        SignInEvent::Closed => SignInActionView::Fail(
            KTalkErrorView::Protocol("system websocket did not return a sessionId"@),
        ),
    }
}

/// See `sign_in_action`.
pub fn sign_in_step(event: SignInEvent) -> (a: SignInAction)
    ensures
        a@ == sign_in_action(event),
{
    match event {
        SignInEvent::Text(t) => match session_id_from_frame(t.as_str()) {
            Err(e) => SignInAction::Fail(e),
            Ok(Some(id)) => SignInAction::SignedIn(id),
            Ok(None) => SignInAction::Wait,
        },
        SignInEvent::Other => SignInAction::Wait,
        SignInEvent::Failed(err) => SignInAction::Fail(err),
        SignInEvent::Closed => SignInAction::Fail(missing_session_id()),
    }
}

/// Law: every system message is the JSON object that names its action in
/// `a`, carries its data, its own request id in `reqId`, and, once signed
/// in, the server's session id in `session`; room messages name the room in
/// `data.name`, the status message names the user, the chat message carries
/// the text, and the sign-in message carries the session token. Members are
/// written in key order with the values as JSON strings.
pub proof fn law_system_messages(
    id: Seq<char>,
    token: Seq<char>,
    user_id: Seq<char>,
    room: Seq<char>,
    text: Seq<char>,
    session: Seq<char>,
)
    ensures
        connect_message(id, token) == "{\"a\":\"connect\",\"data\":{\"clientType\":\"Web\",\"signInToken\":"@
            + json_quoted(token) + ",\"webAppVersion\":\"master\"},\"reqId\":"@ + json_quoted(id)
            + "}"@,
        subscribe_message(id, session) == "{\"a\":\"message_subscribe\",\"data\":{\"topic\":\"personal\"},\"reqId\":"@
            + json_quoted(id) + ",\"session\":"@ + json_quoted(session) + "}"@,
        user_status_message(id, user_id, session)
            == "{\"a\":\"user_status\",\"data\":{\"status\":\"inMeeting\",\"userKey\":"@
            + json_quoted(user_id) + "},\"reqId\":"@ + json_quoted(id) + ",\"session\":"@
            + json_quoted(session) + "}"@,
        chat_join_message(id, room, session) == "{\"a\":\"chat_join\",\"data\":{\"name\":"@
            + json_quoted(room) + ",\"platform\":\"web\",\"popup\":false},\"reqId\":"@ + json_quoted(
            id,
        ) + ",\"session\":"@ + json_quoted(session) + "}"@,
        chat_send_message(id, room, text, session) == "{\"a\":\"chat_send\",\"data\":{\"name\":"@
            + json_quoted(room) + ",\"platform\":\"web\",\"text\":"@ + json_quoted(text)
            + "},\"reqId\":"@ + json_quoted(id) + ",\"session\":"@ + json_quoted(session) + "}"@,
        ping_message(id, session) == "{\"a\":\"ping\",\"data\":{},\"reqId\":"@ + json_quoted(id)
            + ",\"session\":"@ + json_quoted(session) + "}"@,
        chat_ping_message(id, room, session) == "{\"a\":\"chat_ping\",\"data\":{\"name\":"@
            + json_quoted(room) + "},\"reqId\":"@ + json_quoted(id) + ",\"session\":"@ + json_quoted(
            session,
        ) + "}"@,
{
    reveal_strlit("{\"a\":\"message_subscribe\",\"data\":{\"topic\":\"personal\"}");
    reveal_strlit("{\"a\":\"message_subscribe\",\"data\":{\"topic\":\"personal\"},\"reqId\":");
    reveal_strlit(",\"reqId\":");
    reveal_strlit("}");
    reveal_strlit("},\"reqId\":");
    reveal_strlit("{\"a\":\"ping\",\"data\":{}");
    reveal_strlit("{\"a\":\"ping\",\"data\":{},\"reqId\":");
    reveal_strlit(",\"platform\":\"web\",\"popup\":false}");
    reveal_strlit(",\"platform\":\"web\",\"popup\":false},\"reqId\":");
    assert("{\"a\":\"message_subscribe\",\"data\":{\"topic\":\"personal\"}"@ + ",\"reqId\":"@
        =~= "{\"a\":\"message_subscribe\",\"data\":{\"topic\":\"personal\"},\"reqId\":"@);
    assert("}"@ + ",\"reqId\":"@ =~= "},\"reqId\":"@);
    assert("{\"a\":\"ping\",\"data\":{}"@ + ",\"reqId\":"@ =~= "{\"a\":\"ping\",\"data\":{},\"reqId\":"@);
    assert(",\"platform\":\"web\",\"popup\":false}"@ + ",\"reqId\":"@
        =~= ",\"platform\":\"web\",\"popup\":false},\"reqId\":"@);
    let q = json_quoted(id);
    let qs = json_quoted(session);
    assert(subscribe_message(id, session) =~= "{\"a\":\"message_subscribe\",\"data\":{\"topic\":\"personal\"},\"reqId\":"@
        + q + ",\"session\":"@ + qs + "}"@);
    assert(user_status_message(id, user_id, session) =~= "{\"a\":\"user_status\",\"data\":{\"status\":\"inMeeting\",\"userKey\":"@
        + json_quoted(user_id) + "},\"reqId\":"@ + q + ",\"session\":"@ + qs + "}"@);
    assert(chat_join_message(id, room, session) =~= "{\"a\":\"chat_join\",\"data\":{\"name\":"@
        + json_quoted(room) + ",\"platform\":\"web\",\"popup\":false},\"reqId\":"@ + q
        + ",\"session\":"@ + qs + "}"@);
    assert(chat_send_message(id, room, text, session) =~= "{\"a\":\"chat_send\",\"data\":{\"name\":"@
        + json_quoted(room) + ",\"platform\":\"web\",\"text\":"@ + json_quoted(text)
        + "},\"reqId\":"@ + q + ",\"session\":"@ + qs + "}"@);
    assert(ping_message(id, session) =~= "{\"a\":\"ping\",\"data\":{},\"reqId\":"@ + q
        + ",\"session\":"@ + qs + "}"@);
    assert(chat_ping_message(id, room, session) =~= "{\"a\":\"chat_ping\",\"data\":{\"name\":"@
        + json_quoted(room) + "},\"reqId\":"@ + q + ",\"session\":"@ + qs + "}"@);
}

/// Law: entering a room sends, in order, the subscription, the "in meeting"
/// status of the user and the join of the room's chat, all in the same
/// session; posting to the chat sends those and then the chat message.
pub proof fn law_enter_room_order(
    ids: Seq<Seq<char>>,
    user_id: Seq<char>,
    room: Seq<char>,
    session: Seq<char>,
)
    requires
        ids.len() >= 3,
    ensures
        enter_room_messages(ids, user_id, room, session).len() == 3,
        enter_room_messages(ids, user_id, room, session)[0] == subscribe_message(ids[0], session),
        enter_room_messages(ids, user_id, room, session)[1] == user_status_message(
            ids[1],
            user_id,
            session,
        ),
        enter_room_messages(ids, user_id, room, session)[2] == chat_join_message(
            ids[2],
            room,
            session,
        ),
{
}

} // verus!
