//! The XMPP side of a stay in a room.
//!
//! The bot signs in anonymously, binds a resource, enables stream
//! management, announces itself with a muted presence, and from then on
//! answers pings, acknowledges stream-management requests, and notes every
//! participant that a presence stanza announces. `XmppSession` decides, for
//! each incoming frame, the frames to send back and its next state; the
//! caller owns the socket and the clock.
use vstd::prelude::*;

use crate::domain::bot::{ParticipantSnapshot, ParticipantSnapshotView, UserProfile, UserProfileView};
use crate::infrastructure::ids::{
    is_hyphenated_uuid, is_lower_hex, is_simple_uuid, new_uuid_hyphenated, new_uuid_simple,
};
use crate::infrastructure::json::{json_quoted, json_string_literal};
use crate::infrastructure::parsing::xmpp::{parse_participant_presence, presence_snapshot};
use crate::text::{
    chars_of, contains, contains_chars, copy_range, decimal, decimal_chars, find, find_char,
    find_chars, matches_at_exec, replace_all, replace_chars, starts_with, string_from_chars,
};

verus! {

/// Where the sign-in handshake stands.
#[derive(Debug, Clone, Copy, PartialEq, Eq, Structural)]
pub enum XmppState {
    Auth,
    WaitSuccess,
    Bind,
    EnableSm,
    Joined,
}

// ---------------------------------------------------------------------------
// Frames
// ---------------------------------------------------------------------------

pub open spec fn open_stream_frame() -> Seq<char> {
    "<open to=\"meet.jitsi\" version=\"1.0\" xmlns=\"urn:ietf:params:xml:ns:xmpp-framing\"/>"@
}

pub open spec fn anonymous_auth_frame() -> Seq<char> {
    "<auth mechanism=\"ANONYMOUS\" xmlns=\"urn:ietf:params:xml:ns:xmpp-sasl\"/>"@
}

pub open spec fn bind_frame() -> Seq<char> {
    "<iq type=\"set\" id=\"bind_1\" xmlns=\"jabber:client\"><bind xmlns=\"urn:ietf:params:xml:ns:xmpp-bind\"/></iq>"@
}

pub open spec fn enable_sm_frame() -> Seq<char> {
    "<enable xmlns=\"urn:xmpp:sm:3\" resume=\"false\"/>"@
}

/// The user-info document of the bot, as `serde_json` writes the object
/// (members in key order).
pub open spec fn user_info_json(p: UserProfileView) -> Seq<char> {
    "{\"firstName\":"@ + json_quoted(p.first_name) + ",\"isKiosk\":false,\"key\":"@ + json_quoted(
        p.user_id,
    ) + ",\"lastName\":"@ + json_quoted(p.last_name) + ",\"middleName\":\"\"}"@
}

/// The source-info document of the bot: its audio and video sources, muted.
pub open spec fn source_info_json(nick: Seq<char>) -> Seq<char> {
    "{"@ + json_quoted(nick + "-a0"@) + ":{\"muted\":true},"@ + json_quoted(nick + "-v0"@)
        + ":{\"muted\":true}}"@
}

/// `s` with every `"` written as `&quot;`.
pub open spec fn quote_entities(s: Seq<char>) -> Seq<char> {
    replace_all(s, "\""@, "&quot;"@)
}

/// The presence that enters the conference room.
pub open spec fn join_presence_frame(
    conference_id: Seq<char>,
    nick: Seq<char>,
    p: UserProfileView,
) -> Seq<char> {
    "<presence to=\""@ + conference_id + "@muc.meet.jitsi/"@ + nick
        + "\" xmlns=\"jabber:client\"><x xmlns=\"http://jabber.org/protocol/muc\"/><audiomuted>true</audiomuted><videomuted>true</videomuted><stats-id>ktalk-bot</stats-id><c hash=\"sha-1\" node=\"https://jitsi.org/jitsi-meet\" ver=\"+mpajJhafj8jFogLBKsPbQfMgzU=\" xmlns=\"http://jabber.org/protocol/caps\"/><jitsi_participant_codecList>vp9,vp8,h264,av1</jitsi_participant_codecList><nick xmlns=\"http://jabber.org/protocol/nick\">"@
        + p.first_name + "</nick><jitsi_participant_user-info>"@ + quote_entities(user_info_json(p))
        + "</jitsi_participant_user-info><SourceInfo>"@ + quote_entities(source_info_json(nick))
        + "</SourceInfo><jitsi_participant_video-size>{&quot;width&quot;:960,&quot;height&quot;:720}</jitsi_participant_video-size></presence>"@
}

/// The stream-management answer after `handled` stanzas.
pub open spec fn ack_frame(handled: nat) -> Seq<char> {
    "<a xmlns='urn:xmpp:sm:3' h='"@ + decimal(handled) + "'/>"@
}

/// The answer to the server's ping `id`.
pub open spec fn ping_result_frame(id: Seq<char>) -> Seq<char> {
    "<iq type=\"result\" id=\""@ + id + "\" xmlns=\"jabber:client\"/>"@
}

/// The answer to the focus component's request `id`.
pub open spec fn iq_result_frame(id: Seq<char>, from: Seq<char>) -> Seq<char> {
    "<iq type=\"result\" id=\""@ + id + "\" to=\""@ + from + "\" xmlns=\"jabber:client\"/>"@
}

/// The bot's own keep-alive ping with request id `id`.
pub open spec fn ping_frame(id: Seq<char>) -> Seq<char> {
    "<iq id=\""@ + id
        + ":sendIQ\" to=\"meet.jitsi\" type=\"get\" xmlns=\"jabber:client\"><ping xmlns=\"urn:xmpp:ping\"/></iq>"@
}

// ---------------------------------------------------------------------------
// Reading frames
// ---------------------------------------------------------------------------

/// The value of the first `name="..."` attribute in `text`.
pub open spec fn attribute_value(text: Seq<char>, name: Seq<char>) -> Option<Seq<char>> {
    let pattern = name + "=\""@;
    match find(text, pattern) {
        None => None,
        Some(i) => {
            let rest = text.skip(i + pattern.len());
            match find(rest, seq!['"']) {
                None => None,
                Some(e) => Some(rest.take(e)),
            }
        },
    }
}

/// A frame that counts as a stanza for stream management.
pub open spec fn is_stanza(text: Seq<char>) -> bool {
    starts_with(text, "<iq"@) || starts_with(text, "<presence"@) || starts_with(text, "<message"@)
}

/// `ps` with `p` added, unless a participant with the same occupant id is
/// already there.
pub open spec fn with_participant(
    ps: Seq<ParticipantSnapshotView>,
    p: ParticipantSnapshotView,
) -> Seq<ParticipantSnapshotView> {
    if exists|i: int| 0 <= i < ps.len() && ps[i].occupant_id == p.occupant_id {
        ps
    } else {
        ps.push(p)
    }
}

// ---------------------------------------------------------------------------
// The session
// ---------------------------------------------------------------------------

/// The model of a session.
pub struct XmppSessionView {
    pub state: XmppState,
    pub joined: bool,
    pub handled_stanzas: nat,
    pub participants: Seq<ParticipantSnapshotView>,
    pub nick: Seq<char>,
    pub profile: UserProfileView,
    pub conference_id: Seq<char>,
}

/// The handshake step that `text` triggers, with the frames it sends.
pub open spec fn handshake_step(s: XmppSessionView, text: Seq<char>) -> (XmppState, Seq<
    Seq<char>,
>) {
    match s.state {
        XmppState::Auth => if contains(text, "ANONYMOUS"@) {
            (XmppState::WaitSuccess, seq![anonymous_auth_frame()])
        } else {
            (XmppState::Auth, Seq::empty())
        },
        XmppState::WaitSuccess => if contains(text, "success"@) {
            (XmppState::Bind, seq![open_stream_frame()])
        } else {
            (XmppState::WaitSuccess, Seq::empty())
        },
        XmppState::Bind => if contains(text, "urn:ietf:params:xml:ns:xmpp-bind"@) {
            (XmppState::EnableSm, seq![bind_frame()])
        } else {
            (XmppState::Bind, Seq::empty())
        },
        XmppState::EnableSm => if contains(text, "bind_1"@) {
            (
                XmppState::Joined,
                seq![enable_sm_frame(), join_presence_frame(s.conference_id, s.nick, s.profile)],
            )
        } else {
            (XmppState::EnableSm, Seq::empty())
        },
        XmppState::Joined => (XmppState::Joined, Seq::empty()),
    }
}

/// The answer to a server ping in `text`, if it is one and carries an id.
pub open spec fn ping_answer(text: Seq<char>) -> Seq<Seq<char>> {
    if contains(text, "urn:xmpp:ping"@) && contains(text, "<ping"@) {
        match attribute_value(text, "id"@) {
            Some(id) => seq![ping_result_frame(id)],
            None => Seq::empty(),
        }
    } else {
        Seq::empty()
    }
}

/// The answer to a focus request in `text`, once joined.
pub open spec fn focus_answer(state: XmppState, text: Seq<char>) -> Seq<Seq<char>> {
    if state == XmppState::Joined && contains(text, "<iq"@) && contains(text, "type=\"set\""@) {
        match (attribute_value(text, "id"@), attribute_value(text, "from"@)) {
            (Some(id), Some(from)) => if contains(from, "focus"@) {
                seq![iq_result_frame(id, from)]
            } else {
                Seq::empty()
            },
            _ => Seq::empty(),
        }
    } else {
        Seq::empty()
    }
}

/// What the session does with the incoming frame `text`: its next state
/// and the frames it sends, in order.
pub open spec fn xmpp_step(s: XmppSessionView, text: Seq<char>) -> (XmppSessionView, Seq<
    Seq<char>,
>) {
    let handled = if is_stanza(text) {
        s.handled_stanzas + 1
    } else {
        s.handled_stanzas
    };
    let participants = match presence_snapshot(text) {
        Some(p) => with_participant(s.participants, p),
        None => s.participants,
    };
    let (state, handshake) = handshake_step(s, text);
    let joined = s.joined || (state == XmppState::Joined && contains(text, "/"@ + s.nick)
        && contains(text, "status code='110'"@));
    let ack = if contains(text, "<r xmlns"@) {
        seq![ack_frame(handled)]
    } else {
        Seq::empty()
    };
    (
        XmppSessionView { state, joined, handled_stanzas: handled, participants, ..s },
        handshake + ack + ping_answer(text) + focus_answer(state, text),
    )
}

/// A session in progress.
pub struct XmppSession {
    state: XmppState,
    joined: bool,
    handled_stanzas: usize,
    participants: Vec<ParticipantSnapshot>,
    nick: String,
    profile: UserProfile,
    conference_id: String,
}

impl View for XmppSession {
    type V = XmppSessionView;

    closed spec fn view(&self) -> XmppSessionView {
        XmppSessionView {
            state: self.state,
            joined: self.joined,
            handled_stanzas: self.handled_stanzas as nat,
            participants: self.participants.deep_view(),
            nick: self.nick@,
            profile: self.profile@,
            conference_id: self.conference_id@,
        }
    }
}

/// The value of the first `name="..."` attribute in `text`.
pub fn extract_attribute(text: &str, name: &str) -> (r: Option<String>)
    ensures
        r.deep_view() == attribute_value(text@, name@),
{
    proof {
        reveal_strlit("=\"");
    }
    let t = chars_of(text);
    let mut pattern = chars_of(name);
    let tail = chars_of("=\"");
    crate::text::append_chars(&mut pattern, &tail);
    let start = match find_chars(&t, &pattern) {
        Some(i) => i,
        None => {
            return None;
        },
    };
    proof {
        crate::text::lemma_find_from(t@, pattern@, 0);
        assert(crate::text::matches_at(t@, pattern@, start as int));
        assert(start + pattern@.len() <= t@.len());
    }
    assert(start + pattern.len() <= t.len());
    let rest = copy_range(&t, start + pattern.len(), t.len());
    assert(rest@ =~= t@.skip(start + pattern@.len()));
    let end = match find_char(&rest, '"') {
        Some(e) => e,
        None => {
            return None;
        },
    };
    proof {
        crate::text::lemma_find_from(rest@, seq!['"'], 0);
    }
    let value = copy_range(&rest, 0, end);
    assert(value@ =~= rest@.take(end as int));
    Some(string_from_chars(value.as_slice()))
}

fn quote_entities_str(s: &str) -> (r: String)
    ensures
        r@ == quote_entities(s@),
{
    proof {
        reveal_strlit("\"");
    }
    let c = chars_of(s);
    let out = replace_chars(&c, &chars_of("\""), &chars_of("&quot;"));
    string_from_chars(out.as_slice())
}

fn user_info_json_str(p: &UserProfile) -> (r: String)
    ensures
        r@ == user_info_json(p@),
{
    "{\"firstName\":".to_owned().concat(json_string_literal(p.first_name.as_str()).as_str()).concat(
        ",\"isKiosk\":false,\"key\":",
    ).concat(json_string_literal(p.user_id.as_str()).as_str()).concat(",\"lastName\":").concat(
        json_string_literal(p.last_name.as_str()).as_str(),
    ).concat(",\"middleName\":\"\"}")
}

fn source_info_json_str(nick: &str) -> (r: String)
    ensures
        r@ == source_info_json(nick@),
{
    let audio = nick.to_owned().concat("-a0");
    let video = nick.to_owned().concat("-v0");
    "{".to_owned().concat(json_string_literal(audio.as_str()).as_str()).concat(
        ":{\"muted\":true},",
    ).concat(json_string_literal(video.as_str()).as_str()).concat(":{\"muted\":true}}")
}

/// See `join_presence_frame`.
pub fn join_presence(conference_id: &str, nick: &str, profile: &UserProfile) -> (r: String)
    ensures
        r@ == join_presence_frame(conference_id@, nick@, profile@),
{
    let user_info = quote_entities_str(user_info_json_str(profile).as_str());
    let source_info = quote_entities_str(source_info_json_str(nick).as_str());
    "<presence to=\"".to_owned().concat(conference_id).concat("@muc.meet.jitsi/").concat(
        nick,
    ).concat(
        "\" xmlns=\"jabber:client\"><x xmlns=\"http://jabber.org/protocol/muc\"/><audiomuted>true</audiomuted><videomuted>true</videomuted><stats-id>ktalk-bot</stats-id><c hash=\"sha-1\" node=\"https://jitsi.org/jitsi-meet\" ver=\"+mpajJhafj8jFogLBKsPbQfMgzU=\" xmlns=\"http://jabber.org/protocol/caps\"/><jitsi_participant_codecList>vp9,vp8,h264,av1</jitsi_participant_codecList><nick xmlns=\"http://jabber.org/protocol/nick\">",
    ).concat(profile.first_name.as_str()).concat("</nick><jitsi_participant_user-info>").concat(
        user_info.as_str(),
    ).concat("</jitsi_participant_user-info><SourceInfo>").concat(source_info.as_str()).concat(
        "</SourceInfo><jitsi_participant_video-size>{&quot;width&quot;:960,&quot;height&quot;:720}</jitsi_participant_video-size></presence>",
    )
}

/// See `ack_frame`.
pub fn ack(handled: usize) -> (r: String)
    ensures
        r@ == ack_frame(handled as nat),
{
    let digits = decimal_chars(handled);
    "<a xmlns='urn:xmpp:sm:3' h='".to_owned().concat(string_from_chars(digits.as_slice()).as_str()).concat(
        "'/>",
    )
}

/// See `ping_frame`.
pub fn ping_with_id(id: &str) -> (r: String)
    ensures
        r@ == ping_frame(id@),
{
    "<iq id=\"".to_owned().concat(id).concat(
        ":sendIQ\" to=\"meet.jitsi\" type=\"get\" xmlns=\"jabber:client\"><ping xmlns=\"urn:xmpp:ping\"/></iq>",
    )
}

fn has(t: &Vec<char>, lit: &str) -> (b: bool)
    ensures
        b == contains(t@, lit@),
{
    contains_chars(t, &chars_of(lit))
}

fn begins(t: &Vec<char>, lit: &str) -> (b: bool)
    ensures
        b == starts_with(t@, lit@),
{
    matches_at_exec(t, &chars_of(lit), 0)
}

/// The resource name taken from `uuid`: its first eight characters.
pub fn nick_of(uuid: &str) -> (r: String)
    requires
        uuid@.len() >= 8,
    ensures
        r@ == uuid@.take(8),
{
    let id = chars_of(uuid);
    let first = copy_range(&id, 0, 8);
    assert(first@ =~= uuid@.take(8));
    string_from_chars(first.as_slice())
}

/// A random resource name for the bot: the first eight digits of the simple
/// form of a random UUID.
pub fn new_nick() -> (r: String)
    ensures
        r@.len() == 8,
        forall|i: int| 0 <= i < 8 ==> is_lower_hex(#[trigger] r@[i]),
        exists|u: Seq<char>| is_simple_uuid(u) && r@ == u.take(8),
{
    let uuid = new_uuid_simple();
    let r = nick_of(uuid.as_str());
    assert(is_simple_uuid(uuid@) && r@ == uuid@.take(8));
    assert forall|i: int| 0 <= i < 8 implies is_lower_hex(#[trigger] r@[i]) by {
        assert(r@[i] == uuid@[i]);
    }
    r
}

impl XmppSession {
    /// A session for `profile` entering conference `conference_id` under the
    /// resource name `nick`.
    pub fn with_nick(profile: UserProfile, conference_id: String, nick: String) -> (s: XmppSession)
        ensures
            s@ == (XmppSessionView {
                state: XmppState::Auth,
                joined: false,
                handled_stanzas: 0,
                participants: Seq::empty(),
                nick: nick@,
                profile: profile@,
                conference_id: conference_id@,
            }),
    {
        let s = XmppSession {
            state: XmppState::Auth,
            joined: false,
            handled_stanzas: 0,
            participants: Vec::new(),
            nick,
            profile,
            conference_id,
        };
        assert(s.participants.deep_view() =~= Seq::<ParticipantSnapshotView>::empty());
        s
    }

    /// A session under a fresh random resource name (see `new_nick`).
    pub fn new(profile: UserProfile, conference_id: String) -> (s: XmppSession)
        ensures
            s@.state == XmppState::Auth,
            !s@.joined,
            s@.handled_stanzas == 0,
            s@.participants == Seq::<ParticipantSnapshotView>::empty(),
            s@.profile == profile@,
            s@.conference_id == conference_id@,
            s@.nick.len() == 8,
            forall|i: int| 0 <= i < 8 ==> is_lower_hex(#[trigger] s@.nick[i]),
            exists|u: Seq<char>| is_simple_uuid(u) && s@.nick == u.take(8),
    {
        let nick = new_nick();
        Self::with_nick(profile, conference_id, nick)
    }

    /// The frame that opens the stream.
    pub fn open_frame() -> (r: String)
        ensures
            r@ == open_stream_frame(),
    {
        "<open to=\"meet.jitsi\" version=\"1.0\" xmlns=\"urn:ietf:params:xml:ns:xmpp-framing\"/>".to_owned()
    }

    /// Whether the bot has seen its own presence reflected by the room.
    pub fn joined(&self) -> (b: bool)
        ensures
            b == self@.joined,
    {
        self.joined
    }

    /// The number of stanzas received so far.
    pub fn handled_stanzas(&self) -> (n: usize)
        ensures
            n == self@.handled_stanzas,
    {
        self.handled_stanzas
    }

    /// The handshake state.
    pub fn state(&self) -> (st: XmppState)
        ensures
            st == self@.state,
    {
        self.state
    }

    /// The participants seen so far, each occupant once, in the order first
    /// seen.
    pub fn participants(&self) -> (r: &Vec<ParticipantSnapshot>)
        ensures
            r.deep_view() == self@.participants,
    {
        &self.participants
    }

    /// What to send on a keep-alive tick: a ping under a fresh random id once
    /// joined, nothing before.
    pub fn on_tick(&self) -> (r: Option<String>)
        ensures
            r is Some <==> self@.state == XmppState::Joined,
            r matches Some(f) ==> exists|id: Seq<char>| is_hyphenated_uuid(id) && f@ == ping_frame(id),
    {
        if self.state == XmppState::Joined {
            let id = new_uuid_hyphenated();
            Some(ping_with_id(id.as_str()))
        } else {
            None
        }
    }

    fn note_participant(&mut self, p: ParticipantSnapshot)
        ensures
            final(self)@ == (XmppSessionView {
                participants: with_participant(old(self)@.participants, p@),
                ..old(self)@
            }),
    {
        let mut i: usize = 0;
        while i < self.participants.len()
            invariant
                i <= self.participants.len(),
                self == old(self),
                forall|j: int|
                    0 <= j < i ==> self.participants.deep_view()[j].occupant_id != p@.occupant_id,
            decreases self.participants.len() - i,
        {
            if self.participants[i].occupant_id == p.occupant_id {
                assert(self.participants.deep_view()[i as int].occupant_id == p@.occupant_id);
                return;
            }
            i = i + 1;
        }
        let ghost before = self.participants.deep_view();
        let ghost pv = p@;
        self.participants.push(p);
        assert(self.participants.deep_view() =~= before.push(pv));
    }

    /// Handles the incoming frame `text` (see `xmpp_step`) and returns the
    /// frames to send, in order.
    #[verifier::rlimit(40)]
    pub fn on_frame(&mut self, text: &str) -> (out: Vec<String>)
        requires
            old(self)@.handled_stanzas < usize::MAX,
        ensures
            final(self)@ == xmpp_step(old(self)@, text@).0,
            out.deep_view() == xmpp_step(old(self)@, text@).1,
    {
        let t = chars_of(text);
        if begins(&t, "<iq") || begins(&t, "<presence") || begins(&t, "<message") {
            self.handled_stanzas = self.handled_stanzas + 1;
        }
        match parse_participant_presence(text) {
            Some(p) => self.note_participant(p),
            None => {},
        }
        let mut out: Vec<String> = Vec::new();
        match self.state {
            XmppState::Auth => {
                if has(&t, "ANONYMOUS") {
                    out.push(
                        "<auth mechanism=\"ANONYMOUS\" xmlns=\"urn:ietf:params:xml:ns:xmpp-sasl\"/>".to_owned(),
                    );
                    self.state = XmppState::WaitSuccess;
                }
            },
            XmppState::WaitSuccess => {
                if has(&t, "success") {
                    out.push(Self::open_frame());
                    self.state = XmppState::Bind;
                }
            },
            XmppState::Bind => {
                if has(&t, "urn:ietf:params:xml:ns:xmpp-bind") {
                    out.push(
                        "<iq type=\"set\" id=\"bind_1\" xmlns=\"jabber:client\"><bind xmlns=\"urn:ietf:params:xml:ns:xmpp-bind\"/></iq>".to_owned(),
                    );
                    self.state = XmppState::EnableSm;
                }
            },
            XmppState::EnableSm => {
                if has(&t, "bind_1") {
                    out.push("<enable xmlns=\"urn:xmpp:sm:3\" resume=\"false\"/>".to_owned());
                    out.push(
                        join_presence(
                            self.conference_id.as_str(),
                            self.nick.as_str(),
                            &self.profile,
                        ),
                    );
                    self.state = XmppState::Joined;
                }
            },
            XmppState::Joined => {},
        }
        if self.state == XmppState::Joined {
            let own = "/".to_owned().concat(self.nick.as_str());
            if contains_chars(&t, &chars_of(own.as_str())) && has(&t, "status code='110'") {
                self.joined = true;
            }
        }
        if has(&t, "<r xmlns") {
            out.push(ack(self.handled_stanzas));
        }
        if has(&t, "urn:xmpp:ping") && has(&t, "<ping") {
            match extract_attribute(text, "id") {
                Some(id) => {
                    out.push(
                        "<iq type=\"result\" id=\"".to_owned().concat(id.as_str()).concat(
                            "\" xmlns=\"jabber:client\"/>",
                        ),
                    );
                },
                None => {},
            }
        }
        if self.state == XmppState::Joined && has(&t, "<iq") && has(&t, "type=\"set\"") {
            match (extract_attribute(text, "id"), extract_attribute(text, "from")) {
                (Some(id), Some(from)) => {
                    let f = chars_of(from.as_str());
                    if has(&f, "focus") {
                        out.push(
                            "<iq type=\"result\" id=\"".to_owned().concat(id.as_str()).concat(
                                "\" to=\"",
                            ).concat(from.as_str()).concat("\" xmlns=\"jabber:client\"/>"),
                        );
                    }
                },
                _ => {},
            }
        }
        proof {
            let step = xmpp_step(old(self)@, text@);
            assert(out.deep_view() =~= step.1);
        }
        out
    }

    /// Ends the session: whether the bot joined, and the participants seen.
    pub fn into_outcome(self) -> (r: (bool, Vec<ParticipantSnapshot>))
        ensures
            r.0 == self@.joined,
            r.1.deep_view() == self@.participants,
    {
        (self.joined, self.participants)
    }
}

/// How far the handshake has come.
pub open spec fn handshake_rank(st: XmppState) -> int {
    match st {
        XmppState::Auth => 0,
        XmppState::WaitSuccess => 1,
        XmppState::Bind => 2,
        XmppState::EnableSm => 3,
        XmppState::Joined => 4,
    }
}

/// No two participants share an occupant id.
pub open spec fn occupants_unique(ps: Seq<ParticipantSnapshotView>) -> bool {
    forall|i: int, j: int|
        0 <= i < ps.len() && 0 <= j < ps.len() && i != j ==> ps[i].occupant_id != ps[j].occupant_id
}

/// The session is consistent: it has joined only once the handshake is
/// done, and it lists each occupant once.
pub open spec fn session_consistent(s: XmppSessionView) -> bool {
    &&& s.joined ==> s.state == XmppState::Joined
    &&& occupants_unique(s.participants)
}

/// Law: every frame keeps a consistent session consistent; the handshake
/// never goes back, at most one step per frame; having joined is never
/// undone; the stanza count only grows, by one for a stanza; participants
/// once seen stay, in place; the bot's name, profile and conference stay.
pub proof fn law_xmpp_step(s: XmppSessionView, text: Seq<char>)
    requires
        session_consistent(s),
    ensures
        ({
            let n = xmpp_step(s, text).0;
            &&& session_consistent(n)
            &&& handshake_rank(s.state) <= handshake_rank(n.state) <= handshake_rank(s.state) + 1
            &&& s.joined ==> n.joined
            &&& n.handled_stanzas == s.handled_stanzas + (if is_stanza(text) { 1int } else { 0int })
            &&& s.participants.len() <= n.participants.len() <= s.participants.len() + 1
            &&& forall|i: int| 0 <= i < s.participants.len() ==> n.participants[i] == s.participants[i]
            &&& n.nick == s.nick && n.profile == s.profile && n.conference_id == s.conference_id
        }),
{
    let n = xmpp_step(s, text).0;
    match presence_snapshot(text) {
        Some(p) => {
            let ps = s.participants;
            if !(exists|i: int| 0 <= i < ps.len() && ps[i].occupant_id == p.occupant_id) {
                assert forall|i: int, j: int|
                    0 <= i < ps.push(p).len() && 0 <= j < ps.push(p).len() && i != j implies ps.push(
                    p,
                )[i].occupant_id != ps.push(p)[j].occupant_id by {
                    if i == ps.len() {
                        assert(ps.push(p)[j] == ps[j]);
                    } else if j == ps.len() {
                        assert(ps.push(p)[i] == ps[i]);
                    } else {
                        assert(ps.push(p)[i] == ps[i]);
                        assert(ps.push(p)[j] == ps[j]);
                    }
                }
            }
        },
        None => {},
    }
}

/// Law: a session that has joined stays joined and stays in the joined
/// state whatever frames follow, and it sends no handshake frames any more.
pub proof fn law_joined_is_final(s: XmppSessionView, text: Seq<char>)
    requires
        s.state == XmppState::Joined,
    ensures
        xmpp_step(s, text).0.state == XmppState::Joined,
        s.joined ==> xmpp_step(s, text).0.joined,
        handshake_step(s, text).1 == Seq::<Seq<char>>::empty(),
{
}

/// The handshake frames of a session, in the order they are due.
pub open spec fn handshake_frames(s: XmppSessionView) -> Seq<Seq<char>> {
    seq![
        anonymous_auth_frame(),
        open_stream_frame(),
        bind_frame(),
        enable_sm_frame(),
        join_presence_frame(s.conference_id, s.nick, s.profile),
    ]
}

/// How many handshake frames a session in state `st` has sent.
pub open spec fn handshake_frames_sent(st: XmppState) -> int {
    match st {
        XmppState::Auth => 0,
        XmppState::WaitSuccess => 1,
        XmppState::Bind => 2,
        XmppState::EnableSm => 3,
        XmppState::Joined => 5,
    }
}

/// The session after the incoming frames `frames`, in order, with all the
/// frames it sent in answer, in order.
pub open spec fn run_session(s: XmppSessionView, frames: Seq<Seq<char>>) -> (XmppSessionView, Seq<
    Seq<char>,
>)
    decreases frames.len(),
{
    if frames.len() == 0 {
        (s, Seq::empty())
    } else {
        let (n, out) = xmpp_step(s, frames[0]);
        let (f, rest) = run_session(n, frames.drop_first());
        (f, out + rest)
    }
}

/// The handshake frames sent over the incoming frames `frames`, in order
/// (each frame's answer begins with them; see `xmpp_step`).
pub open spec fn handshake_sent(s: XmppSessionView, frames: Seq<Seq<char>>) -> Seq<Seq<char>>
    decreases frames.len(),
{
    if frames.len() == 0 {
        Seq::empty()
    } else {
        handshake_step(s, frames[0]).1 + handshake_sent(xmpp_step(s, frames[0]).0, frames.drop_first())
    }
}

proof fn lemma_handshake_step_frames(s: XmppSessionView, text: Seq<char>)
    ensures
        handshake_step(s, text).1 == handshake_frames(s).subrange(
            handshake_frames_sent(s.state),
            handshake_frames_sent(handshake_step(s, text).0),
        ),
        handshake_step(s, text).0 == xmpp_step(s, text).0.state,
{
    let h = handshake_frames(s);
    let a = handshake_frames_sent(s.state);
    let b = handshake_frames_sent(handshake_step(s, text).0);
    assert(handshake_step(s, text).1 =~= h.subrange(a, b));
}

/// Law: over a whole session, the handshake frames go out in their due
/// order, each at most once: whatever frames come in, the handshake frames
/// sent are exactly the next ones due, from where the session stood to where
/// it ends. A session that starts signed out and ends joined has sent all of
/// them, the room presence last; keep-alive pings, which go out only in the
/// joined state, therefore follow the presence.
pub proof fn law_xmpp_session(s: XmppSessionView, frames: Seq<Seq<char>>)
    requires
        session_consistent(s),
    ensures
        ({
            let f = run_session(s, frames).0;
            &&& session_consistent(f)
            &&& f.nick == s.nick && f.profile == s.profile && f.conference_id == s.conference_id
            &&& handshake_rank(s.state) <= handshake_rank(f.state)
            &&& handshake_sent(s, frames) == handshake_frames(s).subrange(
                handshake_frames_sent(s.state),
                handshake_frames_sent(f.state),
            )
            &&& s.state == XmppState::Auth && f.state == XmppState::Joined ==> handshake_sent(
                s,
                frames,
            ) == handshake_frames(s) && handshake_sent(s, frames).last() == join_presence_frame(
                s.conference_id,
                s.nick,
                s.profile,
            )
        }),
    decreases frames.len(),
{
    if frames.len() == 0 {
        assert(handshake_frames(s).subrange(
            handshake_frames_sent(s.state),
            handshake_frames_sent(s.state),
        ) =~= Seq::<Seq<char>>::empty());
    } else {
        let n = xmpp_step(s, frames[0]).0;
        law_xmpp_step(s, frames[0]);
        lemma_handshake_step_frames(s, frames[0]);
        law_xmpp_session(n, frames.drop_first());
        let f = run_session(n, frames.drop_first()).0;
        assert(handshake_frames(n) == handshake_frames(s));
        let h = handshake_frames(s);
        let a = handshake_frames_sent(s.state);
        let b = handshake_frames_sent(n.state);
        let c = handshake_frames_sent(f.state);
        assert(a <= b <= c) by {
            assert(handshake_rank(s.state) <= handshake_rank(n.state) <= handshake_rank(f.state));
        }
        assert(h.subrange(a, b) + h.subrange(b, c) =~= h.subrange(a, c));
        if s.state == XmppState::Auth && f.state == XmppState::Joined {
            assert(h.subrange(0, 5) =~= h);
        }
    }
}

/// `text` begins with `p`.
pub open spec fn begins_with(text: Seq<char>, p: Seq<char>) -> bool {
    text.len() >= p.len() && text.subrange(0, p.len() as int) == p
}

/// Law: every frame that begins with `<iq`, `<presence` or `<message` counts
/// as one more handled stanza, and no other frame counts; a frame that asks
/// for an acknowledgement (`<r xmlns`) is answered with the count that
/// includes the frame itself.
pub proof fn law_stanza_count(s: XmppSessionView, text: Seq<char>)
    ensures
        ({
            let (n, out) = xmpp_step(s, text);
            let counted = begins_with(text, "<iq"@) || begins_with(text, "<presence"@)
                || begins_with(text, "<message"@);
            &&& counted ==> n.handled_stanzas == s.handled_stanzas + 1
            &&& !counted ==> n.handled_stanzas == s.handled_stanzas
            &&& contains(text, "<r xmlns"@) ==> out.contains(
                "<a xmlns='urn:xmpp:sm:3' h='"@ + decimal(n.handled_stanzas) + "'/>"@,
            )
        }),
{
    let (n, out) = xmpp_step(s, text);
    let (state, handshake) = handshake_step(s, text);
    if contains(text, "<r xmlns"@) {
        let a = ack_frame(n.handled_stanzas);
        assert(out == handshake + seq![a] + ping_answer(text) + focus_answer(state, text));
        assert(out[handshake.len() as int] == a);
    }
}

/// Law: the handshake frames are the anonymous SASL request, the stream
/// restart, the bind request `bind_1`, stream management without resumption
/// and the muted room presence addressed to `<conference>@muc.meet.jitsi/<nick>`
/// under the user's first name.
pub proof fn law_handshake_frame_texts(s: XmppSessionView)
    ensures
        handshake_frames(s)[0] == "<auth mechanism=\"ANONYMOUS\" xmlns=\"urn:ietf:params:xml:ns:xmpp-sasl\"/>"@,
        handshake_frames(s)[1] == "<open to=\"meet.jitsi\" version=\"1.0\" xmlns=\"urn:ietf:params:xml:ns:xmpp-framing\"/>"@,
        handshake_frames(s)[2] == "<iq type=\"set\" id=\"bind_1\" xmlns=\"jabber:client\"><bind xmlns=\"urn:ietf:params:xml:ns:xmpp-bind\"/></iq>"@,
        handshake_frames(s)[3] == "<enable xmlns=\"urn:xmpp:sm:3\" resume=\"false\"/>"@,
        begins_with(handshake_frames(s)[4], "<presence to=\""@ + s.conference_id + "@muc.meet.jitsi/"@ + s.nick),
{
    let p = "<presence to=\""@ + s.conference_id + "@muc.meet.jitsi/"@ + s.nick;
    let f = handshake_frames(s)[4];
    assert(f.subrange(0, p.len() as int) =~= p);
}

/// Law: a server ping that carries an id is answered with a result for that
/// id, whatever the handshake state; a request of the focus component is
/// answered only once joined.
pub proof fn law_ping_answers(s: XmppSessionView, text: Seq<char>)
    ensures
        contains(text, "urn:xmpp:ping"@) && contains(text, "<ping"@) ==> (attribute_value(
            text,
            "id"@,
        ) matches Some(id) ==> xmpp_step(s, text).1.contains(
            "<iq type=\"result\" id=\""@ + id + "\" xmlns=\"jabber:client\"/>"@,
        )),
        xmpp_step(s, text).0.state != XmppState::Joined ==> focus_answer(
            xmpp_step(s, text).0.state,
            text,
        ) == Seq::<Seq<char>>::empty(),
{
    let (n, out) = xmpp_step(s, text);
    let (state, handshake) = handshake_step(s, text);
    let ack = if contains(text, "<r xmlns"@) {
        seq![ack_frame(n.handled_stanzas)]
    } else {
        Seq::empty()
    };
    if contains(text, "urn:xmpp:ping"@) && contains(text, "<ping"@) {
        if attribute_value(text, "id"@) is Some {
            let id = attribute_value(text, "id"@)->0;
            assert(out == handshake + ack + seq![ping_result_frame(id)] + focus_answer(state, text));
            assert(out[(handshake.len() + ack.len()) as int] == ping_result_frame(id));
        }
    }
}

} // verus!
