use ktalk_bot::application::system_session::{
    chat_frames, chat_send_payload, connect_frame, connect_payload, enter_room_frames,
    keepalive_frames, missing_session_id, new_request_id, ping_payload, request_id_of,
    sign_in_step, SignInAction, SignInEvent,
    session_id_from_frame, subscribe_payload, user_status_payload,
};
use ktalk_bot::application::room_flow::{
    join_outcome, play_audio_on_mic, system_loop_step, xmpp_loop_step, LoopAction, LoopEvent,
};
use ktalk_bot::application::websocket::{system_websocket_url, websocket_base_url, xmpp_websocket_url};
use ktalk_bot::application::xmpp_session::{
    ack, extract_attribute, join_presence, new_nick, nick_of, XmppSession, XmppState,
};
use ktalk_bot::domain::bot::{ParticipantSnapshot, RoomConnection, UserProfile};
use ktalk_bot::domain::history::{ConferenceHistoryRecord, Participant, Recording};
use ktalk_bot::infrastructure::http::dto::{RawArtifacts, RawConferenceHistoryRecord};
use ktalk_bot::infrastructure::http::pagination::{HistoryPager, PageRequest, PageStep};
use ktalk_bot::interface::results::{HistoryRecordResult, JoinRoomResult};
use ktalk_bot::KTalkError;

fn profile() -> UserProfile {
    UserProfile {
        user_id: "u1".to_owned(),
        first_name: "Bot".to_owned(),
        last_name: "User".to_owned(),
    }
}

fn is_hex(s: &str) -> bool {
    s.chars().all(|c| c.is_ascii_digit() || ('a'..='f').contains(&c))
}

#[test]
fn websocket_addresses() {
    assert_eq!(websocket_base_url("https://h.ru"), "wss://h.ru");
    assert_eq!(websocket_base_url("http://h.ru"), "ws://h.ru");
    assert_eq!(system_websocket_url("https://h.ru"), "wss://h.ru/system/ws");
    assert_eq!(
        xmpp_websocket_url("https://h.ru", "conf", "tok"),
        "wss://h.ru/jitsi/xmpp-websocket?room=conf&sessionToken=tok"
    );
}

#[test]
fn system_payloads_are_serde_shaped() {
    assert_eq!(
        connect_payload("0123456789", "tok"),
        r#"{"a":"connect","data":{"clientType":"Web","signInToken":"tok","webAppVersion":"master"},"reqId":"0123456789"}"#
    );
    assert_eq!(
        subscribe_payload("id", "s1"),
        r#"{"a":"message_subscribe","data":{"topic":"personal"},"reqId":"id","session":"s1"}"#
    );
    assert_eq!(
        user_status_payload("id", "u1", "s1"),
        r#"{"a":"user_status","data":{"status":"inMeeting","userKey":"u1"},"reqId":"id","session":"s1"}"#
    );
    assert_eq!(
        chat_send_payload("id", "room", "say \"hi\"\n", "s1"),
        r#"{"a":"chat_send","data":{"name":"room","platform":"web","text":"say \"hi\"\n"},"reqId":"id","session":"s1"}"#
    );
    assert_eq!(
        ping_payload("id", "s1"),
        r#"{"a":"ping","data":{},"reqId":"id","session":"s1"}"#
    );
}

#[test]
fn payload_strings_match_serde_json() {
    let text = "tab\there \u{1} back\\slash";
    let ours = chat_send_payload("id", "r", text, "s");
    let value: serde_json::Value = serde_json::from_str(&ours).unwrap();
    assert_eq!(value["data"]["text"].as_str(), Some(text));
    let mut data = serde_json::Map::new();
    data.insert("name".to_owned(), serde_json::Value::String("r".to_owned()));
    data.insert("text".to_owned(), serde_json::Value::String(text.to_owned()));
    data.insert("platform".to_owned(), serde_json::Value::String("web".to_owned()));
    let mut top = serde_json::Map::new();
    top.insert("a".to_owned(), serde_json::Value::String("chat_send".to_owned()));
    top.insert("reqId".to_owned(), serde_json::Value::String("id".to_owned()));
    top.insert("data".to_owned(), serde_json::Value::Object(data));
    top.insert("session".to_owned(), serde_json::Value::String("s".to_owned()));
    let theirs = serde_json::Value::Object(top).to_string();
    assert_eq!(ours, theirs);
}

#[test]
fn fresh_frames_carry_request_ids() {
    let id = new_request_id();
    assert_eq!(id.len(), 10);
    assert!(is_hex(&id));
    let connect = connect_frame("tok");
    let value: serde_json::Value = serde_json::from_str(&connect).unwrap();
    assert_eq!(value["data"]["signInToken"], "tok");
    assert_eq!(value["reqId"].as_str().unwrap().len(), 10);

    let frames = enter_room_frames("u1", "room", "s1");
    assert_eq!(frames.len(), 3);
    let actions: Vec<String> = frames
        .iter()
        .map(|f| serde_json::from_str::<serde_json::Value>(f).unwrap()["a"].as_str().unwrap().to_owned())
        .collect();
    assert_eq!(actions, vec!["message_subscribe", "user_status", "chat_join"]);

    let frames = chat_frames("u1", "room", "hello", "s1");
    assert_eq!(frames.len(), 4);
    let last: serde_json::Value = serde_json::from_str(&frames[3]).unwrap();
    assert_eq!(last["a"], "chat_send");
    assert_eq!(last["data"]["text"], "hello");

    let frames = keepalive_frames("room", "s1");
    assert_eq!(frames.len(), 2);
    let second: serde_json::Value = serde_json::from_str(&frames[1]).unwrap();
    assert_eq!(second["a"], "chat_ping");
    assert_eq!(second["data"]["name"], "room");
}

#[test]
fn session_id_is_read_from_data() {
    assert_eq!(
        session_id_from_frame(r#"{"data":{"sessionId":"abc"}}"#).unwrap().as_deref(),
        Some("abc")
    );
    assert_eq!(session_id_from_frame(r#"{"data":{}}"#).unwrap(), None);
    assert_eq!(session_id_from_frame(r#"{"data":{"sessionId":1}}"#).unwrap(), None);
    assert!(matches!(session_id_from_frame("nope"), Err(KTalkError::Json(_))));
    assert_eq!(
        missing_session_id().to_string(),
        "protocol error: system websocket did not return a sessionId"
    );
}

#[test]
fn attribute_extraction() {
    assert_eq!(
        extract_attribute("<iq id=\"p1\" from=\"focus@x\"/>", "from").as_deref(),
        Some("focus@x")
    );
    assert_eq!(extract_attribute("<iq id=\"p1/>", "id"), None);
    assert_eq!(extract_attribute("<iq/>", "id"), None);
    assert_eq!(extract_attribute("<iq id=\"\"/>", "id").as_deref(), Some(""));
}

#[test]
fn ack_counts_in_decimal() {
    assert_eq!(ack(0), "<a xmlns='urn:xmpp:sm:3' h='0'/>");
    assert_eq!(ack(1203), "<a xmlns='urn:xmpp:sm:3' h='1203'/>");
}

#[test]
fn join_presence_escapes_user_info() {
    let frame = join_presence("conf", "abcd1234", &profile());
    assert!(frame.starts_with("<presence to=\"conf@muc.meet.jitsi/abcd1234\""));
    assert!(frame.contains("<jitsi_participant_user-info>{&quot;firstName&quot;:&quot;Bot&quot;,&quot;isKiosk&quot;:false,&quot;key&quot;:&quot;u1&quot;,&quot;lastName&quot;:&quot;User&quot;,&quot;middleName&quot;:&quot;&quot;}</jitsi_participant_user-info>"));
    assert!(frame.contains("<SourceInfo>{&quot;abcd1234-a0&quot;:{&quot;muted&quot;:true},&quot;abcd1234-v0&quot;:{&quot;muted&quot;:true}}</SourceInfo>"));
}

#[test]
fn xmpp_handshake_runs_in_order() {
    let mut s = XmppSession::with_nick(profile(), "conf".to_owned(), "abcd1234".to_owned());
    assert_eq!(XmppSession::open_frame(), "<open to=\"meet.jitsi\" version=\"1.0\" xmlns=\"urn:ietf:params:xml:ns:xmpp-framing\"/>");
    assert!(s.on_tick().is_none());

    let out = s.on_frame("<stream:features><mechanisms><mechanism>ANONYMOUS</mechanism></mechanisms></stream:features>");
    assert_eq!(out, vec!["<auth mechanism=\"ANONYMOUS\" xmlns=\"urn:ietf:params:xml:ns:xmpp-sasl\"/>".to_owned()]);
    assert_eq!(s.state(), XmppState::WaitSuccess);

    let out = s.on_frame("<success xmlns=\"urn:ietf:params:xml:ns:xmpp-sasl\"/>");
    assert_eq!(out, vec![XmppSession::open_frame()]);
    assert_eq!(s.state(), XmppState::Bind);

    let out = s.on_frame("<stream:features><bind xmlns=\"urn:ietf:params:xml:ns:xmpp-bind\"/></stream:features>");
    assert_eq!(out.len(), 1);
    assert!(out[0].contains("id=\"bind_1\""));
    assert_eq!(s.state(), XmppState::EnableSm);

    let out = s.on_frame("<iq id=\"bind_1\" type=\"result\"><bind/></iq>");
    assert_eq!(out.len(), 2);
    assert_eq!(out[0], "<enable xmlns=\"urn:xmpp:sm:3\" resume=\"false\"/>");
    assert_eq!(out[1], join_presence("conf", "abcd1234", &profile()));
    assert_eq!(s.state(), XmppState::Joined);
    assert!(!s.joined());

    let out = s.on_frame("<presence from=\"conf@muc.meet.jitsi/abcd1234\"><nick>Bot</nick><status code='110'/></presence>");
    assert!(out.is_empty());
    assert!(s.joined());
    assert_eq!(s.participants().len(), 1);

    let ping = s.on_tick().unwrap();
    assert!(ping.starts_with("<iq id=\""));
    assert!(ping.ends_with(":sendIQ\" to=\"meet.jitsi\" type=\"get\" xmlns=\"jabber:client\"><ping xmlns=\"urn:xmpp:ping\"/></iq>"));
    assert_eq!(ping.len(), "<iq id=\"".len() + 36 + ":sendIQ\" to=\"meet.jitsi\" type=\"get\" xmlns=\"jabber:client\"><ping xmlns=\"urn:xmpp:ping\"/></iq>".len());
}

#[test]
fn xmpp_answers_pings_acks_and_focus() {
    let mut s = XmppSession::with_nick(profile(), "conf".to_owned(), "n1".to_owned());
    let out = s.on_frame("<iq id=\"ping7\" type=\"get\"><ping xmlns=\"urn:xmpp:ping\"/></iq>");
    assert_eq!(out, vec!["<iq type=\"result\" id=\"ping7\" xmlns=\"jabber:client\"/>".to_owned()]);

    let out = s.on_frame("<r xmlns='urn:xmpp:sm:3'/>");
    assert_eq!(out, vec!["<a xmlns='urn:xmpp:sm:3' h='1'/>".to_owned()]);

    let out = s.on_frame("<iq type=\"set\" id=\"f1\" from=\"conf@muc/focus\"/>");
    assert!(out.is_empty());

    for frame in [
        "ANONYMOUS",
        "success",
        "urn:ietf:params:xml:ns:xmpp-bind",
        "bind_1",
    ] {
        s.on_frame(frame);
    }
    assert_eq!(s.state(), XmppState::Joined);
    let out = s.on_frame("<iq type=\"set\" id=\"f2\" from=\"conf@muc/focus\"/>");
    assert_eq!(
        out,
        vec!["<iq type=\"result\" id=\"f2\" to=\"conf@muc/focus\" xmlns=\"jabber:client\"/>".to_owned()]
    );
    let out = s.on_frame("<iq type=\"set\" id=\"f3\" from=\"conf@muc/other\"/>");
    assert!(out.is_empty());
}

#[test]
fn participants_are_kept_once_per_occupant() {
    let mut s = XmppSession::with_nick(profile(), "conf".to_owned(), "n1".to_owned());
    s.on_frame("<presence from=\"r@m/a\"><nick>A</nick></presence>");
    s.on_frame("<presence from=\"r@m/b\"><nick>B</nick></presence>");
    s.on_frame("<presence from=\"r@m/a\"><nick>A2</nick></presence>");
    let (joined, participants) = s.into_outcome();
    assert!(!joined);
    let names: Vec<&str> = participants.iter().map(|p| p.display_name.as_str()).collect();
    assert_eq!(names, vec!["A", "B"]);
}

#[test]
fn random_nick_is_eight_hex_digits() {
    let s = XmppSession::new(profile(), "conf".to_owned());
    assert_eq!(s.state(), XmppState::Auth);
    let out_before = s.on_tick();
    assert!(out_before.is_none());
}

fn raw(room: &str) -> RawConferenceHistoryRecord {
    RawConferenceHistoryRecord {
        key: None,
        room_name: room.to_owned(),
        title: None,
        start_time: None,
        end_time: None,
        participants_count: None,
        artifacts: RawArtifacts::default(),
    }
}

#[test]
fn pager_reads_until_a_short_page() {
    let mut pager = HistoryPager::new("https://h", 5, 2);
    assert_eq!(pager.url(), "https://h/api/conferenceshistory");
    assert_eq!(pager.next_request(), PageStep::Fetch(PageRequest { skip: 0, top: 2 }));
    pager.accept_page(vec![raw("a"), raw("b")]);
    assert_eq!(pager.next_request(), PageStep::Fetch(PageRequest { skip: 2, top: 2 }));
    pager.accept_page(vec![raw("c")]);
    assert_eq!(pager.next_request(), PageStep::Finished);
    let rooms: Vec<String> = pager.into_records().into_iter().map(|r| r.room_name).collect();
    assert_eq!(rooms, vec!["a", "b", "c"]);
}

#[test]
fn pager_stops_on_empty_page_and_page_limit() {
    let mut pager = HistoryPager::new("https://h", 3, 1);
    pager.accept_page(vec![raw("a")]);
    pager.accept_page(vec![]);
    assert_eq!(pager.next_request(), PageStep::Finished);
    assert_eq!(pager.records().len(), 1);

    let mut pager = HistoryPager::new("https://h", 2, 1);
    pager.accept_page(vec![raw("a")]);
    assert_eq!(pager.next_request(), PageStep::Fetch(PageRequest { skip: 1, top: 1 }));
    pager.accept_page(vec![raw("b")]);
    assert_eq!(pager.next_request(), PageStep::Finished);

    let pager = HistoryPager::new("https://h", 0, 25);
    assert_eq!(pager.next_request(), PageStep::Finished);
}

#[test]
fn pager_accepts_any_page_limit() {
    let mut pager = HistoryPager::new("https://h", usize::MAX, 25);
    assert_eq!(pager.next_request(), PageStep::Fetch(PageRequest { skip: 0, top: 25 }));
    pager.accept_page(vec![raw("a")]);
    assert_eq!(pager.next_request(), PageStep::Finished);
    assert_eq!(pager.into_records().len(), 1);
}

#[test]
fn pager_query_parameters() {
    let q = HistoryPager::query(PageRequest { skip: 50, top: 25 });
    assert_eq!(
        q,
        vec![
            ("skip".to_owned(), "50".to_owned()),
            ("top".to_owned(), "25".to_owned()),
            ("includeUnfinished".to_owned(), "true".to_owned()),
        ]
    );
}

#[test]
fn history_result_flattens_record() {
    let record = ConferenceHistoryRecord {
        key: Some("k".to_owned()),
        room_name: "room".to_owned(),
        title: "T".to_owned(),
        start_time: None,
        end_time: None,
        participants_count: 2,
        participants: vec![
            Participant::Authenticated { display_name: "Alice".to_owned() },
            Participant::Anonymous { display_name: "Гость".to_owned() },
        ],
        recording: Some(Recording {
            recording_id: "r1".to_owned(),
            playback_url: "https://h/recordings/r1".to_owned(),
        }),
    };
    let result = HistoryRecordResult::from(record);
    assert_eq!(result.participants, vec!["Alice", "Гость"]);
    assert_eq!(result.participant_details[0].kind, "authenticated");
    assert_eq!(result.participant_details[1].kind, "anonymous");
    assert!(result.has_recording);
    assert_eq!(result.recording_id.as_deref(), Some("r1"));
    assert_eq!(result.recording_url.as_deref(), Some("https://h/recordings/r1"));
    assert_eq!(result.recording.unwrap().playback_url, "https://h/recordings/r1");
}

#[test]
fn join_report_and_result() {
    let report = join_outcome(
        RoomConnection { room_name: "room".to_owned(), conference_id: "c1".to_owned() },
        Ok(()),
        Ok((
            true,
            vec![ParticipantSnapshot {
                occupant_id: "o".to_owned(),
                display_name: "A".to_owned(),
                user_id: Some("u".to_owned()),
            }],
        )),
    )
    .unwrap();
    assert_eq!(report.room_name, "room");
    assert_eq!(report.conference_id, "c1");
    let result = JoinRoomResult::from(report);
    assert!(result.joined);
    assert_eq!(result.participants.len(), 1);
    assert_eq!(result.participants[0].user_id.as_deref(), Some("u"));
}

#[test]
fn system_error_wins_over_xmpp_error() {
    let room = || RoomConnection { room_name: "r".to_owned(), conference_id: "c".to_owned() };
    let r = join_outcome(
        room(),
        Err(KTalkError::WebSocket("sys".to_owned())),
        Err(KTalkError::Protocol("x".to_owned())),
    );
    assert_eq!(r.unwrap_err().to_string(), "websocket failed: sys");
    let r = join_outcome(room(), Ok(()), Err(KTalkError::Protocol("x".to_owned())));
    assert_eq!(r.unwrap_err().to_string(), "protocol error: x");
}

#[test]
fn loop_steps() {
    assert!(matches!(system_loop_step(LoopEvent::Tick { past_deadline: true }), LoopAction::Stop));
    assert!(matches!(system_loop_step(LoopEvent::Tick { past_deadline: false }), LoopAction::SendKeepalive));
    assert!(matches!(system_loop_step(LoopEvent::Frame { past_deadline: true }), LoopAction::Continue));
    assert!(matches!(system_loop_step(LoopEvent::Closed), LoopAction::Stop));
    assert!(matches!(
        system_loop_step(LoopEvent::Failed(KTalkError::WebSocket("e".to_owned()))),
        LoopAction::Fail(KTalkError::WebSocket(_))
    ));
    assert!(matches!(xmpp_loop_step(LoopEvent::Frame { past_deadline: true }), LoopAction::Stop));
    assert!(matches!(xmpp_loop_step(LoopEvent::Frame { past_deadline: false }), LoopAction::Continue));
    assert!(matches!(xmpp_loop_step(LoopEvent::Tick { past_deadline: false }), LoopAction::SendKeepalive));
}

#[test]
fn audio_publishing_is_unsupported() {
    let e = play_audio_on_mic("https://h/r", "a.wav", 15).unwrap_err();
    assert!(matches!(e, KTalkError::UnsupportedAudioPublishing));
}

#[test]
fn handshake_frames_go_out_once_each() {
    let mut s = XmppSession::with_nick(profile(), "conf".to_owned(), "n1".to_owned());
    let mut sent = Vec::new();
    for frame in ["success", "ANONYMOUS", "ANONYMOUS", "bind_1", "success", "success"] {
        sent.extend(s.on_frame(frame));
    }
    assert_eq!(
        sent,
        vec![
            "<auth mechanism=\"ANONYMOUS\" xmlns=\"urn:ietf:params:xml:ns:xmpp-sasl\"/>".to_owned(),
            XmppSession::open_frame(),
        ]
    );
    assert_eq!(s.state(), XmppState::Bind);
    assert!(s.on_tick().is_none());
}

#[test]
fn ids_are_uuid_prefixes() {
    let uuid = "0123456789abcdef0123456789abcdef";
    assert_eq!(request_id_of(uuid), "0123456789");
    assert_eq!(nick_of(uuid), "01234567");
    let nick = new_nick();
    assert_eq!(nick.len(), 8);
    assert!(is_hex(&nick));
}

#[test]
fn sign_in_waits_for_the_session_id() {
    assert!(matches!(sign_in_step(SignInEvent::Other), SignInAction::Wait));
    assert!(matches!(
        sign_in_step(SignInEvent::Text(r#"{"data":{}}"#.to_owned())),
        SignInAction::Wait
    ));
    match sign_in_step(SignInEvent::Text(r#"{"data":{"sessionId":"s9"}}"#.to_owned())) {
        SignInAction::SignedIn(id) => assert_eq!(id, "s9"),
        other => panic!("unexpected {other:?}"),
    }
    match sign_in_step(SignInEvent::Text("oops".to_owned())) {
        SignInAction::Fail(KTalkError::Json(message)) => {
            let expected = serde_json::from_str::<serde_json::Value>("oops").unwrap_err().to_string();
            assert_eq!(message, expected);
        }
        other => panic!("unexpected {other:?}"),
    }
    match sign_in_step(SignInEvent::Closed) {
        SignInAction::Fail(e) => assert_eq!(e.to_string(), missing_session_id().to_string()),
        other => panic!("unexpected {other:?}"),
    }
}
