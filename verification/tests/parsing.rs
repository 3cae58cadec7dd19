use ktalk_bot::domain::history::Participant;
use ktalk_bot::infrastructure::http::dto::{
    RawArtifacts, RawConferenceHistoryRecord, RawContentItem, RawParticipant, RawUserInfo,
};
use ktalk_bot::infrastructure::parsing::history_mapper::{map_history_record, map_participant};
use ktalk_bot::infrastructure::parsing::xmpp::{decode_entities_str, decode_user_id, parse_participant_presence};

fn named(first: Option<&str>, last: Option<&str>) -> RawParticipant {
    RawParticipant {
        is_anonymous: false,
        anonymous_name: None,
        user_info: RawUserInfo {
            firstname: first.map(str::to_owned),
            surname: last.map(str::to_owned),
        },
    }
}

fn anonymous(name: Option<&str>) -> RawParticipant {
    RawParticipant {
        is_anonymous: true,
        anonymous_name: name.map(str::to_owned),
        user_info: RawUserInfo::default(),
    }
}

fn item(kind: Option<&str>, id: Option<&str>) -> RawContentItem {
    RawContentItem {
        kind: kind.map(str::to_owned),
        id: id.map(str::to_owned),
    }
}

#[test]
fn maps_recordings_and_participants_from_raw_payload() {
    let raw = RawConferenceHistoryRecord {
        key: Some("conf-1".to_owned()),
        room_name: "seminar-room".to_owned(),
        title: Some("Demo Seminar".to_owned()),
        start_time: Some("2026-04-17T09:00:00Z".to_owned()),
        end_time: Some("2026-04-17T10:00:00Z".to_owned()),
        participants_count: Some(3),
        artifacts: RawArtifacts {
            participants: vec![
                named(Some("Alice"), Some("Smith")),
                anonymous(Some("Гость")),
                named(None, None),
            ],
            content: vec![item(Some("record"), Some("recording-42"))],
        },
    };

    let record = map_history_record(raw, "https://centraluniversity.ktalk.ru");

    assert_eq!(record.room_name, "seminar-room");
    assert_eq!(record.title, "Demo Seminar");
    assert_eq!(record.participants_count, 3);
    assert_eq!(
        record
            .participants
            .iter()
            .map(|participant| participant.display_name().to_owned())
            .collect::<Vec<_>>(),
        vec!["Alice Smith".to_owned(), "Гость".to_owned()]
    );
    assert_eq!(
        record.recording.unwrap().playback_url,
        "https://centraluniversity.ktalk.ru/recordings/recording-42"
    );
}

#[test]
fn falls_back_to_default_title_when_missing() {
    let raw = RawConferenceHistoryRecord {
        key: Some("k1".to_owned()),
        room_name: "room".to_owned(),
        title: None,
        start_time: None,
        end_time: None,
        participants_count: Some(0),
        artifacts: RawArtifacts {
            participants: vec![],
            content: vec![],
        },
    };

    let record = map_history_record(raw, "https://centraluniversity.ktalk.ru");
    assert_eq!(record.title, "Без названия");
}

#[test]
fn missing_count_and_recording_default() {
    let raw = RawConferenceHistoryRecord {
        key: None,
        room_name: "room".to_owned(),
        title: Some("T".to_owned()),
        start_time: None,
        end_time: Some("end".to_owned()),
        participants_count: None,
        artifacts: RawArtifacts::default(),
    };
    let record = map_history_record(raw, "https://h");
    assert_eq!(record.participants_count, 0);
    assert!(record.recording.is_none());
    assert!(record.key.is_none());
    assert_eq!(record.end_time.as_deref(), Some("end"));
}

#[test]
fn recording_is_the_first_record_item_only() {
    let raw = RawConferenceHistoryRecord {
        key: None,
        room_name: "room".to_owned(),
        title: None,
        start_time: None,
        end_time: None,
        participants_count: None,
        artifacts: RawArtifacts {
            participants: vec![],
            content: vec![
                item(Some("chat"), Some("c1")),
                item(Some("record"), None),
                item(Some("record"), Some("r2")),
            ],
        },
    };
    let record = map_history_record(raw, "https://h");
    assert!(record.recording.is_none());

    let raw = RawConferenceHistoryRecord {
        key: None,
        room_name: "room".to_owned(),
        title: None,
        start_time: None,
        end_time: None,
        participants_count: None,
        artifacts: RawArtifacts {
            participants: vec![],
            content: vec![item(None, Some("x")), item(Some("record"), Some("r2"))],
        },
    };
    let record = map_history_record(raw, "https://h");
    let recording = record.recording.unwrap();
    assert_eq!(recording.recording_id, "r2");
    assert_eq!(recording.playback_url, "https://h/recordings/r2");
}

#[test]
fn participants_are_named_and_blank_names_dropped() {
    match map_participant(&named(Some("Alice"), None)).unwrap() {
        Participant::Authenticated { display_name } => assert_eq!(display_name, "Alice"),
        other => panic!("unexpected {other:?}"),
    }
    match map_participant(&named(None, Some("Smith"))).unwrap() {
        Participant::Authenticated { display_name } => assert_eq!(display_name, "Smith"),
        other => panic!("unexpected {other:?}"),
    }
    assert!(map_participant(&named(Some("  "), Some(""))).is_none());
    match map_participant(&anonymous(None)).unwrap() {
        Participant::Anonymous { display_name } => assert_eq!(display_name, "Гость"),
        other => panic!("unexpected {other:?}"),
    }
    match map_participant(&anonymous(Some(""))).unwrap() {
        Participant::Anonymous { display_name } => assert_eq!(display_name, ""),
        other => panic!("unexpected {other:?}"),
    }
}

#[test]
fn parses_presence_snapshot() {
    let text = "<presence from=\"room@muc.meet.jitsi/abc123\"><nick xmlns=\"http://jabber.org/protocol/nick\">Alice</nick><jitsi_participant_user-info>{&quot;key&quot;:&quot;user-1&quot;}</jitsi_participant_user-info></presence>";
    let snapshot = parse_participant_presence(text).unwrap();
    assert_eq!(snapshot.occupant_id, "abc123");
    assert_eq!(snapshot.display_name, "Alice");
    assert_eq!(snapshot.user_id.as_deref(), Some("user-1"));
}

#[test]
fn presence_without_nick_is_named_by_occupant() {
    let text = "<presence from=\"room@muc.meet.jitsi/occ9\"/>";
    let snapshot = parse_participant_presence(text).unwrap();
    assert_eq!(snapshot.occupant_id, "occ9");
    assert_eq!(snapshot.display_name, "occ9");
    assert_eq!(snapshot.user_id, None);
}

#[test]
fn presence_with_plain_nick() {
    let text = "<presence from=\"r@m/o1\"><nick>Bob</nick><jitsi_participant_user-info>not json</jitsi_participant_user-info></presence>";
    let snapshot = parse_participant_presence(text).unwrap();
    assert_eq!(snapshot.display_name, "Bob");
    assert_eq!(snapshot.user_id, None);
}

#[test]
fn non_presence_frames_are_ignored() {
    assert!(parse_participant_presence("<iq from=\"a/b\"/>").is_none());
    assert!(parse_participant_presence("<presence type=\"unavailable\"/>").is_none());
}

#[test]
fn entities_are_decoded_in_order() {
    assert_eq!(decode_entities_str("&quot;a&quot;&apos;&amp;b"), "\"a\"'&b");
    assert_eq!(decode_entities_str("&amp;quot;"), "&quot;");
}

#[test]
fn user_id_reads_the_key_member() {
    assert_eq!(decode_user_id("{&quot;key&quot;:&quot;u-7&quot;}").as_deref(), Some("u-7"));
    assert_eq!(decode_user_id("{&quot;key&quot;:7}"), None);
    assert_eq!(decode_user_id("[1]"), None);
    assert_eq!(decode_user_id("{"), None);
}
