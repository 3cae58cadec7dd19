use ktalk_bot::application::history::FetchConferenceHistoryInput;
use ktalk_bot::application::room_binding::RoomBinding;
use ktalk_bot::domain::auth::SessionToken;
use ktalk_bot::domain::room::{RoomLink, RoomShortName};
use ktalk_bot::infrastructure::config::token_loader::{ReadFailure, TokenLoader};
use ktalk_bot::error::{NodeErrorStatus, PythonExceptionKind};
use ktalk_bot::KTalkError;

#[test]
fn strips_session_prefix() {
    let token = SessionToken::parse("Session abc123").unwrap();
    assert_eq!(token.as_str(), "abc123");
}

#[test]
fn rejects_empty_token() {
    let error = SessionToken::parse("  ").unwrap_err();
    assert_eq!(error.to_string(), "authentication token is empty");
}

#[test]
fn extracts_short_name_from_room_link() {
    let room = RoomLink::parse("https://centraluniversity.ktalk.ru/ewwv291ipuud").unwrap();
    assert_eq!(room.short_name().unwrap().as_str(), "ewwv291ipuud");
}

#[test]
fn token_parsing_trims_around_and_after_the_scheme() {
    let token = SessionToken::parse("  \tSession   abc123 \n").unwrap();
    assert_eq!(token.as_str(), "abc123");
    let bare = SessionToken::parse("\u{3000}xyz\u{a0}").unwrap();
    assert_eq!(bare.as_str(), "xyz");
}

#[test]
fn token_without_scheme_is_kept() {
    let token = SessionToken::parse("Sessionabc").unwrap();
    assert_eq!(token.as_str(), "Sessionabc");
}

#[test]
fn scheme_alone_is_trimmed_before_it_is_stripped() {
    let token = SessionToken::parse("Session ").unwrap();
    assert_eq!(token.as_str(), "Session");
    let error = SessionToken::parse("Session  \t ").unwrap();
    assert_eq!(error.as_str(), "Session");
    let error = SessionToken::parse(" \n ").unwrap_err();
    assert!(matches!(error, KTalkError::EmptyAuthToken));
}

#[test]
fn authorization_header_round_trips() {
    let token = SessionToken::parse("abc123").unwrap();
    let header = token.as_authorization_header();
    assert_eq!(header, "Session abc123");
    assert_eq!(SessionToken::parse(&header).unwrap().as_str(), "abc123");
}

#[test]
fn short_name_ignores_trailing_slashes_and_whitespace() {
    let room = RoomLink::parse("  https://host.example/rooms/abc//  ").unwrap();
    assert_eq!(room.as_str(), "https://host.example/rooms/abc//");
    assert_eq!(room.short_name().unwrap().as_str(), "abc");
}

#[test]
fn link_made_of_slashes_has_no_short_name() {
    let room = RoomLink::parse("///").unwrap();
    let error = room.short_name().unwrap_err();
    assert_eq!(error.to_string(), "invalid room link: ///");
}

#[test]
fn blank_room_link_is_refused() {
    let error = RoomLink::parse("   ").unwrap_err();
    assert_eq!(error.to_string(), "invalid room link:    ");
}

#[test]
fn short_name_segment_with_only_spaces_is_refused() {
    let room = RoomLink::parse("https://host/  /").unwrap();
    let error = room.short_name().unwrap_err();
    assert_eq!(error.to_string(), "invalid room link:   ");
}

#[test]
fn room_short_name_trims() {
    assert_eq!(RoomShortName::new(" name ").unwrap().as_str(), "name");
    assert!(RoomShortName::new("").is_err());
}

#[test]
fn reparsing_a_room_link_keeps_it() {
    let room = RoomLink::parse(" https://host/abc ").unwrap();
    let again = RoomLink::parse(room.as_str()).unwrap();
    assert_eq!(again.as_str(), room.as_str());
}

#[test]
fn error_messages() {
    let e = KTalkError::AuthFileNotFound { path: "a.txt".to_owned() };
    assert_eq!(e.to_string(), "authentication file not found: a.txt");
    assert_eq!(KTalkError::Http("x".to_owned()).to_string(), "http request failed: x");
    assert_eq!(KTalkError::Json("y".to_owned()).to_string(), "json parsing failed: y");
    assert_eq!(KTalkError::Io("z".to_owned()).to_string(), "io operation failed: z");
    assert_eq!(
        KTalkError::Protocol("p".to_owned()).to_string(),
        "protocol error: p"
    );
}

#[test]
fn token_loader_maps_read_outcomes() {
    let loader = TokenLoader;
    let token = loader.load_from("f.txt", Ok("Session abc123".to_owned())).unwrap();
    assert_eq!(token.as_str(), "abc123");
    let missing = loader.load_from("f.txt", Err(ReadFailure::NotFound)).unwrap_err();
    assert_eq!(missing.to_string(), "authentication file not found: f.txt");
    let other = loader
        .load_from("f.txt", Err(ReadFailure::Other("denied".to_owned())))
        .unwrap_err();
    assert_eq!(other.to_string(), "io operation failed: denied");
    let empty = loader.load_from("f.txt", Ok("\n".to_owned())).unwrap_err();
    assert!(matches!(empty, KTalkError::EmptyAuthToken));
}

#[test]
fn default_history_input() {
    let input = FetchConferenceHistoryInput::default();
    assert_eq!(input.auth_file, "ktalk_auth.txt");
    assert_eq!(input.max_pages, 10);
    assert_eq!(input.page_size, 25);
}

#[test]
fn bound_room_is_used_when_no_link_is_given() {
    let mut binding = RoomBinding::new(None);
    let error = binding.resolve_room_link(None).unwrap_err();
    assert_eq!(
        error.to_string(),
        "invalid room link: room link is required; pass link explicitly or call bind_room() first"
    );
    binding.bind_room("https://host/abc".to_owned()).unwrap();
    assert_eq!(binding.current_room().as_deref(), Some("https://host/abc"));
    assert_eq!(binding.resolve_room_link(None).unwrap(), "https://host/abc");
}

#[test]
fn named_link_rebinds_and_invalid_link_keeps_binding() {
    let mut binding = RoomBinding::new(Some("https://host/a".to_owned()));
    assert_eq!(
        binding.resolve_room_link(Some("https://host/b".to_owned())).unwrap(),
        "https://host/b"
    );
    assert_eq!(binding.current_room().as_deref(), Some("https://host/b"));
    assert!(binding.resolve_room_link(Some("  ".to_owned())).is_err());
    assert!(binding.bind_room(" ".to_owned()).is_err());
    assert_eq!(binding.current_room().as_deref(), Some("https://host/b"));
}

#[test]
fn error_kinds_for_bindings() {
    let io = KTalkError::AuthFileNotFound { path: "p".to_owned() };
    assert_eq!(io.python_exception_kind(), PythonExceptionKind::IoError);
    assert_eq!(io.node_status(), NodeErrorStatus::GenericFailure);
    assert_eq!(KTalkError::EmptyAuthToken.python_exception_kind(), PythonExceptionKind::ValueError);
    assert_eq!(KTalkError::EmptyAuthToken.node_status(), NodeErrorStatus::InvalidArg);
    let bad = KTalkError::InvalidRoomLink("x".to_owned());
    assert_eq!(bad.python_exception_kind(), PythonExceptionKind::ValueError);
    assert_eq!(bad.node_status(), NodeErrorStatus::InvalidArg);
    assert_eq!(KTalkError::Json("j".to_owned()).python_exception_kind(), PythonExceptionKind::RuntimeError);
    assert_eq!(
        KTalkError::UnsupportedAudioPublishing.python_exception_kind(),
        PythonExceptionKind::NotImplementedError
    );
    assert_eq!(KTalkError::UnsupportedAudioPublishing.node_status(), NodeErrorStatus::GenericFailure);
}
