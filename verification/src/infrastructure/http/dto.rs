//! The shapes of KTalk's HTTP responses, as plain values.
//!
//! Decoding JSON into these types happens where the HTTP calls are made; the
//! library works on the decoded values.
use vstd::prelude::*;

verus! {

/// `GET /api/conferenceshistory`.
#[derive(Debug, Clone, Default)]
pub struct ConferenceHistoryResponse {
    pub conferences: Vec<RawConferenceHistoryRecord>,
}

#[derive(Debug, Clone)]
pub struct RawConferenceHistoryRecord {
    pub key: Option<String>,
    pub room_name: String,
    pub title: Option<String>,
    pub start_time: Option<String>,
    pub end_time: Option<String>,
    pub participants_count: Option<u32>,
    pub artifacts: RawArtifacts,
}

#[derive(Debug, Clone, Default)]
pub struct RawArtifacts {
    pub participants: Vec<RawParticipant>,
    pub content: Vec<RawContentItem>,
}

#[derive(Debug, Clone, Default)]
pub struct RawParticipant {
    pub is_anonymous: bool,
    pub anonymous_name: Option<String>,
    pub user_info: RawUserInfo,
}

#[derive(Debug, Clone, Default)]
pub struct RawUserInfo {
    pub firstname: Option<String>,
    pub surname: Option<String>,
}

#[derive(Debug, Clone, Default)]
pub struct RawContentItem {
    pub kind: Option<String>,
    pub id: Option<String>,
}

/// The session context of the signed-in user.
#[derive(Debug, Clone)]
pub struct ContextResponse {
    pub user: RawContextUser,
}

#[derive(Debug, Clone)]
pub struct RawContextUser {
    pub id: Option<String>,
    pub login: Option<String>,
    pub firstname: Option<String>,
    pub surname: Option<String>,
}

/// A room lookup.
#[derive(Debug, Clone)]
pub struct RoomResponse {
    pub conference_id: String,
}

} // verus!
