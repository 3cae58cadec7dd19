//! What a bot learns and reports while it is in a room.
use vstd::prelude::*;

verus! {

/// The signed-in user.
#[derive(Debug, Clone, PartialEq, Eq)]
pub struct UserProfile {
    pub user_id: String,
    pub first_name: String,
    pub last_name: String,
}

/// A room and the conference that currently runs in it.
#[derive(Debug, Clone, PartialEq, Eq)]
pub struct RoomConnection {
    pub room_name: String,
    pub conference_id: String,
}

/// A participant seen in a room's presence stream.
#[derive(Debug, Clone, PartialEq, Eq)]
pub struct ParticipantSnapshot {
    pub occupant_id: String,
    pub display_name: String,
    pub user_id: Option<String>,
}

/// The outcome of a stay in a room.
#[derive(Debug, Clone, PartialEq, Eq)]
pub struct JoinRoomReport {
    pub room_name: String,
    pub conference_id: String,
    pub joined: bool,
    pub participants: Vec<ParticipantSnapshot>,
}

pub struct UserProfileView {
    pub user_id: Seq<char>,
    pub first_name: Seq<char>,
    pub last_name: Seq<char>,
}

pub struct ParticipantSnapshotView {
    pub occupant_id: Seq<char>,
    pub display_name: Seq<char>,
    pub user_id: Option<Seq<char>>,
}

pub struct JoinRoomReportView {
    pub room_name: Seq<char>,
    pub conference_id: Seq<char>,
    pub joined: bool,
    pub participants: Seq<ParticipantSnapshotView>,
}

impl View for UserProfile {
    type V = UserProfileView;

    open spec fn view(&self) -> UserProfileView {
        UserProfileView {
            user_id: self.user_id@,
            first_name: self.first_name@,
            last_name: self.last_name@,
        }
    }
}

impl DeepView for ParticipantSnapshot {
    type V = ParticipantSnapshotView;

    open spec fn deep_view(&self) -> ParticipantSnapshotView {
        ParticipantSnapshotView {
            occupant_id: self.occupant_id@,
            display_name: self.display_name@,
            user_id: self.user_id.deep_view(),
        }
    }
}

impl View for ParticipantSnapshot {
    type V = ParticipantSnapshotView;

    open spec fn view(&self) -> ParticipantSnapshotView {
        self.deep_view()
    }
}

impl View for JoinRoomReport {
    type V = JoinRoomReportView;

    open spec fn view(&self) -> JoinRoomReportView {
        JoinRoomReportView {
            room_name: self.room_name@,
            conference_id: self.conference_id@,
            joined: self.joined,
            participants: self.participants.deep_view(),
        }
    }
}

} // verus!
