//! Flat result records handed to script bindings.
use vstd::prelude::*;

use crate::domain::bot::{JoinRoomReport, ParticipantSnapshot, ParticipantSnapshotView, UserProfile};
use crate::domain::history::{
    ConferenceHistoryRecord, ConferenceHistoryRecordView, Participant, ParticipantView, Recording,
    RecordingView,
};

verus! {

#[derive(Debug, Clone)]
pub struct UserProfileResult {
    pub user_id: String,
    pub first_name: String,
    pub last_name: String,
}

#[derive(Debug, Clone)]
pub struct ParticipantDetailResult {
    pub kind: String,
    pub display_name: String,
}

#[derive(Debug, Clone)]
pub struct RecordingResult {
    pub recording_id: String,
    pub playback_url: String,
}

#[derive(Debug, Clone)]
pub struct HistoryRecordResult {
    pub key: Option<String>,
    pub room_name: String,
    pub title: String,
    pub start_time: Option<String>,
    pub end_time: Option<String>,
    pub participants_count: u32,
    pub participants: Vec<String>,
    pub participant_details: Vec<ParticipantDetailResult>,
    pub has_recording: bool,
    pub recording_id: Option<String>,
    pub recording_url: Option<String>,
    pub recording: Option<RecordingResult>,
}

#[derive(Debug, Clone)]
pub struct ParticipantSnapshotResult {
    pub occupant_id: String,
    pub display_name: String,
    pub user_id: Option<String>,
}

#[derive(Debug, Clone)]
pub struct JoinRoomResult {
    pub room_name: String,
    pub conference_id: String,
    pub joined: bool,
    pub participants: Vec<ParticipantSnapshotResult>,
}

/// The model of a participant detail: its kind word and name.
pub struct ParticipantDetailView {
    pub kind: Seq<char>,
    pub display_name: Seq<char>,
}

impl DeepView for ParticipantDetailResult {
    type V = ParticipantDetailView;

    open spec fn deep_view(&self) -> ParticipantDetailView {
        ParticipantDetailView { kind: self.kind@, display_name: self.display_name@ }
    }
}

impl DeepView for ParticipantSnapshotResult {
    type V = ParticipantSnapshotView;

    open spec fn deep_view(&self) -> ParticipantSnapshotView {
        ParticipantSnapshotView {
            occupant_id: self.occupant_id@,
            display_name: self.display_name@,
            user_id: self.user_id.deep_view(),
        }
    }
}

/// The detail of a participant: `authenticated` or `anonymous`, and the
/// name.
pub open spec fn participant_detail(p: ParticipantView) -> ParticipantDetailView {
    match p {
        ParticipantView::Authenticated { display_name } => ParticipantDetailView {
            kind: "authenticated"@,
            display_name,
        },
        ParticipantView::Anonymous { display_name } => ParticipantDetailView {
            kind: "anonymous"@,
            display_name,
        },
    }
}

/// The fields of a history result that are not copied as they are.
pub open spec fn history_result_lists(r: ConferenceHistoryRecordView) -> (
    Seq<Seq<char>>,
    Seq<ParticipantDetailView>,
) {
    (
        r.participants.map_values(|p: ParticipantView| p.display_name()),
        r.participants.map_values(|p: ParticipantView| participant_detail(p)),
    )
}

/// The id of an optional recording.
pub open spec fn recording_id_of(r: Option<RecordingView>) -> Option<Seq<char>> {
    match r {
        Some(v) => Some(v.recording_id),
        None => None,
    }
}

/// The playback address of an optional recording.
pub open spec fn recording_url_of(r: Option<RecordingView>) -> Option<Seq<char>> {
    match r {
        Some(v) => Some(v.playback_url),
        None => None,
    }
}

impl UserProfileResult {
    pub fn from(value: UserProfile) -> (r: UserProfileResult)
        ensures
            r.user_id@ == value.user_id@,
            r.first_name@ == value.first_name@,
            r.last_name@ == value.last_name@,
    {
        UserProfileResult {
            user_id: value.user_id,
            first_name: value.first_name,
            last_name: value.last_name,
        }
    }
}

impl ParticipantSnapshotResult {
    pub fn from(value: ParticipantSnapshot) -> (r: ParticipantSnapshotResult)
        ensures
            r.deep_view() == value@,
    {
        ParticipantSnapshotResult {
            occupant_id: value.occupant_id,
            display_name: value.display_name,
            user_id: value.user_id,
        }
    }
}

impl RecordingResult {
    pub fn from(value: Recording) -> (r: RecordingResult)
        ensures
            r.recording_id@ == value.recording_id@,
            r.playback_url@ == value.playback_url@,
    {
        RecordingResult { recording_id: value.recording_id, playback_url: value.playback_url }
    }
}

impl ParticipantDetailResult {
    pub fn from(value: Participant) -> (r: ParticipantDetailResult)
        ensures
            r.deep_view() == participant_detail(value@),
    {
        match value {
            Participant::Authenticated { display_name } => ParticipantDetailResult {
                kind: "authenticated".to_owned(),
                display_name,
            },
            Participant::Anonymous { display_name } => ParticipantDetailResult {
                kind: "anonymous".to_owned(),
                display_name,
            },
        }
    }
}

impl JoinRoomResult {
    pub fn from(value: JoinRoomReport) -> (r: JoinRoomResult)
        ensures
            r.room_name@ == value.room_name@,
            r.conference_id@ == value.conference_id@,
            r.joined == value.joined,
            r.participants.deep_view() == value.participants.deep_view(),
    {
        let mut participants: Vec<ParticipantSnapshotResult> = Vec::new();
        let mut i: usize = 0;
        while i < value.participants.len()
            invariant
                i <= value.participants.len(),
                participants.deep_view() == value.participants.deep_view().take(i as int),
            decreases value.participants.len() - i,
        {
            let p = &value.participants[i];
            let user_id = match &p.user_id {
                Some(u) => Some(u.clone()),
                None => None,
            };
            let item = ParticipantSnapshotResult {
                occupant_id: p.occupant_id.clone(),
                display_name: p.display_name.clone(),
                user_id,
            };
            let ghost prev = participants.deep_view();
            let ghost iv = item.deep_view();
            participants.push(item);
            assert(participants.deep_view() =~= prev.push(iv));
            assert(value.participants.deep_view().take(i + 1) =~= value.participants.deep_view().take(
                i as int,
            ).push(value.participants.deep_view()[i as int]));
            i = i + 1;
        }
        assert(value.participants.deep_view().take(value.participants.len() as int)
            =~= value.participants.deep_view());
        JoinRoomResult {
            room_name: value.room_name,
            conference_id: value.conference_id,
            joined: value.joined,
            participants,
        }
    }
}

impl HistoryRecordResult {
    /// Flattens a history record: the participants' names and details, and
    /// the recording both as a record and as separate fields.
    pub fn from(value: ConferenceHistoryRecord) -> (r: HistoryRecordResult)
        ensures
            r.key.deep_view() == value@.key,
            r.room_name@ == value@.room_name,
            r.title@ == value@.title,
            r.start_time.deep_view() == value@.start_time,
            r.end_time.deep_view() == value@.end_time,
            r.participants_count == value@.participants_count,
            r.participants.deep_view() == history_result_lists(value@).0,
            r.participant_details.deep_view() == history_result_lists(value@).1,
            r.has_recording == value@.recording is Some,
            r.recording_id.deep_view() == recording_id_of(value@.recording),
            r.recording_url.deep_view() == recording_url_of(value@.recording),
            match r.recording {
                Some(rec) => value@.recording matches Some(v) && rec.recording_id@
                    == v.recording_id && rec.playback_url@ == v.playback_url,
                None => value@.recording is None,
            },
    {
        let ghost pv = value.participants.deep_view();
        let mut names: Vec<String> = Vec::new();
        let mut details: Vec<ParticipantDetailResult> = Vec::new();
        let mut i: usize = 0;
        while i < value.participants.len()
            invariant
                i <= value.participants.len(),
                pv == value.participants.deep_view(),
                names.deep_view() == pv.take(i as int).map_values(
                    |p: ParticipantView| p.display_name(),
                ),
                details.deep_view() == pv.take(i as int).map_values(
                    |p: ParticipantView| participant_detail(p),
                ),
            decreases value.participants.len() - i,
        {
            let p = &value.participants[i];
            let name = p.display_name().to_owned();
            let detail = ParticipantDetailResult::from(p.clone());
            let ghost prev_names = names.deep_view();
            let ghost prev_details = details.deep_view();
            let ghost nv = name@;
            let ghost dv = detail.deep_view();
            names.push(name);
            details.push(detail);
            assert(names.deep_view() =~= prev_names.push(nv));
            assert(details.deep_view() =~= prev_details.push(dv));
            assert(pv.take(i + 1) =~= pv.take(i as int).push(pv[i as int]));
            assert(pv.take(i + 1).map_values(|p: ParticipantView| p.display_name())
                =~= pv.take(i as int).map_values(|p: ParticipantView| p.display_name()).push(nv));
            assert(pv.take(i + 1).map_values(|p: ParticipantView| participant_detail(p))
                =~= pv.take(i as int).map_values(|p: ParticipantView| participant_detail(p)).push(dv));
            i = i + 1;
        }
        assert(pv.take(pv.len() as int) =~= pv);
        let (has_recording, recording_id, recording_url, recording) = match value.recording {
            Some(rec) => {
                let id = rec.recording_id.clone();
                let url = rec.playback_url.clone();
                (true, Some(id), Some(url), Some(RecordingResult::from(rec)))
            },
            None => (false, None, None, None),
        };
        HistoryRecordResult {
            key: value.key,
            room_name: value.room_name,
            title: value.title,
            start_time: value.start_time,
            end_time: value.end_time,
            participants_count: value.participants_count,
            participants: names,
            participant_details: details,
            has_recording,
            recording_id,
            recording_url,
            recording,
        }
    }
}

} // verus!
