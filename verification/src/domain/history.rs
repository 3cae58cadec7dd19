//! Conference history records.
use vstd::prelude::*;

verus! {

/// One past (or running) conference.
#[derive(Debug, Clone, PartialEq, Eq)]
pub struct ConferenceHistoryRecord {
    pub key: Option<String>,
    pub room_name: String,
    pub title: String,
    pub start_time: Option<String>,
    pub end_time: Option<String>,
    pub participants_count: u32,
    pub participants: Vec<Participant>,
    pub recording: Option<Recording>,
}

/// Someone who took part in a conference.
#[derive(Debug, PartialEq, Eq)]
pub enum Participant {
    Authenticated { display_name: String },
    Anonymous { display_name: String },
}

/// The recording of a conference.
#[derive(Debug, Clone, PartialEq, Eq)]
pub struct Recording {
    pub recording_id: String,
    pub playback_url: String,
}

pub enum ParticipantView {
    Authenticated { display_name: Seq<char> },
    Anonymous { display_name: Seq<char> },
}

pub struct RecordingView {
    pub recording_id: Seq<char>,
    pub playback_url: Seq<char>,
}

pub struct ConferenceHistoryRecordView {
    pub key: Option<Seq<char>>,
    pub room_name: Seq<char>,
    pub title: Seq<char>,
    pub start_time: Option<Seq<char>>,
    pub end_time: Option<Seq<char>>,
    pub participants_count: u32,
    pub participants: Seq<ParticipantView>,
    pub recording: Option<RecordingView>,
}

impl ParticipantView {
    pub open spec fn display_name(self) -> Seq<char> {
        match self {
            ParticipantView::Authenticated { display_name } => display_name,
            ParticipantView::Anonymous { display_name } => display_name,
        }
    }
}

impl DeepView for Participant {
    type V = ParticipantView;

    open spec fn deep_view(&self) -> ParticipantView {
        match self {
            Participant::Authenticated { display_name } => ParticipantView::Authenticated {
                display_name: display_name@,
            },
            Participant::Anonymous { display_name } => ParticipantView::Anonymous {
                display_name: display_name@,
            },
        }
    }
}

impl View for Participant {
    type V = ParticipantView;

    open spec fn view(&self) -> ParticipantView {
        self.deep_view()
    }
}

impl DeepView for Recording {
    type V = RecordingView;

    open spec fn deep_view(&self) -> RecordingView {
        RecordingView { recording_id: self.recording_id@, playback_url: self.playback_url@ }
    }
}

impl View for Recording {
    type V = RecordingView;

    open spec fn view(&self) -> RecordingView {
        self.deep_view()
    }
}

impl DeepView for ConferenceHistoryRecord {
    type V = ConferenceHistoryRecordView;

    open spec fn deep_view(&self) -> ConferenceHistoryRecordView {
        ConferenceHistoryRecordView {
            key: self.key.deep_view(),
            room_name: self.room_name@,
            title: self.title@,
            start_time: self.start_time.deep_view(),
            end_time: self.end_time.deep_view(),
            participants_count: self.participants_count,
            participants: self.participants.deep_view(),
            recording: self.recording.deep_view(),
        }
    }
}

impl View for ConferenceHistoryRecord {
    type V = ConferenceHistoryRecordView;

    open spec fn view(&self) -> ConferenceHistoryRecordView {
        self.deep_view()
    }
}

impl Clone for Participant {
    fn clone(&self) -> (r: Self)
        ensures
            r@ == self@,
    {
        match self {
            Participant::Authenticated { display_name } => Participant::Authenticated {
                display_name: display_name.clone(),
            },
            Participant::Anonymous { display_name } => Participant::Anonymous {
                display_name: display_name.clone(),
            },
        }
    }
}

impl Participant {
    /// The name under which the participant is shown, whatever their kind.
    pub fn display_name(&self) -> (s: &str)
        ensures
            s@ == self@.display_name(),
    {
        match self {
            Participant::Authenticated { display_name } => display_name.as_str(),
            Participant::Anonymous { display_name } => display_name.as_str(),
        }
    }
}

} // verus!
