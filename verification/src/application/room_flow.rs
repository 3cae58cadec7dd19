//! Decisions of a stay in a room that sit around the two websocket
//! sessions: when their loops go on or stop, how their results combine, and
//! what audio publishing answers.
use vstd::prelude::*;

use crate::domain::bot::{JoinRoomReport, JoinRoomReportView, ParticipantSnapshot, RoomConnection};
use crate::error::{KTalkError, KTalkErrorView};

verus! {

/// Something that happened to a session loop.
#[derive(Debug)]
pub enum LoopEvent {
    /// The keep-alive timer fired; `past_deadline` tells whether the stay is
    /// over.
    Tick { past_deadline: bool },
    /// A frame came in and was handled; `past_deadline` tells whether the
    /// stay is over.
    Frame { past_deadline: bool },
    /// Receiving failed.
    Failed(KTalkError),
    /// The server closed the socket.
    Closed,
}

/// What a session loop does next.
#[derive(Debug)]
pub enum LoopAction {
    /// Wait for the next event.
    Continue,
    /// Send the session's keep-alive messages, then wait.
    SendKeepalive,
    /// End the session normally.
    Stop,
    /// End the session with this error.
    Fail(KTalkError),
}

/// The model of a loop action.
pub enum LoopActionView {
    Continue,
    SendKeepalive,
    Stop,
    Fail(KTalkErrorView),
}

impl View for LoopAction {
    type V = LoopActionView;

    open spec fn view(&self) -> LoopActionView {
        match self {
            LoopAction::Continue => LoopActionView::Continue,
            LoopAction::SendKeepalive => LoopActionView::SendKeepalive,
            LoopAction::Stop => LoopActionView::Stop,
            LoopAction::Fail(e) => LoopActionView::Fail(e@),
        }
    }
}

/// The system websocket: a tick past the deadline or a closed socket ends
/// the session, another tick sends the keep-alive messages, a failure ends it
/// with the error, and incoming frames are ignored (the deadline is only
/// looked at on ticks).
pub open spec fn system_loop_action(e: LoopEvent) -> LoopActionView {
    match e {
        LoopEvent::Tick { past_deadline } => if past_deadline {
            LoopActionView::Stop
        } else {
            LoopActionView::SendKeepalive
        },
        LoopEvent::Frame { .. } => LoopActionView::Continue,
        LoopEvent::Failed(err) => LoopActionView::Fail(err@),
        LoopEvent::Closed => LoopActionView::Stop,
    }
}

/// The XMPP websocket: as the system websocket, except that the deadline is
/// also looked at after each handled frame.
pub open spec fn xmpp_loop_action(e: LoopEvent) -> LoopActionView {
    match e {
        LoopEvent::Tick { past_deadline } => if past_deadline {
            LoopActionView::Stop
        } else {
            LoopActionView::SendKeepalive
        },
        LoopEvent::Frame { past_deadline } => if past_deadline {
            LoopActionView::Stop
        } else {
            LoopActionView::Continue
        },
        LoopEvent::Failed(err) => LoopActionView::Fail(err@),
        LoopEvent::Closed => LoopActionView::Stop,
    }
}

/// See `system_loop_action`.
pub fn system_loop_step(event: LoopEvent) -> (a: LoopAction)
    ensures
        a@ == system_loop_action(event),
{
    match event {
        LoopEvent::Tick { past_deadline } => if past_deadline {
            LoopAction::Stop
        } else {
            LoopAction::SendKeepalive
        },
        LoopEvent::Frame { .. } => LoopAction::Continue,
        LoopEvent::Failed(err) => LoopAction::Fail(err),
        LoopEvent::Closed => LoopAction::Stop,
    }
}

/// See `xmpp_loop_action`.
pub fn xmpp_loop_step(event: LoopEvent) -> (a: LoopAction)
    ensures
        a@ == xmpp_loop_action(event),
{
    match event {
        LoopEvent::Tick { past_deadline } => if past_deadline {
            LoopAction::Stop
        } else {
            LoopAction::SendKeepalive
        },
        LoopEvent::Frame { past_deadline } => if past_deadline {
            LoopAction::Stop
        } else {
            LoopAction::Continue
        },
        LoopEvent::Failed(err) => LoopAction::Fail(err),
        LoopEvent::Closed => LoopAction::Stop,
    }
}

/// How the two session loops answer each event. An incoming frame never
/// ends the system session, whether or not the stay is over; on the XMPP
/// session a frame ends it exactly when the stay is over. On both, a tick
/// past the deadline or a closed socket stops the session, any other tick
/// sends the keep-alive messages, and a failure ends it with that error.
pub proof fn law_loop_actions(past_deadline: bool, err: KTalkError)
    ensures
        system_loop_action(LoopEvent::Frame { past_deadline }) == LoopActionView::Continue,
        system_loop_action(LoopEvent::Tick { past_deadline }) == (if past_deadline {
            LoopActionView::Stop
        } else {
            LoopActionView::SendKeepalive
        }),
        system_loop_action(LoopEvent::Closed) == LoopActionView::Stop,
        system_loop_action(LoopEvent::Failed(err)) == LoopActionView::Fail(err@),
        xmpp_loop_action(LoopEvent::Frame { past_deadline }) == (if past_deadline {
            LoopActionView::Stop
        } else {
            LoopActionView::Continue
        }),
        xmpp_loop_action(LoopEvent::Tick { past_deadline }) == (if past_deadline {
            LoopActionView::Stop
        } else {
            LoopActionView::SendKeepalive
        }),
        xmpp_loop_action(LoopEvent::Closed) == LoopActionView::Stop,
        xmpp_loop_action(LoopEvent::Failed(err)) == LoopActionView::Fail(err@),
{
}

/// The outcome of a stay in `room` from the outcomes of its two sessions:
/// a failed system session decides, then a failed XMPP session; otherwise
/// the report of what the XMPP session saw.
pub fn join_outcome(
    room: RoomConnection,
    system: Result<(), KTalkError>,
    xmpp: Result<(bool, Vec<ParticipantSnapshot>), KTalkError>,
) -> (r: Result<JoinRoomReport, KTalkError>)
    ensures
        match system {
            Err(e) => r matches Err(re) && re@ == e@,
            Ok(()) => match xmpp {
                Err(e) => r matches Err(re) && re@ == e@,
                Ok((joined, participants)) => r matches Ok(report) && report@ == (JoinRoomReportView {
                    room_name: room.room_name@,
                    conference_id: room.conference_id@,
                    joined,
                    participants: participants.deep_view(),
                }),
            },
        },
{
    match system {
        Err(e) => Err(e),
        Ok(()) => match xmpp {
            Err(e) => Err(e),
            Ok((joined, participants)) => Ok(
                JoinRoomReport {
                    room_name: room.room_name,
                    conference_id: room.conference_id,
                    joined,
                    participants,
                },
            ),
        },
    }
}

/// Publishing audio to the microphone is not supported: every call fails
/// with `UnsupportedAudioPublishing`, whatever the room, file and duration.
pub fn play_audio_on_mic(link: &str, audio_path: &str, duration_secs: u64) -> (r: Result<
    (),
    KTalkError,
>)
    ensures
        r matches Err(e) && e@ == KTalkErrorView::UnsupportedAudioPublishing,
{
    Err(KTalkError::UnsupportedAudioPublishing)
}

} // verus!
