//! The room a client is bound to.
//!
//! A client may be bound to a room once, and later calls may leave the link
//! out; a call that names a link binds the client to it.
use vstd::prelude::*;

use crate::domain::room::{parse_room_link, RoomLink};
use crate::error::{KTalkError, KTalkErrorView};

verus! {

/// The error when no room is named and none is bound.
pub open spec fn no_room_error() -> KTalkErrorView {
    KTalkErrorView::InvalidRoomLink(
        "room link is required; pass link explicitly or call bind_room() first"@,
    )
}

/// Binding `link`: the new binding and the outcome. An invalid link is
/// refused and the binding stays.
pub open spec fn bind_outcome(bound: Option<Seq<char>>, link: Seq<char>) -> (
    Option<Seq<char>>,
    Result<(), KTalkErrorView>,
) {
    match parse_room_link(link) {
        Ok(_) => (Some(link), Ok(())),
        Err(e) => (bound, Err(e)),
    }
}

/// Resolving `link` against the binding: a named link is validated and
/// bound; otherwise the bound link is used.
pub open spec fn resolve_outcome(bound: Option<Seq<char>>, link: Option<Seq<char>>) -> (
    Option<Seq<char>>,
    Result<Seq<char>, KTalkErrorView>,
) {
    match link {
        Some(l) => match parse_room_link(l) {
            Ok(_) => (Some(l), Ok(l)),
            Err(e) => (bound, Err(e)),
        },
        None => match bound {
            Some(b) => (bound, Ok(b)),
            None => (bound, Err(no_room_error())),
        },
    }
}

/// The room link a client is bound to, if any.
#[derive(Debug, Clone)]
pub struct RoomBinding {
    room_link: Option<String>,
}

impl View for RoomBinding {
    type V = Option<Seq<char>>;

    closed spec fn view(&self) -> Option<Seq<char>> {
        self.room_link.deep_view()
    }
}

impl RoomBinding {
    /// A binding to `room_link`, taken as given.
    pub fn new(room_link: Option<String>) -> (b: RoomBinding)
        ensures
            b@ == room_link.deep_view(),
    {
        RoomBinding { room_link }
    }

    /// Binds to `link` if it is a valid room link (see `bind_outcome`).
    pub fn bind_room(&mut self, link: String) -> (r: Result<(), KTalkError>)
        ensures
            final(self)@ == bind_outcome(old(self)@, link@).0,
            match r {
                Ok(()) => bind_outcome(old(self)@, link@).1 == Ok::<(), KTalkErrorView>(()),
                Err(e) => bind_outcome(old(self)@, link@).1 == Err::<(), KTalkErrorView>(e@),
            },
    {
        match RoomLink::parse(link.as_str()) {
            Ok(_) => {
                self.room_link = Some(link);
                Ok(())
            },
            Err(e) => Err(e),
        }
    }

    /// The bound link.
    pub fn current_room(&self) -> (r: Option<String>)
        ensures
            r.deep_view() == self@,
    {
        match &self.room_link {
            Some(l) => Some(l.clone()),
            None => None,
        }
    }

    /// The link to use for a call that named `link` (see `resolve_outcome`).
    pub fn resolve_room_link(&mut self, link: Option<String>) -> (r: Result<String, KTalkError>)
        ensures
            final(self)@ == resolve_outcome(old(self)@, link.deep_view()).0,
            match r {
                Ok(l) => resolve_outcome(old(self)@, link.deep_view()).1 == Ok::<
                    Seq<char>,
                    KTalkErrorView,
                >(l@),
                Err(e) => resolve_outcome(old(self)@, link.deep_view()).1 == Err::<
                    Seq<char>,
                    KTalkErrorView,
                >(e@),
            },
    {
        match link {
            Some(l) => {
                match RoomLink::parse(l.as_str()) {
                    Ok(_) => {
                        self.room_link = Some(l.clone());
                        Ok(l)
                    },
                    Err(e) => Err(e),
                }
            },
            None => match &self.room_link {
                Some(b) => Ok(b.clone()),
                None => Err(
                    KTalkError::InvalidRoomLink(
                        "room link is required; pass link explicitly or call bind_room() first".to_owned(),
                    ),
                ),
            },
        }
    }
}

/// Law: once a link is bound, a call that names no link uses it, and the
/// binding reports it.
pub proof fn law_bound_link_is_used(bound: Option<Seq<char>>, link: Seq<char>)
    requires
        parse_room_link(link) is Ok,
    ensures
        bind_outcome(bound, link).0 == Some(link),
        resolve_outcome(bind_outcome(bound, link).0, None) == (
            Some(link),
            Ok::<Seq<char>, KTalkErrorView>(link),
        ),
{
}

/// Law: a call that names a valid link uses that link and binds to it, so
/// later calls that name none use it too.
pub proof fn law_named_link_is_bound(bound: Option<Seq<char>>, link: Seq<char>)
    requires
        parse_room_link(link) is Ok,
    ensures
        resolve_outcome(bound, Some(link)) == (
            Some(link),
            Ok::<Seq<char>, KTalkErrorView>(link),
        ),
        resolve_outcome(resolve_outcome(bound, Some(link)).0, None).1 == Ok::<
            Seq<char>,
            KTalkErrorView,
        >(link),
{
}

/// Law: a refused link leaves the binding as it was.
pub proof fn law_refused_link_keeps_binding(bound: Option<Seq<char>>, link: Option<Seq<char>>)
    requires
        link matches Some(l) ==> parse_room_link(l) is Err,
    ensures
        resolve_outcome(bound, link).0 == bound,
{
}

} // verus!
