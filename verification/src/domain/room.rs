//! Room links and the short room names taken from them.
use vstd::prelude::*;

use crate::domain::auth::is_normalized_token;
use crate::error::{KTalkError, KTalkErrorView};
use crate::text::{
    chars_of, last_segment, last_segment_chars, string_from_chars, trim, trim_chars,
    trim_end_char, trim_end_char_chars,
};

verus! {

/// What `RoomLink::parse` makes of `raw`: the trimmed link, or an error that
/// quotes `raw` when nothing is left.
pub open spec fn parse_room_link(raw: Seq<char>) -> Result<Seq<char>, KTalkErrorView> {
    if trim(raw).len() == 0 {
        Err(KTalkErrorView::InvalidRoomLink(raw))
    } else {
        Ok(trim(raw))
    }
}

/// What `RoomShortName::new` makes of `value`.
pub open spec fn room_short_name(value: Seq<char>) -> Result<Seq<char>, KTalkErrorView> {
    if trim(value).len() == 0 {
        Err(KTalkErrorView::InvalidRoomLink(value))
    } else {
        Ok(trim(value))
    }
}

/// The last path segment of `link` once trailing slashes are dropped.
pub open spec fn link_last_segment(link: Seq<char>) -> Seq<char> {
    last_segment(trim_end_char(link, '/'), '/')
}

/// What `RoomLink::short_name` gives for the link `link`.
pub open spec fn short_name_of(link: Seq<char>) -> Result<Seq<char>, KTalkErrorView> {
    let seg = link_last_segment(link);
    if seg.len() == 0 {
        Err(KTalkErrorView::InvalidRoomLink(link))
    } else {
        room_short_name(seg)
    }
}

/// A link to a KTalk room, such as `https://host/room-name`.
#[derive(Debug)]
pub struct RoomLink(String);

impl View for RoomLink {
    type V = Seq<char>;

    closed spec fn view(&self) -> Seq<char> {
        self.0@
    }
}

impl Clone for RoomLink {
    fn clone(&self) -> (r: Self)
        ensures
            r@ == self@,
    {
        proof {
            use_type_invariant(self);
        }
        RoomLink(self.0.clone())
    }
}

/// The short name of a room: the last segment of its link.
#[derive(Debug)]
pub struct RoomShortName(String);

impl View for RoomShortName {
    type V = Seq<char>;

    closed spec fn view(&self) -> Seq<char> {
        self.0@
    }
}

impl Clone for RoomShortName {
    fn clone(&self) -> (r: Self)
        ensures
            r@ == self@,
    {
        proof {
            use_type_invariant(self);
        }
        RoomShortName(self.0.clone())
    }
}

impl RoomLink {
    #[verifier::type_invariant]
    spec fn well_formed(self) -> bool {
        is_normalized_token(self.0@)
    }

    /// Accepts any link that is not blank; surrounding whitespace is dropped.
    pub fn parse(raw: &str) -> (r: Result<RoomLink, KTalkError>)
        ensures
            match r {
                Ok(l) => parse_room_link(raw@) == Ok::<Seq<char>, KTalkErrorView>(l@),
                Err(e) => parse_room_link(raw@) == Err::<Seq<char>, KTalkErrorView>(e@),
            },
    {
        let chars = chars_of(raw);
        let t = trim_chars(&chars);
        if t.len() == 0 {
            return Err(KTalkError::InvalidRoomLink(raw.to_owned()));
        }
        proof {
            crate::text::lemma_trim_idempotent(raw@);
        }
        Ok(RoomLink(string_from_chars(t.as_slice())))
    }

    /// The link itself.
    pub fn as_str(&self) -> (s: &str)
        ensures
            s@ == self@,
            is_normalized_token(s@),
    {
        proof {
            use_type_invariant(self);
        }
        self.0.as_str()
    }

    /// The room's short name: the last non-empty path segment of the link.
    pub fn short_name(&self) -> (r: Result<RoomShortName, KTalkError>)
        ensures
            match r {
                Ok(n) => short_name_of(self@) == Ok::<Seq<char>, KTalkErrorView>(n@),
                Err(e) => short_name_of(self@) == Err::<Seq<char>, KTalkErrorView>(e@),
            },
    {
        let chars = chars_of(self.0.as_str());
        let stripped = trim_end_char_chars(&chars, '/');
        let seg = last_segment_chars(&stripped, '/');
        if seg.len() == 0 {
            return Err(KTalkError::InvalidRoomLink(self.0.clone()));
        }
        let seg_str = string_from_chars(seg.as_slice());
        RoomShortName::new(seg_str.as_str())
    }
}

impl RoomShortName {
    #[verifier::type_invariant]
    spec fn well_formed(self) -> bool {
        is_normalized_token(self.0@)
    }

    /// Accepts any name that is not blank; surrounding whitespace is dropped.
    pub fn new(value: &str) -> (r: Result<RoomShortName, KTalkError>)
        ensures
            match r {
                Ok(n) => room_short_name(value@) == Ok::<Seq<char>, KTalkErrorView>(n@),
                Err(e) => room_short_name(value@) == Err::<Seq<char>, KTalkErrorView>(e@),
            },
    {
        let chars = chars_of(value);
        let t = trim_chars(&chars);
        if t.len() == 0 {
            return Err(KTalkError::InvalidRoomLink(value.to_owned()));
        }
        proof {
            crate::text::lemma_trim_idempotent(value@);
        }
        Ok(RoomShortName(string_from_chars(t.as_slice())))
    }

    /// The name itself.
    pub fn as_str(&self) -> (s: &str)
        ensures
            s@ == self@,
            is_normalized_token(s@),
    {
        proof {
            use_type_invariant(self);
        }
        self.0.as_str()
    }
}

/// Law: parsing a link that was already parsed gives the same link.
pub proof fn law_parse_room_link_idempotent(raw: Seq<char>)
    ensures
        parse_room_link(raw) matches Ok(l) ==> parse_room_link(l) == Ok::<
            Seq<char>,
            KTalkErrorView,
        >(l),
{
    crate::text::lemma_trim_idempotent(raw);
}

/// Law: a short name holds no `/` and is a normalized, non-empty name.
pub proof fn law_short_name_is_segment(link: Seq<char>)
    ensures
        short_name_of(link) matches Ok(n) ==> is_normalized_token(n) && forall|i: int|
            0 <= i < n.len() ==> n[i] != '/',
{
    let seg = link_last_segment(link);
    crate::text::lemma_last_segment_free(trim_end_char(link, '/'), '/');
    crate::text::lemma_trim_idempotent(seg);
    lemma_trim_keeps_absent(seg, '/');
}

/// Law: the short name of `base/name` is `name`, for any `base` and any
/// normalized `name` without `/`.
pub proof fn law_short_name_of_joined(base: Seq<char>, name: Seq<char>)
    requires
        is_normalized_token(name),
        forall|i: int| 0 <= i < name.len() ==> name[i] != '/',
    ensures
        short_name_of(base + seq!['/'] + name) == Ok::<Seq<char>, KTalkErrorView>(name),
{
    let link = base + seq!['/'] + name;
    assert(link.last() == name.last());
    assert(trim_end_char(link, '/') == link);
    let k = base.len() as int;
    assert(link[k] == '/');
    assert forall|i: int| k < i < link.len() implies link[i] != '/' by {
        assert(link[i] == name[i - k - 1]);
    }
    crate::text::lemma_last_segment_after(link, '/', k);
    assert(link.subrange(k + 1, link.len() as int) =~= name);
}

/// Trimming removes characters only from the ends, so a character absent
/// from `s` is absent from `trim(s)`.
proof fn lemma_trim_keeps_absent(s: Seq<char>, c: char)
    requires
        forall|i: int| 0 <= i < s.len() ==> s[i] != c,
    ensures
        forall|i: int| 0 <= i < trim(s).len() ==> trim(s)[i] != c,
{
    crate::text::lemma_trim_is_subrange(s);
    let (a, b) = choose|a: int, b: int| 0 <= a <= b <= s.len() && trim(s) == s.subrange(a, b);
    assert forall|i: int| 0 <= i < trim(s).len() implies trim(s)[i] != c by {
        assert(trim(s)[i] == s[a + i]);
    }
}

} // verus!
