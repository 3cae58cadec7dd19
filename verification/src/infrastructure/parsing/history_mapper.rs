//! Turns raw history entries into `ConferenceHistoryRecord`s.
use vstd::prelude::*;

use crate::domain::history::{
    ConferenceHistoryRecord, ConferenceHistoryRecordView, Participant, ParticipantView, Recording,
    RecordingView,
};
use crate::infrastructure::http::dto::{RawConferenceHistoryRecord, RawContentItem, RawParticipant};
use crate::text::{chars_eq, chars_of, concat_chars, string_from_chars, trim, trim_chars};

verus! {

/// The title given to a conference that has none.
pub open spec fn untitled() -> Seq<char> {
    "Без названия"@
}

/// The name given to an anonymous participant who left none.
pub open spec fn guest_name() -> Seq<char> {
    "Гость"@
}

/// The contents of an optional string, or nothing.
pub open spec fn or_empty(o: Option<String>) -> Seq<char> {
    match o {
        Some(s) => s@,
        None => Seq::empty(),
    }
}

/// What a raw participant becomes: anonymous participants keep their name
/// (or the guest name); others are named "first last", trimmed, and are
/// dropped when that name is blank.
pub open spec fn participant_of(raw: RawParticipant) -> Option<ParticipantView> {
    if raw.is_anonymous {
        Some(
            ParticipantView::Anonymous {
                display_name: match raw.anonymous_name {
                    Some(n) => n@,
                    None => guest_name(),
                },
            },
        )
    } else {
        let full = trim(
            or_empty(raw.user_info.firstname) + seq![' '] + or_empty(raw.user_info.surname),
        );
        if full.len() == 0 {
            None
        } else {
            Some(ParticipantView::Authenticated { display_name: full })
        }
    }
}

/// The participants of `raws` that map to something, in order.
pub open spec fn participants_of(raws: Seq<RawParticipant>) -> Seq<ParticipantView>
    decreases raws.len(),
{
    if raws.len() == 0 {
        Seq::empty()
    } else {
        let rest = participants_of(raws.drop_last());
        match participant_of(raws.last()) {
            Some(p) => rest.push(p),
            None => rest,
        }
    }
}

/// A content item that stands for a recording.
pub open spec fn is_record_item(item: RawContentItem) -> bool {
    match item.kind {
        Some(k) => k@ == "record"@,
        None => false,
    }
}

/// The first recording item of `items`.
pub open spec fn first_record_item(items: Seq<RawContentItem>) -> Option<RawContentItem>
    decreases items.len(),
{
    if items.len() == 0 {
        None
    } else if is_record_item(items[0]) {
        Some(items[0])
    } else {
        first_record_item(items.drop_first())
    }
}

/// The playback address of recording `id` under `base_url`.
pub open spec fn playback_url(base_url: Seq<char>, id: Seq<char>) -> Seq<char> {
    base_url + "/recordings/"@ + id
}

/// The recording of a conference: the first recording item, if it has an id.
pub open spec fn recording_of(items: Seq<RawContentItem>, base_url: Seq<char>) -> Option<
    RecordingView,
> {
    match first_record_item(items) {
        Some(item) => match item.id {
            Some(id) => Some(
                RecordingView { recording_id: id@, playback_url: playback_url(base_url, id@) },
            ),
            None => None,
        },
        None => None,
    }
}

/// What `map_history_record` makes of `raw`.
pub open spec fn history_record_of(
    raw: RawConferenceHistoryRecord,
    base_url: Seq<char>,
) -> ConferenceHistoryRecordView {
    ConferenceHistoryRecordView {
        key: raw.key.deep_view(),
        room_name: raw.room_name@,
        title: match raw.title {
            Some(t) => t@,
            None => untitled(),
        },
        start_time: raw.start_time.deep_view(),
        end_time: raw.end_time.deep_view(),
        participants_count: match raw.participants_count {
            Some(n) => n,
            None => 0,
        },
        participants: participants_of(raw.artifacts.participants@),
        recording: recording_of(raw.artifacts.content@, base_url),
    }
}

fn clone_opt(o: &Option<String>) -> (r: Option<String>)
    ensures
        r.deep_view() == o.deep_view(),
{
    match o {
        Some(s) => Some(s.clone()),
        None => None,
    }
}

fn or_empty_chars(o: &Option<String>) -> (r: Vec<char>)
    ensures
        r@ == or_empty(*o),
{
    match o {
        Some(s) => chars_of(s.as_str()),
        None => Vec::new(),
    }
}

/// Maps one raw participant.
pub fn map_participant(raw: &RawParticipant) -> (r: Option<Participant>)
    ensures
        r.deep_view() == participant_of(*raw),
{
    if raw.is_anonymous {
        let display_name = match &raw.anonymous_name {
            Some(n) => n.clone(),
            None => "Гость".to_owned(),
        };
        return Some(Participant::Anonymous { display_name });
    }
    let first = or_empty_chars(&raw.user_info.firstname);
    let last = or_empty_chars(&raw.user_info.surname);
    let mut sep: Vec<char> = Vec::new();
    sep.push(' ');
    let joined = concat_chars(&concat_chars(&first, &sep), &last);
    assert(sep@ =~= seq![' ']);
    let full = trim_chars(&joined);
    if full.len() == 0 {
        return None;
    }
    Some(Participant::Authenticated { display_name: string_from_chars(full.as_slice()) })
}

fn map_participants(raws: &Vec<RawParticipant>) -> (r: Vec<Participant>)
    ensures
        r.deep_view() == participants_of(raws@),
{
    let mut out: Vec<Participant> = Vec::new();
    let mut i: usize = 0;
    while i < raws.len()
        invariant
            i <= raws.len(),
            out.deep_view() == participants_of(raws@.take(i as int)),
        decreases raws.len() - i,
    {
        assert(raws@.take(i + 1).drop_last() =~= raws@.take(i as int));
        assert(raws@.take(i + 1).last() == raws@[i as int]);
        let mapped = map_participant(&raws[i]);
        match mapped {
            Some(p) => {
                out.push(p);
            },
            None => {},
        }
        assert(out.deep_view() =~= participants_of(raws@.take(i + 1)));
        i = i + 1;
    }
    assert(raws@.take(raws.len() as int) =~= raws@);
    out
}

fn is_record_exec(item: &RawContentItem) -> (b: bool)
    ensures
        b == is_record_item(*item),
{
    proof {
        reveal_strlit("record");
    }
    match &item.kind {
        Some(k) => {
            let kc = chars_of(k.as_str());
            let rc = chars_of("record");
            chars_eq(&kc, &rc)
        },
        None => false,
    }
}

fn map_recording(items: &Vec<RawContentItem>, base_url: &str) -> (r: Option<Recording>)
    ensures
        r.deep_view() == recording_of(items@, base_url@),
{
    let mut i: usize = 0;
    assert(items@.skip(0) =~= items@);
    while i < items.len()
        invariant
            i <= items.len(),
            first_record_item(items@) == first_record_item(items@.skip(i as int)),
        decreases items.len() - i,
    {
        if is_record_exec(&items[i]) {
            assert(items@.skip(i as int)[0] == items@[i as int]);
            return match &items[i].id {
                Some(id) => {
                    proof {
                        reveal_strlit("/recordings/");
                    }
                    let url = base_url.to_owned().concat("/recordings/").concat(id.as_str());
                    Some(Recording { recording_id: id.clone(), playback_url: url })
                },
                None => None,
            };
        }
        assert(items@.skip(i as int).drop_first() =~= items@.skip(i + 1));
        i = i + 1;
    }
    None
}

/// Maps a raw history entry; recording addresses are built under `base_url`.
pub fn map_history_record(raw: RawConferenceHistoryRecord, base_url: &str) -> (r:
    ConferenceHistoryRecord)
    ensures
        r@ == history_record_of(raw, base_url@),
{
    let participants = map_participants(&raw.artifacts.participants);
    let recording = map_recording(&raw.artifacts.content, base_url);
    let title = match &raw.title {
        Some(t) => t.clone(),
        None => "Без названия".to_owned(),
    };
    let participants_count = match raw.participants_count {
        Some(n) => n,
        None => 0,
    };
    ConferenceHistoryRecord {
        key: clone_opt(&raw.key),
        room_name: raw.room_name.clone(),
        title,
        start_time: clone_opt(&raw.start_time),
        end_time: clone_opt(&raw.end_time),
        participants_count,
        participants,
        recording,
    }
}

/// Law: mapping never adds participants; each raw participant yields at
/// most one, in order; anonymous participants are always kept; an
/// authenticated participant's name is never blank and carries no
/// surrounding whitespace.
pub proof fn law_participants_mapping(raws: Seq<RawParticipant>)
    ensures
        participants_of(raws).len() <= raws.len(),
        (forall|i: int| 0 <= i < raws.len() ==> raws[i].is_anonymous) ==> participants_of(
            raws,
        ).len() == raws.len(),
        forall|i: int|
            0 <= i < participants_of(raws).len() ==> (#[trigger] participants_of(raws)[i] matches ParticipantView::Authenticated {
                display_name,
            } ==> display_name.len() > 0 && trim(display_name) == display_name),
    decreases raws.len(),
{
    if raws.len() > 0 {
        let rest = raws.drop_last();
        law_participants_mapping(rest);
        let last = raws.last();
        if !last.is_anonymous {
            crate::text::lemma_trim_idempotent(
                or_empty(last.user_info.firstname) + seq![' '] + or_empty(last.user_info.surname),
            );
        }
        if forall|j: int| 0 <= j < raws.len() ==> raws[j].is_anonymous {
            assert forall|i: int| 0 <= i < rest.len() implies rest[i].is_anonymous by {
                assert(rest[i] == raws[i]);
            }
        }
        let ps = participants_of(raws);
        let prev = participants_of(rest);
        assert forall|i: int| 0 <= i < ps.len() implies (#[trigger] ps[i] matches ParticipantView::Authenticated {
            display_name,
        } ==> display_name.len() > 0 && trim(display_name) == display_name) by {
            if i < prev.len() {
                assert(ps[i] == prev[i]);
            }
        }
    }
}

/// The item at `i` of `items` is a recording item: its kind is `record`.
pub open spec fn record_at(items: Seq<RawContentItem>, i: int) -> bool {
    items[i].kind matches Some(k) && k@ == "record"@
}

proof fn lemma_first_record_item(items: Seq<RawContentItem>)
    ensures
        first_record_item(items) matches Some(it) ==> exists|i: int|
            0 <= i < items.len() && record_at(items, i) && items[i] == it && forall|j: int|
                0 <= j < i ==> !record_at(items, j),
        first_record_item(items) is None ==> forall|i: int|
            0 <= i < items.len() ==> !record_at(items, i),
    decreases items.len(),
{
    if items.len() > 0 && !is_record_item(items[0]) {
        let rest = items.drop_first();
        lemma_first_record_item(rest);
        if first_record_item(rest) is Some {
            let i = choose|i: int|
                0 <= i < rest.len() && record_at(rest, i) && rest[i] == first_record_item(rest)->0
                    && forall|j: int| 0 <= j < i ==> !record_at(rest, j);
            assert(items[i + 1] == rest[i]);
            assert forall|j: int| 0 <= j < i + 1 implies !record_at(items, j) by {
                if j > 0 {
                    assert(items[j] == rest[j - 1]);
                    assert(!record_at(rest, j - 1));
                } else {
                    assert(!is_record_item(items[0]));
                }
            }
            assert(record_at(items, i + 1));
        } else {
            assert forall|i: int| 0 <= i < items.len() implies !record_at(items, i) by {
                if i > 0 {
                    assert(items[i] == rest[i - 1]);
                    assert(!record_at(rest, i - 1));
                } else {
                    assert(!is_record_item(items[0]));
                }
            }
        }
    } else if items.len() > 0 {
        assert(record_at(items, 0));
    }
}

/// Law: a mapped record keeps the entry's key, room name, start time, end
/// time, each in its own place; the title is the entry's title, or
/// "Без названия" when it has none; the participant count is the entry's, or
/// 0. The recording comes from the first content item of kind `record`: it
/// is that item's id, played back at `<base>/recordings/<id>`; there is none
/// when no item is a recording or the first recording item has no id.
pub proof fn law_history_record_fields(raw: RawConferenceHistoryRecord, base_url: Seq<char>)
    ensures
        ({
            let r = history_record_of(raw, base_url);
            let items = raw.artifacts.content@;
            &&& r.key == raw.key.deep_view()
            &&& r.room_name == raw.room_name@
            &&& r.start_time == raw.start_time.deep_view()
            &&& r.end_time == raw.end_time.deep_view()
            &&& (raw.title matches Some(t) ==> r.title == t@)
            &&& (raw.title is None ==> r.title == "Без названия"@)
            &&& (raw.participants_count matches Some(n) ==> r.participants_count == n)
            &&& (raw.participants_count is None ==> r.participants_count == 0)
            &&& ((forall|i: int| 0 <= i < items.len() ==> !record_at(items, i)) ==> r.recording is None)
            &&& forall|i: int|
                0 <= i < items.len() && record_at(items, i) && (forall|j: int|
                    0 <= j < i ==> !record_at(items, j)) ==> match items[i].id {
                    Some(id) => r.recording matches Some(rv) && rv.recording_id == id@
                        && rv.playback_url == base_url + "/recordings/"@ + id@,
                    None => r.recording is None,
                }
        }),
{
    let items = raw.artifacts.content@;
    lemma_first_record_item(items);
    if first_record_item(items) is Some {
        let k = choose|k: int|
            0 <= k < items.len() && record_at(items, k) && items[k] == first_record_item(items)->0
                && forall|j: int| 0 <= j < k ==> !record_at(items, j);
        assert forall|i: int|
            0 <= i < items.len() && record_at(items, i) && (forall|j: int|
                0 <= j < i ==> !record_at(items, j)) implies i == k by {
            if i < k {
                assert(!record_at(items, i));
            } else if k < i {
                assert(!record_at(items, k));
            }
        }
    }
}

/// Law: an anonymous participant is always kept, under the name it left or
/// else "Гость"; anyone else is kept under "first last" with surrounding
/// whitespace removed (a missing part counts as empty), and dropped exactly
/// when that name is blank.
pub proof fn law_participant_names(raw: RawParticipant)
    ensures
        raw.is_anonymous ==> participant_of(raw) == Some(
            ParticipantView::Anonymous {
                display_name: match raw.anonymous_name {
                    Some(n) => n@,
                    None => "Гость"@,
                },
            },
        ),
        !raw.is_anonymous ==> ({
            let first = match raw.user_info.firstname {
                Some(f) => f@,
                None => Seq::<char>::empty(),
            };
            let last = match raw.user_info.surname {
                Some(l) => l@,
                None => Seq::<char>::empty(),
            };
            let full = trim(first + seq![' '] + last);
            &&& full.len() == 0 ==> participant_of(raw) is None
            &&& full.len() > 0 ==> participant_of(raw) == Some(
                ParticipantView::Authenticated { display_name: full },
            )
        }),
{
}

/// Law: the mapped participants are the kept ones, in order: mapping the
/// entries before and after a split and joining the results is mapping the
/// whole list.
pub proof fn law_participants_split(a: Seq<RawParticipant>, b: Seq<RawParticipant>)
    ensures
        participants_of(a + b) == participants_of(a) + participants_of(b),
    decreases b.len(),
{
    if b.len() == 0 {
        assert(a + b =~= a);
        assert(participants_of(a) + participants_of(b) =~= participants_of(a));
    } else {
        law_participants_split(a, b.drop_last());
        assert((a + b).drop_last() =~= a + b.drop_last());
        assert((a + b).last() == b.last());
        match participant_of(b.last()) {
            Some(p) => {
                assert(participants_of(a) + participants_of(b.drop_last()).push(p) =~= (
                participants_of(a) + participants_of(b.drop_last())).push(p));
            },
            None => {},
        }
    }
}

} // verus!
