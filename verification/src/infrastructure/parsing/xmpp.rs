//! Reading participants out of XMPP presence stanzas.
use vstd::prelude::*;

use crate::domain::bot::{ParticipantSnapshot, ParticipantSnapshotView};
use crate::infrastructure::json::{json_is_valid, json_member_str, lookup_member_str};
use crate::infrastructure::pattern::{capture_first_group, regex_first_group};
use crate::text::{chars_of, contains, contains_chars, replace_all, replace_chars, string_from_chars};

verus! {

/// The pattern whose first group is the occupant id: the resource part of
/// the `from` address.
pub open spec fn occupant_pattern() -> Seq<char> {
    "from=\"[^\"]+/([^\"]+)\""@
}

/// The pattern whose first group is a `<nick>` with attributes.
pub open spec fn tagged_nick_pattern() -> Seq<char> {
    "<nick [^>]*>([^<]+)</nick>"@
}

/// The pattern whose first group is a bare `<nick>`.
pub open spec fn plain_nick_pattern() -> Seq<char> {
    "<nick>([^<]+)</nick>"@
}

/// The pattern whose first group is the encoded user-info document.
pub open spec fn user_info_pattern() -> Seq<char> {
    "<jitsi_participant_user-info>([^<]+)</jitsi_participant_user-info>"@
}

/// `raw` with the XML entities `&quot;`, `&apos;` and `&amp;` decoded, in
/// that order.
pub open spec fn decode_entities(raw: Seq<char>) -> Seq<char> {
    replace_all(
        replace_all(replace_all(raw, "&quot;"@, "\""@), "&apos;"@, "'"@),
        "&amp;"@,
        "&"@,
    )
}

/// The user id held in an encoded user-info document: its `key` member.
pub open spec fn user_id_of(raw: Seq<char>) -> Option<Seq<char>> {
    let decoded = decode_entities(raw);
    if json_is_valid(decoded) {
        json_member_str(decoded, "key"@)
    } else {
        None
    }
}

/// The snapshot built from what the patterns captured: the display name is
/// the first nick found, else the occupant id.
pub open spec fn snapshot_of(
    occupant_id: Seq<char>,
    tagged_nick: Option<Seq<char>>,
    plain_nick: Option<Seq<char>>,
    user_id: Option<Seq<char>>,
) -> ParticipantSnapshotView {
    ParticipantSnapshotView {
        occupant_id,
        display_name: match tagged_nick {
            Some(n) => n,
            None => match plain_nick {
                Some(n) => n,
                None => occupant_id,
            },
        },
        user_id,
    }
}

/// What `parse_participant_presence` reads from `text`.
pub open spec fn presence_snapshot(text: Seq<char>) -> Option<ParticipantSnapshotView> {
    if !contains(text, "<presence"@) {
        None
    } else {
        match regex_first_group(text, occupant_pattern()) {
            None => None,
            Some(occupant_id) => Some(
                snapshot_of(
                    occupant_id,
                    regex_first_group(text, tagged_nick_pattern()),
                    regex_first_group(text, plain_nick_pattern()),
                    match regex_first_group(text, user_info_pattern()) {
                        Some(raw) => user_id_of(raw),
                        None => None,
                    },
                ),
            ),
        }
    }
}

/// Builds a snapshot from captured pieces (see `snapshot_of`).
pub fn snapshot_from_captures(
    occupant_id: String,
    tagged_nick: Option<String>,
    plain_nick: Option<String>,
    user_id: Option<String>,
) -> (r: ParticipantSnapshot)
    ensures
        r@ == snapshot_of(
            occupant_id@,
            tagged_nick.deep_view(),
            plain_nick.deep_view(),
            user_id.deep_view(),
        ),
{
    let display_name = match tagged_nick {
        Some(n) => n,
        None => match plain_nick {
            Some(n) => n,
            None => occupant_id.clone(),
        },
    };
    ParticipantSnapshot { occupant_id, display_name, user_id }
}

/// Decodes the XML entities of `raw` (see `decode_entities`).
pub fn decode_entities_str(raw: &str) -> (r: String)
    ensures
        r@ == decode_entities(raw@),
{
    proof {
        reveal_strlit("&quot;");
        reveal_strlit("\"");
        reveal_strlit("&apos;");
        reveal_strlit("'");
        reveal_strlit("&amp;");
        reveal_strlit("&");
    }
    let s = chars_of(raw);
    let s = replace_chars(&s, &chars_of("&quot;"), &chars_of("\""));
    let s = replace_chars(&s, &chars_of("&apos;"), &chars_of("'"));
    let s = replace_chars(&s, &chars_of("&amp;"), &chars_of("&"));
    string_from_chars(s.as_slice())
}

/// The user id of an encoded user-info document (see `user_id_of`).
pub fn decode_user_id(raw: &str) -> (r: Option<String>)
    ensures
        r.deep_view() == user_id_of(raw@),
{
    let decoded = decode_entities_str(raw);
    match lookup_member_str(decoded.as_str(), "key") {
        Ok(v) => v,
        Err(_) => None,
    }
}

/// Reads the participant that a presence stanza announces: `None` for
/// anything that is not a presence stanza or has no occupant id.
pub fn parse_participant_presence(text: &str) -> (r: Option<ParticipantSnapshot>)
    ensures
        r.deep_view() == presence_snapshot(text@),
{
    let chars = chars_of(text);
    if !contains_chars(&chars, &chars_of("<presence")) {
        return None;
    }
    let occupant_id = match capture_first_group(text, "from=\"[^\"]+/([^\"]+)\"") {
        Some(o) => o,
        None => {
            return None;
        },
    };
    let tagged_nick = capture_first_group(text, "<nick [^>]*>([^<]+)</nick>");
    let plain_nick = match &tagged_nick {
        Some(_) => None,
        None => capture_first_group(text, "<nick>([^<]+)</nick>"),
    };
    let user_id = match capture_first_group(
        text,
        "<jitsi_participant_user-info>([^<]+)</jitsi_participant_user-info>",
    ) {
        Some(raw) => decode_user_id(raw.as_str()),
        None => None,
    };
    let r = snapshot_from_captures(occupant_id, tagged_nick, plain_nick, user_id);
    proof {
        if tagged_nick is None {
            assert(plain_nick.deep_view() == regex_first_group(text@, plain_nick_pattern()));
        }
    }
    Some(r)
}

/// What a presence stanza is read as. A text that does not hold
/// `<presence` announces nobody, nor does one without an occupant id (the
/// resource part of a `from="room/occupant"` attribute). Otherwise the
/// occupant id is that resource; the display name is the text of the first
/// `<nick ATTRS>N</nick>` (any text free of `<`, spaces included), else of
/// the first bare `<nick>N</nick>`, else the occupant id; and the user id is
/// the `key` member of the first `<jitsi_participant_user-info>` document,
/// once `&quot;`, `&apos;` and `&amp;` are decoded, if it is valid JSON.
pub proof fn law_presence_reading(text: Seq<char>)
    ensures
        !contains(text, "<presence"@) ==> presence_snapshot(text) is None,
        contains(text, "<presence"@) && regex_first_group(text, "from=\"[^\"]+/([^\"]+)\""@)
            is None ==> presence_snapshot(text) is None,
        contains(text, "<presence"@) && regex_first_group(text, "from=\"[^\"]+/([^\"]+)\""@)
            is Some ==> (presence_snapshot(text) matches Some(p) && {
            let occupant = regex_first_group(text, "from=\"[^\"]+/([^\"]+)\""@)->0;
            &&& p.occupant_id == occupant
            &&& p.display_name == match regex_first_group(text, "<nick [^>]*>([^<]+)</nick>"@) {
                Some(n) => n,
                None => match regex_first_group(text, "<nick>([^<]+)</nick>"@) {
                    Some(n) => n,
                    None => occupant,
                },
            }
            &&& p.user_id == match regex_first_group(
                text,
                "<jitsi_participant_user-info>([^<]+)</jitsi_participant_user-info>"@,
            ) {
                None => None,
                Some(raw) => {
                    let d = replace_all(
                        replace_all(replace_all(raw, "&quot;"@, "\""@), "&apos;"@, "'"@),
                        "&amp;"@,
                        "&"@,
                    );
                    if json_is_valid(d) {
                        json_member_str(d, "key"@)
                    } else {
                        None
                    }
                },
            }
        }),
{
}

} // verus!
