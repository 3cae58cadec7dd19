//! Session tokens.
use vstd::prelude::*;

use crate::error::{KTalkError, KTalkErrorView};
use crate::text::{chars_of, is_ws, string_from_chars, strip_prefix, strip_prefix_chars, trim, trim_chars};

verus! {

/// The scheme word that precedes a token in an `Authorization` header.
pub open spec fn session_scheme() -> Seq<char> {
    "Session "@
}

/// A token is well formed when it is non-empty and has no surrounding
/// whitespace.
pub open spec fn is_normalized_token(t: Seq<char>) -> bool {
    t.len() > 0 && trim(t) == t
}

/// What `SessionToken::parse` makes of `raw`: surrounding whitespace is
/// dropped, then a leading `"Session "` scheme, then whitespace again; an
/// empty remainder is refused.
pub open spec fn parse_session_token(raw: Seq<char>) -> Result<Seq<char>, KTalkErrorView> {
    let t = trim(raw);
    let rest = match strip_prefix(t, session_scheme()) {
        Some(r) => r,
        None => t,
    };
    let token = trim(rest);
    if token.len() == 0 {
        Err(KTalkErrorView::EmptyAuthToken)
    } else {
        Ok(token)
    }
}

/// The `Authorization` header value for token `t`.
pub open spec fn authorization_header(t: Seq<char>) -> Seq<char> {
    session_scheme() + t
}

/// A normalized KTalk session token.
#[derive(Debug)]
pub struct SessionToken(String);

impl Clone for SessionToken {
    fn clone(&self) -> (r: Self)
        ensures
            r@ == self@,
    {
        proof {
            use_type_invariant(self);
        }
        SessionToken(self.0.clone())
    }
}

impl View for SessionToken {
    type V = Seq<char>;

    closed spec fn view(&self) -> Seq<char> {
        self.0@
    }
}

impl SessionToken {
    #[verifier::type_invariant]
    spec fn well_formed(self) -> bool {
        is_normalized_token(self.0@)
    }

    /// Reads a token from `raw`, which may carry the `"Session "` scheme.
    pub fn parse(raw: &str) -> (r: Result<SessionToken, KTalkError>)
        ensures
            match r {
                Ok(t) => parse_session_token(raw@) == Ok::<Seq<char>, KTalkErrorView>(t@),
                Err(e) => parse_session_token(raw@) == Err::<Seq<char>, KTalkErrorView>(e@),
            },
    {
        let chars = chars_of(raw);
        let t = trim_chars(&chars);
        let scheme = chars_of("Session ");
        proof {
            reveal_strlit("Session ");
        }
        let rest = match strip_prefix_chars(&t, &scheme) {
            Some(r) => r,
            None => t,
        };
        let token = trim_chars(&rest);
        if token.len() == 0 {
            return Err(KTalkError::EmptyAuthToken);
        }
        proof {
            crate::text::lemma_trim_idempotent(rest@);
        }
        Ok(SessionToken(string_from_chars(token.as_slice())))
    }

    /// The token itself.
    pub fn as_str(&self) -> (s: &str)
        ensures
            s@ == self@,
            is_normalized_token(s@),
    {
        proof {
            use_type_invariant(self);
        }
        self.0.as_str()
    }

    /// The token as an `Authorization` header value: `"Session <token>"`.
    pub fn as_authorization_header(&self) -> (h: String)
        ensures
            h@ == authorization_header(self@),
    {
        proof {
            reveal_strlit("Session ");
        }
        "Session ".to_owned().concat(self.0.as_str())
    }
}

/// Law: parsing the `Authorization` header of a token gives the token back.
pub proof fn law_header_round_trip(t: Seq<char>)
    requires
        is_normalized_token(t),
    ensures
        parse_session_token(authorization_header(t)) == Ok::<Seq<char>, KTalkErrorView>(t),
{
    reveal_strlit("Session ");
    let h = authorization_header(t);
    crate::text::lemma_trim_ends(t);
    assert(h[0] == 'S');
    assert(h.last() == t.last());
    crate::text::lemma_trim_noop(h);
    assert(h.subrange(0, 8) =~= session_scheme());
    assert(h.skip(8) =~= t);
}

/// Law: parsing is a normalization — what it returns is a normalized token,
/// and a normalized token that does not itself begin with the scheme parses
/// to itself.
pub proof fn law_parse_normalizes(raw: Seq<char>, t: Seq<char>)
    requires
        is_normalized_token(t),
        !crate::text::starts_with(t, session_scheme()),
    ensures
        parse_session_token(raw) matches Ok(u) ==> is_normalized_token(u),
        parse_session_token(t) == Ok::<Seq<char>, KTalkErrorView>(t),
{
    let s = trim(raw);
    let rest = match strip_prefix(s, session_scheme()) {
        Some(r) => r,
        None => s,
    };
    crate::text::lemma_trim_idempotent(rest);
    crate::text::lemma_trim_idempotent(t);
}

} // verus!
