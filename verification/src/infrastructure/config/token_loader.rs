//! Session tokens stored in files.
use vstd::prelude::*;

use crate::domain::auth::{parse_session_token, SessionToken};
use crate::error::{KTalkError, KTalkErrorView};

verus! {

/// Why a token file could not be read.
#[derive(Debug, Clone)]
pub enum ReadFailure {
    /// There is no file at the path.
    NotFound,
    /// Any other I/O failure, with its message.
    Other(String),
}

/// What loading the token file at `path` gives, once reading it gave `read`.
pub open spec fn loaded_token(path: Seq<char>, read: Result<String, ReadFailure>) -> Result<
    Seq<char>,
    KTalkErrorView,
> {
    match read {
        Ok(content) => parse_session_token(content@),
        Err(ReadFailure::NotFound) => Err(KTalkErrorView::AuthFileNotFound { path }),
        Err(ReadFailure::Other(m)) => Err(KTalkErrorView::Io(m@)),
    }
}

/// Loads session tokens from files.
#[derive(Debug, Clone, Copy, Default)]
pub struct TokenLoader;

impl TokenLoader {
    /// The token of the file at `path`, from what reading it gave: a missing
    /// file and other read failures are errors; the content is parsed as a
    /// token (see `SessionToken::parse`).
    pub fn load_from(&self, path: &str, read: Result<String, ReadFailure>) -> (r: Result<
        SessionToken,
        KTalkError,
    >)
        ensures
            match r {
                Ok(t) => loaded_token(path@, read) == Ok::<Seq<char>, KTalkErrorView>(t@),
                Err(e) => loaded_token(path@, read) == Err::<Seq<char>, KTalkErrorView>(e@),
            },
    {
        match read {
            Ok(content) => SessionToken::parse(content.as_str()),
            Err(ReadFailure::NotFound) => Err(KTalkError::AuthFileNotFound { path: path.to_owned() }),
            Err(ReadFailure::Other(m)) => Err(KTalkError::Io(m)),
        }
    }
}

} // verus!
