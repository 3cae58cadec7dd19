//! The library's error type.
use vstd::prelude::*;

verus! {

/// Every failure the library reports.
///
/// Failures that come from an outside service (HTTP, JSON, I/O) carry the
/// outside error's message.
#[derive(Debug, Clone)]
pub enum KTalkError {
    AuthFileNotFound { path: String },
    EmptyAuthToken,
    InvalidRoomLink(String),
    Http(String),
    Json(String),
    Io(String),
    Protocol(String),
    WebSocket(String),
    HttpRequest(String),
    UnsupportedAudioPublishing,
}

/// The model of a `KTalkError`: the same variants over character sequences.
pub enum KTalkErrorView {
    AuthFileNotFound { path: Seq<char> },
    EmptyAuthToken,
    InvalidRoomLink(Seq<char>),
    Http(Seq<char>),
    Json(Seq<char>),
    Io(Seq<char>),
    Protocol(Seq<char>),
    WebSocket(Seq<char>),
    HttpRequest(Seq<char>),
    UnsupportedAudioPublishing,
}

impl View for KTalkError {
    type V = KTalkErrorView;

    open spec fn view(&self) -> KTalkErrorView {
        match self {
            KTalkError::AuthFileNotFound { path } => KTalkErrorView::AuthFileNotFound {
                path: path@,
            },
            KTalkError::EmptyAuthToken => KTalkErrorView::EmptyAuthToken,
            KTalkError::InvalidRoomLink(s) => KTalkErrorView::InvalidRoomLink(s@),
            KTalkError::Http(s) => KTalkErrorView::Http(s@),
            KTalkError::Json(s) => KTalkErrorView::Json(s@),
            KTalkError::Io(s) => KTalkErrorView::Io(s@),
            KTalkError::Protocol(s) => KTalkErrorView::Protocol(s@),
            KTalkError::WebSocket(s) => KTalkErrorView::WebSocket(s@),
            KTalkError::HttpRequest(s) => KTalkErrorView::HttpRequest(s@),
            KTalkError::UnsupportedAudioPublishing => KTalkErrorView::UnsupportedAudioPublishing,
        }
    }
}

/// The human-readable message of an error.
pub open spec fn error_message(e: KTalkErrorView) -> Seq<char> {
    match e {
        KTalkErrorView::AuthFileNotFound { path } => "authentication file not found: "@ + path,
        KTalkErrorView::EmptyAuthToken => "authentication token is empty"@,
        KTalkErrorView::InvalidRoomLink(s) => "invalid room link: "@ + s,
        KTalkErrorView::Http(s) => "http request failed: "@ + s,
        KTalkErrorView::Json(s) => "json parsing failed: "@ + s,
        KTalkErrorView::Io(s) => "io operation failed: "@ + s,
        KTalkErrorView::Protocol(s) => "protocol error: "@ + s,
        KTalkErrorView::WebSocket(s) => "websocket failed: "@ + s,
        KTalkErrorView::HttpRequest(s) => "http request could not be built: "@ + s,
        KTalkErrorView::UnsupportedAudioPublishing => "audio publishing to the microphone is not supported"@,
    }
}

/// The Python exception class that stands for an error.
#[derive(Debug, Clone, Copy, PartialEq, Eq, Structural)]
pub enum PythonExceptionKind {
    IoError,
    ValueError,
    RuntimeError,
    NotImplementedError,
}

/// The status of a Node.js error that stands for an error.
#[derive(Debug, Clone, Copy, PartialEq, Eq, Structural)]
pub enum NodeErrorStatus {
    InvalidArg,
    GenericFailure,
}

/// File and I/O failures are I/O errors; a blank token or a bad room link is
/// a value error; unsupported audio publishing is not implemented; every
/// other failure is a runtime error.
pub open spec fn python_kind_of(e: KTalkErrorView) -> PythonExceptionKind {
    match e {
        KTalkErrorView::AuthFileNotFound { .. } => PythonExceptionKind::IoError,
        KTalkErrorView::Io(_) => PythonExceptionKind::IoError,
        KTalkErrorView::EmptyAuthToken => PythonExceptionKind::ValueError,
        KTalkErrorView::InvalidRoomLink(_) => PythonExceptionKind::ValueError,
        KTalkErrorView::UnsupportedAudioPublishing => PythonExceptionKind::NotImplementedError,
        _ => PythonExceptionKind::RuntimeError,
    }
}

/// A blank token or a bad room link is an invalid argument; everything else
/// is a generic failure.
pub open spec fn node_status_of(e: KTalkErrorView) -> NodeErrorStatus {
    match e {
        KTalkErrorView::EmptyAuthToken => NodeErrorStatus::InvalidArg,
        KTalkErrorView::InvalidRoomLink(_) => NodeErrorStatus::InvalidArg,
        _ => NodeErrorStatus::GenericFailure,
    }
}

impl KTalkError {
    /// The Python exception class for this error (see `python_kind_of`).
    pub fn python_exception_kind(&self) -> (k: PythonExceptionKind)
        ensures
            k == python_kind_of(self@),
    {
        match self {
            KTalkError::AuthFileNotFound { .. } | KTalkError::Io(_) => PythonExceptionKind::IoError,
            KTalkError::EmptyAuthToken | KTalkError::InvalidRoomLink(_) => PythonExceptionKind::ValueError,
            KTalkError::UnsupportedAudioPublishing => PythonExceptionKind::NotImplementedError,
            KTalkError::Http(_) | KTalkError::Json(_) | KTalkError::Protocol(_)
            | KTalkError::WebSocket(_) | KTalkError::HttpRequest(_) => PythonExceptionKind::RuntimeError,
        }
    }

    /// The Node.js status for this error (see `node_status_of`).
    pub fn node_status(&self) -> (st: NodeErrorStatus)
        ensures
            st == node_status_of(self@),
    {
        match self {
            KTalkError::EmptyAuthToken | KTalkError::InvalidRoomLink(_) => NodeErrorStatus::InvalidArg,
            _ => NodeErrorStatus::GenericFailure,
        }
    }

    /// The error's message.
    pub fn to_string(&self) -> (s: String)
        ensures
            s@ == error_message(self@),
    {
        match self {
            KTalkError::AuthFileNotFound { path } => "authentication file not found: ".to_owned().concat(path.as_str()),
            KTalkError::EmptyAuthToken => "authentication token is empty".to_owned(),
            KTalkError::InvalidRoomLink(s) => "invalid room link: ".to_owned().concat(s.as_str()),
            KTalkError::Http(s) => "http request failed: ".to_owned().concat(s.as_str()),
            KTalkError::Json(s) => "json parsing failed: ".to_owned().concat(s.as_str()),
            KTalkError::Io(s) => "io operation failed: ".to_owned().concat(s.as_str()),
            KTalkError::Protocol(s) => "protocol error: ".to_owned().concat(s.as_str()),
            KTalkError::WebSocket(s) => "websocket failed: ".to_owned().concat(s.as_str()),
            KTalkError::HttpRequest(s) => "http request could not be built: ".to_owned().concat(s.as_str()),
            KTalkError::UnsupportedAudioPublishing => "audio publishing to the microphone is not supported".to_owned(),
        }
    }
}

} // verus!
