//! The error kinds of the library.

use vstd::prelude::*;

verus! {

/// Why an operation failed. The text, where a kind carries one, is what the
/// underlying layer reported.
#[derive(Debug, PartialEq, Eq)]
pub enum Error {
    /// The metadata resolver could not be reached or gave no usable answer.
    ResolveFailed(String),
    /// The stream is not live.
    StreamOffline,
    /// The WebSocket could not be opened.
    ConnectionFailed(String),
    /// The TLS handshake was refused.
    TlsHandshakeFailed(String),
    /// Reading from or writing to the open WebSocket failed.
    WebSocketIo(String),
    /// A frame is shorter than its header, or does not fit the header's
    /// fixed-width fields.
    InvalidFrame,
    /// A channel between the handle and the session is closed or full, or an
    /// inbound payload could not be decoded.
    InternalChannel(String),
    /// `start` was called a second time.
    AlreadyStarted,
    /// The endpoint address could not be formed.
    UrlParse(String),
    /// The service answered, but not with what was asked for.
    ApiError(String),
    /// An XML document cannot be read.
    Xml(String),
}

/// The mathematical model of an [`Error`].
pub enum ErrorView {
    ResolveFailed(Seq<char>),
    StreamOffline,
    ConnectionFailed(Seq<char>),
    TlsHandshakeFailed(Seq<char>),
    WebSocketIo(Seq<char>),
    InvalidFrame,
    InternalChannel(Seq<char>),
    AlreadyStarted,
    UrlParse(Seq<char>),
    ApiError(Seq<char>),
    Xml(Seq<char>),
}

impl View for Error {
    type V = ErrorView;

    open spec fn view(&self) -> ErrorView {
        match *self {
            Error::ResolveFailed(s) => ErrorView::ResolveFailed(s@),
            Error::StreamOffline => ErrorView::StreamOffline,
            Error::ConnectionFailed(s) => ErrorView::ConnectionFailed(s@),
            Error::TlsHandshakeFailed(s) => ErrorView::TlsHandshakeFailed(s@),
            Error::WebSocketIo(s) => ErrorView::WebSocketIo(s@),
            Error::InvalidFrame => ErrorView::InvalidFrame,
            Error::InternalChannel(s) => ErrorView::InternalChannel(s@),
            Error::AlreadyStarted => ErrorView::AlreadyStarted,
            Error::UrlParse(s) => ErrorView::UrlParse(s@),
            Error::ApiError(s) => ErrorView::ApiError(s@),
            Error::Xml(s) => ErrorView::Xml(s@),
        }
    }
}

} // verus!
