//! What can go wrong between the bot, the store and the chat services.

use crate::kv;
use vstd::prelude::*;
use vstd::string::*;

verus! {

/// The model of an [`Error`].
pub enum ErrorView {
    Jv(Seq<char>),
    SerdeJson(Seq<char>),
    Kv(kv::ErrorView),
    KvFailed,
    KvNoResult,
    NoWindow,
}

/// A failure, as the host or the store reported it.
#[derive(Debug, PartialEq, Eq)]
pub enum Error {
    /// The host's runtime failed; the text is its complaint.
    Jv(String),
    /// A JSON text could not be read or written; the text says why.
    SerdeJson(String),
    /// The store refused the operation; this is the first error it listed.
    Kv(kv::Error),
    /// The store reported a failure and listed no error.
    KvFailed,
    /// The store reported success and left the result out.
    KvNoResult,
    /// The host has nothing to send a request with.
    NoWindow,
}

impl View for Error {
    type V = ErrorView;

    open spec fn view(&self) -> ErrorView {
        match self {
            Error::Jv(text) => ErrorView::Jv(text@),
            Error::SerdeJson(text) => ErrorView::SerdeJson(text@),
            Error::Kv(e) => ErrorView::Kv(e@),
            Error::KvFailed => ErrorView::KvFailed,
            Error::KvNoResult => ErrorView::KvNoResult,
            Error::NoWindow => ErrorView::NoWindow,
        }
    }
}

impl ErrorView {
    /// The failure in words.
    pub open spec fn text(self) -> Seq<char> {
        match self {
            ErrorView::Jv(text) => text,
            ErrorView::SerdeJson(text) => text,
            ErrorView::Kv(e) => e.text(),
            ErrorView::KvFailed => "kv reported a failure without an error"@,
            ErrorView::KvNoResult => "kv returned no result"@,
            ErrorView::NoWindow => "The runtime doesn't expose a Window interface"@,
        }
    }
}

impl Error {
    /// The failure in words.
    pub fn to_string(&self) -> (text: String)
        ensures
            text@ == self@.text(),
    {
        match self {
            Error::Jv(text) => text.clone(),
            Error::SerdeJson(text) => text.clone(),
            Error::Kv(e) => e.to_string(),
            Error::KvFailed => String::from_str("kv reported a failure without an error"),
            Error::KvNoResult => String::from_str("kv returned no result"),
            Error::NoWindow => String::from_str("The runtime doesn't expose a Window interface"),
        }
    }
}

} // verus!
