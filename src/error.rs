use vstd::prelude::*;

use crate::messages::{ErrorDetails, ErrorView};

verus! {

/// A broken rule of a reconstructed stream.
#[derive(Debug, PartialEq, Eq)]
pub enum ProtocolViolation {
    /// A second end-of-turn signal came in one stream.
    DuplicatedTerminalSignal,
    /// Usage came with no end-of-turn signal waiting for it.
    MissingStopReason,
    /// The native stream sent an event that has no canonical form; it holds
    /// a description of that event.
    UnrecognizedEvent(String),
}

pub enum ViolationView {
    DuplicatedTerminalSignal,
    MissingStopReason,
    UnrecognizedEvent(Seq<char>),
}

impl View for ProtocolViolation {
    type V = ViolationView;

    open spec fn view(&self) -> ViolationView {
        match self {
            ProtocolViolation::DuplicatedTerminalSignal => ViolationView::DuplicatedTerminalSignal,
            ProtocolViolation::MissingStopReason => ViolationView::MissingStopReason,
            ProtocolViolation::UnrecognizedEvent(e) => ViolationView::UnrecognizedEvent(e@),
        }
    }
}

/// What a broken rule is, in words.
pub open spec fn violation_text(v: ViolationView) -> Seq<char> {
    match v {
        ViolationView::DuplicatedTerminalSignal => "duplicated terminal signal"@,
        ViolationView::MissingStopReason => "missing stop reason"@,
        ViolationView::UnrecognizedEvent(e) => "unrecognized native event: "@ + e,
    }
}

/// Every way a request or a stream can fail.
#[derive(Debug)]
pub enum ClientError {
    /// A mandatory field of a request was never set; it holds the field's name.
    Validation(String),
    /// No credential could be had.
    Auth(String),
    /// The transport failed.
    Transport(String),
    /// A body matched no known shape; it holds the body.
    Decode(String),
    /// The backend reported an error.
    Api(ErrorDetails),
    /// A reconstructed stream broke its rules.
    Protocol(ProtocolViolation),
}

pub enum ClientErrorView {
    Validation(Seq<char>),
    Auth(Seq<char>),
    Transport(Seq<char>),
    Decode(Seq<char>),
    Api(ErrorView),
    Protocol(ViolationView),
}

impl View for ClientError {
    type V = ClientErrorView;

    open spec fn view(&self) -> ClientErrorView {
        match self {
            ClientError::Validation(s) => ClientErrorView::Validation(s@),
            ClientError::Auth(s) => ClientErrorView::Auth(s@),
            ClientError::Transport(s) => ClientErrorView::Transport(s@),
            ClientError::Decode(s) => ClientErrorView::Decode(s@),
            ClientError::Api(e) => ClientErrorView::Api(e@),
            ClientError::Protocol(p) => ClientErrorView::Protocol(p@),
        }
    }
}

impl ProtocolViolation {
    /// What went wrong, in words.
    pub fn describe(&self) -> (r: String)
        ensures
            r@ == violation_text(self@),
    {
        match self {
            ProtocolViolation::DuplicatedTerminalSignal => String::from_str("duplicated terminal signal"),
            ProtocolViolation::MissingStopReason => String::from_str("missing stop reason"),
            ProtocolViolation::UnrecognizedEvent(e) => String::from_str("unrecognized native event: ").concat(e.as_str()),
        }
    }
}

impl ClientError {
    /// What went wrong, in words: the category, then what it carries.
    pub fn describe(&self) -> (r: String)
        ensures
            r@ == (match self@ {
                ClientErrorView::Validation(f) => f + " is required"@,
                ClientErrorView::Auth(s) => "authentication failed: "@ + s,
                ClientErrorView::Transport(s) => "transport failed: "@ + s,
                ClientErrorView::Decode(s) => "unexpected body: "@ + s,
                ClientErrorView::Api(e) => e.kind + ": "@ + e.message,
                ClientErrorView::Protocol(p) => "protocol violation: "@ + violation_text(p),
            }),
    {
        match self {
            ClientError::Validation(f) => f.clone().concat(" is required"),
            ClientError::Auth(s) => String::from_str("authentication failed: ").concat(s.as_str()),
            ClientError::Transport(s) => String::from_str("transport failed: ").concat(s.as_str()),
            ClientError::Decode(s) => String::from_str("unexpected body: ").concat(s.as_str()),
            ClientError::Api(e) => e.kind.clone().concat(": ").concat(e.message.as_str()),
            ClientError::Protocol(p) => String::from_str("protocol violation: ").concat(p.describe().as_str()),
        }
    }
}

} // verus!
