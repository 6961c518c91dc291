//! The caller-visible outcome of a request, as it is delivered through the
//! deferred-result resolution path.

use vstd::prelude::*;

use crate::codec::Payload;
use crate::codec::PayloadModel;
use crate::value::ForeignKind;

verus! {

/// The outcome of a read: either the distinguished "no such value" marker
/// (missing key and missing value name both surface here), or the decoded
/// value.  `Present(Payload::Null)` — an empty value — is distinct from
/// `Absent`.
#[derive(Clone, Debug, PartialEq, Eq)]
pub enum ReadOutcome {
    Absent,
    Present(Payload),
}

/// The mathematical model of a `ReadOutcome`.
pub enum ReadOutcomeModel {
    Absent,
    Present(PayloadModel),
}

impl View for ReadOutcome {
    type V = ReadOutcomeModel;

    open spec fn view(&self) -> ReadOutcomeModel {
        match self {
            ReadOutcome::Absent => ReadOutcomeModel::Absent,
            ReadOutcome::Present(p) => ReadOutcomeModel::Present(p@),
        }
    }
}

/// An asynchronous rejection: a store failure propagated verbatim as a
/// message, a fetched native kind with no caller-facing representation, or
/// a submission after the service shut down.
#[derive(Clone, Debug, PartialEq, Eq)]
pub enum RequestError {
    Store(String),
    UnsupportedType(ForeignKind),
    ChannelClosed,
}

/// The mathematical model of a `RequestError`.
pub enum RequestErrorModel {
    Store(Seq<char>),
    UnsupportedType(ForeignKind),
    ChannelClosed,
}

impl View for RequestError {
    type V = RequestErrorModel;

    open spec fn view(&self) -> RequestErrorModel {
        match self {
            RequestError::Store(m) => RequestErrorModel::Store(m@),
            RequestError::UnsupportedType(k) => RequestErrorModel::UnsupportedType(*k),
            RequestError::ChannelClosed => RequestErrorModel::ChannelClosed,
        }
    }
}

/// What resolves a request's deferred result: a read outcome, a write
/// acknowledgement, or a rejection.
#[derive(Clone, Debug, PartialEq, Eq)]
pub enum Response {
    Read(ReadOutcome),
    Written,
    Rejected(RequestError),
}

/// The mathematical model of a `Response`.
pub enum ResponseModel {
    Read(ReadOutcomeModel),
    Written,
    Rejected(RequestErrorModel),
}

impl View for Response {
    type V = ResponseModel;

    open spec fn view(&self) -> ResponseModel {
        match self {
            Response::Read(o) => ResponseModel::Read(o@),
            Response::Written => ResponseModel::Written,
            Response::Rejected(e) => ResponseModel::Rejected(e@),
        }
    }
}

} // verus!
