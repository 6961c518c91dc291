//! The store-accessor policy: how the outcomes of the blocking open /
//! create / fetch / set calls are turned into caller-visible responses.
//!
//! The calls themselves are performed outside the verified core (they are
//! OS calls of unbounded duration, run on the worker thread); their
//! outcomes come back as plain values, and the functions here decide, for
//! every possible outcome, what the request resolves to.  The deliberate
//! normalization lives here: on the read path a not-found condition —
//! whether of the key path or of the value name — is "absent", not an
//! error, while any other failure propagates verbatim.

use vstd::prelude::*;

use crate::codec::decode;
use crate::codec::spec_decode;
use crate::outcome::ReadOutcome;
use crate::outcome::ReadOutcomeModel;
use crate::outcome::RequestError;
use crate::outcome::RequestErrorModel;
use crate::outcome::Response;
use crate::outcome::ResponseModel;
use crate::value::NativeData;
use crate::value::NativeDataModel;

verus! {

/// The outcome of resolving a key path within a root for reading.
#[derive(Debug, PartialEq, Eq)]
pub enum OpenOutcome {
    Opened,
    NotFound,
    Failed(String),
}

/// The mathematical model of an `OpenOutcome`.
pub enum OpenOutcomeModel {
    Opened,
    NotFound,
    Failed(Seq<char>),
}

impl View for OpenOutcome {
    type V = OpenOutcomeModel;

    open spec fn view(&self) -> OpenOutcomeModel {
        match self {
            OpenOutcome::Opened => OpenOutcomeModel::Opened,
            OpenOutcome::NotFound => OpenOutcomeModel::NotFound,
            OpenOutcome::Failed(m) => OpenOutcomeModel::Failed(m@),
        }
    }
}

/// The outcome of resolving a key path for writing, creating intermediate
/// structure if absent.  Unlike the read path there is no not-found
/// normalization: every failure propagates with its message.
#[derive(Debug, PartialEq, Eq)]
pub enum CreateOutcome {
    Created,
    Failed(String),
}

/// The mathematical model of a `CreateOutcome`.
pub enum CreateOutcomeModel {
    Created,
    Failed(Seq<char>),
}

impl View for CreateOutcome {
    type V = CreateOutcomeModel;

    open spec fn view(&self) -> CreateOutcomeModel {
        match self {
            CreateOutcome::Created => CreateOutcomeModel::Created,
            CreateOutcome::Failed(m) => CreateOutcomeModel::Failed(m@),
        }
    }
}

/// The outcome of fetching a named value under a resolved key.
#[derive(Debug, PartialEq, Eq)]
pub enum FetchOutcome {
    Fetched(NativeData),
    NotFound,
    Failed(String),
}

/// The mathematical model of a `FetchOutcome`.
pub enum FetchOutcomeModel {
    Fetched(NativeDataModel),
    NotFound,
    Failed(Seq<char>),
}

impl View for FetchOutcome {
    type V = FetchOutcomeModel;

    open spec fn view(&self) -> FetchOutcomeModel {
        match self {
            FetchOutcome::Fetched(d) => FetchOutcomeModel::Fetched(d@),
            FetchOutcome::NotFound => FetchOutcomeModel::NotFound,
            FetchOutcome::Failed(m) => FetchOutcomeModel::Failed(m@),
        }
    }
}

/// The outcome of setting a named value under a resolved key.
#[derive(Debug, PartialEq, Eq)]
pub enum SetOutcome {
    Done,
    Failed(String),
}

/// The mathematical model of a `SetOutcome`.
pub enum SetOutcomeModel {
    Done,
    Failed(Seq<char>),
}

impl View for SetOutcome {
    type V = SetOutcomeModel;

    open spec fn view(&self) -> SetOutcomeModel {
        match self {
            SetOutcome::Done => SetOutcomeModel::Done,
            SetOutcome::Failed(m) => SetOutcomeModel::Failed(m@),
        }
    }
}

/// Whether a request is finished with a response, or the next store call
/// should proceed.
#[derive(Debug, PartialEq, Eq)]
pub enum Step {
    Proceed,
    Done(Response),
}

/// The mathematical model of a `Step`.
pub enum StepModel {
    Proceed,
    Done(ResponseModel),
}

impl View for Step {
    type V = StepModel;

    open spec fn view(&self) -> StepModel {
        match self {
            Step::Proceed => StepModel::Proceed,
            Step::Done(r) => StepModel::Done(r@),
        }
    }
}

/// What the read path decides after the open call.
pub open spec fn spec_read_after_open(o: OpenOutcomeModel) -> StepModel {
    match o {
        OpenOutcomeModel::Opened => StepModel::Proceed,
        OpenOutcomeModel::NotFound => StepModel::Done(
            ResponseModel::Read(ReadOutcomeModel::Absent),
        ),
        OpenOutcomeModel::Failed(m) => StepModel::Done(
            ResponseModel::Rejected(RequestErrorModel::Store(m)),
        ),
    }
}

/// Decides the read path after the open call: a missing key is the
/// "absent" outcome, any other failure is a rejection carrying the store's
/// message, and only a resolved key proceeds to the fetch.
pub fn read_after_open(o: OpenOutcome) -> (r: Step)
    ensures
        r@ == spec_read_after_open(o@),
{
    match o {
        OpenOutcome::Opened => Step::Proceed,
        OpenOutcome::NotFound => Step::Done(Response::Read(ReadOutcome::Absent)),
        OpenOutcome::Failed(m) => Step::Done(Response::Rejected(RequestError::Store(m))),
    }
}

/// What the read path resolves to after the fetch call.
pub open spec fn spec_read_after_fetch(f: FetchOutcomeModel) -> ResponseModel {
    match f {
        FetchOutcomeModel::Fetched(d) => match spec_decode(d) {
            Ok(p) => ResponseModel::Read(ReadOutcomeModel::Present(p)),
            Err(k) => ResponseModel::Rejected(RequestErrorModel::UnsupportedType(k)),
        },
        FetchOutcomeModel::NotFound => ResponseModel::Read(ReadOutcomeModel::Absent),
        FetchOutcomeModel::Failed(m) => ResponseModel::Rejected(RequestErrorModel::Store(m)),
    }
}

/// Resolves the read path after the fetch call: a fetched value is decoded
/// (a foreign kind is rejected, naming it), a missing value name is the
/// "absent" outcome, and any other failure is a rejection carrying the
/// store's message.
pub fn read_after_fetch(f: FetchOutcome) -> (r: Response)
    ensures
        r@ == spec_read_after_fetch(f@),
{
    match f {
        FetchOutcome::Fetched(d) => match decode(d) {
            Ok(p) => Response::Read(ReadOutcome::Present(p)),
            Err(k) => Response::Rejected(RequestError::UnsupportedType(k)),
        },
        FetchOutcome::NotFound => Response::Read(ReadOutcome::Absent),
        FetchOutcome::Failed(m) => Response::Rejected(RequestError::Store(m)),
    }
}

/// What the write path decides after the create call.
pub open spec fn spec_write_after_create(o: CreateOutcomeModel) -> StepModel {
    match o {
        CreateOutcomeModel::Created => StepModel::Proceed,
        CreateOutcomeModel::Failed(m) => StepModel::Done(
            ResponseModel::Rejected(RequestErrorModel::Store(m)),
        ),
    }
}

/// Decides the write path after the create call: any failure is a
/// rejection carrying the store's message; a resolved key proceeds to the
/// set.
pub fn write_after_create(o: CreateOutcome) -> (r: Step)
    ensures
        r@ == spec_write_after_create(o@),
{
    match o {
        CreateOutcome::Created => Step::Proceed,
        CreateOutcome::Failed(m) => Step::Done(Response::Rejected(RequestError::Store(m))),
    }
}

/// What the write path resolves to after the set call.
pub open spec fn spec_write_after_set(s: SetOutcomeModel) -> ResponseModel {
    match s {
        SetOutcomeModel::Done => ResponseModel::Written,
        SetOutcomeModel::Failed(m) => ResponseModel::Rejected(RequestErrorModel::Store(m)),
    }
}

/// Resolves the write path after the set call: success acknowledges the
/// write, and any failure propagates the store's message verbatim.
pub fn write_after_set(s: SetOutcome) -> (r: Response)
    ensures
        r@ == spec_write_after_set(s@),
{
    match s {
        SetOutcome::Done => Response::Written,
        SetOutcome::Failed(m) => Response::Rejected(RequestError::Store(m)),
    }
}

/// Absence law: a not-found condition on the read path — at the key or at
/// the value name — always resolves to the "absent" outcome, never to an
/// error.
pub proof fn lemma_read_not_found_is_absent()
    ensures
        spec_read_after_open(OpenOutcomeModel::NotFound) == StepModel::Done(
            ResponseModel::Read(ReadOutcomeModel::Absent),
        ),
        spec_read_after_fetch(FetchOutcomeModel::NotFound) == ResponseModel::Read(
            ReadOutcomeModel::Absent,
        ),
{
}

} // verus!
