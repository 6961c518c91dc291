//! The worker side of the bridge: the control messages carried by the
//! dispatch channel, the two-state worker lifecycle, and the execution of
//! one request at a time against the store.
//!
//! The worker owns the single thread that drains the channel; the loop
//! itself runs at the OS boundary, and every decision it takes is a
//! function here: what a control message does to the worker's state, and
//! what a request does to the store and to its deferred result.

use vstd::prelude::*;

use crate::accessor::read_after_fetch;
use crate::accessor::read_after_open;
use crate::accessor::write_after_create;
use crate::accessor::write_after_set;
use crate::accessor::Step;
use crate::outcome::Response;
use crate::outcome::ResponseModel;
use crate::root::AccessMode;
use crate::root::StoreRoot;
use crate::store::spec_read_response;
use crate::store::spec_store_create;
use crate::store::spec_store_set;
use crate::store::ModelStore;
use crate::store::StoreModel;
use crate::value::NativeData;
use crate::value::NativeDataModel;
use crate::value::Value;
use crate::value::ValueModel;

verus! {

/// What a request asks of the store: fetch the named value, or set it to
/// a codec-produced native value.
#[derive(Debug, PartialEq, Eq)]
pub enum Operation {
    Read,
    Write(Value),
}

/// The mathematical model of an `Operation`.
pub enum OperationModel {
    Read,
    Write(ValueModel),
}

/// The permission an operation requests when its key path is resolved.
pub open spec fn spec_access_of(op: OperationModel) -> AccessMode {
    match op {
        OperationModel::Read => AccessMode::Read,
        OperationModel::Write(_) => AccessMode::Write,
    }
}

impl Operation {
    /// The permission this operation requests when its key path is
    /// resolved: reads open with read access, writes with write access.
    pub fn access(&self) -> (r: AccessMode)
        ensures
            r == spec_access_of(self@),
    {
        match self {
            Operation::Read => AccessMode::Read,
            Operation::Write(_) => AccessMode::Write,
        }
    }
}

impl View for Operation {
    type V = OperationModel;

    open spec fn view(&self) -> OperationModel {
        match self {
            Operation::Read => OperationModel::Read,
            Operation::Write(v) => OperationModel::Write(v@),
        }
    }
}

/// One validated request: the operation, the already-resolved root, the
/// key path and value name, and the token of the deferred result that the
/// worker resolves exactly once.  Created on the caller's thread, consumed
/// exactly once by the worker.
#[derive(Debug, PartialEq, Eq)]
pub struct Request {
    pub token: u64,
    pub root: StoreRoot,
    pub path: String,
    pub name: String,
    pub op: Operation,
}

/// The mathematical model of a `Request`.
pub struct RequestModel {
    pub token: u64,
    pub root: StoreRoot,
    pub path: Seq<char>,
    pub name: Seq<char>,
    pub op: OperationModel,
}

impl View for Request {
    type V = RequestModel;

    open spec fn view(&self) -> RequestModel {
        RequestModel {
            token: self.token,
            root: self.root,
            path: self.path@,
            name: self.name@,
            op: self.op@,
        }
    }
}

impl DeepView for Request {
    type V = RequestModel;

    open spec fn deep_view(&self) -> RequestModel {
        self.view()
    }
}

/// The unit placed on the dispatch channel: execute a request, or shut
/// the worker down.
#[derive(Debug, PartialEq, Eq)]
pub enum ControlMessage {
    Execute(Request),
    Shutdown,
}

/// The mathematical model of a `ControlMessage`.
pub enum ControlMessageModel {
    Execute(RequestModel),
    Shutdown,
}

impl View for ControlMessage {
    type V = ControlMessageModel;

    open spec fn view(&self) -> ControlMessageModel {
        match self {
            ControlMessage::Execute(r) => ControlMessageModel::Execute(r@),
            ControlMessage::Shutdown => ControlMessageModel::Shutdown,
        }
    }
}

impl DeepView for ControlMessage {
    type V = ControlMessageModel;

    open spec fn deep_view(&self) -> ControlMessageModel {
        self.view()
    }
}

/// The worker's lifecycle: it runs until a shutdown message arrives, and
/// `Stopped` is terminal — a new service must be constructed to resume.
#[derive(Clone, Copy, Debug, PartialEq, Eq, Structural)]
pub enum WorkerState {
    Running,
    Stopped,
}

/// The store contents after one request: a read changes nothing; a write
/// resolves its key path with create-if-missing semantics and then sets
/// the named value.
pub open spec fn spec_store_after(m: StoreModel, req: RequestModel) -> StoreModel {
    match req.op {
        OperationModel::Read => m,
        OperationModel::Write(v) => spec_store_set(
            spec_store_create(m, req.root, req.path),
            req.root,
            req.path,
            req.name,
            NativeDataModel::Known(v),
        ),
    }
}

/// What a request's deferred result resolves to, executed against store
/// contents `m`: a read resolves to the read response, a write (which the
/// model store always accepts) to the write acknowledgement.
pub open spec fn spec_response_of(m: StoreModel, req: RequestModel) -> ResponseModel {
    match req.op {
        OperationModel::Read => spec_read_response(m, req.root, req.path, req.name),
        OperationModel::Write(_) => ResponseModel::Written,
    }
}

/// Executes one request against the model store, yielding the response
/// that resolves its deferred result.  Requests are executed one at a
/// time; this function is the whole of what one execution does.
pub fn execute_request(store: &mut ModelStore, req: &Request) -> (r: Response)
    ensures
        final(store)@ == spec_store_after(old(store)@, req@),
        r@ == spec_response_of(old(store)@, req@),
{
    match &req.op {
        Operation::Read => {
            match read_after_open(store.open_read(req.root, &req.path)) {
                Step::Done(resp) => resp,
                Step::Proceed => read_after_fetch(store.fetch(req.root, &req.path, &req.name)),
            }
        },
        Operation::Write(v) => {
            match write_after_create(store.create_write(req.root, &req.path)) {
                Step::Done(resp) => resp,
                Step::Proceed => write_after_set(
                    store.set(req.root, &req.path, &req.name, NativeData::Known(v.duplicate())),
                ),
            }
        },
    }
}

/// What one received control message does to the worker's state: a
/// request keeps it running, a shutdown stops it for good.
pub open spec fn spec_worker_state_after(state: WorkerState, msg: ControlMessageModel) -> WorkerState {
    match msg {
        ControlMessageModel::Execute(_) => state,
        ControlMessageModel::Shutdown => WorkerState::Stopped,
    }
}

/// Takes the worker's state transition for one received control message.
/// The worker only receives while running; `Stopped` is terminal.
pub fn worker_state_after(state: WorkerState, msg: &ControlMessage) -> (r: WorkerState)
    requires
        state == WorkerState::Running,
    ensures
        r == spec_worker_state_after(state, msg@),
{
    match msg {
        ControlMessage::Execute(_) => state,
        ControlMessage::Shutdown => WorkerState::Stopped,
    }
}

} // verus!
