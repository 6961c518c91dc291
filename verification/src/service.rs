//! The boundary surface of the bridge, run against the model store: the
//! synchronous input validation on the caller's side, the FIFO dispatch
//! queue, and the worker draining it one request at a time.
//!
//! In the deployed bridge the queue is an OS channel and the drain runs on
//! the worker thread; here the same protocol runs synchronously, so that
//! what it guarantees — submission order is execution order, every
//! accepted request is resolved exactly once, nothing reaches the store
//! after shutdown — can be stated and proved.

use vstd::prelude::*;
use vstd::string::StringExecFns;

use crate::codec::encode;
use crate::codec::spec_encode;
use crate::codec::spec_tag_of_name;
use crate::codec::tag_of_name;
use crate::codec::EncodeError;
use crate::codec::Payload;
use crate::outcome::RequestError;
use crate::outcome::RequestErrorModel;
use crate::outcome::Response;
use crate::outcome::ResponseModel;
use crate::root::root_of_name;
use crate::root::spec_root_of_name;
use crate::store::ModelStore;
use crate::store::StoreModel;
use crate::worker::execute_request;
use crate::worker::spec_response_of;
use crate::worker::spec_store_after;
use crate::worker::ControlMessage;
use crate::worker::ControlMessageModel;
use crate::worker::Operation;
use crate::worker::Request;
use crate::worker::RequestModel;
use crate::worker::WorkerState;

verus! {

/// A synchronous input error, detected on the caller's thread before any
/// message is queued: an unknown root name, an unknown type tag, or a
/// payload that does not fit the tag.
#[derive(Debug, PartialEq, Eq)]
pub enum InputError {
    UnknownRoot(String),
    UnknownTag(String),
    BadPayload(EncodeError),
}

/// The mathematical model of an `InputError`.
pub enum InputErrorModel {
    UnknownRoot(Seq<char>),
    UnknownTag(Seq<char>),
    BadPayload(EncodeError),
}

impl View for InputError {
    type V = InputErrorModel;

    open spec fn view(&self) -> InputErrorModel {
        match self {
            InputError::UnknownRoot(s) => InputErrorModel::UnknownRoot(s@),
            InputError::UnknownTag(s) => InputErrorModel::UnknownTag(s@),
            InputError::BadPayload(e) => InputErrorModel::BadPayload(*e),
        }
    }
}

/// One settled deferred result: which token, and what it resolved to.
/// Resolution is exactly-once; the ledger records them in resolution
/// order.
#[derive(Debug, PartialEq, Eq)]
pub struct Resolution {
    pub token: u64,
    pub response: Response,
}

/// The mathematical model of a `Resolution`.
pub struct ResolutionModel {
    pub token: u64,
    pub response: ResponseModel,
}

impl View for Resolution {
    type V = ResolutionModel;

    open spec fn view(&self) -> ResolutionModel {
        ResolutionModel { token: self.token, response: self.response@ }
    }
}

impl DeepView for Resolution {
    type V = ResolutionModel;

    open spec fn deep_view(&self) -> ResolutionModel {
        self.view()
    }
}

/// The mathematical model of a `Service`.
#[verifier::ext_equal]
pub struct ServiceModel {
    pub queue: Seq<ControlMessageModel>,
    pub state: WorkerState,
    pub store: StoreModel,
    pub resolutions: Seq<ResolutionModel>,
    pub next_token: u64,
}

/// One service instance bridging callers to the model store: the pending
/// FIFO queue, the worker's state, the store it executes against, the
/// ledger of settled deferred results, and the next fresh token.
#[derive(Debug)]
pub struct Service {
    pub queue: Vec<ControlMessage>,
    pub state: WorkerState,
    pub store: ModelStore,
    pub resolutions: Vec<Resolution>,
    pub next_token: u64,
}

impl View for Service {
    type V = ServiceModel;

    open spec fn view(&self) -> ServiceModel {
        ServiceModel {
            queue: self.queue.deep_view(),
            state: self.state,
            store: self.store@,
            resolutions: self.resolutions.deep_view(),
            next_token: self.next_token,
        }
    }
}

/// The service after a validated request was handed to the dispatch
/// channel: while the worker runs, the request joins the FIFO queue; once
/// the worker has terminated, the channel refuses it and its deferred
/// result is resolved — on the submitting side, at once — with the
/// channel-closed rejection.
pub open spec fn spec_enqueue(m: ServiceModel, req: RequestModel) -> ServiceModel {
    if m.state == WorkerState::Running {
        ServiceModel { queue: m.queue.push(ControlMessageModel::Execute(req)), ..m }
    } else {
        ServiceModel {
            resolutions: m.resolutions.push(
                ResolutionModel {
                    token: req.token,
                    response: ResponseModel::Rejected(RequestErrorModel::ChannelClosed),
                },
            ),
            ..m
        }
    }
}

/// The service model with the next fresh token taken.
pub open spec fn spec_take_token(m: ServiceModel) -> ServiceModel {
    ServiceModel { next_token: (m.next_token + 1) as u64, ..m }
}

/// What the worker does with the one control message at the head of the
/// queue: a request is executed against the store and its deferred result
/// resolved with the response; a shutdown stops the worker for good.
pub open spec fn spec_service_step(m: ServiceModel) -> ServiceModel
    recommends
        m.queue.len() > 0,
        m.state == WorkerState::Running,
{
    match m.queue[0] {
        ControlMessageModel::Execute(req) => ServiceModel {
            queue: m.queue.drop_first(),
            store: spec_store_after(m.store, req),
            resolutions: m.resolutions.push(
                ResolutionModel { token: req.token, response: spec_response_of(m.store, req) },
            ),
            ..m
        },
        ControlMessageModel::Shutdown => ServiceModel {
            queue: m.queue.drop_first(),
            state: WorkerState::Stopped,
            ..m
        },
    }
}

/// The service after the worker drained its queue: messages are consumed
/// strictly in arrival order, one at a time, until the queue is empty or a
/// shutdown message stopped the worker; whatever was queued behind the
/// shutdown is abandoned, never executed and never resolved.
pub open spec fn spec_run(m: ServiceModel) -> ServiceModel
    decreases m.queue.len(),
{
    if m.state != WorkerState::Running || m.queue.len() == 0 {
        m
    } else {
        spec_run(spec_service_step(m))
    }
}

impl Service {
    /// Spins up one service instance: a running worker, an empty queue,
    /// nothing resolved yet.
    pub fn create(store: ModelStore) -> (s: Service)
        ensures
            s@.queue.len() == 0,
            s@.state == WorkerState::Running,
            s@.store == store@,
            s@.resolutions.len() == 0,
            s@.next_token == 0,
    {
        let s = Service {
            queue: Vec::new(),
            state: WorkerState::Running,
            store,
            resolutions: Vec::new(),
            next_token: 0,
        };
        proof {
            assert(s@.queue =~= Seq::<ControlMessageModel>::empty());
            assert(s@.resolutions =~= Seq::<ResolutionModel>::empty());
        }
        s
    }

    /// Validates and submits a read request.  An unknown root name is a
    /// synchronous error and the service — queue, store, ledger, token —
    /// is left untouched: the request never reaches the worker.  A valid
    /// one takes a fresh token and is handed to the channel.
    pub fn submit_read(&mut self, root_name: &str, path: String, name: String) -> (r: Result<
        u64,
        InputError,
    >)
        requires
            old(self).next_token < u64::MAX,
        ensures
            match r {
                Ok(token) => {
                    &&& spec_root_of_name(root_name@) is Some
                    &&& token == old(self)@.next_token
                    &&& final(self)@ == spec_enqueue(
                        spec_take_token(old(self)@),
                        RequestModel {
                            token,
                            root: spec_root_of_name(root_name@)->Some_0,
                            path: path@,
                            name: name@,
                            op: crate::worker::OperationModel::Read,
                        },
                    )
                },
                Err(e) => {
                    &&& spec_root_of_name(root_name@) is None
                    &&& e@ == InputErrorModel::UnknownRoot(root_name@)
                    &&& final(self)@ == old(self)@
                },
            },
    {
        match root_of_name(root_name) {
            None => Err(InputError::UnknownRoot(String::from_str(root_name))),
            Some(root) => {
                let token = self.next_token;
                self.next_token = token + 1;
                let req = Request { token, root, path, name, op: Operation::Read };
                self.enqueue(req);
                Ok(token)
            },
        }
    }

    /// Validates and submits a write request.  An unknown root name, an
    /// unknown type tag and a payload that does not fit the tag are
    /// synchronous errors, in that order of checking, and leave the
    /// service untouched: such a request never reaches the worker.  A
    /// valid one carries its codec-encoded value and a fresh token.
    pub fn submit_write(
        &mut self,
        root_name: &str,
        path: String,
        name: String,
        tag_name: &str,
        payload: Payload,
    ) -> (r: Result<u64, InputError>)
        requires
            old(self).next_token < u64::MAX,
        ensures
            match r {
                Ok(token) => {
                    &&& spec_root_of_name(root_name@) is Some
                    &&& spec_tag_of_name(tag_name@) is Some
                    &&& spec_encode(spec_tag_of_name(tag_name@)->Some_0, payload@) is Ok
                    &&& token == old(self)@.next_token
                    &&& final(self)@ == spec_enqueue(
                        spec_take_token(old(self)@),
                        RequestModel {
                            token,
                            root: spec_root_of_name(root_name@)->Some_0,
                            path: path@,
                            name: name@,
                            op: crate::worker::OperationModel::Write(
                                spec_encode(spec_tag_of_name(tag_name@)->Some_0, payload@)->Ok_0,
                            ),
                        },
                    )
                },
                Err(e) => {
                    &&& final(self)@ == old(self)@
                    &&& match e@ {
                        InputErrorModel::UnknownRoot(s) => s == root_name@ && spec_root_of_name(
                            root_name@,
                        ) is None,
                        InputErrorModel::UnknownTag(s) => {
                            &&& s == tag_name@
                            &&& spec_root_of_name(root_name@) is Some
                            &&& spec_tag_of_name(tag_name@) is None
                        },
                        InputErrorModel::BadPayload(err) => {
                            &&& spec_root_of_name(root_name@) is Some
                            &&& spec_tag_of_name(tag_name@) is Some
                            &&& spec_encode(spec_tag_of_name(tag_name@)->Some_0, payload@)
                                == Err::<crate::value::ValueModel, EncodeError>(err)
                        },
                    }
                },
            },
    {
        let root = match root_of_name(root_name) {
            None => {
                return Err(InputError::UnknownRoot(String::from_str(root_name)));
            },
            Some(root) => root,
        };
        let tag = match tag_of_name(tag_name) {
            None => {
                return Err(InputError::UnknownTag(String::from_str(tag_name)));
            },
            Some(tag) => tag,
        };
        let value = match encode(tag, payload) {
            Err(e) => {
                return Err(InputError::BadPayload(e));
            },
            Ok(v) => v,
        };
        let token = self.next_token;
        self.next_token = token + 1;
        let req = Request { token, root, path, name, op: Operation::Write(value) };
        self.enqueue(req);
        Ok(token)
    }

    /// Requests shutdown: the shutdown message joins the same FIFO queue,
    /// so every request submitted before it is still serviced.  Once the
    /// worker has already terminated the channel refuses the message; that
    /// send failure is reported as `false`.
    pub fn close(&mut self) -> (accepted: bool)
        ensures
            accepted == (old(self)@.state == WorkerState::Running),
            accepted ==> final(self)@ == (ServiceModel {
                queue: old(self)@.queue.push(ControlMessageModel::Shutdown),
                ..old(self)@
            }),
            !accepted ==> final(self)@ == old(self)@,
    {
        match self.state {
            WorkerState::Running => {
                self.queue.push(ControlMessage::Shutdown);
                proof {
                    assert(self.queue.deep_view() =~= old(self).queue.deep_view().push(
                        ControlMessageModel::Shutdown,
                    ));
                }
                true
            },
            WorkerState::Stopped => false,
        }
    }

    /// Drains the queue as the worker thread does: strictly in arrival
    /// order, one message fully processed before the next, until nothing
    /// is pending or a shutdown message stops the worker.
    pub fn run_pending(&mut self)
        ensures
            final(self)@ == spec_run(old(self)@),
    {
        loop
            invariant
                spec_run(self@) == spec_run(old(self)@),
            ensures
                self.state == WorkerState::Stopped || self.queue.len() == 0,
            decreases self.queue.len(),
        {
            match self.state {
                WorkerState::Stopped => {
                    break;
                },
                WorkerState::Running => {},
            }
            if self.queue.len() == 0 {
                break;
            }
            let ghost pre = self@;
            let msg = self.queue.remove(0);
            proof {
                assert(self.queue.deep_view() =~= pre.queue.drop_first());
                assert(msg@ == pre.queue[0]);
            }
            match msg {
                ControlMessage::Shutdown => {
                    self.state = WorkerState::Stopped;
                    proof {
                        assert(self@ =~= spec_service_step(pre));
                    }
                },
                ControlMessage::Execute(req) => {
                    let resp = execute_request(&mut self.store, &req);
                    self.resolutions.push(Resolution { token: req.token, response: resp });
                    proof {
                        assert(self.resolutions.deep_view() =~= pre.resolutions.push(
                            ResolutionModel { token: req@.token, response: resp@ },
                        ));
                        assert(self@ =~= spec_service_step(pre));
                    }
                },
            }
        }
    }

    fn enqueue(&mut self, req: Request)
        ensures
            final(self)@ == spec_enqueue(old(self)@, req@),
    {
        match self.state {
            WorkerState::Running => {
                self.queue.push(ControlMessage::Execute(req));
                proof {
                    assert(self.queue.deep_view() =~= old(self).queue.deep_view().push(
                        ControlMessageModel::Execute(req@),
                    ));
                    assert(self@ =~= spec_enqueue(old(self)@, req@));
                }
            },
            WorkerState::Stopped => {
                let token = req.token;
                self.resolutions.push(
                    Resolution {
                        token,
                        response: Response::Rejected(RequestError::ChannelClosed),
                    },
                );
                proof {
                    assert(self.resolutions.deep_view() =~= old(self).resolutions.deep_view().push(
                        ResolutionModel {
                            token: req@.token,
                            response: ResponseModel::Rejected(RequestErrorModel::ChannelClosed),
                        },
                    ));
                    assert(self@ =~= spec_enqueue(old(self)@, req@));
                }
            },
        }
    }
}

} // verus!
