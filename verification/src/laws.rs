//! The guarantees of the bridge, stated once and proved: round trip,
//! absence normalization, FIFO execution order, and the behaviour of a
//! shut-down service.

use vstd::prelude::*;

use crate::codec::lemma_codec_round_trip;
use crate::codec::spec_encode;
use crate::codec::spec_round_trip;
use crate::codec::PayloadModel;
use crate::codec::TypeTag;
use crate::outcome::ReadOutcomeModel;
use crate::outcome::RequestErrorModel;
use crate::outcome::ResponseModel;
use crate::root::StoreRoot;
use crate::service::spec_enqueue;
use crate::service::spec_run;
use crate::service::spec_service_step;
use crate::service::spec_take_token;
use crate::service::ResolutionModel;
use crate::service::ServiceModel;
use crate::store::spec_has_path;
use crate::store::spec_lookup;
use crate::store::spec_read_response;
use crate::store::spec_store_create;
use crate::store::StoreModel;
use crate::value::NativeDataModel;
use crate::worker::spec_response_of;
use crate::worker::spec_store_after;
use crate::worker::ControlMessageModel;
use crate::worker::OperationModel;
use crate::worker::RequestModel;
use crate::worker::WorkerState;

verus! {

/// A key path resolved with create-if-missing semantics exists afterwards.
pub proof fn lemma_create_has_path(m: StoreModel, root: StoreRoot, path: Seq<char>)
    ensures
        spec_has_path(spec_store_create(m, root, path).keys, root, path),
{
    if !spec_has_path(m.keys, root, path) {
        let keys = spec_store_create(m, root, path).keys;
        assert(keys[keys.len() - 1].root == root && keys[keys.len() - 1].path == path);
    }
}

/// Round-trip law: executing a write of any payload that the codec
/// accepts under a tag, and then a read of the same root, path and name,
/// returns the payload's round-trip image — exactly, up to the tag's
/// width truncation for numbers and the discarding empty tag — whatever
/// the store held before.
pub proof fn lemma_store_round_trip(
    m: StoreModel,
    token: u64,
    root: StoreRoot,
    path: Seq<char>,
    name: Seq<char>,
    tag: TypeTag,
    p: PayloadModel,
)
    requires
        spec_encode(tag, p) is Ok,
    ensures
        ({
            let req = RequestModel {
                token,
                root,
                path,
                name,
                op: OperationModel::Write(spec_encode(tag, p)->Ok_0),
            };
            spec_read_response(spec_store_after(m, req), root, path, name)
                == ResponseModel::Read(ReadOutcomeModel::Present(spec_round_trip(tag, p)))
        }),
{
    let v = spec_encode(tag, p)->Ok_0;
    let req = RequestModel { token, root, path, name, op: OperationModel::Write(v) };
    let m1 = spec_store_after(m, req);
    lemma_create_has_path(m, root, path);
    assert(spec_has_path(m1.keys, root, path));
    assert(m1.entries.last() == crate::store::EntryModel {
        root,
        path,
        name,
        data: NativeDataModel::Known(v),
    });
    assert(spec_lookup(m1.entries, root, path, name) == Some(NativeDataModel::Known(v)));
    lemma_codec_round_trip(tag, p);
}

/// Absence law: a read of a key path the store does not hold, and a read
/// of an existing key path under a value name it does not hold, both
/// resolve to the "absent" outcome — never to an error.
pub proof fn lemma_read_absent(m: StoreModel, root: StoreRoot, path: Seq<char>, name: Seq<char>)
    requires
        !spec_has_path(m.keys, root, path) || spec_lookup(m.entries, root, path, name) is None,
    ensures
        spec_read_response(m, root, path, name) == ResponseModel::Read(ReadOutcomeModel::Absent),
{
}

/// The deferred results that draining a queue settles, in order: each
/// message's response, computed against the store as the messages before
/// it left it, up to the first shutdown message.
pub open spec fn spec_responses_of(
    store: StoreModel,
    msgs: Seq<ControlMessageModel>,
) -> Seq<ResolutionModel>
    decreases msgs.len(),
{
    if msgs.len() == 0 {
        Seq::empty()
    } else {
        match msgs[0] {
            ControlMessageModel::Shutdown => Seq::empty(),
            ControlMessageModel::Execute(req) => seq![
                ResolutionModel { token: req.token, response: spec_response_of(store, req) },
            ] + spec_responses_of(spec_store_after(store, req), msgs.drop_first()),
        }
    }
}

/// Ordering law: a running worker drains its queue strictly in submission
/// order — the settled results are exactly the queued requests' responses,
/// each computed against the store state its predecessors produced, and
/// they are appended to the ledger in that same order.
pub proof fn lemma_run_in_order(m: ServiceModel)
    requires
        m.state == WorkerState::Running,
    ensures
        spec_run(m).resolutions == m.resolutions + spec_responses_of(m.store, m.queue),
    decreases m.queue.len(),
{
    if m.queue.len() == 0 {
        assert(m.resolutions + spec_responses_of(m.store, m.queue) =~= m.resolutions);
    } else {
        let m1 = spec_service_step(m);
        match m.queue[0] {
            ControlMessageModel::Shutdown => {
                assert(spec_run(m1) == m1);
                assert(m.resolutions + spec_responses_of(m.store, m.queue) =~= m.resolutions);
            },
            ControlMessageModel::Execute(req) => {
                let r0 = ResolutionModel {
                    token: req.token,
                    response: spec_response_of(m.store, req),
                };
                lemma_run_in_order(m1);
                assert(m1.resolutions + spec_responses_of(m1.store, m1.queue) =~= m.resolutions + (
                seq![r0] + spec_responses_of(spec_store_after(m.store, req), m.queue.drop_first())));
            },
        }
    }
}

/// The store contents after a queue is drained: each request's effect
/// applied in arrival order, up to the first shutdown message.
pub open spec fn spec_store_of_msgs(
    store: StoreModel,
    msgs: Seq<ControlMessageModel>,
) -> StoreModel
    decreases msgs.len(),
{
    if msgs.len() == 0 {
        store
    } else {
        match msgs[0] {
            ControlMessageModel::Shutdown => store,
            ControlMessageModel::Execute(req) => spec_store_of_msgs(
                spec_store_after(store, req),
                msgs.drop_first(),
            ),
        }
    }
}

/// Ordering law, store side: a running worker applies the queued
/// requests' side effects to the store strictly in submission order — no
/// interleaving, no reordering.
pub proof fn lemma_run_store_in_order(m: ServiceModel)
    requires
        m.state == WorkerState::Running,
    ensures
        spec_run(m).store == spec_store_of_msgs(m.store, m.queue),
    decreases m.queue.len(),
{
    if m.queue.len() == 0 {
        assert(spec_run(m) == m);
    } else {
        let m1 = spec_service_step(m);
        assert(spec_run(m) == spec_run(m1));
        match m.queue[0] {
            ControlMessageModel::Shutdown => {
                assert(m1.state == WorkerState::Stopped);
                assert(spec_run(m1) == m1);
                assert(m1.store == m.store);
            },
            ControlMessageModel::Execute(req) => {
                lemma_run_store_in_order(m1);
                assert(m1.store == spec_store_after(m.store, req));
                assert(m1.queue == m.queue.drop_first());
            },
        }
    }
}

/// Shutdown law: once the worker has terminated, a submission is refused
/// by the channel and resolved — on the submitting side, at once — with
/// the channel-closed rejection; nothing joins the queue, and no store
/// side effect can ever follow from it.
pub proof fn lemma_closed_service_rejects(m: ServiceModel, req: RequestModel)
    requires
        m.state == WorkerState::Stopped,
    ensures
        spec_enqueue(m, req).queue == m.queue,
        spec_enqueue(m, req).store == m.store,
        spec_enqueue(m, req).resolutions == m.resolutions.push(
            ResolutionModel {
                token: req.token,
                response: ResponseModel::Rejected(RequestErrorModel::ChannelClosed),
            },
        ),
        spec_run(spec_enqueue(m, req)) == spec_enqueue(m, req),
{
}

/// Round-trip law, service level: submitting a write of any payload the
/// codec accepts and then a read of the same root, path and name, and
/// letting the worker drain them, settles the write's deferred result
/// with the acknowledgement and the read's with the payload's round-trip
/// image — in that order, whatever the store held before.
pub proof fn lemma_service_round_trip(
    m: ServiceModel,
    write_token: u64,
    read_token: u64,
    root: StoreRoot,
    path: Seq<char>,
    name: Seq<char>,
    tag: TypeTag,
    p: PayloadModel,
)
    requires
        m.state == WorkerState::Running,
        spec_encode(tag, p) is Ok,
        m.queue == seq![
            ControlMessageModel::Execute(
                RequestModel {
                    token: write_token,
                    root,
                    path,
                    name,
                    op: OperationModel::Write(spec_encode(tag, p)->Ok_0),
                },
            ),
            ControlMessageModel::Execute(
                RequestModel { token: read_token, root, path, name, op: OperationModel::Read },
            ),
        ],
    ensures
        spec_run(m).resolutions == m.resolutions + seq![
            ResolutionModel { token: write_token, response: ResponseModel::Written },
            ResolutionModel {
                token: read_token,
                response: ResponseModel::Read(
                    ReadOutcomeModel::Present(spec_round_trip(tag, p)),
                ),
            },
        ],
{
    let write_req = RequestModel {
        token: write_token,
        root,
        path,
        name,
        op: OperationModel::Write(spec_encode(tag, p)->Ok_0),
    };
    let read_req = RequestModel { token: read_token, root, path, name, op: OperationModel::Read };
    lemma_run_in_order(m);
    lemma_store_round_trip(m.store, write_token, root, path, name, tag, p);
    let m1 = spec_store_after(m.store, write_req);
    let tail = m.queue.drop_first();
    assert(tail =~= seq![ControlMessageModel::Execute(read_req)]);
    let tail2 = tail.drop_first();
    assert(tail2.len() == 0);
    assert(spec_responses_of(spec_store_after(m1, read_req), tail2) =~= Seq::<
        ResolutionModel,
    >::empty());
    assert(spec_response_of(m1, read_req) == ResponseModel::Read(
        ReadOutcomeModel::Present(spec_round_trip(tag, p)),
    ));
    assert(spec_responses_of(m1, tail) =~= seq![
        ResolutionModel {
            token: read_token,
            response: ResponseModel::Read(ReadOutcomeModel::Present(spec_round_trip(tag, p))),
        },
    ]);
    assert(m.resolutions + spec_responses_of(m.store, m.queue) =~= m.resolutions + seq![
        ResolutionModel { token: write_token, response: ResponseModel::Written },
        ResolutionModel {
            token: read_token,
            response: ResponseModel::Read(ReadOutcomeModel::Present(spec_round_trip(tag, p))),
        },
    ]);
}

/// The deferred-result token a control message carries, if any.
pub open spec fn spec_msg_token(msg: ControlMessageModel) -> Option<u64> {
    match msg {
        ControlMessageModel::Execute(req) => Some(req.token),
        ControlMessageModel::Shutdown => None,
    }
}

/// The token discipline that makes resolution exactly-once: every token —
/// settled or still queued — was taken fresh, and no token occurs twice,
/// neither in the ledger, nor in the queue, nor across the two.
pub open spec fn tokens_wf(m: ServiceModel) -> bool {
    &&& forall|i: int|
        0 <= i < m.resolutions.len() ==> (#[trigger] m.resolutions[i]).token < m.next_token
    &&& forall|i: int|
        #![trigger m.queue[i]]
        0 <= i < m.queue.len() && spec_msg_token(m.queue[i]) is Some ==> spec_msg_token(
            m.queue[i],
        )->Some_0 < m.next_token
    &&& forall|i: int, j: int|
        #![trigger m.resolutions[i], m.resolutions[j]]
        0 <= i < j < m.resolutions.len() ==> m.resolutions[i].token != m.resolutions[j].token
    &&& forall|i: int, j: int|
        #![trigger m.queue[i], m.queue[j]]
        0 <= i < j < m.queue.len() && spec_msg_token(m.queue[i]) is Some && spec_msg_token(
            m.queue[j],
        ) is Some ==> spec_msg_token(m.queue[i])->Some_0 != spec_msg_token(m.queue[j])->Some_0
    &&& forall|i: int, j: int|
        #![trigger m.queue[i], m.resolutions[j]]
        0 <= i < m.queue.len() && 0 <= j < m.resolutions.len() && spec_msg_token(
            m.queue[i],
        ) is Some ==> spec_msg_token(m.queue[i])->Some_0 != m.resolutions[j].token
}

/// A fresh service obeys the token discipline.
pub proof fn lemma_new_service_tokens_wf(m: ServiceModel)
    requires
        m.queue.len() == 0,
        m.resolutions.len() == 0,
    ensures
        tokens_wf(m),
{
}

/// Submitting with a fresh token preserves the token discipline.
pub proof fn lemma_submit_preserves_tokens_wf(m: ServiceModel, req: RequestModel)
    requires
        tokens_wf(m),
        req.token == m.next_token,
        m.next_token < u64::MAX,
    ensures
        tokens_wf(spec_enqueue(spec_take_token(m), req)),
{
    let m1 = spec_enqueue(spec_take_token(m), req);
    if m.state == WorkerState::Running {
        assert(forall|i: int|
            0 <= i < m.queue.len() ==> #[trigger] m1.queue[i] == m.queue[i]);
        assert(spec_msg_token(m1.queue[m.queue.len() as int]) == Some(req.token));
    } else {
        assert(forall|i: int|
            0 <= i < m.resolutions.len() ==> #[trigger] m1.resolutions[i] == m.resolutions[i]);
        assert(m1.resolutions[m.resolutions.len() as int].token == req.token);
    }
}

/// Processing the message at the head of the queue preserves the token
/// discipline: the settled token leaves the queue and joins the ledger,
/// where it was not yet present.
pub proof fn lemma_step_preserves_tokens_wf(m: ServiceModel)
    requires
        tokens_wf(m),
        m.queue.len() > 0,
        m.state == WorkerState::Running,
    ensures
        tokens_wf(spec_service_step(m)),
{
    let m1 = spec_service_step(m);
    assert(forall|i: int|
        0 <= i < m1.queue.len() ==> #[trigger] m1.queue[i] == m.queue[i + 1]);
    match m.queue[0] {
        ControlMessageModel::Shutdown => {},
        ControlMessageModel::Execute(req) => {
            assert(spec_msg_token(m.queue[0]) == Some(req.token));
            assert(forall|i: int|
                0 <= i < m.resolutions.len() ==> #[trigger] m1.resolutions[i]
                    == m.resolutions[i]);
            assert(m1.resolutions[m.resolutions.len() as int].token == req.token);
        },
    }
}

/// Draining the queue preserves the token discipline.
pub proof fn lemma_run_preserves_tokens_wf(m: ServiceModel)
    requires
        tokens_wf(m),
    ensures
        tokens_wf(spec_run(m)),
    decreases m.queue.len(),
{
    if m.state == WorkerState::Running && m.queue.len() > 0 {
        lemma_step_preserves_tokens_wf(m);
        lemma_run_preserves_tokens_wf(spec_service_step(m));
    }
}

/// Exactly-once law: under the token discipline, draining the queue never
/// settles the same deferred result twice — every token occurs at most
/// once in the ledger.
pub proof fn lemma_resolve_exactly_once(m: ServiceModel)
    requires
        tokens_wf(m),
    ensures
        forall|i: int, j: int|
            #![trigger spec_run(m).resolutions[i], spec_run(m).resolutions[j]]
            0 <= i < j < spec_run(m).resolutions.len() ==> spec_run(m).resolutions[i].token
                != spec_run(m).resolutions[j].token,
{
    lemma_run_preserves_tokens_wf(m);
}

} // verus!
