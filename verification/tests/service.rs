use regbridge::accessor::read_after_fetch;
use regbridge::accessor::read_after_open;
use regbridge::accessor::write_after_create;
use regbridge::accessor::write_after_set;
use regbridge::accessor::CreateOutcome;
use regbridge::accessor::FetchOutcome;
use regbridge::accessor::OpenOutcome;
use regbridge::accessor::SetOutcome;
use regbridge::accessor::Step;
use regbridge::codec::EncodeError;
use regbridge::codec::Payload;
use regbridge::outcome::ReadOutcome;
use regbridge::outcome::RequestError;
use regbridge::outcome::Response;
use regbridge::root::AccessMode;
use regbridge::root::StoreRoot;
use regbridge::service::InputError;
use regbridge::service::Service;
use regbridge::store::Entry;
use regbridge::store::ModelStore;
use regbridge::store::PathKey;
use regbridge::value::ForeignKind;
use regbridge::value::NativeData;
use regbridge::value::Value;
use regbridge::worker::worker_state_after;
use regbridge::worker::ControlMessage;
use regbridge::worker::Operation;
use regbridge::worker::Request;
use regbridge::worker::WorkerState;

fn fresh_service() -> Service {
    Service::create(ModelStore::new())
}

fn last_response(svc: &Service) -> &Response {
    &svc.resolutions.last().expect("nothing resolved").response
}

fn submit_write(
    svc: &mut Service,
    root: &str,
    path: &str,
    name: &str,
    tag: &str,
    payload: Payload,
) -> Result<u64, InputError> {
    svc.submit_write(root, String::from(path), String::from(name), tag, payload)
}

fn submit_read(svc: &mut Service, root: &str, path: &str, name: &str) -> Result<u64, InputError> {
    svc.submit_read(root, String::from(path), String::from(name))
}

fn round_trip(tag: &str, payload: Payload) -> Response {
    let mut svc = fresh_service();
    submit_write(&mut svc, "HKEY_CURRENT_USER", "Software\\Test", "V", tag, payload).unwrap();
    let token = submit_read(&mut svc, "HKEY_CURRENT_USER", "Software\\Test", "V").unwrap();
    svc.run_pending();
    let res = svc.resolutions.last().unwrap();
    assert_eq!(res.token, token);
    res.response.clone()
}

#[test]
fn round_trip_text() {
    assert_eq!(
        round_trip("REG_SZ", Payload::Text(String::from("hello"))),
        Response::Read(ReadOutcome::Present(Payload::Text(String::from("hello"))))
    );
}

#[test]
fn round_trip_text_list() {
    assert_eq!(
        round_trip(
            "REG_MULTI_SZ",
            Payload::TextList(vec![String::from("a"), String::from("b"), String::from("")])
        ),
        Response::Read(ReadOutcome::Present(Payload::TextList(vec![
            String::from("a"),
            String::from("b"),
            String::from("")
        ])))
    );
}

#[test]
fn round_trip_empty_text_list() {
    assert_eq!(
        round_trip("REG_MULTI_SZ", Payload::TextList(vec![])),
        Response::Read(ReadOutcome::Present(Payload::TextList(vec![])))
    );
}

#[test]
fn round_trip_expandable_text() {
    assert_eq!(
        round_trip("REG_EXPAND_SZ", Payload::Text(String::from("%SystemRoot%\\system32"))),
        Response::Read(ReadOutcome::Present(Payload::Text(String::from(
            "%SystemRoot%\\system32"
        ))))
    );
}

#[test]
fn round_trip_number_32() {
    assert_eq!(
        round_trip("REG_DWORD", Payload::Number(12345)),
        Response::Read(ReadOutcome::Present(Payload::Number(12345)))
    );
}

#[test]
fn round_trip_number_32_truncates() {
    let wide: u64 = (1 << 32) + 77;
    assert_eq!(
        round_trip("REG_DWORD", Payload::Number(wide)),
        Response::Read(ReadOutcome::Present(Payload::Number(77)))
    );
}

#[test]
fn round_trip_number_64() {
    assert_eq!(
        round_trip("REG_QWORD", Payload::Number(u64::MAX)),
        Response::Read(ReadOutcome::Present(Payload::Number(u64::MAX)))
    );
}

#[test]
fn round_trip_bytes() {
    assert_eq!(
        round_trip("REG_BINARY", Payload::Bytes(vec![0, 1, 254, 255])),
        Response::Read(ReadOutcome::Present(Payload::Bytes(vec![0, 1, 254, 255])))
    );
}

#[test]
fn round_trip_empty_tag_reads_back_null() {
    assert_eq!(
        round_trip("REG_NONE", Payload::Null),
        Response::Read(ReadOutcome::Present(Payload::Null))
    );
}

#[test]
fn absent_on_missing_path() {
    let mut svc = fresh_service();
    submit_read(&mut svc, "HKEY_CURRENT_USER", "No\\Such\\Path", "V").unwrap();
    svc.run_pending();
    assert_eq!(*last_response(&svc), Response::Read(ReadOutcome::Absent));
}

#[test]
fn absent_on_missing_value_name() {
    let mut svc = fresh_service();
    submit_write(
        &mut svc,
        "HKEY_CURRENT_USER",
        "Software\\Test",
        "Present",
        "REG_SZ",
        Payload::Text(String::from("x")),
    )
    .unwrap();
    submit_read(&mut svc, "HKEY_CURRENT_USER", "Software\\Test", "Missing").unwrap();
    svc.run_pending();
    assert_eq!(*last_response(&svc), Response::Read(ReadOutcome::Absent));
}

#[test]
fn requests_execute_in_submission_order() {
    let mut svc = fresh_service();
    let mut tokens = Vec::new();
    for i in 0..5u64 {
        let t = submit_write(
            &mut svc,
            "HKEY_CURRENT_USER",
            "Software\\Test",
            "Counter",
            "REG_QWORD",
            Payload::Number(i),
        )
        .unwrap();
        tokens.push(t);
    }
    let read_token =
        submit_read(&mut svc, "HKEY_CURRENT_USER", "Software\\Test", "Counter").unwrap();
    svc.run_pending();
    assert_eq!(svc.resolutions.len(), 6);
    for (i, t) in tokens.iter().enumerate() {
        assert_eq!(svc.resolutions[i].token, *t);
        assert_eq!(svc.resolutions[i].response, Response::Written);
    }
    assert_eq!(svc.resolutions[5].token, read_token);
    assert_eq!(
        svc.resolutions[5].response,
        Response::Read(ReadOutcome::Present(Payload::Number(4)))
    );
}

#[test]
fn tokens_are_never_resolved_twice() {
    let mut svc = fresh_service();
    for i in 0..4u64 {
        submit_write(
            &mut svc,
            "HKEY_USERS",
            "P",
            "N",
            "REG_QWORD",
            Payload::Number(i),
        )
        .unwrap();
    }
    svc.close();
    submit_read(&mut svc, "HKEY_USERS", "P", "N").unwrap();
    svc.run_pending();
    submit_read(&mut svc, "HKEY_USERS", "P", "N").unwrap();
    let mut seen = Vec::new();
    for r in svc.resolutions.iter() {
        assert!(!seen.contains(&r.token));
        seen.push(r.token);
    }
}

#[test]
fn invalid_root_rejects_synchronously() {
    let mut svc = fresh_service();
    let r = submit_read(&mut svc, "HKEY_PERFORMANCE_DATA", "P", "N");
    assert_eq!(r, Err(InputError::UnknownRoot(String::from("HKEY_PERFORMANCE_DATA"))));
    let w = submit_write(&mut svc, "NOT_A_ROOT", "P", "N", "REG_SZ", Payload::Text(String::from("x")));
    assert_eq!(w, Err(InputError::UnknownRoot(String::from("NOT_A_ROOT"))));
    assert_eq!(svc.queue.len(), 0);
    svc.run_pending();
    assert_eq!(svc.resolutions.len(), 0);
    assert_eq!(svc.store.entries.len(), 0);
    assert_eq!(svc.store.keys.len(), 0);
}

#[test]
fn invalid_tag_rejects_synchronously() {
    let mut svc = fresh_service();
    let r = submit_write(&mut svc, "HKEY_CURRENT_USER", "P", "N", "REG_COLOR", Payload::Null);
    assert_eq!(r, Err(InputError::UnknownTag(String::from("REG_COLOR"))));
    assert_eq!(svc.queue.len(), 0);
}

#[test]
fn mismatched_payload_rejects_synchronously() {
    let mut svc = fresh_service();
    let r = submit_write(
        &mut svc,
        "HKEY_CURRENT_USER",
        "P",
        "N",
        "REG_DWORD",
        Payload::Text(String::from("twelve")),
    );
    assert_eq!(r, Err(InputError::BadPayload(EncodeError::WrongShape)));
    let n = submit_write(
        &mut svc,
        "HKEY_CURRENT_USER",
        "P",
        "N",
        "REG_SZ",
        Payload::Text(String::from("a\0b")),
    );
    assert_eq!(n, Err(InputError::BadPayload(EncodeError::EmbeddedNul)));
    assert_eq!(svc.queue.len(), 0);
    svc.run_pending();
    assert_eq!(svc.store.entries.len(), 0);
}

#[test]
fn submission_after_shutdown_is_rejected() {
    let mut svc = fresh_service();
    assert!(svc.close());
    svc.run_pending();
    let entries_before = svc.store.entries.len();
    let t = submit_write(
        &mut svc,
        "HKEY_CURRENT_USER",
        "Software\\Test",
        "Late",
        "REG_SZ",
        Payload::Text(String::from("x")),
    )
    .unwrap();
    assert_eq!(svc.resolutions.last().unwrap().token, t);
    assert_eq!(*last_response(&svc), Response::Rejected(RequestError::ChannelClosed));
    let rt = submit_read(&mut svc, "HKEY_CURRENT_USER", "Software\\Test", "Late").unwrap();
    assert_eq!(svc.resolutions.last().unwrap().token, rt);
    assert_eq!(*last_response(&svc), Response::Rejected(RequestError::ChannelClosed));
    svc.run_pending();
    assert_eq!(svc.store.entries.len(), entries_before);
    assert!(!svc.close());
}

#[test]
fn requests_before_shutdown_are_still_serviced() {
    let mut svc = fresh_service();
    let t = submit_write(
        &mut svc,
        "HKEY_CURRENT_USER",
        "Software\\Test",
        "V",
        "REG_QWORD",
        Payload::Number(9),
    )
    .unwrap();
    assert!(svc.close());
    svc.run_pending();
    assert_eq!(svc.resolutions.len(), 1);
    assert_eq!(svc.resolutions[0].token, t);
    assert_eq!(svc.resolutions[0].response, Response::Written);
}

#[test]
fn scenario_hello_blob_and_missing() {
    let mut svc = fresh_service();
    submit_write(
        &mut svc,
        "HKEY_CURRENT_USER",
        "Software\\Test",
        "Greeting",
        "REG_SZ",
        Payload::Text(String::from("hello")),
    )
    .unwrap();
    submit_read(&mut svc, "HKEY_CURRENT_USER", "Software\\Test", "Greeting").unwrap();
    svc.run_pending();
    assert_eq!(
        *last_response(&svc),
        Response::Read(ReadOutcome::Present(Payload::Text(String::from("hello"))))
    );
    submit_write(
        &mut svc,
        "HKEY_CURRENT_USER",
        "Software\\Test",
        "Blob",
        "REG_BINARY",
        Payload::Bytes(vec![0x01, 0x02, 0x03]),
    )
    .unwrap();
    submit_read(&mut svc, "HKEY_CURRENT_USER", "Software\\Test", "Blob").unwrap();
    svc.run_pending();
    assert_eq!(
        *last_response(&svc),
        Response::Read(ReadOutcome::Present(Payload::Bytes(vec![0x01, 0x02, 0x03])))
    );
    submit_read(&mut svc, "HKEY_CURRENT_USER", "Software\\Test", "DoesNotExist").unwrap();
    svc.run_pending();
    assert_eq!(*last_response(&svc), Response::Read(ReadOutcome::Absent));
}

#[test]
fn roots_are_distinct_namespaces() {
    let mut svc = fresh_service();
    submit_write(
        &mut svc,
        "HKEY_LOCAL_MACHINE",
        "Software\\Test",
        "V",
        "REG_SZ",
        Payload::Text(String::from("machine")),
    )
    .unwrap();
    submit_read(&mut svc, "HKEY_CURRENT_USER", "Software\\Test", "V").unwrap();
    svc.run_pending();
    assert_eq!(*last_response(&svc), Response::Read(ReadOutcome::Absent));
}

#[test]
fn reading_foreign_kind_is_an_unsupported_type_rejection() {
    let root = StoreRoot::CurrentUser;
    let store = ModelStore {
        keys: vec![PathKey { root, path: String::from("P") }],
        entries: vec![Entry {
            root,
            path: String::from("P"),
            name: String::from("N"),
            data: NativeData::Foreign(ForeignKind::SymbolicLink),
        }],
    };
    let mut svc = Service::create(store);
    submit_read(&mut svc, "HKEY_CURRENT_USER", "P", "N").unwrap();
    svc.run_pending();
    assert_eq!(
        *last_response(&svc),
        Response::Rejected(RequestError::UnsupportedType(ForeignKind::SymbolicLink))
    );
}

#[test]
fn store_failures_propagate_verbatim() {
    assert_eq!(
        read_after_open(OpenOutcome::Failed(String::from("permission denied"))),
        Step::Done(Response::Rejected(RequestError::Store(String::from("permission denied"))))
    );
    assert_eq!(
        read_after_fetch(FetchOutcome::Failed(String::from("device error"))),
        Response::Rejected(RequestError::Store(String::from("device error")))
    );
    assert_eq!(
        write_after_create(CreateOutcome::Failed(String::from("path too long"))),
        Step::Done(Response::Rejected(RequestError::Store(String::from("path too long"))))
    );
    assert_eq!(
        write_after_set(SetOutcome::Failed(String::from("corrupted data"))),
        Response::Rejected(RequestError::Store(String::from("corrupted data")))
    );
}

#[test]
fn read_path_normalizes_not_found() {
    assert_eq!(read_after_open(OpenOutcome::NotFound), Step::Done(Response::Read(ReadOutcome::Absent)));
    assert_eq!(read_after_open(OpenOutcome::Opened), Step::Proceed);
    assert_eq!(read_after_fetch(FetchOutcome::NotFound), Response::Read(ReadOutcome::Absent));
    assert_eq!(write_after_create(CreateOutcome::Created), Step::Proceed);
    assert_eq!(write_after_set(SetOutcome::Done), Response::Written);
}

#[test]
fn operations_request_matching_access() {
    assert_eq!(Operation::Read.access(), AccessMode::Read);
    assert_eq!(Operation::Write(Value::Empty).access(), AccessMode::Write);
}

#[test]
fn requests_queued_behind_shutdown_are_abandoned() {
    let mut svc = fresh_service();
    let first = submit_write(
        &mut svc,
        "HKEY_CURRENT_USER",
        "Software\\Test",
        "A",
        "REG_QWORD",
        Payload::Number(1),
    )
    .unwrap();
    assert!(svc.close());
    let late = submit_write(
        &mut svc,
        "HKEY_CURRENT_USER",
        "Software\\Test",
        "B",
        "REG_QWORD",
        Payload::Number(2),
    )
    .unwrap();
    svc.run_pending();
    assert_eq!(svc.resolutions.len(), 1);
    assert_eq!(svc.resolutions[0].token, first);
    assert_eq!(svc.resolutions[0].response, Response::Written);
    assert!(svc.resolutions.iter().all(|r| r.token != late));
    assert_eq!(svc.store.entries.len(), 1);
}

#[test]
fn worker_stops_only_on_shutdown() {
    let request = Request {
        token: 0,
        root: StoreRoot::CurrentUser,
        path: String::from("P"),
        name: String::from("N"),
        op: Operation::Read,
    };
    assert_eq!(
        worker_state_after(WorkerState::Running, &ControlMessage::Execute(request)),
        WorkerState::Running
    );
    assert_eq!(
        worker_state_after(WorkerState::Running, &ControlMessage::Shutdown),
        WorkerState::Stopped
    );
}
