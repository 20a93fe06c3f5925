use std::cell::{Cell, RefCell};

use jsonrpc_client::client::match_batch;
use jsonrpc_client::client::check_response;
use jsonrpc_client::error::{Error, Id, RpcError};
use jsonrpc_client::message::{Payload, Request, Response};
use jsonrpc_client::client::{Client, Transport};

struct Scripted {
    single: RefCell<Option<Result<Response, Error>>>,
    batch: RefCell<Option<Result<Vec<Response>, Error>>>,
    sent: RefCell<Vec<String>>,
    batch_calls: Cell<usize>,
}

impl Scripted {
    fn single(r: Response) -> Scripted {
        Scripted {
            single: RefCell::new(Some(Ok(r))),
            batch: RefCell::new(None),
            sent: RefCell::new(Vec::new()),
            batch_calls: Cell::new(0),
        }
    }

    fn batch(rs: Vec<Response>) -> Scripted {
        Scripted {
            single: RefCell::new(None),
            batch: RefCell::new(Some(Ok(rs))),
            sent: RefCell::new(Vec::new()),
            batch_calls: Cell::new(0),
        }
    }
}

impl Transport for Scripted {
    fn send_request(&self, req: &Request) -> Result<Response, Error> {
        self.sent.borrow_mut().push(req.to_json().unwrap());
        self.single.borrow_mut().take().expect("one request expected")
    }

    fn send_batch(&self, reqs: &Vec<Request>) -> Result<Vec<Response>, Error> {
        self.batch_calls.set(self.batch_calls.get() + 1);
        self.sent.borrow_mut().push(Request::batch_to_json(reqs).unwrap());
        self.batch.borrow_mut().take().expect("one batch expected")
    }

    fn fmt_target(&self) -> String {
        "scripted".to_string()
    }
}

fn ok(id: u64, result: &str) -> Response {
    Response {
        id: Id::Num(id),
        jsonrpc: Some("2.0".to_string()),
        payload: Payload::Success(result.to_string()),
    }
}

fn failed(id: u64, code: i32, message: &str) -> Response {
    Response {
        id: Id::Num(id),
        jsonrpc: Some("2.0".to_string()),
        payload: Payload::Failure(RpcError { code, message: message.to_string(), data: None }),
    }
}

fn calls(names: &[&str]) -> Vec<(String, String)> {
    names.iter().map(|n| (n.to_string(), "[]".to_string())).collect()
}

#[test]
fn call_with_nonce_seven_returns_result() {
    let mut client = Client::new(Scripted::single(ok(7, "42")));
    for _ in 0..7 {
        client.build_request("skip".to_string(), "[]".to_string());
    }
    let r = client.call("getBalance".to_string(), "[\"addr1\"]".to_string());
    assert_eq!(r.unwrap(), "42");
    assert_eq!(
        client.transport().sent.borrow()[0],
        "{\"jsonrpc\":\"2.0\",\"method\":\"getBalance\",\"params\":[\"addr1\"],\"id\":7}"
    );
}

#[test]
fn call_sends_request_object() {
    let transport = Scripted::single(ok(0, "true"));
    let mut client = Client::new(transport);
    assert!(client.call("getBalance".to_string(), "[\"addr1\"]".to_string()).is_ok());
    assert_eq!(client.nonces_left(), u64::MAX - 1);
    assert_eq!(client.target(), "scripted");
}

#[test]
fn request_json_text() {
    let req = Request { method: "getBalance".to_string(), params: "[\"addr1\"]".to_string(), id: 7 };
    assert_eq!(
        req.to_json().unwrap(),
        "{\"jsonrpc\":\"2.0\",\"method\":\"getBalance\",\"params\":[\"addr1\"],\"id\":7}"
    );
}

#[test]
fn request_json_escapes_method() {
    let req = Request { method: "a\"b\\c".to_string(), params: "{}".to_string(), id: 12 };
    assert_eq!(
        req.to_json().unwrap(),
        "{\"jsonrpc\":\"2.0\",\"method\":\"a\\\"b\\\\c\",\"params\":{},\"id\":12}"
    );
}

#[test]
fn request_json_escapes_control_characters() {
    let req = Request { method: "x\u{1}\n\u{1f}/".to_string(), params: "[]".to_string(), id: 0 };
    assert_eq!(
        req.to_json().unwrap(),
        "{\"jsonrpc\":\"2.0\",\"method\":\"x\\u0001\\n\\u001f/\",\"params\":[],\"id\":0}"
    );
}

#[test]
fn batch_json_text() {
    let rs = vec![
        Request { method: "a".to_string(), params: "[]".to_string(), id: 1 },
        Request { method: "b".to_string(), params: "[1]".to_string(), id: 2 },
    ];
    assert_eq!(
        Request::batch_to_json(&rs).unwrap(),
        "[{\"jsonrpc\":\"2.0\",\"method\":\"a\",\"params\":[],\"id\":1},\
         {\"jsonrpc\":\"2.0\",\"method\":\"b\",\"params\":[1],\"id\":2}]"
    );
    assert_eq!(Request::batch_to_json(&Vec::new()).unwrap(), "[]");
}

#[test]
fn matching_response_yields_result() {
    assert_eq!(check_response(ok(3, "\"x\""), 3).unwrap(), "\"x\"");
}

#[test]
fn matching_error_response_yields_rpc_error() {
    match check_response(failed(3, -32601, "Method not found"), 3) {
        Err(Error::Rpc(e)) => {
            assert_eq!(e.code, -32601);
            assert_eq!(e.message, "Method not found");
        }
        other => panic!("unexpected {:?}", other),
    }
}

#[test]
fn absent_version_is_accepted() {
    let mut r = ok(3, "1");
    r.jsonrpc = None;
    assert_eq!(check_response(r, 3).unwrap(), "1");
}

#[test]
fn differing_id_is_nonce_mismatch() {
    assert!(matches!(check_response(ok(4, "1"), 3), Err(Error::NonceMismatch)));
    assert!(matches!(check_response(failed(4, 1, "x"), 3), Err(Error::NonceMismatch)));
    let mut r = ok(3, "1");
    r.id = Id::Other("\"3\"".to_string());
    assert!(matches!(check_response(r, 3), Err(Error::NonceMismatch)));
}

#[test]
fn other_version_is_version_mismatch() {
    let mut r = ok(3, "1");
    r.jsonrpc = Some("1.0".to_string());
    assert!(matches!(check_response(r, 3), Err(Error::VersionMismatch)));
    let mut r = ok(9, "1");
    r.jsonrpc = Some("2.0.1".to_string());
    assert!(matches!(check_response(r, 3), Err(Error::VersionMismatch)));
}

#[test]
fn empty_batch_is_refused_without_transport() {
    let mut client = Client::new(Scripted::batch(vec![]));
    let r = client.call_batch(Vec::new());
    assert!(matches!(r, Err(Error::EmptyBatch)));
    assert_eq!(client.nonces_left(), u64::MAX);
}

#[test]
fn empty_batch_sends_nothing() {
    let transport = Scripted::batch(vec![]);
    let mut client = Client::new(transport);
    assert!(matches!(client.build_batch(Vec::new()), Err(Error::EmptyBatch)));
    assert!(matches!(client.call_batch(Vec::new()), Err(Error::EmptyBatch)));
    assert_eq!(client.transport().batch_calls.get(), 0);
    assert!(client.transport().sent.borrow().is_empty());
}

#[test]
fn batch_reordered_to_call_order() {
    let mut client = Client::new(Scripted::batch(vec![ok(2, "\"b\""), ok(1, "\"a\"")]));
    client.build_request("skip".to_string(), "[]".to_string());
    let r = client.call_batch(calls(&["first", "second"])).unwrap();
    assert_eq!(r.len(), 2);
    assert_eq!(client.transport().batch_calls.get(), 1);
    assert!(matches!(&r[0], Some(Ok(v)) if v == "\"a\""));
    assert!(matches!(&r[1], Some(Ok(v)) if v == "\"b\""));
}

#[test]
fn batch_too_many_responses() {
    let r = match_batch(&vec![1, 2], vec![ok(1, "1"), ok(2, "2"), ok(3, "3")]);
    assert!(matches!(r, Err(Error::WrongBatchResponseSize)));
}

#[test]
fn batch_duplicate_id() {
    let r = match_batch(&vec![1, 2, 3], vec![ok(2, "1"), ok(1, "2"), ok(2, "3")]);
    assert!(matches!(r, Err(Error::BatchDuplicateResponseId(Id::Num(2)))));
}

#[test]
fn batch_unknown_id() {
    let r = match_batch(&vec![1, 2], vec![ok(1, "1"), ok(5, "2")]);
    assert!(matches!(r, Err(Error::WrongBatchResponseId(Id::Num(5)))));
    let mut odd = ok(1, "1");
    odd.id = Id::Other("null".to_string());
    let r = match_batch(&vec![1, 2], vec![odd]);
    assert!(matches!(r, Err(Error::WrongBatchResponseId(Id::Other(ref t))) if t == "null"));
}

#[test]
fn batch_version_mismatch() {
    let mut bad = ok(2, "2");
    bad.jsonrpc = Some("1.0".to_string());
    let r = match_batch(&vec![1, 2], vec![ok(1, "1"), bad]);
    assert!(matches!(r, Err(Error::VersionMismatch)));
}

#[test]
fn batch_error_entry_stays_in_place() {
    let r = match_batch(
        &vec![1, 2, 3],
        vec![ok(3, "\"c\""), failed(2, -1, "boom"), ok(1, "\"a\"")],
    )
    .unwrap();
    assert!(matches!(&r[0], Some(Ok(v)) if v == "\"a\""));
    assert!(matches!(&r[1], Some(Err(Error::Rpc(e))) if e.code == -1 && e.message == "boom"));
    assert!(matches!(&r[2], Some(Ok(v)) if v == "\"c\""));
}

#[test]
fn batch_missing_entry_is_none() {
    let r = match_batch(&vec![1, 2], vec![ok(2, "2")]).unwrap();
    assert!(r[0].is_none());
    assert!(matches!(&r[1], Some(Ok(v)) if v == "2"));
}

#[test]
fn batch_transport_failure_passes_through() {
    let transport = Scripted {
        single: RefCell::new(None),
        batch: RefCell::new(Some(Err(Error::Transport("refused".to_string())))),
        sent: RefCell::new(Vec::new()),
        batch_calls: Cell::new(0),
    };
    let mut client = Client::new(transport);
    let r = client.call_batch(calls(&["a"]));
    assert!(matches!(r, Err(Error::Transport(ref m)) if m == "refused"));
    assert_eq!(client.nonces_left(), u64::MAX - 1);
}

#[test]
fn build_batch_assigns_consecutive_nonces() {
    let mut client = Client::new(Scripted::batch(vec![]));
    client.build_request("skip".to_string(), "[]".to_string());
    let rs = client.build_batch(calls(&["a", "b", "c"])).unwrap();
    let ids: Vec<u64> = rs.iter().map(|r| r.id).collect();
    assert_eq!(ids, vec![1, 2, 3]);
    assert_eq!(rs[1].method, "b");
    assert_eq!(client.nonces_left(), u64::MAX - 4);
}

#[test]
fn from_parts_shapes() {
    let r = Response::from_parts(Id::Num(1), None, Some("5".to_string()), None).unwrap();
    assert!(matches!(r.payload, Payload::Success(ref v) if v == "5"));
    let e = RpcError { code: 2, message: "m".to_string(), data: Some("{}".to_string()) };
    let r = Response::from_parts(Id::Num(1), None, None, Some(e)).unwrap();
    assert!(matches!(r.payload, Payload::Failure(ref e) if e.code == 2));
    let both = Response::from_parts(
        Id::Num(1),
        None,
        Some("5".to_string()),
        Some(RpcError { code: 2, message: "m".to_string(), data: None }),
    );
    assert!(matches!(both, Err(Error::Json(_))));
    assert!(matches!(Response::from_parts(Id::Num(1), None, None, None), Err(Error::Json(_))));
}

#[test]
fn error_messages() {
    assert_eq!(Error::Transport("down".to_string()).to_message(), "transport error: down");
    assert_eq!(Error::Json("eof".to_string()).to_message(), "JSON decode error: eof");
    let rpc = RpcError { code: -32601, message: "Method not found".to_string(), data: None };
    assert_eq!(
        Error::Rpc(rpc).to_message(),
        "RPC error response: RpcError { code: -32601, message: \"Method not found\", data: None }"
    );
    let rpc = RpcError { code: 5, message: "a\"b".to_string(), data: Some("{\"k\":1}".to_string()) };
    assert_eq!(
        Error::Rpc(rpc).to_message(),
        "RPC error response: RpcError { code: 5, message: \"a\\\"b\", data: Some(RawValue({\"k\":1})) }"
    );
    assert_eq!(
        Error::BatchDuplicateResponseId(Id::Num(18446744073709551615)).to_message(),
        "duplicate RPC batch response ID: 18446744073709551615"
    );
    assert_eq!(
        Error::WrongBatchResponseId(Id::Other("\"x\"".to_string())).to_message(),
        "wrong RPC batch response ID: \"x\""
    );
    assert_eq!(
        Error::NonceMismatch.to_message(),
        "Nonce of response did not match nonce of request"
    );
    assert_eq!(Error::VersionMismatch.to_message(), "`jsonrpc` field set to non-\"2.0\"");
    assert_eq!(Error::EmptyBatch.to_message(), "batches can't be empty");
    assert_eq!(Error::WrongBatchResponseSize.to_message(), "too many responses returned in batch");
}

#[test]
fn error_causes() {
    assert_eq!(Error::Transport("down".to_string()).cause(), Some("down".to_string()));
    assert_eq!(Error::Json("eof".to_string()).cause(), Some("eof".to_string()));
    assert_eq!(Error::EmptyBatch.cause(), None);
    let e: Error = RpcError { code: 1, message: "m".to_string(), data: None }.into();
    assert!(matches!(e, Error::Rpc(ref r) if r.code == 1));
}

#[test]
fn copies_are_equal() {
    let e = RpcError { code: 4, message: "m".to_string(), data: Some("[1]".to_string()) };
    let c = e.copy();
    assert_eq!((c.code, c.message.as_str(), c.data.as_deref()), (4, "m", Some("[1]")));
    let r = failed(9, 1, "x").copy();
    assert!(matches!(r.id, Id::Num(9)));
    assert_eq!(Id::Num(9).to_json(), "9");
}
