use vstd::prelude::*;

use crate::error::{decimal, decimal_text, Error, Id, RpcError};

verus! {

/// A call of a remote method, tagged with the nonce that its response must echo.
#[derive(Debug)]
pub struct Request {
    pub method: String,
    /// The arguments as JSON text: an array or an object
    pub params: String,
    pub id: u64,
}

/// What a response carries: exactly one of a result or an error object.
#[derive(Debug)]
pub enum Payload {
    /// The result, as undecoded JSON text
    Success(String),
    Failure(RpcError),
}

/// The reply to one request.
#[derive(Debug)]
pub struct Response {
    pub id: Id,
    /// The protocol version tag, when the peer sent one
    pub jsonrpc: Option<String>,
    pub payload: Payload,
}

pub open spec fn hex_digit(d: int) -> char {
    seq!['0', '1', '2', '3', '4', '5', '6', '7', '8', '9', 'a', 'b', 'c', 'd', 'e', 'f'][d]
}

/// How one character is written inside a JSON string literal: `"` and `\`
/// and the short control escapes take a backslash, other control characters
/// become `\u00xx` in lowercase hex, everything else stands as it is.
pub open spec fn escaped_char(c: char) -> Seq<char> {
    if c == '"' {
        seq!['\\', '"']
    } else if c == '\\' {
        seq!['\\', '\\']
    } else if c == '\u{8}' {
        seq!['\\', 'b']
    } else if c == '\u{c}' {
        seq!['\\', 'f']
    } else if c == '\n' {
        seq!['\\', 'n']
    } else if c == '\r' {
        seq!['\\', 'r']
    } else if c == '\t' {
        seq!['\\', 't']
    } else if (c as u32) < 0x20 {
        seq!['\\', 'u', '0', '0', hex_digit((c as u32) as int / 16), hex_digit((c as u32) as int % 16)]
    } else {
        seq![c]
    }
}

pub open spec fn escaped_text(s: Seq<char>) -> Seq<char>
    decreases s.len(),
{
    if s.len() == 0 {
        Seq::empty()
    } else {
        escaped_text(s.drop_last()) + escaped_char(s.last())
    }
}

/// The JSON string literal that encodes a text.
pub open spec fn json_string_of(s: Seq<char>) -> Seq<char> {
    seq!['"'] + escaped_text(s) + seq!['"']
}

/// Relies on `serde_json::to_string` on a `str`: the text between quotes,
/// escaped by serde_json's table. It writes into a `Vec`, so it cannot fail.
#[verifier::external_body]
fn json_quote(s: &str) -> (r: Result<String, String>)
    ensures
        r is Ok,
        r matches Ok(q) ==> q@ == json_string_of(s@),
{
    serde_json::to_string(s).map_err(|e| e.to_string())
}

pub open spec fn version_tag() -> Seq<char> {
    seq!['2', '.', '0']
}

/// The wire form of a request.
pub open spec fn request_text(r: Request) -> Seq<char> {
    "{\"jsonrpc\":\"2.0\",\"method\":"@ + json_string_of(r.method@) + ",\"params\":"@ + r.params@
        + ",\"id\":"@ + decimal(r.id as int) + "}"@
}

/// The requests' wire forms, separated by commas.
pub open spec fn joined_text(rs: Seq<Request>) -> Seq<char>
    decreases rs.len(),
{
    if rs.len() == 0 {
        Seq::empty()
    } else if rs.len() == 1 {
        request_text(rs[0])
    } else {
        joined_text(rs.drop_last()) + ","@ + request_text(rs.last())
    }
}

/// The wire form of a batch: a JSON array of requests.
pub open spec fn batch_text(rs: Seq<Request>) -> Seq<char> {
    "["@ + joined_text(rs) + "]"@
}

/// A version tag that is absent or equal to "2.0".
pub open spec fn version_ok(jsonrpc: Option<String>) -> bool {
    match jsonrpc {
        Some(v) => v@ == version_tag(),
        None => true,
    }
}

/// What a response yields to its caller once its envelope has been checked.
pub open spec fn payload_outcome(p: Payload) -> Result<String, Error> {
    match p {
        Payload::Success(v) => Ok(v),
        Payload::Failure(e) => Err(Error::Rpc(e)),
    }
}

impl Request {
    /// Encodes the request as a JSON object.
    pub fn to_json(&self) -> (r: Result<String, Error>)
        ensures
            r is Ok,
            r matches Ok(t) ==> t@ == request_text(*self),
    {
        let method = match json_quote(self.method.as_str()) {
            Ok(q) => q,
            Err(m) => {
                return Err(Error::Json(m));
            },
        };
        let id = decimal_text(self.id as i128);
        let t = String::from_str("{\"jsonrpc\":\"2.0\",\"method\":").concat(method.as_str()).concat(
            ",\"params\":",
        ).concat(self.params.as_str()).concat(",\"id\":").concat(id.as_str()).concat("}");
        Ok(t)
    }

    /// Encodes a batch of requests as a JSON array.
    pub fn batch_to_json(rs: &Vec<Request>) -> (r: Result<String, Error>)
        ensures
            r is Ok,
            r matches Ok(t) ==> t@ == batch_text(rs@),
    {
        let mut body = String::new();
        let mut i: usize = 0;
        while i < rs.len()
            invariant
                i <= rs@.len(),
                body@ == joined_text(rs@.subrange(0, i as int)),
            decreases rs@.len() - i,
        {
            let t = match rs[i].to_json() {
                Ok(t) => t,
                Err(e) => {
                    return Err(e);
                },
            };
            proof {
                assert(rs@.subrange(0, i + 1).drop_last() =~= rs@.subrange(0, i as int));
            }
            if i > 0 {
                body = body.concat(",");
            }
            body = body.concat(t.as_str());
            i = i + 1;
        }
        proof {
            assert(rs@.subrange(0, rs@.len() as int) =~= rs@);
        }
        Ok(String::from_str("[").concat(body.as_str()).concat("]"))
    }
}

impl Payload {
    pub fn copy(&self) -> (r: Payload)
        ensures
            r == *self,
    {
        match self {
            Payload::Success(v) => Payload::Success(v.clone()),
            Payload::Failure(e) => Payload::Failure(e.copy()),
        }
    }

    /// The result, or the peer's error object as an `Rpc` error.
    pub fn into_result(self) -> (r: Result<String, Error>)
        ensures
            r == payload_outcome(self),
    {
        match self {
            Payload::Success(v) => Ok(v),
            Payload::Failure(e) => Err(Error::Rpc(e)),
        }
    }
}

/// Whether an exec string equals "2.0".
fn is_version_tag(v: &String) -> (r: bool)
    ensures
        r == (v@ == version_tag()),
{
    let tag = String::from_str("2.0");
    proof {
        reveal_strlit("2.0");
        assert(tag@ =~= version_tag());
    }
    *v == tag
}

pub(crate) fn check_version(jsonrpc: &Option<String>) -> (r: bool)
    ensures
        r == version_ok(*jsonrpc),
{
    match jsonrpc {
        Some(v) => is_version_tag(v),
        None => true,
    }
}

impl Response {
    /// Builds a response from the fields found on the wire, of which exactly
    /// one of `result` and `error` must be present.
    pub fn from_parts(
        id: Id,
        jsonrpc: Option<String>,
        result: Option<String>,
        error: Option<RpcError>,
    ) -> (r: Result<Response, Error>)
        ensures
            (result, error) matches (Some(v), None) ==> r == Ok::<Response, Error>(
                Response { id, jsonrpc, payload: Payload::Success(v) },
            ),
            (result, error) matches (None, Some(e)) ==> r == Ok::<Response, Error>(
                Response { id, jsonrpc, payload: Payload::Failure(e) },
            ),
            result is Some == error is Some ==> r matches Err(Error::Json(_)),
    {
        match (result, error) {
            (Some(v), None) => Ok(Response { id, jsonrpc, payload: Payload::Success(v) }),
            (None, Some(e)) => Ok(Response { id, jsonrpc, payload: Payload::Failure(e) }),
            (Some(_), Some(_)) => Err(
                Error::Json(String::from_str("response holds both a result and an error")),
            ),
            (None, None) => Err(
                Error::Json(String::from_str("response holds neither a result nor an error")),
            ),
        }
    }

    pub fn copy(&self) -> (r: Response)
        ensures
            r == *self,
    {
        let jsonrpc = match &self.jsonrpc {
            Some(v) => Some(v.clone()),
            None => None,
        };
        Response { id: self.id.copy(), jsonrpc, payload: self.payload.copy() }
    }
}

} // verus!
