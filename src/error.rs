use vstd::prelude::*;

verus! {

/// The identifier carried by a response.
///
/// Nonces issued by this client are unsigned integers; anything else that a
/// peer echoes back (a string, a negative number, `null`) is kept as its
/// compact JSON text.
#[derive(Debug)]
pub enum Id {
    Num(u64),
    Other(String),
}

impl Id {
    pub fn copy(&self) -> (r: Id)
        ensures
            r == *self,
    {
        match self {
            Id::Num(n) => Id::Num(*n),
            Id::Other(s) => Id::Other(s.clone()),
        }
    }

    /// The identifier as it appears on the wire.
    pub fn to_json(&self) -> (r: String)
        ensures
            r@ == id_text(*self),
    {
        match self {
            Id::Num(n) => decimal_text(*n as i128),
            Id::Other(s) => s.clone(),
        }
    }
}

/// A JSON-RPC error object returned by the remote peer.
#[derive(Debug)]
pub struct RpcError {
    /// The integer identifier of the error
    pub code: i32,
    /// A string describing the error
    pub message: String,
    /// Additional data specific to the error, as undecoded JSON text
    pub data: Option<String>,
}

impl RpcError {
    /// Describes the error object field by field.
    pub fn to_debug(&self) -> (r: String)
        ensures
            r@ == rpc_error_text(*self),
    {
        let code = decimal_text(self.code as i128);
        let message = debug_text(self.message.as_str());
        let data = match &self.data {
            Some(d) => String::from_str("Some(RawValue(").concat(d.as_str()).concat("))"),
            None => String::from_str("None"),
        };
        String::from_str("RpcError { code: ").concat(code.as_str()).concat(", message: ").concat(
            message.as_str(),
        ).concat(", data: ").concat(data.as_str()).concat(" }")
    }

    pub fn copy(&self) -> (r: RpcError)
        ensures
            r == *self,
    {
        let data = match &self.data {
            Some(d) => Some(d.clone()),
            None => None,
        };
        RpcError { code: self.code, message: self.message.clone(), data }
    }
}

/// A library error
#[derive(Debug)]
pub enum Error {
    /// A transport error, with the description of its cause
    Transport(String),
    /// A payload could not be decoded into the expected shape
    Json(String),
    /// Error response
    Rpc(RpcError),
    /// Response to a request did not have the expected nonce
    NonceMismatch,
    /// Response to a request had a jsonrpc field other than "2.0"
    VersionMismatch,
    /// Batches can't be empty
    EmptyBatch,
    /// Too many responses returned in batch
    WrongBatchResponseSize,
    /// Batch response contained a duplicate ID
    BatchDuplicateResponseId(Id),
    /// Batch response contained an ID that didn't correspond to any request ID
    WrongBatchResponseId(Id),
}

/// The decimal notation of an integer, with a leading `-` when negative.
pub open spec fn decimal(n: int) -> Seq<char> {
    if n < 0 {
        seq!['-'] + digits((-n) as nat)
    } else {
        digits(n as nat)
    }
}

pub open spec fn digits(n: nat) -> Seq<char>
    decreases n,
{
    let d = seq!['0', '1', '2', '3', '4', '5', '6', '7', '8', '9'][(n % 10) as int];
    if n < 10 {
        seq![d]
    } else {
        digits(n / 10).push(d)
    }
}

/// Relies on `i128::to_string` (std's `Display` for integers): decimal notation.
#[verifier::external_body]
pub(crate) fn decimal_text(n: i128) -> (r: String)
    ensures
        r@ == decimal(n as int),
{
    n.to_string()
}

pub open spec fn id_text(id: Id) -> Seq<char> {
    match id {
        Id::Num(n) => decimal(n as int),
        Id::Other(s) => s@,
    }
}

/// What std's `Debug` gives for a `str`: the text quoted, with its special
/// characters escaped.
pub uninterp spec fn debug_str_of(s: Seq<char>) -> Seq<char>;

/// Relies on std's `Debug` for `str`: the result depends on the characters alone.
#[verifier::external_body]
fn debug_text(s: &str) -> (r: String)
    ensures
        r@ == debug_str_of(s@),
{
    format!("{:?}", s)
}

/// The debug form of the error's data: `None`, or `Some(RawValue(<json>))`,
/// as serde_json's `Debug` for a raw value writes it.
pub open spec fn data_text(data: Option<String>) -> Seq<char> {
    match data {
        Some(d) => "Some(RawValue("@ + d@ + "))"@,
        None => "None"@,
    }
}

/// The debug form of an error object, field by field.
pub open spec fn rpc_error_text(e: RpcError) -> Seq<char> {
    "RpcError { code: "@ + decimal(e.code as int) + ", message: "@ + debug_str_of(e.message@)
        + ", data: "@ + data_text(e.data) + " }"@
}

/// The human-readable description of an error.
pub open spec fn error_text(e: Error) -> Seq<char> {
    match e {
        Error::Transport(m) => "transport error: "@ + m@,
        Error::Json(m) => "JSON decode error: "@ + m@,
        Error::Rpc(r) => "RPC error response: "@ + rpc_error_text(r),
        Error::BatchDuplicateResponseId(id) => "duplicate RPC batch response ID: "@ + id_text(id),
        Error::WrongBatchResponseId(id) => "wrong RPC batch response ID: "@ + id_text(id),
        Error::NonceMismatch => "Nonce of response did not match nonce of request"@,
        Error::VersionMismatch => "`jsonrpc` field set to non-\"2.0\""@,
        Error::EmptyBatch => "batches can't be empty"@,
        Error::WrongBatchResponseSize => "too many responses returned in batch"@,
    }
}

fn text(s: &str) -> (r: String)
    ensures
        r@ == s@,
{
    String::from_str(s)
}

impl Error {
    /// Describes the error for a human reader.
    pub fn to_message(&self) -> (r: String)
        ensures
            r@ == error_text(*self),
    {
        match self {
            Error::Transport(m) => text("transport error: ").concat(m.as_str()),
            Error::Json(m) => text("JSON decode error: ").concat(m.as_str()),
            Error::Rpc(e) => {
                let t = e.to_debug();
                text("RPC error response: ").concat(t.as_str())
            },
            Error::BatchDuplicateResponseId(id) => {
                let t = id.to_json();
                text("duplicate RPC batch response ID: ").concat(t.as_str())
            },
            Error::WrongBatchResponseId(id) => {
                let t = id.to_json();
                text("wrong RPC batch response ID: ").concat(t.as_str())
            },
            Error::NonceMismatch => text("Nonce of response did not match nonce of request"),
            Error::VersionMismatch => text("`jsonrpc` field set to non-\"2.0\""),
            Error::EmptyBatch => text("batches can't be empty"),
            Error::WrongBatchResponseSize => text("too many responses returned in batch"),
        }
    }

    /// The description of the underlying failure, for the variants that wrap one.
    pub fn cause(&self) -> (r: Option<String>)
        ensures
            r matches Some(c) ==> (self matches Error::Transport(m) && c@ == m@) || (
            self matches Error::Json(m) && c@ == m@),
            r is None ==> !(self is Transport || self is Json),
    {
        match self {
            Error::Transport(m) => Some(m.clone()),
            Error::Json(m) => Some(m.clone()),
            _ => None,
        }
    }
}

impl From<RpcError> for Error {
    fn from(e: RpcError) -> (r: Error) {
        Error::Rpc(e)
    }
}

impl vstd::std_specs::convert::FromSpecImpl<RpcError> for Error {
    open spec fn obeys_from_spec() -> bool {
        true
    }

    open spec fn from_spec(e: RpcError) -> Error {
        Error::Rpc(e)
    }
}

} // verus!
