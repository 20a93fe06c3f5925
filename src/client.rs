use vstd::prelude::*;

use crate::error::{Error, Id};
use crate::message::{check_version, payload_outcome, version_ok, Payload, Request, Response};

verus! {

/// A conduit to the remote peer. It sends what it is given and hands back
/// what came back; all checking of the replies is done by [`Client`].
pub trait Transport {
    /// Sends one request and waits for one response.
    fn send_request(&self, req: &Request) -> Result<Response, Error>;

    /// Sends a non-empty batch and returns the responses in the order received.
    fn send_batch(&self, reqs: &Vec<Request>) -> Result<Vec<Response>, Error>;

    /// Names the destination, for diagnostics.
    fn fmt_target(&self) -> String;
}

/// What a single call yields for the response `resp` to the request with
/// nonce `nonce`.
pub open spec fn response_outcome(resp: Response, nonce: u64) -> Result<String, Error> {
    if !version_ok(resp.jsonrpc) {
        Err(Error::VersionMismatch)
    } else if resp.id != Id::Num(nonce) {
        Err(Error::NonceMismatch)
    } else {
        payload_outcome(resp.payload)
    }
}

/// `id` is one of the nonces of the batch.
pub open spec fn known(nonces: Seq<u64>, id: Id) -> bool {
    match id {
        Id::Num(n) => nonces.contains(n),
        Id::Other(_) => false,
    }
}

/// The response at `i` has an identifier that an earlier response already had.
pub open spec fn seen_before(resps: Seq<Response>, i: int) -> bool {
    exists|j: int| 0 <= j < i && #[trigger] resps[j].id == resps[i].id
}

/// The response at `i` cannot be matched to a request of its own.
pub open spec fn id_fault(nonces: Seq<u64>, resps: Seq<Response>, i: int) -> bool {
    !known(nonces, resps[i].id) || seen_before(resps, i)
}

/// The response at `i` is the first one, in the order received, that cannot be
/// matched.
pub open spec fn first_fault(nonces: Seq<u64>, resps: Seq<Response>, i: int) -> bool {
    &&& 0 <= i < resps.len()
    &&& id_fault(nonces, resps, i)
    &&& forall|k: int| 0 <= k < i ==> !id_fault(nonces, resps, k)
}

pub open spec fn fault_error(nonces: Seq<u64>, resps: Seq<Response>, i: int) -> Error {
    if !known(nonces, resps[i].id) {
        Error::WrongBatchResponseId(resps[i].id)
    } else {
        Error::BatchDuplicateResponseId(resps[i].id)
    }
}

/// Some response answers the request with nonce `n`.
pub open spec fn answered(resps: Seq<Response>, n: u64) -> bool {
    exists|i: int| 0 <= i < resps.len() && #[trigger] resps[i].id == Id::Num(n)
}

/// What the caller gets at the position of the request with nonce `n`.
pub open spec fn entry_for(resps: Seq<Response>, n: u64) -> Option<Result<String, Error>> {
    if answered(resps, n) {
        let i = choose|i: int| 0 <= i < resps.len() && #[trigger] resps[i].id == Id::Num(n);
        Some(payload_outcome(resps[i].payload))
    } else {
        None
    }
}

/// What a batch call yields when the requests carried `nonces`, in call
/// order, and `resps` came back.
pub open spec fn batch_outcome(nonces: Seq<u64>, resps: Seq<Response>) -> Result<
    Seq<Option<Result<String, Error>>>,
    Error,
> {
    if resps.len() > nonces.len() {
        Err(Error::WrongBatchResponseSize)
    } else if exists|i: int| first_fault(nonces, resps, i) {
        Err(fault_error(nonces, resps, choose|i: int| first_fault(nonces, resps, i)))
    } else if exists|i: int| 0 <= i < resps.len() && !version_ok(#[trigger] resps[i].jsonrpc) {
        Err(Error::VersionMismatch)
    } else {
        Ok(Seq::new(nonces.len(), |k: int| entry_for(resps, nonces[k])))
    }
}

pub open spec fn results_view(r: Result<Vec<Option<Result<String, Error>>>, Error>) -> Result<
    Seq<Option<Result<String, Error>>>,
    Error,
> {
    match r {
        Ok(v) => Ok(v@),
        Err(e) => Err(e),
    }
}

/// Checks the response to a single call against the nonce it was sent with.
pub fn check_response(resp: Response, nonce: u64) -> (r: Result<String, Error>)
    ensures
        r == response_outcome(resp, nonce),
{
    if !check_version(&resp.jsonrpc) {
        return Err(Error::VersionMismatch);
    }
    let matches = match &resp.id {
        Id::Num(n) => *n == nonce,
        Id::Other(_) => false,
    };
    if !matches {
        return Err(Error::NonceMismatch);
    }
    resp.payload.into_result()
}

fn contains_nonce(nonces: &Vec<u64>, n: u64) -> (r: bool)
    ensures
        r == nonces@.contains(n),
{
    let mut i: usize = 0;
    while i < nonces.len()
        invariant
            i <= nonces@.len(),
            forall|k: int| 0 <= k < i ==> nonces@[k] != n,
        decreases nonces@.len() - i,
    {
        if nonces[i] == n {
            return true;
        }
        i = i + 1;
    }
    false
}

/// Whether the response at `i` repeats the numeric identifier `n` of an earlier one.
fn repeated(resps: &Vec<Response>, i: usize, n: u64) -> (r: bool)
    requires
        i < resps@.len(),
        resps@[i as int].id == Id::Num(n),
    ensures
        r == seen_before(resps@, i as int),
{
    let mut j: usize = 0;
    while j < i
        invariant
            i < resps@.len(),
            resps@[i as int].id == Id::Num(n),
            j <= i,
            forall|k: int| 0 <= k < j ==> resps@[k].id != resps@[i as int].id,
        decreases i - j,
    {
        let same = match &resps[j].id {
            Id::Num(m) => *m == n,
            Id::Other(_) => false,
        };
        if same {
            assert(resps@[j as int].id == resps@[i as int].id);
            return true;
        }
        j = j + 1;
    }
    false
}

/// Finds the response that answers nonce `n`, among responses whose
/// identifiers are pairwise distinct.
fn find_answer(resps: &Vec<Response>, n: u64) -> (r: Option<usize>)
    ensures
        r matches Some(i) ==> i < resps@.len() && resps@[i as int].id == Id::Num(n),
        r is None ==> !answered(resps@, n),
{
    let mut i: usize = 0;
    while i < resps.len()
        invariant
            i <= resps@.len(),
            forall|k: int| 0 <= k < i ==> resps@[k].id != Id::Num(n),
        decreases resps@.len() - i,
    {
        let hit = match &resps[i].id {
            Id::Num(m) => *m == n,
            Id::Other(_) => false,
        };
        if hit {
            return Some(i);
        }
        i = i + 1;
    }
    None
}

/// Matches the responses to a batch against the nonces of its requests, in
/// call order, and yields each call's outcome at its request's position.
pub fn match_batch(nonces: &Vec<u64>, resps: Vec<Response>) -> (r: Result<
    Vec<Option<Result<String, Error>>>,
    Error,
>)
    ensures
        results_view(r) == batch_outcome(nonces@, resps@),
{
    if resps.len() > nonces.len() {
        return Err(Error::WrongBatchResponseSize);
    }
    let mut i: usize = 0;
    while i < resps.len()
        invariant
            i <= resps@.len(),
            resps@.len() <= nonces@.len(),
            forall|k: int| 0 <= k < i ==> !id_fault(nonces@, resps@, k),
        decreases resps@.len() - i,
    {
        let fault = match &resps[i].id {
            Id::Num(n) => !contains_nonce(nonces, *n) || repeated(&resps, i, *n),
            Id::Other(_) => true,
        };
        if fault {
            assert(first_fault(nonces@, resps@, i as int));
            proof {
                lemma_first_fault_unique(nonces@, resps@, i as int);
            }
            let id = resps[i].id.copy();
            let known_id = match &resps[i].id {
                Id::Num(n) => contains_nonce(nonces, *n),
                Id::Other(_) => false,
            };
            if known_id {
                return Err(Error::BatchDuplicateResponseId(id));
            } else {
                return Err(Error::WrongBatchResponseId(id));
            }
        }
        i = i + 1;
    }
    assert(!exists|c: int| first_fault(nonces@, resps@, c));
    let mut i: usize = 0;
    while i < resps.len()
        invariant
            i <= resps@.len(),
            resps@.len() <= nonces@.len(),
            !exists|c: int| first_fault(nonces@, resps@, c),
            forall|k: int| 0 <= k < i ==> version_ok(#[trigger] resps@[k].jsonrpc),
        decreases resps@.len() - i,
    {
        if !check_version(&resps[i].jsonrpc) {
            return Err(Error::VersionMismatch);
        }
        i = i + 1;
    }
    let mut out: Vec<Option<Result<String, Error>>> = Vec::new();
    let mut k: usize = 0;
    while k < nonces.len()
        invariant
            k <= nonces@.len(),
            resps@.len() <= nonces@.len(),
            !exists|c: int| first_fault(nonces@, resps@, c),
            forall|a: int| 0 <= a < resps@.len() ==> version_ok(#[trigger] resps@[a].jsonrpc),
            out@.len() == k,
            forall|a: int| 0 <= a < resps@.len() ==> !id_fault(nonces@, resps@, a),
            forall|j: int| 0 <= j < k ==> out@[j] == entry_for(resps@, nonces@[j]),
        decreases nonces@.len() - k,
    {
        let n = nonces[k];
        match find_answer(&resps, n) {
            Some(i) => {
                proof {
                    let c = choose|c: int| 0 <= c < resps@.len() && #[trigger] resps@[c].id == Id::Num(n);
                    assert(resps@[i as int].id == Id::Num(n));
                    assert(c == i) by {
                        if c < i {
                            assert(!id_fault(nonces@, resps@, i as int));
                            assert(resps@[c].id == resps@[i as int].id);
                        } else if c > i {
                            assert(!id_fault(nonces@, resps@, c));
                            assert(resps@[i as int].id == resps@[c].id);
                        }
                    }
                }
                out.push(Some(resps[i].payload.copy().into_result()));
            },
            None => {
                out.push(None);
            },
        }
        k = k + 1;
    }
    assert(out@ =~= Seq::new(nonces@.len(), |k: int| entry_for(resps@, nonces@[k])));
    Ok(out)
}

/// The correlation engine: it allocates nonces, hands requests to its
/// transport, and checks what comes back.
pub struct Client<T: Transport> {
    transport: T,
    nonce: u64,
}

/// The nonces given to a batch of `len` requests, starting at `start`.
pub open spec fn nonce_range(start: u64, len: nat) -> Seq<u64> {
    Seq::new(len, |k: int| (start + k) as u64)
}

impl<T: Transport> Client<T> {
    /// The nonce that the next request will carry.
    pub closed spec fn next_nonce(&self) -> u64 {
        self.nonce
    }

    pub fn new(transport: T) -> (r: Self)
        ensures
            r.next_nonce() == 0,
    {
        Client { transport, nonce: 0 }
    }

    /// How many nonces are still free.
    pub fn nonces_left(&self) -> (r: u64)
        ensures
            r == u64::MAX - self.next_nonce(),
    {
        u64::MAX - self.nonce
    }

    /// The transport that requests go through.
    pub fn transport(&self) -> &T {
        &self.transport
    }

    /// Describes the destination of the transport.
    pub fn target(&self) -> (r: String) {
        self.transport.fmt_target()
    }

    /// Builds a request with a fresh nonce.
    pub fn build_request(&mut self, method: String, params: String) -> (r: Request)
        requires
            old(self).next_nonce() < u64::MAX,
        ensures
            r == (Request { method, params, id: old(self).next_nonce() }),
            final(self).next_nonce() == old(self).next_nonce() + 1,
    {
        let id = self.nonce;
        self.nonce = self.nonce + 1;
        Request { method, params, id }
    }

    /// Builds one request per call, each with a fresh nonce, in call order.
    pub fn build_batch(&mut self, calls: Vec<(String, String)>) -> (r: Result<Vec<Request>, Error>)
        requires
            old(self).next_nonce() + calls@.len() <= u64::MAX,
        ensures
            calls@.len() == 0 ==> r == Err::<Vec<Request>, Error>(Error::EmptyBatch)
                && final(self).next_nonce() == old(self).next_nonce(),
            calls@.len() > 0 ==> (r matches Ok(rs) && rs@.len() == calls@.len()
                && final(self).next_nonce() == old(self).next_nonce() + calls@.len()
                && forall|k: int| 0 <= k < calls@.len() ==> (#[trigger] rs@[k]) == (Request {
                    method: calls@[k].0,
                    params: calls@[k].1,
                    id: (old(self).next_nonce() + k) as u64,
                })),
    {
        if calls.len() == 0 {
            return Err(Error::EmptyBatch);
        }
        let ghost start = self.nonce;
        let mut reqs: Vec<Request> = Vec::new();
        let mut i: usize = 0;
        while i < calls.len()
            invariant
                i <= calls@.len(),
                reqs@.len() == i,
                start + calls@.len() <= u64::MAX,
                self.nonce == start + i,
                forall|k: int| 0 <= k < i ==> (#[trigger] reqs@[k]) == (Request {
                    method: calls@[k].0,
                    params: calls@[k].1,
                    id: (start + k) as u64,
                }),
            decreases calls@.len() - i,
        {
            let req = self.build_request(calls[i].0.clone(), calls[i].1.clone());
            reqs.push(req);
            i = i + 1;
        }
        Ok(reqs)
    }

    /// Calls a remote method and checks its response.
    pub fn call(&mut self, method: String, params: String) -> (r: Result<String, Error>)
        requires
            old(self).next_nonce() < u64::MAX,
        ensures
            final(self).next_nonce() == old(self).next_nonce() + 1,
            r matches Ok(v) ==> exists|resp: Response|
                #![trigger response_outcome(resp, old(self).next_nonce())]
                resp.id == Id::Num(old(self).next_nonce()) && version_ok(resp.jsonrpc)
                    && resp.payload == Payload::Success(v) && response_outcome(
                    resp,
                    old(self).next_nonce(),
                ) == Ok::<String, Error>(v),
    {
        let req = self.build_request(method, params);
        let resp = match self.transport.send_request(&req) {
            Ok(resp) => resp,
            Err(e) => {
                return Err(e);
            },
        };
        check_response(resp, req.id)
    }

    /// Calls several remote methods in one batch. The outcomes come in call
    /// order; an error object answering one call is that call's outcome alone.
    pub fn call_batch(&mut self, calls: Vec<(String, String)>) -> (r: Result<
        Vec<Option<Result<String, Error>>>,
        Error,
    >)
        requires
            old(self).next_nonce() + calls@.len() <= u64::MAX,
        ensures
            calls@.len() == 0 ==> (r matches Err(Error::EmptyBatch) && final(self).next_nonce()
                == old(self).next_nonce()),
            calls@.len() > 0 ==> final(self).next_nonce() == old(self).next_nonce()
                + calls@.len(),
            r matches Ok(v) ==> exists|resps: Seq<Response>|
                batch_outcome(nonce_range(old(self).next_nonce(), calls@.len()), resps)
                    == Ok::<Seq<Option<Result<String, Error>>>, Error>(v@),
    {
        let ghost start = self.nonce;
        let ghost len = calls@.len();
        let reqs = match self.build_batch(calls) {
            Ok(reqs) => reqs,
            Err(e) => {
                return Err(e);
            },
        };
        let mut nonces: Vec<u64> = Vec::new();
        let mut i: usize = 0;
        while i < reqs.len()
            invariant
                i <= reqs@.len(),
                reqs@.len() == len,
                nonces@.len() == i,
                forall|k: int| 0 <= k < len ==> (#[trigger] reqs@[k]).id == (start + k) as u64,
                forall|k: int| 0 <= k < i ==> nonces@[k] == (start + k) as u64,
            decreases reqs@.len() - i,
        {
            nonces.push(reqs[i].id);
            i = i + 1;
        }
        assert(nonces@ =~= nonce_range(start, len));
        let resps = match self.transport.send_batch(&reqs) {
            Ok(resps) => resps,
            Err(e) => {
                return Err(e);
            },
        };
        match_batch(&nonces, resps)
    }
}

proof fn lemma_first_fault_unique(nonces: Seq<u64>, resps: Seq<Response>, i: int)
    requires
        first_fault(nonces, resps, i),
    ensures
        (choose|c: int| first_fault(nonces, resps, c)) == i,
{
    let c = choose|c: int| first_fault(nonces, resps, c);
    assert(first_fault(nonces, resps, c));
    if c < i {
        assert(!id_fault(nonces, resps, c));
    } else if c > i {
        assert(!id_fault(nonces, resps, i));
    }
}

/// A response to `send_request` with the right nonce and version yields its
/// result, or the peer's error object as an `Rpc` error.
pub proof fn lemma_matching_response(resp: Response, nonce: u64)
    requires
        version_ok(resp.jsonrpc),
        resp.id == Id::Num(nonce),
    ensures
        resp.payload matches Payload::Success(v) ==> response_outcome(resp, nonce) == Ok::<
            String,
            Error,
        >(v),
        resp.payload matches Payload::Failure(e) ==> response_outcome(resp, nonce) == Err::<
            String,
            Error,
        >(Error::Rpc(e)),
{
}

/// A response to `send_request` whose id differs from the nonce sent yields
/// `NonceMismatch`, whatever its payload.
pub proof fn lemma_nonce_mismatch(resp: Response, nonce: u64)
    requires
        version_ok(resp.jsonrpc),
        resp.id != Id::Num(nonce),
    ensures
        response_outcome(resp, nonce) == Err::<String, Error>(Error::NonceMismatch),
{
}

/// A response to `send_request` whose version tag is present and not "2.0"
/// yields `VersionMismatch`, whatever its id and payload.
pub proof fn lemma_version_mismatch(resp: Response, nonce: u64)
    requires
        !version_ok(resp.jsonrpc),
    ensures
        response_outcome(resp, nonce) == Err::<String, Error>(Error::VersionMismatch),
{
}

/// A reply to `send_batch` with more entries than requests sent yields
/// `WrongBatchResponseSize`.
pub proof fn lemma_oversized_reply(nonces: Seq<u64>, resps: Seq<Response>)
    requires
        resps.len() > nonces.len(),
    ensures
        batch_outcome(nonces, resps) == Err::<Seq<Option<Result<String, Error>>>, Error>(
            Error::WrongBatchResponseSize,
        ),
{
}

/// Where every entry of a reply to `send_batch` answers some request, the
/// first entry that repeats an earlier entry's id fails the batch with `BatchDuplicateResponseId` of that id.
pub proof fn lemma_duplicate_id(nonces: Seq<u64>, resps: Seq<Response>, i: int, j: int)
    requires
        resps.len() <= nonces.len(),
        0 <= i < j < resps.len(),
        resps[i].id == resps[j].id,
        forall|k: int| 0 <= k < resps.len() ==> known(nonces, #[trigger] resps[k].id),
        forall|a: int, b: int| 0 <= a < b < j ==> resps[a].id != resps[b].id,
    ensures
        batch_outcome(nonces, resps) == Err::<Seq<Option<Result<String, Error>>>, Error>(
            Error::BatchDuplicateResponseId(resps[j].id),
        ),
{
    assert(known(nonces, resps[j].id));
    assert(seen_before(resps, j));
    assert forall|k: int| 0 <= k < j implies !id_fault(nonces, resps, k) by {
        assert(known(nonces, resps[k].id));
        if seen_before(resps, k) {
            let a = choose|a: int| 0 <= a < k && #[trigger] resps[a].id == resps[k].id;
            assert(resps[a].id != resps[k].id);
        }
    }
    assert(first_fault(nonces, resps, j));
    lemma_first_fault_unique(nonces, resps, j);
}

/// Where no earlier entry of a reply to `send_batch` is at fault, an entry
/// whose id is not among the nonces sent fails the batch with `WrongBatchResponseId` of that id.
pub proof fn lemma_unknown_id(nonces: Seq<u64>, resps: Seq<Response>, i: int)
    requires
        resps.len() <= nonces.len(),
        0 <= i < resps.len(),
        !known(nonces, resps[i].id),
        forall|k: int| 0 <= k < i ==> !id_fault(nonces, resps, k),
    ensures
        batch_outcome(nonces, resps) == Err::<Seq<Option<Result<String, Error>>>, Error>(
            Error::WrongBatchResponseId(resps[i].id),
        ),
{
    assert(first_fault(nonces, resps, i));
    lemma_first_fault_unique(nonces, resps, i);
}

/// A well-formed reply to `send_batch` yields one outcome per request, in call
/// order whatever the order received: each entry's result, or its error object as an `Rpc`
/// error for that position alone.
pub proof fn lemma_reply_in_call_order(nonces: Seq<u64>, resps: Seq<Response>)
    requires
        resps.len() <= nonces.len(),
        forall|k: int| 0 <= k < resps.len() ==> known(nonces, #[trigger] resps[k].id),
        forall|a: int, b: int| 0 <= a < b < resps.len() ==> resps[a].id != resps[b].id,
        forall|k: int| 0 <= k < resps.len() ==> version_ok(#[trigger] resps[k].jsonrpc),
    ensures
        batch_outcome(nonces, resps) matches Ok(v) && v.len() == nonces.len() && (forall|
            k: int,
            i: int,
        |
            0 <= k < nonces.len() && 0 <= i < resps.len() && #[trigger] resps[i].id == Id::Num(
                #[trigger] nonces[k],
            ) ==> v[k] == Some(payload_outcome(resps[i].payload))),
{
    assert forall|c: int| !first_fault(nonces, resps, c) by {
        if first_fault(nonces, resps, c) {
            assert(known(nonces, resps[c].id));
            let a = choose|a: int| 0 <= a < c && #[trigger] resps[a].id == resps[c].id;
            assert(resps[a].id != resps[c].id);
        }
    }
    let v = Seq::new(nonces.len(), |k: int| entry_for(resps, nonces[k]));
    assert forall|k: int, i: int|
        0 <= k < nonces.len() && 0 <= i < resps.len() && #[trigger] resps[i].id == Id::Num(
            #[trigger] nonces[k],
        ) implies v[k] == Some(payload_outcome(resps[i].payload)) by {
        let n = nonces[k];
        assert(answered(resps, n));
        let c = choose|c: int| 0 <= c < resps.len() && #[trigger] resps[c].id == Id::Num(n);
        if c < i {
            assert(resps[c].id != resps[i].id);
        } else if c > i {
            assert(resps[i].id != resps[c].id);
        }
    }
}

} // verus!
