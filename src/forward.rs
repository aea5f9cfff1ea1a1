//! Request forwarding decisions: what happens after each attempt of a
//! logical request, including retries and pool flushes.
use vstd::prelude::*;
use vstd::string::StringExecFns;
use crate::classify::{MAX_RETRIES, retry_decision, should_retry_on_error};
use crate::gate::{MutationGate, after_enter, can_enter};
use crate::pool::{ConnectionPool, PooledConnection};
use crate::signals::{
    IpcDeleteRequest, IpcGetRequest, IpcPatchRequest, IpcPostRequest, IpcPutRequest, IpcResponse,
    is_failure_response, is_success_response,
};
use crate::text::{decimal, decimal_text};

verus! {

/// Milliseconds to wait after a flush before the next attempt.
pub const RETRY_BACKOFF_MS: u64 = 200;

/// Verb of a logical request.
#[derive(PartialEq, Eq, Structural, Clone, Copy)]
pub enum Method {
    Get,
    Post,
    Put,
    Patch,
    Delete,
}

/// The verb mutates the core's configuration and must hold the mutation permit.
pub open spec fn mutating(m: Method) -> bool {
    m == Method::Put
}

impl Method {
    /// The verb as written on the wire.
    pub fn as_str(&self) -> (r: &'static str)
        ensures
            r@ == match *self {
                Method::Get => "GET"@,
                Method::Post => "POST"@,
                Method::Put => "PUT"@,
                Method::Patch => "PATCH"@,
                Method::Delete => "DELETE"@,
            },
    {
        match self {
            Method::Get => "GET",
            Method::Post => "POST",
            Method::Put => "PUT",
            Method::Patch => "PATCH",
            Method::Delete => "DELETE",
        }
    }

    /// Whether a request with this verb goes through the mutation permit.
    pub fn is_mutating(&self) -> (r: bool)
        ensures
            r == mutating(*self),
    {
        match self {
            Method::Put => true,
            _ => false,
        }
    }
}

/// A logical request in the form the forwarder runs it.
pub struct RequestCall {
    pub request_id: i64,
    pub method: Method,
    pub path: String,
    pub body: Option<String>,
}

impl IpcGetRequest {
    /// The request as a GET without body.
    pub fn into_call(self) -> (c: RequestCall)
        ensures
            c.request_id == self.request_id,
            c.method == Method::Get,
            c.path == self.path,
            c.body is None,
    {
        RequestCall { request_id: self.request_id, method: Method::Get, path: self.path, body: None }
    }
}

impl IpcPostRequest {
    /// The request as a POST.
    pub fn into_call(self) -> (c: RequestCall)
        ensures
            c.request_id == self.request_id,
            c.method == Method::Post,
            c.path == self.path,
            c.body == self.body,
    {
        RequestCall { request_id: self.request_id, method: Method::Post, path: self.path, body: self.body }
    }
}

impl IpcPutRequest {
    /// The request as a PUT.
    pub fn into_call(self) -> (c: RequestCall)
        ensures
            c.request_id == self.request_id,
            c.method == Method::Put,
            c.path == self.path,
            c.body == self.body,
    {
        RequestCall { request_id: self.request_id, method: Method::Put, path: self.path, body: self.body }
    }
}

impl IpcPatchRequest {
    /// The request as a PATCH.
    pub fn into_call(self) -> (c: RequestCall)
        ensures
            c.request_id == self.request_id,
            c.method == Method::Patch,
            c.path == self.path,
            c.body == self.body,
    {
        RequestCall { request_id: self.request_id, method: Method::Patch, path: self.path, body: self.body }
    }
}

impl IpcDeleteRequest {
    /// The request as a DELETE without body.
    pub fn into_call(self) -> (c: RequestCall)
        ensures
            c.request_id == self.request_id,
            c.method == Method::Delete,
            c.path == self.path,
            c.body is None,
    {
        RequestCall { request_id: self.request_id, method: Method::Delete, path: self.path, body: None }
    }
}

/// Message of a failure to obtain a connection.
pub open spec fn acquire_failure_text(e: Seq<char>) -> Seq<char> {
    "获取连接失败："@ + e
}

/// Message of a failure while sending or awaiting the reply.
pub open spec fn request_failure_text(e: Seq<char>) -> Seq<char> {
    "IPC 请求失败："@ + e
}

/// What follows a failed send or receive.
pub enum SendFailure {
    /// The pool was flushed; wait the backoff and make the next attempt.
    Retry,
    /// The request is over with this failed answer.
    Done(IpcResponse),
}

/// Progress of one logical request through its attempts.
pub struct RequestSession {
    pub request_id: i64,
    pub method: Method,
    /// Identity under which the request takes the mutation permit.
    pub requester: u64,
    /// Number of the current attempt, counted from zero.
    pub attempt: usize,
    /// An answer has been produced.
    pub finished: bool,
    /// The request holds the mutation permit.
    pub holds_permit: bool,
}

/// The permit slot once a request that held the permit (or not) finished:
/// a held permit is given back, otherwise nothing changes.
pub open spec fn permit_after_finish(holds: bool, g: MutationGate) -> MutationGate {
    if holds {
        MutationGate { holder: None }
    } else {
        g
    }
}

impl RequestSession {
    /// The attempt counter stays within the retry budget, and a mutating
    /// request holds the permit exactly while it is unfinished.
    pub open spec fn wf(&self) -> bool {
        &&& self.attempt <= MAX_RETRIES
        &&& self.holds_permit == (mutating(self.method) && !self.finished)
    }

    /// The permit slot agrees with the session: a session holding the
    /// permit is the slot's holder.
    pub open spec fn agrees_with(&self, gate: MutationGate) -> bool {
        self.holds_permit ==> gate.holder == Some(self.requester)
    }

    /// Starts a request. A mutating request first takes the permit; when
    /// the permit is taken by another request there is no session yet and
    /// the caller waits for the permit to be given back and asks again.
    pub fn begin(request_id: i64, method: Method, requester: u64, gate: &mut MutationGate) -> (s: Option<RequestSession>)
        ensures
            mutating(method) ==> {
                &&& s is Some <==> can_enter(*old(gate))
                &&& *final(gate) == after_enter(*old(gate), requester)
            },
            !mutating(method) ==> s is Some && *final(gate) == *old(gate),
            s is Some ==> {
                &&& s->0.request_id == request_id
                &&& s->0.method == method
                &&& s->0.requester == requester
                &&& s->0.attempt == 0
                &&& !s->0.finished
                &&& s->0.holds_permit == mutating(method)
                &&& s->0.wf()
                &&& s->0.agrees_with(*final(gate))
            },
    {
        if method.is_mutating() {
            if gate.try_enter(requester) {
                Some(RequestSession { request_id, method, requester, attempt: 0, finished: false, holds_permit: true })
            } else {
                None
            }
        } else {
            Some(RequestSession { request_id, method, requester, attempt: 0, finished: false, holds_permit: false })
        }
    }

    fn finish(&mut self, gate: &mut MutationGate)
        requires
            !old(self).finished,
            old(self).wf(),
            old(self).agrees_with(*old(gate)),
        ensures
            final(self).finished,
            !final(self).holds_permit,
            final(self).wf(),
            final(self).attempt == old(self).attempt,
            final(self).request_id == old(self).request_id,
            final(self).method == old(self).method,
            final(self).requester == old(self).requester,
            *final(gate) == permit_after_finish(old(self).holds_permit, *old(gate)),
    {
        if self.holds_permit {
            gate.leave(self.requester);
            self.holds_permit = false;
        }
        self.finished = true;
    }

    /// No connection could be had: the request ends at once with a failure,
    /// whatever the error (acquisition failures are not retried), and gives
    /// back the permit if it held it.
    pub fn on_acquire_failed(&mut self, error: &str, gate: &mut MutationGate) -> (r: IpcResponse)
        requires
            !old(self).finished,
            old(self).wf(),
            old(self).agrees_with(*old(gate)),
        ensures
            final(self).finished,
            !final(self).holds_permit,
            final(self).wf(),
            final(self).attempt == old(self).attempt,
            final(self).request_id == old(self).request_id,
            final(self).method == old(self).method,
            final(self).requester == old(self).requester,
            *final(gate) == permit_after_finish(old(self).holds_permit, *old(gate)),
            is_failure_response(r, old(self).request_id, acquire_failure_text(error@)),
    {
        self.finish(gate);
        let msg = String::from_str("获取连接失败：").concat(error);
        proof {
            reveal_strlit("获取连接失败：");
        }
        IpcResponse::failure(self.request_id, msg)
    }

    /// The core answered: the connection goes back to the pool, the permit
    /// is given back if held, and the request ends with the reply.
    pub fn on_reply<C>(
        &mut self,
        status_code: u16,
        body: String,
        conn: C,
        pool: &mut ConnectionPool<C>,
        now: u64,
        gate: &mut MutationGate,
    ) -> (r: IpcResponse)
        requires
            !old(self).finished,
            old(self).wf(),
            old(self).agrees_with(*old(gate)),
            old(pool).wf(),
        ensures
            final(self).finished,
            !final(self).holds_permit,
            final(self).wf(),
            final(self).attempt == old(self).attempt,
            final(self).request_id == old(self).request_id,
            final(self).method == old(self).method,
            final(self).requester == old(self).requester,
            *final(gate) == permit_after_finish(old(self).holds_permit, *old(gate)),
            final(pool).wf(),
            old(pool)@.len() < crate::pool::MAX_POOL_SIZE ==> final(pool)@ == old(pool)@.push(
                PooledConnection { conn, last_used: now },
            ),
            old(pool)@.len() >= crate::pool::MAX_POOL_SIZE ==> final(pool)@ == old(pool)@,
            is_success_response(r, old(self).request_id, status_code, body@),
    {
        pool.release(conn, now);
        self.finish(gate);
        IpcResponse::reply(self.request_id, status_code, body)
    }

    /// Sending or receiving failed; the connection is presumed broken and
    /// is not returned. A transient error with attempts left flushes the
    /// whole pool and asks for another attempt, still holding the permit;
    /// anything else ends the request with a failure and gives the permit
    /// back if held.
    pub fn on_send_failed<C>(
        &mut self,
        error: &str,
        pool: &mut ConnectionPool<C>,
        gate: &mut MutationGate,
    ) -> (r: SendFailure)
        requires
            !old(self).finished,
            old(self).wf(),
            old(self).agrees_with(*old(gate)),
            old(pool).wf(),
        ensures
            final(self).wf(),
            final(self).agrees_with(*final(gate)),
            final(pool).wf(),
            final(self).request_id == old(self).request_id,
            final(self).method == old(self).method,
            final(self).requester == old(self).requester,
            retry_decision(error@, old(self).attempt as int, MAX_RETRIES as int) ==> {
                &&& r is Retry
                &&& final(self).attempt == old(self).attempt + 1
                &&& !final(self).finished
                &&& final(self).holds_permit == old(self).holds_permit
                &&& *final(gate) == *old(gate)
                &&& final(pool)@.len() == 0
            },
            !retry_decision(error@, old(self).attempt as int, MAX_RETRIES as int) ==> {
                &&& r is Done
                &&& is_failure_response(r->Done_0, old(self).request_id, request_failure_text(error@))
                &&& final(self).attempt == old(self).attempt
                &&& final(self).finished
                &&& !final(self).holds_permit
                &&& *final(gate) == permit_after_finish(old(self).holds_permit, *old(gate))
                &&& final(pool)@ == old(pool)@
            },
    {
        if should_retry_on_error(error, self.attempt, MAX_RETRIES) {
            pool.clear();
            self.attempt = self.attempt + 1;
            SendFailure::Retry
        } else {
            self.finish(gate);
            let msg = String::from_str("IPC 请求失败：").concat(error);
            proof {
                reveal_strlit("IPC 请求失败：");
            }
            SendFailure::Done(IpcResponse::failure(self.request_id, msg))
        }
    }
}

/// Two sessions that agree with the same permit slot and have different
/// requesters never both hold the permit: the send and await phases of two
/// mutating requests cannot overlap.
pub proof fn lemma_sessions_exclusive(a: RequestSession, b: RequestSession, gate: MutationGate)
    requires
        a.agrees_with(gate),
        b.agrees_with(gate),
        a.requester != b.requester,
    ensures
        !(a.holds_permit && b.holds_permit),
{
}

/// Number of attempts a request makes when its attempt number `k` and the
/// following ones fail to send with the messages in `errors` (one message
/// per attempt, from attempt `k` on).
pub open spec fn attempts_from(errors: Seq<Seq<char>>, k: nat) -> nat
    decreases errors.len() - k,
{
    if k >= errors.len() {
        k
    } else if retry_decision(errors[k as int], k as int, MAX_RETRIES as int) {
        attempts_from(errors, k + 1)
    } else {
        k + 1
    }
}

/// Number of pool flushes made while the same failures happen: one before
/// each retry.
pub open spec fn flushes_from(errors: Seq<Seq<char>>, k: nat) -> nat
    decreases errors.len() - k,
{
    if k >= errors.len() {
        0
    } else if retry_decision(errors[k as int], k as int, MAX_RETRIES as int) {
        1 + flushes_from(errors, k + 1)
    } else {
        0
    }
}

/// The message is classified transient: it carries a retry signature and
/// no "not ready" signature.
pub open spec fn transient_message(m: Seq<char>) -> bool {
    !crate::classify::not_ready_message(m) && crate::classify::transient_signature(m)
}

/// A request whose first failure is classified "not ready" makes exactly
/// one attempt and flushes nothing, whatever the retry budget.
pub proof fn lemma_not_ready_single_attempt(errors: Seq<Seq<char>>)
    requires
        errors.len() >= 1,
        crate::classify::not_ready_message(errors[0]),
    ensures
        attempts_from(errors, 0) == 1,
        flushes_from(errors, 0) == 0,
        forall|k: int, budget: int| !retry_decision(errors[0], k, budget),
{
}

/// A request whose every attempt fails with a transient error makes
/// `MAX_RETRIES + 1` attempts, flushing the pool before each of the
/// `MAX_RETRIES` retries.
pub proof fn lemma_transient_exhausts_retries(errors: Seq<Seq<char>>)
    requires
        errors.len() >= MAX_RETRIES + 1,
        forall|i: int| 0 <= i < errors.len() ==> transient_message(#[trigger] errors[i]),
    ensures
        attempts_from(errors, 0) == MAX_RETRIES + 1,
        flushes_from(errors, 0) == MAX_RETRIES,
{
    assert(transient_message(errors[0]));
    assert(transient_message(errors[1]));
    assert(transient_message(errors[2]));
    assert(attempts_from(errors, 2) == 3);
    assert(attempts_from(errors, 1) == attempts_from(errors, 2));
    assert(attempts_from(errors, 0) == attempts_from(errors, 1));
    assert(flushes_from(errors, 2) == 0);
    assert(flushes_from(errors, 1) == 1 + flushes_from(errors, 2));
    assert(flushes_from(errors, 0) == 1 + flushes_from(errors, 1));
}

/// `r` is the outcome of an internal GET answered with `status` and `body`:
/// the body for a 2xx status, otherwise `HTTP <status>`.
pub open spec fn internal_get_spec(status: u16, body: Seq<char>, r: Result<String, String>) -> bool {
    if 200 <= status < 300 {
        r is Ok && r->Ok_0@ == body
    } else {
        r is Err && r->Err_0@ == "HTTP "@ + decimal(status as nat)
    }
}

/// Outcome of an internal GET whose reply has arrived.
pub fn internal_get_outcome(status: u16, body: String) -> (r: Result<String, String>)
    ensures
        internal_get_spec(status, body@, r),
{
    if status >= 200 && status < 300 {
        Ok(body)
    } else {
        proof {
            reveal_strlit("HTTP ");
        }
        Err(String::from_str("HTTP ").concat(decimal_text(status as u64).as_str()))
    }
}

} // verus!
