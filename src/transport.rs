//! Requests, the host failover walk and the status check of responses.
//!
//! The library does not touch the network: it says which host to try next
//! and what to send, and the caller reports what happened.
use vstd::prelude::*;
use vstd::string::*;
use crate::error::{Error, TransportError};

verus! {

/// HTTP verbs of the service; `LIST` is a method token of its own.
#[derive(Debug, Clone, Copy, PartialEq, Eq, Structural)]
pub enum HttpVerb {
    GET,
    POST,
    PUT,
    DELETE,
    LIST,
}

/// The method token sent for a verb.
pub open spec fn verb_token(v: HttpVerb) -> Seq<char> {
    match v {
        HttpVerb::GET => "GET"@,
        HttpVerb::POST => "POST"@,
        HttpVerb::PUT => "PUT"@,
        HttpVerb::DELETE => "DELETE"@,
        HttpVerb::LIST => "LIST"@,
    }
}

impl HttpVerb {
    /// The method token sent on the wire.
    pub fn token(&self) -> (r: &'static str)
        ensures
            r@ == verb_token(*self),
    {
        match self {
            HttpVerb::GET => "GET",
            HttpVerb::POST => "POST",
            HttpVerb::PUT => "PUT",
            HttpVerb::DELETE => "DELETE",
            HttpVerb::LIST => "LIST",
        }
    }

    /// Whether a request with this verb carries a body.
    pub open spec fn has_body(self) -> bool {
        !(self is GET || self is DELETE)
    }
}

/// Name of the header that carries the token.
pub open spec fn token_header() -> Seq<char> {
    "X-Vault-Token"@
}

/// Name of the header whose presence asks for a wrapped response.
pub open spec fn wrap_ttl_header() -> Seq<char> {
    "X-Vault-Wrap-TTL"@
}

/// A request ready to be sent to one host.
#[derive(Debug, Clone, PartialEq)]
pub struct Request {
    pub verb: HttpVerb,
    /// Path of the endpoint, such as `/v1/sys/policy`.
    pub path: String,
    /// Header names and values, in the order they are sent.
    pub headers: Vec<(String, String)>,
    /// The body; `None` for `GET` and `DELETE`.
    pub body: Option<String>,
}

/// The headers of every request: the token and the JSON content type, then
/// the wrap time-to-live where one is asked for.
pub open spec fn headers_ok(h: Seq<(String, String)>, token: Seq<char>, wrap_ttl: Option<Seq<char>>) -> bool {
    &&& h.len() == if wrap_ttl is Some { 3int } else { 2int }
    &&& h[0].0@ == token_header() && h[0].1@ == token
    &&& h[1].0@ == "Content-Type"@ && h[1].1@ == "application/json"@
    &&& wrap_ttl matches Some(t) ==> h[2].0@ == wrap_ttl_header() && h[2].1@ == t
}

/// The request that `build_request` makes of these parts.
pub open spec fn request_is(
    r: Request,
    token: Seq<char>,
    verb: HttpVerb,
    path: Seq<char>,
    body: Option<Seq<char>>,
    wrap_ttl: Option<Seq<char>>,
) -> bool {
    &&& r.verb == verb
    &&& r.path@ == path
    &&& headers_ok(r.headers@, token, wrap_ttl)
    &&& verb.has_body() ==> (r.body matches Some(b) && b@ == match body {
        Some(b) => b,
        None => Seq::<char>::empty(),
    })
    &&& !verb.has_body() ==> r.body is None
}

/// Builds a request. `GET` and `DELETE` carry no body, the other verbs the
/// given one or an empty one; a wrap time-to-live, with any verb, adds the
/// header that asks for a wrapped response.
pub fn build_request(
    token: &str,
    verb: HttpVerb,
    path: &str,
    body: Option<&str>,
    wrap_ttl: Option<&str>,
) -> (r: Request)
    ensures
        request_is(
            r,
            token@,
            verb,
            path@,
            match body {
                Some(b) => Some(b@),
                None => None,
            },
            match wrap_ttl {
                Some(t) => Some(t@),
                None => None,
            },
        ),
{
    let mut headers: Vec<(String, String)> = Vec::new();
    headers.push((String::from_str("X-Vault-Token"), String::from_str(token)));
    headers.push((String::from_str("Content-Type"), String::from_str("application/json")));
    match wrap_ttl {
        Some(t) => {
            headers.push((String::from_str("X-Vault-Wrap-TTL"), String::from_str(t)));
        },
        None => {},
    }
    let body = match verb {
        HttpVerb::GET | HttpVerb::DELETE => None,
        _ => match body {
            Some(b) => Some(String::from_str(b)),
            None => Some(String::new()),
        },
    };
    Request { verb, path: String::from_str(path), headers, body }
}

/// A response as received from a host: its status and its whole body.
#[derive(Debug, Clone, PartialEq)]
pub struct RawResponse {
    pub status: u16,
    pub body: String,
}

/// What came of sending a request to one host.
#[derive(Debug, Clone, PartialEq)]
pub enum Attempt {
    /// The host answered, with any status.
    Responded(RawResponse),
    /// No connection could be made (refused, unreachable, timed out).
    ConnectFailed,
}

/// What to do next in the walk over the host list.
#[derive(Debug, Clone, PartialEq)]
pub enum FailoverStep {
    /// Send the request to the host at this position.
    TryHost(usize),
    /// A host answered: this is the response, and no further host is tried.
    Done(RawResponse),
    /// Every host failed to connect.
    Exhausted,
}

/// The first step of the walk: the first host, if there is one.
pub fn first_step(n_hosts: usize) -> (r: FailoverStep)
    ensures
        n_hosts > 0 ==> r == FailoverStep::TryHost(0),
        n_hosts == 0 ==> r == FailoverStep::Exhausted,
{
    if n_hosts > 0 {
        FailoverStep::TryHost(0)
    } else {
        FailoverStep::Exhausted
    }
}

/// The step after trying the host at `tried`, of `n`: a response of any
/// status ends the walk; a failed connection moves on to the next host, in
/// list order, until none is left.
pub open spec fn step_after(n: nat, tried: nat, outcome: Attempt) -> FailoverStep {
    match outcome {
        Attempt::Responded(resp) => FailoverStep::Done(resp),
        Attempt::ConnectFailed => if tried + 1 < n {
            FailoverStep::TryHost((tried + 1) as usize)
        } else {
            FailoverStep::Exhausted
        },
    }
}

/// Computes the step after trying the host at `tried`.
pub fn next_step(n_hosts: usize, tried: usize, outcome: Attempt) -> (r: FailoverStep)
    requires
        tried < n_hosts,
    ensures
        r == step_after(n_hosts as nat, tried as nat, outcome),
{
    match outcome {
        Attempt::Responded(resp) => FailoverStep::Done(resp),
        Attempt::ConnectFailed => {
            if tried + 1 < n_hosts {
                FailoverStep::TryHost(tried + 1)
            } else {
                FailoverStep::Exhausted
            }
        },
    }
}

/// The walk from host `i` on, where the host at `k` answers as
/// `outcomes[k]`: the step it ends on and how many hosts it has contacted.
pub open spec fn walk_from(n: nat, outcomes: Seq<Attempt>, i: nat) -> (FailoverStep, nat)
    decreases n - i,
{
    if i >= n {
        (FailoverStep::Exhausted, i)
    } else {
        match step_after(n, i, outcomes[i as int]) {
            FailoverStep::TryHost(_) => walk_from(n, outcomes, i + 1),
            s => (s, i + 1),
        }
    }
}

/// The walk ends on the first host that answers, whatever the status, and
/// contacts no host after it.
pub proof fn lemma_walk_stops_at_first_answer(
    n: nat,
    outcomes: Seq<Attempt>,
    k: nat,
    resp: RawResponse,
)
    requires
        outcomes.len() == n,
        k < n,
        outcomes[k as int] == Attempt::Responded(resp),
        forall|j: int| 0 <= j < k ==> outcomes[j] is ConnectFailed,
    ensures
        walk_from(n, outcomes, 0) == (FailoverStep::Done(resp), k + 1),
{
    lemma_walk_from_before_answer(n, outcomes, k, resp, 0);
}

proof fn lemma_walk_from_before_answer(
    n: nat,
    outcomes: Seq<Attempt>,
    k: nat,
    resp: RawResponse,
    i: nat,
)
    requires
        outcomes.len() == n,
        i <= k < n,
        outcomes[k as int] == Attempt::Responded(resp),
        forall|j: int| 0 <= j < k ==> outcomes[j] is ConnectFailed,
    ensures
        walk_from(n, outcomes, i) == (FailoverStep::Done(resp), k + 1),
    decreases k - i,
{
    if i < k {
        lemma_walk_from_before_answer(n, outcomes, k, resp, i + 1);
        assert(outcomes[i as int] is ConnectFailed);
    }
}

/// Where every host refuses the connection, the walk contacts each of them,
/// in order, and ends exhausted.
pub proof fn lemma_walk_exhausted(n: nat, outcomes: Seq<Attempt>)
    requires
        outcomes.len() == n,
        forall|j: int| 0 <= j < n ==> outcomes[j] is ConnectFailed,
    ensures
        walk_from(n, outcomes, 0) == (FailoverStep::Exhausted, n),
{
    lemma_walk_from_all_refused(n, outcomes, 0);
}

proof fn lemma_walk_from_all_refused(n: nat, outcomes: Seq<Attempt>, i: nat)
    requires
        outcomes.len() == n,
        i <= n,
        forall|j: int| 0 <= j < n ==> outcomes[j] is ConnectFailed,
    ensures
        walk_from(n, outcomes, i) == (FailoverStep::Exhausted, n),
    decreases n - i,
{
    if i < n {
        lemma_walk_from_all_refused(n, outcomes, i + 1);
        assert(outcomes[i as int] is ConnectFailed);
    }
}

/// The outcome of a finished walk: the response, or `AllHostsUnreachable`.
pub fn walk_result(step: FailoverStep) -> (r: Result<RawResponse, Error>)
    requires
        !(step is TryHost),
    ensures
        step matches FailoverStep::Done(resp) ==> r == Ok::<RawResponse, Error>(resp),
        step is Exhausted ==> r == Err::<RawResponse, Error>(
            Error::Transport(TransportError::AllHostsUnreachable),
        ),
{
    match step {
        FailoverStep::Done(resp) => Ok(resp),
        _ => Err(Error::Transport(TransportError::AllHostsUnreachable)),
    }
}

/// A status in the 2xx range.
pub open spec fn is_success(status: u16) -> bool {
    200 <= status < 300
}

/// Accepts a 2xx response and hands back its body; any other status is
/// `RemoteRejected`, carrying the status and the body.
pub fn check_status(resp: RawResponse) -> (r: Result<String, Error>)
    ensures
        is_success(resp.status) ==> r == Ok::<String, Error>(resp.body),
        !is_success(resp.status) ==> r == Err::<String, Error>(
            Error::Transport(TransportError::RemoteRejected { status: resp.status, body: resp.body }),
        ),
{
    if 200 <= resp.status && resp.status < 300 {
        Ok(resp.body)
    } else {
        Err(Error::Transport(TransportError::RemoteRejected { status: resp.status, body: resp.body }))
    }
}

/// What `url` makes of a host: the normalized URL, or `None` where the text
/// is no URL.
pub uninterp spec fn url_parsed(s: Seq<char>) -> Option<Seq<char>>;

/// What `url` makes of resolving `path` against the URL `base`.
pub uninterp spec fn url_joined(base: Seq<char>, path: Seq<char>) -> Option<Seq<char>>;

/// Relies on url::Url::parse: the serialized URL, or the parse error's text.
#[verifier::external_body]
fn parse_url(s: &str) -> (r: Result<String, String>)
    ensures
        r is Ok <==> url_parsed(s@) is Some,
        r matches Ok(u) ==> url_parsed(s@) == Some(u@),
{
    url::Url::parse(s).map(|u| u.to_string()).map_err(|e| e.to_string())
}

/// Relies on url::Url::join, on the URL that url::Url::parse reads from
/// `base`: the resolved URL, or the parse error's text.
#[verifier::external_body]
fn join_url(base: &str, path: &str) -> (r: Result<String, String>)
    ensures
        r is Ok <==> url_joined(base@, path@) is Some,
        r matches Ok(u) ==> url_joined(base@, path@) == Some(u@),
{
    url::Url::parse(base).and_then(|u| u.join(path)).map(|u| u.to_string()).map_err(|e| e.to_string())
}

/// Reads a host URL; fails with `Error::Url` where it is no URL.
pub fn parse_host(host: &str) -> (r: Result<String, Error>)
    ensures
        r is Ok <==> url_parsed(host@) is Some,
        r matches Ok(u) ==> url_parsed(host@) == Some(u@),
        r matches Err(e) ==> e is Url,
{
    match parse_url(host) {
        Ok(u) => Ok(u),
        Err(m) => Err(Error::Url(m)),
    }
}

/// The URL of `path` on the host `base`; fails with `Error::Url` where they
/// do not resolve.
pub fn endpoint_url(base: &str, path: &str) -> (r: Result<String, Error>)
    ensures
        r is Ok <==> url_joined(base@, path@) is Some,
        r matches Ok(u) ==> url_joined(base@, path@) == Some(u@),
        r matches Err(e) ==> e is Url,
{
    match join_url(base, path) {
        Ok(u) => Ok(u),
        Err(m) => Err(Error::Url(m)),
    }
}

} // verus!
