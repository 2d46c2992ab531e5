use crate::client::{request_is, HttpMethod, HttpRequest, HttpResponse, ZebedeeClient};
use vstd::prelude::*;

verus! {

/// The provider's uniform response shape: its own verdict, an optional
/// payload and an optional message.
#[derive(Clone, Debug)]
pub struct StdResp<T> {
    pub success: bool,
    pub data: T,
    pub message: Option<String>,
}

/// Which HTTP status codes an endpoint treats as success.
#[derive(Clone, Copy, Debug, PartialEq, Eq, Structural)]
pub enum StatusPolicy {
    /// Only `200 OK`.
    ExactOk,
    /// Any status in `200..=299`.
    AnySuccess,
}

/// What an error carries of the call that failed.
#[derive(Debug)]
pub struct RequestContext {
    pub url: String,
    /// The identifier embedded in the path, where the endpoint has one.
    pub id: Option<String>,
}

/// A failed call, classified by where it failed.
#[derive(Debug)]
pub enum ZebedeeError {
    /// The executor obtained no response.
    Transport { url: String, message: String },
    /// The provider answered with a status the endpoint does not accept.
    ProviderRejected { status: u16, body: String, url: String, id: Option<String> },
    /// The status was accepted but the body is not the expected envelope.
    DecodeFailure {
        status: u16,
        body: String,
        url: String,
        id: Option<String>,
        parse_error: String,
    },
}

pub open spec fn is_success_status(policy: StatusPolicy, status: u16) -> bool {
    match policy {
        StatusPolicy::ExactOk => status == 200,
        StatusPolicy::AnySuccess => 200 <= status <= 299,
    }
}

/// The error for a status that the endpoint does not accept.
pub open spec fn rejected(status: u16, body: String, ctx: RequestContext) -> ZebedeeError {
    ZebedeeError::ProviderRejected { status, body, url: ctx.url, id: ctx.id }
}

/// The outcome for an accepted status, given what the parser made of the body.
pub open spec fn accepted_outcome<T>(
    status: u16,
    body: String,
    ctx: RequestContext,
    parsed: Result<T, String>,
) -> Result<T, ZebedeeError> {
    match parsed {
        Ok(v) => Ok(v),
        Err(e) => Err(
            ZebedeeError::DecodeFailure { status, body, url: ctx.url, id: ctx.id, parse_error: e },
        ),
    }
}

/// What `decode` returns: a rejection for a status outside the policy, and
/// otherwise the outcome of one run of the parser on the body.
pub open spec fn decode_post<T, P: FnOnce(&String) -> Result<T, String>>(
    policy: StatusPolicy,
    status: u16,
    body: String,
    ctx: RequestContext,
    parse: P,
    r: Result<T, ZebedeeError>,
) -> bool {
    if is_success_status(policy, status) {
        exists|p: Result<T, String>|
            #[trigger] parse.ensures((&body,), p) && r == accepted_outcome(status, body, ctx, p)
    } else {
        r == Err::<T, ZebedeeError>(rejected(status, body, ctx))
    }
}

/// What `interpret` returns for an executor's outcome.
pub open spec fn interpret_post<T, P: FnOnce(&String) -> Result<T, String>>(
    policy: StatusPolicy,
    ctx: RequestContext,
    outcome: Result<HttpResponse, String>,
    parse: P,
    r: Result<T, ZebedeeError>,
) -> bool {
    match outcome {
        Err(m) => r == Err::<T, ZebedeeError>(
            ZebedeeError::Transport { url: ctx.url, message: m },
        ),
        Ok(resp) => decode_post(policy, resp.status, resp.body, ctx, parse, r),
    }
}

/// The parser can run on every body.
pub open spec fn parses_any<T, P: FnOnce(&String) -> Result<T, String>>(parse: P) -> bool {
    forall|b: &String| #[trigger] parse.requires((b,))
}

/// Tells whether `status` counts as success under `policy`.
pub fn status_accepted(policy: StatusPolicy, status: u16) -> (r: bool)
    ensures
        r == is_success_status(policy, status),
{
    match policy {
        StatusPolicy::ExactOk => status == 200,
        StatusPolicy::AnySuccess => 200 <= status && status <= 299,
    }
}

/// Turns the parser's result for a body under an accepted status into the
/// call's result: the parsed value, or a decode failure carrying the parser's
/// message, the body and the status.
pub fn decode_parsed<T>(
    status: u16,
    body: String,
    ctx: RequestContext,
    parsed: Result<T, String>,
) -> (r: Result<T, ZebedeeError>)
    ensures
        r == accepted_outcome(status, body, ctx, parsed),
{
    match parsed {
        Ok(v) => Ok(v),
        Err(e) => Err(
            ZebedeeError::DecodeFailure {
                status,
                body,
                url: ctx.url,
                id: ctx.id,
                parse_error: e,
            },
        ),
    }
}

/// Classifies a received response. A status outside `policy` is rejected
/// without running the parser; otherwise the parser's result decides.
pub fn decode<T, P: FnOnce(&String) -> Result<T, String>>(
    policy: StatusPolicy,
    status: u16,
    body: String,
    ctx: RequestContext,
    parse: P,
) -> (r: Result<T, ZebedeeError>)
    requires
        parses_any(parse),
    ensures
        decode_post(policy, status, body, ctx, parse, r),
{
    if !status_accepted(policy, status) {
        return Err(ZebedeeError::ProviderRejected { status, body, url: ctx.url, id: ctx.id });
    }
    let parsed = parse(&body);
    proof {
        assert(parse.ensures((&body,), parsed));
    }
    decode_parsed(status, body, ctx, parsed)
}

/// Classifies an executor's outcome: a transport failure is passed on with
/// the request's URL, a response goes through `decode`.
pub fn interpret<T, P: FnOnce(&String) -> Result<T, String>>(
    policy: StatusPolicy,
    ctx: RequestContext,
    outcome: Result<HttpResponse, String>,
    parse: P,
) -> (r: Result<T, ZebedeeError>)
    requires
        parses_any(parse),
    ensures
        interpret_post(policy, ctx, outcome, parse, r),
{
    match outcome {
        Err(m) => Err(ZebedeeError::Transport { url: ctx.url, message: m }),
        Ok(resp) => decode(policy, resp.status, resp.body, ctx, parse),
    }
}


/// What `exchange` returns: the executor was handed one request with the
/// given method, path, headers and body, and its outcome was classified.
pub open spec fn exchange_post<B, T, S, P>(
    client: ZebedeeClient,
    method: HttpMethod,
    path: Seq<char>,
    body: Option<B>,
    id: Option<String>,
    policy: StatusPolicy,
    send: S,
    parse: P,
    r: Result<T, ZebedeeError>,
) -> bool where
    S: FnOnce(HttpRequest<B>) -> Result<HttpResponse, String>,
    P: FnOnce(&String) -> Result<T, String>,
 {
    exists|req: HttpRequest<B>, out: Result<HttpResponse, String>|
        #[trigger] send.ensures((req,), out) && request_is(req, client, method, path, body)
            && interpret_post(policy, RequestContext { url: req.url, id }, out, parse, r)
}

/// The executor accepts every request with the given method, path and body.
pub open spec fn sends_any<B, S: FnOnce(HttpRequest<B>) -> Result<HttpResponse, String>>(
    client: ZebedeeClient,
    method: HttpMethod,
    path: Seq<char>,
    body: Option<B>,
    send: S,
) -> bool {
    forall|req: HttpRequest<B>|
        request_is(req, client, method, path, body) ==> #[trigger] send.requires((req,))
}

/// One call of an endpoint: builds the request, hands it to the executor
/// `send` once, and classifies the outcome under `policy`, with `id` as the
/// identifier that errors carry.
pub fn exchange<B, T, S, P>(
    client: &ZebedeeClient,
    method: HttpMethod,
    path: &str,
    body: Option<B>,
    id: Option<String>,
    policy: StatusPolicy,
    send: S,
    parse: P,
) -> (r: Result<T, ZebedeeError>) where
    S: FnOnce(HttpRequest<B>) -> Result<HttpResponse, String>,
    P: FnOnce(&String) -> Result<T, String>,

    requires
        sends_any(*client, method, path@, body, send),
        parses_any(parse),
    ensures
        exchange_post(*client, method, path@, body, id, policy, send, parse, r),
{
    let req = client.request(method, path, body);
    let url = req.url.clone();
    let ghost sent = req;
    let out = send(req);
    let r = interpret(policy, RequestContext { url, id }, out, parse);
    proof {
        assert(send.ensures((sent,), out));
    }
    r
}


/// Decoding is a function of the response: two runs of `decode` on the same
/// status and body, with a parser that gives one result per body, return
/// equal results.
pub proof fn lemma_decode_idempotent<T, P: FnOnce(&String) -> Result<T, String>>(
    policy: StatusPolicy,
    status: u16,
    body: String,
    ctx: RequestContext,
    parse: P,
    r1: Result<T, ZebedeeError>,
    r2: Result<T, ZebedeeError>,
)
    requires
        decode_post(policy, status, body, ctx, parse, r1),
        decode_post(policy, status, body, ctx, parse, r2),
        forall|p1: Result<T, String>, p2: Result<T, String>|
            #[trigger] parse.ensures((&body,), p1) && #[trigger] parse.ensures((&body,), p2)
                ==> p1 == p2,
    ensures
        r1 == r2,
{
}

/// When the executor answers `200 OK` and the parser decodes the body into
/// `v`, an endpoint call returns exactly `v`, whatever the endpoint's policy.
pub proof fn lemma_ok_response_returns_parsed<B, T, S, P>(
    client: ZebedeeClient,
    method: HttpMethod,
    path: Seq<char>,
    body: Option<B>,
    id: Option<String>,
    policy: StatusPolicy,
    send: S,
    parse: P,
    r: Result<T, ZebedeeError>,
    resp_body: String,
    v: T,
) where
    S: FnOnce(HttpRequest<B>) -> Result<HttpResponse, String>,
    P: FnOnce(&String) -> Result<T, String>,

    requires
        exchange_post(client, method, path, body, id, policy, send, parse, r),
        forall|req: HttpRequest<B>, out: Result<HttpResponse, String>|
            #[trigger] send.ensures((req,), out) ==> out == Ok::<HttpResponse, String>(
                HttpResponse { status: 200, body: resp_body },
            ),
        forall|p: Result<T, String>| #[trigger] parse.ensures((&resp_body,), p) ==> p == Ok::<T, String>(v),
    ensures
        r == Ok::<T, ZebedeeError>(v),
{
}

/// When the executor answers a status outside the endpoint's policy, the call
/// fails with a rejection that holds that exact status, that exact body and
/// the request's identifier.
pub proof fn lemma_rejected_status_is_reported<B, T, S, P>(
    client: ZebedeeClient,
    method: HttpMethod,
    path: Seq<char>,
    body: Option<B>,
    id: Option<String>,
    policy: StatusPolicy,
    send: S,
    parse: P,
    r: Result<T, ZebedeeError>,
    status: u16,
    resp_body: String,
) where
    S: FnOnce(HttpRequest<B>) -> Result<HttpResponse, String>,
    P: FnOnce(&String) -> Result<T, String>,

    requires
        exchange_post(client, method, path, body, id, policy, send, parse, r),
        forall|req: HttpRequest<B>, out: Result<HttpResponse, String>|
            #[trigger] send.ensures((req,), out) ==> out == Ok::<HttpResponse, String>(
                HttpResponse { status, body: resp_body },
            ),
        !is_success_status(policy, status),
    ensures
        match r {
            Err(ZebedeeError::ProviderRejected { status: s, body: b, url: u, id: i }) => {
                &&& s == status
                &&& b == resp_body
                &&& u@ == client.domain@ + path
                &&& i == id
            },
            _ => false,
        },
{
}

/// When the status is accepted but the parser rejects the body (it is not
/// JSON, or not the envelope), the call fails with a decode failure that
/// holds the status and the body: no payload is made up.
pub proof fn lemma_unparsable_body_is_decode_failure<B, T, S, P>(
    client: ZebedeeClient,
    method: HttpMethod,
    path: Seq<char>,
    body: Option<B>,
    id: Option<String>,
    policy: StatusPolicy,
    send: S,
    parse: P,
    r: Result<T, ZebedeeError>,
    status: u16,
    resp_body: String,
) where
    S: FnOnce(HttpRequest<B>) -> Result<HttpResponse, String>,
    P: FnOnce(&String) -> Result<T, String>,

    requires
        exchange_post(client, method, path, body, id, policy, send, parse, r),
        forall|req: HttpRequest<B>, out: Result<HttpResponse, String>|
            #[trigger] send.ensures((req,), out) ==> out == Ok::<HttpResponse, String>(
                HttpResponse { status, body: resp_body },
            ),
        is_success_status(policy, status),
        forall|p: Result<T, String>| #[trigger] parse.ensures((&resp_body,), p) ==> p is Err,
    ensures
        match r {
            Err(ZebedeeError::DecodeFailure { status: s, body: b, id: i, .. }) => {
                &&& s == status
                &&& b == resp_body
                &&& i == id
            },
            _ => false,
        },
{
}

} // verus!
