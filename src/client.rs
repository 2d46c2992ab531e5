use vstd::prelude::*;
use vstd::string::StringExecFns;

verus! {

/// The provider's production endpoint, used when no domain is set.
pub const DEFAULT_DOMAIN: &'static str = "https://api.zebedee.io";

/// A point in time in UTC: seconds since the Unix epoch and the nanoseconds
/// past that second (at or above one billion only within a leap second).
#[derive(Clone, Copy, Debug, PartialEq, Eq, Structural)]
pub struct UtcTime {
    pub unix_seconds: i64,
    pub nanos: u32,
}

/// The base URL of the provider and the API key sent with every request.
#[derive(Clone, Debug)]
pub struct ZebedeeClient {
    pub domain: String,
    pub apikey: String,
}

#[derive(Clone, Copy, Debug, PartialEq, Eq, Structural)]
pub enum HttpMethod {
    Get,
    Post,
}

#[derive(Clone, Debug)]
pub struct Header {
    pub name: String,
    pub value: String,
}

/// A request for the HTTP executor: the body, where there is one, is sent as
/// JSON.
#[derive(Debug)]
pub struct HttpRequest<B> {
    pub method: HttpMethod,
    pub url: String,
    pub headers: Vec<Header>,
    pub body: Option<B>,
}

/// A response as the HTTP executor received it.
#[derive(Debug)]
pub struct HttpResponse {
    pub status: u16,
    pub body: String,
}

/// The headers of every request: a JSON content type and the API key.
pub open spec fn has_std_headers(headers: Seq<Header>, apikey: Seq<char>) -> bool {
    &&& headers.len() == 2
    &&& headers[0].name@ == "Content-Type"@
    &&& headers[0].value@ == "application/json"@
    &&& headers[1].name@ == "apikey"@
    &&& headers[1].value@ == apikey
}

/// A request with `method` to `domain + path`, carrying the standard headers
/// and `body`.
pub open spec fn request_is<B>(
    req: HttpRequest<B>,
    client: ZebedeeClient,
    method: HttpMethod,
    path: Seq<char>,
    body: Option<B>,
) -> bool {
    &&& req.method == method
    &&& req.url@ == client.domain@ + path
    &&& has_std_headers(req.headers@, client.apikey@)
    &&& req.body == body
}

impl ZebedeeClient {
    /// A client for the production endpoint, with no API key yet.
    pub fn new() -> (r: ZebedeeClient)
        ensures
            r.domain@ == DEFAULT_DOMAIN@,
            r.apikey@ == Seq::<char>::empty(),
    {
        ZebedeeClient { domain: String::from_str(DEFAULT_DOMAIN), apikey: String::new() }
    }

    pub fn set_domain(self, domain: String) -> (r: ZebedeeClient)
        ensures
            r.domain == domain,
            r.apikey == self.apikey,
    {
        ZebedeeClient { domain, apikey: self.apikey }
    }

    pub fn set_apikey(self, apikey: String) -> (r: ZebedeeClient)
        ensures
            r.domain == self.domain,
            r.apikey == apikey,
    {
        ZebedeeClient { domain: self.domain, apikey }
    }

    /// The URL of `path` on this client's domain.
    pub fn url_for(&self, path: &str) -> (r: String)
        ensures
            r@ == self.domain@ + path@,
    {
        let mut url = self.domain.clone();
        url.append(path);
        url
    }

    /// The headers sent with every request.
    pub fn std_headers(&self) -> (r: Vec<Header>)
        ensures
            has_std_headers(r@, self.apikey@),
    {
        let mut headers: Vec<Header> = Vec::new();
        headers.push(
            Header {
                name: String::from_str("Content-Type"),
                value: String::from_str("application/json"),
            },
        );
        headers.push(Header { name: String::from_str("apikey"), value: self.apikey.clone() });
        headers
    }

    /// A request with `method` to `path` on this client's domain.
    pub fn request<B>(&self, method: HttpMethod, path: &str, body: Option<B>) -> (r: HttpRequest<B>)
        ensures
            request_is(r, *self, method, path@, body),
    {
        HttpRequest { method, url: self.url_for(path), headers: self.std_headers(), body }
    }
}

} // verus!
