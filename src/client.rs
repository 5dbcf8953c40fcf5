//! The client value and the preparation of requests: the URL with its
//! credentials, the headers and the body.
use vstd::prelude::*;

use crate::error::{builder, Error};
use crate::urls::{append_query_pair, form_urlencoded_mime, pairs_view, parse_url, parsed_url, url_with_pair};

verus! {

/// The production API root.
pub const DEFAULT_HOST: &'static str = "https://api.mod.io/v1";

/// The content type of form-encoded data.
pub const FORM_URLENCODED: &'static str = "application/x-www-form-urlencoded";

/// How requests are authenticated.
#[derive(Debug)]
pub enum Credentials {
    /// A key sent as the `api_key` query parameter of every request.
    ApiKey(String),
    /// An access token sent as an `Authorization: Bearer` header.
    Token(String),
    /// No credentials.
    Anonymous,
}

/// The HTTP methods the client uses.
#[derive(PartialEq, Eq, Structural, Clone, Copy, Debug)]
pub enum Method {
    Get,
    Post,
    Put,
    Delete,
}

/// The body of a request; `F` is the transport's multipart form.
#[derive(Debug)]
pub enum RequestBody<F> {
    Empty,
    /// Encoded data, with its content type where one is known.
    Body(String, Option<String>),
    Form(F),
}

impl<F> RequestBody<F> {
    /// Gives encoded data the content type `mime`; other bodies stay as they are.
    pub fn with_content_type(self, mime: String) -> (r: Self)
        ensures
            r == (match self {
                RequestBody::Body(data, _) => RequestBody::Body(data, Some(mime)),
                other => other,
            }),
    {
        match self {
            RequestBody::Body(data, _) => RequestBody::Body(data, Some(mime)),
            other => other,
        }
    }
}

/// A request ready to be sent.
#[derive(Debug)]
pub struct Request<F> {
    pub method: Method,
    pub url: String,
    pub headers: Vec<(String, String)>,
    pub body: RequestBody<F>,
}

/// Where a request goes: with an API key the key is appended to the query.
pub open spec fn request_url(credentials: Credentials, uri: Seq<char>) -> Option<Seq<char>> {
    match credentials {
        Credentials::ApiKey(key) => url_with_pair(uri, "api_key"@, key@),
        _ => parsed_url(uri),
    }
}

/// The content type a body declares.
pub open spec fn content_type<F>(body: RequestBody<F>) -> Option<Seq<char>> {
    match body {
        RequestBody::Body(_, Some(mime)) => Some(mime@),
        _ => None,
    }
}

/// The headers of a request: the user agent always, the bearer token where
/// the credentials are one, and the body's content type where it has one.
pub open spec fn request_headers(
    agent: Seq<char>,
    credentials: Credentials,
    content_type: Option<Seq<char>>,
) -> Seq<(Seq<char>, Seq<char>)> {
    let base = seq![("user-agent"@, agent)];
    let with_auth = match credentials {
        Credentials::Token(token) => base.push(("authorization"@, "Bearer "@ + token@)),
        _ => base,
    };
    match content_type {
        Some(mime) => with_auth.push(("content-type"@, mime)),
        None => with_auth,
    }
}

/// Endpoint interface to the mod.io API.
#[derive(Debug)]
pub struct Modio {
    pub host: String,
    pub agent: String,
    pub credentials: Credentials,
}

impl Modio {
    /// `r` is `method` on `uri` prepared with this client's agent and
    /// credentials, or the builder error for a URL that does not parse.
    pub open spec fn prepared<F>(
        &self,
        r: Result<Request<F>, Error>,
        method: Method,
        uri: Seq<char>,
        body: RequestBody<F>,
    ) -> bool {
        match request_url(self.credentials, uri) {
            Some(url) => r is Ok && r->Ok_0.url@ == url && r->Ok_0.method == method
                && r->Ok_0.body == body && pairs_view(r->Ok_0.headers@) == request_headers(
                self.agent@,
                self.credentials,
                content_type(body),
            ),
            None => r is Err && r->Err_0.kind is Builder && r->Err_0.error_ref is None,
        }
    }

    /// `r` is `method` on `uri` with `data` as its form-encoded body,
    /// prepared as `prepared` says.
    pub open spec fn prepared_data<F>(
        &self,
        r: Result<Request<F>, Error>,
        method: Method,
        uri: Seq<char>,
        data: String,
    ) -> bool {
        match request_url(self.credentials, uri) {
            Some(url) => r is Ok && r->Ok_0.url@ == url && r->Ok_0.method == method && (match r->Ok_0.body {
                RequestBody::Body(d, Some(mime)) => d == data && mime@ == FORM_URLENCODED@,
                _ => false,
            }) && pairs_view(r->Ok_0.headers@) == request_headers(
                self.agent@,
                self.credentials,
                Some(FORM_URLENCODED@),
            ),
            None => r is Err && r->Err_0.kind is Builder && r->Err_0.error_ref is None,
        }
    }

    /// A client of the production API.
    pub fn new(agent: String, credentials: Credentials) -> (r: Self)
        ensures
            r.host@ == DEFAULT_HOST@,
            r.agent == agent,
            r.credentials == credentials,
    {
        Self::host(String::from_str(DEFAULT_HOST), agent, credentials)
    }

    /// A client of another host, such as the test environment.
    pub fn host(host: String, agent: String, credentials: Credentials) -> (r: Self)
        ensures
            r.host == host,
            r.agent == agent,
            r.credentials == credentials,
    {
        Modio { host, agent, credentials }
    }

    /// The same client with other credentials.
    pub fn with_credentials(self, credentials: Credentials) -> (r: Self)
        ensures
            r.host == self.host,
            r.agent == self.agent,
            r.credentials == credentials,
    {
        Modio { host: self.host, agent: self.agent, credentials }
    }

    /// The full URL of a path under the host.
    pub fn endpoint_url(&self, path: &str) -> (r: String)
        ensures
            r@ == self.host@ + path@,
    {
        self.host.clone().concat(path)
    }

    /// Prepares one exchange: the credentials go into the URL or a header,
    /// the user agent is always set.
    pub fn prepare<F>(&self, method: Method, uri: &str, body: RequestBody<F>) -> (r: Result<
        Request<F>,
        Error,
    >)
        ensures
            self.prepared(r, method, uri@, body),
    {
        let url = match &self.credentials {
            Credentials::ApiKey(key) => append_query_pair(uri, "api_key", key.as_str()),
            _ => parse_url(uri),
        };
        let url = match url {
            Some(u) => u,
            None => {
                return Err(builder(String::from_str("invalid request URL")));
            },
        };
        let mut headers: Vec<(String, String)> = Vec::new();
        headers.push((String::from_str("user-agent"), self.agent.clone()));
        let ghost h1 = headers@;
        assert(pairs_view(h1) =~= seq![("user-agent"@, self.agent@)]);
        match &self.credentials {
            Credentials::Token(token) => {
                headers.push(
                    (String::from_str("authorization"), String::from_str("Bearer ").concat(token.as_str())),
                );
                assert(pairs_view(headers@) =~= pairs_view(h1).push(
                    ("authorization"@, "Bearer "@ + token@),
                ));
            },
            _ => {},
        }
        let ghost h2 = headers@;
        match &body {
            RequestBody::Body(_, Some(mime)) => {
                headers.push((String::from_str("content-type"), mime.clone()));
                assert(pairs_view(headers@) =~= pairs_view(h2).push(("content-type"@, mime@)));
            },
            _ => {},
        }
        Ok(Request { method, url, headers, body })
    }

    /// A GET of a path under the host.
    pub fn get<F>(&self, path: &str) -> (r: Result<Request<F>, Error>)
        ensures
            self.prepared(r, Method::Get, self.host@ + path@, RequestBody::Empty),
    {
        let url = self.endpoint_url(path);
        self.prepare(Method::Get, url.as_str(), RequestBody::Empty)
    }

    /// A POST of form-encoded data to a path under the host.
    pub fn post<F>(&self, path: &str, data: String) -> (r: Result<Request<F>, Error>)
        ensures
            self.prepared_data(r, Method::Post, self.host@ + path@, data),
    {
        self.encoded(Method::Post, path, data)
    }

    /// A POST of a multipart form to a path under the host.
    pub fn post_form<F>(&self, path: &str, form: F) -> (r: Result<Request<F>, Error>)
        ensures
            self.prepared(r, Method::Post, self.host@ + path@, RequestBody::Form(form)),
    {
        let url = self.endpoint_url(path);
        self.prepare(Method::Post, url.as_str(), RequestBody::Form(form))
    }

    /// A PUT of form-encoded data to a path under the host.
    pub fn put<F>(&self, path: &str, data: String) -> (r: Result<Request<F>, Error>)
        ensures
            self.prepared_data(r, Method::Put, self.host@ + path@, data),
    {
        self.encoded(Method::Put, path, data)
    }

    /// A DELETE with form-encoded data of a path under the host.
    pub fn delete<F>(&self, path: &str, data: String) -> (r: Result<Request<F>, Error>)
        ensures
            self.prepared_data(r, Method::Delete, self.host@ + path@, data),
    {
        self.encoded(Method::Delete, path, data)
    }

    fn encoded<F>(&self, method: Method, path: &str, data: String) -> (r: Result<Request<F>, Error>)
        ensures
            self.prepared_data(r, method, self.host@ + path@, data),
    {
        let url = self.endpoint_url(path);
        let body = RequestBody::Body(data, None).with_content_type(form_urlencoded_mime());
        self.prepare(method, url.as_str(), body)
    }
}

} // verus!
