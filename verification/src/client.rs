//! The session client, as plans and decisions.
//!
//! The client decides what to send and what a response means; the transport
//! that carries a request is the caller's. A session holds the credential
//! that login returned and nothing else, so any number of requests may be
//! planned and received side by side.

use vstd::prelude::*;
use crate::decode::{field, field_decoded, field_failure, Decode};
use crate::envelope::{receive, settles};
use crate::error::{DecodeError, Error};
use crate::json::{document, Json};

verus! {

/// The broker's endpoint; every path is appended to it.
pub const BASE_URL: &'static str = "https://api.cert.tastyworks.com";

/// The HTTP method of a request.
#[derive(Debug, Clone, Copy, PartialEq, Eq, Structural)]
pub enum Method {
    Get,
    Post,
}

/// One outbound request: what the transport is to send.
#[derive(Debug, PartialEq, Eq)]
pub struct Request {
    pub method: Method,
    pub url: String,
    pub headers: Vec<(String, String)>,
    pub body: Option<Json>,
}

/// The payload of a successful login.
#[derive(Debug, Clone, PartialEq, Eq)]
pub struct LoginResponse {
    pub session_token: String,
}

impl Decode for LoginResponse {
    open spec fn failure(j: Json) -> Option<Error> {
        field_failure::<String>(j, "session-token")
    }

    open spec fn decoded_from(&self, j: Json) -> bool {
        field_decoded::<String>(&self.session_token, j, "session-token")
    }

    fn decode(j: &Json) -> (r: Result<Self, Error>) {
        match field::<String>(j, "session-token") {
            Ok(session_token) => Ok(LoginResponse { session_token }),
            Err(e) => Err(e),
        }
    }
}

/// An authenticated session.
#[derive(Debug, Clone, PartialEq, Eq)]
pub struct TastyTrade {
    pub session_token: String,
}

/// Whether `entry` is the pair of the texts `name` and `value`.
pub open spec fn pair_is(entry: (String, String), name: Seq<char>, value: Seq<char>) -> bool {
    entry.0@ == name && entry.1@ == value
}

/// Whether `j` is the login payload of the three credentials.
pub open spec fn credentials_encoded(j: Json, login: Seq<char>, password: Seq<char>, remember_me: bool) -> bool {
    j matches Json::Object(m) && m@.len() == 3
        && m@[0].0@ == "login"@ && (m@[0].1 matches Json::Text(s) && s@ == login)
        && m@[1].0@ == "password"@ && (m@[1].1 matches Json::Text(s) && s@ == password)
        && m@[2].0@ == "remember-me"@ && m@[2].1 == Json::Bool(remember_me)
}

/// The URL of a path under the broker's endpoint.
pub fn endpoint(path: &str) -> (url: String)
    ensures
        url@ == BASE_URL@ + path@,
{
    BASE_URL.to_owned().concat(path)
}

impl TastyTrade {
    /// The headers that every request of this session carries: the session
    /// credential as authorization, the JSON content type and the user agent.
    pub open spec fn session_headers(&self, headers: Seq<(String, String)>) -> bool {
        &&& headers.len() == 3
        &&& pair_is(headers[0], "authorization"@, self.session_token@)
        &&& pair_is(headers[1], "content-type"@, "application/json"@)
        &&& pair_is(headers[2], "user-agent"@, "tastytrade-rs"@)
    }

    /// The request that logs in: the credentials posted to `/sessions`,
    /// with no session header yet.
    pub fn login(login: &str, password: &str, remember_me: bool) -> (q: Request)
        ensures
            q.method == Method::Post,
            q.url@ == BASE_URL@ + "/sessions"@,
            q.headers@.len() == 0,
            q.body matches Some(j) && credentials_encoded(j, login@, password@, remember_me),
    {
        let mut m: Vec<(String, Json)> = Vec::new();
        m.push(("login".to_owned(), Json::Text(login.to_owned())));
        m.push(("password".to_owned(), Json::Text(password.to_owned())));
        m.push(("remember-me".to_owned(), Json::Bool(remember_me)));
        Request { method: Method::Post, url: endpoint("/sessions"), headers: Vec::new(), body: Some(Json::Object(m)) }
    }

    /// The session that a login response opens: the body goes through the
    /// envelope, and the session holds the credential of its payload.
    pub fn from_login(body: &str) -> (r: Result<TastyTrade, Error>)
        ensures
            match document(body@) {
                None => r == Err::<TastyTrade, Error>(Error::Decode(DecodeError::Malformed)),
                Some(j) => match r {
                    Ok(session) => settles::<LoginResponse>(
                        j,
                        Ok((LoginResponse { session_token: session.session_token })),
                    ),
                    Err(e) => settles::<LoginResponse>(j, Err(e)),
                },
            },
    {
        match receive::<LoginResponse>(body) {
            Ok(response) => Ok(TastyTrade { session_token: response.session_token }),
            Err(e) => Err(e),
        }
    }

    /// The headers of this session.
    pub fn headers(&self) -> (h: Vec<(String, String)>)
        ensures
            self.session_headers(h@),
    {
        let mut h: Vec<(String, String)> = Vec::new();
        h.push(("authorization".to_owned(), self.session_token.clone()));
        h.push(("content-type".to_owned(), "application/json".to_owned()));
        h.push(("user-agent".to_owned(), "tastytrade-rs".to_owned()));
        h
    }

    /// The authenticated GET of a path.
    pub fn get(&self, path: &str) -> (q: Request)
        ensures
            q.method == Method::Get,
            q.url@ == BASE_URL@ + path@,
            self.session_headers(q.headers@),
            q.body is None,
    {
        Request { method: Method::Get, url: endpoint(path), headers: self.headers(), body: None }
    }

    /// The authenticated POST of a payload to a path.
    pub fn post(&self, path: &str, payload: Json) -> (q: Request)
        ensures
            q.method == Method::Post,
            q.url@ == BASE_URL@ + path@,
            self.session_headers(q.headers@),
            q.body == Some(payload),
    {
        Request { method: Method::Post, url: endpoint(path), headers: self.headers(), body: Some(payload) }
    }
}

} // verus!
