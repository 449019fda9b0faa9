//! Wire requests: the resolved address, the method and the form fields of one
//! call, which a transport sends as they are.

use vstd::prelude::*;

use crate::error::ZulipError;
use crate::wire::{join_url, url_join};

verus! {

/// The fixed path of the API under a server's address.
pub open spec fn api_suffix() -> Seq<char> {
    "/api/v1/"@
}

/// The root of the API: a server address with `/api/v1/` joined to it once,
/// at construction. Every endpoint is resolved against it.
#[derive(Clone, Debug)]
pub struct ApiBase {
    url: String,
}

impl View for ApiBase {
    type V = Seq<char>;

    closed spec fn view(&self) -> Seq<char> {
        self.url@
    }
}

/// The HTTP method of a call.
#[derive(Clone, Copy, Debug, PartialEq, Eq, Structural)]
pub enum Method {
    Get,
    Post,
    Patch,
    Delete,
}

/// A described request: where to send it, how, and with which form fields.
#[derive(Clone, Debug)]
pub struct Request {
    pub method: Method,
    pub url: String,
    /// Form-encoded fields, in the order they are sent.
    pub form: Vec<(String, String)>,
    /// Whether the call carries the account's credentials.
    pub authenticated: bool,
}

/// The form fields of a request, as text.
pub open spec fn fields_view(form: Vec<(String, String)>) -> Seq<(Seq<char>, Seq<char>)> {
    form.deep_view()
}

/// The request whose parts are these.
pub open spec fn request_is(
    r: Request,
    method: Method,
    url: Seq<char>,
    form: Seq<(Seq<char>, Seq<char>)>,
    authenticated: bool,
) -> bool {
    &&& r.method == method
    &&& r.url@ == url
    &&& fields_view(r.form) == form
    &&& r.authenticated == authenticated
}

/// The outcome of resolving `reference` against `base`: the joined address,
/// or an address error.
pub open spec fn resolved(base: Seq<char>, reference: Seq<char>, r: Result<String, ZulipError>) -> bool {
    match url_join(base, reference) {
        Some(u) => r matches Ok(s) && s@ == u,
        None => r matches Err(ZulipError::UrlParseError(_)),
    }
}

/// `r` is the request with these parts at the address that `path` names
/// under `base`, or an address error where that does not resolve.
pub open spec fn builds(
    base: Seq<char>,
    path: Seq<char>,
    method: Method,
    form: Seq<(Seq<char>, Seq<char>)>,
    authenticated: bool,
    r: Result<Request, ZulipError>,
) -> bool {
    match url_join(base, path) {
        Some(u) => r matches Ok(q) && request_is(q, method, u, form, authenticated),
        None => r matches Err(ZulipError::UrlParseError(_)),
    }
}

/// Whether `key` names one of the fields.
pub open spec fn has_field(fields: Seq<(Seq<char>, Seq<char>)>, key: Seq<char>) -> bool {
    exists|i: int| 0 <= i < fields.len() && #[trigger] fields[i].0 == key
}

/// A field that is there only when `value` is.
pub open spec fn optional_field(key: Seq<char>, value: Option<Seq<char>>) -> Seq<(Seq<char>, Seq<char>)> {
    match value {
        Some(v) => seq![(key, v)],
        None => Seq::empty(),
    }
}

impl ApiBase {
    /// Joins `/api/v1/` to `server_address`; fails where the address does
    /// not parse.
    pub fn new(server_address: &str) -> (r: Result<Self, ZulipError>)
        ensures
            url_join(server_address@, api_suffix()) is None <==> r is Err,
            r is Err ==> r matches Err(ZulipError::UrlParseError(_)),
            r matches Ok(b) ==> url_join(server_address@, api_suffix()) == Some(b@),
    {
        match join_url(server_address, "/api/v1/") {
            Ok(url) => Ok(ApiBase { url }),
            Err(e) => Err(ZulipError::UrlParseError(e)),
        }
    }

    /// The root address, such as `https://chat.example.com/api/v1/`.
    pub fn url(&self) -> (r: String)
        ensures
            r@ == self@,
    {
        self.url.clone()
    }

    /// The request with these parts, sent to `path` under the root.
    pub fn request(&self, path: &str, method: Method, form: Vec<(String, String)>, authenticated: bool) -> (r:
        Result<Request, ZulipError>)
        ensures
            builds(self@, path@, method, form.deep_view(), authenticated, r),
    {
        match self.endpoint(path) {
            Ok(url) => Ok(Request { method, url, form, authenticated }),
            Err(e) => Err(e),
        }
    }

    /// Resolves `path` (relative, or absolute) against the root.
    pub fn endpoint(&self, path: &str) -> (r: Result<String, ZulipError>)
        ensures
            resolved(self@, path@, r),
    {
        match join_url(self.url.as_str(), path) {
            Ok(url) => Ok(url),
            Err(e) => Err(ZulipError::UrlParseError(e)),
        }
    }
}

} // verus!
