//! The shapes of the requests the crawler issues, and what it reads of a response.

use vstd::prelude::*;
use vstd::string::*;

verus! {

/// How a request is shaped.
#[derive(Clone, Copy, Debug, PartialEq, Eq, Structural)]
pub struct RequestOptions {
    /// Ask for the tail of the body only.
    pub truncate: bool,
}

impl RequestOptions {
    /// The options of a plain request: the whole body.
    pub fn default() -> (options: Option<RequestOptions>)
        ensures
            options == Some(RequestOptions { truncate: false }),
    {
        Some(RequestOptions { truncate: false })
    }

    /// The options of a truncated request: the tail of the body only.
    pub fn with_partial_get() -> (options: Option<RequestOptions>)
        ensures
            options == Some(RequestOptions { truncate: true }),
    {
        Some(RequestOptions { truncate: true })
    }
}

/// The byte range a truncated request asks for: the last hundred bytes.
pub open spec fn tail_range() -> Seq<char> {
    "-100"@
}

/// The value of the range header for a request with these options: the tail
/// range for a truncated request, no header otherwise.
pub fn range_header(options: Option<RequestOptions>) -> (header: Option<String>)
    ensures
        match header {
            Some(value) => options == Some(RequestOptions { truncate: true }) && value@
                == tail_range(),
            None => options != Some(RequestOptions { truncate: true }),
        },
{
    match options {
        Some(chosen) => {
            if chosen.truncate {
                Some(String::from_str("-100"))
            } else {
                None
            }
        },
        None => None,
    }
}

/// The method of a request.
#[derive(Clone, Copy, Debug, PartialEq, Eq, Structural)]
pub enum Method {
    Head,
    Get,
    Options,
}

impl Method {
    /// The name of the method as it stands in a request line.
    pub open spec fn name(self) -> Seq<char> {
        match self {
            Method::Head => "HEAD"@,
            Method::Get => "GET"@,
            Method::Options => "OPTIONS"@,
        }
    }

    /// The name of the method as it stands in a request line.
    pub fn as_text(&self) -> (text: String)
        ensures
            text@ == self.name(),
    {
        match self {
            Method::Head => String::from_str("HEAD"),
            Method::Get => String::from_str("GET"),
            Method::Options => String::from_str("OPTIONS"),
        }
    }
}

/// A request that the caller is to make.
pub struct Request {
    pub method: Method,
    pub url: String,
    pub options: Option<RequestOptions>,
}

/// A request as plain mathematical values.
pub struct RequestView {
    pub method: Method,
    pub url: Seq<char>,
    pub options: Option<RequestOptions>,
}

impl View for Request {
    type V = RequestView;

    open spec fn view(&self) -> RequestView {
        RequestView { method: self.method, url: self.url@, options: self.options }
    }
}

/// The request that asks whether `url` is there: a plain HEAD.
pub open spec fn head_of(url: Seq<char>) -> RequestView {
    RequestView { method: Method::Head, url, options: Some(RequestOptions { truncate: false }) }
}

/// The request that reads a page cheaply: a GET for the tail of the body.
pub open spec fn truncated_get_of(url: Seq<char>) -> RequestView {
    RequestView { method: Method::Get, url, options: Some(RequestOptions { truncate: true }) }
}

impl Request {
    /// A plain HEAD to `url`.
    pub fn head(url: String) -> (request: Request)
        ensures
            request@ == head_of(url@),
    {
        Request { method: Method::Head, url, options: RequestOptions::default() }
    }

    /// A GET to `url` that asks for the tail of the body only.
    pub fn truncated_get(url: String) -> (request: Request)
        ensures
            request@ == truncated_get_of(url@),
    {
        Request { method: Method::Get, url, options: RequestOptions::with_partial_get() }
    }

    /// The value of the range header of the request, where it has one.
    pub fn range(&self) -> (header: Option<String>)
        ensures
            match header {
                Some(value) => self.options == Some(RequestOptions { truncate: true }) && value@
                    == tail_range(),
                None => self.options != Some(RequestOptions { truncate: true }),
            },
    {
        range_header(self.options)
    }
}

/// What the crawler reads of a response: the status, the address after
/// redirects, and the content type (empty where the response names none).
pub struct HttpResponse {
    pub status: u16,
    pub url: String,
    pub content_type: String,
}

/// A response as plain mathematical values.
pub struct ResponseView {
    pub status: u16,
    pub url: Seq<char>,
    pub content_type: Seq<char>,
}

impl View for HttpResponse {
    type V = ResponseView;

    open spec fn view(&self) -> ResponseView {
        ResponseView { status: self.status, url: self.url@, content_type: self.content_type@ }
    }
}

/// The view of a response that may be missing.
pub open spec fn seen(response: Option<HttpResponse>) -> Option<ResponseView> {
    match response {
        Some(answer) => Some(answer@),
        None => None,
    }
}

impl Clone for HttpResponse {
    fn clone(&self) -> (copy: Self)
        ensures
            copy@ == self@,
    {
        HttpResponse {
            status: self.status,
            url: self.url.clone(),
            content_type: self.content_type.clone(),
        }
    }
}

} // verus!
