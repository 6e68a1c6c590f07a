//! Target records: one observation of one address.

use crate::client::{HttpResponse, Method, ResponseView};
use vstd::prelude::*;
use vstd::std_specs::cmp::PartialEqSpecImpl;

verus! {

/// One observation of an address. A record made before the request has no
/// status; the response fills it in. Two records are the same record when
/// their ids are equal, whatever else they hold.
pub struct CrawlTarget {
    pub id: u128,
    pub status_code: Option<u16>,
    pub url: String,
    pub method: String,
    pub timestamp: i64,
}

/// A target record as plain mathematical values.
pub struct TargetView {
    pub id: u128,
    pub status_code: Option<u16>,
    pub url: Seq<char>,
    pub method: Seq<char>,
    pub timestamp: i64,
}

impl View for CrawlTarget {
    type V = TargetView;

    open spec fn view(&self) -> TargetView {
        TargetView {
            id: self.id,
            status_code: self.status_code,
            url: self.url@,
            method: self.method@,
            timestamp: self.timestamp,
        }
    }
}

impl PartialEq for CrawlTarget {
    fn eq(&self, other: &Self) -> (same: bool) {
        self.id == other.id
    }
}

impl PartialEqSpecImpl for CrawlTarget {
    open spec fn obeys_eq_spec() -> bool {
        true
    }

    open spec fn eq_spec(&self, other: &Self) -> bool {
        self.id == other.id
    }
}

impl Eq for CrawlTarget {

}

impl Clone for CrawlTarget {
    fn clone(&self) -> (copy: Self)
        ensures
            copy@ == self@,
    {
        CrawlTarget {
            id: self.id,
            status_code: self.status_code,
            url: self.url.clone(),
            method: self.method.clone(),
            timestamp: self.timestamp,
        }
    }
}

/// The bits of an identifier that say it is random: the version is 4 and the
/// variant is the standard one.
pub open spec fn is_random_id(id: u128) -> bool {
    id & 0x0000_0000_0000_f000_c000_0000_0000_0000u128
        == 0x0000_0000_0000_4000_8000_0000_0000_0000u128
}

/// Calls `uuid::Uuid::new_v4` and hands the identifier back as a number.
/// Trusted: the identifier is a version 4 identifier of the standard
/// variant; nothing is claimed of its random bits.
#[verifier::external_body]
pub(crate) fn fresh_id() -> (id: u128)
    ensures
        is_random_id(id),
{
    uuid::Uuid::new_v4().as_u128()
}

/// Calls `chrono::Local::now` and hands back the milliseconds since the
/// epoch. Trusted: nothing is claimed of the instant.
#[verifier::external_body]
pub(crate) fn now_millis() -> (instant: i64) {
    chrono::Local::now().timestamp_millis()
}

/// The record of `url` before any request, with the given identity and instant.
pub open spec fn unrequested(id: u128, url: Seq<char>, instant: i64) -> TargetView {
    TargetView { id, status_code: None, url, method: Seq::<char>::empty(), timestamp: instant }
}

/// The record `target` after `response` arrived at `instant` for a request
/// made with `method`: same identity, the address after redirects, the status
/// of the response.
pub open spec fn answered(
    target: TargetView,
    response: ResponseView,
    method: Method,
    instant: i64,
) -> TargetView {
    TargetView {
        id: target.id,
        status_code: Some(response.status),
        url: response.url,
        method: method.name(),
        timestamp: instant,
    }
}

impl CrawlTarget {
    /// The record of `url` before any request, with the given identity and instant.
    pub fn observed(id: u128, url: String, instant: i64) -> (target: CrawlTarget)
        ensures
            target@ == unrequested(id, url@, instant),
    {
        CrawlTarget { id, status_code: None, url, method: String::new(), timestamp: instant }
    }

    /// A record with a new identity, of no address yet.
    pub fn new() -> (target: CrawlTarget)
        ensures
            target@ == unrequested(target.id, Seq::<char>::empty(), target.timestamp),
            is_random_id(target.id),
    {
        let id = fresh_id();
        let instant = now_millis();
        CrawlTarget::observed(id, String::new(), instant)
    }

    /// A record with a new identity, of `url` before any request.
    pub fn from_url(url: String) -> (target: CrawlTarget)
        ensures
            target@ == unrequested(target.id, url@, target.timestamp),
            is_random_id(target.id),
    {
        let id = fresh_id();
        let instant = now_millis();
        CrawlTarget::observed(id, url, instant)
    }

    /// A record with a new identity, of the address and status of `response`.
    pub fn from_response(response: &HttpResponse) -> (target: CrawlTarget)
        ensures
            target@ == (TargetView {
                id: target.id,
                status_code: Some(response.status),
                url: response.url@,
                method: Seq::<char>::empty(),
                timestamp: target.timestamp,
            }),
            is_random_id(target.id),
    {
        let id = fresh_id();
        let instant = now_millis();
        CrawlTarget {
            id,
            status_code: Some(response.status),
            url: response.url.clone(),
            method: String::new(),
            timestamp: instant,
        }
    }

    /// Fills in what a response told: the address after redirects, the status,
    /// the method of the request and the instant. The identity stays.
    pub fn record_response(&mut self, response: &HttpResponse, method: Method, instant: i64)
        ensures
            final(self)@ == answered(old(self)@, response@, method, instant),
    {
        self.url = response.url.clone();
        self.status_code = Some(response.status);
        self.method = method.as_text();
        self.timestamp = instant;
    }
}

} // verus!
