//! Web addresses. Parsing, resolving a reference against a base and reading
//! the domain are the work of the `url` crate; this module gives each of
//! them a name that contracts can speak of.

use vstd::prelude::*;

verus! {

/// What `url::Url::parse` makes of `input`: the serialization of the address
/// it parsed, or the text of the error it reports.
pub uninterp spec fn parsed_url(input: Seq<char>) -> Result<Seq<char>, Seq<char>>;

/// What `url::Url::join` makes of `reference` on the address parsed from
/// `base`: the serialization of the resolved address, or `None` where `base`
/// does not parse or the join reports an error.
pub uninterp spec fn joined_url(base: Seq<char>, reference: Seq<char>) -> Option<Seq<char>>;

/// What `url::Url::domain` returns for the address parsed from `address`: its
/// host where that is a domain name; `None` where the host is an IP address
/// or absent, or where `address` does not parse.
pub uninterp spec fn url_domain(address: Seq<char>) -> Option<Seq<char>>;

/// Why a text is no absolute web address, in the words of the parser.
pub struct UrlError {
    pub reason: String,
}

/// Calls `url::Url::parse` and hands back the serialization of the parsed
/// address, or the error as its text. Trusted: the outcome is the one that
/// `parsed_url` names.
#[verifier::external_body]
fn parse_absolute(input: &str) -> (parsed: Result<String, String>)
    ensures
        match parsed {
            Ok(text) => parsed_url(input@) == Ok::<Seq<char>, Seq<char>>(text@),
            Err(reason) => parsed_url(input@) == Err::<Seq<char>, Seq<char>>(reason@),
        },
{
    match url::Url::parse(input) {
        Ok(address) => Ok(String::from(address)),
        Err(error) => Err(error.to_string()),
    }
}

/// Calls `url::Url::join` on the address parsed from `base`. Trusted: the
/// outcome is the one that `joined_url` names.
#[verifier::external_body]
pub(crate) fn join_reference(base: &str, reference: &str) -> (joined: Option<String>)
    ensures
        match joined {
            Some(text) => joined_url(base@, reference@) == Some(text@),
            None => joined_url(base@, reference@) is None,
        },
{
    match url::Url::parse(base) {
        Ok(address) => match address.join(reference) {
            Ok(resolved) => Some(String::from(resolved)),
            Err(_) => None,
        },
        Err(_) => None,
    }
}

/// Calls `url::Url::domain` on the address parsed from `address`. Trusted:
/// the outcome is the one that `url_domain` names.
#[verifier::external_body]
pub(crate) fn domain_name(address: &str) -> (domain: Option<String>)
    ensures
        match domain {
            Some(text) => url_domain(address@) == Some(text@),
            None => url_domain(address@) is None,
        },
{
    match url::Url::parse(address) {
        Ok(parsed) => match parsed.domain() {
            Some(name) => Some(name.to_string()),
            None => None,
        },
        Err(_) => None,
    }
}

/// Parses `input` as an absolute web address and returns its normal form, or
/// the parser's reason where it is none.
pub fn normalize(input: &str) -> (parsed: Result<String, UrlError>)
    ensures
        match parsed {
            Ok(text) => parsed_url(input@) == Ok::<Seq<char>, Seq<char>>(text@),
            Err(error) => parsed_url(input@) == Err::<Seq<char>, Seq<char>>(error.reason@),
        },
{
    match parse_absolute(input) {
        Ok(text) => Ok(text),
        Err(reason) => Err(UrlError { reason }),
    }
}

/// The domain that scope rules go by: the domain name of the address, or the
/// empty text where it has none.
pub open spec fn scope_domain(address: Seq<char>) -> Seq<char> {
    match url_domain(address) {
        Some(name) => name,
        None => Seq::<char>::empty(),
    }
}

/// The domain name of `address`, or the empty text where it has none.
pub fn domain_of(address: &str) -> (domain: String)
    ensures
        domain@ == scope_domain(address@),
{
    match domain_name(address) {
        Some(name) => name,
        None => String::new(),
    }
}

} // verus!
