//! The links of a page: finding them in the text, resolving them against the
//! address of the page, and the scope rule that decides which are followed.

use crate::text::contains_string;
use crate::web::{domain_of, join_reference, joined_url, scope_domain};
use vstd::prelude::*;

verus! {

/// The pattern that finds links: the value of a `src` or `href` attribute, up
/// to the closing quote, a comma or an angle bracket.
pub const LINK_PATTERN: &'static str = "(?:src=[\"']|href=[\"'])(/{0,2}[^\"',<>]*)";

/// What the `regex` crate finds for `pattern` in `text`: for each match of
/// `Regex::captures_iter`, in order, the text of the first capture group, or
/// `None` where the group took no part in the match. `None` as a whole where
/// `Regex::new` does not accept the pattern.
pub uninterp spec fn first_groups(pattern: Seq<char>, text: Seq<char>) -> Option<
    Seq<Option<Seq<char>>>,
>;

/// Compiles `pattern` with `regex::Regex::new`, walks `text` with
/// `Regex::captures_iter` and takes the first group of each match with
/// `Captures::get`. Trusted: the outcome is the one that `first_groups` names.
#[verifier::external_body]
fn capture_first_groups(pattern: &str, text: &str) -> (found: Option<Vec<Option<String>>>)
    ensures
        match found {
            Some(groups) => first_groups(pattern@, text@) == Some(groups.deep_view()),
            None => first_groups(pattern@, text@) is None,
        },
{
    let compiled = match regex::Regex::new(pattern) {
        Ok(compiled) => compiled,
        Err(_) => return None,
    };
    let mut groups: Vec<Option<String>> = Vec::new();
    for captures in compiled.captures_iter(text) {
        groups.push(match captures.get(1) {
            Some(group) => Some(group.as_str().to_string()),
            None => None,
        });
    }
    Some(groups)
}

/// The items that are there, in order.
pub open spec fn present(items: Seq<Option<Seq<char>>>) -> Seq<Seq<char>>
    decreases items.len(),
{
    if items.len() == 0 {
        Seq::<Seq<char>>::empty()
    } else {
        match items.last() {
            Some(item) => present(items.drop_last()).push(item),
            None => present(items.drop_last()),
        }
    }
}

/// Keeps the items that are there, in order.
pub fn keep_present(items: &Vec<Option<String>>) -> (kept: Vec<String>)
    ensures
        kept.deep_view() == present(items.deep_view()),
{
    let mut kept: Vec<String> = Vec::new();
    let mut i: usize = 0;
    assert(items.deep_view().take(0) =~= Seq::<Option<Seq<char>>>::empty());
    assert(kept.deep_view() =~= Seq::<Seq<char>>::empty());
    while i < items.len()
        invariant
            i <= items.len(),
            kept.deep_view() == present(items.deep_view().take(i as int)),
        decreases items.len() - i,
    {
        let ghost before = kept.deep_view();
        let ghost upto = items.deep_view().take(i as int + 1);
        assert(upto.drop_last() =~= items.deep_view().take(i as int));
        assert(upto.last() == items@[i as int].deep_view());
        match &items[i] {
            Some(item) => {
                kept.push(item.clone());
                assert(kept.deep_view() =~= before.push(item@));
            },
            None => {},
        }
        i += 1;
    }
    assert(items.deep_view().take(items.len() as int) =~= items.deep_view());
    kept
}

/// The link texts of a page: the first groups that the link pattern
/// captures in `body`, in the order of the page; none where the pattern is
/// not accepted.
pub open spec fn links_in(body: Seq<char>) -> Seq<Seq<char>> {
    match first_groups(LINK_PATTERN@, body) {
        Some(groups) => present(groups),
        None => Seq::<Seq<char>>::empty(),
    }
}

/// Finds the link texts of a page, in the order of the page.
pub fn extract_links(body: &str) -> (links: Vec<String>)
    ensures
        links.deep_view() == links_in(body@),
{
    match capture_first_groups(LINK_PATTERN, body) {
        Some(groups) => keep_present(&groups),
        None => {
            let links: Vec<String> = Vec::new();
            assert(links.deep_view() =~= Seq::<Seq<char>>::empty());
            links
        },
    }
}

/// Each link text resolved against `base`, where that works.
pub open spec fn resolutions(base: Seq<char>, links: Seq<Seq<char>>) -> Seq<Option<Seq<char>>> {
    Seq::new(links.len(), |i: int| joined_url(base, links[i]))
}

/// The addresses that the link texts of a page stand for: each text
/// resolved against the address of the page, in order, without those that
/// do not resolve.
pub open spec fn resolved_links(base: Seq<char>, links: Seq<Seq<char>>) -> Seq<Seq<char>> {
    present(resolutions(base, links))
}

/// Resolves each link text against `base` and drops those that do not resolve.
pub fn resolve_links(base: &str, links: &Vec<String>) -> (resolved: Vec<String>)
    ensures
        resolved.deep_view() == resolved_links(base@, links.deep_view()),
{
    let mut outcomes: Vec<Option<String>> = Vec::new();
    let mut i: usize = 0;
    while i < links.len()
        invariant
            i <= links.len(),
            outcomes.len() == i,
            forall|k: int|
                0 <= k < i ==> #[trigger] outcomes@[k].deep_view() == joined_url(
                    base@,
                    links@[k]@,
                ),
        decreases links.len() - i,
    {
        let outcome = join_reference(base, links[i].as_str());
        outcomes.push(outcome);
        i += 1;
    }
    assert(outcomes.deep_view() =~= resolutions(base@, links.deep_view()));
    keep_present(&outcomes)
}

/// The addresses that a page links to: the link texts of `body` resolved
/// against the address of the page.
pub open spec fn page_links(base: Seq<char>, body: Seq<char>) -> Seq<Seq<char>> {
    resolved_links(base, links_in(body))
}

/// Finds the links of a page and resolves them against its address.
pub fn discover_links(base: &str, body: &str) -> (found: Vec<String>)
    ensures
        found.deep_view() == page_links(base@, body@),
{
    let links = extract_links(body);
    resolve_links(base, &links)
}

/// The scope rule: without scope every address may be followed; with scope,
/// only one whose domain is among `domains`, letter for letter.
pub open spec fn in_scope(scoped: bool, domains: Seq<Seq<char>>, address: Seq<char>) -> bool {
    !scoped || domains.contains(scope_domain(address))
}

/// Applies the scope rule to `address`.
pub fn is_in_scope(scoped: bool, domains: &Vec<String>, address: &str) -> (inside: bool)
    ensures
        inside == in_scope(scoped, domains.deep_view(), address@),
{
    if !scoped {
        true
    } else {
        let domain = domain_of(address);
        contains_string(domains, &domain)
    }
}

} // verus!
