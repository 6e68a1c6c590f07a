//! The set of addresses that have been requested, shared by every crawl of a run.

use vstd::prelude::*;

verus! {

/// The addresses that have been requested. Every operation is one step:
/// whoever shares the set between workers holds its lock for one call.
pub struct VisitedSet {
    urls: Vec<String>,
}

impl View for VisitedSet {
    type V = Set<Seq<char>>;

    closed spec fn view(&self) -> Set<Seq<char>> {
        self.urls.deep_view().to_set()
    }
}

impl VisitedSet {
    /// The empty set.
    pub fn new() -> (set: VisitedSet)
        ensures
            set@ == Set::<Seq<char>>::empty(),
    {
        let urls: Vec<String> = Vec::new();
        assert(urls.deep_view() =~= Seq::<Seq<char>>::empty());
        assert(urls.deep_view().to_set() =~= Set::<Seq<char>>::empty());
        VisitedSet { urls }
    }

    /// Whether `url` is in the set.
    pub fn contains(&self, url: &String) -> (found: bool)
        ensures
            found == self@.contains(url@),
    {
        crate::text::contains_string(&self.urls, url)
    }

    /// Puts `url` into the set and tells whether it was new, in one step: of
    /// all the calls with one address, on one set, only the first returns
    /// true. A crawler takes a link up only where this call answers true.
    pub fn insert(&mut self, url: &String) -> (fresh: bool)
        ensures
            fresh == !old(self)@.contains(url@),
            final(self)@ == old(self)@.insert(url@),
    {
        if crate::text::contains_string(&self.urls, url) {
            assert(self@.insert(url@) =~= self@);
            false
        } else {
            let ghost before = self.urls.deep_view();
            self.urls.push(url.clone());
            assert(self.urls.deep_view() =~= before.push(url@));
            assert(before.push(url@).to_set() =~= before.to_set().insert(url@)) by {
                assert forall|x: Seq<char>|
                    before.push(url@).to_set().contains(x) <==> before.to_set().insert(
                        url@,
                    ).contains(x) by {
                    if before.push(url@).contains(x) {
                        let i = choose|i: int|
                            0 <= i < before.push(url@).len() && before.push(url@)[i] == x;
                        if i < before.len() {
                            assert(before[i] == x);
                        }
                    }
                    if before.contains(x) {
                        let i = choose|i: int| 0 <= i < before.len() && before[i] == x;
                        assert(before.push(url@)[i] == x);
                    }
                    if x == url@ {
                        assert(before.push(url@)[before.len() as int] == x);
                    }
                }
            }
            true
        }
    }
}

/// The answers of `insert` over a run of calls on a set that starts as
/// `visited`: the call for `urls[i]` answers true exactly when the address is
/// neither in `visited` nor among the earlier calls.
pub open spec fn granted(visited: Set<Seq<char>>, urls: Seq<Seq<char>>, i: int) -> bool {
    !visited.contains(urls[i]) && !urls.take(i).contains(urls[i])
}

/// The set after a run of `insert` calls on a set that starts as `visited`.
pub open spec fn after_inserts(visited: Set<Seq<char>>, urls: Seq<Seq<char>>) -> Set<Seq<char>>
    decreases urls.len(),
{
    if urls.len() == 0 {
        visited
    } else {
        after_inserts(visited, urls.drop_last()).insert(urls.last())
    }
}

/// A run of `insert` calls leaves the start set joined with the addresses of
/// the calls.
pub proof fn lemma_after_inserts(visited: Set<Seq<char>>, urls: Seq<Seq<char>>)
    ensures
        after_inserts(visited, urls) == visited.union(urls.to_set()),
    decreases urls.len(),
{
    if urls.len() == 0 {
        assert(urls.to_set() =~= Set::<Seq<char>>::empty());
        assert(visited.union(urls.to_set()) =~= visited);
    } else {
        lemma_after_inserts(visited, urls.drop_last());
        assert forall|x: Seq<char>|
            urls.to_set().contains(x) <==> urls.drop_last().to_set().insert(
                urls.last(),
            ).contains(x) by {
            if urls.contains(x) {
                let i = choose|i: int| 0 <= i < urls.len() && urls[i] == x;
                if i < urls.len() - 1 {
                    assert(urls.drop_last()[i] == x);
                }
            }
            if urls.drop_last().contains(x) {
                let i = choose|i: int| 0 <= i < urls.drop_last().len() && urls.drop_last()[i] == x;
                assert(urls[i] == x);
            }
            if x == urls.last() {
                assert(urls[urls.len() - 1] == x);
            }
        }
        assert(urls.to_set() =~= urls.drop_last().to_set().insert(urls.last()));
        assert(after_inserts(visited, urls) =~= visited.union(urls.to_set()));
    }
}

/// No address is granted twice: in any run of `insert` calls on one set, the
/// call for an address answers true exactly when the address is not yet in
/// the set, so of two calls with one address the later one answers false.
pub proof fn lemma_granted_once(visited: Set<Seq<char>>, urls: Seq<Seq<char>>, i: int, j: int)
    requires
        0 <= i < j < urls.len(),
        urls[i] == urls[j],
    ensures
        granted(visited, urls, i) == !after_inserts(visited, urls.take(i)).contains(urls[i]),
        granted(visited, urls, j) == !after_inserts(visited, urls.take(j)).contains(urls[j]),
        !granted(visited, urls, j),
{
    lemma_after_inserts(visited, urls.take(i));
    lemma_after_inserts(visited, urls.take(j));
    assert(urls.take(j)[i] == urls[j]);
}

} // verus!
