//! What holds of every step of a crawler, and of every run of several
//! crawlers that share one visited set.

use crate::crawler::{
    advance, discover, enter, may_follow, step_model, wants_force_browse, CrawlerView,
    EventView, Outcome, Phase,
};
use crate::links::in_scope;
use crate::message::{ConsoleMessageType, MessageView};
use crate::target::TargetView;
use crate::web::parsed_url;
use vstd::prelude::*;

verus! {

/// The target that a message announces: the record of a target that has
/// been taken up and not yet requested.
pub open spec fn announced(message: MessageView) -> Option<TargetView> {
    if message.message_type == ConsoleMessageType::Result && message.crawl_target is Some
        && message.crawl_target->Some_0.status_code is None {
        message.crawl_target
    } else {
        None
    }
}

/// A crawler is in order: nothing has happened before the seed is taken up,
/// and a current target other than the seed is within scope.
pub open spec fn in_order(crawler: CrawlerView) -> bool {
    &&& crawler.phase == Phase::Idle ==> crawler.at_root
    &&& crawler.current is Some && !crawler.at_root ==> in_scope(
        crawler.settings.scoped,
        crawler.scoped_domains,
        crawler.current->Some_0.url,
    )
}

/// The configuration of a crawler never changes.
pub open spec fn same_configuration(before: CrawlerView, after: CrawlerView) -> bool {
    &&& after.target == before.target
    &&& after.settings == before.settings
    &&& after.scoped_domains == before.scoped_domains
}

/// The message `k` of a step announces no target, or one that is within
/// scope, was not in the visited set before the step, and is in the visited
/// set that the step leaves.
pub open spec fn announces_by_the_rules(
    pre: CrawlerView,
    visited: Set<Seq<char>>,
    out: Outcome,
    k: int,
) -> bool {
    announced(out.messages[k]) is Some ==> {
        &&& !visited.contains(announced(out.messages[k])->Some_0.url)
        &&& out.visited.contains(announced(out.messages[k])->Some_0.url)
        &&& in_scope(
            pre.settings.scoped,
            pre.scoped_domains,
            announced(out.messages[k])->Some_0.url,
        )
    }
}

/// What holds after discovery was decided for a target in progress.
proof fn lemma_discover(pre: CrawlerView, visited: Set<Seq<char>>, said: Seq<MessageView>)
    requires
        pre.current is Some && !pre.at_root ==> in_scope(
            pre.settings.scoped,
            pre.scoped_domains,
            pre.current->Some_0.url,
        ),
    ensures
        ({
            let out = discover(pre, visited, said);
            &&& in_order(out.state)
            &&& same_configuration(pre, out.state)
            &&& out.visited == visited
            &&& out.messages == said
            &&& out.state.phase != Phase::Idle
            &&& out.action is Head || out.action is Proceed
            &&& out.action is Head ==> {
                &&& out.state.current is Some
                &&& out.action->Head_url == out.state.current->Some_0.url
                &&& out.state.at_root == pre.at_root
                &&& out.state.current == pre.current
            }
        }),
{
}

/// What holds after a target was taken up.
proof fn lemma_enter(
    pre: CrawlerView,
    visited: Set<Seq<char>>,
    url: Seq<char>,
    id: u128,
    instant: i64,
    said: Seq<MessageView>,
)
    requires
        pre.at_root || in_scope(pre.settings.scoped, pre.scoped_domains, url),
    ensures
        ({
            let out = enter(pre, visited, url, id, instant, said);
            &&& in_order(out.state)
            &&& same_configuration(pre, out.state)
            &&& out.visited == visited
            &&& out.state.phase != Phase::Idle
            &&& said.len() < out.messages.len() <= said.len() + 2
            &&& forall|k: int| 0 <= k < said.len() ==> out.messages[k] == said[k]
            &&& announced(out.messages[said.len() as int]) is Some
            &&& announced(out.messages[said.len() as int])->Some_0.url == url
            &&& out.messages.len() == said.len() + 2 ==> announced(
                out.messages[said.len() as int + 1],
            ) is None
            &&& out.state.current == announced(out.messages[said.len() as int])
                || out.state.current is None
            &&& out.action is Head || out.action is Proceed || out.action is ForceBrowse
            &&& out.action is Head ==> out.action->Head_url == url && out.state.at_root
                == pre.at_root
        }),
{
    let out = enter(pre, visited, url, id, instant, said);
    if !(wants_force_browse(pre.settings) && parsed_url(url) is Ok) {
        let record = crate::target::unrequested(id, url, instant);
        let found = said.push(crate::message::about(ConsoleMessageType::Result, record));
        lemma_discover(CrawlerView { current: Some(record), ..pre }, visited, found);
    }
}

/// What holds after the stack was worked off.
proof fn lemma_advance(
    pre: CrawlerView,
    visited: Set<Seq<char>>,
    id: u128,
    instant: i64,
    said: Seq<MessageView>,
)
    ensures
        ({
            let out = advance(pre, visited, id, instant, said);
            &&& in_order(out.state)
            &&& same_configuration(pre, out.state)
            &&& visited.subset_of(out.visited)
            &&& out.state.phase != Phase::Idle
            &&& !out.state.at_root
            &&& said.len() <= out.messages.len() <= said.len() + 2
            &&& forall|k: int| 0 <= k < said.len() ==> out.messages[k] == said[k]
            &&& forall|k: int|
                said.len() <= k < out.messages.len() ==> #[trigger] announces_by_the_rules(
                    pre,
                    visited,
                    out,
                    k,
                )
            &&& out.messages.len() == said.len() ==> out.visited == visited
            &&& out.messages.len() > said.len() ==> {
                &&& announced(out.messages[said.len() as int]) is Some
                &&& out.visited == visited.insert(
                    announced(out.messages[said.len() as int])->Some_0.url,
                )
                &&& out.state.current == announced(out.messages[said.len() as int])
                    || out.state.current is None
            }
            &&& out.action is Head || out.action is Proceed || out.action is ForceBrowse
                || out.action is Finished
            &&& out.action is Head ==> {
                &&& in_scope(pre.settings.scoped, pre.scoped_domains, out.action->Head_url)
                &&& !visited.contains(out.action->Head_url)
                &&& out.visited.contains(out.action->Head_url)
            }
        }),
    decreases pre.pending.len(),
{
    let left = CrawlerView { current: None, at_root: false, ..pre };
    if pre.pending.len() > 0 {
        let rest = CrawlerView { pending: pre.pending.drop_last(), ..left };
        let out = advance(pre, visited, id, instant, said);
        match parsed_url(pre.pending.last()) {
            Ok(url) => {
                if may_follow(pre, visited, url) {
                    lemma_enter(rest, visited.insert(url), url, id, instant, said);
                    assert forall|k: int|
                        said.len() <= k < out.messages.len() implies #[trigger] announces_by_the_rules(
                        pre,
                        visited,
                        out,
                        k,
                    ) by {
                        if k > said.len() {
                            assert(k == said.len() + 1);
                        }
                    }
                } else {
                    lemma_advance(rest, visited, id, instant, said);
                    assert forall|k: int|
                        said.len() <= k < out.messages.len() implies #[trigger] announces_by_the_rules(
                        pre,
                        visited,
                        out,
                        k,
                    ) by {
                        assert(announces_by_the_rules(rest, visited, out, k));
                    }
                }
            },
            Err(_) => {
                lemma_advance(rest, visited, id, instant, said);
                assert forall|k: int|
                    said.len() <= k < out.messages.len() implies #[trigger] announces_by_the_rules(
                    pre,
                    visited,
                    out,
                    k,
                ) by {
                    assert(announces_by_the_rules(rest, visited, out, k));
                }
            },
        }
    }
}

/// The rules of a step. A crawler that is in order stays in order, and its
/// configuration stays what it was. The visited set only grows. Every
/// target that the step takes up, other than the seed, is within scope, was
/// not in the visited set before the step and is in it after the step; a HEAD
/// for a target other than the seed goes to an address within scope, and a
/// GET goes to the address whose HEAD was just answered, which is in the
/// visited set.
pub proof fn lemma_step_rules(
    pre: CrawlerView,
    event: EventView,
    visited: Set<Seq<char>>,
    id: u128,
    instant: i64,
)
    requires
        in_order(pre),
    ensures
        ({
            let out = step_model(pre, event, visited, id, instant);
            &&& in_order(out.state)
            &&& same_configuration(pre, out.state)
            &&& visited.subset_of(out.visited)
            &&& pre.phase != Phase::Idle ==> forall|k: int|
                0 <= k < out.messages.len() ==> #[trigger] announces_by_the_rules(
                    pre,
                    visited,
                    out,
                    k,
                )
            &&& out.action is Head && !out.state.at_root ==> in_scope(
                pre.settings.scoped,
                pre.scoped_domains,
                out.action->Head_url,
            )
            &&& pre.phase == Phase::AwaitHead && pre.current is Some && event is Head
                && event->response is Some ==> out.visited.contains(pre.current->Some_0.url)
            &&& out.action is Get ==> {
                &&& out.visited.contains(out.action->Get_url)
                &&& pre.current is Some && pre.current->Some_0.url == out.action->Get_url
                &&& !pre.at_root ==> in_scope(
                    pre.settings.scoped,
                    pre.scoped_domains,
                    out.action->Get_url,
                )
            }
        }),
{
    let out = step_model(pre, event, visited, id, instant);
    let nothing = Seq::<MessageView>::empty();
    match (pre.phase, event) {
        (Phase::Idle, EventView::Continue) => {
            match parsed_url(pre.target) {
                Ok(url) => {
                    lemma_enter(pre, visited, url, id, instant, nothing);
                },
                Err(_) => {},
            }
        },
        (Phase::Ready, EventView::Continue) => {
            lemma_advance(pre, visited, id, instant, nothing);
        },
        (Phase::Probing, EventView::ForceBrowseDone) => {
            lemma_discover(pre, visited, nothing);
        },
        (Phase::AwaitHead, EventView::Head { response }) => {
            match (pre.current, response) {
                (Some(current), Some(answer)) => {
                    let noted = visited.insert(current.url);
                    let said = seq![
                        crate::message::about(
                            ConsoleMessageType::Result,
                            crate::target::answered(
                                current,
                                answer,
                                crate::client::Method::Head,
                                instant,
                            ),
                        ),
                    ];
                    lemma_advance(pre, noted, id, instant, said);
                    assert(announced(said[0]) is None);
                    assert forall|k: int| 0 <= k < out.messages.len() implies #[trigger] announces_by_the_rules(
                        pre,
                        visited,
                        out,
                        k,
                    ) by {
                        if k == 0 {
                            assert(out.messages[0] == said[0]);
                        } else {
                            assert(announces_by_the_rules(pre, noted, out, k));
                        }
                    }
                },
                (Some(_), None) => {
                    lemma_advance(pre, visited, id, instant, nothing);
                },
                (None, _) => {},
            }
        },
        (Phase::AwaitBody, EventView::Body { text }) => {
            match (pre.current, text) {
                (Some(current), Some(body)) => {
                    let grown = CrawlerView {
                        pending: crate::crawler::stacked(
                            pre.pending,
                            crate::links::page_links(current.url, body),
                        ),
                        ..pre
                    };
                    lemma_advance(grown, visited, id, instant, nothing);
                    assert forall|k: int| 0 <= k < out.messages.len() implies #[trigger] announces_by_the_rules(
                        pre,
                        visited,
                        out,
                        k,
                    ) by {
                        assert(announces_by_the_rules(grown, visited, out, k));
                    }
                },
                (Some(_), None) => {
                    lemma_advance(pre, visited, id, instant, nothing);
                },
                (None, _) => {},
            }
        },
        _ => {},
    }
}

/// Several crawlers and the visited set that they share.
pub struct Network {
    pub crawlers: Seq<CrawlerView>,
    pub visited: Set<Seq<char>>,
}

/// One thing that happens in a run, all at once.
pub enum Move {
    /// The crawler `who` takes a step.
    Step { who: int, event: EventView, id: u128, instant: i64 },
    /// A probe of forced browsing marks the address it found.
    Mark { url: Seq<char> },
}

/// What the crawler `who` does in a step, in the network as it stands.
pub open spec fn step_in(net: Network, who: int, event: EventView, id: u128, instant: i64) -> Outcome {
    step_model(net.crawlers[who], event, net.visited, id, instant)
}

/// The network after one move. A step of a crawler that is not there
/// changes nothing.
pub open spec fn after_move(net: Network, next: Move) -> Network {
    match next {
        Move::Step { who, event, id, instant } => if 0 <= who < net.crawlers.len() {
            Network {
                crawlers: net.crawlers.update(who, step_in(net, who, event, id, instant).state),
                visited: step_in(net, who, event, id, instant).visited,
            }
        } else {
            net
        },
        Move::Mark { url } => Network { visited: net.visited.insert(url), ..net },
    }
}

/// The network after a run of moves, in any interleaving of the crawlers.
pub open spec fn after_moves(net: Network, moves: Seq<Move>) -> Network
    decreases moves.len(),
{
    if moves.len() == 0 {
        net
    } else {
        after_move(after_moves(net, moves.drop_last()), moves.last())
    }
}

/// Every crawler of the network is in order.
pub open spec fn all_in_order(net: Network) -> bool {
    forall|who: int| 0 <= who < net.crawlers.len() ==> in_order(#[trigger] net.crawlers[who])
}

/// A run keeps the crawlers in order and their configurations as they
/// were, and the visited set only grows.
pub proof fn lemma_run_keeps_order(net: Network, moves: Seq<Move>)
    requires
        all_in_order(net),
    ensures
        all_in_order(after_moves(net, moves)),
        after_moves(net, moves).crawlers.len() == net.crawlers.len(),
        forall|who: int|
            0 <= who < net.crawlers.len() ==> same_configuration(
                net.crawlers[who],
                #[trigger] after_moves(net, moves).crawlers[who],
            ),
        net.visited.subset_of(after_moves(net, moves).visited),
    decreases moves.len(),
{
    if moves.len() > 0 {
        lemma_run_keeps_order(net, moves.drop_last());
        let before = after_moves(net, moves.drop_last());
        match moves.last() {
            Move::Step { who, event, id, instant } => {
                if 0 <= who < before.crawlers.len() {
                    lemma_step_rules(before.crawlers[who], event, before.visited, id, instant);
                }
            },
            Move::Mark { url } => {},
        }
    }
}

/// The visited set at an earlier point of a run is part of the visited set
/// at every later point.
pub proof fn lemma_visited_grows(net: Network, moves: Seq<Move>, early: int, late: int)
    requires
        all_in_order(net),
        0 <= early <= late <= moves.len(),
    ensures
        after_moves(net, moves.take(early)).visited.subset_of(
            after_moves(net, moves.take(late)).visited,
        ),
    decreases late - early,
{
    if early < late {
        lemma_visited_grows(net, moves, early, late - 1);
        lemma_run_keeps_order(net, moves.take(late - 1));
        assert(moves.take(late).drop_last() =~= moves.take(late - 1));
        let before = after_moves(net, moves.take(late - 1));
        match moves.take(late).last() {
            Move::Step { who, event, id, instant } => {
                if 0 <= who < before.crawlers.len() {
                    lemma_step_rules(before.crawlers[who], event, before.visited, id, instant);
                }
            },
            Move::Mark { url } => {},
        }
    }
}

/// No address is taken up once it is in the visited set, and taking an
/// address up puts it there. In every run of crawlers that share one visited
/// set, in any interleaving, with forced browsing marking addresses in
/// between: a target that a crawler takes up at the move `late`, other than
/// its seed, was in the visited set at no point of the run before that move,
/// and is in it once the move is made. It is also within the scope of the
/// crawler, as the crawler was configured at the start.
pub proof fn lemma_no_target_twice(
    net: Network,
    moves: Seq<Move>,
    early: int,
    late: int,
    k: int,
)
    requires
        all_in_order(net),
        0 <= early <= late < moves.len(),
        moves[late] is Step,
        0 <= moves[late]->who < net.crawlers.len(),
        after_moves(net, moves.take(late)).crawlers[moves[late]->who].phase != Phase::Idle,
        0 <= k < step_in(
            after_moves(net, moves.take(late)),
            moves[late]->who,
            moves[late]->event,
            moves[late]->id,
            moves[late]->instant,
        ).messages.len(),
        announced(
            step_in(
                after_moves(net, moves.take(late)),
                moves[late]->who,
                moves[late]->event,
                moves[late]->id,
                moves[late]->instant,
            ).messages[k],
        ) is Some,
    ensures
        ({
            let who = moves[late]->who;
            let out = step_in(
                after_moves(net, moves.take(late)),
                who,
                moves[late]->event,
                moves[late]->id,
                moves[late]->instant,
            );
            let url = announced(out.messages[k])->Some_0.url;
            &&& !after_moves(net, moves.take(early)).visited.contains(url)
            &&& after_moves(net, moves.take(late + 1)).visited.contains(url)
            &&& in_scope(net.crawlers[who].settings.scoped, net.crawlers[who].scoped_domains, url)
        }),
{
    let who = moves[late]->who;
    let before = after_moves(net, moves.take(late));
    lemma_run_keeps_order(net, moves.take(late));
    lemma_visited_grows(net, moves, early, late);
    let out = step_in(before, who, moves[late]->event, moves[late]->id, moves[late]->instant);
    lemma_step_rules(
        before.crawlers[who],
        moves[late]->event,
        before.visited,
        moves[late]->id,
        moves[late]->instant,
    );
    assert(announces_by_the_rules(before.crawlers[who], before.visited, out, k));
    assert(moves.take(late + 1).drop_last() =~= moves.take(late));
    assert(moves.take(late + 1).last() == moves[late]);
    assert(after_moves(net, moves.take(late + 1)).visited == out.visited);
}

/// An address whose HEAD was answered is never taken up again. In every
/// run of crawlers that share one visited set: once a crawler has had the
/// answer to the HEAD for its current target, at the move `early`, no
/// crawler takes up a target with that address at a later move, unless as
/// its seed.
pub proof fn lemma_answered_once(net: Network, moves: Seq<Move>, early: int, late: int, k: int)
    requires
        all_in_order(net),
        0 <= early < late < moves.len(),
        moves[early] is Step,
        0 <= moves[early]->who < net.crawlers.len(),
        moves[early]->event is Head,
        moves[early]->event->response is Some,
        after_moves(net, moves.take(early)).crawlers[moves[early]->who].phase
            == Phase::AwaitHead,
        after_moves(net, moves.take(early)).crawlers[moves[early]->who].current is Some,
        moves[late] is Step,
        0 <= moves[late]->who < net.crawlers.len(),
        after_moves(net, moves.take(late)).crawlers[moves[late]->who].phase != Phase::Idle,
        0 <= k < step_in(
            after_moves(net, moves.take(late)),
            moves[late]->who,
            moves[late]->event,
            moves[late]->id,
            moves[late]->instant,
        ).messages.len(),
        announced(
            step_in(
                after_moves(net, moves.take(late)),
                moves[late]->who,
                moves[late]->event,
                moves[late]->id,
                moves[late]->instant,
            ).messages[k],
        ) is Some,
    ensures
        announced(
            step_in(
                after_moves(net, moves.take(late)),
                moves[late]->who,
                moves[late]->event,
                moves[late]->id,
                moves[late]->instant,
            ).messages[k],
        )->Some_0.url != after_moves(
            net,
            moves.take(early),
        ).crawlers[moves[early]->who].current->Some_0.url,
{
    let first = after_moves(net, moves.take(early));
    lemma_run_keeps_order(net, moves.take(early));
    lemma_step_rules(
        first.crawlers[moves[early]->who],
        moves[early]->event,
        first.visited,
        moves[early]->id,
        moves[early]->instant,
    );
    assert(moves.take(early + 1).drop_last() =~= moves.take(early));
    assert(moves.take(early + 1).last() == moves[early]);
    lemma_no_target_twice(net, moves, early + 1, late, k);
}

/// What the crawler that steps at the move `at` of a run says in that step.
pub open spec fn said_at(net: Network, moves: Seq<Move>, at: int) -> Seq<MessageView> {
    step_in(
        after_moves(net, moves.take(at)),
        moves[at]->who,
        moves[at]->event,
        moves[at]->id,
        moves[at]->instant,
    ).messages
}

/// The message `k` of the move `at` announces a target with the address `url`.
pub open spec fn announces_at(
    net: Network,
    moves: Seq<Move>,
    at: int,
    k: int,
    url: Seq<char>,
) -> bool {
    &&& 0 <= k < said_at(net, moves, at).len()
    &&& announced(said_at(net, moves, at)[k]) is Some
    &&& announced(said_at(net, moves, at)[k])->Some_0.url == url
}

/// The move `at` of a run is a step in which a crawler takes up a target
/// with the address `url`, other than as its seed.
pub open spec fn takes_up(net: Network, moves: Seq<Move>, at: int, url: Seq<char>) -> bool {
    &&& 0 <= at < moves.len()
    &&& moves[at] is Step
    &&& 0 <= moves[at]->who < net.crawlers.len()
    &&& after_moves(net, moves.take(at)).crawlers[moves[at]->who].phase != Phase::Idle
    &&& exists|k: int| announces_at(net, moves, at, k, url)
}

/// No address is taken up twice. In every run of crawlers that share one
/// visited set, in any interleaving, with forced browsing marking addresses
/// in between: of all the moves of the run, at most one takes up a target
/// with a given address, seeds aside. So no address that was found as a link
/// gets a HEAD for discovery twice, whether or not the first was answered.
pub proof fn lemma_taken_up_once(
    net: Network,
    moves: Seq<Move>,
    first: int,
    second: int,
    url: Seq<char>,
)
    requires
        all_in_order(net),
        0 <= first < second < moves.len(),
        takes_up(net, moves, first, url),
    ensures
        !takes_up(net, moves, second, url),
        after_moves(net, moves.take(second)).visited.contains(url),
{
    let k = choose|k: int| announces_at(net, moves, first, k, url);
    lemma_no_target_twice(net, moves, first, first, k);
    lemma_visited_grows(net, moves, first + 1, second);
    if takes_up(net, moves, second, url) {
        let j = choose|j: int| announces_at(net, moves, second, j, url);
        lemma_no_target_twice(net, moves, first + 1, second, j);
    }
}

/// Of two crawlers that look at one address, exactly one goes on. Two
/// crawlers share a visited set; each is between two targets, and each has on
/// top of its stack a link to the same address, which is within the scope of
/// both and not in the visited set. The one that steps first takes the
/// address up and puts it into the set in that step; the other, stepping
/// after it, takes up no target with that address.
pub proof fn lemma_one_of_two_goes_on(
    one: CrawlerView,
    other: CrawlerView,
    visited: Set<Seq<char>>,
    url: Seq<char>,
    ids: (u128, u128),
    instants: (i64, i64),
)
    requires
        in_order(one),
        in_order(other),
        one.phase == Phase::Ready,
        other.phase == Phase::Ready,
        one.pending.len() > 0,
        other.pending.len() > 0,
        parsed_url(one.pending.last()) == Ok::<Seq<char>, Seq<char>>(url),
        parsed_url(other.pending.last()) == Ok::<Seq<char>, Seq<char>>(url),
        may_follow(one, visited, url),
        may_follow(other, visited, url),
    ensures
        ({
            let went = step_model(one, EventView::Continue, visited, ids.0, instants.0);
            let stayed = step_model(other, EventView::Continue, went.visited, ids.1, instants.1);
            &&& went.messages.len() > 0
            &&& announced(went.messages[0]) is Some
            &&& announced(went.messages[0])->Some_0.url == url
            &&& went.visited == visited.insert(url)
            &&& forall|k: int|
                0 <= k < stayed.messages.len() && announced(#[trigger] stayed.messages[k])
                    is Some ==> announced(stayed.messages[k])->Some_0.url != url
            &&& !(stayed.action is Head && stayed.action->Head_url == url)
        }),
{
    let nothing = Seq::<MessageView>::empty();
    let left = CrawlerView { current: None, at_root: false, ..one };
    let rest = CrawlerView { pending: one.pending.drop_last(), ..left };
    lemma_enter(rest, visited.insert(url), url, ids.0, instants.0, nothing);
    let went = step_model(one, EventView::Continue, visited, ids.0, instants.0);
    assert(went == enter(rest, visited.insert(url), url, ids.0, instants.0, nothing));
    let stayed = step_model(other, EventView::Continue, went.visited, ids.1, instants.1);
    lemma_step_rules(other, EventView::Continue, went.visited, ids.1, instants.1);
    lemma_advance(other, went.visited, ids.1, instants.1, nothing);
    assert forall|k: int|
        0 <= k < stayed.messages.len() && announced(#[trigger] stayed.messages[k])
            is Some implies announced(stayed.messages[k])->Some_0.url != url by {
        assert(announces_by_the_rules(other, went.visited, stayed, k));
    }
}

} // verus!
