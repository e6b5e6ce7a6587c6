//! Paging through a listing: what to do after each reply, and the collection
//! that the pages add up to.
//!
//! The caller performs the requests. It starts with page one, hands every
//! reply to [`Paginator::advance`] and does what the returned action says.

use crate::fetch::{classified, classify, envelope_error, FetchError};
use crate::json::Json;
use crate::index::reversed;
use crate::model::Record;
use vstd::prelude::*;

verus! {

/// How long to wait after a rate-limited reply, in seconds.
pub const RATE_LIMIT_COOL_DOWN_SECS: u64 = 60;

/// The views of a sequence of records.
pub open spec fn views<T: View>(items: Seq<T>) -> Seq<T::V> {
    items.map_values(|x: T| x@)
}

/// `acc` with `x` added at the end, unless it is there already.
pub open spec fn insert_unique<V>(acc: Seq<V>, x: V) -> Seq<V> {
    if acc.contains(x) {
        acc
    } else {
        acc.push(x)
    }
}

/// `acc` with the items of `xs` added in order, each unless it is there
/// already.
pub open spec fn merge_unique<V>(acc: Seq<V>, xs: Seq<V>) -> Seq<V>
    decreases xs.len(),
{
    if xs.len() == 0 {
        acc
    } else {
        insert_unique(merge_unique(acc, xs.drop_last()), xs.last())
    }
}

/// The records that the documents of a page hold, `None` where one of the
/// documents has not the record's shape.
pub open spec fn decoded_items<T: Record>(docs: Seq<Json>) -> Option<Seq<T::V>>
    decreases docs.len(),
{
    if docs.len() == 0 {
        Some(Seq::empty())
    } else {
        match (decoded_items::<T>(docs.drop_last()), T::decoded(docs.last())) {
            (Some(front), Some(x)) => Some(front.push(x)),
            _ => None,
        }
    }
}

/// What one reply to a page request amounts to: the records of the page, or
/// the reason why there are none. An array is a page; anything else is read
/// as an error envelope, and is malformed where it is none.
pub open spec fn page_outcome<T: Record>(reply: Result<Json, FetchError>) -> Result<
    Seq<T::V>,
    FetchError,
> {
    match reply {
        Err(e) => Err(e),
        Ok(Json::Array(docs)) => match decoded_items::<T>(docs@) {
            Some(xs) => Ok(xs),
            None => Err(FetchError::Malformed),
        },
        Ok(doc) => match envelope_error(doc) {
            Some(e) => Err(e),
            None => Err(FetchError::Malformed),
        },
    }
}

/// A page request comes to the same whether the error envelope was told
/// from the payload before or not.
pub proof fn lemma_page_outcome_of_classified<T: Record>(reply: Result<Json, FetchError>)
    ensures
        page_outcome::<T>(classified(reply)) == page_outcome::<T>(reply),
{
}

/// What the caller does next.
#[derive(Clone, Copy, Debug, PartialEq, Eq, Structural)]
pub enum PageAction {
    /// Request this page.
    Fetch { page: u64 },
    /// Wait this many seconds, then request this page.
    CoolDown { seconds: u64, page: u64 },
    /// The listing is complete.
    Done,
    /// The listing is given up; what was collected so far stays readable.
    Failed(FetchError),
}

/// The state of a listing in progress, as contracts see it.
pub ghost struct PagerState<V> {
    /// The page that is requested next.
    pub page: nat,
    /// Failed attempts on that page that count against the budget.
    pub tries: nat,
    /// The budget of attempts per page.
    pub retries: nat,
    /// The records collected so far, each once.
    pub items: Seq<V>,
}

/// The state after a reply, and the action it calls for.
///
/// A non-empty page is merged and the next page requested with a fresh
/// budget; an empty page ends the listing. A rate-limited reply costs a
/// cool-down and nothing else. A transport failure counts against the budget
/// of the page and ends the listing when the budget is used up. Every other
/// error ends the listing at once.
pub open spec fn step<V>(s: PagerState<V>, outcome: Result<Seq<V>, FetchError>) -> (
    PagerState<V>,
    PageAction,
) {
    match outcome {
        Ok(xs) => if xs.len() == 0 {
            (s, PageAction::Done)
        } else {
            (
                PagerState {
                    page: s.page + 1,
                    tries: 0,
                    retries: s.retries,
                    items: merge_unique(s.items, xs),
                },
                PageAction::Fetch { page: (s.page + 1) as u64 },
            )
        },
        Err(FetchError::RateLimited) => (
            s,
            PageAction::CoolDown { seconds: RATE_LIMIT_COOL_DOWN_SECS, page: s.page as u64 },
        ),
        Err(FetchError::Transient) => if s.tries + 1 >= s.retries {
            (s, PageAction::Failed(FetchError::Transient))
        } else {
            (
                PagerState { page: s.page, tries: s.tries + 1, retries: s.retries, items: s.items },
                PageAction::Fetch { page: s.page as u64 },
            )
        },
        Err(e) => (s, PageAction::Failed(e)),
    }
}

/// A listing in progress.
pub struct Paginator<T: Record> {
    page: u64,
    tries: u8,
    retries: u8,
    items: Vec<T>,
}

impl<T: Record> View for Paginator<T> {
    type V = PagerState<T::V>;

    closed spec fn view(&self) -> PagerState<T::V> {
        PagerState {
            page: self.page as nat,
            tries: self.tries as nat,
            retries: self.retries as nat,
            items: views(self.items@),
        }
    }
}

/// Reads the records of a page.
pub(crate) fn decode_page<T: Record>(docs: &Vec<Json>) -> (r: Option<Vec<T>>)
    ensures
        r is Some <==> decoded_items::<T>(docs@) is Some,
        r matches Some(v) ==> decoded_items::<T>(docs@) == Some(views(v@)),
{
    let mut out: Vec<T> = Vec::new();
    let mut i: usize = 0;
    proof {
        assert(docs@.take(0) =~= Seq::<Json>::empty());
        assert(views(out@) =~= Seq::<T::V>::empty());
    }
    while i < docs.len()
        invariant
            i <= docs@.len(),
            decoded_items::<T>(docs@.take(i as int)) == Some(views(out@)),
        decreases docs@.len() - i,
    {
        proof {
            let next = docs@.take(i + 1);
            assert(next.drop_last() =~= docs@.take(i as int));
            assert(next.last() == docs@[i as int]);
        }
        match T::decode(&docs[i]) {
            Some(x) => {
                proof {
                    assert(views(out@.push(x)) =~= views(out@).push(x@));
                }
                out.push(x);
            },
            None => {
                proof {
                    lemma_decoding_fails_on::<T>(docs@, i + 1);
                }
                return None;
            },
        }
        i += 1;
    }
    proof {
        assert(docs@.take(docs@.len() as int) =~= docs@);
    }
    Some(out)
}

/// Where a front part of a page cannot be decoded, the page cannot.
proof fn lemma_decoding_fails_on<T: Record>(docs: Seq<Json>, n: int)
    requires
        0 <= n <= docs.len(),
        decoded_items::<T>(docs.take(n)) is None,
    ensures
        decoded_items::<T>(docs) is None,
    decreases docs.len() - n,
{
    if n < docs.len() {
        let next = docs.take(n + 1);
        assert(next.drop_last() =~= docs.take(n));
        lemma_decoding_fails_on::<T>(docs, n + 1);
    } else {
        assert(docs.take(n) =~= docs);
    }
}

/// Whether a record with the view of `x` is among `items`.
fn holds<T: Record>(items: &Vec<T>, x: &T) -> (r: bool)
    ensures
        r == views(items@).contains(x@),
{
    let mut i: usize = 0;
    while i < items.len()
        invariant
            i <= items@.len(),
            forall|k: int| 0 <= k < i ==> views(items@)[k] != x@,
        decreases items@.len() - i,
    {
        if items[i].equals(x) {
            assert(views(items@)[i as int] == x@);
            return true;
        }
        i += 1;
    }
    false
}

/// Adds the records of `fresh` to `items`, each unless it is there already.
fn absorb<T: Record>(items: &mut Vec<T>, fresh: Vec<T>)
    ensures
        views(final(items)@) == merge_unique(views(old(items)@), views(fresh@)),
{
    let ghost start = views(items@);
    let ghost all = views(fresh@);
    let mut rest = reversed(fresh);
    proof {
        assert(all.take(0) =~= Seq::<T::V>::empty());
    }
    let ghost mut done: int = 0;
    while rest.len() > 0
        invariant
            0 <= done <= all.len(),
            rest@.len() + done == all.len(),
            forall|k: int|
                0 <= k < rest@.len() ==> (#[trigger] rest@[k])@ == all[all.len() - 1 - k],
            views(items@) == merge_unique(start, all.take(done)),
        decreases rest@.len(),
    {
        let x = rest.pop().unwrap();
        proof {
            let next = all.take(done + 1);
            assert(next.drop_last() =~= all.take(done));
            assert(next.last() == x@);
        }
        if !holds(items, &x) {
            proof {
                assert(views(items@.push(x)) =~= views(items@).push(x@));
            }
            items.push(x);
        }
        proof {
            done = done + 1;
        }
    }
    proof {
        assert(all.take(all.len() as int) =~= all);
    }
}

impl<T: Record> Paginator<T> {
    /// A listing that has not asked for anything yet: the first request is
    /// for page one.
    pub fn new(retries: u8) -> (r: Self)
        ensures
            r@ == (PagerState::<T::V> {
                page: 1,
                tries: 0,
                retries: retries as nat,
                items: Seq::empty(),
            }),
            r@.items.no_duplicates(),
    {
        let r = Paginator { page: 1, tries: 0, retries, items: Vec::new() };
        proof {
            assert(views(r.items@) =~= Seq::<T::V>::empty());
        }
        r
    }

    /// The page that is requested next.
    pub fn page(&self) -> (r: u64)
        ensures
            r == self@.page,
    {
        self.page
    }

    /// The failed attempts on the current page that count against the budget.
    pub fn tries(&self) -> (r: u8)
        ensures
            r == self@.tries,
    {
        self.tries
    }

    /// The records collected so far.
    pub fn items(&self) -> (r: &Vec<T>)
        ensures
            views(r@) == self@.items,
    {
        &self.items
    }

    /// Ends the listing and hands out what was collected.
    pub fn into_items(self) -> (r: Vec<T>)
        ensures
            views(r@) == self@.items,
    {
        self.items
    }

    /// Takes the reply to the request for the current page and says what to
    /// do next.
    pub fn advance(&mut self, reply: &Result<Json, FetchError>) -> (action: PageAction)
        requires
            old(self)@.page < u64::MAX,
        ensures
            (final(self)@, action) == step(old(self)@, page_outcome::<T>(*reply)),
            old(self)@.items.no_duplicates() ==> final(self)@.items.no_duplicates(),
    {
        proof {
            match page_outcome::<T>(*reply) {
                Ok(xs) => {
                    lemma_merge_collects(self@.items, xs);
                },
                Err(_) => {},
            }
        }
        let outcome: Result<Vec<T>, FetchError> = match reply {
            Err(e) => Err(*e),
            Ok(Json::Array(docs)) => match decode_page::<T>(docs) {
                Some(v) => Ok(v),
                None => Err(FetchError::Malformed),
            },
            Ok(doc) => match classify(doc) {
                Some(e) => Err(e),
                None => Err(FetchError::Malformed),
            },
        };
        match outcome {
            Ok(fresh) => {
                if fresh.len() == 0 {
                    PageAction::Done
                } else {
                    absorb(&mut self.items, fresh);
                    self.page = self.page + 1;
                    self.tries = 0;
                    PageAction::Fetch { page: self.page }
                }
            },
            Err(FetchError::RateLimited) => PageAction::CoolDown {
                seconds: RATE_LIMIT_COOL_DOWN_SECS,
                page: self.page,
            },
            Err(FetchError::Transient) => {
                if self.retries == 0 || self.tries >= self.retries - 1 {
                    PageAction::Failed(FetchError::Transient)
                } else {
                    self.tries = self.tries + 1;
                    PageAction::Fetch { page: self.page }
                }
            },
            Err(e) => PageAction::Failed(e),
        }
    }
}

/// Merging adds exactly the new items: what is collected after a page is
/// what was collected before together with the items of the page.
pub proof fn lemma_merge_collects<V>(acc: Seq<V>, xs: Seq<V>)
    ensures
        merge_unique(acc, xs).to_set() == acc.to_set().union(xs.to_set()),
        acc.no_duplicates() ==> merge_unique(acc, xs).no_duplicates(),
    decreases xs.len(),
{
    if xs.len() == 0 {
        assert(xs.to_set() =~= Set::<V>::empty());
        assert(acc.to_set().union(xs.to_set()) =~= acc.to_set());
    } else {
        let front = xs.drop_last();
        let last = xs.last();
        lemma_merge_collects(acc, front);
        let mid = merge_unique(acc, front);
        let out = merge_unique(acc, xs);
        assert forall|x: V| xs.to_set().contains(x) <==> (front.to_set().contains(x) || x
            == last) by {
            if xs.contains(x) {
                let k = choose|k: int| 0 <= k < xs.len() && xs[k] == x;
                if k < xs.len() - 1 {
                    assert(front[k] == x);
                }
            }
            if front.contains(x) {
                let k = choose|k: int| 0 <= k < front.len() && front[k] == x;
                assert(xs[k] == x);
            }
            assert(xs[xs.len() - 1] == last);
        }
        if mid.contains(last) {
            assert(out == mid);
        } else {
            assert(out == mid.push(last));
            assert forall|x: V| out.to_set().contains(x) <==> (mid.to_set().contains(x) || x
                == last) by {
                if out.contains(x) {
                    let k = choose|k: int| 0 <= k < out.len() && out[k] == x;
                    if k < mid.len() {
                        assert(mid[k] == x);
                    }
                }
                if mid.contains(x) {
                    let k = choose|k: int| 0 <= k < mid.len() && mid[k] == x;
                    assert(out[k] == x);
                }
                assert(out[out.len() - 1] == last);
            }
        }
        assert(out.to_set() =~= acc.to_set().union(xs.to_set()));
    }
}

/// A rate-limited reply costs a cool-down and nothing else: the state after
/// it is the state before it, the budget of the page included. So after two
/// of them in a row the attempts counted are what they were, and the reply
/// that follows is handled as if the two had not been.
pub proof fn lemma_rate_limit_costs_no_budget<V>(
    s: PagerState<V>,
    page: Result<Seq<V>, FetchError>,
)
    ensures
        step(s, Err(FetchError::RateLimited)).0 == s,
        step(s, Err(FetchError::RateLimited)).1 == (PageAction::CoolDown {
            seconds: RATE_LIMIT_COOL_DOWN_SECS,
            page: s.page as u64,
        }),
        step(step(s, Err(FetchError::RateLimited)).0, Err(FetchError::RateLimited)).0.tries
            == s.tries,
        step(step(step(s, Err(FetchError::RateLimited)).0, Err(FetchError::RateLimited)).0, page)
            == step(s, page),
{
}

/// An empty page ends the listing, whatever was collected and however many
/// attempts had failed.
pub proof fn lemma_empty_page_ends<V>(s: PagerState<V>)
    ensures
        step(s, Ok(Seq::<V>::empty())) == (s, PageAction::Done),
{
}

/// What a backend holds on the pages before `upto`, the first page being
/// page one.
pub open spec fn held_before<V>(backend: spec_fn(nat) -> Seq<V>, upto: nat) -> Set<V>
    decreases upto,
{
    if upto <= 1 {
        Set::empty()
    } else {
        held_before(backend, (upto - 1) as nat).union(backend((upto - 1) as nat).to_set())
    }
}

/// Whether every page before `upto` has items.
pub open spec fn full_before<V>(backend: spec_fn(nat) -> Seq<V>, upto: nat) -> bool {
    forall|q: nat| 1 <= q < upto ==> (#[trigger] backend(q)).len() > 0
}

/// Whether an outcome is what the backend serves for the page that is asked
/// for, or a hiccup of the transport or the rate limit.
pub open spec fn served_by<V>(
    backend: spec_fn(nat) -> Seq<V>,
    s: PagerState<V>,
    outcome: Result<Seq<V>, FetchError>,
) -> bool {
    match outcome {
        Ok(xs) => xs == backend(s.page),
        Err(e) => e == FetchError::RateLimited || e == FetchError::Transient,
    }
}

/// The state in which a listing ends complete, when the backend answers the
/// requests with the outcomes in their order; `None` where the outcomes do
/// not lead to a complete listing.
pub open spec fn completes<V>(
    backend: spec_fn(nat) -> Seq<V>,
    s: PagerState<V>,
    outcomes: Seq<Result<Seq<V>, FetchError>>,
) -> Option<PagerState<V>>
    decreases outcomes.len(),
{
    if outcomes.len() == 0 || !served_by(backend, s, outcomes[0]) {
        None
    } else {
        let next = step(s, outcomes[0]);
        match next.1 {
            PageAction::Done => Some(next.0),
            PageAction::Failed(_) => None,
            _ => completes(backend, next.0, outcomes.drop_first()),
        }
    }
}

/// Whether a state holds what the backend has on the pages before the one
/// that is asked for next, all of them with items.
pub open spec fn in_step_with<V>(backend: spec_fn(nat) -> Seq<V>, s: PagerState<V>) -> bool {
    &&& s.page >= 1
    &&& s.items.to_set() == held_before(backend, s.page)
    &&& full_before(backend, s.page)
}

/// A complete listing holds what the backend has before its first empty
/// page.
proof fn lemma_completes_in_step<V>(
    backend: spec_fn(nat) -> Seq<V>,
    s: PagerState<V>,
    outcomes: Seq<Result<Seq<V>, FetchError>>,
)
    requires
        in_step_with(backend, s),
        completes(backend, s, outcomes) is Some,
    ensures
        in_step_with(backend, completes(backend, s, outcomes)->0),
        backend(completes(backend, s, outcomes)->0.page).len() == 0,
    decreases outcomes.len(),
{
    let next = step(s, outcomes[0]);
    match next.1 {
        PageAction::Done => {},
        PageAction::Failed(_) => {},
        _ => {
            match outcomes[0] {
                Ok(xs) => {
                    lemma_merge_collects(s.items, xs);
                    assert(held_before(backend, s.page + 1) == held_before(
                        backend,
                        s.page,
                    ).union(backend(s.page).to_set()));
                    assert forall|q: nat| 1 <= q < s.page + 1 implies (#[trigger] backend(
                        q,
                    )).len() > 0 by {
                        if q == s.page {
                        }
                    }
                },
                Err(_) => {},
            }
            lemma_completes_in_step(backend, next.0, outcomes.drop_first());
        },
    }
}

/// Asking a stable backend again gives the same collection: two listings
/// that start afresh and end complete hold the same records, whatever their
/// budgets and whichever hiccups came in between.
pub proof fn lemma_listing_is_repeatable<V>(
    backend: spec_fn(nat) -> Seq<V>,
    first: PagerState<V>,
    second: PagerState<V>,
    outcomes1: Seq<Result<Seq<V>, FetchError>>,
    outcomes2: Seq<Result<Seq<V>, FetchError>>,
)
    requires
        first.page == 1 && first.items.len() == 0,
        second.page == 1 && second.items.len() == 0,
        completes(backend, first, outcomes1) is Some,
        completes(backend, second, outcomes2) is Some,
    ensures
        completes(backend, first, outcomes1)->0.items.to_set() == completes(
            backend,
            second,
            outcomes2,
        )->0.items.to_set(),
{
    assert(first.items.to_set() =~= Set::<V>::empty());
    assert(second.items.to_set() =~= Set::<V>::empty());
    lemma_completes_in_step(backend, first, outcomes1);
    lemma_completes_in_step(backend, second, outcomes2);
    let a = completes(backend, first, outcomes1)->0;
    let b = completes(backend, second, outcomes2)->0;
    if a.page < b.page {
        assert(backend(a.page).len() > 0);
    }
    if b.page < a.page {
        assert(backend(b.page).len() > 0);
    }
}

} // verus!
