use vstd::prelude::*;
use vstd::string::*;

verus! {

/// Where the podcast feed is fetched from.
pub fn feed_url() -> (r: String)
    ensures
        r@ == "https://feeds.simplecast.com/qm_9xx0g"@,
{
    String::from_str("https://feeds.simplecast.com/qm_9xx0g")
}

/// What a caller that wants the feed must do next.
#[derive(Debug, PartialEq, Eq, Structural)]
pub enum FeedStep {
    /// The cache holds the feed: read it with `cached`.
    UseCached,
    /// The cache is empty: fetch `feed_url()`, parse it and hand it to `store`.
    Fetch,
}

/// The one slot that holds the feed for the application's lifetime.
/// It is filled at most once and never invalidated.
pub struct FeedCache<T> {
    slot: Option<T>,
}

impl<T> FeedCache<T> {
    pub closed spec fn view(&self) -> Option<T> {
        self.slot
    }

    pub open spec fn step_spec(&self) -> FeedStep {
        step_for(self@)
    }

    /// The slot's contents once `feed` has been offered to it: the first feed stays.
    pub open spec fn stored_spec(self, feed: T) -> Option<T> {
        if self@ is Some {
            self@
        } else {
            Some(feed)
        }
    }

    pub fn new() -> (r: FeedCache<T>)
        ensures
            r@ is None,
    {
        FeedCache { slot: None }
    }

    pub fn next_step(&self) -> (r: FeedStep)
        ensures
            r == self.step_spec(),
    {
        match &self.slot {
            Some(_) => FeedStep::UseCached,
            None => FeedStep::Fetch,
        }
    }

    pub fn cached(&self) -> (r: Option<&T>)
        ensures
            match r {
                Some(f) => self@ == Some(*f),
                None => self@ is None,
            },
    {
        match &self.slot {
            Some(f) => Some(f),
            None => None,
        }
    }

    /// Offers a freshly fetched feed; the slot keeps what it already holds.
    pub fn store(&mut self, feed: T)
        ensures
            final(self)@ == old(self).stored_spec(feed),
    {
        if self.slot.is_none() {
            self.slot = Some(feed);
        }
    }
}

/// What a request for the feed does when the slot holds `slot`.
pub open spec fn step_for<T>(slot: Option<T>) -> FeedStep {
    if slot is Some {
        FeedStep::UseCached
    } else {
        FeedStep::Fetch
    }
}

/// The slot's contents after each feed of `feeds` has been offered in turn.
pub open spec fn after_stores<T>(start: Option<T>, feeds: Seq<T>) -> Option<T>
    decreases feeds.len(),
{
    if feeds.len() == 0 {
        start
    } else {
        let next = if start is Some { start } else { Some(feeds[0]) };
        after_stores(next, feeds.drop_first())
    }
}

/// An empty cache asks for one fetch; once that feed is stored, every later
/// request is served from the cache, and no later feed replaces it.
pub proof fn lemma_feed_fetched_once<T>(cache: FeedCache<T>, first: T, later: Seq<T>)
    requires
        cache@ is None,
    ensures
        cache.step_spec() == FeedStep::Fetch,
        cache.stored_spec(first) == Some(first),
        after_stores(cache.stored_spec(first), later) == Some(first),
        forall|n: int|
            0 <= n <= later.len() ==> step_for(#[trigger] after_stores(cache.stored_spec(first), later.take(n)))
                == FeedStep::UseCached,
{
    assert forall|n: int| 0 <= n <= later.len() implies step_for(
        #[trigger] after_stores(cache.stored_spec(first), later.take(n)),
    ) == FeedStep::UseCached by {
        lemma_full_slot_kept(first, later.take(n));
    }
    lemma_full_slot_kept(first, later);
}

/// A filled slot keeps its contents whatever is offered after.
pub proof fn lemma_full_slot_kept<T>(feed: T, later: Seq<T>)
    ensures
        after_stores(Some(feed), later) == Some(feed),
    decreases later.len(),
{
    if later.len() > 0 {
        lemma_full_slot_kept(feed, later.drop_first());
    }
}

} // verus!
