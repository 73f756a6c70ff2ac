//! Interface-thread presentation state: the visible article list and the
//! user's configuration. Only the interface thread touches these values; the
//! worker hands outcomes over through the coordinator, and each tick drains
//! them and folds them into the visible list.

use vstd::prelude::*;

use crate::coordinator::{FetchOutcome, RefreshCoordinator};
use crate::newsapi::FetchError;

verus! {

/// One article as displayed: a plain record of owned strings.
#[derive(Debug)]
pub struct NewsCardData {
    pub title: String,
    pub desc: String,
    pub url: String,
    pub source: String,
}

/// The user's configuration; owned and mutated by the interface thread only.
#[derive(Clone, Copy, Debug, PartialEq, Eq, Structural)]
pub struct HeadlinesConfig {
    pub dark_mode: bool,
}

impl Default for HeadlinesConfig {
    /// Absent any stored configuration, the light theme.
    fn default() -> (c: HeadlinesConfig)
        ensures
            !c.dark_mode,
    {
        HeadlinesConfig { dark_mode: false }
    }
}

/// What one outcome does to the visible list: a success replaces it
/// wholesale; a failure leaves it untouched.
pub open spec fn apply_one(articles: Seq<NewsCardData>, outcome: FetchOutcome) -> Seq<
    NewsCardData,
> {
    match outcome {
        FetchOutcome::Success(records) => records@,
        FetchOutcome::Failure(_) => articles,
    }
}

/// The visible list after folding a sequence of outcomes over it, oldest
/// outcome first.
pub open spec fn applied(articles: Seq<NewsCardData>, outcomes: Seq<FetchOutcome>) -> Seq<
    NewsCardData,
>
    decreases outcomes.len(),
{
    if outcomes.len() == 0 {
        articles
    } else {
        apply_one(applied(articles, outcomes.drop_last()), outcomes.last())
    }
}

/// The errors a sequence of outcomes surfaces, in delivery order.
pub open spec fn failures_of(outcomes: Seq<FetchOutcome>) -> Seq<FetchError>
    decreases outcomes.len(),
{
    if outcomes.len() == 0 {
        Seq::empty()
    } else {
        failures_of(outcomes.drop_last()) + (match outcomes.last() {
            FetchOutcome::Failure(e) => seq![e],
            FetchOutcome::Success(_) => Seq::empty(),
        })
    }
}

/// The interface-thread state: the visible article list and the user's
/// configuration. The list is exclusively owned here — the worker never
/// touches it — and is either empty (the loading state) or stands for the
/// last completed fetch.
pub struct Headlines {
    /// The visible article list, in fetch-response order.
    pub articles: Vec<NewsCardData>,
    /// The user's configuration.
    pub config: HeadlinesConfig,
}

impl Headlines {
    /// A fresh presentation state: empty list, default configuration.
    pub fn new() -> (h: Headlines)
        ensures
            h.articles@ == Seq::<NewsCardData>::empty(),
            !h.config.dark_mode,
    {
        Headlines { articles: Vec::new(), config: HeadlinesConfig { dark_mode: false } }
    }

    /// Fold one fetch outcome into the view. A success fully replaces the
    /// visible list — no record of a prior cycle survives beside the new
    /// ones; a failure leaves the list exactly as it was and is handed back
    /// to be surfaced to the logging collaborator.
    pub fn apply_outcome(&mut self, outcome: FetchOutcome) -> (surfaced: Option<FetchError>)
        ensures
            final(self).articles@ == apply_one(old(self).articles@, outcome),
            outcome matches FetchOutcome::Success(records) ==> final(self).articles@ == records@
                && surfaced is None,
            outcome matches FetchOutcome::Failure(e) ==> final(self).articles@ == old(
                self,
            ).articles@ && surfaced == Some(e),
            final(self).config == old(self).config,
    {
        match outcome {
            FetchOutcome::Success(records) => {
                self.articles = records;
                None
            },
            FetchOutcome::Failure(e) => Some(e),
        }
    }

    /// One interface tick: drain every outcome accumulated since the last
    /// tick, in completion order, and fold each into the view; the errors to
    /// surface come back in the same order. Never blocks.
    pub fn preload_articles(&mut self, coord: &mut RefreshCoordinator) -> (surfaced: Vec<
        FetchError,
    >)
        ensures
            final(self).articles@ == applied(old(self).articles@, old(coord)@.results),
            surfaced@ == failures_of(old(coord)@.results),
            final(self).config == old(self).config,
            final(coord)@ == old(coord)@.drained(),
    {
        let mut outcomes = coord.drain_results();
        let ghost all: Seq<FetchOutcome> = outcomes@;
        let ghost done: Seq<FetchOutcome> = Seq::empty();
        let mut surfaced: Vec<FetchError> = Vec::new();
        proof {
            assert(all =~= done + outcomes@);
        }
        while outcomes.len() > 0
            invariant
                all == done + outcomes@,
                self.articles@ == applied(old(self).articles@, done),
                surfaced@ == failures_of(done),
                self.config == old(self).config,
            decreases outcomes.len(),
        {
            let outcome = outcomes.remove(0);
            match self.apply_outcome(outcome) {
                Some(e) => surfaced.push(e),
                None => {},
            }
            proof {
                assert(done.push(outcome).drop_last() =~= done);
                assert(all =~= done.push(outcome) + outcomes@);
                done = done.push(outcome);
            }
        }
        proof {
            assert(done =~= all);
        }
        surfaced
    }

    /// The user asked for a refresh: show the loading state at once and
    /// request one fetch; requests coalesce in the coordinator.
    pub fn refresh_action(&mut self, coord: &mut RefreshCoordinator)
        ensures
            final(self).articles@ == Seq::<NewsCardData>::empty(),
            final(self).config == old(self).config,
            final(coord)@ == old(coord)@.refreshed(),
    {
        self.articles = Vec::new();
        coord.request_refresh();
    }

    /// The user toggled the theme: flip the flag synchronously; the worker
    /// never reads it, so no coordination is needed.
    pub fn toggle_theme(&mut self)
        ensures
            final(self).config.dark_mode == !old(self).config.dark_mode,
            final(self).articles@ == old(self).articles@,
    {
        self.config.dark_mode = !self.config.dark_mode;
    }

    /// Startup: issue the one unconditional initial refresh request.
    pub fn on_start(&mut self, coord: &mut RefreshCoordinator)
        ensures
            *final(self) == *old(self),
            final(coord)@ == old(coord)@.refreshed(),
    {
        coord.request_refresh();
    }
}

} // verus!
