use vstd::prelude::*;

use crate::uri::{append_crumb, crumb_appended, outcome_view};
use crate::yahoo_error::{YahooError, YahooErrorView};

verus! {

/// Number of seconds for which a crumb is trusted after it was obtained. The
/// service does not say how long a crumb lasts.
pub const CRUMB_TTL_SECS: u64 = 86400;

/// The last second at which a crumb obtained at `now` is trusted. Time is
/// counted in seconds of a clock that never runs backwards.
pub open spec fn expiry_after(now: u64) -> u64 {
    if now + CRUMB_TTL_SECS <= u64::MAX {
        (now + CRUMB_TTL_SECS) as u64
    } else {
        u64::MAX
    }
}

/// A crumb and the last second at which it is trusted.
#[derive(Debug)]
pub struct CrumbData {
    pub value: String,
    pub expires_at: u64,
}

/// [`CrumbData`] as specifications see it.
pub struct CrumbDataView {
    pub value: Seq<char>,
    pub expires_at: u64,
}

impl View for CrumbData {
    type V = CrumbDataView;

    open spec fn view(&self) -> CrumbDataView {
        CrumbDataView { value: self.value@, expires_at: self.expires_at }
    }
}

/// The cache of the one crumb that all requests share. It holds a crumb or
/// nothing; a failure is never kept.
#[derive(Debug)]
pub struct Crumb {
    data: Option<CrumbData>,
}

impl View for Crumb {
    type V = Option<CrumbDataView>;

    closed spec fn view(&self) -> Option<CrumbDataView> {
        match self.data {
            Some(data) => Some(data@),
            None => None,
        }
    }
}

/// The crumb that `cache` offers at `now`: the one it holds, unless its time
/// has passed.
pub open spec fn fresh_at(cache: Option<CrumbDataView>, now: u64) -> Option<Seq<char>> {
    match cache {
        Some(data) => if now <= data.expires_at {
            Some(data.value)
        } else {
            None
        },
        None => None,
    }
}

/// What a caller reports to the cache.
#[derive(Debug)]
pub enum CacheEvent {
    /// The caller consults the cache at `now`, together with other readers.
    Arrived { now: u64 },
    /// The caller has the cache to itself, at `now`.
    Locked { now: u64 },
    /// The acquisition that the caller ran has ended at `now` with `crumb`.
    Acquired { crumb: String, now: u64 },
    /// The acquisition that the caller ran has failed.
    Failed(YahooError),
}

/// A [`CacheEvent`] as specifications see it.
pub enum CacheEventView {
    Arrived { now: u64 },
    Locked { now: u64 },
    Acquired { crumb: Seq<char>, now: u64 },
    Failed(YahooErrorView),
}

impl View for CacheEvent {
    type V = CacheEventView;

    open spec fn view(&self) -> CacheEventView {
        match self {
            CacheEvent::Arrived { now } => CacheEventView::Arrived { now: *now },
            CacheEvent::Locked { now } => CacheEventView::Locked { now: *now },
            CacheEvent::Acquired { crumb, now } => CacheEventView::Acquired {
                crumb: crumb@,
                now: *now,
            },
            CacheEvent::Failed(error) => CacheEventView::Failed(error@),
        }
    }
}

/// What the cache tells a caller to do.
#[derive(Debug)]
pub enum CacheAction {
    /// Use this crumb.
    Use(String),
    /// Wait for the cache to be yours alone, then report [`CacheEvent::Locked`].
    Lock,
    /// Run an acquisition, keeping the cache to yourself, and report how it ended.
    Acquire,
    /// Give up with this error.
    Fail(YahooError),
}

/// A [`CacheAction`] as specifications see it.
pub enum CacheActionView {
    Use(Seq<char>),
    Lock,
    Acquire,
    Fail(YahooErrorView),
}

impl View for CacheAction {
    type V = CacheActionView;

    open spec fn view(&self) -> CacheActionView {
        match self {
            CacheAction::Use(crumb) => CacheActionView::Use(crumb@),
            CacheAction::Lock => CacheActionView::Lock,
            CacheAction::Acquire => CacheActionView::Acquire,
            CacheAction::Fail(error) => CacheActionView::Fail(error@),
        }
    }
}

/// The cache's rule: what becomes of `cache`, and what the caller is told,
/// when `event` arrives.
///
/// A fresh crumb is used at once. Without one a reader is sent for the
/// exclusive section, and whoever holds that section and still finds no fresh
/// crumb is sent to acquire one. A crumb that was acquired is kept for
/// [`CRUMB_TTL_SECS`] seconds; a failure empties the cache.
pub open spec fn cache_step(cache: Option<CrumbDataView>, event: CacheEventView) -> (
    Option<CrumbDataView>,
    CacheActionView,
) {
    match event {
        CacheEventView::Arrived { now } => match fresh_at(cache, now) {
            Some(crumb) => (cache, CacheActionView::Use(crumb)),
            None => (cache, CacheActionView::Lock),
        },
        CacheEventView::Locked { now } => match fresh_at(cache, now) {
            Some(crumb) => (cache, CacheActionView::Use(crumb)),
            None => (cache, CacheActionView::Acquire),
        },
        CacheEventView::Acquired { crumb, now } => (
            Some(CrumbDataView { value: crumb, expires_at: expiry_after(now) }),
            CacheActionView::Use(crumb),
        ),
        CacheEventView::Failed(error) => (None, CacheActionView::Fail(error)),
    }
}

impl Crumb {
    /// An empty cache.
    pub fn new() -> (cache: Crumb)
        ensures
            cache@ is None,
    {
        Crumb { data: None }
    }

    /// The crumb that the cache offers at `now`, if it has a fresh one.
    pub fn fresh(&self, now: u64) -> (crumb: Option<String>)
        ensures
            crumb.deep_view() == fresh_at(self@, now),
    {
        match &self.data {
            Some(data) => {
                if now <= data.expires_at {
                    Some(data.value.clone())
                } else {
                    None
                }
            },
            None => None,
        }
    }

    /// Answers a caller that consults the cache together with other readers:
    /// the cache stays as it is.
    pub fn consult(&self, now: u64) -> (action: CacheAction)
        ensures
            action@ == cache_step(self@, CacheEventView::Arrived { now }).1,
    {
        match self.fresh(now) {
            Some(crumb) => CacheAction::Use(crumb),
            None => CacheAction::Lock,
        }
    }

    /// Takes the report `event` of the caller that holds the cache and says
    /// what to do next.
    pub fn step(&mut self, event: CacheEvent) -> (action: CacheAction)
        ensures
            (final(self)@, action@) == cache_step(old(self)@, event@),
    {
        match event {
            CacheEvent::Arrived { now } => self.consult(now),
            CacheEvent::Locked { now } => match self.fresh(now) {
                Some(crumb) => CacheAction::Use(crumb),
                None => CacheAction::Acquire,
            },
            CacheEvent::Acquired { crumb, now } => {
                let expires_at = now.saturating_add(CRUMB_TTL_SECS);
                self.data = Some(CrumbData { value: crumb.clone(), expires_at });
                CacheAction::Use(crumb)
            },
            CacheEvent::Failed(error) => {
                self.data = None;
                CacheAction::Fail(error)
            },
        }
    }

    /// The URL `url` with the cached crumb added to its query, or `None`
    /// where the cache offers no fresh crumb at `now`.
    pub fn enrich(&self, url: &str, now: u64) -> (enriched: Option<Result<String, YahooError>>)
        ensures
            match fresh_at(self@, now) {
                Some(crumb) => enriched is Some && outcome_view(enriched->0) == crumb_appended(
                    url@,
                    crumb,
                ),
                None => enriched is None,
            },
    {
        match self.fresh(now) {
            Some(crumb) => Some(append_crumb(url, crumb.as_str())),
            None => None,
        }
    }
}

/// A fresh crumb is used at once, by a reader as by the holder of the cache,
/// and the cache stays as it is.
pub proof fn lemma_fresh_crumb_is_used(cache: Option<CrumbDataView>, now: u64)
    requires
        cache is Some,
        now <= cache->0.expires_at,
    ensures
        cache_step(cache, CacheEventView::Arrived { now }) == (
            cache,
            CacheActionView::Use(cache->0.value),
        ),
        cache_step(cache, CacheEventView::Locked { now }) == (
            cache,
            CacheActionView::Use(cache->0.value),
        ),
{
}

/// A crumb that was acquired at `now` is fresh from then on for
/// [`CRUMB_TTL_SECS`] seconds, or to the end of time where the clock would
/// run out before.
pub proof fn lemma_acquired_crumb_is_kept(
    cache: Option<CrumbDataView>,
    crumb: Seq<char>,
    now: u64,
    later: u64,
)
    requires
        now <= later,
        later - now <= CRUMB_TTL_SECS,
    ensures
        fresh_at(cache_step(cache, CacheEventView::Acquired { crumb, now }).0, later) == Some(
            crumb,
        ),
{
}

/// A crumb whose time has passed is not used again: the reader is sent for
/// the exclusive section, and whoever holds it is sent to acquire.
pub proof fn lemma_expired_is_refreshed(cache: Option<CrumbDataView>, now: u64)
    requires
        cache is Some,
        cache->0.expires_at < now,
    ensures
        cache_step(cache, CacheEventView::Arrived { now }).1 == CacheActionView::Lock,
        cache_step(cache, CacheEventView::Locked { now }).1 == CacheActionView::Acquire,
{
}

/// A failure is not remembered: after a failed acquisition the cache is
/// empty, whatever it held, and the next caller to hold it is sent to acquire
/// at any time.
pub proof fn lemma_failure_is_not_kept(cache: Option<CrumbDataView>, error: YahooErrorView, later: u64)
    ensures
        cache_step(cache, CacheEventView::Failed(error)) == (
            None::<CrumbDataView>,
            CacheActionView::Fail(error),
        ),
        cache_step(None, CacheEventView::Arrived { now: later }).1 == CacheActionView::Lock,
        cache_step(None, CacheEventView::Locked { now: later }).1 == CacheActionView::Acquire,
{
}

} // verus!
