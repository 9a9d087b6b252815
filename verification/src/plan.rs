//! The run's decisions, separated from the I/O that carries them out:
//! whether to fetch at all, and what to do with the fetched response.

use vstd::prelude::*;
use crate::cache::Cache;
use crate::select::{get_wallpaper_for_date, get_wallpaper_latest, select_for_date};
use crate::wallpaper_response::Image;

verus! {

/// The error kinds of a run. Each ends the run with a failure status;
/// none is retried.
#[derive(PartialEq, Eq, Structural, Clone, Copy, Debug)]
pub enum RunError {
    /// A metadata or image GET failed to complete.
    NetworkError,
    /// The response body was empty or not JSON of the expected shape.
    ParseError,
    /// No image entry and no fallback entry was available.
    NoMatchError,
    /// The cache directory or the destination file could not be written.
    FilesystemError,
}

/// The outcome of the metadata fetch, as the I/O shell reports it.
pub enum FetchOutcome {
    /// Transport succeeded and the body parsed: the entries, newest first.
    Response(Vec<Image>),
    /// The GET failed to complete.
    NetworkFailure,
    /// The body was empty or did not parse.
    BadBody,
}

/// What a run does after the fetch step.
pub enum Action {
    /// Save the entry matching today's key under today's key, then evict
    /// yesterday's file.
    SaveToday { url: String },
    /// No entry matches today: save the newest entry under its own key,
    /// without evicting anything.
    SaveFallback { date: String, url: String },
    /// The newest entry's key is already cached: nothing to do.
    SkipFallbackCached,
    /// End the run with a failure of the given kind.
    Fail { error: RunError },
}

impl Action {
    /// Whether this plan reports a successful run. A save may still fail
    /// in the I/O that carries the plan out.
    pub fn is_success(&self) -> (r: bool)
        ensures
            r == !(self is Fail),
    {
        match self {
            Action::Fail { .. } => false,
            _ => true,
        }
    }

    /// Only a save under today's own key is followed by evicting
    /// yesterday's file.
    pub fn evicts_yesterday(&self) -> (r: bool)
        ensures
            r == (self is SaveToday),
    {
        match self {
            Action::SaveToday { .. } => true,
            _ => false,
        }
    }
}

/// Whether the run must fetch at all: when today's wallpaper is already
/// cached, the run skips every network call and succeeds.
pub fn needs_fetch(cache: &Cache, today: &String) -> (r: bool)
    ensures
        r == !cache@.contains(today@),
{
    !cache.has_wallpaper_for_date(today)
}

/// Decides what to do with the outcome of the metadata fetch.
pub fn plan_after_fetch(cache: &Cache, today: &String, fetch: &FetchOutcome) -> (a: Action)
    ensures
        fetch is NetworkFailure ==> (a matches Action::Fail { error } && error
            == RunError::NetworkError),
        fetch is BadBody ==> (a matches Action::Fail { error } && error == RunError::ParseError),
        fetch matches FetchOutcome::Response(imgs) ==> (select_for_date(imgs@, today@)
            matches Some(u) ==> (a matches Action::SaveToday { url } && url@ == u)),
        fetch matches FetchOutcome::Response(imgs) ==> (select_for_date(imgs@, today@) is None
            && imgs@.len() == 0 ==> (a matches Action::Fail { error } && error
            == RunError::NoMatchError)),
        fetch matches FetchOutcome::Response(imgs) ==> (select_for_date(imgs@, today@) is None
            && imgs@.len() > 0 && cache@.contains(imgs@[0].startdate@)
            ==> a is SkipFallbackCached),
        fetch matches FetchOutcome::Response(imgs) ==> (select_for_date(imgs@, today@) is None
            && imgs@.len() > 0 && !cache@.contains(imgs@[0].startdate@) ==> (
        a matches Action::SaveFallback { date, url } && date@ == imgs@[0].startdate@ && url@
            == imgs@[0].url@)),
{
    match fetch {
        FetchOutcome::NetworkFailure => Action::Fail { error: RunError::NetworkError },
        FetchOutcome::BadBody => Action::Fail { error: RunError::ParseError },
        FetchOutcome::Response(images) => match get_wallpaper_for_date(today, images) {
            Some(url) => Action::SaveToday { url },
            None => match get_wallpaper_latest(images) {
                None => Action::Fail { error: RunError::NoMatchError },
                Some((date, url)) => {
                    if cache.has_wallpaper_for_date(&date) {
                        Action::SkipFallbackCached
                    } else {
                        Action::SaveFallback { date, url }
                    }
                },
            },
        },
    }
}

/// Applies the cache bookkeeping of a carried-out action: a save records
/// the saved key, and only a save under today's own key also evicts
/// yesterday's file.
pub fn apply_action(cache: &mut Cache, a: &Action, today: &String, yesterday: &String)
    ensures
        a is SaveToday ==> final(cache)@ == old(cache)@.insert(today@).remove(yesterday@),
        a matches Action::SaveFallback { date, .. } ==> final(cache)@ == old(cache)@.insert(
            date@,
        ),
        a is SkipFallbackCached || a is Fail ==> final(cache)@ == old(cache)@,
{
    match a {
        Action::SaveToday { .. } => {
            cache.record_saved(today);
            cache.evict(yesterday);
        },
        Action::SaveFallback { date, .. } => {
            cache.record_saved(date);
        },
        _ => {
        },
    }
}

} // verus!
