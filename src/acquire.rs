use vstd::prelude::*;

use crate::payload::{has_current_time, is_json, parses_as_json, usable_forecast};

verus! {

/// Exit status of a run that found neither live data nor a usable cache.
pub const EXIT_ABORTED: i32 = 100;

/// Where the acquisition of one run's forecast stands.
#[derive(Clone, Debug, PartialEq, Eq)]
pub enum AcqState {
    Init,
    Fetching,
    /// A usable body came from the provider and is being written to the cache.
    Fetched { payload: String },
    FetchFailed,
    /// Terminal: the run goes on with this payload.
    Resolved { payload: String, from_cache: bool },
    /// Terminal: the run ends without a report.
    Aborted,
}

/// What the world reported back.
#[derive(Clone, Debug, PartialEq, Eq)]
pub enum Event {
    /// The run begins; in cache-only mode the provider is not asked.
    Start { cache_only: bool },
    /// The provider answered with `body`, or the request failed (`None`).
    FetchDone { body: Option<String> },
    /// The fetched payload was written to the cache file.
    CacheWritten,
    /// The cache file held `contents`, or there was none (`None`).
    CacheRead { contents: Option<String> },
}

/// What the caller is to do next.
#[derive(Clone, Debug, PartialEq, Eq)]
pub enum Action {
    /// Ask the provider for the forecast, once.
    Fetch,
    /// Overwrite the cache file with exactly this payload.
    WriteCache { payload: String },
    /// Read the cache file; `fallback` when this follows a failed fetch.
    ReadCache { fallback: bool },
    /// Hand this payload to rendering and history.
    Deliver { payload: String },
    /// Stop the process with this status (after saving the configuration).
    Exit { code: i32 },
    /// The event does not apply in this state; nothing changes.
    Ignore,
}

/// The next state and action, where `usable` is the verdict on the text the event
/// carries: for a fetched body, that it is a forecast with a current time; for the
/// cache, that it is JSON.
pub open spec fn transition(s: AcqState, e: Event, usable: bool) -> (AcqState, Action) {
    match (s, e) {
        (AcqState::Init, Event::Start { cache_only }) => if cache_only {
            (AcqState::Init, Action::ReadCache { fallback: false })
        } else {
            (AcqState::Fetching, Action::Fetch)
        },
        (AcqState::Fetching, Event::FetchDone { body }) => match body {
            Some(b) if usable => (AcqState::Fetched { payload: b }, Action::WriteCache { payload: b }),
            _ => (AcqState::FetchFailed, Action::ReadCache { fallback: true }),
        },
        (AcqState::Fetched { payload }, Event::CacheWritten) => (
            AcqState::Resolved { payload, from_cache: false },
            Action::Deliver { payload },
        ),
        (AcqState::Init, Event::CacheRead { contents }) | (
            AcqState::FetchFailed,
            Event::CacheRead { contents },
        ) => match contents {
            Some(t) if usable => (
                AcqState::Resolved { payload: t, from_cache: true },
                Action::Deliver { payload: t },
            ),
            _ => (AcqState::Aborted, Action::Exit { code: EXIT_ABORTED }),
        },
        (s, _) => (s, Action::Ignore),
    }
}

fn copy_state(s: &AcqState) -> (r: AcqState)
    ensures
        r == *s,
{
    match s {
        AcqState::Init => AcqState::Init,
        AcqState::Fetching => AcqState::Fetching,
        AcqState::Fetched { payload } => AcqState::Fetched { payload: payload.clone() },
        AcqState::FetchFailed => AcqState::FetchFailed,
        AcqState::Resolved { payload, from_cache } => AcqState::Resolved {
            payload: payload.clone(),
            from_cache: *from_cache,
        },
        AcqState::Aborted => AcqState::Aborted,
    }
}

/// One step of the acquisition, given the verdict `usable` on the event's text
/// (see `transition`).
pub fn next_state(s: &AcqState, e: &Event, usable: bool) -> (r: (AcqState, Action))
    ensures
        r == transition(*s, *e, usable),
{
    match (s, e) {
        (AcqState::Init, Event::Start { cache_only }) => {
            if *cache_only {
                (AcqState::Init, Action::ReadCache { fallback: false })
            } else {
                (AcqState::Fetching, Action::Fetch)
            }
        },
        (AcqState::Fetching, Event::FetchDone { body }) => match body {
            Some(b) if usable => (
                AcqState::Fetched { payload: b.clone() },
                Action::WriteCache { payload: b.clone() },
            ),
            _ => (AcqState::FetchFailed, Action::ReadCache { fallback: true }),
        },
        (AcqState::Fetched { payload }, Event::CacheWritten) => (
            AcqState::Resolved { payload: payload.clone(), from_cache: false },
            Action::Deliver { payload: payload.clone() },
        ),
        (AcqState::Init, Event::CacheRead { contents })
        | (AcqState::FetchFailed, Event::CacheRead { contents }) => match contents {
            Some(t) if usable => (
                AcqState::Resolved { payload: t.clone(), from_cache: true },
                Action::Deliver { payload: t.clone() },
            ),
            _ => (AcqState::Aborted, Action::Exit { code: EXIT_ABORTED }),
        },
        _ => (copy_state(s), Action::Ignore),
    }
}

/// The verdict on the text an event carries: a fetched body must be a usable forecast,
/// a cached text must be JSON; an event without text gets `false`.
pub open spec fn verdict(e: Event) -> bool {
    match e {
        Event::FetchDone { body: Some(b) } => usable_forecast(b@),
        Event::CacheRead { contents: Some(t) } => parses_as_json(t@),
        _ => false,
    }
}

/// One step of the acquisition. A fetched body is used exactly when it is JSON whose
/// current reading has a non-null time; a cached text is used exactly when it is JSON.
pub fn step(s: &AcqState, e: &Event) -> (r: (AcqState, Action))
    ensures
        r == transition(*s, *e, verdict(*e)),
{
    let usable = match e {
        Event::FetchDone { body: Some(b) } => has_current_time(b.as_str()),
        Event::CacheRead { contents: Some(t) } => is_json(t.as_str()),
        _ => false,
    };
    next_state(s, e, usable)
}

/// After a failed fetch (no answer, or an answer that is not a usable forecast) the
/// cache is read as a fallback, and a cache that holds JSON resolves the run with
/// exactly the cached text.
pub proof fn lemma_failed_fetch_uses_cache(body: Option<String>, cache: String)
    requires
        match body {
            Some(b) => !usable_forecast(b@),
            None => true,
        },
        parses_as_json(cache@),
    ensures
        ({
            let fetched = Event::FetchDone { body };
            let read = Event::CacheRead { contents: Some(cache) };
            &&& transition(AcqState::Fetching, fetched, verdict(fetched)) == (
                AcqState::FetchFailed,
                Action::ReadCache { fallback: true },
            )
            &&& transition(AcqState::FetchFailed, read, verdict(read)) == (
                AcqState::Resolved { payload: cache, from_cache: true },
                Action::Deliver { payload: cache },
            )
        }),
{
}

/// After a failed fetch, a missing or unreadable cache aborts the run with its own exit
/// status.
pub proof fn lemma_failed_fetch_without_cache_aborts(
    body: Option<String>,
    fetch_usable: bool,
    contents: Option<String>,
    cache_usable: bool,
)
    requires
        body is None || !fetch_usable,
        contents is None || !cache_usable,
    ensures
        ({
            let (s1, _a1) = transition(AcqState::Fetching, Event::FetchDone { body }, fetch_usable);
            transition(s1, Event::CacheRead { contents }, cache_usable) == (
                AcqState::Aborted,
                Action::Exit { code: EXIT_ABORTED },
            )
        }),
        EXIT_ABORTED != 0,
{
}

/// A fetched body that is a usable forecast is written to the cache exactly as it
/// came, and the run goes on with that same text.
pub proof fn lemma_fetched_body_cached_verbatim(b: String)
    requires
        usable_forecast(b@),
    ensures
        ({
            let fetched = Event::FetchDone { body: Some(b) };
            &&& transition(AcqState::Fetching, fetched, verdict(fetched)) == (
                AcqState::Fetched { payload: b },
                Action::WriteCache { payload: b },
            )
            &&& transition(AcqState::Fetched { payload: b }, Event::CacheWritten, verdict(
                Event::CacheWritten,
            )) == (
                AcqState::Resolved { payload: b, from_cache: false },
                Action::Deliver { payload: b },
            )
        }),
{
}

/// The cache is only ever written with a body that the provider just sent and that was
/// judged usable: a failed fetch never touches it.
pub proof fn lemma_cache_written_only_after_good_fetch(s: AcqState, e: Event, usable: bool, p: String)
    requires
        transition(s, e, usable).1 == (Action::WriteCache { payload: p }),
    ensures
        s == AcqState::Fetching,
        e == (Event::FetchDone { body: Some(p) }),
        usable,
{
}

/// A resolved or aborted acquisition stays as it is, whatever happens next.
pub proof fn lemma_terminal_states_stay(s: AcqState, e: Event, usable: bool)
    requires
        s is Resolved || s is Aborted,
    ensures
        transition(s, e, usable) == (s, Action::Ignore),
{
}

} // verus!
