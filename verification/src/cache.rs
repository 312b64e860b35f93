//! Cache-aside: what to ask of the cache, and when to compute instead. The
//! functions here decide; the caller talks to the cache and runs the
//! computation, and reports what came of it.
use crate::text::text_of;
use vstd::prelude::*;

verus! {

/// Where a cache-aside run stands.
#[derive(Clone, Copy, Debug, PartialEq, Eq, Structural)]
pub enum Stage {
    /// Nothing has been asked yet.
    Start,
    /// The cache has been asked whether it holds the key.
    Checking,
    /// The cache has been asked for the value.
    Fetching,
    /// The caller is computing the value.
    Computing,
    /// The value has been handed out.
    Done,
}

/// What the caller reports to a cache-aside run.
#[derive(Debug, PartialEq, Eq)]
pub enum CacheEvent {
    /// The run begins.
    Begin,
    /// The answer to the existence check; `None` where the cache failed.
    Exists(Option<bool>),
    /// The value that was fetched; `None` where the cache has none or failed.
    Fetched(Option<String>),
    /// The value that the computation returned.
    Computed(String),
}

/// The mathematical value of a [`CacheEvent`].
pub enum CacheEventView {
    Begin,
    Exists(Option<bool>),
    Fetched(Option<Seq<char>>),
    Computed(Seq<char>),
}

impl View for CacheEvent {
    type V = CacheEventView;

    open spec fn view(&self) -> CacheEventView {
        match self {
            CacheEvent::Begin => CacheEventView::Begin,
            CacheEvent::Exists(answer) => CacheEventView::Exists(*answer),
            CacheEvent::Fetched(Some(value)) => CacheEventView::Fetched(Some(value@)),
            CacheEvent::Fetched(None) => CacheEventView::Fetched(None),
            CacheEvent::Computed(value) => CacheEventView::Computed(value@),
        }
    }
}

/// What a cache-aside run asks of its caller.
#[derive(Debug, PartialEq, Eq)]
pub enum CacheAction {
    /// Ask the cache whether it holds `key`.
    CheckExists { key: String },
    /// Ask the cache for the value of `key`.
    Fetch { key: String },
    /// Compute the value. The computation writes it to the cache under `key`
    /// itself, for no longer than `ttl_secs`; the run does not write.
    Compute { key: String, ttl_secs: usize },
    /// The run is over, and this is its value.
    Return { value: String },
    /// The event answers nothing that the run has asked; nothing changes.
    Refuse,
}

/// The mathematical value of a [`CacheAction`].
pub enum CacheActionView {
    CheckExists { key: Seq<char> },
    Fetch { key: Seq<char> },
    Compute { key: Seq<char>, ttl_secs: usize },
    Return { value: Seq<char> },
    Refuse,
}

impl View for CacheAction {
    type V = CacheActionView;

    open spec fn view(&self) -> CacheActionView {
        match self {
            CacheAction::CheckExists { key } => CacheActionView::CheckExists { key: key@ },
            CacheAction::Fetch { key } => CacheActionView::Fetch { key: key@ },
            CacheAction::Compute { key, ttl_secs } => CacheActionView::Compute {
                key: key@,
                ttl_secs: *ttl_secs,
            },
            CacheAction::Return { value } => CacheActionView::Return { value: value@ },
            CacheAction::Refuse => CacheActionView::Refuse,
        }
    }
}

/// A command that writes to the cache.
#[derive(Debug, PartialEq, Eq)]
pub enum CacheWrite {
    /// Store `value` under `key` until it is overwritten.
    Store { key: String, value: String },
    /// Store `value` under `key` for `seconds` seconds.
    StoreFor { key: String, value: String, seconds: u64 },
}

/// The mathematical value of a [`CacheWrite`].
pub enum CacheWriteView {
    Store { key: Seq<char>, value: Seq<char> },
    StoreFor { key: Seq<char>, value: Seq<char>, seconds: u64 },
}

impl View for CacheWrite {
    type V = CacheWriteView;

    open spec fn view(&self) -> CacheWriteView {
        match self {
            CacheWrite::Store { key, value } => CacheWriteView::Store { key: key@, value: value@ },
            CacheWrite::StoreFor { key, value, seconds } => CacheWriteView::StoreFor {
                key: key@,
                value: value@,
                seconds: *seconds,
            },
        }
    }
}

/// Whether the cache holds a key, as an answer to the existence check says: a
/// cache that failed counts as one that does not hold it.
pub open spec fn holds(answer: Option<bool>) -> bool {
    answer == Some(true)
}

/// The value that a fetch gives: the stored string, or the empty string where
/// the cache has none.
pub open spec fn fetched_value(reply: Option<Seq<char>>) -> Seq<char> {
    match reply {
        Some(value) => value,
        None => Seq::empty(),
    }
}

/// The write for a value with an optional time to live.
pub open spec fn write_command(key: Seq<char>, value: Seq<char>, ttl: Option<usize>) -> CacheWriteView {
    match ttl {
        Some(secs) => CacheWriteView::StoreFor { key, value, seconds: secs as u64 },
        None => CacheWriteView::Store { key, value },
    }
}

/// One step of a cache-aside run for `key`: the stage after `event`, and what
/// the caller is to do next. A run checks first; on a hit it fetches and
/// returns what it got; on a miss it has the value computed and returns that.
pub open spec fn cache_aside_step(
    key: Seq<char>,
    ttl_secs: usize,
    stage: Stage,
    event: CacheEventView,
) -> (Stage, CacheActionView) {
    match (stage, event) {
        (Stage::Start, CacheEventView::Begin) => (
            Stage::Checking,
            CacheActionView::CheckExists { key },
        ),
        (Stage::Checking, CacheEventView::Exists(answer)) => if holds(answer) {
            (Stage::Fetching, CacheActionView::Fetch { key })
        } else {
            (Stage::Computing, CacheActionView::Compute { key, ttl_secs })
        },
        (Stage::Fetching, CacheEventView::Fetched(reply)) => (
            Stage::Done,
            CacheActionView::Return { value: fetched_value(reply) },
        ),
        (Stage::Computing, CacheEventView::Computed(value)) => (
            Stage::Done,
            CacheActionView::Return { value },
        ),
        _ => (stage, CacheActionView::Refuse),
    }
}

/// A run that finds its key in the cache returns what it fetches, or the
/// empty string where the entry is gone by then, and computes nothing.
pub proof fn lemma_hit_returns_what_is_stored(
    key: Seq<char>,
    ttl_secs: usize,
    stored: Option<Seq<char>>,
)
    ensures
        ({
            let first = cache_aside_step(key, ttl_secs, Stage::Start, CacheEventView::Begin);
            let second = cache_aside_step(
                key,
                ttl_secs,
                first.0,
                CacheEventView::Exists(Some(true)),
            );
            let third = cache_aside_step(key, ttl_secs, second.0, CacheEventView::Fetched(stored));
            &&& first.1 == CacheActionView::CheckExists { key }
            &&& second.1 == CacheActionView::Fetch { key }
            &&& third == (Stage::Done, CacheActionView::Return { value: fetched_value(stored) })
        }),
{
}

/// A run that does not find its key in the cache, or cannot ask, has the
/// value computed and returns it as it is; it asks for no write.
pub proof fn lemma_miss_returns_what_is_computed(
    key: Seq<char>,
    ttl_secs: usize,
    answer: Option<bool>,
    value: Seq<char>,
)
    requires
        answer != Some(true),
    ensures
        ({
            let first = cache_aside_step(key, ttl_secs, Stage::Start, CacheEventView::Begin);
            let second = cache_aside_step(key, ttl_secs, first.0, CacheEventView::Exists(answer));
            let third = cache_aside_step(key, ttl_secs, second.0, CacheEventView::Computed(value));
            &&& first.1 == CacheActionView::CheckExists { key }
            &&& second.1 == CacheActionView::Compute { key, ttl_secs }
            &&& third == (Stage::Done, CacheActionView::Return { value })
        }),
{
}

/// Reads the answer to an existence check: a failed check is a miss.
pub fn has_cache(answer: Option<bool>) -> (hit: bool)
    ensures
        hit == holds(answer),
{
    match answer {
        Some(b) => b,
        None => false,
    }
}

/// Reads what a fetch returned: a missing value is the empty string.
pub fn get_cache(reply: Option<String>) -> (value: String)
    ensures
        value@ == fetched_value(text_of(reply)),
{
    match reply {
        Some(value) => value,
        None => String::new(),
    }
}

/// Chooses the write for `val` under `key`: one that expires after `ttl`
/// seconds where a time to live is given, one that does not where none is.
pub fn set_cache(key: &str, val: &str, ttl: Option<usize>) -> (command: CacheWrite)
    ensures
        command@ == write_command(key@, val@, ttl),
{
    match ttl {
        Some(secs) => CacheWrite::StoreFor {
            key: key.to_owned(),
            value: val.to_owned(),
            seconds: secs as u64,
        },
        None => CacheWrite::Store { key: key.to_owned(), value: val.to_owned() },
    }
}

/// One step of a cache-aside run for `key`: takes what the caller reports and
/// says what to do next.
pub fn async_cache_as_json(key: &str, ttl_secs: usize, stage: Stage, event: CacheEvent) -> (next: (
    Stage,
    CacheAction,
))
    ensures
        (next.0, next.1@) == cache_aside_step(key@, ttl_secs, stage, event@),
{
    match (stage, event) {
        (Stage::Start, CacheEvent::Begin) => (
            Stage::Checking,
            CacheAction::CheckExists { key: key.to_owned() },
        ),
        (Stage::Checking, CacheEvent::Exists(answer)) => {
            if has_cache(answer) {
                (Stage::Fetching, CacheAction::Fetch { key: key.to_owned() })
            } else {
                (Stage::Computing, CacheAction::Compute { key: key.to_owned(), ttl_secs })
            }
        },
        (Stage::Fetching, CacheEvent::Fetched(reply)) => (
            Stage::Done,
            CacheAction::Return { value: get_cache(reply) },
        ),
        (Stage::Computing, CacheEvent::Computed(value)) => (Stage::Done, CacheAction::Return { value }),
        _ => (stage, CacheAction::Refuse),
    }
}

} // verus!
