//! The search endpoint: its query parameters, the checks on them, and the
//! decisions of one request from its arrival to its response. The functions
//! here decide; the caller talks to the cache and to the search backend, and
//! reports what came of it.
use crate::cache::{
    async_cache_as_json, cache_aside_step, fetched_value, set_cache, write_command, CacheAction,
    CacheActionView, CacheEvent, CacheEventView, CacheWrite, CacheWriteView, Stage,
};
use crate::cursor::{is_cursor_text, is_valid_search_after};
use crate::hits::{shape_response_text, shaped_text, ShapeError};
use crate::json::{json_text, no_members, Json, JsonView, Members};
use crate::numeral::{parse_i32, parse_usize, parsed_i32, parsed_usize};
use crate::query::compiled;
use crate::request::{build_search_query, chosen_paging, request_body, text};
use crate::text::{
    chars_of, collapse_whitespace, collapsed, is_all_white_space, lemma_collapsed_blank,
    lemma_split_words_collapsed, lemma_split_words_trimmed, normalised, text_of, trim,
};
use vstd::prelude::*;
use vstd::string::StringExecFns;

verus! {

/// The largest number that the search text may write.
pub const SIZE_LIMIT: i32 = 20;

/// For how many seconds the results of a search stay in the cache.
pub const RESULT_TTL_SECS: usize = 1440;

/// The longest time that an entry written for a cache-aside run may stay in
/// the cache. The results are written for [`RESULT_TTL_SECS`], which is less.
pub const CACHE_TTL_SECS: usize = 86400;

/// For how many seconds the caller waits for a connection to the backend.
pub const CONNECT_TIMEOUT_SECS: u64 = 5;

/// For how many seconds the caller waits for the backend's whole answer.
pub const REQUEST_TIMEOUT_SECS: u64 = 10;

/// The query parameters of a search request: the text, the offset of the
/// first result, and the cursor of a continuation.
#[derive(Debug, PartialEq, Eq)]
pub struct Params {
    pub s: String,
    pub f: String,
    pub sa: Option<String>,
}

/// The mathematical value of [`Params`].
pub struct ParamsView {
    pub s: Seq<char>,
    pub f: Seq<char>,
    pub sa: Option<Seq<char>>,
}

impl View for Params {
    type V = ParamsView;

    open spec fn view(&self) -> ParamsView {
        ParamsView { s: self.s@, f: self.f@, sa: text_of(self.sa) }
    }
}

impl Params {
    /// The parameters of a request whose query string could not be read:
    /// empty text, empty offset, no cursor.
    pub fn empty() -> (params: Params)
        ensures
            params@ == (ParamsView { s: Seq::empty(), f: Seq::empty(), sa: None }),
    {
        Params { s: String::new(), f: String::new(), sa: None }
    }
}

/// Why a request is turned down before anything is searched.
#[derive(Clone, Copy, Debug, PartialEq, Eq, Structural)]
pub enum BadRequest {
    /// The text holds nothing but white space.
    EmptyQuery,
    /// The text writes a number above [`SIZE_LIMIT`].
    TooLarge,
    /// The cursor is not an array of three numbers.
    InvalidCursor,
}

impl BadRequest {
    /// The line that tells the client what was wrong.
    pub open spec fn message_spec(self) -> Seq<char> {
        match self {
            BadRequest::EmptyQuery => "Empty search parameter is not allowed."@,
            BadRequest::TooLarge => "Search size must be 20 or less."@,
            BadRequest::InvalidCursor => "Invalid search_after parameter."@,
        }
    }

    /// The line that tells the client what was wrong.
    pub fn message(&self) -> (line: &'static str)
        ensures
            line@ == self.message_spec(),
    {
        match self {
            BadRequest::EmptyQuery => "Empty search parameter is not allowed.",
            BadRequest::TooLarge => "Search size must be 20 or less.",
            BadRequest::InvalidCursor => "Invalid search_after parameter.",
        }
    }
}

/// What a request that passed the checks asks for.
#[derive(Debug, PartialEq, Eq)]
pub struct SearchPlan {
    /// The text, its white space collapsed and trimmed.
    pub text: String,
    /// The offset of the first result.
    pub from: usize,
    /// The cursor, as the client sent it.
    pub search_after: Option<String>,
    /// The key under which the results are cached.
    pub cache_key: String,
}

/// The mathematical value of a [`SearchPlan`].
pub struct SearchPlanView {
    pub text: Seq<char>,
    pub from: usize,
    pub search_after: Option<Seq<char>>,
    pub cache_key: Seq<char>,
}

impl View for SearchPlan {
    type V = SearchPlanView;

    open spec fn view(&self) -> SearchPlanView {
        SearchPlanView {
            text: self.text@,
            from: self.from,
            search_after: text_of(self.search_after),
            cache_key: self.cache_key@,
        }
    }
}

/// Whether a collapsed text is empty or a single space.
pub open spec fn is_blank(text: Seq<char>) -> bool {
    text.len() == 0 || (text.len() == 1 && text[0] == ' ')
}

/// Whether the text writes a number above the limit. It is the search text
/// itself that is read as a number, as it came, not a page size.
pub open spec fn exceeds_limit(s: Seq<char>) -> bool {
    match parsed_i32(s) {
        Some(n) => n > SIZE_LIMIT,
        None => false,
    }
}

/// The offset that a request asks for: the number that `f` writes, and 0
/// where it writes none.
pub open spec fn offset_of(f: Seq<char>) -> usize {
    match parsed_usize(f) {
        Some(n) => n,
        None => 0,
    }
}

/// The key under which the results for a text and an offset are cached: the
/// normalised text, a hyphen, and the offset as the client wrote it. The
/// cursor is no part of the key, so requests that differ in their cursor
/// alone share an entry.
pub open spec fn cache_key_of(text: Seq<char>, f: Seq<char>) -> Seq<char> {
    text + "-"@ + f
}

/// What the checks make of the parameters of a request. It is turned down
/// where its collapsed text is blank; else where its text, as it came,
/// writes a number above the limit; else where it has a cursor that is not
/// valid. Otherwise it is planned.
pub open spec fn planned(params: ParamsView) -> Result<SearchPlanView, BadRequest> {
    if is_blank(collapsed(params.s)) {
        Err(BadRequest::EmptyQuery)
    } else if exceeds_limit(params.s) {
        Err(BadRequest::TooLarge)
    } else if params.sa matches Some(cursor) && !is_cursor_text(cursor) {
        Err(BadRequest::InvalidCursor)
    } else {
        Ok(
            SearchPlanView {
                text: normalised(params.s),
                from: offset_of(params.f),
                search_after: params.sa,
                cache_key: cache_key_of(normalised(params.s), params.f),
            },
        )
    }
}

/// Checks the parameters of a request and plans the search.
pub fn plan_search(params: &Params) -> (plan: Result<SearchPlan, BadRequest>)
    ensures
        match plan {
            Ok(p) => planned(params@) == Ok::<_, BadRequest>(p@),
            Err(e) => planned(params@) == Err::<SearchPlanView, _>(e),
        },
{
    let collapsed_text = collapse_whitespace(params.s.as_str());
    let chars = chars_of(collapsed_text.as_str());
    if chars.len() == 0 || (chars.len() == 1 && chars[0] == ' ') {
        return Err(BadRequest::EmptyQuery);
    }
    let too_large = match parse_i32(params.s.as_str()) {
        Some(n) => n > SIZE_LIMIT,
        None => false,
    };
    if too_large {
        return Err(BadRequest::TooLarge);
    }
    let search_after = match &params.sa {
        Some(cursor) => {
            if !is_valid_search_after(cursor.as_str()) {
                return Err(BadRequest::InvalidCursor);
            }
            Some(cursor.clone())
        },
        None => None,
    };
    let from = match parse_usize(params.f.as_str()) {
        Some(n) => n,
        None => 0,
    };
    let text = trim(collapsed_text.as_str());
    let mut cache_key = text.clone();
    cache_key.append("-");
    cache_key.append(params.f.as_str());
    Ok(SearchPlan { text, from, search_after, cache_key })
}

/// The body of the request that a plan sends to the backend, as JSON text.
pub open spec fn request_text(plan: SearchPlanView) -> Seq<char> {
    json_text(request_body(compiled(plan.text), chosen_paging(plan.from, plan.search_after)))
}

/// The body of the request that a plan sends to the backend, as JSON text.
pub fn backend_request(plan: &SearchPlan) -> (body: String)
    ensures
        body@ == request_text(plan@),
{
    let search_after = match &plan.search_after {
        Some(cursor) => Some(cursor.clone()),
        None => None,
    };
    build_search_query(plan.text.as_str(), plan.from, search_after).to_text()
}

/// A call to the search backend: what is posted, where, and how long the
/// caller waits.
#[derive(Debug, PartialEq, Eq)]
pub struct BackendCall {
    /// The method of the request.
    pub method: String,
    /// The path of the search, below the backend's base address.
    pub path: String,
    /// The value of the header `Content-Type`.
    pub content_type: String,
    /// The body of the request.
    pub body: String,
    /// For how many seconds the caller waits for a connection.
    pub connect_timeout_secs: u64,
    /// For how many seconds the caller waits for the whole answer.
    pub timeout_secs: u64,
    /// Whether the caller checks the backend's certificate.
    pub verify_certificate: bool,
}

/// The mathematical value of a [`BackendCall`].
pub struct BackendCallView {
    pub method: Seq<char>,
    pub path: Seq<char>,
    pub content_type: Seq<char>,
    pub body: Seq<char>,
    pub connect_timeout_secs: u64,
    pub timeout_secs: u64,
    pub verify_certificate: bool,
}

impl View for BackendCall {
    type V = BackendCallView;

    open spec fn view(&self) -> BackendCallView {
        BackendCallView {
            method: self.method@,
            path: self.path@,
            content_type: self.content_type@,
            body: self.body@,
            connect_timeout_secs: self.connect_timeout_secs,
            timeout_secs: self.timeout_secs,
            verify_certificate: self.verify_certificate,
        }
    }
}

impl BackendCall {
    /// The address of the call at a backend whose base address is `base`.
    pub fn url(&self, base: &str) -> (url: String)
        ensures
            url@ == base@ + self.path@,
    {
        let mut url = base.to_owned();
        url.append(self.path.as_str());
        url
    }
}

/// The call that a plan makes: its request body is posted as JSON to the
/// search of the page index, the backend's certificate is not checked, and
/// the caller waits 5 seconds for the connection and 10 for the answer.
pub open spec fn backend_call(plan: SearchPlanView) -> BackendCallView {
    BackendCallView {
        method: "POST"@,
        path: "/web_pages/_search"@,
        content_type: "application/json"@,
        body: request_text(plan),
        connect_timeout_secs: CONNECT_TIMEOUT_SECS,
        timeout_secs: REQUEST_TIMEOUT_SECS,
        verify_certificate: false,
    }
}

/// The call that a plan makes to the backend.
pub fn plan_backend_call(plan: &SearchPlan) -> (call: BackendCall)
    ensures
        call@ == backend_call(plan@),
{
    BackendCall {
        method: "POST".to_owned(),
        path: "/web_pages/_search".to_owned(),
        content_type: "application/json".to_owned(),
        body: backend_request(plan),
        connect_timeout_secs: CONNECT_TIMEOUT_SECS,
        timeout_secs: REQUEST_TIMEOUT_SECS,
        verify_certificate: false,
    }
}

/// What the caller reports of its call to the backend.
#[derive(Debug, PartialEq, Eq)]
pub enum BackendReply {
    /// The backend answered with this status and body.
    Answer { status: u16, body: String },
    /// The backend could not be reached, or did not answer in time.
    NoAnswer,
}

/// The mathematical value of a [`BackendReply`].
pub enum BackendReplyView {
    Answer { status: u16, body: Seq<char> },
    NoAnswer,
}

impl View for BackendReply {
    type V = BackendReplyView;

    open spec fn view(&self) -> BackendReplyView {
        match self {
            BackendReply::Answer { status, body } => BackendReplyView::Answer {
                status: *status,
                body: body@,
            },
            BackendReply::NoAnswer => BackendReplyView::NoAnswer,
        }
    }
}

/// Why the backend gave no results.
#[derive(Clone, Copy, Debug, PartialEq, Eq)]
pub enum BackendFailure {
    /// It could not be reached, or did not answer in time.
    NoAnswer,
    /// It answered with a status that is no success.
    BadStatus(u16),
    /// Its answer has not the shape of a list of hits.
    Shape(ShapeError),
}

impl BackendFailure {
    /// The status of the response to the client: 504 where the backend did
    /// not answer, 502 where its answer was of no use.
    pub open spec fn status_spec(self) -> u16 {
        match self {
            BackendFailure::NoAnswer => 504,
            _ => 502,
        }
    }

    /// The line that tells the client what went wrong.
    pub open spec fn message_spec(self) -> Seq<char> {
        match self {
            BackendFailure::NoAnswer => "Search backend did not answer."@,
            _ => "Search backend returned an unexpected response."@,
        }
    }

    /// The status of the response to the client.
    pub fn status(&self) -> (status: u16)
        ensures
            status == self.status_spec(),
    {
        match self {
            BackendFailure::NoAnswer => 504,
            _ => 502,
        }
    }

    /// The line that tells the client what went wrong.
    pub fn message(&self) -> (line: &'static str)
        ensures
            line@ == self.message_spec(),
    {
        match self {
            BackendFailure::NoAnswer => "Search backend did not answer.",
            _ => "Search backend returned an unexpected response.",
        }
    }
}

/// Whether a status of the backend is a success.
pub open spec fn is_success(status: u16) -> bool {
    200 <= status < 300
}

/// What a reply of the backend comes to: the JSON text of the results, or
/// the reason why there are none.
pub open spec fn backend_outcome(reply: BackendReplyView) -> Result<Seq<char>, BackendFailure> {
    match reply {
        BackendReplyView::NoAnswer => Err(BackendFailure::NoAnswer),
        BackendReplyView::Answer { status, body } => if !is_success(status) {
            Err(BackendFailure::BadStatus(status))
        } else {
            match shaped_text(body) {
                Ok(value) => Ok(value),
                Err(e) => Err(BackendFailure::Shape(e)),
            }
        },
    }
}

/// Reads a reply of the backend.
pub fn read_backend_reply(reply: &BackendReply) -> (outcome: Result<String, BackendFailure>)
    ensures
        match outcome {
            Ok(value) => backend_outcome(reply@) == Ok::<_, BackendFailure>(value@),
            Err(e) => backend_outcome(reply@) == Err::<Seq<char>, _>(e),
        },
{
    match reply {
        BackendReply::NoAnswer => Err(BackendFailure::NoAnswer),
        BackendReply::Answer { status, body } => {
            if !(200 <= *status && *status < 300) {
                Err(BackendFailure::BadStatus(*status))
            } else {
                match shape_response_text(body.as_str()) {
                    Ok(value) => Ok(value),
                    Err(e) => Err(BackendFailure::Shape(e)),
                }
            }
        },
    }
}

/// The body of a response to the client: a line of text under `msg`. On
/// success the line is the JSON text of the results.
#[derive(Debug, PartialEq, Eq)]
pub struct Message {
    pub msg: String,
}

/// The mathematical value of a [`Message`].
pub struct MessageView {
    pub msg: Seq<char>,
}

impl View for Message {
    type V = MessageView;

    open spec fn view(&self) -> MessageView {
        MessageView { msg: self.msg@ }
    }
}

/// A message as a document.
pub open spec fn message_document(msg: Seq<char>) -> JsonView {
    JsonView::Object(no_members().push(("msg"@, text(msg))))
}

impl Message {
    /// The message as JSON text.
    pub fn to_json_text(&self) -> (body: String)
        ensures
            body@ == json_text(message_document(self.msg@)),
    {
        Members::new().with("msg", Json::string(self.msg.as_str())).into_object().to_text()
    }
}

/// Where a search request stands.
#[derive(Debug, PartialEq, Eq)]
pub enum SearchState {
    /// The request has not arrived yet.
    Start,
    /// The cache is being asked, at this stage of the cache-aside run.
    Caching { plan: SearchPlan, stage: Stage },
    /// The backend is being asked.
    Calling { plan: SearchPlan },
    /// The results are being written to the cache.
    Writing { plan: SearchPlan, value: String },
    /// The response has been given.
    Done,
}

/// The mathematical value of a [`SearchState`].
pub enum SearchStateView {
    Start,
    Caching { plan: SearchPlanView, stage: Stage },
    Calling { plan: SearchPlanView },
    Writing { plan: SearchPlanView, value: Seq<char> },
    Done,
}

impl View for SearchState {
    type V = SearchStateView;

    open spec fn view(&self) -> SearchStateView {
        match self {
            SearchState::Start => SearchStateView::Start,
            SearchState::Caching { plan, stage } => SearchStateView::Caching {
                plan: plan@,
                stage: *stage,
            },
            SearchState::Calling { plan } => SearchStateView::Calling { plan: plan@ },
            SearchState::Writing { plan, value } => SearchStateView::Writing {
                plan: plan@,
                value: value@,
            },
            SearchState::Done => SearchStateView::Done,
        }
    }
}

/// What the caller reports to a search request.
#[derive(Debug, PartialEq, Eq)]
pub enum SearchEvent {
    /// The request has arrived with these parameters.
    Request(Params),
    /// The answer to the existence check; `None` where the cache failed.
    CacheExists(Option<bool>),
    /// The value that was fetched; `None` where the cache has none or failed.
    CacheFetched(Option<String>),
    /// What came of the call to the backend.
    Backend(BackendReply),
    /// Whether the write to the cache succeeded.
    CacheWritten(bool),
}

/// The mathematical value of a [`SearchEvent`].
pub enum SearchEventView {
    Request(ParamsView),
    CacheExists(Option<bool>),
    CacheFetched(Option<Seq<char>>),
    Backend(BackendReplyView),
    CacheWritten(bool),
}

impl View for SearchEvent {
    type V = SearchEventView;

    open spec fn view(&self) -> SearchEventView {
        match self {
            SearchEvent::Request(params) => SearchEventView::Request(params@),
            SearchEvent::CacheExists(answer) => SearchEventView::CacheExists(*answer),
            SearchEvent::CacheFetched(reply) => SearchEventView::CacheFetched(text_of(*reply)),
            SearchEvent::Backend(reply) => SearchEventView::Backend(reply@),
            SearchEvent::CacheWritten(ok) => SearchEventView::CacheWritten(*ok),
        }
    }
}

/// What a search request asks of its caller.
#[derive(Debug, PartialEq, Eq)]
pub enum SearchAction {
    /// Ask the cache whether it holds `key`.
    CheckCache { key: String },
    /// Ask the cache for the value of `key`.
    FetchCache { key: String },
    /// Make this call to the backend.
    CallBackend(BackendCall),
    /// Write to the cache; a failure is logged and nothing more.
    WriteCache(CacheWrite),
    /// Answer the client with this status and this body.
    Respond { status: u16, body: Message },
    /// The event answers nothing that the request has asked; nothing changes.
    Refuse,
}

/// The mathematical value of a [`SearchAction`].
pub enum SearchActionView {
    CheckCache { key: Seq<char> },
    FetchCache { key: Seq<char> },
    CallBackend(BackendCallView),
    WriteCache(CacheWriteView),
    Respond { status: u16, body: MessageView },
    Refuse,
}

impl View for SearchAction {
    type V = SearchActionView;

    open spec fn view(&self) -> SearchActionView {
        match self {
            SearchAction::CheckCache { key } => SearchActionView::CheckCache { key: key@ },
            SearchAction::FetchCache { key } => SearchActionView::FetchCache { key: key@ },
            SearchAction::CallBackend(call) => SearchActionView::CallBackend(call@),
            SearchAction::WriteCache(command) => SearchActionView::WriteCache(command@),
            SearchAction::Respond { status, body } => SearchActionView::Respond {
                status: *status,
                body: body@,
            },
            SearchAction::Refuse => SearchActionView::Refuse,
        }
    }
}

/// The response with a status and a line.
pub open spec fn response(status: u16, msg: Seq<char>) -> SearchActionView {
    SearchActionView::Respond { status, body: MessageView { msg } }
}

/// What a search does with what its cache-aside run asks: it passes the
/// questions to the cache on, computes by calling the backend, and answers
/// the client with the value that the run returns.
pub open spec fn follow_cache(plan: SearchPlanView, step: (Stage, CacheActionView)) -> (
    SearchStateView,
    SearchActionView,
) {
    match step.1 {
        CacheActionView::CheckExists { key } => (
            SearchStateView::Caching { plan, stage: step.0 },
            SearchActionView::CheckCache { key },
        ),
        CacheActionView::Fetch { key } => (
            SearchStateView::Caching { plan, stage: step.0 },
            SearchActionView::FetchCache { key },
        ),
        CacheActionView::Compute { .. } => (
            SearchStateView::Calling { plan },
            SearchActionView::CallBackend(backend_call(plan)),
        ),
        CacheActionView::Return { value } => (
            SearchStateView::Done,
            response(200, value),
        ),
        CacheActionView::Refuse => (
            SearchStateView::Caching { plan, stage: step.0 },
            SearchActionView::Refuse,
        ),
    }
}

/// One step of a search request: the state after `event`, and what the
/// caller is to do next.
///
/// A request that fails a check is answered with status 400 and the reason.
/// Any other starts a cache-aside run under its cache key. On a hit the
/// client gets what the cache holds. On a miss the backend is called; where
/// it gives results, they are written to the cache for [`RESULT_TTL_SECS`]
/// and then sent to the client with status 200, whether or not the write
/// succeeded; where it gives none, the client gets status 502 or 504.
pub open spec fn search_step(state: SearchStateView, event: SearchEventView) -> (
    SearchStateView,
    SearchActionView,
) {
    match (state, event) {
        (SearchStateView::Start, SearchEventView::Request(params)) => match planned(params) {
            Err(bad) => (
                SearchStateView::Done,
                response(400, bad.message_spec()),
            ),
            Ok(plan) => follow_cache(
                plan,
                cache_aside_step(plan.cache_key, CACHE_TTL_SECS, Stage::Start, CacheEventView::Begin),
            ),
        },
        (SearchStateView::Caching { plan, stage }, SearchEventView::CacheExists(answer)) => follow_cache(
            plan,
            cache_aside_step(plan.cache_key, CACHE_TTL_SECS, stage, CacheEventView::Exists(answer)),
        ),
        (SearchStateView::Caching { plan, stage }, SearchEventView::CacheFetched(reply)) => follow_cache(
            plan,
            cache_aside_step(plan.cache_key, CACHE_TTL_SECS, stage, CacheEventView::Fetched(reply)),
        ),
        (SearchStateView::Calling { plan }, SearchEventView::Backend(reply)) => match backend_outcome(
            reply,
        ) {
            Ok(value) => (
                SearchStateView::Writing { plan, value },
                SearchActionView::WriteCache(
                    write_command(plan.cache_key, value, Some(RESULT_TTL_SECS)),
                ),
            ),
            Err(failure) => (
                SearchStateView::Done,
                response(failure.status_spec(), failure.message_spec()),
            ),
        },
        (SearchStateView::Writing { plan, value }, SearchEventView::CacheWritten(_)) => follow_cache(
            plan,
            cache_aside_step(
                plan.cache_key,
                CACHE_TTL_SECS,
                Stage::Computing,
                CacheEventView::Computed(value),
            ),
        ),
        _ => (state, SearchActionView::Refuse),
    }
}

/// A request is turned down as empty exactly where its text holds nothing
/// but white space.
pub proof fn lemma_blank_text_is_turned_down(params: ParamsView)
    ensures
        is_all_white_space(params.s) <==> planned(params) == Err::<SearchPlanView, _>(
            BadRequest::EmptyQuery,
        ),
{
    lemma_collapsed_blank(params.s);
    let text = collapsed(params.s);
    if text.len() == 1 && text[0] == ' ' {
        assert(text == seq![' ']);
    }
    if text == seq![' '] {
        assert(seq![' '].len() == 1 && seq![' '][0] == ' ');
    }
}

/// The query of a planned search is the compiled form of the text as it
/// came: collapsing and trimming change the cache key, not what is searched.
pub proof fn lemma_plan_searches_the_text(params: ParamsView)
    requires
        planned(params) is Ok,
    ensures
        compiled(planned(params)->Ok_0.text) == compiled(params.s),
{
    lemma_split_words_collapsed(params.s);
    lemma_split_words_trimmed(collapsed(params.s));
}

/// A request that fails a check is answered at once, with status 400 and the
/// reason, and nothing is asked of the cache or of the backend.
pub proof fn lemma_bad_request_is_answered_at_once(params: ParamsView)
    requires
        planned(params) is Err,
    ensures
        search_step(SearchStateView::Start, SearchEventView::Request(params)) == (
            SearchStateView::Done,
            response(400, planned(params)->Err_0.message_spec()),
        ),
{
}

/// A planned request whose key the cache holds is answered from the cache:
/// the cache is asked whether it holds the key, then for the value, and the
/// client gets what was fetched, or the empty string where the entry was
/// gone by then. The backend is not called.
pub proof fn lemma_hit_is_answered_from_the_cache(params: ParamsView, stored: Option<Seq<char>>)
    requires
        planned(params) is Ok,
    ensures
        ({
            let plan = planned(params)->Ok_0;
            let first = search_step(SearchStateView::Start, SearchEventView::Request(params));
            let second = search_step(first.0, SearchEventView::CacheExists(Some(true)));
            let third = search_step(second.0, SearchEventView::CacheFetched(stored));
            &&& first.1 == SearchActionView::CheckCache { key: plan.cache_key }
            &&& second.1 == SearchActionView::FetchCache { key: plan.cache_key }
            &&& third == (
                SearchStateView::Done,
                response(200, fetched_value(stored)),
            )
        }),
{
}

/// A planned request whose key the cache does not hold, or cannot be asked
/// for, is answered by the backend: the call of the plan is made;
/// where it gives results, they are written to the cache under the key for
/// [`RESULT_TTL_SECS`], within the limit of the run, and the client gets
/// them with status 200, whether or not the write succeeded; where it gives
/// none, the client gets the status and the line of the failure, and nothing
/// is written.
pub proof fn lemma_miss_is_answered_by_the_backend(
    params: ParamsView,
    answer: Option<bool>,
    reply: BackendReplyView,
    written: bool,
)
    requires
        planned(params) is Ok,
        answer != Some(true),
    ensures
        ({
            let plan = planned(params)->Ok_0;
            let first = search_step(SearchStateView::Start, SearchEventView::Request(params));
            let second = search_step(first.0, SearchEventView::CacheExists(answer));
            let third = search_step(second.0, SearchEventView::Backend(reply));
            &&& first.1 == SearchActionView::CheckCache { key: plan.cache_key }
            &&& second.1 == SearchActionView::CallBackend(backend_call(plan))
            &&& match backend_outcome(reply) {
                Ok(value) => {
                    &&& third.1 == SearchActionView::WriteCache(
                        CacheWriteView::StoreFor {
                            key: plan.cache_key,
                            value,
                            seconds: RESULT_TTL_SECS as u64,
                        },
                    )
                    &&& RESULT_TTL_SECS <= CACHE_TTL_SECS
                    &&& search_step(third.0, SearchEventView::CacheWritten(written)) == (
                        SearchStateView::Done,
                        response(200, value),
                    )
                },
                Err(failure) => third == (
                    SearchStateView::Done,
                    response(failure.status_spec(), failure.message_spec()),
                ),
            }
        }),
{
}

/// Turns what the cache-aside run of a search asks into the next state and
/// action of the search.
fn after_cache_step(plan: SearchPlan, stage: Stage, action: CacheAction) -> (next: (
    SearchState,
    SearchAction,
))
    ensures
        (next.0@, next.1@) == follow_cache(plan@, (stage, action@)),
{
    match action {
        CacheAction::CheckExists { key } => (
            SearchState::Caching { plan, stage },
            SearchAction::CheckCache { key },
        ),
        CacheAction::Fetch { key } => (
            SearchState::Caching { plan, stage },
            SearchAction::FetchCache { key },
        ),
        CacheAction::Compute { .. } => {
            let call = plan_backend_call(&plan);
            (SearchState::Calling { plan }, SearchAction::CallBackend(call))
        },
        CacheAction::Return { value } => (
            SearchState::Done,
            SearchAction::Respond { status: 200, body: Message { msg: value } },
        ),
        CacheAction::Refuse => (SearchState::Caching { plan, stage }, SearchAction::Refuse),
    }
}

/// One step of a search request: takes what the caller reports and says what
/// to do next.
pub fn search(state: SearchState, event: SearchEvent) -> (next: (SearchState, SearchAction))
    ensures
        (next.0@, next.1@) == search_step(state@, event@),
{
    match (state, event) {
        (SearchState::Start, SearchEvent::Request(params)) => {
            match plan_search(&params) {
                Err(bad) => (
                    SearchState::Done,
                    SearchAction::Respond {
                        status: 400,
                        body: Message { msg: bad.message().to_owned() },
                    },
                ),
                Ok(plan) => {
                    let (stage, action) = async_cache_as_json(
                        plan.cache_key.as_str(),
                        CACHE_TTL_SECS,
                        Stage::Start,
                        CacheEvent::Begin,
                    );
                    after_cache_step(plan, stage, action)
                },
            }
        },
        (SearchState::Caching { plan, stage }, SearchEvent::CacheExists(answer)) => {
            let (stage, action) = async_cache_as_json(
                plan.cache_key.as_str(),
                CACHE_TTL_SECS,
                stage,
                CacheEvent::Exists(answer),
            );
            after_cache_step(plan, stage, action)
        },
        (SearchState::Caching { plan, stage }, SearchEvent::CacheFetched(reply)) => {
            let (stage, action) = async_cache_as_json(
                plan.cache_key.as_str(),
                CACHE_TTL_SECS,
                stage,
                CacheEvent::Fetched(reply),
            );
            after_cache_step(plan, stage, action)
        },
        (SearchState::Calling { plan }, SearchEvent::Backend(reply)) => {
            match read_backend_reply(&reply) {
                Ok(value) => {
                    let command = set_cache(
                        plan.cache_key.as_str(),
                        value.as_str(),
                        Some(RESULT_TTL_SECS),
                    );
                    (SearchState::Writing { plan, value }, SearchAction::WriteCache(command))
                },
                Err(failure) => (
                    SearchState::Done,
                    SearchAction::Respond {
                        status: failure.status(),
                        body: Message { msg: failure.message().to_owned() },
                    },
                ),
            }
        },
        (SearchState::Writing { plan, value }, SearchEvent::CacheWritten(_)) => {
            let (stage, action) = async_cache_as_json(
                plan.cache_key.as_str(),
                CACHE_TTL_SECS,
                Stage::Computing,
                CacheEvent::Computed(value),
            );
            after_cache_step(plan, stage, action)
        },
        (state, _) => (state, SearchAction::Refuse),
    }
}

} // verus!
