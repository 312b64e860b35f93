use search::cache::{CacheWrite, Stage};
use search::search::{
    backend_request, plan_backend_call, plan_search, read_backend_reply, search, BackendCall, BackendFailure, BackendReply, BadRequest, Message, Params, SearchAction,
    SearchEvent, SearchPlan, SearchState, CACHE_TTL_SECS, CONNECT_TIMEOUT_SECS,
    REQUEST_TIMEOUT_SECS, RESULT_TTL_SECS, SIZE_LIMIT,
};
use search::hits::ShapeError;
use std::collections::HashMap;

struct World {
    now: u64,
    entries: HashMap<String, (String, Option<u64>)>,
    cache_down: bool,
    backend_calls: usize,
    bodies: Vec<String>,
    reply: BackendReply,
}

fn world(reply: BackendReply) -> World {
    World { now: 0, entries: HashMap::new(), cache_down: false, backend_calls: 0, bodies: Vec::new(), reply }
}

fn answer(status: u16, body: &str) -> BackendReply {
    BackendReply::Answer { status, body: body.to_string() }
}

fn copy_of(reply: &BackendReply) -> BackendReply {
    match reply {
        BackendReply::Answer { status, body } => BackendReply::Answer { status: *status, body: body.clone() },
        BackendReply::NoAnswer => BackendReply::NoAnswer,
    }
}

fn lookup(w: &World, key: &str) -> Option<String> {
    match w.entries.get(key) {
        Some((value, Some(until))) if w.now < *until => Some(value.clone()),
        Some((value, None)) => Some(value.clone()),
        _ => None,
    }
}

fn perform(w: &mut World, action: SearchAction) -> Result<SearchEvent, (u16, String)> {
    match action {
        SearchAction::CheckCache { key } => {
            Ok(SearchEvent::CacheExists(if w.cache_down { None } else { Some(lookup(w, &key).is_some()) }))
        }
        SearchAction::FetchCache { key } => {
            Ok(SearchEvent::CacheFetched(if w.cache_down { None } else { lookup(w, &key) }))
        }
        SearchAction::CallBackend(call) => {
            w.backend_calls += 1;
            w.bodies.push(call.body);
            Ok(SearchEvent::Backend(copy_of(&w.reply)))
        }
        SearchAction::WriteCache(command) => {
            if w.cache_down {
                return Ok(SearchEvent::CacheWritten(false));
            }
            match command {
                CacheWrite::StoreFor { key, value, seconds } => {
                    w.entries.insert(key, (value, Some(w.now + seconds)));
                }
                CacheWrite::Store { key, value } => {
                    w.entries.insert(key, (value, None));
                }
            }
            Ok(SearchEvent::CacheWritten(true))
        }
        SearchAction::Respond { status, body } => Err((status, body.msg)),
        SearchAction::Refuse => panic!("the request refused an event"),
    }
}

fn serve(w: &mut World, s: &str, f: &str, sa: Option<&str>) -> (u16, String) {
    let params = Params { s: s.to_string(), f: f.to_string(), sa: sa.map(|c| c.to_string()) };
    let (mut state, mut action) = search(SearchState::Start, SearchEvent::Request(params));
    loop {
        let event = match perform(w, action) {
            Ok(event) => event,
            Err(response) => {
                assert_eq!(state, SearchState::Done);
                return response;
            }
        };
        let next = search(state, event);
        state = next.0;
        action = next.1;
    }
}

fn two_hits() -> &'static str {
    "{\"hits\": {\"hits\": [
        {\"_source\": {\"url\": \"https://a.example/\", \"title\": \"A\"},
         \"highlight\": {\"title\": [\"<b>hello</b>\"]}, \"sort\": [2.5, 1700000000000, 7]},
        {\"_source\": {\"url\": \"https://b.example/\", \"title\": \"B\"},
         \"highlight\": {\"content\": [\"<b>world</b>\"]}, \"sort\": [1.25, 1600000000000, 9]}
    ]}}"
}

fn two_results() -> &'static str {
    "{\"hits\":[{\"highlight\":{\"title\":[\"<b>hello</b>\"]},\"sort\":\"[2.5,1700000000000,7]\",\"title\":\"A\",\"url\":\"https://a.example/\"},{\"highlight\":{\"content\":[\"<b>world</b>\"]},\"sort\":\"[1.25,1600000000000,9]\",\"title\":\"B\",\"url\":\"https://b.example/\"}]}"
}

fn plan_of(s: &str, f: &str, sa: Option<&str>) -> Result<SearchPlan, BadRequest> {
    plan_search(&Params { s: s.to_string(), f: f.to_string(), sa: sa.map(|c| c.to_string()) })
}

#[test]
fn search_returns_the_hits_of_the_backend_in_order() {
    let mut w = world(answer(200, two_hits()));
    let (status, msg) = serve(&mut w, "hello world", "0", None);
    assert_eq!(status, 200);
    assert_eq!(msg, two_results());
    let parsed = serde_json::from_str::<serde_json::Value>(&msg).unwrap();
    let hits = parsed.get("hits").unwrap().as_array().unwrap();
    assert_eq!(hits.len(), 2);
    assert_eq!(hits[0].get("url").unwrap(), "https://a.example/");
    assert_eq!(hits[1].get("url").unwrap(), "https://b.example/");
    assert_eq!(w.backend_calls, 1);
    let sent = serde_json::from_str::<serde_json::Value>(&w.bodies[0]).unwrap();
    assert_eq!(sent["query"]["simple_query_string"]["query"], "\"hello\" AND \"world\"");
    assert_eq!(sent["from"], 0);
    assert!(sent.get("search_after").is_none());
}

#[test]
fn search_turns_down_an_empty_text() {
    let mut w = world(answer(200, two_hits()));
    assert_eq!(serve(&mut w, "", "", None), (400, "Empty search parameter is not allowed.".to_string()));
    assert_eq!(serve(&mut w, " ", "0", None), (400, "Empty search parameter is not allowed.".to_string()));
    assert_eq!(serve(&mut w, " \t\n ", "0", None), (400, "Empty search parameter is not allowed.".to_string()));
    assert_eq!(w.backend_calls, 0);
    assert!(w.entries.is_empty());
}

#[test]
fn search_turns_down_a_malformed_cursor() {
    let mut w = world(answer(200, two_hits()));
    assert_eq!(serve(&mut w, "hello", "", Some("[1,2]")), (400, "Invalid search_after parameter.".to_string()));
    assert_eq!(serve(&mut w, "hello", "", Some("nope")), (400, "Invalid search_after parameter.".to_string()));
    assert_eq!(w.backend_calls, 0);
}

#[test]
fn search_turns_down_a_text_that_writes_a_number_above_twenty() {
    let mut w = world(answer(200, two_hits()));
    assert_eq!(serve(&mut w, "21", "0", None), (400, "Search size must be 20 or less.".to_string()));
    assert_eq!(serve(&mut w, "+0099", "0", None), (400, "Search size must be 20 or less.".to_string()));
    assert_eq!(w.backend_calls, 0);
    assert_eq!(serve(&mut w, "20", "0", None).0, 200);
    assert_eq!(serve(&mut w, " 21", "0", None).0, 200);
    assert_eq!(serve(&mut w, "-21", "0", None).0, 200);
    assert_eq!(serve(&mut w, "99999999999", "0", None).0, 200);
    assert_eq!(serve(&mut w, "21 pilots", "0", None).0, 200);
}

#[test]
fn checks_come_in_their_order() {
    assert_eq!(plan_of("", "", Some("bad")), Err(BadRequest::EmptyQuery));
    assert_eq!(plan_of("21", "", Some("bad")), Err(BadRequest::TooLarge));
    assert_eq!(plan_of("x", "", Some("bad")), Err(BadRequest::InvalidCursor));
    assert_eq!(BadRequest::EmptyQuery.message(), "Empty search parameter is not allowed.");
    assert_eq!(BadRequest::TooLarge.message(), "Search size must be 20 or less.");
    assert_eq!(BadRequest::InvalidCursor.message(), "Invalid search_after parameter.");
    assert_eq!(SIZE_LIMIT, 20);
}

#[test]
fn plan_normalises_the_text_and_keys_the_cache() {
    assert_eq!(
        plan_of("  hello \t world ", "40", None),
        Ok(SearchPlan {
            text: "hello world".to_string(),
            from: 40,
            search_after: None,
            cache_key: "hello world-40".to_string(),
        })
    );
    assert_eq!(
        plan_of("a", "x", Some("[1,2,3]")),
        Ok(SearchPlan {
            text: "a".to_string(),
            from: 0,
            search_after: Some("[1,2,3]".to_string()),
            cache_key: "a-x".to_string(),
        })
    );
    assert_eq!(plan_of("a", "", None).map(|p| (p.from, p.cache_key)), Ok((0, "a-".to_string())));
    assert_eq!(plan_of("a", "-3", None).map(|p| p.from), Ok(0));
    assert_eq!(plan_of("a", "+3", None).map(|p| p.from), Ok(3));
}

#[test]
fn cursor_is_no_part_of_the_cache_key() {
    let first = plan_of("a", "0", Some("[1,2,3]")).unwrap();
    let second = plan_of("a", "0", Some("[4,5,6]")).unwrap();
    let third = plan_of("a", "0", None).unwrap();
    assert_eq!(first.cache_key, second.cache_key);
    assert_eq!(first.cache_key, third.cache_key);
}

#[test]
fn search_with_cursor_sends_search_after() {
    let mut w = world(answer(200, two_hits()));
    let (status, _) = serve(&mut w, "hello", "40", Some("[2.5,1700000000000,7]"));
    assert_eq!(status, 200);
    let sent = serde_json::from_str::<serde_json::Value>(&w.bodies[0]).unwrap();
    assert_eq!(sent["search_after"].to_string(), "[2.5,1700000000000,7]");
    assert!(sent.get("from").is_none());
    assert_eq!(sent["size"], 20);
}

#[test]
fn backend_request_is_the_request_body_as_text() {
    let plan = plan_of("hello   world", "0", None).unwrap();
    let body = backend_request(&plan);
    assert_eq!(body, search::request::build_search_query("hello world", 0, None).to_text());
    assert!(body.contains("\"query\":\"\\\"hello\\\" AND \\\"world\\\"\""));
    assert_eq!(
        plan_backend_call(&plan).url("http://u:p@es:9200"),
        "http://u:p@es:9200/web_pages/_search"
    );
    assert_eq!(CONNECT_TIMEOUT_SECS, 5);
    assert_eq!(REQUEST_TIMEOUT_SECS, 10);
}

#[test]
fn backend_call_posts_json_within_the_timeouts() {
    let plan = plan_of("hello", "0", None).unwrap();
    assert_eq!(
        plan_backend_call(&plan),
        BackendCall {
            method: "POST".to_string(),
            path: "/web_pages/_search".to_string(),
            content_type: "application/json".to_string(),
            body: backend_request(&plan),
            connect_timeout_secs: 5,
            timeout_secs: 10,
            verify_certificate: false,
        }
    );
    let (_, action) = search(
        SearchState::Caching { plan, stage: Stage::Checking },
        SearchEvent::CacheExists(Some(false)),
    );
    assert_eq!(action, SearchAction::CallBackend(plan_backend_call(&plan_of("hello", "0", None).unwrap())));
}

#[test]
fn repeated_search_is_answered_from_the_cache() {
    let mut w = world(answer(200, two_hits()));
    let first = serve(&mut w, "hello world", "0", None);
    let second = serve(&mut w, "hello   world", "0", None);
    let third = serve(&mut w, " hello world ", "0", None);
    assert_eq!(first, (200, two_results().to_string()));
    assert_eq!(second, first);
    assert_eq!(third, first);
    assert_eq!(w.backend_calls, 1);
    assert_eq!(lookup(&w, "hello world-0"), Some(two_results().to_string()));
}

#[test]
fn results_are_cached_for_twenty_four_minutes() {
    let mut w = world(answer(200, two_hits()));
    serve(&mut w, "hello", "0", None);
    assert_eq!(w.entries.get("hello-0"), Some(&(two_results().to_string(), Some(1440))));
    assert_eq!(RESULT_TTL_SECS, 1440);
    assert_eq!(CACHE_TTL_SECS, 86400);
    w.now = 1439;
    serve(&mut w, "hello", "0", None);
    assert_eq!(w.backend_calls, 1);
    w.now = 1440;
    assert_eq!(lookup(&w, "hello-0"), None);
    serve(&mut w, "hello", "0", None);
    assert_eq!(w.backend_calls, 2);
    assert_eq!(w.entries.get("hello-0"), Some(&(two_results().to_string(), Some(2880))));
}

#[test]
fn requests_that_interleave_may_each_call_the_backend() {
    let mut w = world(answer(200, two_hits()));
    let request = || SearchEvent::Request(Params { s: "hello".to_string(), f: "0".to_string(), sa: None });
    let (state_a, action_a) = search(SearchState::Start, request());
    let (state_b, action_b) = search(SearchState::Start, request());
    let event_a = perform(&mut w, action_a).unwrap();
    let event_b = perform(&mut w, action_b).unwrap();
    let (mut state_a, mut action_a) = search(state_a, event_a);
    let (mut state_b, mut action_b) = search(state_b, event_b);
    let mut responses = Vec::new();
    let mut open = 2;
    while open > 0 {
        open = 0;
        if state_a != SearchState::Done {
            match perform(&mut w, action_a) {
                Ok(event) => {
                    let next = search(state_a, event);
                    state_a = next.0;
                    action_a = next.1;
                    if let SearchAction::Respond { status, body } = &action_a {
                        responses.push((*status, body.msg.clone()));
                    }
                    open += 1;
                }
                Err(_) => unreachable!(),
            }
        } else {
            action_a = SearchAction::Refuse;
        }
        if state_b != SearchState::Done {
            match perform(&mut w, action_b) {
                Ok(event) => {
                    let next = search(state_b, event);
                    state_b = next.0;
                    action_b = next.1;
                    if let SearchAction::Respond { status, body } = &action_b {
                        responses.push((*status, body.msg.clone()));
                    }
                    open += 1;
                }
                Err(_) => unreachable!(),
            }
        } else {
            action_b = SearchAction::Refuse;
        }
    }
    assert_eq!(responses, vec![(200, two_results().to_string()), (200, two_results().to_string())]);
    assert!(w.backend_calls >= 1);
    assert_eq!(w.backend_calls, 2);
    assert_eq!(lookup(&w, "hello-0"), Some(two_results().to_string()));
}

#[test]
fn failing_cache_never_fails_the_request() {
    let mut w = world(answer(200, two_hits()));
    w.cache_down = true;
    assert_eq!(serve(&mut w, "hello", "0", None), (200, two_results().to_string()));
    assert_eq!(serve(&mut w, "hello", "0", None), (200, two_results().to_string()));
    assert_eq!(w.backend_calls, 2);
    assert!(w.entries.is_empty());
}

#[test]
fn entry_lost_between_check_and_fetch_gives_the_empty_string() {
    let plan = plan_of("hello", "0", None).unwrap();
    let state = SearchState::Caching { plan, stage: Stage::Fetching };
    let (state, action) = search(state, SearchEvent::CacheFetched(None));
    assert_eq!(state, SearchState::Done);
    assert_eq!(action, SearchAction::Respond { status: 200, body: Message { msg: String::new() } });
}

#[test]
fn backend_that_does_not_answer_gives_504() {
    let mut w = world(BackendReply::NoAnswer);
    assert_eq!(serve(&mut w, "hello", "0", None), (504, "Search backend did not answer.".to_string()));
    assert!(w.entries.is_empty());
    assert_eq!(read_backend_reply(&BackendReply::NoAnswer), Err(BackendFailure::NoAnswer));
    assert_eq!(BackendFailure::NoAnswer.status(), 504);
}

#[test]
fn backend_that_answers_without_use_gives_502() {
    let line = "Search backend returned an unexpected response.".to_string();
    let mut w = world(answer(500, two_hits()));
    assert_eq!(serve(&mut w, "hello", "0", None), (502, line.clone()));
    w.reply = answer(200, "<html>");
    assert_eq!(serve(&mut w, "hello", "0", None), (502, line.clone()));
    w.reply = answer(200, "{\"hits\": {\"hits\": [{\"sort\": []}]}}");
    assert_eq!(serve(&mut w, "hello", "0", None), (502, line.clone()));
    w.reply = answer(404, "{}");
    assert_eq!(serve(&mut w, "hello", "0", None), (502, line));
    assert!(w.entries.is_empty());
    assert_eq!(w.backend_calls, 4);
    assert_eq!(read_backend_reply(&answer(199, "{}")), Err(BackendFailure::BadStatus(199)));
    assert_eq!(read_backend_reply(&answer(300, "{}")), Err(BackendFailure::BadStatus(300)));
    assert_eq!(read_backend_reply(&answer(299, "{}")), Ok("{\"hits\":[]}".to_string()));
    assert_eq!(read_backend_reply(&answer(200, "x")), Err(BackendFailure::Shape(ShapeError::NotJson)));
    assert_eq!(
        read_backend_reply(&answer(200, "{\"hits\": {\"hits\": [0]}}")),
        Err(BackendFailure::Shape(ShapeError::MalformedHit(0)))
    );
    assert_eq!(BackendFailure::BadStatus(500).status(), 502);
    assert_eq!(BackendFailure::Shape(ShapeError::NotJson).status(), 502);
    assert_eq!(BackendFailure::BadStatus(500).message(), "Search backend returned an unexpected response.");
}

#[test]
fn request_refuses_what_it_has_not_asked_for() {
    let (state, action) = search(SearchState::Start, SearchEvent::CacheWritten(true));
    assert_eq!((state, action), (SearchState::Start, SearchAction::Refuse));
    let (state, action) = search(SearchState::Done, SearchEvent::Request(Params::empty()));
    assert_eq!((state, action), (SearchState::Done, SearchAction::Refuse));
    let plan = plan_of("a", "0", None).unwrap();
    let (state, action) = search(SearchState::Calling { plan }, SearchEvent::CacheExists(Some(true)));
    assert_eq!(action, SearchAction::Refuse);
    assert_eq!(state, SearchState::Calling { plan: plan_of("a", "0", None).unwrap() });
    let plan = plan_of("a", "0", None).unwrap();
    let (state, action) = search(
        SearchState::Caching { plan, stage: Stage::Checking },
        SearchEvent::CacheFetched(Some("v".to_string())),
    );
    assert_eq!(action, SearchAction::Refuse);
    assert_eq!(state, SearchState::Caching { plan: plan_of("a", "0", None).unwrap(), stage: Stage::Checking });
}

#[test]
fn unreadable_parameters_are_empty_ones() {
    assert_eq!(Params::empty(), Params { s: String::new(), f: String::new(), sa: None });
}

#[test]
fn message_is_a_line_under_msg() {
    assert_eq!(Message { msg: "hello".to_string() }.to_json_text(), "{\"msg\":\"hello\"}");
    assert_eq!(
        Message { msg: "{\"hits\":[]}".to_string() }.to_json_text(),
        "{\"msg\":\"{\\\"hits\\\":[]}\"}"
    );
}
