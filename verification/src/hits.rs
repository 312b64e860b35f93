//! The results of a search: what is taken from each hit of the backend's
//! response, and the document that goes to the client and to the cache.
use crate::json::{item_views, json_parse, json_text, no_members, Items, Json, JsonView, Members};
use crate::request::text;
use vstd::prelude::*;

verus! {

/// One result: the highlighted fragments as the backend sent them, the
/// address and the title of the page, and the sort values of the hit as JSON
/// text.
#[derive(Debug, PartialEq)]
pub struct SearchResult {
    pub highlight: Json,
    pub url: String,
    pub title: String,
    pub sort: String,
}

/// The mathematical value of a [`SearchResult`].
pub struct SearchResultView {
    pub highlight: JsonView,
    pub url: Seq<char>,
    pub title: Seq<char>,
    pub sort: Seq<char>,
}

impl View for SearchResult {
    type V = SearchResultView;

    open spec fn view(&self) -> SearchResultView {
        SearchResultView {
            highlight: self.highlight@,
            url: self.url@,
            title: self.title@,
            sort: self.sort@,
        }
    }
}

/// Why a response of the backend gives no results.
#[derive(Clone, Copy, Debug, PartialEq, Eq)]
pub enum ShapeError {
    /// The response is no JSON.
    NotJson,
    /// The hit at this position lacks a field or has one of another type.
    MalformedHit(usize),
}

/// The result that a hit gives: its `highlight`, the strings `url` and
/// `title` of its `_source`, and its `sort` as JSON text. `None` where one of
/// them is missing or `url` or `title` is no string.
pub open spec fn hit_result(hit: JsonView) -> Option<SearchResultView> {
    match (hit.member("highlight"@), hit.member("_source"@), hit.member("sort"@)) {
        (Some(highlight), Some(source), Some(sort)) => match (
            source.member("url"@),
            source.member("title"@),
        ) {
            (Some(JsonView::String(url)), Some(JsonView::String(title))) => Some(
                SearchResultView { highlight, url, title, sort: json_text(sort) },
            ),
            _ => None,
        },
        _ => None,
    }
}

/// The hits that a response lists: the array `hits` of its member `hits`, and
/// none where there is no such array.
pub open spec fn listed_hits(response: JsonView) -> Seq<JsonView> {
    match response.member("hits"@) {
        Some(outer) => match outer.member("hits"@) {
            Some(JsonView::Array(hits)) => hits,
            _ => Seq::empty(),
        },
        None => Seq::empty(),
    }
}

/// The position of the first of `hits` that gives no result.
pub open spec fn first_malformed(hits: Seq<JsonView>) -> Option<int>
    decreases hits.len(),
{
    if hits.len() == 0 {
        None
    } else {
        match first_malformed(hits.drop_last()) {
            Some(at) => Some(at),
            None => if hit_result(hits.last()) is None {
                Some(hits.len() - 1)
            } else {
                None
            },
        }
    }
}

/// The results that `hits` give, in order.
pub open spec fn hit_results(hits: Seq<JsonView>) -> Seq<SearchResultView> {
    Seq::new(hits.len(), |i: int| hit_result(hits[i])->Some_0)
}

/// The views of results.
pub open spec fn result_views(results: Seq<SearchResult>) -> Seq<SearchResultView> {
    Seq::new(results.len(), |i: int| results[i]@)
}

/// One result as a document.
pub open spec fn result_document(result: SearchResultView) -> JsonView {
    JsonView::Object(
        no_members().push(("highlight"@, result.highlight)).push(("url"@, text(result.url))).push(
            ("title"@, text(result.title)),
        ).push(("sort"@, text(result.sort))),
    )
}

/// The document that holds the results, in order, under `hits`.
pub open spec fn results_document(results: Seq<SearchResultView>) -> JsonView {
    JsonView::Object(
        no_members().push(
            ("hits"@, JsonView::Array(Seq::new(results.len(), |i: int| result_document(results[i])))),
        ),
    )
}

/// What the hits of a response give: their results, or the position of the
/// first malformed one.
pub open spec fn read_results(response: JsonView) -> Result<Seq<SearchResultView>, ShapeError> {
    match first_malformed(listed_hits(response)) {
        Some(at) => Err(ShapeError::MalformedHit(at as usize)),
        None => Ok(hit_results(listed_hits(response))),
    }
}

/// What a response of the backend is shaped into: the JSON text of the
/// document of its results, or the reason why there is none.
pub open spec fn shaped(response: JsonView) -> Result<Seq<char>, ShapeError> {
    match read_results(response) {
        Ok(results) => Ok(json_text(results_document(results))),
        Err(e) => Err(e),
    }
}

/// What the text of a response of the backend is shaped into.
pub open spec fn shaped_text(body: Seq<char>) -> Result<Seq<char>, ShapeError> {
    match json_parse(body) {
        Some(response) => shaped(response),
        None => Err(ShapeError::NotJson),
    }
}

/// Takes the result from one hit.
pub fn read_hit(hit: &Json) -> (result: Option<SearchResult>)
    ensures
        match result {
            Some(r) => hit_result(hit@) == Some(r@),
            None => hit_result(hit@) is None,
        },
{
    let highlight = match hit.get("highlight") {
        Some(found) => found,
        None => {
            return None;
        },
    };
    let source = match hit.get("_source") {
        Some(found) => found,
        None => {
            return None;
        },
    };
    let sort = match hit.get("sort") {
        Some(found) => found,
        None => {
            return None;
        },
    };
    let url = match source.get("url") {
        Some(found) => match found.as_str() {
            Some(s) => s,
            None => {
                return None;
            },
        },
        None => {
            return None;
        },
    };
    let title = match source.get("title") {
        Some(found) => match found.as_str() {
            Some(s) => s,
            None => {
                return None;
            },
        },
        None => {
            return None;
        },
    };
    Some(
        SearchResult {
            highlight: highlight.clone(),
            url: url.clone(),
            title: title.clone(),
            sort: sort.to_text(),
        },
    )
}

/// The hits that a response lists.
pub fn hits_of(response: &Json) -> (hits: Option<&Vec<Json>>)
    ensures
        match hits {
            Some(v) => item_views(v@) == listed_hits(response@),
            None => listed_hits(response@).len() == 0,
        },
{
    match response.get("hits") {
        Some(outer) => match outer.get("hits") {
            Some(inner) => inner.as_array(),
            None => None,
        },
        None => None,
    }
}

/// Takes the results from a response of the backend, in the order of its
/// hits. Fails at the first hit that is malformed.
pub fn read_hits(response: &Json) -> (results: Result<Vec<SearchResult>, ShapeError>)
    ensures
        match results {
            Ok(list) => read_results(response@) == Ok::<_, ShapeError>(result_views(list@)),
            Err(e) => read_results(response@) == Err::<Seq<SearchResultView>, _>(e),
        },
{
    let mut list: Vec<SearchResult> = Vec::new();
    match hits_of(response) {
        Some(hits) => {
            let mut i: usize = 0;
            let ghost all = listed_hits(response@);
            assert(result_views(list@) =~= hit_results(all.take(0)));
            while i < hits.len()
                invariant
                    i <= hits.len(),
                    all == listed_hits(response@),
                    item_views(hits@) == all,
                    list@.len() == i,
                    first_malformed(all.take(i as int)) is None,
                    result_views(list@) == hit_results(all.take(i as int)),
                decreases hits.len() - i,
            {
                assert(all[i as int] == hits@[i as int]@);
                assert(all.take(i + 1).drop_last() == all.take(i as int));
                match read_hit(&hits[i]) {
                    Some(result) => {
                        let ghost before = result_views(list@);
                        list.push(result);
                        assert forall|k: int| 0 <= k < i + 1 implies result_views(list@)[k]
                            == hit_results(all.take(i + 1))[k] by {
                            if k < i {
                                assert(result_views(list@)[k] == before[k]);
                                assert(before[k] == hit_results(all.take(i as int))[k]);
                                assert(all.take(i as int)[k] == all.take(i + 1)[k]);
                            }
                        }
                        assert(result_views(list@) =~= hit_results(all.take(i + 1)));
                    },
                    None => {
                        proof {
                            lemma_first_malformed_prefix(all, i + 1);
                        }
                        return Err(ShapeError::MalformedHit(i));
                    },
                }
                i += 1;
            }
            assert(all.take(i as int) == all);
            Ok(list)
        },
        None => {
            assert(result_views(list@) =~= hit_results(listed_hits(response@)));
            Ok(list)
        },
    }
}

/// A malformed hit among the first `n` is the first malformed hit of all.
pub proof fn lemma_first_malformed_prefix(hits: Seq<JsonView>, n: int)
    requires
        0 <= n <= hits.len(),
        first_malformed(hits.take(n)) is Some,
    ensures
        first_malformed(hits) == first_malformed(hits.take(n)),
    decreases hits.len() - n,
{
    if n < hits.len() {
        assert(hits.take(n + 1).drop_last() == hits.take(n));
        lemma_first_malformed_prefix(hits, n + 1);
    } else {
        assert(hits.take(n) == hits);
    }
}

/// Shapes a response of the backend into the JSON text of the document of
/// its results.
pub fn shape_response(response: &Json) -> (out: Result<String, ShapeError>)
    ensures
        match out {
            Ok(s) => shaped(response@) == Ok::<_, ShapeError>(s@),
            Err(e) => shaped(response@) == Err::<Seq<char>, _>(e),
        },
{
    match read_hits(response) {
        Ok(list) => Ok(results_to_document(&list).to_text()),
        Err(e) => Err(e),
    }
}

/// Shapes the text of a response of the backend: reads it as JSON, takes the
/// results from its hits, and prints the document of the results.
pub fn shape_response_text(body: &str) -> (out: Result<String, ShapeError>)
    ensures
        match out {
            Ok(s) => shaped_text(body@) == Ok::<_, ShapeError>(s@),
            Err(e) => shaped_text(body@) == Err::<Seq<char>, _>(e),
        },
{
    match Json::parse(body) {
        Some(response) => shape_response(&response),
        None => Err(ShapeError::NotJson),
    }
}

/// One result as a document.
pub fn result_to_document(result: &SearchResult) -> (doc: Json)
    ensures
        doc@ == result_document(result@),
{
    Members::new().with("highlight", result.highlight.clone()).with(
        "url",
        Json::string(result.url.as_str()),
    ).with("title", Json::string(result.title.as_str())).with(
        "sort",
        Json::string(result.sort.as_str()),
    ).into_object()
}

/// The document that holds `results`, in order, under `hits`.
pub fn results_to_document(results: &Vec<SearchResult>) -> (doc: Json)
    ensures
        doc@ == results_document(result_views(results@)),
{
    let mut items = Items::new();
    let mut i: usize = 0;
    while i < results.len()
        invariant
            i <= results.len(),
            items@ == Seq::new(i as nat, |k: int| result_document(result_views(results@)[k])),
        decreases results.len() - i,
    {
        items = items.with(result_to_document(&results[i]));
        i += 1;
    }
    Members::new().with("hits", items.into_array()).into_object()
}

} // verus!
