//! The request body that is sent to the search backend.
use crate::json::{find_member, json_parse, no_items, no_members, Items, Json, JsonNumber, JsonView, Members};
use crate::query::{compiled, to_simple_qs};
use crate::text::text_of;
use vstd::prelude::*;

verus! {

/// How a request asks for its page: by the offset of the first result, or by
/// the cursor of the last result of the page before.
pub enum Paging {
    From(usize),
    SearchAfter(Json),
}

/// The mathematical value of a [`Paging`].
pub enum PagingView {
    From(usize),
    SearchAfter(JsonView),
}

impl View for Paging {
    type V = PagingView;

    open spec fn view(&self) -> PagingView {
        match self {
            Paging::From(offset) => PagingView::From(*offset),
            Paging::SearchAfter(cursor) => PagingView::SearchAfter(cursor@),
        }
    }
}

/// A string as a document.
pub open spec fn text(s: Seq<char>) -> JsonView {
    JsonView::String(s)
}

/// A non-negative integer as a document.
pub open spec fn count(n: u64) -> JsonView {
    JsonView::Number(JsonNumber::PosInt(n))
}

/// The fields of a stored page that a result carries.
pub open spec fn source_fields() -> JsonView {
    JsonView::Array(no_items().push(text("url"@)).push(text("title"@)).push(text("content"@)))
}

/// The query clause: the compiled expression, searched in the title, which
/// counts twice, and in the content.
pub open spec fn query_clause(query: Seq<char>) -> JsonView {
    JsonView::Object(
        no_members().push(
            (
                "simple_query_string"@,
                JsonView::Object(
                    no_members().push(("query"@, text(query))).push(
                        (
                            "fields"@,
                            JsonView::Array(
                                no_items().push(text("title^2"@)).push(text("content"@)),
                            ),
                        ),
                    ).push(("default_operator"@, text("and"@))).push(
                        ("flags"@, text("AND|OR|PHRASE|FUZZY"@)),
                    ).push(("fuzzy_prefix_length"@, count(1))).push(
                        ("fuzzy_max_expansions"@, count(100)),
                    ),
                ),
            ),
        ),
    )
}

/// How one of the long fields is highlighted: one fragment of 500 characters.
pub open spec fn one_fragment() -> JsonView {
    JsonView::Object(
        no_members().push(("fragment_size"@, count(500))).push(("number_of_fragments"@, count(1))),
    )
}

/// The highlighting clause: matches are set in bold, in one fragment of the
/// title and of the content, and in the whole address.
pub open spec fn highlight_clause() -> JsonView {
    JsonView::Object(
        no_members().push(("pre_tags"@, JsonView::Array(no_items().push(text("<b>"@))))).push(
            ("post_tags"@, JsonView::Array(no_items().push(text("</b>"@)))),
        ).push(
            (
                "fields"@,
                JsonView::Object(
                    no_members().push(("title"@, one_fragment())).push(
                        ("content"@, one_fragment()),
                    ).push(
                        (
                            "url"@,
                            JsonView::Object(no_members().push(("number_of_fragments"@, count(0)))),
                        ),
                    ),
                ),
            ),
        ),
    )
}

/// One level of the sort: a field and its direction.
pub open spec fn sort_level(field: Seq<char>, order: Seq<char>) -> JsonView {
    JsonView::Object(
        no_members().push((field, JsonView::Object(no_members().push(("order"@, text(order)))))),
    )
}

/// The sort: best score first, then newest page first, then the position in
/// the shard, which makes the order total.
pub open spec fn sort_clause() -> JsonView {
    JsonView::Array(
        no_items().push(sort_level("_score"@, "desc"@)).push(
            sort_level("page_created_at"@, "desc"@),
        ).push(sort_level("_shard_doc"@, "asc"@)),
    )
}

/// The member of the request that asks for the page.
pub open spec fn paging_member(paging: PagingView) -> (Seq<char>, JsonView) {
    match paging {
        PagingView::From(offset) => ("from"@, count(offset as u64)),
        PagingView::SearchAfter(cursor) => ("search_after"@, cursor),
    }
}

/// The members of every request, whatever its page: the fixed clauses and a
/// page size of 20.
pub open spec fn fixed_members(query: Seq<char>) -> Seq<(Seq<char>, JsonView)> {
    no_members().push(("_source"@, source_fields())).push(("size"@, count(20))).push(
        ("track_total_hits"@, JsonView::Bool(false)),
    ).push(("query"@, query_clause(query))).push(("highlight"@, highlight_clause())).push(
        ("sort"@, sort_clause()),
    )
}

/// The request body for a compiled query and a page: the fixed members and
/// the one paging member.
pub open spec fn request_body(query: Seq<char>, paging: PagingView) -> JsonView {
    JsonView::Object(fixed_members(query).push(paging_member(paging)))
}

/// The page that a request asks for: with a cursor, what the cursor reads as,
/// or `null` where it is no JSON; without one, the offset.
pub open spec fn chosen_paging(from: usize, search_after: Option<Seq<char>>) -> PagingView {
    match search_after {
        Some(cursor) => PagingView::SearchAfter(
            match json_parse(cursor) {
                Some(doc) => doc,
                None => JsonView::Null,
            },
        ),
        None => PagingView::From(from),
    }
}

/// None of the fixed members asks for a page, and the page size is 20.
pub proof fn lemma_fixed_members(query: Seq<char>)
    ensures
        find_member(fixed_members(query), "from"@) is None,
        find_member(fixed_members(query), "search_after"@) is None,
        find_member(fixed_members(query), "size"@) == Some(count(20)),
{
    reveal_strlit("from");
    reveal_strlit("search_after");
    reveal_strlit("_source");
    reveal_strlit("size");
    reveal_strlit("track_total_hits");
    reveal_strlit("query");
    reveal_strlit("highlight");
    reveal_strlit("sort");
    let m0 = no_members();
    let m1 = m0.push(("_source"@, source_fields()));
    let m2 = m1.push(("size"@, count(20)));
    let m3 = m2.push(("track_total_hits"@, JsonView::Bool(false)));
    let m4 = m3.push(("query"@, query_clause(query)));
    let m5 = m4.push(("highlight"@, highlight_clause()));
    let m6 = m5.push(("sort"@, sort_clause()));
    assert(m1.drop_last() == m0);
    assert(m2.drop_last() == m1);
    assert(m3.drop_last() == m2);
    assert(m4.drop_last() == m3);
    assert(m5.drop_last() == m4);
    assert(m6.drop_last() == m5);
    assert(m6 == fixed_members(query));
    assert("from"@[0] == 'f' && "search_after"@[1] == 'e' && "size"@[1] == 'i');
    assert("_source"@[0] == '_' && "track_total_hits"@[0] == 't' && "query"@[0] == 'q');
    assert("highlight"@[0] == 'h' && "sort"@[1] == 'o' && "size"@[0] == 's');
    reveal_with_fuel(find_member, 7);
}

/// A request asks for its page in exactly one way: with a cursor it has the
/// member `search_after`, which is the cursor, and no `from`; with an offset
/// it has `from`, which is the offset, and no `search_after`. Either way the
/// page size is 20.
pub proof fn lemma_one_paging_member(query: Seq<char>, paging: PagingView)
    ensures
        paging matches PagingView::SearchAfter(cursor) ==> {
            &&& request_body(query, paging).member("search_after"@) == Some(cursor)
            &&& !request_body(query, paging).has_member("from"@)
        },
        paging matches PagingView::From(offset) ==> {
            &&& request_body(query, paging).member("from"@) == Some(count(offset as u64))
            &&& !request_body(query, paging).has_member("search_after"@)
        },
        request_body(query, paging).member("size"@) == Some(count(20)),
{
    lemma_fixed_members(query);
    reveal_strlit("from");
    reveal_strlit("search_after");
    reveal_strlit("size");
    let fixed = fixed_members(query);
    assert(fixed.push(paging_member(paging)).drop_last() == fixed);
    assert("from"@[0] == 'f' && "search_after"@[0] == 's' && "size"@[1] == 'i'
        && "search_after"@[1] == 'e');
}

fn source_fields_document() -> (doc: Json)
    ensures
        doc@ == source_fields(),
{
    Items::new().with(Json::string("url")).with(Json::string("title")).with(
        Json::string("content"),
    ).into_array()
}

fn query_clause_document(query: &str) -> (doc: Json)
    ensures
        doc@ == query_clause(query@),
{
    let fields = Items::new().with(Json::string("title^2")).with(Json::string("content"));
    let inner = Members::new().with("query", Json::string(query)).with(
        "fields",
        fields.into_array(),
    ).with("default_operator", Json::string("and")).with(
        "flags",
        Json::string("AND|OR|PHRASE|FUZZY"),
    ).with("fuzzy_prefix_length", Json::unsigned(1)).with(
        "fuzzy_max_expansions",
        Json::unsigned(100),
    );
    Members::new().with("simple_query_string", inner.into_object()).into_object()
}

fn one_fragment_document() -> (doc: Json)
    ensures
        doc@ == one_fragment(),
{
    Members::new().with("fragment_size", Json::unsigned(500)).with(
        "number_of_fragments",
        Json::unsigned(1),
    ).into_object()
}

fn highlight_document() -> (doc: Json)
    ensures
        doc@ == highlight_clause(),
{
    let whole = Members::new().with("number_of_fragments", Json::unsigned(0));
    let fields = Members::new().with("title", one_fragment_document()).with(
        "content",
        one_fragment_document(),
    ).with("url", whole.into_object());
    Members::new().with("pre_tags", Items::new().with(Json::string("<b>")).into_array()).with(
        "post_tags",
        Items::new().with(Json::string("</b>")).into_array(),
    ).with("fields", fields.into_object()).into_object()
}

fn sort_level_document(field: &str, order: &str) -> (doc: Json)
    ensures
        doc@ == sort_level(field@, order@),
{
    let direction = Members::new().with("order", Json::string(order));
    Members::new().with(field, direction.into_object()).into_object()
}

fn sort_document() -> (doc: Json)
    ensures
        doc@ == sort_clause(),
{
    Items::new().with(sort_level_document("_score", "desc")).with(
        sort_level_document("page_created_at", "desc"),
    ).with(sort_level_document("_shard_doc", "asc")).into_array()
}

/// Builds the request body for a compiled query and a page.
pub fn request_document(query: &str, paging: Paging) -> (body: Json)
    ensures
        body@ == request_body(query@, paging@),
{
    let members = Members::new().with("_source", source_fields_document()).with(
        "size",
        Json::unsigned(20),
    ).with("track_total_hits", Json::boolean(false)).with(
        "query",
        query_clause_document(query),
    ).with("highlight", highlight_document()).with("sort", sort_document());
    let members = match paging {
        Paging::From(offset) => members.with("from", Json::unsigned(offset as u64)),
        Paging::SearchAfter(cursor) => members.with("search_after", cursor),
    };
    members.into_object()
}

/// Builds the request body for the free text `input`. With a cursor the
/// request continues after it and has no offset; the cursor goes in as it
/// reads, or as `null` where it is no JSON. Without one the request starts at
/// the offset `from`.
pub fn build_search_query(input: &str, from: usize, search_after: Option<String>) -> (body: Json)
    ensures
        body@ == request_body(compiled(input@), chosen_paging(from, text_of(search_after))),
        search_after is Some ==> body@.has_member("search_after"@) && !body@.has_member("from"@),
        search_after is None ==> body@.has_member("from"@) && !body@.has_member("search_after"@),
{
    proof {
        lemma_one_paging_member(compiled(input@), chosen_paging(from, text_of(search_after)));
    }
    let query = to_simple_qs(input);
    let paging = match search_after {
        Some(cursor) => {
            match Json::parse(cursor.as_str()) {
                Some(doc) => Paging::SearchAfter(doc),
                None => Paging::SearchAfter(Json::null()),
            }
        },
        None => Paging::From(from),
    };
    request_document(query.as_str(), paging)
}

} // verus!
