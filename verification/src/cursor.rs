//! The pagination cursor: three sort values of the last result seen, which
//! the client hands back as a JSON array.
use crate::json::{item_views, json_parse, Json, JsonView};
use vstd::prelude::*;

verus! {

/// Whether `doc` has the form of a cursor: an array of exactly three numbers.
pub open spec fn is_cursor(doc: JsonView) -> bool {
    &&& doc matches JsonView::Array(items)
    &&& items.len() == 3
    &&& forall|i: int| 0 <= i < 3 ==> #[trigger] items[i] is Number
}

/// Whether `text` is JSON of the form of a cursor.
pub open spec fn is_cursor_text(text: Seq<char>) -> bool {
    match json_parse(text) {
        Some(doc) => is_cursor(doc),
        None => false,
    }
}

/// Decides whether a document has the form of a cursor. A number of a
/// document is always finite, so an array of three numbers is three finite
/// sort values.
pub fn is_cursor_document(doc: &Json) -> (valid: bool)
    ensures
        valid == is_cursor(doc@),
{
    match doc.as_array() {
        Some(items) => {
            if items.len() != 3 {
                return false;
            }
            let mut i: usize = 0;
            while i < 3
                invariant
                    i <= 3,
                    items@.len() == 3,
                    doc@ == JsonView::Array(item_views(items@)),
                    forall|k: int| 0 <= k < i ==> #[trigger] item_views(items@)[k] is Number,
                decreases 3 - i,
            {
                if !items[i].is_number() {
                    assert(!(item_views(items@)[i as int] is Number));
                    return false;
                }
                i += 1;
            }
            true
        },
        None => false,
    }
}

/// Decides whether a cursor that a client sent may reach the search backend:
/// it has to be JSON, an array, of exactly three elements, each a number.
pub fn is_valid_search_after(search_after: &str) -> (valid: bool)
    ensures
        valid == is_cursor_text(search_after@),
{
    match Json::parse(search_after) {
        Some(doc) => is_cursor_document(&doc),
        None => false,
    }
}

} // verus!
