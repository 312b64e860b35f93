//! The small answers of the interface: the greeting, the line for a path
//! that is no part of the interface, and the key by which callers are
//! counted.
use crate::search::{Message, MessageView};
use crate::text::text_of;
use vstd::prelude::*;
use vstd::string::StringExecFns;

verus! {

/// The body of the greeting.
pub fn hello() -> (body: Message)
    ensures
        body@ == (MessageView { msg: "hello"@ }),
{
    Message { msg: "hello".to_owned() }
}

/// The line that answers a request for a path that the interface lacks.
pub open spec fn not_found_line_spec(path: Seq<char>) -> Seq<char> {
    "This API: '"@ + path + "' does not exist."@
}

/// The line that answers a request for a path that the interface lacks.
pub fn not_found_line(path: &str) -> (line: String)
    ensures
        line@ == not_found_line_spec(path@),
{
    let mut line = String::from_str("This API: '");
    line.append(path);
    line.append("' does not exist.");
    line
}

/// The key by which the requests of one caller are counted: none for a
/// preflight request, which is not counted; otherwise the address that a
/// proxy forwarded, else the address of the peer, else a fixed word.
pub open spec fn rate_limit_key_spec(
    preflight: bool,
    forwarded: Option<Seq<char>>,
    peer: Option<Seq<char>>,
) -> Option<Seq<char>> {
    if preflight {
        None
    } else {
        match (forwarded, peer) {
            (Some(address), _) => Some(address),
            (None, Some(address)) => Some(address),
            (None, None) => Some("unknown-ip"@),
        }
    }
}

/// The key by which the requests of one caller are counted.
pub fn rate_limit_key(preflight: bool, forwarded: Option<String>, peer: Option<String>) -> (key:
    Option<String>)
    ensures
        text_of(key) == rate_limit_key_spec(
            preflight,
            text_of(forwarded),
            text_of(peer),
        ),
{
    if preflight {
        None
    } else {
        match (forwarded, peer) {
            (Some(address), _) => Some(address),
            (None, Some(address)) => Some(address),
            (None, None) => Some("unknown-ip".to_owned()),
        }
    }
}

} // verus!
