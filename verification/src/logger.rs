//! Log lines: the severity headers and the layout of one line.
use vstd::prelude::*;
use vstd::string::StringExecFns;

verus! {

/// List of different types of log headers.
#[allow(non_camel_case_types)]
#[derive(Clone, Copy, Debug, PartialEq, Eq)]
pub enum Header {
    SUCCESS,
    INFO,
    WARNING,
    ERROR,
}

impl Header {
    /// The word that a line of this severity carries.
    pub open spec fn label_spec(self) -> Seq<char> {
        match self {
            Header::SUCCESS => "SUCCESS"@,
            Header::INFO => "INFO"@,
            Header::WARNING => "WARNING"@,
            Header::ERROR => "ERROR"@,
        }
    }

    /// The word that a line of this severity carries.
    pub fn label(&self) -> (word: &'static str)
        ensures
            word@ == self.label_spec(),
    {
        match self {
            Header::SUCCESS => "SUCCESS",
            Header::INFO => "INFO",
            Header::WARNING => "WARNING",
            Header::ERROR => "ERROR",
        }
    }
}

/// One log line: the time in square brackets, the header and the message, a
/// space between each.
pub open spec fn log_line_spec(timestamp: Seq<char>, header: Header, message: Seq<char>) -> Seq<
    char,
> {
    "["@ + timestamp + "] "@ + header.label_spec() + " "@ + message
}

/// Lays out one log line for a message that was logged at `timestamp`.
pub fn log_line(timestamp: &str, header: Header, message: &str) -> (line: String)
    ensures
        line@ == log_line_spec(timestamp@, header, message@),
{
    let mut line = String::from_str("[");
    line.append(timestamp);
    line.append("] ");
    line.append(header.label());
    line.append(" ");
    line.append(message);
    line
}

} // verus!
