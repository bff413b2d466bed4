use vstd::prelude::*;
use crate::query::Statement;
use crate::time::current_timestamp;
use crate::time::valid_timestamp;

verus! {

/// A structured log entry as received over the wire: a key and a value, both
/// accepted verbatim — an empty string is a valid field.
pub struct LogEntry {
    pub key: String,
    pub value: String,
}

/// A free-text log entry: a message, with an optional timestamp that is kept
/// verbatim when supplied.
pub struct TextEntry {
    pub message: String,
    pub timestamp: Option<String>,
}

/// The insert statement of the structured variant.
pub open spec fn insert_log_sql() -> Seq<char> {
    "INSERT INTO logs (key, value, timestamp) VALUES (?, ?, ?)"@
}

/// The insert statement of the free-text variant.
pub open spec fn insert_message_sql() -> Seq<char> {
    "INSERT INTO logs (message, timestamp) VALUES (?, ?)"@
}

/// Builds the parameterized insert for a structured entry around a given
/// timestamp: the statement text is fixed, and the key, value and timestamp
/// travel only as positional parameters.
pub fn build_insert_with(entry: LogEntry, timestamp: String) -> (s: Statement)
    ensures
        s.sql@ == insert_log_sql(),
        s.params.deep_view() == seq![entry.key@, entry.value@, timestamp@],
{
    let LogEntry { key, value } = entry;
    let mut params: Vec<String> = Vec::new();
    params.push(key);
    params.push(value);
    params.push(timestamp);
    proof {
        assert(params.deep_view() =~= seq![entry.key@, entry.value@, timestamp@]);
    }
    Statement { sql: "INSERT INTO logs (key, value, timestamp) VALUES (?, ?, ?)".to_owned(), params }
}

/// Builds the insert for a structured entry, deriving the timestamp from the
/// clock at write time, not at read time.
pub fn build_insert(entry: LogEntry) -> (s: Statement)
    ensures
        s.sql@ == insert_log_sql(),
        s.params.deep_view().len() == 3,
        s.params.deep_view()[0] == entry.key@,
        s.params.deep_view()[1] == entry.value@,
        valid_timestamp(s.params.deep_view()[2]),
{
    let ts = current_timestamp();
    build_insert_with(entry, ts)
}

/// The timestamp stored for a free-text entry: the supplied one verbatim,
/// or, when none was supplied, the current clock reading, which always has
/// the parseable timestamp shape.
pub fn choose_timestamp(provided: Option<String>) -> (r: String)
    ensures
        provided matches Some(t) ==> r == t,
        provided is None ==> valid_timestamp(r@),
{
    match provided {
        Option::Some(t) => t,
        Option::None => current_timestamp(),
    }
}

/// Builds the insert for a free-text entry: the message verbatim, and the
/// chosen timestamp.
pub fn build_insert_message(entry: TextEntry) -> (s: Statement)
    ensures
        s.sql@ == insert_message_sql(),
        s.params.deep_view().len() == 2,
        s.params.deep_view()[0] == entry.message@,
        entry.timestamp matches Some(t) ==> s.params.deep_view()[1] == t@,
        entry.timestamp is None ==> valid_timestamp(s.params.deep_view()[1]),
{
    let TextEntry { message, timestamp } = entry;
    let ts = choose_timestamp(timestamp);
    let mut params: Vec<String> = Vec::new();
    params.push(message);
    params.push(ts);
    proof {
        assert(params.deep_view() =~= seq![entry.message@, ts@]);
    }
    Statement { sql: "INSERT INTO logs (message, timestamp) VALUES (?, ?)".to_owned(), params }
}

} // verus!
