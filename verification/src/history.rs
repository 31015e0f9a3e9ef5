//! In-memory event history and identifier formatting.
//!
//! The core appends structured event lines to a history owned by the
//! caller; where they are persisted is the surrounding program's concern.

use vstd::prelude::*;
use vstd::string::*;

verus! {

/// An append-only list of recorded event lines.
#[derive(Debug)]
pub struct HistoryLog {
    pub entries: Vec<String>,
}

impl HistoryLog {
    pub fn new() -> (r: HistoryLog)
        ensures
            r.entries@ == Seq::<String>::empty(),
    {
        HistoryLog { entries: Vec::new() }
    }
}

/// Write a message to the history (without extra prefixes).
pub fn log_to_history(log: &mut HistoryLog, message: &str)
    ensures
        final(log).entries@.len() == old(log).entries@.len() + 1,
        final(log).entries@.last()@ == message@,
        forall|i: int|
            0 <= i < old(log).entries@.len() ==> final(log).entries@[i] == #[trigger] old(
                log,
            ).entries@[i],
{
    let line = String::from_str(message);
    log.entries.push(line);
}

/// Shorten a long identifier (a token id or an order id) to its first and
/// last six characters around an ellipsis.
pub fn format_id(id: &str) -> (r: String)
    ensures
        id@.len() <= 12 ==> r@ == id@,
        id@.len() > 12 ==> r@ == id@.subrange(0, 6) + "..."@ + id@.subrange(
            id@.len() - 6,
            id@.len() as int,
        ),
{
    let n = id.unicode_len();
    if n <= 12 {
        String::from_str(id)
    } else {
        let head = id.substring_char(0, 6);
        let tail = id.substring_char(n - 6, n);
        let mut s = String::from_str(head);
        s.append("...");
        s.append(tail);
        s
    }
}

/// Shorten an optional identifier, standing in "None" where there is none.
pub fn format_id_opt(id: &Option<String>) -> (r: String)
    ensures
        (id matches Some(s) && s@.len() <= 12) ==> r@ == id->0@,
        (id matches Some(s) && s@.len() > 12) ==> r@ == id->0@.subrange(0, 6) + "..."@
            + id->0@.subrange(id->0@.len() - 6, id->0@.len() as int),
        id is None ==> r@ == "None"@,
{
    match id {
        Some(s) => format_id(s.as_str()),
        None => String::from_str("None"),
    }
}

} // verus!
