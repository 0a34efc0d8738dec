use std::collections::VecDeque;

use vstd::prelude::*;

verus! {

/// Number of log lines that the firmware keeps in memory.
pub const LOG_CAPACITY: usize = 30;

/// The history after appending `line`: the oldest line is dropped when the
/// history grows past `LOG_CAPACITY`.
pub open spec fn appended(history: Seq<String>, line: String) -> Seq<String> {
    if history.len() + 1 > LOG_CAPACITY {
        history.push(line).drop_first()
    } else {
        history.push(line)
    }
}

/// Appends `line` to the in-memory log history.
pub fn push_log(logs: &mut VecDeque<String>, line: String)
    ensures
        final(logs)@ == appended(old(logs)@, line),
{
    logs.push_back(line);
    if logs.len() > LOG_CAPACITY {
        logs.pop_front();
    }
    assert(logs@ =~= appended(old(logs)@, line));
}

/// A history of at most `LOG_CAPACITY` lines stays within the capacity, ends
/// with the line just appended, and keeps the lines before it in order.
pub proof fn lemma_appended_bounded(history: Seq<String>, line: String)
    requires
        history.len() <= LOG_CAPACITY,
    ensures
        appended(history, line).len() <= LOG_CAPACITY,
        appended(history, line).last() == line,
        appended(history, line).drop_last() == if history.len() == LOG_CAPACITY {
            history.drop_first()
        } else {
            history
        },
{
    assert(appended(history, line).drop_last() =~= if history.len() == LOG_CAPACITY {
        history.drop_first()
    } else {
        history
    });
}

} // verus!
