//! Log records: what a run tells its caller while it goes on.

use vstd::prelude::*;
use vstd::string::StringExecFns;

verus! {

/// How much a record matters. A warning names the phase that begins, an
/// info line gives detail, an error line is a failure or what a subprocess
/// wrote to its error stream.
#[derive(Debug, Clone, Copy, PartialEq, Eq, Structural)]
pub enum Level {
    Error,
    Warn,
    Info,
}

/// One line for the log.
#[derive(Debug)]
pub struct Record {
    pub level: Level,
    pub message: String,
}

impl View for Record {
    type V = (Level, Seq<char>);

    open spec fn view(&self) -> (Level, Seq<char>) {
        (self.level, self.message@)
    }
}

/// The records, each by its level and text.
pub open spec fn record_views(records: Seq<Record>) -> Seq<(Level, Seq<char>)> {
    records.map_values(|r: Record| r@)
}

/// Appends a record to a log.
pub fn log(records: &mut Vec<Record>, level: Level, message: String)
    ensures
        record_views(final(records)@) == record_views(old(records)@).push((level, message@)),
{
    records.push(Record { level, message });
    assert(record_views(records@) =~= record_views(old(records)@).push((level, message@)));
}

/// Appends a record with the text `message` to a log.
pub fn log_str(records: &mut Vec<Record>, level: Level, message: &str)
    ensures
        record_views(final(records)@) == record_views(old(records)@).push((level, message@)),
{
    log(records, level, String::from_str(message));
}

/// `head` followed by `tail`.
pub fn concat(head: &str, tail: &str) -> (out: String)
    ensures
        out@ == head@ + tail@,
{
    let mut out = String::from_str(head);
    out.append(tail);
    out
}

} // verus!
