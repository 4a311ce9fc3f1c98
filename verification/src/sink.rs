//! A log sink for a text surface of bounded size: it keeps what was logged
//! as one text, starts over with a truncation marker when the text would
//! outgrow its limit, and keeps the latest warning as the status line.

use vstd::prelude::*;
use crate::record::Level;
use crate::text::{chars_of, string_of};

verus! {

/// The limit of a text surface unless another is asked for: one mebi of
/// characters.
pub const DEFAULT_LIMIT: usize = 1048576;

/// The line that stands for everything that was dropped.
pub open spec fn marker() -> Seq<char> {
    "==== 在此截断 ====\r\n"@
}

/// A message as it stands in the text: with a line ending.
pub open spec fn line_of(message: Seq<char>) -> Seq<char> {
    message + "\r\n"@
}

/// The text after `message` was logged to a surface that held `text`: the
/// message's line is added at the end, after the marker in place of the old
/// text where old text and line together are over the limit.
pub open spec fn text_after(text: Seq<char>, limit: nat, message: Seq<char>) -> Seq<char> {
    if text.len() + line_of(message).len() > limit {
        marker() + line_of(message)
    } else {
        text + line_of(message)
    }
}

/// The status after a message of `level` was logged: a warning becomes the
/// status, anything else leaves it.
pub open spec fn status_after(status: Seq<char>, level: Level, message: Seq<char>) -> Seq<char> {
    if level == Level::Warn {
        message
    } else {
        status
    }
}

/// A bounded text surface with a status line.
pub struct BoundedText {
    limit: usize,
    text: Vec<char>,
    status: Vec<char>,
}

impl BoundedText {
    /// The most characters that are kept before the text starts over.
    pub closed spec fn limit(&self) -> nat {
        self.limit as nat
    }

    /// The text kept.
    pub closed spec fn text(&self) -> Seq<char> {
        self.text@
    }

    /// The status line.
    pub closed spec fn status(&self) -> Seq<char> {
        self.status@
    }

    /// An empty surface with the given limit.
    pub fn new(limit: usize) -> (r: BoundedText)
        ensures
            r.limit() == limit,
            r.text().len() == 0,
            r.status().len() == 0,
    {
        BoundedText { limit, text: Vec::new(), status: Vec::new() }
    }

    /// Logs one message.
    pub fn emit(&mut self, level: Level, message: &str)
        ensures
            final(self).limit() == old(self).limit(),
            final(self).text() == text_after(old(self).text(), old(self).limit(), message@),
            final(self).status() == status_after(old(self).status(), level, message@),
            final(self).text().len() <= final(self).limit() || final(self).text() == marker()
                + line_of(message@),
    {
        let mut line = chars_of(message);
        if let Level::Warn = level {
            self.status = chars_of(message);
        }
        line.push('\r');
        line.push('\n');
        proof {
            reveal_strlit("\r\n");
            assert(line@ =~= line_of(message@));
        }
        let over = match self.text.len().checked_add(line.len()) {
            Some(sum) => sum > self.limit,
            None => true,
        };
        if over {
            self.text = chars_of("==== 在此截断 ====\r\n");
        }
        let ghost kept = self.text@;
        self.text.append(&mut line);
        assert(self.text@ =~= kept + line_of(message@));
    }

    /// The text kept.
    pub fn contents(&self) -> (out: String)
        ensures
            out@ == self.text(),
    {
        string_of(self.text.as_slice())
    }

    /// The status line: the latest warning.
    pub fn status_line(&self) -> (out: String)
        ensures
            out@ == self.status(),
    {
        string_of(self.status.as_slice())
    }
}

} // verus!
