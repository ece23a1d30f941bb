//! The continuation aggregator: the small state machine that merges a
//! multi-line RUN command (backslash line continuation) into one command
//! string before it is dispatched.

use vstd::prelude::*;

use crate::text::ends_with_backslash;
use crate::text::has_continuation_marker;
use crate::text::push_char;
use crate::text::substr;

verus! {

/// The aggregator's abstract state: the accumulated text, and whether a
/// continuation is open.
pub struct AggView {
    pub buffer: Seq<char>,
    pub open: bool,
}

/// The pending command buffer. While `open`, every incoming line is
/// appended (stripped of a trailing continuation marker and joined with a
/// single space) until a line without the marker arrives, which closes the
/// buffer and hands the full command back.
pub struct Aggregator {
    buffer: String,
    open: bool,
}

impl View for Aggregator {
    type V = AggView;

    closed spec fn view(&self) -> AggView {
        AggView { buffer: self.buffer@, open: self.open }
    }
}

impl Aggregator {
    /// An idle aggregator with an empty buffer.
    pub fn new() -> (r: Self)
        ensures
            !r@.open,
            r@.buffer == Seq::<char>::empty(),
    {
        Aggregator { buffer: String::new(), open: false }
    }

    pub fn is_open(&self) -> (r: bool)
        ensures
            r == self@.open,
    {
        self.open
    }

    /// Opens a continuation with the stripped first command part (which the
    /// classifier has already given its trailing space).
    pub fn begin(&mut self, partial: String)
        requires
            !old(self)@.open,
        ensures
            final(self)@.open,
            final(self)@.buffer == partial@,
    {
        self.buffer = partial;
        self.open = true;
    }

    /// Takes the next line of an open continuation. A line that ends with
    /// the marker is appended without it, joined with a single space, and
    /// the continuation stays open; any other line is appended as it is and
    /// closes the continuation, yielding the full command.
    pub fn feed(&mut self, line: &str) -> (r: Option<String>)
        requires
            old(self)@.open,
        ensures
            ends_with_backslash(line@) ==> final(self)@.open && final(self)@.buffer == old(
                self,
            )@.buffer + line@.subrange(0, line@.len() - 1).push(' ') && r is None,
            !ends_with_backslash(line@) ==> !final(self)@.open && final(self)@.buffer
                == Seq::<char>::empty() && (r matches Some(c) && c@ == old(self)@.buffer + line@),
    {
        if has_continuation_marker(line) {
            let n = line.unicode_len();
            let stripped = substr(line, 0, n - 1);
            self.buffer.append(stripped.as_str());
            push_char(&mut self.buffer, ' ');
            proof {
                assert(self.buffer@ =~= old(self)@.buffer + line@.subrange(
                    0,
                    line@.len() - 1,
                ).push(' '));
            }
            None
        } else {
            let mut full = self.buffer.clone();
            full.append(line);
            self.buffer = String::new();
            self.open = false;
            Some(full)
        }
    }
}

} // verus!
