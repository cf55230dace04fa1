//! The capped log of the child process's output lines.

use std::collections::VecDeque;
use vstd::prelude::*;

verus! {

/// How many lines the log keeps.
pub const LOG_RING_CAP: usize = 1000;

/// A capped log of lines from the child process: it keeps the most recent
/// `LOG_RING_CAP` lines, oldest first.
pub struct LogRing {
    inner: VecDeque<String>,
}

/// The log after `line` was added to `lines`: at capacity the oldest line
/// goes first.
pub open spec fn ring_push(lines: Seq<String>, line: String) -> Seq<String> {
    if lines.len() >= LOG_RING_CAP {
        lines.drop_first().push(line)
    } else {
        lines.push(line)
    }
}

/// The log after `lines` were added one by one to an empty log.
pub open spec fn ring_of(lines: Seq<String>) -> Seq<String>
    decreases lines.len(),
{
    if lines.len() == 0 {
        Seq::empty()
    } else {
        ring_push(ring_of(lines.drop_last()), lines.last())
    }
}

/// The last `n` of `lines`, or all of them where there are fewer.
pub open spec fn last_lines(lines: Seq<String>, n: nat) -> Seq<String> {
    if lines.len() <= n {
        lines
    } else {
        lines.subrange(lines.len() - n, lines.len() as int)
    }
}

impl View for LogRing {
    type V = Seq<String>;

    closed spec fn view(&self) -> Seq<String> {
        self.inner@
    }
}

impl Default for LogRing {
    fn default() -> (r: Self)
        ensures
            r@ == Seq::<String>::empty(),
    {
        LogRing::new()
    }
}

impl LogRing {
    #[verifier::type_invariant]
    spec fn within_cap(self) -> bool {
        self.inner@.len() <= LOG_RING_CAP
    }

    /// An empty log.
    pub fn new() -> (r: Self)
        ensures
            r@ == Seq::<String>::empty(),
    {
        LogRing { inner: VecDeque::with_capacity(LOG_RING_CAP) }
    }

    /// Adds a line; when the log is full the oldest line is dropped.
    pub fn push(&mut self, line: String)
        ensures
            final(self)@ == ring_push(old(self)@, line),
            final(self)@.len() <= LOG_RING_CAP,
    {
        proof {
            use_type_invariant(&*self);
        }
        let mut lines = VecDeque::new();
        std::mem::swap(&mut lines, &mut self.inner);
        if lines.len() == LOG_RING_CAP {
            lines.pop_front();
        }
        lines.push_back(line);
        self.inner = lines;
    }

    /// The lines in the log, oldest first.
    pub fn snapshot(&self) -> (r: Vec<String>)
        ensures
            r@ == self@,
            r@.len() <= LOG_RING_CAP,
    {
        proof {
            use_type_invariant(self);
        }
        let mut out: Vec<String> = Vec::new();
        let mut i: usize = 0;
        while i < self.inner.len()
            invariant
                i <= self.inner@.len(),
                out@ == self.inner@.subrange(0, i as int),
            decreases self.inner@.len() - i,
        {
            out.push(self.inner[i].clone());
            i = i + 1;
        }
        assert(out@ =~= self.inner@);
        out
    }
}

/// A log filled line by line from empty holds exactly the last
/// `LOG_RING_CAP` lines that were added, oldest first.
pub proof fn lemma_ring_keeps_last_lines(lines: Seq<String>)
    ensures
        ring_of(lines) == last_lines(lines, LOG_RING_CAP as nat),
    decreases lines.len(),
{
    if lines.len() > 0 {
        lemma_ring_keeps_last_lines(lines.drop_last());
        let prev = lines.drop_last();
        if prev.len() >= LOG_RING_CAP {
            assert(last_lines(prev, LOG_RING_CAP as nat).drop_first().push(lines.last())
                =~= last_lines(lines, LOG_RING_CAP as nat));
        } else {
            assert(prev.push(lines.last()) =~= lines);
        }
    }
}

/// The text of one line of child output as the log records it:
/// `[channel] line`.
pub open spec fn tagged_line(channel: Seq<char>, line: Seq<char>) -> Seq<char> {
    seq!['['] + channel + seq![']', ' '] + line
}

/// Formats one line of child output for the log, tagged with the stream it
/// came from (`out` or `err`).
pub fn tag_line(channel: &str, line: &str) -> (r: String)
    ensures
        r@ == tagged_line(channel@, line@),
{
    let mut out = String::from_str("[");
    out.append(channel);
    out.append("] ");
    out.append(line);
    proof {
        reveal_strlit("[");
        reveal_strlit("] ");
    }
    out
}

} // verus!
