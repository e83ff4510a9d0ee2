//! The ring log: a bounded buffer of the server's output lines that evicts
//! its oldest line first.

use vstd::prelude::*;

verus! {

/// The number of lines that the ring log keeps.
pub const LOG_CAPACITY: usize = 2000;

/// What the log holds after `line` arrives: the line is appended, and the
/// oldest lines leave until no more than `LOG_CAPACITY` remain.
pub open spec fn spec_log_push(log: Seq<Seq<char>>, line: Seq<char>) -> Seq<Seq<char>> {
    let all = log.push(line);
    if all.len() > LOG_CAPACITY {
        all.skip(all.len() - LOG_CAPACITY)
    } else {
        all
    }
}

/// The server's most recent output lines, oldest first.
pub struct LogBuffer {
    lines: Vec<String>,
}

impl View for LogBuffer {
    type V = Seq<Seq<char>>;

    closed spec fn view(&self) -> Seq<Seq<char>> {
        self.lines@.map_values(|s: String| s@)
    }
}

impl LogBuffer {
    /// The invariant of the log: it holds no more than `LOG_CAPACITY` lines.
    pub closed spec fn wf(&self) -> bool {
        self.lines@.len() <= LOG_CAPACITY
    }

    /// A well-formed log is within its capacity.
    pub proof fn lemma_wf_bounded(&self)
        ensures
            self.wf() <==> self@.len() <= LOG_CAPACITY,
    {
    }

    /// An empty log.
    pub fn new() -> (log: Self)
        ensures
            log.wf(),
            log@ == Seq::<Seq<char>>::empty(),
    {
        let log = LogBuffer { lines: Vec::new() };
        assert(log@ =~= Seq::<Seq<char>>::empty());
        log
    }

    /// The number of lines held, never more than `LOG_CAPACITY`.
    pub fn len(&self) -> (n: usize)
        ensures
            n == self@.len(),
            self.wf() ==> n <= LOG_CAPACITY,
    {
        self.lines.len()
    }

    /// Whether the log holds no line.
    pub fn is_empty(&self) -> (b: bool)
        ensures
            b == (self@.len() == 0),
    {
        self.lines.len() == 0
    }

    /// The line at position `i`, counted from the oldest.
    pub fn line(&self, i: usize) -> (s: &String)
        requires
            i < self@.len(),
        ensures
            s@ == self@[i as int],
    {
        &self.lines[i]
    }

    /// Appends `line`; at capacity the oldest line leaves first.
    pub fn push(&mut self, line: String)
        requires
            old(self).wf(),
        ensures
            final(self).wf(),
            final(self)@ == spec_log_push(old(self)@, line@),
            final(self)@.len() <= LOG_CAPACITY,
    {
        let ghost before = self.lines@;
        self.lines.push(line);
        if self.lines.len() > LOG_CAPACITY {
            let _ = self.lines.remove(0);
            assert(self.lines@ =~= before.push(line).skip(1));
        }
        assert(self@ =~= spec_log_push(old(self)@, line@));
    }

    /// Forgets every line.
    pub fn clear(&mut self)
        ensures
            final(self).wf(),
            final(self)@ == Seq::<Seq<char>>::empty(),
    {
        self.lines.clear();
        assert(self@ =~= Seq::<Seq<char>>::empty());
    }
}

/// The log never grows past its capacity, whatever arrives.
pub proof fn lemma_log_bounded(log: Seq<Seq<char>>, line: Seq<char>)
    ensures
        spec_log_push(log, line).len() <= LOG_CAPACITY,
        log.len() < LOG_CAPACITY ==> spec_log_push(log, line) == log.push(line),
{
}

/// A line that arrives at a full log takes the place of the oldest one: the
/// others keep their order and move up by one.
pub proof fn lemma_log_evicts_oldest(log: Seq<Seq<char>>, line: Seq<char>)
    requires
        log.len() == LOG_CAPACITY,
    ensures
        spec_log_push(log, line) == log.skip(1).push(line),
        spec_log_push(log, line).len() == LOG_CAPACITY,
        spec_log_push(log, line).last() == line,
        forall|i: int| 0 <= i < LOG_CAPACITY - 1 ==> spec_log_push(log, line)[i] == log[i + 1],
{
    assert(spec_log_push(log, line) =~= log.skip(1).push(line));
}

} // verus!
