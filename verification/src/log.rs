//! The log sink: an append-only record of what a run did.

use vstd::prelude::*;
use vstd::string::*;

verus! {

/// The messages appended to the log so far, oldest first. The caller writes
/// them to the log file in this order; nothing is ever taken out again.
#[derive(Debug)]
pub struct Log {
    entries: Vec<String>,
}

impl View for Log {
    type V = Seq<Seq<char>>;

    closed spec fn view(&self) -> Seq<Seq<char>> {
        Seq::new(self.entries@.len(), |i: int| self.entries@[i]@)
    }
}

impl Log {
    /// A log to which nothing has been appended.
    pub fn new() -> (log: Log)
        ensures
            log@ == Seq::<Seq<char>>::empty(),
    {
        let log = Log { entries: Vec::new() };
        assert(log@ =~= Seq::<Seq<char>>::empty());
        log
    }

    /// How many messages have been appended.
    pub fn len(&self) -> (n: usize)
        ensures
            n == self@.len(),
    {
        self.entries.len()
    }

    /// The message appended at position `i`.
    pub fn entry(&self, i: usize) -> (message: &String)
        requires
            i < self@.len(),
        ensures
            message@ == self@[i as int],
    {
        &self.entries[i]
    }
}

/// Appends `message` to the log. Earlier messages stay as they are.
pub fn push_to_log(log: &mut Log, message: String)
    ensures
        final(log)@ == old(log)@.push(message@),
{
    log.entries.push(message);
    assert(log@ =~= old(log)@.push(message@));
}

/// Appends a single line break, the first thing a run writes: the caller
/// learns from writing it whether the log file can be appended to at all.
pub fn test_log(log: &mut Log)
    ensures
        final(log)@ == old(log)@.push("\n"@),
{
    push_to_log(log, String::from_str("\n"));
}

} // verus!
