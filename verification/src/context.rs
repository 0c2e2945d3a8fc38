//! The context object threaded through the update loop in place of global
//! mutable state: quit and suspend flags, and a bounded debug log.

use vstd::prelude::*;
use std::collections::VecDeque;

verus! {

/// At most this many log lines are kept.
pub const LOG_CAPACITY: usize = 3;

/// The views of the kept strings.
pub open spec fn texts_of(lines: Seq<String>) -> Seq<Seq<char>> {
    lines.map_values(|s: String| s@)
}

/// A log with `line` appended: when the capacity is exceeded the oldest
/// line falls out.
pub open spec fn appended_log(log: Seq<Seq<char>>, line: Seq<char>) -> Seq<Seq<char>> {
    if log.len() >= LOG_CAPACITY {
        log.push(line).drop_first()
    } else {
        log.push(line)
    }
}

pub struct Context {
    should_quit: bool,
    should_suspend: bool,
    log: VecDeque<String>,
}

impl Context {
    /// Whether the session was asked to end.
    pub closed spec fn quit_requested(&self) -> bool {
        self.should_quit
    }

    /// Whether the session was asked to suspend.
    pub closed spec fn suspend_requested(&self) -> bool {
        self.should_suspend
    }

    /// The kept log lines, oldest first.
    pub closed spec fn log(&self) -> Seq<Seq<char>> {
        texts_of(self.log@)
    }

    pub fn new() -> (r: Context)
        ensures
            !r.quit_requested(),
            !r.suspend_requested(),
            r.log() == Seq::<Seq<char>>::empty(),
    {
        let r = Context { should_quit: false, should_suspend: false, log: VecDeque::new() };
        proof {
            assert(r.log() =~= Seq::<Seq<char>>::empty());
        }
        r
    }

    /// Asks the session to end.
    pub fn request_quit(&mut self)
        ensures
            final(self).quit_requested(),
            final(self).suspend_requested() == old(self).suspend_requested(),
            final(self).log() == old(self).log(),
    {
        self.should_quit = true;
    }

    /// Whether the session was asked to end.
    pub fn should_quit(&self) -> (r: bool)
        ensures
            r == self.quit_requested(),
    {
        self.should_quit
    }

    /// Appends a log line; when the capacity is exceeded the oldest line
    /// falls out.
    pub fn push_log(&mut self, text_log: String)
        ensures
            final(self).quit_requested() == old(self).quit_requested(),
            final(self).suspend_requested() == old(self).suspend_requested(),
            final(self).log() == appended_log(old(self).log(), text_log@),
    {
        let ghost pushed = old(self).log@.push(text_log);
        self.log.push_back(text_log);
        proof {
            assert(texts_of(pushed) =~= texts_of(old(self).log@).push(pushed.last()@));
        }
        if self.log.len() > LOG_CAPACITY {
            self.log.pop_front();
            proof {
                assert(self.log@ =~= pushed.drop_first());
                assert(texts_of(pushed.drop_first()) =~= texts_of(pushed).drop_first());
            }
        }
    }

    /// The kept log lines, oldest first.
    pub fn get_log(&self) -> (r: &VecDeque<String>)
        ensures
            texts_of(r@) == self.log(),
    {
        &self.log
    }
}

} // verus!
