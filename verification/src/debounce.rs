//! The search debouncer: a lookup fires only after the input has been quiet
//! for a fixed interval, and only the answer to the latest lookup counts.

use crate::text::{blank_str, is_blank};
use vstd::prelude::*;

verus! {

/// How long the input must stay quiet before a lookup fires, in
/// milliseconds.
pub const QUIET_MS: u64 = 250;

/// A lookup to carry out: the keyword and the sequence number that its
/// answer must bring back.
#[derive(Debug, Clone)]
pub struct SearchQuery {
    pub keyword: String,
    pub seq: u64,
}

/// The debouncer of one input field.
#[derive(Debug, Clone)]
pub struct Debouncer {
    /// The text noted last.
    pub text: String,
    /// When the lookup for it is due; none when nothing is scheduled.
    pub deadline: Option<u64>,
    /// The sequence number issued last; answers with another are stale.
    pub issued: u64,
}

pub open spec fn next_seq(seq: u64) -> u64 {
    if seq == u64::MAX {
        0
    } else {
        (seq + 1) as u64
    }
}

pub open spec fn due_at(now: u64) -> u64 {
    if now + QUIET_MS > u64::MAX {
        u64::MAX
    } else {
        (now + QUIET_MS) as u64
    }
}

/// Whether a lookup fires at `now`.
pub open spec fn fires(d: Debouncer, now: u64) -> bool {
    d.deadline matches Some(t) && now >= t
}

fn bump(seq: u64) -> (r: u64)
    ensures
        r == next_seq(seq),
{
    if seq == u64::MAX {
        0
    } else {
        seq + 1
    }
}

impl Debouncer {
    pub fn new() -> (d: Debouncer)
        ensures
            d.text@ == Seq::<char>::empty(),
            d.deadline is None,
            d.issued == 0,
    {
        Debouncer { text: String::new(), deadline: None, issued: 0 }
    }

    /// Notes the text after a keystroke at time `now`. Nothing fires. Text
    /// worth a lookup schedules one for the end of the quiet interval,
    /// replacing what was scheduled; blank text unschedules it and makes
    /// every answer still under way stale.
    pub fn note_input(&mut self, text: String, now: u64)
        ensures
            final(self).text == text,
            if is_blank(text@) {
                final(self).deadline is None && final(self).issued == next_seq(old(self).issued)
            } else {
                final(self).deadline == Some(due_at(now)) && final(self).issued == old(self).issued
            },
    {
        if blank_str(text.as_str()) {
            self.deadline = None;
            self.issued = bump(self.issued);
        } else {
            let due = if QUIET_MS > u64::MAX - now {
                u64::MAX
            } else {
                now + QUIET_MS
            };
            self.deadline = Some(due);
        }
        self.text = text;
    }

    /// The periodic check at time `now`: when the quiet interval is over,
    /// issues the next sequence number, clears the schedule and hands out the
    /// lookup; otherwise does nothing.
    pub fn tick(&mut self, now: u64) -> (q: Option<SearchQuery>)
        ensures
            final(self).text == old(self).text,
            if fires(*old(self), now) {
                &&& final(self).deadline is None
                &&& final(self).issued == next_seq(old(self).issued)
                &&& q matches Some(query) && query.keyword@ == old(self).text@ && query.seq
                    == final(self).issued
            } else {
                q is None && final(self).deadline == old(self).deadline && final(self).issued
                    == old(self).issued
            },
    {
        match self.deadline {
            Some(t) => {
                if now >= t {
                    self.deadline = None;
                    self.issued = bump(self.issued);
                    Some(SearchQuery { keyword: self.text.clone(), seq: self.issued })
                } else {
                    None
                }
            },
            None => None,
        }
    }

    /// Whether an answer carrying `seq` is the one still waited for.
    pub fn accepts(&self, seq: u64) -> (r: bool)
        ensures
            r == (seq == self.issued),
    {
        seq == self.issued
    }

    /// Whether a lookup is scheduled.
    pub fn pending(&self) -> (r: bool)
        ensures
            r == (self.deadline is Some),
    {
        self.deadline.is_some()
    }
}

} // verus!
