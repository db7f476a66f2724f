//! A first-match scan over an ordered list of candidates.
//!
//! The supervisor tries candidates one by one — runtime executables to
//! probe, ports to test — and takes the first that answers well. The test
//! itself is outside work the application performs; this machine keeps the
//! position and records each answer, so that the index it reports is proved
//! to be the first one whose answer was `true`.

use vstd::prelude::*;

verus! {

/// Walks candidate indices `0 .. total` in order and remembers the first
/// index whose recorded answer was `true`. The ghost field `answers` holds
/// every answer recorded so far.
pub struct FirstMatchScan {
    pub total: usize,
    pub next: usize,
    pub found: Option<usize>,
    pub answers: Ghost<Seq<bool>>,
}

impl FirstMatchScan {
    /// One answer was recorded for each index below `next`, and `found`
    /// is the first index that answered `true`, if any answered at all.
    pub open spec fn wf(self) -> bool {
        &&& self.answers@.len() == self.next
        &&& self.next <= self.total
        &&& match self.found {
            Some(i) => {
                &&& i + 1 == self.next
                &&& self.answers@[i as int]
                &&& forall|j: int| 0 <= j < i ==> !self.answers@[j]
            },
            None => forall|j: int| 0 <= j < self.next ==> !self.answers@[j],
        }
    }

    /// The scan still wants an answer: nothing matched yet and candidates
    /// remain.
    pub open spec fn scanning(self) -> bool {
        self.found is None && self.next < self.total
    }

    /// Begins a scan over `total` candidates.
    pub fn new(total: usize) -> (r: Self)
        ensures
            r.wf(),
            r.total == total,
            r.next == 0,
            r.found is None,
            r.answers@ == Seq::<bool>::empty(),
    {
        FirstMatchScan { total, next: 0, found: None, answers: Ghost(Seq::empty()) }
    }

    /// The index whose candidate should be tested next, or `None` when the
    /// scan is over (a match was found or every candidate was tested).
    pub fn pending(&self) -> (r: Option<usize>)
        ensures
            r == (if self.scanning() {
                Some(self.next)
            } else {
                None::<usize>
            }),
    {
        if self.found.is_none() && self.next < self.total {
            Some(self.next)
        } else {
            None
        }
    }

    /// Records the answer for the pending candidate.
    pub fn record(&mut self, ok: bool)
        requires
            old(self).wf(),
            old(self).scanning(),
        ensures
            final(self).wf(),
            final(self).total == old(self).total,
            final(self).next == old(self).next + 1,
            final(self).answers@ == old(self).answers@.push(ok),
            final(self).found == (if ok {
                Some(old(self).next)
            } else {
                None::<usize>
            }),
    {
        proof {
            self.answers@ = self.answers@.push(ok);
        }
        if ok {
            self.found = Some(self.next);
        }
        self.next = self.next + 1;
    }

    /// Whether the scan is over.
    pub fn finished(&self) -> (r: bool)
        ensures
            r == !self.scanning(),
    {
        self.found.is_some() || self.next >= self.total
    }

    /// The first matching index, meaningful once the scan is over: `None`
    /// then means every candidate answered `false`.
    pub fn result(&self) -> (r: Option<usize>)
        ensures
            r == self.found,
    {
        self.found
    }
}

/// A finished scan selected the first candidate that answered `true`:
/// whatever index it reports answered `true` while every earlier one
/// answered `false`, and when it reports none, every candidate was asked
/// and answered `false`.
pub proof fn lemma_scan_selects_first_match(s: FirstMatchScan)
    requires
        s.wf(),
        !s.scanning(),
    ensures
        match s.found {
            Some(i) => {
                &&& i < s.answers@.len()
                &&& s.answers@[i as int]
                &&& forall|j: int| 0 <= j < i ==> !s.answers@[j]
            },
            None => {
                &&& s.answers@.len() == s.total
                &&& forall|j: int| 0 <= j < s.total ==> !s.answers@[j]
            },
        },
{
}

} // verus!
