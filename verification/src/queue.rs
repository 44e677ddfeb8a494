//! The shared play queue: an ordered FIFO of playable records.
//!
//! Records are appended at the tail and consumed from the head. Callers that
//! share the queue across execution units serialize access around each
//! single call; no operation here blocks or runs long.

use crate::record::Kfile;
use vstd::prelude::*;

verus! {

/// A FIFO of records awaiting playback.
pub struct PlayQueue {
    items: Vec<Kfile>,
}

impl View for PlayQueue {
    type V = Seq<Kfile>;

    closed spec fn view(&self) -> Seq<Kfile> {
        self.items@
    }
}

impl PlayQueue {
    /// A new, empty queue.
    pub fn new() -> (r: PlayQueue)
        ensures
            r@ =~= Seq::<Kfile>::empty(),
    {
        PlayQueue { items: Vec::new() }
    }

    /// Number of queued records.
    pub fn len(&self) -> (r: usize)
        ensures
            r == self@.len(),
    {
        self.items.len()
    }

    /// Whether nothing is queued.
    pub fn is_empty(&self) -> (r: bool)
        ensures
            r == (self@.len() == 0),
    {
        self.items.len() == 0
    }

    /// Append a record at the tail.
    pub fn add(&mut self, kfile: Kfile)
        ensures
            final(self)@ == old(self)@.push(kfile),
    {
        self.items.push(kfile);
    }

    /// Remove every queued record.
    pub fn clear(&mut self)
        ensures
            final(self)@ =~= Seq::<Kfile>::empty(),
    {
        self.items.clear();
    }

    /// Remove and return the head record; `None` on an empty queue.
    pub fn pop_head(&mut self) -> (r: Option<Kfile>)
        ensures
            old(self)@.len() == 0 ==> (r is None && final(self)@ == old(self)@),
            old(self)@.len() > 0 ==> (r == Some(old(self)@[0]) && final(self)@ == old(
                self,
            )@.drop_first()),
    {
        if self.items.len() == 0 {
            None
        } else {
            let k = self.items.remove(0);
            proof {
                assert(self@ =~= old(self)@.drop_first());
            }
            Some(k)
        }
    }

    /// A copy of the head record, without consuming it; `None` on an empty
    /// queue. The remote player fetches its next song this way.
    pub fn head(&self) -> (r: Option<Kfile>)
        ensures
            self@.len() == 0 ==> r is None,
            self@.len() > 0 ==> (r matches Some(k) && k@ == self@[0]@),
    {
        if self.items.len() == 0 {
            None
        } else {
            Some(self.items[0].clone())
        }
    }

    /// Place a record at the head of the queue, ahead of everything queued.
    pub fn push_head(&mut self, kfile: Kfile)
        ensures
            final(self)@ == seq![kfile] + old(self)@,
    {
        self.items.insert(0, kfile);
        proof {
            assert(self@ =~= seq![kfile] + old(self)@);
        }
    }
}

} // verus!
