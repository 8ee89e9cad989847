use vstd::prelude::*;

use crate::packet::{fingerprint_of, Fingerprint, FingerprintModel, Packet};

verus! {

/// A request waiting for its reply.
#[derive(Clone, Copy, Debug)]
pub struct Waiter {
    pub id: u64,
    pub fingerprint: Fingerprint,
    pub deadline_ms: u64,
}

/// Why a waiter could not be registered.
#[derive(Clone, Copy, Debug, PartialEq, Eq, Structural)]
pub enum MatchError {
    /// A request with the same fingerprint is still waiting.
    DuplicateInFlight,
    /// Every waiter id has been handed out.
    IdsExhausted,
}

/// Pairs replies with the requests waiting for them, by fingerprint rather than by order
/// of arrival; at most one request per fingerprint is in flight.
pub struct ReplyMatcher {
    pub waiters: Vec<Waiter>,
    pub next_id: u64,
}

pub open spec fn has_fingerprint(ws: Seq<Waiter>, fp: FingerprintModel) -> bool {
    exists|i: int| 0 <= i < ws.len() && (#[trigger] ws[i]).fingerprint@ == fp
}

pub open spec fn has_id(ws: Seq<Waiter>, id: u64) -> bool {
    exists|i: int| 0 <= i < ws.len() && (#[trigger] ws[i]).id == id
}

impl ReplyMatcher {
    pub open spec fn wf(&self) -> bool {
        &&& forall|i: int, j: int|
            0 <= i < self.waiters@.len() && 0 <= j < self.waiters@.len() && i != j
                ==> (#[trigger] self.waiters@[i]).fingerprint@ != (#[trigger] self.waiters@[j]).fingerprint@
        &&& forall|i: int, j: int|
            0 <= i < self.waiters@.len() && 0 <= j < self.waiters@.len() && i != j
                ==> (#[trigger] self.waiters@[i]).id != (#[trigger] self.waiters@[j]).id
        &&& forall|i: int| 0 <= i < self.waiters@.len() ==> (#[trigger] self.waiters@[i]).id < self.next_id
    }

    pub fn new() -> (r: ReplyMatcher)
        ensures
            r.wf(),
            r.waiters@.len() == 0,
    {
        ReplyMatcher { waiters: Vec::new(), next_id: 0 }
    }

    fn position_of(&self, fp: &Fingerprint) -> (r: Option<usize>)
        ensures
            match r {
                Some(i) => i < self.waiters@.len() && self.waiters@[i as int].fingerprint@ == fp@,
                None => !has_fingerprint(self.waiters@, fp@),
            },
    {
        let mut i: usize = 0;
        while i < self.waiters.len()
            invariant
                i <= self.waiters@.len(),
                forall|j: int| 0 <= j < i ==> (#[trigger] self.waiters@[j]).fingerprint@ != fp@,
            decreases self.waiters@.len() - i,
        {
            if self.waiters[i].fingerprint.same(fp) {
                return Some(i);
            }
            i = i + 1;
        }
        None
    }

    /// Registers a request awaiting a reply with fingerprint `fp`, refused while another
    /// request with that fingerprint waits.
    pub fn register(&mut self, fp: Fingerprint, deadline_ms: u64) -> (r: Result<u64, MatchError>)
        requires
            old(self).wf(),
        ensures
            final(self).wf(),
            match r {
                Ok(id) => !has_fingerprint(old(self).waiters@, fp@) && id == old(self).next_id
                    && final(self).waiters@ == old(self).waiters@.push(
                    Waiter { id, fingerprint: fp, deadline_ms },
                ),
                Err(MatchError::DuplicateInFlight) => has_fingerprint(old(self).waiters@, fp@)
                    && *final(self) == *old(self),
                Err(MatchError::IdsExhausted) => !has_fingerprint(old(self).waiters@, fp@)
                    && old(self).next_id == u64::MAX && *final(self) == *old(self),
            },
    {
        if self.position_of(&fp).is_some() {
            return Err(MatchError::DuplicateInFlight);
        }
        if self.next_id == u64::MAX {
            return Err(MatchError::IdsExhausted);
        }
        let id = self.next_id;
        self.waiters.push(Waiter { id, fingerprint: fp, deadline_ms });
        self.next_id = id + 1;
        Ok(id)
    }

    /// Hands `reply` to the request waiting on its fingerprint, if one is: that waiter is
    /// removed, so it is resolved exactly once.
    pub fn resolve(&mut self, reply: &Packet) -> (r: Option<u64>)
        requires
            old(self).wf(),
        ensures
            final(self).wf(),
            final(self).next_id == old(self).next_id,
            match r {
                Some(id) => exists|i: int|
                    0 <= i < old(self).waiters@.len() && old(self).waiters@[i].id == id
                        && (#[trigger] old(self).waiters@[i]).fingerprint@ == fingerprint_of(reply@)
                        && final(self).waiters@ == old(self).waiters@.remove(i)
                        && !has_id(final(self).waiters@, id),
                None => !has_fingerprint(old(self).waiters@, fingerprint_of(reply@))
                    && final(self).waiters@ == old(self).waiters@,
            },
    {
        let fp = reply.fingerprint();
        match self.position_of(&fp) {
            Some(i) => {
                let w = self.waiters.remove(i);
                assert forall|j: int|
                    0 <= j < self.waiters@.len() implies (#[trigger] self.waiters@[j]).id != w.id by {
                    if j < i {
                        assert(self.waiters@[j] == old(self).waiters@[j]);
                    } else {
                        assert(self.waiters@[j] == old(self).waiters@[j + 1]);
                    }
                }
                assert(old(self).waiters@[i as int].fingerprint@ == fingerprint_of(reply@));
                Some(w.id)
            },
            None => None,
        }
    }

    /// Removes the waiter `id`, as a caller that gives up does; a later matching reply
    /// then finds no waiter.
    pub fn cancel(&mut self, id: u64) -> (r: bool)
        requires
            old(self).wf(),
        ensures
            final(self).wf(),
            final(self).next_id == old(self).next_id,
            r == has_id(old(self).waiters@, id),
            !has_id(final(self).waiters@, id),
            r ==> exists|i: int|
                0 <= i < old(self).waiters@.len() && (#[trigger] old(self).waiters@[i]).id == id
                    && final(self).waiters@ == old(self).waiters@.remove(i),
            !r ==> final(self).waiters@ == old(self).waiters@,
    {
        let mut i: usize = 0;
        while i < self.waiters.len()
            invariant
                *self == *old(self),
                old(self).wf(),
                i <= self.waiters@.len(),
                forall|j: int| 0 <= j < i ==> (#[trigger] self.waiters@[j]).id != id,
            decreases self.waiters@.len() - i,
        {
            if self.waiters[i].id == id {
                assert(old(self).waiters@[i as int].id == id);
                self.waiters.remove(i);
                assert forall|j: int|
                    0 <= j < self.waiters@.len() implies (#[trigger] self.waiters@[j]).id != id by {
                    if j < i {
                        assert(self.waiters@[j] == old(self).waiters@[j]);
                    } else {
                        assert(self.waiters@[j] == old(self).waiters@[j + 1]);
                    }
                }
                return true;
            }
            i = i + 1;
        }
        false
    }

    /// Removes every waiter whose deadline has passed at `now_ms` and returns their ids,
    /// in order; each of them resolves with a timeout.
    pub fn expire(&mut self, now_ms: u64) -> (r: Vec<u64>)
        requires
            old(self).wf(),
        ensures
            final(self).wf(),
            final(self).next_id == old(self).next_id,
            final(self).waiters@ == old(self).waiters@.filter(pending_at(now_ms)),
            r@ == old(self).waiters@.filter(expired_at(now_ms)).map_values(waiter_id()),
    {
        let ghost all = self.waiters@;
        let mut kept: Vec<Waiter> = Vec::new();
        let mut gone: Vec<u64> = Vec::new();
        let ghost mut idx: Seq<int> = Seq::empty();
        let mut i: usize = 0;
        assert(all.subrange(0, 0) =~= Seq::<Waiter>::empty());
        proof {
            reveal(Seq::filter);
        }
        while i < self.waiters.len()
            invariant
                all == self.waiters@,
                *self == *old(self),
                old(self).wf(),
                i <= all.len(),
                kept@ == all.subrange(0, i as int).filter(pending_at(now_ms)),
                gone@ == all.subrange(0, i as int).filter(expired_at(now_ms)).map_values(
                    waiter_id(),
                ),
                idx.len() == kept@.len(),
                forall|a: int| 0 <= a < idx.len() ==> 0 <= #[trigger] idx[a] < i && kept@[a] == all[idx[a]],
                forall|a: int, b: int| 0 <= a < b < idx.len() ==> #[trigger] idx[a] < #[trigger] idx[b],
            decreases all.len() - i,
        {
            let w = self.waiters[i];
            proof {
                reveal(Seq::filter);
                let s = all.subrange(0, i + 1);
                assert(s.drop_last() =~= all.subrange(0, i as int));
                assert(s.last() == w);
            }
            if w.deadline_ms > now_ms {
                kept.push(w);
                proof {
                    idx = idx.push(i as int);
                }
            } else {
                let ghost f = all.subrange(0, i as int).filter(expired_at(now_ms));
                gone.push(w.id);
                proof {
                    assert(f.push(w).map_values(waiter_id()) =~= f.map_values(waiter_id()).push(w.id));
                }
            }
            i = i + 1;
        }
        assert(all.subrange(0, all.len() as int) =~= all);
        self.waiters = kept;
        assert forall|a: int, b: int|
            0 <= a < self.waiters@.len() && 0 <= b < self.waiters@.len() && a != b implies (
            #[trigger] self.waiters@[a]).fingerprint@ != (#[trigger] self.waiters@[b]).fingerprint@
                && self.waiters@[a].id != self.waiters@[b].id by {
            if a < b {
                assert(idx[a] < idx[b]);
            } else {
                assert(idx[b] < idx[a]);
            }
            assert(self.waiters@[a] == all[idx[a]]);
            assert(self.waiters@[b] == all[idx[b]]);
        }
        assert forall|a: int| 0 <= a < self.waiters@.len() implies (#[trigger] self.waiters@[a]).id
            < self.next_id by {
            assert(self.waiters@[a] == all[idx[a]]);
        }
        gone
    }
}

pub open spec fn pending_at(now_ms: u64) -> spec_fn(Waiter) -> bool {
    |w: Waiter| w.deadline_ms > now_ms
}

pub open spec fn expired_at(now_ms: u64) -> spec_fn(Waiter) -> bool {
    |w: Waiter| w.deadline_ms <= now_ms
}

pub open spec fn waiter_id() -> spec_fn(Waiter) -> u64 {
    |w: Waiter| w.id
}

} // verus!
