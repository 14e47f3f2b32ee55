//! Match update notification: the table of who watches which match. The
//! server sends each "match changed" event to the subscribers that
//! `publish` names; delivery itself is best effort and happens outside.
use vstd::prelude::*;

verus! {

/// Subscriptions as (match id, subscriber id), oldest first.
#[derive(Debug)]
pub struct Notifier {
    pub subs: Vec<(i64, u64)>,
    pub next_id: u64,
}

/// Subscribers of match `m` among the first `n` subscriptions, oldest first.
pub open spec fn watchers(subs: Seq<(i64, u64)>, m: i64, n: int) -> Seq<u64>
    decreases n,
{
    if n <= 0 {
        Seq::empty()
    } else if subs[n - 1].0 == m {
        watchers(subs, m, n - 1).push(subs[n - 1].1)
    } else {
        watchers(subs, m, n - 1)
    }
}

impl Notifier {
    /// Subscriber ids are below `next_id` and increase with age.
    pub open spec fn wf(&self) -> bool {
        &&& forall|i: int, j: int| 0 <= i < j < self.subs@.len() ==> #[trigger] self.subs@[i].1 < #[trigger] self.subs@[j].1
        &&& forall|i: int| 0 <= i < self.subs@.len() ==> #[trigger] self.subs@[i].1 < self.next_id
    }

    /// The subscribers of match `m`, oldest first.
    pub open spec fn watchers_of(&self, m: i64) -> Seq<u64> {
        watchers(self.subs@, m, self.subs@.len() as int)
    }

    /// No subscriptions.
    pub fn new() -> (r: Notifier)
        ensures
            r.wf(),
            r.subs@.len() == 0,
    {
        Notifier { subs: Vec::new(), next_id: 0 }
    }

    /// Subscribes to the updates of match `m`; returns the new subscriber's
    /// id, or `None` once ids are exhausted.
    pub fn watch(&mut self, m: i64) -> (r: Option<u64>)
        requires
            old(self).wf(),
        ensures
            final(self).wf(),
            r is None <==> old(self).next_id == u64::MAX,
            match r {
                Some(id) => final(self).subs@ == old(self).subs@.push((m, id)) && id == old(self).next_id,
                None => final(self).subs@ == old(self).subs@,
            },
    {
        if self.next_id == u64::MAX {
            return None;
        }
        let id = self.next_id;
        self.subs.push((m, id));
        self.next_id = id + 1;
        proof {
            assert forall|i: int, j: int| 0 <= i < j < self.subs@.len() implies #[trigger] self.subs@[i].1 < #[trigger] self.subs@[j].1 by {
                assert(self.subs@[i] == old(self).subs@[i]);
                if j < self.subs@.len() - 1 {
                    assert(self.subs@[j] == old(self).subs@[j]);
                }
            }
            assert forall|i: int| 0 <= i < self.subs@.len() implies #[trigger] self.subs@[i].1 < self.next_id by {
                if i < self.subs@.len() - 1 {
                    assert(self.subs@[i] == old(self).subs@[i]);
                }
            }
        }
        Some(id)
    }

    /// Ends subscription `id`. Returns whether it existed.
    pub fn unwatch(&mut self, id: u64) -> (r: bool)
        requires
            old(self).wf(),
        ensures
            final(self).wf(),
            r == (exists|i: int| 0 <= i < old(self).subs@.len() && old(self).subs@[i].1 == id),
            final(self).subs@ == old(self).subs@.filter(|s: (i64, u64)| s.1 != id),
    {
        let mut kept: Vec<(i64, u64)> = Vec::new();
        let mut found = false;
        let mut i: usize = 0;
        while i < self.subs.len()
            invariant
                self.wf(),
                self.subs@ == old(self).subs@,
                0 <= i <= self.subs@.len(),
                kept@ == self.subs@.subrange(0, i as int).filter(|s: (i64, u64)| s.1 != id),
                found == (exists|k: int| 0 <= k < i && self.subs@[k].1 == id),
                forall|a: int, b: int| 0 <= a < b < kept@.len() ==> #[trigger] kept@[a].1 < #[trigger] kept@[b].1,
                forall|a: int| 0 <= a < kept@.len() ==> #[trigger] kept@[a].1 < self.next_id,
                forall|a: int| 0 <= a < kept@.len() ==> exists|k: int| 0 <= k < i && #[trigger] kept@[a] == self.subs@[k],
            decreases self.subs@.len() - i,
        {
            let s = self.subs[i];
            proof {
                reveal(Seq::filter);
                assert(self.subs@.subrange(0, i as int + 1).drop_last() =~= self.subs@.subrange(0, i as int));
            }
            if s.1 != id {
                proof {
                    assert forall|a: int| 0 <= a < kept@.len() implies kept@[a].1 < s.1 by {
                        let k = choose|k: int| 0 <= k < i && kept@[a] == self.subs@[k];
                    }
                }
                kept.push(s);
            } else {
                found = true;
            }
            i = i + 1;
        }
        proof {
            assert(self.subs@.subrange(0, self.subs@.len() as int) =~= self.subs@);
        }
        self.subs = kept;
        found
    }

    /// The subscribers to tell that match `m` changed, oldest first.
    pub fn publish(&self, m: i64) -> (r: Vec<u64>)
        ensures
            r@ == self.watchers_of(m),
    {
        let mut out: Vec<u64> = Vec::new();
        let mut i: usize = 0;
        while i < self.subs.len()
            invariant
                0 <= i <= self.subs@.len(),
                out@ == watchers(self.subs@, m, i as int),
            decreases self.subs@.len() - i,
        {
            if self.subs[i].0 == m {
                out.push(self.subs[i].1);
            }
            i = i + 1;
        }
        out
    }
}

} // verus!
