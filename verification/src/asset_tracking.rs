//! Book-keeping for assets that are loaded as resources: which are still
//! waiting for their dependencies and which are finished.
use std::collections::HashMap;
use vstd::prelude::*;
use vstd::std_specs::iter::IteratorSpec;

verus! {

broadcast use vstd::std_specs::hash::group_hash_axioms;

/// The handles of requested assets, keyed by asset id. A waiting asset carries
/// its handle and the function that inserts the loaded value as a resource; a
/// finished one keeps its handle.
pub struct ResourceHandles<H, F> {
    waiting: HashMap<u64, (H, F)>,
    finished: Vec<H>,
}

impl<H, F> ResourceHandles<H, F> {
    /// The waiting assets, by id.
    pub closed spec fn spec_waiting(&self) -> Map<u64, (H, F)> {
        self.waiting@
    }

    /// The finished handles, in the order they finished.
    pub closed spec fn spec_finished(&self) -> Seq<H> {
        self.finished@
    }

    /// Finitely many assets wait.
    pub proof fn lemma_waiting_finite(&self)
        ensures
            self.spec_waiting().dom().finite(),
    {
        assert(self.waiting@.dom().finite());
    }

    /// Nothing requested yet.
    pub fn new() -> (r: Self)
        ensures
            r.spec_waiting() == Map::<u64, (H, F)>::empty(),
            r.spec_finished() == Seq::<H>::empty(),
    {
        ResourceHandles { waiting: HashMap::new(), finished: Vec::new() }
    }

    /// Records a requested asset as waiting; a request with the same id that
    /// was waiting is replaced.
    pub fn add_waiting(&mut self, id: u64, handle: H, insert: F)
        ensures
            final(self).spec_waiting() == old(self).spec_waiting().insert(id, (handle, insert)),
            final(self).spec_finished() == old(self).spec_finished(),
    {
        let _ = self.waiting.insert(id, (handle, insert));
    }

    /// Whether every requested asset has finished loading and is available as a
    /// resource.
    pub fn is_all_done(&self) -> (r: bool)
        ensures
            r == (self.spec_waiting().dom().len() == 0),
    {
        proof {
            assert(self.waiting@.dom().finite());
        }
        self.waiting.is_empty()
    }

    /// The number of requested assets, waiting or finished.
    pub fn total_count(&self) -> (r: usize)
        requires
            self.spec_waiting().dom().len() + self.spec_finished().len() <= usize::MAX,
        ensures
            r == self.spec_waiting().dom().len() + self.spec_finished().len(),
    {
        self.waiting.len() + self.finished.len()
    }

    /// The number of assets still waiting.
    pub fn waiting_count(&self) -> (r: usize)
        ensures
            r == self.spec_waiting().dom().len(),
    {
        self.waiting.len()
    }

    /// The number of finished assets.
    pub fn finished_count(&self) -> (r: usize)
        ensures
            r == self.spec_finished().len(),
    {
        self.finished.len()
    }

    /// Forgets every request.
    pub fn clear(&mut self)
        ensures
            final(self).spec_waiting() == Map::<u64, (H, F)>::empty(),
            final(self).spec_finished() == Seq::<H>::empty(),
    {
        self.waiting.clear();
        self.finished.clear();
    }

    /// The ids of the waiting assets, each once, in the map's order.
    pub fn waiting_ids(&self) -> (r: Vec<u64>)
        ensures
            r@.to_set() == self.spec_waiting().dom(),
            r@.no_duplicates(),
    {
        let mut ids: Vec<u64> = Vec::new();
        let keys = self.waiting.keys();
        let ghost all = keys.remaining();
        proof {
            assert(all.unref().to_set() == self.waiting@.dom());
        }
        for k in it: keys
            invariant
                ids@ == it.seq().take(it.index()).unref(),
                it.seq() == all,
        {
            ids.push(*k);
        }
        proof {
            assert(ids@ == all.unref());
        }
        ids
    }
}

impl<H, F> ResourceHandles<H, F> {
    /// Moves a loaded asset from waiting to finished: its handle is appended to
    /// the finished handles and its insert function is handed back to be run.
    /// An id that is not waiting changes nothing.
    pub fn finish_waiting(&mut self, id: u64) -> (r: Option<F>)
        ensures
            old(self).spec_waiting().contains_key(id) ==> {
                &&& final(self).spec_waiting() == old(self).spec_waiting().remove(id)
                &&& final(self).spec_finished() == old(self).spec_finished().push(old(self).spec_waiting()[id].0)
                &&& r == Some(old(self).spec_waiting()[id].1)
            },
            !old(self).spec_waiting().contains_key(id) ==> {
                &&& final(self).spec_waiting() == old(self).spec_waiting()
                &&& final(self).spec_finished() == old(self).spec_finished()
                &&& r is None
            },
    {
        match self.waiting.remove(&id) {
            Some(entry) => {
                let (handle, insert) = entry;
                self.finished.push(handle);
                Some(insert)
            },
            None => {
                proof {
                    assert(self.waiting@ =~= old(self).waiting@);
                }
                None
            },
        }
    }

    /// Finishes the waiting assets among `loaded`, in that order: each id that
    /// is still waiting moves from waiting to finished, and its insert function
    /// is handed back, in the same order as the handles appended to the
    /// finished ones. Ids that are not waiting are passed over.
    pub fn finish_loaded(&mut self, loaded: &Vec<u64>) -> (r: Vec<F>)
        ensures
            (final(self).spec_waiting(), final(self).spec_finished(), r@) == finish_all(
                old(self).spec_waiting(),
                old(self).spec_finished(),
                loaded@,
            ),
    {
        let mut inserts: Vec<F> = Vec::new();
        let mut i: usize = 0;
        while i < loaded.len()
            invariant
                i <= loaded.len(),
                (self.spec_waiting(), self.spec_finished(), inserts@) == finish_all(
                    old(self).spec_waiting(),
                    old(self).spec_finished(),
                    loaded@.take(i as int),
                ),
            decreases loaded.len() - i,
        {
            proof {
                assert(loaded@.take(i + 1).drop_last() == loaded@.take(i as int));
            }
            if let Some(insert) = self.finish_waiting(loaded[i]) {
                inserts.push(insert);
            }
            i = i + 1;
        }
        proof {
            assert(loaded@.take(i as int) == loaded@);
        }
        inserts
    }

    /// The finished handles, in the order they finished.
    pub fn finished_handles(&self) -> (r: &[H])
        ensures
            r@ == self.spec_finished(),
    {
        self.finished.as_slice()
    }

    /// The handle that finished last, if any.
    pub fn last_finished(&self) -> (r: Option<&H>)
        ensures
            self.spec_finished().len() == 0 ==> r is None,
            self.spec_finished().len() > 0 ==> r == Some(&self.spec_finished().last()),
    {
        if self.finished.len() == 0 {
            None
        } else {
            Some(&self.finished[self.finished.len() - 1])
        }
    }
}

/// The waiting assets, finished handles and handed-back insert functions after
/// finishing the ids of `ids` in order, from the given waiting and finished ones.
pub open spec fn finish_all<H, F>(waiting: Map<u64, (H, F)>, finished: Seq<H>, ids: Seq<u64>) -> (Map<u64, (H, F)>, Seq<H>, Seq<F>)
    decreases ids.len(),
{
    if ids.len() == 0 {
        (waiting, finished, Seq::empty())
    } else {
        let (w, f, inserts) = finish_all(waiting, finished, ids.drop_last());
        let id = ids.last();
        if w.contains_key(id) {
            (w.remove(id), f.push(w[id].0), inserts.push(w[id].1))
        } else {
            (w, f, inserts)
        }
    }
}

/// The counts of a tracker: finitely many assets wait; the finished ones are
/// never more than all requested ones, and they are all of them exactly when
/// none waits, that is, when all are done.
pub proof fn lemma_count_laws<H, F>(handles: &ResourceHandles<H, F>)
    ensures
        handles.spec_waiting().dom().finite(),
        handles.spec_finished().len() <= handles.spec_waiting().dom().len() + handles.spec_finished().len(),
        (handles.spec_finished().len() == handles.spec_waiting().dom().len() + handles.spec_finished().len())
            <==> handles.spec_waiting().dom().len() == 0,
{
    handles.lemma_waiting_finite();
}

/// Finishing an asset keeps the number of requested assets: one fewer waits
/// and one more is finished, or nothing changes.
pub proof fn lemma_finish_keeps_total<H, F>(
    waiting: Map<u64, (H, F)>,
    finished: Seq<H>,
    id: u64,
)
    requires
        waiting.dom().finite(),
    ensures
        waiting.contains_key(id) ==> waiting.remove(id).dom().len() + finished.push(waiting[id].0).len()
            == waiting.dom().len() + finished.len(),
{
}

/// All requested assets are done exactly when every requested asset is
/// finished, that is, when the finished count equals the total count.
pub proof fn lemma_all_done_iff_all_finished<H, F>(waiting: Map<u64, (H, F)>, finished: Seq<H>)
    requires
        waiting.dom().finite(),
    ensures
        (waiting.dom().len() == 0) <==> (finished.len() == waiting.dom().len() + finished.len()),
{
}

} // verus!
