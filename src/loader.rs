use vstd::prelude::*;

verus! {

/// What one poll of a pending load reports.
pub enum AssetState {
    OnProgress,
    AlreadyLoaded,
    Done(Vec<u8>),
}

/// What one poll of a loader handed back: the loader, and its report or a failure.
pub type Polled<L> = (L, Result<AssetState, String>);

/// The entries in the order they are taken out: last added first.
pub open spec fn pop_order<A>(s: Seq<A>) -> Seq<A> {
    Seq::new(s.len(), |i: int| s[s.len() - 1 - i])
}

/// The bytes a poll delivered, if it finished.
pub open spec fn done_data<L>(o: Polled<L>) -> Option<Seq<u8>> {
    match o.1 {
        Ok(AssetState::Done(d)) => Some(d@),
        _ => None,
    }
}

/// Entries in pop order, each paired with the outcome of its poll: those that
/// finished, as their bytes and resource, in that order.
pub open spec fn loaded_of<R, L>(items: Seq<(R, L)>, outs: Seq<Polled<L>>) -> Seq<(Seq<u8>, R)>
    decreases items.len(),
{
    if items.len() == 0 || outs.len() != items.len() {
        seq![]
    } else {
        let rest = loaded_of(items.drop_last(), outs.drop_last());
        match done_data(outs.last()) {
            Some(d) => rest.push((d, items.last().0)),
            None => rest,
        }
    }
}

/// Entries in pop order, each paired with the outcome of its poll: those still
/// in progress, with the loader as the poll handed it back, in that order.
pub open spec fn kept_of<R, L>(items: Seq<(R, L)>, outs: Seq<Polled<L>>) -> Seq<(R, L)>
    decreases items.len(),
{
    if items.len() == 0 || outs.len() != items.len() {
        seq![]
    } else {
        let rest = kept_of(items.drop_last(), outs.drop_last());
        match done_data(outs.last()) {
            Some(d) => rest,
            None => rest.push((items.last().0, outs.last().0)),
        }
    }
}

/// Every outcome succeeded and is one that polling the matching loader can give.
pub open spec fn polled_all<R, L, F: Fn(L) -> Polled<L>>(poll: F, items: Seq<(R, L)>, outs: Seq<Polled<L>>) -> bool {
    &&& outs.len() == items.len()
    &&& forall|k: int|
        0 <= k < items.len() ==> {
            &&& call_ensures(poll, (items[k].1,), #[trigger] outs[k])
            &&& outs[k].1 is Ok
        }
}

/// Polling `loader` can fail with `e`.
pub open spec fn fails_with<L, F: Fn(L) -> Polled<L>>(poll: F, loader: L, e: String) -> bool {
    exists|l: L| call_ensures(poll, (loader,), (l, Err::<AssetState, String>(e)))
}

/// Resources whose bytes are still being loaded, each with its pending loader.
pub struct ResourceLoaderManager<R, L> {
    to_load: Vec<(R, L)>,
}

impl<R, L> ResourceLoaderManager<R, L> {
    pub closed spec fn pending(&self) -> Seq<(R, L)> {
        self.to_load@
    }

    pub fn new() -> (r: Self)
        ensures
            r.pending() == Seq::<(R, L)>::empty(),
    {
        ResourceLoaderManager { to_load: Vec::new() }
    }

    /// Queues a resource with the loader that fetches its bytes.
    pub fn add(&mut self, resource: R, loader: L)
        ensures
            final(self).pending() == old(self).pending().push((resource, loader)),
    {
        self.to_load.push((resource, loader));
    }

    /// Polls every pending loader once, last added first. With nothing
    /// pending this is `Ok(None)`. Otherwise the finished ones come back with
    /// their bytes, in polling order, and the others stay pending, in polling
    /// order. A failed poll stops at once with its error: the entries not yet
    /// polled stay, the ones already polled are dropped.
    pub fn try_load<F>(&mut self, poll: F) -> (r: Result<Option<Vec<(Vec<u8>, R)>>, String>) where
        F: Fn(L) -> Polled<L>,
        requires
            forall|l: L| call_requires(poll, (l,)),
        ensures
            old(self).pending().len() == 0 ==> r == Ok::<Option<Vec<(Vec<u8>, R)>>, String>(None)
                && final(self).pending() == old(self).pending(),
            old(self).pending().len() > 0 ==> r != Ok::<Option<Vec<(Vec<u8>, R)>>, String>(None),
            r matches Ok(Some(loaded)) ==> exists|outs: Seq<Polled<L>>|
                {
                    &&& polled_all(poll, pop_order(old(self).pending()), outs)
                    &&& loaded@.map_values(|e: (Vec<u8>, R)| (e.0@, e.1))
                        == loaded_of(pop_order(old(self).pending()), outs)
                    &&& final(self).pending() == kept_of(pop_order(old(self).pending()), outs)
                },
            r matches Err(e) ==> exists|m: int|
                0 <= m < old(self).pending().len()
                && final(self).pending() == old(self).pending().take(m)
                && fails_with(poll, old(self).pending()[m].1, e),
    {
        if self.to_load.len() == 0 {
            return Ok(None);
        }
        let ghost items = pop_order(old(self).to_load@);
        let ghost n = old(self).to_load@.len() as int;
        let ghost mut outs: Seq<Polled<L>> = seq![];
        let mut loaded: Vec<(Vec<u8>, R)> = Vec::new();
        let mut not_loaded: Vec<(R, L)> = Vec::new();
        while self.to_load.len() > 0
            invariant
                forall|l: L| call_requires(poll, (l,)),
                n == old(self).to_load@.len(),
                items == pop_order(old(self).to_load@),
                0 <= self.to_load@.len() <= n,
                self.to_load@ == old(self).to_load@.take(self.to_load@.len() as int),
                polled_all(poll, items.take(n - self.to_load@.len()), outs),
                loaded@.map_values(|e: (Vec<u8>, R)| (e.0@, e.1))
                    == loaded_of(items.take(n - self.to_load@.len()), outs),
                not_loaded@ == kept_of(items.take(n - self.to_load@.len()), outs),
            decreases self.to_load@.len(),
        {
            let ghost m = n - self.to_load@.len();
            let (resource, pending_loader) = self.to_load.pop().unwrap();
            assert(self.to_load@ =~= old(self).to_load@.take(self.to_load@.len() as int));
            assert(items[m] == (resource, pending_loader));
            let ghost prev_outs = outs;
            let (loader, state) = poll(pending_loader);
            let ghost o: Polled<L> = (loader, state);
            match state {
                Ok(AssetState::Done(data)) => {
                    proof {
                        outs = outs.push(o);
                    }
                    loaded.push((data, resource));
                },
                Ok(s) => {
                    proof {
                        outs = outs.push(o);
                    }
                    not_loaded.push((resource, loader));
                },
                Err(e) => {
                    assert(old(self).to_load@[n - m - 1] == items[m]);
                    assert(fails_with(poll, old(self).pending()[n - m - 1].1, e));
                    return Err(e);
                },
            }
            let ghost t = items.take(m + 1);
            assert(t.drop_last() =~= items.take(m));
            assert(t.last() == (resource, pending_loader));
            assert(outs.drop_last() =~= prev_outs);
            assert(outs.last() == o);
            assert forall|k: int| 0 <= k < t.len() implies {
                &&& call_ensures(poll, (t[k].1,), #[trigger] outs[k])
                &&& outs[k].1 is Ok
            } by {
                if k < m {
                    assert(t[k] == items.take(m)[k]);
                    assert(outs[k] == prev_outs[k]);
                }
            }
            assert(polled_all(poll, t, outs));
            assert(loaded@.map_values(|e: (Vec<u8>, R)| (e.0@, e.1)) =~= loaded_of(t, outs));
            assert(not_loaded@ =~= kept_of(t, outs));
        }
        assert(items.take(n) =~= items);
        assert(polled_all(poll, items, outs));
        self.to_load = not_loaded;
        assert(loaded@.map_values(|e: (Vec<u8>, R)| (e.0@, e.1)) == loaded_of(items, outs));
        assert(self.to_load@ == kept_of(items, outs));
        assert(items == pop_order(old(self).pending()));
        assert(self.pending() == kept_of(pop_order(old(self).pending()), outs));
        Ok(Some(loaded))
    }
}

} // verus!
