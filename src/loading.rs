//! One poll of the resource loader, with the parse of every resource whose
//! bytes arrived.
use vstd::prelude::*;
use crate::resources::{
    after_poll, apply_outcomes, lemma_staged_ids_below, parse_errors, poll_of, staged_ids, Fetch,
    RecordView, ResourceLoaderManager,
};

verus! {

/// An asset that is filled from its bytes once they arrive.
///
/// `C` is the context that parsing needs, such as the graphics device.
pub trait Resource<C> {
    /// Interprets `data`, the whole content of the asset's file.
    fn parse(&mut self, ctx: &mut C, data: Vec<u8>) -> Result<(), String>;

    /// Whether the asset has been parsed and is ready to use.
    fn is_loaded(&self) -> bool;
}

/// An asset that can be created, not yet loaded, for a file.
pub trait ResourceConstructor: Sized {
    fn new(file: &str) -> Self;
}

/// What one poll did: the parse report of each resource whose bytes arrived,
/// in increasing order of handle, and the messages of the parses that failed.
pub struct LoadReport {
    pub outcomes: Vec<(usize, Result<(), String>)>,
    pub errors: Vec<String>,
}

/// Applies the backend's fetch reports (see `ResourceLoaderManager::try_load`),
/// parses each resource whose bytes arrived, and records every parse report.
/// A failed parse does not stop the others: all their messages are returned.
/// `resources[i]` is the asset of handle `i`.
pub fn try_load_resources<C, R: Resource<C>>(
    manager: &mut ResourceLoaderManager,
    ctx: &mut C,
    resources: &mut Vec<R>,
    polls: &Vec<Fetch>,
) -> (r: LoadReport)
    requires
        old(resources)@.len() == old(manager)@.len(),
    ensures
        final(resources)@.len() == old(resources)@.len(),
        forall|i: int|
            0 <= i < old(resources)@.len() && !staged_ids(old(manager)@, polls@, old(manager)@.len() as int).contains(
                i as usize,
            ) ==> #[trigger] final(resources)@[i] == old(resources)@[i],
        staged_ids(old(manager)@, polls@, old(manager)@.len() as int).len() == 0 ==> *final(ctx) == *old(ctx),
        r.outcomes@.len() == staged_ids(old(manager)@, polls@, old(manager)@.len() as int).len(),
        forall|k: int|
            0 <= k < r.outcomes@.len() ==> #[trigger] r.outcomes@[k].0 == staged_ids(
                old(manager)@,
                polls@,
                old(manager)@.len() as int,
            )[k],
        final(manager)@ == apply_outcomes(after_poll(old(manager)@, polls@), r.outcomes@),
        r.errors@.map_values(|e: String| e@) == parse_errors(after_poll(old(manager)@, polls@), r.outcomes@),
{
    let ghost start = manager@;
    let ghost start_resources = resources@;
    let count = manager.len();
    proof {
        lemma_staged_ids_below(start, polls@, count as int);
    }
    let staged = manager.try_load(polls);
    proof {
        assert(manager@ =~= after_poll(start, polls@));
    }
    let ghost ids = staged_ids(start, polls@, start.len() as int);
    let ghost n = staged@.len();
    let mut outcomes: Vec<(usize, Result<(), String>)> = Vec::new();
    let mut k: usize = 0;
    while k < staged.len()
        invariant
            n == staged@.len(),
            n == ids.len(),
            k <= n,
            resources@.len() == start.len(),
            manager@ == after_poll(start, polls@),
            forall|j: int| 0 <= j < n ==> #[trigger] staged@[j].id == ids[j],
            outcomes@.len() == k,
            forall|j: int| 0 <= j < k ==> #[trigger] outcomes@[j].0 == ids[j],
            ids == staged_ids(start, polls@, start.len() as int),
            forall|j: int| 0 <= j < n ==> (#[trigger] ids[j]) < resources@.len(),
            forall|i: int|
                0 <= i < resources@.len() && !ids.subrange(0, k as int).contains(i as usize)
                    ==> #[trigger] resources@[i] == start_resources[i],
            k == 0 ==> *ctx == *old(ctx),
        decreases n - k,
    {
        let id = staged[k].id;
        let bytes = staged[k].bytes.clone();
        let outcome = resources[id].parse(ctx, bytes);
        outcomes.push((id, outcome));
        proof {
            assert forall|i: int|
                0 <= i < resources@.len() && !ids.subrange(0, k as int + 1).contains(i as usize)
                    implies #[trigger] resources@[i] == start_resources[i] by {
                assert(ids.subrange(0, k as int + 1)[k as int] == ids[k as int]);
                if ids.subrange(0, k as int).contains(i as usize) {
                    let j = choose|j: int| 0 <= j < k && ids.subrange(0, k as int)[j] == i as usize;
                    assert(ids.subrange(0, k as int + 1)[j] == i as usize);
                }
            }
        }
        k = k + 1;
    }
    proof {
        assert(ids.subrange(0, n as int) =~= ids);
    }
    let errors = manager.complete(&outcomes);
    LoadReport { outcomes, errors }
}

} // verus!
