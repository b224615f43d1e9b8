//! The resource loader: tracks asset loads from request to parse.
//!
//! Each resource goes `Requested -> BytesReady -> Parsed`, or ends in
//! `Failed` when its fetch or its parse fails. The caller polls the backend
//! for the bytes and runs each resource's parse; the manager decides what each
//! report does to the resource and what is handed on.
use vstd::prelude::*;

verus! {

/// Where a resource stands in its load.
#[derive(Clone, Copy, Debug, PartialEq, Eq, Structural)]
pub enum LoadState {
    /// Registered; its bytes are not here yet.
    Requested,
    /// Its bytes arrived and were handed on to be parsed.
    BytesReady,
    /// Parsed and ready to use.
    Parsed,
    /// Its fetch or its parse failed.
    Failed,
}

/// What the backend reports of one resource's fetch.
pub enum Fetch {
    /// Not finished yet.
    Pending,
    /// Finished with these bytes.
    Ready(Vec<u8>),
    /// Failed with this message.
    Error(String),
}

/// Bytes of a resource, handed on to be parsed.
pub struct Staged {
    /// The handle that `add` returned for the resource.
    pub id: usize,
    pub bytes: Vec<u8>,
}

/// One tracked resource.
pub struct ResourceRecord {
    path: String,
    state: LoadState,
    error: Option<String>,
}

/// One tracked resource, as the contracts speak of it.
pub struct RecordView {
    pub path: Seq<char>,
    pub state: LoadState,
    pub error: Option<Seq<char>>,
}

impl View for ResourceRecord {
    type V = RecordView;

    closed spec fn view(&self) -> RecordView {
        RecordView {
            path: self.path@,
            state: self.state,
            error: match self.error {
                Some(e) => Some(e@),
                None => None,
            },
        }
    }
}

/// The tracked resources, indexed by the handle that `add` returned.
pub struct ResourceLoaderManager {
    records: Vec<ResourceRecord>,
}

impl View for ResourceLoaderManager {
    type V = Seq<RecordView>;

    closed spec fn view(&self) -> Seq<RecordView> {
        self.records@.map_values(|r: ResourceRecord| r@)
    }
}

/// The report for resource `i`: the entry of `polls`, or pending past its end.
pub open spec fn poll_of(polls: Seq<Fetch>, i: int) -> Fetch {
    if 0 <= i < polls.len() {
        polls[i]
    } else {
        Fetch::Pending
    }
}

/// The state that a report moves a resource in state `s` to. Only a
/// requested resource takes reports.
pub open spec fn next_state(s: LoadState, f: Fetch) -> LoadState {
    if s == LoadState::Requested {
        match f {
            Fetch::Pending => LoadState::Requested,
            Fetch::Ready(_) => LoadState::BytesReady,
            Fetch::Error(_) => LoadState::Failed,
        }
    } else {
        s
    }
}

/// The record of a resource after a report.
pub open spec fn after_fetch(r: RecordView, f: Fetch) -> RecordView {
    RecordView {
        path: r.path,
        state: next_state(r.state, f),
        error: if r.state == LoadState::Requested {
            match f {
                Fetch::Error(m) => Some(m@),
                _ => r.error,
            }
        } else {
            r.error
        },
    }
}

/// The records after the fetch reports `polls`.
pub open spec fn after_poll(records: Seq<RecordView>, polls: Seq<Fetch>) -> Seq<RecordView> {
    Seq::new(records.len(), |i: int| after_fetch(records[i], poll_of(polls, i)))
}

/// Whether the report for resource `i` stages its bytes.
pub open spec fn stages(records: Seq<RecordView>, polls: Seq<Fetch>, i: int) -> bool {
    records[i].state == LoadState::Requested && poll_of(polls, i) is Ready
}

/// The handles, in increasing order, among the first `n`, whose bytes a poll
/// stages.
pub open spec fn staged_ids(records: Seq<RecordView>, polls: Seq<Fetch>, n: int) -> Seq<usize>
    decreases n,
{
    if n <= 0 {
        Seq::empty()
    } else {
        let prev = staged_ids(records, polls, n - 1);
        if stages(records, polls, n - 1) {
            prev.push((n - 1) as usize)
        } else {
            prev
        }
    }
}

/// Every handle that a poll stages among the first `n` is below `n`.
pub proof fn lemma_staged_ids_below(records: Seq<RecordView>, polls: Seq<Fetch>, n: int)
    requires
        n <= usize::MAX,
    ensures
        forall|k: int| 0 <= k < staged_ids(records, polls, n).len() ==> (#[trigger] staged_ids(records, polls, n)[k]) < n,
    decreases n,
{
    if n > 0 {
        lemma_staged_ids_below(records, polls, n - 1);
        let prev = staged_ids(records, polls, n - 1);
        let cur = staged_ids(records, polls, n);
        assert forall|k: int| 0 <= k < cur.len() implies (#[trigger] cur[k]) < n by {
            if k < prev.len() {
                assert(cur[k] == prev[k]);
            }
        }
    }
}

/// The bytes of a finished fetch.
pub open spec fn fetched_bytes(f: Fetch) -> Seq<u8> {
    match f {
        Fetch::Ready(b) => b@,
        _ => Seq::empty(),
    }
}

/// The handles, in increasing order, among the first `n`, in state `s`.
pub open spec fn ids_in_state(records: Seq<RecordView>, s: LoadState, n: int) -> Seq<usize>
    decreases n,
{
    if n <= 0 {
        Seq::empty()
    } else {
        let prev = ids_in_state(records, s, n - 1);
        if records[n - 1].state == s {
            prev.push((n - 1) as usize)
        } else {
            prev
        }
    }
}

/// The record of a resource after its parse reports `outcome`. Only a
/// resource whose bytes were handed on takes the report.
pub open spec fn after_parse(r: RecordView, outcome: Result<(), String>) -> RecordView {
    if r.state == LoadState::BytesReady {
        match outcome {
            Ok(_) => RecordView { state: LoadState::Parsed, ..r },
            Err(m) => RecordView { state: LoadState::Failed, error: Some(m@), ..r },
        }
    } else {
        r
    }
}

/// The records after the parse report `o` for resource `o.0`.
pub open spec fn apply_outcome(records: Seq<RecordView>, o: (usize, Result<(), String>)) -> Seq<RecordView> {
    if o.0 < records.len() {
        records.update(o.0 as int, after_parse(records[o.0 as int], o.1))
    } else {
        records
    }
}

/// The records after the parse reports `outs`, taken in order.
pub open spec fn apply_outcomes(records: Seq<RecordView>, outs: Seq<(usize, Result<(), String>)>) -> Seq<RecordView>
    decreases outs.len(),
{
    if outs.len() == 0 {
        records
    } else {
        apply_outcome(apply_outcomes(records, outs.drop_last()), outs.last())
    }
}

/// Whether the parse report `o` fails a resource among `records`.
pub open spec fn fails(records: Seq<RecordView>, o: (usize, Result<(), String>)) -> bool {
    o.0 < records.len() && records[o.0 as int].state == LoadState::BytesReady && o.1 is Err
}

/// The messages of the parse reports among `outs` that fail a resource, in
/// order.
pub open spec fn parse_errors(records: Seq<RecordView>, outs: Seq<(usize, Result<(), String>)>) -> Seq<Seq<char>>
    decreases outs.len(),
{
    if outs.len() == 0 {
        Seq::empty()
    } else {
        let prev = parse_errors(records, outs.drop_last());
        let o = outs.last();
        if fails(apply_outcomes(records, outs.drop_last()), o) {
            match o.1 {
                Err(m) => prev.push(m@),
                Ok(_) => prev,
            }
        } else {
            prev
        }
    }
}

impl ResourceLoaderManager {
    /// A manager that tracks nothing.
    pub fn new() -> (r: Self)
        ensures
            r@ == Seq::<RecordView>::empty(),
    {
        let r = ResourceLoaderManager { records: Vec::new() };
        assert(r@ =~= Seq::<RecordView>::empty());
        r
    }

    /// The number of tracked resources.
    pub fn len(&self) -> (r: usize)
        ensures
            r == self@.len(),
    {
        self.records.len()
    }

    /// Registers the resource at `path` as requested and returns its handle.
    pub fn add(&mut self, path: &str) -> (id: usize)
        ensures
            id == old(self)@.len(),
            final(self)@ == old(self)@.push(
                RecordView { path: path@, state: LoadState::Requested, error: None },
            ),
    {
        let id = self.records.len();
        let rec = ResourceRecord { path: path.to_string(), state: LoadState::Requested, error: None };
        self.records.push(rec);
        proof {
            assert(final(self)@ =~= old(self)@.push(
                RecordView { path: path@, state: LoadState::Requested, error: None },
            ));
        }
        id
    }

    /// The state of resource `id`, or `None` for a handle never returned.
    pub fn state(&self, id: usize) -> (r: Option<LoadState>)
        ensures
            r == (if id < self@.len() { Some(self@[id as int].state) } else { None::<LoadState> }),
    {
        if id < self.records.len() {
            Some(self.records[id].state)
        } else {
            None
        }
    }

    /// Whether resource `id` has been parsed and is ready to use.
    pub fn is_loaded(&self, id: usize) -> (r: bool)
        ensures
            r == (id < self@.len() && self@[id as int].state == LoadState::Parsed),
    {
        id < self.records.len() && self.records[id].state == LoadState::Parsed
    }

    /// Moves resource `i` to `state`, recording `error` when one is given.
    fn set_record(&mut self, i: usize, state: LoadState, error: Option<String>)
        requires
            i < old(self)@.len(),
        ensures
            final(self)@ == old(self)@.update(
                i as int,
                RecordView {
                    path: old(self)@[i as int].path,
                    state,
                    error: match error {
                        Some(e) => Some(e@),
                        None => old(self)@[i as int].error,
                    },
                },
            ),
    {
        proof {
            assert(old(self)@[i as int] == old(self).records@[i as int]@);
        }
        self.records[i].state = state;
        match error {
            Some(e) => {
                self.records[i].error = Some(e);
            },
            None => {},
        }
        proof {
            assert(final(self)@ =~= old(self)@.update(
                i as int,
                RecordView {
                    path: old(self)@[i as int].path,
                    state,
                    error: match error {
                        Some(e) => Some(e@),
                        None => old(self)@[i as int].error,
                    },
                },
            ));
        }
    }

    /// The handles of the resources still waiting for their bytes, in
    /// increasing order: those the backend is to be asked about.
    pub fn requested(&self) -> (r: Vec<usize>)
        ensures
            r@ == ids_in_state(self@, LoadState::Requested, self@.len() as int),
    {
        let mut r: Vec<usize> = Vec::new();
        let mut i: usize = 0;
        while i < self.records.len()
            invariant
                i <= self@.len(),
                self@.len() == self.records@.len(),
                r@ == ids_in_state(self@, LoadState::Requested, i as int),
            decreases self@.len() - i,
        {
            proof {
                assert(self@[i as int] == self.records@[i as int]@);
            }
            if self.records[i].state == LoadState::Requested {
                r.push(i);
            }
            i = i + 1;
        }
        r
    }

    /// Applies the backend's reports: `polls[i]` is the report for resource
    /// `i`, and resources past the end of `polls` count as pending. Each
    /// requested resource whose bytes arrived moves to `BytesReady` and its
    /// bytes are returned, in increasing order of handle; each whose fetch
    /// failed moves to `Failed` and keeps the message. Resources in any other
    /// state are left as they are, so a failed fetch is never tried again.
    pub fn try_load(&mut self, polls: &Vec<Fetch>) -> (r: Vec<Staged>)
        ensures
            final(self)@.len() == old(self)@.len(),
            forall|i: int|
                0 <= i < old(self)@.len() ==> #[trigger] final(self)@[i] == after_fetch(
                    old(self)@[i],
                    poll_of(polls@, i),
                ),
            r@.len() == staged_ids(old(self)@, polls@, old(self)@.len() as int).len(),
            forall|k: int|
                0 <= k < r@.len() ==> {
                    let id = staged_ids(old(self)@, polls@, old(self)@.len() as int)[k];
                    &&& #[trigger] r@[k].id == id
                    &&& r@[k].bytes@ == fetched_bytes(poll_of(polls@, id as int))
                },
    {
        let ghost old_view = self@;
        let mut r: Vec<Staged> = Vec::new();
        let mut i: usize = 0;
        while i < self.records.len()
            invariant
                i <= self@.len(),
                self@.len() == old_view.len(),
                self@.len() == self.records@.len(),
                forall|j: int| 0 <= j < i ==> #[trigger] self@[j] == after_fetch(old_view[j], poll_of(polls@, j)),
                forall|j: int| i <= j < self@.len() ==> #[trigger] self@[j] == old_view[j],
                r@.len() == staged_ids(old_view, polls@, i as int).len(),
                forall|k: int|
                    0 <= k < r@.len() ==> {
                        let id = staged_ids(old_view, polls@, i as int)[k];
                        &&& #[trigger] r@[k].id == id
                        &&& r@[k].bytes@ == fetched_bytes(poll_of(polls@, id as int))
                    },
            decreases self@.len() - i,
        {
            proof {
                assert(self@[i as int] == self.records@[i as int]@);
                assert(self@[i as int] == old_view[i as int]);
            }
            if self.records[i].state == LoadState::Requested && i < polls.len() {
                match &polls[i] {
                    Fetch::Pending => {},
                    Fetch::Ready(b) => {
                        let bytes = b.clone();
                        proof {
                            assert(bytes@ =~= b@);
                        }
                        self.set_record(i, LoadState::BytesReady, None);
                        r.push(Staged { id: i, bytes });
                    },
                    Fetch::Error(m) => {
                        self.set_record(i, LoadState::Failed, Some(m.clone()));
                    },
                }
            }
            proof {
                assert(self@[i as int] == after_fetch(old_view[i as int], poll_of(polls@, i as int)));
            }
            i = i + 1;
        }
        r
    }

    /// Records the parse report of resource `id`: a resource whose bytes were
    /// handed on moves to `Parsed` on success and to `Failed`, keeping the
    /// message, on failure. Any other resource, or an unknown handle, is left
    /// as it is. Returns whether the report failed the resource.
    pub fn finish(&mut self, id: usize, outcome: &Result<(), String>) -> (failed: bool)
        ensures
            final(self)@ == apply_outcome(old(self)@, (id, *outcome)),
            failed == fails(old(self)@, (id, *outcome)),
    {
        if id < self.records.len() && self.records[id].state == LoadState::BytesReady {
            proof {
                assert(old(self)@[id as int] == old(self).records@[id as int]@);
            }
            match outcome {
                Ok(()) => {
                    self.set_record(id, LoadState::Parsed, None);
                    proof {
                        assert(final(self)@ =~= apply_outcome(old(self)@, (id, *outcome)));
                    }
                    false
                },
                Err(m) => {
                    self.set_record(id, LoadState::Failed, Some(m.clone()));
                    proof {
                        assert(final(self)@ =~= apply_outcome(old(self)@, (id, *outcome)));
                    }
                    true
                },
            }
        } else {
            proof {
                if id < old(self)@.len() {
                    assert(old(self)@[id as int] == old(self).records@[id as int]@);
                    assert(old(self)@ =~= apply_outcome(old(self)@, (id, *outcome)));
                }
            }
            false
        }
    }

    /// Records the parse reports `outs`, in order, and returns the messages
    /// of all those that failed a resource: one failed parse does not stop
    /// the others from being recorded.
    pub fn complete(&mut self, outs: &Vec<(usize, Result<(), String>)>) -> (errors: Vec<String>)
        ensures
            final(self)@ == apply_outcomes(old(self)@, outs@),
            errors@.map_values(|e: String| e@) == parse_errors(old(self)@, outs@),
    {
        let ghost start = self@;
        let mut errors: Vec<String> = Vec::new();
        let mut i: usize = 0;
        while i < outs.len()
            invariant
                i <= outs@.len(),
                self@ == apply_outcomes(start, outs@.take(i as int)),
                errors@.map_values(|e: String| e@) == parse_errors(start, outs@.take(i as int)),
            decreases outs@.len() - i,
        {
            let ghost before = self@;
            let ghost prev_errors = errors@.map_values(|e: String| e@);
            let failed = self.finish(outs[i].0, &outs[i].1);
            if failed {
                match &outs[i].1 {
                    Err(m) => {
                        errors.push(m.clone());
                    },
                    Ok(()) => {},
                }
            }
            proof {
                let t = outs@.take(i as int + 1);
                assert(t.drop_last() =~= outs@.take(i as int));
                assert(t.last() == outs@[i as int]);
                assert(errors@.map_values(|e: String| e@) =~= parse_errors(start, t));
            }
            i = i + 1;
        }
        proof {
            assert(outs@.take(outs@.len() as int) =~= outs@);
        }
        errors
    }

    /// The path of resource `id`, or `None` for a handle never returned.
    pub fn path(&self, id: usize) -> (r: Option<String>)
        ensures
            r.is_some() == (id < self@.len()),
            r.is_some() ==> r.unwrap()@ == self@[id as int].path,
    {
        if id < self.records.len() {
            proof {
                assert(self@[id as int] == self.records@[id as int]@);
            }
            Some(self.records[id].path.clone())
        } else {
            None
        }
    }

    /// The message of the failed fetch or parse of resource `id`, if any.
    pub fn error(&self, id: usize) -> (r: Option<String>)
        ensures
            r.is_some() == (id < self@.len() && self@[id as int].error.is_some()),
            r.is_some() ==> Some(r.unwrap()@) == self@[id as int].error,
    {
        if id < self.records.len() {
            proof {
                assert(self@[id as int] == self.records@[id as int]@);
            }
            match &self.records[id].error {
                Some(e) => Some(e.clone()),
                None => None,
            }
        } else {
            None
        }
    }
}

/// With no fetch reported finished, a poll stages nothing.
pub proof fn lemma_all_pending_stages_nothing(records: Seq<RecordView>, polls: Seq<Fetch>, n: int)
    requires
        n <= records.len(),
        forall|i: int| 0 <= i < n ==> #[trigger] poll_of(polls, i) is Pending,
    ensures
        staged_ids(records, polls, n) == Seq::<usize>::empty(),
    decreases n,
{
    if n > 0 {
        assert(poll_of(polls, n - 1) is Pending);
        lemma_all_pending_stages_nothing(records, polls, n - 1);
    }
}

/// A poll in which no fetch finished leaves every resource as it was, so
/// whether each resource is loaded reads the same before and after it.
pub proof fn lemma_idle_poll_changes_nothing(records: Seq<RecordView>, polls: Seq<Fetch>)
    requires
        forall|i: int| 0 <= i < records.len() ==> #[trigger] poll_of(polls, i) is Pending,
    ensures
        after_poll(records, polls) == records,
        forall|i: int| 0 <= i < records.len() ==>
            (#[trigger] after_poll(records, polls)[i].state == LoadState::Parsed) == (records[i].state == LoadState::Parsed),
{
    assert(after_poll(records, polls) =~= records);
}

/// A resource that is no longer requested takes no report: in particular a
/// failed fetch is never tried again, and the poll stages nothing for it.
pub proof fn lemma_settled_takes_no_report(records: Seq<RecordView>, polls: Seq<Fetch>, i: int)
    requires
        0 <= i < records.len(),
        records.len() <= usize::MAX,
        records[i].state != LoadState::Requested,
    ensures
        after_fetch(records[i], poll_of(polls, i)) == records[i],
        !stages(records, polls, i),
        !ids_in_state(records, LoadState::Requested, records.len() as int).contains(i as usize),
{
    let ids = ids_in_state(records, LoadState::Requested, records.len() as int);
    lemma_ids_in_state_members(records, LoadState::Requested, records.len() as int);
    if ids.contains(i as usize) {
        let k = choose|k: int| 0 <= k < ids.len() && ids[k] == i as usize;
        assert(records[ids[k] as int].state == LoadState::Requested);
    }
}

/// The members of `ids_in_state` are exactly the handles in that state.
pub proof fn lemma_ids_in_state_members(records: Seq<RecordView>, s: LoadState, n: int)
    requires
        n <= records.len(),
        records.len() <= usize::MAX,
    ensures
        forall|k: int| 0 <= k < ids_in_state(records, s, n).len() ==> {
            let id = #[trigger] ids_in_state(records, s, n)[k];
            &&& 0 <= id < n
            &&& records[id as int].state == s
        },
        forall|j: int| 0 <= j < n && records[j].state == s ==> ids_in_state(records, s, n).contains(j as usize),
    decreases n,
{
    if n > 0 {
        lemma_ids_in_state_members(records, s, n - 1);
        let prev = ids_in_state(records, s, n - 1);
        let cur = ids_in_state(records, s, n);
        if records[n - 1].state == s {
            assert(cur == prev.push((n - 1) as usize));
            assert forall|k: int| 0 <= k < cur.len() implies {
                let id = #[trigger] cur[k];
                &&& 0 <= id < n
                &&& records[id as int].state == s
            } by {
                if k < prev.len() {
                    assert(cur[k] == prev[k]);
                }
            }
            assert forall|j: int| 0 <= j < n && records[j].state == s implies cur.contains(j as usize) by {
                if j < n - 1 {
                    let k = choose|k: int| 0 <= k < prev.len() && prev[k] == j as usize;
                    assert(cur[k] == j as usize);
                } else {
                    assert(cur[prev.len() as int] == j as usize);
                }
            }
        }
    }
}

/// A resource just added, whose fetch is the only one reported finished, is
/// the one resource whose bytes the next poll stages, and it moves to
/// `BytesReady`.
pub proof fn lemma_added_then_ready(records: Seq<RecordView>, path: Seq<char>, polls: Seq<Fetch>)
    requires
        records.len() < usize::MAX,
        poll_of(polls, records.len() as int) is Ready,
        forall|i: int| 0 <= i < records.len() ==> #[trigger] poll_of(polls, i) is Pending,
    ensures
        ({
            let added = records.push(RecordView { path, state: LoadState::Requested, error: None });
            &&& staged_ids(added, polls, added.len() as int) == seq![records.len() as usize]
            &&& after_fetch(added[records.len() as int], poll_of(polls, records.len() as int)).state
                == LoadState::BytesReady
        }),
{
    let added = records.push(RecordView { path, state: LoadState::Requested, error: None });
    assert forall|i: int| 0 <= i < records.len() implies #[trigger] poll_of(polls, i) is Pending by {}
    lemma_all_pending_stages_nothing(added, polls, records.len() as int);
    assert(stages(added, polls, records.len() as int));
    assert(staged_ids(added, polls, added.len() as int) =~= seq![records.len() as usize]);
}

} // verus!
