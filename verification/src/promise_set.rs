//! Promise ids and the table that correlates a completion with its waiter.
use crate::types::Exception;
use std::collections::{HashMap, HashSet};
use std::task::Waker;
use vstd::prelude::*;

verus! {

broadcast use vstd::std_specs::hash::group_hash_axioms;

/// The handle by which a suspended request is resumed.
#[verifier::external_type_specification]
#[verifier::external_body]
pub struct ExWaker(Waker);

/// Why the module refused a request.
#[derive(Clone, Debug, PartialEq, Eq)]
pub struct RejectionInfo {
    pub exception: Exception,
    pub system_code: u32,
    pub error_message: String,
}

/// What a resolved promise carries.
#[derive(Clone, Debug, PartialEq, Eq)]
pub enum PromiseResultData {
    Empty,
    Initialized(bool),
    NewSession(String),
}

/// The completion of one promise.
#[derive(Clone, Debug, PartialEq, Eq)]
pub enum PromiseResult {
    Resolved(PromiseResultData),
    Rejected(RejectionInfo),
}

/// The mathematical content of a rejection.
pub struct RejectionInfoView {
    pub exception: Exception,
    pub system_code: u32,
    pub error_message: Seq<char>,
}

impl View for RejectionInfo {
    type V = RejectionInfoView;

    open spec fn view(&self) -> RejectionInfoView {
        RejectionInfoView {
            exception: self.exception,
            system_code: self.system_code,
            error_message: self.error_message@,
        }
    }
}

/// The mathematical content of a resolution's payload.
pub enum PromiseResultDataView {
    Empty,
    Initialized(bool),
    NewSession(Seq<char>),
}

impl View for PromiseResultData {
    type V = PromiseResultDataView;

    open spec fn view(&self) -> PromiseResultDataView {
        match *self {
            PromiseResultData::Empty => PromiseResultDataView::Empty,
            PromiseResultData::Initialized(success) => PromiseResultDataView::Initialized(success),
            PromiseResultData::NewSession(id) => PromiseResultDataView::NewSession(id@),
        }
    }
}

/// The mathematical content of a completion.
pub enum PromiseResultView {
    Resolved(PromiseResultDataView),
    Rejected(RejectionInfoView),
}

impl View for PromiseResult {
    type V = PromiseResultView;

    open spec fn view(&self) -> PromiseResultView {
        match *self {
            PromiseResult::Resolved(data) => PromiseResultView::Resolved(data@),
            PromiseResult::Rejected(info) => PromiseResultView::Rejected(info@),
        }
    }
}

impl PromiseResult {
    /// A resolution is `Ok` with its payload, a rejection `Err` with its
    /// details.
    pub fn as_result(self) -> (r: Result<PromiseResultData, RejectionInfo>)
        ensures
            r == self.spec_as_result(),
    {
        match self {
            PromiseResult::Resolved(data) => Ok(data),
            PromiseResult::Rejected(info) => Err(info),
        }
    }

    pub open spec fn spec_as_result(self) -> Result<PromiseResultData, RejectionInfo> {
        match self {
            PromiseResult::Resolved(data) => Ok(data),
            PromiseResult::Rejected(info) => Err(info),
        }
    }
}

/// The id of the one initialization request. No other request has it.
pub const INITIALIZED_PROMISE_ID: usize = 0;

/// Issues promise ids and remembers which are outstanding.
pub struct PromiseSet {
    next: usize,
    stored: HashSet<usize>,
}

impl PromiseSet {
    /// The ids issued and not yet retired.
    pub closed spec fn outstanding(&self) -> Set<usize> {
        self.stored@
    }

    /// The id that the next call of `create` issues.
    pub closed spec fn next_id(&self) -> usize {
        self.next
    }

    /// Every outstanding id was issued: it lies from 1 up to, and not
    /// including, the next id.
    pub open spec fn wf(&self) -> bool {
        &&& self.next_id() >= 1
        &&& forall|id: usize| #[trigger]
            self.outstanding().contains(id) ==> 1 <= id < self.next_id()
    }

    /// A set with nothing outstanding, whose first id is 1.
    pub fn new() -> (s: Self)
        ensures
            s.wf(),
            s.next_id() == 1,
            s.outstanding() == Set::<usize>::empty(),
    {
        PromiseSet { next: 1, stored: HashSet::new() }
    }

    /// The id that the next call of `create` issues.
    pub fn next_promise_id(&self) -> (id: usize)
        ensures
            id == self.next_id(),
    {
        self.next
    }

    /// Issues the next id and records it as outstanding.
    pub fn create(&mut self) -> (id: usize)
        requires
            old(self).wf(),
            old(self).next_id() < usize::MAX,
        ensures
            id == old(self).next_id(),
            id != INITIALIZED_PROMISE_ID,
            !old(self).outstanding().contains(id),
            final(self).outstanding() == old(self).outstanding().insert(id),
            final(self).next_id() == id + 1,
            final(self).wf(),
    {
        let id: usize = self.next;
        self.stored.insert(id);
        self.next = self.next + 1;
        assert forall|other: usize| #[trigger]
            self.outstanding().contains(other) implies 1 <= other < self.next_id() by {
            if other != id {
                assert(old(self).outstanding().contains(other));
            }
        }
        id
    }

    /// Retires an id. Tells whether it was outstanding.
    pub fn pop(&mut self, id: usize) -> (was_outstanding: bool)
        ensures
            was_outstanding == old(self).outstanding().contains(id),
            final(self).outstanding() == old(self).outstanding().remove(id),
            final(self).next_id() == old(self).next_id(),
            old(self).wf() ==> final(self).wf(),
    {
        self.stored.remove(&id)
    }
}

impl Default for PromiseSet {
    fn default() -> (s: Self)
        ensures
            s.wf(),
            s.next_id() == 1,
            s.outstanding() == Set::<usize>::empty(),
    {
        PromiseSet::new()
    }
}

/// The table as mathematics: the completions stored, the waiters
/// registered, each by promise id, and the ids whose completion has been
/// handed out.
pub struct PromiseManagerView {
    pub records: Map<usize, PromiseResultView>,
    pub waiters: Map<usize, Waker>,
    pub consumed: Set<usize>,
}

impl PromiseManagerView {
    /// No id has a stored completion together with a registered waiter, and
    /// none has one stored after its completion was handed out.
    pub open spec fn wf(self) -> bool {
        &&& forall|id: usize|
            !(#[trigger] self.records.contains_key(id) && self.waiters.contains_key(id))
        &&& forall|id: usize|
            !(#[trigger] self.records.contains_key(id) && self.consumed.contains(id))
    }

    /// The table with nothing stored, nobody waiting and nothing handed out.
    pub open spec fn empty() -> Self {
        PromiseManagerView { records: Map::empty(), waiters: Map::empty(), consumed: Set::empty() }
    }

    /// Whether a completion of `id` has arrived, be it still stored or
    /// already handed out.
    pub open spec fn completed(self, id: usize) -> bool {
        self.records.contains_key(id) || self.consumed.contains(id)
    }

    /// The waiter registered for `id`, if there is one.
    pub open spec fn waiter(self, id: usize) -> Option<Waker> {
        if self.waiters.contains_key(id) {
            Some(self.waiters[id])
        } else {
            None
        }
    }

    /// The table after the waiter of `id`, if any, has been released.
    pub open spec fn wake(self, id: usize) -> Self {
        PromiseManagerView { waiters: self.waiters.remove(id), ..self }
    }

    /// The table after a completion of `id` arrives: the first one is stored
    /// and releases the waiter; one that comes after another, stored or
    /// handed out, changes nothing.
    pub open spec fn complete(self, id: usize, result: PromiseResultView) -> Self {
        if self.completed(id) {
            self
        } else {
            PromiseManagerView {
                records: self.records.insert(id, result),
                waiters: self.waiters.remove(id),
                ..self
            }
        }
    }

    /// The waiter that a completion of `id` releases: the one registered,
    /// where the completion is the first for its id.
    pub open spec fn released(self, id: usize) -> Option<Waker> {
        if self.completed(id) {
            None
        } else {
            self.waiter(id)
        }
    }

    /// The table after a waiter asks to be registered for `id`: it is, unless
    /// a completion is already stored.
    pub open spec fn register(self, id: usize, waker: Waker) -> Self {
        if self.records.contains_key(id) {
            self
        } else {
            PromiseManagerView { waiters: self.waiters.insert(id, waker), ..self }
        }
    }

    /// The completion stored for `id`, if there is one.
    pub open spec fn record(self, id: usize) -> Option<PromiseResultView> {
        if self.records.contains_key(id) {
            Some(self.records[id])
        } else {
            None
        }
    }

    /// The table after the completion of `id` has been asked for: a stored
    /// one is taken out, and the id is remembered as handed out.
    pub open spec fn take(self, id: usize) -> Self {
        if self.records.contains_key(id) {
            PromiseManagerView {
                records: self.records.remove(id),
                consumed: self.consumed.insert(id),
                ..self
            }
        } else {
            self
        }
    }

    /// The table after one poll for `id`: a stored completion is taken out,
    /// otherwise the waiter is registered.
    pub open spec fn poll(self, id: usize, waker: Waker) -> Self {
        if self.records.contains_key(id) {
            self.take(id)
        } else {
            self.register(id, waker)
        }
    }
}

/// The content of a completion that may be absent.
pub open spec fn result_view(record: Option<PromiseResult>) -> Option<PromiseResultView> {
    match record {
        Some(result) => Some(result@),
        None => None,
    }
}

/// The contents of the stored completions, by promise id.
pub open spec fn records_view(records: Map<usize, PromiseResult>) -> Map<usize, PromiseResultView> {
    records.map_values(|r: PromiseResult| r@)
}

proof fn lemma_records_view_insert(records: Map<usize, PromiseResult>, id: usize, result: PromiseResult)
    ensures
        records_view(records.insert(id, result)) == records_view(records).insert(id, result@),
{
    assert(records_view(records.insert(id, result)) =~= records_view(records).insert(id, result@));
}

proof fn lemma_records_view_remove(records: Map<usize, PromiseResult>, id: usize)
    ensures
        records_view(records.remove(id)) == records_view(records).remove(id),
{
    assert(records_view(records.remove(id)) =~= records_view(records).remove(id));
}

/// What became of a completion that arrived: whether it was stored, and the
/// waiter it released. The caller wakes that waiter; by then the completion
/// is stored.
#[derive(Debug)]
pub struct Completion {
    pub stored: bool,
    pub waiter: Option<Waker>,
}

/// The correlation table: completions that have arrived and not been
/// consumed, the waiters of requests still in flight, and the ids whose
/// completion has been consumed.
pub struct PromiseManager {
    pub finished_promises: HashMap<usize, PromiseResult>,
    pub on_finished_promises: HashMap<usize, Waker>,
    pub consumed_promises: HashSet<usize>,
}

impl View for PromiseManager {
    type V = PromiseManagerView;

    open spec fn view(&self) -> PromiseManagerView {
        PromiseManagerView {
            records: records_view(self.finished_promises@),
            waiters: self.on_finished_promises@,
            consumed: self.consumed_promises@,
        }
    }
}

impl PromiseManager {
    /// An empty table.
    pub fn new() -> (m: Self)
        ensures
            m@ == PromiseManagerView::empty(),
            m@.wf(),
    {
        let m = PromiseManager {
            finished_promises: HashMap::new(),
            on_finished_promises: HashMap::new(),
            consumed_promises: HashSet::new(),
        };
        assert(m@.records =~= Map::<usize, PromiseResultView>::empty());
        m
    }

    /// Releases the waiter registered for `id`: the table forgets it and
    /// hands it to the caller, who wakes it.
    pub fn wake(&mut self, id: usize) -> (waiter: Option<Waker>)
        ensures
            waiter == old(self)@.waiter(id),
            final(self)@ == old(self)@.wake(id),
            old(self)@.wf() ==> final(self)@.wf(),
    {
        self.on_finished_promises.remove(&id)
    }

    /// Stores the completion of `id` and releases its waiter. A completion
    /// for an id that has had one before, whether that is still stored or
    /// has been handed out, is dropped, and the table stays as it was.
    pub fn complete(&mut self, id: usize, result: PromiseResult) -> (done: Completion)
        ensures
            done.stored == !old(self)@.completed(id),
            done.waiter == old(self)@.released(id),
            final(self)@ == old(self)@.complete(id, result@),
            old(self)@.wf() ==> final(self)@.wf(),
    {
        if self.finished_promises.contains_key(&id) || self.consumed_promises.contains(&id) {
            Completion { stored: false, waiter: None }
        } else {
            proof {
                lemma_records_view_insert(self.finished_promises@, id, result);
            }
            self.finished_promises.insert(id, result);
            let waiter = self.wake(id);
            Completion { stored: true, waiter }
        }
    }

    /// Registers `waker` as the waiter of `id`, in place of an earlier one.
    /// Refuses, and tells so with `false`, when a completion is already
    /// stored: the caller takes it instead.
    pub fn register_waiter(&mut self, id: usize, waker: Waker) -> (registered: bool)
        ensures
            registered == !old(self)@.records.contains_key(id),
            final(self)@ == old(self)@.register(id, waker),
            old(self)@.wf() ==> final(self)@.wf(),
    {
        if self.finished_promises.contains_key(&id) {
            false
        } else {
            self.on_finished_promises.insert(id, waker);
            true
        }
    }

    /// Removes and returns the completion stored for `id`, and remembers
    /// that the id has had its completion.
    pub fn take(&mut self, id: usize) -> (record: Option<PromiseResult>)
        ensures
            result_view(record) == old(self)@.record(id),
            final(self)@ == old(self)@.take(id),
            old(self)@.wf() ==> final(self)@.wf(),
    {
        proof {
            lemma_records_view_remove(self.finished_promises@, id);
        }
        match self.finished_promises.remove(&id) {
            Some(result) => {
                self.consumed_promises.insert(id);
                Some(result)
            },
            None => {
                assert(self.finished_promises@ =~= old(self).finished_promises@);
                None
            },
        }
    }
}

impl Default for PromiseManager {
    fn default() -> (m: Self)
        ensures
            m@ == PromiseManagerView::empty(),
            m@.wf(),
    {
        PromiseManager::new()
    }
}

/// The awaitable side of one promise.
pub struct FuturePromise {
    pub id: usize,
}

impl FuturePromise {
    /// One poll: hands out the completion if it has arrived, and registers
    /// `waker` to be woken by it if it has not.
    pub fn poll(&self, manager: &mut PromiseManager, waker: Waker) -> (ready: Option<PromiseResult>)
        ensures
            result_view(ready) == old(manager)@.record(self.id),
            final(manager)@ == old(manager)@.poll(self.id, waker),
            old(manager)@.wf() ==> final(manager)@.wf(),
    {
        match manager.take(self.id) {
            Some(value) => Some(value),
            None => {
                manager.register_waiter(self.id, waker);
                None
            },
        }
    }
}

/// A second completion of an id is ignored. Whatever the table holds, after
/// a completion of `id` has arrived the id counts as completed, and a
/// further completion of it leaves the whole table as it is and releases
/// nobody. While no completion had arrived, the record stored is the first.
pub proof fn lemma_second_completion_is_ignored(
    table: PromiseManagerView,
    id: usize,
    first: PromiseResultView,
    second: PromiseResultView,
)
    ensures
        table.complete(id, first).completed(id),
        table.complete(id, first).complete(id, second) == table.complete(id, first),
        table.complete(id, first).released(id) is None,
        !table.completed(id) ==> table.complete(id, first).record(id) == Some(first),
        table.completed(id) ==> table.complete(id, first) == table,
{
}

/// An id has its completion once and for all. After the one completion has
/// been handed out, the id still counts as completed: a completion that
/// arrives then is discarded, no record is stored for the id again, and
/// nobody is released.
pub proof fn lemma_completion_after_take_is_discarded(
    table: PromiseManagerView,
    id: usize,
    first: PromiseResultView,
    late: PromiseResultView,
)
    requires
        table.wf(),
        !table.completed(id),
    ensures
        ({
            let stored = table.complete(id, first);
            let taken = stored.take(id);
            &&& stored.record(id) == Some(first)
            &&& taken.record(id) is None
            &&& taken.completed(id)
            &&& taken.complete(id, late) == taken
            &&& taken.released(id) is None
            &&& taken.wf()
        }),
{
}

/// No operation of the table makes a completed id count as not completed
/// again.
pub proof fn lemma_completed_stays_completed(
    table: PromiseManagerView,
    id: usize,
    other: usize,
    result: PromiseResultView,
    waker: Waker,
)
    requires
        table.completed(id),
    ensures
        table.complete(other, result).completed(id),
        table.take(other).completed(id),
        table.register(other, waker).completed(id),
        table.poll(other, waker).completed(id),
        table.wake(other).completed(id),
{
}

/// A completion touches no other id: the records and waiters of every other
/// id stay as they were.
pub proof fn lemma_completion_is_local(
    table: PromiseManagerView,
    id: usize,
    result: PromiseResultView,
    other: usize,
)
    requires
        other != id,
    ensures
        table.complete(id, result).record(other) == table.record(other),
        table.complete(id, result).waiter(other) == table.waiter(other),
        table.complete(id, result).completed(other) == table.completed(other),
{
}

/// No wakeup is lost. A request that polls before its completion arrives is
/// registered as the waiter; the completion is then stored and releases
/// exactly that waiter to be woken; the next poll hands the completion out
/// and leaves neither a record nor a waiter behind. No id ever has a record
/// and a waiter at once.
pub proof fn lemma_waiter_observes_completion(
    table: PromiseManagerView,
    id: usize,
    waker: Waker,
    result: PromiseResultView,
    next_waker: Waker,
)
    requires
        table.wf(),
        !table.completed(id),
    ensures
        ({
            let waiting = table.poll(id, waker);
            let completed = waiting.complete(id, result);
            let consumed = completed.poll(id, next_waker);
            &&& waiting.wf() && completed.wf() && consumed.wf()
            &&& waiting.record(id) is None
            &&& waiting.waiter(id) == Some(waker)
            &&& waiting.released(id) == Some(waker)
            &&& completed.record(id) == Some(result)
            &&& completed.waiter(id) is None
            &&& consumed.record(id) is None
            &&& consumed.waiter(id) is None
        }),
{
}

/// A completion that arrives before the first poll is not lost either: it is
/// stored, and the first poll hands it out without registering a waiter.
pub proof fn lemma_early_completion_is_kept(
    table: PromiseManagerView,
    id: usize,
    result: PromiseResultView,
    waker: Waker,
)
    requires
        table.wf(),
        !table.completed(id),
    ensures
        ({
            let completed = table.complete(id, result);
            let consumed = completed.poll(id, waker);
            &&& completed.wf() && consumed.wf()
            &&& completed.record(id) == Some(result)
            &&& consumed.record(id) is None
            &&& consumed.waiter(id) is None
        }),
{
}

} // verus!
