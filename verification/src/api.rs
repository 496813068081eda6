//! The requests the host makes of the module. Each one has two halves: the
//! first takes a promise id and says which entry point of the module to
//! call, with which counts; the second takes the completion that came back
//! under that id, turns it into the typed outcome, and retires the id.
use crate::host::{Host, HostView};
use crate::promise_set::{
    PromiseResult, PromiseResultData, PromiseResultDataView, PromiseResultView, PromiseSet,
    RejectionInfo, INITIALIZED_PROMISE_ID,
};
use std::task::Waker;
use crate::timer::{fired, Timer};
use crate::types::{InitDataType, SessionType};
use vstd::prelude::*;
use vstd::string::StringSliceAdditionalSpecFns;

verus! {

/// Why the module is not initialized.
#[derive(Clone, Debug, PartialEq, Eq)]
pub enum InitializeCDMError {
    /// The module reported that its initialization did not succeed.
    Failed,
    /// The module rejected the request.
    Rejected(RejectionInfo),
}

/// Why no session was created.
#[derive(Clone, Debug, PartialEq, Eq)]
pub enum CreateSessionError {
    /// The promise was resolved, but not with the id of a new session.
    Failed,
    /// The module rejected the request.
    Rejected(RejectionInfo),
}

/// One call into the module: the entry point, the promise id and the byte
/// counts as the module takes them. The caller supplies the bytes.
#[derive(Copy, Clone, Debug, PartialEq, Eq, Structural)]
pub enum ModuleCall {
    Initialize,
    SetServerCertificate { promise_id: u32, certificate_size: u32 },
    CreateSession {
        promise_id: u32,
        session_type: SessionType,
        init_data_type: InitDataType,
        init_data_size: u32,
    },
    UpdateSession { promise_id: u32, session_id_size: u32, response_size: u32 },
    TimerExpired { context: usize },
}

/// The outcome of the initialization request: success only where the module
/// resolved the promise with `true`.
pub open spec fn initialization_outcome(result: PromiseResult) -> Result<(), InitializeCDMError> {
    match result {
        PromiseResult::Resolved(PromiseResultData::Initialized(true)) => Ok(()),
        PromiseResult::Rejected(info) => Err(InitializeCDMError::Rejected(info)),
        _ => Err(InitializeCDMError::Failed),
    }
}

/// The outcome of a request that resolves without a value.
pub open spec fn plain_outcome(result: PromiseResult) -> Result<(), RejectionInfo> {
    match result {
        PromiseResult::Resolved(_) => Ok(()),
        PromiseResult::Rejected(info) => Err(info),
    }
}

/// The outcome of a request for a new session: its id, where the module
/// resolved the promise with one.
pub open spec fn session_outcome(result: PromiseResult) -> Result<String, CreateSessionError> {
    match result {
        PromiseResult::Resolved(PromiseResultData::NewSession(id)) => Ok(id),
        PromiseResult::Rejected(info) => Err(CreateSessionError::Rejected(info)),
        _ => Err(CreateSessionError::Failed),
    }
}

/// The calls that re-enter the module for the timers a drain handed out, one
/// each, in the same order.
pub open spec fn timer_calls(expired: Seq<Timer>) -> Seq<ModuleCall> {
    expired.map_values(|t: Timer| ModuleCall::TimerExpired { context: t.context })
}

/// Initialization succeeds exactly where the module resolved the promise
/// with `true`. A resolution with anything else fails without details, a
/// rejection fails with its details, and the two failures differ.
pub proof fn lemma_initialization_succeeds_only_on_true(result: PromiseResult)
    ensures
        initialization_outcome(result) is Ok <==> result == PromiseResult::Resolved(
            PromiseResultData::Initialized(true),
        ),
        result is Resolved && initialization_outcome(result) is Err ==> initialization_outcome(
            result,
        ) == Err::<(), InitializeCDMError>(InitializeCDMError::Failed),
        forall|info: RejectionInfo|
            result == PromiseResult::Rejected(info) ==> initialization_outcome(result) == Err::<
                (),
                InitializeCDMError,
            >(InitializeCDMError::Rejected(info)),
        forall|info: RejectionInfo|
            InitializeCDMError::Failed != InitializeCDMError::Rejected(info),
{
}

/// Whether a completion reports that the module is initialized.
pub open spec fn reports_success(result: PromiseResultView) -> bool {
    result == PromiseResultView::Resolved(PromiseResultDataView::Initialized(true))
}

/// The id of the new session that a completion carries, if it carries one.
pub open spec fn new_session_id(result: PromiseResultView) -> Option<Seq<char>> {
    match result {
        PromiseResultView::Resolved(PromiseResultDataView::NewSession(id)) => Some(id),
        _ => None,
    }
}

/// The outcomes depend on the content of the completion alone:
/// initialization succeeds exactly on a completion that reports success, and
/// a session request yields exactly the session id the completion carries.
pub proof fn lemma_outcomes_follow_the_content(result: PromiseResult)
    ensures
        initialization_outcome(result) is Ok <==> reports_success(result@),
        match session_outcome(result) {
            Ok(id) => new_session_id(result@) == Some(id@),
            Err(_) => new_session_id(result@) is None,
        },
        plain_outcome(result) is Ok <==> result@ is Resolved,
{
}

/// The initialization request from end to end. On a bridge whose
/// initialization promise has had no completion, a request that waits is
/// registered; the module's report, whatever it says, is stored under the
/// reserved id and releases that waiter; the next poll hands the report out;
/// and the report counts as success exactly where the module said `true`.
pub proof fn lemma_initialization_round_trip(
    host: HostView,
    success: bool,
    waker: Waker,
    next_waker: Waker,
)
    requires
        host.promises.wf(),
        !host.promises.completed(INITIALIZED_PROMISE_ID),
    ensures
        ({
            let report = PromiseResultView::Resolved(PromiseResultDataView::Initialized(success));
            let waiting = host.polled(INITIALIZED_PROMISE_ID, waker);
            let reported = waiting.completed(INITIALIZED_PROMISE_ID, report);
            let handed = reported.polled(INITIALIZED_PROMISE_ID, next_waker);
            &&& waiting.promises.released(INITIALIZED_PROMISE_ID) == Some(waker)
            &&& reported.promises.record(INITIALIZED_PROMISE_ID) == Some(report)
            &&& handed.promises.record(INITIALIZED_PROMISE_ID) is None
            &&& handed.promises.waiter(INITIALIZED_PROMISE_ID) is None
            &&& reports_success(report) <==> success
        }),
{
}

/// A session request from end to end. The id issued is outstanding; a
/// request that waits is registered; the module's resolution with a session
/// id is stored under the id and releases that waiter; the next poll hands
/// out the completion, which carries that session id; retiring the id leaves
/// it no longer outstanding. Whatever arrives for the id after that is
/// discarded: the bridge stays as it is and nobody is released.
pub proof fn lemma_session_round_trip(
    host: HostView,
    outstanding: Set<usize>,
    id: usize,
    session_id: Seq<char>,
    waker: Waker,
    next_waker: Waker,
    late: PromiseResultView,
)
    requires
        host.promises.wf(),
        !host.promises.completed(id),
    ensures
        ({
            let resolution = PromiseResultView::Resolved(
                PromiseResultDataView::NewSession(session_id),
            );
            let waiting = host.polled(id, waker);
            let resolved = waiting.completed(id, resolution);
            let handed = resolved.polled(id, next_waker);
            &&& outstanding.insert(id).contains(id)
            &&& !outstanding.insert(id).remove(id).contains(id)
            &&& waiting.promises.released(id) == Some(waker)
            &&& resolved.promises.record(id) == Some(resolution)
            &&& new_session_id(resolution) == Some(session_id)
            &&& handed.promises.record(id) is None
            &&& handed.promises.waiter(id) is None
            &&& handed.completed(id, late) == handed
            &&& handed.promises.released(id) is None
        }),
{
}

/// The requesting side of the bridge.
pub struct WidevineAPI {
    promise_set: PromiseSet,
    initialization_requested: bool,
}

impl WidevineAPI {
    /// The promise ids of the requests in flight.
    pub closed spec fn outstanding(&self) -> Set<usize> {
        self.promise_set.outstanding()
    }

    /// The promise id of the next request.
    pub closed spec fn next_id(&self) -> usize {
        self.promise_set.next_id()
    }

    /// Whether the one initialization request has been made.
    pub closed spec fn initialization_requested(&self) -> bool {
        self.initialization_requested
    }

    /// Every id in flight was issued, and none of them is the id of the
    /// initialization request.
    pub closed spec fn wf(&self) -> bool {
        self.promise_set.wf()
    }

    /// Whether the next promise id can cross the boundary, where an id has
    /// 32 bits.
    pub open spec fn can_issue(&self) -> bool {
        self.next_id() <= u32::MAX && self.next_id() < usize::MAX
    }

    /// What `wf` says of the ids.
    pub proof fn lemma_ids_in_flight(&self, id: usize)
        requires
            self.wf(),
            self.outstanding().contains(id),
        ensures
            1 <= id < self.next_id(),
    {
    }

    /// A bridge with no request in flight.
    pub fn new() -> (api: Self)
        ensures
            api.wf(),
            api.next_id() == 1,
            api.outstanding() == Set::<usize>::empty(),
            !api.initialization_requested(),
    {
        WidevineAPI { promise_set: PromiseSet::new(), initialization_requested: false }
    }

    /// The promise id the next request gets.
    pub fn next_promise_id(&self) -> (id: usize)
        ensures
            id == self.next_id(),
    {
        self.promise_set.next_promise_id()
    }

    /// Asks for the module's initialization, once: the first call says to
    /// call the entry point, every later call fails at once.
    pub fn initialize_cdm(&mut self) -> (call: Result<ModuleCall, InitializeCDMError>)
        ensures
            call == if old(self).initialization_requested() {
                Err::<ModuleCall, InitializeCDMError>(InitializeCDMError::Failed)
            } else {
                Ok::<ModuleCall, InitializeCDMError>(ModuleCall::Initialize)
            },
            final(self).initialization_requested(),
            final(self).outstanding() == old(self).outstanding(),
            final(self).next_id() == old(self).next_id(),
            old(self).wf() ==> final(self).wf(),
    {
        if self.initialization_requested {
            Err(InitializeCDMError::Failed)
        } else {
            self.initialization_requested = true;
            Ok(ModuleCall::Initialize)
        }
    }

    /// Turns the completion of the initialization promise into the outcome.
    pub fn initialize_cdm_result(result: PromiseResult) -> (outcome: Result<(), InitializeCDMError>)
        ensures
            outcome == initialization_outcome(result),
    {
        match result {
            PromiseResult::Resolved(PromiseResultData::Initialized(true)) => Ok(()),
            PromiseResult::Rejected(info) => Err(InitializeCDMError::Rejected(info)),
            _ => Err(InitializeCDMError::Failed),
        }
    }

    /// Takes a promise id for handing a server certificate to the module.
    pub fn set_server_certificate(&mut self, certificate: &[u8]) -> (call: ModuleCall)
        requires
            old(self).wf(),
            old(self).can_issue(),
            certificate@.len() <= u32::MAX,
        ensures
            call == (ModuleCall::SetServerCertificate {
                promise_id: old(self).next_id() as u32,
                certificate_size: certificate@.len() as u32,
            }),
            final(self).wf(),
            final(self).outstanding() == old(self).outstanding().insert(old(self).next_id()),
            final(self).next_id() == old(self).next_id() + 1,
            final(self).initialization_requested() == old(self).initialization_requested(),
    {
        let promise_id: usize = self.promise_set.create();
        ModuleCall::SetServerCertificate {
            promise_id: promise_id as u32,
            certificate_size: certificate.len() as u32,
        }
    }

    /// Takes a promise id for creating a session. The consumer of the
    /// session's events is registered here, before the module is called.
    pub fn create_session(
        &mut self,
        host: &mut Host,
        session_type: SessionType,
        init_data_type: InitDataType,
        init_data: &[u8],
        sender: usize,
    ) -> (call: ModuleCall)
        requires
            old(self).wf(),
            old(self).can_issue(),
            init_data@.len() <= u32::MAX,
        ensures
            call == (ModuleCall::CreateSession {
                promise_id: old(self).next_id() as u32,
                session_type,
                init_data_type,
                init_data_size: init_data@.len() as u32,
            }),
            final(host)@ == old(host)@.subscribed(sender),
            final(self).wf(),
            final(self).outstanding() == old(self).outstanding().insert(old(self).next_id()),
            final(self).next_id() == old(self).next_id() + 1,
            final(self).initialization_requested() == old(self).initialization_requested(),
    {
        let promise_id: usize = self.promise_set.create();
        host.set_event_sender(sender);
        ModuleCall::CreateSession {
            promise_id: promise_id as u32,
            session_type,
            init_data_type,
            init_data_size: init_data.len() as u32,
        }
    }

    /// Takes a promise id for handing a license response to a session.
    pub fn update_session(&mut self, session_id: &str, response: &[u8]) -> (call: ModuleCall)
        requires
            old(self).wf(),
            old(self).can_issue(),
            session_id.spec_bytes().len() <= u32::MAX,
            response@.len() <= u32::MAX,
        ensures
            call == (ModuleCall::UpdateSession {
                promise_id: old(self).next_id() as u32,
                session_id_size: session_id.spec_bytes().len() as u32,
                response_size: response@.len() as u32,
            }),
            final(self).wf(),
            final(self).outstanding() == old(self).outstanding().insert(old(self).next_id()),
            final(self).next_id() == old(self).next_id() + 1,
            final(self).initialization_requested() == old(self).initialization_requested(),
    {
        let promise_id: usize = self.promise_set.create();
        ModuleCall::UpdateSession {
            promise_id: promise_id as u32,
            session_id_size: session_id.len() as u32,
            response_size: response.len() as u32,
        }
    }

    /// Turns the completion of a request that resolves without a value into
    /// the outcome, and retires its promise id.
    pub fn request_result(&mut self, promise_id: usize, result: PromiseResult) -> (outcome: Result<
        (),
        RejectionInfo,
    >)
        ensures
            outcome == plain_outcome(result),
            final(self).outstanding() == old(self).outstanding().remove(promise_id),
            final(self).next_id() == old(self).next_id(),
            final(self).initialization_requested() == old(self).initialization_requested(),
            old(self).wf() ==> final(self).wf(),
    {
        self.promise_set.pop(promise_id);
        match result {
            PromiseResult::Resolved(_) => Ok(()),
            PromiseResult::Rejected(info) => Err(info),
        }
    }

    /// Turns the completion of a request for a new session into the outcome,
    /// and retires its promise id.
    pub fn create_session_result(&mut self, promise_id: usize, result: PromiseResult) -> (outcome:
        Result<String, CreateSessionError>)
        ensures
            outcome == session_outcome(result),
            final(self).outstanding() == old(self).outstanding().remove(promise_id),
            final(self).next_id() == old(self).next_id(),
            final(self).initialization_requested() == old(self).initialization_requested(),
            old(self).wf() ==> final(self).wf(),
    {
        self.promise_set.pop(promise_id);
        match result {
            PromiseResult::Resolved(PromiseResultData::NewSession(id)) => Ok(id),
            PromiseResult::Rejected(info) => Err(CreateSessionError::Rejected(info)),
            _ => Err(CreateSessionError::Failed),
        }
    }

    /// Collects the timers that have expired at `now` and says, for each, to
    /// re-enter the module with its context, in the order in which they were
    /// handed out.
    pub fn update(&self, host: &mut Host, now: u64) -> (calls: Vec<ModuleCall>)
        requires
            old(host)@.wf(),
        ensures
            calls@ == timer_calls(fired(old(host)@.timers, now)),
            final(host)@ == old(host)@.timers_drained(now),
            final(host)@.wf(),
    {
        let expired = host.timer_iter(now);
        let mut calls: Vec<ModuleCall> = Vec::new();
        let mut i: usize = 0;
        while i < expired.len()
            invariant
                i <= expired.len(),
                calls@.len() == i,
                forall|j: int|
                    0 <= j < i ==> #[trigger] calls@[j] == (ModuleCall::TimerExpired {
                        context: expired@[j].context,
                    }),
            decreases expired.len() - i,
        {
            calls.push(ModuleCall::TimerExpired { context: expired[i].context });
            i = i + 1;
        }
        assert(calls@ =~= timer_calls(expired@));
        calls
    }
}

} // verus!
