//! The dispatch surface: one entry point for each callback of the module.
//! A completion goes to the correlation table under its promise id, and the
//! waiter it releases is handed to the caller to be woken. An unsolicited
//! session event goes to the consumer registered at that moment; while none
//! is registered it is held for the first one. Whatever the module lends for the duration of a callback is copied before
//! the entry point returns.
use crate::promise_set::{
    result_view, Completion, FuturePromise, PromiseManager, PromiseManagerView, PromiseResult,
    PromiseResultData, PromiseResultDataView, PromiseResultView, RejectionInfo,
    RejectionInfoView, INITIALIZED_PROMISE_ID,
};
use crate::timer::{fired, scheduled, sorted, waiting, Scheduled, Timer, TimerManager};
use std::task::Waker;
use crate::types::{
    keys_view, CDMKeyInformation, Exception, KeyInformation, KeyInformationView, KeysChange,
    MessageType, SessionEvent, SessionEventType, SessionEventTypeView, SessionEventView,
    SessionMessage,
};
use vstd::prelude::*;
use vstd::slice::slice_to_vec;

verus! {

/// A session event on its way to the consumer it was routed to.
#[derive(Debug, Clone, PartialEq, Eq)]
pub struct Delivery {
    pub consumer: usize,
    pub event: SessionEvent,
}

/// The mathematical content of a delivery.
pub struct DeliveryView {
    pub consumer: usize,
    pub event: SessionEventView,
}

impl View for Delivery {
    type V = DeliveryView;

    open spec fn view(&self) -> DeliveryView {
        DeliveryView { consumer: self.consumer, event: self.event@ }
    }
}

/// The contents of a run of deliveries, in order.
pub open spec fn deliveries_view(deliveries: Seq<Delivery>) -> Seq<DeliveryView> {
    Seq::new(deliveries.len(), |i: int| deliveries[i]@)
}

/// The entries the module lent, as the host will hold them.
pub open spec fn lent_keys_view(keys: Seq<CDMKeyInformation<'_>>) -> Seq<KeyInformationView> {
    Seq::new(keys.len(), |i: int| keys[i]@)
}

/// The bridge as mathematics: the correlation table, the consumer that
/// session events are routed to, the events that arrived while there was no
/// consumer, the events routed and not yet collected, both oldest first, and
/// the timers that wait.
pub struct HostView {
    pub promises: PromiseManagerView,
    pub consumer: Option<usize>,
    pub held: Seq<SessionEventView>,
    pub outbox: Seq<DeliveryView>,
    pub timers: Seq<Scheduled>,
}

/// The events in `held`, in order, each as a delivery to `consumer`.
pub open spec fn routed_to(held: Seq<SessionEventView>, consumer: usize) -> Seq<DeliveryView> {
    held.map_values(|event: SessionEventView| DeliveryView { consumer, event })
}

/// The contents of a run of events, in order.
pub open spec fn events_view(events: Seq<SessionEvent>) -> Seq<SessionEventView> {
    Seq::new(events.len(), |i: int| events[i]@)
}

impl HostView {
    /// The bridge before anything has happened.
    pub open spec fn empty() -> Self {
        HostView {
            promises: PromiseManagerView::empty(),
            consumer: None,
            held: Seq::empty(),
            outbox: Seq::empty(),
            timers: Seq::empty(),
        }
    }

    /// The bridge after a completion of `id` has been dispatched.
    pub open spec fn completed(self, id: usize, result: PromiseResultView) -> Self {
        HostView { promises: self.promises.complete(id, result), ..self }
    }

    /// The bridge after a session event has been dispatched: it is appended
    /// for the registered consumer, and held for the first consumer to come
    /// where there is none yet.
    pub open spec fn sent(self, event: SessionEventView) -> Self {
        match self.consumer {
            Some(consumer) => HostView {
                outbox: self.outbox.push(DeliveryView { consumer, event }),
                ..self
            },
            None => HostView { held: self.held.push(event), ..self },
        }
    }

    /// The bridge after one poll of the promise `id`.
    pub open spec fn polled(self, id: usize, waker: Waker) -> Self {
        HostView { promises: self.promises.poll(id, waker), ..self }
    }

    /// The bridge after `consumer` has been registered in place of any
    /// earlier one. The events held until now are routed to it, in the order
    /// in which they arrived, ahead of any event still to come.
    pub open spec fn subscribed(self, consumer: usize) -> Self {
        HostView {
            consumer: Some(consumer),
            held: Seq::empty(),
            outbox: self.outbox + routed_to(self.held, consumer),
            ..self
        }
    }

    /// The bridge after the routed events have been collected.
    pub open spec fn collected(self) -> Self {
        HostView { outbox: Seq::empty(), ..self }
    }

    /// The bridge after the module has asked for a timer at `now`.
    pub open spec fn timer_started(self, now: u64, timer: Timer) -> Self {
        HostView { timers: scheduled(self.timers, now, timer), ..self }
    }

    /// The bridge after the timers expired at `now` have been handed out.
    pub open spec fn timers_drained(self, now: u64) -> Self {
        HostView { timers: waiting(self.timers, now), ..self }
    }

    /// The waiting timers stand by expiry time.
    pub open spec fn wf(self) -> bool {
        sorted(self.timers)
    }
}

/// The host's side of the boundary.
pub struct Host {
    promise_manager: PromiseManager,
    event_sender: Option<usize>,
    held: Vec<SessionEvent>,
    events: Vec<Delivery>,
    timer_manager: TimerManager,
}

impl View for Host {
    type V = HostView;

    closed spec fn view(&self) -> HostView {
        HostView {
            promises: self.promise_manager@,
            consumer: self.event_sender,
            held: events_view(self.held@),
            outbox: deliveries_view(self.events@),
            timers: self.timer_manager@,
        }
    }
}

/// Copies the key entries the module lent, key id bytes included, so that
/// nothing of the result refers to the module's memory.
pub fn copy_keys(keys_info: &[CDMKeyInformation<'_>]) -> (copied: Vec<KeyInformation>)
    ensures
        keys_view(copied@) == lent_keys_view(keys_info@),
        copied@.len() == keys_info@.len(),
        forall|i: int| 0 <= i < copied@.len() ==> (#[trigger] copied@[i])@ == keys_info@[i]@,
{
    let mut copied: Vec<KeyInformation> = Vec::new();
    let mut i: usize = 0;
    while i < keys_info.len()
        invariant
            i <= keys_info.len(),
            copied@.len() == i,
            forall|j: int| 0 <= j < i ==> (#[trigger] copied@[j])@ == keys_info@[j]@,
        decreases keys_info.len() - i,
    {
        let lent = &keys_info[i];
        copied.push(
            KeyInformation {
                key_id: slice_to_vec(lent.key_id),
                status: lent.status,
                system_code: lent.system_code,
            },
        );
        i = i + 1;
    }
    assert(keys_view(copied@) =~= lent_keys_view(keys_info@));
    copied
}

impl Host {
    /// A bridge with an empty table, no consumer and no event.
    pub fn new() -> (host: Self)
        ensures
            host@ == HostView::empty(),
            host@.wf(),
    {
        let host = Host {
            promise_manager: PromiseManager::new(),
            event_sender: None,
            held: Vec::new(),
            events: Vec::new(),
            timer_manager: TimerManager::new(),
        };
        assert(host@.outbox =~= Seq::<DeliveryView>::empty());
        assert(host@.held =~= Seq::<SessionEventView>::empty());
        host
    }

    /// Stores a completion under its promise id and releases the waiter,
    /// whom the caller wakes. A completion of an id that has had one before
    /// is dropped.
    pub fn wake_promise(&mut self, promise_id: usize, result: PromiseResult) -> (done: Completion)
        ensures
            done.stored == !old(self)@.promises.completed(promise_id),
            done.waiter == old(self)@.promises.released(promise_id),
            final(self)@ == old(self)@.completed(promise_id, result@),
            old(self)@.promises.wf() ==> final(self)@.promises.wf(),
    {
        self.promise_manager.complete(promise_id, result)
    }

    /// Routes a session event to the registered consumer. Tells whether
    /// there was one; without one the event is held for the first consumer
    /// to register.
    pub fn send_event(&mut self, event: SessionEvent) -> (routed: bool)
        ensures
            routed == old(self)@.consumer.is_some(),
            final(self)@ == old(self)@.sent(event@),
    {
        match self.event_sender {
            Some(consumer) => {
                self.events.push(Delivery { consumer, event });
                assert(self@.outbox =~= old(self)@.outbox.push(
                    DeliveryView { consumer, event: event@ },
                ));
                true
            },
            None => {
                self.held.push(event);
                assert(self@.held =~= old(self)@.held.push(event@));
                false
            },
        }
    }

    /// The module reports the outcome of its initialization. Either outcome
    /// resolves the initialization promise; a failure is no rejection. The
    /// waiter released is the caller's to wake.
    pub fn on_initialized(&mut self, success: bool) -> (done: Completion)
        ensures
            done.stored == !old(self)@.promises.completed(INITIALIZED_PROMISE_ID),
            done.waiter == old(self)@.promises.released(INITIALIZED_PROMISE_ID),
            final(self)@ == old(self)@.completed(
                INITIALIZED_PROMISE_ID,
                PromiseResultView::Resolved(PromiseResultDataView::Initialized(success)),
            ),
            old(self)@.promises.wf() ==> final(self)@.promises.wf(),
    {
        let result = PromiseResult::Resolved(PromiseResultData::Initialized(success));
        self.wake_promise(INITIALIZED_PROMISE_ID, result)
    }

    /// The module resolves a promise that carries no value.
    pub fn on_resolve(&mut self, promise_id: u32) -> (done: Completion)
        ensures
            done.stored == !old(self)@.promises.completed(promise_id as usize),
            done.waiter == old(self)@.promises.released(promise_id as usize),
            final(self)@ == old(self)@.completed(
                promise_id as usize,
                PromiseResultView::Resolved(PromiseResultDataView::Empty),
            ),
            old(self)@.promises.wf() ==> final(self)@.promises.wf(),
    {
        let result = PromiseResult::Resolved(PromiseResultData::Empty);
        self.wake_promise(promise_id as usize, result)
    }

    /// The module rejects a promise. The message is copied.
    pub fn on_reject(
        &mut self,
        promise_id: u32,
        exception: Exception,
        system_code: u32,
        error_message: &str,
    ) -> (done: Completion)
        ensures
            done.stored == !old(self)@.promises.completed(promise_id as usize),
            done.waiter == old(self)@.promises.released(promise_id as usize),
            final(self)@ == old(self)@.completed(
                promise_id as usize,
                PromiseResultView::Rejected(
                    RejectionInfoView { exception, system_code, error_message: error_message@ },
                ),
            ),
            old(self)@.promises.wf() ==> final(self)@.promises.wf(),
    {
        let info = RejectionInfo {
            exception,
            system_code,
            error_message: error_message.to_owned(),
        };
        let result = PromiseResult::Rejected(info);
        self.wake_promise(promise_id as usize, result)
    }

    /// The module resolves a promise with the id of a new session. The id is
    /// copied.
    pub fn on_resolve_new_session(&mut self, promise_id: u32, session_id: &str) -> (done: Completion)
        ensures
            done.stored == !old(self)@.promises.completed(promise_id as usize),
            done.waiter == old(self)@.promises.released(promise_id as usize),
            final(self)@ == old(self)@.completed(
                promise_id as usize,
                PromiseResultView::Resolved(PromiseResultDataView::NewSession(session_id@)),
            ),
            old(self)@.promises.wf() ==> final(self)@.promises.wf(),
    {
        let result = PromiseResult::Resolved(
            PromiseResultData::NewSession(session_id.to_owned()),
        );
        self.wake_promise(promise_id as usize, result)
    }

    /// A session has a message for the host to deliver. Session id and
    /// payload are copied.
    pub fn on_session_message(
        &mut self,
        session_id: &str,
        message_type: MessageType,
        message: &[u8],
    ) -> (routed: bool)
        ensures
            routed == old(self)@.consumer.is_some(),
            final(self)@ == old(self)@.sent(
                SessionEventView {
                    session_id: session_id@,
                    data: SessionEventTypeView::Message { message_type, content: message@ },
                },
            ),
    {
        let event = SessionEvent {
            session_id: session_id.to_owned(),
            data: SessionEventType::Message(
                SessionMessage { message_type, content: slice_to_vec(message) },
            ),
        };
        self.send_event(event)
    }

    /// The expiry time of a session has changed. The new time is carried as
    /// the bit pattern of the module's floating-point value.
    pub fn on_expiration_change(&mut self, session_id: &str, new_expiry_time: u64) -> (routed:
        bool)
        ensures
            routed == old(self)@.consumer.is_some(),
            final(self)@ == old(self)@.sent(
                SessionEventView {
                    session_id: session_id@,
                    data: SessionEventTypeView::ExpirationChange { expiry_bits: new_expiry_time },
                },
            ),
    {
        let event = SessionEvent {
            session_id: session_id.to_owned(),
            data: SessionEventType::ExpirationChange(new_expiry_time),
        };
        self.send_event(event)
    }

    /// The keys of a session have changed. Every entry is copied, key id
    /// bytes included, in the order given.
    pub fn on_session_keys_change(
        &mut self,
        session_id: &str,
        has_additional_usable_key: bool,
        keys_info: &[CDMKeyInformation<'_>],
    ) -> (routed: bool)
        ensures
            routed == old(self)@.consumer.is_some(),
            final(self)@ == old(self)@.sent(
                SessionEventView {
                    session_id: session_id@,
                    data: SessionEventTypeView::KeysChange {
                        has_additional_usable_key,
                        keys_info: lent_keys_view(keys_info@),
                    },
                },
            ),
    {
        let event = SessionEvent {
            session_id: session_id.to_owned(),
            data: SessionEventType::KeysChange(
                KeysChange { has_additional_usable_key, keys_info: copy_keys(keys_info) },
            ),
        };
        self.send_event(event)
    }

    /// The awaitable side of a promise.
    pub fn get_future(&self, promise_id: usize) -> (future: FuturePromise)
        ensures
            future.id == promise_id,
    {
        FuturePromise { id: promise_id }
    }

    /// One poll of a promise: hands out its completion if that has arrived,
    /// and registers `waker` to be woken by it if it has not.
    pub fn poll(&mut self, future: &FuturePromise, waker: Waker) -> (ready: Option<PromiseResult>)
        ensures
            result_view(ready) == old(self)@.promises.record(future.id),
            final(self)@ == old(self)@.polled(future.id, waker),
            old(self)@.promises.wf() ==> final(self)@.promises.wf(),
    {
        future.poll(&mut self.promise_manager, waker)
    }

    /// Registers the consumer of session events, in place of any earlier
    /// one. Events held for want of a consumer are routed to it first, in
    /// the order in which they arrived. Events already routed stay routed to
    /// the consumer they were routed to.
    pub fn set_event_sender(&mut self, sender: usize)
        ensures
            final(self)@ == old(self)@.subscribed(sender),
    {
        self.event_sender = Some(sender);
        let mut held: Vec<SessionEvent> = Vec::new();
        std::mem::swap(&mut self.held, &mut held);
        let ghost before = self.events@;
        let ghost waiting = held@;
        for event in it: held
            invariant
                it.seq() == waiting,
                self.events@.len() == before.len() + it.index(),
                forall|i: int| 0 <= i < before.len() ==> self.events@[i] == before[i],
                forall|i: int|
                    0 <= i < it.index() ==> (#[trigger] self.events@[before.len() + i])@ == (DeliveryView {
                        consumer: sender,
                        event: waiting[i]@,
                    }),
                self.event_sender == Some(sender),
                self.held@.len() == 0,
                self.promise_manager == old(self).promise_manager,
                self.timer_manager == old(self).timer_manager,
        {
            self.events.push(Delivery { consumer: sender, event });
        }
        proof {
            let expected = old(self)@.outbox + routed_to(old(self)@.held, sender);
            assert(waiting == old(self).held@);
            assert(self.events@.len() == before.len() + waiting.len());
            assert forall|i: int| 0 <= i < expected.len() implies self@.outbox[i]
                == expected[i] by {
                if i >= before.len() {
                    let j = i - before.len();
                    assert(self.events@[before.len() + j]@ == (DeliveryView {
                        consumer: sender,
                        event: waiting[j]@,
                    }));
                }
            }
            assert(self@.held =~= Seq::<SessionEventView>::empty());
            assert(self@.outbox =~= expected);
        }
    }

    /// The module asks for a timer: `delay` milliseconds from `now`, the
    /// host is to re-enter the module with `context`.
    pub fn new_timer(&mut self, now: u64, delay: u64, context: usize)
        requires
            old(self)@.wf(),
        ensures
            final(self)@ == old(self)@.timer_started(now, Timer { delay, context }),
            final(self)@.wf(),
    {
        self.timer_manager.new_timer(now, delay, context);
    }

    /// Hands out the timers that have expired at `now`, earliest first. Each
    /// is handed out once.
    pub fn timer_iter(&mut self, now: u64) -> (expired: Vec<Timer>)
        requires
            old(self)@.wf(),
        ensures
            expired@ == fired(old(self)@.timers, now),
            final(self)@ == old(self)@.timers_drained(now),
            final(self)@.wf(),
    {
        self.timer_manager.try_iter(now)
    }

    /// Hands out the events routed since the last collection, oldest first.
    pub fn take_events(&mut self) -> (events: Vec<Delivery>)
        ensures
            deliveries_view(events@) == old(self)@.outbox,
            events@.len() == old(self)@.outbox.len(),
            forall|i: int| 0 <= i < events@.len() ==> (#[trigger] events@[i])@ == old(self)@.outbox[i],
            final(self)@ == old(self)@.collected(),
    {
        let mut events: Vec<Delivery> = Vec::new();
        std::mem::swap(&mut self.events, &mut events);
        assert(self@.outbox =~= Seq::<DeliveryView>::empty());
        events
    }
}

impl Default for Host {
    fn default() -> (host: Self)
        ensures
            host@ == HostView::empty(),
            host@.wf(),
    {
        Host::new()
    }
}

/// No session event is lost for want of a consumer. An event that arrives
/// while none is registered touches neither the table nor the events already
/// routed; it is held, and the first consumer to register gets everything
/// held, oldest first, ahead of every event that arrives afterwards.
pub proof fn lemma_held_event_is_delivered_first(
    host: HostView,
    event: SessionEventView,
    consumer: usize,
    later: SessionEventView,
)
    requires
        host.consumer is None,
    ensures
        ({
            let early = host.sent(event);
            let routed = early.subscribed(consumer);
            let after = routed.sent(later);
            &&& early.promises == host.promises
            &&& early.outbox == host.outbox
            &&& early.held == host.held.push(event)
            &&& routed.held.len() == 0
            &&& routed.outbox == host.outbox + routed_to(host.held, consumer).push(
                DeliveryView { consumer, event },
            )
            &&& after.outbox == routed.outbox.push(DeliveryView { consumer, event: later })
            &&& after.held.len() == 0
        }),
{
    let early = host.sent(event);
    assert(routed_to(early.held, consumer) =~= routed_to(host.held, consumer).push(
        DeliveryView { consumer, event },
    ));
}

/// A session event never touches the correlation table, and a completion
/// never touches the events.
pub proof fn lemma_events_and_promises_are_apart(
    host: HostView,
    event: SessionEventView,
    id: usize,
    result: PromiseResultView,
)
    ensures
        host.sent(event).promises == host.promises,
        host.completed(id, result).outbox == host.outbox,
        host.completed(id, result).held == host.held,
        host.completed(id, result).consumer == host.consumer,
{
}

} // verus!
