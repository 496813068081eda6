//! Timers the host runs for the module. The module asks for a callback after
//! a delay; the host keeps the request, and hands back those whose time has
//! come whenever it is asked. The clock is the caller's: every operation is
//! given the current time in milliseconds.
use vstd::prelude::*;

verus! {

/// A timer the module asked for: its delay in milliseconds and the context
/// value the module wants back when it expires.
#[derive(Copy, Clone, Debug, PartialEq, Eq, Structural)]
pub struct Timer {
    pub delay: u64,
    pub context: usize,
}

/// A timer that is waiting, with the time at which it expires. That time
/// may lie beyond the end of the clock: such a timer never expires.
#[derive(Copy, Clone, Debug, PartialEq, Eq, Structural)]
pub struct Scheduled {
    pub deadline: u128,
    pub timer: Timer,
}

/// The time at which a timer started at `now` expires: `delay` later,
/// exactly.
pub open spec fn deadline_of(now: u64, delay: u64) -> u128 {
    (now + delay) as u128
}

/// Waiting timers are kept by expiry time, earliest first.
pub open spec fn sorted(timers: Seq<Scheduled>) -> bool {
    forall|i: int, j: int|
        0 <= i <= j < timers.len() ==> timers[i].deadline <= timers[j].deadline
}

/// How many of the waiting timers have expired at `now`.
pub open spec fn due_count(timers: Seq<Scheduled>, now: u128) -> nat
    decreases timers.len(),
{
    if timers.len() == 0 {
        0
    } else {
        due_count(timers.drop_last(), now) + if timers.last().deadline <= now {
            1nat
        } else {
            0nat
        }
    }
}

/// The waiting timers after one more has been started at `now`: it stands
/// behind every timer that expires no later than it does, and before all
/// others.
pub open spec fn scheduled(timers: Seq<Scheduled>, now: u64, timer: Timer) -> Seq<Scheduled> {
    let entry = Scheduled { deadline: deadline_of(now, timer.delay), timer };
    timers.insert(due_count(timers, entry.deadline) as int, entry)
}

/// The timers that a drain at `now` hands out, in the order in which they
/// expire.
pub open spec fn fired(timers: Seq<Scheduled>, now: u64) -> Seq<Timer> {
    timers.take(due_count(timers, now as u128) as int).map_values(|s: Scheduled| s.timer)
}

/// The timers that still wait after a drain at `now`.
pub open spec fn waiting(timers: Seq<Scheduled>, now: u64) -> Seq<Scheduled> {
    timers.skip(due_count(timers, now as u128) as int)
}

/// No more timers are due than there are.
pub proof fn lemma_due_count_bound(timers: Seq<Scheduled>, now: u128)
    ensures
        due_count(timers, now) <= timers.len(),
    decreases timers.len(),
{
    if timers.len() > 0 {
        lemma_due_count_bound(timers.drop_last(), now);
    }
}

/// Where the first `k` timers have expired and no other has, `k` are due.
pub proof fn lemma_due_count_is_split(timers: Seq<Scheduled>, now: u128, k: int)
    requires
        0 <= k <= timers.len(),
        forall|i: int| 0 <= i < k ==> (#[trigger] timers[i]).deadline <= now,
        forall|i: int| k <= i < timers.len() ==> (#[trigger] timers[i]).deadline > now,
    ensures
        due_count(timers, now) == k,
    decreases timers.len(),
{
    if timers.len() > 0 {
        let front = timers.drop_last();
        if k == timers.len() {
            assert(timers.last() == timers[k - 1]);
            lemma_due_count_is_split(front, now, k - 1);
        } else {
            lemma_due_count_is_split(front, now, k);
        }
    }
}

/// Among timers kept by expiry time, those due at `now` are exactly the
/// first `due_count` of them.
pub proof fn lemma_due_timers_lead(timers: Seq<Scheduled>, now: u128)
    requires
        sorted(timers),
    ensures
        due_count(timers, now) <= timers.len(),
        forall|i: int| 0 <= i < due_count(timers, now) ==> (#[trigger] timers[i]).deadline <= now,
        forall|i: int|
            due_count(timers, now) <= i < timers.len() ==> (#[trigger] timers[i]).deadline > now,
    decreases timers.len(),
{
    if timers.len() > 0 {
        let front = timers.drop_last();
        assert(sorted(front)) by {
            assert forall|i: int, j: int| 0 <= i <= j < front.len() implies front[i].deadline
                <= front[j].deadline by {
                assert(front[i] == timers[i] && front[j] == timers[j]);
            }
        }
        lemma_due_timers_lead(front, now);
        let k = due_count(front, now);
        assert forall|i: int| 0 <= i < front.len() implies front[i] == timers[i] by {}
        if timers.last().deadline <= now {
            if k < front.len() {
                assert(front[k as int].deadline > now);
                assert(timers[k as int].deadline <= timers[timers.len() - 1].deadline);
            }
        }
    }
}

/// The host's timers: those that wait, by expiry time.
#[derive(Debug)]
pub struct TimerManager {
    pending: Vec<Scheduled>,
}

impl View for TimerManager {
    type V = Seq<Scheduled>;

    closed spec fn view(&self) -> Seq<Scheduled> {
        self.pending@
    }
}

impl TimerManager {
    /// The waiting timers stand by expiry time.
    pub open spec fn wf(&self) -> bool {
        sorted(self@)
    }

    /// A manager with no timer waiting.
    pub fn new() -> (m: Self)
        ensures
            m.wf(),
            m@ == Seq::<Scheduled>::empty(),
    {
        TimerManager { pending: Vec::new() }
    }

    /// Starts a timer at `now` that expires `delay` milliseconds later and
    /// carries `context`. Nothing fires here: the timer waits until a drain
    /// finds it expired.
    pub fn new_timer(&mut self, now: u64, delay: u64, context: usize)
        requires
            old(self).wf(),
        ensures
            final(self).wf(),
            final(self)@ == scheduled(old(self)@, now, Timer { delay, context }),
    {
        let deadline: u128 = now as u128 + delay as u128;
        let entry = Scheduled { deadline, timer: Timer { delay, context } };
        let mut at: usize = 0;
        while at < self.pending.len() && self.pending[at].deadline <= deadline
            invariant
                at <= self.pending.len(),
                self.pending@ == old(self)@,
                forall|i: int| 0 <= i < at ==> (#[trigger] self.pending@[i]).deadline <= deadline,
            decreases self.pending.len() - at,
        {
            at = at + 1;
        }
        proof {
            let before = old(self)@;
            assert forall|i: int| at <= i < before.len() implies (#[trigger] before[i]).deadline
                > deadline by {
                assert(before[at as int].deadline <= before[i].deadline);
            }
            lemma_due_count_is_split(before, deadline, at as int);
        }
        self.pending.insert(at, entry);
        proof {
            let before = old(self)@;
            let after = self.pending@;
            assert forall|i: int, j: int| 0 <= i <= j < after.len() implies after[i].deadline
                <= after[j].deadline by {
                let a = if i < at { i } else { i - 1 };
                let b = if j < at { j } else { j - 1 };
                if i != at && j != at {
                    assert(after[i] == before[a] && after[j] == before[b]);
                    assert(before[a].deadline <= before[b].deadline);
                } else if i == at && j != at {
                    assert(after[j] == before[b]);
                    assert(before[b].deadline > deadline);
                } else if i != at && j == at {
                    assert(after[i] == before[a]);
                }
            }
        }
    }

    /// Hands out the timers that have expired at `now`, earliest first, and
    /// forgets them. The others keep waiting. Each timer is handed out once.
    pub fn try_iter(&mut self, now: u64) -> (expired: Vec<Timer>)
        requires
            old(self).wf(),
        ensures
            final(self).wf(),
            expired@ == fired(old(self)@, now),
            final(self)@ == waiting(old(self)@, now),
            forall|i: int| 0 <= i < expired@.len() ==> (#[trigger] old(self)@[i]).deadline <= now,
            forall|i: int| 0 <= i < final(self)@.len() ==> (#[trigger] final(self)@[i]).deadline > now,
    {
        let mut due: usize = 0;
        let mut expired: Vec<Timer> = Vec::new();
        let clock: u128 = now as u128;
        while due < self.pending.len() && self.pending[due].deadline <= clock
            invariant
                due <= self.pending.len(),
                self.pending@ == old(self)@,
                expired@.len() == due,
                clock == now,
                forall|i: int| 0 <= i < due ==> (#[trigger] self.pending@[i]).deadline <= now,
                forall|i: int| 0 <= i < due ==> #[trigger] expired@[i] == self.pending@[i].timer,
            decreases self.pending.len() - due,
        {
            expired.push(self.pending[due].timer);
            due = due + 1;
        }
        let rest = self.pending.split_off(due);
        self.pending = rest;
        proof {
            let before = old(self)@;
            assert forall|i: int| due <= i < before.len() implies (#[trigger] before[i]).deadline
                > now by {
                assert(before[due as int].deadline <= before[i].deadline);
            }
            lemma_due_count_is_split(before, now as u128, due as int);
            assert(expired@ =~= fired(before, now));
            assert(self.pending@ =~= waiting(before, now));
        }
        expired
    }

    /// The number of timers that wait.
    pub fn len(&self) -> (n: usize)
        ensures
            n == self@.len(),
    {
        self.pending.len()
    }
}

impl Default for TimerManager {
    fn default() -> (m: Self)
        ensures
            m.wf(),
            m@ == Seq::<Scheduled>::empty(),
    {
        TimerManager::new()
    }
}

/// A timer fires once and not before its time. Started at `now`, it is
/// handed out by no drain earlier than its expiry; the first drain at or
/// after its expiry hands it out, and after that drain no timer that has
/// expired is left to be handed out again.
pub proof fn lemma_timer_fires_once(now: u64, timer: Timer, early: u64, late: u64)
    requires
        early < now + timer.delay <= late,
    ensures
        ({
            let started = scheduled(Seq::<Scheduled>::empty(), now, timer);
            &&& fired(started, early) == Seq::<Timer>::empty()
            &&& waiting(started, early) == started
            &&& fired(started, late) == seq![timer]
            &&& waiting(started, late) == Seq::<Scheduled>::empty()
            &&& fired(waiting(started, late), late) == Seq::<Timer>::empty()
        }),
{
    let none = Seq::<Scheduled>::empty();
    let entry = Scheduled { deadline: deadline_of(now, timer.delay), timer };
    assert(due_count(none, entry.deadline) == 0);
    let started = scheduled(none, now, timer);
    assert(started =~= seq![entry]);
    lemma_due_count_is_split(started, early as u128, 0);
    lemma_due_count_is_split(started, late as u128, 1);
    assert(fired(started, early) =~= Seq::<Timer>::empty());
    assert(waiting(started, early) =~= started);
    assert(fired(started, late) =~= seq![timer]);
    assert(waiting(started, late) =~= none);
    assert(due_count(none, late as u128) == 0);
    assert(fired(none, late) =~= Seq::<Timer>::empty());
}

/// No timer is handed out before its time, whatever else waits: a drain at
/// `at` hands out only timers whose expiry is no later than `at`, and leaves
/// only timers whose expiry is later. A timer whose expiry lies beyond the
/// end of the clock is handed out by no drain.
pub proof fn lemma_no_timer_fires_early(timers: Seq<Scheduled>, at: u64)
    requires
        sorted(timers),
    ensures
        fired(timers, at).len() + waiting(timers, at).len() == timers.len(),
        forall|i: int|
            0 <= i < fired(timers, at).len() ==> (#[trigger] timers[i]).deadline <= at
                && fired(timers, at)[i] == timers[i].timer,
        forall|i: int|
            0 <= i < waiting(timers, at).len() ==> (#[trigger] waiting(timers, at)[i]).deadline
                > at,
        forall|i: int|
            0 <= i < timers.len() && (#[trigger] timers[i]).deadline > u64::MAX ==> i
                >= fired(timers, at).len(),
{
    lemma_due_timers_lead(timers, at as u128);
}

/// A drain splits the waiting timers in two and loses none: what it hands
/// out, followed by what keeps waiting, is what waited before.
pub proof fn lemma_drain_loses_nothing(timers: Seq<Scheduled>, now: u64)
    ensures
        fired(timers, now).len() + waiting(timers, now).len() == timers.len(),
        fired(timers, now) == timers.map_values(|s: Scheduled| s.timer).take(
            due_count(timers, now as u128) as int,
        ),
        timers.take(due_count(timers, now as u128) as int) + waiting(timers, now) == timers,
{
    lemma_due_count_bound(timers, now as u128);
    let k = due_count(timers, now as u128) as int;
    assert(fired(timers, now) =~= timers.map_values(|s: Scheduled| s.timer).take(k));
    assert(timers.take(k) + timers.skip(k) =~= timers);
}

} // verus!
