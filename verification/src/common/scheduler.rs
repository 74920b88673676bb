use vstd::prelude::*;

verus! {

/// An event kind that a `Scheduler` can queue. Events due at the same time
/// are taken in order of priority, the lowest number first.
pub trait SystemEvent: Copy + Eq + core::fmt::Debug + Sized {
    spec fn spec_priority(&self) -> u8;

    fn priority(&self) -> (r: u8)
        ensures
            r == self.spec_priority(),
    ;

    /// Whether two events are the same event.
    fn same_as(&self, other: &Self) -> (r: bool)
        ensures
            r == (*self == *other),
    ;
}

#[derive(Debug)]
pub struct Event<E: SystemEvent> {
    event_type: E,
    time: usize,
}

impl<E: SystemEvent> Event<E> {
    pub closed spec fn spec_event_type(&self) -> E {
        self.event_type
    }

    pub closed spec fn spec_time(&self) -> usize {
        self.time
    }

    pub fn new(event_type: E, time: usize) -> (r: Event<E>)
        ensures
            r.spec_event_type() == event_type,
            r.spec_time() == time,
    {
        Event { event_type, time }
    }

    pub fn event_type(&self) -> (r: E)
        ensures
            r == self.spec_event_type(),
    {
        self.event_type
    }

    pub fn time(&self) -> (r: usize)
        ensures
            r == self.spec_time(),
    {
        self.time
    }
}

/// Two events are equal when they are due at the same time with the same
/// priority, whatever their kinds.
impl<E: SystemEvent> PartialEq for Event<E> {
    fn eq(&self, other: &Self) -> (r: bool) {
        self.time == other.time && self.event_type.priority() == other.event_type.priority()
    }
}

impl<E: SystemEvent> vstd::std_specs::cmp::PartialEqSpecImpl for Event<E> {
    open spec fn obeys_eq_spec() -> bool {
        true
    }

    open spec fn eq_spec(&self, other: &Self) -> bool {
        self.spec_time() == other.spec_time() && self.spec_event_type().spec_priority()
            == other.spec_event_type().spec_priority()
    }
}

impl<E: SystemEvent> Eq for Event<E> {

}

/// The order of `Event`: by due time, then by priority, reversed, so that
/// the event taken first is the greatest.
pub open spec fn event_order<E: SystemEvent>(a: &Event<E>, b: &Event<E>) -> core::cmp::Ordering {
    if b.spec_time() < a.spec_time() {
        core::cmp::Ordering::Less
    } else if b.spec_time() > a.spec_time() {
        core::cmp::Ordering::Greater
    } else if b.spec_event_type().spec_priority() < a.spec_event_type().spec_priority() {
        core::cmp::Ordering::Less
    } else if b.spec_event_type().spec_priority() > a.spec_event_type().spec_priority() {
        core::cmp::Ordering::Greater
    } else {
        core::cmp::Ordering::Equal
    }
}

impl<E: SystemEvent> PartialOrd for Event<E> {
    fn partial_cmp(&self, other: &Self) -> (r: Option<core::cmp::Ordering>) {
        let p = self.event_type.priority();
        let q = other.event_type.priority();
        if other.time < self.time {
            Some(core::cmp::Ordering::Less)
        } else if other.time > self.time {
            Some(core::cmp::Ordering::Greater)
        } else if q < p {
            Some(core::cmp::Ordering::Less)
        } else if q > p {
            Some(core::cmp::Ordering::Greater)
        } else {
            Some(core::cmp::Ordering::Equal)
        }
    }
}

impl<E: SystemEvent> vstd::std_specs::cmp::PartialOrdSpecImpl for Event<E> {
    open spec fn obeys_partial_cmp_spec() -> bool {
        true
    }

    open spec fn partial_cmp_spec(&self, other: &Self) -> Option<core::cmp::Ordering> {
        Some(event_order(self, other))
    }
}

/// Whether an event due at `a.1` with kind `a.0` is taken before one due at
/// `b.1` with kind `b.0`: it is due earlier, or due at the same time with a
/// lower priority number.
pub open spec fn event_precedes<E: SystemEvent>(a: (E, usize), b: (E, usize)) -> bool {
    a.1 < b.1 || (a.1 == b.1 && a.0.spec_priority() < b.0.spec_priority())
}

/// The index of the first event of `s` that no event of `s` precedes.
pub open spec fn next_index<E: SystemEvent>(s: Seq<(E, usize)>) -> int
    decreases s.len(),
{
    if s.len() <= 1 {
        0
    } else {
        let m = next_index(s.drop_last());
        if event_precedes(s.last(), s[m]) {
            s.len() - 1
        } else {
            m
        }
    }
}

/// `events` without the events of kind `event_type`, the others in order.
pub open spec fn spec_without<E>(events: Seq<(E, usize)>, event_type: E) -> Seq<(E, usize)> {
    events.filter(|p: (E, usize)| p.0 != event_type)
}

/// The abstract state of a scheduler: the current time, and the queued events
/// with the times they are due, in the order they were queued.
pub struct SchedulerState<E> {
    pub time: usize,
    pub events: Seq<(E, usize)>,
}

/// Cycles from the current time until the next event is due: 0 when it is
/// due already or nothing is queued.
pub open spec fn spec_cycles_until_next_event<E: SystemEvent>(s: SchedulerState<E>) -> int {
    if s.events.len() == 0 {
        0
    } else if s.events[next_index(s.events)].1 > s.time {
        s.events[next_index(s.events)].1 - s.time
    } else {
        0
    }
}

/// The state after the clock moves on by `cycles`.
pub open spec fn spec_stepped<E>(s: SchedulerState<E>, cycles: int) -> SchedulerState<E> {
    SchedulerState { time: (s.time + cycles) as usize, events: s.events }
}

/// The state after an event of kind `event_type` is queued, due at `at`.
pub open spec fn spec_scheduled<E>(s: SchedulerState<E>, event_type: E, at: usize) -> SchedulerState<E> {
    SchedulerState { time: s.time, events: s.events.push((event_type, at)) }
}

/// The state after the events of kind `event_type` are dropped.
pub open spec fn spec_cancelled<E>(s: SchedulerState<E>, event_type: E) -> SchedulerState<E> {
    SchedulerState { time: s.time, events: spec_without(s.events, event_type) }
}

/// Whether the next event is due.
pub open spec fn spec_next_due<E: SystemEvent>(s: SchedulerState<E>) -> bool {
    s.events.len() > 0 && s.events[next_index(s.events)].1 <= s.time
}

/// The state after `pop`: the next event is taken off where it is due.
pub open spec fn spec_popped<E: SystemEvent>(s: SchedulerState<E>) -> SchedulerState<E> {
    if spec_next_due(s) {
        SchedulerState { time: s.time, events: s.events.remove(next_index(s.events)) }
    } else {
        s
    }
}

/// A queue of timed events and a clock.
pub struct Scheduler<E: SystemEvent> {
    time: usize,
    events: Vec<Event<E>>,
}

/// Each queued event as its kind and due time.
closed spec fn event_pairs<E: SystemEvent>(s: Seq<Event<E>>) -> Seq<(E, usize)> {
    s.map_values(|e: Event<E>| (e.event_type, e.time))
}

impl<E: SystemEvent> View for Scheduler<E> {
    type V = SchedulerState<E>;

    closed spec fn view(&self) -> SchedulerState<E> {
        SchedulerState {
            time: self.time,
            events: event_pairs(self.events@),
        }
    }
}

/// The next event is the one at `next_index`, and it has a valid index.
pub proof fn lemma_next_index_bounds<E: SystemEvent>(s: Seq<(E, usize)>)
    ensures
        s.len() > 0 ==> 0 <= next_index(s) < s.len(),
    decreases s.len(),
{
    if s.len() > 1 {
        lemma_next_index_bounds(s.drop_last());
    }
}

/// No queued event is taken before the next event: the scheduler hands events
/// out in order of due time, then priority.
pub proof fn lemma_next_event_is_first<E: SystemEvent>(s: Seq<(E, usize)>, j: int)
    requires
        0 <= j < s.len(),
    ensures
        !event_precedes(s[j], s[next_index(s)]),
    decreases s.len(),
{
    lemma_next_index_bounds(s);
    if s.len() > 1 {
        let t = s.drop_last();
        lemma_next_index_bounds(t);
        if j < s.len() - 1 {
            lemma_next_event_is_first(t, j);
        } else {
            let m = next_index(t);
            assert(t[m] == s[m]);
        }
        if event_precedes(s.last(), s[next_index(t)]) {
            if j < s.len() - 1 {
                lemma_next_event_is_first(t, j);
                assert(t[j] == s[j]);
                assert(t[next_index(t)] == s[next_index(t)]);
            }
        }
    }
}

impl<E: SystemEvent> Scheduler<E> {
    fn next_event_index(&self) -> (r: usize)
        requires
            self.events.len() > 0,
        ensures
            r as int == next_index(self@.events),
            r < self.events.len(),
    {
        let ghost s = self@.events;
        let mut best: usize = 0;
        let mut i: usize = 1;
        assert(s.subrange(0, 1).len() == 1);
        while i < self.events.len()
            invariant
                s == self@.events,
                1 <= i <= self.events.len(),
                best < i,
                best as int == next_index(s.subrange(0, i as int)),
            decreases self.events.len() - i,
        {
            let e = &self.events[i];
            let b = &self.events[best];
            proof {
                assert(s.subrange(0, i + 1).drop_last() =~= s.subrange(0, i as int));
                assert(s.subrange(0, i + 1)[best as int] == s[best as int]);
            }
            if e.time < b.time || (e.time == b.time && e.event_type.priority() < b.event_type.priority()) {
                best = i;
            }
            i += 1;
        }
        assert(s.subrange(0, i as int) =~= s);
        best
    }

    pub fn new() -> (r: Scheduler<E>)
        ensures
            r@.time == 0,
            r@.events.len() == 0,
    {
        Scheduler { time: 0, events: Vec::new() }
    }

    /// The kind of the event that is taken next, if any is queued.
    pub fn peek(&self) -> (r: Option<E>)
        ensures
            self@.events.len() == 0 ==> r is None,
            self@.events.len() > 0 ==> r == Some(self@.events[next_index(self@.events)].0),
    {
        if self.events.len() == 0 {
            None
        } else {
            let i = self.next_event_index();
            Some(self.events[i].event_type())
        }
    }

    /// Takes the next event off the queue if it is due, with the time it was
    /// due at.
    pub fn pop(&mut self) -> (r: Option<(E, usize)>)
        ensures
            ({
                let s = old(self)@.events;
                let n = next_index(s);
                if s.len() > 0 && s[n].1 <= old(self)@.time {
                    &&& r == Some(s[n])
                    &&& final(self)@.events == s.remove(n)
                    &&& final(self)@.time == old(self)@.time
                } else {
                    &&& r is None
                    &&& final(self)@ == old(self)@
                }
            }),
            final(self)@ == spec_popped(old(self)@),
    {
        if self.events.len() == 0 {
            return None;
        }
        let i = self.next_event_index();
        if self.time >= self.events[i].time {
            let event = self.events.remove(i);
            proof {
                let old_events = old(self).events@;
                assert(event_pairs(self.events@)
                    =~= old(self)@.events.remove(i as int));
            }
            Some((event.event_type, event.time))
        } else {
            None
        }
    }

    /// Drops every queued event of kind `event_type`; the others keep their
    /// order.
    pub fn cancel_events(&mut self, event_type: E)
        ensures
            final(self)@.time == old(self)@.time,
            final(self)@.events == spec_without(old(self)@.events, event_type),
            final(self)@ == spec_cancelled(old(self)@, event_type),
    {
        let ghost s = self@.events;
        let ghost pred = |p: (E, usize)| p.0 != event_type;
        let mut new_events: Vec<Event<E>> = Vec::new();
        let mut i: usize = 0;
        assert(s.take(0) =~= Seq::<(E, usize)>::empty());
        while i < self.events.len()
            invariant
                s == self@.events,
                i <= self.events.len(),
                pred == (|p: (E, usize)| p.0 != event_type),
                event_pairs(new_events@) =~= s.take(
                    i as int,
                ).filter(pred),
            decreases self.events.len() - i,
        {
            let et = self.events[i].event_type;
            let t = self.events[i].time;
            let ghost before = new_events@;
            assert(s.take(i + 1).drop_last() =~= s.take(i as int));
            assert(s[i as int] == (et, t));
            proof {
                reveal_with_fuel(Seq::<_>::filter, 1);
                let next = s.take(i + 1);
                assert(next.last() == s[i as int]);
                assert(next.filter(pred) == (if pred(s[i as int]) {
                    s.take(i as int).filter(pred).push(s[i as int])
                } else {
                    s.take(i as int).filter(pred)
                }));
            }
            if !et.same_as(&event_type) {
                new_events.push(Event { event_type: et, time: t });
                assert(event_pairs(new_events@) =~= event_pairs(before).push(s[i as int]));
            }
            i += 1;
        }
        assert(s.take(i as int) =~= s);
        self.events = new_events;
    }

    /// Queues an event due `event.1` cycles from now.
    pub fn schedule(&mut self, event: (E, usize))
        requires
            old(self)@.time + event.1 <= usize::MAX,
        ensures
            final(self)@.time == old(self)@.time,
            final(self)@.events == old(self)@.events.push((event.0, (old(self)@.time + event.1) as usize)),
            final(self)@ == spec_scheduled(old(self)@, event.0, (old(self)@.time + event.1) as usize),
    {
        let (event_type, delta_time) = event;
        let event = Event::new(event_type, self.time + delta_time);
        self.events.push(event);
        assert(self@.events =~= old(self)@.events.push((event_type, (old(self)@.time + delta_time) as usize)));
    }

    /// Queues an event due at `timestamp`.
    pub fn schedule_at_timestamp(&mut self, event_type: E, timestamp: usize)
        ensures
            final(self)@.time == old(self)@.time,
            final(self)@.events == old(self)@.events.push((event_type, timestamp)),
            final(self)@ == spec_scheduled(old(self)@, event_type, timestamp),
    {
        self.events.push(Event::new(event_type, timestamp));
        assert(self@.events =~= old(self)@.events.push((event_type, timestamp)));
    }

    /// How many cycles remain until the next event is due (0 when it is due
    /// already or nothing is queued).
    pub fn cycles_until_next_event(&self) -> (r: usize)
        ensures
            self@.events.len() == 0 ==> r == 0,
            self@.events.len() > 0 ==> r == (if self@.events[next_index(self@.events)].1 > self@.time {
                self@.events[next_index(self@.events)].1 - self@.time
            } else {
                0
            }),
            r == spec_cycles_until_next_event(self@),
    {
        if self.events.len() == 0 {
            0
        } else {
            let i = self.next_event_index();
            self.events[i].time().saturating_sub(self.time)
        }
    }

    pub fn step(&mut self, cycles: usize)
        requires
            old(self)@.time + cycles <= usize::MAX,
        ensures
            final(self)@.time == old(self)@.time + cycles,
            final(self)@.events == old(self)@.events,
            final(self)@ == spec_stepped(old(self)@, cycles as int),
    {
        self.time += cycles;
    }

    /// Advances the clock to the time the next event is due, unless that
    /// time has passed.
    pub fn step_to_next_event(&mut self)
        ensures
            final(self)@.events == old(self)@.events,
            old(self)@.events.len() == 0 ==> final(self)@.time == old(self)@.time,
            old(self)@.events.len() > 0 ==> final(self)@.time == (if old(self)@.events[next_index(
                old(self)@.events,
            )].1 > old(self)@.time {
                old(self)@.events[next_index(old(self)@.events)].1
            } else {
                old(self)@.time
            }),
            final(self)@ == spec_stepped(old(self)@, spec_cycles_until_next_event(old(self)@)),
    {
        let cycles = self.cycles_until_next_event();
        proof {
            if self.events.len() > 0 {
                lemma_next_index_bounds(self@.events);
            }
        }
        self.time += cycles;
    }

    pub fn timestamp_of_next_event(&self) -> (r: usize)
        requires
            self@.events.len() > 0,
        ensures
            r == self@.events[next_index(self@.events)].1,
    {
        let i = self.next_event_index();
        self.events[i].time()
    }

    pub fn timestamp(&self) -> (r: usize)
        ensures
            r == self@.time,
    {
        self.time
    }

    pub fn is_empty(&self) -> (r: bool)
        ensures
            r == (self@.events.len() == 0),
    {
        self.events.len() == 0
    }
}

impl<E: SystemEvent> Default for Scheduler<E> {
    fn default() -> (r: Self)
        ensures
            r@.time == 0,
            r@.events.len() == 0,
    {
        Self::new()
    }
}

/// Moving the clock on by `a` and then by `b` is moving it on by `a + b`,
/// and moving it on by 0 changes nothing.
pub proof fn lemma_steps_compose<E>(s: SchedulerState<E>, a: usize, b: usize)
    requires
        s.time + a + b <= usize::MAX,
    ensures
        spec_stepped(spec_stepped(s, a as int), b as int) == spec_stepped(s, a + b),
        spec_stepped(s, 0) == s,
{
}

/// The clock is 0 when the scheduler is made and moves only by stepping:
/// by `cycles` on `step`, by the cycles until the next event on
/// `step_to_next_event`; queueing, cancelling and popping leave it.
pub proof fn lemma_clock_moves_only_by_steps<E: SystemEvent>(
    s: SchedulerState<E>,
    event_type: E,
    at: usize,
    cycles: usize,
)
    requires
        s.time + cycles <= usize::MAX,
    ensures
        spec_stepped(s, cycles as int).time == s.time + cycles,
        spec_stepped(s, spec_cycles_until_next_event(s)).time == s.time + spec_cycles_until_next_event(s),
        spec_scheduled(s, event_type, at).time == s.time,
        spec_cancelled(s, event_type).time == s.time,
        spec_popped(s).time == s.time,
{
    if s.events.len() > 0 {
        lemma_next_index_bounds(s.events);
    }
}

/// Queueing an event leaves the queue non-empty; popping a due event takes
/// exactly one off; cancelling a kind leaves no event of it, so cancelling
/// the kind of every queued event empties the queue.
pub proof fn lemma_queue_emptiness<E: SystemEvent>(s: SchedulerState<E>, event_type: E, at: usize)
    ensures
        spec_scheduled(s, event_type, at).events.len() > 0,
        spec_next_due(s) ==> spec_popped(s).events.len() == s.events.len() - 1,
        !spec_next_due(s) ==> spec_popped(s) == s,
        forall|j: int|
            0 <= j < spec_cancelled(s, event_type).events.len() ==> (#[trigger] spec_cancelled(
                s,
                event_type,
            ).events[j]).0 != event_type,
        (forall|j: int| 0 <= j < s.events.len() ==> (#[trigger] s.events[j]).0 == event_type) ==> spec_cancelled(
            s,
            event_type,
        ).events.len() == 0,
{
    if s.events.len() > 0 {
        lemma_next_index_bounds(s.events);
    }
    broadcast use vstd::seq_lib::group_filter_ensures;
    let pred = |p: (E, usize)| p.0 != event_type;
    let f = s.events.filter(pred);
    assert forall|j: int| 0 <= j < f.len() implies (#[trigger] f[j]).0 != event_type by {
        assert(f.contains(f[j]));
    }
    if forall|j: int| 0 <= j < s.events.len() ==> (#[trigger] s.events[j]).0 == event_type {
        if f.len() > 0 {
            assert(f.contains(f[0]));
            s.events.lemma_filter_contains_rev(pred, f[0]);
            let k = choose|k: int| 0 <= k < s.events.len() && s.events[k] == f[0];
            assert(s.events[k].0 == event_type);
        }
    }
}

/// After stepping to the next event, that event is due: popping then hands
/// it out.
pub proof fn lemma_step_to_next_event_makes_it_due<E: SystemEvent>(
    before: SchedulerState<E>,
    after: SchedulerState<E>,
)
    requires
        before.events.len() > 0,
        after.events == before.events,
        after.time == (if before.events[next_index(before.events)].1 > before.time {
            before.events[next_index(before.events)].1
        } else {
            before.time
        }),
    ensures
        after.events[next_index(after.events)].1 <= after.time,
{
}

} // verus!
