use crate::common::register_ops::{RegisterOps, RegisterWord};
use crate::common::scheduler::{spec_without, Scheduler, SchedulerState};
use crate::gba::bitfield::{field16, get16, lemma_field16_bound};
use crate::gba::events::{lemma_interrupt_bit_order, GbaEvent, InterruptEvent, TimerEvent};
use vstd::prelude::*;

verus! {

/// TMxCNT_H: a timer's control register.
#[derive(Debug, Copy, Clone, PartialEq, Eq, Structural)]
pub struct TimerControl {
    bits: u16,
}

impl View for TimerControl {
    type V = u16;

    closed spec fn view(&self) -> u16 {
        self.bits
    }
}

impl TimerControl {
    pub fn from_bits(bits: u16) -> (r: Self)
        ensures
            r@ == bits,
    {
        TimerControl { bits: bits }
    }

    pub fn into_bits(self) -> (r: u16)
        ensures
            r == self@,
    {
        self.bits
    }

    /// The bits the register holds after `bits` are written to it: fields
    /// reserved by the hardware keep their value.
    pub open spec fn spec_merged(current: u16, bits: u16) -> u16 {
        (current & 0xFF38) | (bits & !0xFF38)
    }

    pub open spec fn spec_write_bits(self, bits: u16) -> u16 {
        Self::spec_merged(self@, bits)
    }

    pub fn write_bits(&mut self, bits: u16)
        ensures
            final(self)@ == old(self).spec_write_bits(bits),
    {
        self.bits = (self.bits & 0xFF38) | (bits & !0xFF38);
    }

    pub open spec fn spec_prescaler_selection(self) -> u8 {
        field16(self@, 0, 2) as u8
    }

    pub fn prescaler_selection(&self) -> (r: u8)
        ensures
            r == self.spec_prescaler_selection(),
            r <= 3,
    {
        proof {
            lemma_field16_bound(self.bits, 0, 2);
        }
        get16(self.bits, 0, 2) as u8
    }

    pub open spec fn spec_cascade_enabled(self) -> bool {
        field16(self@, 2, 1) == 1
    }

    pub fn cascade_enabled(&self) -> (r: bool)
        ensures
            r == self.spec_cascade_enabled(),
    {
        get16(self.bits, 2, 1) == 1
    }

    pub open spec fn spec_irq_enabled(self) -> bool {
        field16(self@, 6, 1) == 1
    }

    pub fn irq_enabled(&self) -> (r: bool)
        ensures
            r == self.spec_irq_enabled(),
    {
        get16(self.bits, 6, 1) == 1
    }

    pub open spec fn spec_enabled(self) -> bool {
        field16(self@, 7, 1) == 1
    }

    pub fn enabled(&self) -> (r: bool)
        ensures
            r == self.spec_enabled(),
    {
        get16(self.bits, 7, 1) == 1
    }


    pub fn prescaler(&self) -> (r: usize)
        ensures
            r == spec_prescaler(self@),
    {
        proof {
            lemma_field16_bound(self@, 0, 2);
        }
        match self.prescaler_selection() {
            0 => 1,
            1 => 64,
            2 => 256,
            _ => 1024,
        }
    }

}

impl RegisterOps<u16> for TimerControl {
    open spec fn spec_register(&self) -> u16 {
        self@
    }

    open spec fn spec_written(&self, bits: u16) -> u16 {
        self.spec_write_bits(bits)
    }

    open spec fn spec_read_mask(&self) -> u16 {
        0xFFFF
    }

    open spec fn spec_write_mask(&self) -> u16 {
        0xFFFF
    }

    fn register(&self) -> (r: u16) {
        self.bits
    }

    fn write_register(&mut self, bits: u16) {
        self.write_bits(bits);
    }

    fn read_mask(&self) -> (r: u16) {
        0xFFFF
    }

    fn write_mask(&self) -> (r: u16) {
        0xFFFF
    }
}

/// Cycles per counter tick, by the prescaler selection 0..=3.
pub open spec fn spec_prescaler_cycles(selection: int) -> usize {
    if selection == 0 {
        1
    } else if selection == 1 {
        64
    } else if selection == 2 {
        256
    } else {
        1024
    }
}

/// Cycles per counter tick of a timer with control bits `control`.
pub open spec fn spec_prescaler(control: u16) -> usize {
    spec_prescaler_cycles(field16(control, 0, 2) as int)
}

pub open spec fn spec_timer_enabled(control: u16) -> bool {
    field16(control, 7, 1) == 1
}

pub open spec fn spec_cascade_enabled(control: u16) -> bool {
    field16(control, 2, 1) == 1
}

pub open spec fn spec_irq_enabled(control: u16) -> bool {
    field16(control, 6, 1) == 1
}

/// The prescaler is one of 1, 64, 256 and 1024, chosen by bits 0-1 of the
/// control register in that order.
pub proof fn lemma_prescaler_values(control: u16)
    ensures
        spec_prescaler(control) == 1 || spec_prescaler(control) == 64 || spec_prescaler(control) == 256
            || spec_prescaler(control) == 1024,
        control & 3 == 0 ==> spec_prescaler(control) == 1,
        control & 3 == 1 ==> spec_prescaler(control) == 64,
        control & 3 == 2 ==> spec_prescaler(control) == 256,
        control & 3 == 3 ==> spec_prescaler(control) == 1024,
{
    assert(field16(control, 0, 2) == control & 3) by (bit_vector);
}

/// The interrupt that timer `id` raises when it overflows.
pub open spec fn spec_timer_interrupt(id: int) -> InterruptEvent {
    if id == 0 {
        InterruptEvent::Timer0Overflow
    } else if id == 1 {
        InterruptEvent::Timer1Overflow
    } else if id == 2 {
        InterruptEvent::Timer2Overflow
    } else {
        InterruptEvent::Timer3Overflow
    }
}

/// An overflow of timer `id` raises that timer's own overflow interrupt: the
/// one at IE/IF bit 3 + `id`.
pub proof fn lemma_timer_overflow_interrupt(id: int)
    requires
        0 <= id < 4,
    ensures
        spec_timer_interrupt(id).spec_bit_index() == 3 + id,
        id == 0 ==> spec_timer_interrupt(id) == InterruptEvent::Timer0Overflow,
        id == 1 ==> spec_timer_interrupt(id) == InterruptEvent::Timer1Overflow,
        id == 2 ==> spec_timer_interrupt(id) == InterruptEvent::Timer2Overflow,
        id == 3 ==> spec_timer_interrupt(id) == InterruptEvent::Timer3Overflow,
{
    lemma_interrupt_bit_order(spec_timer_interrupt(id), spec_timer_interrupt(id));
}

fn timer_interrupt(id: usize) -> (r: InterruptEvent)
    ensures
        r == spec_timer_interrupt(id as int),
{
    match id {
        0 => InterruptEvent::Timer0Overflow,
        1 => InterruptEvent::Timer1Overflow,
        2 => InterruptEvent::Timer2Overflow,
        _ => InterruptEvent::Timer3Overflow,
    }
}

/// The overflow event of timer `id`.
pub open spec fn spec_overflow_event(id: int) -> GbaEvent {
    GbaEvent::Timer(TimerEvent::Overflow { timer_id: id as usize })
}

/// What a timer holds. While it runs, its counter advances by one every
/// prescaler cycles from `start_time` on, starting from `counter`.
pub struct TimerState {
    pub counter: usize,
    pub reload: u16,
    pub control: u16,
    pub start_time: usize,
    pub active: bool,
}

/// Counter ticks since a running timer started.
pub open spec fn spec_delta(t: TimerState, now: usize) -> int {
    (now - t.start_time) / (spec_prescaler(t.control) as int)
}

/// The value of the counter register at time `now`.
pub open spec fn spec_counter_value(t: TimerState, now: usize) -> u16 {
    ((t.counter + if t.active {
        spec_delta(t, now)
    } else {
        0
    }) % 0x10000) as u16
}

/// `s` with `event` queued `delay` cycles from now.
pub open spec fn spec_scheduled(s: SchedulerState<GbaEvent>, event: GbaEvent, delay: int) -> SchedulerState<GbaEvent> {
    SchedulerState { events: s.events.push((event, (s.time + delay) as usize)), ..s }
}

/// Timer `id` reloads its counter from the reload register, raises its
/// interrupt if enabled, and ticks the next timer if that one counts up on
/// cascade; an overflow of that one cascades in turn.
pub open spec fn spec_cascade(ts: Seq<TimerState>, s: SchedulerState<GbaEvent>, id: int) -> (
    Seq<TimerState>,
    SchedulerState<GbaEvent>,
)
    decreases 4 - id,
{
    let t = ts[id];
    let ts1 = ts.update(id, TimerState { counter: t.reload as usize, ..t });
    let s1 = if spec_irq_enabled(t.control) {
        spec_scheduled(s, GbaEvent::Interrupt(spec_timer_interrupt(id)), 0)
    } else {
        s
    };
    if id < 3 && spec_timer_enabled(ts[id + 1].control) && spec_cascade_enabled(ts[id + 1].control) {
        let n = ts1[id + 1];
        let ts2 = ts1.update(id + 1, TimerState { counter: (n.counter + 1) as usize, ..n });
        if n.counter + 1 == 0x10000 {
            spec_cascade(ts2, s1, id + 1)
        } else {
            (ts2, s1)
        }
    } else {
        (ts1, s1)
    }
}

/// Timer `id` stops: its pending overflow is dropped.
pub open spec fn spec_stop(ts: Seq<TimerState>, s: SchedulerState<GbaEvent>, id: int) -> (
    Seq<TimerState>,
    SchedulerState<GbaEvent>,
) {
    (
        ts.update(id, TimerState { active: false, ..ts[id] }),
        SchedulerState { events: spec_without(s.events, spec_overflow_event(id)), ..s },
    )
}

/// A timer started at `now`: it counts from its counter, from the last
/// prescaler boundary on.
pub open spec fn spec_started(t: TimerState, now: usize) -> TimerState {
    TimerState { start_time: (now - (now as int) % (spec_prescaler(t.control) as int)) as usize, active: true, ..t }
}

/// Cycles from `now` until a timer started at `now` passes 0xFFFF.
pub open spec fn spec_overflow_delay(t: TimerState, now: usize) -> int {
    let p = spec_prescaler(t.control) as int;
    (0x10000 - t.counter) * p - (now as int) % p
}

/// Timer `id` starts, and its overflow is queued for when the counter
/// passes 0xFFFF.
pub open spec fn spec_start(ts: Seq<TimerState>, s: SchedulerState<GbaEvent>, id: int) -> (
    Seq<TimerState>,
    SchedulerState<GbaEvent>,
) {
    (
        ts.update(id, spec_started(ts[id], s.time)),
        spec_scheduled(s, spec_overflow_event(id), spec_overflow_delay(ts[id], s.time)),
    )
}

/// An overflow of timer `id`: it cascades, then starts again.
pub open spec fn spec_overflow(ts: Seq<TimerState>, s: SchedulerState<GbaEvent>, id: int) -> (
    Seq<TimerState>,
    SchedulerState<GbaEvent>,
) {
    let (ts1, s1) = spec_cascade(ts, s, id);
    spec_start(ts1, s1, id)
}

/// A write of `value` to the low byte of timer `id`'s control register. A
/// running timer stops first (cascading if it has passed 0xFFFF); an
/// enabled timer then takes its reload value if it was disabled, and starts
/// unless it counts on cascade.
pub open spec fn spec_control_write(ts: Seq<TimerState>, s: SchedulerState<GbaEvent>, id: int, value: u8) -> (
    Seq<TimerState>,
    SchedulerState<GbaEvent>,
) {
    let t = ts[id];
    let control = value as u16;
    let was_enabled = spec_timer_enabled(t.control);
    let (ts1, s1) = if t.active {
        let sum = t.counter + spec_delta(t, s.time);
        let counter = if sum > usize::MAX {
            sum - usize::MAX - 1
        } else {
            sum
        };
        let (ts0, s0) = if counter >= 0x10000 {
            spec_cascade(ts, s, id)
        } else {
            (ts, s)
        };
        spec_stop(ts0, s0, id)
    } else {
        (ts, s)
    };
    let ts2 = ts1.update(id, TimerState { control, ..ts1[id] });
    if !spec_timer_enabled(control) {
        (ts2, s1)
    } else {
        let ts3 = if !was_enabled {
            ts2.update(id, TimerState { counter: ts2[id].reload as usize, ..ts2[id] })
        } else {
            ts2
        };
        if !spec_cascade_enabled(control) {
            spec_start(ts3, s1, id)
        } else {
            (ts3, s1)
        }
    }
}

/// A write of `value` at `address` to the reload register of timer `id`.
pub open spec fn spec_reload_write(ts: Seq<TimerState>, id: int, address: u32, value: u8) -> Seq<TimerState> {
    ts.update(id, TimerState { reload: u16::spec_merge_byte(ts[id].reload, 0xFFFF, address, value), ..ts[id] })
}

/// The four timers hold counters of at most 0xFFFF.
pub open spec fn spec_counters_in_range(ts: Seq<TimerState>) -> bool {
    ts.len() == 4 && forall|i: int| 0 <= i < 4 ==> (#[trigger] ts[i]).counter <= 0xFFFF
}

/// No running timer started after `now`.
pub open spec fn spec_started_by(ts: Seq<TimerState>, now: usize) -> bool {
    forall|i: int| 0 <= i < ts.len() && (#[trigger] ts[i]).active ==> ts[i].start_time <= now
}

/// The scheduler has room for a timer's longest wait.
pub open spec fn spec_time_room(s: SchedulerState<GbaEvent>) -> bool {
    s.time + 0x400_0000 <= usize::MAX
}

#[derive(Copy, Clone)]
pub struct Timer {
    id: usize,
    counter: usize,
    reload: u16,
    control: TimerControl,
    start_time: usize,
    active: bool,
}

impl View for Timer {
    type V = TimerState;

    closed spec fn view(&self) -> TimerState {
        TimerState {
            counter: self.counter,
            reload: self.reload,
            control: self.control@,
            start_time: self.start_time,
            active: self.active,
        }
    }
}

impl Timer {
    pub closed spec fn spec_id(&self) -> usize {
        self.id
    }

    /// A stopped timer with every register cleared.
    pub fn new(id: usize, scheduler: &Scheduler<GbaEvent>) -> (r: Self)
        ensures
            r.spec_id() == id,
            r@ == (TimerState { counter: 0, reload: 0, control: 0, start_time: scheduler@.time, active: false }),
    {
        let start_time = scheduler.timestamp();
        Self { id, counter: 0, reload: 0, control: TimerControl::from_bits(0), start_time, active: false }
    }

    fn delta_time(&self, scheduler: &Scheduler<GbaEvent>) -> (r: usize)
        requires
            self.start_time <= scheduler@.time,
        ensures
            r == spec_delta(self@, scheduler@.time),
    {
        (scheduler.timestamp() - self.start_time) / self.control.prescaler()
    }

    pub fn read_counter(&self, scheduler: &Scheduler<GbaEvent>) -> (r: u16)
        requires
            self@.active ==> self@.start_time <= scheduler@.time,
        ensures
            r == spec_counter_value(self@, scheduler@.time),
    {
        let mut counter = self.counter;
        if self.active {
            let delta = self.delta_time(scheduler);
            counter = counter.wrapping_add(delta);
            proof {
                lemma_wrapped_low_half(self.counter, delta, counter);
            }
        } else {
            proof {
                lemma_wrapped_low_half(self.counter, 0, counter);
            }
        }
        counter as u16
    }

    /// Queues the write for the next cycle.
    pub fn write_reload(&mut self, scheduler: &mut Scheduler<GbaEvent>, address: u32, value: u8)
        requires
            old(scheduler)@.time < usize::MAX,
        ensures
            *final(self) == *old(self),
            final(scheduler)@ == spec_scheduled(
                old(scheduler)@,
                GbaEvent::Timer(TimerEvent::ReloadWrite { timer_id: old(self).spec_id(), address, value }),
                1,
            ),
    {
        scheduler.schedule((GbaEvent::Timer(TimerEvent::ReloadWrite { timer_id: self.id, address, value }), 1));
    }

    /// Queues a write of the low byte for the next cycle; the high byte
    /// holds only unused bits.
    pub fn write_control(&mut self, scheduler: &mut Scheduler<GbaEvent>, address: u32, value: u8)
        requires
            old(scheduler)@.time < usize::MAX,
        ensures
            *final(self) == *old(self),
            address % 2 == 1 ==> final(scheduler)@ == old(scheduler)@,
            address % 2 == 0 ==> final(scheduler)@ == spec_scheduled(
                old(scheduler)@,
                GbaEvent::Timer(TimerEvent::ControlWrite { timer_id: old(self).spec_id(), value }),
                1,
            ),
    {
        if address % 2 == 1 {
            return;
        }
        scheduler.schedule((GbaEvent::Timer(TimerEvent::ControlWrite { timer_id: self.id, value }), 1));
    }

    fn reload(&mut self, scheduler: &mut Scheduler<GbaEvent>)
        ensures
            final(self).spec_id() == old(self).spec_id(),
            final(self)@ == (TimerState { counter: old(self)@.reload as usize, ..old(self)@ }),
            final(scheduler)@ == if spec_irq_enabled(old(self)@.control) {
                spec_scheduled(old(scheduler)@, GbaEvent::Interrupt(spec_timer_interrupt(old(self).spec_id() as int)), 0)
            } else {
                old(scheduler)@
            },
    {
        self.counter = self.reload as usize;
        if self.control.irq_enabled() {
            scheduler.schedule((GbaEvent::Interrupt(timer_interrupt(self.id)), 0));
        }
    }

    fn stop(&mut self, scheduler: &mut Scheduler<GbaEvent>)
        ensures
            final(self).spec_id() == old(self).spec_id(),
            final(self)@ == (TimerState { active: false, ..old(self)@ }),
            final(scheduler)@ == (SchedulerState {
                events: spec_without(old(scheduler)@.events, spec_overflow_event(old(self).spec_id() as int)),
                ..old(scheduler)@
            }),
    {
        self.active = false;
        scheduler.cancel_events(GbaEvent::Timer(TimerEvent::Overflow { timer_id: self.id }));
    }

    fn start(&mut self, scheduler: &mut Scheduler<GbaEvent>)
        requires
            old(self).counter <= 0xFFFF,
            spec_time_room(old(scheduler)@),
        ensures
            final(self).spec_id() == old(self).spec_id(),
            final(self)@ == spec_started(old(self)@, old(scheduler)@.time),
            final(scheduler)@ == spec_scheduled(
                old(scheduler)@,
                spec_overflow_event(old(self).spec_id() as int),
                spec_overflow_delay(old(self)@, old(scheduler)@.time),
            ),
    {
        let current_time = scheduler.timestamp();
        let prescalar = self.control.prescaler();
        let elapsed_time = current_time % prescalar;

        self.start_time = current_time - elapsed_time;
        self.active = true;

        proof {
            lemma_prescaler_values(self.control@);
            assert((0x10000 - self.counter) * prescalar <= 0x400_0000) by (nonlinear_arith)
                requires
                    self.counter <= 0xFFFF,
                    prescalar <= 1024,
            ;
            assert((0x10000 - self.counter) * prescalar >= prescalar) by (nonlinear_arith)
                requires
                    self.counter <= 0xFFFF,
            ;
        }
        let cycles = (0x10000 - self.counter) * prescalar - elapsed_time;
        scheduler.schedule((GbaEvent::Timer(TimerEvent::Overflow { timer_id: self.id }), cycles));
    }
}

/// A usize sum that wrapped keeps its low 16 bits.
proof fn lemma_wrapped_low_half(a: usize, b: usize, w: usize)
    requires
        w == (if a + b > usize::MAX {
            a + b - usize::MAX - 1
        } else {
            a + b
        }),
    ensures
        w as u16 == ((a + b) % 0x10000) as u16,
{
    assert(w as u16 == (w % 0x10000) as u16) by (bit_vector);
    if a + b > usize::MAX {
        assert((usize::MAX as int + 1) % 0x10000 == 0) by {
            assert(usize::MAX == 0xFFFF_FFFF || usize::MAX == 0xFFFF_FFFF_FFFF_FFFF);
        }
        assert((a + b - usize::MAX - 1) % 0x10000 == (a + b) % 0x10000) by {
            vstd::arithmetic::div_mod::lemma_mod_sub_multiples_vanish(a + b, 0x10000);
            assert(usize::MAX + 1 == 0x10000 * ((usize::MAX + 1) / 0x10000));
            vstd::arithmetic::div_mod::lemma_mod_multiples_vanish(-((usize::MAX + 1) / 0x10000), a + b, 0x10000);
        }
    }
}

/// The four timers.
pub struct TimerController {
    timers: [Timer; 4],
}

impl View for TimerController {
    type V = Seq<TimerState>;

    closed spec fn view(&self) -> Seq<TimerState> {
        self.timers@.map_values(|t: Timer| t@)
    }
}

impl TimerController {
    /// Each timer knows its number and holds a counter of at most 0xFFFF.
    pub closed spec fn wf(&self) -> bool {
        &&& forall|i: int| 0 <= i < 4 ==> (#[trigger] self.timers[i]).id == i
        &&& spec_counters_in_range(self@)
    }

    /// Each timer knows its number; the counters are at most 0xFFFF but for
    /// timer `id`'s, which may have just reached 0x10000.
    closed spec fn wf_cascading(&self, id: int) -> bool {
        &&& forall|i: int| 0 <= i < 4 ==> (#[trigger] self.timers[i]).id == i
        &&& self@.len() == 4
        &&& forall|i: int| 0 <= i < 4 && i != id ==> (#[trigger] self@[i]).counter <= 0xFFFF
        &&& self@[id].counter <= 0x10000
    }

    proof fn lemma_set_view(&self, before: Self, i: int)
        requires
            0 <= i < 4,
            forall|j: int| 0 <= j < 4 && j != i ==> self.timers[j] == before.timers[j],
        ensures
            self@ == before@.update(i, self.timers[i]@),
    {
        assert(self@ =~= before@.update(i, self.timers[i]@));
    }

    /// Four stopped timers with every register cleared.
    pub fn new(scheduler: &Scheduler<GbaEvent>) -> (r: Self)
        ensures
            r.wf(),
            r@.len() == 4,
            forall|i: int| 0 <= i < 4 ==> #[trigger] r@[i] == (TimerState {
                counter: 0,
                reload: 0,
                control: 0,
                start_time: scheduler@.time,
                active: false,
            }),
    {
        let r = Self {
            timers: [
                Timer::new(0, scheduler),
                Timer::new(1, scheduler),
                Timer::new(2, scheduler),
                Timer::new(3, scheduler),
            ],
        };
        assert(r@.len() == 4);
        r
    }

    proof fn lemma_view_at(&self, i: int)
        requires
            0 <= i < 4,
        ensures
            self@.len() == 4,
            self@[i] == self.timers[i]@,
    {
    }

    fn set_timer(&mut self, i: usize, timer: Timer)
        requires
            i < 4,
        ensures
            final(self)@ == old(self)@.update(i as int, timer@),
            forall|j: int| 0 <= j < 4 && j != i ==> final(self).timers[j] == old(self).timers[j],
            final(self).timers[i as int] == timer,
            old(self).wf() && timer.id == i && timer.counter <= 0xFFFF ==> final(self).wf(),
            forall|now: usize|
                spec_started_by(old(self)@, now) && (timer.active ==> timer.start_time <= now)
                    ==> #[trigger] spec_started_by(final(self)@, now),
    {
        self.timers[i] = timer;
        proof {
            self.lemma_set_view(*old(self), i as int);
            assert forall|j: int| 0 <= j < 4 implies #[trigger] self@[j] == (if j == i {
                timer@
            } else {
                old(self)@[j]
            }) by {}
        }
    }

    pub fn handle_event(&mut self, scheduler: &mut Scheduler<GbaEvent>, event: TimerEvent)
        requires
            old(self).wf(),
            spec_started_by(old(self)@, old(scheduler)@.time),
            spec_time_room(old(scheduler)@),
            match event {
                TimerEvent::Overflow { timer_id } => timer_id < 4,
                TimerEvent::ControlWrite { timer_id, .. } => timer_id < 4,
                TimerEvent::ReloadWrite { timer_id, .. } => timer_id < 4,
            },
        ensures
            final(self).wf(),
            spec_started_by(final(self)@, final(scheduler)@.time),
            final(scheduler)@.time == old(scheduler)@.time,
            match event {
                TimerEvent::Overflow { timer_id } => (final(self)@, final(scheduler)@) == spec_overflow(
                    old(self)@,
                    old(scheduler)@,
                    timer_id as int,
                ),
                TimerEvent::ControlWrite { timer_id, value } => (final(self)@, final(scheduler)@)
                    == spec_control_write(old(self)@, old(scheduler)@, timer_id as int, value),
                TimerEvent::ReloadWrite { timer_id, address, value } => final(self)@ == spec_reload_write(
                    old(self)@,
                    timer_id as int,
                    address,
                    value,
                ) && final(scheduler)@ == old(scheduler)@,
            },
    {
        match event {
            TimerEvent::Overflow { timer_id } => self.handle_overflow(scheduler, timer_id),
            TimerEvent::ControlWrite { timer_id, value } => self.handle_control_write(scheduler, timer_id, value),
            TimerEvent::ReloadWrite { timer_id, address, value } => self.handle_reload_write(
                timer_id,
                address,
                value,
            ),
        }
    }

    fn handle_overflow(&mut self, scheduler: &mut Scheduler<GbaEvent>, timer_id: usize)
        requires
            timer_id < 4,
            old(self).wf(),
            spec_started_by(old(self)@, old(scheduler)@.time),
            spec_time_room(old(scheduler)@),
        ensures
            final(self).wf(),
            spec_started_by(final(self)@, final(scheduler)@.time),
            final(scheduler)@.time == old(scheduler)@.time,
            (final(self)@, final(scheduler)@) == spec_overflow(old(self)@, old(scheduler)@, timer_id as int),
    {
        self.cascade(scheduler, timer_id);
        let mut timer = self.timers[timer_id];
        proof {
            self.lemma_view_at(timer_id as int);
            assert(spec_started_by(self@, scheduler@.time)) by {
                assert forall|i: int| 0 <= i < self@.len() && (#[trigger] self@[i]).active implies self@[i].start_time
                    <= scheduler@.time by {
                    assert(old(self)@[i].active);
                }
            }
        }
        timer.start(scheduler);
        proof {
            lemma_prescaler_values(timer@.control);
            lemma_mod_at_most(scheduler@.time, spec_prescaler(timer@.control) as int);
            assert(timer.start_time <= scheduler@.time);
        }
        self.set_timer(timer_id, timer);
        assert(spec_started_by(self@, scheduler@.time));
    }

    fn handle_reload_write(&mut self, timer_id: usize, address: u32, value: u8)
        requires
            timer_id < 4,
            old(self).wf(),
        ensures
            final(self).wf(),
            final(self)@ == spec_reload_write(old(self)@, timer_id as int, address, value),
    {
        let mut timer = self.timers[timer_id];
        proof {
            self.lemma_view_at(timer_id as int);
        }
        timer.reload.write_byte(address, value);
        self.set_timer(timer_id, timer);
    }

    fn handle_control_write(&mut self, scheduler: &mut Scheduler<GbaEvent>, timer_id: usize, value: u8)
        requires
            timer_id < 4,
            old(self).wf(),
            spec_started_by(old(self)@, old(scheduler)@.time),
            spec_time_room(old(scheduler)@),
        ensures
            final(self).wf(),
            spec_started_by(final(self)@, final(scheduler)@.time),
            final(scheduler)@.time == old(scheduler)@.time,
            (final(self)@, final(scheduler)@) == spec_control_write(
                old(self)@,
                old(scheduler)@,
                timer_id as int,
                value,
            ),
    {
        let new_control = TimerControl::from_bits(value as u16);
        proof {
            self.lemma_view_at(timer_id as int);
        }
        let was_enabled = self.timers[timer_id].control.enabled();

        if self.timers[timer_id].active {
            let timer = self.timers[timer_id];
            assert(old(self)@[timer_id as int].active);
            let counter = timer.counter.wrapping_add(timer.delta_time(scheduler));
            if counter >= 0x10000 {
                self.cascade(scheduler, timer_id);
                assert(spec_started_by(self@, scheduler@.time)) by {
                    assert forall|i: int| 0 <= i < self@.len() && (#[trigger] self@[i]).active implies self@[i].start_time
                        <= scheduler@.time by {
                        assert(old(self)@[i].active);
                    }
                }
            }
            let mut timer = self.timers[timer_id];
            proof {
                self.lemma_view_at(timer_id as int);
            }
            timer.stop(scheduler);
            self.set_timer(timer_id, timer);
            assert(spec_started_by(self@, scheduler@.time));
        }
        let mut timer = self.timers[timer_id];
        proof {
            self.lemma_view_at(timer_id as int);
        }
        timer.control = new_control;
        self.set_timer(timer_id, timer);
        assert(spec_started_by(self@, scheduler@.time));
        if !new_control.enabled() {
            return;
        }
        if !was_enabled {
            let mut timer = self.timers[timer_id];
            proof {
                self.lemma_view_at(timer_id as int);
            }
            timer.counter = timer.reload as usize;
            self.set_timer(timer_id, timer);
            assert(spec_started_by(self@, scheduler@.time));
        }
        if !new_control.cascade_enabled() {
            let mut timer = self.timers[timer_id];
            proof {
                self.lemma_view_at(timer_id as int);
            }
            timer.start(scheduler);
            proof {
                lemma_prescaler_values(timer@.control);
                lemma_mod_at_most(scheduler@.time, spec_prescaler(timer@.control) as int);
                assert(timer.start_time <= scheduler@.time);
            }
            self.set_timer(timer_id, timer);
            assert(spec_started_by(self@, scheduler@.time));
        }
    }

    #[verifier::spinoff_prover]
    fn cascade(&mut self, scheduler: &mut Scheduler<GbaEvent>, timer_id: usize)
        requires
            timer_id < 4,
            old(self).wf_cascading(timer_id as int),
        ensures
            final(self).wf(),
            final(scheduler)@.time == old(scheduler)@.time,
            (final(self)@, final(scheduler)@) == spec_cascade(old(self)@, old(scheduler)@, timer_id as int),
            forall|i: int|
                0 <= i < 4 ==> (#[trigger] final(self)@[i]).active == old(self)@[i].active
                    && final(self)@[i].start_time == old(self)@[i].start_time,
        decreases 4 - timer_id,
    {
        let mut timer = self.timers[timer_id];
        timer.reload(scheduler);
        self.set_timer(timer_id, timer);
        assert(self.wf());

        if timer_id < 3 {
            let mut next = self.timers[timer_id + 1];
            proof {
                self.lemma_view_at(timer_id + 1);
            }
            assert(next.counter <= 0xFFFF);
            if next.control.enabled() && next.control.cascade_enabled() {
                next.counter = next.counter.wrapping_add(1);
                self.set_timer(timer_id + 1, next);
                if next.counter == 0x10000 {
                    self.cascade(scheduler, timer_id + 1);
                } else {
                    assert(self.wf());
                }
            }
        }
    }

    /// The byte at `address` of a counter (TMxCNT_L, counting as of now) or
    /// a control register (TMxCNT_H), 0x04000100..=0x0400010F.
    pub fn read_8(&self, scheduler: &Scheduler<GbaEvent>, address: u32) -> (r: u8)
        requires
            self.wf(),
            spec_started_by(self@, scheduler@.time),
            0x04000100 <= address <= 0x0400010F,
        ensures
            ({
                let t = self@[(address - 0x04000100) / 4];
                r == if (address - 0x04000100) % 4 < 2 {
                    u16::spec_byte(spec_counter_value(t, scheduler@.time) & 0xFFFF, address)
                } else {
                    u16::spec_byte(t.control & 0xFFFF, address)
                }
            }),
    {
        let id = ((address - 0x04000100) / 4) as usize;
        let timer = &self.timers[id];
        assert(self@[id as int] == timer@);
        if (address - 0x04000100) % 4 < 2 {
            timer.read_counter(scheduler).read_byte(address)
        } else {
            timer.control.read_byte(address)
        }
    }

    /// A write to a reload or control register is queued for the next cycle.
    pub fn write_8(&mut self, scheduler: &mut Scheduler<GbaEvent>, address: u32, value: u8)
        requires
            old(self).wf(),
            old(scheduler)@.time < usize::MAX,
            0x04000100 <= address <= 0x0400010F,
        ensures
            final(self)@ == old(self)@,
            final(self).wf(),
            ({
                let id = (address - 0x04000100) / 4;
                if (address - 0x04000100) % 4 < 2 {
                    final(scheduler)@ == spec_scheduled(
                        old(scheduler)@,
                        GbaEvent::Timer(TimerEvent::ReloadWrite { timer_id: id as usize, address, value }),
                        1,
                    )
                } else if address % 2 == 0 {
                    final(scheduler)@ == spec_scheduled(
                        old(scheduler)@,
                        GbaEvent::Timer(TimerEvent::ControlWrite { timer_id: id as usize, value }),
                        1,
                    )
                } else {
                    final(scheduler)@ == old(scheduler)@
                }
            }),
    {
        let id = ((address - 0x04000100) / 4) as usize;
        let mut timer = self.timers[id];
        proof {
            self.lemma_view_at(id as int);
        }
        if (address - 0x04000100) % 4 < 2 {
            timer.write_reload(scheduler, address, value);
        } else {
            timer.write_control(scheduler, address, value);
        }
        self.set_timer(id, timer);
    }
}

/// A started timer passes 0xFFFF exactly when its overflow is due: until
/// then its counter stays at most 0xFFFF.
pub proof fn lemma_overflow_due_when_counter_wraps(t: TimerState, now: usize, at: usize)
    requires
        t.counter <= 0xFFFF,
        now + spec_overflow_delay(t, now) <= usize::MAX,
        spec_started(t, now).start_time <= at,
    ensures
        at < now + spec_overflow_delay(t, now) ==> t.counter + spec_delta(spec_started(t, now), at) <= 0xFFFF,
        at == now + spec_overflow_delay(t, now) ==> t.counter + spec_delta(spec_started(t, now), at) == 0x10000,
{
    let p = spec_prescaler(t.control) as int;
    lemma_prescaler_values(t.control);
    let start = now - (now as int) % p;
    assert(start + (0x10000 - t.counter) * p == now + spec_overflow_delay(t, now));
    let d = at - start;
    assert(spec_delta(spec_started(t, now), at) == d / p);
    if at < now + spec_overflow_delay(t, now) {
        assert(d / p < 0x10000 - t.counter) by (nonlinear_arith)
            requires
                d < (0x10000 - t.counter) * p,
                p > 0,
                d >= 0,
        ;
    }
    if at == now + spec_overflow_delay(t, now) {
        assert(d / p == 0x10000 - t.counter) by (nonlinear_arith)
            requires
                d == (0x10000 - t.counter) * p,
                p > 0,
        ;
    }
}

proof fn lemma_mod_at_most(x: usize, m: int)
    requires
        m > 0,
    ensures
        0 <= (x as int) % m <= x,
{
    assert(0 <= (x as int) % m <= x) by (nonlinear_arith)
        requires
            m > 0,
            x >= 0,
    ;
}

/// An overflow reloads the timer's counter; a timer above it that counts on
/// cascade goes up by one (when that does not make it overflow in turn).
pub proof fn lemma_overflow_reloads_and_cascades(ts: Seq<TimerState>, s: SchedulerState<GbaEvent>, id: int)
    requires
        0 <= id < 3,
        ts.len() == 4,
        spec_timer_enabled(ts[id + 1].control),
        spec_cascade_enabled(ts[id + 1].control),
        ts[id + 1].counter + 1 < 0x10000,
    ensures
        spec_overflow(ts, s, id).0[id].counter == ts[id].reload,
        spec_overflow(ts, s, id).0[id + 1].counter == ts[id + 1].counter + 1,
        spec_overflow(ts, s, id).0[id].active,
{
}

/// A running timer's counter goes up by one every prescaler period.
pub proof fn lemma_counter_ticks_per_period(t: TimerState, now: usize)
    requires
        t.active,
        t.start_time <= now,
        now + spec_prescaler(t.control) <= usize::MAX,
    ensures
        spec_counter_value(t, (now + spec_prescaler(t.control)) as usize) == (spec_counter_value(t, now) + 1)
            % 0x10000,
{
    let p = spec_prescaler(t.control) as int;
    lemma_prescaler_values(t.control);
    let d = now - t.start_time;
    assert((p + d) / p == 1 + d / p) by {
        vstd::arithmetic::div_mod::lemma_div_plus_one(d, p);
    }
    assert((now + p) - t.start_time == p + d);
    let c = t.counter + d / p;
    assert(((c % 0x10000) + (1int % 0x10000)) % 0x10000 == (c + 1) % 0x10000) by {
        vstd::arithmetic::div_mod::lemma_add_mod_noop(c, 1, 0x10000);
    }
}

} // verus!
