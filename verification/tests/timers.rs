use ironboyadvance::common::scheduler::Scheduler;
use ironboyadvance::gba::events::{GbaEvent, InterruptEvent, TimerEvent};
use ironboyadvance::gba::timer_control::{TimerControl, TimerController};

fn run_due(scheduler: &mut Scheduler<GbaEvent>, timers: &mut TimerController) -> Vec<GbaEvent> {
    let mut seen = Vec::new();
    while let Some((event, _)) = scheduler.pop() {
        seen.push(event);
        if let GbaEvent::Timer(timer_event) = event {
            timers.handle_event(scheduler, timer_event);
        }
    }
    seen
}

#[test]
fn writes_are_applied_a_cycle_later() {
    let mut scheduler: Scheduler<GbaEvent> = Scheduler::new();
    let mut timers = TimerController::new(&scheduler);
    timers.write_8(&mut scheduler, 0x04000102, 0x80);
    timers.write_8(&mut scheduler, 0x04000103, 0xFF);
    assert_eq!(scheduler.peek(), Some(GbaEvent::Timer(TimerEvent::ControlWrite { timer_id: 0, value: 0x80 })));
    assert_eq!(scheduler.timestamp_of_next_event(), 1);
    assert_eq!(timers.read_8(&scheduler, 0x04000102), 0x00);
    scheduler.step(1);
    run_due(&mut scheduler, &mut timers);
    assert_eq!(timers.read_8(&scheduler, 0x04000102), 0x80);
}

#[test]
fn a_running_timer_counts_and_overflows_on_time() {
    let mut scheduler: Scheduler<GbaEvent> = Scheduler::new();
    let mut timers = TimerController::new(&scheduler);
    timers.handle_event(&mut scheduler, TimerEvent::ControlWrite { timer_id: 0, value: 0x80 });
    assert_eq!(scheduler.timestamp_of_next_event(), 0x10000);
    scheduler.step(100);
    assert_eq!(timers.read_8(&scheduler, 0x04000100), 100);
    assert_eq!(timers.read_8(&scheduler, 0x04000101), 0);
    scheduler.step(0x101);
    assert_eq!(timers.read_8(&scheduler, 0x04000100), 0x65);
    assert_eq!(timers.read_8(&scheduler, 0x04000101), 0x01);
}

#[test]
fn reload_and_cascade_on_overflow() {
    let mut scheduler: Scheduler<GbaEvent> = Scheduler::new();
    let mut timers = TimerController::new(&scheduler);
    timers.write_8(&mut scheduler, 0x04000100, 0x34);
    timers.write_8(&mut scheduler, 0x04000101, 0x12);
    timers.write_8(&mut scheduler, 0x04000106, 0x84);
    timers.write_8(&mut scheduler, 0x04000102, 0x80);
    scheduler.step(1);
    run_due(&mut scheduler, &mut timers);
    // Timer 0 took the reload value when it was enabled; timer 1 waits for cascades.
    assert_eq!(timers.read_8(&scheduler, 0x04000100), 0x34);
    assert_eq!(timers.read_8(&scheduler, 0x04000101), 0x12);
    assert_eq!(scheduler.timestamp_of_next_event(), 1 + 0x10000 - 0x1234);
    scheduler.step_to_next_event();
    let seen = run_due(&mut scheduler, &mut timers);
    assert_eq!(seen, vec![GbaEvent::Timer(TimerEvent::Overflow { timer_id: 0 })]);
    assert_eq!(timers.read_8(&scheduler, 0x04000104), 1);
    assert_eq!(timers.read_8(&scheduler, 0x04000100), 0x34);
    let now = scheduler.timestamp();
    assert_eq!(scheduler.timestamp_of_next_event(), now + 0x10000 - 0x1234);
}

#[test]
fn overflow_raises_the_timer_interrupt_when_enabled() {
    let mut scheduler: Scheduler<GbaEvent> = Scheduler::new();
    let mut timers = TimerController::new(&scheduler);
    timers.handle_event(&mut scheduler, TimerEvent::ControlWrite { timer_id: 2, value: 0xC0 });
    scheduler.step_to_next_event();
    let seen = run_due(&mut scheduler, &mut timers);
    assert_eq!(
        seen,
        vec![
            GbaEvent::Timer(TimerEvent::Overflow { timer_id: 2 }),
            GbaEvent::Interrupt(InterruptEvent::Timer2Overflow),
        ]
    );
}

#[test]
fn the_prescaler_divides_the_clock() {
    let mut scheduler: Scheduler<GbaEvent> = Scheduler::new();
    let mut timers = TimerController::new(&scheduler);
    scheduler.step(5);
    timers.handle_event(&mut scheduler, TimerEvent::ControlWrite { timer_id: 1, value: 0x81 });
    assert_eq!(scheduler.timestamp_of_next_event(), 0x10000 * 64);
    scheduler.step(640 - 5);
    assert_eq!(timers.read_8(&scheduler, 0x04000104), 10);
    assert_eq!(TimerControl::from_bits(0x83).prescaler(), 1024);
    assert_eq!(TimerControl::from_bits(0x02).prescaler(), 256);
}

#[test]
fn stopping_drops_the_pending_overflow() {
    let mut scheduler: Scheduler<GbaEvent> = Scheduler::new();
    let mut timers = TimerController::new(&scheduler);
    timers.handle_event(&mut scheduler, TimerEvent::ControlWrite { timer_id: 3, value: 0x80 });
    scheduler.step(50);
    timers.handle_event(&mut scheduler, TimerEvent::ControlWrite { timer_id: 3, value: 0x00 });
    assert!(scheduler.is_empty());
    assert_eq!(timers.read_8(&scheduler, 0x0400010E), 0x00);
    assert_eq!(timers.read_8(&scheduler, 0x0400010C), 0x00);
}
