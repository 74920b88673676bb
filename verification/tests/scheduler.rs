use std::cmp::Ordering;
use ironboyadvance::common::scheduler::{Event, Scheduler};
use ironboyadvance::gba::events::{GbaEvent, TimerEvent};

#[test]
fn events_come_out_by_time_then_priority() {
    let mut scheduler: Scheduler<GbaEvent> = Scheduler::new();
    let control = GbaEvent::Timer(TimerEvent::ControlWrite { timer_id: 0, value: 0 });
    let reload = GbaEvent::Timer(TimerEvent::ReloadWrite { timer_id: 0, address: 0x04000100, value: 1 });
    let overflow = GbaEvent::Timer(TimerEvent::Overflow { timer_id: 0 });
    scheduler.schedule((control, 10));
    scheduler.schedule((reload, 10));
    scheduler.schedule((overflow, 10));
    scheduler.schedule((GbaEvent::FrameComplete, 5));
    assert_eq!(scheduler.peek(), Some(GbaEvent::FrameComplete));
    assert_eq!(scheduler.pop(), None);
    assert_eq!(scheduler.cycles_until_next_event(), 5);
    assert_eq!(scheduler.timestamp_of_next_event(), 5);
    scheduler.step_to_next_event();
    assert_eq!(scheduler.timestamp(), 5);
    assert_eq!(scheduler.pop(), Some((GbaEvent::FrameComplete, 5)));
    scheduler.step(5);
    assert_eq!(scheduler.pop(), Some((overflow, 10)));
    assert_eq!(scheduler.pop(), Some((reload, 10)));
    assert_eq!(scheduler.pop(), Some((control, 10)));
    assert_eq!(scheduler.pop(), None);
    assert!(scheduler.is_empty());
    assert_eq!(scheduler.cycles_until_next_event(), 0);
}

#[test]
fn equal_events_come_out_in_the_order_they_were_queued() {
    let mut scheduler: Scheduler<GbaEvent> = Scheduler::new();
    scheduler.schedule_at_timestamp(GbaEvent::Dma(1), 3);
    scheduler.schedule_at_timestamp(GbaEvent::Dma(2), 3);
    scheduler.step(3);
    assert_eq!(scheduler.pop(), Some((GbaEvent::Dma(1), 3)));
    assert_eq!(scheduler.pop(), Some((GbaEvent::Dma(2), 3)));
}

#[test]
fn cancel_drops_every_event_of_the_kind() {
    let mut scheduler: Scheduler<GbaEvent> = Scheduler::new();
    let overflow = GbaEvent::Timer(TimerEvent::Overflow { timer_id: 2 });
    scheduler.schedule((overflow, 4));
    scheduler.schedule((GbaEvent::FrameComplete, 8));
    scheduler.schedule((overflow, 2));
    scheduler.cancel_events(overflow);
    assert_eq!(scheduler.peek(), Some(GbaEvent::FrameComplete));
    scheduler.step(8);
    assert_eq!(scheduler.pop(), Some((GbaEvent::FrameComplete, 8)));
    assert!(scheduler.is_empty());
}

#[test]
fn stepping_to_a_passed_event_keeps_the_clock() {
    let mut scheduler: Scheduler<GbaEvent> = Scheduler::default();
    scheduler.schedule((GbaEvent::FrameComplete, 2));
    scheduler.step(7);
    scheduler.step_to_next_event();
    assert_eq!(scheduler.timestamp(), 7);
    assert_eq!(scheduler.pop(), Some((GbaEvent::FrameComplete, 2)));
}

#[test]
fn event_keeps_its_kind_and_time() {
    let event = Event::new(GbaEvent::FrameComplete, 42);
    assert_eq!(event.event_type(), GbaEvent::FrameComplete);
    assert_eq!(event.time(), 42);
}

#[test]
fn events_compare_by_time_then_priority_reversed() {
    let overflow = GbaEvent::Timer(TimerEvent::Overflow { timer_id: 1 });
    let control = GbaEvent::Timer(TimerEvent::ControlWrite { timer_id: 0, value: 0 });
    // Same time and priority: equal, whatever the kind.
    assert!(Event::new(GbaEvent::FrameComplete, 7) == Event::new(overflow, 7));
    assert!(Event::new(GbaEvent::FrameComplete, 7) != Event::new(control, 7));
    assert!(Event::new(GbaEvent::FrameComplete, 7) != Event::new(GbaEvent::FrameComplete, 8));
    // The event taken first is the greater one.
    assert_eq!(
        Event::new(GbaEvent::FrameComplete, 5).partial_cmp(&Event::new(GbaEvent::FrameComplete, 9)),
        Some(Ordering::Greater)
    );
    assert!(Event::new(overflow, 9) > Event::new(control, 9));
    assert!(Event::new(control, 9) < Event::new(overflow, 9));
    assert_eq!(Event::new(overflow, 3).partial_cmp(&Event::new(GbaEvent::FrameComplete, 3)), Some(Ordering::Equal));
}

#[test]
fn steps_add_up_and_only_steps_move_the_clock() {
    let mut a: Scheduler<GbaEvent> = Scheduler::new();
    let mut b: Scheduler<GbaEvent> = Scheduler::new();
    assert_eq!(a.timestamp(), 0);
    a.step(3);
    a.step(4);
    b.step(7);
    assert_eq!(a.timestamp(), b.timestamp());
    a.step(0);
    assert_eq!(a.timestamp(), 7);
    a.schedule((GbaEvent::FrameComplete, 10));
    a.schedule_at_timestamp(GbaEvent::FrameComplete, 30);
    assert_eq!(a.timestamp(), 7);
    assert!(!a.is_empty());
    assert_eq!(a.pop(), None);
    assert_eq!(a.timestamp(), 7);
    let until = a.cycles_until_next_event();
    a.step_to_next_event();
    assert_eq!(a.timestamp(), 7 + until);
    assert_eq!(a.pop(), Some((GbaEvent::FrameComplete, 17)));
    a.cancel_events(GbaEvent::FrameComplete);
    assert_eq!(a.timestamp(), 17);
    assert!(a.is_empty());
    assert_eq!(a.peek(), None);
}
