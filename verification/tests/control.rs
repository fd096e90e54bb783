//! The per-component control loop: states, wakes, and the interrupt
//! channel that never drops events.

use leechbar::event::Event;
use leechbar::scheduler::{finish_redraw, next_state, InterruptChannel, LoopState, Wake};
use leechbar::timeout::Timeout;
use std::sync::mpsc;
use std::time::Duration;

#[test]
fn timer_ping_always_redraws() {
    let next = next_state(LoopState::Idle, Wake::Timer, false);
    assert_eq!(next, LoopState::Redrawing);
}

#[test]
fn closed_timer_terminates_the_loop() {
    let next = next_state(LoopState::Idle, Wake::TimerClosed, true);
    assert_eq!(next, LoopState::Terminated);
}

#[test]
fn event_redraws_only_on_handler_request() {
    let event = Event::motion(3, 4);
    assert_eq!(next_state(LoopState::Idle, Wake::Interaction(event), true), LoopState::Redrawing);
    assert_eq!(next_state(LoopState::Idle, Wake::Interaction(event), false), LoopState::Idle);
}

#[test]
fn redraw_returns_to_idle() {
    assert_eq!(finish_redraw(LoopState::Redrawing), LoopState::Idle);
}

#[test]
fn interrupt_channel_queues_in_order() {
    let mut channel = InterruptChannel::new();
    assert!(channel.take_next().is_none());
    channel.deliver(Event::motion(1, 1));
    channel.deliver(Event::motion(2, 2));
    assert_eq!(channel.take_next(), Some(Event::motion(1, 1)));
    assert_eq!(channel.take_next(), Some(Event::motion(2, 2)));
    assert!(channel.take_next().is_none());
}

#[test]
fn event_during_redraw_is_not_dropped() {
    // Scenario: the loop drained its channel and went redrawing; an
    // interaction event arrives mid-redraw; the finishing refresh steps the
    // generation but keeps the queue, so the next Idle wait sees the event.
    let mut channel = InterruptChannel::new();
    assert_eq!(channel.pending.len(), 0);

    let event = Event::click(1, 0, 12, 3);
    channel.deliver(event);

    let generation_before = channel.generation;
    channel.refresh();
    assert_eq!(channel.generation, generation_before + 1);

    assert_eq!(channel.take_next(), Some(event));
}

#[test]
fn event_during_redraw_keeps_its_place_in_the_queue() {
    // Same scenario with something already queued: the refresh keeps the
    // whole queue, earlier events come out first, the mid-redraw event
    // right after them.
    let mut channel = InterruptChannel::new();
    channel.deliver(Event::motion(1, 1));

    let event = Event::click(2, 0, 8, 8);
    channel.deliver(event);
    channel.refresh();

    assert_eq!(channel.take_next(), Some(Event::motion(1, 1)));
    assert_eq!(channel.take_next(), Some(event));
    assert!(channel.take_next().is_none());
}

#[test]
fn timeout_constructors() {
    let (_tx, rx) = mpsc::channel::<()>();
    let event_based = Timeout::new_event(&rx);
    assert!(event_based.duration.is_none());
    assert!(event_based.receiver.is_some());

    let time_based = Timeout::new_duration(Duration::from_secs(3));
    assert!(time_based.receiver.is_none());
    assert_eq!(time_based.duration, Some(Duration::from_secs(3)));
}
