use pqwindow::codes::{InvalidCode, ReturnCode};
use pqwindow::dispatch::{Callback, Dispatcher, LoopEvent};

/// Runs the dispatcher over a list of events, answering each key callback and
/// each update callback with the next code of `replies`, and records the calls.
fn drive(events: &[LoopEvent], replies: &[u32]) -> (Vec<Callback>, Vec<ReturnCode>, Dispatcher) {
    let mut d = Dispatcher::new();
    let mut calls = Vec::new();
    let mut flows = Vec::new();
    let mut next = 0usize;
    for e in events {
        let c = d.begin(*e);
        match c {
            Callback::Key(_) | Callback::Update => {
                d.adopt(replies[next]).unwrap();
                next += 1;
            }
            _ => {}
        }
        if c != Callback::Nothing {
            calls.push(c);
        }
        flows.push(d.flow());
    }
    (calls, flows, d)
}

#[test]
fn dispatch_order() {
    let a = 30u32;
    let b = 31u32;
    let events = [
        LoopEvent::KeyboardInput { key: Some(a) },
        LoopEvent::MainEventsCleared,
        LoopEvent::KeyboardInput { key: Some(b) },
        LoopEvent::MainEventsCleared,
        LoopEvent::LoopDestroyed,
    ];
    let (calls, _, d) = drive(&events, &[1, 1, 1, 1]);
    assert_eq!(
        calls,
        vec![Callback::Key(a), Callback::Update, Callback::Key(b), Callback::Update, Callback::Exit]
    );
    assert!(d.destroyed);
}

#[test]
fn ignored_events_call_nothing() {
    let events = [
        LoopEvent::NewEvents,
        LoopEvent::KeyboardInput { key: None },
        LoopEvent::OtherWindowEvent,
        LoopEvent::DeviceEvent,
        LoopEvent::UserEvent,
        LoopEvent::Suspended,
        LoopEvent::Resumed,
        LoopEvent::RedrawRequested,
        LoopEvent::RedrawEventsCleared,
    ];
    let (calls, flows, d) = drive(&events, &[]);
    assert!(calls.is_empty());
    assert!(flows.iter().all(|f| *f == ReturnCode::POLL));
    assert!(!d.destroyed);
}

#[test]
fn every_event_resets_to_poll() {
    let events = [LoopEvent::MainEventsCleared, LoopEvent::NewEvents];
    let (_, flows, _) = drive(&events, &[2]);
    assert_eq!(flows, vec![ReturnCode::WAIT, ReturnCode::POLL]);
}

#[test]
fn exit_then_teardown_once() {
    let events = [
        LoopEvent::KeyboardInput { key: Some(1) },
        LoopEvent::MainEventsCleared,
        LoopEvent::LoopDestroyed,
        LoopEvent::MainEventsCleared,
        LoopEvent::KeyboardInput { key: Some(2) },
        LoopEvent::LoopDestroyed,
    ];
    let (calls, flows, d) = drive(&events, &[1, 0]);
    assert_eq!(flows[0], ReturnCode::POLL);
    assert_eq!(flows[1], ReturnCode::Exit);
    assert_eq!(calls, vec![Callback::Key(1), Callback::Update, Callback::Exit]);
    assert_eq!(calls.iter().filter(|c| **c == Callback::Exit).count(), 1);
    assert!(d.destroyed);
}

#[test]
fn exit_is_decided_anew_each_event() {
    let mut d = Dispatcher::new();
    assert_eq!(d.begin(LoopEvent::MainEventsCleared), Callback::Update);
    assert_eq!(d.adopt(0), Ok(ReturnCode::Exit));
    assert_eq!(d.flow(), ReturnCode::Exit);
    assert_eq!(d.begin(LoopEvent::NewEvents), Callback::Nothing);
    assert_eq!(d.flow(), ReturnCode::POLL);
    assert_eq!(d.begin(LoopEvent::KeyboardInput { key: Some(5) }), Callback::Key(5));
    assert_eq!(d.adopt(2), Ok(ReturnCode::WAIT));
    assert_eq!(d.flow(), ReturnCode::WAIT);
}

#[test]
fn invalid_callback_code_is_reported() {
    let mut d = Dispatcher::new();
    assert_eq!(d.begin(LoopEvent::MainEventsCleared), Callback::Update);
    assert_eq!(d.adopt(3), Err(InvalidCode { code: 3 }));
    assert_eq!(d.flow(), ReturnCode::POLL);
    assert_eq!(d.adopt(2), Ok(ReturnCode::WAIT));
    assert_eq!(d.flow(), ReturnCode::WAIT);
}
