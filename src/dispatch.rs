//! The event loop's decisions: which callback an event calls, and the loop
//! state that the codes the callbacks return lead to.
use crate::codes::{decode_spec, InvalidCode, ReturnCode};
use vstd::prelude::*;

verus! {

/// An event as the loop receives it, reduced to what the decisions read.
#[derive(PartialEq, Eq, Structural, Clone, Copy, Debug)]
pub enum LoopEvent {
    /// A new batch of events begins.
    NewEvents,
    /// A key was pressed or released in the window; `key` is its virtual key
    /// code, where the windowing system could resolve one.
    KeyboardInput { key: Option<u32> },
    /// Any other event of the window: a resize, a close request, a focus change.
    OtherWindowEvent,
    /// Input from a device, not tied to the window.
    DeviceEvent,
    /// An event sent by the program itself.
    UserEvent,
    Suspended,
    Resumed,
    /// All events of the batch have been handled.
    MainEventsCleared,
    RedrawRequested,
    RedrawEventsCleared,
    /// The loop has stopped; nothing follows.
    LoopDestroyed,
}

/// The callback that handling an event calls.
#[derive(PartialEq, Eq, Structural, Clone, Copy, Debug)]
pub enum Callback {
    /// The key callback, with the key code.
    Key(u32),
    /// The once-per-batch update callback.
    Update,
    /// The teardown callback.
    Exit,
    /// No callback.
    Nothing,
}

/// The callback an event calls in a running loop.
pub open spec fn callback_for(event: LoopEvent) -> Callback {
    match event {
        LoopEvent::KeyboardInput { key: Some(k) } => Callback::Key(k),
        LoopEvent::MainEventsCleared => Callback::Update,
        LoopEvent::LoopDestroyed => Callback::Exit,
        _ => Callback::Nothing,
    }
}

/// The loop state after a callback returned `code` in state `flow`: a valid
/// code is adopted, an invalid one changes nothing.
pub open spec fn next_flow(flow: ReturnCode, code: u32) -> ReturnCode {
    match decode_spec(code) {
        Some(rc) => rc,
        None => flow,
    }
}

/// The state after an event starts to be handled in state `d`.
pub open spec fn begin_spec(d: Dispatcher, event: LoopEvent) -> Dispatcher {
    if d.destroyed {
        d
    } else {
        Dispatcher { flow: ReturnCode::POLL, destroyed: event == LoopEvent::LoopDestroyed }
    }
}

/// The callback an event calls in state `d`.
pub open spec fn callback_in(d: Dispatcher, event: LoopEvent) -> Callback {
    if d.destroyed {
        Callback::Nothing
    } else {
        callback_for(event)
    }
}

/// The callbacks that a run of events calls, one for each event, from state
/// `d`. The codes the callbacks return change only the state's `flow`, which
/// no callback depends on.
pub open spec fn callbacks_of(d: Dispatcher, events: Seq<LoopEvent>) -> Seq<Callback>
    decreases events.len(),
{
    if events.len() == 0 {
        seq![]
    } else {
        seq![callback_in(d, events[0])] + callbacks_of(
            begin_spec(d, events[0]),
            events.drop_first(),
        )
    }
}

/// The state of the loop between events.
#[derive(PartialEq, Eq, Structural, Clone, Copy, Debug)]
pub struct Dispatcher {
    /// What the loop does once the current event is handled.
    pub flow: ReturnCode,
    /// Whether the loop has stopped and sent its last event.
    pub destroyed: bool,
}

impl Dispatcher {
    /// A loop that has not handled any event: it polls.
    pub fn new() -> (r: Dispatcher)
        ensures
            r.flow == ReturnCode::POLL,
            !r.destroyed,
    {
        Dispatcher { flow: ReturnCode::POLL, destroyed: false }
    }

    /// Starts handling an event and says which callback to call for it.
    ///
    /// Every event sets the state back to `POLL`: the state is decided anew
    /// for each event, from the code its callback returns. A key event with a key code calls the key
    /// callback, the end of a batch calls the update callback, and the last
    /// event calls the teardown callback; all others call none. After the last
    /// event nothing calls anything and nothing changes.
    pub fn begin(&mut self, event: LoopEvent) -> (r: Callback)
        ensures
            old(self).destroyed ==> r == Callback::Nothing && *final(self) == *old(self),
            !old(self).destroyed ==> r == callback_for(event),
            !old(self).destroyed ==> final(self).flow == ReturnCode::POLL,
            !old(self).destroyed ==> final(self).destroyed == (event == LoopEvent::LoopDestroyed),
            r == callback_in(*old(self), event),
            *final(self) == begin_spec(*old(self), event),
    {
        if self.destroyed {
            return Callback::Nothing;
        }
        self.flow = ReturnCode::POLL;
        match event {
            LoopEvent::KeyboardInput { key: Some(k) } => Callback::Key(k),
            LoopEvent::MainEventsCleared => Callback::Update,
            LoopEvent::LoopDestroyed => {
                self.destroyed = true;
                Callback::Exit
            },
            _ => Callback::Nothing,
        }
    }

    /// Takes the code that the key or update callback returned. A valid code
    /// becomes the state; an invalid one is handed back as an error and
    /// changes nothing.
    pub fn adopt(&mut self, code: u32) -> (r: Result<ReturnCode, InvalidCode>)
        ensures
            r is Ok <==> code <= 2,
            r is Ok ==> decode_spec(code) == Some(r->Ok_0),
            r is Err ==> r->Err_0 == (InvalidCode { code }),
            final(self).flow == next_flow(old(self).flow, code),
            final(self).destroyed == old(self).destroyed,
    {
        let r = ReturnCode::decode(code);
        match r {
            Ok(rc) => {
                self.flow = rc;
            },
            Err(_) => {},
        }
        r
    }

    /// What the loop does once the current event is handled.
    pub fn flow(&self) -> (r: ReturnCode)
        ensures
            r == self.flow,
    {
        self.flow
    }
}

/// In a running loop, each event up to and including the first `LoopDestroyed`
/// calls the callback of its kind, in the order the events come.
pub proof fn lemma_callbacks_follow_events(d: Dispatcher, events: Seq<LoopEvent>)
    requires
        !d.destroyed,
        forall|i: int| 0 <= i < events.len() - 1 ==> #[trigger] events[i] != LoopEvent::LoopDestroyed,
    ensures
        callbacks_of(d, events).len() == events.len(),
        forall|i: int|
            0 <= i < events.len() ==> #[trigger] callbacks_of(d, events)[i] == callback_for(events[i]),
    decreases events.len(),
{
    lemma_teardown_once(d, events);
    if events.len() > 0 {
        let d2 = begin_spec(d, events[0]);
        let rest = events.drop_first();
        let cs = callbacks_of(d, events);
        if events.len() > 1 {
            assert(events[0] != LoopEvent::LoopDestroyed);
            assert forall|i: int| 0 <= i < rest.len() - 1 implies #[trigger] rest[i]
                != LoopEvent::LoopDestroyed by {
                assert(rest[i] == events[i + 1]);
            }
            lemma_callbacks_follow_events(d2, rest);
        }
        assert forall|i: int| 0 <= i < events.len() implies #[trigger] cs[i] == callback_for(
            events[i],
        ) by {
            if i > 0 {
                assert(cs[i] == callbacks_of(d2, rest)[i - 1]);
                assert(rest[i - 1] == events[i]);
            }
        }
    }
}

/// Whatever the events, the teardown callback is called at most once, and
/// after it no callback is called; once the loop has stopped, nothing is called.
pub proof fn lemma_teardown_once(d: Dispatcher, events: Seq<LoopEvent>)
    ensures
        callbacks_of(d, events).len() == events.len(),
        forall|i: int, j: int|
            0 <= i < j < events.len() && #[trigger] callbacks_of(d, events)[i] == Callback::Exit
                ==> #[trigger] callbacks_of(d, events)[j] == Callback::Nothing,
        d.destroyed ==> forall|i: int|
            0 <= i < events.len() ==> #[trigger] callbacks_of(d, events)[i] == Callback::Nothing,
    decreases events.len(),
{
    if events.len() > 0 {
        let d2 = begin_spec(d, events[0]);
        let rest = events.drop_first();
        lemma_teardown_once(d2, rest);
        let cs = callbacks_of(d, events);
        assert(cs == seq![callback_in(d, events[0])] + callbacks_of(d2, rest));
        assert forall|i: int, j: int|
            0 <= i < j < events.len() && #[trigger] cs[i] == Callback::Exit implies #[trigger] cs[j]
            == Callback::Nothing by {
            if i == 0 {
                assert(d2.destroyed);
                assert(cs[j] == callbacks_of(d2, rest)[j - 1]);
            } else {
                assert(cs[i] == callbacks_of(d2, rest)[i - 1]);
                assert(cs[j] == callbacks_of(d2, rest)[j - 1]);
            }
        }
        if d.destroyed {
            assert forall|i: int| 0 <= i < events.len() implies #[trigger] cs[i]
                == Callback::Nothing by {
                if i > 0 {
                    assert(cs[i] == callbacks_of(d2, rest)[i - 1]);
                }
            }
        }
    }
}

} // verus!
