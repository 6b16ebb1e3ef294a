use vstd::prelude::*;
use crate::button::{button_label, button_name, label_view, Press};
use crate::keys::{key_name, resolved_key};

verus! {

/// An input event, reduced to what the monitor reads of it. Pointer motion
/// is not among them: its coordinates are fractional and stay with the
/// caller.
#[derive(Clone, Copy, Debug, PartialEq, Eq, Structural)]
pub enum Event {
    DeviceAdded,
    DeviceRemoved,
    DeviceOther,
    Key { code: u32, press: Press },
    KeyboardOther,
    Button { code: u32, press: Press },
    Tablet,
    Switch,
    Other,
}

/// What the monitor reports of one event.
#[derive(Clone, Copy, Debug, PartialEq, Eq)]
pub enum Report {
    DeviceAdded,
    DeviceRemoved,
    DeviceOther,
    /// A key went down: its code, its label and the presses counted so far.
    KeyPress { code: u32, label: &'static str, total: u64 },
    /// A key went up: its code and its label.
    KeyRelease { code: u32, label: &'static str },
    KeyboardOther,
    /// A pointer button went down: its code, its common name if it has one,
    /// and the clicks counted so far.
    ButtonPress { code: u32, name: Option<&'static str>, total: u64 },
    /// A pointer button went up: its code and its common name if it has one.
    ButtonRelease { code: u32, name: Option<&'static str> },
    Tablet,
    Switch,
    Other,
}

/// The counters of a session: key presses and pointer clicks.
pub struct Counts {
    pub key_presses: nat,
    pub mouse_clicks: nat,
}

/// Whether an event is a key press.
pub open spec fn is_key_press(e: Event) -> bool {
    e matches Event::Key { press: Press::Pressed, .. }
}

/// Whether an event is a pointer-button press.
pub open spec fn is_click(e: Event) -> bool {
    e matches Event::Button { press: Press::Pressed, .. }
}

/// The counters after one event: each press adds one to its counter.
pub open spec fn step(c: Counts, e: Event) -> Counts {
    Counts {
        key_presses: if is_key_press(e) { c.key_presses + 1 } else { c.key_presses },
        mouse_clicks: if is_click(e) { c.mouse_clicks + 1 } else { c.mouse_clicks },
    }
}

/// The counters after a sequence of events, handled in order.
pub open spec fn run(c: Counts, events: Seq<Event>) -> Counts
    decreases events.len(),
{
    if events.len() == 0 {
        c
    } else {
        step(run(c, events.drop_last()), events.last())
    }
}

/// The number of key presses in a sequence of events.
pub open spec fn key_presses_in(events: Seq<Event>) -> nat
    decreases events.len(),
{
    if events.len() == 0 {
        0
    } else {
        key_presses_in(events.drop_last()) + if is_key_press(events.last()) { 1nat } else { 0 }
    }
}

/// The number of pointer-button presses in a sequence of events.
pub open spec fn clicks_in(events: Seq<Event>) -> nat
    decreases events.len(),
{
    if events.len() == 0 {
        0
    } else {
        clicks_in(events.drop_last()) + if is_click(events.last()) { 1nat } else { 0 }
    }
}

/// The running state of a monitoring session.
pub struct Monitor {
    key_presses: u64,
    mouse_clicks: u64,
}

impl View for Monitor {
    type V = Counts;

    closed spec fn view(&self) -> Counts {
        Counts { key_presses: self.key_presses as nat, mouse_clicks: self.mouse_clicks as nat }
    }
}

impl Monitor {
    /// A session that has counted nothing yet.
    pub fn new() -> (r: Monitor)
        ensures
            r@ == (Counts { key_presses: 0, mouse_clicks: 0 }),
    {
        Monitor { key_presses: 0, mouse_clicks: 0 }
    }

    /// The key presses counted so far.
    pub fn key_presses(&self) -> (r: u64)
        ensures
            r == self@.key_presses,
    {
        self.key_presses
    }

    /// The pointer-button presses counted so far.
    pub fn mouse_clicks(&self) -> (r: u64)
        ensures
            r == self@.mouse_clicks,
    {
        self.mouse_clicks
    }

    /// Whether both counters can still take one more press.
    pub open spec fn has_room(&self) -> bool {
        self@.key_presses < u64::MAX && self@.mouse_clicks < u64::MAX
    }

    /// Handles one event: counts it if it is a press, and says what to report
    /// of it.
    pub fn handle(&mut self, event: Event) -> (r: Report)
        requires
            old(self).has_room(),
        ensures
            final(self)@ == step(old(self)@, event),
            match event {
                Event::DeviceAdded => r == Report::DeviceAdded,
                Event::DeviceRemoved => r == Report::DeviceRemoved,
                Event::DeviceOther => r == Report::DeviceOther,
                Event::Key { code, press: Press::Pressed } => r matches Report::KeyPress {
                    code: c,
                    label,
                    total,
                } && c == code && label@ == resolved_key(code) && total
                    == final(self)@.key_presses,
                Event::Key { code, press: Press::Released } => r matches Report::KeyRelease {
                    code: c,
                    label,
                } && c == code && label@ == resolved_key(code),
                Event::KeyboardOther => r == Report::KeyboardOther,
                Event::Button { code, press: Press::Pressed } => r matches Report::ButtonPress {
                    code: c,
                    name,
                    total,
                } && c == code && label_view(name) == button_label(code) && total
                    == final(self)@.mouse_clicks,
                Event::Button { code, press: Press::Released } => r matches Report::ButtonRelease {
                    code: c,
                    name,
                } && c == code && label_view(name) == button_label(code),
                Event::Tablet => r == Report::Tablet,
                Event::Switch => r == Report::Switch,
                Event::Other => r == Report::Other,
            },
    {
        match event {
            Event::DeviceAdded => Report::DeviceAdded,
            Event::DeviceRemoved => Report::DeviceRemoved,
            Event::DeviceOther => Report::DeviceOther,
            Event::Key { code, press } => {
                let label = key_name(code);
                match press {
                    Press::Pressed => {
                        self.key_presses = self.key_presses + 1;
                        Report::KeyPress { code, label, total: self.key_presses }
                    },
                    Press::Released => Report::KeyRelease { code, label },
                }
            },
            Event::KeyboardOther => Report::KeyboardOther,
            Event::Button { code, press } => {
                let name = button_name(code);
                match press {
                    Press::Pressed => {
                        self.mouse_clicks = self.mouse_clicks + 1;
                        Report::ButtonPress { code, name, total: self.mouse_clicks }
                    },
                    Press::Released => Report::ButtonRelease { code, name },
                }
            },
            Event::Tablet => Report::Tablet,
            Event::Switch => Report::Switch,
            Event::Other => Report::Other,
        }
    }
}


/// Handling a sequence of events adds to each counter exactly the number of
/// presses of its kind in the sequence.
pub proof fn counters_count_presses(c: Counts, events: Seq<Event>)
    ensures
        run(c, events).key_presses == c.key_presses + key_presses_in(events),
        run(c, events).mouse_clicks == c.mouse_clicks + clicks_in(events),
    decreases events.len(),
{
    if events.len() > 0 {
        counters_count_presses(c, events.drop_last());
    }
}

/// Along a sequence of events the counters never decrease, and each event
/// adds one to the counter of its kind if it is a press, and nothing else.
pub proof fn counters_never_decrease(c: Counts, events: Seq<Event>, i: int, j: int)
    requires
        0 <= i <= j <= events.len(),
    ensures
        run(c, events.take(i)).key_presses <= run(c, events.take(j)).key_presses,
        run(c, events.take(i)).mouse_clicks <= run(c, events.take(j)).mouse_clicks,
        j > 0 ==> run(c, events.take(j)).key_presses == run(c, events.take(j - 1)).key_presses
            + if is_key_press(events[j - 1]) { 1nat } else { 0 },
        j > 0 ==> run(c, events.take(j)).mouse_clicks == run(c, events.take(j - 1)).mouse_clicks
            + if is_click(events[j - 1]) { 1nat } else { 0 },
    decreases j - i,
{
    if j > 0 {
        assert(events.take(j).drop_last() =~= events.take(j - 1));
        assert(events.take(j).last() == events[j - 1]);
    }
    if i < j {
        counters_never_decrease(c, events, i, j - 1);
    }
}

} // verus!
