//! The input event source: raw key and mouse signals become a strictly
//! alternating stream of trigger-pressed and trigger-released events.
//!
//! Triggers: the extra mouse buttons 3, 4, 5, 6 and 8 (press and release);
//! the right Option key (press, then release, or a second press); the
//! gesture button, which reports only activations as a key press of its own,
//! so that successive activations toggle, with a press of `A` accepted as
//! its release.

use vstd::prelude::*;

verus! {

#[verifier::external_type_specification]
#[verifier::external_body]
#[verifier::reject_recursive_types(T)]
pub struct ExReceiver<T>(std::sync::mpsc::Receiver<T>);

/// A logical trigger event.
#[derive(Debug, Clone, Copy, PartialEq, Eq, Structural)]
pub enum InputEvent {
    TriggerPressed,
    TriggerReleased,
}

/// The keys that the listener tells apart.
#[derive(Debug, Clone, Copy, PartialEq, Eq, Structural)]
pub enum Key {
    /// The right Option (AltGr) key.
    RightAlt,
    /// The key code that a gesture button sends when activated.
    Gesture,
    /// The `A` key, which a gesture button may send on release.
    A,
    Other,
}

/// A mouse button: `Extra(n)` for a button beyond the standard three.
#[derive(Debug, Clone, Copy, PartialEq, Eq, Structural)]
pub enum Button {
    Extra(u8),
    Standard,
}

/// A raw hardware signal.
#[derive(Debug, Clone, Copy, PartialEq, Eq, Structural)]
pub enum RawSignal {
    ButtonPress(Button),
    ButtonRelease(Button),
    KeyPress(Key),
    KeyRelease(Key),
}

pub open spec fn is_trigger_button(b: Button) -> bool {
    match b {
        Button::Extra(n) => n == 3 || n == 4 || n == 5 || n == 6 || n == 8,
        Button::Standard => false,
    }
}

/// The latch after `sig` when it was `pressed` before, and the event that
/// `sig` yields, if any.
pub open spec fn latch_step(pressed: bool, sig: RawSignal) -> (bool, Option<InputEvent>) {
    match sig {
        RawSignal::ButtonPress(b) => if is_trigger_button(b) && !pressed {
            (true, Some(InputEvent::TriggerPressed))
        } else {
            (pressed, None)
        },
        RawSignal::ButtonRelease(b) => if is_trigger_button(b) && pressed {
            (false, Some(InputEvent::TriggerReleased))
        } else {
            (pressed, None)
        },
        RawSignal::KeyPress(k) => if k == Key::RightAlt || k == Key::Gesture {
            if pressed {
                (false, Some(InputEvent::TriggerReleased))
            } else {
                (true, Some(InputEvent::TriggerPressed))
            }
        } else if k == Key::A && pressed {
            (false, Some(InputEvent::TriggerReleased))
        } else {
            (pressed, None)
        },
        RawSignal::KeyRelease(k) => if (k == Key::RightAlt || k == Key::Gesture) && pressed {
            (false, Some(InputEvent::TriggerReleased))
        } else {
            (pressed, None)
        },
    }
}

/// The latch and the events after `signals`, starting from `pressed`.
pub open spec fn run_latch(pressed: bool, signals: Seq<RawSignal>) -> (bool, Seq<InputEvent>)
    decreases signals.len(),
{
    if signals.len() == 0 {
        (pressed, Seq::empty())
    } else {
        let (p, evs) = run_latch(pressed, signals.drop_last());
        let (q, e) = latch_step(p, signals.last());
        match e {
            Some(ev) => (q, evs.push(ev)),
            None => (q, evs),
        }
    }
}

/// The `k`-th event of a well-formed stream.
pub open spec fn alternating(k: int) -> InputEvent {
    if k % 2 == 0 {
        InputEvent::TriggerPressed
    } else {
        InputEvent::TriggerReleased
    }
}

/// Whatever the hardware sends, the events start with a press and then
/// alternate, so a release never comes without a press before it; the latch
/// is set exactly when a press is still open.
pub proof fn lemma_events_alternate(signals: Seq<RawSignal>)
    ensures
        forall|k: int|
            0 <= k < run_latch(false, signals).1.len() ==> run_latch(false, signals).1[k]
                == alternating(k),
        run_latch(false, signals).0 == (run_latch(false, signals).1.len() % 2 == 1),
    decreases signals.len(),
{
    if signals.len() > 0 {
        lemma_events_alternate(signals.drop_last());
    }
}

/// Debounces raw signals into trigger events: remembers whether a press is
/// open.
pub struct TriggerLatch {
    pressed: bool,
}

impl TriggerLatch {
    pub fn new() -> (r: TriggerLatch)
        ensures
            !r.is_pressed_spec(),
    {
        TriggerLatch { pressed: false }
    }

    pub closed spec fn is_pressed_spec(&self) -> bool {
        self.pressed
    }

    #[verifier::when_used_as_spec(is_pressed_spec)]
    pub fn is_pressed(&self) -> (r: bool)
        ensures
            r == self.is_pressed_spec(),
    {
        self.pressed
    }

    /// Takes one raw signal and returns the trigger event it stands for, if
    /// any.
    pub fn observe(&mut self, sig: RawSignal) -> (r: Option<InputEvent>)
        ensures
            (final(self).is_pressed(), r) == latch_step(old(self).is_pressed(), sig),
    {
        let pressed = self.pressed;
        let (next, event) = match sig {
            RawSignal::ButtonPress(b) => if trigger_button(b) && !pressed {
                (true, Some(InputEvent::TriggerPressed))
            } else {
                (pressed, None)
            },
            RawSignal::ButtonRelease(b) => if trigger_button(b) && pressed {
                (false, Some(InputEvent::TriggerReleased))
            } else {
                (pressed, None)
            },
            RawSignal::KeyPress(k) => if k == Key::RightAlt || k == Key::Gesture {
                if pressed {
                    (false, Some(InputEvent::TriggerReleased))
                } else {
                    (true, Some(InputEvent::TriggerPressed))
                }
            } else if k == Key::A && pressed {
                (false, Some(InputEvent::TriggerReleased))
            } else {
                (pressed, None)
            },
            RawSignal::KeyRelease(k) => if (k == Key::RightAlt || k == Key::Gesture) && pressed {
                (false, Some(InputEvent::TriggerReleased))
            } else {
                (pressed, None)
            },
        };
        self.pressed = next;
        event
    }
}

/// Whether `b` is one of the mouse buttons that act as the trigger.
pub fn trigger_button(b: Button) -> (r: bool)
    ensures
        r == is_trigger_button(b),
{
    match b {
        Button::Extra(n) => n == 3 || n == 4 || n == 5 || n == 6 || n == 8,
        Button::Standard => false,
    }
}

/// Relies on `std::sync::mpsc::Receiver::try_recv`: returns a pending
/// signal without waiting, or nothing. What arrives is up to the listener
/// thread.
#[verifier::external_body]
fn poll_signal(rx: &std::sync::mpsc::Receiver<RawSignal>) -> Option<RawSignal> {
    rx.try_recv().ok()
}

/// The consumer's end of the input event source: raw signals arrive from the
/// listener thread over a channel, and the latch turns them into events.
pub struct InputMonitor {
    signals: std::sync::mpsc::Receiver<RawSignal>,
    latch: TriggerLatch,
}

impl InputMonitor {
    /// A monitor that reads the signals that the listener sends into the
    /// channel whose receiving end is `signals`; no press is open.
    pub fn with_receiver(signals: std::sync::mpsc::Receiver<RawSignal>) -> (r: InputMonitor)
        ensures
            !r.is_pressed_spec(),
    {
        InputMonitor { signals, latch: TriggerLatch::new() }
    }

    pub closed spec fn is_pressed_spec(&self) -> bool {
        self.latch.is_pressed()
    }

    /// Whether a press is open.
    #[verifier::when_used_as_spec(is_pressed_spec)]
    pub fn is_pressed(&self) -> (r: bool)
        ensures
            r == self.is_pressed_spec(),
    {
        self.latch.is_pressed()
    }

    /// Polls without blocking: takes at most one pending raw signal and
    /// returns the event it stands for. Presses and releases alternate.
    pub fn try_recv(&mut self) -> (r: Option<InputEvent>)
        ensures
            r is None ==> final(self).is_pressed() == old(self).is_pressed(),
            r == Some(InputEvent::TriggerPressed) ==> !old(self).is_pressed()
                && final(self).is_pressed(),
            r == Some(InputEvent::TriggerReleased) ==> old(self).is_pressed()
                && !final(self).is_pressed(),
            (r is None && final(self).is_pressed() == old(self).is_pressed()) || exists|
                sig: RawSignal,
            | latch_step(old(self).is_pressed(), sig) == (final(self).is_pressed(), r),
    {
        let ghost before = self.latch.is_pressed();
        match poll_signal(&self.signals) {
            Some(sig) => {
                let r = self.latch.observe(sig);
                assert(latch_step(before, sig) == (self.latch.is_pressed(), r));
                r
            },
            None => None,
        }
    }
}

} // verus!
