//! The popup scheduler: a queue of texts shown one at a time.
//!
//! The scheduler is either waiting or showing. Each time the timer it asked
//! for has elapsed it is run once: while waiting it takes the oldest text, if
//! there is one, and shows it; while showing it hides the text again.

use crate::events::all_are;
use crate::events::EventBus;
use crate::events::EventType;
use std::collections::VecDeque;
use vstd::prelude::*;
use vstd::string::*;

verus! {

/// What the scheduler announces on a step.
#[derive(Debug, PartialEq, Eq)]
pub enum PopupEvent {
    /// A popup with this text is to be shown.
    Show(String),
    /// The popup on screen is to be hidden.
    Hide,
}

/// A `PopupEvent` as a mathematical value.
pub enum PopupSignal {
    Show(Seq<char>),
    Hide,
}

impl View for PopupEvent {
    type V = PopupSignal;

    open spec fn view(&self) -> PopupSignal {
        match self {
            PopupEvent::Show(text) => PopupSignal::Show(text@),
            PopupEvent::Hide => PopupSignal::Hide,
        }
    }
}

/// What can happen to the scheduler.
pub enum PopupInput {
    /// A text is added to the queue.
    Add(Seq<char>),
    /// The timer that the scheduler waited for has elapsed.
    Tick,
}

/// The scheduler as a mathematical value.
pub struct PopupState {
    /// The texts that wait to be shown, oldest first.
    pub queue: Seq<Seq<char>>,
    /// Whether a popup is on screen.
    pub showing: bool,
}

/// The state in which a scheduler starts: waiting, with nothing queued.
pub open spec fn initial_state() -> PopupState {
    PopupState { queue: Seq::empty(), showing: false }
}

/// The state after one input, and the event announced on it.
pub open spec fn apply(state: PopupState, input: PopupInput) -> (PopupState, Option<PopupSignal>) {
    match input {
        PopupInput::Add(text) => (
            PopupState { queue: state.queue.push(text), showing: state.showing },
            None,
        ),
        PopupInput::Tick => if state.showing {
            (PopupState { queue: state.queue, showing: false }, Some(PopupSignal::Hide))
        } else if state.queue.len() == 0 {
            (state, None)
        } else {
            (
                PopupState { queue: state.queue.skip(1), showing: true },
                Some(PopupSignal::Show(state.queue[0])),
            )
        },
    }
}

/// The state after a sequence of inputs to a fresh scheduler, and the events
/// announced on the way.
pub open spec fn run_inputs(inputs: Seq<PopupInput>) -> (PopupState, Seq<PopupSignal>)
    decreases inputs.len(),
{
    if inputs.len() == 0 {
        (initial_state(), Seq::empty())
    } else {
        let (state, events) = run_inputs(inputs.drop_last());
        let (next, event) = apply(state, inputs.last());
        match event {
            Some(e) => (next, events.push(e)),
            None => (next, events),
        }
    }
}

/// The texts added by a sequence of inputs, in the order of the calls.
pub open spec fn added(inputs: Seq<PopupInput>) -> Seq<Seq<char>>
    decreases inputs.len(),
{
    if inputs.len() == 0 {
        Seq::empty()
    } else {
        match inputs.last() {
            PopupInput::Add(text) => added(inputs.drop_last()).push(text),
            PopupInput::Tick => added(inputs.drop_last()),
        }
    }
}

/// The texts shown by a sequence of events, in the order of the events.
pub open spec fn shown(events: Seq<PopupSignal>) -> Seq<Seq<char>>
    decreases events.len(),
{
    if events.len() == 0 {
        Seq::empty()
    } else {
        match events.last() {
            PopupSignal::Show(text) => shown(events.drop_last()).push(text),
            PopupSignal::Hide => shown(events.drop_last()),
        }
    }
}

/// Popups are shown in the order in which they were added, and each is hidden
/// before the next is shown.
///
/// Whatever additions and timer ticks a fresh scheduler has seen: the texts
/// shown so far, followed by those still queued, are the texts added, in the
/// order of the additions; its events are a show, a hide, a show, a hide and
/// so on; and it is showing exactly when the last event was a show.
pub proof fn lemma_fifo_alternation(inputs: Seq<PopupInput>)
    ensures
        shown(run_inputs(inputs).1) + run_inputs(inputs).0.queue == added(inputs),
        forall|i: int|
            0 <= i < run_inputs(inputs).1.len() ==> ((#[trigger] run_inputs(inputs).1[i]
                is Show) <==> i % 2 == 0),
        run_inputs(inputs).0.showing <==> run_inputs(inputs).1.len() % 2 == 1,
    decreases inputs.len(),
{
    if inputs.len() == 0 {
        assert(shown(run_inputs(inputs).1) + run_inputs(inputs).0.queue =~= added(inputs));
    } else {
        let rest = inputs.drop_last();
        lemma_fifo_alternation(rest);
        let (state, events) = run_inputs(rest);
        let (next, event) = apply(state, inputs.last());
        let after = run_inputs(inputs).1;
        match event {
            Some(e) => {
                assert(after == events.push(e));
                assert(after.drop_last() =~= events);
                assert(after.last() == e);
                assert forall|i: int| 0 <= i < after.len() implies ((#[trigger] after[i] is Show)
                    <==> i % 2 == 0) by {
                    if i < events.len() {
                        assert(after[i] == events[i]);
                    }
                }
                match e {
                    PopupSignal::Show(text) => {
                        assert(state.queue =~= seq![text] + next.queue);
                        assert(shown(after) + next.queue =~= shown(events) + state.queue);
                    },
                    PopupSignal::Hide => {},
                }
            },
            None => {
                match inputs.last() {
                    PopupInput::Add(text) => {
                        assert(shown(after) + next.queue =~= (shown(events) + state.queue).push(
                            text,
                        ));
                    },
                    PopupInput::Tick => {},
                }
            },
        }
    }
}

/// The texts of a queue of strings.
pub open spec fn texts(queue: Seq<String>) -> Seq<Seq<char>> {
    queue.map_values(|s: String| s@)
}

/// The popup scheduler.
pub struct Popups {
    popups: VecDeque<String>,
    showing: bool,
    show_seconds: u64,
    wait_seconds: u64,
}

impl Popups {
    /// The queue and the phase of the scheduler.
    pub closed spec fn state(&self) -> PopupState {
        PopupState { queue: texts(self.popups@), showing: self.showing }
    }

    /// Seconds a popup stays on screen.
    pub closed spec fn show_seconds(&self) -> u64 {
        self.show_seconds
    }

    /// Seconds between hiding one popup and looking for the next.
    pub closed spec fn wait_seconds(&self) -> u64 {
        self.wait_seconds
    }

    /// Creates a waiting scheduler with an empty queue.
    pub fn new(show_seconds: u64, wait_seconds: u64) -> (popups: Popups)
        ensures
            popups.state() == initial_state(),
            popups.show_seconds() == show_seconds,
            popups.wait_seconds() == wait_seconds,
    {
        let popups = Popups { popups: VecDeque::new(), showing: false, show_seconds, wait_seconds };
        assert(popups.state().queue =~= Seq::empty());
        popups
    }

    /// Appends a text to the back of the queue.
    pub fn add_popup(&mut self, popup: String)
        ensures
            final(self).state() == apply(old(self).state(), PopupInput::Add(popup@)).0,
            final(self).show_seconds() == old(self).show_seconds(),
            final(self).wait_seconds() == old(self).wait_seconds(),
    {
        self.popups.push_back(popup);
        assert(texts(self.popups@) =~= texts(old(self).popups@).push(popup@));
    }

    /// Replaces the time a popup stays on screen.
    pub fn set_show_timeout(&mut self, seconds: u64)
        ensures
            final(self).show_seconds() == seconds,
            final(self).wait_seconds() == old(self).wait_seconds(),
            final(self).state() == old(self).state(),
    {
        self.show_seconds = seconds;
    }

    /// Replaces the time between two popups.
    pub fn set_wait_timeout(&mut self, seconds: u64)
        ensures
            final(self).wait_seconds() == seconds,
            final(self).show_seconds() == old(self).show_seconds(),
            final(self).state() == old(self).state(),
    {
        self.wait_seconds = seconds;
    }

    /// Seconds to let pass before the next step: the show time while a popup
    /// is on screen, the wait time otherwise.
    pub fn next_timeout(&self) -> (seconds: u64)
        ensures
            seconds == if self.state().showing {
                self.show_seconds()
            } else {
                self.wait_seconds()
            },
    {
        if self.showing {
            self.show_seconds
        } else {
            self.wait_seconds
        }
    }

    /// Whether a popup is on screen.
    pub fn is_showing(&self) -> (showing: bool)
        ensures
            showing == self.state().showing,
    {
        self.showing
    }

    /// The number of texts that wait to be shown.
    pub fn pending(&self) -> (n: usize)
        ensures
            n == self.state().queue.len(),
    {
        self.popups.len()
    }

    /// Takes one step after the awaited timer has elapsed, and returns the
    /// event to announce, if any.
    pub fn step(&mut self) -> (event: Option<PopupEvent>)
        ensures
            final(self).state() == apply(old(self).state(), PopupInput::Tick).0,
            (match event {
                Some(e) => Some(e@),
                None => None,
            }) == apply(old(self).state(), PopupInput::Tick).1,
            final(self).show_seconds() == old(self).show_seconds(),
            final(self).wait_seconds() == old(self).wait_seconds(),
    {
        if self.showing {
            self.showing = false;
            Some(PopupEvent::Hide)
        } else {
            match self.popups.pop_front() {
                Some(text) => {
                    self.showing = true;
                    assert(texts(self.popups@) =~= texts(old(self).popups@).skip(1));
                    Some(PopupEvent::Show(text))
                },
                None => None,
            }
        }
    }

    /// Takes one step after the awaited timer has elapsed and publishes its
    /// event on the bus: the payload made for every subscriber of popups to
    /// show is the text, that for every subscriber of popups to hide is empty. A step
    /// without an event leaves the bus as it is. What the bus answers is
    /// ignored.
    pub fn run(&mut self, bus: &mut EventBus) -> (event: Option<PopupEvent>)
        ensures
            final(self).state() == apply(old(self).state(), PopupInput::Tick).0,
            (match event {
                Some(e) => Some(e@),
                None => None,
            }) == apply(old(self).state(), PopupInput::Tick).1,
            final(self).show_seconds() == old(self).show_seconds(),
            final(self).wait_seconds() == old(self).wait_seconds(),
            (match event {
                Some(PopupEvent::Show(text)) => final(bus).after_publish(
                    *old(bus),
                    EventType::PopupShow,
                ) && all_are(final(bus).last_payloads(), text@),
                Some(PopupEvent::Hide) => final(bus).after_publish(*old(bus), EventType::PopupHide)
                    && all_are(final(bus).last_payloads(), Seq::empty()),
                None => *final(bus) == *old(bus),
            }),
    {
        let event = self.step();
        match &event {
            Some(PopupEvent::Show(text)) => {
                let payload = |_ordinal: usize| -> (s: String)
                    ensures
                        s@ == text@,
                    { text.clone() };
                let _ = bus.publish(EventType::PopupShow, payload);
            },
            Some(PopupEvent::Hide) => {
                let payload = |_ordinal: usize| -> (s: String)
                    ensures
                        s@ == Seq::<char>::empty(),
                    { String::new() };
                let _ = bus.publish(EventType::PopupHide, payload);
            },
            None => {},
        }
        event
    }
}

} // verus!
