//! The root component: one button, one line of text, and the state that
//! decides what the line shows.
//!
//! The component owns four values: the outcome of the last remote call that
//! settled, whether a call is in flight, a counter, and the text on display.
//! A render pass recomputes the text from the outcome; while there is no
//! outcome it shows a placeholder that embeds the counter and counts one up.

use crate::decimal::{decimal, push_decimal};
use crate::remote::{debug_text, outcome_view, RemoteError, RemoteErrorView};
use vstd::prelude::*;
use vstd::string::StringExecFns;

verus! {

/// What the component is waiting for.
#[derive(Clone, Copy, Debug, PartialEq, Eq, Structural)]
pub enum Phase {
    /// No call has settled and none is in flight.
    Idle,
    /// A call is in flight.
    Pending,
    /// The last call has settled, with a greeting or with an error.
    Resolved,
}

/// What happened to the component.
#[derive(Debug, PartialEq, Eq)]
pub enum Event {
    /// The scheduler asks for a render pass.
    Render,
    /// The button was clicked.
    Click,
    /// The remote call settled with this outcome.
    Settled(Result<String, RemoteError>),
}

/// What the component asks its host to do after an event.
#[derive(Clone, Copy, Debug, PartialEq, Eq, Structural)]
pub enum Action {
    /// Nothing.
    Stay,
    /// Call the greeting endpoint and report back with [`Event::Settled`].
    Dispatch,
}

/// The state of the root component.
#[derive(Debug, PartialEq, Eq)]
pub struct AppState {
    /// The outcome of the last remote call that settled, if any did.
    pub result: Option<Result<String, RemoteError>>,
    /// Whether a remote call is in flight.
    pub pending: bool,
    /// The number of render passes made without an outcome.
    pub counter: i32,
    /// The text on display.
    pub text: String,
}

/// The mathematical value of an [`AppState`].
pub struct AppModel {
    pub result: Option<Result<Seq<char>, RemoteErrorView>>,
    pub pending: bool,
    pub counter: int,
    pub text: Seq<char>,
}

/// The mathematical value of an event: its kind, and for a settled call the
/// value of the outcome.
pub enum EventView {
    Render,
    Click,
    Settled(Result<Seq<char>, RemoteErrorView>),
}

impl View for Event {
    type V = EventView;

    open spec fn view(&self) -> EventView {
        match self {
            Event::Render => EventView::Render,
            Event::Click => EventView::Click,
            Event::Settled(outcome) => EventView::Settled(outcome_view(*outcome)),
        }
    }
}

impl View for AppState {
    type V = AppModel;

    open spec fn view(&self) -> AppModel {
        AppModel {
            result: match self.result {
                Some(outcome) => Some(outcome_view(outcome)),
                None => None,
            },
            pending: self.pending,
            counter: self.counter as int,
            text: self.text@,
        }
    }
}

/// The state of a component that was just mounted.
pub open spec fn initial() -> AppModel {
    AppModel { result: None, pending: false, counter: 0, text: Seq::empty() }
}

/// The placeholder shown while there is no outcome: `WUT`, then the counter
/// in decimal.
pub open spec fn placeholder(counter: int) -> Seq<char> {
    "WUT"@ + decimal(counter)
}

/// The text that stands for a settled call: the greeting as it came, or the
/// error in its debug format.
pub open spec fn settled_text(outcome: Result<Seq<char>, RemoteErrorView>) -> Seq<char> {
    match outcome {
        Ok(text) => text,
        Err(err) => debug_text(err),
    }
}

/// One render pass. With an outcome, the text becomes the text of that
/// outcome and nothing else changes. Without one, the text becomes the
/// placeholder for the current counter and the counter goes up by one.
pub open spec fn render_pass(m: AppModel) -> AppModel {
    match m.result {
        Some(outcome) => AppModel { text: settled_text(outcome), ..m },
        None => AppModel { counter: m.counter + 1, text: placeholder(m.counter), ..m },
    }
}

/// A click on the button: a call is now in flight. The outcome of an earlier
/// call, the counter and the text stay as they are.
pub open spec fn click(m: AppModel) -> AppModel {
    AppModel { pending: true, ..m }
}

/// A remote call settles: its outcome is stored, nothing is in flight any
/// more, and a render pass follows at once.
pub open spec fn settle(m: AppModel, outcome: Result<Seq<char>, RemoteErrorView>) -> AppModel {
    render_pass(AppModel { result: Some(outcome), pending: false, ..m })
}

/// The state after an event.
pub open spec fn step(m: AppModel, event: EventView) -> AppModel {
    match event {
        EventView::Render => render_pass(m),
        EventView::Click => click(m),
        EventView::Settled(outcome) => settle(m, outcome),
    }
}

/// What the host has to do after an event: dispatch the remote call after a
/// click, nothing otherwise.
pub open spec fn action_for(event: EventView) -> Action {
    match event {
        EventView::Click => Action::Dispatch,
        _ => Action::Stay,
    }
}

/// Whether a render pass can count up without leaving the counter's range.
/// It always can once an outcome is stored, since the counter then rests.
pub open spec fn can_render(m: AppModel) -> bool {
    m.result is None ==> m.counter < i32::MAX
}

/// Whether the state can take the event: a render pass must be able to count.
/// Clicks and settled calls are always taken.
pub open spec fn can_step(m: AppModel, event: EventView) -> bool {
    event is Render ==> can_render(m)
}

/// The phase of a state: pending while a call is in flight, else resolved
/// once an outcome is stored, else idle.
pub open spec fn phase_of(m: AppModel) -> Phase {
    if m.pending {
        Phase::Pending
    } else if m.result is Some {
        Phase::Resolved
    } else {
        Phase::Idle
    }
}

impl AppState {
    /// The state of a component that was just mounted: no outcome, nothing
    /// in flight, the counter at zero, no text.
    pub fn new() -> (state: AppState)
        ensures
            state@ == initial(),
    {
        AppState { result: None, pending: false, counter: 0, text: String::new() }
    }

    /// The phase the component is in.
    pub fn phase(&self) -> (phase: Phase)
        ensures
            phase == phase_of(self@),
    {
        if self.pending {
            Phase::Pending
        } else if self.result.is_some() {
            Phase::Resolved
        } else {
            Phase::Idle
        }
    }

    /// Whether a render pass is possible: without an outcome the counter
    /// must have room to go up by one.
    pub fn can_render(&self) -> (ok: bool)
        ensures
            ok == can_render(self@),
    {
        self.result.is_some() || self.counter < i32::MAX
    }

    /// Whether the state can take the event.
    pub fn can_step(&self, event: &Event) -> (ok: bool)
        ensures
            ok == can_step(self@, event@),
    {
        match event {
            Event::Render => self.can_render(),
            _ => true,
        }
    }

    /// Makes one render pass.
    ///
    /// Without an outcome the counter goes up by one, so it must be below
    /// the largest `i32`.
    pub fn render(&mut self)
        requires
            can_render(old(self)@),
        ensures
            final(self)@ == render_pass(old(self)@),
    {
        match &self.result {
            Some(Ok(greeting)) => {
                self.text = greeting.clone();
            },
            Some(Err(err)) => {
                self.text = err.debug_string();
            },
            None => {
                let n: i32 = self.counter;
                let mut text = String::from_str("WUT");
                push_decimal(&mut text, n);
                self.counter = n + 1;
                self.text = text;
            },
        }
    }

    /// Takes a click on the button and says what the host has to do: dispatch
    /// the remote call.
    pub fn click(&mut self) -> (action: Action)
        ensures
            final(self)@ == click(old(self)@),
            action == Action::Dispatch,
    {
        self.pending = true;
        Action::Dispatch
    }

    /// Takes the outcome of the remote call and renders it.
    pub fn settle(&mut self, outcome: Result<String, RemoteError>)
        ensures
            final(self)@ == settle(old(self)@, outcome_view(outcome)),
    {
        self.result = Some(outcome);
        self.pending = false;
        self.render();
    }

    /// Takes one event: changes the state as the event asks and returns what
    /// the host has to do next.
    pub fn step(&mut self, event: Event) -> (action: Action)
        requires
            can_step(old(self)@, event@),
        ensures
            final(self)@ == step(old(self)@, event@),
            action == action_for(event@),
    {
        match event {
            Event::Render => {
                self.render();
                Action::Stay
            },
            Event::Click => self.click(),
            Event::Settled(outcome) => {
                self.settle(outcome);
                Action::Stay
            },
        }
    }
}

/// The state after `n` render passes in a row.
pub open spec fn render_times(m: AppModel, n: nat) -> AppModel
    decreases n,
{
    if n == 0 {
        m
    } else {
        render_pass(render_times(m, (n - 1) as nat))
    }
}

/// While no call has settled, `n` render passes in a row count the counter up
/// by exactly `n`, store no outcome and leave the in-flight mark alone, and
/// the last of them shows the placeholder for the counter it found.
pub proof fn lemma_idle_renders(m: AppModel, n: nat)
    requires
        m.result is None,
    ensures
        render_times(m, n).result is None,
        render_times(m, n).pending == m.pending,
        render_times(m, n).counter == m.counter + n,
        n > 0 ==> render_times(m, n).text == placeholder(m.counter + n - 1),
    decreases n,
{
    if n > 0 {
        lemma_idle_renders(m, (n - 1) as nat);
    }
}

/// While no call has settled, the counter grows strictly from one render pass
/// to any later one.
pub proof fn lemma_idle_counter_strictly_increases(m: AppModel, earlier: nat, later: nat)
    requires
        m.result is None,
        earlier < later,
    ensures
        render_times(m, earlier).counter < render_times(m, later).counter,
{
    lemma_idle_renders(m, earlier);
    lemma_idle_renders(m, later);
}

/// On a freshly mounted component the `n`-th render pass shows `WUT` followed
/// by `n - 1` in decimal, and leaves the counter at `n`: the first pass shows
/// `WUT0`, the second `WUT1`, and so on.
pub proof fn lemma_renders_after_mount(n: nat)
    requires
        n > 0,
    ensures
        render_times(initial(), n).text == "WUT"@ + decimal(n - 1),
        render_times(initial(), n).counter == n,
{
    lemma_idle_renders(initial(), n);
}

/// A greeting that arrives is shown exactly as it came, whatever the counter
/// and the text were before; the counter rests, and further render passes
/// keep showing the greeting.
pub proof fn lemma_greeting_shown_verbatim(m: AppModel, greeting: Seq<char>, n: nat)
    ensures
        settle(m, Ok(greeting)).text == greeting,
        settle(m, Ok(greeting)).counter == m.counter,
        render_times(settle(m, Ok(greeting)), n).text == greeting,
        render_times(settle(m, Ok(greeting)), n).counter == m.counter,
        render_times(settle(m, Ok(greeting)), n).result == Some(
            Ok::<Seq<char>, RemoteErrorView>(greeting),
        ),
    decreases n,
{
    if n > 0 {
        lemma_greeting_shown_verbatim(m, greeting, (n - 1) as nat);
    }
}

/// A failed call is shown in the debug format of its error, whatever the
/// counter and the text were before, and the counter rests.
pub proof fn lemma_error_shown_in_debug_format(m: AppModel, err: RemoteErrorView)
    ensures
        settle(m, Err(err)).text == debug_text(err),
        settle(m, Err(err)).counter == m.counter,
{
}

/// The state after a sequence of events, taken in order.
pub open spec fn run(m: AppModel, events: Seq<EventView>) -> AppModel
    decreases events.len(),
{
    if events.len() == 0 {
        m
    } else {
        step(run(m, events.drop_last()), events.last())
    }
}

/// Whatever happens to the component, its counter never goes down.
pub proof fn lemma_counter_never_decreases(m: AppModel, event: EventView)
    ensures
        step(m, event).counter >= m.counter,
{
}

/// Over the whole life of a page the counter never goes down: after any
/// sequence of events it is at least what it was after any part of that
/// sequence that came first.
pub proof fn lemma_counter_is_monotonic(m: AppModel, events: Seq<EventView>, seen: int)
    requires
        0 <= seen <= events.len(),
    ensures
        run(m, events.subrange(0, seen)).counter <= run(m, events).counter,
    decreases events.len(),
{
    if seen == events.len() {
        assert(events.subrange(0, seen) =~= events);
    } else {
        let earlier = events.drop_last();
        lemma_counter_is_monotonic(m, earlier, seen);
        assert(earlier.subrange(0, seen) =~= events.subrange(0, seen));
        lemma_counter_never_decreases(run(m, earlier), events.last());
    }
}

/// Only a render pass without an outcome moves the counter, and it moves it
/// by one; every other event leaves the counter where it was.
pub proof fn lemma_only_idle_renders_count(m: AppModel, event: EventView)
    ensures
        step(m, event).counter == if event is Render && m.result is None {
            m.counter + 1
        } else {
            m.counter
        },
{
}

} // verus!
