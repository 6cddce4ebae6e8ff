//! The frame scheduler: the control loop of the harness as a state machine.
//!
//! The host owns the event source and the clock. It hands each event to
//! [`FrameScheduler::on_event`] and does what the returned action says; after
//! a frame it reports the time to [`FrameScheduler::schedule_next`] and
//! suspends until the deadline it gets back, or until the next event.

use crate::clock::FrameClock;
use vstd::prelude::*;

verus! {

/// The two states of the scheduler.
#[derive(Copy, Clone, Debug, PartialEq, Eq, Structural)]
pub enum SchedulerState {
    /// Frames are produced on the cadence.
    Running,
    /// The window was closed; no frame is produced any more.
    Terminated,
}

/// What the event source reports.
#[derive(Copy, Clone, Debug, PartialEq, Eq, Structural)]
pub enum FrameEvent {
    /// The window asked to be closed.
    Close,
    /// The scheduled deadline was reached, or the loop was entered for the
    /// first time.
    Tick,
    /// Any other window or input event.
    Other,
}

/// Why the event loop woke up.
#[derive(Copy, Clone, Debug, PartialEq, Eq, Structural)]
pub enum WakeCause {
    /// The loop was entered for the first time.
    Init,
    /// The deadline that the loop was suspended until was reached.
    DeadlineReached,
    /// An event arrived before the deadline.
    WaitCancelled,
    /// The loop was not suspended at all.
    Poll,
}

/// An event as the windowing layer delivers it.
#[derive(Copy, Clone, Debug, PartialEq, Eq, Structural)]
pub enum HostEvent {
    /// The window asked to be closed.
    CloseRequested,
    /// Any other event of the window.
    Window,
    /// The loop woke up.
    Wake(WakeCause),
    /// Anything else.
    Other,
}

/// What an event of the windowing layer means to the scheduler: a close
/// request closes, the first entry and a reached deadline tick, and nothing
/// else counts.
pub open spec fn classified(event: HostEvent) -> FrameEvent {
    match event {
        HostEvent::CloseRequested => FrameEvent::Close,
        HostEvent::Wake(WakeCause::Init) => FrameEvent::Tick,
        HostEvent::Wake(WakeCause::DeadlineReached) => FrameEvent::Tick,
        _ => FrameEvent::Other,
    }
}

impl HostEvent {
    /// What this event means to the scheduler.
    pub fn classify(self) -> (event: FrameEvent)
        ensures
            event == classified(self),
            event == FrameEvent::Close <==> self == HostEvent::CloseRequested,
            event == FrameEvent::Tick <==> (self == HostEvent::Wake(WakeCause::Init) || self
                == HostEvent::Wake(WakeCause::DeadlineReached)),
    {
        match self {
            HostEvent::CloseRequested => FrameEvent::Close,
            HostEvent::Wake(WakeCause::Init) => FrameEvent::Tick,
            HostEvent::Wake(WakeCause::DeadlineReached) => FrameEvent::Tick,
            _ => FrameEvent::Other,
        }
    }
}

/// What the host does next.
#[derive(Copy, Clone, Debug, PartialEq, Eq, Structural)]
pub enum SchedulerAction {
    /// Render one frame, then schedule the next.
    RenderFrame,
    /// Nothing: keep waiting for the deadline already set.
    Wait,
    /// Leave the loop.
    Exit,
}

/// The transition of the scheduler: the state it moves to on `event`, and
/// the action it asks for.
pub open spec fn step(state: SchedulerState, event: FrameEvent) -> (
    SchedulerState,
    SchedulerAction,
) {
    match state {
        SchedulerState::Terminated => (SchedulerState::Terminated, SchedulerAction::Exit),
        SchedulerState::Running => match event {
            FrameEvent::Close => (SchedulerState::Terminated, SchedulerAction::Exit),
            FrameEvent::Tick => (SchedulerState::Running, SchedulerAction::RenderFrame),
            FrameEvent::Other => (SchedulerState::Running, SchedulerAction::Wait),
        },
    }
}

/// The state reached from `state` after the events of `events`, in order.
pub open spec fn state_after(state: SchedulerState, events: Seq<FrameEvent>) -> SchedulerState
    decreases events.len(),
{
    if events.len() == 0 {
        state
    } else {
        step(state_after(state, events.drop_last()), events.last()).0
    }
}

/// The action asked for on event number `i` of `events`, when the scheduler
/// was in `state` before the first of them.
pub open spec fn action_at(
    state: SchedulerState,
    events: Seq<FrameEvent>,
    i: int,
) -> SchedulerAction {
    step(state_after(state, events.take(i)), events[i]).1
}

/// Once terminated, the scheduler stays terminated whatever events follow.
pub proof fn lemma_terminated_is_final(events: Seq<FrameEvent>)
    ensures
        state_after(SchedulerState::Terminated, events) == SchedulerState::Terminated,
    decreases events.len(),
{
    if events.len() > 0 {
        lemma_terminated_is_final(events.drop_last());
    }
}

/// A close request ends the run: from the event that carries it on, the
/// scheduler is terminated and never asks for another frame, whatever the
/// state at the start and whatever events come before or after.
pub proof fn lemma_close_ends_rendering(
    state: SchedulerState,
    events: Seq<FrameEvent>,
    close: int,
    later: int,
)
    requires
        0 <= close <= later < events.len(),
        events[close] == FrameEvent::Close,
    ensures
        state_after(state, events.take(later + 1)) == SchedulerState::Terminated,
        action_at(state, events, later) == SchedulerAction::Exit,
    decreases later - close,
{
    let upto = events.take(later + 1);
    assert(upto.drop_last() =~= events.take(later));
    assert(upto.last() == events[later]);
    if later > close {
        lemma_close_ends_rendering(state, events, close, later - 1);
        assert(events.take(later - 1 + 1) =~= events.take(later));
    }
}

/// Until a close request arrives the scheduler keeps running and drops no
/// frame: every tick is answered with a frame, and every other event with a
/// wait.
pub proof fn lemma_runs_until_close(events: Seq<FrameEvent>, i: int)
    requires
        0 <= i < events.len(),
        forall|j: int| 0 <= j < i ==> events[j] != FrameEvent::Close,
    ensures
        state_after(SchedulerState::Running, events.take(i)) == SchedulerState::Running,
        events[i] == FrameEvent::Tick ==> action_at(SchedulerState::Running, events, i)
            == SchedulerAction::RenderFrame,
        events[i] == FrameEvent::Other ==> action_at(SchedulerState::Running, events, i)
            == SchedulerAction::Wait,
    decreases i,
{
    if i > 0 {
        lemma_runs_until_close(events, i - 1);
        let upto = events.take(i);
        assert(upto.drop_last() =~= events.take(i - 1));
        assert(upto.last() == events[i - 1]);
    }
}

/// The frame scheduler.
#[derive(Copy, Clone, Debug)]
pub struct FrameScheduler {
    state: SchedulerState,
    quantum_ns: u64,
    deadline_ns: Option<u64>,
}

impl FrameScheduler {
    /// The state the scheduler is in.
    pub closed spec fn spec_state(self) -> SchedulerState {
        self.state
    }

    /// The frame quantum, in nanoseconds.
    pub closed spec fn spec_quantum(self) -> int {
        self.quantum_ns as int
    }

    /// The deadline of the next frame, once one was scheduled.
    pub closed spec fn spec_deadline(self) -> Option<u64> {
        self.deadline_ns
    }

    /// How long the host suspends at `now_ns`: until the deadline, and not at
    /// all where none is set, where it has passed, or after termination.
    pub open spec fn spec_wait(self, now_ns: int) -> int {
        match self.spec_deadline() {
            Some(deadline_ns) if self.spec_state() == SchedulerState::Running && now_ns
                < deadline_ns => deadline_ns - now_ns,
            _ => 0,
        }
    }

    /// A running scheduler with the frame quantum `quantum_ns` and no
    /// deadline yet: the first frame is due at once.
    pub fn new(quantum_ns: u64) -> (scheduler: FrameScheduler)
        ensures
            scheduler.spec_state() == SchedulerState::Running,
            scheduler.spec_quantum() == quantum_ns,
            scheduler.spec_deadline() == None::<u64>,
    {
        FrameScheduler { state: SchedulerState::Running, quantum_ns, deadline_ns: None }
    }

    /// The state the scheduler is in.
    pub fn state(&self) -> (state: SchedulerState)
        ensures
            state == self.spec_state(),
    {
        self.state
    }

    /// The frame quantum, in nanoseconds.
    pub fn quantum(&self) -> (quantum_ns: u64)
        ensures
            quantum_ns == self.spec_quantum(),
    {
        self.quantum_ns
    }

    /// The deadline of the next frame, once one was scheduled.
    pub fn deadline(&self) -> (deadline_ns: Option<u64>)
        ensures
            deadline_ns == self.spec_deadline(),
    {
        self.deadline_ns
    }

    /// Takes one event and says what the host does next. A close request
    /// terminates the scheduler; a tick asks for a frame while it runs; any
    /// other event changes nothing. Once terminated, every event is answered
    /// with `Exit`.
    pub fn on_event(&mut self, event: FrameEvent) -> (action: SchedulerAction)
        ensures
            (final(self).spec_state(), action) == step(old(self).spec_state(), event),
            final(self).spec_quantum() == old(self).spec_quantum(),
            final(self).spec_deadline() == old(self).spec_deadline(),
            event == FrameEvent::Close ==> final(self).spec_state() == SchedulerState::Terminated
                && action == SchedulerAction::Exit,
            action == SchedulerAction::RenderFrame <==> (old(self).spec_state()
                == SchedulerState::Running && event == FrameEvent::Tick),
    {
        match self.state {
            SchedulerState::Terminated => SchedulerAction::Exit,
            SchedulerState::Running => match event {
                FrameEvent::Close => {
                    self.state = SchedulerState::Terminated;
                    SchedulerAction::Exit
                },
                FrameEvent::Tick => SchedulerAction::RenderFrame,
                FrameEvent::Other => SchedulerAction::Wait,
            },
        }
    }

    /// Sets the deadline of the next frame, after a frame was rendered: one
    /// quantum after `now_ns`, never before `now_ns`. A terminated scheduler
    /// schedules nothing and returns `None`.
    pub fn schedule_next(&mut self, now_ns: u64) -> (deadline_ns: Option<u64>)
        requires
            now_ns + old(self).spec_quantum() <= u64::MAX,
        ensures
            final(self).spec_state() == old(self).spec_state(),
            final(self).spec_quantum() == old(self).spec_quantum(),
            old(self).spec_state() == SchedulerState::Running ==> deadline_ns == Some(
                (now_ns + old(self).spec_quantum()) as u64,
            ) && final(self).spec_deadline() == deadline_ns,
            old(self).spec_state() == SchedulerState::Terminated ==> deadline_ns == None::<u64>
                && final(self).spec_deadline() == old(self).spec_deadline(),
            deadline_ns matches Some(at_ns) ==> at_ns >= now_ns,
    {
        match self.state {
            SchedulerState::Terminated => None,
            SchedulerState::Running => {
                let at_ns: u64 = FrameClock::next_deadline(now_ns, self.quantum_ns);
                self.deadline_ns = Some(at_ns);
                Some(at_ns)
            },
        }
    }

    /// How long the host suspends at `now_ns` before the next frame is due.
    /// A deadline that has passed gives no wait, never a negative one.
    pub fn wait_nanos(&self, now_ns: u64) -> (wait_ns: u64)
        ensures
            wait_ns == self.spec_wait(now_ns as int),
    {
        match self.state {
            SchedulerState::Terminated => 0,
            SchedulerState::Running => match self.deadline_ns {
                None => 0,
                Some(deadline_ns) => FrameClock::remaining(deadline_ns, now_ns),
            },
        }
    }
}

} // verus!
