use crate::content::{render, renders, ContentItem, Relay};
use crate::selector::{select_item, selection_check};
use vstd::prelude::*;

verus! {

/// Why the content source gave no batch.
#[derive(Debug, Clone, Copy, PartialEq, Eq, Structural)]
pub enum SourceError {
    /// The source could not be reached.
    SourceUnavailable,
    /// The source answered with something that is not a batch.
    MalformedResponse,
}

/// Why a subscription task could not start.
#[derive(Debug, Clone, Copy, PartialEq, Eq, Structural)]
pub enum TaskError {
    /// The topic is empty.
    InvalidTopic,
}

/// Where a subscription task stands between two events.
#[derive(Debug, Clone, Copy, PartialEq, Eq, Structural)]
pub enum TaskPhase {
    /// Waiting for the outcome of a fetch.
    Polling,
    /// Waiting for the outcome of a relay.
    Relaying,
    /// Waiting for the poll interval to pass.
    Sleeping,
    /// Stopped for good.
    Cancelled,
}

/// What happened outside since the task's last action.
pub enum TaskEvent {
    /// The fetch returned this batch.
    Fetched(Vec<ContentItem>),
    /// The fetch failed.
    FetchFailed(SourceError),
    /// The relay was delivered.
    Delivered,
    /// The relay could not be delivered.
    DeliveryFailed,
    /// The poll interval has passed; `cancelled` tells whether the
    /// subscription was cancelled meanwhile.
    Woke { cancelled: bool },
}

/// What the task asks to be done next.
pub enum Action {
    /// Fetch a batch of at most `size` items for `topic`.
    Fetch { topic: String, size: usize },
    /// Deliver `relay` to `destination`.
    Send { destination: u64, relay: Relay },
    /// Wait `ticks` ticks, then report `Woke`.
    Sleep { ticks: u64 },
    /// Release everything; no further event is expected.
    Stop,
    /// The event did not fit the phase and was ignored.
    Ignore,
}

/// A subscription task's configuration and phase, as plain values.
pub struct TaskView {
    pub topic: Seq<char>,
    pub destination: u64,
    pub interval: u64,
    pub batch_size: usize,
    pub window: usize,
    pub fallback_image: Seq<char>,
    pub phase: TaskPhase,
}

/// The background task of one subscription: polls the source, relays one
/// item per cycle and sleeps, until cancelled.
pub struct SubscriptionTask {
    topic: String,
    destination: u64,
    interval: u64,
    batch_size: usize,
    window: usize,
    fallback_image: String,
    phase: TaskPhase,
}

impl View for SubscriptionTask {
    type V = TaskView;

    closed spec fn view(&self) -> TaskView {
        TaskView {
            topic: self.topic@,
            destination: self.destination,
            interval: self.interval,
            batch_size: self.batch_size,
            window: self.window,
            fallback_image: self.fallback_image@,
            phase: self.phase,
        }
    }
}

/// Whether `event` is a fetch failure or a wake-up without cancellation.
pub open spec fn is_transient(event: TaskEvent) -> bool {
    event is FetchFailed || event == (TaskEvent::Woke { cancelled: false })
}

/// The phase after `event` in phase `phase`, with selection window `window`.
pub open spec fn next_phase(phase: TaskPhase, event: TaskEvent, window: nat) -> TaskPhase {
    match (phase, event) {
        (TaskPhase::Polling, TaskEvent::Fetched(batch)) => if selection_check(
            batch@.len(),
            window,
        ) is Ok {
            TaskPhase::Relaying
        } else {
            TaskPhase::Sleeping
        },
        (TaskPhase::Polling, TaskEvent::FetchFailed(_)) => TaskPhase::Sleeping,
        (TaskPhase::Relaying, TaskEvent::Delivered) => TaskPhase::Sleeping,
        (TaskPhase::Relaying, TaskEvent::DeliveryFailed) => TaskPhase::Sleeping,
        (TaskPhase::Sleeping, TaskEvent::Woke { cancelled }) => if cancelled {
            TaskPhase::Cancelled
        } else {
            TaskPhase::Polling
        },
        _ => phase,
    }
}

/// The phase after the events `events`, in order, starting in `phase`.
pub open spec fn run_phase(phase: TaskPhase, events: Seq<TaskEvent>, window: nat) -> TaskPhase
    decreases events.len(),
{
    if events.len() == 0 {
        phase
    } else {
        next_phase(run_phase(phase, events.drop_last(), window), events.last(), window)
    }
}

/// Whether the event fits the phase; an event that does not is ignored.
pub open spec fn fits(phase: TaskPhase, event: TaskEvent) -> bool {
    match (phase, event) {
        (TaskPhase::Polling, TaskEvent::Fetched(_)) => true,
        (TaskPhase::Polling, TaskEvent::FetchFailed(_)) => true,
        (TaskPhase::Relaying, TaskEvent::Delivered) => true,
        (TaskPhase::Relaying, TaskEvent::DeliveryFailed) => true,
        (TaskPhase::Sleeping, TaskEvent::Woke { .. }) => true,
        _ => false,
    }
}

/// Whether `action` is what a task in state `t` owes on `event`.
pub open spec fn step_action(t: TaskView, event: TaskEvent, action: Action) -> bool {
    let next = next_phase(t.phase, event, t.window as nat);
    if t.phase == TaskPhase::Cancelled {
        action is Stop
    } else if !fits(t.phase, event) {
        action is Ignore
    } else {
        match next {
            TaskPhase::Relaying => action matches Action::Send { destination, relay }
                && destination == t.destination && exists|i: int|
                0 <= i < t.window && renders(relay, event->Fetched_0@[i], t.fallback_image),
            TaskPhase::Sleeping => action == (Action::Sleep { ticks: t.interval }),
            TaskPhase::Polling => action matches Action::Fetch { topic, size } && topic@ == t.topic
                && size == t.batch_size,
            TaskPhase::Cancelled => action is Stop,
        }
    }
}

/// Failures never end a task: from `Polling`, any run of fetch failures and
/// wake-ups without cancellation leaves the task polling when the run is empty
/// or ends with a wake-up, and sleeping otherwise, never cancelled; a fetch that
/// then returns a batch that fits the window moves it on to relaying.
pub proof fn lemma_failures_are_transient(events: Seq<TaskEvent>, batch: Vec<ContentItem>, window: nat)
    requires
        forall|i: int| 0 <= i < events.len() ==> is_transient(#[trigger] events[i]),
    ensures
        run_phase(TaskPhase::Polling, events, window) == (if events.len() == 0 || events.last() is Woke {
            TaskPhase::Polling
        } else {
            TaskPhase::Sleeping
        }),
        run_phase(TaskPhase::Polling, events, window) != TaskPhase::Cancelled,
        (events.len() == 0 || events.last() is Woke) && selection_check(batch@.len(), window) is Ok
            ==> next_phase(
            run_phase(TaskPhase::Polling, events, window),
            TaskEvent::Fetched(batch),
            window,
        ) == TaskPhase::Relaying,
    decreases events.len(),
{
    if events.len() > 0 {
        let rest = events.drop_last();
        assert forall|i: int| 0 <= i < rest.len() implies is_transient(#[trigger] rest[i]) by {
            assert(rest[i] == events[i]);
        }
        lemma_failures_are_transient(rest, batch, window);
        assert(is_transient(events[events.len() - 1]));
    }
}

impl SubscriptionTask {
    /// Starts a task that relays `topic` into `destination`: it fetches
    /// `batch_size` items per cycle, picks one of the first `window`, and sleeps
    /// `interval` ticks between cycles. Fails with `InvalidTopic` on an empty
    /// topic; otherwise the first action is a fetch.
    pub fn start(
        topic: String,
        destination: u64,
        interval: u64,
        batch_size: usize,
        window: usize,
        fallback_image: String,
    ) -> (r: Result<(SubscriptionTask, Action), TaskError>)
        ensures
            topic@.len() == 0 <==> r is Err,
            r is Err ==> r == Err::<(SubscriptionTask, Action), TaskError>(TaskError::InvalidTopic),
            r matches Ok((t, a)) ==> t@ == (TaskView {
                topic: topic@,
                destination,
                interval,
                batch_size,
                window,
                fallback_image: fallback_image@,
                phase: TaskPhase::Polling,
            }) && (a matches Action::Fetch { topic: ft, size } && ft@ == topic@ && size
                == batch_size),
    {
        if topic.unicode_len() == 0 {
            return Err(TaskError::InvalidTopic);
        }
        let first = Action::Fetch { topic: topic.clone(), size: batch_size };
        let task = SubscriptionTask {
            topic,
            destination,
            interval,
            batch_size,
            window,
            fallback_image,
            phase: TaskPhase::Polling,
        };
        Ok((task, first))
    }

    /// The task's current phase.
    pub fn phase(&self) -> (r: TaskPhase)
        ensures
            r == self@.phase,
    {
        self.phase
    }

    /// The topic that the task relays.
    pub fn topic(&self) -> (r: &String)
        ensures
            r@ == self@.topic,
    {
        &self.topic
    }

    /// The destination that the task relays into.
    pub fn destination(&self) -> (r: u64)
        ensures
            r == self@.destination,
    {
        self.destination
    }

    /// Whether the task has stopped for good.
    pub fn is_cancelled(&self) -> (r: bool)
        ensures
            r == (self@.phase == TaskPhase::Cancelled),
    {
        self.phase == TaskPhase::Cancelled
    }

    /// Takes in what happened outside and says what to do next. Failures of
    /// the fetch, of the selection or of the relay lead to sleeping, never to
    /// stopping; only a wake-up that reports cancellation stops the task.
    pub fn step(&mut self, event: TaskEvent) -> (r: Action)
        ensures
            final(self)@ == (TaskView {
                phase: next_phase(old(self)@.phase, event, old(self)@.window as nat),
                ..old(self)@
            }),
            step_action(old(self)@, event, r),
    {
        match (self.phase, event) {
            (TaskPhase::Cancelled, _) => Action::Stop,
            (TaskPhase::Polling, TaskEvent::Fetched(batch)) => {
                match select_item(&batch, self.window) {
                    Ok(item) => {
                        let relay = render(item, &self.fallback_image);
                        self.phase = TaskPhase::Relaying;
                        Action::Send { destination: self.destination, relay }
                    },
                    Err(_) => {
                        self.phase = TaskPhase::Sleeping;
                        Action::Sleep { ticks: self.interval }
                    },
                }
            },
            (TaskPhase::Polling, TaskEvent::FetchFailed(_)) => {
                self.phase = TaskPhase::Sleeping;
                Action::Sleep { ticks: self.interval }
            },
            (TaskPhase::Relaying, TaskEvent::Delivered) => {
                self.phase = TaskPhase::Sleeping;
                Action::Sleep { ticks: self.interval }
            },
            (TaskPhase::Relaying, TaskEvent::DeliveryFailed) => {
                self.phase = TaskPhase::Sleeping;
                Action::Sleep { ticks: self.interval }
            },
            (TaskPhase::Sleeping, TaskEvent::Woke { cancelled }) => {
                if cancelled {
                    self.phase = TaskPhase::Cancelled;
                    Action::Stop
                } else {
                    self.phase = TaskPhase::Polling;
                    Action::Fetch { topic: self.topic.clone(), size: self.batch_size }
                }
            },
            _ => Action::Ignore,
        }
    }
}

} // verus!
