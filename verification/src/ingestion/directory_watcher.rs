use vstd::prelude::*;
use vstd::string::StringExecFns;
use crate::config::dataset::AppConfig;
use crate::config::dataset::DatasetConfig;
use crate::config::dataset::DatasetView;
use crate::ingestion::attempt::AttemptStage;
use crate::ingestion::attempt::AttemptView;
use crate::ingestion::attempt::IngestionAttempt;

verus! {

/// How many notifications may wait between the notification source and the
/// watcher. When so many wait, the source blocks until one is taken: memory
/// stays bounded, and a burst can stall the source.
pub const QUEUE_CAPACITY: usize = 100;

/// Seconds between two polls of the directory where the platform delivers no
/// native events.
pub const POLL_INTERVAL_SECS: u64 = 2;

/// How a dataset's directory is watched.
#[derive(Debug)]
pub struct WatchSettings {
    /// The directory under watch.
    pub path: String,
    /// Whether subdirectories are watched too.
    pub recursive: bool,
    pub poll_interval_secs: u64,
    pub queue_capacity: usize,
}

/// Where a watcher stands.
#[derive(Debug, Clone, Copy, PartialEq, Eq, Structural)]
pub enum WatcherPhase {
    /// The watch is not registered yet.
    Registering,
    /// The watch is registered and the watcher waits for notifications.
    Idle,
    /// The watcher has ended.
    Stopped,
}

/// What a watcher is told.
#[derive(Debug)]
pub enum WatcherEvent {
    /// The watch on the directory was registered.
    Registered,
    /// The watch could not be registered; the text says why.
    RegistrationFailed(String),
    /// One filesystem notification was taken from the queue.
    Notification,
    /// The queue was closed: no notification will follow.
    QueueClosed,
}

/// What a watcher asks of its caller.
#[derive(Debug)]
pub enum WatcherAction {
    /// Say that the watch has started; the text is the line to print.
    Announce(String),
    /// Run one ingestion attempt for the dataset, off the path that delivers
    /// notifications.
    SpawnIngestion,
    /// End the watcher: the directory cannot be watched. Fatal for this
    /// dataset only.
    Fail(String),
    /// End the watcher in good order.
    Finish,
    /// The event does not belong to the phase; nothing is to be done.
    Ignore,
}

/// An event in specifications.
pub enum EventView {
    Registered,
    RegistrationFailed(Seq<char>),
    Notification,
    QueueClosed,
}

/// An action in specifications.
pub enum ActionView {
    Announce(Seq<char>),
    SpawnIngestion,
    Fail(Seq<char>),
    Finish,
    Ignore,
}

impl View for WatcherEvent {
    type V = EventView;

    open spec fn view(&self) -> EventView {
        match self {
            WatcherEvent::Registered => EventView::Registered,
            WatcherEvent::RegistrationFailed(reason) => EventView::RegistrationFailed(reason@),
            WatcherEvent::Notification => EventView::Notification,
            WatcherEvent::QueueClosed => EventView::QueueClosed,
        }
    }
}

impl View for WatcherAction {
    type V = ActionView;

    open spec fn view(&self) -> ActionView {
        match self {
            WatcherAction::Announce(line) => ActionView::Announce(line@),
            WatcherAction::SpawnIngestion => ActionView::SpawnIngestion,
            WatcherAction::Fail(reason) => ActionView::Fail(reason@),
            WatcherAction::Finish => ActionView::Finish,
            WatcherAction::Ignore => ActionView::Ignore,
        }
    }
}

/// The line that says a watch has started.
pub open spec fn started_line(path: Seq<char>) -> Seq<char> {
    "Started watching directory: "@ + path
}

/// The phase a watcher on `path` enters on an event.
///
/// There is no debouncing: in `Idle` every notification leads back to `Idle`.
pub open spec fn next_phase(phase: WatcherPhase, event: EventView) -> WatcherPhase {
    match (phase, event) {
        (WatcherPhase::Registering, EventView::Registered) => WatcherPhase::Idle,
        (WatcherPhase::Registering, EventView::RegistrationFailed(_)) => WatcherPhase::Stopped,
        (WatcherPhase::Idle, EventView::Notification) => WatcherPhase::Idle,
        (WatcherPhase::Idle, EventView::QueueClosed) => WatcherPhase::Stopped,
        _ => phase,
    }
}

/// What a watcher on `path` asks for on an event.
///
/// In `Idle` every notification asks for one ingestion attempt of its own.
pub open spec fn action_on(path: Seq<char>, phase: WatcherPhase, event: EventView) -> ActionView {
    match (phase, event) {
        (WatcherPhase::Registering, EventView::Registered) => ActionView::Announce(
            started_line(path),
        ),
        (WatcherPhase::Registering, EventView::RegistrationFailed(reason)) => ActionView::Fail(
            reason,
        ),
        (WatcherPhase::Idle, EventView::Notification) => ActionView::SpawnIngestion,
        (WatcherPhase::Idle, EventView::QueueClosed) => ActionView::Finish,
        _ => ActionView::Ignore,
    }
}

/// The phase after a sequence of events, taken in order.
pub open spec fn phase_after(phase: WatcherPhase, events: Seq<EventView>) -> WatcherPhase
    decreases events.len(),
{
    if events.len() == 0 {
        phase
    } else {
        next_phase(phase_after(phase, events.drop_last()), events.last())
    }
}

/// Whether an event makes a watcher in `phase` ask for an ingestion attempt:
/// it does when the watcher is idle and the event is a notification, and
/// only then.
pub open spec fn spawns(phase: WatcherPhase, event: EventView) -> bool {
    phase == WatcherPhase::Idle && event is Notification
}

/// How many ingestion attempts a sequence of events asks for.
pub open spec fn attempts_spawned(phase: WatcherPhase, events: Seq<EventView>) -> nat
    decreases events.len(),
{
    if events.len() == 0 {
        0
    } else {
        let before = phase_after(phase, events.drop_last());
        let spawned: nat = if spawns(before, events.last()) {
            1
        } else {
            0
        };
        attempts_spawned(phase, events.drop_last()) + spawned
    }
}

/// An attempt is asked for exactly on the events that spawn one, whatever the
/// directory under watch.
pub proof fn an_attempt_is_asked_for_exactly_when_spawned(
    path: Seq<char>,
    phase: WatcherPhase,
    event: EventView,
)
    ensures
        action_on(path, phase, event) == ActionView::SpawnIngestion <==> spawns(phase, event),
{
}

/// A burst of notifications is not coalesced: an idle watcher that takes `n`
/// notifications in a row asks for `n` ingestion attempts, one for each, and
/// is idle again after them.
pub proof fn every_notification_spawns_an_attempt(events: Seq<EventView>)
    requires
        forall|i: int| 0 <= i < events.len() ==> events[i] == EventView::Notification,
    ensures
        phase_after(WatcherPhase::Idle, events) == WatcherPhase::Idle,
        attempts_spawned(WatcherPhase::Idle, events) == events.len(),
    decreases events.len(),
{
    if events.len() > 0 {
        every_notification_spawns_an_attempt(events.drop_last());
    }
}

/// A stopped watcher stays stopped and asks for no further attempt, whatever
/// it is told.
pub proof fn stopped_watcher_spawns_nothing(events: Seq<EventView>)
    ensures
        phase_after(WatcherPhase::Stopped, events) == WatcherPhase::Stopped,
        attempts_spawned(WatcherPhase::Stopped, events) == 0,
    decreases events.len(),
{
    if events.len() > 0 {
        stopped_watcher_spawns_nothing(events.drop_last());
    }
}

/// A watcher in specifications.
pub struct WatcherView {
    pub path: Seq<char>,
    pub dataset: DatasetView,
    pub phase: WatcherPhase,
}

/// The watcher of one file-based dataset. It turns the events of its watch
/// into requests for ingestion attempts, one per notification.
///
/// The caller owns the watch, the queue and the workers: it registers the
/// watch with [`DirectoryWatcher::settings`], feeds each event to
/// [`DirectoryWatcher::on_event`] and does what the returned action asks.
pub struct DirectoryWatcher {
    path: String,
    dataset: DatasetConfig,
    phase: WatcherPhase,
}

impl View for DirectoryWatcher {
    type V = WatcherView;

    closed spec fn view(&self) -> WatcherView {
        WatcherView { path: self.path@, dataset: self.dataset@, phase: self.phase }
    }
}

/// A watcher for `dataset` on the directory `watch_path`, with its watch not
/// registered yet.
pub fn directory_watcher(watch_path: &str, dataset: DatasetConfig) -> (watcher: DirectoryWatcher)
    ensures
        watcher@ == (WatcherView {
            path: watch_path@,
            dataset: dataset@,
            phase: WatcherPhase::Registering,
        }),
{
    DirectoryWatcher {
        path: String::from_str(watch_path),
        dataset,
        phase: WatcherPhase::Registering,
    }
}

impl DirectoryWatcher {
    /// How the directory is to be watched: recursively, polling every
    /// `POLL_INTERVAL_SECS` seconds where events are not delivered natively,
    /// through a queue of `QUEUE_CAPACITY` notifications.
    pub fn settings(&self) -> (settings: WatchSettings)
        ensures
            settings.path@ == self@.path,
            settings.recursive,
            settings.poll_interval_secs == POLL_INTERVAL_SECS,
            settings.queue_capacity == QUEUE_CAPACITY,
    {
        WatchSettings {
            path: self.path.clone(),
            recursive: true,
            poll_interval_secs: POLL_INTERVAL_SECS,
            queue_capacity: QUEUE_CAPACITY,
        }
    }

    /// Where the watcher stands.
    pub fn phase(&self) -> (phase: WatcherPhase)
        ensures
            phase == self@.phase,
    {
        self.phase
    }

    /// Takes one event and says what is to be done. Only the phase changes.
    pub fn on_event(&mut self, event: WatcherEvent) -> (action: WatcherAction)
        ensures
            action@ == action_on(old(self)@.path, old(self)@.phase, event@),
            final(self)@ == (WatcherView {
                phase: next_phase(old(self)@.phase, event@),
                ..old(self)@
            }),
    {
        match self.phase {
            WatcherPhase::Registering => match event {
                WatcherEvent::Registered => {
                    self.phase = WatcherPhase::Idle;
                    let mut line = String::from_str("Started watching directory: ");
                    line.append(self.path.as_str());
                    WatcherAction::Announce(line)
                },
                WatcherEvent::RegistrationFailed(reason) => {
                    self.phase = WatcherPhase::Stopped;
                    WatcherAction::Fail(reason)
                },
                _ => WatcherAction::Ignore,
            },
            WatcherPhase::Idle => match event {
                WatcherEvent::Notification => WatcherAction::SpawnIngestion,
                WatcherEvent::QueueClosed => {
                    self.phase = WatcherPhase::Stopped;
                    WatcherAction::Finish
                },
                _ => WatcherAction::Ignore,
            },
            WatcherPhase::Stopped => WatcherAction::Ignore,
        }
    }

    /// The dataset that every attempt of this watcher loads.
    pub fn dataset(&self) -> (dataset: &DatasetConfig)
        ensures
            dataset@ == self@.dataset,
    {
        &self.dataset
    }

    /// A fresh ingestion attempt on a copy of the watcher's dataset. It
    /// shares nothing with the watcher or with any other attempt.
    pub fn attempt(&self) -> (attempt: IngestionAttempt)
        ensures
            attempt@ == (AttemptView {
                dataset: self@.dataset,
                stage: AttemptStage::AwaitingConnection,
            }),
    {
        IngestionAttempt::new(self.dataset.clone())
    }
}

/// Whether a dataset gets a watcher: it is file-based and names the
/// directory to watch.
pub open spec fn watched(dataset: DatasetView) -> bool {
    dataset.format.file_based() && dataset.directory is Some
}

/// Whether `list` holds, in increasing order, exactly the indices of the
/// datasets that get a watcher.
pub open spec fn is_watch_list(datasets: Seq<DatasetView>, list: Seq<usize>) -> bool {
    &&& forall|k: int|
        0 <= k < list.len() ==> list[k] < datasets.len() && watched(
            #[trigger] datasets[list[k] as int],
        )
    &&& forall|k: int, l: int| 0 <= k < l < list.len() ==> list[k] < list[l]
    &&& forall|i: int|
        0 <= i < datasets.len() && watched(#[trigger] datasets[i]) ==> exists|k: int|
            0 <= k < list.len() && list[k] == i
}

/// The datasets that get a watcher at startup, one each: the file-based ones
/// that name a directory, by their index in the configuration, in
/// configuration order.
pub fn watched_datasets(config: &AppConfig) -> (list: Vec<usize>)
    ensures
        is_watch_list(config@.datasets, list@),
{
    let mut list: Vec<usize> = Vec::new();
    let n = config.datasets.len();
    let mut i: usize = 0;
    while i < n
        invariant
            n == config.datasets@.len(),
            i <= n,
            forall|k: int| 0 <= k < list@.len() ==> #[trigger] list@[k] < i,
            forall|k: int|
                0 <= k < list@.len() ==> watched(#[trigger] config@.datasets[list@[k] as int]),
            forall|k: int, l: int| 0 <= k < l < list@.len() ==> list@[k] < list@[l],
            forall|j: int|
                0 <= j < i && watched(#[trigger] config@.datasets[j]) ==> exists|k: int|
                    0 <= k < list@.len() && list@[k] == j,
        decreases n - i,
    {
        let dataset = &config.datasets[i];
        if dataset.format.is_file_based() && dataset.directory.is_some() {
            let ghost before = list@;
            list.push(i);
            assert forall|j: int|
                0 <= j < i + 1 && watched(#[trigger] config@.datasets[j]) implies exists|k: int|
                0 <= k < list@.len() && list@[k] == j by {
                if j < i {
                    let k = choose|k: int| 0 <= k < before.len() && before[k] == j;
                    assert(list@[k] == j);
                } else {
                    assert(list@[before.len() as int] == j);
                }
            }
        }
        i = i + 1;
    }
    list
}

} // verus!
