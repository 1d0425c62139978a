//! The tracking session: the run flag, the start and stop transitions, and
//! the decisions of the tick loop. The loop itself runs outside: it performs
//! each [`Action`] and hands back the [`Event`] that followed.

use crate::ledger::{seconds, ticked, titles_distinct, ActivityLedger, RecordView};
use crate::store::{load_ledger, loaded, save_text, saved};
use vstd::prelude::*;

verus! {

/// A save is due once more than this many seconds have passed since the
/// last one.
pub const SAVE_INTERVAL_SECONDS: u64 = 5;

/// Whether the process is tracking. It is idle with both marks clear,
/// running with both set, and stopping with the run flag clear while the
/// loop has not left yet. Whoever shares it between threads keeps it behind
/// a lock and holds the lock across each call that takes it by `&mut`.
#[derive(Debug)]
pub struct AppState {
    /// The run flag: set by a start, cleared by a stop request, read by the
    /// loop after each sleep.
    pub keep_running: bool,
    /// A tick loop exists: set by a start, cleared when the loop has left.
    pub loop_active: bool,
}

impl AppState {
    /// No session runs and no loop is left over from one.
    pub open spec fn is_idle(self) -> bool {
        !self.keep_running && !self.loop_active
    }

    /// The idle state, in which a process begins.
    pub fn new() -> (state: AppState)
        ensures
            state == (AppState { keep_running: false, loop_active: false }),
    {
        AppState { keep_running: false, loop_active: false }
    }
}

/// What was found where the store is kept.
#[derive(Debug)]
pub enum StoreRead {
    /// The user's profile directory could not be resolved.
    HomeUnresolved,
    /// The store's directory does not exist and could not be created.
    DirectoryUnavailable,
    /// The store file exists but could not be read.
    Unreadable,
    /// There is no store file.
    Missing,
    /// The text of the store file.
    Contents(String),
}

/// Why a session could not start.
#[derive(Clone, Copy, Debug, PartialEq, Eq, Structural)]
pub enum StartError {
    HomeUnresolved,
    DirectoryUnavailable,
    StoreUnreadable,
    /// A store file is present and is not a store.
    StoreCorrupt,
}

/// What the tick loop is waiting for.
#[derive(Clone, Copy, Debug, PartialEq, Eq, Structural)]
pub enum Phase {
    /// The next focus sample.
    Sampling,
    /// The outcome of a periodic save.
    Saving,
    /// The end of the sleep, and the run flag read after it.
    Sleeping,
    /// The outcome of the final save.
    Closing,
    /// Nothing: the session is over.
    Done,
}

/// What the loop tells the user interface.
#[derive(Clone, Copy, Debug, PartialEq, Eq, Structural)]
pub enum Notice {
    /// The store was saved.
    Tracking,
    /// A save failed; the session goes on.
    SaveFailed,
    /// The session is over.
    Stopped,
}

impl Notice {
    /// The name of the event under which the notice is emitted.
    pub open spec fn event_of(self) -> Seq<char> {
        match self {
            Notice::Tracking => "tracking"@,
            Notice::SaveFailed => "save_failed"@,
            Notice::Stopped => "stop_tracking"@,
        }
    }

    /// The text that the event carries.
    pub open spec fn payload_of(self) -> Seq<char> {
        match self {
            Notice::Tracking => "Tracking"@,
            Notice::SaveFailed => "Save failed"@,
            Notice::Stopped => "Stopped"@,
        }
    }

    /// The name of the event under which the notice is emitted.
    pub fn event(self) -> (name: &'static str)
        ensures
            name@ == self.event_of(),
    {
        match self {
            Notice::Tracking => "tracking",
            Notice::SaveFailed => "save_failed",
            Notice::Stopped => "stop_tracking",
        }
    }

    /// The text that the event carries.
    pub fn payload(self) -> (text: &'static str)
        ensures
            text@ == self.payload_of(),
    {
        match self {
            Notice::Tracking => "Tracking",
            Notice::SaveFailed => "Save failed",
            Notice::Stopped => "Stopped",
        }
    }
}

impl StartError {
    /// What the user is told.
    pub open spec fn message_of(self) -> Seq<char> {
        match self {
            StartError::HomeUnresolved => "The user profile directory cannot be resolved"@,
            StartError::DirectoryUnavailable => "The storage directory cannot be created"@,
            StartError::StoreUnreadable => "The store file cannot be read"@,
            StartError::StoreCorrupt => "The store file is corrupt"@,
        }
    }

    /// What the user is told.
    pub fn message(self) -> (text: &'static str)
        ensures
            text@ == self.message_of(),
    {
        match self {
            StartError::HomeUnresolved => "The user profile directory cannot be resolved",
            StartError::DirectoryUnavailable => "The storage directory cannot be created",
            StartError::StoreUnreadable => "The store file cannot be read",
            StartError::StoreCorrupt => "The store file is corrupt",
        }
    }
}

/// What happened outside since the last action.
#[derive(Debug, PartialEq, Eq)]
pub enum Event {
    /// The focus was sampled: the window title, and the time in epoch seconds.
    Sampled { title: String, now: u64 },
    /// The text was written to the store file.
    Written,
    /// The text could not be written.
    WriteFailed,
    /// One quantum was slept; `keep_running` is the run flag read after it.
    Slept { keep_running: bool },
}

/// What the loop does next.
#[derive(Debug, PartialEq, Eq)]
pub enum Action {
    /// Sample the focus and the clock; answer with `Sampled`.
    Sample,
    /// Overwrite the store file with `text`; answer with `Written` or
    /// `WriteFailed`.
    Write { text: String },
    /// Emit the notice if there is one, sleep one quantum and read the run
    /// flag; answer with `Slept`.
    Sleep { notice: Option<Notice> },
    /// Emit `SaveFailed` if the final save failed, then `Stopped`, and leave
    /// the loop.
    Exit { save_failed: bool },
}

/// The mathematical value of an [`Event`].
pub ghost enum EventView {
    Sampled { title: Seq<char>, now: u64 },
    Written,
    WriteFailed,
    Slept { keep_running: bool },
}

/// The mathematical value of an [`Action`].
pub ghost enum ActionView {
    Sample,
    Write { text: Seq<char> },
    Sleep { notice: Option<Notice> },
    Exit { save_failed: bool },
}

impl View for Event {
    type V = EventView;

    open spec fn view(&self) -> EventView {
        match self {
            Event::Sampled { title, now } => EventView::Sampled { title: title@, now: *now },
            Event::Written => EventView::Written,
            Event::WriteFailed => EventView::WriteFailed,
            Event::Slept { keep_running } => EventView::Slept { keep_running: *keep_running },
        }
    }
}

impl View for Action {
    type V = ActionView;

    open spec fn view(&self) -> ActionView {
        match self {
            Action::Sample => ActionView::Sample,
            Action::Write { text } => ActionView::Write { text: text@ },
            Action::Sleep { notice } => ActionView::Sleep { notice: *notice },
            Action::Exit { save_failed } => ActionView::Exit { save_failed: *save_failed },
        }
    }
}

/// A running session: the ledger, the time of the last save, and what the
/// loop is waiting for.
#[derive(Debug)]
pub struct Session {
    pub ledger: ActivityLedger,
    pub last_save: u64,
    pub phase: Phase,
}

/// The mathematical value of a [`Session`].
pub ghost struct SessionView {
    pub records: Seq<RecordView>,
    pub last_save: u64,
    pub phase: Phase,
}

impl View for Session {
    type V = SessionView;

    open spec fn view(&self) -> SessionView {
        SessionView { records: self.ledger@, last_save: self.last_save, phase: self.phase }
    }
}

/// More than the save interval lies between the last save and `now`. A clock
/// that went backwards makes no save due.
pub open spec fn save_due(last_save: u64, now: u64) -> bool {
    now - last_save > SAVE_INTERVAL_SECONDS
}

/// The session and the action that follow `event`; `None` where the session
/// is not waiting for such an event.
///
/// A sample counts one tick; where a save is due the time of the last save
/// moves to the sample's, whether the save then succeeds or not. A cleared
/// run flag leads to one final save and to the exit.
pub open spec fn after(session: SessionView, event: EventView) -> Option<(SessionView, ActionView)> {
    match (session.phase, event) {
        (Phase::Sampling, EventView::Sampled { title, now }) => {
            let records = ticked(session.records, title, now);
            if !save_due(session.last_save, now) {
                Some(
                    (
                        SessionView { records, last_save: session.last_save, phase: Phase::Sleeping },
                        ActionView::Sleep { notice: None },
                    ),
                )
            } else {
                match saved(records) {
                    Some(text) => Some(
                        (
                            SessionView { records, last_save: now, phase: Phase::Saving },
                            ActionView::Write { text },
                        ),
                    ),
                    None => Some(
                        (
                            SessionView { records, last_save: now, phase: Phase::Sleeping },
                            ActionView::Sleep { notice: Some(Notice::SaveFailed) },
                        ),
                    ),
                }
            }
        },
        (Phase::Saving, EventView::Written) => Some(
            (
                SessionView { phase: Phase::Sleeping, ..session },
                ActionView::Sleep { notice: Some(Notice::Tracking) },
            ),
        ),
        (Phase::Saving, EventView::WriteFailed) => Some(
            (
                SessionView { phase: Phase::Sleeping, ..session },
                ActionView::Sleep { notice: Some(Notice::SaveFailed) },
            ),
        ),
        (Phase::Sleeping, EventView::Slept { keep_running }) => if keep_running {
            Some((SessionView { phase: Phase::Sampling, ..session }, ActionView::Sample))
        } else {
            match saved(session.records) {
                Some(text) => Some(
                    (SessionView { phase: Phase::Closing, ..session }, ActionView::Write { text }),
                ),
                None => Some(
                    (
                        SessionView { phase: Phase::Done, ..session },
                        ActionView::Exit { save_failed: true },
                    ),
                ),
            }
        },
        (Phase::Closing, EventView::Written) => Some(
            (SessionView { phase: Phase::Done, ..session }, ActionView::Exit { save_failed: false }),
        ),
        (Phase::Closing, EventView::WriteFailed) => Some(
            (SessionView { phase: Phase::Done, ..session }, ActionView::Exit { save_failed: true }),
        ),
        _ => None,
    }
}

impl Session {
    /// Whether the counter of `title` has room for one more tick.
    pub fn has_room(&self, title: &str) -> (room: bool)
        ensures
            room == (seconds(self.ledger@, title@) < u64::MAX),
    {
        match self.ledger.seconds_for(title) {
            Some(counted) => counted < u64::MAX,
            None => true,
        }
    }

    /// Takes in what happened outside and says what the loop does next.
    ///
    /// An event that the session is not waiting for changes nothing and gets
    /// no action. The counter of a sampled title must have room for the tick.
    pub fn step(&mut self, event: Event) -> (action: Option<Action>)
        requires
            old(self).phase is Sampling && event is Sampled ==> seconds(
                old(self).ledger@,
                event->title@,
            ) < u64::MAX,
        ensures
            match action {
                Some(a) => after(old(self)@, event@) == Some((final(self)@, a@)),
                None => after(old(self)@, event@).is_none() && final(self)@ == old(self)@,
            },
            old(self).phase is Sampling && event is Sampled ==> seconds(
                final(self).ledger@,
                event->title@,
            ) == seconds(old(self).ledger@, event->title@) + 1,
            titles_distinct(final(self).ledger@),
    {
        proof {
            use_type_invariant(&self.ledger);
        }
        match (self.phase, event) {
            (Phase::Sampling, Event::Sampled { title, now }) => {
                self.ledger.record_tick(title.as_str(), now);
                if now > self.last_save && now - self.last_save > SAVE_INTERVAL_SECONDS {
                    self.last_save = now;
                    match save_text(&self.ledger) {
                        Some(text) => {
                            self.phase = Phase::Saving;
                            Some(Action::Write { text })
                        },
                        None => {
                            self.phase = Phase::Sleeping;
                            Some(Action::Sleep { notice: Some(Notice::SaveFailed) })
                        },
                    }
                } else {
                    self.phase = Phase::Sleeping;
                    Some(Action::Sleep { notice: None })
                }
            },
            (Phase::Saving, Event::Written) => {
                self.phase = Phase::Sleeping;
                Some(Action::Sleep { notice: Some(Notice::Tracking) })
            },
            (Phase::Saving, Event::WriteFailed) => {
                self.phase = Phase::Sleeping;
                Some(Action::Sleep { notice: Some(Notice::SaveFailed) })
            },
            (Phase::Sleeping, Event::Slept { keep_running }) => {
                if keep_running {
                    self.phase = Phase::Sampling;
                    Some(Action::Sample)
                } else {
                    match save_text(&self.ledger) {
                        Some(text) => {
                            self.phase = Phase::Closing;
                            Some(Action::Write { text })
                        },
                        None => {
                            self.phase = Phase::Done;
                            Some(Action::Exit { save_failed: true })
                        },
                    }
                }
            },
            (Phase::Closing, Event::Written) => {
                self.phase = Phase::Done;
                Some(Action::Exit { save_failed: false })
            },
            (Phase::Closing, Event::WriteFailed) => {
                self.phase = Phase::Done;
                Some(Action::Exit { save_failed: true })
            },
            _ => None,
        }
    }
}

/// How a start request ended.
#[derive(Debug)]
pub enum StartOutcome {
    /// The process was not idle: nothing was done.
    AlreadyRunning,
    /// The session that has started. Its loop begins with a sample.
    Started(Session),
    /// No session started; the process is idle.
    Failed(StartError),
}

/// The records with which a session starts on what was found, or why it
/// cannot start: no store file and an empty one are an empty ledger, a file
/// that is no store is an error.
pub open spec fn opened(read: StoreRead) -> Result<Seq<RecordView>, StartError> {
    match read {
        StoreRead::HomeUnresolved => Err(StartError::HomeUnresolved),
        StoreRead::DirectoryUnavailable => Err(StartError::DirectoryUnavailable),
        StoreRead::Unreadable => Err(StartError::StoreUnreadable),
        StoreRead::Missing => Ok(Seq::empty()),
        StoreRead::Contents(text) => match loaded(text@) {
            Some(records) => Ok(records),
            None => Err(StartError::StoreCorrupt),
        },
    }
}

/// A start request begins a session exactly when the process is idle and
/// the store can be had.
pub open spec fn begins_session(state: AppState, read: StoreRead) -> bool {
    state.is_idle() && opened(read) is Ok
}

/// The state after a start request on what was found: running where a
/// session begins, else as it was.
pub open spec fn after_start(state: AppState, read: StoreRead) -> AppState {
    if begins_session(state, read) {
        AppState { keep_running: true, loop_active: true }
    } else {
        state
    }
}

/// The state after a stop request: the run flag is clear, and a loop that
/// exists is still there.
pub open spec fn after_stop(state: AppState) -> AppState {
    AppState { keep_running: false, loop_active: state.loop_active }
}

/// Loads the ledger from what was found where the store is kept.
pub fn open_store(read: &StoreRead) -> (ledger: Result<ActivityLedger, StartError>)
    ensures
        match ledger {
            Ok(l) => opened(*read) == Ok::<Seq<RecordView>, StartError>(l@),
            Err(e) => opened(*read) == Err::<Seq<RecordView>, StartError>(e),
        },
{
    match read {
        StoreRead::HomeUnresolved => Err(StartError::HomeUnresolved),
        StoreRead::DirectoryUnavailable => Err(StartError::DirectoryUnavailable),
        StoreRead::Unreadable => Err(StartError::StoreUnreadable),
        StoreRead::Missing => Ok(ActivityLedger::new()),
        StoreRead::Contents(text) => match load_ledger(text.as_str()) {
            Some(ledger) => Ok(ledger),
            None => Err(StartError::StoreCorrupt),
        },
    }
}

/// Tests and sets the run flag for a start: from idle the state becomes
/// running and the start goes on with [`finish_start`]; in any other state
/// nothing changes and no start is begun.
pub fn begin_start(state: &mut AppState) -> (begun: bool)
    ensures
        begun == old(state).is_idle(),
        begun ==> *final(state) == (AppState { keep_running: true, loop_active: true }),
        !begun ==> *final(state) == *old(state),
{
    if state.keep_running || state.loop_active {
        return false;
    }
    state.keep_running = true;
    state.loop_active = true;
    true
}

/// Completes a start that [`begin_start`] has begun, at time `now`, on what
/// was found where the store is kept.
///
/// The session starts with the stored ledger, waiting for its first sample,
/// its last save counted from `now`. Where the store cannot be had, no
/// session starts and the state is idle again.
pub fn finish_start(state: &mut AppState, read: StoreRead, now: u64) -> (outcome: StartOutcome)
    requires
        old(state).keep_running,
    ensures
        match opened(read) {
            Ok(records) => {
                &&& outcome matches StartOutcome::Started(session) && session@ == (SessionView {
                    records,
                    last_save: now,
                    phase: Phase::Sampling,
                })
                &&& *final(state) == (AppState { keep_running: true, loop_active: true })
            },
            Err(e) => {
                &&& outcome matches StartOutcome::Failed(error) && error == e
                &&& final(state).is_idle()
            },
        },
{
    match open_store(&read) {
        Ok(ledger) => {
            state.loop_active = true;
            StartOutcome::Started(Session { ledger, last_save: now, phase: Phase::Sampling })
        },
        Err(error) => {
            state.keep_running = false;
            state.loop_active = false;
            StartOutcome::Failed(error)
        },
    }
}

/// Starts a tracking session at time `now` on what was found where the store
/// is kept, if the process is idle.
///
/// The state is tested and set in this one call. While a session runs, or
/// while the loop of a stopped one has not left, the request changes
/// nothing. From idle the session starts with the stored ledger, waiting for
/// its first sample, its last save counted from `now`; where the store
/// cannot be had, no session starts and the state stays idle.
pub fn init_tracking(state: &mut AppState, read: StoreRead, now: u64) -> (outcome: StartOutcome)
    ensures
        *final(state) == after_start(*old(state), read),
        outcome is Started == begins_session(*old(state), read),
        !old(state).is_idle() ==> outcome is AlreadyRunning,
        old(state).is_idle() ==> match opened(read) {
            Ok(records) => outcome matches StartOutcome::Started(session) && session@ == (
            SessionView { records, last_save: now, phase: Phase::Sampling }),
            Err(e) => outcome matches StartOutcome::Failed(error) && error == e,
        },
{
    if !begin_start(state) {
        return StartOutcome::AlreadyRunning;
    }
    finish_start(state, read, now)
}

/// Asks the running session to stop: clears the run flag. The loop sees it
/// after its next sleep; until it has left, no other session starts.
pub fn stop_tracking(state: &mut AppState)
    ensures
        *final(state) == after_stop(*old(state)),
{
    state.keep_running = false;
}

/// Records that the loop has left: the process is idle again and a session
/// can start.
pub fn end_tracking(state: &mut AppState)
    ensures
        final(state).is_idle(),
{
    state.keep_running = false;
    state.loop_active = false;
}

/// The acknowledgement of a start request.
pub fn start_tracking() -> (acknowledgement: String)
    ensures
        acknowledgement@ == "Tracking started"@,
{
    String::from_str("Tracking started")
}

/// A start request while the process is not idle begins no session and
/// changes nothing. Of two start requests in a row at most one begins a
/// session: after one that did, the next begins none, whatever it finds in
/// the store, and the state stays as the first left it.
pub proof fn lemma_start_is_idempotent(state: AppState, first: StoreRead, second: StoreRead)
    ensures
        !state.is_idle() ==> !begins_session(state, first) && after_start(state, first) == state,
        begins_session(state, first) ==> !begins_session(after_start(state, first), second)
            && after_start(after_start(state, first), second) == after_start(state, first),
{
}

/// While the loop of a stopped session has not left, a start request begins
/// no session and leaves the run flag clear: the loop, which reads the flag
/// after its sleep, is sent to its final save and not back to sampling.
pub proof fn lemma_no_start_before_exit(state: AppState, read: StoreRead, session: SessionView)
    requires
        state.loop_active,
        session.phase is Sleeping,
    ensures
        !begins_session(after_stop(state), read),
        after_start(after_stop(state), read) == after_stop(state),
        after(
            session,
            EventView::Slept { keep_running: after_start(after_stop(state), read).keep_running },
        ) matches Some((_, action)) && !(action is Sample),
{
}

/// Only a sample changes the records, and it counts exactly one tick for
/// the sampled title: sleeping, saving and stopping leave every count as it
/// was.
pub proof fn lemma_records_change_only_by_ticks(session: SessionView, event: EventView)
    requires
        after(session, event) is Some,
    ensures
        after(session, event)->Some_0.0.records == if event is Sampled {
            ticked(session.records, event->title, event->now)
        } else {
            session.records
        },
{
}

/// Once the run flag is read clear after a sleep, the session asks for one
/// final save, where the store can be written, and then for the exit; after
/// the exit it answers no event.
pub proof fn lemma_stop_saves_once(session: SessionView, outcome: EventView, later: EventView)
    requires
        session.phase is Sleeping,
        outcome is Written || outcome is WriteFailed,
    ensures
        match saved(session.records) {
            Some(text) => {
                let closing = SessionView { phase: Phase::Closing, ..session };
                let done = SessionView { phase: Phase::Done, ..session };
                &&& after(session, EventView::Slept { keep_running: false }) == Some(
                    (closing, ActionView::Write { text }),
                )
                &&& after(closing, outcome) == Some(
                    (done, ActionView::Exit { save_failed: outcome is WriteFailed }),
                )
                &&& after(done, later).is_none()
            },
            None => {
                let done = SessionView { phase: Phase::Done, ..session };
                &&& after(session, EventView::Slept { keep_running: false }) == Some(
                    (done, ActionView::Exit { save_failed: true }),
                )
                &&& after(done, later).is_none()
            },
        },
{
}

} // verus!
