//! The lifecycle of a capture session, as its owner sees it: which state
//! follows which, what the owner has to do at each turn, and what a
//! consumer is told when it asks for a result.

use crate::error::check_launch;
use crate::error::AudioCaptureError;
use crate::error::Launch;
use crate::link::Poll;
use vstd::prelude::*;

verus! {

/// The states of a session. It goes from `Stopped` through `Starting`,
/// `Running` and `Stopping` back to `Stopped`, once: a session that has
/// stopped is not started again, a new one is made.
#[derive(Debug, Clone, Copy, PartialEq, Eq, Structural)]
pub enum SessionState {
    /// Nothing runs: not yet, or no more.
    Stopped,
    /// The source is being opened.
    Starting,
    /// The capture thread is at work.
    Running,
    /// The session was told to stop; the capture thread may still be
    /// winding down.
    Stopping,
}

/// What happens to a session.
#[derive(Debug, Clone, Copy, PartialEq, Eq, Structural)]
pub enum Event {
    /// The owner asks for the session to start.
    Start,
    /// The source was opened.
    Opened,
    /// The source could not be opened.
    OpenFailed,
    /// The owner asks for the session to stop, or lets go of it.
    Stop,
    /// The capture thread was seen to have exited.
    Exited,
}

/// What the owner has to do after an event.
#[derive(Debug, Clone, Copy, PartialEq, Eq, Structural)]
pub enum Command {
    /// Nothing.
    Nothing,
    /// Open the source, and report `Opened` or `OpenFailed`.
    OpenSource,
    /// Make the channels, with one ready token; set the running flag;
    /// spawn the capture thread.
    Launch,
    /// Clear the running flag and terminate the source, so that a blocked
    /// read returns.
    Teardown,
}

/// A session, as plain values.
pub struct SessionView {
    /// The state.
    pub state: SessionState,
    /// Whether the session was ever asked to start.
    pub spent: bool,
}

/// A session that was never started.
pub open spec fn unused() -> SessionView {
    SessionView { state: SessionState::Stopped, spent: false }
}

/// The state that follows an event. Events that make no sense in a state
/// change nothing.
pub open spec fn next_state(session: SessionView, event: Event) -> SessionView {
    match (session.state, event) {
        (SessionState::Stopped, Event::Start) => if session.spent {
            session
        } else {
            SessionView { state: SessionState::Starting, spent: true }
        },
        (SessionState::Starting, Event::Opened) => SessionView {
            state: SessionState::Running,
            spent: true,
        },
        (SessionState::Starting, Event::OpenFailed) => SessionView {
            state: SessionState::Stopped,
            spent: true,
        },
        (SessionState::Running, Event::Stop) => SessionView {
            state: SessionState::Stopping,
            spent: true,
        },
        (SessionState::Stopping, Event::Exited) => SessionView {
            state: SessionState::Stopped,
            spent: true,
        },
        _ => session,
    }
}

/// What the owner has to do after an event.
pub open spec fn command(session: SessionView, event: Event) -> Command {
    match (session.state, event) {
        (SessionState::Stopped, Event::Start) => if session.spent {
            Command::Nothing
        } else {
            Command::OpenSource
        },
        (SessionState::Starting, Event::Opened) => Command::Launch,
        (SessionState::Running, Event::Stop) => Command::Teardown,
        _ => Command::Nothing,
    }
}

/// The session after a run of events.
pub open spec fn after_events(session: SessionView, events: Seq<Event>) -> SessionView
    decreases events.len(),
{
    if events.len() == 0 {
        session
    } else {
        next_state(after_events(session, events.drop_last()), events.last())
    }
}

/// The owner's handle on the lifecycle of one session.
pub struct Session {
    state: SessionState,
    spent: bool,
}

impl View for Session {
    type V = SessionView;

    closed spec fn view(&self) -> SessionView {
        SessionView { state: self.state, spent: self.spent }
    }
}

impl Session {
    /// A session that was never started.
    pub fn new() -> (session: Session)
        ensures
            session@ == unused(),
    {
        Session { state: SessionState::Stopped, spent: false }
    }

    /// Takes an event: moves to the state that follows, and returns what
    /// the owner has to do.
    pub fn handle(&mut self, event: Event) -> (todo: Command)
        ensures
            final(self)@ == next_state(old(self)@, event),
            todo == command(old(self)@, event),
    {
        match (self.state, event) {
            (SessionState::Stopped, Event::Start) => {
                if self.spent {
                    Command::Nothing
                } else {
                    self.state = SessionState::Starting;
                    self.spent = true;
                    Command::OpenSource
                }
            },
            (SessionState::Starting, Event::Opened) => {
                self.state = SessionState::Running;
                self.spent = true;
                Command::Launch
            },
            (SessionState::Starting, Event::OpenFailed) => {
                self.state = SessionState::Stopped;
                self.spent = true;
                Command::Nothing
            },
            (SessionState::Running, Event::Stop) => {
                self.state = SessionState::Stopping;
                self.spent = true;
                Command::Teardown
            },
            (SessionState::Stopping, Event::Exited) => {
                self.state = SessionState::Stopped;
                self.spent = true;
                Command::Nothing
            },
            _ => Command::Nothing,
        }
    }

    /// Starts a session on what opening the source came to. Where the
    /// source did not open, no session comes to be and the source's error
    /// is handed on. Where it did, the session is running: the caller
    /// makes the channels, sets the running flag and spawns the capture
    /// thread.
    pub fn start(launch: Launch) -> (started: Result<Session, AudioCaptureError>)
        ensures
            launch is Piped ==> (started matches Ok(session) && session@ == after_events(
                unused(),
                seq![Event::Start, Event::Opened],
            ) && session@.state == SessionState::Running),
            launch is NoPipe ==> started matches Err(AudioCaptureError::NoStdout),
            launch matches Launch::Failed(e) ==> started matches Err(
                AudioCaptureError::FfmpegError(f),
            ) && f == e,
            launch matches Launch::Unavailable(why) ==> started matches Err(
                AudioCaptureError::DeviceError(said),
            ) && said == why,
    {
        let mut session = Session::new();
        let _ = session.handle(Event::Start);
        proof {
            let events = seq![Event::Start, Event::Opened];
            assert(events.drop_last() =~= seq![Event::Start]);
            assert(events.drop_last().drop_last() =~= Seq::<Event>::empty());
            reveal_with_fuel(after_events, 3);
        }
        match check_launch(launch) {
            Ok(()) => {
                let _ = session.handle(Event::Opened);
                Ok(session)
            },
            Err(e) => {
                let _ = session.handle(Event::OpenFailed);
                Err(e)
            },
        }
    }

    /// The state of the session.
    pub fn state(&self) -> (state: SessionState)
        ensures
            state == self@.state,
    {
        self.state
    }

    /// What the running flag, which the capture thread reads at the top of
    /// its loop, is to hold.
    pub fn should_run(&self) -> (run: bool)
        ensures
            run == (self@.state == SessionState::Running),
    {
        match self.state {
            SessionState::Running => true,
            _ => false,
        }
    }

    /// Tells the session to stop. Returns whether there is anything to
    /// tear down: on a running session the caller clears the running flag
    /// and terminates the source; on any other, nothing is left to do and
    /// nothing changes.
    pub fn stop(&mut self) -> (teardown: bool)
        ensures
            final(self)@ == next_state(old(self)@, Event::Stop),
            teardown == (command(old(self)@, Event::Stop) == Command::Teardown),
    {
        match self.handle(Event::Stop) {
            Command::Teardown => true,
            _ => false,
        }
    }

    /// Notes that the capture thread has exited.
    pub fn join(&mut self)
        ensures
            final(self)@ == next_state(old(self)@, Event::Exited),
    {
        let _ = self.handle(Event::Exited);
    }
}

/// What a consumer that looked for a result is told: the result, that the
/// producer has stopped, or nothing yet, in which case it goes on waiting.
pub open spec fn answer<T>(poll: Poll<T>) -> Option<Result<T, AudioCaptureError>> {
    match poll {
        Poll::Ready(result) => Some(Ok(result)),
        Poll::Disconnected => Some(Err(AudioCaptureError::Disconnected)),
        Poll::Pending => None,
    }
}

/// Turns what was found in the result channel into what the consumer is
/// told.
pub fn respond<T>(poll: Poll<T>) -> (told: Option<Result<T, AudioCaptureError>>)
    ensures
        told == answer(poll),
{
    match poll {
        Poll::Ready(result) => Some(Ok(result)),
        Poll::Disconnected => Some(Err(AudioCaptureError::Disconnected)),
        Poll::Pending => None,
    }
}

/// Stopping twice is stopping once: after a first `Stop` a second one has
/// nothing to tear down and changes nothing, whatever the state was.
pub proof fn lemma_stop_idempotent(session: SessionView)
    ensures
        command(next_state(session, Event::Stop), Event::Stop) == Command::Nothing,
        next_state(next_state(session, Event::Stop), Event::Stop) == next_state(
            session,
            Event::Stop,
        ),
{
}

/// Teardown is asked for exactly once in the life of a session that ran,
/// however many events follow the first `Stop`: from then on no event
/// brings a command.
pub proof fn lemma_teardown_once(session: SessionView, events: Seq<Event>, event: Event)
    requires
        session.spent,
        session.state == SessionState::Stopping || session.state == SessionState::Stopped,
    ensures
        command(after_events(session, events), event) == Command::Nothing,
        after_events(session, events).state != SessionState::Running,
        after_events(session, events).state != SessionState::Starting,
        after_events(session, events).spent,
    decreases events.len(),
{
    if events.len() > 0 {
        lemma_teardown_once(session, events.drop_last(), events.last());
    }
}

/// The states follow each other in one order only: whatever happens to a
/// session, it is running only if it was started and its source opened,
/// and once it was started it is spent.
pub proof fn lemma_one_way(events: Seq<Event>)
    ensures
        after_events(unused(), events).state != SessionState::Stopped ==> after_events(
            unused(),
            events,
        ).spent,
        !after_events(unused(), events).spent ==> after_events(unused(), events) == unused(),
    decreases events.len(),
{
    if events.len() > 0 {
        lemma_one_way(events.drop_last());
    }
}

} // verus!
