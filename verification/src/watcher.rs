//! The sidecar watcher: the decisions taken between spawning the backend and
//! the end of its output. The host performs what a decision asks for (it
//! creates the command, spawns it, waits for the child's next event) and hands
//! back what happened; the watcher says what to report, whether a port has
//! been announced, and what to do next.

use crate::readiness::{parse_ready_line, ready_port};
use crate::state::BackendState;
use crate::text::{decode_lossy, decoded};
use vstd::prelude::*;

verus! {

/// How far the watcher has come.
#[derive(Clone, Copy, Debug, PartialEq, Eq, Structural)]
pub enum Phase {
    /// Nothing has been done yet.
    Idle,
    /// The sidecar command exists and has not been spawned.
    CommandReady,
    /// The child runs and its events are being read.
    Watching,
    /// The watch has ended; it does not start again.
    Stopped,
}

/// What the host is to do next.
#[derive(Clone, Copy, Debug, PartialEq, Eq, Structural)]
pub enum Action {
    /// Create the command for the sidecar named by [`sidecar_name`].
    CreateCommand,
    /// Spawn the command.
    Spawn,
    /// Wait for the child's next event.
    AwaitEvent,
    /// Nothing more: leave the loop.
    Stop,
}

/// What the host hands back.
#[derive(Debug, PartialEq, Eq)]
pub enum SidecarEvent {
    /// The sidecar command has been created.
    CommandCreated,
    /// The sidecar command could not be created.
    CommandFailed(String),
    /// The child has been spawned.
    Spawned,
    /// The child could not be spawned.
    SpawnFailed(String),
    /// The child wrote a line to its standard output.
    Stdout(Vec<u8>),
    /// The child wrote a line to its standard error.
    Stderr(Vec<u8>),
    /// The channel to the child reported an error.
    Error(String),
    /// The child has exited, with this code if it is known.
    Terminated(Option<i32>),
    /// An event of a kind the watcher does not know.
    Other,
    /// The stream of events has ended.
    Closed,
    /// The notification asked for by the last step could not be delivered.
    NotifyFailed(String),
}

/// A [`SidecarEvent`] as a mathematical value.
pub enum SidecarEventView {
    CommandCreated,
    CommandFailed(Seq<char>),
    Spawned,
    SpawnFailed(Seq<char>),
    Stdout(Seq<u8>),
    Stderr(Seq<u8>),
    Error(Seq<char>),
    Terminated(Option<i32>),
    Other,
    Closed,
    NotifyFailed(Seq<char>),
}

impl View for SidecarEvent {
    type V = SidecarEventView;

    open spec fn view(&self) -> SidecarEventView {
        match self {
            SidecarEvent::CommandCreated => SidecarEventView::CommandCreated,
            SidecarEvent::CommandFailed(reason) => SidecarEventView::CommandFailed(reason@),
            SidecarEvent::Spawned => SidecarEventView::Spawned,
            SidecarEvent::SpawnFailed(reason) => SidecarEventView::SpawnFailed(reason@),
            SidecarEvent::Stdout(line) => SidecarEventView::Stdout(line@),
            SidecarEvent::Stderr(line) => SidecarEventView::Stderr(line@),
            SidecarEvent::Error(reason) => SidecarEventView::Error(reason@),
            SidecarEvent::Terminated(code) => SidecarEventView::Terminated(*code),
            SidecarEvent::Other => SidecarEventView::Other,
            SidecarEvent::Closed => SidecarEventView::Closed,
            SidecarEvent::NotifyFailed(reason) => SidecarEventView::NotifyFailed(reason@),
        }
    }
}

/// What the host is to report of a step, each on the stream named.
#[derive(Debug, PartialEq, Eq)]
pub enum Notice {
    /// Diagnostic output: the sidecar command has been created.
    CommandCreated,
    /// Error output: the sidecar command could not be created.
    CommandFailed(String),
    /// Diagnostic output: the child runs, the port is awaited.
    Spawned,
    /// Error output: the child could not be spawned.
    SpawnFailed(String),
    /// Diagnostic output: the backend is ready on this port.
    Ready(u16),
    /// Diagnostic output: a line the backend wrote to its standard output.
    Output(String),
    /// Error output: a line the backend wrote to its standard error.
    ErrorOutput(String),
    /// Error output: the channel to the child reported an error.
    BackendError(String),
    /// Error output: the child has exited, with this code if it is known.
    Terminated(Option<i32>),
    /// Error output: the notification could not be delivered.
    NotifyFailed(String),
}

/// A [`Notice`] as a mathematical value.
pub enum NoticeView {
    CommandCreated,
    CommandFailed(Seq<char>),
    Spawned,
    SpawnFailed(Seq<char>),
    Ready(u16),
    Output(Seq<char>),
    ErrorOutput(Seq<char>),
    BackendError(Seq<char>),
    Terminated(Option<i32>),
    NotifyFailed(Seq<char>),
}

impl View for Notice {
    type V = NoticeView;

    open spec fn view(&self) -> NoticeView {
        match self {
            Notice::CommandCreated => NoticeView::CommandCreated,
            Notice::CommandFailed(reason) => NoticeView::CommandFailed(reason@),
            Notice::Spawned => NoticeView::Spawned,
            Notice::SpawnFailed(reason) => NoticeView::SpawnFailed(reason@),
            Notice::Ready(port) => NoticeView::Ready(*port),
            Notice::Output(text) => NoticeView::Output(text@),
            Notice::ErrorOutput(text) => NoticeView::ErrorOutput(text@),
            Notice::BackendError(reason) => NoticeView::BackendError(reason@),
            Notice::Terminated(code) => NoticeView::Terminated(*code),
            Notice::NotifyFailed(reason) => NoticeView::NotifyFailed(reason@),
        }
    }
}

/// What one step asks of the host, before the next action.
#[derive(Debug, PartialEq, Eq)]
pub struct Step {
    /// What to report, if anything.
    pub notice: Option<Notice>,
    /// The port to send with one `backend-ready` notification, if any is to
    /// be sent.
    pub ready: Option<u16>,
}

/// A [`Step`] as a mathematical value.
pub struct StepView {
    pub notice: Option<NoticeView>,
    pub ready: Option<u16>,
}

impl View for Step {
    type V = StepView;

    open spec fn view(&self) -> StepView {
        StepView {
            notice: match self.notice {
                Some(notice) => Some(notice@),
                None => None,
            },
            ready: self.ready,
        }
    }
}

/// The step that asks for nothing.
pub open spec fn silent() -> StepView {
    StepView { notice: None, ready: None }
}

/// The step that asks for a report and nothing else.
pub open spec fn report(notice: NoticeView) -> StepView {
    StepView { notice: Some(notice), ready: None }
}

/// What the cell holds after a line of standard output with this text.
pub open spec fn port_after_stdout(port: Option<u16>, text: Seq<char>) -> Option<u16> {
    match ready_port(text) {
        Some(announced) => Some(announced),
        None => port,
    }
}

/// What a line of standard output with this text asks of the host: a
/// readiness line is reported and notified, any other line that is not empty
/// is reported as output of the backend, an empty line is passed over.
pub open spec fn stdout_step(text: Seq<char>) -> StepView {
    match ready_port(text) {
        Some(announced) => StepView {
            notice: Some(NoticeView::Ready(announced)),
            ready: Some(announced),
        },
        None => if text.len() > 0 {
            report(NoticeView::Output(text))
        } else {
            silent()
        },
    }
}

/// The phase after `event` has arrived in `phase`. An event that the phase
/// does not wait for leaves it as it is.
pub open spec fn next_phase(phase: Phase, event: SidecarEventView) -> Phase {
    match (phase, event) {
        (Phase::Idle, SidecarEventView::CommandCreated) => Phase::CommandReady,
        (Phase::Idle, SidecarEventView::CommandFailed(_)) => Phase::Stopped,
        (Phase::CommandReady, SidecarEventView::Spawned) => Phase::Watching,
        (Phase::CommandReady, SidecarEventView::SpawnFailed(_)) => Phase::Stopped,
        (Phase::Watching, SidecarEventView::Error(_)) => Phase::Stopped,
        (Phase::Watching, SidecarEventView::Terminated(_)) => Phase::Stopped,
        (Phase::Watching, SidecarEventView::Closed) => Phase::Stopped,
        _ => phase,
    }
}

/// What the cell holds after `event` has arrived in `phase`: only a
/// readiness line, read while the child is watched, changes it.
pub open spec fn next_port(phase: Phase, port: Option<u16>, event: SidecarEventView) -> Option<
    u16,
> {
    match (phase, event) {
        (Phase::Watching, SidecarEventView::Stdout(line)) => port_after_stdout(port, decoded(line)),
        _ => port,
    }
}

/// What `event`, arriving in `phase`, asks of the host. An event that the
/// phase does not wait for asks for nothing.
pub open spec fn step_for(phase: Phase, event: SidecarEventView) -> StepView {
    match (phase, event) {
        (Phase::Idle, SidecarEventView::CommandCreated) => report(NoticeView::CommandCreated),
        (Phase::Idle, SidecarEventView::CommandFailed(reason)) => report(
            NoticeView::CommandFailed(reason),
        ),
        (Phase::CommandReady, SidecarEventView::Spawned) => report(NoticeView::Spawned),
        (Phase::CommandReady, SidecarEventView::SpawnFailed(reason)) => report(
            NoticeView::SpawnFailed(reason),
        ),
        (Phase::Watching, SidecarEventView::Stdout(line)) => stdout_step(decoded(line)),
        (Phase::Watching, SidecarEventView::Stderr(line)) => report(
            NoticeView::ErrorOutput(decoded(line)),
        ),
        (Phase::Watching, SidecarEventView::Error(reason)) => report(
            NoticeView::BackendError(reason),
        ),
        (Phase::Watching, SidecarEventView::Terminated(code)) => report(
            NoticeView::Terminated(code),
        ),
        (Phase::Watching, SidecarEventView::NotifyFailed(reason)) => report(
            NoticeView::NotifyFailed(reason),
        ),
        _ => silent(),
    }
}

/// What the host is to do in `phase`.
pub open spec fn action_in(phase: Phase) -> Action {
    match phase {
        Phase::Idle => Action::CreateCommand,
        Phase::CommandReady => Action::Spawn,
        Phase::Watching => Action::AwaitEvent,
        Phase::Stopped => Action::Stop,
    }
}

/// The name under which the host finds the backend's executable.
pub fn sidecar_name() -> (name: &'static str)
    ensures
        name@ == "backend"@,
{
    "backend"
}

/// The name of the notification that announces the port.
pub fn ready_event_name() -> (name: &'static str)
    ensures
        name@ == "backend-ready"@,
{
    "backend-ready"
}

/// The watcher of one sidecar, from before its spawn to the end of its
/// output. The view is the phase it is in.
#[derive(Debug)]
pub struct Watcher {
    phase: Phase,
}

impl View for Watcher {
    type V = Phase;

    closed spec fn view(&self) -> Phase {
        self.phase
    }
}

impl Watcher {
    /// A watcher that has done nothing yet.
    pub fn new() -> (watcher: Watcher)
        ensures
            watcher@ == Phase::Idle,
    {
        Watcher { phase: Phase::Idle }
    }

    /// The phase the watcher is in.
    pub fn phase(&self) -> (phase: Phase)
        ensures
            phase == self@,
    {
        self.phase
    }

    /// What the host is to do next.
    pub fn action(&self) -> (action: Action)
        ensures
            action == action_in(self@),
    {
        match self.phase {
            Phase::Idle => Action::CreateCommand,
            Phase::CommandReady => Action::Spawn,
            Phase::Watching => Action::AwaitEvent,
            Phase::Stopped => Action::Stop,
        }
    }

    /// Takes a line of the child's standard output, already decoded. While
    /// the child is watched, a readiness line stores its port in `cell` and
    /// asks for the report and the notification; any other line leaves the
    /// cell as it is. In any other phase nothing happens.
    pub fn on_stdout(&mut self, cell: &mut BackendState, text: String) -> (step: Step)
        ensures
            final(self)@ == old(self)@,
            final(cell)@ == if old(self)@ == Phase::Watching {
                port_after_stdout(old(cell)@, text@)
            } else {
                old(cell)@
            },
            step@ == if old(self)@ == Phase::Watching {
                stdout_step(text@)
            } else {
                silent()
            },
    {
        if self.phase != Phase::Watching {
            return Step { notice: None, ready: None };
        }
        match parse_ready_line(text.as_str()) {
            Some(port) => {
                cell.write(port);
                Step { notice: Some(Notice::Ready(port)), ready: Some(port) }
            },
            None => {
                if text.as_str().is_empty() {
                    Step { notice: None, ready: None }
                } else {
                    Step { notice: Some(Notice::Output(text)), ready: None }
                }
            },
        }
    }

    /// Takes what the host hands back and decides: the phase moves as
    /// [`next_phase`] says, `cell` holds what [`next_port`] says, and the step
    /// returned is [`step_for`] the event.
    pub fn on_event(&mut self, cell: &mut BackendState, event: SidecarEvent) -> (step: Step)
        ensures
            final(self)@ == next_phase(old(self)@, event@),
            final(cell)@ == next_port(old(self)@, old(cell)@, event@),
            step@ == step_for(old(self)@, event@),
    {
        match self.phase {
            Phase::Idle => match event {
                SidecarEvent::CommandCreated => {
                    self.phase = Phase::CommandReady;
                    Step { notice: Some(Notice::CommandCreated), ready: None }
                },
                SidecarEvent::CommandFailed(reason) => {
                    self.phase = Phase::Stopped;
                    Step { notice: Some(Notice::CommandFailed(reason)), ready: None }
                },
                _ => Step { notice: None, ready: None },
            },
            Phase::CommandReady => match event {
                SidecarEvent::Spawned => {
                    self.phase = Phase::Watching;
                    Step { notice: Some(Notice::Spawned), ready: None }
                },
                SidecarEvent::SpawnFailed(reason) => {
                    self.phase = Phase::Stopped;
                    Step { notice: Some(Notice::SpawnFailed(reason)), ready: None }
                },
                _ => Step { notice: None, ready: None },
            },
            Phase::Watching => match event {
                SidecarEvent::Stdout(line) => {
                    let text = decode_lossy(line.as_slice());
                    self.on_stdout(cell, text)
                },
                SidecarEvent::Stderr(line) => {
                    let text = decode_lossy(line.as_slice());
                    Step { notice: Some(Notice::ErrorOutput(text)), ready: None }
                },
                SidecarEvent::Error(reason) => {
                    self.phase = Phase::Stopped;
                    Step { notice: Some(Notice::BackendError(reason)), ready: None }
                },
                SidecarEvent::Terminated(code) => {
                    self.phase = Phase::Stopped;
                    Step { notice: Some(Notice::Terminated(code)), ready: None }
                },
                SidecarEvent::Closed => {
                    self.phase = Phase::Stopped;
                    Step { notice: None, ready: None }
                },
                SidecarEvent::NotifyFailed(reason) => Step {
                    notice: Some(Notice::NotifyFailed(reason)),
                    ready: None,
                },
                _ => Step { notice: None, ready: None },
            },
            Phase::Stopped => Step { notice: None, ready: None },
        }
    }
}

} // verus!
