//! The vocabulary shared by the step machines: the outside work a machine
//! asks for (an action) and what came of it (an event). A driver performs
//! each action and hands the matching event back; the machines decide.
use vstd::prelude::*;
use crate::report::{ProcessOutput, result_view};
use crate::text::views;

verus! {

/// The program an action runs.
#[derive(Debug, Clone, Copy, PartialEq, Eq, Structural)]
pub enum Program {
    /// The container runtime's command line client.
    Docker,
    /// The host interpreter (overridable by the driver's environment).
    Interpreter,
    /// The interpreter inside the run's virtual environment.
    EnvInterpreter,
}

/// A process to spawn, with the run's workspace (if any) as its working
/// directory.
#[derive(Debug, PartialEq, Eq)]
pub struct Command {
    pub program: Program,
    pub args: Vec<String>,
}

pub struct CommandView {
    pub program: Program,
    pub args: Seq<Seq<char>>,
}

impl View for Command {
    type V = CommandView;

    open spec fn view(&self) -> CommandView {
        CommandView { program: self.program, args: views(self.args@) }
    }
}

/// Outside work requested by a step machine.
#[derive(Debug, PartialEq, Eq)]
pub enum Action {
    /// Create the run's scratch directory, its name starting with `name`.
    CreateWorkspace { name: String },
    /// Write `contents` to the file `name` inside the workspace.
    WriteFile { name: String, contents: String },
    /// Spawn the command and capture its streams and exit status.
    Run(Command),
    /// Spawn the command as cleanup: its outcome is only logged.
    Discard(Command),
    /// Remove the workspace and everything in it; failure is only logged.
    RemoveWorkspace,
    /// The run is over: hand this result to the caller.
    Finish(Result<String, String>),
}

pub enum ActionView {
    CreateWorkspace { name: Seq<char> },
    WriteFile { name: Seq<char>, contents: Seq<char> },
    Run(CommandView),
    Discard(CommandView),
    RemoveWorkspace,
    Finish(Result<Seq<char>, Seq<char>>),
}

impl View for Action {
    type V = ActionView;

    open spec fn view(&self) -> ActionView {
        match self {
            Action::CreateWorkspace { name } => ActionView::CreateWorkspace { name: name@ },
            Action::WriteFile { name, contents } => ActionView::WriteFile {
                name: name@,
                contents: contents@,
            },
            Action::Run(c) => ActionView::Run(c@),
            Action::Discard(c) => ActionView::Discard(c@),
            Action::RemoveWorkspace => ActionView::RemoveWorkspace,
            Action::Finish(r) => ActionView::Finish(result_view(*r)),
        }
    }
}

/// What came of an action.
#[derive(Debug, PartialEq, Eq)]
pub enum Event {
    /// The workspace exists.
    WorkspaceCreated,
    /// The file was written.
    Written,
    /// The spawned process finished.
    Exited(ProcessOutput),
    /// The action could not be carried out; the text says why.
    Failed(String),
    /// A cleanup action was attempted.
    CleanedUp,
}

pub enum EventView {
    WorkspaceCreated,
    Written,
    Exited { success: bool, stdout: Seq<char>, stderr: Seq<char> },
    Failed(Seq<char>),
    CleanedUp,
}

impl View for Event {
    type V = EventView;

    open spec fn view(&self) -> EventView {
        match self {
            Event::WorkspaceCreated => EventView::WorkspaceCreated,
            Event::Written => EventView::Written,
            Event::Exited(o) => EventView::Exited {
                success: o.success,
                stdout: o.stdout@,
                stderr: o.stderr@,
            },
            Event::Failed(m) => EventView::Failed(m@),
            Event::CleanedUp => EventView::CleanedUp,
        }
    }
}

/// The kind of event a machine waits for, set by its last action.
#[derive(Debug, Clone, Copy, PartialEq, Eq, Structural)]
pub enum Awaiting {
    Workspace,
    File,
    Process,
    Cleanup,
    Nothing,
}

/// `e` is a possible outcome of the action that left the machine waiting
/// for `w`.
pub open spec fn answers(w: Awaiting, e: EventView) -> bool {
    match w {
        Awaiting::Workspace => e is WorkspaceCreated || e is Failed,
        Awaiting::File => e is Written || e is Failed,
        Awaiting::Process => e is Exited || e is Failed,
        Awaiting::Cleanup => e is CleanedUp,
        Awaiting::Nothing => false,
    }
}

impl Event {
    pub fn answers(&self, w: Awaiting) -> (r: bool)
        ensures
            r == answers(w, self@),
    {
        match w {
            Awaiting::Workspace => matches!(self, Event::WorkspaceCreated | Event::Failed(_)),
            Awaiting::File => matches!(self, Event::Written | Event::Failed(_)),
            Awaiting::Process => matches!(self, Event::Exited(_) | Event::Failed(_)),
            Awaiting::Cleanup => matches!(self, Event::CleanedUp),
            Awaiting::Nothing => false,
        }
    }
}

/// Appends a copy of `s`.
pub fn push_str(v: &mut Vec<String>, s: &str)
    ensures
        views(final(v)@) == views(old(v)@).push(s@),
{
    let ghost before = v@;
    v.push(String::from_str(s));
    assert(views(v@) =~= views(before).push(s@));
}

} // verus!
