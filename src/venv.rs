//! A run of submitted code in a disposable virtual environment: the
//! environment is built in a directory named from the run identifier, the
//! dependencies (if any) are installed in one batch, the script is written
//! into the environment and run with its interpreter, and the directory is
//! removed on every path before the result is handed back.
use vstd::prelude::*;
use crate::action::{
    Action,
    ActionView,
    Awaiting,
    Command,
    CommandView,
    Event,
    EventView,
    Program,
    answers,
    push_str,
};
use crate::names::{venv_name, venv_name_of};
use crate::report::{concat2, copy_result, result_view, venv_report, venv_report_of};
use crate::text::{copy_strings, views};

verus! {

#[derive(Debug, Clone, Copy, PartialEq, Eq, Structural)]
pub enum VenvPhase {
    CreatingWorkspace,
    BuildingEnvironment,
    InstallingDependencies,
    WritingScript,
    Executing,
    RemovingWorkspace,
    Finished,
}

/// The state of one virtual-environment run.
pub struct VenvRun {
    code: String,
    requirements: Vec<String>,
    phase: VenvPhase,
    pending: Result<String, String>,
    holds_workspace: bool,
}

pub struct VenvRunView {
    pub code: Seq<char>,
    pub requirements: Seq<Seq<char>>,
    pub phase: VenvPhase,
    /// The result to hand back once the environment is removed.
    pub pending: Result<Seq<char>, Seq<char>>,
    /// The environment directory exists and its removal is not yet asked for.
    pub holds_workspace: bool,
}

impl View for VenvRun {
    type V = VenvRunView;

    closed spec fn view(&self) -> VenvRunView {
        VenvRunView {
            code: self.code@,
            requirements: views(self.requirements@),
            phase: self.phase,
            pending: result_view(self.pending),
            holds_workspace: self.holds_workspace,
        }
    }
}

pub open spec fn create_env_command() -> CommandView {
    CommandView { program: Program::Interpreter, args: seq!["-m"@, "venv"@, "."@] }
}

/// The environment's package installer on the whole list at once.
pub open spec fn install_command(requirements: Seq<Seq<char>>) -> CommandView {
    CommandView {
        program: Program::EnvInterpreter,
        args: seq!["-m"@, "pip"@, "install"@] + requirements,
    }
}

pub open spec fn execute_command() -> CommandView {
    CommandView { program: Program::EnvInterpreter, args: seq!["script.py"@] }
}

pub open spec fn venv_awaiting(p: VenvPhase) -> Awaiting {
    match p {
        VenvPhase::CreatingWorkspace => Awaiting::Workspace,
        VenvPhase::BuildingEnvironment => Awaiting::Process,
        VenvPhase::InstallingDependencies => Awaiting::Process,
        VenvPhase::WritingScript => Awaiting::File,
        VenvPhase::Executing => Awaiting::Process,
        VenvPhase::RemovingWorkspace => Awaiting::Cleanup,
        VenvPhase::Finished => Awaiting::Nothing,
    }
}

pub open spec fn venv_start(id: Seq<char>, code: Seq<char>, requirements: Seq<Seq<char>>) -> (
    VenvRunView,
    ActionView,
) {
    (
        VenvRunView {
            code,
            requirements,
            phase: VenvPhase::CreatingWorkspace,
            pending: Ok(Seq::empty()),
            holds_workspace: false,
        },
        ActionView::CreateWorkspace { name: venv_name_of(id) },
    )
}

pub open spec fn venv_tear_down(s: VenvRunView, r: Result<Seq<char>, Seq<char>>) -> (
    VenvRunView,
    ActionView,
) {
    (
        VenvRunView {
            phase: VenvPhase::RemovingWorkspace,
            pending: r,
            holds_workspace: false,
            ..s
        },
        ActionView::RemoveWorkspace,
    )
}

pub open spec fn write_script(s: VenvRunView) -> (VenvRunView, ActionView) {
    (
        VenvRunView { phase: VenvPhase::WritingScript, ..s },
        ActionView::WriteFile { name: "script.py"@, contents: s.code },
    )
}

/// The next state and action of a virtual-environment run after event `e`.
/// Events that do not answer the pending action are ruled out by `step`'s
/// precondition; the arms for them are placeholders.
pub open spec fn venv_next(s: VenvRunView, e: EventView) -> (VenvRunView, ActionView) {
    match s.phase {
        VenvPhase::CreatingWorkspace => match e {
            EventView::Failed(m) => (
                VenvRunView { phase: VenvPhase::Finished, ..s },
                ActionView::Finish(Err("Failed to create virtual environment: "@ + m)),
            ),
            _ => (
                VenvRunView {
                    phase: VenvPhase::BuildingEnvironment,
                    holds_workspace: true,
                    ..s
                },
                ActionView::Run(create_env_command()),
            ),
        },
        VenvPhase::BuildingEnvironment => match e {
            EventView::Exited { success, stdout, stderr } => if !success {
                venv_tear_down(s, Err("Failed to create virtual environment: "@ + stderr))
            } else if s.requirements.len() > 0 {
                (
                    VenvRunView { phase: VenvPhase::InstallingDependencies, ..s },
                    ActionView::Run(install_command(s.requirements)),
                )
            } else {
                write_script(s)
            },
            EventView::Failed(m) => venv_tear_down(
                s,
                Err("Failed to create virtual environment: "@ + m),
            ),
            _ => (s, ActionView::Finish(s.pending)),
        },
        VenvPhase::InstallingDependencies => match e {
            EventView::Exited { success, stdout, stderr } => if !success {
                venv_tear_down(s, Err("Failed to install requirements: "@ + stderr))
            } else {
                write_script(s)
            },
            EventView::Failed(m) => venv_tear_down(s, Err("Failed to install requirements: "@ + m)),
            _ => (s, ActionView::Finish(s.pending)),
        },
        VenvPhase::WritingScript => match e {
            EventView::Failed(m) => venv_tear_down(s, Err("Failed to write code: "@ + m)),
            _ => (
                VenvRunView { phase: VenvPhase::Executing, ..s },
                ActionView::Run(execute_command()),
            ),
        },
        VenvPhase::Executing => match e {
            EventView::Exited { success, stdout, stderr } => venv_tear_down(
                s,
                venv_report_of(success, stdout, stderr),
            ),
            EventView::Failed(m) => venv_tear_down(s, Err("Failed to execute Python: "@ + m)),
            _ => (s, ActionView::Finish(s.pending)),
        },
        VenvPhase::RemovingWorkspace => (
            VenvRunView { phase: VenvPhase::Finished, ..s },
            ActionView::Finish(s.pending),
        ),
        VenvPhase::Finished => (s, ActionView::Finish(s.pending)),
    }
}

/// Whether each phase holds the environment directory.
pub open spec fn venv_wf(s: VenvRunView) -> bool {
    match s.phase {
        VenvPhase::CreatingWorkspace => !s.holds_workspace,
        VenvPhase::RemovingWorkspace => !s.holds_workspace,
        VenvPhase::Finished => !s.holds_workspace,
        _ => s.holds_workspace,
    }
}

/// A run starts holding nothing.
pub proof fn lemma_venv_start_wf(id: Seq<char>, code: Seq<char>, requirements: Seq<Seq<char>>)
    ensures
        venv_wf(venv_start(id, code, requirements).0),
{
}

/// Each step keeps what a run holds in line with its phase. A run finishes
/// only once the environment directory is no longer held, which is given up
/// only by asking for its removal. The installer runs only for a non-empty
/// dependency list.
pub proof fn lemma_venv_cleanup(s: VenvRunView, e: EventView)
    requires
        venv_wf(s),
        answers(venv_awaiting(s.phase), e),
    ensures
        venv_wf(venv_next(s, e).0),
        venv_next(s, e).1 is Finish ==> !venv_next(s, e).0.holds_workspace && venv_next(s, e).0.phase
            == VenvPhase::Finished,
        s.holds_workspace && !venv_next(s, e).0.holds_workspace ==> venv_next(
            s,
            e,
        ).1 is RemoveWorkspace,
        venv_next(s, e).0.phase == VenvPhase::InstallingDependencies ==> s.requirements.len() > 0,
{
}

/// Starts a virtual-environment run of `code` with the given dependencies
/// under the identifier `venv_id`.
pub fn run_with_venv(code: &str, requirements: &[String], venv_id: &str) -> (r: (VenvRun, Action))
    ensures
        (r.0@, r.1@) == venv_start(venv_id@, code@, views(requirements@)),
{
    let run = VenvRun {
        code: String::from_str(code),
        requirements: copy_strings(requirements),
        phase: VenvPhase::CreatingWorkspace,
        pending: Ok(String::new()),
        holds_workspace: false,
    };
    (run, Action::CreateWorkspace { name: venv_name(venv_id) })
}

impl VenvRun {
    /// The kind of event the run waits for.
    pub fn awaiting(&self) -> (r: Awaiting)
        ensures
            r == venv_awaiting(self@.phase),
    {
        match self.phase {
            VenvPhase::CreatingWorkspace => Awaiting::Workspace,
            VenvPhase::BuildingEnvironment => Awaiting::Process,
            VenvPhase::InstallingDependencies => Awaiting::Process,
            VenvPhase::WritingScript => Awaiting::File,
            VenvPhase::Executing => Awaiting::Process,
            VenvPhase::RemovingWorkspace => Awaiting::Cleanup,
            VenvPhase::Finished => Awaiting::Nothing,
        }
    }

    fn install_command(&self) -> (c: Command)
        ensures
            c@ == install_command(self@.requirements),
    {
        let mut args: Vec<String> = Vec::new();
        push_str(&mut args, "-m");
        push_str(&mut args, "pip");
        push_str(&mut args, "install");
        let ghost head = views(args@);
        let mut i: usize = 0;
        while i < self.requirements.len()
            invariant
                i <= self.requirements@.len(),
                views(args@) == head + views(self.requirements@).subrange(0, i as int),
            decreases self.requirements@.len() - i,
        {
            push_str(&mut args, self.requirements[i].as_str());
            assert(views(self.requirements@).subrange(0, i + 1) =~= views(
                self.requirements@,
            ).subrange(0, i as int).push(self.requirements@[i as int]@));
            i = i + 1;
        }
        assert(views(self.requirements@).subrange(0, i as int) =~= views(self.requirements@));
        assert(views(args@) =~= install_command(self@.requirements).args);
        Command { program: Program::EnvInterpreter, args }
    }

    fn tear_down(&mut self, r: Result<String, String>) -> (a: Action)
        ensures
            (final(self)@, a@) == venv_tear_down(old(self)@, result_view(r)),
    {
        self.phase = VenvPhase::RemovingWorkspace;
        self.pending = r;
        self.holds_workspace = false;
        Action::RemoveWorkspace
    }

    fn write_script(&mut self) -> (a: Action)
        ensures
            (final(self)@, a@) == write_script(old(self)@),
    {
        self.phase = VenvPhase::WritingScript;
        Action::WriteFile { name: String::from_str("script.py"), contents: self.code.clone() }
    }

    /// Takes the outcome of the last action and returns the next one.
    pub fn step(&mut self, e: Event) -> (a: Action)
        requires
            answers(venv_awaiting(old(self)@.phase), e@),
        ensures
            (final(self)@, a@) == venv_next(old(self)@, e@),
    {
        match self.phase {
            VenvPhase::CreatingWorkspace => match e {
                Event::Failed(m) => {
                    self.phase = VenvPhase::Finished;
                    Action::Finish(
                        Err(concat2("Failed to create virtual environment: ", m.as_str())),
                    )
                },
                _ => {
                    self.phase = VenvPhase::BuildingEnvironment;
                    self.holds_workspace = true;
                    let mut args: Vec<String> = Vec::new();
                    push_str(&mut args, "-m");
                    push_str(&mut args, "venv");
                    push_str(&mut args, ".");
                    assert(views(args@) =~= create_env_command().args);
                    Action::Run(Command { program: Program::Interpreter, args })
                },
            },
            VenvPhase::BuildingEnvironment => match e {
                Event::Exited(o) => {
                    if !o.success {
                        self.tear_down(
                            Err(
                                concat2(
                                    "Failed to create virtual environment: ",
                                    o.stderr.as_str(),
                                ),
                            ),
                        )
                    } else if self.requirements.len() > 0 {
                        self.phase = VenvPhase::InstallingDependencies;
                        Action::Run(self.install_command())
                    } else {
                        self.write_script()
                    }
                },
                Event::Failed(m) => self.tear_down(
                    Err(concat2("Failed to create virtual environment: ", m.as_str())),
                ),
                _ => Action::Finish(copy_result(&self.pending)),
            },
            VenvPhase::InstallingDependencies => match e {
                Event::Exited(o) => {
                    if !o.success {
                        self.tear_down(
                            Err(concat2("Failed to install requirements: ", o.stderr.as_str())),
                        )
                    } else {
                        self.write_script()
                    }
                },
                Event::Failed(m) => self.tear_down(
                    Err(concat2("Failed to install requirements: ", m.as_str())),
                ),
                _ => Action::Finish(copy_result(&self.pending)),
            },
            VenvPhase::WritingScript => match e {
                Event::Failed(m) => self.tear_down(
                    Err(concat2("Failed to write code: ", m.as_str())),
                ),
                _ => {
                    self.phase = VenvPhase::Executing;
                    let mut args: Vec<String> = Vec::new();
                    push_str(&mut args, "script.py");
                    assert(views(args@) =~= execute_command().args);
                    Action::Run(Command { program: Program::EnvInterpreter, args })
                },
            },
            VenvPhase::Executing => match e {
                Event::Exited(o) => {
                    let r = venv_report(&o);
                    self.tear_down(r)
                },
                Event::Failed(m) => self.tear_down(
                    Err(concat2("Failed to execute Python: ", m.as_str())),
                ),
                _ => Action::Finish(copy_result(&self.pending)),
            },
            VenvPhase::RemovingWorkspace => {
                self.phase = VenvPhase::Finished;
                Action::Finish(copy_result(&self.pending))
            },
            VenvPhase::Finished => Action::Finish(copy_result(&self.pending)),
        }
    }
}

} // verus!
