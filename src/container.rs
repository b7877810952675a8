//! A run of submitted code in a container: a scratch workspace receives the
//! script and a generated build manifest, an image tagged from the run
//! identifier is built without layer cache, then run under memory, CPU,
//! network and privilege limits. The image and the workspace are removed
//! before the result is handed back, on every path.
use vstd::prelude::*;
use crate::action::{
    Action,
    ActionView,
    Awaiting,
    Command,
    CommandView,
    Event,
    EventView,
    Program,
    answers,
    push_str,
};
use crate::manifest::{build_manifest, manifest_of};
use crate::names::{container_name, container_name_of, image_tag, image_tag_of, workspace_name, workspace_name_of};
use crate::report::{concat2, copy_result, container_report, container_report_of, result_view};
use crate::text::{copy_strings, views};

verus! {

/// Memory ceiling of a container run.
pub const DEFAULT_MEMORY: &'static str = "512m";

/// CPU ceiling of a container run.
pub const DEFAULT_CPUS: &'static str = "1";

#[derive(Debug, Clone, Copy, PartialEq, Eq, Structural)]
pub enum ContainerPhase {
    CreatingWorkspace,
    WritingScript,
    WritingManifest,
    Building,
    Running,
    RemovingImage,
    RemovingWorkspace,
    Finished,
}

/// The state of one container run.
pub struct ContainerRun {
    id: String,
    code: String,
    requirements: Vec<String>,
    phase: ContainerPhase,
    pending: Result<String, String>,
    holds_workspace: bool,
    holds_image: bool,
}

pub struct ContainerRunView {
    pub id: Seq<char>,
    pub code: Seq<char>,
    pub requirements: Seq<Seq<char>>,
    pub phase: ContainerPhase,
    /// The result to hand back once cleanup is done.
    pub pending: Result<Seq<char>, Seq<char>>,
    /// The workspace was created and its removal not yet asked for.
    pub holds_workspace: bool,
    /// The image was built and its removal not yet asked for.
    pub holds_image: bool,
}

impl View for ContainerRun {
    type V = ContainerRunView;

    closed spec fn view(&self) -> ContainerRunView {
        ContainerRunView {
            id: self.id@,
            code: self.code@,
            requirements: views(self.requirements@),
            phase: self.phase,
            pending: result_view(self.pending),
            holds_workspace: self.holds_workspace,
            holds_image: self.holds_image,
        }
    }
}

pub open spec fn script_name() -> Seq<char> {
    "script.py"@
}

pub open spec fn manifest_name() -> Seq<char> {
    "Dockerfile"@
}

pub open spec fn build_command(id: Seq<char>) -> CommandView {
    CommandView {
        program: Program::Docker,
        args: seq!["build"@, "--no-cache"@, "-t"@, image_tag_of(id), "."@],
    }
}

/// Auto-removed container, named from the run, with the memory and CPU
/// ceilings, no network and no privilege escalation.
pub open spec fn run_command(id: Seq<char>) -> CommandView {
    CommandView {
        program: Program::Docker,
        args: seq![
            "run"@,
            "--rm"@,
            "--name"@,
            container_name_of(id),
            "--memory"@,
            DEFAULT_MEMORY@,
            "--cpus"@,
            DEFAULT_CPUS@,
            "--network"@,
            "none"@,
            "--security-opt"@,
            "no-new-privileges"@,
            image_tag_of(id),
        ],
    }
}

pub open spec fn remove_image_command(id: Seq<char>) -> CommandView {
    CommandView { program: Program::Docker, args: seq!["rmi"@, "-f"@, image_tag_of(id)] }
}

pub open spec fn container_awaiting(p: ContainerPhase) -> Awaiting {
    match p {
        ContainerPhase::CreatingWorkspace => Awaiting::Workspace,
        ContainerPhase::WritingScript => Awaiting::File,
        ContainerPhase::WritingManifest => Awaiting::File,
        ContainerPhase::Building => Awaiting::Process,
        ContainerPhase::Running => Awaiting::Process,
        ContainerPhase::RemovingImage => Awaiting::Cleanup,
        ContainerPhase::RemovingWorkspace => Awaiting::Cleanup,
        ContainerPhase::Finished => Awaiting::Nothing,
    }
}

/// The run's initial state and first action.
pub open spec fn container_start(id: Seq<char>, code: Seq<char>, requirements: Seq<Seq<char>>) -> (
    ContainerRunView,
    ActionView,
) {
    (
        ContainerRunView {
            id,
            code,
            requirements,
            phase: ContainerPhase::CreatingWorkspace,
            pending: Ok(Seq::empty()),
            holds_workspace: false,
            holds_image: false,
        },
        ActionView::CreateWorkspace { name: workspace_name_of(id) },
    )
}

/// Stop with `r` once the workspace is gone.
pub open spec fn tear_down(s: ContainerRunView, r: Result<Seq<char>, Seq<char>>) -> (
    ContainerRunView,
    ActionView,
) {
    (
        ContainerRunView {
            phase: ContainerPhase::RemovingWorkspace,
            pending: r,
            holds_workspace: false,
            ..s
        },
        ActionView::RemoveWorkspace,
    )
}

/// Remove the image, then stop with `r` once the workspace is gone.
pub open spec fn remove_image(s: ContainerRunView, r: Result<Seq<char>, Seq<char>>) -> (
    ContainerRunView,
    ActionView,
) {
    (
        ContainerRunView {
            phase: ContainerPhase::RemovingImage,
            pending: r,
            holds_image: false,
            ..s
        },
        ActionView::Discard(remove_image_command(s.id)),
    )
}

/// The next state and action of a container run after event `e`.
/// Events that do not answer the pending action are ruled out by `step`'s
/// precondition; the arms for them are placeholders.
pub open spec fn container_next(s: ContainerRunView, e: EventView) -> (
    ContainerRunView,
    ActionView,
) {
    match s.phase {
        ContainerPhase::CreatingWorkspace => match e {
            EventView::Failed(m) => (
                ContainerRunView { phase: ContainerPhase::Finished, ..s },
                ActionView::Finish(Err("Failed to create temp directory: "@ + m)),
            ),
            _ => (
                ContainerRunView {
                    phase: ContainerPhase::WritingScript,
                    holds_workspace: true,
                    ..s
                },
                ActionView::WriteFile { name: script_name(), contents: s.code },
            ),
        },
        ContainerPhase::WritingScript => match e {
            EventView::Failed(m) => tear_down(s, Err("Failed to write Python script: "@ + m)),
            _ => (
                ContainerRunView { phase: ContainerPhase::WritingManifest, ..s },
                ActionView::WriteFile {
                    name: manifest_name(),
                    contents: manifest_of(s.requirements),
                },
            ),
        },
        ContainerPhase::WritingManifest => match e {
            EventView::Failed(m) => tear_down(s, Err("Failed to write Dockerfile: "@ + m)),
            _ => (
                ContainerRunView { phase: ContainerPhase::Building, ..s },
                ActionView::Run(build_command(s.id)),
            ),
        },
        ContainerPhase::Building => match e {
            EventView::Exited { success, stdout, stderr } => if success {
                (
                    ContainerRunView { phase: ContainerPhase::Running, holds_image: true, ..s },
                    ActionView::Run(run_command(s.id)),
                )
            } else {
                tear_down(s, Err("Docker build failed:\n"@ + stderr))
            },
            EventView::Failed(m) => tear_down(s, Err("Docker build command failed: "@ + m)),
            _ => (s, ActionView::Finish(s.pending)),
        },
        ContainerPhase::Running => match e {
            EventView::Exited { success, stdout, stderr } => remove_image(
                s,
                container_report_of(success, stdout, stderr),
            ),
            EventView::Failed(m) => remove_image(s, Err("Docker run failed: "@ + m)),
            _ => (s, ActionView::Finish(s.pending)),
        },
        ContainerPhase::RemovingImage => tear_down(s, s.pending),
        ContainerPhase::RemovingWorkspace => (
            ContainerRunView { phase: ContainerPhase::Finished, ..s },
            ActionView::Finish(s.pending),
        ),
        ContainerPhase::Finished => (s, ActionView::Finish(s.pending)),
    }
}

/// Which resources each phase holds.
pub open spec fn container_wf(s: ContainerRunView) -> bool {
    match s.phase {
        ContainerPhase::CreatingWorkspace => !s.holds_workspace && !s.holds_image,
        ContainerPhase::WritingScript => s.holds_workspace && !s.holds_image,
        ContainerPhase::WritingManifest => s.holds_workspace && !s.holds_image,
        ContainerPhase::Building => s.holds_workspace && !s.holds_image,
        ContainerPhase::Running => s.holds_workspace && s.holds_image,
        ContainerPhase::RemovingImage => s.holds_workspace && !s.holds_image,
        ContainerPhase::RemovingWorkspace => !s.holds_workspace && !s.holds_image,
        ContainerPhase::Finished => !s.holds_workspace && !s.holds_image,
    }
}

/// A run starts holding nothing.
pub proof fn lemma_container_start_wf(id: Seq<char>, code: Seq<char>, requirements: Seq<Seq<char>>)
    ensures
        container_wf(container_start(id, code, requirements).0),
{
}

/// Each step keeps what a run holds in line with its phase. A run finishes
/// only once it holds neither workspace nor image. A built image is given up
/// only by asking for its removal, a created workspace only by asking for
/// its removal, and an image is held only after a build that succeeded.
pub proof fn lemma_container_cleanup(s: ContainerRunView, e: EventView)
    requires
        container_wf(s),
        answers(container_awaiting(s.phase), e),
    ensures
        container_wf(container_next(s, e).0),
        container_next(s, e).1 is Finish ==> !container_next(s, e).0.holds_workspace
            && !container_next(s, e).0.holds_image && container_next(s, e).0.phase
            == ContainerPhase::Finished,
        s.holds_image && !container_next(s, e).0.holds_image ==> container_next(s, e).1
            == ActionView::Discard(remove_image_command(s.id)),
        s.holds_workspace && !container_next(s, e).0.holds_workspace ==> container_next(
            s,
            e,
        ).1 is RemoveWorkspace,
        !s.holds_image && container_next(s, e).0.holds_image ==> (e matches EventView::Exited {
            success,
            ..
        } && success),
{
}

/// Starts a container run of `code` with the given dependencies under the
/// identifier `container_id`.
pub fn run_with_docker(code: &str, requirements: &[String], container_id: &str) -> (r: (
    ContainerRun,
    Action,
))
    ensures
        (r.0@, r.1@) == container_start(container_id@, code@, views(requirements@)),
{
    let run = ContainerRun {
        id: String::from_str(container_id),
        code: String::from_str(code),
        requirements: copy_strings(requirements),
        phase: ContainerPhase::CreatingWorkspace,
        pending: Ok(String::new()),
        holds_workspace: false,
        holds_image: false,
    };
    (run, Action::CreateWorkspace { name: workspace_name(container_id) })
}

impl ContainerRun {
    /// The kind of event the run waits for.
    pub fn awaiting(&self) -> (r: Awaiting)
        ensures
            r == container_awaiting(self@.phase),
    {
        match self.phase {
            ContainerPhase::CreatingWorkspace => Awaiting::Workspace,
            ContainerPhase::WritingScript => Awaiting::File,
            ContainerPhase::WritingManifest => Awaiting::File,
            ContainerPhase::Building => Awaiting::Process,
            ContainerPhase::Running => Awaiting::Process,
            ContainerPhase::RemovingImage => Awaiting::Cleanup,
            ContainerPhase::RemovingWorkspace => Awaiting::Cleanup,
            ContainerPhase::Finished => Awaiting::Nothing,
        }
    }

    fn build_command(&self) -> (c: Command)
        ensures
            c@ == build_command(self@.id),
    {
        let mut args: Vec<String> = Vec::new();
        push_str(&mut args, "build");
        push_str(&mut args, "--no-cache");
        push_str(&mut args, "-t");
        let tag = image_tag(self.id.as_str());
        push_str(&mut args, tag.as_str());
        push_str(&mut args, ".");
        assert(views(args@) =~= build_command(self@.id).args);
        Command { program: Program::Docker, args }
    }

    fn run_command(&self) -> (c: Command)
        ensures
            c@ == run_command(self@.id),
    {
        let mut args: Vec<String> = Vec::new();
        push_str(&mut args, "run");
        push_str(&mut args, "--rm");
        push_str(&mut args, "--name");
        let name = container_name(self.id.as_str());
        push_str(&mut args, name.as_str());
        push_str(&mut args, "--memory");
        push_str(&mut args, DEFAULT_MEMORY);
        push_str(&mut args, "--cpus");
        push_str(&mut args, DEFAULT_CPUS);
        push_str(&mut args, "--network");
        push_str(&mut args, "none");
        push_str(&mut args, "--security-opt");
        push_str(&mut args, "no-new-privileges");
        let tag = image_tag(self.id.as_str());
        push_str(&mut args, tag.as_str());
        assert(views(args@) =~= run_command(self@.id).args);
        Command { program: Program::Docker, args }
    }

    fn remove_image_command(&self) -> (c: Command)
        ensures
            c@ == remove_image_command(self@.id),
    {
        let mut args: Vec<String> = Vec::new();
        push_str(&mut args, "rmi");
        push_str(&mut args, "-f");
        let tag = image_tag(self.id.as_str());
        push_str(&mut args, tag.as_str());
        assert(views(args@) =~= remove_image_command(self@.id).args);
        Command { program: Program::Docker, args }
    }

    fn take_pending(&mut self) -> (r: Result<String, String>)
        ensures
            result_view(r) == old(self)@.pending,
            final(self)@ == (ContainerRunView { pending: Ok(Seq::empty()), ..old(self)@ }),
    {
        let mut r: Result<String, String> = Ok(String::new());
        core::mem::swap(&mut r, &mut self.pending);
        r
    }

    fn tear_down(&mut self, r: Result<String, String>) -> (a: Action)
        ensures
            (final(self)@, a@) == tear_down(old(self)@, result_view(r)),
    {
        self.phase = ContainerPhase::RemovingWorkspace;
        self.pending = r;
        self.holds_workspace = false;
        Action::RemoveWorkspace
    }

    fn remove_image(&mut self, r: Result<String, String>) -> (a: Action)
        ensures
            (final(self)@, a@) == remove_image(old(self)@, result_view(r)),
    {
        self.phase = ContainerPhase::RemovingImage;
        self.pending = r;
        self.holds_image = false;
        Action::Discard(self.remove_image_command())
    }

    /// Takes the outcome of the last action and returns the next one.
    pub fn step(&mut self, e: Event) -> (a: Action)
        requires
            answers(container_awaiting(old(self)@.phase), e@),
        ensures
            (final(self)@, a@) == container_next(old(self)@, e@),
    {
        match self.phase {
            ContainerPhase::CreatingWorkspace => match e {
                Event::Failed(m) => {
                    self.phase = ContainerPhase::Finished;
                    Action::Finish(Err(concat2("Failed to create temp directory: ", m.as_str())))
                },
                _ => {
                    self.phase = ContainerPhase::WritingScript;
                    self.holds_workspace = true;
                    Action::WriteFile {
                        name: String::from_str("script.py"),
                        contents: self.code.clone(),
                    }
                },
            },
            ContainerPhase::WritingScript => match e {
                Event::Failed(m) => self.tear_down(
                    Err(concat2("Failed to write Python script: ", m.as_str())),
                ),
                _ => {
                    self.phase = ContainerPhase::WritingManifest;
                    Action::WriteFile {
                        name: String::from_str("Dockerfile"),
                        contents: build_manifest(&self.requirements),
                    }
                },
            },
            ContainerPhase::WritingManifest => match e {
                Event::Failed(m) => self.tear_down(
                    Err(concat2("Failed to write Dockerfile: ", m.as_str())),
                ),
                _ => {
                    self.phase = ContainerPhase::Building;
                    Action::Run(self.build_command())
                },
            },
            ContainerPhase::Building => match e {
                Event::Exited(o) => {
                    if o.success {
                        self.phase = ContainerPhase::Running;
                        self.holds_image = true;
                        Action::Run(self.run_command())
                    } else {
                        self.tear_down(Err(concat2("Docker build failed:\n", o.stderr.as_str())))
                    }
                },
                Event::Failed(m) => self.tear_down(
                    Err(concat2("Docker build command failed: ", m.as_str())),
                ),
                _ => Action::Finish(copy_result(&self.pending)),
            },
            ContainerPhase::Running => match e {
                Event::Exited(o) => {
                    let r = container_report(&o);
                    self.remove_image(r)
                },
                Event::Failed(m) => self.remove_image(
                    Err(concat2("Docker run failed: ", m.as_str())),
                ),
                _ => Action::Finish(copy_result(&self.pending)),
            },
            ContainerPhase::RemovingImage => {
                let r = self.take_pending();
                self.tear_down(r)
            },
            ContainerPhase::RemovingWorkspace => {
                let r = copy_result(&self.pending);
                self.phase = ContainerPhase::Finished;
                Action::Finish(r)
            },
            ContainerPhase::Finished => Action::Finish(copy_result(&self.pending)),
        }
    }
}

} // verus!
