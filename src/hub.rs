//! A run of a published image: the image is pulled first, and a failed pull
//! ends the run before anything is started. The container then runs under
//! the same memory, CPU and privilege limits as a code run, with the
//! caller's command appended. The pulled image is kept.
use vstd::prelude::*;
use crate::action::{
    Action,
    ActionView,
    Awaiting,
    Command,
    CommandView,
    Event,
    EventView,
    Program,
    answers,
    push_str,
};
use crate::container::{DEFAULT_CPUS, DEFAULT_MEMORY};
use crate::names::{hub_container_name, hub_container_name_of};
use crate::report::{concat2, container_report, container_report_of};
use crate::text::views;

verus! {

/// Identifier of a published-image run when the caller gives none.
pub const DEFAULT_RUN_ID: &'static str = "default";

pub open spec fn opt_view(o: Option<String>) -> Option<Seq<char>> {
    match o {
        Some(s) => Some(s@),
        None => None,
    }
}

pub open spec fn opt_views(o: Option<Vec<String>>) -> Option<Seq<Seq<char>>> {
    match o {
        Some(v) => Some(views(v@)),
        None => None,
    }
}

pub open spec fn or_default(o: Option<Seq<char>>, d: Seq<char>) -> Seq<char> {
    match o {
        Some(s) => s,
        None => d,
    }
}

#[derive(Debug, Clone, Copy, PartialEq, Eq, Structural)]
pub enum HubPhase {
    Pulling,
    Running,
    Finished,
}

/// The state of one published-image run.
pub struct HubRun {
    run_command: Command,
    phase: HubPhase,
}

pub struct HubRunView {
    /// The command that starts the container once the pull succeeded.
    pub run_command: CommandView,
    pub phase: HubPhase,
}

impl View for HubRun {
    type V = HubRunView;

    closed spec fn view(&self) -> HubRunView {
        HubRunView { run_command: self.run_command@, phase: self.phase }
    }
}

pub open spec fn pull_command(image: Seq<char>) -> CommandView {
    CommandView { program: Program::Docker, args: seq!["pull"@, image] }
}

/// Auto-removed container named from the run identifier (`default` when
/// none is given), no privilege escalation, the memory and CPU ceilings
/// (the defaults when none are given), the image, then the caller's command.
pub open spec fn hub_run_command(
    image: Seq<char>,
    command: Option<Seq<Seq<char>>>,
    memory: Option<Seq<char>>,
    cpus: Option<Seq<char>>,
    id: Option<Seq<char>>,
) -> CommandView {
    CommandView {
        program: Program::Docker,
        args: seq![
            "run"@,
            "--rm"@,
            "--name"@,
            hub_container_name_of(or_default(id, DEFAULT_RUN_ID@)),
            "--security-opt"@,
            "no-new-privileges"@,
            "--memory"@,
            or_default(memory, DEFAULT_MEMORY@),
            "--cpus"@,
            or_default(cpus, DEFAULT_CPUS@),
            image,
        ] + match command {
            Some(c) => c,
            None => Seq::empty(),
        },
    }
}

pub open spec fn hub_awaiting(p: HubPhase) -> Awaiting {
    match p {
        HubPhase::Finished => Awaiting::Nothing,
        _ => Awaiting::Process,
    }
}

/// The next state and action of a published-image run after event `e`.
/// Events that do not answer the pending action are ruled out by `step`'s
/// precondition; the arms for them are placeholders.
pub open spec fn hub_next(s: HubRunView, e: EventView) -> (HubRunView, ActionView) {
    let done = HubRunView { phase: HubPhase::Finished, ..s };
    match s.phase {
        HubPhase::Pulling => match e {
            EventView::Exited { success, stdout, stderr } => if success {
                (HubRunView { phase: HubPhase::Running, ..s }, ActionView::Run(s.run_command))
            } else {
                (done, ActionView::Finish(Err("Failed to pull image:\n"@ + stderr)))
            },
            EventView::Failed(m) => (
                done,
                ActionView::Finish(Err("Failed to pull Docker image: "@ + m)),
            ),
            _ => (done, ActionView::RemoveWorkspace),
        },
        HubPhase::Running => match e {
            EventView::Exited { success, stdout, stderr } => (
                done,
                ActionView::Finish(container_report_of(success, stdout, stderr)),
            ),
            EventView::Failed(m) => (done, ActionView::Finish(Err("Docker run failed: "@ + m))),
            _ => (done, ActionView::RemoveWorkspace),
        },
        HubPhase::Finished => (done, ActionView::RemoveWorkspace),
    }
}

fn option_or(o: &Option<String>, d: &str) -> (r: String)
    ensures
        r@ == or_default(opt_view(*o), d@),
{
    match o {
        Some(s) => s.clone(),
        None => String::from_str(d),
    }
}

/// Starts a run of the published `image`; its first action pulls it.
/// `timeout` is accepted and not enforced.
pub fn run_docker_hub_image(
    image: String,
    command: Option<Vec<String>>,
    memory_limit: Option<String>,
    cpu_limit: Option<String>,
    id: Option<String>,
    timeout: Option<String>,
) -> (r: (HubRun, Action))
    ensures
        r.0@ == (HubRunView {
            run_command: hub_run_command(
                image@,
                opt_views(command),
                opt_view(memory_limit),
                opt_view(cpu_limit),
                opt_view(id),
            ),
            phase: HubPhase::Pulling,
        }),
        r.1@ == ActionView::Run(pull_command(image@)),
{
    let mut pull: Vec<String> = Vec::new();
    push_str(&mut pull, "pull");
    push_str(&mut pull, image.as_str());
    assert(views(pull@) =~= pull_command(image@).args);
    let mut args: Vec<String> = Vec::new();
    push_str(&mut args, "run");
    push_str(&mut args, "--rm");
    push_str(&mut args, "--name");
    let run_id = option_or(&id, DEFAULT_RUN_ID);
    let name = hub_container_name(run_id.as_str());
    push_str(&mut args, name.as_str());
    push_str(&mut args, "--security-opt");
    push_str(&mut args, "no-new-privileges");
    push_str(&mut args, "--memory");
    let memory = option_or(&memory_limit, DEFAULT_MEMORY);
    push_str(&mut args, memory.as_str());
    push_str(&mut args, "--cpus");
    let cpus = option_or(&cpu_limit, DEFAULT_CPUS);
    push_str(&mut args, cpus.as_str());
    push_str(&mut args, image.as_str());
    let ghost head = views(args@);
    match command {
        Some(c) => {
            let mut i: usize = 0;
            while i < c.len()
                invariant
                    i <= c@.len(),
                    views(args@) == head + views(c@).subrange(0, i as int),
                decreases c@.len() - i,
            {
                push_str(&mut args, c[i].as_str());
                assert(views(c@).subrange(0, i + 1) =~= views(c@).subrange(0, i as int).push(
                    c@[i as int]@,
                ));
                i = i + 1;
            }
            assert(views(c@).subrange(0, i as int) =~= views(c@));
        },
        None => {
            assert(views(args@) =~= head + Seq::<Seq<char>>::empty());
        },
    }
    assert(views(args@) =~= hub_run_command(
        image@,
        opt_views(command),
        opt_view(memory_limit),
        opt_view(cpu_limit),
        opt_view(id),
    ).args);
    let run = HubRun { run_command: Command { program: Program::Docker, args }, phase: HubPhase::Pulling };
    (run, Action::Run(Command { program: Program::Docker, args: pull }))
}

impl HubRun {
    /// The kind of event the run waits for.
    pub fn awaiting(&self) -> (r: Awaiting)
        ensures
            r == hub_awaiting(self@.phase),
    {
        match self.phase {
            HubPhase::Finished => Awaiting::Nothing,
            _ => Awaiting::Process,
        }
    }

    fn take_run_command(&mut self) -> (c: Command)
        ensures
            c@ == old(self)@.run_command,
            final(self)@.phase == old(self)@.phase,
    {
        let mut c = Command { program: Program::Docker, args: Vec::new() };
        core::mem::swap(&mut c, &mut self.run_command);
        c
    }

    /// Takes the outcome of the last action and returns the next one.
    pub fn step(&mut self, e: Event) -> (a: Action)
        requires
            answers(hub_awaiting(old(self)@.phase), e@),
        ensures
            final(self)@.phase == hub_next(old(self)@, e@).0.phase,
            a@ == hub_next(old(self)@, e@).1,
    {
        match self.phase {
            HubPhase::Pulling => match e {
                Event::Exited(o) => {
                    if o.success {
                        self.phase = HubPhase::Running;
                        Action::Run(self.take_run_command())
                    } else {
                        self.phase = HubPhase::Finished;
                        Action::Finish(Err(concat2("Failed to pull image:\n", o.stderr.as_str())))
                    }
                },
                Event::Failed(m) => {
                    self.phase = HubPhase::Finished;
                    Action::Finish(Err(concat2("Failed to pull Docker image: ", m.as_str())))
                },
                _ => {
                    self.phase = HubPhase::Finished;
                    Action::RemoveWorkspace
                },
            },
            HubPhase::Running => {
                self.phase = HubPhase::Finished;
                match e {
                    Event::Exited(o) => Action::Finish(container_report(&o)),
                    Event::Failed(m) => Action::Finish(
                        Err(concat2("Docker run failed: ", m.as_str())),
                    ),
                    _ => Action::RemoveWorkspace,
                }
            },
            HubPhase::Finished => Action::RemoveWorkspace,
        }
    }
}

} // verus!
