//! Stopping published-image runs by name: the running containers whose name
//! matches the default run's name are listed, then stopped one by one; the
//! first stop that fails ends the run, naming the container.
use vstd::prelude::*;
use crate::action::{
    Action,
    ActionView,
    Awaiting,
    Command,
    CommandView,
    Event,
    EventView,
    Program,
    answers,
    push_str,
};
use crate::report::{concat2, concat4};
use crate::text::{split_words, views, words};

verus! {

/// The name filter of the listing: the default published-image run.
pub const STOP_FILTER: &'static str = "name=hub-runner-default";

#[derive(Debug, Clone, Copy, PartialEq, Eq, Structural)]
pub enum StopPhase {
    Listing,
    Stopping,
    Finished,
}

/// The state of one stop request.
pub struct StopRun {
    ids: Vec<String>,
    next: usize,
    phase: StopPhase,
}

pub struct StopRunView {
    /// The listed containers.
    pub ids: Seq<Seq<char>>,
    /// The container being stopped.
    pub next: nat,
    pub phase: StopPhase,
}

impl View for StopRun {
    type V = StopRunView;

    closed spec fn view(&self) -> StopRunView {
        StopRunView { ids: views(self.ids@), next: self.next as nat, phase: self.phase }
    }
}

pub open spec fn list_command() -> CommandView {
    CommandView { program: Program::Docker, args: seq!["ps"@, "-q"@, "--filter"@, STOP_FILTER@] }
}

pub open spec fn stop_command(id: Seq<char>) -> CommandView {
    CommandView { program: Program::Docker, args: seq!["stop"@, id] }
}

pub open spec fn stop_awaiting(p: StopPhase) -> Awaiting {
    match p {
        StopPhase::Finished => Awaiting::Nothing,
        _ => Awaiting::Process,
    }
}

pub open spec fn stop_wf(s: StopRunView) -> bool {
    s.phase == StopPhase::Stopping ==> s.next < s.ids.len()
}

/// The next state and action of a stop request after event `e`.
/// Events that do not answer the pending action are ruled out by `step`'s
/// precondition; the arms for them are placeholders.
pub open spec fn stop_next(s: StopRunView, e: EventView) -> (StopRunView, ActionView) {
    let done = StopRunView { phase: StopPhase::Finished, ..s };
    match s.phase {
        StopPhase::Listing => match e {
            EventView::Exited { success, stdout, stderr } => if words(stdout).len() == 0 {
                (
                    StopRunView { ids: Seq::empty(), ..done },
                    ActionView::Finish(Ok("No running containers found."@)),
                )
            } else {
                (
                    StopRunView { ids: words(stdout), next: 0, phase: StopPhase::Stopping },
                    ActionView::Run(stop_command(words(stdout)[0])),
                )
            },
            EventView::Failed(m) => (
                done,
                ActionView::Finish(Err("Failed to list containers: "@ + m)),
            ),
            _ => (done, ActionView::RemoveWorkspace),
        },
        StopPhase::Stopping => match e {
            EventView::Exited { success, stdout, stderr } => if !success {
                (
                    done,
                    ActionView::Finish(
                        Err("Failed to stop container "@ + s.ids[s.next as int] + ":\n"@ + stderr),
                    ),
                )
            } else if s.next + 1 < s.ids.len() {
                (
                    StopRunView { next: s.next + 1, ..s },
                    ActionView::Run(stop_command(s.ids[s.next + 1int])),
                )
            } else {
                (done, ActionView::Finish(Ok("Container(s) stopped successfully."@)))
            },
            EventView::Failed(m) => (
                done,
                ActionView::Finish(Err("Failed to stop container: "@ + m)),
            ),
            _ => (done, ActionView::RemoveWorkspace),
        },
        StopPhase::Finished => (done, ActionView::RemoveWorkspace),
    }
}

/// Each step keeps the index of the container being stopped in range.
pub proof fn lemma_stop_wf(s: StopRunView, e: EventView)
    requires
        stop_wf(s),
        answers(stop_awaiting(s.phase), e),
    ensures
        stop_wf(stop_next(s, e).0),
{
}

/// Starts a stop request; its first action lists the containers that match
/// the fixed name filter. `id` is accepted and not used: the filter is fixed.
pub fn stop_docker_container(id: &str) -> (r: (StopRun, Action))
    ensures
        r.0@.phase == StopPhase::Listing,
        r.0.wf(),
        r.1@ == ActionView::Run(list_command()),
{
    let mut args: Vec<String> = Vec::new();
    push_str(&mut args, "ps");
    push_str(&mut args, "-q");
    push_str(&mut args, "--filter");
    push_str(&mut args, STOP_FILTER);
    assert(views(args@) =~= list_command().args);
    (
        StopRun { ids: Vec::new(), next: 0, phase: StopPhase::Listing },
        Action::Run(Command { program: Program::Docker, args }),
    )
}

impl StopRun {
    /// The kind of event the request waits for.
    pub fn awaiting(&self) -> (r: Awaiting)
        ensures
            r == stop_awaiting(self@.phase),
    {
        match self.phase {
            StopPhase::Finished => Awaiting::Nothing,
            _ => Awaiting::Process,
        }
    }

    pub open spec fn wf(&self) -> bool {
        stop_wf(self@)
    }

    fn stop_one(id: &String) -> (c: Command)
        ensures
            c@ == stop_command(id@),
    {
        let mut args: Vec<String> = Vec::new();
        push_str(&mut args, "stop");
        push_str(&mut args, id.as_str());
        assert(views(args@) =~= stop_command(id@).args);
        Command { program: Program::Docker, args }
    }

    /// Takes the outcome of the last action and returns the next one.
    pub fn step(&mut self, e: Event) -> (a: Action)
        requires
            old(self).wf(),
            answers(stop_awaiting(old(self)@.phase), e@),
        ensures
            final(self).wf(),
            (final(self)@, a@) == stop_next(old(self)@, e@),
    {
        match self.phase {
            StopPhase::Listing => match e {
                Event::Exited(o) => {
                    let ids = split_words(o.stdout.as_str());
                    if ids.len() == 0 {
                        assert(views(ids@) =~= Seq::<Seq<char>>::empty());
                        self.ids = ids;
                        self.phase = StopPhase::Finished;
                        Action::Finish(Ok(String::from_str("No running containers found.")))
                    } else {
                        let c = Self::stop_one(&ids[0]);
                        self.ids = ids;
                        self.next = 0;
                        self.phase = StopPhase::Stopping;
                        Action::Run(c)
                    }
                },
                Event::Failed(m) => {
                    self.phase = StopPhase::Finished;
                    Action::Finish(Err(concat2("Failed to list containers: ", m.as_str())))
                },
                _ => {
                    self.phase = StopPhase::Finished;
                    Action::RemoveWorkspace
                },
            },
            StopPhase::Stopping => match e {
                Event::Exited(o) => {
                    if !o.success {
                        self.phase = StopPhase::Finished;
                        Action::Finish(
                            Err(
                                concat4(
                                    "Failed to stop container ",
                                    self.ids[self.next].as_str(),
                                    ":\n",
                                    o.stderr.as_str(),
                                ),
                            ),
                        )
                    } else if self.next < self.ids.len() - 1 {
                        self.next = self.next + 1;
                        Action::Run(Self::stop_one(&self.ids[self.next]))
                    } else {
                        self.phase = StopPhase::Finished;
                        Action::Finish(Ok(String::from_str("Container(s) stopped successfully.")))
                    }
                },
                Event::Failed(m) => {
                    self.phase = StopPhase::Finished;
                    Action::Finish(Err(concat2("Failed to stop container: ", m.as_str())))
                },
                _ => {
                    self.phase = StopPhase::Finished;
                    Action::RemoveWorkspace
                },
            },
            StopPhase::Finished => Action::RemoveWorkspace,
        }
    }
}

} // verus!
