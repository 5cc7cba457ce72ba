//! The bridge workflow as a state machine.
//!
//! The workflow brings a dataplane to the connected state: its pod exists and
//! runs, and a veth pair joins the pod's network namespace to the host. Each
//! step hands the caller one backend request ([`Action`]) and takes back its
//! outcome ([`Event`]); the caller performs the request and nothing else.
//! Every request is made once, and any failure ends the workflow.
//!
//! The namespace snapshot is taken by entering the namespace through a
//! descriptor opened on the infra container's process, never through a
//! helper process inside the pod. A veth pair left behind by a failed pass
//! is not rolled back: the next pass does not find the bridging interface
//! inside the pod, asks for the pair again, and the collision on its names
//! ends that pass with a backend failure, leaving the host untouched.
//! A pass that moved the sandbox end but failed to add the alternate name is
//! not completed either: the next pass finds the bridging interface inside
//! the pod and ends connected, and the host end keeps no alternate name.

use vstd::prelude::*;
use vstd::string::*;
use crate::container::{Container, ContainerInspection};
use crate::dataplane::{host_iface_name_of, is_first_with_name, pod_name_of, Dataplane, DataplaneList};
use crate::error::{Error, ErrorView};
use crate::pod::{running_state, Pod, PodInspection};

verus! {

/// The name of the bridging interface inside a pod's namespace.
pub open spec fn bridge_name() -> Seq<char> {
    "host0"@
}

/// The name of the bridging interface inside a pod's namespace: `host0`.
pub fn bridge_iface_name() -> (r: String)
    ensures
        r@ == bridge_name(),
{
    String::from_str("host0")
}

/// Why the infra container's namespace is being resolved.
#[derive(Debug, Clone, Copy, PartialEq, Eq, Structural)]
pub enum Purpose {
    /// To take a snapshot of its interfaces.
    Snapshot,
    /// To move the sandbox end of the veth pair into it.
    Move,
}

/// The request that the workflow waits on, or the end it reached.
#[derive(Debug, Clone, Copy, PartialEq, Eq, Structural)]
pub enum Phase {
    /// Whether the pod exists.
    PodLookup,
    /// The creation of the pod.
    PodCreation,
    /// Whether the pod exists, after its creation.
    PodRecheck,
    /// An inspection of the pod, for its lifecycle state.
    PodState,
    /// The start of the pod.
    PodStart,
    /// An inspection of the pod, for its infra container.
    InfraLookup(Purpose),
    /// Whether the infra container exists.
    ContainerLookup(Purpose),
    /// An inspection of the infra container, for its process.
    ContainerInspection(Purpose),
    /// The interface names inside the pod's namespace.
    Snapshot,
    /// The creation of the veth pair.
    VethCreation,
    /// The index of the sandbox end.
    SandboxEndLookup,
    /// The index of the host end.
    HostEndLookup,
    /// Whether the pod exists, before the move.
    MovePodLookup,
    /// The move of the sandbox end into the pod's namespace.
    LinkMove,
    /// The alternate name of the host end.
    AltNameAssignment,
    /// The dataplane is connected; nothing is left to do.
    Connected,
    /// A step failed; nothing more is done.
    Aborted,
}

/// A backend request.
#[derive(Debug, Clone, PartialEq, Eq)]
pub enum Action {
    /// Ask whether the pod of this name exists.
    CheckPodExists(String),
    /// Create the pod of this name, with no network of its own.
    CreatePod(String),
    /// Inspect the pod of this name.
    InspectPod(String),
    /// Start the pod of this name.
    StartPod(String),
    /// Ask whether the container of this id exists.
    CheckContainerExists(String),
    /// Inspect the container of this id.
    InspectContainer(String),
    /// List the interfaces inside the network namespace of this process.
    SnapshotNamespace(u64),
    /// Create a veth pair: the host end, then the sandbox end.
    CreateVeth(String, String),
    /// Find the index of the link of this name.
    ResolveLink(String),
    /// Move the link of this index into the network namespace of this process.
    MoveLink(u32, u64),
    /// Give the link of this index this alternate name.
    AddAltName(u32, String),
    /// Nothing is left to do.
    Done,
    /// The workflow failed for this reason.
    Abort(Error),
}

/// The mathematical value of an [`Action`].
pub enum ActionView {
    CheckPodExists(Seq<char>),
    CreatePod(Seq<char>),
    InspectPod(Seq<char>),
    StartPod(Seq<char>),
    CheckContainerExists(Seq<char>),
    InspectContainer(Seq<char>),
    SnapshotNamespace(u64),
    CreateVeth(Seq<char>, Seq<char>),
    ResolveLink(Seq<char>),
    MoveLink(u32, u64),
    AddAltName(u32, Seq<char>),
    Done,
    Abort(ErrorView),
}

impl View for Action {
    type V = ActionView;

    open spec fn view(&self) -> ActionView {
        match self {
            Action::CheckPodExists(n) => ActionView::CheckPodExists(n@),
            Action::CreatePod(n) => ActionView::CreatePod(n@),
            Action::InspectPod(n) => ActionView::InspectPod(n@),
            Action::StartPod(n) => ActionView::StartPod(n@),
            Action::CheckContainerExists(n) => ActionView::CheckContainerExists(n@),
            Action::InspectContainer(n) => ActionView::InspectContainer(n@),
            Action::SnapshotNamespace(pid) => ActionView::SnapshotNamespace(*pid),
            Action::CreateVeth(a, b) => ActionView::CreateVeth(a@, b@),
            Action::ResolveLink(n) => ActionView::ResolveLink(n@),
            Action::MoveLink(i, pid) => ActionView::MoveLink(*i, *pid),
            Action::AddAltName(i, n) => ActionView::AddAltName(*i, n@),
            Action::Done => ActionView::Done,
            Action::Abort(e) => ActionView::Abort(e@),
        }
    }
}

/// The outcome of a backend request.
#[derive(Debug, Clone, PartialEq, Eq)]
pub enum Event {
    /// The thing asked about exists, or not.
    Exists(bool),
    /// The request succeeded.
    Succeeded,
    /// The request failed, with this diagnostic text.
    Failed(String),
    /// A pod inspection.
    PodInspected(PodInspection),
    /// The records of a container inspection.
    ContainerInspected(Vec<ContainerInspection>),
    /// The interface names of a namespace.
    Interfaces(Vec<String>),
    /// The index of the link asked for, or none if no link has that name.
    LinkResolved(Option<u32>),
}

/// The workflow for one dataplane.
#[derive(Debug, Clone, PartialEq, Eq)]
pub struct Reconciler {
    pub dataplane: Dataplane,
    pub phase: Phase,
    /// The last pod inspection, which names the infra container.
    pub pod_report: PodInspection,
    /// The infra container's id as its own inspection reports it, once known.
    pub container: String,
    /// The index of the sandbox end, once known.
    pub sandbox_end: u32,
    /// The index of the host end, once known.
    pub host_end: u32,
}

/// The mathematical value of a [`Reconciler`].
pub struct ReconcilerView {
    pub name: Seq<char>,
    pub id: u32,
    pub phase: Phase,
    pub infra_id: Seq<char>,
    pub container: Seq<char>,
    pub sandbox_end: u32,
    pub host_end: u32,
}

impl View for Reconciler {
    type V = ReconcilerView;

    open spec fn view(&self) -> ReconcilerView {
        ReconcilerView {
            name: self.dataplane.name@,
            id: self.dataplane.id,
            phase: self.phase,
            infra_id: self.pod_report.infra_container_id@,
            container: self.container@,
            sandbox_end: self.sandbox_end,
            host_end: self.host_end,
        }
    }
}

/// The workflow's first state for the dataplane `name`, `id`.
pub open spec fn initial(name: Seq<char>, id: u32) -> ReconcilerView {
    ReconcilerView {
        name,
        id,
        phase: Phase::PodLookup,
        infra_id: Seq::empty(),
        container: Seq::empty(),
        sandbox_end: 0,
        host_end: 0,
    }
}

/// Some name of `names` is `name`.
pub open spec fn lists_name(names: Seq<String>, name: Seq<char>) -> bool {
    exists|k: int| 0 <= k < names.len() && #[trigger] names[k]@ == name
}

/// `s` moved on to phase `p`, requesting `a`.
pub open spec fn goto(s: ReconcilerView, p: Phase, a: ActionView) -> (ReconcilerView, ActionView) {
    (ReconcilerView { phase: p, ..s }, a)
}

/// `s` failed with `e`.
pub open spec fn fail(s: ReconcilerView, e: ErrorView) -> (ReconcilerView, ActionView) {
    goto(s, Phase::Aborted, ActionView::Abort(e))
}

/// The state and request that follow `s` on the outcome `e`.
pub open spec fn next(s: ReconcilerView, e: Event) -> (ReconcilerView, ActionView) {
    if s.phase == Phase::Connected || s.phase == Phase::Aborted {
        (s, ActionView::Done)
    } else {
        match e {
            Event::Failed(m) => fail(s, ErrorView::BackendFailed(s.phase, m@)),
            _ => advance(s, e),
        }
    }
}

/// The state and request that follow `s` on the outcome `e` that is no failure.
pub open spec fn advance(s: ReconcilerView, e: Event) -> (ReconcilerView, ActionView) {
    let pod = pod_name_of(s.name);
    let host = host_iface_name_of(s.id);
    match (s.phase, e) {
        (Phase::PodLookup, Event::Exists(b)) => if b {
            goto(s, Phase::PodRecheck, ActionView::CheckPodExists(pod))
        } else {
            goto(s, Phase::PodCreation, ActionView::CreatePod(pod))
        },
        (Phase::PodCreation, Event::Succeeded) => goto(
            s,
            Phase::PodRecheck,
            ActionView::CheckPodExists(pod),
        ),
        (Phase::PodRecheck, Event::Exists(b)) => if b {
            goto(s, Phase::PodState, ActionView::InspectPod(pod))
        } else {
            fail(s, ErrorView::PodNotFound(pod))
        },
        (Phase::PodState, Event::PodInspected(i)) => if i.state@ == running_state() {
            goto(s, Phase::InfraLookup(Purpose::Snapshot), ActionView::InspectPod(pod))
        } else {
            goto(s, Phase::PodStart, ActionView::StartPod(pod))
        },
        (Phase::PodStart, Event::Succeeded) => goto(
            s,
            Phase::InfraLookup(Purpose::Snapshot),
            ActionView::InspectPod(pod),
        ),
        (Phase::InfraLookup(p), Event::PodInspected(i)) => if i.infra_container_id@.len() > 0 {
            (
                ReconcilerView {
                    phase: Phase::ContainerLookup(p),
                    infra_id: i.infra_container_id@,
                    ..s
                },
                ActionView::CheckContainerExists(i.infra_container_id@),
            )
        } else {
            fail(s, ErrorView::NoInfraContainer(pod))
        },
        (Phase::ContainerLookup(p), Event::Exists(b)) => if b {
            goto(s, Phase::ContainerInspection(p), ActionView::InspectContainer(s.infra_id))
        } else if s.infra_id.len() == 0 {
            fail(s, ErrorView::NoInfraContainer(pod))
        } else {
            fail(s, ErrorView::ContainerNotFound(s.infra_id))
        },
        (Phase::ContainerInspection(p), Event::ContainerInspected(recs)) => if s.infra_id.len()
            == 0 {
            fail(s, ErrorView::NoInfraContainer(pod))
        } else if recs@.len() != 1 {
            fail(s, ErrorView::UnexpectedInspectionCount(recs@.len() as usize))
        } else if recs@[0].state.pid == 0 {
            fail(s, ErrorView::ContainerNotRunning(recs@[0].id@))
        } else {
            let resolved = ReconcilerView { container: recs@[0].id@, ..s };
            match p {
                Purpose::Snapshot => goto(
                    resolved,
                    Phase::Snapshot,
                    ActionView::SnapshotNamespace(recs@[0].state.pid),
                ),
                Purpose::Move => goto(
                    resolved,
                    Phase::LinkMove,
                    ActionView::MoveLink(s.sandbox_end, recs@[0].state.pid),
                ),
            }
        },
        (Phase::Snapshot, Event::Interfaces(names)) => if lists_name(names@, bridge_name()) {
            goto(s, Phase::Connected, ActionView::Done)
        } else {
            goto(s, Phase::VethCreation, ActionView::CreateVeth(host, bridge_name()))
        },
        (Phase::VethCreation, Event::Succeeded) => goto(
            s,
            Phase::SandboxEndLookup,
            ActionView::ResolveLink(bridge_name()),
        ),
        (Phase::SandboxEndLookup, Event::LinkResolved(r)) => match r {
            Some(ix) => (
                ReconcilerView { phase: Phase::HostEndLookup, sandbox_end: ix, ..s },
                ActionView::ResolveLink(host),
            ),
            None => fail(s, ErrorView::LinkNotFound(bridge_name())),
        },
        (Phase::HostEndLookup, Event::LinkResolved(r)) => match r {
            Some(ix) => (
                ReconcilerView { phase: Phase::MovePodLookup, host_end: ix, ..s },
                ActionView::CheckPodExists(pod),
            ),
            None => fail(s, ErrorView::LinkNotFound(host)),
        },
        (Phase::MovePodLookup, Event::Exists(b)) => if b {
            goto(s, Phase::InfraLookup(Purpose::Move), ActionView::InspectPod(pod))
        } else {
            fail(s, ErrorView::PodNotFound(pod))
        },
        (Phase::LinkMove, Event::Succeeded) => goto(
            s,
            Phase::AltNameAssignment,
            ActionView::AddAltName(s.host_end, pod),
        ),
        (Phase::AltNameAssignment, Event::Succeeded) => goto(s, Phase::Connected, ActionView::Done),
        _ => fail(s, ErrorView::UnexpectedEvent(s.phase)),
    }
}

/// Whether some name of `names` equals `name`.
fn lists(names: &Vec<String>, name: &String) -> (r: bool)
    ensures
        r == lists_name(names@, name@),
{
    let mut k: usize = 0;
    while k < names.len()
        invariant
            k <= names@.len(),
            forall|j: int| 0 <= j < k ==> names@[j]@ != name@,
        decreases names@.len() - k,
    {
        if names[k] == *name {
            return true;
        }
        k += 1;
    }
    false
}

impl Dataplane {
    /// Starts the workflow that gets or creates this dataplane's pod, runs it,
    /// and connects it to the host: the first request asks whether the pod
    /// exists.
    pub fn get_or_create_pod(&self) -> (r: (Reconciler, Action))
        ensures
            r.0@ == initial(self.name@, self.id),
            r.1@ == ActionView::CheckPodExists(pod_name_of(self.name@)),
    {
        Reconciler::new(self.duplicate())
    }
}

impl Reconciler {
    /// Starts the workflow for the first dataplane of `list` named `name`.
    pub fn for_name(list: &DataplaneList, name: &str) -> (r: Result<(Reconciler, Action), Error>)
        ensures
            r is Ok <==> exists|i: int|
                0 <= i < list.dataplanes@.len() && #[trigger] list.dataplanes@[i].name@ == name@,
            r matches Ok(p) ==> exists|i: int|
                is_first_with_name(list.dataplanes@, i, name@) && p.0@ == initial(
                    name@,
                    list.dataplanes@[i].id,
                ) && p.1@ == ActionView::CheckPodExists(pod_name_of(name@)),
            r matches Err(e) ==> e@ == ErrorView::InvalidDataplaneName(name@),
    {
        let dp = list.by_name(name)?;
        Ok(dp.get_or_create_pod())
    }

    /// Starts the workflow for `dataplane`: the first request asks whether its
    /// pod exists.
    pub fn new(dataplane: Dataplane) -> (r: (Reconciler, Action))
        ensures
            r.0@ == initial(dataplane.name@, dataplane.id),
            r.1@ == ActionView::CheckPodExists(pod_name_of(dataplane.name@)),
    {
        let pod = dataplane.pod_name();
        let r = Reconciler {
            dataplane,
            phase: Phase::PodLookup,
            pod_report: PodInspection { state: String::new(), infra_container_id: String::new() },
            container: String::new(),
            sandbox_end: 0,
            host_end: 0,
        };
        (r, Action::CheckPodExists(pod))
    }

    /// Whether the workflow has ended, connected or failed.
    pub fn is_finished(&self) -> (r: bool)
        ensures
            r == (self.phase == Phase::Connected || self.phase == Phase::Aborted),
    {
        self.phase == Phase::Connected || self.phase == Phase::Aborted
    }

    fn move_to(&mut self, p: Phase, a: Action) -> (r: Action)
        ensures
            final(self)@ == (ReconcilerView { phase: p, ..old(self)@ }),
            r == a,
    {
        self.phase = p;
        a
    }

    fn abort(&mut self, e: Error) -> (r: Action)
        ensures
            (final(self)@, r@) == fail(old(self)@, e@),
    {
        self.phase = Phase::Aborted;
        Action::Abort(e)
    }

    /// Takes the outcome of the last request and returns the next request.
    pub fn step(&mut self, event: Event) -> (a: Action)
        ensures
            (final(self)@, a@) == next(old(self)@, event),
    {
        let phase = self.phase;
        if phase == Phase::Connected || phase == Phase::Aborted {
            return Action::Done;
        }
        let pod = self.dataplane.pod_name();
        match event {
            Event::Failed(m) => self.abort(Error::BackendFailed(phase, m)),
            Event::Exists(b) => match phase {
                Phase::PodLookup => if b {
                    self.move_to(Phase::PodRecheck, Action::CheckPodExists(pod))
                } else {
                    self.move_to(Phase::PodCreation, Action::CreatePod(pod))
                },
                Phase::PodRecheck | Phase::MovePodLookup => match Pod::get(pod.as_str(), b) {
                    Ok(p) => if phase == Phase::PodRecheck {
                        self.move_to(Phase::PodState, Action::InspectPod(p.name))
                    } else {
                        self.move_to(
                            Phase::InfraLookup(Purpose::Move),
                            Action::InspectPod(p.name),
                        )
                    },
                    Err(e) => self.abort(e),
                },
                Phase::ContainerLookup(p) => if b {
                    let id = self.pod_report.infra_container_id.clone();
                    self.move_to(Phase::ContainerInspection(p), Action::InspectContainer(id))
                } else {
                    let owner = Pod { name: pod };
                    match owner.get_infra_container(&self.pod_report, false, &Vec::new()) {
                        Ok(_) => self.abort(Error::UnexpectedEvent(phase)),
                        Err(e) => self.abort(e),
                    }
                },
                _ => self.abort(Error::UnexpectedEvent(phase)),
            },
            Event::Succeeded => match phase {
                Phase::PodCreation => self.move_to(Phase::PodRecheck, Action::CheckPodExists(pod)),
                Phase::PodStart => self.move_to(
                    Phase::InfraLookup(Purpose::Snapshot),
                    Action::InspectPod(pod),
                ),
                Phase::VethCreation => self.move_to(
                    Phase::SandboxEndLookup,
                    Action::ResolveLink(bridge_iface_name()),
                ),
                Phase::LinkMove => {
                    let ix = self.host_end;
                    self.move_to(Phase::AltNameAssignment, Action::AddAltName(ix, pod))
                },
                Phase::AltNameAssignment => self.move_to(Phase::Connected, Action::Done),
                _ => self.abort(Error::UnexpectedEvent(phase)),
            },
            Event::PodInspected(i) => match phase {
                Phase::PodState => if i.is_running() {
                    self.move_to(Phase::InfraLookup(Purpose::Snapshot), Action::InspectPod(pod))
                } else {
                    self.move_to(Phase::PodStart, Action::StartPod(pod))
                },
                Phase::InfraLookup(p) => if i.infra_container_id.as_str().unicode_len() > 0 {
                    let id = i.infra_container_id.clone();
                    self.pod_report = i;
                    self.move_to(Phase::ContainerLookup(p), Action::CheckContainerExists(id))
                } else {
                    self.abort(Error::NoInfraContainer(pod))
                },
                _ => self.abort(Error::UnexpectedEvent(phase)),
            },
            Event::ContainerInspected(recs) => match phase {
                Phase::ContainerInspection(p) => {
                    let owner = Pod { name: pod };
                    match owner.get_infra_container(&self.pod_report, true, &recs) {
                        Ok(c) => match c.get_pid(recs) {
                            Ok(pid) => {
                                self.container = c.id;
                                match p {
                                    Purpose::Snapshot => self.move_to(
                                        Phase::Snapshot,
                                        Action::SnapshotNamespace(pid),
                                    ),
                                    Purpose::Move => {
                                        let ix = self.sandbox_end;
                                        self.move_to(Phase::LinkMove, Action::MoveLink(ix, pid))
                                    },
                                }
                            },
                            Err(e) => self.abort(e),
                        },
                        Err(e) => self.abort(e),
                    }
                },
                _ => self.abort(Error::UnexpectedEvent(phase)),
            },
            Event::Interfaces(names) => match phase {
                Phase::Snapshot => if lists(&names, &bridge_iface_name()) {
                    self.move_to(Phase::Connected, Action::Done)
                } else {
                    let host = self.dataplane.host_iface_name();
                    self.move_to(
                        Phase::VethCreation,
                        Action::CreateVeth(host, bridge_iface_name()),
                    )
                },
                _ => self.abort(Error::UnexpectedEvent(phase)),
            },
            Event::LinkResolved(r) => match phase {
                Phase::SandboxEndLookup => match r {
                    Some(ix) => {
                        self.sandbox_end = ix;
                        let host = self.dataplane.host_iface_name();
                        self.move_to(Phase::HostEndLookup, Action::ResolveLink(host))
                    },
                    None => self.abort(Error::LinkNotFound(bridge_iface_name())),
                },
                Phase::HostEndLookup => match r {
                    Some(ix) => {
                        self.host_end = ix;
                        self.move_to(Phase::MovePodLookup, Action::CheckPodExists(pod))
                    },
                    None => {
                        let host = self.dataplane.host_iface_name();
                        self.abort(Error::LinkNotFound(host))
                    },
                },
                _ => self.abort(Error::UnexpectedEvent(phase)),
            },
        }
    }
}

/// The requests that the workflow makes from `s` as the outcomes `events`
/// arrive, one by one.
pub open spec fn run(s: ReconcilerView, events: Seq<Event>) -> Seq<ActionView>
    decreases events.len(),
{
    if events.len() == 0 {
        Seq::empty()
    } else {
        seq![next(s, events[0]).1] + run(next(s, events[0]).0, events.drop_first())
    }
}

/// The requests of a run whose first outcome is `e`.
pub proof fn lemma_run_first(s: ReconcilerView, e: Event, rest: Seq<Event>)
    ensures
        run(s, seq![e] + rest) == seq![next(s, e).1] + run(next(s, e).0, rest),
{
    let evs = seq![e] + rest;
    assert(evs[0] == e);
    assert(evs.drop_first() =~= rest);
}

/// Once the workflow has ended, every later outcome gets no request.
pub proof fn lemma_finished_stays_quiet(s: ReconcilerView, events: Seq<Event>)
    requires
        s.phase == Phase::Connected || s.phase == Phase::Aborted,
    ensures
        run(s, events) == Seq::new(events.len(), |k: int| ActionView::Done),
    decreases events.len(),
{
    if events.len() > 0 {
        lemma_finished_stays_quiet(s, events.drop_first());
        assert(run(s, events) =~= Seq::new(events.len(), |k: int| ActionView::Done));
    }
}

/// Ensuring, a second time, a pod that the first time created and started
/// creates nothing and starts nothing: once the backend reports the pod as
/// existing and running, the workflow only asks again whether it exists,
/// then inspects it.
pub proof fn lemma_existing_running_pod_is_kept(name: Seq<char>, id: u32, i: PodInspection)
    requires
        i.state@ == running_state(),
    ensures
        run(initial(name, id), seq![Event::Exists(true), Event::Exists(true), Event::PodInspected(i)])
            == seq![
            ActionView::CheckPodExists(pod_name_of(name)),
            ActionView::InspectPod(pod_name_of(name)),
            ActionView::InspectPod(pod_name_of(name)),
        ],
        steps_after_pod_kept(initial(name, id), i).phase == Phase::InfraLookup(Purpose::Snapshot),
{
    let e0 = seq![Event::Exists(true), Event::Exists(true), Event::PodInspected(i)];
    let e1 = e0.drop_first();
    let e2 = e1.drop_first();
    let s0 = initial(name, id);
    let s1 = next(s0, e0[0]).0;
    let s2 = next(s1, e1[0]).0;
    lemma_run_split(s0, e0);
    lemma_run_split(s1, e1);
    lemma_run_split(s2, e2);
    assert(run(s0, e0) =~= seq![
        ActionView::CheckPodExists(pod_name_of(name)),
        ActionView::InspectPod(pod_name_of(name)),
        ActionView::InspectPod(pod_name_of(name)),
    ]);
}

/// The state after the pod is twice reported as existing, then inspected as `i`.
pub open spec fn steps_after_pod_kept(s: ReconcilerView, i: PodInspection) -> ReconcilerView {
    next(next(next(s, Event::Exists(true)).0, Event::Exists(true)).0, Event::PodInspected(i)).0
}

/// When the pod's namespace already holds the bridging interface, the
/// workflow ends: it creates no veth pair and moves no link, whatever
/// outcomes follow.
pub proof fn lemma_present_bridge_is_left_alone(
    s: ReconcilerView,
    names: Vec<String>,
    rest: Seq<Event>,
)
    requires
        s.phase == Phase::Snapshot,
        lists_name(names@, bridge_name()),
    ensures
        run(s, seq![Event::Interfaces(names)] + rest) == Seq::new(
            rest.len() + 1,
            |k: int| ActionView::Done,
        ),
{
    lemma_run_first(s, Event::Interfaces(names), rest);
    let t = next(s, Event::Interfaces(names)).0;
    lemma_finished_stays_quiet(t, rest);
    assert(run(s, seq![Event::Interfaces(names)] + rest) =~= Seq::new(
        rest.len() + 1,
        |k: int| ActionView::Done,
    ));
}

/// The outcomes of a provisioning in which every request succeeds: the
/// namespace lacks the bridging interface, the sandbox end gets index `a`,
/// the host end index `b`, and `i` and `recs` resolve the pod's namespace.
pub open spec fn provisioning_outcomes(
    names: Vec<String>,
    a: u32,
    b: u32,
    i: PodInspection,
    recs: Vec<ContainerInspection>,
) -> Seq<Event> {
    seq![
        Event::Interfaces(names),
        Event::Succeeded,
        Event::LinkResolved(Some(a)),
        Event::LinkResolved(Some(b)),
        Event::Exists(true),
        Event::PodInspected(i),
        Event::Exists(true),
        Event::ContainerInspected(recs),
        Event::Succeeded,
        Event::Succeeded,
    ]
}

/// When the pod's namespace lacks the bridging interface and every request
/// succeeds, the workflow creates exactly one veth pair, moves exactly its
/// sandbox end into the pod's namespace, gives the host end the pod's name
/// as alternate name, and ends connected.
pub proof fn lemma_absent_bridge_is_provisioned(
    s: ReconcilerView,
    names: Vec<String>,
    a: u32,
    b: u32,
    i: PodInspection,
    recs: Vec<ContainerInspection>,
)
    requires
        s.phase == Phase::Snapshot,
        !lists_name(names@, bridge_name()),
        i.infra_container_id@.len() > 0,
        recs@.len() == 1,
        recs@[0].state.pid != 0,
    ensures
        run(s, provisioning_outcomes(names, a, b, i, recs)) == seq![
            ActionView::CreateVeth(host_iface_name_of(s.id), bridge_name()),
            ActionView::ResolveLink(bridge_name()),
            ActionView::ResolveLink(host_iface_name_of(s.id)),
            ActionView::CheckPodExists(pod_name_of(s.name)),
            ActionView::InspectPod(pod_name_of(s.name)),
            ActionView::CheckContainerExists(i.infra_container_id@),
            ActionView::InspectContainer(i.infra_container_id@),
            ActionView::MoveLink(a, recs@[0].state.pid),
            ActionView::AddAltName(b, pod_name_of(s.name)),
            ActionView::Done,
        ],
{
    let e0 = provisioning_outcomes(names, a, b, i, recs);
    let e1 = e0.drop_first();
    let e2 = e1.drop_first();
    let e3 = e2.drop_first();
    let e4 = e3.drop_first();
    let e5 = e4.drop_first();
    let e6 = e5.drop_first();
    let e7 = e6.drop_first();
    let e8 = e7.drop_first();
    let e9 = e8.drop_first();
    let s0 = s;
    let s1 = next(s0, e0[0]).0;
    let s2 = next(s1, e1[0]).0;
    let s3 = next(s2, e2[0]).0;
    let s4 = next(s3, e3[0]).0;
    let s5 = next(s4, e4[0]).0;
    let s6 = next(s5, e5[0]).0;
    let s7 = next(s6, e6[0]).0;
    let s8 = next(s7, e7[0]).0;
    let s9 = next(s8, e8[0]).0;
    lemma_run_split(s0, e0);
    lemma_run_split(s1, e1);
    lemma_run_split(s2, e2);
    lemma_run_split(s3, e3);
    lemma_run_split(s4, e4);
    lemma_run_split(s5, e5);
    lemma_run_split(s6, e6);
    lemma_run_split(s7, e7);
    lemma_run_split(s8, e8);
    lemma_run_split(s9, e9);
    assert(run(s, e0) =~= seq![
        ActionView::CreateVeth(host_iface_name_of(s.id), bridge_name()),
        ActionView::ResolveLink(bridge_name()),
        ActionView::ResolveLink(host_iface_name_of(s.id)),
        ActionView::CheckPodExists(pod_name_of(s.name)),
        ActionView::InspectPod(pod_name_of(s.name)),
        ActionView::CheckContainerExists(i.infra_container_id@),
        ActionView::InspectContainer(i.infra_container_id@),
        ActionView::MoveLink(a, recs@[0].state.pid),
        ActionView::AddAltName(b, pod_name_of(s.name)),
        ActionView::Done,
    ]);
}

/// The position of a phase in the workflow's order; steps never go back.
pub open spec fn rank(p: Phase) -> nat {
    match p {
        Phase::PodLookup => 0,
        Phase::PodCreation => 1,
        Phase::PodRecheck => 2,
        Phase::PodState => 3,
        Phase::PodStart => 4,
        Phase::InfraLookup(Purpose::Snapshot) => 5,
        Phase::ContainerLookup(Purpose::Snapshot) => 6,
        Phase::ContainerInspection(Purpose::Snapshot) => 7,
        Phase::Snapshot => 8,
        Phase::VethCreation => 9,
        Phase::SandboxEndLookup => 10,
        Phase::HostEndLookup => 11,
        Phase::MovePodLookup => 12,
        Phase::InfraLookup(Purpose::Move) => 13,
        Phase::ContainerLookup(Purpose::Move) => 14,
        Phase::ContainerInspection(Purpose::Move) => 15,
        Phase::LinkMove => 16,
        Phase::AltNameAssignment => 17,
        Phase::Connected => 18,
        Phase::Aborted => 19,
    }
}

/// How many of `acts` create a veth pair.
pub open spec fn veth_creations(acts: Seq<ActionView>) -> nat
    decreases acts.len(),
{
    if acts.len() == 0 {
        0
    } else {
        (if acts[0] is CreateVeth {
            1nat
        } else {
            0nat
        }) + veth_creations(acts.drop_first())
    }
}

/// How many of `acts` move a link into another namespace.
pub open spec fn link_moves(acts: Seq<ActionView>) -> nat
    decreases acts.len(),
{
    if acts.len() == 0 {
        0
    } else {
        (if acts[0] is MoveLink {
            1nat
        } else {
            0nat
        }) + link_moves(acts.drop_first())
    }
}

/// A step never moves the workflow back; a veth pair is requested only on
/// leaving the snapshot, and a move only on leaving the second container
/// inspection.
pub proof fn lemma_step_order(s: ReconcilerView, e: Event)
    ensures
        rank(next(s, e).0.phase) >= rank(s.phase),
        next(s, e).1 is CreateVeth ==> s.phase == Phase::Snapshot && next(s, e).0.phase
            == Phase::VethCreation,
        next(s, e).1 is MoveLink ==> s.phase == Phase::ContainerInspection(Purpose::Move)
            && next(s, e).0.phase == Phase::LinkMove,
{
}

/// The requests of a run, split at its first outcome.
pub proof fn lemma_run_split(s: ReconcilerView, events: Seq<Event>)
    requires
        events.len() > 0,
    ensures
        run(s, events).len() == events.len(),
        run(s, events)[0] == next(s, events[0]).1,
        run(s, events).drop_first() == run(next(s, events[0]).0, events.drop_first()),
    decreases events.len(),
{
    lemma_run_len(next(s, events[0]).0, events.drop_first());
    assert(run(s, events).drop_first() =~= run(next(s, events[0]).0, events.drop_first()));
}

/// A run makes one request per outcome.
pub proof fn lemma_run_len(s: ReconcilerView, events: Seq<Event>)
    ensures
        run(s, events).len() == events.len(),
    decreases events.len(),
{
    if events.len() > 0 {
        lemma_run_len(next(s, events[0]).0, events.drop_first());
    }
}

/// From `s`, a run requests a veth pair at most once, and not at all once
/// past the snapshot; likewise for the move, past the second container
/// inspection.
pub proof fn lemma_provisioning_bounded(s: ReconcilerView, events: Seq<Event>)
    ensures
        veth_creations(run(s, events)) <= (if rank(s.phase) <= 8 {
            1nat
        } else {
            0nat
        }),
        link_moves(run(s, events)) <= (if rank(s.phase) <= 15 {
            1nat
        } else {
            0nat
        }),
    decreases events.len(),
{
    if events.len() > 0 {
        let t = next(s, events[0]).0;
        lemma_run_split(s, events);
        lemma_step_order(s, events[0]);
        lemma_provisioning_bounded(t, events.drop_first());
    }
}

/// A pass of the workflow, whatever outcomes the backend reports, creates at
/// most one veth pair and moves at most one link into the pod's namespace.
pub proof fn lemma_one_provisioning_per_pass(name: Seq<char>, id: u32, events: Seq<Event>)
    ensures
        veth_creations(run(initial(name, id), events)) <= 1,
        link_moves(run(initial(name, id), events)) <= 1,
{
    lemma_provisioning_bounded(initial(name, id), events);
}

} // verus!
