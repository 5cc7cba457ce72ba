use firewall_controller::container::{ContainerInspection, ContainerState};
use firewall_controller::dataplane::{Dataplane, DataplaneList};
use firewall_controller::error::Error;
use firewall_controller::pod::PodInspection;
use firewall_controller::reconcile::{Action, Event, Phase, Reconciler};

fn s(x: &str) -> String {
    x.to_string()
}

fn alpha_list() -> DataplaneList {
    DataplaneList { dataplanes: vec![Dataplane { name: s("alpha"), id: 1 }] }
}

fn pod_state(state: &str, infra: &str) -> Event {
    Event::PodInspected(PodInspection { state: s(state), infra_container_id: s(infra) })
}

fn container(id: &str, pid: u64) -> Event {
    Event::ContainerInspected(vec![ContainerInspection { id: s(id), state: ContainerState { pid } }])
}

fn is_mutating(a: &Action) -> bool {
    matches!(
        a,
        Action::CreatePod(_)
            | Action::StartPod(_)
            | Action::CreateVeth(_, _)
            | Action::MoveLink(_, _)
            | Action::AddAltName(_, _)
    )
}

/// Feeds the events one by one and collects the requests, the first included.
fn drive(list: &DataplaneList, name: &str, events: Vec<Event>) -> (Reconciler, Vec<Action>) {
    let (mut r, first) = Reconciler::for_name(list, name).unwrap();
    let mut actions = vec![first];
    for e in events {
        actions.push(r.step(e));
    }
    (r, actions)
}

#[test]
fn end_to_end_first_run_connects_alpha() {
    let (r, actions) = drive(
        &alpha_list(),
        "alpha",
        vec![
            Event::Exists(false),
            Event::Succeeded,
            Event::Exists(true),
            pod_state("Created", "infra1"),
            Event::Succeeded,
            pod_state("Running", "infra1"),
            Event::Exists(true),
            container("infra1", 4242),
            Event::Interfaces(vec![s("lo")]),
            Event::Succeeded,
            Event::LinkResolved(Some(7)),
            Event::LinkResolved(Some(8)),
            Event::Exists(true),
            pod_state("Running", "infra1"),
            Event::Exists(true),
            container("infra1", 4242),
            Event::Succeeded,
            Event::Succeeded,
        ],
    );
    assert_eq!(
        actions,
        vec![
            Action::CheckPodExists(s("dp-alpha")),
            Action::CreatePod(s("dp-alpha")),
            Action::CheckPodExists(s("dp-alpha")),
            Action::InspectPod(s("dp-alpha")),
            Action::StartPod(s("dp-alpha")),
            Action::InspectPod(s("dp-alpha")),
            Action::CheckContainerExists(s("infra1")),
            Action::InspectContainer(s("infra1")),
            Action::SnapshotNamespace(4242),
            Action::CreateVeth(s("dp1"), s("host0")),
            Action::ResolveLink(s("host0")),
            Action::ResolveLink(s("dp1")),
            Action::CheckPodExists(s("dp-alpha")),
            Action::InspectPod(s("dp-alpha")),
            Action::CheckContainerExists(s("infra1")),
            Action::InspectContainer(s("infra1")),
            Action::MoveLink(7, 4242),
            Action::AddAltName(8, s("dp-alpha")),
            Action::Done,
        ]
    );
    assert_eq!(r.phase, Phase::Connected);
    assert!(r.is_finished());
}

#[test]
fn end_to_end_rerun_makes_no_mutating_request() {
    let (r, actions) = drive(
        &alpha_list(),
        "alpha",
        vec![
            Event::Exists(true),
            Event::Exists(true),
            pod_state("Running", "infra1"),
            pod_state("Running", "infra1"),
            Event::Exists(true),
            container("infra1", 4242),
            Event::Interfaces(vec![s("lo"), s("host0")]),
        ],
    );
    assert!(!actions.iter().any(is_mutating));
    assert_eq!(actions.last(), Some(&Action::Done));
    assert_eq!(r.phase, Phase::Connected);
}

#[test]
fn ensuring_pod_twice_creates_and_starts_once() {
    let list = alpha_list();
    let (_, first) = drive(
        &list,
        "alpha",
        vec![Event::Exists(false), Event::Succeeded, Event::Exists(true), pod_state("Created", "i"), Event::Succeeded],
    );
    let (_, second) = drive(&list, "alpha", vec![Event::Exists(true), Event::Exists(true), pod_state("Running", "i")]);
    assert_eq!(first.iter().filter(|a| matches!(a, Action::CreatePod(_))).count(), 1);
    assert_eq!(first.iter().filter(|a| matches!(a, Action::StartPod(_))).count(), 1);
    assert_eq!(second, vec![
        Action::CheckPodExists(s("dp-alpha")),
        Action::CheckPodExists(s("dp-alpha")),
        Action::InspectPod(s("dp-alpha")),
        Action::InspectPod(s("dp-alpha")),
    ]);
}

#[test]
fn present_bridge_interface_ends_the_workflow() {
    let (mut r, _) = drive(
        &alpha_list(),
        "alpha",
        vec![Event::Exists(true), Event::Exists(true), pod_state("Running", "i"), pod_state("Running", "i"), Event::Exists(true), container("i", 9)],
    );
    assert_eq!(r.phase, Phase::Snapshot);
    assert_eq!(r.step(Event::Interfaces(vec![s("host0")])), Action::Done);
    assert_eq!(r.step(Event::Succeeded), Action::Done);
    assert_eq!(r.step(Event::LinkResolved(Some(3))), Action::Done);
}

#[test]
fn absent_bridge_interface_is_provisioned_once() {
    let (mut r, _) = drive(
        &alpha_list(),
        "alpha",
        vec![Event::Exists(true), Event::Exists(true), pod_state("Running", "i"), pod_state("Running", "i"), Event::Exists(true), container("i", 9)],
    );
    let outcomes = vec![
        Event::Interfaces(vec![]),
        Event::Succeeded,
        Event::LinkResolved(Some(11)),
        Event::LinkResolved(Some(12)),
        Event::Exists(true),
        pod_state("Running", "i"),
        Event::Exists(true),
        container("i", 10),
        Event::Succeeded,
        Event::Succeeded,
        Event::Succeeded,
    ];
    let actions: Vec<Action> = outcomes.into_iter().map(|e| r.step(e)).collect();
    assert_eq!(actions.iter().filter(|a| matches!(a, Action::CreateVeth(_, _))).count(), 1);
    let moves: Vec<&Action> = actions.iter().filter(|a| matches!(a, Action::MoveLink(_, _))).collect();
    assert_eq!(moves, vec![&Action::MoveLink(11, 10)]);
    let alts: Vec<&Action> = actions.iter().filter(|a| matches!(a, Action::AddAltName(_, _))).collect();
    assert_eq!(alts, vec![&Action::AddAltName(12, s("dp-alpha"))]);
    assert_eq!(actions.last(), Some(&Action::Done));
}

#[test]
fn backend_failure_aborts_with_context() {
    let (mut r, _) = drive(&alpha_list(), "alpha", vec![Event::Exists(false)]);
    let a = r.step(Event::Failed(s("name already in use")));
    assert_eq!(a, Action::Abort(Error::BackendFailed(Phase::PodCreation, s("name already in use"))));
    assert_eq!(r.phase, Phase::Aborted);
    assert_eq!(r.step(Event::Succeeded), Action::Done);
}

#[test]
fn pod_missing_after_creation_aborts() {
    let (r, actions) = drive(&alpha_list(), "alpha", vec![Event::Exists(false), Event::Succeeded, Event::Exists(false)]);
    assert_eq!(actions.last(), Some(&Action::Abort(Error::PodNotFound(s("dp-alpha")))));
    assert_eq!(r.phase, Phase::Aborted);
}

#[test]
fn unexpected_event_aborts() {
    let (_, actions) = drive(&alpha_list(), "alpha", vec![Event::Succeeded]);
    assert_eq!(actions.last(), Some(&Action::Abort(Error::UnexpectedEvent(Phase::PodLookup))));
}

#[test]
fn missing_links_and_containers_abort() {
    let base = vec![Event::Exists(true), Event::Exists(true), pod_state("Running", "i"), pod_state("Running", "i")];
    let mut ev = base.clone();
    ev.push(Event::Exists(false));
    let (_, a) = drive(&alpha_list(), "alpha", ev);
    assert_eq!(a.last(), Some(&Action::Abort(Error::ContainerNotFound(s("i")))));

    let mut ev = base.clone();
    ev.extend(vec![Event::Exists(true), container("i", 0)]);
    let (_, a) = drive(&alpha_list(), "alpha", ev);
    assert_eq!(a.last(), Some(&Action::Abort(Error::ContainerNotRunning(s("i")))));

    let mut ev = base.clone();
    ev.extend(vec![Event::Exists(true), container("i", 5), Event::Interfaces(vec![]), Event::Succeeded, Event::LinkResolved(None)]);
    let (_, a) = drive(&alpha_list(), "alpha", ev);
    assert_eq!(a.last(), Some(&Action::Abort(Error::LinkNotFound(s("host0")))));

    let mut ev = base;
    ev.extend(vec![Event::Exists(true), container("i", 5), Event::Interfaces(vec![]), Event::Succeeded, Event::LinkResolved(Some(1)), Event::LinkResolved(None)]);
    let (_, a) = drive(&alpha_list(), "alpha", ev);
    assert_eq!(a.last(), Some(&Action::Abort(Error::LinkNotFound(s("dp1")))));
}

#[test]
fn pod_without_infra_container_aborts() {
    let (_, a) = drive(&alpha_list(), "alpha", vec![Event::Exists(true), Event::Exists(true), pod_state("Running", ""), pod_state("Running", "")]);
    assert_eq!(a.last(), Some(&Action::Abort(Error::NoInfraContainer(s("dp-alpha")))));
}

#[test]
fn unknown_dataplane_name_is_refused() {
    assert_eq!(
        Reconciler::for_name(&alpha_list(), "beta").err(),
        Some(Error::InvalidDataplaneName(s("beta")))
    );
}

#[test]
fn container_takes_the_id_its_inspection_reports() {
    let (r, actions) = drive(
        &alpha_list(),
        "alpha",
        vec![
            Event::Exists(true),
            Event::Exists(true),
            pod_state("Running", "abc"),
            pod_state("Running", "abc"),
            Event::Exists(true),
            container("abcdef012345", 77),
        ],
    );
    assert_eq!(actions.last(), Some(&Action::SnapshotNamespace(77)));
    assert_eq!(r.container, "abcdef012345");
    assert_eq!(r.pod_report.infra_container_id, "abc");
}

#[test]
fn existing_pod_is_checked_twice_before_inspection() {
    let (r, actions) = drive(&alpha_list(), "alpha", vec![Event::Exists(true)]);
    assert_eq!(actions, vec![Action::CheckPodExists(s("dp-alpha")), Action::CheckPodExists(s("dp-alpha"))]);
    assert_eq!(r.phase, Phase::PodRecheck);
}
