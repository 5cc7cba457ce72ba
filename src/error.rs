//! Errors of the provisioning workflow.

use vstd::prelude::*;
use crate::reconcile::Phase;

verus! {

/// Why a lookup or a reconciliation step failed.
#[derive(Debug, Clone, PartialEq, Eq)]
pub enum Error {
    /// No dataplane of the list carries this id.
    InvalidDataplaneId(u32),
    /// No dataplane of the list carries this name.
    InvalidDataplaneName(String),
    /// Two dataplanes of the list share this name.
    DuplicateDataplaneName(String),
    /// Two dataplanes of the list share this id.
    DuplicateDataplaneId(u32),
    /// The container backend knows no pod of this name.
    PodNotFound(String),
    /// The pod of this name reports no infra container.
    NoInfraContainer(String),
    /// The container backend knows no container of this id.
    ContainerNotFound(String),
    /// The container of this id has no live process.
    ContainerNotRunning(String),
    /// An inspection described this many containers instead of one.
    UnexpectedInspectionCount(usize),
    /// The kernel knows no link of this name.
    LinkNotFound(String),
    /// A backend call failed during this phase, with its diagnostic text.
    BackendFailed(Phase, String),
    /// An outcome arrived that does not answer the request of this phase.
    UnexpectedEvent(Phase),
}

/// The mathematical value of an [`Error`].
pub enum ErrorView {
    InvalidDataplaneId(u32),
    InvalidDataplaneName(Seq<char>),
    DuplicateDataplaneName(Seq<char>),
    DuplicateDataplaneId(u32),
    PodNotFound(Seq<char>),
    NoInfraContainer(Seq<char>),
    ContainerNotFound(Seq<char>),
    ContainerNotRunning(Seq<char>),
    UnexpectedInspectionCount(usize),
    LinkNotFound(Seq<char>),
    BackendFailed(Phase, Seq<char>),
    UnexpectedEvent(Phase),
}

impl View for Error {
    type V = ErrorView;

    open spec fn view(&self) -> ErrorView {
        match self {
            Error::InvalidDataplaneId(id) => ErrorView::InvalidDataplaneId(*id),
            Error::InvalidDataplaneName(n) => ErrorView::InvalidDataplaneName(n@),
            Error::DuplicateDataplaneName(n) => ErrorView::DuplicateDataplaneName(n@),
            Error::DuplicateDataplaneId(id) => ErrorView::DuplicateDataplaneId(*id),
            Error::PodNotFound(n) => ErrorView::PodNotFound(n@),
            Error::NoInfraContainer(n) => ErrorView::NoInfraContainer(n@),
            Error::ContainerNotFound(n) => ErrorView::ContainerNotFound(n@),
            Error::ContainerNotRunning(n) => ErrorView::ContainerNotRunning(n@),
            Error::UnexpectedInspectionCount(c) => ErrorView::UnexpectedInspectionCount(*c),
            Error::LinkNotFound(n) => ErrorView::LinkNotFound(n@),
            Error::BackendFailed(p, m) => ErrorView::BackendFailed(*p, m@),
            Error::UnexpectedEvent(p) => ErrorView::UnexpectedEvent(*p),
        }
    }
}

} // verus!
