//! The host service manager's side: the unit template and the per-dataplane
//! unit instances.

use vstd::prelude::*;
use crate::dataplane::{unit_name_of, Dataplane};

verus! {

/// A request to the host service manager or to the template's file.
#[derive(Debug, Clone, PartialEq, Eq)]
pub enum ServiceRequest {
    /// Write the unit template to its place on the host.
    WriteTemplate,
    /// Have the service manager reload its configuration.
    Reload,
    /// Enable this unit for the running system only.
    EnableUnit(String),
    /// Start this unit, replacing conflicting queued jobs.
    StartUnit(String),
}

/// The mathematical value of a [`ServiceRequest`].
pub enum ServiceRequestView {
    WriteTemplate,
    Reload,
    EnableUnit(Seq<char>),
    StartUnit(Seq<char>),
}

impl View for ServiceRequest {
    type V = ServiceRequestView;

    open spec fn view(&self) -> ServiceRequestView {
        match self {
            ServiceRequest::WriteTemplate => ServiceRequestView::WriteTemplate,
            ServiceRequest::Reload => ServiceRequestView::Reload,
            ServiceRequest::EnableUnit(n) => ServiceRequestView::EnableUnit(n@),
            ServiceRequest::StartUnit(n) => ServiceRequestView::StartUnit(n@),
        }
    }
}

/// The template is installed when the file on the host holds exactly its bytes.
pub open spec fn template_installed(installed: Option<Seq<u8>>, template: Seq<u8>) -> bool {
    installed == Some(template)
}

/// Whether two byte strings are equal.
fn same_bytes(a: &[u8], b: &[u8]) -> (r: bool)
    ensures
        r == (a@ == b@),
{
    if a.len() != b.len() {
        return false;
    }
    let mut k: usize = 0;
    while k < a.len()
        invariant
            k <= a@.len(),
            a@.len() == b@.len(),
            forall|j: int| 0 <= j < k ==> a@[j] == b@[j],
        decreases a@.len() - k,
    {
        if a[k] != b[k] {
            return false;
        }
        k += 1;
    }
    assert(a@ =~= b@);
    true
}

impl Dataplane {
    /// The requests that install the unit template, given the bytes of the
    /// file now at its place (`None` if there is none): nothing when the file
    /// already holds the template, else one write and one reload.
    pub fn create_template_service(installed: &Option<Vec<u8>>, template: &[u8]) -> (r: Vec<
        ServiceRequest,
    >)
        ensures
            template_installed(
                match installed {
                    Some(b) => Some(b@),
                    None => None,
                },
                template@,
            ) ==> r@.len() == 0,
            !template_installed(
                match installed {
                    Some(b) => Some(b@),
                    None => None,
                },
                template@,
            ) ==> r@.map_values(|q: ServiceRequest| q@) == seq![
                ServiceRequestView::WriteTemplate,
                ServiceRequestView::Reload,
            ],
    {
        let up_to_date = match installed {
            Some(b) => same_bytes(b.as_slice(), template),
            None => false,
        };
        let mut r: Vec<ServiceRequest> = Vec::new();
        if !up_to_date {
            r.push(ServiceRequest::WriteTemplate);
            r.push(ServiceRequest::Reload);
        }
        assert(!up_to_date ==> r@.map_values(|q: ServiceRequest| q@) =~= seq![
            ServiceRequestView::WriteTemplate,
            ServiceRequestView::Reload,
        ]);
        r
    }

    /// The requests that enable and start this dataplane's unit instance.
    pub fn enable_now(&self) -> (r: Vec<ServiceRequest>)
        ensures
            r@.map_values(|q: ServiceRequest| q@) == seq![
                ServiceRequestView::EnableUnit(unit_name_of(self.name@)),
                ServiceRequestView::StartUnit(unit_name_of(self.name@)),
            ],
    {
        let mut r: Vec<ServiceRequest> = Vec::new();
        r.push(ServiceRequest::EnableUnit(self.unit_name()));
        r.push(ServiceRequest::StartUnit(self.unit_name()));
        assert(r@.map_values(|q: ServiceRequest| q@) =~= seq![
            ServiceRequestView::EnableUnit(unit_name_of(self.name@)),
            ServiceRequestView::StartUnit(unit_name_of(self.name@)),
        ]);
        r
    }
}

} // verus!
