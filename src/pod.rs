//! Pods: the sandboxes that run dataplanes, as the container backend
//! reports them.

use vstd::prelude::*;
use vstd::string::*;
use crate::container::{Container, ContainerInspection};
use crate::error::{Error, ErrorView};

verus! {

/// The lifecycle state that a running pod reports.
pub open spec fn running_state() -> Seq<char> {
    "Running"@
}

/// What an inspection of a pod reports.
#[derive(Debug, Clone, PartialEq, Eq)]
pub struct PodInspection {
    pub state: String,
    pub infra_container_id: String,
}

impl PodInspection {
    /// Whether the pod was running when inspected.
    pub fn is_running(&self) -> (r: bool)
        ensures
            r == (self.state@ == running_state()),
    {
        self.state == String::from_str("Running")
    }
}

/// A pod known to exist, by name.
#[derive(Debug, Clone, PartialEq, Eq)]
pub struct Pod {
    pub name: String,
}

impl Pod {
    /// The pod `name`, given whether the backend reports that it exists.
    pub fn get(name: &str, exists: bool) -> (r: Result<Pod, Error>)
        ensures
            r is Ok <==> exists,
            r matches Ok(p) ==> p.name@ == name@,
            r matches Err(e) ==> e@ == ErrorView::PodNotFound(name@),
    {
        if exists {
            Ok(Pod { name: String::from_str(name) })
        } else {
            Err(Error::PodNotFound(String::from_str(name)))
        }
    }

    /// This pod's infra container, the one that owns the pod's network
    /// namespace: from an inspection of the pod, whether the backend reports
    /// the container it names as existing, and the records of an inspection
    /// of that container.
    pub fn get_infra_container(
        &self,
        inspection: &PodInspection,
        exists: bool,
        records: &Vec<ContainerInspection>,
    ) -> (r: Result<Container, Error>)
        ensures
            r is Ok <==> inspection.infra_container_id@.len() > 0 && exists && records@.len()
                == 1,
            r matches Ok(c) ==> c.id@ == records@[0].id@,
            r matches Err(e) ==> (if inspection.infra_container_id@.len() == 0 {
                e@ == ErrorView::NoInfraContainer(self.name@)
            } else if !exists {
                e@ == ErrorView::ContainerNotFound(inspection.infra_container_id@)
            } else {
                e == Error::UnexpectedInspectionCount(records@.len() as usize)
            }),
    {
        if inspection.infra_container_id.as_str().unicode_len() > 0 {
            Container::get(inspection.infra_container_id.as_str(), exists, records)
        } else {
            Err(Error::NoInfraContainer(self.name.clone()))
        }
    }
}

} // verus!
