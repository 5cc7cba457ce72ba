//! Containers as the container backend reports them.

use vstd::prelude::*;
use vstd::string::*;
use crate::error::{Error, ErrorView};

verus! {

/// The runtime state of an inspected container.
#[derive(Debug, Clone, PartialEq, Eq)]
pub struct ContainerState {
    /// The container's main process; zero while it is not running.
    pub pid: u64,
}

/// One record of a container inspection.
#[derive(Debug, Clone, PartialEq, Eq)]
pub struct ContainerInspection {
    pub id: String,
    pub state: ContainerState,
}

/// A container known to exist, by id.
#[derive(Debug, Clone, PartialEq, Eq)]
pub struct Container {
    pub id: String,
}

impl Container {
    /// The container `id`, given whether the backend reports that it exists
    /// and the records of an inspection of it: the container carries the id
    /// that the inspection reports.
    pub fn get(id: &str, exists: bool, records: &Vec<ContainerInspection>) -> (r: Result<
        Container,
        Error,
    >)
        ensures
            r is Ok <==> exists && records@.len() == 1,
            r matches Ok(c) ==> c.id@ == records@[0].id@,
            r matches Err(e) ==> (if !exists {
                e@ == ErrorView::ContainerNotFound(id@)
            } else {
                e == Error::UnexpectedInspectionCount(records@.len() as usize)
            }),
    {
        if !exists {
            Err(Error::ContainerNotFound(String::from_str(id)))
        } else if records.len() != 1 {
            Err(Error::UnexpectedInspectionCount(records.len()))
        } else {
            Ok(Container { id: records[0].id.clone() })
        }
    }

    /// The record of an inspection of this container, which must describe
    /// exactly one container.
    pub fn inspect(&self, records: Vec<ContainerInspection>) -> (r: Result<
        ContainerInspection,
        Error,
    >)
        ensures
            r is Ok <==> records@.len() == 1,
            r matches Ok(c) ==> c == records@[0],
            r matches Err(e) ==> e == Error::UnexpectedInspectionCount(records@.len() as usize),
    {
        let mut records = records;
        if records.len() == 1 {
            Ok(records.remove(0))
        } else {
            Err(Error::UnexpectedInspectionCount(records.len()))
        }
    }

    /// The live process of this container, from an inspection of it.
    pub fn get_pid(&self, records: Vec<ContainerInspection>) -> (r: Result<u64, Error>)
        ensures
            r is Ok <==> records@.len() == 1 && records@[0].state.pid != 0,
            r matches Ok(pid) ==> pid == records@[0].state.pid,
            r matches Err(e) ==> (if records@.len() != 1 {
                e == Error::UnexpectedInspectionCount(records@.len() as usize)
            } else {
                e@ == ErrorView::ContainerNotRunning(self.id@)
            }),
    {
        let inspection = self.inspect(records)?;
        if inspection.state.pid == 0 {
            Err(Error::ContainerNotRunning(self.id.clone()))
        } else {
            Ok(inspection.state.pid)
        }
    }
}

} // verus!
