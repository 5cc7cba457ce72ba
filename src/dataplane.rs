//! The dataplane registry: named, numbered workloads, and the names that the
//! rest of the system derives from them.

use vstd::prelude::*;
use vstd::string::*;
use crate::error::{Error, ErrorView};
use crate::pod::Pod;
use crate::names::{decimal, push_decimal};

verus! {

/// A dataplane: a named network-function workload with a numeric id.
#[derive(Debug, Clone, PartialEq, Eq)]
pub struct Dataplane {
    pub name: String,
    pub id: u32,
}

/// The dataplanes of the configuration, in the order they were listed.
#[derive(Debug, Clone, PartialEq, Eq)]
pub struct DataplaneList {
    pub dataplanes: Vec<Dataplane>,
}

/// The name of the sandbox that runs a dataplane of this name.
pub open spec fn pod_name_of(name: Seq<char>) -> Seq<char> {
    "dp-"@ + name
}

/// The host-side interface name of the dataplane with this id.
pub open spec fn host_iface_name_of(id: u32) -> Seq<char> {
    "dp"@ + decimal(id as nat)
}

/// The service unit instance of the dataplane of this name.
pub open spec fn unit_name_of(name: Seq<char>) -> Seq<char> {
    "dataplane@"@ + name + ".service"@
}

/// `i` is the first position of `s` whose dataplane has this id.
pub open spec fn is_first_with_id(s: Seq<Dataplane>, i: int, id: u32) -> bool {
    &&& 0 <= i < s.len()
    &&& s[i].id == id
    &&& forall|j: int| 0 <= j < i ==> s[j].id != id
}

/// `i` is the first position of `s` whose dataplane has this name.
pub open spec fn is_first_with_name(s: Seq<Dataplane>, i: int, name: Seq<char>) -> bool {
    &&& 0 <= i < s.len()
    &&& s[i].name@ == name
    &&& forall|j: int| 0 <= j < i ==> s[j].name@ != name
}

/// No two dataplanes of `s` share a name or an id.
pub open spec fn all_distinct(s: Seq<Dataplane>) -> bool {
    forall|i: int, j: int|
        0 <= i < s.len() && 0 <= j < s.len() && i != j ==> s[i].name@ != s[j].name@ && s[i].id
            != s[j].id
}

/// In a list where no two dataplanes share a name or an id, looking a record
/// up by its own id or name finds that record and no other.
pub proof fn lemma_distinct_lookup_is_exact(s: Seq<Dataplane>, i: int)
    requires
        all_distinct(s),
        0 <= i < s.len(),
    ensures
        is_first_with_id(s, i, s[i].id),
        is_first_with_name(s, i, s[i].name@),
        forall|j: int| is_first_with_id(s, j, s[i].id) ==> j == i,
        forall|j: int| is_first_with_name(s, j, s[i].name@) ==> j == i,
{
}

impl Dataplane {
    /// The name of the sandbox that runs this dataplane: `dp-<name>`.
    pub fn pod_name(&self) -> (r: String)
        ensures
            r@ == pod_name_of(self.name@),
    {
        let mut s = String::from_str("dp-");
        s.append(self.name.as_str());
        s
    }

    /// The host-side end of the dataplane's veth pair: `dp<id>`.
    pub fn host_iface_name(&self) -> (r: String)
        ensures
            r@ == host_iface_name_of(self.id),
    {
        let mut s = String::from_str("dp");
        push_decimal(&mut s, self.id);
        s
    }

    /// The service unit instance of this dataplane: `dataplane@<name>.service`.
    pub fn unit_name(&self) -> (r: String)
        ensures
            r@ == unit_name_of(self.name@),
    {
        let mut s = String::from_str("dataplane@");
        s.append(self.name.as_str());
        s.append(".service");
        s
    }

    /// This dataplane's pod, given whether the backend reports that it exists.
    pub fn get_pod(&self, exists: bool) -> (r: Result<Pod, Error>)
        ensures
            r is Ok <==> exists,
            r matches Ok(p) ==> p.name@ == pod_name_of(self.name@),
            r matches Err(e) ==> e@ == ErrorView::PodNotFound(pod_name_of(self.name@)),
    {
        Pod::get(self.pod_name().as_str(), exists)
    }

    /// A copy of this dataplane.
    pub fn duplicate(&self) -> (r: Dataplane)
        ensures
            r.name@ == self.name@,
            r.id == self.id,
    {
        Dataplane { name: self.name.clone(), id: self.id }
    }
}

impl DataplaneList {
    /// The first dataplane whose id is `id`.
    pub fn by_id(&self, id: u32) -> (r: Result<&Dataplane, Error>)
        ensures
            r is Ok <==> exists|i: int|
                0 <= i < self.dataplanes@.len() && #[trigger] self.dataplanes@[i].id == id,
            r matches Ok(dp) ==> exists|i: int|
                is_first_with_id(self.dataplanes@, i, id) && *dp == self.dataplanes@[i],
            r matches Err(e) ==> e == Error::InvalidDataplaneId(id),
    {
        let mut k: usize = 0;
        while k < self.dataplanes.len()
            invariant
                k <= self.dataplanes@.len(),
                forall|j: int| 0 <= j < k ==> self.dataplanes@[j].id != id,
            decreases self.dataplanes@.len() - k,
        {
            if self.dataplanes[k].id == id {
                assert(is_first_with_id(self.dataplanes@, k as int, id));
                return Ok(&self.dataplanes[k]);
            }
            k += 1;
        }
        Err(Error::InvalidDataplaneId(id))
    }

    /// The first dataplane whose name is `name`.
    pub fn by_name(&self, name: &str) -> (r: Result<&Dataplane, Error>)
        ensures
            r is Ok <==> exists|i: int|
                0 <= i < self.dataplanes@.len() && #[trigger] self.dataplanes@[i].name@ == name@,
            r matches Ok(dp) ==> exists|i: int|
                is_first_with_name(self.dataplanes@, i, name@) && *dp == self.dataplanes@[i],
            r matches Err(e) ==> e@ == ErrorView::InvalidDataplaneName(name@),
    {
        let wanted = String::from_str(name);
        let mut k: usize = 0;
        while k < self.dataplanes.len()
            invariant
                k <= self.dataplanes@.len(),
                wanted@ == name@,
                forall|j: int| 0 <= j < k ==> self.dataplanes@[j].name@ != name@,
            decreases self.dataplanes@.len() - k,
        {
            if self.dataplanes[k].name == wanted {
                assert(is_first_with_name(self.dataplanes@, k as int, name@));
                return Ok(&self.dataplanes[k]);
            }
            k += 1;
        }
        Err(Error::InvalidDataplaneName(wanted))
    }
    /// Checks that no two dataplanes share a name or an id; on failure names
    /// one that is shared.
    pub fn check_unique(&self) -> (r: Result<(), Error>)
        ensures
            r is Ok <==> all_distinct(self.dataplanes@),
            r matches Err(e) ==> exists|i: int, j: int|
                0 <= i < j < self.dataplanes@.len() && ((self.dataplanes@[i].name@
                    == self.dataplanes@[j].name@ && e@ == ErrorView::DuplicateDataplaneName(
                    self.dataplanes@[i].name@,
                )) || (self.dataplanes@[i].id == self.dataplanes@[j].id
                    && e == Error::DuplicateDataplaneId(self.dataplanes@[i].id))),
    {
        let ghost s = self.dataplanes@;
        let n = self.dataplanes.len();
        let mut j: usize = 0;
        while j < n
            invariant
                n == s.len(),
                s == self.dataplanes@,
                j <= n,
                forall|a: int, b: int|
                    0 <= a < b < j ==> s[a].name@ != s[b].name@ && s[a].id != s[b].id,
            decreases n - j,
        {
            let mut i: usize = 0;
            while i < j
                invariant
                    n == s.len(),
                    s == self.dataplanes@,
                    i <= j < n,
                    forall|a: int, b: int|
                        0 <= a < b < j ==> s[a].name@ != s[b].name@ && s[a].id != s[b].id,
                    forall|a: int| 0 <= a < i ==> s[a].name@ != s[j as int].name@ && s[a].id != s[j as int].id,
                decreases j - i,
            {
                if self.dataplanes[i].name == self.dataplanes[j].name {
                    return Err(Error::DuplicateDataplaneName(self.dataplanes[i].name.clone()));
                }
                if self.dataplanes[i].id == self.dataplanes[j].id {
                    return Err(Error::DuplicateDataplaneId(self.dataplanes[i].id));
                }
                i += 1;
            }
            j += 1;
        }
        assert forall|a: int, b: int|
            0 <= a < s.len() && 0 <= b < s.len() && a != b implies s[a].name@ != s[b].name@
            && s[a].id != s[b].id by {
            if a > b {
                assert(s[b].name@ != s[a].name@);
            }
        }
        Ok(())
    }
}

} // verus!
