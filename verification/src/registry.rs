//! Resource registry: creation of resource records and the read
//! accessor for them.

use vstd::prelude::*;

use crate::model::{BlocksResources, EnvironmentalResource, Error, Identity};

verus! {

/// `rec` is a freshly registered resource: the given id and metadata,
/// the given owner, and an empty tracking history.
pub open spec fn resource_created(
    rec: EnvironmentalResource,
    id: u64,
    name: Seq<char>,
    origin: Seq<char>,
    certification: Seq<char>,
    owner: Identity,
) -> bool {
    &&& rec.id == id
    &&& rec.name@ == name
    &&& rec.origin@ == origin
    &&& rec.certification@ == certification
    &&& rec.current_owner == owner
    &&& rec.tracking_history@.len() == 0
}

impl BlocksResources {
    /// Registers a new resource owned by the administrator and returns
    /// its id: the current resource counter, which is then advanced by
    /// one. The record starts with an empty tracking history.
    ///
    /// Refused with `Unauthorized` when the administrator did not
    /// authenticate (`admin_auth` is the host authenticator's
    /// verdict); a refused call writes nothing.
    pub fn register_resource(
        &mut self,
        name: String,
        origin: String,
        certification: String,
        admin_auth: bool,
    ) -> (r: Result<u64, Error>)
        requires
            old(self).wf(),
            old(self).is_initialized(),
            old(self).resources@.len() < u64::MAX,
        ensures
            final(self).wf(),
            final(self).is_initialized(),
            !admin_auth ==> r == Err::<u64, Error>(Error::Unauthorized),
            r is Err ==> *final(self) == *old(self),
            r is Ok <==> admin_auth,
            r is Ok ==> {
                &&& r == Ok::<u64, Error>(old(self).resources@.len() as u64)
                &&& final(self).resources@.len() == old(self).resources@.len() + 1
                &&& resource_created(
                    final(self).resources@.last(),
                    old(self).resources@.len() as u64,
                    name@,
                    origin@,
                    certification@,
                    old(self).admin_id(),
                )
                &&& forall|i: int|
                    0 <= i < old(self).resources@.len() ==> final(self).resources@[i] == old(
                        self,
                    ).resources@[i]
                &&& final(self).proposals@ == old(self).proposals@
                &&& final(self).data.admin == old(self).data.admin
                &&& final(self).signers() == old(self).signers()
                &&& final(self).data.next_resource_id == old(self).data.next_resource_id + 1
                &&& final(self).data.next_proposal_id == old(self).data.next_proposal_id
            },
    {
        if !admin_auth {
            return Err(Error::Unauthorized);
        }
        let admin = match self.data.admin {
            Some(a) => a,
            None => { return Err(Error::Unauthorized) },
        };
        let resource_id = self.data.next_resource_id;
        self.data.next_resource_id = resource_id + 1;
        let resource = EnvironmentalResource {
            id: resource_id,
            name,
            origin,
            current_owner: admin,
            certification,
            tracking_history: Vec::new(),
        };
        self.resources.push(resource);
        proof {
            assert forall|j: int| 0 <= j < self.proposals@.len() implies #[trigger] self
                .proposal_ok(j) by {
                assert(old(self).proposal_ok(j));
            }
            assert forall|i: int| 0 <= i < self.resources@.len() implies #[trigger] self
                .resource_ok(i) by {
                if i < old(self).resources@.len() {
                    assert(old(self).resource_ok(i));
                } else {
                    assert forall|j: int| 0 <= j < self.proposals@.len() implies (
                    #[trigger] self.proposals@[j]).resource_id != i as u64 by {
                        assert(old(self).proposal_ok(j));
                    }
                    crate::model::lemma_count_zero_when_unreferenced(self.proposals@, i as u64);
                }
            }
        }
        Ok(resource_id)
    }

    /// The resource record with the given id, by value; refused with
    /// `ResourceNotFound` when no such id has been registered.
    pub fn get_resource(&self, resource_id: u64) -> (r: Result<EnvironmentalResource, Error>)
        ensures
            r is Ok <==> resource_id < self.resources@.len(),
            r is Err ==> r == Err::<EnvironmentalResource, Error>(Error::ResourceNotFound),
            r matches Ok(rec) ==> {
                &&& rec.id == self.resources@[resource_id as int].id
                &&& rec.name@ == self.resources@[resource_id as int].name@
                &&& rec.origin@ == self.resources@[resource_id as int].origin@
                &&& rec.current_owner == self.resources@[resource_id as int].current_owner
                &&& rec.certification@ == self.resources@[resource_id as int].certification@
                &&& rec.tracking_history@ == self.resources@[resource_id as int].tracking_history@
            },
    {
        if resource_id >= self.resources.len() as u64 {
            return Err(Error::ResourceNotFound);
        }
        let i = resource_id as usize;
        let rec = &self.resources[i];
        Ok(
            EnvironmentalResource {
                id: rec.id,
                name: rec.name.clone(),
                origin: rec.origin.clone(),
                current_owner: rec.current_owner,
                certification: rec.certification.clone(),
                tracking_history: crate::model::copy_values(&rec.tracking_history),
            },
        )
    }
}

} // verus!
