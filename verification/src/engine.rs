//! Proposal engine and transfer executor: proposal creation, signature
//! collection, quorum detection, and the atomic transfer execution
//! that the quorum-reaching signature triggers.

use vstd::prelude::*;

use crate::model::{contains_identity, copy_values, BlocksResources, EnvironmentalResource, Error,
    Identity, TransactionProposal, TransferRecord, SIGNATURE_THRESHOLD};

verus! {

/// Outcome of `create_transfer_proposal` on a given state: which error
/// it refuses with, or the id of the proposal it creates, decided in
/// the order the checks are made.
pub open spec fn create_outcome(
    s: BlocksResources,
    proposer: Identity,
    proposer_auth: bool,
    resource_id: u64,
) -> Result<u64, Error> {
    if !proposer_auth {
        Err(Error::Unauthorized)
    } else if resource_id >= s.resources@.len() {
        Err(Error::ResourceNotFound)
    } else if s.resources@[resource_id as int].current_owner != proposer && !s.signers().contains(
        proposer,
    ) {
        Err(Error::Unauthorized)
    } else {
        Ok(s.proposals@.len() as u64)
    }
}

/// Outcome of `sign_proposal` on a given state: which error it refuses
/// with, or success, decided in the order the checks are made.
pub open spec fn sign_outcome(
    s: BlocksResources,
    signer: Identity,
    signer_auth: bool,
    proposal_id: u64,
) -> Result<(), Error> {
    if !signer_auth {
        Err(Error::Unauthorized)
    } else if !s.signers().contains(signer) {
        Err(Error::Unauthorized)
    } else if proposal_id >= s.proposals@.len() {
        Err(Error::ProposalNotFound)
    } else if s.proposals@[proposal_id as int].executed {
        Err(Error::AlreadyExecuted)
    } else if s.proposals@[proposal_id as int].signatures@.contains(signer) {
        Err(Error::DuplicateSignature)
    } else {
        Ok(())
    }
}

/// `p` is a freshly created proposal: the given id, parties and
/// description, no signatures yet, not executed.
pub open spec fn proposal_created(
    p: TransactionProposal,
    id: u64,
    proposer: Identity,
    resource_id: u64,
    new_owner: Identity,
    description: Seq<char>,
) -> bool {
    &&& p.id == id
    &&& p.proposer == proposer
    &&& p.resource_id == resource_id
    &&& p.new_owner == new_owner
    &&& p.description@ == description
    &&& p.signatures@.len() == 0
    &&& p.executed == false
}

/// `p1` is `p0` after one signature by `signer`: the signature is
/// appended, every other field is kept, and `executed` is exactly
/// `quorum` (whether the appended signature reached the threshold).
pub open spec fn signed_proposal(
    p0: TransactionProposal,
    p1: TransactionProposal,
    signer: Identity,
    quorum: bool,
) -> bool {
    &&& p1.id == p0.id
    &&& p1.proposer == p0.proposer
    &&& p1.resource_id == p0.resource_id
    &&& p1.new_owner == p0.new_owner
    &&& p1.description == p0.description
    &&& p1.signatures@ == p0.signatures@.push(signer)
    &&& p1.executed == quorum
}

/// `r1` is `r0` after one executed transfer to `new_owner` at
/// `timestamp`: the owner is rewritten, exactly one provenance entry
/// naming the prior owner, the new owner and the timestamp is
/// appended, and every other field is kept.
pub open spec fn transferred_resource(
    r0: EnvironmentalResource,
    r1: EnvironmentalResource,
    new_owner: Identity,
    timestamp: u64,
) -> bool {
    &&& r1.id == r0.id
    &&& r1.name == r0.name
    &&& r1.origin == r0.origin
    &&& r1.certification == r0.certification
    &&& r1.current_owner == new_owner
    &&& r1.tracking_history@ == r0.tracking_history@.push(
        TransferRecord { previous_owner: r0.current_owner, new_owner, timestamp },
    )
}

impl BlocksResources {
    /// Opens a transfer proposal for an existing resource and returns
    /// its id: the current proposal counter, which is then advanced by
    /// one. The proposal starts with no signatures and not executed.
    ///
    /// Refused with `Unauthorized` when the proposer did not
    /// authenticate (`proposer_auth` is the host authenticator's
    /// verdict), with `ResourceNotFound` when `resource_id` does not
    /// resolve, and with `Unauthorized` when the proposer is neither
    /// the resource's current owner nor an authorized signer. A
    /// refused call writes nothing.
    pub fn create_transfer_proposal(
        &mut self,
        proposer: Identity,
        proposer_auth: bool,
        resource_id: u64,
        new_owner: Identity,
        description: String,
    ) -> (r: Result<u64, Error>)
        requires
            old(self).wf(),
            old(self).is_initialized(),
            old(self).proposals@.len() < u64::MAX,
        ensures
            final(self).wf(),
            final(self).is_initialized(),
            r == create_outcome(*old(self), proposer, proposer_auth, resource_id),
            r is Err ==> *final(self) == *old(self),
            r is Ok ==> {
                &&& final(self).proposals@.len() == old(self).proposals@.len() + 1
                &&& proposal_created(
                    final(self).proposals@.last(),
                    old(self).proposals@.len() as u64,
                    proposer,
                    resource_id,
                    new_owner,
                    description@,
                )
                &&& forall|j: int|
                    0 <= j < old(self).proposals@.len() ==> final(self).proposals@[j] == old(
                        self,
                    ).proposals@[j]
                &&& final(self).resources@ == old(self).resources@
                &&& final(self).data.admin == old(self).data.admin
                &&& final(self).signers() == old(self).signers()
                &&& final(self).data.next_resource_id == old(self).data.next_resource_id
                &&& final(self).data.next_proposal_id == old(self).data.next_proposal_id + 1
            },
    {
        if !proposer_auth {
            return Err(Error::Unauthorized);
        }
        if resource_id >= self.resources.len() as u64 {
            return Err(Error::ResourceNotFound);
        }
        let owner = self.resources[resource_id as usize].current_owner;
        if owner != proposer && !contains_identity(&self.data.signers, proposer) {
            return Err(Error::Unauthorized);
        }
        let proposal_id = self.data.next_proposal_id;
        self.data.next_proposal_id = proposal_id + 1;
        let proposal = TransactionProposal {
            id: proposal_id,
            proposer,
            resource_id,
            new_owner,
            description,
            signatures: Vec::new(),
            executed: false,
        };
        self.proposals.push(proposal);
        proof {
            assert forall|j: int| 0 <= j < self.proposals@.len() implies #[trigger] self
                .proposal_ok(j) by {
                if j < old(self).proposals@.len() {
                    assert(old(self).proposal_ok(j));
                }
            }
            assert forall|i: int| 0 <= i < self.resources@.len() implies #[trigger] self
                .resource_ok(i) by {
                assert(old(self).resource_ok(i));
                crate::model::lemma_count_push(
                    old(self).proposals@,
                    self.proposals@.last(),
                    i as u64,
                );
            }
        }
        Ok(proposal_id)
    }

    /// Records one signature on a pending proposal. When the appended
    /// signature brings the count to the quorum threshold, the same
    /// call executes the transfer before returning: the resource's
    /// owner becomes the proposal's `new_owner`, one provenance entry
    /// with the given ledger `timestamp` is appended to its tracking
    /// history, and the proposal is marked executed.
    ///
    /// Refused with `Unauthorized` when the signer did not authenticate
    /// (`signer_auth` is the host authenticator's verdict) or is not in
    /// the signer directory, with `ProposalNotFound` when the id does
    /// not resolve, with `AlreadyExecuted` when the proposal has
    /// already executed, and with `DuplicateSignature` when the signer
    /// has signed before. A refused call writes nothing.
    pub fn sign_proposal(
        &mut self,
        signer: Identity,
        signer_auth: bool,
        proposal_id: u64,
        timestamp: u64,
    ) -> (r: Result<(), Error>)
        requires
            old(self).wf(),
            old(self).is_initialized(),
        ensures
            final(self).wf(),
            final(self).is_initialized(),
            r == sign_outcome(*old(self), signer, signer_auth, proposal_id),
            r is Err ==> *final(self) == *old(self),
            r is Ok ==> ({
                let j = proposal_id as int;
                let p0 = old(self).proposals@[j];
                let quorum = p0.signatures@.len() + 1 >= SIGNATURE_THRESHOLD;
                let rid = p0.resource_id as int;
                &&& final(self).data.admin == old(self).data.admin
                &&& final(self).signers() == old(self).signers()
                &&& final(self).data.next_resource_id == old(self).data.next_resource_id
                &&& final(self).data.next_proposal_id == old(self).data.next_proposal_id
                &&& final(self).proposals@.len() == old(self).proposals@.len()
                &&& final(self).resources@.len() == old(self).resources@.len()
                &&& signed_proposal(p0, final(self).proposals@[j], signer, quorum)
                &&& forall|k: int|
                    0 <= k < old(self).proposals@.len() && k != j ==> final(self).proposals@[k]
                        == old(self).proposals@[k]
                &&& quorum ==> transferred_resource(
                    old(self).resources@[rid],
                    final(self).resources@[rid],
                    p0.new_owner,
                    timestamp,
                )
                &&& quorum ==> forall|k: int|
                    0 <= k < old(self).resources@.len() && k != rid ==> final(self).resources@[k]
                        == old(self).resources@[k]
                &&& !quorum ==> final(self).resources@ == old(self).resources@
            }),
    {
        if !signer_auth {
            return Err(Error::Unauthorized);
        }
        if !contains_identity(&self.data.signers, signer) {
            return Err(Error::Unauthorized);
        }
        if proposal_id >= self.proposals.len() as u64 {
            return Err(Error::ProposalNotFound);
        }
        let j = proposal_id as usize;
        if self.proposals[j].executed {
            return Err(Error::AlreadyExecuted);
        }
        if contains_identity(&self.proposals[j].signatures, signer) {
            return Err(Error::DuplicateSignature);
        }
        let mut proposal = self.proposals.remove(j);
        proposal.signatures.push(signer);
        let quorum = proposal.signatures.len() >= SIGNATURE_THRESHOLD;
        self.proposals.insert(j, proposal);
        proof {
            let p0 = old(self).proposals@[j as int];
            let p1 = self.proposals@[j as int];
            assert(self.proposals@ =~= old(self).proposals@.update(
                j as int,
                self.proposals@[j as int],
            ));
            assert(p1.signatures@ == p0.signatures@.push(signer));
            assert forall|jj: int| 0 <= jj < self.proposals@.len() implies #[trigger] self
                .proposal_ok(jj) by {
                assert(old(self).proposal_ok(jj));
                if jj == j {
                    assert(p1.signatures@.no_duplicates()) by {
                        assert(forall|a: int|
                            0 <= a < p0.signatures@.len() ==> #[trigger] p1.signatures@[a]
                                == p0.signatures@[a]);
                        assert(forall|a: int|
                            0 <= a < p0.signatures@.len() ==> #[trigger] p1.signatures@[a]
                                != signer);
                    }
                }
            }
            assert forall|i: int| 0 <= i < self.resources@.len() implies #[trigger] self
                .resource_ok(i) by {
                assert(old(self).resource_ok(i));
                crate::model::lemma_count_update(old(self).proposals@, j as int, p1, i as u64);
            }
        }
        if quorum {
            self.execute_transfer(proposal_id, timestamp);
        }
        Ok(())
    }

    /// Transfer executor, reached only through `sign_proposal` when a
    /// proposal's signature count reaches the quorum threshold.
    /// Re-fetches the proposal and its resource by id, rewrites the
    /// resource's owner, appends the provenance entry and marks the
    /// proposal executed, all before returning.
    fn execute_transfer(&mut self, proposal_id: u64, timestamp: u64)
        requires
            old(self).wf(),
            proposal_id < old(self).proposals@.len(),
            !old(self).proposals@[proposal_id as int].executed,
            old(self).proposals@[proposal_id as int].signatures@.len() >= SIGNATURE_THRESHOLD,
        ensures
            final(self).wf(),
            final(self).data == old(self).data,
            final(self).proposals@.len() == old(self).proposals@.len(),
            final(self).resources@.len() == old(self).resources@.len(),
            ({
                let j = proposal_id as int;
                let p0 = old(self).proposals@[j];
                let p1 = final(self).proposals@[j];
                let rid = p0.resource_id as int;
                &&& p1.id == p0.id
                &&& p1.proposer == p0.proposer
                &&& p1.resource_id == p0.resource_id
                &&& p1.new_owner == p0.new_owner
                &&& p1.description == p0.description
                &&& p1.signatures@ == p0.signatures@
                &&& p1.executed == true
                &&& forall|k: int|
                    0 <= k < old(self).proposals@.len() && k != j ==> final(self).proposals@[k]
                        == old(self).proposals@[k]
                &&& transferred_resource(
                    old(self).resources@[rid],
                    final(self).resources@[rid],
                    p0.new_owner,
                    timestamp,
                )
                &&& forall|k: int|
                    0 <= k < old(self).resources@.len() && k != rid ==> final(self).resources@[k]
                        == old(self).resources@[k]
            }),
    {
        let j = proposal_id as usize;
        proof {
            vstd::std_specs::vec::axiom_spec_len(&old(self).proposals);
            vstd::std_specs::vec::axiom_spec_len(&old(self).resources);
            assert(old(self).proposals@.len() <= usize::MAX);
            assert(j == proposal_id as int);
            assert(old(self).proposal_ok(j as int));
        }
        let mut proposal = self.proposals.remove(j);
        let rid = proposal.resource_id as usize;
        proof {
            assert(proposal == old(self).proposals@[j as int]);
            assert(proposal.resource_id < old(self).resources@.len());
            assert(old(self).resources@.len() <= usize::MAX);
            assert(rid == proposal.resource_id as int);
        }
        let mut resource = self.resources.remove(rid);
        let entry = TransferRecord {
            previous_owner: resource.current_owner,
            new_owner: proposal.new_owner,
            timestamp,
        };
        resource.tracking_history.push(entry);
        resource.current_owner = proposal.new_owner;
        proposal.executed = true;
        self.resources.insert(rid, resource);
        self.proposals.insert(j, proposal);
        proof {
            assert(self.resources@ =~= old(self).resources@.update(
                rid as int,
                self.resources@[rid as int],
            ));
            assert(self.proposals@ =~= old(self).proposals@.update(
                j as int,
                self.proposals@[j as int],
            ));
            assert forall|jj: int| 0 <= jj < self.proposals@.len() implies #[trigger] self
                .proposal_ok(jj) by {
                assert(old(self).proposal_ok(jj));
                if jj == j as int {
                    assert(self.proposals@[jj] == proposal);
                    assert(proposal.signatures@ == old(self).proposals@[jj].signatures@);
                } else {
                    assert(self.proposals@[jj] == old(self).proposals@[jj]);
                }
            }
            assert forall|i: int| 0 <= i < self.resources@.len() implies #[trigger] self
                .resource_ok(i) by {
                assert(old(self).resource_ok(i));
                crate::model::lemma_count_update(
                    old(self).proposals@,
                    j as int,
                    self.proposals@[j as int],
                    i as u64,
                );
            }
        }
    }

    /// The proposal record with the given id, by value; refused with
    /// `ProposalNotFound` when no such id has been created.
    pub fn get_proposal(&self, proposal_id: u64) -> (r: Result<TransactionProposal, Error>)
        ensures
            r is Ok <==> proposal_id < self.proposals@.len(),
            r is Err ==> r == Err::<TransactionProposal, Error>(Error::ProposalNotFound),
            r matches Ok(p) ==> {
                &&& p.id == self.proposals@[proposal_id as int].id
                &&& p.proposer == self.proposals@[proposal_id as int].proposer
                &&& p.resource_id == self.proposals@[proposal_id as int].resource_id
                &&& p.new_owner == self.proposals@[proposal_id as int].new_owner
                &&& p.description@ == self.proposals@[proposal_id as int].description@
                &&& p.signatures@ == self.proposals@[proposal_id as int].signatures@
                &&& p.executed == self.proposals@[proposal_id as int].executed
            },
    {
        if proposal_id >= self.proposals.len() as u64 {
            return Err(Error::ProposalNotFound);
        }
        let i = proposal_id as usize;
        let p = &self.proposals[i];
        Ok(
            TransactionProposal {
                id: p.id,
                proposer: p.proposer,
                resource_id: p.resource_id,
                new_owner: p.new_owner,
                description: p.description.clone(),
                signatures: copy_values(&p.signatures),
                executed: p.executed,
            },
        )
    }
}

} // verus!
