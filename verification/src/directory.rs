//! Signer directory: one-time initialization, listing the signers and
//! the administrative add-signer operation.

use vstd::prelude::*;

use crate::model::{contains_identity, copy_values, BlocksResources, Error, Identity,
    SIGNATURE_THRESHOLD};

verus! {

/// Outcome of `add_signer` on a given state: which error it refuses
/// with, or success, decided in the order the checks are made.
pub open spec fn add_signer_outcome(
    s: BlocksResources,
    admin: Identity,
    admin_auth: bool,
    new_signer: Identity,
) -> Result<(), Error> {
    if admin != s.admin_id() {
        Err(Error::Unauthorized)
    } else if !admin_auth {
        Err(Error::Unauthorized)
    } else if s.signers().contains(new_signer) {
        Err(Error::DuplicateSigner)
    } else {
        Ok(())
    }
}

impl BlocksResources {
    /// One-time setup: records the administrator and the initial signer
    /// directory and zeroes both id counters.
    ///
    /// Refused with `AlreadyInitialized` on a second call, with
    /// `InsufficientSigners` when fewer than `SIGNATURE_THRESHOLD`
    /// signers are offered, and with `Unauthorized` when the caller did
    /// not authenticate as `admin` (`admin_auth` is the host
    /// authenticator's verdict). A refused call writes nothing.
    pub fn initialize(&mut self, admin: Identity, admin_auth: bool, signers: Vec<Identity>) -> (r:
        Result<(), Error>)
        requires
            old(self).wf(),
        ensures
            final(self).wf(),
            old(self).is_initialized() ==> r == Err::<(), Error>(Error::AlreadyInitialized),
            !old(self).is_initialized() && signers@.len() < SIGNATURE_THRESHOLD ==> r == Err::<
                (),
                Error,
            >(Error::InsufficientSigners),
            !old(self).is_initialized() && signers@.len() >= SIGNATURE_THRESHOLD && !admin_auth
                ==> r == Err::<(), Error>(Error::Unauthorized),
            r is Err ==> *final(self) == *old(self),
            r is Ok <==> !old(self).is_initialized() && signers@.len() >= SIGNATURE_THRESHOLD
                && admin_auth,
            r is Ok ==> {
                &&& final(self).is_initialized()
                &&& final(self).admin_id() == admin
                &&& final(self).signers() == signers@
                &&& final(self).data.next_resource_id == 0
                &&& final(self).data.next_proposal_id == 0
                &&& final(self).resources@.len() == 0
                &&& final(self).proposals@.len() == 0
            },
    {
        if self.data.admin.is_some() {
            return Err(Error::AlreadyInitialized);
        }
        if signers.len() < SIGNATURE_THRESHOLD {
            return Err(Error::InsufficientSigners);
        }
        if !admin_auth {
            return Err(Error::Unauthorized);
        }
        self.data.admin = Some(admin);
        self.data.signers = signers;
        self.data.next_resource_id = 0;
        self.data.next_proposal_id = 0;
        Ok(())
    }

    /// The current signer directory, by value.
    pub fn get_signers(&self) -> (r: Vec<Identity>)
        ensures
            r@ == self.signers(),
    {
        copy_values(&self.data.signers)
    }

    /// Appends `new_signer` to the directory.
    ///
    /// Refused with `Unauthorized` when `admin` is not the recorded
    /// administrator or did not authenticate, and with
    /// `DuplicateSigner` when `new_signer` is already in the directory.
    /// A refused call changes nothing; a successful one changes only
    /// the signer directory, by one appended entry.
    pub fn add_signer(&mut self, admin: Identity, admin_auth: bool, new_signer: Identity) -> (r:
        Result<(), Error>)
        requires
            old(self).wf(),
            old(self).is_initialized(),
        ensures
            final(self).wf(),
            final(self).is_initialized(),
            r == add_signer_outcome(*old(self), admin, admin_auth, new_signer),
            r is Err ==> *final(self) == *old(self),
            r is Ok ==> {
                &&& final(self).signers() == old(self).signers().push(new_signer)
                &&& final(self).data.admin == old(self).data.admin
                &&& final(self).data.next_resource_id == old(self).data.next_resource_id
                &&& final(self).data.next_proposal_id == old(self).data.next_proposal_id
                &&& final(self).resources@ == old(self).resources@
                &&& final(self).proposals@ == old(self).proposals@
            },
    {
        let stored_admin = match self.data.admin {
            Some(a) => a,
            None => { return Err(Error::Unauthorized) },
        };
        if admin != stored_admin {
            return Err(Error::Unauthorized);
        }
        if !admin_auth {
            return Err(Error::Unauthorized);
        }
        if contains_identity(&self.data.signers, new_signer) {
            return Err(Error::DuplicateSigner);
        }
        self.data.signers.push(new_signer);
        proof {
            assert forall|i: int| 0 <= i < self.resources@.len() implies #[trigger] self
                .resource_ok(i) by {
                assert(old(self).resource_ok(i));
            }
            assert forall|j: int| 0 <= j < self.proposals@.len() implies #[trigger] self
                .proposal_ok(j) by {
                assert(old(self).proposal_ok(j));
                let p = self.proposals@[j];
                assert forall|k: int| 0 <= k < p.signatures@.len() implies self.signers().contains(
                    #[trigger] p.signatures@[k],
                ) by {
                    let x = p.signatures@[k];
                    assert(old(self).signers().contains(x));
                    let w = choose|w: int| 0 <= w < old(self).signers().len() && old(
                        self,
                    ).signers()[w] == x;
                    assert(self.signers()[w] == x);
                }
            }
        }
        Ok(())
    }
}

} // verus!
