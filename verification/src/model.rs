//! Data model: identities, records, proposals, the directory data and
//! the whole contract state with its well-formedness invariant.

use vstd::prelude::*;

verus! {

/// Number of signatures a proposal needs before its transfer executes,
/// and the least number of signers the directory may be initialized with.
pub const SIGNATURE_THRESHOLD: usize = 2;

/// An account that can own resources, propose transfers and sign them.
///
/// The host environment authenticates callers; the ledger only needs a
/// stable identifier to compare, so an identity is a plain key.
#[derive(Clone, Copy, PartialEq, Eq, Structural, Debug, Hash)]
pub struct Identity(pub u64);

/// One provenance entry of a resource: a single executed transfer.
#[derive(Clone, Copy, PartialEq, Eq, Structural, Debug)]
pub struct TransferRecord {
    /// Owner the resource was taken from.
    pub previous_owner: Identity,
    /// Owner the resource was handed to.
    pub new_owner: Identity,
    /// Ledger timestamp of the execution, supplied by the host.
    pub timestamp: u64,
}

/// A registered environmental resource and its provenance.
pub struct EnvironmentalResource {
    /// Unique id, immutable after creation.
    pub id: u64,
    pub name: String,
    pub origin: String,
    /// Mutates only through a successfully executed transfer.
    pub current_owner: Identity,
    pub certification: String,
    /// Append-only, chronological: one entry per executed transfer.
    pub tracking_history: Vec<TransferRecord>,
}

/// A proposal to transfer one resource to a new owner.
pub struct TransactionProposal {
    /// Unique id, immutable after creation.
    pub id: u64,
    pub proposer: Identity,
    /// Id of the resource the proposal is about.
    pub resource_id: u64,
    pub new_owner: Identity,
    pub description: String,
    /// Signatures gathered so far; holds each identity at most once.
    pub signatures: Vec<Identity>,
    /// Set exactly once, by the signature that reaches the threshold.
    pub executed: bool,
}

/// Administrator, signer directory and id counters.
pub struct ContractData {
    /// `None` until `initialize` has succeeded.
    pub admin: Option<Identity>,
    /// Authorized signers; append-only.
    pub signers: Vec<Identity>,
    /// Id handed to the next registered resource.
    pub next_resource_id: u64,
    /// Id handed to the next created proposal.
    pub next_proposal_id: u64,
}

/// Everything an operation can fail with. Every failure aborts the
/// whole operation and leaves the state untouched.
#[derive(Clone, Copy, PartialEq, Eq, Structural, Debug)]
pub enum Error {
    AlreadyInitialized,
    InsufficientSigners,
    Unauthorized,
    ResourceNotFound,
    ProposalNotFound,
    AlreadyExecuted,
    DuplicateSignature,
    DuplicateSigner,
}

/// The whole ledger state: directory data plus the resource and
/// proposal stores, indexed by id.
pub struct BlocksResources {
    pub data: ContractData,
    /// Resource with id `i` sits at index `i`; never removed.
    pub resources: Vec<EnvironmentalResource>,
    /// Proposal with id `j` sits at index `j`; never removed.
    pub proposals: Vec<TransactionProposal>,
}

/// `p` is an executed transfer of the resource with id `resource_id`.
pub open spec fn is_execution_for(p: TransactionProposal, resource_id: u64) -> bool {
    p.executed && p.resource_id == resource_id
}

/// How many proposals in `ps` are executed transfers of the resource
/// with id `resource_id`.
pub open spec fn executed_transfer_count(ps: Seq<TransactionProposal>, resource_id: u64) -> nat
    decreases ps.len(),
{
    if ps.len() == 0 {
        0
    } else {
        executed_transfer_count(ps.drop_last(), resource_id) + if is_execution_for(
            ps.last(),
            resource_id,
        ) {
            1nat
        } else {
            0nat
        }
    }
}

/// Appending a proposal raises the execution count of a resource by
/// one exactly when the appended proposal is an executed transfer of it.
pub proof fn lemma_count_push(ps: Seq<TransactionProposal>, p: TransactionProposal, rid: u64)
    ensures
        executed_transfer_count(ps.push(p), rid) == executed_transfer_count(ps, rid) + if
        is_execution_for(p, rid) {
            1nat
        } else {
            0nat
        },
{
    assert(ps.push(p).drop_last() =~= ps);
    assert(ps.push(p).last() == p);
}

/// Replacing the proposal at `j` moves the execution count of a
/// resource by the difference the replacement makes at that position.
pub proof fn lemma_count_update(ps: Seq<TransactionProposal>, j: int, p: TransactionProposal, rid: u64)
    requires
        0 <= j < ps.len(),
    ensures
        executed_transfer_count(ps.update(j, p), rid) + (if is_execution_for(ps[j], rid) {
            1nat
        } else {
            0nat
        }) == executed_transfer_count(ps, rid) + (if is_execution_for(p, rid) {
            1nat
        } else {
            0nat
        }),
    decreases ps.len(),
{
    if j == ps.len() - 1 {
        assert(ps.update(j, p).drop_last() =~= ps.drop_last());
        assert(ps.update(j, p).last() == p);
    } else {
        assert(ps.update(j, p).drop_last() =~= ps.drop_last().update(j, p));
        assert(ps.update(j, p).last() == ps.last());
        lemma_count_update(ps.drop_last(), j, p, rid);
    }
}

/// A resource no proposal references has execution count zero.
pub proof fn lemma_count_zero_when_unreferenced(ps: Seq<TransactionProposal>, rid: u64)
    requires
        forall|j: int| 0 <= j < ps.len() ==> (#[trigger] ps[j]).resource_id != rid,
    ensures
        executed_transfer_count(ps, rid) == 0,
    decreases ps.len(),
{
    if ps.len() > 0 {
        assert(forall|j: int|
            0 <= j < ps.drop_last().len() ==> (#[trigger] ps.drop_last()[j]).resource_id != rid);
        lemma_count_zero_when_unreferenced(ps.drop_last(), rid);
    }
}

impl BlocksResources {
    /// The directory has been initialized: an administrator is on record.
    pub open spec fn is_initialized(self) -> bool {
        self.data.admin is Some
    }

    /// The administrator identity, once initialized.
    pub open spec fn admin_id(self) -> Identity
        recommends
            self.is_initialized(),
    {
        self.data.admin->0
    }

    /// The signer directory as a sequence.
    pub open spec fn signers(self) -> Seq<Identity> {
        self.data.signers@
    }

    /// The resource at index `i` is well formed with respect to the
    /// rest of the state: it carries its index as id, and its tracking
    /// history holds exactly one entry per executed transfer of it.
    pub open spec fn resource_ok(self, i: int) -> bool
        recommends
            0 <= i < self.resources@.len(),
    {
        let r = self.resources@[i];
        &&& r.id == i
        &&& r.tracking_history@.len() == executed_transfer_count(self.proposals@, i as u64)
    }

    /// The proposal at index `j` is well formed with respect to the
    /// rest of the state.
    pub open spec fn proposal_ok(self, j: int) -> bool
        recommends
            0 <= j < self.proposals@.len(),
    {
        let p = self.proposals@[j];
        &&& p.id == j
        &&& p.resource_id < self.resources@.len()
        &&& p.signatures@.no_duplicates()
        &&& forall|k: int|
            0 <= k < p.signatures@.len() ==> self.signers().contains(#[trigger] p.signatures@[k])
        &&& p.executed ==> p.signatures@.len() >= SIGNATURE_THRESHOLD
    }

    /// State invariant. Constructors establish it; every operation
    /// preserves it.
    pub open spec fn wf(self) -> bool {
        &&& self.data.next_resource_id == self.resources@.len()
        &&& self.data.next_proposal_id == self.proposals@.len()
        &&& !self.is_initialized() ==> {
            &&& self.data.signers@.len() == 0
            &&& self.resources@.len() == 0
            &&& self.proposals@.len() == 0
        }
        &&& self.is_initialized() ==> self.data.signers@.len() >= SIGNATURE_THRESHOLD
        &&& forall|i: int| 0 <= i < self.resources@.len() ==> #[trigger] self.resource_ok(i)
        &&& forall|j: int| 0 <= j < self.proposals@.len() ==> #[trigger] self.proposal_ok(j)
    }

    /// A fresh, uninitialized ledger: no administrator, no signers, no
    /// records, both counters at zero.
    pub fn new() -> (s: BlocksResources)
        ensures
            s.wf(),
            !s.is_initialized(),
            s.data.signers@.len() == 0,
            s.data.next_resource_id == 0,
            s.data.next_proposal_id == 0,
            s.resources@.len() == 0,
            s.proposals@.len() == 0,
    {
        BlocksResources {
            data: ContractData {
                admin: None,
                signers: Vec::new(),
                next_resource_id: 0,
                next_proposal_id: 0,
            },
            resources: Vec::new(),
            proposals: Vec::new(),
        }
    }
}

/// Linear scan for an identity in a vector.
pub(crate) fn contains_identity(v: &Vec<Identity>, x: Identity) -> (found: bool)
    ensures
        found == v@.contains(x),
{
    let mut i: usize = 0;
    while i < v.len()
        invariant
            i <= v@.len(),
            forall|k: int| 0 <= k < i ==> v@[k] != x,
        decreases v@.len() - i,
    {
        if v[i] == x {
            return true;
        }
        i += 1;
    }
    false
}

/// Element-wise copy of a vector of plain values.
pub(crate) fn copy_values<T: Copy>(v: &Vec<T>) -> (c: Vec<T>)
    ensures
        c@ == v@,
{
    let mut c: Vec<T> = Vec::new();
    let mut i: usize = 0;
    while i < v.len()
        invariant
            i <= v@.len(),
            c@.len() == i,
            forall|k: int| 0 <= k < i ==> c@[k] == v@[k],
        decreases v@.len() - i,
    {
        c.push(v[i]);
        i += 1;
    }
    proof {
        assert(c@ =~= v@);
    }
    c
}

} // verus!
