use blocks_resources::{BlocksResources, Error, Identity, SIGNATURE_THRESHOLD};

fn admin() -> Identity {
    Identity(1)
}

fn s1() -> Identity {
    Identity(2)
}

fn s2() -> Identity {
    Identity(3)
}

fn s3() -> Identity {
    Identity(4)
}

fn buyer() -> Identity {
    Identity(9)
}

fn ledger_with_resource() -> BlocksResources {
    let mut s = BlocksResources::new();
    s.initialize(admin(), true, vec![s1(), s2(), s3()]).unwrap();
    s.register_resource("Lot".to_owned(), "O".to_owned(), "C".to_owned(), true)
        .unwrap();
    s
}

#[test]
fn threshold_is_two() {
    assert_eq!(SIGNATURE_THRESHOLD, 2);
}

#[test]
fn initialize_twice_refused() {
    let mut s = BlocksResources::new();
    s.initialize(admin(), true, vec![s1(), s2()]).unwrap();
    let r = s.initialize(admin(), true, vec![s1(), s2()]);
    assert_eq!(r, Err(Error::AlreadyInitialized));
    assert_eq!(s.get_signers(), vec![s1(), s2()]);
}

#[test]
fn initialize_without_authentication_refused() {
    let mut s = BlocksResources::new();
    let r = s.initialize(admin(), false, vec![s1(), s2()]);
    assert_eq!(r, Err(Error::Unauthorized));
    assert!(s.get_signers().is_empty());
    assert_eq!(s.data.admin, None);
}

#[test]
fn register_without_authentication_refused() {
    let mut s = BlocksResources::new();
    s.initialize(admin(), true, vec![s1(), s2()]).unwrap();
    let r = s.register_resource("Lot".to_owned(), "O".to_owned(), "C".to_owned(), false);
    assert_eq!(r, Err(Error::Unauthorized));
    assert_eq!(s.get_resource(0).err(), Some(Error::ResourceNotFound));
    assert_eq!(s.data.next_resource_id, 0);
}

#[test]
fn resource_ids_count_up_from_zero() {
    let mut s = BlocksResources::new();
    s.initialize(admin(), true, vec![s1(), s2()]).unwrap();
    let first = s
        .register_resource("A".to_owned(), "O".to_owned(), "C".to_owned(), true)
        .unwrap();
    let second = s
        .register_resource("B".to_owned(), "O".to_owned(), "C".to_owned(), true)
        .unwrap();
    assert_eq!(first, 0);
    assert_eq!(second, 1);
    assert_eq!(s.data.next_resource_id, 2);
    assert_eq!(s.get_resource(1).unwrap().name, "B");
}

#[test]
fn create_proposal_for_missing_resource_refused() {
    let mut s = ledger_with_resource();
    let r = s.create_transfer_proposal(s1(), true, 7, buyer(), "sale".to_owned());
    assert_eq!(r, Err(Error::ResourceNotFound));
    assert_eq!(s.get_proposal(0).err(), Some(Error::ProposalNotFound));
}

#[test]
fn create_proposal_by_outsider_refused() {
    let mut s = ledger_with_resource();
    let outsider = Identity(60);
    let r = s.create_transfer_proposal(outsider, true, 0, buyer(), "sale".to_owned());
    assert_eq!(r, Err(Error::Unauthorized));
}

#[test]
fn create_proposal_by_owner_allowed() {
    let mut s = ledger_with_resource();
    // The administrator owns the freshly registered resource and is no
    // signer, yet may open a proposal for it.
    let pid = s
        .create_transfer_proposal(admin(), true, 0, buyer(), "sale".to_owned())
        .unwrap();
    assert_eq!(pid, 0);
    assert_eq!(s.get_proposal(0).unwrap().proposer, admin());
}

#[test]
fn create_proposal_without_authentication_refused() {
    let mut s = ledger_with_resource();
    let r = s.create_transfer_proposal(s1(), false, 0, buyer(), "sale".to_owned());
    assert_eq!(r, Err(Error::Unauthorized));
}

#[test]
fn sign_without_authentication_refused() {
    let mut s = ledger_with_resource();
    s.create_transfer_proposal(s1(), true, 0, buyer(), "sale".to_owned())
        .unwrap();
    let r = s.sign_proposal(s1(), false, 0, 100);
    assert_eq!(r, Err(Error::Unauthorized));
    assert_eq!(s.get_proposal(0).unwrap().signatures.len(), 0);
}

#[test]
fn sign_by_non_signer_refused() {
    let mut s = ledger_with_resource();
    s.create_transfer_proposal(s1(), true, 0, buyer(), "sale".to_owned())
        .unwrap();
    let r = s.sign_proposal(admin(), true, 0, 100);
    assert_eq!(r, Err(Error::Unauthorized));
    assert_eq!(s.get_proposal(0).unwrap().signatures.len(), 0);
}

#[test]
fn sign_after_execution_refused() {
    let mut s = ledger_with_resource();
    s.create_transfer_proposal(s1(), true, 0, buyer(), "sale".to_owned())
        .unwrap();
    s.sign_proposal(s1(), true, 0, 100).unwrap();
    s.sign_proposal(s2(), true, 0, 200).unwrap();
    assert!(s.get_proposal(0).unwrap().executed);
    let r = s.sign_proposal(s3(), true, 0, 300);
    assert_eq!(r, Err(Error::AlreadyExecuted));
    let proposal = s.get_proposal(0).unwrap();
    assert_eq!(proposal.signatures, vec![s1(), s2()]);
    let resource = s.get_resource(0).unwrap();
    assert_eq!(resource.current_owner, buyer());
    assert_eq!(resource.tracking_history.len(), 1);
}

#[test]
fn add_signer_duplicate_refused() {
    let mut s = ledger_with_resource();
    let r = s.add_signer(admin(), true, s2());
    assert_eq!(r, Err(Error::DuplicateSigner));
    assert_eq!(s.get_signers(), vec![s1(), s2(), s3()]);
}

#[test]
fn add_signer_without_authentication_refused() {
    let mut s = ledger_with_resource();
    let r = s.add_signer(admin(), false, Identity(70));
    assert_eq!(r, Err(Error::Unauthorized));
    assert_eq!(s.get_signers(), vec![s1(), s2(), s3()]);
}

#[test]
fn added_signer_can_sign() {
    let mut s = ledger_with_resource();
    let s4 = Identity(5);
    s.add_signer(admin(), true, s4).unwrap();
    assert_eq!(s.get_signers(), vec![s1(), s2(), s3(), s4]);
    s.create_transfer_proposal(s1(), true, 0, buyer(), "sale".to_owned())
        .unwrap();
    s.sign_proposal(s4, true, 0, 100).unwrap();
    assert_eq!(s.get_proposal(0).unwrap().signatures, vec![s4]);
}

#[test]
fn get_missing_records_refused() {
    let s = BlocksResources::new();
    assert_eq!(s.get_resource(0).err(), Some(Error::ResourceNotFound));
    assert_eq!(s.get_proposal(0).err(), Some(Error::ProposalNotFound));
}

#[test]
fn history_counts_one_entry_per_execution() {
    let mut s = ledger_with_resource();
    // Two executed transfers of the same resource leave exactly two
    // provenance entries, in order.
    s.create_transfer_proposal(s1(), true, 0, buyer(), "first".to_owned())
        .unwrap();
    s.sign_proposal(s1(), true, 0, 100).unwrap();
    s.sign_proposal(s2(), true, 0, 200).unwrap();
    s.create_transfer_proposal(s1(), true, 0, s3(), "second".to_owned())
        .unwrap();
    s.sign_proposal(s1(), true, 1, 300).unwrap();
    s.sign_proposal(s2(), true, 1, 400).unwrap();
    let resource = s.get_resource(0).unwrap();
    assert_eq!(resource.current_owner, s3());
    assert_eq!(resource.tracking_history.len(), 2);
    assert_eq!(resource.tracking_history[0].previous_owner, admin());
    assert_eq!(resource.tracking_history[0].new_owner, buyer());
    assert_eq!(resource.tracking_history[1].previous_owner, buyer());
    assert_eq!(resource.tracking_history[1].new_owner, s3());
}

#[test]
fn concurrent_proposals_last_execution_wins() {
    // No lock keeps two pending proposals off the same resource: both
    // may reach quorum, and the one executed second overwrites the
    // first's effect. This is the observed design, kept as is.
    let mut s = ledger_with_resource();
    let other = Identity(80);
    s.create_transfer_proposal(s1(), true, 0, buyer(), "to buyer()".to_owned())
        .unwrap();
    s.create_transfer_proposal(s1(), true, 0, other, "to other".to_owned())
        .unwrap();
    s.sign_proposal(s1(), true, 0, 100).unwrap();
    s.sign_proposal(s2(), true, 0, 200).unwrap();
    assert_eq!(s.get_resource(0).unwrap().current_owner, buyer());
    s.sign_proposal(s1(), true, 1, 300).unwrap();
    s.sign_proposal(s2(), true, 1, 400).unwrap();
    assert_eq!(s.get_resource(0).unwrap().current_owner, other);
    assert_eq!(s.get_resource(0).unwrap().tracking_history.len(), 2);
}

#[test]
fn proposal_ids_count_up_from_zero() {
    let mut s = ledger_with_resource();
    let first = s
        .create_transfer_proposal(s1(), true, 0, buyer(), "a".to_owned())
        .unwrap();
    let second = s
        .create_transfer_proposal(s2(), true, 0, buyer(), "b".to_owned())
        .unwrap();
    assert_eq!(first, 0);
    assert_eq!(second, 1);
    assert_eq!(s.data.next_proposal_id, 2);
}

#[test]
fn duplicate_initial_signers_accepted_but_cannot_reach_quorum_alone() {
    // The initial signer list is stored as given; only `add_signer`
    // refuses duplicates. A doubled identity still signs at most once
    // per proposal, so it cannot reach quorum by itself.
    let mut s = BlocksResources::new();
    s.initialize(admin(), true, vec![s1(), s1()]).unwrap();
    assert_eq!(s.get_signers(), vec![s1(), s1()]);
    s.register_resource("Lot".to_owned(), "O".to_owned(), "C".to_owned(), true)
        .unwrap();
    s.create_transfer_proposal(s1(), true, 0, buyer(), "sale".to_owned())
        .unwrap();
    s.sign_proposal(s1(), true, 0, 100).unwrap();
    assert_eq!(s.sign_proposal(s1(), true, 0, 101), Err(Error::DuplicateSignature));
    assert!(!s.get_proposal(0).unwrap().executed);
}
