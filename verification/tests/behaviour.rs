use job_registry::address::Address;
use job_registry::records::{
    BidAcceptedEvent, BidList, BidRecord, BidSubmittedEvent, DataKey, JobRecord, JobRegistryError,
    JobStatus,
};
use job_registry::registry::{
    hash_is_valid, release_lock, require_not_reentrant, JobRegistryContract,
};
use job_registry::state::RegistryState;
use soroban_sdk::{Bytes, Env};

fn address(name: &str) -> Address {
    let mut strkey = [b'A'; 56];
    strkey[..name.len()].copy_from_slice(name.as_bytes());
    Address { strkey }
}

fn hash(env: &Env, bytes: &[u8]) -> Bytes {
    Bytes::from_slice(env, bytes)
}

/// A ledger with job 1 of the owner, open and without a deadline.
fn with_job(env: &Env) -> RegistryState {
    let mut state = RegistryState::new();
    let posted = JobRegistryContract::post_job(
        &mut state,
        1,
        address("owner"),
        hash(env, b"QmHash"),
        1000,
        0,
        0,
    );
    assert_eq!(posted, Ok(()));
    state
}

fn bid(env: &Env, state: &mut RegistryState, name: &str, text: &[u8]) {
    let answer =
        JobRegistryContract::submit_bid(env, state, 1, address(name), hash(env, text), 500, 7);
    assert!(answer.is_ok());
}

fn bidders(env: &Env, state: &RegistryState) -> Vec<Address> {
    let bids = JobRegistryContract::get_bids(env, state, 1).unwrap();
    (0..bids.len()).map(|i| bids.get(i).unwrap().freelancer).collect()
}

#[test]
fn error_codes_count_up_from_one() {
    let errors = [
        JobRegistryError::AlreadyInitialized,
        JobRegistryError::NotInitialized,
        JobRegistryError::InvalidJobId,
        JobRegistryError::InvalidBudget,
        JobRegistryError::InvalidHash,
        JobRegistryError::JobAlreadyExists,
        JobRegistryError::JobNotFound,
        JobRegistryError::JobNotOpen,
        JobRegistryError::Unauthorized,
        JobRegistryError::BidAlreadySubmitted,
        JobRegistryError::BidNotFound,
        JobRegistryError::InvalidStateTransition,
        JobRegistryError::JobExpired,
        JobRegistryError::Overflow,
        JobRegistryError::BidIndexOutOfBounds,
        JobRegistryError::ReentrancyDetected,
    ];
    for (i, e) in errors.iter().enumerate() {
        assert_eq!(e.code(), i as u32 + 1);
    }
}

#[test]
fn addresses_differ_in_the_last_letter() {
    let a = address("same");
    let mut b = a;
    assert_eq!(a, b);
    b.strkey[55] = b'B';
    assert!(a != b);
}

#[test]
fn hashes_have_one_to_sixty_four_bytes() {
    let env = Env::default();
    assert!(!hash_is_valid(&hash(&env, b"")));
    assert!(hash_is_valid(&hash(&env, b"Q")));
    assert!(hash_is_valid(&hash(&env, &[7u8; 64])));
    assert!(!hash_is_valid(&hash(&env, &[7u8; 65])));
}

#[test]
fn bid_list_keeps_order_and_contents() {
    let env = Env::default();
    let mut list = BidList::new(&env);
    assert_eq!(list.len(), 0);
    assert!(list.get(0).is_none());
    list.push_back(BidRecord { freelancer: address("one"), proposal_hash: hash(&env, b"Qm1") });
    let copy = list.clone();
    list.push_back(BidRecord { freelancer: address("two"), proposal_hash: hash(&env, b"Qm2") });
    assert_eq!(list.len(), 2);
    assert_eq!(copy.len(), 1);
    assert_eq!(
        list.get(0),
        Some(BidRecord { freelancer: address("one"), proposal_hash: hash(&env, b"Qm1") })
    );
    assert_eq!(
        list.get(1),
        Some(BidRecord { freelancer: address("two"), proposal_hash: hash(&env, b"Qm2") })
    );
    assert!(list.get(2).is_none());
}

#[test]
fn bid_lists_are_equal_bid_by_bid() {
    let env = Env::default();
    let mut list = BidList::new(&env);
    assert_eq!(list, BidList::new(&env));
    list.push_back(BidRecord { freelancer: address("one"), proposal_hash: hash(&env, b"Qm1") });
    let copy = list.clone();
    assert_eq!(copy, list);
    list.push_back(BidRecord { freelancer: address("two"), proposal_hash: hash(&env, b"Qm2") });
    assert_ne!(copy, list);
}

#[test]
fn job_keeps_its_posting_through_its_life() {
    let env = Env::default();
    let mut state = RegistryState::new();
    let owner = address("owner");
    assert_eq!(JobRegistryContract::initialize(&mut state, address("admin")), Ok(()));
    let posted =
        JobRegistryContract::post_job(&mut state, 3, owner, hash(&env, b"QmHash"), 1000, 90, 95);
    assert_eq!(posted, Ok(()));
    let answer = JobRegistryContract::submit_bid(
        &env,
        &mut state,
        3,
        address("one"),
        hash(&env, b"Qm1"),
        5,
        7,
    );
    assert!(answer.is_ok());
    assert!(JobRegistryContract::accept_bid(&mut state, 3, owner, address("one"), 8).is_ok());
    let again = JobRegistryContract::initialize(&mut state, address("other"));
    assert_eq!(again, Err(JobRegistryError::AlreadyInitialized));
    let next = JobRegistryContract::post_job_auto(&mut state, owner, hash(&env, b"Qm4"), 1, 0, 0);
    assert_eq!(next, Ok(4));
    assert_eq!(JobRegistryContract::close_job(&mut state, 3, owner), Ok(()));
    let job = JobRegistryContract::get_job(&state, 3).unwrap();
    assert_eq!(job.client, owner);
    assert_eq!(job.metadata_hash, hash(&env, b"QmHash"));
    assert_eq!(job.budget_stroops, 1000);
    assert_eq!(job.bidding_deadline, 90);
    assert_eq!(job.expires_at, 95);
    assert_eq!(job.freelancer, Some(address("one")));
    assert_eq!(job.status, JobStatus::Closed);
}

#[test]
fn bid_list_copies_hashes_of_another_host() {
    let here = Env::default();
    let there = Env::default();
    let elsewhere = hash(&there, b"QmFar");
    let mut list = BidList::new(&here);
    list.push_back(BidRecord { freelancer: address("one"), proposal_hash: elsewhere });
    let kept = list.get(0).unwrap();
    assert_eq!(kept.proposal_hash.to_alloc_vec(), b"QmFar".to_vec());
}

#[test]
fn ledger_keys_are_present_once_written() {
    let env = Env::default();
    let mut state = RegistryState::new();
    for key in [
        DataKey::Admin,
        DataKey::Locked,
        DataKey::UpgradeAdmin,
        DataKey::Job(1),
        DataKey::Bids(1),
        DataKey::NextJobId,
    ] {
        assert!(!state.has(&key));
    }
    JobRegistryContract::initialize(&mut state, address("admin")).unwrap();
    JobRegistryContract::set_upgrade_admin(&mut state, address("admin"), address("next")).unwrap();
    JobRegistryContract::post_job(
        &mut state,
        1,
        address("owner"),
        hash(&env, b"QmHash"),
        1000,
        0,
        0,
    )
    .unwrap();
    bid(&env, &mut state, "one", b"Qm1");
    for key in [
        DataKey::Admin,
        DataKey::UpgradeAdmin,
        DataKey::Job(1),
        DataKey::Bids(1),
        DataKey::NextJobId,
    ] {
        assert!(state.has(&key));
    }
    assert!(!state.has(&DataKey::Locked));
    assert!(!state.has(&DataKey::Job(2)));
}

#[test]
fn posted_job_is_read_back() {
    let env = Env::default();
    let mut state = RegistryState::new();
    JobRegistryContract::post_job(
        &mut state,
        9,
        address("owner"),
        hash(&env, b"QmHash"),
        1234,
        55,
        66,
    )
    .unwrap();
    assert_eq!(
        JobRegistryContract::get_job(&state, 9),
        Ok(JobRecord {
            client: address("owner"),
            freelancer: None,
            metadata_hash: hash(&env, b"QmHash"),
            budget_stroops: 1234,
            status: JobStatus::Open,
            bidding_deadline: 55,
            expires_at: 66,
        })
    );
    assert_eq!(JobRegistryContract::get_job_status(&state, 9), Ok(JobStatus::Open));
    assert_eq!(
        JobRegistryContract::get_job_status(&state, 8),
        Err(JobRegistryError::JobNotFound)
    );
    assert_eq!(state.next_id(), 10);
}

#[test]
fn job_number_zero_is_refused_first() {
    let env = Env::default();
    let mut state = RegistryState::new();
    let answer = JobRegistryContract::post_job(
        &mut state,
        0,
        address("owner"),
        hash(&env, b""),
        0,
        0,
        0,
    );
    assert_eq!(answer, Err(JobRegistryError::InvalidJobId));
    assert!(!state.has(&DataKey::Job(0)));
}

#[test]
fn chosen_number_below_the_next_leaves_it() {
    let env = Env::default();
    let mut state = RegistryState::new();
    let owner = address("owner");
    for id in [5u64, 2, 5] {
        let _ = JobRegistryContract::post_job(
            &mut state,
            id,
            owner,
            hash(&env, b"QmHash"),
            10,
            0,
            0,
        );
    }
    let auto =
        JobRegistryContract::post_job_auto(&mut state, owner, hash(&env, b"QmAuto"), 10, 0, 0);
    assert_eq!(auto, Ok(6));
}

#[test]
fn automatic_posting_checks_budget_then_hash() {
    let env = Env::default();
    let mut state = RegistryState::new();
    let owner = address("owner");
    assert_eq!(
        JobRegistryContract::post_job_auto(&mut state, owner, hash(&env, b""), 0, 0, 0),
        Err(JobRegistryError::InvalidBudget)
    );
    assert_eq!(
        JobRegistryContract::post_job_auto(&mut state, owner, hash(&env, b""), 1, 0, 0),
        Err(JobRegistryError::InvalidHash)
    );
    assert_eq!(state.next_id(), 1);
}

#[test]
fn naming_the_administrator_late_restarts_the_numbers() {
    let env = Env::default();
    let mut state = with_job(&env);
    assert_eq!(state.next_id(), 2);
    JobRegistryContract::initialize(&mut state, address("admin")).unwrap();
    assert_eq!(state.next_id(), 1);
}

#[test]
fn administrator_is_named_once() {
    let mut state = RegistryState::new();
    assert_eq!(JobRegistryContract::initialize(&mut state, address("admin")), Ok(()));
    assert_eq!(
        JobRegistryContract::initialize(&mut state, address("other")),
        Err(JobRegistryError::AlreadyInitialized)
    );
    assert_eq!(state.admin, Some(address("admin")));
}

#[test]
fn only_the_upgrade_administrator_upgrades() {
    let mut state = RegistryState::new();
    JobRegistryContract::initialize(&mut state, address("admin")).unwrap();
    JobRegistryContract::set_upgrade_admin(&mut state, address("admin"), address("next")).unwrap();
    assert_eq!(
        JobRegistryContract::upgrade(&state, address("next"), [3u8; 32]),
        Ok([3u8; 32])
    );
    assert_eq!(
        JobRegistryContract::upgrade(&state, address("admin"), [3u8; 32]),
        Err(JobRegistryError::Unauthorized)
    );
}

#[test]
fn bid_is_announced() {
    let env = Env::default();
    let mut state = with_job(&env);
    let answer = JobRegistryContract::submit_bid(
        &env,
        &mut state,
        1,
        address("one"),
        hash(&env, b"Qm1"),
        0,
        77,
    );
    let event = BidSubmittedEvent {
        job_id: 1,
        freelancer: address("one"),
        proposal_hash: hash(&env, b"Qm1"),
        timestamp: 77,
    };
    assert_eq!(answer, Ok(event.clone()));
}

#[test]
fn bid_with_room_is_answered() {
    let env = Env::default();
    let mut state = with_job(&env);
    let first = JobRegistryContract::try_submit_bid(
        &env,
        &mut state,
        1,
        address("one"),
        hash(&env, b"Qm1"),
        0,
        77,
    );
    assert!(matches!(first, Some(Ok(_))));
    let second = JobRegistryContract::try_submit_bid(
        &env,
        &mut state,
        1,
        address("one"),
        hash(&env, b"Qm1"),
        0,
        77,
    );
    assert_eq!(second, Some(Err(JobRegistryError::BidAlreadySubmitted)));
}

#[test]
fn negative_amount_is_refused_before_the_job_is_looked_for() {
    let env = Env::default();
    let mut state = RegistryState::new();
    let answer = JobRegistryContract::submit_bid(
        &env,
        &mut state,
        1,
        address("one"),
        hash(&env, b"Qm1"),
        -1,
        0,
    );
    assert_eq!(answer, Err(JobRegistryError::InvalidBudget));
}

#[test]
fn bids_are_taken_up_to_the_deadline() {
    let env = Env::default();
    let mut state = RegistryState::new();
    let owner = address("owner");
    JobRegistryContract::post_job(&mut state, 1, owner, hash(&env, b"QmHash"), 10, 10, 0).unwrap();
    assert!(JobRegistryContract::submit_bid(
        &env,
        &mut state,
        1,
        address("one"),
        hash(&env, b"Qm1"),
        1,
        10
    )
    .is_ok());
    assert_eq!(
        JobRegistryContract::submit_bid(
            &env,
            &mut state,
            1,
            address("two"),
            hash(&env, b"Qm2"),
            1,
            11
        ),
        Err(JobRegistryError::JobExpired)
    );
    assert_eq!(
        JobRegistryContract::accept_bid(&mut state, 1, owner, address("one"), 11),
        Err(JobRegistryError::JobExpired)
    );
    assert!(JobRegistryContract::accept_bid(&mut state, 1, owner, address("one"), 10).is_ok());
}

#[test]
fn withdrawal_undoes_a_bid() {
    let env = Env::default();
    let mut state = with_job(&env);
    bid(&env, &mut state, "one", b"Qm1");
    bid(&env, &mut state, "two", b"Qm2");
    bid(&env, &mut state, "three", b"Qm3");
    let two = address("two");
    assert_eq!(JobRegistryContract::cancel_bid(&env, &mut state, 1, two), Ok(()));
    assert_eq!(bidders(&env, &state), vec![address("one"), address("three")]);
    assert_eq!(
        JobRegistryContract::cancel_bid(&env, &mut state, 1, two),
        Err(JobRegistryError::BidNotFound)
    );
    bid(&env, &mut state, "two", b"Qm2");
    assert_eq!(bidders(&env, &state), vec![address("one"), address("three"), address("two")]);
}

#[test]
fn withdrawal_needs_an_open_job() {
    let env = Env::default();
    let mut state = with_job(&env);
    assert_eq!(
        JobRegistryContract::cancel_bid(&env, &mut state, 2, address("one")),
        Err(JobRegistryError::JobNotFound)
    );
    bid(&env, &mut state, "one", b"Qm1");
    JobRegistryContract::accept_bid(&mut state, 1, address("owner"), address("one"), 7).unwrap();
    assert_eq!(
        JobRegistryContract::cancel_bid(&env, &mut state, 1, address("one")),
        Err(JobRegistryError::JobNotOpen)
    );
}

#[test]
fn acceptance_is_announced() {
    let env = Env::default();
    let mut state = with_job(&env);
    bid(&env, &mut state, "one", b"Qm1");
    let answer =
        JobRegistryContract::accept_bid(&mut state, 1, address("owner"), address("one"), 88);
    assert_eq!(
        answer,
        Ok(BidAcceptedEvent {
            job_id: 1,
            client: address("owner"),
            freelancer: address("one"),
            timestamp: 88,
        })
    );
    assert_eq!(
        JobRegistryContract::accept_bid(&mut state, 2, address("owner"), address("one"), 88),
        Err(JobRegistryError::JobNotFound)
    );
}

#[test]
fn deliverable_needs_an_assigned_job() {
    let env = Env::default();
    let mut state = with_job(&env);
    bid(&env, &mut state, "one", b"Qm1");
    let one = address("one");
    assert_eq!(
        JobRegistryContract::submit_deliverable(&mut state, 1, one, hash(&env, b"QmD")),
        Err(JobRegistryError::InvalidStateTransition)
    );
    assert_eq!(
        JobRegistryContract::submit_deliverable(&mut state, 1, one, hash(&env, b"")),
        Err(JobRegistryError::InvalidHash)
    );
    assert_eq!(
        JobRegistryContract::submit_deliverable(&mut state, 4, one, hash(&env, b"QmD")),
        Err(JobRegistryError::JobNotFound)
    );
}

#[test]
fn strangers_cannot_dispute_or_close() {
    let env = Env::default();
    let mut state = with_job(&env);
    bid(&env, &mut state, "one", b"Qm1");
    JobRegistryContract::accept_bid(&mut state, 1, address("owner"), address("one"), 7).unwrap();
    let stranger = address("stranger");
    assert_eq!(
        JobRegistryContract::mark_disputed(&mut state, 1, stranger),
        Err(JobRegistryError::Unauthorized)
    );
    assert_eq!(
        JobRegistryContract::mark_disputed(&mut state, 3, stranger),
        Err(JobRegistryError::JobNotFound)
    );
    assert_eq!(
        JobRegistryContract::close_job(&mut state, 1, address("one")),
        Err(JobRegistryError::Unauthorized)
    );
    assert_eq!(
        JobRegistryContract::close_job(&mut state, 3, stranger),
        Err(JobRegistryError::JobNotFound)
    );
    assert_eq!(JobRegistryContract::get_job_status(&state, 1), Ok(JobStatus::Assigned));
}

#[test]
fn closed_is_final() {
    let env = Env::default();
    let mut state = with_job(&env);
    bid(&env, &mut state, "one", b"Qm1");
    let owner = address("owner");
    let one = address("one");
    JobRegistryContract::accept_bid(&mut state, 1, owner, one, 7).unwrap();
    JobRegistryContract::mark_disputed(&mut state, 1, one).unwrap();
    JobRegistryContract::close_job(&mut state, 1, owner).unwrap();
    assert_eq!(
        JobRegistryContract::mark_disputed(&mut state, 1, owner),
        Err(JobRegistryError::InvalidStateTransition)
    );
    assert_eq!(
        JobRegistryContract::submit_deliverable(&mut state, 1, one, hash(&env, b"QmD")),
        Err(JobRegistryError::InvalidStateTransition)
    );
    assert_eq!(
        JobRegistryContract::accept_bid(&mut state, 1, owner, one, 7),
        Err(JobRegistryError::JobNotOpen)
    );
    assert_eq!(JobRegistryContract::close_job(&mut state, 1, owner), Ok(()));
    let job = JobRegistryContract::get_job(&state, 1).unwrap();
    assert_eq!(job.status, JobStatus::Closed);
    assert_eq!(job.freelancer, Some(one));
    assert_eq!(job.budget_stroops, 1000);
}

#[test]
fn expiry_counts_after_its_moment_and_zero_never_comes() {
    let env = Env::default();
    let mut state = with_job(&env);
    let owner = address("owner");
    assert_eq!(
        JobRegistryContract::cancel_expired_job(&mut state, 1, owner, u64::MAX),
        Err(JobRegistryError::InvalidStateTransition)
    );
    JobRegistryContract::post_job(&mut state, 2, owner, hash(&env, b"QmHash"), 10, 0, 100).unwrap();
    assert_eq!(
        JobRegistryContract::cancel_expired_job(&mut state, 2, owner, 100),
        Err(JobRegistryError::InvalidStateTransition)
    );
    assert_eq!(
        JobRegistryContract::cancel_expired_job(&mut state, 2, address("other"), 101),
        Err(JobRegistryError::Unauthorized)
    );
    assert_eq!(JobRegistryContract::cancel_expired_job(&mut state, 2, owner, 101), Ok(()));
    assert_eq!(
        JobRegistryContract::cancel_expired_job(&mut state, 3, owner, 101),
        Err(JobRegistryError::JobNotFound)
    );
}

#[test]
fn lock_refuses_guarded_requests_and_nothing_else() {
    let env = Env::default();
    let mut state = with_job(&env);
    let owner = address("owner");
    let one = address("one");
    assert_eq!(require_not_reentrant(&mut state), Ok(()));
    assert!(state.has(&DataKey::Locked));
    let refused = JobRegistryError::ReentrancyDetected;
    assert_eq!(require_not_reentrant(&mut state), Err(refused));
    assert_eq!(
        JobRegistryContract::submit_bid(&env, &mut state, 1, one, hash(&env, b""), -1, 7),
        Err(refused)
    );
    assert_eq!(JobRegistryContract::cancel_bid(&env, &mut state, 1, one), Err(refused));
    assert_eq!(JobRegistryContract::accept_bid(&mut state, 1, owner, one, 7), Err(refused));
    assert_eq!(
        JobRegistryContract::submit_deliverable(&mut state, 1, one, hash(&env, b"QmD")),
        Err(refused)
    );
    assert_eq!(JobRegistryContract::close_job(&mut state, 1, owner), Err(refused));
    assert!(state.has(&DataKey::Locked));
    assert_eq!(
        JobRegistryContract::mark_disputed(&mut state, 1, owner),
        Err(JobRegistryError::InvalidStateTransition)
    );
    release_lock(&mut state);
    assert!(!state.has(&DataKey::Locked));
    bid(&env, &mut state, "one", b"Qm1");
    assert!(!state.has(&DataKey::Locked));
}

#[test]
fn pages_join_to_the_whole_list() {
    let env = Env::default();
    let mut state = with_job(&env);
    for name in ["one", "two", "three", "four", "five"] {
        bid(&env, &mut state, name, b"Qm");
    }
    let mut joined = Vec::new();
    for offset in [0u32, 2, 4] {
        let page = JobRegistryContract::get_bids_page(&env, &state, 1, offset, 2).unwrap();
        for i in 0..page.len() {
            joined.push(page.get(i).unwrap().freelancer);
        }
    }
    assert_eq!(joined, bidders(&env, &state));
    let nothing = JobRegistryContract::get_bids_page(&env, &state, 1, 1, 0).unwrap();
    assert_eq!(nothing.len(), 0);
    let most = JobRegistryContract::get_bids_page(&env, &state, 1, 3, u32::MAX - 3).unwrap();
    assert_eq!(most.len(), 2);
    assert!(matches!(
        JobRegistryContract::get_bids_page(&env, &state, 2, u32::MAX, u32::MAX),
        Err(JobRegistryError::JobNotFound)
    ));
}

#[test]
fn bid_at_position_shows_hash() {
    let env = Env::default();
    let mut state = with_job(&env);
    bid(&env, &mut state, "one", b"Qm1");
    let shown = JobRegistryContract::get_bid_at(&env, &state, 1, 0).unwrap();
    assert_eq!(shown.clone().proposal_hash, hash(&env, b"Qm1"));
    assert_eq!(
        JobRegistryContract::get_bid_at(&env, &state, 1, 1),
        Err(JobRegistryError::BidIndexOutOfBounds)
    );
    assert_eq!(
        JobRegistryContract::get_bid_at(&env, &state, 2, 0),
        Err(JobRegistryError::JobNotFound)
    );
    assert_eq!(
        JobRegistryContract::get_bids_count(&env, &state, 2),
        Err(JobRegistryError::JobNotFound)
    );
}
