use job_registry::address::Address;
use job_registry::records::{BidList, BidRecord, JobRecord, JobRegistryError, JobStatus};
use job_registry::registry::JobRegistryContract;
use job_registry::state::RegistryState;
use soroban_sdk::{Bytes, Env};
use std::cell::{Cell, RefCell};

/// A registry with its ledger and its clock. A refused request panics with its code.
struct Client {
    env: Env,
    state: RefCell<RegistryState>,
    now: Cell<u64>,
}

fn settle<T>(result: Result<T, JobRegistryError>) -> T {
    match result {
        Ok(value) => value,
        Err(e) => panic!("Error(Contract, #{})", e.code()),
    }
}

impl Client {
    fn new(env: &Env) -> Client {
        Client {
            env: env.clone(),
            state: RefCell::new(RegistryState::new()),
            now: Cell::new(1_700_000_000),
        }
    }

    fn set_time(&self, now: u64) {
        self.now.set(now);
    }

    fn initialize(&self, admin: &Address) {
        settle(JobRegistryContract::initialize(&mut self.state.borrow_mut(), *admin))
    }

    fn set_upgrade_admin(&self, caller: &Address, new: &Address) {
        settle(JobRegistryContract::set_upgrade_admin(
            &mut self.state.borrow_mut(),
            *caller,
            *new,
        ))
    }

    fn get_upgrade_admin(&self) -> Option<Address> {
        JobRegistryContract::get_upgrade_admin(&self.state.borrow())
    }

    fn post_job(
        &self,
        job_id: &u64,
        client: &Address,
        metadata_hash: &Bytes,
        budget_stroops: &i128,
        bidding_deadline: &u64,
        expires_at: &u64,
    ) {
        settle(JobRegistryContract::post_job(
            &mut self.state.borrow_mut(),
            *job_id,
            *client,
            metadata_hash.clone(),
            *budget_stroops,
            *bidding_deadline,
            *expires_at,
        ))
    }

    fn post_job_auto(
        &self,
        client: &Address,
        metadata_hash: &Bytes,
        budget_stroops: &i128,
        bidding_deadline: &u64,
        expires_at: &u64,
    ) -> u64 {
        settle(JobRegistryContract::post_job_auto(
            &mut self.state.borrow_mut(),
            *client,
            metadata_hash.clone(),
            *budget_stroops,
            *bidding_deadline,
            *expires_at,
        ))
    }

    fn submit_bid(&self, job_id: &u64, freelancer: &Address, proposal_hash: &Bytes, amount: &i128) {
        settle(JobRegistryContract::submit_bid(
            &self.env,
            &mut self.state.borrow_mut(),
            *job_id,
            *freelancer,
            proposal_hash.clone(),
            *amount,
            self.now.get(),
        ));
    }

    fn cancel_bid(&self, job_id: &u64, freelancer: &Address) {
        settle(JobRegistryContract::cancel_bid(
            &self.env,
            &mut self.state.borrow_mut(),
            *job_id,
            *freelancer,
        ))
    }

    fn accept_bid(&self, job_id: &u64, caller: &Address, freelancer: &Address) {
        settle(JobRegistryContract::accept_bid(
            &mut self.state.borrow_mut(),
            *job_id,
            *caller,
            *freelancer,
            self.now.get(),
        ));
    }

    fn submit_deliverable(&self, job_id: &u64, freelancer: &Address, deliverable_hash: &Bytes) {
        settle(JobRegistryContract::submit_deliverable(
            &mut self.state.borrow_mut(),
            *job_id,
            *freelancer,
            deliverable_hash.clone(),
        ))
    }

    fn mark_disputed(&self, job_id: &u64, caller: &Address) {
        settle(JobRegistryContract::mark_disputed(
            &mut self.state.borrow_mut(),
            *job_id,
            *caller,
        ))
    }

    fn close_job(&self, job_id: &u64, caller: &Address) {
        settle(JobRegistryContract::close_job(
            &mut self.state.borrow_mut(),
            *job_id,
            *caller,
        ))
    }

    fn cancel_expired_job(&self, job_id: &u64, caller: &Address) {
        settle(JobRegistryContract::cancel_expired_job(
            &mut self.state.borrow_mut(),
            *job_id,
            *caller,
            self.now.get(),
        ))
    }

    fn get_job(&self, job_id: &u64) -> JobRecord {
        settle(JobRegistryContract::get_job(&self.state.borrow(), *job_id))
    }

    fn get_bids(&self, job_id: &u64) -> BidList {
        settle(JobRegistryContract::get_bids(&self.env, &self.state.borrow(), *job_id))
    }

    fn get_bid_at(&self, job_id: &u64, index: &u32) -> BidRecord {
        settle(JobRegistryContract::get_bid_at(
            &self.env,
            &self.state.borrow(),
            *job_id,
            *index,
        ))
    }

    fn get_bids_count(&self, job_id: &u64) -> u32 {
        settle(JobRegistryContract::get_bids_count(&self.env, &self.state.borrow(), *job_id))
    }

    fn get_bids_page(&self, job_id: &u64, offset: &u32, limit: &u32) -> BidList {
        settle(JobRegistryContract::get_bids_page(
            &self.env,
            &self.state.borrow(),
            *job_id,
            *offset,
            *limit,
        ))
    }
}

fn setup_client(env: &Env) -> Client {
    let client = Client::new(env);
    client.initialize(&address("first_admin"));
    client
}

fn address(name: &str) -> Address {
    let mut strkey = [b'A'; 56];
    strkey[..name.len()].copy_from_slice(name.as_bytes());
    Address { strkey }
}

fn hash(env: &Env, bytes: &[u8]) -> Bytes {
    Bytes::from_slice(env, bytes)
}

// Initialization.
#[test]
fn test_initialize_bootstraps_storage() {
    let env = Env::default();
    let client = Client::new(&env);
    let admin = address("admin");
    client.initialize(&admin);
}

#[test]
#[should_panic(expected = "Contract, #1")]
fn test_double_initialize_panics() {
    let env = Env::default();
    let client = Client::new(&env);
    let admin = address("admin");
    client.initialize(&admin);
    client.initialize(&admin);
}

#[test]
fn test_post_job_works_without_explicit_initialize() {
    let env = Env::default();
    let client = Client::new(&env);
    // No explicit initialize: post_job can still create a job
    let owner = address("owner");
    client.post_job(&1, &owner, &hash(&env, b"QmHash"), &1000, &0, &0);
    let job = client.get_job(&1);
    assert_eq!(job.client, owner);
    assert_eq!(job.status, JobStatus::Open);
}

// post_job
#[test]
fn test_post_job_auto_allocates_sequential_ids() {
    let env = Env::default();
    let client = setup_client(&env);
    let owner = address("owner");

    let id1 = client.post_job_auto(&owner, &hash(&env, b"QmHash1"), &1000, &0, &0);
    let id2 = client.post_job_auto(&owner, &hash(&env, b"QmHash2"), &2000, &0, &0);
    assert_eq!(id1, 1);
    assert_eq!(id2, 2);
}

#[test]
fn test_post_job_with_explicit_id_updates_next_job_id() {
    let env = Env::default();
    let client = setup_client(&env);
    let owner = address("owner");

    client.post_job(&10, &owner, &hash(&env, b"QmHash"), &1000, &0, &0);
    // Next should be 11
    let id2 = client.post_job_auto(&owner, &hash(&env, b"QmHash2"), &2000, &0, &0);
    assert_eq!(id2, 11);
}

#[test]
#[should_panic(expected = "Contract, #6")]
fn test_duplicate_job_id() {
    let env = Env::default();
    let client = setup_client(&env);
    let owner = address("owner");
    client.post_job(&1, &owner, &hash(&env, b"QmHash1"), &1000, &0, &0);
    client.post_job(&1, &owner, &hash(&env, b"QmHash2"), &2000, &0, &0);
}

#[test]
#[should_panic(expected = "Contract, #4")]
fn test_invalid_budget_panics() {
    let env = Env::default();
    let client = setup_client(&env);
    let owner = address("owner");
    client.post_job(&1, &owner, &hash(&env, b"QmHash"), &0, &0, &0);
}

#[test]
#[should_panic(expected = "Contract, #4")]
fn test_zero_budget_still_panics() {
    let env = Env::default();
    let client = setup_client(&env);
    let owner = address("owner");
    client.post_job(&1, &owner, &hash(&env, b"QmHash"), &0, &0, &0);
}

#[test]
#[should_panic(expected = "Contract, #4")]
fn test_budget_below_minimum_panics() {
    let env = Env::default();
    let client = setup_client(&env);
    let owner = address("owner");
    client.post_job(&1, &owner, &hash(&env, b"QmHash"), &-1, &0, &0);
}

#[test]
fn test_budget_at_minimum_succeeds() {
    let env = Env::default();
    let client = setup_client(&env);
    let owner = address("owner");
    client.post_job(&1, &owner, &hash(&env, b"QmHash"), &1, &0, &0);
    let job = client.get_job(&1);
    assert_eq!(job.budget_stroops, 1);
}

#[test]
fn test_budget_at_maximum_succeeds() {
    let env = Env::default();
    let client = setup_client(&env);
    let owner = address("owner");
    client.post_job(&1, &owner, &hash(&env, b"QmHash"), &i128::MAX, &0, &0);
    let job = client.get_job(&1);
    assert_eq!(job.budget_stroops, i128::MAX);
}

#[test]
#[should_panic(expected = "Contract, #5")]
fn test_oversized_cid_panics_with_invalid_hash() {
    let env = Env::default();
    let client = setup_client(&env);
    let owner = address("owner");
    let long = Bytes::from_slice(&env, &[0u8; 65]);
    client.post_job(&1, &owner, &long, &1000, &0, &0);
}

#[test]
#[should_panic(expected = "Contract, #5")]
fn test_empty_hash_panics() {
    let env = Env::default();
    let client = setup_client(&env);
    let owner = address("owner");
    client.post_job(&1, &owner, &hash(&env, b""), &1000, &0, &0);
}

// submit_bid
#[test]
fn test_submit_bid_success() {
    let env = Env::default();
    let client = setup_client(&env);
    let owner = address("owner");
    let bidder = address("bidder");

    client.post_job(&1, &owner, &hash(&env, b"QmHash"), &1000, &0, &0);
    client.submit_bid(&1, &bidder, &hash(&env, b"QmProposal"), &500);

    let bids = client.get_bids(&1);
    assert_eq!(bids.len(), 1);
    assert_eq!(bids.get(0).unwrap().freelancer, bidder);
}

#[test]
#[should_panic(expected = "Contract, #7")]
fn test_submit_bid_job_not_found() {
    let env = Env::default();
    let client = setup_client(&env);
    let bidder = address("bidder");
    client.submit_bid(&999, &bidder, &hash(&env, b"QmProposal"), &500);
}

#[test]
#[should_panic(expected = "Contract, #10")]
fn test_duplicate_bid_panics() {
    let env = Env::default();
    let client = setup_client(&env);
    let owner = address("owner");
    let bidder = address("bidder");

    client.post_job(&1, &owner, &hash(&env, b"QmHash"), &1000, &0, &0);
    client.submit_bid(&1, &bidder, &hash(&env, b"QmProposal1"), &500);
    client.submit_bid(&1, &bidder, &hash(&env, b"QmProposal2"), &600);
}

#[test]
fn test_multiple_bids_on_same_job() {
    let env = Env::default();
    let client = setup_client(&env);
    let owner = address("owner");
    let bidder1 = address("bidder1");
    let bidder2 = address("bidder2");

    client.post_job(&1, &owner, &hash(&env, b"QmHash"), &1000, &0, &0);
    client.submit_bid(&1, &bidder1, &hash(&env, b"QmProp1"), &500);
    client.submit_bid(&1, &bidder2, &hash(&env, b"QmProp2"), &600);

    let bids = client.get_bids(&1);
    assert_eq!(bids.len(), 2);
}

#[test]
fn test_multiple_jobs_and_bids() {
    let env = Env::default();
    let client = setup_client(&env);
    let owner = address("owner");
    let b1 = address("b1");
    let b2 = address("b2");

    client.post_job(&1, &owner, &hash(&env, b"QmJ1"), &1000, &0, &0);
    client.post_job(&2, &owner, &hash(&env, b"QmJ2"), &2000, &0, &0);
    client.submit_bid(&1, &b1, &hash(&env, b"QmP1"), &500);
    client.submit_bid(&2, &b2, &hash(&env, b"QmP2"), &1500);

    assert_eq!(client.get_bids_count(&1), 1);
    assert_eq!(client.get_bids_count(&2), 1);
}

#[test]
fn test_get_bids_count_empty_returns_zero() {
    let env = Env::default();
    let client = setup_client(&env);
    let owner = address("owner");
    client.post_job(&1, &owner, &hash(&env, b"QmHash"), &1000, &0, &0);
    assert_eq!(client.get_bids_count(&1), 0);
}

#[test]
fn test_get_bids_count_after_submissions() {
    let env = Env::default();
    let client = setup_client(&env);
    let owner = address("owner");
    let b1 = address("b1");
    let b2 = address("b2");

    client.post_job(&1, &owner, &hash(&env, b"QmHash"), &1000, &0, &0);
    client.submit_bid(&1, &b1, &hash(&env, b"QmP1"), &500);
    client.submit_bid(&1, &b2, &hash(&env, b"QmP2"), &600);

    assert_eq!(client.get_bids_count(&1), 2);
}

#[test]
#[should_panic(expected = "Contract, #8")]
fn test_submit_bid_on_non_open_job() {
    let env = Env::default();
    let client = setup_client(&env);
    let owner = address("owner");
    let bidder = address("bidder");

    client.post_job(&1, &owner, &hash(&env, b"QmHash"), &1000, &0, &0);
    // First submit a bid for bidder so accept succeeds
    client.submit_bid(&1, &bidder, &hash(&env, b"QmProposal"), &500);
    client.accept_bid(&1, &owner, &bidder);
    // Should fail - job no longer Open
    client.submit_bid(&1, &bidder, &hash(&env, b"QmProposal2"), &600);
}

#[test]
#[should_panic(expected = "Contract, #8")]
fn test_bid_on_non_open_panics() {
    let env = Env::default();
    let client = setup_client(&env);
    let owner = address("owner");
    let bidder = address("bidder");

    client.post_job(&1, &owner, &hash(&env, b"QmHash"), &1000, &0, &0);
    client.close_job(&1, &owner);
    client.submit_bid(&1, &bidder, &hash(&env, b"QmProposal"), &500);
}

#[test]
#[should_panic(expected = "Contract, #5")]
fn test_submit_bid_empty_proposal_hash() {
    let env = Env::default();
    let client = setup_client(&env);
    let owner = address("owner");
    let bidder = address("bidder");

    client.post_job(&1, &owner, &hash(&env, b"QmHash"), &1000, &0, &0);
    client.submit_bid(&1, &bidder, &hash(&env, b""), &500);
}

#[test]
#[should_panic(expected = "Contract, #13")]
fn test_submit_bid_after_expiration_panics() {
    let env = Env::default();
    let client = setup_client(&env);
    let owner = address("owner");
    let bidder = address("bidder");

    // bidding_deadline = 10
    client.post_job(&1, &owner, &hash(&env, b"QmHash"), &1000, &10, &100);
    // Advance past deadline
    client.set_time(20);
    client.submit_bid(&1, &bidder, &hash(&env, b"QmProposal"), &500);
}

// cancel_bid
#[test]
fn test_cancel_bid_success() {
    let env = Env::default();
    let client = setup_client(&env);
    let owner = address("owner");
    let b1 = address("b1");
    let b2 = address("b2");

    client.post_job(&1, &owner, &hash(&env, b"QmHash"), &1000, &0, &0);
    client.submit_bid(&1, &b1, &hash(&env, b"QmP1"), &500);
    client.submit_bid(&1, &b2, &hash(&env, b"QmP2"), &600);
    client.cancel_bid(&1, &b1);

    assert_eq!(client.get_bids_count(&1), 1);
    let remaining = client.get_bid_at(&1, &0);
    assert_eq!(remaining.freelancer, b2);
}

#[test]
#[should_panic(expected = "Contract, #11")]
fn test_cancel_nonexistent_bid() {
    let env = Env::default();
    let client = setup_client(&env);
    let owner = address("owner");
    let b1 = address("b1");

    client.post_job(&1, &owner, &hash(&env, b"QmHash"), &1000, &0, &0);
    client.cancel_bid(&1, &b1);
}

// accept_bid
#[test]
fn test_accept_bid_success() {
    let env = Env::default();
    let client = setup_client(&env);
    let owner = address("owner");
    let b1 = address("b1");
    let b2 = address("b2");

    client.post_job(&1, &owner, &hash(&env, b"QmHash"), &1000, &0, &0);
    client.submit_bid(&1, &b1, &hash(&env, b"QmP1"), &500);
    client.submit_bid(&1, &b2, &hash(&env, b"QmP2"), &600);
    client.accept_bid(&1, &owner, &b1);

    let job = client.get_job(&1);
    assert_eq!(job.status, JobStatus::Assigned);
    assert_eq!(job.freelancer, Some(b1.clone()));
}

#[test]
fn test_full_lifecycle() {
    let env = Env::default();
    let client = setup_client(&env);
    let owner = address("owner");
    let freelancer = address("freelancer");

    client.post_job(&1, &owner, &hash(&env, b"QmSomeIPFSHash"), &100000, &0, &0);
    client.submit_bid(&1, &freelancer, &hash(&env, b"QmProposalHash"), &1000);
    client.accept_bid(&1, &owner, &freelancer);

    let job = client.get_job(&1);
    assert_eq!(job.status, JobStatus::Assigned);
    assert_eq!(job.freelancer, Some(freelancer.clone()));

    client.submit_deliverable(&1, &freelancer, &hash(&env, b"QmDeliverableHash"));
    let job = client.get_job(&1);
    assert_eq!(job.status, JobStatus::DeliverableSubmitted);
}

#[test]
#[should_panic(expected = "Contract, #8")]
fn test_cannot_accept_bid_twice() {
    let env = Env::default();
    let client = setup_client(&env);
    let owner = address("owner");
    let b1 = address("b1");
    let b2 = address("b2");

    client.post_job(&1, &owner, &hash(&env, b"QmHash"), &1000, &0, &0);
    client.submit_bid(&1, &b1, &hash(&env, b"QmP1"), &500);
    client.submit_bid(&1, &b2, &hash(&env, b"QmP2"), &600);
    client.accept_bid(&1, &owner, &b1);
    // Second attempt should fail
    client.accept_bid(&1, &owner, &b2);
}

#[test]
#[should_panic(expected = "Contract, #9")]
fn test_unauthorized_accept_bid() {
    let env = Env::default();
    let client = setup_client(&env);
    let owner = address("owner");
    let bidder = address("bidder");
    let stranger = address("stranger");

    client.post_job(&1, &owner, &hash(&env, b"QmHash"), &1000, &0, &0);
    client.submit_bid(&1, &bidder, &hash(&env, b"QmProposal"), &500);
    client.accept_bid(&1, &stranger, &bidder);
}

#[test]
#[should_panic(expected = "Contract, #11")]
fn test_accept_bid_requires_existing_bid() {
    let env = Env::default();
    let client = setup_client(&env);
    let owner = address("owner");
    let fake = address("fake");

    client.post_job(&1, &owner, &hash(&env, b"QmHash"), &1000, &0, &0);
    client.accept_bid(&1, &owner, &fake);
}

#[test]
#[should_panic(expected = "Contract, #13")]
fn test_accept_bid_after_expiration_panics() {
    let env = Env::default();
    let client = setup_client(&env);
    let owner = address("owner");
    let bidder = address("bidder");

    client.post_job(&1, &owner, &hash(&env, b"QmHash"), &1000, &10, &100);
    client.submit_bid(&1, &bidder, &hash(&env, b"QmProposal"), &500);
    client.set_time(20);
    client.accept_bid(&1, &owner, &bidder);
}

#[test]
fn test_get_bids_page_first_window() {
    let env = Env::default();
    let client = setup_client(&env);
    let owner = address("owner");
    let b1 = address("b1");
    let b2 = address("b2");

    client.post_job(&1, &owner, &hash(&env, b"QmHash"), &1000, &0, &0);
    client.submit_bid(&1, &b1, &hash(&env, b"QmP1"), &500);
    client.submit_bid(&1, &b2, &hash(&env, b"QmP2"), &600);

    let page = client.get_bids_page(&1, &0, &1);
    assert_eq!(page.len(), 1);
    assert_eq!(page.get(0).unwrap().freelancer, b1);
}

#[test]
fn test_get_bids_page_second_window() {
    let env = Env::default();
    let client = setup_client(&env);
    let owner = address("owner");
    let b1 = address("b1");
    let b2 = address("b2");

    client.post_job(&1, &owner, &hash(&env, b"QmHash"), &1000, &0, &0);
    client.submit_bid(&1, &b1, &hash(&env, b"QmP1"), &500);
    client.submit_bid(&1, &b2, &hash(&env, b"QmP2"), &600);

    let page = client.get_bids_page(&1, &1, &1);
    assert_eq!(page.len(), 1);
    assert_eq!(page.get(0).unwrap().freelancer, b2);
}

#[test]
fn test_get_bids_page_offset_beyond_end_returns_empty() {
    let env = Env::default();
    let client = setup_client(&env);
    let owner = address("owner");
    let b1 = address("b1");

    client.post_job(&1, &owner, &hash(&env, b"QmHash"), &1000, &0, &0);
    client.submit_bid(&1, &b1, &hash(&env, b"QmP1"), &500);

    let page = client.get_bids_page(&1, &5, &10);
    assert_eq!(page.len(), 0);
}

// Deliverable & dispute.
#[test]
fn test_submit_deliverable_success() {
    let env = Env::default();
    let client = setup_client(&env);
    let owner = address("owner");
    let f = address("f");

    client.post_job(&1, &owner, &hash(&env, b"QmHash"), &1000, &0, &0);
    client.submit_bid(&1, &f, &hash(&env, b"QmP"), &500);
    client.accept_bid(&1, &owner, &f);
    client.submit_deliverable(&1, &f, &hash(&env, b"QmDeliverable"));

    let job = client.get_job(&1);
    assert_eq!(job.status, JobStatus::DeliverableSubmitted);
}

#[test]
#[should_panic(expected = "Contract, #9")]
fn test_submit_deliverable_unauthorized() {
    let env = Env::default();
    let client = setup_client(&env);
    let owner = address("owner");
    let f = address("f");
    let imposter = address("imposter");

    client.post_job(&1, &owner, &hash(&env, b"QmHash"), &1000, &0, &0);
    client.submit_bid(&1, &f, &hash(&env, b"QmP"), &500);
    client.accept_bid(&1, &owner, &f);
    client.submit_deliverable(&1, &imposter, &hash(&env, b"QmBad"));
}

#[test]
fn test_get_deliverable_without_submission_returns_assigned() {
    let env = Env::default();
    let client = setup_client(&env);
    let owner = address("owner");
    let f = address("f");

    client.post_job(&1, &owner, &hash(&env, b"QmHash"), &1000, &0, &0);
    client.submit_bid(&1, &f, &hash(&env, b"QmP"), &500);
    client.accept_bid(&1, &owner, &f);
    // submit_deliverable was not called - job stays Assigned
    let job = client.get_job(&1);
    assert_eq!(job.status, JobStatus::Assigned);
}

#[test]
fn test_mark_disputed_from_assigned() {
    let env = Env::default();
    let client = setup_client(&env);
    let owner = address("owner");
    let f = address("f");

    client.post_job(&1, &owner, &hash(&env, b"QmHash"), &1000, &0, &0);
    client.submit_bid(&1, &f, &hash(&env, b"QmP"), &500);
    client.accept_bid(&1, &owner, &f);
    client.mark_disputed(&1, &owner);

    let job = client.get_job(&1);
    assert_eq!(job.status, JobStatus::Disputed);
}

#[test]
fn test_mark_disputed_from_deliverable_submitted() {
    let env = Env::default();
    let client = setup_client(&env);
    let owner = address("owner");
    let f = address("f");

    client.post_job(&1, &owner, &hash(&env, b"QmHash"), &1000, &0, &0);
    client.submit_bid(&1, &f, &hash(&env, b"QmP"), &500);
    client.accept_bid(&1, &owner, &f);
    client.submit_deliverable(&1, &f, &hash(&env, b"QmDeliverable"));
    client.mark_disputed(&1, &f);

    let job = client.get_job(&1);
    assert_eq!(job.status, JobStatus::Disputed);
}

#[test]
#[should_panic(expected = "Contract, #12")]
fn test_mark_disputed_from_open_fails() {
    let env = Env::default();
    let client = setup_client(&env);
    let owner = address("owner");

    client.post_job(&1, &owner, &hash(&env, b"QmHash"), &1000, &0, &0);
    client.mark_disputed(&1, &owner);
}

#[test]
#[should_panic(expected = "Contract, #12")]
fn test_mark_disputed_from_open_panics() {
    let env = Env::default();
    let client = setup_client(&env);
    let owner = address("owner");

    client.post_job(&1, &owner, &hash(&env, b"QmHash"), &1000, &0, &0);
    client.mark_disputed(&1, &owner);
}

// Close / cancel expiry.
#[test]
fn test_close_job() {
    let env = Env::default();
    let client = setup_client(&env);
    let owner = address("owner");

    client.post_job(&1, &owner, &hash(&env, b"QmHash"), &1000, &0, &0);
    client.close_job(&1, &owner);

    let job = client.get_job(&1);
    assert_eq!(job.status, JobStatus::Closed);
}

#[test]
fn test_cancel_expired_job_by_client() {
    let env = Env::default();
    let client = setup_client(&env);
    let owner = address("owner");

    // expires_at = 100
    client.post_job(&1, &owner, &hash(&env, b"QmHash"), &1000, &0, &100);
    client.set_time(200);
    client.cancel_expired_job(&1, &owner);

    let job = client.get_job(&1);
    assert_eq!(job.status, JobStatus::Closed);
}

#[test]
#[should_panic(expected = "Contract, #12")]
fn test_cancel_expired_job_before_expiration_panics() {
    let env = Env::default();
    let client = setup_client(&env);
    let owner = address("owner");

    // expires_at far in the future relative to current ledger time
    client.post_job(&1, &owner, &hash(&env, b"QmHash"), &1000, &0, &1_700_000_100);
    // current time = 1_700_000_000 < 1_700_000_100, not expired yet
    client.cancel_expired_job(&1, &owner);
}

// get_job / get_bid edge cases
#[test]
#[should_panic(expected = "Contract, #7")]
fn test_get_job_not_found() {
    let env = Env::default();
    let client = setup_client(&env);
    client.get_job(&999);
}

#[test]
#[should_panic(expected = "Contract, #15")]
fn test_get_bid_at_out_of_bounds() {
    let env = Env::default();
    let client = setup_client(&env);
    let owner = address("owner");

    client.post_job(&1, &owner, &hash(&env, b"QmHash"), &1000, &0, &0);
    client.get_bid_at(&1, &0);
}

#[test]
fn test_multiple_jobs_isolated() {
    let env = Env::default();
    let client = setup_client(&env);
    let owner_1 = address("owner_1");
    let owner_2 = address("owner_2");
    let bidder_1 = address("bidder_1");
    let bidder_2 = address("bidder_2");

    client.post_job(&1, &owner_1, &hash(&env, b"QmJ1"), &1000, &0, &0);
    client.post_job(&2, &owner_2, &hash(&env, b"QmJ2"), &2000, &0, &0);
    client.submit_bid(&1, &bidder_1, &hash(&env, b"QmP1"), &800);
    client.submit_bid(&2, &bidder_2, &hash(&env, b"QmP2"), &1700);
    client.accept_bid(&1, &owner_1, &bidder_1);

    let job_1 = client.get_job(&1);
    let job_2 = client.get_job(&2);

    assert_eq!(job_1.status, JobStatus::Assigned);
    assert_eq!(job_1.freelancer, Some(bidder_1));
    assert_eq!(job_2.status, JobStatus::Open);
    assert_eq!(job_2.freelancer, None);
    assert_eq!(client.get_bids_count(&1), 1);
    assert_eq!(client.get_bids_count(&2), 1);
}

// Upgrade admin.
#[test]
fn test_upgrade_admin_initialize_and_read() {
    let env = Env::default();
    let client = Client::new(&env);
    let admin = address("admin");
    client.initialize(&admin);

    let new_admin = address("new_admin");
    client.set_upgrade_admin(&admin, &new_admin);
    let stored = client.get_upgrade_admin();
    assert_eq!(stored, Some(new_admin));
}

#[test]
#[should_panic(expected = "Contract, #9")]
fn test_set_upgrade_admin_requires_current_admin() {
    let env = Env::default();
    let client = setup_client(&env);
    let admin = address("admin");
    let stranger = address("stranger");
    let new_admin = address("new_admin");

    client.set_upgrade_admin(&stranger, &new_admin);
}

// Budget edge cases.
#[test]
fn test_budget_above_maximum_succeeds() {
    // No maximum enforcement; only minimum > 0
    let env = Env::default();
    let client = setup_client(&env);
    let owner = address("owner");
    client.post_job(&1, &owner, &hash(&env, b"QmHash"), &i128::MAX, &0, &0);
    let job = client.get_job(&1);
    assert_eq!(job.budget_stroops, i128::MAX);
}

// Late bid after acceptance.
#[test]
#[should_panic(expected = "Contract, #8")]
fn test_late_bid_after_acceptance_panics_with_job_not_open() {
    let env = Env::default();
    let client = setup_client(&env);
    let owner = address("owner");
    let bidder = address("bidder");
    let late = address("late");

    client.post_job(&1, &owner, &hash(&env, b"QmHash"), &1000, &0, &0);
    client.submit_bid(&1, &bidder, &hash(&env, b"QmP1"), &500);
    client.accept_bid(&1, &owner, &bidder);
    // Late bidder tries to bid on an already-assigned job
    client.submit_bid(&1, &late, &hash(&env, b"QmLate"), &600);
}

// Accept without matching bid.
#[test]
#[should_panic(expected = "Contract, #11")]
fn test_accept_without_matching_bid_panics() {
    let env = Env::default();
    let client = setup_client(&env);
    let owner = address("owner");
    let b1 = address("b1");
    let nobody = address("nobody");

    client.post_job(&1, &owner, &hash(&env, b"QmHash"), &1000, &0, &0);
    client.submit_bid(&1, &b1, &hash(&env, b"QmP1"), &500);
    // Try accepting a bidder that never submitted
    client.accept_bid(&1, &owner, &nobody);
}

// accept_bid on empty bid list
#[test]
#[should_panic(expected = "Contract, #11")]
fn test_accept_bid_with_no_bids_submitted() {
    let env = Env::default();
    let client = setup_client(&env);
    let owner = address("owner");
    let nobody = address("nobody");

    client.post_job(&1, &owner, &hash(&env, b"QmHash"), &1000, &0, &0);
    client.accept_bid(&1, &owner, &nobody);
}

// get_bids on missing job
#[test]
#[should_panic(expected = "Contract, #7")]
fn test_get_bids_job_not_found() {
    let env = Env::default();
    let client = setup_client(&env);
    client.get_bids(&999);
}

#[test]
#[should_panic(expected = "Contract, #7")]
fn test_get_bids_for_missing_job_panics() {
    let env = Env::default();
    let client = setup_client(&env);
    client.get_bids(&999);
}

// set_escrow_deployer (alias for upgrade_admin round-trip)
// In this contract the "escrow deployer" role is not separate; the
// upgrade admin serves as the upgrade authority.
#[test]
fn test_set_escrow_deployer_round_trip() {
    let env = Env::default();
    let client = Client::new(&env);
    let admin = address("admin");
    client.initialize(&admin);

    let deployer = address("deployer");
    client.set_upgrade_admin(&admin, &deployer);
    let stored = client.get_upgrade_admin();
    assert_eq!(stored, Some(deployer));
}
