//! What the registry keeps on the ledger, and what it announces.
use crate::address::{optional_address, Address};
use crate::host::{
    bids_clone, bids_get, bids_held, bids_len, bids_new, bids_push_back, bytes_clone, bytes_held,
};
use soroban_sdk::{Bytes, BytesN, Env};
use vstd::prelude::*;

verus! {

/// Why a request is refused.
#[derive(Copy, Clone, Debug, Eq, PartialEq, Structural)]
pub enum JobRegistryError {
    AlreadyInitialized,
    NotInitialized,
    InvalidJobId,
    InvalidBudget,
    InvalidHash,
    JobAlreadyExists,
    JobNotFound,
    JobNotOpen,
    Unauthorized,
    BidAlreadySubmitted,
    BidNotFound,
    InvalidStateTransition,
    JobExpired,
    Overflow,
    BidIndexOutOfBounds,
    ReentrancyDetected,
}

impl JobRegistryError {
    /// The number under which the contract reports the refusal.
    pub open spec fn spec_code(self) -> u32 {
        match self {
            JobRegistryError::AlreadyInitialized => 1,
            JobRegistryError::NotInitialized => 2,
            JobRegistryError::InvalidJobId => 3,
            JobRegistryError::InvalidBudget => 4,
            JobRegistryError::InvalidHash => 5,
            JobRegistryError::JobAlreadyExists => 6,
            JobRegistryError::JobNotFound => 7,
            JobRegistryError::JobNotOpen => 8,
            JobRegistryError::Unauthorized => 9,
            JobRegistryError::BidAlreadySubmitted => 10,
            JobRegistryError::BidNotFound => 11,
            JobRegistryError::InvalidStateTransition => 12,
            JobRegistryError::JobExpired => 13,
            JobRegistryError::Overflow => 14,
            JobRegistryError::BidIndexOutOfBounds => 15,
            JobRegistryError::ReentrancyDetected => 16,
        }
    }

    /// The number under which the contract reports the refusal.
    pub fn code(&self) -> (n: u32)
        ensures
            n == self.spec_code(),
    {
        match self {
            JobRegistryError::AlreadyInitialized => 1,
            JobRegistryError::NotInitialized => 2,
            JobRegistryError::InvalidJobId => 3,
            JobRegistryError::InvalidBudget => 4,
            JobRegistryError::InvalidHash => 5,
            JobRegistryError::JobAlreadyExists => 6,
            JobRegistryError::JobNotFound => 7,
            JobRegistryError::JobNotOpen => 8,
            JobRegistryError::Unauthorized => 9,
            JobRegistryError::BidAlreadySubmitted => 10,
            JobRegistryError::BidNotFound => 11,
            JobRegistryError::InvalidStateTransition => 12,
            JobRegistryError::JobExpired => 13,
            JobRegistryError::Overflow => 14,
            JobRegistryError::BidIndexOutOfBounds => 15,
            JobRegistryError::ReentrancyDetected => 16,
        }
    }
}

/// The stages of a job's life.
#[derive(Copy, Clone, Debug, Eq, PartialEq, Structural)]
pub enum JobStatus {
    Open,
    Assigned,
    DeliverableSubmitted,
    Disputed,
    Closed,
}

/// A job as the ledger keeps it. Of texts only the content hash is kept.
#[derive(Debug, Eq, PartialEq)]
pub struct JobRecord {
    pub client: Address,
    pub freelancer: Option<Address>,
    pub metadata_hash: Bytes,
    pub budget_stroops: i128,
    pub status: JobStatus,
    pub bidding_deadline: u64,
    pub expires_at: u64,
}

/// What a [`JobRecord`] stands for.
pub struct JobView {
    pub client: Seq<u8>,
    pub freelancer: Option<Seq<u8>>,
    pub metadata_hash: Seq<u8>,
    pub budget_stroops: i128,
    pub status: JobStatus,
    pub bidding_deadline: u64,
    pub expires_at: u64,
}

impl View for JobRecord {
    type V = JobView;

    open spec fn view(&self) -> JobView {
        JobView {
            client: self.client@,
            freelancer: optional_address(self.freelancer),
            metadata_hash: bytes_held(self.metadata_hash),
            budget_stroops: self.budget_stroops,
            status: self.status,
            bidding_deadline: self.bidding_deadline,
            expires_at: self.expires_at,
        }
    }
}

impl Clone for JobRecord {
    fn clone(&self) -> (copy: Self)
        ensures
            copy@ == self@,
    {
        JobRecord {
            client: self.client,
            freelancer: self.freelancer,
            metadata_hash: bytes_clone(&self.metadata_hash),
            budget_stroops: self.budget_stroops,
            status: self.status,
            bidding_deadline: self.bidding_deadline,
            expires_at: self.expires_at,
        }
    }
}

/// A bid as the ledger keeps it.
#[derive(Debug, Eq, PartialEq)]
pub struct BidRecord {
    pub freelancer: Address,
    pub proposal_hash: Bytes,
}

/// What a [`BidRecord`] stands for.
pub struct BidView {
    pub freelancer: Seq<u8>,
    pub proposal_hash: Seq<u8>,
}

impl View for BidRecord {
    type V = BidView;

    open spec fn view(&self) -> BidView {
        BidView { freelancer: self.freelancer@, proposal_hash: bytes_held(self.proposal_hash) }
    }
}

impl Clone for BidRecord {
    fn clone(&self) -> (copy: Self)
        ensures
            copy@ == self@,
    {
        BidRecord {
            freelancer: self.freelancer,
            proposal_hash: bytes_clone(&self.proposal_hash),
        }
    }
}

/// The bids on one job, in the order in which they came in.
#[derive(Debug, Eq, PartialEq)]
pub struct BidList {
    entries: soroban_sdk::Vec<(BytesN<56>, Bytes)>,
}

impl View for BidList {
    type V = Seq<BidView>;

    closed spec fn view(&self) -> Seq<BidView> {
        bids_held(self.entries).map_values(
            |entry: (Seq<u8>, Seq<u8>)|
                BidView { freelancer: entry.0, proposal_hash: entry.1 },
        )
    }
}

impl BidList {
    /// The list without bids.
    pub fn new(env: &Env) -> (list: Self)
        ensures
            list@ == Seq::<BidView>::empty(),
    {
        let list = BidList { entries: bids_new(env) };
        assert(list@ =~= Seq::<BidView>::empty());
        list
    }

    /// Puts a bid behind all others.
    pub fn push_back(&mut self, bid: BidRecord)
        requires
            old(self)@.len() < u32::MAX,
        ensures
            final(self)@ == old(self)@.push(bid@),
    {
        bids_push_back(&mut self.entries, &bid.freelancer.strkey, &bid.proposal_hash);
        assert(self@ =~= old(self)@.push(bid@));
    }

    /// The number of bids.
    pub fn len(&self) -> (n: u32)
        ensures
            n as nat == self@.len(),
    {
        bids_len(&self.entries)
    }

    /// The bid at a position, or nothing past the end.
    pub fn get(&self, i: u32) -> (bid: Option<BidRecord>)
        ensures
            bid is Some <==> i < self@.len(),
            bid matches Some(b) ==> b@ == self@[i as int],
    {
        match bids_get(&self.entries, i) {
            Some((strkey, proposal_hash)) => Some(
                BidRecord { freelancer: Address { strkey }, proposal_hash },
            ),
            None => None,
        }
    }
}

impl Clone for BidList {
    fn clone(&self) -> (copy: Self)
        ensures
            copy@ == self@,
    {
        BidList { entries: bids_clone(&self.entries) }
    }
}

/// The keys under which the ledger keeps the registry's entries.
#[derive(Copy, Clone, Debug, Eq, PartialEq, Structural)]
pub enum DataKey {
    Admin,
    Locked,
    UpgradeAdmin,
    Job(u64),
    Bids(u64),
    NextJobId,
}

/// Announces a bid that came in.
#[derive(Debug, Eq, PartialEq)]
pub struct BidSubmittedEvent {
    pub job_id: u64,
    pub freelancer: Address,
    pub proposal_hash: Bytes,
    pub timestamp: u64,
}

impl Clone for BidSubmittedEvent {
    fn clone(&self) -> (copy: Self)
        ensures
            copy.job_id == self.job_id,
            copy.freelancer == self.freelancer,
            bytes_held(copy.proposal_hash) == bytes_held(self.proposal_hash),
            copy.timestamp == self.timestamp,
    {
        BidSubmittedEvent {
            job_id: self.job_id,
            freelancer: self.freelancer,
            proposal_hash: bytes_clone(&self.proposal_hash),
            timestamp: self.timestamp,
        }
    }
}

/// Announces a bid that the client took.
#[derive(Copy, Clone, Debug, Eq, PartialEq)]
pub struct BidAcceptedEvent {
    pub job_id: u64,
    pub client: Address,
    pub freelancer: Address,
    pub timestamp: u64,
}

} // verus!
