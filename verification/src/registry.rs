//! The job registry: posting jobs, bidding on them and carrying them through.
//!
//! Each request works on the ledger entries that it touches. A request that is
//! refused leaves them as they were.
use crate::address::{optional_address, Address};
use crate::host::{bytes_clone, bytes_held, bytes_is_empty, bytes_len};
use crate::records::{
    BidAcceptedEvent, BidList, BidRecord, BidSubmittedEvent, BidView, DataKey, JobRecord,
    JobRegistryError, JobStatus, JobView,
};
use crate::state::{RegistryState, RegistryView};
use soroban_sdk::{Bytes, Env};
use vstd::prelude::*;

verus! {

/// The longest content hash that is kept, in bytes.
pub const MAX_HASH_LEN: u32 = 64;

/// Whether bytes can be a content hash.
pub open spec fn is_hash(bytes: Seq<u8>) -> bool {
    0 < bytes.len() <= MAX_HASH_LEN
}

/// Whether a list holds a bid of a freelancer.
pub open spec fn has_bid_of(bids: Seq<BidView>, freelancer: Seq<u8>) -> bool {
    exists|i: int| 0 <= i < bids.len() && #[trigger] bids[i].freelancer == freelancer
}

/// The bids of a list that are not a given freelancer's, in their order.
pub open spec fn without_bids_of(bids: Seq<BidView>, freelancer: Seq<u8>) -> Seq<BidView> {
    bids.filter(|bid: BidView| bid.freelancer != freelancer)
}

/// The part of a list that starts at a position and is at most `limit` long. Behind the
/// end there is nothing.
pub open spec fn page_of(bids: Seq<BidView>, offset: u32, limit: u32) -> Seq<BidView> {
    if offset >= bids.len() {
        Seq::empty()
    } else if offset + limit <= bids.len() {
        bids.subrange(offset as int, offset + limit)
    } else {
        bids.skip(offset as int)
    }
}

impl JobView {
    /// Whether the time for bids is over. A deadline of zero never passes.
    pub open spec fn bidding_over(self, now: u64) -> bool {
        now > self.bidding_deadline && self.bidding_deadline > 0
    }

    /// A job as it is posted: open and without a freelancer.
    pub open spec fn posted(
        client: Seq<u8>,
        metadata_hash: Seq<u8>,
        budget_stroops: i128,
        bidding_deadline: u64,
        expires_at: u64,
    ) -> Self {
        JobView {
            client,
            freelancer: None,
            metadata_hash,
            budget_stroops,
            status: JobStatus::Open,
            bidding_deadline,
            expires_at,
        }
    }

    /// Whether the job has run out. An expiry of zero never comes.
    pub open spec fn expired(self, now: u64) -> bool {
        now > self.expires_at && self.expires_at != 0
    }
}

impl RegistryView {
    /// Why a bid is refused; of several reasons the first.
    pub open spec fn submit_bid_refusal(
        self,
        job_id: u64,
        bid: BidView,
        amount: i128,
        now: u64,
    ) -> Option<JobRegistryError> {
        if self.locked {
            Some(JobRegistryError::ReentrancyDetected)
        } else if !is_hash(bid.proposal_hash) {
            Some(JobRegistryError::InvalidHash)
        } else if amount < 0 {
            Some(JobRegistryError::InvalidBudget)
        } else if !self.jobs.contains_key(job_id) {
            Some(JobRegistryError::JobNotFound)
        } else if self.jobs[job_id].status != JobStatus::Open {
            Some(JobRegistryError::JobNotOpen)
        } else if self.jobs[job_id].bidding_over(now) {
            Some(JobRegistryError::JobExpired)
        } else if has_bid_of(self.bids_on(job_id), bid.freelancer) {
            Some(JobRegistryError::BidAlreadySubmitted)
        } else {
            None
        }
    }

    /// The ledger after a bid came in.
    pub open spec fn after_bid(self, job_id: u64, bid: BidView) -> Self {
        self.with_bids(job_id, self.bids_on(job_id).push(bid))
    }

    /// Whether a bid is answered as it should be: refused for the reason that there is and
    /// with the ledger untouched, or entered and announced.
    pub open spec fn bid_answered(
        self,
        after: Self,
        job_id: u64,
        bid: BidView,
        amount: i128,
        now: u64,
        answer: Result<BidSubmittedEvent, JobRegistryError>,
    ) -> bool {
        match self.submit_bid_refusal(job_id, bid, amount, now) {
            Some(e) => answer == Err::<BidSubmittedEvent, JobRegistryError>(e) && after == self,
            None => {
                &&& after == self.after_bid(job_id, bid)
                &&& answer matches Ok(event)
                &&& event.job_id == job_id
                &&& event.freelancer@ == bid.freelancer
                &&& bytes_held(event.proposal_hash) == bid.proposal_hash
                &&& event.timestamp == now
            },
        }
    }

    /// Why the withdrawal of a bid is refused; of several reasons the first.
    pub open spec fn cancel_bid_refusal(
        self,
        job_id: u64,
        freelancer: Seq<u8>,
    ) -> Option<JobRegistryError> {
        if self.locked {
            Some(JobRegistryError::ReentrancyDetected)
        } else if !self.jobs.contains_key(job_id) {
            Some(JobRegistryError::JobNotFound)
        } else if self.jobs[job_id].status != JobStatus::Open {
            Some(JobRegistryError::JobNotOpen)
        } else if !has_bid_of(self.bids_on(job_id), freelancer) {
            Some(JobRegistryError::BidNotFound)
        } else {
            None
        }
    }

    /// The ledger after a freelancer withdrew.
    pub open spec fn after_cancelled_bid(self, job_id: u64, freelancer: Seq<u8>) -> Self {
        self.with_bids(job_id, without_bids_of(self.bids_on(job_id), freelancer))
    }

    /// Why the choice of a bid is refused; of several reasons the first.
    pub open spec fn accept_bid_refusal(
        self,
        job_id: u64,
        caller: Seq<u8>,
        freelancer: Seq<u8>,
        now: u64,
    ) -> Option<JobRegistryError> {
        if self.locked {
            Some(JobRegistryError::ReentrancyDetected)
        } else if !self.jobs.contains_key(job_id) {
            Some(JobRegistryError::JobNotFound)
        } else if caller != self.jobs[job_id].client {
            Some(JobRegistryError::Unauthorized)
        } else if self.jobs[job_id].status != JobStatus::Open {
            Some(JobRegistryError::JobNotOpen)
        } else if self.jobs[job_id].bidding_over(now) {
            Some(JobRegistryError::JobExpired)
        } else if !has_bid_of(self.bids_on(job_id), freelancer) {
            Some(JobRegistryError::BidNotFound)
        } else {
            None
        }
    }

    /// The ledger after the client took a freelancer's bid.
    pub open spec fn after_accepted_bid(self, job_id: u64, freelancer: Seq<u8>) -> Self {
        self.with_job(
            job_id,
            JobView {
                status: JobStatus::Assigned,
                freelancer: Some(freelancer),
                ..self.jobs[job_id]
            },
        )
    }

    /// Why no administrator is named.
    pub open spec fn initialize_refusal(self) -> Option<JobRegistryError> {
        if self.admin is Some {
            Some(JobRegistryError::AlreadyInitialized)
        } else {
            None
        }
    }

    /// The ledger after the administrator was named. Automatic numbers start at one.
    pub open spec fn after_initialized(self, admin: Seq<u8>) -> Self {
        RegistryView { admin: Some(admin), next_job_id: Some(1), ..self }
    }

    /// Why a caller may not name who upgrades the contract.
    pub open spec fn set_upgrade_admin_refusal(self, caller: Seq<u8>) -> Option<
        JobRegistryError,
    > {
        if self.admin != Some(caller) {
            Some(JobRegistryError::Unauthorized)
        } else {
            None
        }
    }

    /// The ledger after it was named who upgrades the contract.
    pub open spec fn after_upgrade_admin(self, new: Seq<u8>) -> Self {
        RegistryView { upgrade_admin: Some(new), ..self }
    }

    /// Why a job is not posted under a chosen number; of several reasons the first.
    pub open spec fn post_job_refusal(
        self,
        job_id: u64,
        metadata_hash: Seq<u8>,
        budget_stroops: i128,
    ) -> Option<JobRegistryError> {
        if job_id == 0 {
            Some(JobRegistryError::InvalidJobId)
        } else if budget_stroops <= 0 {
            Some(JobRegistryError::InvalidBudget)
        } else if !is_hash(metadata_hash) {
            Some(JobRegistryError::InvalidHash)
        } else if self.jobs.contains_key(job_id) {
            Some(JobRegistryError::JobAlreadyExists)
        } else {
            None
        }
    }

    /// The ledger after a job was posted under a chosen number. Automatic numbers go on
    /// behind the largest number chosen so far.
    pub open spec fn after_posted(self, job_id: u64, job: JobView) -> Self {
        RegistryView {
            next_job_id: if job_id >= self.next_id() {
                Some((job_id + 1) as u64)
            } else {
                self.next_job_id
            },
            ..self.with_job(job_id, job)
        }
    }

    /// Why a job is not posted under the next number; of several reasons the first.
    pub open spec fn post_job_auto_refusal(
        self,
        metadata_hash: Seq<u8>,
        budget_stroops: i128,
    ) -> Option<JobRegistryError> {
        if budget_stroops <= 0 {
            Some(JobRegistryError::InvalidBudget)
        } else if !is_hash(metadata_hash) {
            Some(JobRegistryError::InvalidHash)
        } else {
            None
        }
    }

    /// The ledger after a job was posted under the next number.
    pub open spec fn after_posted_auto(self, job: JobView) -> Self {
        RegistryView {
            next_job_id: Some((self.next_id() + 1) as u64),
            ..self.with_job(self.next_id(), job)
        }
    }

    /// Why a deliverable is refused; of several reasons the first.
    pub open spec fn submit_deliverable_refusal(
        self,
        job_id: u64,
        freelancer: Seq<u8>,
        deliverable_hash: Seq<u8>,
    ) -> Option<JobRegistryError> {
        if self.locked {
            Some(JobRegistryError::ReentrancyDetected)
        } else if !is_hash(deliverable_hash) {
            Some(JobRegistryError::InvalidHash)
        } else if !self.jobs.contains_key(job_id) {
            Some(JobRegistryError::JobNotFound)
        } else if self.jobs[job_id].status != JobStatus::Assigned {
            Some(JobRegistryError::InvalidStateTransition)
        } else if self.jobs[job_id].freelancer != Some(freelancer) {
            Some(JobRegistryError::Unauthorized)
        } else {
            None
        }
    }

    /// Why a dispute is refused; of several reasons the first.
    pub open spec fn mark_disputed_refusal(
        self,
        job_id: u64,
        caller: Seq<u8>,
    ) -> Option<JobRegistryError> {
        if !self.jobs.contains_key(job_id) {
            Some(JobRegistryError::JobNotFound)
        } else if caller != self.jobs[job_id].client && self.jobs[job_id].freelancer != Some(
            caller,
        ) {
            Some(JobRegistryError::Unauthorized)
        } else if self.jobs[job_id].status != JobStatus::Assigned
            && self.jobs[job_id].status != JobStatus::DeliverableSubmitted {
            Some(JobRegistryError::InvalidStateTransition)
        } else {
            None
        }
    }

    /// Why a job is not closed; of several reasons the first.
    pub open spec fn close_job_refusal(self, job_id: u64, caller: Seq<u8>) -> Option<
        JobRegistryError,
    > {
        if self.locked {
            Some(JobRegistryError::ReentrancyDetected)
        } else if !self.jobs.contains_key(job_id) {
            Some(JobRegistryError::JobNotFound)
        } else if caller != self.jobs[job_id].client {
            Some(JobRegistryError::Unauthorized)
        } else {
            None
        }
    }

    /// Why a job is not closed for having run out; of several reasons the first.
    pub open spec fn cancel_expired_job_refusal(
        self,
        job_id: u64,
        caller: Seq<u8>,
        now: u64,
    ) -> Option<JobRegistryError> {
        if !self.jobs.contains_key(job_id) {
            Some(JobRegistryError::JobNotFound)
        } else if !self.jobs[job_id].expired(now) {
            Some(JobRegistryError::InvalidStateTransition)
        } else if caller != self.jobs[job_id].client {
            Some(JobRegistryError::Unauthorized)
        } else {
            None
        }
    }
}

/// Whether bytes can be a content hash.
pub fn hash_is_valid(h: &Bytes) -> (valid: bool)
    ensures
        valid == is_hash(bytes_held(*h)),
{
    !bytes_is_empty(h) && bytes_len(h) <= MAX_HASH_LEN
}

/// Takes the lock that keeps a request from running inside another one.
pub fn require_not_reentrant(state: &mut RegistryState) -> (result: Result<(), JobRegistryError>)
    ensures
        match result {
            Ok(()) => !old(state)@.locked && final(state)@ == (RegistryView {
                locked: true,
                ..old(state)@
            }),
            Err(e) => old(state)@.locked && e == JobRegistryError::ReentrancyDetected
                && final(state)@ == old(state)@,
        },
{
    if state.has(&DataKey::Locked) {
        return Err(JobRegistryError::ReentrancyDetected);
    }
    state.locked = true;
    Ok(())
}

/// Gives the lock back.
pub fn release_lock(state: &mut RegistryState)
    ensures
        final(state)@ == (RegistryView { locked: false, ..old(state)@ }),
{
    state.locked = false;
}

/// The job registry.
pub struct JobRegistryContract;

impl JobRegistryContract {
    /// Whether a list holds a bid of a freelancer.
    fn holds_bid_of(bids: &BidList, freelancer: &Address) -> (found: bool)
        ensures
            found == has_bid_of(bids@, freelancer@),
    {
        let n = bids.len();
        let mut i: u32 = 0;
        while i < n
            invariant
                i <= n,
                n as nat == bids@.len(),
                forall|j: int| 0 <= j < i ==> #[trigger] bids@[j].freelancer != freelancer@,
            decreases n - i,
        {
            if let Some(bid) = bids.get(i) {
                if bid.freelancer == *freelancer {
                    assert(bids@[i as int].freelancer == freelancer@);
                    return true;
                }
            }
            i += 1;
        }
        false
    }

    /// Whether the bids on a job hold one of a freelancer.
    fn has_bid(state: &RegistryState, job_id: u64, freelancer: &Address) -> (found: bool)
        ensures
            found == has_bid_of(state@.bids_on(job_id), freelancer@),
    {
        match state.bid_list(job_id) {
            Some(bids) => Self::holds_bid_of(bids, freelancer),
            None => false,
        }
    }

    /// Why a bid is refused, the lock aside.
    fn bid_refusal(
        state: &RegistryState,
        job_id: u64,
        freelancer: &Address,
        proposal_hash: &Bytes,
        amount: i128,
        now: u64,
    ) -> (refusal: Option<JobRegistryError>)
        ensures
            refusal == (RegistryView { locked: false, ..state@ }).submit_bid_refusal(
                job_id,
                BidView { freelancer: freelancer@, proposal_hash: bytes_held(*proposal_hash) },
                amount,
                now,
            ),
    {
        if !hash_is_valid(proposal_hash) {
            return Some(JobRegistryError::InvalidHash);
        }
        if amount < 0 {
            return Some(JobRegistryError::InvalidBudget);
        }
        let job = match state.job(job_id) {
            Some(job) => job,
            None => {
                return Some(JobRegistryError::JobNotFound);
            },
        };
        if job.status != JobStatus::Open {
            return Some(JobRegistryError::JobNotOpen);
        }
        if now > job.bidding_deadline && job.bidding_deadline > 0 {
            return Some(JobRegistryError::JobExpired);
        }
        if Self::has_bid(state, job_id, freelancer) {
            return Some(JobRegistryError::BidAlreadySubmitted);
        }
        None
    }

    /// A freelancer bids on an open job. Each freelancer may bid once. The amount is
    /// checked and not kept. On success the event to announce is returned.
    pub fn submit_bid(
        env: &Env,
        state: &mut RegistryState,
        job_id: u64,
        freelancer: Address,
        proposal_hash: Bytes,
        amount: i128,
        now: u64,
    ) -> (result: Result<BidSubmittedEvent, JobRegistryError>)
        requires
            old(state)@.bids_on(job_id).len() < u32::MAX || old(state)@.submit_bid_refusal(
                job_id,
                BidView { freelancer: freelancer@, proposal_hash: bytes_held(proposal_hash) },
                amount,
                now,
            ) is Some,
        ensures
            old(state)@.bid_answered(
                final(state)@,
                job_id,
                BidView { freelancer: freelancer@, proposal_hash: bytes_held(proposal_hash) },
                amount,
                now,
                result,
            ),
    {
        if let Err(e) = require_not_reentrant(state) {
            return Err(e);
        }
        assert((RegistryView { locked: false, ..state@ }) =~= old(state)@);
        if let Some(e) = Self::bid_refusal(
            state,
            job_id,
            &freelancer,
            &proposal_hash,
            amount,
            now,
        ) {
            release_lock(state);
            return Err(e);
        }
        let mut bids = match state.bid_list(job_id) {
            Some(list) => list.clone(),
            None => BidList::new(env),
        };
        let event = BidSubmittedEvent {
            job_id,
            freelancer,
            proposal_hash: bytes_clone(&proposal_hash),
            timestamp: now,
        };
        bids.push_back(BidRecord { freelancer, proposal_hash });
        state.put_bids(job_id, bids);
        release_lock(state);
        Ok(event)
    }

    /// [`Self::submit_bid`] where the bid is refused or the list of bids has room for it;
    /// nothing where only a full list stands against it.
    pub fn try_submit_bid(
        env: &Env,
        state: &mut RegistryState,
        job_id: u64,
        freelancer: Address,
        proposal_hash: Bytes,
        amount: i128,
        now: u64,
    ) -> (result: Option<Result<BidSubmittedEvent, JobRegistryError>>)
        ensures
            match result {
                Some(answer) => old(state)@.bid_answered(
                    final(state)@,
                    job_id,
                    BidView { freelancer: freelancer@, proposal_hash: bytes_held(proposal_hash) },
                    amount,
                    now,
                    answer,
                ),
                None => final(state)@ == old(state)@,
            },
            result is None <==> {
                &&& old(state)@.bids_on(job_id).len() == u32::MAX
                &&& old(state)@.submit_bid_refusal(
                    job_id,
                    BidView { freelancer: freelancer@, proposal_hash: bytes_held(proposal_hash) },
                    amount,
                    now,
                ) is None
            },
    {
        let full = match state.bid_list(job_id) {
            Some(bids) => bids.len() == u32::MAX,
            None => false,
        };
        if full && !state.has(&DataKey::Locked) {
            assert((RegistryView { locked: false, ..state@ }) =~= state@);
            if Self::bid_refusal(
                state,
                job_id,
                &freelancer,
                &proposal_hash,
                amount,
                now,
            ).is_none() {
                return None;
            }
        }
        Some(
            Self::submit_bid(env, state, job_id, freelancer, proposal_hash, amount, now),
        )
    }

    /// Why the withdrawal of a bid is refused, the lock aside.
    fn withdrawal_refusal(
        state: &RegistryState,
        job_id: u64,
        freelancer: &Address,
    ) -> (refusal: Option<JobRegistryError>)
        ensures
            refusal == (RegistryView { locked: false, ..state@ }).cancel_bid_refusal(
                job_id,
                freelancer@,
            ),
    {
        let job = match state.job(job_id) {
            Some(job) => job,
            None => {
                return Some(JobRegistryError::JobNotFound);
            },
        };
        if job.status != JobStatus::Open {
            return Some(JobRegistryError::JobNotOpen);
        }
        if !Self::has_bid(state, job_id, freelancer) {
            return Some(JobRegistryError::BidNotFound);
        }
        None
    }

    /// The bids of a list that are not a given freelancer's, in their order.
    fn filter_out(env: &Env, bids: &BidList, freelancer: &Address) -> (filtered: BidList)
        ensures
            filtered@ == without_bids_of(bids@, freelancer@),
    {
        let ghost keep = |bid: BidView| bid.freelancer != freelancer@;
        let n = bids.len();
        let mut filtered = BidList::new(env);
        let mut i: u32 = 0;
        while i < n
            invariant
                i <= n,
                n as nat == bids@.len(),
                keep == (|bid: BidView| bid.freelancer != freelancer@),
                filtered@ == bids@.take(i as int).filter(keep),
                filtered@.len() <= i,
            decreases n - i,
        {
            assert(bids@.take(i + 1).drop_last() =~= bids@.take(i as int));
            reveal(Seq::filter);
            if let Some(bid) = bids.get(i) {
                if bid.freelancer != *freelancer {
                    filtered.push_back(bid);
                }
            }
            i += 1;
        }
        assert(bids@.take(n as int) =~= bids@);
        filtered
    }

    /// A freelancer withdraws the bid on an open job.
    pub fn cancel_bid(
        env: &Env,
        state: &mut RegistryState,
        job_id: u64,
        freelancer: Address,
    ) -> (result: Result<(), JobRegistryError>)
        ensures
            match old(state)@.cancel_bid_refusal(job_id, freelancer@) {
                Some(e) => result == Err::<(), JobRegistryError>(e)
                    && final(state)@ == old(state)@,
                None => result is Ok && final(state)@ == old(state)@.after_cancelled_bid(
                    job_id,
                    freelancer@,
                ),
            },
    {
        if let Err(e) = require_not_reentrant(state) {
            return Err(e);
        }
        assert((RegistryView { locked: false, ..state@ }) =~= old(state)@);
        if let Some(e) = Self::withdrawal_refusal(state, job_id, &freelancer) {
            release_lock(state);
            return Err(e);
        }
        if let Some(bids) = state.bid_list(job_id) {
            let filtered = Self::filter_out(env, bids, &freelancer);
            state.put_bids(job_id, filtered);
        }
        release_lock(state);
        Ok(())
    }

    /// Why the choice of a bid is refused, the lock aside.
    fn acceptance_refusal(
        state: &RegistryState,
        job_id: u64,
        caller: &Address,
        freelancer: &Address,
        now: u64,
    ) -> (refusal: Option<JobRegistryError>)
        ensures
            refusal == (RegistryView { locked: false, ..state@ }).accept_bid_refusal(
                job_id,
                caller@,
                freelancer@,
                now,
            ),
    {
        let job = match state.job(job_id) {
            Some(job) => job,
            None => {
                return Some(JobRegistryError::JobNotFound);
            },
        };
        if *caller != job.client {
            return Some(JobRegistryError::Unauthorized);
        }
        if job.status != JobStatus::Open {
            return Some(JobRegistryError::JobNotOpen);
        }
        if now > job.bidding_deadline && job.bidding_deadline > 0 {
            return Some(JobRegistryError::JobExpired);
        }
        if !Self::has_bid(state, job_id, freelancer) {
            return Some(JobRegistryError::BidNotFound);
        }
        None
    }

    /// The client of an open job takes a freelancer's bid, which assigns the job. On
    /// success the event to announce is returned.
    pub fn accept_bid(
        state: &mut RegistryState,
        job_id: u64,
        caller: Address,
        freelancer: Address,
        now: u64,
    ) -> (result: Result<BidAcceptedEvent, JobRegistryError>)
        ensures
            match old(state)@.accept_bid_refusal(job_id, caller@, freelancer@, now) {
                Some(e) => result == Err::<BidAcceptedEvent, JobRegistryError>(e)
                    && final(state)@ == old(state)@,
                None => {
                    &&& final(state)@ == old(state)@.after_accepted_bid(job_id, freelancer@)
                    &&& result matches Ok(event)
                    &&& event.job_id == job_id
                    &&& event.client@ == caller@
                    &&& event.freelancer@ == freelancer@
                    &&& event.timestamp == now
                },
            },
    {
        if let Err(e) = require_not_reentrant(state) {
            return Err(e);
        }
        assert((RegistryView { locked: false, ..state@ }) =~= old(state)@);
        if let Some(e) = Self::acceptance_refusal(state, job_id, &caller, &freelancer, now) {
            release_lock(state);
            return Err(e);
        }
        if let Some(job) = state.job(job_id) {
            let mut job = job.clone();
            job.status = JobStatus::Assigned;
            job.freelancer = Some(freelancer);
            state.put_job(job_id, job);
        }
        release_lock(state);
        Ok(BidAcceptedEvent { job_id, client: caller, freelancer, timestamp: now })
    }

    /// Why a deliverable is refused, the lock aside.
    fn deliverable_refusal(
        state: &RegistryState,
        job_id: u64,
        freelancer: &Address,
        deliverable_hash: &Bytes,
    ) -> (refusal: Option<JobRegistryError>)
        ensures
            refusal == (RegistryView { locked: false, ..state@ }).submit_deliverable_refusal(
                job_id,
                freelancer@,
                bytes_held(*deliverable_hash),
            ),
    {
        if !hash_is_valid(deliverable_hash) {
            return Some(JobRegistryError::InvalidHash);
        }
        let job = match state.job(job_id) {
            Some(job) => job,
            None => {
                return Some(JobRegistryError::JobNotFound);
            },
        };
        if job.status != JobStatus::Assigned {
            return Some(JobRegistryError::InvalidStateTransition);
        }
        if !Self::is_freelancer_of(job, freelancer) {
            return Some(JobRegistryError::Unauthorized);
        }
        None
    }

    /// Whether an address is the freelancer that a job is assigned to.
    fn is_freelancer_of(job: &JobRecord, address: &Address) -> (assigned: bool)
        ensures
            assigned == (job@.freelancer == Some(address@)),
    {
        match job.freelancer {
            Some(freelancer) => freelancer == *address,
            None => false,
        }
    }

    /// Moves a job that exists to another stage.
    fn set_status(state: &mut RegistryState, job_id: u64, status: JobStatus)
        requires
            old(state)@.jobs.contains_key(job_id),
        ensures
            final(state)@ == old(state)@.with_status(job_id, status),
    {
        if let Some(job) = state.job(job_id) {
            let mut job = job.clone();
            job.status = status;
            state.put_job(job_id, job);
        }
    }

    /// The freelancer of an assigned job hands in the work. The hash is checked and not
    /// kept.
    pub fn submit_deliverable(
        state: &mut RegistryState,
        job_id: u64,
        freelancer: Address,
        deliverable_hash: Bytes,
    ) -> (result: Result<(), JobRegistryError>)
        ensures
            match old(state)@.submit_deliverable_refusal(
                job_id,
                freelancer@,
                bytes_held(deliverable_hash),
            ) {
                Some(e) => result == Err::<(), JobRegistryError>(e)
                    && final(state)@ == old(state)@,
                None => result is Ok && final(state)@ == old(state)@.with_status(
                    job_id,
                    JobStatus::DeliverableSubmitted,
                ),
            },
    {
        if let Err(e) = require_not_reentrant(state) {
            return Err(e);
        }
        assert((RegistryView { locked: false, ..state@ }) =~= old(state)@);
        if let Some(e) = Self::deliverable_refusal(
            state,
            job_id,
            &freelancer,
            &deliverable_hash,
        ) {
            release_lock(state);
            return Err(e);
        }
        Self::set_status(state, job_id, JobStatus::DeliverableSubmitted);
        release_lock(state);
        Ok(())
    }

    /// The client or the freelancer of a job in work disputes it.
    pub fn mark_disputed(state: &mut RegistryState, job_id: u64, caller: Address) -> (result:
        Result<(), JobRegistryError>)
        ensures
            match old(state)@.mark_disputed_refusal(job_id, caller@) {
                Some(e) => result == Err::<(), JobRegistryError>(e)
                    && final(state)@ == old(state)@,
                None => result is Ok && final(state)@ == old(state)@.with_status(
                    job_id,
                    JobStatus::Disputed,
                ),
            },
    {
        let job = match state.job(job_id) {
            Some(job) => job,
            None => {
                return Err(JobRegistryError::JobNotFound);
            },
        };
        if caller != job.client && !Self::is_freelancer_of(job, &caller) {
            return Err(JobRegistryError::Unauthorized);
        }
        match job.status {
            JobStatus::Assigned | JobStatus::DeliverableSubmitted => {
                Self::set_status(state, job_id, JobStatus::Disputed);
                Ok(())
            },
            _ => Err(JobRegistryError::InvalidStateTransition),
        }
    }

    /// Why a job is not closed, the lock aside.
    fn closing_refusal(state: &RegistryState, job_id: u64, caller: &Address) -> (refusal: Option<
        JobRegistryError,
    >)
        ensures
            refusal == (RegistryView { locked: false, ..state@ }).close_job_refusal(
                job_id,
                caller@,
            ),
    {
        match state.job(job_id) {
            Some(job) => {
                if *caller != job.client {
                    Some(JobRegistryError::Unauthorized)
                } else {
                    None
                }
            },
            None => Some(JobRegistryError::JobNotFound),
        }
    }

    /// The client closes a job, whatever its stage.
    pub fn close_job(state: &mut RegistryState, job_id: u64, caller: Address) -> (result: Result<
        (),
        JobRegistryError,
    >)
        ensures
            match old(state)@.close_job_refusal(job_id, caller@) {
                Some(e) => result == Err::<(), JobRegistryError>(e)
                    && final(state)@ == old(state)@,
                None => result is Ok && final(state)@ == old(state)@.with_status(
                    job_id,
                    JobStatus::Closed,
                ),
            },
    {
        if let Err(e) = require_not_reentrant(state) {
            return Err(e);
        }
        assert((RegistryView { locked: false, ..state@ }) =~= old(state)@);
        if let Some(e) = Self::closing_refusal(state, job_id, &caller) {
            release_lock(state);
            return Err(e);
        }
        Self::set_status(state, job_id, JobStatus::Closed);
        release_lock(state);
        Ok(())
    }

    /// The client closes a job that has run out, whatever its stage.
    pub fn cancel_expired_job(
        state: &mut RegistryState,
        job_id: u64,
        caller: Address,
        now: u64,
    ) -> (result: Result<(), JobRegistryError>)
        ensures
            match old(state)@.cancel_expired_job_refusal(job_id, caller@, now) {
                Some(e) => result == Err::<(), JobRegistryError>(e)
                    && final(state)@ == old(state)@,
                None => result is Ok && final(state)@ == old(state)@.with_status(
                    job_id,
                    JobStatus::Closed,
                ),
            },
    {
        let job = match state.job(job_id) {
            Some(job) => job,
            None => {
                return Err(JobRegistryError::JobNotFound);
            },
        };
        if now <= job.expires_at || job.expires_at == 0 {
            return Err(JobRegistryError::InvalidStateTransition);
        }
        if caller != job.client {
            return Err(JobRegistryError::Unauthorized);
        }
        Self::set_status(state, job_id, JobStatus::Closed);
        Ok(())
    }

    /// Writes a job as it is posted: open and without a freelancer.
    fn write_job(
        state: &mut RegistryState,
        job_id: u64,
        client: Address,
        metadata_hash: Bytes,
        budget_stroops: i128,
        bidding_deadline: u64,
        expires_at: u64,
    )
        ensures
            final(state)@ == old(state)@.with_job(
                job_id,
                JobView::posted(
                    client@,
                    bytes_held(metadata_hash),
                    budget_stroops,
                    bidding_deadline,
                    expires_at,
                ),
            ),
    {
        let job = JobRecord {
            client,
            freelancer: None,
            metadata_hash,
            budget_stroops,
            status: JobStatus::Open,
            bidding_deadline,
            expires_at,
        };
        state.put_job(job_id, job);
    }

    /// Why a job is not posted under a chosen number; of several reasons the first.
    pub fn posting_refusal(
        state: &RegistryState,
        job_id: u64,
        metadata_hash: &Bytes,
        budget_stroops: i128,
    ) -> (refusal: Option<JobRegistryError>)
        ensures
            refusal == state@.post_job_refusal(
                job_id,
                bytes_held(*metadata_hash),
                budget_stroops,
            ),
    {
        if job_id == 0 {
            return Some(JobRegistryError::InvalidJobId);
        }
        if budget_stroops <= 0 {
            return Some(JobRegistryError::InvalidBudget);
        }
        if !hash_is_valid(metadata_hash) {
            return Some(JobRegistryError::InvalidHash);
        }
        if state.has(&DataKey::Job(job_id)) {
            return Some(JobRegistryError::JobAlreadyExists);
        }
        None
    }

    /// Why a job is not posted under the next number; of several reasons the first.
    pub fn auto_posting_refusal(
        state: &RegistryState,
        metadata_hash: &Bytes,
        budget_stroops: i128,
    ) -> (refusal: Option<JobRegistryError>)
        ensures
            refusal == state@.post_job_auto_refusal(bytes_held(*metadata_hash), budget_stroops),
    {
        if budget_stroops <= 0 {
            return Some(JobRegistryError::InvalidBudget);
        }
        if !hash_is_valid(metadata_hash) {
            return Some(JobRegistryError::InvalidHash);
        }
        None
    }

    /// A client posts a job under a number of their choice.
    ///
    /// The largest number cannot be posted under: there is none to follow it.
    pub fn post_job(
        state: &mut RegistryState,
        job_id: u64,
        client: Address,
        metadata_hash: Bytes,
        budget_stroops: i128,
        bidding_deadline: u64,
        expires_at: u64,
    ) -> (result: Result<(), JobRegistryError>)
        requires
            job_id < u64::MAX || old(state)@.post_job_refusal(
                job_id,
                bytes_held(metadata_hash),
                budget_stroops,
            ) is Some,
        ensures
            match old(state)@.post_job_refusal(
                job_id,
                bytes_held(metadata_hash),
                budget_stroops,
            ) {
                Some(e) => result == Err::<(), JobRegistryError>(e)
                    && final(state)@ == old(state)@,
                None => result is Ok && final(state)@ == old(state)@.after_posted(
                    job_id,
                    JobView::posted(
                        client@,
                        bytes_held(metadata_hash),
                        budget_stroops,
                        bidding_deadline,
                        expires_at,
                    ),
                ),
            },
    {
        if let Some(e) = Self::posting_refusal(state, job_id, &metadata_hash, budget_stroops) {
            return Err(e);
        }
        Self::write_job(
            state,
            job_id,
            client,
            metadata_hash,
            budget_stroops,
            bidding_deadline,
            expires_at,
        );
        if job_id >= state.next_id() {
            state.next_job_id = Some(job_id + 1);
        }
        Ok(())
    }

    /// A client posts a job under the next number, which is returned.
    ///
    /// The largest number cannot be posted under: there is none to follow it.
    pub fn post_job_auto(
        state: &mut RegistryState,
        client: Address,
        metadata_hash: Bytes,
        budget_stroops: i128,
        bidding_deadline: u64,
        expires_at: u64,
    ) -> (result: Result<u64, JobRegistryError>)
        requires
            old(state)@.next_id() < u64::MAX || old(state)@.post_job_auto_refusal(
                bytes_held(metadata_hash),
                budget_stroops,
            ) is Some,
        ensures
            match old(state)@.post_job_auto_refusal(bytes_held(metadata_hash), budget_stroops) {
                Some(e) => result == Err::<u64, JobRegistryError>(e)
                    && final(state)@ == old(state)@,
                None => result == Ok::<u64, JobRegistryError>(old(state)@.next_id())
                    && final(state)@ == old(state)@.after_posted_auto(
                    JobView::posted(
                        client@,
                        bytes_held(metadata_hash),
                        budget_stroops,
                        bidding_deadline,
                        expires_at,
                    ),
                ),
            },
    {
        if let Some(e) = Self::auto_posting_refusal(state, &metadata_hash, budget_stroops) {
            return Err(e);
        }
        let job_id = state.next_id();
        state.next_job_id = Some(job_id + 1);
        Self::write_job(
            state,
            job_id,
            client,
            metadata_hash,
            budget_stroops,
            bidding_deadline,
            expires_at,
        );
        Ok(job_id)
    }

    /// Names the administrator, once.
    pub fn initialize(state: &mut RegistryState, admin: Address) -> (result: Result<
        (),
        JobRegistryError,
    >)
        ensures
            match old(state)@.initialize_refusal() {
                Some(e) => result == Err::<(), JobRegistryError>(e)
                    && final(state)@ == old(state)@,
                None => result is Ok && final(state)@ == old(state)@.after_initialized(admin@),
            },
    {
        if state.has(&DataKey::Admin) {
            return Err(JobRegistryError::AlreadyInitialized);
        }
        state.admin = Some(admin);
        state.next_job_id = Some(1);
        Ok(())
    }

    /// The administrator names who may upgrade the contract.
    pub fn set_upgrade_admin(state: &mut RegistryState, caller: Address, new: Address) -> (result:
        Result<(), JobRegistryError>)
        requires
            old(state)@.admin is Some,
        ensures
            match old(state)@.set_upgrade_admin_refusal(caller@) {
                Some(e) => result == Err::<(), JobRegistryError>(e)
                    && final(state)@ == old(state)@,
                None => result is Ok && final(state)@ == old(state)@.after_upgrade_admin(new@),
            },
    {
        if let Some(admin) = state.admin {
            if caller != admin {
                return Err(JobRegistryError::Unauthorized);
            }
        }
        state.upgrade_admin = Some(new);
        Ok(())
    }

    /// Who may upgrade the contract.
    pub fn get_upgrade_admin(state: &RegistryState) -> (admin: Option<Address>)
        ensures
            optional_address(admin) == state@.upgrade_admin,
    {
        state.upgrade_admin
    }

    /// Whoever may upgrade the contract does so. On success the hash of the code to
    /// install is returned.
    pub fn upgrade(state: &RegistryState, caller: Address, new_wasm_hash: [u8; 32]) -> (result:
        Result<[u8; 32], JobRegistryError>)
        requires
            state@.upgrade_admin is Some,
        ensures
            result == (if state@.upgrade_admin == Some(caller@) {
                Ok::<[u8; 32], JobRegistryError>(new_wasm_hash)
            } else {
                Err(JobRegistryError::Unauthorized)
            }),
    {
        if let Some(upgrade_admin) = state.upgrade_admin {
            if caller != upgrade_admin {
                return Err(JobRegistryError::Unauthorized);
            }
        }
        Ok(new_wasm_hash)
    }

    /// The job under a number.
    pub fn get_job(state: &RegistryState, job_id: u64) -> (result: Result<
        JobRecord,
        JobRegistryError,
    >)
        ensures
            if state@.jobs.contains_key(job_id) {
                result matches Ok(job) && job@ == state@.jobs[job_id]
            } else {
                result == Err::<JobRecord, JobRegistryError>(JobRegistryError::JobNotFound)
            },
    {
        match state.job(job_id) {
            Some(job) => Ok(job.clone()),
            None => Err(JobRegistryError::JobNotFound),
        }
    }

    /// The stage of the job under a number.
    pub fn get_job_status(state: &RegistryState, job_id: u64) -> (result: Result<
        JobStatus,
        JobRegistryError,
    >)
        ensures
            result == (if state@.jobs.contains_key(job_id) {
                Ok(state@.jobs[job_id].status)
            } else {
                Err(JobRegistryError::JobNotFound)
            }),
    {
        match Self::get_job(state, job_id) {
            Ok(job) => Ok(job.status),
            Err(e) => Err(e),
        }
    }

    /// The bids on a job, in the order in which they came in.
    pub fn get_bids(env: &Env, state: &RegistryState, job_id: u64) -> (result: Result<
        BidList,
        JobRegistryError,
    >)
        ensures
            if state@.jobs.contains_key(job_id) {
                result matches Ok(bids) && bids@ == state@.bids_on(job_id)
            } else {
                result == Err::<BidList, JobRegistryError>(JobRegistryError::JobNotFound)
            },
    {
        if let Err(e) = Self::get_job(state, job_id) {
            return Err(e);
        }
        match state.bid_list(job_id) {
            Some(bids) => Ok(bids.clone()),
            None => Ok(BidList::new(env)),
        }
    }

    /// The bid on a job at a position.
    pub fn get_bid_at(env: &Env, state: &RegistryState, job_id: u64, index: u32) -> (result: Result<
        BidRecord,
        JobRegistryError,
    >)
        ensures
            if !state@.jobs.contains_key(job_id) {
                result == Err::<BidRecord, JobRegistryError>(JobRegistryError::JobNotFound)
            } else if index >= state@.bids_on(job_id).len() {
                result == Err::<BidRecord, JobRegistryError>(
                    JobRegistryError::BidIndexOutOfBounds,
                )
            } else {
                result matches Ok(bid) && bid@ == state@.bids_on(job_id)[index as int]
            },
    {
        let bids = match Self::get_bids(env, state, job_id) {
            Ok(bids) => bids,
            Err(e) => {
                return Err(e);
            },
        };
        match bids.get(index) {
            Some(bid) => Ok(bid),
            None => Err(JobRegistryError::BidIndexOutOfBounds),
        }
    }

    /// The number of bids on a job.
    pub fn get_bids_count(env: &Env, state: &RegistryState, job_id: u64) -> (result: Result<
        u32,
        JobRegistryError,
    >)
        ensures
            if state@.jobs.contains_key(job_id) {
                result matches Ok(n) && n as nat == state@.bids_on(job_id).len()
            } else {
                result == Err::<u32, JobRegistryError>(JobRegistryError::JobNotFound)
            },
    {
        match Self::get_bids(env, state, job_id) {
            Ok(bids) => Ok(bids.len()),
            Err(e) => Err(e),
        }
    }

    /// The bids on a job from a position on, at most `limit` of them.
    pub fn get_bids_page(
        env: &Env,
        state: &RegistryState,
        job_id: u64,
        offset: u32,
        limit: u32,
    ) -> (result: Result<BidList, JobRegistryError>)
        requires
            state@.jobs.contains_key(job_id) ==> offset + limit <= u32::MAX,
        ensures
            if state@.jobs.contains_key(job_id) {
                result matches Ok(page) && page@ == page_of(
                    state@.bids_on(job_id),
                    offset,
                    limit,
                )
            } else {
                result == Err::<BidList, JobRegistryError>(JobRegistryError::JobNotFound)
            },
    {
        let bids = match Self::get_bids(env, state, job_id) {
            Ok(bids) => bids,
            Err(e) => {
                return Err(e);
            },
        };
        let n = bids.len();
        let end = if offset + limit <= n {
            offset + limit
        } else {
            n
        };
        let mut page = BidList::new(env);
        if offset >= n {
            return Ok(page);
        }
        let mut i: u32 = offset;
        while i < end
            invariant
                offset <= i <= end <= n,
                n as nat == bids@.len(),
                page@ == bids@.subrange(offset as int, i as int),
            decreases end - i,
        {
            if let Some(bid) = bids.get(i) {
                page.push_back(bid);
            }
            i += 1;
            assert(page@ =~= bids@.subrange(offset as int, i as int));
        }
        Ok(page)
    }
}

} // verus!
