//! The registry's ledger entries and what they stand for.
use crate::address::{optional_address, Address};
use crate::records::{BidList, BidView, DataKey, JobRecord, JobStatus, JobView};
use std::collections::HashMap;
use vstd::prelude::*;

verus! {

broadcast use vstd::std_specs::hash::group_hash_axioms;

/// The entries of the ledger that a request reads and writes. An entry that the
/// ledger lacks is absent here too.
pub struct RegistryState {
    pub admin: Option<Address>,
    pub locked: bool,
    pub upgrade_admin: Option<Address>,
    pub next_job_id: Option<u64>,
    pub jobs: HashMap<u64, JobRecord>,
    pub bids: HashMap<u64, BidList>,
}

/// What a [`RegistryState`] stands for.
#[verifier::ext_equal]
pub struct RegistryView {
    pub admin: Option<Seq<u8>>,
    pub locked: bool,
    pub upgrade_admin: Option<Seq<u8>>,
    pub next_job_id: Option<u64>,
    pub jobs: Map<u64, JobView>,
    pub bids: Map<u64, Seq<BidView>>,
}

impl View for RegistryState {
    type V = RegistryView;

    open spec fn view(&self) -> RegistryView {
        RegistryView {
            admin: optional_address(self.admin),
            locked: self.locked,
            upgrade_admin: optional_address(self.upgrade_admin),
            next_job_id: self.next_job_id,
            jobs: self.jobs@.map_values(|job: JobRecord| job@),
            bids: self.bids@.map_values(|list: BidList| list@),
        }
    }
}

impl RegistryView {
    /// The ledger before the first request.
    pub open spec fn empty() -> Self {
        RegistryView {
            admin: None,
            locked: false,
            upgrade_admin: None,
            next_job_id: None,
            jobs: Map::empty(),
            bids: Map::empty(),
        }
    }

    /// Whether the ledger has an entry under a key.
    pub open spec fn has(self, key: DataKey) -> bool {
        match key {
            DataKey::Admin => self.admin is Some,
            DataKey::Locked => self.locked,
            DataKey::UpgradeAdmin => self.upgrade_admin is Some,
            DataKey::Job(id) => self.jobs.contains_key(id),
            DataKey::Bids(id) => self.bids.contains_key(id),
            DataKey::NextJobId => self.next_job_id is Some,
        }
    }

    /// The number that the next automatically numbered job gets.
    pub open spec fn next_id(self) -> u64 {
        match self.next_job_id {
            Some(id) => id,
            None => 1,
        }
    }

    /// The bids on a job. A job without an entry has none.
    pub open spec fn bids_on(self, job_id: u64) -> Seq<BidView> {
        if self.bids.contains_key(job_id) {
            self.bids[job_id]
        } else {
            Seq::empty()
        }
    }

    /// The ledger with one job replaced or added.
    pub open spec fn with_job(self, job_id: u64, job: JobView) -> Self {
        RegistryView { jobs: self.jobs.insert(job_id, job), ..self }
    }

    /// The ledger with one job moved to another stage.
    pub open spec fn with_status(self, job_id: u64, status: JobStatus) -> Self {
        self.with_job(job_id, JobView { status, ..self.jobs[job_id] })
    }

    /// The ledger with the bids on one job replaced.
    pub open spec fn with_bids(self, job_id: u64, list: Seq<BidView>) -> Self {
        RegistryView { bids: self.bids.insert(job_id, list), ..self }
    }
}

impl RegistryState {
    /// The ledger before the first request.
    pub fn new() -> (state: Self)
        ensures
            state@ == RegistryView::empty(),
    {
        let state = RegistryState {
            admin: None,
            locked: false,
            upgrade_admin: None,
            next_job_id: None,
            jobs: HashMap::new(),
            bids: HashMap::new(),
        };
        assert(state@ =~= RegistryView::empty());
        state
    }

    /// Whether the ledger has an entry under a key.
    pub fn has(&self, key: &DataKey) -> (present: bool)
        ensures
            present == self@.has(*key),
    {
        match key {
            DataKey::Admin => self.admin.is_some(),
            DataKey::Locked => self.locked,
            DataKey::UpgradeAdmin => self.upgrade_admin.is_some(),
            DataKey::Job(id) => self.jobs.contains_key(id),
            DataKey::Bids(id) => self.bids.contains_key(id),
            DataKey::NextJobId => self.next_job_id.is_some(),
        }
    }

    /// The number that the next automatically numbered job gets.
    pub fn next_id(&self) -> (id: u64)
        ensures
            id == self@.next_id(),
    {
        match self.next_job_id {
            Some(id) => id,
            None => 1,
        }
    }

    /// The job under a number.
    pub fn job(&self, job_id: u64) -> (job: Option<&JobRecord>)
        ensures
            job is Some <==> self@.jobs.contains_key(job_id),
            job matches Some(j) ==> j@ == self@.jobs[job_id],
    {
        self.jobs.get(&job_id)
    }

    /// The list of bids on a job, where the ledger has one.
    pub fn bid_list(&self, job_id: u64) -> (list: Option<&BidList>)
        ensures
            list is Some <==> self@.bids.contains_key(job_id),
            list matches Some(l) ==> l@ == self@.bids[job_id],
    {
        self.bids.get(&job_id)
    }

    /// Writes a job.
    pub fn put_job(&mut self, job_id: u64, job: JobRecord)
        ensures
            final(self)@ == old(self)@.with_job(job_id, job@),
    {
        self.jobs.insert(job_id, job);
        assert(self@ =~= old(self)@.with_job(job_id, job@));
    }

    /// Writes the list of bids on a job.
    pub fn put_bids(&mut self, job_id: u64, list: BidList)
        ensures
            final(self)@ == old(self)@.with_bids(job_id, list@),
    {
        self.bids.insert(job_id, list);
        assert(self@ =~= old(self)@.with_bids(job_id, list@));
    }
}

} // verus!
