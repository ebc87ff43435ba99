//! What each request comes to, told by its arguments, its answer and the ledger before and
//! after it.
//!
//! Every law here speaks of a call: `call_ensures` of the function, its arguments and its
//! answer says that the call, made with these arguments, may give this answer.
use crate::address::{optional_address, Address};
use crate::host::bytes_held;
use crate::records::{
    BidAcceptedEvent, BidList, BidRecord, BidSubmittedEvent, BidView, DataKey, JobRecord,
    JobRegistryError, JobStatus, JobView,
};
use crate::registry::{
    hash_is_valid, release_lock, require_not_reentrant, without_bids_of, JobRegistryContract,
};
use crate::state::{RegistryState, RegistryView};
use soroban_sdk::{Bytes, Env};
use vstd::prelude::*;

verus! {

/// Whether two ledgers differ at most in one job and in the next automatic number.
pub open spec fn differ_in_posting(before: RegistryView, after: RegistryView, id: u64) -> bool {
    &&& after.admin == before.admin
    &&& after.upgrade_admin == before.upgrade_admin
    &&& after.locked == before.locked
    &&& after.bids == before.bids
    &&& after.jobs.remove(id) == before.jobs.remove(id)
}

/// Whether two ledgers differ at most in one job.
pub open spec fn differ_in_job(before: RegistryView, after: RegistryView, id: u64) -> bool {
    &&& differ_in_posting(before, after, id)
    &&& after.next_job_id == before.next_job_id
}

/// Whether two ledgers differ at most in the stage of one job.
pub open spec fn differ_in_stage(before: RegistryView, after: RegistryView, id: u64) -> bool {
    &&& differ_in_job(before, after, id)
    &&& after.jobs.contains_key(id) == before.jobs.contains_key(id)
    &&& after.jobs[id].client == before.jobs[id].client
    &&& after.jobs[id].freelancer == before.jobs[id].freelancer
    &&& after.jobs[id].metadata_hash == before.jobs[id].metadata_hash
    &&& after.jobs[id].budget_stroops == before.jobs[id].budget_stroops
    &&& after.jobs[id].bidding_deadline == before.jobs[id].bidding_deadline
    &&& after.jobs[id].expires_at == before.jobs[id].expires_at
}

/// Whether two ledgers differ at most in the bids on one job.
pub open spec fn differ_in_bids(before: RegistryView, after: RegistryView, id: u64) -> bool {
    &&& after.admin == before.admin
    &&& after.upgrade_admin == before.upgrade_admin
    &&& after.locked == before.locked
    &&& after.next_job_id == before.next_job_id
    &&& after.jobs == before.jobs
    &&& after.bids.remove(id) == before.bids.remove(id)
}

/// Whether a job takes bids at a moment: it is there and open, and its deadline is zero or
/// not passed.
pub open spec fn takes_bids(s: RegistryView, job_id: u64, now: u64) -> bool {
    &&& s.jobs.contains_key(job_id)
    &&& s.jobs[job_id].status == JobStatus::Open
    &&& s.jobs[job_id].bidding_deadline == 0 || now <= s.jobs[job_id].bidding_deadline
}

/// What the ledger entries stand for is what they hold.
pub proof fn law_ledger_shows_its_entries(state: RegistryState, id: u64)
    ensures
        state.admin matches Some(a) ==> state@.admin == Some(a.strkey@),
        state.admin is None ==> state@.admin is None,
        state.upgrade_admin matches Some(a) ==> state@.upgrade_admin == Some(a.strkey@),
        state.upgrade_admin is None ==> state@.upgrade_admin is None,
        state@.locked == state.locked,
        state@.next_job_id == state.next_job_id,
        state@.jobs.contains_key(id) == state.jobs@.contains_key(id),
        state.jobs@.contains_key(id) ==> state@.jobs[id] == state.jobs@[id]@,
        state@.bids.contains_key(id) == state.bids@.contains_key(id),
        state.bids@.contains_key(id) ==> state@.bids[id] == state.bids@[id]@,
{
}

/// What a record stands for is what its fields hold, one by one.
pub proof fn law_records_show_their_fields(job: JobRecord, bid: BidRecord)
    ensures
        job@.client == job.client.strkey@,
        job.freelancer matches Some(f) ==> job@.freelancer == Some(f.strkey@),
        job.freelancer is None ==> job@.freelancer is None,
        job@.metadata_hash == bytes_held(job.metadata_hash),
        job@.budget_stroops == job.budget_stroops,
        job@.status == job.status,
        job@.bidding_deadline == job.bidding_deadline,
        job@.expires_at == job.expires_at,
        bid@.freelancer == bid.freelancer.strkey@,
        bid@.proposal_hash == bytes_held(bid.proposal_hash),
{
}

/// Two addresses are the same where they agree in each of the 56 letters, and differ where
/// one letter differs.
pub proof fn law_addresses_are_compared_letter_by_letter(a: Address, b: Address, same: bool)
    requires
        call_ensures(<Address as PartialEq>::eq, (&a, &b), same),
    ensures
        same <==> forall|i: int| 0 <= i < 56 ==> #[trigger] a.strkey@[i] == b.strkey@[i],
{
    if forall|i: int| 0 <= i < 56 ==> #[trigger] a.strkey@[i] == b.strkey@[i] {
        assert(a@ =~= b@);
    }
}

/// The bids on a job are those of its entry, and none where it has no entry.
pub proof fn law_bids_on_are_those_of_the_entry(s: RegistryView, id: u64)
    ensures
        s.bids.contains_key(id) ==> s.bids_on(id) == s.bids[id],
        !s.bids.contains_key(id) ==> s.bids_on(id).len() == 0,
{
}

/// A ledger starts without entries.
pub proof fn law_new_ledger_is_bare(state: RegistryState, key: DataKey, present: bool)
    requires
        call_ensures(RegistryState::new, (), state),
        call_ensures(RegistryState::has, (&state, &key), present),
    ensures
        !present,
        state@.admin is None && state@.upgrade_admin is None && !state@.locked,
        state@.next_job_id is None,
        state@.jobs.dom() =~= Set::<u64>::empty(),
        state@.bids.dom() =~= Set::<u64>::empty(),
{
}

/// A key is present where its entry is.
pub proof fn law_keys_are_present_with_their_entries(
    state: RegistryState,
    key: DataKey,
    present: bool,
)
    requires
        call_ensures(RegistryState::has, (&state, &key), present),
    ensures
        key == DataKey::Admin ==> present == state@.admin is Some,
        key == DataKey::Locked ==> present == state@.locked,
        key == DataKey::UpgradeAdmin ==> present == state@.upgrade_admin is Some,
        key == DataKey::NextJobId ==> present == state@.next_job_id is Some,
        forall|id: u64| key == DataKey::Job(id) ==> present == state@.jobs.contains_key(id),
        forall|id: u64| key == DataKey::Bids(id) ==> present == state@.bids.contains_key(id),
{
}

/// The next automatic number is the one kept, and one where none is kept.
pub proof fn law_next_number_is_the_one_kept(state: RegistryState, id: u64)
    requires
        call_ensures(RegistryState::next_id, (&state,), id),
    ensures
        state@.next_job_id is Some ==> state@.next_job_id == Some(id),
        state@.next_job_id is None ==> id == 1,
        state@.next_id() == id,
{
}

/// A job that was written is read under its number, and other numbers read as before.
pub proof fn law_written_job_is_read(
    state: &mut RegistryState,
    job_id: u64,
    job: JobRecord,
    later: &RegistryState,
    other: u64,
    read: Option<&JobRecord>,
)
    requires
        call_ensures(RegistryState::put_job, (state, job_id, job), ()),
        call_ensures(RegistryState::job, (later, other), read),
    ensures
        differ_in_job(old(state)@, final(state)@, job_id),
        later@ == final(state)@ && other == job_id ==> (read matches Some(j) && j@ == job@),
        later@ == final(state)@ && other != job_id ==> {
            &&& read is Some <==> old(state)@.jobs.contains_key(other)
            &&& read matches Some(j) ==> j@ == old(state)@.jobs[other]
        },
{
    assert(final(state)@.jobs.remove(job_id) =~= old(state)@.jobs.remove(job_id));
}

/// A list of bids that was written is read under its job's number, and other numbers read
/// as before.
pub proof fn law_written_bids_are_read(
    state: &mut RegistryState,
    job_id: u64,
    list: BidList,
    later: &RegistryState,
    other: u64,
    read: Option<&BidList>,
)
    requires
        call_ensures(RegistryState::put_bids, (state, job_id, list), ()),
        call_ensures(RegistryState::bid_list, (later, other), read),
    ensures
        differ_in_bids(old(state)@, final(state)@, job_id),
        later@ == final(state)@ && other == job_id ==> (read matches Some(l) && l@ == list@),
        later@ == final(state)@ && other != job_id ==> {
            &&& read is Some <==> old(state)@.bids.contains_key(other)
            &&& read matches Some(l) ==> l@ == old(state)@.bids[other]
        },
{
    assert(final(state)@.bids.remove(job_id) =~= old(state)@.bids.remove(job_id));
}

/// A bid put into a list is read at the end of it, and the earlier ones where they were.
pub proof fn law_bid_put_in_is_read(
    list: &mut BidList,
    bid: BidRecord,
    later: &BidList,
    n: u32,
    i: u32,
    read: Option<BidRecord>,
)
    requires
        call_ensures(BidList::push_back, (list, bid), ()),
        call_ensures(BidList::len, (later,), n),
        call_ensures(BidList::get, (later, i), read),
    ensures
        later@ == final(list)@ ==> {
            &&& n == old(list)@.len() + 1
            &&& read is Some <==> i < n
            &&& i + 1 == n ==> (read matches Some(b) && b@.freelancer == bid.freelancer@
                && b@.proposal_hash == bytes_held(bid.proposal_hash))
            &&& i + 1 < n ==> (read matches Some(b) && b@ == old(list)@[i as int])
        },
{
}

/// A content hash has one to 64 bytes, whatever they are.
pub proof fn law_hashes_have_one_to_sixty_four_bytes(h: &Bytes, valid: bool)
    requires
        call_ensures(hash_is_valid, (h,), valid),
    ensures
        valid <==> 1 <= bytes_held(*h).len() <= 64,
{
}

/// The lock is taken where it is free and refused where it is held, and what is given back
/// can be taken again; nothing else changes.
pub proof fn law_lock_is_taken_and_given_back(
    state: &mut RegistryState,
    result: Result<(), JobRegistryError>,
    held: &mut RegistryState,
)
    requires
        call_ensures(require_not_reentrant, (state,), result),
        call_ensures(release_lock, (held,), ()),
    ensures
        result is Ok <==> !old(state)@.locked,
        result matches Err(e) ==> e == JobRegistryError::ReentrancyDetected && final(state)@
            == old(state)@,
        result is Ok ==> final(state)@.locked,
        result is Ok && old(held)@ == final(state)@ ==> final(held)@ == old(state)@,
        !final(held)@.locked,
        final(held)@.jobs == old(held)@.jobs && final(held)@.bids == old(held)@.bids,
        final(held)@.admin == old(held)@.admin,
        final(held)@.upgrade_admin == old(held)@.upgrade_admin,
        final(held)@.next_job_id == old(held)@.next_job_id,
{
}

/// An administrator is named where there is none yet, whoever it is. The automatic numbers
/// then start at one, and nothing else changes.
pub proof fn law_naming_the_administrator(
    state: &mut RegistryState,
    admin: Address,
    result: Result<(), JobRegistryError>,
)
    requires
        call_ensures(JobRegistryContract::initialize, (state, admin), result),
    ensures
        result is Ok <==> old(state)@.admin is None,
        result matches Err(e) ==> e == JobRegistryError::AlreadyInitialized && final(state)@
            == old(state)@,
        result is Ok ==> {
            &&& final(state)@.admin == Some(admin@)
            &&& final(state)@.next_job_id == Some(1u64)
            &&& final(state)@.upgrade_admin == old(state)@.upgrade_admin
            &&& final(state)@.locked == old(state)@.locked
            &&& final(state)@.jobs == old(state)@.jobs
            &&& final(state)@.bids == old(state)@.bids
        },
{
}

/// The administrator, and nobody else, names who upgrades, as often as they like. Nothing
/// else changes.
pub proof fn law_naming_who_upgrades(
    state: &mut RegistryState,
    caller: Address,
    new: Address,
    result: Result<(), JobRegistryError>,
)
    requires
        call_ensures(JobRegistryContract::set_upgrade_admin, (state, caller, new), result),
    ensures
        result is Ok <==> old(state)@.admin == Some(caller@),
        result matches Err(e) ==> e == JobRegistryError::Unauthorized && final(state)@
            == old(state)@,
        result is Ok ==> {
            &&& final(state)@.upgrade_admin == Some(new@)
            &&& final(state)@.admin == old(state)@.admin
            &&& final(state)@.next_job_id == old(state)@.next_job_id
            &&& final(state)@.locked == old(state)@.locked
            &&& final(state)@.jobs == old(state)@.jobs
            &&& final(state)@.bids == old(state)@.bids
        },
{
}

/// Who upgrades is who was named last, and nobody else: their upgrade installs the code
/// that they ask for.
pub proof fn law_who_was_named_upgrades(
    state: &mut RegistryState,
    admin: Address,
    new: Address,
    named: Result<(), JobRegistryError>,
    later: &RegistryState,
    shown: Option<Address>,
    caller: Address,
    new_wasm_hash: [u8; 32],
    result: Result<[u8; 32], JobRegistryError>,
)
    requires
        call_ensures(JobRegistryContract::set_upgrade_admin, (state, admin, new), named),
        call_ensures(JobRegistryContract::get_upgrade_admin, (later,), shown),
        call_ensures(JobRegistryContract::upgrade, (later, caller, new_wasm_hash), result),
    ensures
        shown is Some <==> later@.upgrade_admin is Some,
        shown matches Some(a) ==> later@.upgrade_admin == Some(a@),
        result is Ok <==> later@.upgrade_admin == Some(caller@),
        result matches Ok(code) ==> code == new_wasm_hash,
        result matches Err(e) ==> e == JobRegistryError::Unauthorized,
        named is Ok && later@ == final(state)@ ==> (result is Ok <==> caller@ == new@),
{
}

/// A job can be posted under every number but zero that no job has, with a budget above
/// zero and a content hash, whoever posts it and whatever the deadline and the expiry.
pub proof fn law_posting_goes_through(
    state: &mut RegistryState,
    job_id: u64,
    client: Address,
    metadata_hash: Bytes,
    budget_stroops: i128,
    bidding_deadline: u64,
    expires_at: u64,
    result: Result<(), JobRegistryError>,
)
    requires
        call_ensures(
            JobRegistryContract::post_job,
            (
                state,
                job_id,
                client,
                metadata_hash,
                budget_stroops,
                bidding_deadline,
                expires_at,
            ),
            result,
        ),
    ensures
        ({
            let taken = old(state)@.jobs.contains_key(job_id);
            let hash_ok = 1 <= bytes_held(metadata_hash).len() <= 64;
            &&& result is Ok <==> job_id > 0 && budget_stroops > 0 && hash_ok && !taken
            &&& result == Err::<(), JobRegistryError>(JobRegistryError::InvalidJobId) <==> job_id
                == 0
            &&& result == Err::<(), JobRegistryError>(JobRegistryError::InvalidBudget) <==> job_id
                > 0 && budget_stroops <= 0
            &&& result == Err::<(), JobRegistryError>(JobRegistryError::InvalidHash) <==> job_id
                > 0 && budget_stroops > 0 && !hash_ok
            &&& result == Err::<(), JobRegistryError>(JobRegistryError::JobAlreadyExists) <==> (
            job_id > 0 && budget_stroops > 0 && hash_ok && taken)
            &&& result is Err ==> final(state)@ == old(state)@
        }),
{
}

/// A posted job is kept as it was given, field by field, open and without a freelancer.
/// The next automatic number is then the old one or the one behind the new job, whichever
/// is larger, and nothing else changes.
pub proof fn law_posted_job_is_kept_as_given(
    state: &mut RegistryState,
    job_id: u64,
    client: Address,
    metadata_hash: Bytes,
    budget_stroops: i128,
    bidding_deadline: u64,
    expires_at: u64,
    result: Result<(), JobRegistryError>,
)
    requires
        call_ensures(
            JobRegistryContract::post_job,
            (
                state,
                job_id,
                client,
                metadata_hash,
                budget_stroops,
                bidding_deadline,
                expires_at,
            ),
            result,
        ),
        job_id < u64::MAX,
        result is Ok,
    ensures
        final(state)@.jobs.contains_key(job_id),
        final(state)@.jobs[job_id].client == client@,
        final(state)@.jobs[job_id].metadata_hash == bytes_held(metadata_hash),
        final(state)@.jobs[job_id].budget_stroops == budget_stroops,
        final(state)@.jobs[job_id].bidding_deadline == bidding_deadline,
        final(state)@.jobs[job_id].expires_at == expires_at,
        final(state)@.jobs[job_id].status == JobStatus::Open,
        final(state)@.jobs[job_id].freelancer is None,
        final(state)@.next_id() > job_id,
        final(state)@.next_id() >= old(state)@.next_id(),
        final(state)@.next_id() == job_id + 1 || final(state)@.next_job_id
            == old(state)@.next_job_id,
        differ_in_posting(old(state)@, final(state)@, job_id),
{
    assert(final(state)@.jobs.remove(job_id) =~= old(state)@.jobs.remove(job_id));
}

/// A job can be posted under the next number with a budget above zero and a content hash,
/// whoever posts it and whatever the deadline and the expiry.
pub proof fn law_automatic_posting_goes_through(
    state: &mut RegistryState,
    client: Address,
    metadata_hash: Bytes,
    budget_stroops: i128,
    bidding_deadline: u64,
    expires_at: u64,
    result: Result<u64, JobRegistryError>,
)
    requires
        call_ensures(
            JobRegistryContract::post_job_auto,
            (state, client, metadata_hash, budget_stroops, bidding_deadline, expires_at),
            result,
        ),
    ensures
        ({
            let hash_ok = 1 <= bytes_held(metadata_hash).len() <= 64;
            &&& result is Ok <==> budget_stroops > 0 && hash_ok
            &&& result == Err::<u64, JobRegistryError>(JobRegistryError::InvalidBudget) <==> (
            budget_stroops <= 0)
            &&& result == Err::<u64, JobRegistryError>(JobRegistryError::InvalidHash) <==> (
            budget_stroops > 0 && !hash_ok)
            &&& result is Err ==> final(state)@ == old(state)@
        }),
{
}

/// An automatically numbered job gets the next number and is kept under it as it was given,
/// field by field, open and without a freelancer. The number behind it is next, and nothing
/// else changes.
pub proof fn law_automatically_posted_job_is_kept_as_given(
    state: &mut RegistryState,
    client: Address,
    metadata_hash: Bytes,
    budget_stroops: i128,
    bidding_deadline: u64,
    expires_at: u64,
    result: Result<u64, JobRegistryError>,
)
    requires
        call_ensures(
            JobRegistryContract::post_job_auto,
            (state, client, metadata_hash, budget_stroops, bidding_deadline, expires_at),
            result,
        ),
        state@.next_id() < u64::MAX,
        result is Ok,
    ensures
        result matches Ok(id) && {
            &&& id == old(state)@.next_id()
            &&& final(state)@.jobs.contains_key(id)
            &&& final(state)@.jobs[id].client == client@
            &&& final(state)@.jobs[id].metadata_hash == bytes_held(metadata_hash)
            &&& final(state)@.jobs[id].budget_stroops == budget_stroops
            &&& final(state)@.jobs[id].bidding_deadline == bidding_deadline
            &&& final(state)@.jobs[id].expires_at == expires_at
            &&& final(state)@.jobs[id].status == JobStatus::Open
            &&& final(state)@.jobs[id].freelancer is None
            &&& final(state)@.next_job_id == Some((id + 1) as u64)
            &&& differ_in_posting(old(state)@, final(state)@, id)
        },
{
    let id = old(state)@.next_id();
    assert(final(state)@.jobs.remove(id) =~= old(state)@.jobs.remove(id));
}

/// A posting is refused beforehand for the reason for which it would be refused.
pub proof fn law_postings_are_judged_beforehand(
    state: &RegistryState,
    job_id: u64,
    metadata_hash: &Bytes,
    budget_stroops: i128,
    chosen: Option<JobRegistryError>,
    automatic: Option<JobRegistryError>,
)
    requires
        call_ensures(
            JobRegistryContract::posting_refusal,
            (state, job_id, metadata_hash, budget_stroops),
            chosen,
        ),
        call_ensures(
            JobRegistryContract::auto_posting_refusal,
            (state, metadata_hash, budget_stroops),
            automatic,
        ),
    ensures
        ({
            let taken = state@.jobs.contains_key(job_id);
            let hash_ok = 1 <= bytes_held(*metadata_hash).len() <= 64;
            &&& chosen is None <==> job_id > 0 && budget_stroops > 0 && hash_ok && !taken
            &&& chosen == Some(JobRegistryError::InvalidJobId) <==> job_id == 0
            &&& chosen == Some(JobRegistryError::InvalidBudget) <==> job_id > 0 && budget_stroops
                <= 0
            &&& chosen == Some(JobRegistryError::InvalidHash) <==> job_id > 0 && budget_stroops > 0
                && !hash_ok
            &&& chosen == Some(JobRegistryError::JobAlreadyExists) <==> job_id > 0
                && budget_stroops > 0 && hash_ok && taken
            &&& automatic is None <==> budget_stroops > 0 && hash_ok
            &&& automatic == Some(JobRegistryError::InvalidBudget) <==> budget_stroops <= 0
            &&& automatic == Some(JobRegistryError::InvalidHash) <==> budget_stroops > 0
                && !hash_ok
        }),
{
}

/// A bid comes in where the lock is free, it has a content hash and no negative amount, the
/// job takes bids, and the freelancer has none on it yet. Otherwise it is refused for the
/// first of these that fails, and the ledger stays as it was.
pub proof fn law_bidding_goes_through(
    env: &Env,
    state: &mut RegistryState,
    job_id: u64,
    freelancer: Address,
    proposal_hash: Bytes,
    amount: i128,
    now: u64,
    result: Result<BidSubmittedEvent, JobRegistryError>,
)
    requires
        call_ensures(
            JobRegistryContract::submit_bid,
            (env, state, job_id, freelancer, proposal_hash, amount, now),
            result,
        ),
    ensures
        ({
            let s = old(state)@;
            let hash_ok = 1 <= bytes_held(proposal_hash).len() <= 64;
            let there = s.jobs.contains_key(job_id);
            let open = there && s.jobs[job_id].status == JobStatus::Open;
            let new = forall|i: int|
                0 <= i < s.bids_on(job_id).len() ==> #[trigger] s.bids_on(job_id)[i].freelancer
                    != freelancer@;
            let given = !s.locked && hash_ok && amount >= 0;
            &&& result is Ok <==> given && takes_bids(s, job_id, now) && new
            &&& result matches Err(e) ==> {
                &&& e == JobRegistryError::ReentrancyDetected <==> s.locked
                &&& e == JobRegistryError::InvalidHash <==> !s.locked && !hash_ok
                &&& e == JobRegistryError::InvalidBudget <==> !s.locked && hash_ok && amount < 0
                &&& e == JobRegistryError::JobNotFound <==> given && !there
                &&& e == JobRegistryError::JobNotOpen <==> given && there && !open
                &&& e == JobRegistryError::JobExpired <==> given && open && !takes_bids(
                    s,
                    job_id,
                    now,
                )
                &&& e == JobRegistryError::BidAlreadySubmitted <==> given && takes_bids(
                    s,
                    job_id,
                    now,
                ) && !new
                &&& final(state)@ == s
            }
        }),
{
}

/// A bid that came in stands behind the earlier ones with what it was given, and is
/// announced with what it was given and the moment. Nothing else changes.
pub proof fn law_bid_is_kept_and_announced_as_given(
    env: &Env,
    state: &mut RegistryState,
    job_id: u64,
    freelancer: Address,
    proposal_hash: Bytes,
    amount: i128,
    now: u64,
    result: Result<BidSubmittedEvent, JobRegistryError>,
)
    requires
        call_ensures(
            JobRegistryContract::submit_bid,
            (env, state, job_id, freelancer, proposal_hash, amount, now),
            result,
        ),
        result is Ok,
    ensures
        ({
            let before = old(state)@.bids_on(job_id);
            let after = final(state)@.bids_on(job_id);
            &&& final(state)@.bids.contains_key(job_id)
            &&& after.len() == before.len() + 1
            &&& after.drop_last() == before
            &&& after.last().freelancer == freelancer@
            &&& after.last().proposal_hash == bytes_held(proposal_hash)
            &&& differ_in_bids(old(state)@, final(state)@, job_id)
        }),
        result matches Ok(event) && {
            &&& event.job_id == job_id
            &&& event.freelancer@ == freelancer@
            &&& bytes_held(event.proposal_hash) == bytes_held(proposal_hash)
            &&& event.timestamp == now
        },
{
    assert(final(state)@.bids.remove(job_id) =~= old(state)@.bids.remove(job_id));
    assert(final(state)@.bids_on(job_id).drop_last() =~= old(state)@.bids_on(job_id));
}

/// Past a deadline that is not zero every bid is refused and leaves the ledger as it was;
/// up to it, and where it is zero, none is refused for being late.
pub proof fn law_bids_end_with_the_deadline(
    env: &Env,
    state: &mut RegistryState,
    job_id: u64,
    freelancer: Address,
    proposal_hash: Bytes,
    amount: i128,
    now: u64,
    result: Result<BidSubmittedEvent, JobRegistryError>,
)
    requires
        call_ensures(
            JobRegistryContract::submit_bid,
            (env, state, job_id, freelancer, proposal_hash, amount, now),
            result,
        ),
        state@.jobs.contains_key(job_id),
    ensures
        ({
            let deadline = old(state)@.jobs[job_id].bidding_deadline;
            &&& 0 < deadline < now ==> result is Err && final(state)@ == old(state)@
            &&& deadline == 0 || now <= deadline ==> result
                != Err::<BidSubmittedEvent, JobRegistryError>(JobRegistryError::JobExpired)
        }),
{
}

/// Bidding with a look at the room first answers as bidding does, unless the list of bids
/// is full and nothing else stands against the bid: then nothing is answered and nothing
/// changes.
pub proof fn law_bidding_with_a_look_at_the_room(
    env: &Env,
    state: &mut RegistryState,
    tried: &mut RegistryState,
    job_id: u64,
    freelancer: Address,
    proposal_hash: Bytes,
    amount: i128,
    now: u64,
    result: Result<BidSubmittedEvent, JobRegistryError>,
    looked: Option<Result<BidSubmittedEvent, JobRegistryError>>,
)
    requires
        call_ensures(
            JobRegistryContract::submit_bid,
            (env, state, job_id, freelancer, proposal_hash, amount, now),
            result,
        ),
        call_ensures(
            JobRegistryContract::try_submit_bid,
            (env, tried, job_id, freelancer, proposal_hash, amount, now),
            looked,
        ),
        tried@ == state@,
    ensures
        looked is None <==> result is Ok && old(tried)@.bids_on(job_id).len() == u32::MAX,
        looked is None ==> final(tried)@ == old(tried)@,
        looked matches Some(answer) ==> {
            &&& final(tried)@ == final(state)@
            &&& answer is Ok <==> result is Ok
            &&& answer matches Err(e) ==> result == Err::<BidSubmittedEvent, JobRegistryError>(e)
            &&& answer matches Ok(event) ==> {
                &&& event.job_id == job_id
                &&& event.freelancer@ == freelancer@
                &&& bytes_held(event.proposal_hash) == bytes_held(proposal_hash)
                &&& event.timestamp == now
            }
        },
{
}

/// A freelancer withdraws a bid wherever they have one on an open job and the lock is free,
/// before and after the deadline. Otherwise the withdrawal is refused for the first of
/// these that fails, and the ledger stays as it was.
pub proof fn law_withdrawal_goes_through(
    env: &Env,
    state: &mut RegistryState,
    job_id: u64,
    freelancer: Address,
    result: Result<(), JobRegistryError>,
)
    requires
        call_ensures(
            JobRegistryContract::cancel_bid,
            (env, state, job_id, freelancer),
            result,
        ),
    ensures
        ({
            let s = old(state)@;
            let there = s.jobs.contains_key(job_id);
            let open = there && s.jobs[job_id].status == JobStatus::Open;
            let bid = exists|i: int|
                0 <= i < s.bids_on(job_id).len() && #[trigger] s.bids_on(job_id)[i].freelancer
                    == freelancer@;
            &&& result is Ok <==> !s.locked && open && bid
            &&& result matches Err(e) ==> {
                &&& e == JobRegistryError::ReentrancyDetected <==> s.locked
                &&& e == JobRegistryError::JobNotFound <==> !s.locked && !there
                &&& e == JobRegistryError::JobNotOpen <==> !s.locked && there && !open
                &&& e == JobRegistryError::BidNotFound <==> !s.locked && open && !bid
                &&& final(state)@ == s
            }
        }),
{
}

/// Leaving out a freelancer's bids goes bid by bid: an empty list stays empty, and one more
/// bid at the end is left out if it is theirs and kept as it is, at the end, if it is not.
pub proof fn law_bids_are_left_out_one_by_one(
    bids: Seq<BidView>,
    bid: BidView,
    freelancer: Seq<u8>,
)
    ensures
        without_bids_of(Seq::empty(), freelancer) == Seq::<BidView>::empty(),
        bid.freelancer == freelancer ==> without_bids_of(bids.push(bid), freelancer)
            == without_bids_of(bids, freelancer),
        bid.freelancer != freelancer ==> without_bids_of(bids.push(bid), freelancer)
            == without_bids_of(bids, freelancer).push(bid),
{
    reveal(Seq::filter);
    assert(bids.push(bid).drop_last() =~= bids);
    assert(bids.push(bid).last() == bid);
}

/// Where a freelancer has one bid in a list, the others are the list without it.
proof fn lemma_one_bid_left_out(bids: Seq<BidView>, freelancer: Seq<u8>, i: int)
    requires
        0 <= i < bids.len(),
        bids[i].freelancer == freelancer,
        forall|j: int|
            0 <= j < bids.len() && j != i ==> #[trigger] bids[j].freelancer != freelancer,
    ensures
        without_bids_of(bids, freelancer) == bids.remove(i),
    decreases bids.len(),
{
    let front = bids.drop_last();
    assert(front.push(bids.last()) =~= bids);
    law_bids_are_left_out_one_by_one(front, bids.last(), freelancer);
    if i == bids.len() - 1 {
        lemma_no_bid_left_out(front, freelancer);
        assert(bids.remove(i) =~= front);
    } else {
        assert forall|j: int| 0 <= j < front.len() && j != i implies #[trigger] front[j].freelancer
            != freelancer by {
            assert(bids[j].freelancer != freelancer);
        }
        lemma_one_bid_left_out(front, freelancer, i);
        assert(bids[bids.len() - 1].freelancer != freelancer);
        assert(bids.remove(i) =~= front.remove(i).push(bids.last()));
    }
}

/// Where a freelancer has no bid in a list, all stay.
proof fn lemma_no_bid_left_out(bids: Seq<BidView>, freelancer: Seq<u8>)
    requires
        forall|j: int| 0 <= j < bids.len() ==> #[trigger] bids[j].freelancer != freelancer,
    ensures
        without_bids_of(bids, freelancer) == bids,
    decreases bids.len(),
{
    if bids.len() > 0 {
        let front = bids.drop_last();
        assert(front.push(bids.last()) =~= bids);
        assert forall|j: int| 0 <= j < front.len() implies #[trigger] front[j].freelancer
            != freelancer by {
            assert(bids[j].freelancer != freelancer);
        }
        lemma_no_bid_left_out(front, freelancer);
        law_bids_are_left_out_one_by_one(front, bids.last(), freelancer);
        assert(bids[bids.len() - 1].freelancer != freelancer);
    } else {
        law_bids_are_left_out_one_by_one(bids, BidView { freelancer, proposal_hash: freelancer },
            freelancer);
        assert(bids =~= Seq::<BidView>::empty());
    }
}

/// A withdrawal takes the freelancer's bid out of the list. The other bids stay as they are
/// and in their order, and nothing else changes.
pub proof fn law_withdrawal_takes_the_bid_out(
    env: &Env,
    state: &mut RegistryState,
    job_id: u64,
    freelancer: Address,
    result: Result<(), JobRegistryError>,
    i: int,
)
    requires
        call_ensures(
            JobRegistryContract::cancel_bid,
            (env, state, job_id, freelancer),
            result,
        ),
        result is Ok,
    ensures
        ({
            let before = old(state)@.bids_on(job_id);
            let after = final(state)@.bids_on(job_id);
            &&& final(state)@.bids.contains_key(job_id)
            &&& after == without_bids_of(before, freelancer@)
            &&& 0 <= i < before.len() && before[i].freelancer == freelancer@ && (forall|j: int|
                0 <= j < before.len() && j != i ==> #[trigger] before[j].freelancer != freelancer@)
                ==> after == before.remove(i)
            &&& differ_in_bids(old(state)@, final(state)@, job_id)
        }),
{
    let before = old(state)@.bids_on(job_id);
    assert(final(state)@.bids.remove(job_id) =~= old(state)@.bids.remove(job_id));
    if 0 <= i < before.len() && before[i].freelancer == freelancer@ && (forall|j: int|
        0 <= j < before.len() && j != i ==> #[trigger] before[j].freelancer != freelancer@) {
        lemma_one_bid_left_out(before, freelancer@, i);
    }
}

/// The client's choice goes through where the lock is free, the job takes bids and any one
/// of the bids on it is the freelancer's. Otherwise it is refused for the first of these
/// that fails, and the ledger stays as it was.
pub proof fn law_acceptance_goes_through(
    state: &mut RegistryState,
    job_id: u64,
    caller: Address,
    freelancer: Address,
    now: u64,
    result: Result<BidAcceptedEvent, JobRegistryError>,
)
    requires
        call_ensures(
            JobRegistryContract::accept_bid,
            (state, job_id, caller, freelancer, now),
            result,
        ),
    ensures
        ({
            let s = old(state)@;
            let there = s.jobs.contains_key(job_id);
            let own = there && s.jobs[job_id].client == caller@;
            let open = own && s.jobs[job_id].status == JobStatus::Open;
            let bid = exists|i: int|
                0 <= i < s.bids_on(job_id).len() && #[trigger] s.bids_on(job_id)[i].freelancer
                    == freelancer@;
            &&& result is Ok <==> !s.locked && own && takes_bids(s, job_id, now) && bid
            &&& result matches Err(e) ==> {
                &&& e == JobRegistryError::ReentrancyDetected <==> s.locked
                &&& e == JobRegistryError::JobNotFound <==> !s.locked && !there
                &&& e == JobRegistryError::Unauthorized <==> !s.locked && there && !own
                &&& e == JobRegistryError::JobNotOpen <==> !s.locked && own && !open
                &&& e == JobRegistryError::JobExpired <==> !s.locked && open && !takes_bids(
                    s,
                    job_id,
                    now,
                )
                &&& e == JobRegistryError::BidNotFound <==> !s.locked && own && takes_bids(
                    s,
                    job_id,
                    now,
                ) && !bid
                &&& final(state)@ == s
            }
        }),
{
}

/// An accepted bid assigns the job to its freelancer and is announced for both parties and
/// the moment. What the job was posted with, the bids and all else stay.
pub proof fn law_acceptance_assigns_the_job(
    state: &mut RegistryState,
    job_id: u64,
    caller: Address,
    freelancer: Address,
    now: u64,
    result: Result<BidAcceptedEvent, JobRegistryError>,
)
    requires
        call_ensures(
            JobRegistryContract::accept_bid,
            (state, job_id, caller, freelancer, now),
            result,
        ),
        result is Ok,
    ensures
        ({
            let before = old(state)@.jobs[job_id];
            let after = final(state)@.jobs[job_id];
            &&& final(state)@.jobs.contains_key(job_id)
            &&& after.status == JobStatus::Assigned
            &&& after.freelancer == Some(freelancer@)
            &&& after.client == before.client
            &&& after.metadata_hash == before.metadata_hash
            &&& after.budget_stroops == before.budget_stroops
            &&& after.bidding_deadline == before.bidding_deadline
            &&& after.expires_at == before.expires_at
            &&& differ_in_job(old(state)@, final(state)@, job_id)
        }),
        result matches Ok(event) && {
            &&& event.job_id == job_id
            &&& event.client@ == caller@
            &&& event.freelancer@ == freelancer@
            &&& event.timestamp == now
        },
{
    assert(final(state)@.jobs.remove(job_id) =~= old(state)@.jobs.remove(job_id));
}

/// Past a deadline that is not zero no bid is accepted and the ledger stays as it was; up to
/// it, and where it is zero, no choice is refused for being late.
pub proof fn law_acceptance_ends_with_the_deadline(
    state: &mut RegistryState,
    job_id: u64,
    caller: Address,
    freelancer: Address,
    now: u64,
    result: Result<BidAcceptedEvent, JobRegistryError>,
)
    requires
        call_ensures(
            JobRegistryContract::accept_bid,
            (state, job_id, caller, freelancer, now),
            result,
        ),
        state@.jobs.contains_key(job_id),
    ensures
        ({
            let deadline = old(state)@.jobs[job_id].bidding_deadline;
            &&& 0 < deadline < now ==> result is Err && final(state)@ == old(state)@
            &&& deadline == 0 || now <= deadline ==> result
                != Err::<BidAcceptedEvent, JobRegistryError>(JobRegistryError::JobExpired)
        }),
{
}

/// The work is taken from the freelancer of an assigned job, with a content hash and the
/// lock free, and moves the job on. Otherwise it is refused for the first of these that
/// fails. Nothing but the stage of the job changes.
pub proof fn law_delivery_goes_through(
    state: &mut RegistryState,
    job_id: u64,
    freelancer: Address,
    deliverable_hash: Bytes,
    result: Result<(), JobRegistryError>,
)
    requires
        call_ensures(
            JobRegistryContract::submit_deliverable,
            (state, job_id, freelancer, deliverable_hash),
            result,
        ),
    ensures
        ({
            let s = old(state)@;
            let hash_ok = 1 <= bytes_held(deliverable_hash).len() <= 64;
            let there = s.jobs.contains_key(job_id);
            let assigned = there && s.jobs[job_id].status == JobStatus::Assigned;
            let own = s.jobs[job_id].freelancer == Some(freelancer@);
            &&& result is Ok <==> !s.locked && hash_ok && assigned && own
            &&& result matches Err(e) ==> {
                &&& e == JobRegistryError::ReentrancyDetected <==> s.locked
                &&& e == JobRegistryError::InvalidHash <==> !s.locked && !hash_ok
                &&& e == JobRegistryError::JobNotFound <==> !s.locked && hash_ok && !there
                &&& e == JobRegistryError::InvalidStateTransition <==> !s.locked && hash_ok
                    && there && !assigned
                &&& e == JobRegistryError::Unauthorized <==> !s.locked && hash_ok && assigned
                    && !own
                &&& final(state)@ == s
            }
            &&& result is Ok ==> final(state)@.jobs[job_id].status
                == JobStatus::DeliverableSubmitted && differ_in_stage(s, final(state)@, job_id)
        }),
{
    assert(result is Ok ==> final(state)@.jobs.remove(job_id) =~= old(state)@.jobs.remove(job_id));
}

/// Either party disputes a job that is assigned or delivered, at any time, and nobody else
/// does. Otherwise the dispute is refused for the first of these that fails. Nothing but
/// the stage of the job changes.
pub proof fn law_dispute_goes_through(
    state: &mut RegistryState,
    job_id: u64,
    caller: Address,
    result: Result<(), JobRegistryError>,
)
    requires
        call_ensures(JobRegistryContract::mark_disputed, (state, job_id, caller), result),
    ensures
        ({
            let s = old(state)@;
            let there = s.jobs.contains_key(job_id);
            let job = s.jobs[job_id];
            let party = there && (job.client == caller@ || job.freelancer == Some(caller@));
            let in_work = job.status == JobStatus::Assigned || job.status
                == JobStatus::DeliverableSubmitted;
            &&& result is Ok <==> party && in_work
            &&& result matches Err(e) ==> {
                &&& e == JobRegistryError::JobNotFound <==> !there
                &&& e == JobRegistryError::Unauthorized <==> there && !party
                &&& e == JobRegistryError::InvalidStateTransition <==> party && !in_work
                &&& final(state)@ == s
            }
            &&& result is Ok ==> final(state)@.jobs[job_id].status == JobStatus::Disputed
                && differ_in_stage(s, final(state)@, job_id)
        }),
{
    assert(result is Ok ==> final(state)@.jobs.remove(job_id) =~= old(state)@.jobs.remove(job_id));
}

/// The client closes a job at every stage, where the lock is free, and nobody else does.
/// Otherwise the closing is refused for the first of these that fails. Nothing but the
/// stage of the job changes.
pub proof fn law_closing_goes_through(
    state: &mut RegistryState,
    job_id: u64,
    caller: Address,
    result: Result<(), JobRegistryError>,
)
    requires
        call_ensures(JobRegistryContract::close_job, (state, job_id, caller), result),
    ensures
        ({
            let s = old(state)@;
            let there = s.jobs.contains_key(job_id);
            let own = there && s.jobs[job_id].client == caller@;
            &&& result is Ok <==> !s.locked && own
            &&& result matches Err(e) ==> {
                &&& e == JobRegistryError::ReentrancyDetected <==> s.locked
                &&& e == JobRegistryError::JobNotFound <==> !s.locked && !there
                &&& e == JobRegistryError::Unauthorized <==> !s.locked && there && !own
                &&& final(state)@ == s
            }
            &&& result is Ok ==> final(state)@.jobs[job_id].status == JobStatus::Closed
                && differ_in_stage(s, final(state)@, job_id)
        }),
{
    assert(result is Ok ==> final(state)@.jobs.remove(job_id) =~= old(state)@.jobs.remove(job_id));
}

/// The client closes a job at every stage once a moment has passed that is its expiry and
/// not zero, and nobody else does. Otherwise the closing is refused for the first of these
/// that fails. Nothing but the stage of the job changes.
pub proof fn law_closing_what_ran_out_goes_through(
    state: &mut RegistryState,
    job_id: u64,
    caller: Address,
    now: u64,
    result: Result<(), JobRegistryError>,
)
    requires
        call_ensures(
            JobRegistryContract::cancel_expired_job,
            (state, job_id, caller, now),
            result,
        ),
    ensures
        ({
            let s = old(state)@;
            let there = s.jobs.contains_key(job_id);
            let ran_out = there && 0 < s.jobs[job_id].expires_at < now;
            let own = s.jobs[job_id].client == caller@;
            &&& result is Ok <==> ran_out && own
            &&& result matches Err(e) ==> {
                &&& e == JobRegistryError::JobNotFound <==> !there
                &&& e == JobRegistryError::InvalidStateTransition <==> there && !ran_out
                &&& e == JobRegistryError::Unauthorized <==> ran_out && !own
                &&& final(state)@ == s
            }
            &&& result is Ok ==> final(state)@.jobs[job_id].status == JobStatus::Closed
                && differ_in_stage(s, final(state)@, job_id)
        }),
{
    assert(result is Ok ==> final(state)@.jobs.remove(job_id) =~= old(state)@.jobs.remove(job_id));
}

/// A job is read where it is, field by field as the ledger has it, and its stage with it.
pub proof fn law_job_is_read_as_kept(
    state: &RegistryState,
    job_id: u64,
    read: Result<JobRecord, JobRegistryError>,
    stage: Result<JobStatus, JobRegistryError>,
)
    requires
        call_ensures(JobRegistryContract::get_job, (state, job_id), read),
        call_ensures(JobRegistryContract::get_job_status, (state, job_id), stage),
    ensures
        read is Ok <==> state@.jobs.contains_key(job_id),
        stage is Ok <==> state@.jobs.contains_key(job_id),
        read matches Err(e) ==> e == JobRegistryError::JobNotFound,
        stage matches Err(e) ==> e == JobRegistryError::JobNotFound,
        read matches Ok(job) ==> {
            &&& job.client@ == state@.jobs[job_id].client
            &&& optional_address(job.freelancer) == state@.jobs[job_id].freelancer
            &&& bytes_held(job.metadata_hash) == state@.jobs[job_id].metadata_hash
            &&& job.budget_stroops == state@.jobs[job_id].budget_stroops
            &&& job.status == state@.jobs[job_id].status
            &&& job.bidding_deadline == state@.jobs[job_id].bidding_deadline
            &&& job.expires_at == state@.jobs[job_id].expires_at
            &&& stage == Ok::<JobStatus, JobRegistryError>(job.status)
        },
{
}

/// The bids on a job that exists are read whole and one by one as the ledger has them, with
/// their number. Past the end there is none.
pub proof fn law_bids_are_read_as_kept(
    env: &Env,
    state: &RegistryState,
    job_id: u64,
    index: u32,
    read: Result<BidList, JobRegistryError>,
    count: Result<u32, JobRegistryError>,
    at: Result<BidRecord, JobRegistryError>,
)
    requires
        call_ensures(JobRegistryContract::get_bids, (env, state, job_id), read),
        call_ensures(JobRegistryContract::get_bids_count, (env, state, job_id), count),
        call_ensures(JobRegistryContract::get_bid_at, (env, state, job_id, index), at),
    ensures
        ({
            let there = state@.jobs.contains_key(job_id);
            let bids = state@.bids_on(job_id);
            &&& read is Ok <==> there
            &&& count is Ok <==> there
            &&& at is Ok <==> there && index < bids.len()
            &&& read matches Err(e) ==> e == JobRegistryError::JobNotFound
            &&& count matches Err(e) ==> e == JobRegistryError::JobNotFound
            &&& at matches Err(e) ==> e == if there {
                JobRegistryError::BidIndexOutOfBounds
            } else {
                JobRegistryError::JobNotFound
            }
            &&& read matches Ok(list) ==> list@ == bids
            &&& count matches Ok(n) ==> n == bids.len()
            &&& at matches Ok(bid) ==> bid.freelancer@ == bids[index as int].freelancer
                && bytes_held(bid.proposal_hash) == bids[index as int].proposal_hash
        }),
{
}

/// A page of the bids on a job that exists is as long as asked for, or as long as the list
/// goes on, and holds at each place what the list holds at that distance from the offset.
pub proof fn law_page_is_read_as_kept(
    env: &Env,
    state: &RegistryState,
    job_id: u64,
    offset: u32,
    limit: u32,
    result: Result<BidList, JobRegistryError>,
)
    requires
        call_ensures(
            JobRegistryContract::get_bids_page,
            (env, state, job_id, offset, limit),
            result,
        ),
        offset + limit <= u32::MAX,
    ensures
        result is Ok <==> state@.jobs.contains_key(job_id),
        result matches Err(e) ==> e == JobRegistryError::JobNotFound,
        result matches Ok(page) ==> {
            let bids = state@.bids_on(job_id);
            &&& offset + limit <= bids.len() ==> page@.len() == limit
            &&& offset <= bids.len() < offset + limit ==> page@.len() == bids.len() - offset
            &&& bids.len() < offset ==> page@.len() == 0
            &&& forall|i: int| 0 <= i < page@.len() ==> #[trigger] page@[i] == bids[offset + i]
        },
{
}

/// No two refusals are reported under the same number, and all numbers are from 1 to 16.
pub proof fn law_codes_tell_refusals_apart(a: JobRegistryError, b: JobRegistryError, m: u32, n: u32)
    requires
        call_ensures(JobRegistryError::code, (&a,), m),
        call_ensures(JobRegistryError::code, (&b,), n),
    ensures
        m == n <==> a == b,
        1 <= m <= 16,
{
}

/// A copy of a record, a list or an announcement holds what the copied one holds.
pub proof fn law_copies_hold_the_same(
    job: JobRecord,
    job_copy: JobRecord,
    bid: BidRecord,
    bid_copy: BidRecord,
    list: BidList,
    list_copy: BidList,
    event: BidSubmittedEvent,
    event_copy: BidSubmittedEvent,
)
    requires
        call_ensures(<JobRecord as Clone>::clone, (&job,), job_copy),
        call_ensures(<BidRecord as Clone>::clone, (&bid,), bid_copy),
        call_ensures(<BidList as Clone>::clone, (&list,), list_copy),
        call_ensures(<BidSubmittedEvent as Clone>::clone, (&event,), event_copy),
    ensures
        job_copy.client@ == job.client@,
        optional_address(job_copy.freelancer) == optional_address(job.freelancer),
        bytes_held(job_copy.metadata_hash) == bytes_held(job.metadata_hash),
        job_copy.budget_stroops == job.budget_stroops,
        job_copy.status == job.status,
        job_copy.bidding_deadline == job.bidding_deadline,
        job_copy.expires_at == job.expires_at,
        bid_copy.freelancer@ == bid.freelancer@,
        bytes_held(bid_copy.proposal_hash) == bytes_held(bid.proposal_hash),
        list_copy@ == list@,
        event_copy.job_id == event.job_id,
        event_copy.freelancer@ == event.freelancer@,
        bytes_held(event_copy.proposal_hash) == bytes_held(event.proposal_hash),
        event_copy.timestamp == event.timestamp,
{
    assert(job_copy@ == job@);
    assert(bid_copy@ == bid@);
}

/// A new list of bids has none.
pub proof fn law_new_list_has_no_bids(
    env: &Env,
    list: BidList,
    n: u32,
    i: u32,
    read: Option<BidRecord>,
)
    requires
        call_ensures(BidList::new, (env,), list),
        call_ensures(BidList::len, (&list,), n),
        call_ensures(BidList::get, (&list, i), read),
    ensures
        n == 0,
        read is None,
{
}

} // verus!
