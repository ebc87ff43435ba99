//! What holds of the registry as a whole, whatever the requests.
use crate::records::{BidView, JobRegistryError, JobStatus, JobView};
use crate::registry::{has_bid_of, is_hash, page_of, without_bids_of};
use crate::state::RegistryView;
use vstd::prelude::*;

verus! {

/// A request that can change the ledger, with what it is given.
pub enum Request {
    Initialize { admin: Seq<u8> },
    SetUpgradeAdmin { caller: Seq<u8>, new: Seq<u8> },
    PostJob { job_id: u64, job: JobView },
    PostJobAuto { job: JobView },
    SubmitBid { job_id: u64, bid: BidView, amount: i128, now: u64 },
    CancelBid { job_id: u64, freelancer: Seq<u8> },
    AcceptBid { job_id: u64, caller: Seq<u8>, freelancer: Seq<u8>, now: u64 },
    SubmitDeliverable { job_id: u64, freelancer: Seq<u8>, deliverable_hash: Seq<u8> },
    MarkDisputed { job_id: u64, caller: Seq<u8> },
    CloseJob { job_id: u64, caller: Seq<u8> },
    CancelExpiredJob { job_id: u64, caller: Seq<u8>, now: u64 },
}

impl Request {
    /// Why the request is refused.
    pub open spec fn refusal(self, s: RegistryView) -> Option<JobRegistryError> {
        match self {
            Request::Initialize { admin } => s.initialize_refusal(),
            Request::SetUpgradeAdmin { caller, new } => s.set_upgrade_admin_refusal(caller),
            Request::PostJob { job_id, job } => s.post_job_refusal(
                job_id,
                job.metadata_hash,
                job.budget_stroops,
            ),
            Request::PostJobAuto { job } => s.post_job_auto_refusal(
                job.metadata_hash,
                job.budget_stroops,
            ),
            Request::SubmitBid { job_id, bid, amount, now } => s.submit_bid_refusal(
                job_id,
                bid,
                amount,
                now,
            ),
            Request::CancelBid { job_id, freelancer } => s.cancel_bid_refusal(job_id, freelancer),
            Request::AcceptBid { job_id, caller, freelancer, now } => s.accept_bid_refusal(
                job_id,
                caller,
                freelancer,
                now,
            ),
            Request::SubmitDeliverable { job_id, freelancer, deliverable_hash } =>
                s.submit_deliverable_refusal(job_id, freelancer, deliverable_hash),
            Request::MarkDisputed { job_id, caller } => s.mark_disputed_refusal(job_id, caller),
            Request::CloseJob { job_id, caller } => s.close_job_refusal(job_id, caller),
            Request::CancelExpiredJob { job_id, caller, now } => s.cancel_expired_job_refusal(
                job_id,
                caller,
                now,
            ),
        }
    }

    /// Whether the request can be made at all: a job is posted as jobs are posted, and
    /// numbers and lists have room.
    pub open spec fn admissible(self, s: RegistryView) -> bool {
        match self {
            Request::SetUpgradeAdmin { caller, new } => s.admin is Some,
            Request::PostJob { job_id, job } => {
                &&& job == JobView::posted(
                    job.client,
                    job.metadata_hash,
                    job.budget_stroops,
                    job.bidding_deadline,
                    job.expires_at,
                )
                &&& job_id < u64::MAX || self.refusal(s) is Some
            },
            Request::PostJobAuto { job } => {
                &&& job == JobView::posted(
                    job.client,
                    job.metadata_hash,
                    job.budget_stroops,
                    job.bidding_deadline,
                    job.expires_at,
                )
                &&& s.next_id() < u64::MAX || self.refusal(s) is Some
            },
            Request::SubmitBid { job_id, bid, amount, now } => s.bids_on(job_id).len() < u32::MAX
                || self.refusal(s) is Some,
            _ => true,
        }
    }

    /// The ledger after the request.
    pub open spec fn apply(self, s: RegistryView) -> RegistryView {
        if self.refusal(s) is Some {
            s
        } else {
            match self {
                Request::Initialize { admin } => s.after_initialized(admin),
                Request::SetUpgradeAdmin { caller, new } => s.after_upgrade_admin(new),
                Request::PostJob { job_id, job } => s.after_posted(job_id, job),
                Request::PostJobAuto { job } => s.after_posted_auto(job),
                Request::SubmitBid { job_id, bid, amount, now } => s.after_bid(job_id, bid),
                Request::CancelBid { job_id, freelancer } => s.after_cancelled_bid(
                    job_id,
                    freelancer,
                ),
                Request::AcceptBid { job_id, caller, freelancer, now } => s.after_accepted_bid(
                    job_id,
                    freelancer,
                ),
                Request::SubmitDeliverable { job_id, freelancer, deliverable_hash } =>
                    s.with_status(job_id, JobStatus::DeliverableSubmitted),
                Request::MarkDisputed { job_id, caller } => s.with_status(
                    job_id,
                    JobStatus::Disputed,
                ),
                Request::CloseJob { job_id, caller } => s.with_status(job_id, JobStatus::Closed),
                Request::CancelExpiredJob { job_id, caller, now } => s.with_status(
                    job_id,
                    JobStatus::Closed,
                ),
            }
        }
    }

    /// The job that the request is about, if it is about one.
    pub open spec fn job(self, s: RegistryView) -> Option<u64> {
        match self {
            Request::Initialize { admin } => None,
            Request::SetUpgradeAdmin { caller, new } => None,
            Request::PostJob { job_id, job } => Some(job_id),
            Request::PostJobAuto { job } => Some(s.next_id()),
            Request::SubmitBid { job_id, bid, amount, now } => Some(job_id),
            Request::CancelBid { job_id, freelancer } => Some(job_id),
            Request::AcceptBid { job_id, caller, freelancer, now } => Some(job_id),
            Request::SubmitDeliverable { job_id, freelancer, deliverable_hash } => Some(job_id),
            Request::MarkDisputed { job_id, caller } => Some(job_id),
            Request::CloseJob { job_id, caller } => Some(job_id),
            Request::CancelExpiredJob { job_id, caller, now } => Some(job_id),
        }
    }

    /// Who makes the request and has to answer for it. Anyone may name the administrator.
    pub open spec fn caller(self) -> Option<Seq<u8>> {
        match self {
            Request::Initialize { admin } => None,
            Request::SetUpgradeAdmin { caller, new } => Some(caller),
            Request::PostJob { job_id, job } => Some(job.client),
            Request::PostJobAuto { job } => Some(job.client),
            Request::SubmitBid { job_id, bid, amount, now } => Some(bid.freelancer),
            Request::CancelBid { job_id, freelancer } => Some(freelancer),
            Request::AcceptBid { job_id, caller, freelancer, now } => Some(caller),
            Request::SubmitDeliverable { job_id, freelancer, deliverable_hash } => Some(
                freelancer,
            ),
            Request::MarkDisputed { job_id, caller } => Some(caller),
            Request::CloseJob { job_id, caller } => Some(caller),
            Request::CancelExpiredJob { job_id, caller, now } => Some(caller),
        }
    }

    /// Whether the request takes the lock.
    pub open spec fn guarded(self) -> bool {
        self is SubmitBid || self is CancelBid || self is AcceptBid || self is SubmitDeliverable
            || self is CloseJob
    }
}

/// Whether no freelancer has two bids in a list.
pub open spec fn one_bid_each(bids: Seq<BidView>) -> bool {
    forall|i: int, j: int|
        0 <= i < j < bids.len() ==> #[trigger] bids[i].freelancer != #[trigger] bids[j].freelancer
}

/// Whether a job's fields agree with each other and with the bids on it: it has a budget
/// and a content hash; it has no freelancer while it is open and one while it is in work
/// or disputed; the freelancer is one who bid.
pub open spec fn job_orderly(job: JobView, bids: Seq<BidView>) -> bool {
    &&& job.budget_stroops > 0
    &&& is_hash(job.metadata_hash)
    &&& job.status == JobStatus::Open ==> job.freelancer is None
    &&& job.status == JobStatus::Assigned || job.status == JobStatus::DeliverableSubmitted
        || job.status == JobStatus::Disputed ==> job.freelancer is Some
    &&& job.freelancer matches Some(freelancer) ==> has_bid_of(bids, freelancer)
}

impl RegistryView {
    /// Whether every job agrees with its bids, every list of bids belongs to a job, and
    /// no freelancer bids twice on a job.
    pub open spec fn orderly(self) -> bool {
        &&& forall|id: u64| #[trigger]
            self.jobs.contains_key(id) ==> job_orderly(self.jobs[id], self.bids_on(id))
        &&& forall|id: u64| #[trigger]
            self.bids.contains_key(id) ==> {
                &&& self.jobs.contains_key(id)
                &&& one_bid_each(self.bids[id])
                &&& forall|i: int|
                    0 <= i < self.bids[id].len() ==> is_hash(
                        #[trigger] self.bids[id][i].proposal_hash,
                    )
            }
    }

    /// Whether every job's number is at least one and below the next automatic number.
    pub open spec fn numbered(self) -> bool {
        &&& 1 <= self.next_id()
        &&& forall|id: u64| #[trigger] self.jobs.contains_key(id) ==> 1 <= id < self.next_id()
    }
}

/// A withdrawn bid leaves exactly the bids of the others.
proof fn lemma_filter_keeps_others(bids: Seq<BidView>, freelancer: Seq<u8>)
    ensures
        forall|other: Seq<u8>|
            other != freelancer && has_bid_of(bids, other) ==> #[trigger] has_bid_of(
                without_bids_of(bids, freelancer),
                other,
            ),
        forall|i: int|
            0 <= i < without_bids_of(bids, freelancer).len() ==> bids.contains(
                #[trigger] without_bids_of(bids, freelancer)[i],
            ) && without_bids_of(bids, freelancer)[i].freelancer != freelancer,
        one_bid_each(bids) ==> one_bid_each(without_bids_of(bids, freelancer)),
    decreases bids.len(),
{
    reveal(Seq::filter);
    let kept = without_bids_of(bids, freelancer);
    if bids.len() > 0 {
        let front = bids.drop_last();
        let last = bids.last();
        lemma_filter_keeps_others(front, freelancer);
        let kept_front = without_bids_of(front, freelancer);
        assert(kept == if last.freelancer != freelancer {
            kept_front.push(last)
        } else {
            kept_front
        });
        assert forall|other: Seq<u8>|
            other != freelancer && has_bid_of(bids, other) implies #[trigger] has_bid_of(
            kept,
            other,
        ) by {
            let i = choose|i: int| 0 <= i < bids.len() && #[trigger] bids[i].freelancer == other;
            if i == bids.len() - 1 {
                assert(kept[kept.len() - 1].freelancer == other);
            } else {
                assert(front[i].freelancer == other);
                assert(has_bid_of(kept_front, other));
                let j = choose|j: int|
                    0 <= j < kept_front.len() && #[trigger] kept_front[j].freelancer == other;
                assert(kept[j].freelancer == other);
            }
        }
        assert forall|i: int| 0 <= i < kept.len() implies bids.contains(#[trigger] kept[i])
            && kept[i].freelancer != freelancer by {
            if i < kept_front.len() {
                assert(kept[i] == kept_front[i]);
                assert(front.contains(kept_front[i]));
                let j = choose|j: int| 0 <= j < front.len() && front[j] == kept_front[i];
                assert(bids[j] == kept[i]);
            } else {
                assert(kept[i] == bids[bids.len() - 1]);
            }
        }
        if one_bid_each(bids) {
            assert(one_bid_each(front)) by {
                assert forall|i: int, j: int| 0 <= i < j < front.len() implies #[trigger] front[i].freelancer
                    != #[trigger] front[j].freelancer by {
                    assert(bids[i].freelancer != bids[j].freelancer);
                }
            }
            assert forall|i: int, j: int| 0 <= i < j < kept.len() implies #[trigger] kept[i].freelancer
                != #[trigger] kept[j].freelancer by {
                if j < kept_front.len() {
                    assert(kept_front[i].freelancer != kept_front[j].freelancer);
                } else {
                    assert(front.contains(kept_front[i]));
                    let k = choose|k: int| 0 <= k < front.len() && front[k] == kept_front[i];
                    assert(bids[k].freelancer != bids[bids.len() - 1].freelancer);
                }
            }
        }
    }
}

/// Every request keeps the ledger orderly.
pub proof fn law_requests_keep_order(s: RegistryView, request: Request)
    requires
        s.orderly(),
        request.admissible(s),
    ensures
        request.apply(s).orderly(),
{
    let t = request.apply(s);
    if request.refusal(s) is None {
        match request {
            Request::SubmitBid { job_id, bid, amount, now } => {
                let before = s.bids_on(job_id);
                let after = t.bids_on(job_id);
                assert(after == before.push(bid));
                assert(one_bid_each(before));
                assert forall|i: int, j: int| 0 <= i < j < after.len() implies #[trigger] after[i].freelancer
                    != #[trigger] after[j].freelancer by {
                    assert(before[i].freelancer == after[i].freelancer);
                    if j < before.len() {
                        assert(before[j].freelancer == after[j].freelancer);
                    }
                }
                assert forall|id: u64| #[trigger] t.jobs.contains_key(id) implies job_orderly(
                    t.jobs[id],
                    t.bids_on(id),
                ) by {
                    assert(s.jobs.contains_key(id));
                    assert(job_orderly(s.jobs[id], s.bids_on(id)));
                }
                assert forall|i: int| 0 <= i < t.bids[job_id].len() implies is_hash(
                    #[trigger] t.bids[job_id][i].proposal_hash,
                ) by {
                    if i < before.len() {
                        assert(is_hash(s.bids[job_id][i].proposal_hash));
                    }
                }
            },
            Request::CancelBid { job_id, freelancer } => {
                let before = s.bids_on(job_id);
                lemma_filter_keeps_others(before, freelancer);
                assert forall|i: int| 0 <= i < t.bids[job_id].len() implies is_hash(
                    #[trigger] t.bids[job_id][i].proposal_hash,
                ) by {
                    assert(before.contains(t.bids[job_id][i]));
                }
                assert forall|id: u64| #[trigger] t.jobs.contains_key(id) implies job_orderly(
                    t.jobs[id],
                    t.bids_on(id),
                ) by {
                    assert(s.jobs.contains_key(id));
                    assert(job_orderly(s.jobs[id], s.bids_on(id)));
                }
            },
            _ => {
                assert forall|id: u64| #[trigger] t.jobs.contains_key(id) implies job_orderly(
                    t.jobs[id],
                    t.bids_on(id),
                ) by {
                    if s.jobs.contains_key(id) {
                        assert(job_orderly(s.jobs[id], s.bids_on(id)));
                    }
                }
            },
        }
    }
}

/// Every request keeps the numbering, save the naming of the administrator on a ledger
/// that has jobs already, which starts the automatic numbers again.
pub proof fn law_requests_keep_numbering(s: RegistryView, request: Request)
    requires
        s.numbered(),
        request.admissible(s),
        request is Initialize && s.admin is None ==> s.jobs =~= Map::empty(),
    ensures
        request.apply(s).numbered(),
{
    let t = request.apply(s);
    assert forall|id: u64| #[trigger] t.jobs.contains_key(id) implies 1 <= id < t.next_id() by {
        if s.jobs.contains_key(id) {
            assert(1 <= id < s.next_id());
        }
    }
}

/// Requests in a row, each on the ledger that the ones before it left.
pub open spec fn run(s: RegistryView, requests: Seq<Request>) -> RegistryView
    decreases requests.len(),
{
    if requests.len() == 0 {
        s
    } else {
        requests.last().apply(run(s, requests.drop_last()))
    }
}

/// Whether each of the requests in a row can be made when its turn comes.
pub open spec fn all_admissible(s: RegistryView, requests: Seq<Request>) -> bool {
    forall|i: int|
        0 <= i < requests.len() ==> (#[trigger] requests[i]).admissible(run(s, requests.take(i)))
}

/// Whether no administrator is named in the course of the requests once there are jobs. A
/// naming that is refused does not count.
pub open spec fn named_before_jobs(s: RegistryView, requests: Seq<Request>) -> bool {
    forall|i: int|
        0 <= i < requests.len() && (#[trigger] requests[i]) is Initialize
            && requests[i].refusal(run(s, requests.take(i))) is None ==> run(
            s,
            requests.take(i),
        ).jobs =~= Map::empty()
}

/// Whether no request in a row is about a given job.
pub open spec fn none_about(s: RegistryView, requests: Seq<Request>, id: u64) -> bool {
    forall|i: int|
        0 <= i < requests.len() ==> (#[trigger] requests[i]).job(run(s, requests.take(i)))
            != Some(id)
}

/// What is asked of all requests in a row holds of all but the last, and of the last on
/// the ledger that the others left.
proof fn lemma_all_but_the_last(s: RegistryView, requests: Seq<Request>, id: u64)
    requires
        requests.len() > 0,
    ensures
        all_admissible(s, requests) ==> all_admissible(s, requests.drop_last())
            && requests.last().admissible(run(s, requests.drop_last())),
        named_before_jobs(s, requests) ==> {
            let before = run(s, requests.drop_last());
            &&& named_before_jobs(s, requests.drop_last())
            &&& requests.last() is Initialize && requests.last().refusal(before) is None
                ==> before.jobs =~= Map::empty()
        },
        none_about(s, requests, id) ==> none_about(s, requests.drop_last(), id)
            && requests.last().job(run(s, requests.drop_last())) != Some(id),
{
    let front = requests.drop_last();
    let n = requests.len() - 1;
    assert(requests.take(n) =~= front);
    assert(requests[n] == requests.last());
    assert forall|i: int| 0 <= i < front.len() implies front[i] == #[trigger] requests[i]
        && front.take(i) == requests.take(i) by {
        assert(front.take(i) =~= requests.take(i));
    }
}

/// The empty ledger is orderly and numbered.
pub proof fn law_empty_ledger_is_in_order()
    ensures
        RegistryView::empty().orderly(),
        RegistryView::empty().numbered(),
{
}

/// An orderly ledger, such as the empty one, is orderly after any requests in a row.
pub proof fn law_ledger_is_always_orderly(s: RegistryView, requests: Seq<Request>)
    requires
        s.orderly(),
        all_admissible(s, requests),
    ensures
        run(s, requests).orderly(),
    decreases requests.len(),
{
    if requests.len() > 0 {
        lemma_all_but_the_last(s, requests, 0);
        law_ledger_is_always_orderly(s, requests.drop_last());
        law_requests_keep_order(run(s, requests.drop_last()), requests.last());
    }
}

/// Once an administrator is named, it stays the same one after any requests in a row, and
/// no other is named.
pub proof fn law_administrator_stays(s: RegistryView, requests: Seq<Request>)
    requires
        s.admin is Some,
    ensures
        run(s, requests).admin == s.admin,
        named_before_jobs(s, requests),
    decreases requests.len(),
{
    if requests.len() > 0 {
        let front = requests.drop_last();
        law_administrator_stays(s, front);
        assert forall|i: int|
            #![trigger requests[i]]
            0 <= i < requests.len() implies run(s, requests.take(i)).admin == s.admin by {
            law_administrator_stays(s, requests.take(i));
        }
    }
}

/// A numbered ledger, such as the empty one, is numbered after any requests in a row, where
/// the administrator is named already or no later than the first job is posted, or never.
pub proof fn law_ledger_is_always_numbered(s: RegistryView, requests: Seq<Request>)
    requires
        s.numbered(),
        all_admissible(s, requests),
        s.admin is Some || named_before_jobs(s, requests),
    ensures
        run(s, requests).numbered(),
    decreases requests.len(),
{
    if s.admin is Some {
        law_administrator_stays(s, requests);
    }
    if requests.len() > 0 {
        lemma_all_but_the_last(s, requests, 0);
        law_ledger_is_always_numbered(s, requests.drop_last());
        law_requests_keep_numbering(run(s, requests.drop_last()), requests.last());
    }
}

/// The administrator is named once: whoever asks afterwards is refused.
pub proof fn law_initialize_once(s: RegistryView, admin: Seq<u8>)
    requires
        s.initialize_refusal() is None,
    ensures
        s.after_initialized(admin).initialize_refusal() == Some(
            JobRegistryError::AlreadyInitialized,
        ),
{
}

/// On a numbered ledger the next automatic number is free, so that posting under it
/// replaces no job.
pub proof fn law_next_number_is_free(s: RegistryView)
    requires
        s.numbered(),
    ensures
        !s.jobs.contains_key(s.next_id()),
{
}

/// Jobs posted one after the other under automatic numbers get consecutive numbers.
pub proof fn law_automatic_numbers_are_consecutive(s: RegistryView, job: JobView)
    requires
        s.next_id() < u64::MAX,
    ensures
        s.after_posted_auto(job).next_id() == s.next_id() + 1,
        s.after_posted_auto(job).jobs.contains_key(s.next_id()),
        s.after_posted_auto(job).jobs[s.next_id()] == job,
{
}

/// A job posted under a number that is not below the next automatic one moves the
/// automatic numbers behind it; one below leaves them.
pub proof fn law_chosen_number_moves_automatic_ones(s: RegistryView, job_id: u64, job: JobView)
    requires
        job_id < u64::MAX,
    ensures
        s.after_posted(job_id, job).next_id() == if job_id >= s.next_id() {
            job_id + 1
        } else {
            s.next_id() as int
        },
        s.after_posted(job_id, job).jobs[job_id] == job,
{
}

/// No number can be posted under twice.
pub proof fn law_number_is_posted_once(
    s: RegistryView,
    job_id: u64,
    job: JobView,
    again: JobView,
)
    requires
        s.post_job_refusal(job_id, job.metadata_hash, job.budget_stroops) is None,
        again.budget_stroops > 0,
        is_hash(again.metadata_hash),
    ensures
        s.after_posted(job_id, job).post_job_refusal(
            job_id,
            again.metadata_hash,
            again.budget_stroops,
        ) == Some(JobRegistryError::JobAlreadyExists),
{
}

/// A request about one job leaves every other job and the bids on it as they were.
pub proof fn law_jobs_are_isolated(s: RegistryView, request: Request, other: u64)
    requires
        request.job(s) != Some(other),
    ensures
        request.apply(s).jobs.contains_key(other) == s.jobs.contains_key(other),
        s.jobs.contains_key(other) ==> request.apply(s).jobs[other] == s.jobs[other],
        request.apply(s).bids.contains_key(other) == s.bids.contains_key(other),
        request.apply(s).bids_on(other) == s.bids_on(other),
{
}

/// Whatever requests come in a row, a job that none of them is about stays as it was, with
/// the bids on it.
pub proof fn law_jobs_stay_isolated(s: RegistryView, requests: Seq<Request>, other: u64)
    requires
        none_about(s, requests, other),
    ensures
        run(s, requests).jobs.contains_key(other) == s.jobs.contains_key(other),
        s.jobs.contains_key(other) ==> run(s, requests).jobs[other] == s.jobs[other],
        run(s, requests).bids.contains_key(other) == s.bids.contains_key(other),
        run(s, requests).bids_on(other) == s.bids_on(other),
    decreases requests.len(),
{
    if requests.len() > 0 {
        lemma_all_but_the_last(s, requests, other);
        law_jobs_stay_isolated(s, requests.drop_last(), other);
        law_jobs_are_isolated(run(s, requests.drop_last()), requests.last(), other);
    }
}

/// A request that is not about posting or naming leaves the administrators and the
/// numbering as they were.
pub proof fn law_administration_is_untouched(s: RegistryView, request: Request)
    ensures
        request !is Initialize ==> request.apply(s).admin == s.admin,
        request !is SetUpgradeAdmin ==> request.apply(s).upgrade_admin == s.upgrade_admin,
        !(request is Initialize || request is PostJob || request is PostJobAuto)
            ==> request.apply(s).next_job_id == s.next_job_id,
{
}

/// Every request leaves the lock as it found it, and one that takes the lock is refused
/// while another holds it.
pub proof fn law_lock(s: RegistryView, request: Request)
    ensures
        request.apply(s).locked == s.locked,
        s.locked && request.guarded() ==> request.refusal(s) == Some(
            JobRegistryError::ReentrancyDetected,
        ) && request.apply(s) == s,
{
}

/// The moves between stages: an open job is assigned, an assigned one delivered, one in
/// work disputed, and any closed.
pub open spec fn stage_follows(from: JobStatus, to: JobStatus) -> bool {
    ||| to == from
    ||| from == JobStatus::Open && to == JobStatus::Assigned
    ||| from == JobStatus::Assigned && to == JobStatus::DeliverableSubmitted
    ||| (from == JobStatus::Assigned || from == JobStatus::DeliverableSubmitted) && to
        == JobStatus::Disputed
    ||| to == JobStatus::Closed
}

/// How far along its life a job is.
pub open spec fn stage_number(status: JobStatus) -> int {
    match status {
        JobStatus::Open => 0,
        JobStatus::Assigned => 1,
        JobStatus::DeliverableSubmitted => 2,
        JobStatus::Disputed => 3,
        JobStatus::Closed => 4,
    }
}

/// Whether two records agree on what a job is posted with.
pub open spec fn same_posting(a: JobView, b: JobView) -> bool {
    &&& a.client == b.client
    &&& a.metadata_hash == b.metadata_hash
    &&& a.budget_stroops == b.budget_stroops
    &&& a.bidding_deadline == b.bidding_deadline
    &&& a.expires_at == b.expires_at
}

/// A request takes a job below the next automatic number only along the moves between
/// stages, never removes it, and changes nothing of what it was posted with.
pub proof fn law_job_moves_along_its_stages(s: RegistryView, request: Request, id: u64)
    requires
        s.jobs.contains_key(id),
        id < s.next_id(),
    ensures
        request.apply(s).jobs.contains_key(id),
        stage_follows(s.jobs[id].status, request.apply(s).jobs[id].status),
        same_posting(request.apply(s).jobs[id], s.jobs[id]),
{
}

/// The next automatic number never falls to or below a job's, unless an administrator is
/// named when there are jobs.
proof fn lemma_next_number_stays_above(s: RegistryView, request: Request, id: u64)
    requires
        s.jobs.contains_key(id),
        id < s.next_id(),
        request.admissible(s),
        request is Initialize && request.refusal(s) is None ==> s.jobs =~= Map::empty(),
    ensures
        id < request.apply(s).next_id(),
{
}

/// Whatever requests come in a row, a job below the next automatic number stays on the
/// ledger with all that it was posted with, and its stage never goes back.
pub proof fn law_job_keeps_its_posting(s: RegistryView, requests: Seq<Request>, id: u64)
    requires
        s.jobs.contains_key(id),
        id < s.next_id(),
        all_admissible(s, requests),
        s.admin is Some || named_before_jobs(s, requests),
    ensures
        run(s, requests).jobs.contains_key(id),
        id < run(s, requests).next_id(),
        same_posting(run(s, requests).jobs[id], s.jobs[id]),
        stage_number(s.jobs[id].status) <= stage_number(run(s, requests).jobs[id].status),
    decreases requests.len(),
{
    if s.admin is Some {
        law_administrator_stays(s, requests);
    }
    if requests.len() > 0 {
        let before = run(s, requests.drop_last());
        lemma_all_but_the_last(s, requests, id);
        law_job_keeps_its_posting(s, requests.drop_last(), id);
        law_job_moves_along_its_stages(before, requests.last(), id);
        lemma_next_number_stays_above(before, requests.last(), id);
    }
}

/// A request leaves a closed job below the next automatic number as it is, with the bids
/// on it.
pub proof fn law_request_leaves_closed_job(s: RegistryView, request: Request, id: u64)
    requires
        s.jobs.contains_key(id),
        id < s.next_id(),
        s.jobs[id].status == JobStatus::Closed,
    ensures
        request.apply(s).jobs.contains_key(id),
        request.apply(s).jobs[id] == s.jobs[id],
        request.apply(s).bids_on(id) == s.bids_on(id),
{
}

/// Closed is final: whatever requests come in a row, a closed job below the next automatic
/// number stays as it is, with the bids on it.
pub proof fn law_closed_is_final(s: RegistryView, requests: Seq<Request>, id: u64)
    requires
        s.jobs.contains_key(id),
        id < s.next_id(),
        s.jobs[id].status == JobStatus::Closed,
        all_admissible(s, requests),
        s.admin is Some || named_before_jobs(s, requests),
    ensures
        run(s, requests).jobs.contains_key(id),
        run(s, requests).jobs[id] == s.jobs[id],
        run(s, requests).bids_on(id) == s.bids_on(id),
    decreases requests.len(),
{
    if s.admin is Some {
        law_administrator_stays(s, requests);
    }
    if requests.len() > 0 {
        let front = requests.drop_last();
        lemma_all_but_the_last(s, requests, id);
        law_closed_is_final(s, front, id);
        law_job_keeps_its_posting(s, front, id);
        law_request_leaves_closed_job(run(s, front), requests.last(), id);
    }
}

/// On an orderly ledger a request leaves the freelancer that a job below the next automatic
/// number is assigned to.
pub proof fn law_request_leaves_freelancer(s: RegistryView, request: Request, id: u64)
    requires
        s.orderly(),
        s.jobs.contains_key(id),
        id < s.next_id(),
        s.jobs[id].freelancer is Some,
    ensures
        request.apply(s).jobs[id].freelancer == s.jobs[id].freelancer,
{
    assert(job_orderly(s.jobs[id], s.bids_on(id)));
}

/// On an orderly ledger the freelancer that a job below the next automatic number is
/// assigned to stays the same, whatever requests come in a row.
pub proof fn law_freelancer_stays(s: RegistryView, requests: Seq<Request>, id: u64)
    requires
        s.orderly(),
        s.jobs.contains_key(id),
        id < s.next_id(),
        s.jobs[id].freelancer is Some,
        all_admissible(s, requests),
        s.admin is Some || named_before_jobs(s, requests),
    ensures
        run(s, requests).jobs[id].freelancer == s.jobs[id].freelancer,
    decreases requests.len(),
{
    if s.admin is Some {
        law_administrator_stays(s, requests);
    }
    if requests.len() > 0 {
        let front = requests.drop_last();
        lemma_all_but_the_last(s, requests, id);
        law_freelancer_stays(s, front, id);
        law_job_keeps_its_posting(s, front, id);
        law_ledger_is_always_orderly(s, front);
        law_request_leaves_freelancer(run(s, front), requests.last(), id);
    }
}

/// A freelancer bids once: after a bid, a second one of the same freelancer on the job is
/// refused whatever it holds, and for having bid already where nothing else speaks
/// against it.
pub proof fn law_one_bid_per_freelancer(
    s: RegistryView,
    job_id: u64,
    bid: BidView,
    amount: i128,
    now: u64,
    again: BidView,
    amount_again: i128,
    later: u64,
)
    requires
        s.submit_bid_refusal(job_id, bid, amount, now) is None,
        again.freelancer == bid.freelancer,
    ensures
        s.after_bid(job_id, bid).submit_bid_refusal(job_id, again, amount_again, later) is Some,
        is_hash(again.proposal_hash) && amount_again >= 0 && !s.jobs[job_id].bidding_over(later)
            ==> s.after_bid(job_id, bid).submit_bid_refusal(job_id, again, amount_again, later)
            == Some(JobRegistryError::BidAlreadySubmitted),
{
    let after = s.after_bid(job_id, bid).bids_on(job_id);
    assert(after[after.len() - 1].freelancer == again.freelancer);
}

/// A bid can be withdrawn, and the withdrawal undoes it: the bids on the job are those
/// from before it, and the rest of the ledger is as it was.
pub proof fn law_withdrawal_undoes_bid(
    s: RegistryView,
    job_id: u64,
    bid: BidView,
    amount: i128,
    now: u64,
)
    requires
        s.submit_bid_refusal(job_id, bid, amount, now) is None,
    ensures
        s.after_bid(job_id, bid).cancel_bid_refusal(job_id, bid.freelancer) is None,
        s.after_bid(job_id, bid).after_cancelled_bid(job_id, bid.freelancer).bids_on(job_id)
            == s.bids_on(job_id),
        s.after_bid(job_id, bid).after_cancelled_bid(job_id, bid.freelancer) == s.with_bids(
            job_id,
            s.bids_on(job_id),
        ),
{
    let before = s.bids_on(job_id);
    let after = before.push(bid);
    assert(after[after.len() - 1].freelancer == bid.freelancer);
    assert(after.drop_last() =~= before);
    reveal(Seq::filter);
    lemma_filter_without_bids_of(before, bid.freelancer);
    assert(without_bids_of(after, bid.freelancer) == before);
    assert(s.after_bid(job_id, bid).after_cancelled_bid(job_id, bid.freelancer) =~= s.with_bids(
        job_id,
        before,
    ));
}

/// Where a freelancer has no bid, there is none to leave out.
proof fn lemma_filter_without_bids_of(bids: Seq<BidView>, freelancer: Seq<u8>)
    requires
        !has_bid_of(bids, freelancer),
    ensures
        without_bids_of(bids, freelancer) == bids,
    decreases bids.len(),
{
    reveal(Seq::filter);
    if bids.len() > 0 {
        let front = bids.drop_last();
        assert(!has_bid_of(front, freelancer)) by {
            assert forall|i: int| 0 <= i < front.len() implies #[trigger] front[i].freelancer
                != freelancer by {
                assert(bids[i].freelancer != freelancer);
            }
        }
        lemma_filter_without_bids_of(front, freelancer);
        assert(bids[bids.len() - 1].freelancer != freelancer);
        assert(front.push(bids.last()) =~= bids);
    }
}

/// Who withdrew has no bid left; everybody else's bids stay.
pub proof fn law_withdrawal_takes_only_own_bid(
    s: RegistryView,
    job_id: u64,
    freelancer: Seq<u8>,
    other: Seq<u8>,
)
    requires
        other != freelancer,
    ensures
        !has_bid_of(s.after_cancelled_bid(job_id, freelancer).bids_on(job_id), freelancer),
        has_bid_of(s.bids_on(job_id), other) <==> has_bid_of(
            s.after_cancelled_bid(job_id, freelancer).bids_on(job_id),
            other,
        ),
{
    let before = s.bids_on(job_id);
    let after = s.after_cancelled_bid(job_id, freelancer).bids_on(job_id);
    lemma_filter_keeps_others(before, freelancer);
    if has_bid_of(after, other) {
        let i = choose|i: int| 0 <= i < after.len() && #[trigger] after[i].freelancer == other;
        assert(before.contains(after[i]));
    }
}

/// Only the job's client accepts a bid, and only a bid that was made.
pub proof fn law_only_the_client_accepts_and_only_a_bid(
    s: RegistryView,
    job_id: u64,
    caller: Seq<u8>,
    freelancer: Seq<u8>,
    now: u64,
)
    requires
        s.accept_bid_refusal(job_id, caller, freelancer, now) is None,
    ensures
        caller == s.jobs[job_id].client,
        has_bid_of(s.bids_on(job_id), freelancer),
{
}

/// A bid is accepted once: afterwards the client's second choice, a late bid and a
/// withdrawal are refused because the job is not open.
pub proof fn law_acceptance_ends_bidding(
    s: RegistryView,
    job_id: u64,
    caller: Seq<u8>,
    freelancer: Seq<u8>,
    now: u64,
    second: Seq<u8>,
    late: BidView,
    amount: i128,
    later: u64,
)
    requires
        s.accept_bid_refusal(job_id, caller, freelancer, now) is None,
        is_hash(late.proposal_hash),
        amount >= 0,
    ensures
        s.after_accepted_bid(job_id, freelancer).accept_bid_refusal(
            job_id,
            caller,
            second,
            later,
        ) == Some(JobRegistryError::JobNotOpen),
        s.after_accepted_bid(job_id, freelancer).submit_bid_refusal(
            job_id,
            late,
            amount,
            later,
        ) == Some(JobRegistryError::JobNotOpen),
        s.after_accepted_bid(job_id, freelancer).cancel_bid_refusal(job_id, second) == Some(
            JobRegistryError::JobNotOpen,
        ),
{
}

/// A bid that came in stands behind the earlier ones, which keep their places.
pub proof fn law_bid_goes_to_the_end(s: RegistryView, job_id: u64, bid: BidView)
    ensures
        s.after_bid(job_id, bid).bids_on(job_id).len() == s.bids_on(job_id).len() + 1,
        s.after_bid(job_id, bid).bids_on(job_id).last() == bid,
        s.after_bid(job_id, bid).bids_on(job_id).drop_last() == s.bids_on(job_id),
{
    assert(s.after_bid(job_id, bid).bids_on(job_id).drop_last() =~= s.bids_on(job_id));
}

/// Only a job's own client and freelancer change a job that exists: a request that changes
/// one below the next automatic number was made by either of them.
pub proof fn law_only_the_parties_change_a_job(s: RegistryView, request: Request, id: u64)
    requires
        s.jobs.contains_key(id),
        id < s.next_id(),
        request.apply(s).jobs[id] != s.jobs[id],
    ensures
        request.caller() matches Some(caller) && (caller == s.jobs[id].client || Some(caller)
            == s.jobs[id].freelancer),
{
}

/// A deadline or an expiry of zero never comes.
pub proof fn law_zero_means_never(job: JobView, now: u64)
    ensures
        job.bidding_deadline == 0 ==> !job.bidding_over(now),
        job.expires_at == 0 ==> !job.expired(now),
{
}

/// Two pages that follow each other make up the page of both.
pub proof fn law_pages_join(bids: Seq<BidView>, offset: u32, first: u32, second: u32)
    requires
        offset + first + second <= u32::MAX,
    ensures
        page_of(bids, offset, first) + page_of(bids, (offset + first) as u32, second) == page_of(
            bids,
            offset,
            (first + second) as u32,
        ),
{
    assert(page_of(bids, offset, first) + page_of(bids, (offset + first) as u32, second)
        =~= page_of(bids, offset, (first + second) as u32));
}

/// A page from the start that is as long as the list is the whole list, and what a page
/// holds stands in the list at the same distance from the page's start.
pub proof fn law_page_shows_the_list(bids: Seq<BidView>, offset: u32, limit: u32, i: int)
    requires
        bids.len() <= u32::MAX,
    ensures
        page_of(bids, 0, bids.len() as u32) == bids,
        page_of(bids, offset, limit).len() <= limit,
        0 <= i < page_of(bids, offset, limit).len() ==> offset + i < bids.len() && page_of(
            bids,
            offset,
            limit,
        )[i] == bids[offset + i],
{
    assert(page_of(bids, 0, bids.len() as u32) =~= bids);
}

/// A bid is not refused where the lock is free, it has one to 64 bytes of hash and no
/// negative amount, the job is there and open, its deadline is zero or not passed, and no
/// bid on it is the freelancer's; and only there.
pub proof fn law_bid_that_is_taken(
    s: RegistryView,
    job_id: u64,
    bid: BidView,
    amount: i128,
    now: u64,
)
    ensures
        s.submit_bid_refusal(job_id, bid, amount, now) is None <==> {
            &&& !s.locked
            &&& 1 <= bid.proposal_hash.len() <= 64
            &&& amount >= 0
            &&& s.jobs.contains_key(job_id)
            &&& s.jobs[job_id].status == JobStatus::Open
            &&& s.jobs[job_id].bidding_deadline == 0 || now <= s.jobs[job_id].bidding_deadline
            &&& forall|i: int|
                0 <= i < s.bids_on(job_id).len() ==> #[trigger] s.bids_on(job_id)[i].freelancer
                    != bid.freelancer
        },
{
}

/// The deadline is the last moment for bids and for taking one: past a deadline that is not
/// zero both are refused, and up to it neither is refused for being late.
pub proof fn law_deadline_is_the_last_moment(
    s: RegistryView,
    job_id: u64,
    bid: BidView,
    amount: i128,
    caller: Seq<u8>,
    freelancer: Seq<u8>,
    now: u64,
)
    requires
        s.jobs.contains_key(job_id),
    ensures
        0 < s.jobs[job_id].bidding_deadline < now ==> {
            &&& s.submit_bid_refusal(job_id, bid, amount, now) is Some
            &&& s.accept_bid_refusal(job_id, caller, freelancer, now) is Some
        },
        s.jobs[job_id].bidding_deadline == 0 || now <= s.jobs[job_id].bidding_deadline ==> {
            &&& s.submit_bid_refusal(job_id, bid, amount, now) != Some(
                JobRegistryError::JobExpired,
            )
            &&& s.accept_bid_refusal(job_id, caller, freelancer, now) != Some(
                JobRegistryError::JobExpired,
            )
        },
{
}

/// The client can take any of the bids on an open job up to the deadline, wherever in the
/// list it stands, and the job is then assigned to that bid's freelancer.
pub proof fn law_any_bid_can_be_accepted(
    s: RegistryView,
    job_id: u64,
    caller: Seq<u8>,
    freelancer: Seq<u8>,
    now: u64,
    i: int,
)
    requires
        !s.locked,
        s.jobs.contains_key(job_id),
        s.jobs[job_id].status == JobStatus::Open,
        s.jobs[job_id].client == caller,
        s.jobs[job_id].bidding_deadline == 0 || now <= s.jobs[job_id].bidding_deadline,
        0 <= i < s.bids_on(job_id).len(),
        s.bids_on(job_id)[i].freelancer == freelancer,
    ensures
        s.accept_bid_refusal(job_id, caller, freelancer, now) is None,
        s.after_accepted_bid(job_id, freelancer).jobs[job_id].status == JobStatus::Assigned,
        s.after_accepted_bid(job_id, freelancer).jobs[job_id].freelancer == Some(freelancer),
        same_posting(s.after_accepted_bid(job_id, freelancer).jobs[job_id], s.jobs[job_id]),
{
}

/// A withdrawal is not refused where the lock is free, the job is there and open, and a bid
/// on it is the freelancer's; and only there.
pub proof fn law_withdrawal_that_is_taken(s: RegistryView, job_id: u64, freelancer: Seq<u8>)
    ensures
        s.cancel_bid_refusal(job_id, freelancer) is None <==> {
            &&& !s.locked
            &&& s.jobs.contains_key(job_id)
            &&& s.jobs[job_id].status == JobStatus::Open
            &&& exists|i: int|
                0 <= i < s.bids_on(job_id).len() && #[trigger] s.bids_on(job_id)[i].freelancer
                    == freelancer
        },
{
}

/// A job is kept under its number with what it is posted with, each under its own name,
/// open and without a freelancer, whether its number is chosen or the next.
pub proof fn law_job_is_kept_as_posted(
    s: RegistryView,
    job_id: u64,
    client: Seq<u8>,
    metadata_hash: Seq<u8>,
    budget_stroops: i128,
    bidding_deadline: u64,
    expires_at: u64,
)
    ensures
        ({
            let given = JobView::posted(
                client,
                metadata_hash,
                budget_stroops,
                bidding_deadline,
                expires_at,
            );
            let chosen = s.after_posted(job_id, given).jobs[job_id];
            let automatic = s.after_posted_auto(given).jobs[s.next_id()];
            &&& chosen == automatic
            &&& chosen.client == client
            &&& chosen.metadata_hash == metadata_hash
            &&& chosen.budget_stroops == budget_stroops
            &&& chosen.bidding_deadline == bidding_deadline
            &&& chosen.expires_at == expires_at
            &&& chosen.status == JobStatus::Open
            &&& chosen.freelancer is None
        }),
{
}

/// A posting is not refused with a budget above zero and one to 64 bytes of hash and, where
/// the number is chosen, a number above zero that no job has; and only then.
pub proof fn law_posting_that_is_taken(
    s: RegistryView,
    job_id: u64,
    metadata_hash: Seq<u8>,
    budget_stroops: i128,
)
    ensures
        s.post_job_auto_refusal(metadata_hash, budget_stroops) is None <==> budget_stroops > 0
            && 1 <= metadata_hash.len() <= 64,
        s.post_job_refusal(job_id, metadata_hash, budget_stroops) is None <==> budget_stroops > 0
            && 1 <= metadata_hash.len() <= 64 && job_id > 0 && !s.jobs.contains_key(job_id),
{
}

/// The work is not refused where the lock is free, it has one to 64 bytes of hash, and the
/// job is assigned to the freelancer; and only there.
pub proof fn law_delivery_that_is_taken(
    s: RegistryView,
    job_id: u64,
    freelancer: Seq<u8>,
    deliverable_hash: Seq<u8>,
)
    ensures
        s.submit_deliverable_refusal(job_id, freelancer, deliverable_hash) is None <==> {
            &&& !s.locked
            &&& 1 <= deliverable_hash.len() <= 64
            &&& s.jobs.contains_key(job_id)
            &&& s.jobs[job_id].status == JobStatus::Assigned
            &&& s.jobs[job_id].freelancer == Some(freelancer)
        },
{
}

/// A dispute is not refused where the job is assigned or delivered and the caller is its
/// client or its freelancer; and only there.
pub proof fn law_dispute_that_is_taken(s: RegistryView, job_id: u64, caller: Seq<u8>)
    ensures
        s.mark_disputed_refusal(job_id, caller) is None <==> {
            &&& s.jobs.contains_key(job_id)
            &&& s.jobs[job_id].client == caller || s.jobs[job_id].freelancer == Some(caller)
            &&& s.jobs[job_id].status == JobStatus::Assigned || s.jobs[job_id].status
                == JobStatus::DeliverableSubmitted
        },
{
}

/// The client closes a job whatever its stage where the lock is free, and without the lock
/// once its expiry, if not zero, has passed; nobody else does. The job is closed then, and
/// keeps its freelancer and what it was posted with.
pub proof fn law_client_closes_at_every_stage(
    s: RegistryView,
    job_id: u64,
    caller: Seq<u8>,
    now: u64,
)
    ensures
        s.close_job_refusal(job_id, caller) is None <==> !s.locked && s.jobs.contains_key(job_id)
            && s.jobs[job_id].client == caller,
        s.cancel_expired_job_refusal(job_id, caller, now) is None <==> s.jobs.contains_key(job_id)
            && s.jobs[job_id].client == caller && 0 < s.jobs[job_id].expires_at < now,
        s.with_status(job_id, JobStatus::Closed).jobs[job_id].status == JobStatus::Closed,
        s.with_status(job_id, JobStatus::Closed).jobs[job_id].freelancer
            == s.jobs[job_id].freelancer,
        same_posting(s.with_status(job_id, JobStatus::Closed).jobs[job_id], s.jobs[job_id]),
{
}

} // verus!
