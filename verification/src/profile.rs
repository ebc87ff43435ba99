//! Reputation profiles: scores in each role, and the badges that they earn.
//!
//! Scores are in basis points, from 0 to 10 000.
use crate::address::Address;
use crate::host::{
    badges_clone, badges_get, badges_held, badges_len, badges_new, badges_push_back, badges_set,
    bytes_clone, bytes_held,
};
use soroban_sdk::{Bytes, Env};
use vstd::prelude::*;

verus! {

/// The score that everybody starts with.
pub const DEFAULT_SCORE_BPS: i32 = 5_000;

/// The reviews that a participant received in one role.
#[derive(Copy, Clone, Debug, PartialEq)]
pub struct ReviewAggregate {
    pub total_points: i128,
    pub reviews: u32,
    pub average_rating_bps: i32,
}

impl ReviewAggregate {
    /// No reviews yet.
    pub fn new() -> (aggregate: Self)
        ensures
            aggregate == (ReviewAggregate {
                total_points: 0,
                reviews: 0,
                average_rating_bps: DEFAULT_SCORE_BPS,
            }),
    {
        Self { total_points: 0, reviews: 0, average_rating_bps: DEFAULT_SCORE_BPS }
    }
}

/// How a participant stands in one role.
#[derive(Copy, Clone, Debug, PartialEq)]
pub struct RoleMetrics {
    pub score: i32,
    pub completed_jobs: u32,
    pub review: ReviewAggregate,
    pub badge_level: u32,
}

impl RoleMetrics {
    /// How everybody starts. The default score earns bronze.
    pub open spec fn initial() -> Self {
        RoleMetrics {
            score: DEFAULT_SCORE_BPS,
            completed_jobs: 0,
            review: ReviewAggregate {
                total_points: 0,
                reviews: 0,
                average_rating_bps: DEFAULT_SCORE_BPS,
            },
            badge_level: 1,
        }
    }

    /// How everybody starts.
    pub fn new() -> (metrics: Self)
        ensures
            metrics == Self::initial(),
    {
        Self {
            score: DEFAULT_SCORE_BPS,
            completed_jobs: 0,
            review: ReviewAggregate::new(),
            badge_level: BadgeLevel::from_score(DEFAULT_SCORE_BPS).to_u32(),
        }
    }
}

/// The badge that a score earns: bronze from 4 000 on, silver from 6 000, gold from 8 000
/// and platinum from 9 500.
#[derive(Copy, Clone, Debug, PartialEq, Eq, Structural)]
pub enum BadgeLevel {
    NoBadge,
    Bronze,
    Silver,
    Gold,
    Platinum,
}

impl BadgeLevel {
    /// The least score that earns the badge; any score at all earns none.
    pub open spec fn threshold(self) -> int {
        match self {
            BadgeLevel::NoBadge => i32::MIN as int,
            BadgeLevel::Bronze => 4_000,
            BadgeLevel::Silver => 6_000,
            BadgeLevel::Gold => 8_000,
            BadgeLevel::Platinum => 9_500,
        }
    }

    /// The badge's place in the order of badges.
    pub open spec fn rank(self) -> u32 {
        match self {
            BadgeLevel::NoBadge => 0,
            BadgeLevel::Bronze => 1,
            BadgeLevel::Silver => 2,
            BadgeLevel::Gold => 3,
            BadgeLevel::Platinum => 4,
        }
    }

    /// The highest badge that a score earns.
    pub open spec fn of_score(score: i32) -> Self {
        if score >= 9_500 {
            BadgeLevel::Platinum
        } else if score >= 8_000 {
            BadgeLevel::Gold
        } else if score >= 6_000 {
            BadgeLevel::Silver
        } else if score >= 4_000 {
            BadgeLevel::Bronze
        } else {
            BadgeLevel::NoBadge
        }
    }

    /// The highest badge that a score earns.
    pub fn from_score(score: i32) -> (level: Self)
        ensures
            level == Self::of_score(score),
    {
        match score {
            s if s >= 9_500 => BadgeLevel::Platinum,
            s if s >= 8_000 => BadgeLevel::Gold,
            s if s >= 6_000 => BadgeLevel::Silver,
            s if s >= 4_000 => BadgeLevel::Bronze,
            _ => BadgeLevel::NoBadge,
        }
    }

    /// The badge's place in the order of badges.
    pub fn to_u32(&self) -> (rank: u32)
        ensures
            rank == self.rank(),
    {
        match self {
            BadgeLevel::NoBadge => 0,
            BadgeLevel::Bronze => 1,
            BadgeLevel::Silver => 2,
            BadgeLevel::Gold => 3,
            BadgeLevel::Platinum => 4,
        }
    }
}

/// The badges for which metadata is kept.
#[derive(Copy, Clone, Debug, PartialEq, Eq, Structural)]
pub enum BadgeTier {
    Bronze,
    Silver,
    Gold,
    Platinum,
}

impl BadgeTier {
    /// The number under which a list keeps the tier.
    pub open spec fn number(self) -> u32 {
        match self {
            BadgeTier::Bronze => 0,
            BadgeTier::Silver => 1,
            BadgeTier::Gold => 2,
            BadgeTier::Platinum => 3,
        }
    }

    /// The tier that a list keeps under a number.
    pub open spec fn numbered(n: u32) -> Self {
        match n {
            0 => BadgeTier::Bronze,
            1 => BadgeTier::Silver,
            2 => BadgeTier::Gold,
            _ => BadgeTier::Platinum,
        }
    }

    /// The tier that a list keeps under a number.
    fn from_number(n: u32) -> (tier: Self)
        ensures
            tier == Self::numbered(n),
    {
        match n {
            0 => BadgeTier::Bronze,
            1 => BadgeTier::Silver,
            2 => BadgeTier::Gold,
            _ => BadgeTier::Platinum,
        }
    }

    /// The number under which a list keeps the tier.
    fn to_number(&self) -> (n: u32)
        ensures
            n == self.number(),
    {
        match self {
            BadgeTier::Bronze => 0,
            BadgeTier::Silver => 1,
            BadgeTier::Gold => 2,
            BadgeTier::Platinum => 3,
        }
    }
}

/// Where the image or the description of one badge is found.
#[derive(Debug, PartialEq)]
pub struct BadgeMetadataEntry {
    pub tier: BadgeTier,
    /// An IPFS content identifier or any other URI.
    pub uri: Bytes,
}

/// What a [`BadgeMetadataEntry`] stands for.
pub struct BadgeMetadataView {
    pub tier: BadgeTier,
    pub uri: Seq<u8>,
}

impl View for BadgeMetadataEntry {
    type V = BadgeMetadataView;

    open spec fn view(&self) -> BadgeMetadataView {
        BadgeMetadataView { tier: self.tier, uri: bytes_held(self.uri) }
    }
}

impl Clone for BadgeMetadataEntry {
    fn clone(&self) -> (copy: Self)
        ensures
            copy@ == self@,
    {
        BadgeMetadataEntry { tier: self.tier, uri: bytes_clone(&self.uri) }
    }
}

/// The badge metadata of one profile, in the order in which the tiers were first set.
#[derive(Debug, PartialEq)]
pub struct BadgeMetadataList {
    entries: soroban_sdk::Vec<(u32, Bytes)>,
}

impl View for BadgeMetadataList {
    type V = Seq<BadgeMetadataView>;

    closed spec fn view(&self) -> Seq<BadgeMetadataView> {
        badges_held(self.entries).map_values(
            |entry: (u32, Seq<u8>)|
                BadgeMetadataView { tier: BadgeTier::numbered(entry.0), uri: entry.1 },
        )
    }
}

/// The position of the first entry for a tier; the number of entries where there is none.
pub open spec fn place_of(entries: Seq<BadgeMetadataView>, tier: BadgeTier) -> int
    decreases entries.len(),
{
    if entries.len() == 0 {
        0
    } else {
        let place = place_of(entries.drop_last(), tier);
        if place < entries.len() - 1 || entries.last().tier == tier {
            place
        } else {
            entries.len() as int
        }
    }
}

/// The URI that a list gives for a tier.
pub open spec fn uri_of(entries: Seq<BadgeMetadataView>, tier: BadgeTier) -> Option<Seq<u8>> {
    if place_of(entries, tier) < entries.len() {
        Some(entries[place_of(entries, tier)].uri)
    } else {
        None
    }
}

/// The list with the entry for a tier put in: in the place of the earlier one, or behind
/// all others where there is none.
pub open spec fn with_entry(
    entries: Seq<BadgeMetadataView>,
    entry: BadgeMetadataView,
) -> Seq<BadgeMetadataView> {
    if place_of(entries, entry.tier) < entries.len() {
        entries.update(place_of(entries, entry.tier), entry)
    } else {
        entries.push(entry)
    }
}

/// No entry before the first one for a tier is for that tier.
proof fn lemma_place_of(entries: Seq<BadgeMetadataView>, tier: BadgeTier)
    ensures
        0 <= place_of(entries, tier) <= entries.len(),
        place_of(entries, tier) < entries.len() ==> entries[place_of(entries, tier)].tier == tier,
        forall|i: int|
            0 <= i < place_of(entries, tier) ==> (#[trigger] entries[i]).tier != tier,
    decreases entries.len(),
{
    if entries.len() > 0 {
        let front = entries.drop_last();
        lemma_place_of(front, tier);
        assert forall|i: int| 0 <= i < place_of(entries, tier) implies (
        #[trigger] entries[i]).tier != tier by {
            if i < front.len() {
                assert(front[i] == entries[i]);
            }
        }
    }
}

/// Whether no two entries are for the same tier.
pub open spec fn one_entry_each(entries: Seq<BadgeMetadataView>) -> bool {
    forall|i: int, j: int|
        0 <= i < j < entries.len() ==> (#[trigger] entries[i]).tier != (#[trigger] entries[j]).tier
}

/// With one entry for each tier there are at most as many entries as tiers.
proof fn lemma_few_entries(entries: Seq<BadgeMetadataView>)
    requires
        one_entry_each(entries),
    ensures
        entries.len() <= 4,
{
    if entries.len() > 4 {
        assert(entries[0].tier != entries[1].tier && entries[0].tier != entries[2].tier
            && entries[0].tier != entries[3].tier && entries[0].tier != entries[4].tier);
        assert(entries[1].tier != entries[2].tier && entries[1].tier != entries[3].tier
            && entries[1].tier != entries[4].tier);
        assert(entries[2].tier != entries[3].tier && entries[2].tier != entries[4].tier);
        assert(entries[3].tier != entries[4].tier);
    }
}

impl BadgeMetadataList {
    /// There is at most one entry for each tier.
    #[verifier::type_invariant]
    spec fn inv(self) -> bool {
        one_entry_each(self@)
    }

    /// The list without entries.
    pub fn new(env: &Env) -> (list: Self)
        ensures
            list@ == Seq::<BadgeMetadataView>::empty(),
    {
        let entries = badges_new(env);
        let list = BadgeMetadataList { entries };
        assert(list@ =~= Seq::<BadgeMetadataView>::empty());
        list
    }

    /// The number of entries.
    pub fn len(&self) -> (n: u32)
        ensures
            n as nat == self@.len(),
    {
        badges_len(&self.entries)
    }

    /// The entry at a position, or nothing past the end.
    pub fn get(&self, i: u32) -> (entry: Option<BadgeMetadataEntry>)
        ensures
            entry is Some <==> i < self@.len(),
            entry matches Some(e) ==> e@ == self@[i as int],
    {
        match badges_get(&self.entries, i) {
            Some((tier, uri)) => Some(
                BadgeMetadataEntry { tier: BadgeTier::from_number(tier), uri },
            ),
            None => None,
        }
    }

    /// The position of the first entry for a tier; the number of entries where there is
    /// none.
    fn find(&self, tier: BadgeTier) -> (place: u32)
        ensures
            place == place_of(self@, tier),
    {
        proof {
            lemma_place_of(self@, tier);
        }
        let n = self.len();
        let mut i: u32 = 0;
        while i < n
            invariant
                i <= n,
                n as nat == self@.len(),
                forall|j: int| 0 <= j < i ==> (#[trigger] self@[j]).tier != tier,
                0 <= place_of(self@, tier) <= n,
                place_of(self@, tier) < n ==> self@[place_of(self@, tier)].tier == tier,
                forall|j: int|
                    0 <= j < place_of(self@, tier) ==> (#[trigger] self@[j]).tier != tier,
            decreases n - i,
        {
            if let Some(entry) = self.get(i) {
                if entry.tier == tier {
                    assert(self@[i as int].tier == tier);
                    return i;
                }
            }
            i += 1;
        }
        n
    }

    /// Puts in the entry for a tier: in the place of the earlier one, or behind all others
    /// where there is none.
    pub fn put(&mut self, entry: BadgeMetadataEntry)
        ensures
            final(self)@ == with_entry(old(self)@, entry@),
            one_entry_each(final(self)@),
    {
        proof {
            use_type_invariant(&*self);
            lemma_few_entries(self@);
            lemma_place_of(self@, entry.tier);
            law_one_entry_per_tier(self@, entry@);
        }
        let place = self.find(entry.tier);
        let tier = entry.tier.to_number();
        let mut entries = badges_clone(&self.entries);
        if place < self.len() {
            badges_set(&mut entries, place, tier, &entry.uri);
        } else {
            badges_push_back(&mut entries, tier, &entry.uri);
        }
        assert((BadgeMetadataList { entries })@ =~= with_entry(self@, entry@));
        *self = BadgeMetadataList { entries };
    }

    /// The URI for a tier, if one was set.
    pub fn uri(&self, tier: BadgeTier) -> (uri: Option<Bytes>)
        ensures
            match uri {
                Some(u) => uri_of(self@, tier) == Some(bytes_held(u)),
                None => uri_of(self@, tier) is None,
            },
    {
        let place = self.find(tier);
        match self.get(place) {
            Some(entry) => Some(entry.uri),
            None => None,
        }
    }
}

impl Clone for BadgeMetadataList {
    fn clone(&self) -> (copy: Self)
        ensures
            copy@ == self@,
    {
        proof {
            use_type_invariant(self);
        }
        let entries = badges_clone(&self.entries);
        assert((BadgeMetadataList { entries })@ == self@);
        BadgeMetadataList { entries }
    }
}

/// A participant's reputation.
#[derive(Debug, PartialEq)]
pub struct Profile {
    pub address: Address,
    pub client: RoleMetrics,
    pub freelancer: RoleMetrics,
    pub is_blacklisted: bool,
    pub metadata_hash: Option<Bytes>,
    /// Where the images of the badges are found, as the administrator set it.
    pub badge_metadata: BadgeMetadataList,
}

/// The badge level that a score earns. Who is blacklisted earns none.
pub open spec fn earned_level(score: i32, is_blacklisted: bool) -> u32 {
    if is_blacklisted {
        0
    } else {
        BadgeLevel::of_score(score).rank()
    }
}

impl RoleMetrics {
    /// The metrics with the badge that the score earns.
    pub open spec fn refreshed(self, is_blacklisted: bool) -> Self {
        RoleMetrics { badge_level: earned_level(self.score, is_blacklisted), ..self }
    }
}

/// The bytes of a host byte string that may be absent.
pub open spec fn optional_bytes(bytes: Option<Bytes>) -> Option<Seq<u8>> {
    match bytes {
        Some(b) => Some(bytes_held(b)),
        None => None,
    }
}

impl Clone for Profile {
    fn clone(&self) -> (copy: Self)
        ensures
            copy.address == self.address,
            copy.client == self.client,
            copy.freelancer == self.freelancer,
            copy.is_blacklisted == self.is_blacklisted,
            optional_bytes(copy.metadata_hash) == optional_bytes(self.metadata_hash),
            copy.badge_metadata@ == self.badge_metadata@,
    {
        let metadata_hash = match &self.metadata_hash {
            Some(hash) => Some(bytes_clone(hash)),
            None => None,
        };
        Profile {
            address: self.address,
            client: self.client,
            freelancer: self.freelancer,
            is_blacklisted: self.is_blacklisted,
            metadata_hash,
            badge_metadata: self.badge_metadata.clone(),
        }
    }
}

impl Profile {
    /// The profile of somebody new.
    pub fn new(env: &Env, address: Address) -> (profile: Self)
        ensures
            profile.address == address,
            profile.client == RoleMetrics::initial(),
            profile.freelancer == RoleMetrics::initial(),
            !profile.is_blacklisted,
            profile.metadata_hash is None,
            profile.badge_metadata@ == Seq::<BadgeMetadataView>::empty(),
    {
        Self {
            address,
            client: RoleMetrics::new(),
            freelancer: RoleMetrics::new(),
            is_blacklisted: false,
            metadata_hash: None,
            badge_metadata: BadgeMetadataList::new(env),
        }
    }

    /// Sets the badges of both roles to what the scores earn.
    pub fn refresh_badges(&mut self)
        ensures
            *final(self) == (Profile {
                client: old(self).client.refreshed(old(self).is_blacklisted),
                freelancer: old(self).freelancer.refreshed(old(self).is_blacklisted),
                ..*old(self)
            }),
    {
        let blacklisted = self.is_blacklisted;
        self.client.badge_level =
        if blacklisted {
            0
        } else {
            BadgeLevel::from_score(self.client.score).to_u32()
        };
        self.freelancer.badge_level =
        if blacklisted {
            0
        } else {
            BadgeLevel::from_score(self.freelancer.score).to_u32()
        };
    }

    /// Sets the URI of the badge of a tier.
    pub fn set_badge_metadata(&mut self, tier: BadgeTier, uri: Bytes)
        ensures
            final(self).badge_metadata@ == with_entry(
                old(self).badge_metadata@,
                BadgeMetadataView { tier, uri: bytes_held(uri) },
            ),
            *final(self) == (Profile {
                badge_metadata: final(self).badge_metadata,
                ..*old(self)
            }),
    {
        self.badge_metadata.put(BadgeMetadataEntry { tier, uri });
    }

    /// The URI of the badge of a tier, if one was set.
    pub fn get_badge_metadata(&self, tier: BadgeTier) -> (uri: Option<Bytes>)
        ensures
            match uri {
                Some(u) => uri_of(self.badge_metadata@, tier) == Some(bytes_held(u)),
                None => uri_of(self.badge_metadata@, tier) is None,
            },
    {
        self.badge_metadata.uri(tier)
    }
}

/// The badge of a score is the highest one whose threshold the score reaches.
pub proof fn law_badge_is_the_highest_earned(score: i32, level: BadgeLevel)
    ensures
        BadgeLevel::of_score(score).threshold() <= score,
        level.threshold() <= score ==> level.rank() <= BadgeLevel::of_score(score).rank(),
{
}

/// A higher score never earns a lower badge.
pub proof fn law_badges_rise_with_the_score(low: i32, high: i32)
    requires
        low <= high,
    ensures
        BadgeLevel::of_score(low).rank() <= BadgeLevel::of_score(high).rank(),
{
}

/// No two badges have the same rank.
pub proof fn law_ranks_tell_badges_apart(a: BadgeLevel, b: BadgeLevel)
    ensures
        a.rank() == b.rank() ==> a == b,
{
}

/// A new participant already has the badge of the default score, and a second refresh
/// changes nothing that the first did not.
pub proof fn law_refreshing_settles(metrics: RoleMetrics, is_blacklisted: bool)
    ensures
        RoleMetrics::initial().refreshed(false) == RoleMetrics::initial(),
        metrics.refreshed(is_blacklisted).refreshed(is_blacklisted) == metrics.refreshed(
            is_blacklisted,
        ),
{
}

/// What was set for a tier is what is read for it, and every other tier reads as before.
pub proof fn law_badge_metadata_reads_back(
    entries: Seq<BadgeMetadataView>,
    entry: BadgeMetadataView,
    other: BadgeTier,
)
    requires
        other != entry.tier,
    ensures
        uri_of(with_entry(entries, entry), entry.tier) == Some(entry.uri),
        uri_of(with_entry(entries, entry), other) == uri_of(entries, other),
{
    let after = with_entry(entries, entry);
    lemma_place_of(entries, entry.tier);
    lemma_place_of(entries, other);
    lemma_place_of(after, entry.tier);
    lemma_place_of(after, other);
    let place = place_of(entries, entry.tier);
    assert(after[place] == entry);
    assert forall|i: int| 0 <= i < entries.len() && i != place implies after[i] == entries[i] by {
    }
    let p = place_of(after, entry.tier);
    assert(p == place) by {
        if p < place {
            assert(after[p] == entries[p]);
        }
    }
    let q = place_of(after, other);
    let r = place_of(entries, other);
    if r < entries.len() {
        assert(after[r] == entries[r]);
        if q < r {
            assert(after[q] == entries[q]);
        }
        assert(q == r);
    } else {
        if q < after.len() {
            assert(q != place);
            assert(after[q] == entries[q]);
        }
    }
}

/// Setting badge metadata keeps at most one entry for each tier.
pub proof fn law_one_entry_per_tier(entries: Seq<BadgeMetadataView>, entry: BadgeMetadataView)
    requires
        one_entry_each(entries),
    ensures
        one_entry_each(with_entry(entries, entry)),
{
    lemma_place_of(entries, entry.tier);
    let after = with_entry(entries, entry);
    let place = place_of(entries, entry.tier);
    assert forall|i: int, j: int| 0 <= i < j < after.len() implies (#[trigger] after[i]).tier != (
    #[trigger] after[j]).tier by {
        if i != place && j != place {
            assert(entries[i].tier != entries[j].tier);
        } else if i == place && place < entries.len() {
            assert(entries[i].tier != entries[j].tier);
        } else if j == place && place < entries.len() {
            assert(entries[i].tier != entries[j].tier);
        } else {
            assert(entries[i].tier != entry.tier);
        }
    }
}

/// A badge is earned from its score on: bronze from 4 000, silver from 6 000, gold from
/// 8 000, platinum from 9 500. Its rank says how many of these a score reaches.
pub proof fn law_badges_start_at_their_scores(score: i32, level: BadgeLevel, rank: u32)
    requires
        call_ensures(BadgeLevel::from_score, (score,), level),
        call_ensures(BadgeLevel::to_u32, (&level,), rank),
    ensures
        rank >= 1 <==> score >= 4_000,
        rank >= 2 <==> score >= 6_000,
        rank >= 3 <==> score >= 8_000,
        rank >= 4 <==> score >= 9_500,
        rank <= 4,
        level == BadgeLevel::NoBadge <==> score < 4_000,
        level == BadgeLevel::Bronze <==> 4_000 <= score < 6_000,
        level == BadgeLevel::Silver <==> 6_000 <= score < 8_000,
        level == BadgeLevel::Gold <==> 8_000 <= score < 9_500,
        level == BadgeLevel::Platinum <==> score >= 9_500,
{
}

/// Everybody starts in both roles without reviews and jobs, with a score and an average of
/// 5 000 and the bronze badge, not blacklisted, and without hash and badge metadata.
pub proof fn law_everybody_starts_alike(
    env: &Env,
    address: Address,
    profile: Profile,
    metrics: RoleMetrics,
    review: ReviewAggregate,
)
    requires
        call_ensures(Profile::new, (env, address), profile),
        call_ensures(RoleMetrics::new, (), metrics),
        call_ensures(ReviewAggregate::new, (), review),
    ensures
        profile.address@ == address@,
        profile.client == metrics && profile.freelancer == metrics,
        !profile.is_blacklisted,
        profile.metadata_hash is None,
        profile.badge_metadata@.len() == 0,
        metrics.score == 5_000 && metrics.completed_jobs == 0 && metrics.badge_level == 1,
        metrics.review == review,
        review.total_points == 0 && review.reviews == 0 && review.average_rating_bps == 5_000,
{
}

/// Refreshing sets the badge of each role to what that role's own score earns, and to none
/// where the participant is blacklisted. Nothing else changes.
pub proof fn law_refreshing_sets_badges_by_score(
    profile: &mut Profile,
    client_level: BadgeLevel,
    client_rank: u32,
    freelancer_level: BadgeLevel,
    freelancer_rank: u32,
)
    requires
        call_ensures(Profile::refresh_badges, (profile,), ()),
        call_ensures(BadgeLevel::from_score, (profile.client.score,), client_level),
        call_ensures(BadgeLevel::to_u32, (&client_level,), client_rank),
        call_ensures(BadgeLevel::from_score, (profile.freelancer.score,), freelancer_level),
        call_ensures(BadgeLevel::to_u32, (&freelancer_level,), freelancer_rank),
    ensures
        old(profile).is_blacklisted ==> final(profile).client.badge_level == 0
            && final(profile).freelancer.badge_level == 0,
        !old(profile).is_blacklisted ==> final(profile).client.badge_level == client_rank
            && final(profile).freelancer.badge_level == freelancer_rank,
        final(profile).client.score == old(profile).client.score,
        final(profile).client.completed_jobs == old(profile).client.completed_jobs,
        final(profile).client.review == old(profile).client.review,
        final(profile).freelancer.score == old(profile).freelancer.score,
        final(profile).freelancer.completed_jobs == old(profile).freelancer.completed_jobs,
        final(profile).freelancer.review == old(profile).freelancer.review,
        final(profile).address == old(profile).address,
        final(profile).is_blacklisted == old(profile).is_blacklisted,
        final(profile).metadata_hash == old(profile).metadata_hash,
        final(profile).badge_metadata == old(profile).badge_metadata,
{
}

/// A tier is kept under a number of its own, which leads back to it.
pub proof fn law_tier_numbers_lead_back(tier: BadgeTier, other: BadgeTier)
    ensures
        BadgeTier::numbered(tier.number()) == tier,
        tier.number() == other.number() ==> tier == other,
{
}

/// The URI for a tier is that of the first entry for it, and there is none without an entry.
pub proof fn law_uri_is_that_of_the_first_entry(
    list: &BadgeMetadataList,
    tier: BadgeTier,
    uri: Option<Bytes>,
    i: int,
)
    requires
        call_ensures(BadgeMetadataList::uri, (list, tier), uri),
    ensures
        uri is Some <==> exists|j: int| 0 <= j < list@.len() && (#[trigger] list@[j]).tier == tier,
        0 <= i < list@.len() && list@[i].tier == tier && (forall|j: int|
            0 <= j < i ==> (#[trigger] list@[j]).tier != tier) ==> (uri matches Some(u)
            && bytes_held(u) == list@[i].uri),
{
    lemma_place_of(list@, tier);
    let place = place_of(list@, tier);
    if place < list@.len() {
        assert(list@[place].tier == tier);
    }
}

/// An entry put in takes the place of the first one for its tier, or stands behind all
/// others where there is none. Every other entry stays where it is.
pub proof fn law_entry_takes_its_place(
    list: &mut BadgeMetadataList,
    entry: BadgeMetadataEntry,
    i: int,
)
    requires
        call_ensures(BadgeMetadataList::put, (list, entry), ()),
    ensures
        0 <= i < old(list)@.len() && old(list)@[i].tier == entry.tier && (forall|j: int|
            0 <= j < i ==> (#[trigger] old(list)@[j]).tier != entry.tier) ==> final(list)@
            == old(list)@.update(
            i,
            BadgeMetadataView { tier: entry.tier, uri: bytes_held(entry.uri) },
        ),
        (forall|j: int|
            0 <= j < old(list)@.len() ==> (#[trigger] old(list)@[j]).tier != entry.tier)
            ==> final(list)@ == old(list)@.push(
            BadgeMetadataView { tier: entry.tier, uri: bytes_held(entry.uri) },
        ),
{
    lemma_place_of(old(list)@, entry.tier);
    let place = place_of(old(list)@, entry.tier);
    if place < old(list)@.len() {
        assert(old(list)@[place].tier == entry.tier);
    }
}

/// What was set for a tier is read for it, every other tier reads as before, and nothing
/// but the badge metadata of the profile changes.
pub proof fn law_set_badge_metadata_is_read(
    profile: &mut Profile,
    tier: BadgeTier,
    uri: Bytes,
    later: &Profile,
    other: BadgeTier,
    read: Option<Bytes>,
    before: &Profile,
    read_before: Option<Bytes>,
)
    requires
        call_ensures(Profile::set_badge_metadata, (profile, tier, uri), ()),
        call_ensures(Profile::get_badge_metadata, (later, other), read),
        call_ensures(Profile::get_badge_metadata, (before, other), read_before),
    ensures
        later.badge_metadata@ == final(profile).badge_metadata@ && other == tier ==> (
        read matches Some(u) && bytes_held(u) == bytes_held(uri)),
        before.badge_metadata@ == old(profile).badge_metadata@ && later.badge_metadata@
            == final(profile).badge_metadata@ && other != tier ==> optional_bytes(read)
            == optional_bytes(read_before),
        later.badge_metadata@.len() == 0 && other == tier ==> read is None,
        final(profile).address == old(profile).address,
        final(profile).client == old(profile).client,
        final(profile).freelancer == old(profile).freelancer,
        final(profile).is_blacklisted == old(profile).is_blacklisted,
        final(profile).metadata_hash == old(profile).metadata_hash,
{
    let entry = BadgeMetadataView { tier, uri: bytes_held(uri) };
    lemma_place_of(later.badge_metadata@, other);
    if other == tier {
        let apart = if tier == BadgeTier::Bronze {
            BadgeTier::Gold
        } else {
            BadgeTier::Bronze
        };
        law_badge_metadata_reads_back(old(profile).badge_metadata@, entry, apart);
    } else {
        law_badge_metadata_reads_back(old(profile).badge_metadata@, entry, other);
    }
}

/// A list of badge metadata starts empty, and an entry of one is read with the tier and the
/// URI that it has.
pub proof fn law_badge_entries_are_read_as_kept(
    env: &Env,
    fresh: BadgeMetadataList,
    list: &BadgeMetadataList,
    n: u32,
    i: u32,
    read: Option<BadgeMetadataEntry>,
)
    requires
        call_ensures(BadgeMetadataList::new, (env,), fresh),
        call_ensures(BadgeMetadataList::len, (list,), n),
        call_ensures(BadgeMetadataList::get, (list, i), read),
    ensures
        fresh@.len() == 0,
        n == list@.len(),
        read is Some <==> i < n,
        read matches Some(e) ==> e.tier == list@[i as int].tier && bytes_held(e.uri)
            == list@[i as int].uri,
{
}

/// A copy of a profile or of badge metadata holds what the copied one holds.
pub proof fn law_profile_copies_hold_the_same(
    profile: Profile,
    copy: Profile,
    list: BadgeMetadataList,
    list_copy: BadgeMetadataList,
    entry: BadgeMetadataEntry,
    entry_copy: BadgeMetadataEntry,
)
    requires
        call_ensures(<Profile as Clone>::clone, (&profile,), copy),
        call_ensures(<BadgeMetadataList as Clone>::clone, (&list,), list_copy),
        call_ensures(<BadgeMetadataEntry as Clone>::clone, (&entry,), entry_copy),
    ensures
        copy.address@ == profile.address@,
        copy.client == profile.client && copy.freelancer == profile.freelancer,
        copy.is_blacklisted == profile.is_blacklisted,
        profile.metadata_hash matches Some(hash) ==> (copy.metadata_hash matches Some(h)
            && bytes_held(h) == bytes_held(hash)),
        profile.metadata_hash is None ==> copy.metadata_hash is None,
        copy.badge_metadata@ == profile.badge_metadata@,
        list_copy@ == list@,
        entry_copy.tier == entry.tier && bytes_held(entry_copy.uri) == bytes_held(entry.uri),
{
    assert(entry_copy@ == entry@);
}

} // verus!
