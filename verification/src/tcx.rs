//! Token curated registries (TCX) owned by governance entities: content
//! nodes are proposed as listings, challenged, voted on and resolved, and
//! voters claim their outcome.
use vstd::prelude::*;
use crate::types::{AccountId, Balance, Moment, ContentHash};
use crate::storage::StorageMap;
use crate::ge::{self, GeId};

verus! {

pub type TcxId = u64;

pub type TcxType = u64;

pub type ActionId = u64;

pub type ListingId = u64;

pub type ChallengeId = u64;

/// A registry.
#[derive(Clone, Copy, Debug, PartialEq, Eq, Structural)]
pub struct Tcx {
    pub tcx_type: TcxType,
}

/// A content node proposed to a registry.
#[derive(Clone, Copy, Debug, PartialEq, Eq, Structural)]
pub struct Listing {
    pub id: ListingId,
    pub node_id: ContentHash,
    pub amount: Balance,
    pub application_expiry: Moment,
    pub whitelisted: bool,
    /// The open challenge against the listing; 0 where there is none.
    pub challenge_id: ChallengeId,
    pub owner: AccountId,
}

/// A challenge against a listing.
#[derive(Clone, Copy, Debug, PartialEq, Eq, Structural)]
pub struct Challenge {
    pub amount: Balance,
    pub voting_ends: Moment,
    pub resolved: bool,
    pub reward_pool: Balance,
    pub total_tokens: Balance,
    pub owner: AccountId,
}

/// A vote on a challenge.
#[derive(Clone, Copy, Debug, PartialEq, Eq, Structural)]
pub struct Vote {
    pub value: bool,
    pub amount: Balance,
    pub claimed: bool,
}

/// The tally of a challenge.
#[derive(Clone, Copy, Debug, PartialEq, Eq, Structural)]
pub struct Poll {
    pub votes_for: Balance,
    pub votes_against: Balance,
    pub passed: bool,
}

pub open spec fn empty_listing() -> Listing {
    Listing {
        id: 0,
        node_id: 0,
        amount: 0,
        application_expiry: 0,
        whitelisted: false,
        challenge_id: 0,
        owner: 0,
    }
}

pub open spec fn empty_challenge() -> Challenge {
    Challenge {
        amount: 0,
        voting_ends: 0,
        resolved: false,
        reward_pool: 0,
        total_tokens: 0,
        owner: 0,
    }
}

pub open spec fn empty_vote() -> Vote {
    Vote { value: false, amount: 0, claimed: false }
}

pub open spec fn empty_poll() -> Poll {
    Poll { votes_for: 0, votes_against: 0, passed: false }
}

impl Default for Listing {
    fn default() -> (r: Self)
        ensures
            r == empty_listing(),
    {
        Listing {
            id: 0,
            node_id: 0,
            amount: 0,
            application_expiry: 0,
            whitelisted: false,
            challenge_id: 0,
            owner: 0,
        }
    }
}

impl Default for Challenge {
    fn default() -> (r: Self)
        ensures
            r == empty_challenge(),
    {
        Challenge {
            amount: 0,
            voting_ends: 0,
            resolved: false,
            reward_pool: 0,
            total_tokens: 0,
            owner: 0,
        }
    }
}

impl Default for Vote {
    fn default() -> (r: Self)
        ensures
            r == empty_vote(),
    {
        Vote { value: false, amount: 0, claimed: false }
    }
}

impl Default for Poll {
    fn default() -> (r: Self)
        ensures
            r == empty_poll(),
    {
        Poll { votes_for: 0, votes_against: 0, passed: false }
    }
}

/// What a successful call reports.
#[derive(Clone, Copy, Debug, PartialEq, Eq, Structural)]
pub enum TcxEvent {
    Proposed(AccountId, TcxId, ContentHash, Balance, ActionId),
    Challenged(AccountId, TcxId, ContentHash, Balance),
    Voted(AccountId, ChallengeId, Balance, bool),
    Resolved(ChallengeId),
    Accepted(TcxId, ContentHash),
    Rejected(TcxId, ContentHash),
    Claimed(AccountId, ChallengeId),
    Created(GeId, TcxId),
}

/// Why a call was refused.
#[derive(Clone, Copy, Debug, PartialEq, Eq, Structural)]
pub enum TcxError {
    ExceedMaxTcxCount,
    ExceedMaxTcxCountForGe,
    TcxDoesNotExist,
    GeDoesNotExist,
    DepositBelowMinDeposit,
    OverflowApplicationExpiry,
    ExceedMaxListingCount,
    ListingAlreadyExists,
    ListingNotFound,
    ListingAlreadyChallenged,
    CannotChallengeOwnListing,
    AmountNotEnoughToChallenge,
    ApplyStagePassed,
    OverflowVotingExpiry,
    ExceedMaxChallengeCount,
    ChallengeDoesNotExist,
    ChallengeAlreadyResolved,
    CommitStagePassed,
    ApplyStageNotPassed,
    CommitStageNotPassed,
    ChallengeNotFound,
    ChallengeNotResolved,
    VoteAlreadyClaimed,
}

impl TcxError {
    /// The text of the message under which the runtime reports this error.
    pub open spec fn text(&self) -> Seq<char> {
        match self {
            TcxError::ExceedMaxTcxCount => "Exceed maximum tcx count"@,
            TcxError::ExceedMaxTcxCountForGe => "Exceed maximum tcx count for ge"@,
            TcxError::TcxDoesNotExist => "TCX does not exist / TCX owner does not exist"@,
            TcxError::GeDoesNotExist => "GE does not exist"@,
            TcxError::DepositBelowMinDeposit => "deposit should be more than min_deposit"@,
            TcxError::OverflowApplicationExpiry => "Overflow when setting application expiry."@,
            TcxError::ExceedMaxListingCount => "Exceed max listing count"@,
            TcxError::ListingAlreadyExists => "Listing already exists"@,
            TcxError::ListingNotFound => "Listing not found"@,
            TcxError::ListingAlreadyChallenged => "Listing is already challenged."@,
            TcxError::CannotChallengeOwnListing => "You cannot challenge your own listing."@,
            TcxError::AmountNotEnoughToChallenge => "Amount not enough to challenge"@,
            TcxError::ApplyStagePassed => "Apply stage length has passed."@,
            TcxError::OverflowVotingExpiry => "Overflow when setting voting expiry."@,
            TcxError::ExceedMaxChallengeCount => "Exceed maximum challenge count"@,
            TcxError::ChallengeDoesNotExist => "Challenge does not exist."@,
            TcxError::ChallengeAlreadyResolved => "Challenge is already resolved."@,
            TcxError::CommitStagePassed => "Commit stage length has passed."@,
            TcxError::ApplyStageNotPassed => "Apply stage length has not passed."@,
            TcxError::CommitStageNotPassed => "Commit stage length has not passed."@,
            TcxError::ChallengeNotFound => "Challenge not found."@,
            TcxError::ChallengeNotResolved => "Challenge is not resolved."@,
            TcxError::VoteAlreadyClaimed => "Vote reward has already been claimed."@,
        }
    }

    /// The message under which the runtime reports this error.
    pub fn message(&self) -> (r: &'static str)
        ensures
            r@ == self.text(),
    {
        match self {
            TcxError::ExceedMaxTcxCount => "Exceed maximum tcx count",
            TcxError::ExceedMaxTcxCountForGe => "Exceed maximum tcx count for ge",
            TcxError::TcxDoesNotExist => "TCX does not exist / TCX owner does not exist",
            TcxError::GeDoesNotExist => "GE does not exist",
            TcxError::DepositBelowMinDeposit => "deposit should be more than min_deposit",
            TcxError::OverflowApplicationExpiry => "Overflow when setting application expiry.",
            TcxError::ExceedMaxListingCount => "Exceed max listing count",
            TcxError::ListingAlreadyExists => "Listing already exists",
            TcxError::ListingNotFound => "Listing not found",
            TcxError::ListingAlreadyChallenged => "Listing is already challenged.",
            TcxError::CannotChallengeOwnListing => "You cannot challenge your own listing.",
            TcxError::AmountNotEnoughToChallenge => "Amount not enough to challenge",
            TcxError::ApplyStagePassed => "Apply stage length has passed.",
            TcxError::OverflowVotingExpiry => "Overflow when setting voting expiry.",
            TcxError::ExceedMaxChallengeCount => "Exceed maximum challenge count",
            TcxError::ChallengeDoesNotExist => "Challenge does not exist.",
            TcxError::ChallengeAlreadyResolved => "Challenge is already resolved.",
            TcxError::CommitStagePassed => "Commit stage length has passed.",
            TcxError::ApplyStageNotPassed => "Apply stage length has not passed.",
            TcxError::CommitStageNotPassed => "Commit stage length has not passed.",
            TcxError::ChallengeNotFound => "Challenge not found.",
            TcxError::ChallengeNotResolved => "Challenge is not resolved.",
            TcxError::VoteAlreadyClaimed => "Vote reward has already been claimed.",
        }
    }
}

/// What the registry module holds.
#[verifier::ext_equal]
pub struct TcxState {
    /// The registries, by identifier.
    pub tcxs: Map<TcxId, Tcx>,
    /// The number of registries created, which is the largest identifier.
    pub tcx_count: TcxId,
    /// The entity that owns each registry.
    pub tcx_owner: Map<TcxId, GeId>,
    /// The registries of each entity, by their 1-based rank in the entity.
    pub owned_tcxs: Map<(GeId, TcxId), TcxId>,
    /// The number of registries of each entity.
    pub owned_tcxs_count: Map<GeId, TcxId>,
    /// The listings of each registry, by node.
    pub listings: Map<(TcxId, ContentHash), Listing>,
    /// The number of listings of each registry.
    pub listings_count: Map<TcxId, ListingId>,
    /// The node of each listing, by registry and listing identifier.
    pub listing_index: Map<(TcxId, ListingId), ContentHash>,
    pub challenges: Map<ChallengeId, Challenge>,
    pub votes: Map<(ChallengeId, AccountId), Vote>,
    pub polls: Map<ChallengeId, Poll>,
    /// The identifier of the last challenge.
    pub nonce: ChallengeId,
}

impl TcxState {
    pub open spec fn owned_count(self, ge_id: GeId) -> TcxId {
        if self.owned_tcxs_count.contains_key(ge_id) { self.owned_tcxs_count[ge_id] } else { 0 }
    }

    pub open spec fn listing_count(self, tcx_id: TcxId) -> ListingId {
        if self.listings_count.contains_key(tcx_id) { self.listings_count[tcx_id] } else { 0 }
    }

    pub open spec fn listing(self, tcx_id: TcxId, node_id: ContentHash) -> Listing {
        if self.listings.contains_key((tcx_id, node_id)) {
            self.listings[(tcx_id, node_id)]
        } else {
            empty_listing()
        }
    }

    pub open spec fn challenge(self, id: ChallengeId) -> Challenge {
        if self.challenges.contains_key(id) { self.challenges[id] } else { empty_challenge() }
    }

    pub open spec fn poll(self, id: ChallengeId) -> Poll {
        if self.polls.contains_key(id) { self.polls[id] } else { empty_poll() }
    }

    pub open spec fn vote(self, id: ChallengeId, who: AccountId) -> Vote {
        if self.votes.contains_key((id, who)) { self.votes[(id, who)] } else { empty_vote() }
    }

    /// The challenge bookkeeping of the registries: challenge and poll
    /// records exist for identifiers up to the nonce only, a listing under
    /// challenge refers to an existing challenge that is not yet resolved,
    /// and no two listings are under the same challenge.
    pub open spec fn inv(self) -> bool {
        &&& forall|c: ChallengeId| #[trigger]
            self.challenges.contains_key(c) ==> 1 <= c <= self.nonce
        &&& forall|c: ChallengeId| #[trigger] self.polls.contains_key(c) ==> 1 <= c <= self.nonce
        &&& forall|k: (TcxId, ContentHash)| #[trigger]
            self.listings.contains_key(k) && self.listings[k].challenge_id != 0 ==> {
                &&& self.challenges.contains_key(self.listings[k].challenge_id)
                &&& !self.challenges[self.listings[k].challenge_id].resolved
            }
        &&& forall|k1: (TcxId, ContentHash), k2: (TcxId, ContentHash)|
            #![trigger self.listings[k1], self.listings[k2]]
            self.listings.contains_key(k1) && self.listings.contains_key(k2) && k1 != k2
                && self.listings[k1].challenge_id != 0 ==> self.listings[k1].challenge_id
                != self.listings[k2].challenge_id
    }

    /// The outcome of `create`.
    pub open spec fn create_outcome(
        before: TcxState,
        after: TcxState,
        ge_id: GeId,
        tcx_type: TcxType,
        r: Result<(TcxId, TcxEvent), TcxError>,
    ) -> bool {
        let new_id = (before.tcx_count + 1) as TcxId;
        let new_owned = (before.owned_count(ge_id) + 1) as TcxId;
        if before.tcx_count == TcxId::MAX {
            r == Err::<(TcxId, TcxEvent), TcxError>(TcxError::ExceedMaxTcxCount) && after == before
        } else if before.owned_count(ge_id) == TcxId::MAX {
            r == Err::<(TcxId, TcxEvent), TcxError>(TcxError::ExceedMaxTcxCountForGe) && after == before
        } else {
            &&& r == Ok::<(TcxId, TcxEvent), TcxError>((new_id, TcxEvent::Created(ge_id, new_id)))
            &&& after == TcxState {
                tcxs: before.tcxs.insert(new_id, Tcx { tcx_type }),
                tcx_count: new_id,
                tcx_owner: before.tcx_owner.insert(new_id, ge_id),
                owned_tcxs: before.owned_tcxs.insert((ge_id, new_owned), new_id),
                owned_tcxs_count: before.owned_tcxs_count.insert(ge_id, new_owned),
                ..before
            }
        }
    }

    /// The outcome of `propose`.
    pub open spec fn propose_outcome(
        before: TcxState,
        after: TcxState,
        ge: ge::Module,
        now: Moment,
        who: AccountId,
        tcx_id: TcxId,
        node_id: ContentHash,
        amount: Balance,
        action_id: ActionId,
        r: Result<TcxEvent, TcxError>,
    ) -> bool {
        if !before.tcx_owner.contains_key(tcx_id) {
            r == Err::<TcxEvent, TcxError>(TcxError::TcxDoesNotExist) && after == before
        } else if !ge.entities().contains_key(before.tcx_owner[tcx_id]) {
            r == Err::<TcxEvent, TcxError>(TcxError::GeDoesNotExist) && after == before
        } else {
            let entity = ge.entities()[before.tcx_owner[tcx_id]];
            let new_count = (before.listing_count(tcx_id) + 1) as ListingId;
            if amount < entity.min_deposit {
                r == Err::<TcxEvent, TcxError>(TcxError::DepositBelowMinDeposit) && after == before
            } else if now + entity.apply_stage_len > Moment::MAX {
                r == Err::<TcxEvent, TcxError>(TcxError::OverflowApplicationExpiry) && after
                    == before
            } else if before.listing_count(tcx_id) == ListingId::MAX {
                r == Err::<TcxEvent, TcxError>(TcxError::ExceedMaxListingCount) && after == before
            } else if before.listings.contains_key((tcx_id, node_id)) {
                r == Err::<TcxEvent, TcxError>(TcxError::ListingAlreadyExists) && after == before
            } else {
                &&& r == Ok::<TcxEvent, TcxError>(
                    TcxEvent::Proposed(who, tcx_id, node_id, amount, action_id),
                )
                &&& after == TcxState {
                    listings: before.listings.insert(
                        (tcx_id, node_id),
                        Listing {
                            id: new_count,
                            node_id,
                            amount,
                            application_expiry: (now + entity.apply_stage_len) as Moment,
                            whitelisted: false,
                            challenge_id: 0,
                            owner: who,
                        },
                    ),
                    listings_count: before.listings_count.insert(tcx_id, new_count),
                    listing_index: before.listing_index.insert((tcx_id, new_count), node_id),
                    ..before
                }
            }
        }
    }

    /// The outcome of `challenge`.
    pub open spec fn challenge_outcome(
        before: TcxState,
        after: TcxState,
        ge: ge::Module,
        now: Moment,
        who: AccountId,
        tcx_id: TcxId,
        node_id: ContentHash,
        amount: Balance,
        r: Result<TcxEvent, TcxError>,
    ) -> bool {
        let listing = before.listing(tcx_id, node_id);
        if !before.tcx_owner.contains_key(tcx_id) {
            r == Err::<TcxEvent, TcxError>(TcxError::TcxDoesNotExist) && after == before
        } else if !ge.entities().contains_key(before.tcx_owner[tcx_id]) {
            r == Err::<TcxEvent, TcxError>(TcxError::GeDoesNotExist) && after == before
        } else if !before.listings.contains_key((tcx_id, node_id)) {
            r == Err::<TcxEvent, TcxError>(TcxError::ListingNotFound) && after == before
        } else if listing.challenge_id != 0 {
            r == Err::<TcxEvent, TcxError>(TcxError::ListingAlreadyChallenged) && after == before
        } else if listing.owner == who {
            r == Err::<TcxEvent, TcxError>(TcxError::CannotChallengeOwnListing) && after == before
        } else if amount < listing.amount {
            r == Err::<TcxEvent, TcxError>(TcxError::AmountNotEnoughToChallenge) && after
                == before
        } else if listing.application_expiry <= now {
            r == Err::<TcxEvent, TcxError>(TcxError::ApplyStagePassed) && after == before
        } else {
            let entity = ge.entities()[before.tcx_owner[tcx_id]];
            let new_nonce = (before.nonce + 1) as ChallengeId;
            if now + entity.commit_stage_len > Moment::MAX {
                r == Err::<TcxEvent, TcxError>(TcxError::OverflowVotingExpiry) && after == before
            } else if before.nonce == ChallengeId::MAX {
                r == Err::<TcxEvent, TcxError>(TcxError::ExceedMaxChallengeCount) && after
                    == before
            } else {
                &&& r == Ok::<TcxEvent, TcxError>(
                    TcxEvent::Challenged(who, tcx_id, node_id, amount),
                )
                &&& after == TcxState {
                    challenges: before.challenges.insert(
                        new_nonce,
                        Challenge {
                            amount,
                            voting_ends: (now + entity.commit_stage_len) as Moment,
                            resolved: false,
                            reward_pool: 0,
                            total_tokens: 0,
                            owner: who,
                        },
                    ),
                    polls: before.polls.insert(
                        new_nonce,
                        Poll { votes_for: listing.amount, votes_against: amount, passed: false },
                    ),
                    listings: before.listings.insert(
                        (tcx_id, node_id),
                        Listing { challenge_id: new_nonce, ..listing },
                    ),
                    nonce: new_nonce,
                    ..before
                }
            }
        }
    }

    /// Whether a vote would take a tally beyond what a balance can hold,
    /// an input on which the runtime fails.
    pub open spec fn vote_overflows(
        self,
        now: Moment,
        challenge_id: ChallengeId,
        amount: Balance,
        value: bool,
    ) -> bool {
        &&& self.challenges.contains_key(challenge_id)
        &&& !self.challenge(challenge_id).resolved
        &&& self.challenge(challenge_id).voting_ends > now
        &&& if value {
            self.poll(challenge_id).votes_for + amount > Balance::MAX
        } else {
            self.poll(challenge_id).votes_against + amount > Balance::MAX
        }
    }

    /// The outcome of `vote`.
    pub open spec fn vote_outcome(
        before: TcxState,
        after: TcxState,
        now: Moment,
        who: AccountId,
        challenge_id: ChallengeId,
        amount: Balance,
        value: bool,
        r: Result<TcxEvent, TcxError>,
    ) -> bool {
        let poll = before.poll(challenge_id);
        if !before.challenges.contains_key(challenge_id) {
            r == Err::<TcxEvent, TcxError>(TcxError::ChallengeDoesNotExist) && after == before
        } else if before.challenge(challenge_id).resolved {
            r == Err::<TcxEvent, TcxError>(TcxError::ChallengeAlreadyResolved) && after == before
        } else if before.challenge(challenge_id).voting_ends <= now {
            r == Err::<TcxEvent, TcxError>(TcxError::CommitStagePassed) && after == before
        } else {
            &&& r == Ok::<TcxEvent, TcxError>(TcxEvent::Voted(who, challenge_id, amount, value))
            &&& after == TcxState {
                polls: before.polls.insert(
                    challenge_id,
                    if value {
                        Poll { votes_for: (poll.votes_for + amount) as Balance, ..poll }
                    } else {
                        Poll { votes_against: (poll.votes_against + amount) as Balance, ..poll }
                    },
                ),
                votes: before.votes.insert(
                    (challenge_id, who),
                    Vote { value, amount, claimed: false },
                ),
                ..before
            }
        }
    }

    /// Whether resolving would take a reward pool beyond what a balance can
    /// hold, an input on which the runtime fails.
    pub open spec fn resolve_overflows(
        self,
        now: Moment,
        tcx_id: TcxId,
        node_id: ContentHash,
    ) -> bool {
        let listing = self.listing(tcx_id, node_id);
        let challenge = self.challenge(listing.challenge_id);
        let poll = self.poll(listing.challenge_id);
        &&& self.listings.contains_key((tcx_id, node_id))
        &&& listing.challenge_id != 0
        &&& challenge.voting_ends < now
        &&& if poll.votes_for >= poll.votes_against {
            challenge.amount + poll.votes_against > Balance::MAX
        } else {
            listing.amount + poll.votes_for > Balance::MAX
        }
    }

    /// The outcome of `resolve`.
    pub open spec fn resolve_outcome(
        before: TcxState,
        after: TcxState,
        now: Moment,
        tcx_id: TcxId,
        node_id: ContentHash,
        r: Result<(TcxEvent, Option<TcxEvent>), TcxError>,
    ) -> bool {
        let listing = before.listing(tcx_id, node_id);
        let cid = listing.challenge_id;
        let challenge = before.challenge(cid);
        let poll = before.poll(cid);
        let passed = poll.votes_for >= poll.votes_against;
        if !before.listings.contains_key((tcx_id, node_id)) {
            r == Err::<(TcxEvent, Option<TcxEvent>), TcxError>(TcxError::ListingNotFound) && after
                == before
        } else if cid == 0 {
            if listing.application_expiry >= now {
                r == Err::<(TcxEvent, Option<TcxEvent>), TcxError>(TcxError::ApplyStageNotPassed)
                    && after == before
            } else {
                &&& r == Ok::<(TcxEvent, Option<TcxEvent>), TcxError>(
                    (TcxEvent::Accepted(tcx_id, node_id), None),
                )
                &&& after == TcxState {
                    listings: before.listings.insert(
                        (tcx_id, node_id),
                        Listing { whitelisted: true, ..listing },
                    ),
                    ..before
                }
            }
        } else if challenge.voting_ends >= now {
            r == Err::<(TcxEvent, Option<TcxEvent>), TcxError>(TcxError::CommitStageNotPassed)
                && after == before
        } else {
            &&& r == Ok::<(TcxEvent, Option<TcxEvent>), TcxError>(
                (
                    if passed {
                        TcxEvent::Accepted(tcx_id, node_id)
                    } else {
                        TcxEvent::Rejected(tcx_id, node_id)
                    },
                    Some(TcxEvent::Resolved(cid)),
                ),
            )
            &&& after == TcxState {
                polls: before.polls.insert(cid, Poll { passed, ..poll }),
                listings: before.listings.insert(
                    (tcx_id, node_id),
                    Listing { whitelisted: passed, challenge_id: 0, ..listing },
                ),
                challenges: before.challenges.insert(
                    cid,
                    if passed {
                        Challenge {
                            resolved: true,
                            total_tokens: poll.votes_for,
                            reward_pool: (challenge.amount + poll.votes_against) as Balance,
                            ..challenge
                        }
                    } else {
                        Challenge {
                            resolved: true,
                            total_tokens: poll.votes_against,
                            reward_pool: (listing.amount + poll.votes_for) as Balance,
                            ..challenge
                        }
                    },
                ),
                ..before
            }
        }
    }

    /// The outcome of `claim`.
    pub open spec fn claim_outcome(
        before: TcxState,
        after: TcxState,
        who: AccountId,
        challenge_id: ChallengeId,
        r: Result<Option<TcxEvent>, TcxError>,
    ) -> bool {
        let vote = before.vote(challenge_id, who);
        if !before.challenges.contains_key(challenge_id) {
            r == Err::<Option<TcxEvent>, TcxError>(TcxError::ChallengeNotFound) && after == before
        } else if !before.challenge(challenge_id).resolved {
            r == Err::<Option<TcxEvent>, TcxError>(TcxError::ChallengeNotResolved) && after
                == before
        } else if vote.claimed {
            r == Err::<Option<TcxEvent>, TcxError>(TcxError::VoteAlreadyClaimed) && after == before
        } else {
            &&& r == Ok::<Option<TcxEvent>, TcxError>(
                if before.poll(challenge_id).passed == vote.value {
                    Some(TcxEvent::Claimed(who, challenge_id))
                } else {
                    None
                },
            )
            &&& after == TcxState {
                votes: before.votes.insert((challenge_id, who), Vote { claimed: true, ..vote }),
                ..before
            }
        }
    }
}

/// The storage of the registry module.
pub struct Module {
    all_tcxs: StorageMap<TcxId, Tcx>,
    all_tcxs_count: TcxId,
    tcx_owner: StorageMap<TcxId, GeId>,
    owned_tcxs: StorageMap<(GeId, TcxId), TcxId>,
    owned_tcxs_count: StorageMap<GeId, TcxId>,
    listings: StorageMap<(TcxId, ContentHash), Listing>,
    listings_count: StorageMap<TcxId, ListingId>,
    listing_index: StorageMap<(TcxId, ListingId), ContentHash>,
    challenges: StorageMap<ChallengeId, Challenge>,
    votes: StorageMap<(ChallengeId, AccountId), Vote>,
    polls: StorageMap<ChallengeId, Poll>,
    challenge_nonce: ChallengeId,
}

impl View for Module {
    type V = TcxState;

    closed spec fn view(&self) -> TcxState {
        TcxState {
            tcxs: self.all_tcxs@,
            tcx_count: self.all_tcxs_count,
            tcx_owner: self.tcx_owner@,
            owned_tcxs: self.owned_tcxs@,
            owned_tcxs_count: self.owned_tcxs_count@,
            listings: self.listings@,
            listings_count: self.listings_count@,
            listing_index: self.listing_index@,
            challenges: self.challenges@,
            votes: self.votes@,
            polls: self.polls@,
            nonce: self.challenge_nonce,
        }
    }
}

impl Module {
    /// A module with no registry, listing or challenge.
    pub fn new() -> (m: Self)
        ensures
            m@ == (TcxState {
                tcxs: Map::empty(),
                tcx_count: 0,
                tcx_owner: Map::empty(),
                owned_tcxs: Map::empty(),
                owned_tcxs_count: Map::empty(),
                listings: Map::empty(),
                listings_count: Map::empty(),
                listing_index: Map::empty(),
                challenges: Map::empty(),
                votes: Map::empty(),
                polls: Map::empty(),
                nonce: 0,
            }),
    {
        Module {
            all_tcxs: StorageMap::new(),
            all_tcxs_count: 0,
            tcx_owner: StorageMap::new(),
            owned_tcxs: StorageMap::new(),
            owned_tcxs_count: StorageMap::new(),
            listings: StorageMap::new(),
            listings_count: StorageMap::new(),
            listing_index: StorageMap::new(),
            challenges: StorageMap::new(),
            votes: StorageMap::new(),
            polls: StorageMap::new(),
            challenge_nonce: 0,
        }
    }

    pub fn tcx(&self, id: TcxId) -> (r: Option<Tcx>)
        ensures
            r == (if self@.tcxs.contains_key(id) { Some(self@.tcxs[id]) } else { None::<Tcx> }),
    {
        self.all_tcxs.get(id)
    }

    pub fn all_tcxs_count(&self) -> (r: TcxId)
        ensures
            r == self@.tcx_count,
    {
        self.all_tcxs_count
    }

    /// The entity that owns registry `id`, where there is one.
    pub fn owner_of(&self, id: TcxId) -> (r: Option<GeId>)
        ensures
            r == (if self@.tcx_owner.contains_key(id) {
                Some(self@.tcx_owner[id])
            } else {
                None::<GeId>
            }),
    {
        self.tcx_owner.get(id)
    }

    pub fn owned_tcxs_count(&self, ge_id: GeId) -> (r: TcxId)
        ensures
            r == self@.owned_count(ge_id),
    {
        self.owned_tcxs_count.get_or_default(ge_id, 0)
    }

    pub fn tcx_of_owner_by_index(&self, ge_id: GeId, index: TcxId) -> (r: TcxId)
        ensures
            r == (if self@.owned_tcxs.contains_key((ge_id, index)) {
                self@.owned_tcxs[(ge_id, index)]
            } else {
                0
            }),
    {
        self.owned_tcxs.get_or_default((ge_id, index), 0)
    }

    pub fn listing_of_tcr_by_node_id(&self, tcx_id: TcxId, node_id: ContentHash) -> (r: Listing)
        ensures
            r == self@.listing(tcx_id, node_id),
    {
        self.listings.get_or_default((tcx_id, node_id), Listing::default())
    }

    pub fn listing_exists(&self, tcx_id: TcxId, node_id: ContentHash) -> (r: bool)
        ensures
            r == self@.listings.contains_key((tcx_id, node_id)),
    {
        self.listings.contains_key((tcx_id, node_id))
    }

    pub fn listing_count_of_tcr(&self, tcx_id: TcxId) -> (r: ListingId)
        ensures
            r == self@.listing_count(tcx_id),
    {
        self.listings_count.get_or_default(tcx_id, 0)
    }

    pub fn node_id_of_listing(&self, tcx_id: TcxId, listing_id: ListingId) -> (r: ContentHash)
        ensures
            r == (if self@.listing_index.contains_key((tcx_id, listing_id)) {
                self@.listing_index[(tcx_id, listing_id)]
            } else {
                0
            }),
    {
        self.listing_index.get_or_default((tcx_id, listing_id), 0)
    }

    pub fn challenges(&self, id: ChallengeId) -> (r: Challenge)
        ensures
            r == self@.challenge(id),
    {
        self.challenges.get_or_default(id, Challenge::default())
    }

    pub fn votes(&self, id: ChallengeId, who: AccountId) -> (r: Vote)
        ensures
            r == self@.vote(id, who),
    {
        self.votes.get_or_default((id, who), Vote::default())
    }

    pub fn polls(&self, id: ChallengeId) -> (r: Poll)
        ensures
            r == self@.poll(id),
    {
        self.polls.get_or_default(id, Poll::default())
    }

    pub fn challenge_nonce(&self) -> (r: ChallengeId)
        ensures
            r == self@.nonce,
    {
        self.challenge_nonce
    }

    /// Creates a registry of type `tcx_type` owned by entity `ge_id`, and
    /// returns its identifier with the report of its creation.
    pub fn create(&mut self, ge_id: GeId, tcx_type: TcxType) -> (r: Result<
        (TcxId, TcxEvent),
        TcxError,
    >)
        ensures
            TcxState::create_outcome(old(self)@, final(self)@, ge_id, tcx_type, r),
    {
        let all_tcxs_count = self.all_tcxs_count;
        let new_all_tcxs_count = match all_tcxs_count.checked_add(1) {
            Some(c) => c,
            None => return Err(TcxError::ExceedMaxTcxCount),
        };
        let owned_tcxs_count = self.owned_tcxs_count(ge_id);
        let new_owned_tcxs_count = match owned_tcxs_count.checked_add(1) {
            Some(c) => c,
            None => return Err(TcxError::ExceedMaxTcxCountForGe),
        };
        self.all_tcxs.insert(new_all_tcxs_count, Tcx { tcx_type });
        self.all_tcxs_count = new_all_tcxs_count;
        self.tcx_owner.insert(new_all_tcxs_count, ge_id);
        self.owned_tcxs.insert((ge_id, new_owned_tcxs_count), new_all_tcxs_count);
        self.owned_tcxs_count.insert(ge_id, new_owned_tcxs_count);
        Ok((new_all_tcxs_count, TcxEvent::Created(ge_id, new_all_tcxs_count)))
    }

    /// Creates a registry for entity `ge_id`, which must exist.
    pub fn propose_tcx_creation(&mut self, ge: &ge::Module, ge_id: GeId, tcx_type: TcxType) -> (r:
        Result<TcxEvent, TcxError>)
        ensures
            !ge.entities().contains_key(ge_id) ==> r == Err::<TcxEvent, TcxError>(
                TcxError::GeDoesNotExist,
            ) && final(self)@ == old(self)@,
            ge.entities().contains_key(ge_id) ==> exists|c: Result<(TcxId, TcxEvent), TcxError>|
                TcxState::create_outcome(old(self)@, final(self)@, ge_id, tcx_type, c) && r == (
                match c {
                    Ok((_, event)) => Ok::<TcxEvent, TcxError>(event),
                    Err(e) => Err::<TcxEvent, TcxError>(e),
                }),
    {
        match ge.governance_entity(ge_id) {
            Some(_) => {},
            None => return Err(TcxError::GeDoesNotExist),
        }
        let c = self.create(ge_id, tcx_type);
        match c {
            Ok((_, event)) => Ok(event),
            Err(e) => Err(e),
        }
    }

    /// Proposes node `node_id` as a listing of registry `tcx_id` with a
    /// deposit of `amount`.
    pub fn propose(
        &mut self,
        ge: &ge::Module,
        now: Moment,
        who: AccountId,
        tcx_id: TcxId,
        node_id: ContentHash,
        amount: Balance,
        action_id: ActionId,
    ) -> (r: Result<TcxEvent, TcxError>)
        ensures
            TcxState::propose_outcome(
                old(self)@,
                final(self)@,
                *ge,
                now,
                who,
                tcx_id,
                node_id,
                amount,
                action_id,
                r,
            ),
    {
        let ge_id = match self.owner_of(tcx_id) {
            Some(g) => g,
            None => return Err(TcxError::TcxDoesNotExist),
        };
        let governance_entity = match ge.governance_entity(ge_id) {
            Some(e) => e,
            None => return Err(TcxError::GeDoesNotExist),
        };
        let min_deposit = governance_entity.min_deposit;
        if amount < min_deposit {
            return Err(TcxError::DepositBelowMinDeposit);
        }
        let apply_stage_len = governance_entity.apply_stage_len;
        let app_exp = match now.checked_add(apply_stage_len) {
            Some(t) => t,
            None => return Err(TcxError::OverflowApplicationExpiry),
        };
        let listing_id = self.listing_count_of_tcr(tcx_id);
        let new_listing_count = match listing_id.checked_add(1) {
            Some(c) => c,
            None => return Err(TcxError::ExceedMaxListingCount),
        };
        if self.listings.contains_key((tcx_id, node_id)) {
            return Err(TcxError::ListingAlreadyExists);
        }
        let new_listing = Listing {
            id: new_listing_count,
            node_id,
            amount,
            whitelisted: false,
            challenge_id: 0,
            application_expiry: app_exp,
            owner: who,
        };
        self.listings.insert((tcx_id, node_id), new_listing);
        self.listings_count.insert(tcx_id, new_listing_count);
        self.listing_index.insert((tcx_id, new_listing_count), node_id);
        Ok(TcxEvent::Proposed(who, tcx_id, node_id, amount, action_id))
    }

    /// Challenges the listing of node `node_id` in registry `tcx_id` with a
    /// deposit of `amount`.
    pub fn challenge(
        &mut self,
        ge: &ge::Module,
        now: Moment,
        who: AccountId,
        tcx_id: TcxId,
        node_id: ContentHash,
        amount: Balance,
    ) -> (r: Result<TcxEvent, TcxError>)
        ensures
            TcxState::challenge_outcome(
                old(self)@,
                final(self)@,
                *ge,
                now,
                who,
                tcx_id,
                node_id,
                amount,
                r,
            ),
    {
        let ge_id = match self.owner_of(tcx_id) {
            Some(g) => g,
            None => return Err(TcxError::TcxDoesNotExist),
        };
        let governance_entity = match ge.governance_entity(ge_id) {
            Some(e) => e,
            None => return Err(TcxError::GeDoesNotExist),
        };
        if !self.listings.contains_key((tcx_id, node_id)) {
            return Err(TcxError::ListingNotFound);
        }
        let listing = self.listing_of_tcr_by_node_id(tcx_id, node_id);
        if listing.challenge_id != 0 {
            return Err(TcxError::ListingAlreadyChallenged);
        }
        if listing.owner == who {
            return Err(TcxError::CannotChallengeOwnListing);
        }
        if amount < listing.amount {
            return Err(TcxError::AmountNotEnoughToChallenge);
        }
        if listing.application_expiry <= now {
            return Err(TcxError::ApplyStagePassed);
        }
        let commit_stage_len = governance_entity.commit_stage_len;
        let voting_exp = match now.checked_add(commit_stage_len) {
            Some(t) => t,
            None => return Err(TcxError::OverflowVotingExpiry),
        };
        let new_challenge = Challenge {
            amount,
            voting_ends: voting_exp,
            resolved: false,
            reward_pool: 0,
            total_tokens: 0,
            owner: who,
        };
        let new_poll = Poll { votes_for: listing.amount, votes_against: amount, passed: false };
        let challenge_nonce = self.challenge_nonce;
        let new_challenge_nonce = match challenge_nonce.checked_add(1) {
            Some(c) => c,
            None => return Err(TcxError::ExceedMaxChallengeCount),
        };
        self.challenges.insert(new_challenge_nonce, new_challenge);
        self.polls.insert(new_challenge_nonce, new_poll);
        let mut updated = listing;
        updated.challenge_id = new_challenge_nonce;
        self.listings.insert((tcx_id, node_id), updated);
        self.challenge_nonce = new_challenge_nonce;
        Ok(TcxEvent::Challenged(who, tcx_id, node_id, amount))
    }

    /// Votes `amount` for (`value` true) or against the listing of challenge
    /// `challenge_id`.
    pub fn vote(
        &mut self,
        now: Moment,
        who: AccountId,
        challenge_id: ChallengeId,
        amount: Balance,
        value: bool,
    ) -> (r: Result<TcxEvent, TcxError>)
        requires
            !old(self)@.vote_overflows(now, challenge_id, amount, value),
        ensures
            TcxState::vote_outcome(old(self)@, final(self)@, now, who, challenge_id, amount, value, r),
    {
        if !self.challenges.contains_key(challenge_id) {
            return Err(TcxError::ChallengeDoesNotExist);
        }
        let challenge = self.challenges(challenge_id);
        if challenge.resolved {
            return Err(TcxError::ChallengeAlreadyResolved);
        }
        if challenge.voting_ends <= now {
            return Err(TcxError::CommitStagePassed);
        }
        let mut poll_instance = self.polls(challenge_id);
        if value {
            poll_instance.votes_for = poll_instance.votes_for + amount;
        } else {
            poll_instance.votes_against = poll_instance.votes_against + amount;
        }
        let vote_instance = Vote { value, amount, claimed: false };
        self.polls.insert(challenge_id, poll_instance);
        self.votes.insert((challenge_id, who), vote_instance);
        Ok(TcxEvent::Voted(who, challenge_id, amount, value))
    }

    /// Settles the listing of node `node_id` in registry `tcx_id` once its
    /// apply stage, or the commit stage of its challenge, has passed.
    pub fn resolve(&mut self, now: Moment, tcx_id: TcxId, node_id: ContentHash) -> (r: Result<
        (TcxEvent, Option<TcxEvent>),
        TcxError,
    >)
        requires
            !old(self)@.resolve_overflows(now, tcx_id, node_id),
        ensures
            TcxState::resolve_outcome(old(self)@, final(self)@, now, tcx_id, node_id, r),
    {
        if !self.listings.contains_key((tcx_id, node_id)) {
            return Err(TcxError::ListingNotFound);
        }
        let listing = self.listing_of_tcr_by_node_id(tcx_id, node_id);
        if listing.challenge_id == 0 {
            if listing.application_expiry >= now {
                return Err(TcxError::ApplyStageNotPassed);
            }
            let mut accepted = listing;
            accepted.whitelisted = true;
            self.listings.insert((tcx_id, node_id), accepted);
            return Ok((TcxEvent::Accepted(tcx_id, node_id), None));
        }
        let challenge = self.challenges(listing.challenge_id);
        let poll = self.polls(listing.challenge_id);
        if challenge.voting_ends >= now {
            return Err(TcxError::CommitStageNotPassed);
        }
        let mut whitelisted = false;
        let mut updated_poll = self.polls(listing.challenge_id);
        if updated_poll.votes_for >= updated_poll.votes_against {
            updated_poll.passed = true;
            whitelisted = true;
        } else {
            updated_poll.passed = false;
        }
        self.polls.insert(listing.challenge_id, updated_poll);
        let mut updated_listing = self.listing_of_tcr_by_node_id(tcx_id, node_id);
        updated_listing.whitelisted = whitelisted;
        updated_listing.challenge_id = 0;
        self.listings.insert((tcx_id, node_id), updated_listing);
        let mut updated_challenge = self.challenges(listing.challenge_id);
        updated_challenge.resolved = true;
        if whitelisted {
            updated_challenge.total_tokens = poll.votes_for;
            updated_challenge.reward_pool = updated_challenge.amount + poll.votes_against;
        } else {
            updated_challenge.total_tokens = poll.votes_against;
            updated_challenge.reward_pool = listing.amount + poll.votes_for;
        }
        self.challenges.insert(listing.challenge_id, updated_challenge);
        let outcome = if whitelisted {
            TcxEvent::Accepted(tcx_id, node_id)
        } else {
            TcxEvent::Rejected(tcx_id, node_id)
        };
        Ok((outcome, Some(TcxEvent::Resolved(listing.challenge_id))))
    }

    /// Marks the vote of `who` on the resolved challenge `challenge_id` as
    /// claimed, reporting a claim where the vote sided with the outcome.
    pub fn claim(&mut self, who: AccountId, challenge_id: ChallengeId) -> (r: Result<
        Option<TcxEvent>,
        TcxError,
    >)
        ensures
            TcxState::claim_outcome(old(self)@, final(self)@, who, challenge_id, r),
    {
        if !self.challenges.contains_key(challenge_id) {
            return Err(TcxError::ChallengeNotFound);
        }
        let challenge = self.challenges(challenge_id);
        if !challenge.resolved {
            return Err(TcxError::ChallengeNotResolved);
        }
        let poll = self.polls(challenge_id);
        let vote = self.votes(challenge_id, who);
        if vote.claimed {
            return Err(TcxError::VoteAlreadyClaimed);
        }
        let event = if poll.passed == vote.value {
            Some(TcxEvent::Claimed(who, challenge_id))
        } else {
            None
        };
        let mut claimed = self.votes(challenge_id, who);
        claimed.claimed = true;
        self.votes.insert((challenge_id, who), claimed);
        Ok(event)
    }
}

/// A listing that has been challenged cannot be challenged again: the
/// second challenge is refused as already challenged, and changes nothing.
pub proof fn law_challenge_once(
    s0: TcxState,
    s1: TcxState,
    s2: TcxState,
    ge: ge::Module,
    now1: Moment,
    now2: Moment,
    who1: AccountId,
    who2: AccountId,
    tcx_id: TcxId,
    node_id: ContentHash,
    amount1: Balance,
    amount2: Balance,
    r1: Result<TcxEvent, TcxError>,
    r2: Result<TcxEvent, TcxError>,
)
    requires
        TcxState::challenge_outcome(s0, s1, ge, now1, who1, tcx_id, node_id, amount1, r1),
        r1 is Ok,
        TcxState::challenge_outcome(s1, s2, ge, now2, who2, tcx_id, node_id, amount2, r2),
    ensures
        r2 == Err::<TcxEvent, TcxError>(TcxError::ListingAlreadyChallenged),
        s2 == s1,
{
}

/// A vote that has been claimed cannot be claimed again.
pub proof fn law_claim_once(
    s0: TcxState,
    s1: TcxState,
    s2: TcxState,
    who: AccountId,
    challenge_id: ChallengeId,
    r1: Result<Option<TcxEvent>, TcxError>,
    r2: Result<Option<TcxEvent>, TcxError>,
)
    requires
        TcxState::claim_outcome(s0, s1, who, challenge_id, r1),
        r1 is Ok,
        TcxState::claim_outcome(s1, s2, who, challenge_id, r2),
    ensures
        r2 == Err::<Option<TcxEvent>, TcxError>(TcxError::VoteAlreadyClaimed),
        s2 == s1,
{
}

/// Resolving a challenged listing settles it by its poll: the listing is
/// whitelisted exactly when the votes for it are at least the votes against
/// it, the poll records the same verdict, the challenge is marked resolved,
/// and the listing is open to a new challenge.
pub proof fn law_resolve_follows_poll(
    s0: TcxState,
    s1: TcxState,
    now: Moment,
    tcx_id: TcxId,
    node_id: ContentHash,
    r: Result<(TcxEvent, Option<TcxEvent>), TcxError>,
)
    requires
        TcxState::resolve_outcome(s0, s1, now, tcx_id, node_id, r),
        r is Ok,
        s0.listing(tcx_id, node_id).challenge_id != 0,
    ensures
        ({
            let cid = s0.listing(tcx_id, node_id).challenge_id;
            let passed = s0.poll(cid).votes_for >= s0.poll(cid).votes_against;
            &&& s1.listing(tcx_id, node_id).whitelisted == passed
            &&& s1.poll(cid).passed == passed
            &&& s1.challenge(cid).resolved
            &&& s1.listing(tcx_id, node_id).challenge_id == 0
            &&& r == Ok::<(TcxEvent, Option<TcxEvent>), TcxError>(
                (
                    if passed {
                        TcxEvent::Accepted(tcx_id, node_id)
                    } else {
                        TcxEvent::Rejected(tcx_id, node_id)
                    },
                    Some(TcxEvent::Resolved(cid)),
                ),
            )
        }),
{
}

/// Resolving a challenged listing pays the winning side out of the losing
/// side's tokens: where the listing is rejected, the reward pool is the
/// listing's deposit and the votes cast for it, and the winning tokens are
/// the votes against it; where it is accepted, the reward pool is the
/// challenger's deposit and the votes against, and the winning tokens are
/// the votes for it. Either way the reward pool and the winning tokens add
/// up to the loser's deposit and every vote cast.
pub proof fn law_resolve_rewards_winners(
    s0: TcxState,
    s1: TcxState,
    now: Moment,
    tcx_id: TcxId,
    node_id: ContentHash,
    r: Result<(TcxEvent, Option<TcxEvent>), TcxError>,
)
    requires
        !s0.resolve_overflows(now, tcx_id, node_id),
        TcxState::resolve_outcome(s0, s1, now, tcx_id, node_id, r),
        r is Ok,
        s0.listing(tcx_id, node_id).challenge_id != 0,
    ensures
        ({
            let listing = s0.listing(tcx_id, node_id);
            let cid = listing.challenge_id;
            let poll = s0.poll(cid);
            let resolved = s1.challenge(cid);
            let rejected = poll.votes_for < poll.votes_against;
            let losers_deposit = if rejected { listing.amount } else { s0.challenge(cid).amount };
            &&& rejected ==> resolved.reward_pool == listing.amount + poll.votes_for
            &&& rejected ==> resolved.total_tokens == poll.votes_against
            &&& !rejected ==> resolved.reward_pool == s0.challenge(cid).amount
                + poll.votes_against
            &&& !rejected ==> resolved.total_tokens == poll.votes_for
            &&& resolved.reward_pool + resolved.total_tokens == losers_deposit + poll.votes_for
                + poll.votes_against
            &&& resolved.amount == s0.challenge(cid).amount
            &&& resolved.owner == s0.challenge(cid).owner
        }),
{
}

/// A listing that nobody challenged is whitelisted once its apply stage has
/// passed.
pub proof fn law_unchallenged_listing_accepted(
    s0: TcxState,
    s1: TcxState,
    now: Moment,
    tcx_id: TcxId,
    node_id: ContentHash,
    r: Result<(TcxEvent, Option<TcxEvent>), TcxError>,
)
    requires
        s0.listings.contains_key((tcx_id, node_id)),
        s0.listing(tcx_id, node_id).challenge_id == 0,
        s0.listing(tcx_id, node_id).application_expiry < now,
        TcxState::resolve_outcome(s0, s1, now, tcx_id, node_id, r),
    ensures
        r == Ok::<(TcxEvent, Option<TcxEvent>), TcxError>((TcxEvent::Accepted(tcx_id, node_id), None)),
        s1.listing(tcx_id, node_id).whitelisted,
{
}

/// Creating a registry keeps the challenge bookkeeping.
pub proof fn law_create_keeps_inv(
    s0: TcxState,
    s1: TcxState,
    ge_id: GeId,
    tcx_type: TcxType,
    r: Result<(TcxId, TcxEvent), TcxError>,
)
    requires
        s0.inv(),
        TcxState::create_outcome(s0, s1, ge_id, tcx_type, r),
    ensures
        s1.inv(),
{
}

/// Proposing a listing keeps the challenge bookkeeping.
pub proof fn law_propose_keeps_inv(
    s0: TcxState,
    s1: TcxState,
    ge: ge::Module,
    now: Moment,
    who: AccountId,
    tcx_id: TcxId,
    node_id: ContentHash,
    amount: Balance,
    action_id: ActionId,
    r: Result<TcxEvent, TcxError>,
)
    requires
        s0.inv(),
        TcxState::propose_outcome(s0, s1, ge, now, who, tcx_id, node_id, amount, action_id, r),
    ensures
        s1.inv(),
{
    if r is Ok {
        assert forall|k1: (TcxId, ContentHash), k2: (TcxId, ContentHash)|
            s1.listings.contains_key(k1) && s1.listings.contains_key(k2) && k1 != k2
                && s1.listings[k1].challenge_id != 0 implies s1.listings[k1].challenge_id
            != s1.listings[k2].challenge_id by {
            if k2 != (tcx_id, node_id) && k1 != (tcx_id, node_id) {
                assert(s0.listings[k1] == s1.listings[k1] && s0.listings[k2] == s1.listings[k2]);
            }
        }
    }
}

/// Challenging a listing keeps the challenge bookkeeping: the new challenge
/// takes an identifier that no challenge and no listing used before.
pub proof fn law_challenge_keeps_inv(
    s0: TcxState,
    s1: TcxState,
    ge: ge::Module,
    now: Moment,
    who: AccountId,
    tcx_id: TcxId,
    node_id: ContentHash,
    amount: Balance,
    r: Result<TcxEvent, TcxError>,
)
    requires
        s0.inv(),
        TcxState::challenge_outcome(s0, s1, ge, now, who, tcx_id, node_id, amount, r),
    ensures
        s1.inv(),
{
    if r is Ok {
        let c = s1.nonce;
        assert(!s0.challenges.contains_key(c));
        assert forall|k: (TcxId, ContentHash)| #[trigger]
            s1.listings.contains_key(k) && s1.listings[k].challenge_id != 0 implies {
            &&& s1.challenges.contains_key(s1.listings[k].challenge_id)
            &&& !s1.challenges[s1.listings[k].challenge_id].resolved
        } by {
            if k != (tcx_id, node_id) {
                assert(s0.listings[k] == s1.listings[k]);
                assert(s0.challenges.contains_key(s0.listings[k].challenge_id));
            }
        }
        assert forall|k1: (TcxId, ContentHash), k2: (TcxId, ContentHash)|
            s1.listings.contains_key(k1) && s1.listings.contains_key(k2) && k1 != k2
                && s1.listings[k1].challenge_id != 0 implies s1.listings[k1].challenge_id
            != s1.listings[k2].challenge_id by {
            if k1 != (tcx_id, node_id) {
                assert(s0.listings[k1] == s1.listings[k1]);
                assert(s0.challenges.contains_key(s0.listings[k1].challenge_id));
            }
            if k2 != (tcx_id, node_id) {
                assert(s0.listings[k2] == s1.listings[k2]);
                if s0.listings[k2].challenge_id != 0 {
                    assert(s0.challenges.contains_key(s0.listings[k2].challenge_id));
                }
            }
            if k1 != (tcx_id, node_id) && k2 != (tcx_id, node_id) {
                assert(s0.listings[k1].challenge_id != s0.listings[k2].challenge_id);
            }
        }
    }
}

/// Voting keeps the challenge bookkeeping.
pub proof fn law_vote_keeps_inv(
    s0: TcxState,
    s1: TcxState,
    now: Moment,
    who: AccountId,
    challenge_id: ChallengeId,
    amount: Balance,
    value: bool,
    r: Result<TcxEvent, TcxError>,
)
    requires
        s0.inv(),
        TcxState::vote_outcome(s0, s1, now, who, challenge_id, amount, value, r),
    ensures
        s1.inv(),
{
}

/// Resolving a listing keeps the challenge bookkeeping: the challenge it
/// settles was an existing one, under this listing alone.
pub proof fn law_resolve_keeps_inv(
    s0: TcxState,
    s1: TcxState,
    now: Moment,
    tcx_id: TcxId,
    node_id: ContentHash,
    r: Result<(TcxEvent, Option<TcxEvent>), TcxError>,
)
    requires
        s0.inv(),
        TcxState::resolve_outcome(s0, s1, now, tcx_id, node_id, r),
    ensures
        s1.inv(),
        r is Ok && s0.listing(tcx_id, node_id).challenge_id != 0 ==> s0.challenges.contains_key(
            s0.listing(tcx_id, node_id).challenge_id,
        ),
{
    if r is Ok {
        let k0 = (tcx_id, node_id);
        let cid = s0.listing(tcx_id, node_id).challenge_id;
        assert forall|k: (TcxId, ContentHash)| #[trigger]
            s1.listings.contains_key(k) && s1.listings[k].challenge_id != 0 implies {
            &&& s1.challenges.contains_key(s1.listings[k].challenge_id)
            &&& !s1.challenges[s1.listings[k].challenge_id].resolved
        } by {
            if k != k0 {
                assert(s0.listings[k] == s1.listings[k]);
                if cid != 0 {
                    assert(s0.listings[k0].challenge_id != s0.listings[k].challenge_id);
                }
            }
        }
        assert forall|k1: (TcxId, ContentHash), k2: (TcxId, ContentHash)|
            s1.listings.contains_key(k1) && s1.listings.contains_key(k2) && k1 != k2
                && s1.listings[k1].challenge_id != 0 implies s1.listings[k1].challenge_id
            != s1.listings[k2].challenge_id by {
            if k1 != k0 && k2 != k0 {
                assert(s0.listings[k1] == s1.listings[k1] && s0.listings[k2] == s1.listings[k2]);
            }
            if k1 != k0 && k2 == k0 && cid == 0 {
                assert(s0.listings[k1] == s1.listings[k1]);
            }
        }
    }
}

/// Claiming keeps the challenge bookkeeping.
pub proof fn law_claim_keeps_inv(
    s0: TcxState,
    s1: TcxState,
    who: AccountId,
    challenge_id: ChallengeId,
    r: Result<Option<TcxEvent>, TcxError>,
)
    requires
        s0.inv(),
        TcxState::claim_outcome(s0, s1, who, challenge_id, r),
    ensures
        s1.inv(),
{
}

} // verus!
