use runtime::currency::Balances;
use runtime::ge::{self, GeConfig};
use runtime::tcx::{self, TcxError, TcxEvent};

fn setup() -> (ge::Module, tcx::Module) {
    let mut ge = ge::Module::new();
    let mut balances = Balances::new();
    balances.make_free_balance_be(1, 1_000_000).unwrap();
    ge.do_create(&mut balances, &GeConfig { ge_creation_fee: 0 }, 1, 77, 100).unwrap();
    let mut tcx = tcx::Module::new();
    assert_eq!(tcx.propose_tcx_creation(&ge, 1, 5), Ok(TcxEvent::Created(1, 1)));
    (ge, tcx)
}

#[test]
fn registry_creation_records_owner() {
    let (ge, mut tcx) = setup();
    assert_eq!(tcx.all_tcxs_count(), 1);
    assert_eq!(tcx.owner_of(1), Some(1));
    assert_eq!(tcx.tcx(1).unwrap().tcx_type, 5);
    assert_eq!(tcx.owned_tcxs_count(1), 1);
    assert_eq!(tcx.tcx_of_owner_by_index(1, 1), 1);
    assert_eq!(tcx.create(1, 6), Ok((2, TcxEvent::Created(1, 2))));
    assert_eq!(tcx.create(3, 6), Ok((3, TcxEvent::Created(3, 3))));
    assert_eq!(tcx.owned_tcxs_count(3), 1);
    assert_eq!(tcx.owned_tcxs_count(1), 2);
    assert_eq!(tcx.tcx_of_owner_by_index(1, 2), 2);
    assert_eq!(tcx.propose_tcx_creation(&ge, 9, 5), Err(TcxError::GeDoesNotExist));
    assert_eq!(tcx.all_tcxs_count(), 3);
}

#[test]
fn propose_records_listing() {
    let (ge, mut tcx) = setup();
    assert_eq!(tcx.propose(&ge, 1000, 2, 1, 9, 3000, 4), Ok(TcxEvent::Proposed(2, 1, 9, 3000, 4)));
    let listing = tcx.listing_of_tcr_by_node_id(1, 9);
    assert_eq!(listing.id, 1);
    assert_eq!(listing.node_id, 9);
    assert_eq!(listing.amount, 3000);
    assert_eq!(listing.application_expiry, 61000);
    assert!(!listing.whitelisted);
    assert_eq!(listing.challenge_id, 0);
    assert_eq!(listing.owner, 2);
    assert_eq!(tcx.listing_count_of_tcr(1), 1);
    assert_eq!(tcx.node_id_of_listing(1, 1), 9);
}

#[test]
fn propose_refusals() {
    let (ge, mut tcx) = setup();
    assert_eq!(tcx.propose(&ge, 1000, 2, 7, 9, 3000, 0), Err(TcxError::TcxDoesNotExist));
    assert_eq!(tcx.propose(&ge, 1000, 2, 1, 9, 2999, 0), Err(TcxError::DepositBelowMinDeposit));
    assert_eq!(tcx.propose(&ge, u64::MAX, 2, 1, 9, 3000, 0), Err(TcxError::OverflowApplicationExpiry));
    tcx.propose(&ge, 1000, 2, 1, 9, 3000, 0).unwrap();
    assert_eq!(tcx.propose(&ge, 1000, 3, 1, 9, 4000, 0), Err(TcxError::ListingAlreadyExists));
    assert_eq!(TcxError::ListingAlreadyExists.message(), "Listing already exists");
}

#[test]
fn unchallenged_listing_is_accepted_after_apply_stage() {
    let (ge, mut tcx) = setup();
    tcx.propose(&ge, 1000, 2, 1, 9, 3000, 0).unwrap();
    assert_eq!(tcx.resolve(61000, 1, 9), Err(TcxError::ApplyStageNotPassed));
    assert_eq!(tcx.resolve(61001, 1, 9), Ok((TcxEvent::Accepted(1, 9), None)));
    assert!(tcx.listing_of_tcr_by_node_id(1, 9).whitelisted);
    assert_eq!(tcx.resolve(61001, 1, 8), Err(TcxError::ListingNotFound));
}

#[test]
fn challenged_listing_is_rejected_when_votes_against_win() {
    let (ge, mut tcx) = setup();
    tcx.propose(&ge, 1000, 2, 1, 9, 3000, 0).unwrap();
    assert_eq!(tcx.challenge(&ge, 2000, 3, 1, 9, 3000), Ok(TcxEvent::Challenged(3, 1, 9, 3000)));
    assert_eq!(tcx.challenge_nonce(), 1);
    assert_eq!(tcx.listing_of_tcr_by_node_id(1, 9).challenge_id, 1);
    let challenge = tcx.challenges(1);
    assert_eq!(challenge.amount, 3000);
    assert_eq!(challenge.voting_ends, 62000);
    assert!(!challenge.resolved);
    assert_eq!(challenge.owner, 3);
    let poll = tcx.polls(1);
    assert_eq!((poll.votes_for, poll.votes_against, poll.passed), (3000, 3000, false));

    assert_eq!(tcx.vote(3000, 4, 1, 500, false), Ok(TcxEvent::Voted(4, 1, 500, false)));
    assert_eq!(tcx.polls(1).votes_against, 3500);
    let vote = tcx.votes(1, 4);
    assert_eq!((vote.value, vote.amount, vote.claimed), (false, 500, false));

    assert_eq!(tcx.resolve(62000, 1, 9), Err(TcxError::CommitStageNotPassed));
    assert_eq!(
        tcx.resolve(62001, 1, 9),
        Ok((TcxEvent::Rejected(1, 9), Some(TcxEvent::Resolved(1))))
    );
    let listing = tcx.listing_of_tcr_by_node_id(1, 9);
    assert!(!listing.whitelisted);
    assert_eq!(listing.challenge_id, 0);
    let challenge = tcx.challenges(1);
    assert!(challenge.resolved);
    assert_eq!(challenge.total_tokens, 3500);
    assert_eq!(challenge.reward_pool, 6000);
    assert!(!tcx.polls(1).passed);

    assert_eq!(tcx.claim(4, 1), Ok(Some(TcxEvent::Claimed(4, 1))));
    assert!(tcx.votes(1, 4).claimed);
    assert_eq!(tcx.claim(4, 1), Err(TcxError::VoteAlreadyClaimed));
}

#[test]
fn challenged_listing_is_accepted_when_votes_for_win() {
    let (ge, mut tcx) = setup();
    tcx.propose(&ge, 1000, 2, 1, 9, 3000, 0).unwrap();
    tcx.challenge(&ge, 2000, 3, 1, 9, 3500).unwrap();
    tcx.vote(3000, 4, 1, 600, true).unwrap();
    tcx.vote(3000, 5, 1, 50, false).unwrap();
    assert_eq!(
        tcx.resolve(70000, 1, 9),
        Ok((TcxEvent::Accepted(1, 9), Some(TcxEvent::Resolved(1))))
    );
    assert!(tcx.listing_of_tcr_by_node_id(1, 9).whitelisted);
    assert!(tcx.polls(1).passed);
    let challenge = tcx.challenges(1);
    assert_eq!(challenge.total_tokens, 3600);
    assert_eq!(challenge.reward_pool, 3500 + 3550);
    // the loser of the vote claims without a reward
    assert_eq!(tcx.claim(5, 1), Ok(None));
    assert_eq!(tcx.claim(4, 1), Ok(Some(TcxEvent::Claimed(4, 1))));
}

#[test]
fn challenge_refusals() {
    let (ge, mut tcx) = setup();
    assert_eq!(tcx.challenge(&ge, 2000, 3, 1, 9, 3000), Err(TcxError::ListingNotFound));
    tcx.propose(&ge, 1000, 2, 1, 9, 3000, 0).unwrap();
    assert_eq!(tcx.challenge(&ge, 2000, 2, 1, 9, 3000), Err(TcxError::CannotChallengeOwnListing));
    assert_eq!(tcx.challenge(&ge, 2000, 3, 1, 9, 2999), Err(TcxError::AmountNotEnoughToChallenge));
    assert_eq!(tcx.challenge(&ge, 61000, 3, 1, 9, 3000), Err(TcxError::ApplyStagePassed));
    tcx.challenge(&ge, 2000, 3, 1, 9, 3000).unwrap();
    assert_eq!(tcx.challenge(&ge, 2000, 4, 1, 9, 3000), Err(TcxError::ListingAlreadyChallenged));
    assert_eq!(tcx.challenge_nonce(), 1);
}

#[test]
fn vote_and_claim_refusals() {
    let (ge, mut tcx) = setup();
    assert_eq!(tcx.vote(3000, 4, 1, 10, true), Err(TcxError::ChallengeDoesNotExist));
    assert_eq!(tcx.claim(4, 1), Err(TcxError::ChallengeNotFound));
    tcx.propose(&ge, 1000, 2, 1, 9, 3000, 0).unwrap();
    tcx.challenge(&ge, 2000, 3, 1, 9, 3000).unwrap();
    assert_eq!(tcx.vote(62000, 4, 1, 10, true), Err(TcxError::CommitStagePassed));
    assert_eq!(tcx.claim(4, 1), Err(TcxError::ChallengeNotResolved));
    tcx.resolve(62001, 1, 9).unwrap();
    assert_eq!(tcx.vote(3000, 4, 1, 10, true), Err(TcxError::ChallengeAlreadyResolved));
    assert_eq!(TcxError::ChallengeAlreadyResolved.message(), "Challenge is already resolved.");
}
