use democracy::entities::invite_poll::InvitePoll;
use democracy::entities::invite_poll_vote_count::InvitePollCount;
use democracy::entities::invite_poll_vote_submission::InvitePollVoteSubmission;
use democracy::entities::invite_poll_with_vote_count::InvitePollWithVoteCount;
use democracy::entities::store::Store;
use democracy::entities::InvitePollVote;
use democracy::entities::InvitePollOutcome;
use democracy::error::Error;
use democracy::ids::GuildId;
use democracy::ids::UserId;

fn store_with_poll(now: i64, duration: u64) -> (Store, democracy::entities::invite_poll::InvitePollId) {
    let mut store = Store::new();
    let poll = InvitePoll::create(&mut store, GuildId(1), UserId(10), UserId(20), duration, now)
        .unwrap();
    (store, poll.id)
}

#[test]
fn counts_are_zero_without_votes() {
    let (store, id) = store_with_poll(100, 60);
    let counts = InvitePollCount::compute(&store, &id);
    assert_eq!(counts.yes_count, 0);
    assert_eq!(counts.no_count, 0);
}

#[test]
fn resubmission_overwrites_the_vote() {
    let (mut store, id) = store_with_poll(100, 60);
    InvitePollVoteSubmission::create_or_update(&mut store, &id, UserId(30), InvitePollVote::No, 101)
        .unwrap();
    InvitePollVoteSubmission::create_or_update(&mut store, &id, UserId(30), InvitePollVote::Yes, 102)
        .unwrap();
    let counts = InvitePollCount::compute(&store, &id);
    assert_eq!(counts.yes_count, 1);
    assert_eq!(counts.no_count, 0);
    let pwc = InvitePollWithVoteCount::find_by_id(&store, &id).unwrap();
    assert_eq!(pwc.yes_count, 1);
    assert_eq!(pwc.no_count, 0);
}

#[test]
fn resubmission_keeps_one_row() {
    let (mut store, id) = store_with_poll(100, 60);
    let first =
        InvitePollVoteSubmission::create_or_update(&mut store, &id, UserId(30), InvitePollVote::No, 101)
            .unwrap();
    let second =
        InvitePollVoteSubmission::create_or_update(&mut store, &id, UserId(30), InvitePollVote::Yes, 102)
            .unwrap();
    // the overwritten row keeps its creation time and takes the new value
    assert_eq!(first.created_at, 101);
    assert_eq!(second.created_at, 101);
    assert_eq!(second.updated_at, 102);
    assert!(matches!(second.vote, InvitePollVote::Yes));
}

#[test]
fn distinct_voters_accumulate() {
    let (mut store, id) = store_with_poll(100, 60);
    InvitePollVoteSubmission::create_or_update(&mut store, &id, UserId(1), InvitePollVote::Yes, 101)
        .unwrap();
    InvitePollVoteSubmission::create_or_update(&mut store, &id, UserId(2), InvitePollVote::Yes, 102)
        .unwrap();
    InvitePollVoteSubmission::create_or_update(&mut store, &id, UserId(3), InvitePollVote::No, 103)
        .unwrap();
    let counts = InvitePollCount::compute(&store, &id);
    assert_eq!(counts.yes_count, 2);
    assert_eq!(counts.no_count, 1);
}

#[test]
fn vote_on_unknown_poll_is_rejected() {
    let (mut store, _) = store_with_poll(100, 60);
    let other = democracy::entities::invite_poll::InvitePollId::new(vec![9; 16]).unwrap();
    let err =
        InvitePollVoteSubmission::create_or_update(&mut store, &other, UserId(1), InvitePollVote::Yes, 101)
            .unwrap_err();
    assert!(matches!(err, Error::InvitePollNotFound(_)));
    assert!(err.is_client_error());
}

#[test]
fn vote_on_expired_poll_is_rejected() {
    let (mut store, id) = store_with_poll(100, 60);
    // the deadline is 160; a vote at 200 must be turned away
    let err =
        InvitePollVoteSubmission::create_or_update(&mut store, &id, UserId(1), InvitePollVote::Yes, 200)
            .unwrap_err();
    assert!(matches!(err, Error::InvitePollNotOpen(_)));
    assert!(err.is_client_error());
    let counts = InvitePollCount::compute(&store, &id);
    assert_eq!(counts.yes_count, 0);
}

#[test]
fn vote_on_closed_poll_is_rejected() {
    let (mut store, id) = store_with_poll(100, 60);
    InvitePoll::close(&mut store, &id, InvitePollOutcome::Deny, None, 120).unwrap();
    let err =
        InvitePollVoteSubmission::create_or_update(&mut store, &id, UserId(1), InvitePollVote::Yes, 130)
            .unwrap_err();
    assert!(matches!(err, Error::InvitePollNotOpen(_)));
}
