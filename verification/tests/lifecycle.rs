use democracy::background_poll_handler::resolve_poll;
use democracy::entities::guild::Guild;
use democracy::entities::invite_poll::InvitePoll;
use democracy::entities::invite_poll_vote_submission::InvitePollVoteSubmission;
use democracy::entities::invite_poll_with_vote_count::InvitePollWithVoteCount;
use democracy::entities::store::Store;
use democracy::entities::InvitePollOutcome;
use democracy::entities::InvitePollVote;
use democracy::error::Error;
use democracy::ids::ChannelId;
use democracy::ids::GuildId;
use democracy::ids::MessageId;
use democracy::ids::UserId;

#[test]
fn create_validates_duration() {
    let mut store = Store::new();
    let err = InvitePoll::create(&mut store, GuildId(1), UserId(1), UserId(2), 0, 100).unwrap_err();
    assert!(matches!(err, Error::InvalidPollDuration));
    assert!(err.is_client_error());
}

#[test]
fn create_rejects_self_invite() {
    let mut store = Store::new();
    let err = InvitePoll::create(&mut store, GuildId(1), UserId(7), UserId(7), 60, 100)
        .unwrap_err();
    assert!(matches!(err, Error::CannotInviteSelf(UserId(7))));
}

#[test]
fn created_poll_is_open_with_deadline() {
    let mut store = Store::new();
    let poll = InvitePoll::create(&mut store, GuildId(1), UserId(1), UserId(2), 60, 100).unwrap();
    assert!(poll.outcome.is_none());
    assert_eq!(poll.ends_at, 160);
    assert_eq!(poll.created_at, 100);
    // the freshly drawn identifier encodes to 22 characters of base64
    assert_eq!(poll.id.to_string().len(), 22);
}

#[test]
fn update_message_backfills_coordinates() {
    let mut store = Store::new();
    let poll = InvitePoll::create(&mut store, GuildId(1), UserId(1), UserId(2), 60, 100).unwrap();
    InvitePoll::update_message(&mut store, &poll.id, ChannelId(5), MessageId(6), 101).unwrap();
    let pwc = InvitePollWithVoteCount::find_by_id(&store, &poll.id).unwrap();
    assert_eq!(pwc.invite_poll.channel_id, Some(ChannelId(5)));
    assert_eq!(pwc.invite_poll.message_id, Some(MessageId(6)));
}

#[test]
fn close_is_one_way() {
    let mut store = Store::new();
    let poll = InvitePoll::create(&mut store, GuildId(1), UserId(1), UserId(2), 60, 100).unwrap();
    InvitePoll::close(
        &mut store,
        &poll.id,
        InvitePollOutcome::Deny,
        Some(String::from("1 users opposed")),
        161,
    )
    .unwrap();
    // the second close is rejected and must not overwrite the outcome
    let err = InvitePoll::close(&mut store, &poll.id, InvitePollOutcome::Allow, None, 162)
        .unwrap_err();
    assert!(matches!(err, Error::InvitePollAlreadyClosed(_)));
    let pwc = InvitePollWithVoteCount::find_by_id(&store, &poll.id).unwrap();
    assert_eq!(pwc.invite_poll.outcome, Some(InvitePollOutcome::Deny));
    assert_eq!(pwc.invite_poll.message.as_deref(), Some("1 users opposed"));
}

#[test]
fn close_of_unknown_poll_is_rejected() {
    let mut store = Store::new();
    let id = democracy::entities::invite_poll::InvitePollId::new(vec![3; 16]).unwrap();
    let err = InvitePoll::close(&mut store, &id, InvitePollOutcome::Allow, None, 10).unwrap_err();
    assert!(matches!(err, Error::InvitePollNotFound(_)));
}

#[test]
fn overlapping_sweeps_close_exactly_once() {
    let mut store = Store::new();
    let poll = InvitePoll::create(&mut store, GuildId(1), UserId(1), UserId(2), 1, 100).unwrap();
    // both sweeps observe the same expired poll
    let batch_one = InvitePollWithVoteCount::find_expired(&store, 102);
    let batch_two = InvitePollWithVoteCount::find_expired(&store, 102);
    assert_eq!(batch_one.len(), 1);
    assert_eq!(batch_two.len(), 1);
    let first = InvitePoll::close(&mut store, &poll.id, InvitePollOutcome::Allow, None, 102);
    let second = InvitePoll::close(&mut store, &poll.id, InvitePollOutcome::Allow, None, 103);
    assert!(first.is_ok());
    assert!(second.is_err());
    // a later sweep no longer sees the poll at all
    assert_eq!(InvitePollWithVoteCount::find_expired(&store, 104).len(), 0);
}

#[test]
fn find_expired_selects_only_expired_open_polls() {
    let mut store = Store::new();
    let expired = InvitePoll::create(&mut store, GuildId(1), UserId(1), UserId(2), 10, 100)
        .unwrap();
    let running = InvitePoll::create(&mut store, GuildId(1), UserId(1), UserId(3), 1000, 100)
        .unwrap();
    let closed = InvitePoll::create(&mut store, GuildId(1), UserId(1), UserId(4), 10, 100)
        .unwrap();
    InvitePoll::close(&mut store, &closed.id, InvitePollOutcome::Deny, None, 111).unwrap();
    let batch = InvitePollWithVoteCount::find_expired(&store, 120);
    assert_eq!(batch.len(), 1);
    assert!(batch[0].invite_poll.id == expired.id);
    assert!(running.outcome.is_none());
}

#[test]
fn guild_settings_upsert_is_idempotent() {
    let mut store = Store::new();
    let first = Guild::create_or_update(&mut store, GuildId(9), ChannelId(1), 50, 100);
    assert_eq!(first.created_at, 100);
    let second = Guild::create_or_update(&mut store, GuildId(9), ChannelId(2), 75, 200);
    assert_eq!(second.invite_channel_id, ChannelId(2));
    assert_eq!(second.invite_poll_quorum, 75);
    assert_eq!(second.created_at, 100);
    assert_eq!(second.updated_at, 200);
    let found = Guild::find_by_id(&store, GuildId(9)).unwrap();
    assert_eq!(found, second);
    assert!(Guild::find_by_id(&store, GuildId(10)).is_none());
}

#[test]
fn resolving_without_settings_fails() {
    let mut store = Store::new();
    let poll = InvitePoll::create(&mut store, GuildId(1), UserId(1), UserId(2), 1, 100).unwrap();
    let batch = InvitePollWithVoteCount::find_expired(&store, 102);
    let err = resolve_poll(&store, &batch[0], 4).unwrap_err();
    assert!(matches!(err, Error::GuildNotFound(GuildId(1))));
    let _ = poll;
}

#[test]
fn expired_poll_with_quorum_closes_allow() {
    // community of 4 eligible voters, 50% quorum: 2 yes votes suffice
    let mut store = Store::new();
    Guild::create_or_update(&mut store, GuildId(1), ChannelId(77), 50, 1000);
    let poll = InvitePoll::create(&mut store, GuildId(1), UserId(1), UserId(2), 1, 1000).unwrap();
    InvitePollVoteSubmission::create_or_update(&mut store, &poll.id, UserId(3), InvitePollVote::Yes, 1000)
        .unwrap();
    InvitePollVoteSubmission::create_or_update(&mut store, &poll.id, UserId(4), InvitePollVote::Yes, 1000)
        .unwrap();
    // one sweep tick after the deadline
    let batch = InvitePollWithVoteCount::find_expired(&store, 1002);
    assert_eq!(batch.len(), 1);
    let (outcome, message) = resolve_poll(&store, &batch[0], 4).unwrap();
    assert_eq!(outcome, InvitePollOutcome::Allow);
    assert!(message.is_none());
    InvitePoll::close(&mut store, &poll.id, outcome, None, 1002).unwrap();
    let pwc = InvitePollWithVoteCount::find_by_id(&store, &poll.id).unwrap();
    assert_eq!(pwc.invite_poll.outcome, Some(InvitePollOutcome::Allow));
}

#[test]
fn expired_poll_with_opposition_closes_deny() {
    // quorum met, but a single opposing vote vetoes
    let mut store = Store::new();
    Guild::create_or_update(&mut store, GuildId(1), ChannelId(77), 50, 1000);
    let poll = InvitePoll::create(&mut store, GuildId(1), UserId(1), UserId(2), 1, 1000).unwrap();
    InvitePollVoteSubmission::create_or_update(&mut store, &poll.id, UserId(3), InvitePollVote::Yes, 1000)
        .unwrap();
    InvitePollVoteSubmission::create_or_update(&mut store, &poll.id, UserId(4), InvitePollVote::Yes, 1000)
        .unwrap();
    InvitePollVoteSubmission::create_or_update(&mut store, &poll.id, UserId(5), InvitePollVote::No, 1000)
        .unwrap();
    let batch = InvitePollWithVoteCount::find_expired(&store, 1002);
    assert_eq!(batch.len(), 1);
    let (outcome, message) = resolve_poll(&store, &batch[0], 4).unwrap();
    assert_eq!(outcome, InvitePollOutcome::Deny);
    let text = message.unwrap().to_string();
    assert_eq!(text, "1 users opposed");
    InvitePoll::close(&mut store, &poll.id, outcome, Some(text.clone()), 1002).unwrap();
    let pwc = InvitePollWithVoteCount::find_by_id(&store, &poll.id).unwrap();
    assert_eq!(pwc.invite_poll.outcome, Some(InvitePollOutcome::Deny));
    assert_eq!(pwc.invite_poll.message, Some(text));
}
