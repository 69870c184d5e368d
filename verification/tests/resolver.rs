use democracy::background_poll_handler::resolve;
use democracy::background_poll_handler::DeliveryAttemptOutcome;
use democracy::background_poll_handler::DeliveryStep;
use democracy::background_poll_handler::InvitePollMessage;
use democracy::background_poll_handler::InviteRecipient;
use democracy::background_poll_handler::delivery_step;
use democracy::background_poll_handler::first_recipient;
use democracy::entities::InvitePollOutcome;

#[test]
fn quorum_met_exactly_allows() {
    // 10 eligible voters at a 50% quorum require 5; 5 yes votes meet it
    let (outcome, message) = resolve(5, 0, 10, 50);
    assert_eq!(outcome, InvitePollOutcome::Allow);
    assert!(message.is_none());
}

#[test]
fn quorum_rounds_up() {
    // 10 eligible voters at 51% require 6, not 5: the threshold never
    // under-requires
    let (outcome, message) = resolve(5, 0, 10, 51);
    assert_eq!(outcome, InvitePollOutcome::Deny);
    let text = message.unwrap().to_string();
    assert_eq!(text, "the quorum was not reached: 5/6 users voted");
}

#[test]
fn a_single_no_vetoes() {
    for yes in [0u64, 1, 5, 1000] {
        let (outcome, message) = resolve(yes, 1, 10, 50);
        assert_eq!(outcome, InvitePollOutcome::Deny);
        assert_eq!(message.unwrap().to_string(), "1 users opposed");
    }
}

#[test]
fn veto_holds_for_any_quorum() {
    for quorum in [0u8, 1, 50, 100] {
        let (outcome, _) = resolve(100, 3, 10, quorum);
        assert_eq!(outcome, InvitePollOutcome::Deny);
    }
}

#[test]
fn opposition_message_counts_the_opposed() {
    let (_, message) = resolve(2, 3, 10, 50);
    assert_eq!(message.unwrap().to_string(), "3 users opposed");
}

#[test]
fn zero_quorum_allows_without_votes() {
    let (outcome, message) = resolve(0, 0, 10, 0);
    assert_eq!(outcome, InvitePollOutcome::Allow);
    assert!(message.is_none());
}

#[test]
fn invite_url_message_is_verbatim() {
    let message = InvitePollMessage::InviteUrl(String::from("https://example.test/invite"));
    assert_eq!(message.to_string(), "https://example.test/invite");
}

#[test]
fn delivery_starts_with_the_invitee() {
    assert_eq!(first_recipient(), InviteRecipient::Invitee);
}

#[test]
fn delivery_cascade_falls_through_blocked_recipients() {
    assert_eq!(
        delivery_step(InviteRecipient::Invitee, DeliveryAttemptOutcome::RecipientBlocked),
        DeliveryStep::Next(InviteRecipient::Inviter)
    );
    assert_eq!(
        delivery_step(InviteRecipient::Inviter, DeliveryAttemptOutcome::RecipientBlocked),
        DeliveryStep::Next(InviteRecipient::GuildOwner)
    );
    assert_eq!(
        delivery_step(InviteRecipient::GuildOwner, DeliveryAttemptOutcome::RecipientBlocked),
        DeliveryStep::Fallback
    );
}

#[test]
fn delivery_stops_on_success_or_real_failure() {
    assert_eq!(
        delivery_step(InviteRecipient::Invitee, DeliveryAttemptOutcome::Delivered),
        DeliveryStep::Done
    );
    assert_eq!(
        delivery_step(InviteRecipient::Inviter, DeliveryAttemptOutcome::Failed),
        DeliveryStep::Abort
    );
}
