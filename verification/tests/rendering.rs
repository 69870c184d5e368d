use democracy::entities::guild::Guild;
use democracy::entities::invite_poll::InvitePoll;
use democracy::entities::invite_poll_vote_submission::InvitePollVoteSubmission;
use democracy::entities::invite_poll_with_vote_count::InvitePollWithVoteCount;
use democracy::entities::store::Store;
use democracy::entities::InvitePollOutcome;
use democracy::entities::InvitePollVote;
use democracy::ids::ChannelId;
use democracy::ids::GuildId;
use democracy::ids::UserId;
use democracy::text::i64_to_string;
use democracy::text::parse_u64;
use democracy::text::u64_to_string;
use democracy::util::discord_timestamp::DiscordTimestamp;
use democracy::util::discord_timestamp::DiscordTimestampStyle;
use democracy::util::message::CreateMessageData;
use democracy::util::message::EditMessageData;
use democracy::util::progress_bar::ProgressBar;

#[test]
fn numbers_render_in_decimal() {
    assert_eq!(u64_to_string(0), "0");
    assert_eq!(u64_to_string(12345), "12345");
    assert_eq!(u64_to_string(u64::MAX), "18446744073709551615");
    assert_eq!(i64_to_string(-42), "-42");
    assert_eq!(i64_to_string(i64::MIN), "-9223372036854775808");
}

#[test]
fn numbers_parse_back() {
    assert_eq!(parse_u64("0"), Some(0));
    assert_eq!(parse_u64("+42"), Some(42));
    assert_eq!(parse_u64("18446744073709551615"), Some(u64::MAX));
    assert_eq!(parse_u64(""), None);
    assert_eq!(parse_u64("+"), None);
    assert_eq!(parse_u64("4a2"), None);
    assert_eq!(parse_u64("18446744073709551616"), None);
}

#[test]
fn users_render_as_mentions() {
    assert_eq!(UserId(123).to_string(), "<@123>");
}

#[test]
fn timestamps_use_the_platform_markup() {
    let ts = DiscordTimestamp::new(1000, DiscordTimestampStyle::FullShort);
    assert_eq!(ts.to_string(), "<t:1000:f>");
    assert_eq!(ts.with_style(DiscordTimestampStyle::Relative).to_string(), "<t:1000:R>");
    let before_epoch = DiscordTimestamp::new(-5, DiscordTimestampStyle::DateLong);
    assert_eq!(before_epoch.to_string(), "<t:-5:D>");
}

#[test]
fn progress_bar_renders_share_and_counts() {
    let mut builder = ProgressBar::builder();
    builder.max(2);
    builder.with_count(true);
    builder.with_percentage(true);
    builder.value(1);
    let bar = builder.build().unwrap();
    assert_eq!(
        bar.to_string(),
        "\u{2588}\u{2588}\u{2588}\u{2588}\u{2588}\u{2591}\u{2591}\u{2591}\u{2591}\u{2591} [1/2 \u{b7} 50%]"
    );
}

#[test]
fn progress_bar_with_empty_range_stays_empty() {
    let mut builder = ProgressBar::builder();
    builder.max(0);
    builder.value(0);
    let bar = builder.build().unwrap();
    assert_eq!(bar.to_string(), "\u{2591}".repeat(10));
}

#[test]
fn progress_bar_builder_requires_value_and_max() {
    let builder = ProgressBar::builder();
    let err = builder.build().unwrap_err();
    assert_eq!(err.field, "value");
    let mut builder = ProgressBar::builder();
    builder.value(1);
    let err = builder.build().unwrap_err();
    assert_eq!(err.field, "max");
}

fn rendered_poll(store: &Store, id: &democracy::entities::invite_poll::InvitePollId) -> InvitePollWithVoteCount {
    InvitePollWithVoteCount::find_by_id(store, id).unwrap()
}

#[test]
fn open_poll_renders_buttons_and_open_status() {
    let mut store = Store::new();
    Guild::create_or_update(&mut store, GuildId(1), ChannelId(9), 50, 100);
    let poll = InvitePoll::create(&mut store, GuildId(1), UserId(1), UserId(2), 60, 100).unwrap();
    let pwc = rendered_poll(&store, &poll.id);
    let renderer = pwc.create_renderer("somebody", "https://example.test/face.png");
    let message = renderer.render_create_message(CreateMessageData {
        content: None,
        components: None,
        embeds: vec![],
    });
    assert_eq!(message.embeds.len(), 1);
    let embed = &message.embeds[0];
    assert_eq!(embed.title, "Invite Poll");
    assert_eq!(embed.fields[0].name, "Poll Id");
    assert_eq!(embed.fields[0].value, format!("`{}`", poll.id.to_string()));
    assert_eq!(embed.fields[1].value, "somebody");
    assert_eq!(embed.fields[2].name, "Status");
    assert_eq!(embed.fields[2].value, "Open");
    let rows = message.components.unwrap();
    assert_eq!(rows.len(), 1);
    assert_eq!(rows[0].buttons.len(), 2);
    assert_eq!(rows[0].buttons[0].custom_id, "democracy.invite-poll-vote.yes");
    assert_eq!(rows[0].buttons[1].custom_id, "democracy.invite-poll-vote.no");
}

#[test]
fn closed_poll_renders_outcome_without_buttons() {
    let mut store = Store::new();
    let poll = InvitePoll::create(&mut store, GuildId(1), UserId(1), UserId(2), 60, 100).unwrap();
    InvitePollVoteSubmission::create_or_update(&mut store, &poll.id, UserId(3), InvitePollVote::No, 110)
        .unwrap();
    InvitePoll::close(
        &mut store,
        &poll.id,
        InvitePollOutcome::Deny,
        Some(String::from("1 users opposed")),
        161,
    )
    .unwrap();
    let pwc = rendered_poll(&store, &poll.id);
    let renderer = pwc.create_renderer("somebody", "face");
    let message = renderer.render_edit_message(EditMessageData {
        content: None,
        components: None,
        embeds: vec![],
    });
    let embed = &message.embeds[0];
    assert_eq!(embed.fields[2].value, "Closed");
    assert_eq!(embed.fields[6].name, "Outcome");
    assert_eq!(embed.fields[6].value, "\u{26D4} Denied");
    assert_eq!(embed.fields[7].name, "Reason");
    assert_eq!(embed.fields[7].value, "1 users opposed");
    assert_eq!(message.components.unwrap().len(), 0);
}
