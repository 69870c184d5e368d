use democracy::action::Action;
use democracy::action::configure::Configure;
use democracy::action::create_invite_poll::CreateInvitePoll;
use democracy::action::error::ParseActionError;
use democracy::action::interaction::CommandInteraction;
use democracy::action::interaction::CommandOption;
use democracy::action::interaction::ComponentInteraction;
use democracy::action::interaction::Interaction;
use democracy::action::interaction::MessageField;
use democracy::action::interaction::OptionValue;
use democracy::action::submit_invite_poll_vote::SubmitInvitePollVote;
use democracy::entities::invite_poll::InvitePoll;
use democracy::entities::invite_poll::InvitePollId;
use democracy::entities::store::Store;
use democracy::entities::InvitePollVote;
use democracy::error::Error;
use democracy::ids::ChannelId;
use democracy::ids::GuildId;
use democracy::ids::UserId;

fn is_send<T: Send>() -> bool {
    true
}

fn is_sync<T: Sync>() -> bool {
    true
}

#[test]
fn test_is_send_and_sync() {
    assert!(is_send::<ParseActionError>());
    assert!(is_sync::<ParseActionError>());
}

#[test]
fn error_test_is_send_and_sync() {
    assert!(is_send::<Error>());
    assert!(is_sync::<Error>());
}

fn invite_command(options: Vec<CommandOption>) -> Interaction {
    Interaction::Command(CommandInteraction {
        name: String::from("invite"),
        options,
        guild_id: Some(GuildId(1)),
        user: UserId(10),
        channel_id: ChannelId(5),
        admin_permission: false,
    })
}

fn text_option(name: &str, value: &str) -> CommandOption {
    CommandOption { name: String::from(name), value: OptionValue::Text(String::from(value)) }
}

#[test]
fn invite_parses_user_and_duration() {
    let interaction = invite_command(vec![
        text_option("user-id", "42"),
        text_option("duration", "1s"),
    ]);
    let action = CreateInvitePoll::try_from(&interaction).unwrap();
    assert_eq!(action.invitee, UserId(42));
    assert_eq!(action.inviter, UserId(10));
    assert_eq!(action.guild_id, GuildId(1));
    assert_eq!(action.duration_secs, 1);
}

#[test]
fn invite_duration_defaults_to_three_days() {
    let interaction = invite_command(vec![text_option("user-id", "42")]);
    let action = CreateInvitePoll::try_from(&interaction).unwrap();
    assert_eq!(action.duration_secs, 3 * 24 * 60 * 60);
}

#[test]
fn invite_reads_human_durations() {
    let interaction = invite_command(vec![
        text_option("user-id", "42"),
        text_option("duration", "2m"),
    ]);
    let action = CreateInvitePoll::try_from(&interaction).unwrap();
    assert_eq!(action.duration_secs, 120);
}

#[test]
fn invite_accepts_plus_signed_user_id() {
    let interaction = invite_command(vec![text_option("user-id", "+42")]);
    let action = CreateInvitePoll::try_from(&interaction).unwrap();
    assert_eq!(action.invitee, UserId(42));
}

#[test]
fn invite_rejects_bad_user_id() {
    let interaction = invite_command(vec![text_option("user-id", "forty-two")]);
    let err = CreateInvitePoll::try_from(&interaction).unwrap_err();
    assert!(matches!(err, ParseActionError::InvalidOptionValue { .. }));
    assert!(err.is_client_error());
}

#[test]
fn invite_rejects_bad_duration() {
    let interaction = invite_command(vec![
        text_option("user-id", "42"),
        text_option("duration", "soon"),
    ]);
    let err = CreateInvitePoll::try_from(&interaction).unwrap_err();
    assert!(matches!(err, ParseActionError::InvalidOptionValue { .. }));
}

#[test]
fn invite_rejects_unknown_option() {
    let interaction = invite_command(vec![text_option("user", "42")]);
    let err = CreateInvitePoll::try_from(&interaction).unwrap_err();
    assert!(matches!(err, ParseActionError::UnknownOption { .. }));
}

#[test]
fn invite_requires_user_id() {
    let interaction = invite_command(vec![]);
    let err = CreateInvitePoll::try_from(&interaction).unwrap_err();
    assert!(matches!(err, ParseActionError::MissingOption { .. }));
}

#[test]
fn invite_requires_a_guild() {
    let interaction = Interaction::Command(CommandInteraction {
        name: String::from("invite"),
        options: vec![text_option("user-id", "42")],
        guild_id: None,
        user: UserId(10),
        channel_id: ChannelId(5),
        admin_permission: false,
    });
    let err = CreateInvitePoll::try_from(&interaction).unwrap_err();
    assert!(matches!(err, ParseActionError::NotInAGuild { .. }));
}

#[test]
fn invite_ignores_other_commands() {
    let interaction = Interaction::Command(CommandInteraction {
        name: String::from("ping"),
        options: vec![],
        guild_id: None,
        user: UserId(10),
        channel_id: ChannelId(5),
        admin_permission: false,
    });
    let err = CreateInvitePoll::try_from(&interaction).unwrap_err();
    assert!(matches!(err, ParseActionError::MismatchedAction));
    assert!(!err.is_client_error());
}

fn configure_command(admin: bool, options: Vec<CommandOption>) -> Interaction {
    Interaction::Command(CommandInteraction {
        name: String::from("configure"),
        options,
        guild_id: Some(GuildId(1)),
        user: UserId(10),
        channel_id: ChannelId(5),
        admin_permission: admin,
    })
}

#[test]
fn configure_requires_administrator() {
    let interaction = configure_command(false, vec![]);
    let err = Configure::try_from(&interaction).unwrap_err();
    assert!(matches!(err, ParseActionError::InsufficientPermissions));
    assert!(err.is_client_error());
}

#[test]
fn configure_parses_channel_and_quorum() {
    let interaction = configure_command(
        true,
        vec![
            CommandOption {
                name: String::from("invite-channel"),
                value: OptionValue::Chan(ChannelId(9)),
            },
            CommandOption { name: String::from("invite-poll-quorum"), value: OptionValue::Int(60) },
        ],
    );
    let action = Configure::try_from(&interaction).unwrap();
    assert_eq!(action.invite_channel_id, ChannelId(9));
    assert_eq!(action.invite_poll_quorum, 60);
}

#[test]
fn configure_clamps_quorum_to_a_percentage() {
    let interaction = configure_command(
        true,
        vec![
            CommandOption {
                name: String::from("invite-channel"),
                value: OptionValue::Chan(ChannelId(9)),
            },
            CommandOption {
                name: String::from("invite-poll-quorum"),
                value: OptionValue::Int(250),
            },
        ],
    );
    let action = Configure::try_from(&interaction).unwrap();
    assert_eq!(action.invite_poll_quorum, 100);
}

#[test]
fn configure_rejects_wrong_option_kind() {
    let interaction = configure_command(
        true,
        vec![CommandOption {
            name: String::from("invite-channel"),
            value: OptionValue::Int(3),
        }],
    );
    let err = Configure::try_from(&interaction).unwrap_err();
    assert!(matches!(err, ParseActionError::InvalidOptionKind { .. }));
}

#[test]
fn configure_writes_the_settings_row() {
    let interaction = configure_command(
        true,
        vec![
            CommandOption {
                name: String::from("invite-channel"),
                value: OptionValue::Chan(ChannelId(9)),
            },
            CommandOption { name: String::from("invite-poll-quorum"), value: OptionValue::Int(60) },
        ],
    );
    let action = Configure::try_from(&interaction).unwrap();
    let mut store = Store::new();
    let guild = action.execute(&mut store, 500);
    assert_eq!(guild.invite_channel_id, ChannelId(9));
    assert_eq!(guild.invite_poll_quorum, 60);
}

fn vote_button(custom_id: &str, field_value: &str) -> Interaction {
    Interaction::Component(ComponentInteraction {
        custom_id: String::from(custom_id),
        user: UserId(30),
        message_fields: vec![MessageField {
            name: String::from("Poll Id"),
            value: String::from(field_value),
        }],
    })
}

fn encoded_id() -> (InvitePollId, String) {
    let id = InvitePollId::new(vec![7; 16]).unwrap();
    let text = id.to_string();
    (id, text)
}

#[test]
fn vote_button_parses_poll_and_vote() {
    let (id, text) = encoded_id();
    let backticked = format!("`{}`", text);
    let interaction = vote_button("democracy.invite-poll-vote.yes", &backticked);
    let action = SubmitInvitePollVote::try_from(&interaction).unwrap();
    assert!(action.invite_poll_id == id);
    assert_eq!(action.user_id, UserId(30));
    assert!(matches!(action.vote, InvitePollVote::Yes));
}

#[test]
fn vote_button_parses_no_without_backticks() {
    let (id, text) = encoded_id();
    let interaction = vote_button("democracy.invite-poll-vote.no", &text);
    let action = SubmitInvitePollVote::try_from(&interaction).unwrap();
    assert!(action.invite_poll_id == id);
    assert!(matches!(action.vote, InvitePollVote::No));
}

#[test]
fn vote_button_rejects_unknown_vote() {
    let (_, text) = encoded_id();
    let interaction = vote_button("democracy.invite-poll-vote.maybe", &text);
    let err = SubmitInvitePollVote::try_from(&interaction).unwrap_err();
    assert!(matches!(err, ParseActionError::InvalidActionId { .. }));
}

#[test]
fn vote_button_requires_the_poll_id_field() {
    let interaction = Interaction::Component(ComponentInteraction {
        custom_id: String::from("democracy.invite-poll-vote.yes"),
        user: UserId(30),
        message_fields: vec![],
    });
    let err = SubmitInvitePollVote::try_from(&interaction).unwrap_err();
    assert!(matches!(err, ParseActionError::ParentMessage(_)));
}

#[test]
fn vote_button_rejects_garbled_poll_id() {
    let interaction = vote_button("democracy.invite-poll-vote.yes", "`not an id`");
    let err = SubmitInvitePollVote::try_from(&interaction).unwrap_err();
    assert!(matches!(err, ParseActionError::ParentMessage(_)));
}

#[test]
fn vote_button_ignores_other_buttons() {
    let interaction = Interaction::Component(ComponentInteraction {
        custom_id: String::from("another.button"),
        user: UserId(30),
        message_fields: vec![],
    });
    let err = SubmitInvitePollVote::try_from(&interaction).unwrap_err();
    assert!(matches!(err, ParseActionError::MismatchedAction));
}

#[test]
fn dispatch_routes_each_action() {
    let invite = invite_command(vec![text_option("user-id", "42")]);
    assert!(matches!(Action::try_from(&invite), Ok(Action::CreateInvitePoll(_))));

    let configure = configure_command(
        true,
        vec![
            CommandOption {
                name: String::from("invite-channel"),
                value: OptionValue::Chan(ChannelId(9)),
            },
            CommandOption { name: String::from("invite-poll-quorum"), value: OptionValue::Int(60) },
        ],
    );
    assert!(matches!(Action::try_from(&configure), Ok(Action::Configure(_))));

    let (_, text) = encoded_id();
    let vote = vote_button("democracy.invite-poll-vote.yes", &text);
    assert!(matches!(Action::try_from(&vote), Ok(Action::SubmitInvitePollVote(_))));
}

#[test]
fn dispatch_rejects_unrecognised_interactions() {
    let err = Action::try_from(&Interaction::Ping).unwrap_err();
    assert!(matches!(err, ParseActionError::NoMatchingActionFound));
    assert!(err.is_client_error());
}

#[test]
fn dispatch_surfaces_non_mismatch_errors() {
    let invite = invite_command(vec![text_option("user-id", "nope")]);
    let err = Action::try_from(&invite).unwrap_err();
    assert!(matches!(err, ParseActionError::InvalidOptionValue { .. }));
}

#[test]
fn registration_lists_both_commands() {
    let commands = Action::register();
    assert_eq!(commands.len(), 2);
    assert_eq!(commands[0].name, "configure");
    assert_eq!(commands[1].name, "invite");
    assert_eq!(commands[1].options.len(), 2);
    assert_eq!(commands[1].options[0].name, "user-id");
    assert!(commands[1].options[0].required);
}

#[test]
fn vote_execute_records_and_returns_the_tally() {
    let mut store = Store::new();
    let poll = InvitePoll::create(&mut store, GuildId(1), UserId(1), UserId(2), 60, 100).unwrap();
    let text = poll.id.to_string();
    let interaction = vote_button("democracy.invite-poll-vote.yes", &format!("`{}`", text));
    let action = SubmitInvitePollVote::try_from(&interaction).unwrap();
    let pwc = action.execute(&mut store, 110).unwrap();
    assert_eq!(pwc.yes_count, 1);
    assert_eq!(pwc.no_count, 0);
    let err = action.execute(&mut store, 200).unwrap_err();
    assert!(matches!(err, Error::InvitePollNotOpen(_)));
}

#[test]
fn create_execute_rejects_members() {
    let invite = invite_command(vec![text_option("user-id", "42"), text_option("duration", "1s")]);
    let action = CreateInvitePoll::try_from(&invite).unwrap();
    let mut store = Store::new();
    let err = action.execute(&mut store, true, 100).unwrap_err();
    assert!(matches!(err, Error::CannotInviteMember(UserId(42))));
    let poll = action.execute(&mut store, false, 100).unwrap();
    assert_eq!(poll.ends_at, 101);
}

#[test]
fn errors_render_their_user_facing_text() {
    let err = Error::CannotInviteMember(UserId(42));
    assert_eq!(err.message(), "user '<@42>' is already a member");
    let parse = ParseActionError::UnknownOption {
        action: String::from("invite"),
        option: String::from("user"),
    };
    assert_eq!(parse.message(), "unknown option 'user'");
    let id = InvitePollId::new(vec![0; 16]).unwrap();
    let not_found = Error::InvitePollNotFound(id);
    assert_eq!(
        not_found.message(),
        "could not find an invite poll with id `AAAAAAAAAAAAAAAAAAAAAA`"
    );
}

#[test]
fn invite_rejects_overlong_duration_digits() {
    // this text drives the outside parser into its one seconds-counter
    // carry; the library turns it away before the call instead
    let interaction = invite_command(vec![
        text_option("user-id", "42"),
        text_option("duration", "18446744073709551615s 1000000000ns"),
    ]);
    let err = CreateInvitePoll::try_from(&interaction).unwrap_err();
    assert!(matches!(err, ParseActionError::InvalidOptionValue { .. }));
    assert!(err.is_client_error());
    // twelve digits in all are already too many
    let too_many = invite_command(vec![
        text_option("user-id", "42"),
        text_option("duration", "999999999999s"),
    ]);
    let err = CreateInvitePoll::try_from(&too_many).unwrap_err();
    assert!(matches!(err, ParseActionError::InvalidOptionValue { .. }));
}

#[test]
fn invite_accepts_durations_up_to_eleven_digits() {
    let interaction = invite_command(vec![
        text_option("user-id", "42"),
        text_option("duration", "99999999999s"),
    ]);
    let action = CreateInvitePoll::try_from(&interaction).unwrap();
    assert_eq!(action.duration_secs, 99_999_999_999);
    // several spans still fit within the digit allowance
    let composite = invite_command(vec![
        text_option("user-id", "42"),
        text_option("duration", "1h 30m 15s 500ms"),
    ]);
    let action = CreateInvitePoll::try_from(&composite).unwrap();
    assert_eq!(action.duration_secs, 3600 + 30 * 60 + 15);
}
