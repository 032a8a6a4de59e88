use chat_server::admin::{AdminState, AdminStep};
use chat_server::auth::{create_account, new_account, AuthError, AuthState, AuthStep};
use chat_server::history::{
    compose_key, frame_chat, history_prefix, message_key, replay_order,
};
use chat_server::model::{MessageData, Timestamp, UserAccount};
use chat_server::session::{Session, SessionAction};
use chat_server::text::{is_white_space, space_index, trim};

fn alice() -> UserAccount {
    new_account(
        "alice".to_string(),
        "id-1".to_string(),
        "digest".to_string(),
        "user".to_string(),
    )
}

fn message(secs: i64, nanos: u32, text: &str) -> MessageData {
    MessageData {
        timestamp: Timestamp { secs, nanos },
        username: "alice".to_string(),
        message: text.as_bytes().to_vec(),
    }
}

fn reply_text(action: SessionAction) -> String {
    match action {
        SessionAction::Reply { text } => text,
        _ => panic!("expected a reply"),
    }
}

#[test]
fn trim_strips_unicode_white_space() {
    assert_eq!(trim("  \t alice \r\n"), "alice");
    assert_eq!(trim("\u{3000}x y\u{a0}"), "x y");
    assert_eq!(trim(" \n "), "");
    assert_eq!(trim(""), "");
    assert!(is_white_space('\u{85}'));
    assert!(!is_white_space('a'));
}

#[test]
fn space_index_finds_first_space() {
    assert_eq!(space_index("/join dev room"), 5);
    assert_eq!(space_index("/leave"), 6);
    assert_eq!(space_index(""), 0);
}

#[test]
fn new_session_starts_in_general() {
    let s = Session::new(alice());
    assert_eq!(s.current_channel, "general");
    assert_eq!(s.join_notice(), "Joining channel: general...\n");
}

#[test]
fn leave_in_general_stays_with_notice() {
    let mut s = Session::new(alice());
    let r = reply_text(s.handle_line("/leave\n", Timestamp { secs: 0, nanos: 0 }));
    assert_eq!(r, "Cannot leave the general channel. Use /join to select new channel.");
    assert_eq!(s.current_channel, "general");
}

#[test]
fn join_dev_then_chat_keys_under_dev() {
    let mut s = Session::new(alice());
    let r = reply_text(s.handle_line("/join dev\n", Timestamp { secs: 0, nanos: 0 }));
    assert_eq!(r, "Joined channel: dev\n");
    assert_eq!(s.current_channel, "dev");
    match s.handle_line("hello\n", Timestamp { secs: 0, nanos: 0 }) {
        SessionAction::Chat { key, message } => {
            assert!(key.starts_with("dev:"));
            assert_eq!(key, "dev:1970-01-01 00:00:00 UTC:id-1");
            assert_eq!(message.username, "alice");
            assert_eq!(message.message, b"hello\n".to_vec());
            assert_eq!(message.timestamp, Timestamp { secs: 0, nanos: 0 });
        }
        _ => panic!("expected a chat message"),
    }
}

#[test]
fn unknown_command_is_reported_and_changes_nothing() {
    let mut s = Session::new(alice());
    let r = reply_text(s.handle_line("/foo\n", Timestamp { secs: 5, nanos: 0 }));
    assert_eq!(r, "Unknown command: /foo");
    assert_eq!(s.current_channel, "general");
    assert_eq!(s.account.username, "alice");
}

#[test]
fn join_without_name_shows_usage() {
    let mut s = Session::new(alice());
    let r = reply_text(s.handle_line("/join  \n", Timestamp { secs: 0, nanos: 0 }));
    assert_eq!(r, "Usage: /join <channel>\n");
    assert_eq!(s.current_channel, "general");
}

#[test]
fn leave_other_channel_returns_to_general() {
    let mut s = Session::new(alice());
    s.handle_line("/join dev", Timestamp { secs: 0, nanos: 0 });
    let r = reply_text(s.handle_line("/leave", Timestamp { secs: 0, nanos: 0 }));
    assert_eq!(r, "You have left dev. Joining general channel..");
    assert_eq!(s.current_channel, "general");
}

#[test]
fn chat_at_unrepresentable_instant_stops() {
    let mut s = Session::new(alice());
    let r = s.handle_line("hi", Timestamp { secs: i64::MAX, nanos: 0 });
    assert!(matches!(r, SessionAction::Stop));
}

#[test]
fn handle_input_keys_chat_in_current_channel() {
    let mut s = Session::new(alice());
    match s.handle_input("hi") {
        SessionAction::Chat { key, .. } => {
            assert!(key.starts_with("general:"));
            assert!(key.ends_with(":id-1"));
        }
        _ => panic!("expected a chat message"),
    }
}

#[test]
fn keys_prefixes_and_frames() {
    assert_eq!(compose_key("general", "T", "u"), "general:T:u");
    assert_eq!(history_prefix("dev"), "dev:");
    assert_eq!(frame_chat("{}"), "JSON:{}\n");
    assert_eq!(
        message_key("general", &Timestamp { secs: 86_400, nanos: 500_000_000 }, "u").unwrap(),
        "general:1970-01-02 00:00:00.500 UTC:u"
    );
    assert!(message_key("general", &Timestamp { secs: i64::MIN, nanos: 0 }, "u").is_none());
}

#[test]
fn replay_two_messages_in_time_order_either_way() {
    let first = replay_order(vec![message(1, 0, "a"), message(2, 0, "b")]);
    let second = replay_order(vec![message(2, 0, "b"), message(1, 0, "a")]);
    for out in [first, second] {
        assert_eq!(out.len(), 2);
        assert_eq!(out[0].message, b"a".to_vec());
        assert_eq!(out[1].message, b"b".to_vec());
    }
}

#[test]
fn replay_orders_by_nanos_and_keeps_ties_stable() {
    let out = replay_order(vec![
        message(3, 0, "c"),
        message(1, 9, "b"),
        message(1, 2, "a"),
        message(3, 0, "d"),
    ]);
    let texts: Vec<Vec<u8>> = out.into_iter().map(|m| m.message).collect();
    assert_eq!(texts, vec![b"a".to_vec(), b"b".to_vec(), b"c".to_vec(), b"d".to_vec()]);
}

#[test]
fn replay_of_empty_history_is_empty() {
    assert!(replay_order(Vec::new()).is_empty());
}

#[test]
fn auth_asks_for_username_then_looks_it_up() {
    let start = AuthStep::start();
    assert_eq!(start.reply, "Please enter username:\n");
    let step = start.state.advance(" alice \n");
    match step.state {
        AuthState::Lookup { username } => assert_eq!(username, "alice"),
        _ => panic!("expected a lookup"),
    }
}

#[test]
fn unknown_username_enters_registration() {
    let step = AuthStep::lookup_done("bob".to_string(), None);
    assert_eq!(
        step.reply,
        "Username not found. Would you like to register this username? (Y/N)\n"
    );
    assert!(matches!(step.state, AuthState::AwaitChoice { .. }));
}

#[test]
fn registration_answers() {
    let yes = AuthStep::choice_read("bob".to_string(), "y\n");
    assert_eq!(yes.reply, "Please enter new password:\n");
    assert!(matches!(yes.state, AuthState::AwaitNewPassword { .. }));
    let no = AuthStep::choice_read("bob".to_string(), "N");
    assert_eq!(no.reply, "Authentication cancelled. Closing connection..");
    assert!(matches!(no.state, AuthState::Closed { error: AuthError::Cancelled }));
    let other = AuthStep::choice_read("bob".to_string(), "maybe");
    assert_eq!(other.reply, "Invalid response received");
    assert!(matches!(other.state, AuthState::Closed { error: AuthError::InvalidResponse }));
}

#[test]
fn register_then_login_with_same_and_wrong_password() {
    let reg = AuthStep::new_password_read("carol".to_string(), "s3cret\n");
    assert_eq!(reg.reply, "User account created successfully");
    let account = reg.created.expect("account created");
    assert_eq!(account.username, "carol");
    assert_eq!(account.server_role, "user");
    assert_ne!(account.pass_hash, "s3cret");
    assert!(!account.uuid.is_empty());
    assert!(matches!(reg.state, AuthState::Authenticated { .. }));

    let found = AuthStep::lookup_done("carol".to_string(), Some(account.duplicate()));
    assert_eq!(found.reply, "Please enter password:\n");
    let ok = found.state.advance("s3cret\n");
    assert_eq!(ok.reply, "Authentication successful\n");
    assert!(matches!(ok.state, AuthState::Authenticated { .. }));
    assert!(ok.created.is_none());

    let bad = AuthStep::password_read(account.duplicate(), "wrong\n");
    assert_eq!(bad.reply, "Invalid Password\n");
    assert!(matches!(bad.state, AuthState::Closed { error: AuthError::Failed }));
    assert!(bad.created.is_none());
}

#[test]
fn malformed_stored_digest_is_a_credential_error() {
    let step = AuthStep::password_read(alice(), "pw");
    assert_eq!(step.reply, "");
    assert!(matches!(step.state, AuthState::Closed { error: AuthError::Credential }));
}

#[test]
fn login_decision_per_verdict() {
    assert_eq!(AuthStep::login_decision(alice(), Some(true)).reply, "Authentication successful\n");
    assert_eq!(AuthStep::login_decision(alice(), Some(false)).reply, "Invalid Password\n");
    assert!(matches!(
        AuthStep::login_decision(alice(), None).state,
        AuthState::Closed { error: AuthError::Credential }
    ));
}

#[test]
fn created_accounts_have_distinct_ids() {
    let a = create_account("d".to_string(), "pw", "admin".to_string()).unwrap();
    let b = create_account("d".to_string(), "pw", "admin".to_string()).unwrap();
    assert_ne!(a.uuid, b.uuid);
    assert_eq!(a.server_role, "admin");
}

#[test]
fn admin_add_user_flow() {
    let step = AdminState::AwaitCommand.advance("/add_user\n");
    assert_eq!(step.output.as_deref(), Some("Enter username:"));
    let step = step.state.advance("alice\n");
    let username = match step.state {
        AdminState::Lookup { username } => username,
        _ => panic!("expected a lookup"),
    };
    assert_eq!(username, "alice");
    let step = AdminStep::lookup_done(username, false);
    assert_eq!(step.output.as_deref(), Some("Enter password:"));
    let step = step.state.advance("pw\n");
    assert_eq!(step.output.as_deref(), Some("Enter user role:"));
    let step = step.state.advance("admin\n");
    assert_eq!(step.output.as_deref(), Some("User 'alice' created successfully"));
    let account = step.created.unwrap();
    assert_eq!(account.server_role, "admin");
    assert!(matches!(step.state, AdminState::AwaitCommand));
}

#[test]
fn admin_duplicate_add_user_is_rejected() {
    let step = AdminStep::lookup_done("alice".to_string(), true);
    assert_eq!(step.output.as_deref(), Some("Username already exist"));
    assert!(step.created.is_none());
    assert!(matches!(step.state, AdminState::AwaitCommand));
}

#[test]
fn admin_unknown_command() {
    let step = AdminStep::command_read("/list\n");
    assert_eq!(step.output.as_deref(), Some("Unknown command: /list"));
    assert!(matches!(step.state, AdminState::AwaitCommand));
}
