use rssh::config::Config;
use rssh::error::RsshError;
use rssh::ssh::create_session;
use rssh::ssh::session::{SessionAction, SessionBuilder, SessionEvent};

fn store() -> Config {
    let mut config = Config::new();
    config.add("box".to_string(), "u@10.0.0.1".to_string());
    config.add("broken".to_string(), "nobody".to_string());
    config
}

fn failed(reason: &str) -> SessionEvent {
    SessionEvent::Failed { reason: reason.to_string() }
}

fn is_auth_failed(action: &SessionAction, why: &str) -> bool {
    matches!(
        action,
        SessionAction::Abort { error: RsshError::AuthFailed { reason }, close_connection: true }
            if reason == why
    )
}

/// A builder for `box` whose handshake is done, and what it asked for then.
fn shaken(identity: Option<&str>) -> (SessionBuilder, SessionAction) {
    let (mut builder, action) = create_session(&store(), "box", 22, identity);
    assert!(matches!(action, SessionAction::Connect { ref address } if address == "10.0.0.1:22"));
    assert!(matches!(builder.step(SessionEvent::Done), SessionAction::Handshake));
    let action = builder.step(SessionEvent::Done);
    (builder, action)
}

#[test]
fn stored_secret_authenticates_without_a_prompt() {
    let mut config = Config::new();
    config.add("box".to_string(), "u@10.0.0.1".to_string());
    let (mut builder, action) = create_session(&config, "box", 22, None);
    assert!(matches!(action, SessionAction::Connect { ref address } if address == "10.0.0.1:22"));
    assert!(matches!(builder.step(SessionEvent::Done), SessionAction::Handshake));
    let action = builder.step(SessionEvent::Done);
    assert!(matches!(action, SessionAction::FetchSecret { ref alias } if alias == "box"));
    let action = builder.step(SessionEvent::Secret(Some("s3cret".to_string())));
    assert!(matches!(
        action,
        SessionAction::AuthPassword { ref user, ref password } if user == "u" && password == "s3cret"
    ));
    assert!(matches!(builder.step(SessionEvent::Done), SessionAction::Finish));
    assert!(builder.is_done());
    assert!(builder.is_finished());
}

#[test]
fn builder_knows_what_it_is_built_for() {
    let (builder, _) = create_session(&store(), "box", 2222, None);
    assert_eq!(builder.alias(), "box");
    assert_eq!(builder.user(), "u");
    assert_eq!(builder.host(), "10.0.0.1");
    assert_eq!(builder.port(), 2222);
    assert!(!builder.is_finished());
}

#[test]
fn connection_goes_to_the_given_port() {
    let (_, action) = create_session(&store(), "box", 2222, None);
    assert!(matches!(action, SessionAction::Connect { ref address } if address == "10.0.0.1:2222"));
}

#[test]
fn missing_alias_is_given_up_at_once() {
    let (mut builder, action) = create_session(&store(), "nowhere", 22, None);
    assert!(matches!(
        action,
        SessionAction::Abort { error: RsshError::AliasNotFound { ref alias }, close_connection: false }
            if alias == "nowhere"
    ));
    assert!(builder.is_finished());
    assert!(!builder.is_done());
    assert!(matches!(
        builder.step(SessionEvent::Done),
        SessionAction::Abort { error: RsshError::AliasNotFound { .. }, close_connection: false }
    ));
}

#[test]
fn invalid_connection_string_is_given_up_at_once() {
    let (builder, action) = create_session(&store(), "broken", 22, None);
    assert!(matches!(
        action,
        SessionAction::Abort {
            error: RsshError::InvalidConnectionString { ref connection },
            close_connection: false,
        } if connection == "nobody"
    ));
    assert!(builder.is_finished());
}

#[test]
fn failed_connection_has_nothing_to_close() {
    let (mut builder, _) = create_session(&store(), "box", 22, None);
    let action = builder.step(failed("Connection refused"));
    assert!(matches!(
        action,
        SessionAction::Abort {
            error: RsshError::ConnectFailed { ref address, ref reason },
            close_connection: false,
        } if address == "10.0.0.1:22" && reason == "Connection refused"
    ));
    assert!(builder.is_finished());
}

#[test]
fn failed_handshake_closes_the_connection() {
    let (mut builder, _) = create_session(&store(), "box", 22, None);
    builder.step(SessionEvent::Done);
    let action = builder.step(failed("bad banner"));
    assert!(matches!(
        action,
        SessionAction::Abort {
            error: RsshError::HandshakeFailed { ref reason },
            close_connection: true,
        } if reason == "bad banner"
    ));
}

#[test]
fn key_is_tried_without_passphrase_first() {
    let (mut builder, action) = shaken(Some("/home/u/.ssh/id_ed25519"));
    assert!(matches!(
        action,
        SessionAction::AuthKey { ref user, ref key_path, passphrase: None }
            if user == "u" && key_path == "/home/u/.ssh/id_ed25519"
    ));
    assert!(matches!(builder.step(SessionEvent::Done), SessionAction::Finish));
    assert!(builder.is_done());
}

#[test]
fn locked_key_is_tried_once_more_with_the_passphrase() {
    let (mut builder, _) = shaken(Some("/k"));
    let action = builder.step(failed("Unable to extract public key: wrong passphrase"));
    assert!(matches!(action, SessionAction::AskPassphrase));
    let action = builder.step(SessionEvent::Answer("open sesame".to_string()));
    assert!(matches!(
        action,
        SessionAction::AuthKey { ref user, ref key_path, passphrase: Some(ref p) }
            if user == "u" && key_path == "/k" && p == "open sesame"
    ));
    assert!(matches!(builder.step(SessionEvent::Done), SessionAction::Finish));
    assert!(builder.is_done());
}

#[test]
fn wrong_passphrase_is_not_asked_for_again() {
    let (mut builder, _) = shaken(Some("/k"));
    builder.step(failed("passphrase required"));
    builder.step(SessionEvent::Answer("guess".to_string()));
    let action = builder.step(failed("still wrong passphrase"));
    assert!(is_auth_failed(&action, "still wrong passphrase"));
    assert!(builder.is_finished());
    assert!(!builder.is_done());
}

#[test]
fn key_turned_down_for_another_reason_is_not_tried_again() {
    let (mut builder, _) = shaken(Some("/k"));
    let action = builder.step(failed("Username/PublicKey combination invalid"));
    assert!(is_auth_failed(&action, "Username/PublicKey combination invalid"));
    assert!(builder.is_finished());
}

#[test]
fn passphrase_prompt_that_is_declined_fails_the_authentication() {
    let (mut builder, _) = shaken(Some("/k"));
    builder.step(failed("needs passphrase"));
    let action = builder.step(failed("Operation was canceled by the user"));
    assert!(is_auth_failed(&action, "Operation was canceled by the user"));
}

#[test]
fn stale_stored_secret_fails_without_a_prompt() {
    let (mut builder, action) = shaken(None);
    assert!(matches!(action, SessionAction::FetchSecret { .. }));
    builder.step(SessionEvent::Secret(Some("old".to_string())));
    let action = builder.step(failed("Authentication failed (username/password)"));
    assert!(is_auth_failed(&action, "Authentication failed (username/password)"));
    assert!(builder.is_finished());
}

#[test]
fn missing_secret_leads_to_the_prompt() {
    let (mut builder, _) = shaken(None);
    let action = builder.step(SessionEvent::Secret(None));
    assert!(matches!(
        action,
        SessionAction::AskPassword { ref connection } if connection == "u@10.0.0.1"
    ));
}

#[test]
fn vault_that_fails_leads_to_the_prompt() {
    let (mut builder, _) = shaken(None);
    let action = builder.step(failed("vault is locked"));
    assert!(matches!(action, SessionAction::AskPassword { .. }));
}

#[test]
fn typed_password_is_tried_then_offered_to_the_vault() {
    let (mut builder, _) = shaken(None);
    builder.step(SessionEvent::Secret(None));
    let action = builder.step(SessionEvent::Answer("hunter2".to_string()));
    assert!(matches!(
        action,
        SessionAction::AuthPassword { ref user, ref password } if user == "u" && password == "hunter2"
    ));
    assert!(matches!(builder.step(SessionEvent::Done), SessionAction::AskToPersist));
    assert!(!builder.is_finished());
    let action = builder.step(SessionEvent::Confirmed(true));
    assert!(matches!(
        action,
        SessionAction::Persist { ref alias, ref secret } if alias == "box" && secret == "hunter2"
    ));
    assert!(matches!(builder.step(SessionEvent::Done), SessionAction::Finish));
    assert!(builder.is_done());
}

#[test]
fn typed_password_is_not_stored_where_the_user_says_no() {
    let (mut builder, _) = shaken(None);
    builder.step(SessionEvent::Secret(None));
    builder.step(SessionEvent::Answer("hunter2".to_string()));
    builder.step(SessionEvent::Done);
    assert!(matches!(builder.step(SessionEvent::Confirmed(false)), SessionAction::Finish));
    assert!(builder.is_done());
}

#[test]
fn typed_password_that_is_turned_down_is_not_stored() {
    let (mut builder, _) = shaken(None);
    builder.step(SessionEvent::Secret(None));
    builder.step(SessionEvent::Answer("wrong".to_string()));
    let action = builder.step(failed("denied"));
    assert!(is_auth_failed(&action, "denied"));
    assert!(matches!(builder.step(SessionEvent::Confirmed(true)), SessionAction::Abort { .. }));
}

#[test]
fn password_prompt_that_is_declined_fails_the_authentication() {
    let (mut builder, _) = shaken(None);
    builder.step(SessionEvent::Secret(None));
    let action = builder.step(failed("Operation was canceled by the user"));
    assert!(is_auth_failed(&action, "Operation was canceled by the user"));
}

#[test]
fn vault_that_cannot_store_fails_the_command() {
    let (mut builder, _) = shaken(None);
    builder.step(SessionEvent::Secret(None));
    builder.step(SessionEvent::Answer("hunter2".to_string()));
    builder.step(SessionEvent::Done);
    builder.step(SessionEvent::Confirmed(true));
    let action = builder.step(failed("vault is locked"));
    assert!(matches!(
        action,
        SessionAction::Abort { error: RsshError::Other { ref reason }, close_connection: true }
            if reason == "vault is locked"
    ));
    assert!(!builder.is_done());
}

#[test]
fn event_that_answers_nothing_ends_the_building() {
    let (mut builder, _) = create_session(&store(), "box", 22, None);
    let action = builder.step(SessionEvent::Confirmed(true));
    assert!(matches!(
        action,
        SessionAction::Abort {
            error: RsshError::ConnectFailed { ref reason, .. },
            close_connection: false,
        } if reason == "unexpected event"
    ));
    let (mut builder, _) = shaken(None);
    let action = builder.step(SessionEvent::Done);
    assert!(is_auth_failed(&action, "unexpected event"));
}

#[test]
fn session_that_is_built_stays_built() {
    let (mut builder, _) = shaken(Some("/k"));
    builder.step(SessionEvent::Done);
    for _ in 0..3 {
        assert!(matches!(builder.step(failed("late")), SessionAction::Finish));
        assert!(builder.is_done());
    }
}

#[test]
fn no_run_asks_for_the_passphrase_twice() {
    let answers = [
        "passphrase",
        "wrong passphrase",
        "passphrase again",
        "passphrase",
        "passphrase",
        "passphrase",
        "passphrase",
        "passphrase",
    ];
    let (mut builder, _) = shaken(Some("/k"));
    let mut prompts = 0;
    let mut attempts = 1;
    for (turn, answer) in answers.iter().enumerate() {
        let event = if turn % 2 == 0 {
            failed(answer)
        } else {
            SessionEvent::Answer(answer.to_string())
        };
        match builder.step(event) {
            SessionAction::AskPassphrase => prompts += 1,
            SessionAction::AuthKey { .. } => attempts += 1,
            _ => {}
        }
    }
    assert_eq!(prompts, 1);
    assert_eq!(attempts, 2);
    assert!(builder.is_finished());
    assert!(!builder.is_done());
}
