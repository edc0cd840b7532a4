use rssh::cli::Commands;
use rssh::commands::{list_lines, store_command, StoreAction, StoreEvent, StoreRun};
use rssh::config::{AliasRecord, Config};
use rssh::credentials::VaultFault;
use rssh::error::RsshError;

fn store() -> Config {
    let mut config = Config::new();
    config.add("box".to_string(), "u@10.0.0.1".to_string());
    config.add("web".to_string(), "www@example.org".to_string());
    config
}

fn pairs(records: &[AliasRecord]) -> Vec<(String, String)> {
    records.iter().map(|r| (r.alias.clone(), r.connection.clone())).collect()
}

fn pair(alias: &str, connection: &str) -> (String, String) {
    (alias.to_string(), connection.to_string())
}

fn remove(alias: &str) -> Commands {
    Commands::Remove { alias: alias.to_string() }
}

/// A removal of `box` whose store is written, waiting for the vault.
fn deleting() -> StoreRun {
    let mut config = store();
    let (mut run, _) = store_command(&mut config, &remove("box")).unwrap();
    let action = run.step(StoreEvent::Done);
    assert!(matches!(action, StoreAction::DeleteSecret { ref alias } if alias == "box"));
    run
}

#[test]
fn add_changes_the_store_and_has_it_written() {
    let mut config = Config::new();
    let add = Commands::Add { alias: "a".to_string(), connection_string: "u@h".to_string() };
    let (mut run, action) = store_command(&mut config, &add).unwrap();
    assert!(matches!(action, StoreAction::Save { ref records } if pairs(records) == vec![pair("a", "u@h")]));
    assert_eq!(config.get("a"), Some(&"u@h".to_string()));
    assert!(!run.is_finished());
    let action = run.step(StoreEvent::Done);
    assert!(matches!(
        action,
        StoreAction::Report { ref lines } if lines == &["Connection 'a' added.".to_string()]
    ));
    assert!(run.is_finished());
}

#[test]
fn add_that_cannot_be_written_fails() {
    let mut config = Config::new();
    let add = Commands::Add { alias: "a".to_string(), connection_string: "u@h".to_string() };
    let (mut run, _) = store_command(&mut config, &add).unwrap();
    let action = run.step(StoreEvent::Failed { reason: "read-only file system".to_string() });
    assert!(matches!(
        action,
        StoreAction::Abort { error: RsshError::Other { ref reason } }
            if reason == "read-only file system"
    ));
    assert!(run.is_finished());
}

#[test]
fn list_of_the_empty_store_says_so() {
    let mut config = Config::new();
    let (run, action) = store_command(&mut config, &Commands::List).unwrap();
    assert!(matches!(
        action,
        StoreAction::Report { ref lines } if lines
            == &["No connections saved. Use 'rssh add <alias> <user@host>' to add one.".to_string()]
    ));
    assert!(run.is_finished());
}

#[test]
fn list_shows_every_alias_with_its_connection() {
    let mut config = store();
    let (_, action) = store_command(&mut config, &Commands::List).unwrap();
    let expected = vec![
        "Saved connections:".to_string(),
        "  box -> u@10.0.0.1".to_string(),
        "  web -> www@example.org".to_string(),
    ];
    assert!(matches!(action, StoreAction::Report { ref lines } if lines == &expected));
    assert_eq!(list_lines(&config), expected);
    assert_eq!(config.len(), 2);
}

#[test]
fn remove_of_a_missing_alias_asks_for_nothing() {
    let mut config = store();
    for _ in 0..2 {
        let (mut run, action) = store_command(&mut config, &remove("nowhere")).unwrap();
        assert!(matches!(
            action,
            StoreAction::Abort { error: RsshError::AliasNotFound { ref alias } } if alias == "nowhere"
        ));
        assert!(run.is_finished());
        assert!(matches!(run.step(StoreEvent::Done), StoreAction::Abort { .. }));
        assert_eq!(
            pairs(&config.save()),
            vec![pair("box", "u@10.0.0.1"), pair("web", "www@example.org")]
        );
    }
}

#[test]
fn remove_writes_the_store_before_it_turns_to_the_vault() {
    let mut config = store();
    let (mut run, action) = store_command(&mut config, &remove("box")).unwrap();
    assert!(matches!(
        action,
        StoreAction::Save { ref records } if pairs(records) == vec![pair("web", "www@example.org")]
    ));
    assert_eq!(config.get("box"), None);
    let action = run.step(StoreEvent::Done);
    assert!(matches!(action, StoreAction::DeleteSecret { ref alias } if alias == "box"));
    let action = run.step(StoreEvent::Deleted(Ok(())));
    assert!(matches!(
        action,
        StoreAction::Report { ref lines } if lines == &["Connection 'box' removed.".to_string()]
    ));
    assert!(run.is_finished());
}

#[test]
fn remove_succeeds_where_no_secret_was_ever_stored() {
    let mut run = deleting();
    let action = run.step(StoreEvent::Deleted(Err(VaultFault::NoEntry)));
    assert!(matches!(
        action,
        StoreAction::Report { ref lines } if lines == &["Connection 'box' removed.".to_string()]
    ));
}

#[test]
fn remove_fails_where_the_vault_fails_with_the_alias_already_gone() {
    let mut config = store();
    let (mut run, _) = store_command(&mut config, &remove("box")).unwrap();
    run.step(StoreEvent::Done);
    let fault = VaultFault::Other { reason: "vault is locked".to_string() };
    let action = run.step(StoreEvent::Deleted(Err(fault)));
    assert!(matches!(
        action,
        StoreAction::Abort { error: RsshError::Other { ref reason } } if reason == "vault is locked"
    ));
    assert_eq!(config.get("box"), None);
}

#[test]
fn remove_that_cannot_be_written_leaves_the_vault_alone() {
    let mut config = store();
    let (mut run, _) = store_command(&mut config, &remove("box")).unwrap();
    let action = run.step(StoreEvent::Failed { reason: "disk full".to_string() });
    assert!(matches!(
        action,
        StoreAction::Abort { error: RsshError::Other { ref reason } } if reason == "disk full"
    ));
    assert!(matches!(run.step(StoreEvent::Done), StoreAction::Abort { .. }));
}

#[test]
fn store_command_that_answers_nothing_fails() {
    let mut run = deleting();
    let action = run.step(StoreEvent::Done);
    assert!(matches!(
        action,
        StoreAction::Abort { error: RsshError::Other { ref reason } } if reason == "unexpected event"
    ));
}

#[test]
fn commands_over_a_session_are_no_store_commands() {
    let mut config = store();
    let connect = Commands::Connect { alias: "box".to_string(), port: 22, identity: None };
    assert!(store_command(&mut config, &connect).is_none());
    let upload = Commands::Upload {
        alias: "box".to_string(),
        local_path: "a".to_string(),
        remote_path: "/b".to_string(),
        port: 22,
        identity: None,
    };
    assert!(store_command(&mut config, &upload).is_none());
    let download = Commands::Download {
        alias: "box".to_string(),
        remote_path: "/a".to_string(),
        local_path: "b".to_string(),
        port: 22,
        identity: None,
    };
    assert!(store_command(&mut config, &download).is_none());
    assert_eq!(config.len(), 2);
}
