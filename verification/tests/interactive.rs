use rssh::config::Config;
use rssh::error::RsshError;
use rssh::interactive::{
    start_dialogue, Dialogue, DialogueAction, DialogueEvent, DEFAULT_PORT_TEXT, NOTHING_SAVED,
};

fn store() -> Config {
    let mut config = Config::new();
    config.add("box".to_string(), "u@10.0.0.1".to_string());
    config.add("web".to_string(), "www@example.org".to_string());
    config
}

fn answer(text: &str) -> DialogueEvent {
    DialogueEvent::Answer(text.to_string())
}

fn is_abort(action: &DialogueAction, why: &str) -> bool {
    matches!(action, DialogueAction::Abort { error: RsshError::Other { reason } } if reason == why)
}

/// A dialogue in which `box` was chosen, waiting for the port.
fn chosen() -> Dialogue {
    let (mut dialogue, _) = start_dialogue(&store());
    let action = dialogue.step(answer("box"));
    assert!(matches!(action, DialogueAction::AskPort { ref offered } if offered == "22"));
    dialogue
}

#[test]
fn dialogue_on_the_empty_store_has_nothing_to_offer() {
    let (mut dialogue, action) = start_dialogue(&Config::new());
    assert!(matches!(
        action,
        DialogueAction::Report { ref line } if line == "No connections saved. Use 'add' command first."
    ));
    assert_eq!(NOTHING_SAVED, "No connections saved. Use 'add' command first.");
    assert!(dialogue.is_finished());
    assert!(matches!(dialogue.step(answer("box")), DialogueAction::Report { .. }));
}

#[test]
fn dialogue_offers_the_aliases_of_the_store() {
    let (dialogue, action) = start_dialogue(&store());
    assert!(matches!(
        action,
        DialogueAction::ChooseAlias { ref options }
            if options == &["box".to_string(), "web".to_string()]
    ));
    assert!(!dialogue.is_finished());
}

#[test]
fn dialogue_offers_the_default_port() {
    assert_eq!(DEFAULT_PORT_TEXT, "22");
    assert_eq!(rssh::text::parse_port(DEFAULT_PORT_TEXT), Some(rssh::cli::DEFAULT_PORT));
    chosen();
}

#[test]
fn dialogue_without_identity_file_connects_with_password() {
    let mut dialogue = chosen();
    let action = dialogue.step(answer("22"));
    assert!(matches!(action, DialogueAction::AskWhetherIdentity { offered: false }));
    let action = dialogue.step(DialogueEvent::Confirmed(false));
    assert!(matches!(
        action,
        DialogueAction::Connect { ref alias, port: 22, identity: None } if alias == "box"
    ));
    assert!(dialogue.is_finished());
}

#[test]
fn dialogue_with_identity_file_asks_for_its_path() {
    let mut dialogue = chosen();
    dialogue.step(answer("2222"));
    assert!(matches!(dialogue.step(DialogueEvent::Confirmed(true)), DialogueAction::AskIdentityPath));
    let action = dialogue.step(answer("/home/u/.ssh/id_ed25519"));
    assert!(matches!(
        action,
        DialogueAction::Connect { ref alias, port: 2222, identity: Some(ref key) }
            if alias == "box" && key == "/home/u/.ssh/id_ed25519"
    ));
    assert!(matches!(
        dialogue.step(answer("again")),
        DialogueAction::Connect { port: 2222, identity: Some(_), .. }
    ));
}

#[test]
fn dialogue_ends_on_what_is_no_port_number() {
    for text in ["", "ssh", "70000", "-22", "22 "] {
        let mut dialogue = chosen();
        let action = dialogue.step(answer(text));
        assert!(is_abort(&action, "Invalid port number"));
        assert!(dialogue.is_finished());
    }
}

#[test]
fn dialogue_ends_when_a_prompt_is_broken_off() {
    let (mut dialogue, _) = start_dialogue(&store());
    let action = dialogue.step(DialogueEvent::Failed { reason: "Operation was canceled".to_string() });
    assert!(is_abort(&action, "Operation was canceled"));

    let mut dialogue = chosen();
    dialogue.step(answer("22"));
    let action = dialogue.step(DialogueEvent::Failed { reason: "interrupted".to_string() });
    assert!(is_abort(&action, "interrupted"));
}

#[test]
fn dialogue_ends_on_an_event_that_answers_nothing() {
    let mut dialogue = chosen();
    let action = dialogue.step(DialogueEvent::Confirmed(true));
    assert!(is_abort(&action, "unexpected event"));
}
