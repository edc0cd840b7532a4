use rssh::cli::{Cli, Commands, DEFAULT_PORT};

#[test]
fn default_port_is_the_port_of_ssh() {
    assert_eq!(DEFAULT_PORT, 22);
}

#[test]
fn commands_over_a_connection_ask_for_a_session() {
    let connect = Commands::Connect { alias: "box".to_string(), port: 22, identity: None };
    let request = connect.session_request().unwrap();
    assert_eq!(request.alias, "box");
    assert_eq!(request.port, 22);
    assert_eq!(request.identity, None);

    let upload = Commands::Upload {
        alias: "web".to_string(),
        local_path: "report.txt".to_string(),
        remote_path: "/home/u/in".to_string(),
        port: 2222,
        identity: Some("/k".to_string()),
    };
    let request = upload.session_request().unwrap();
    assert_eq!(request.alias, "web");
    assert_eq!(request.port, 2222);
    assert_eq!(request.identity, Some("/k"));

    let download = Commands::Download {
        alias: "web".to_string(),
        remote_path: "/var/log/x".to_string(),
        local_path: "/tmp".to_string(),
        port: 1,
        identity: None,
    };
    let request = download.session_request().unwrap();
    assert_eq!(request.alias, "web");
    assert_eq!(request.port, 1);
    assert_eq!(request.identity, None);
}

#[test]
fn commands_on_the_store_ask_for_no_session() {
    let add = Commands::Add { alias: "a".to_string(), connection_string: "u@h".to_string() };
    assert!(add.session_request().is_none());
    assert!(Commands::List.session_request().is_none());
    assert!(Commands::Remove { alias: "a".to_string() }.session_request().is_none());
}

#[test]
fn command_line_without_command_is_the_interactive_mode() {
    let cli = Cli { command: None };
    assert!(cli.command.is_none());
    let cli = Cli { command: Some(Commands::List) };
    assert!(matches!(cli.command, Some(Commands::List)));
}
