use rssh::error::RsshError;

#[test]
fn message_names_the_alias_that_is_missing() {
    let error = RsshError::AliasNotFound { alias: "box".to_string() };
    assert_eq!(error.message(), "Alias 'box' not found.");
}

#[test]
fn message_shows_the_connection_string_that_was_refused() {
    let error = RsshError::InvalidConnectionString { connection: "nobody".to_string() };
    assert_eq!(error.message(), "Invalid connection string 'nobody'. Use 'user@host'.");
}

#[test]
fn message_names_address_and_reason_of_a_failed_connection() {
    let error = RsshError::ConnectFailed {
        address: "10.0.0.1:22".to_string(),
        reason: "Connection refused".to_string(),
    };
    assert_eq!(error.message(), "Failed to connect to 10.0.0.1:22: Connection refused");
}

#[test]
fn message_wraps_the_reason_of_handshake_and_authentication() {
    let handshake = RsshError::HandshakeFailed { reason: "bad banner".to_string() };
    assert_eq!(handshake.message(), "Handshake failed: bad banner");
    let auth = RsshError::AuthFailed { reason: "denied".to_string() };
    assert_eq!(auth.message(), "Authentication failed: denied");
}

#[test]
fn message_names_the_path_of_a_transfer_that_was_refused() {
    let upload = RsshError::NotAFile { path: "/tmp/dir".to_string() };
    assert_eq!(
        upload.message(),
        "Local path \"/tmp/dir\" is not a file. Please provide a path to a file to upload."
    );
    let remote = RsshError::InvalidRemotePath { path: "/".to_string() };
    assert_eq!(
        remote.message(),
        "Remote path \"/\" is a directory or invalid. Please provide a path to a file to download."
    );
    let local = RsshError::DestinationIsFile { path: "/tmp/file.txt".to_string() };
    assert_eq!(
        local.message(),
        "Local destination \"/tmp/file.txt\" is a file. Please provide a directory path."
    );
}

#[test]
fn message_wraps_the_reason_of_channel_and_transfer() {
    let channel = RsshError::ChannelReadError { reason: "reset".to_string() };
    assert_eq!(channel.message(), "Channel read error: reset");
    let transfer = RsshError::TransferFailed { reason: "disk full".to_string() };
    assert_eq!(transfer.message(), "Transfer failed: disk full");
}

#[test]
fn message_of_other_errors_is_the_reason() {
    let error = RsshError::Other { reason: "Invalid port number".to_string() };
    assert_eq!(error.message(), "Invalid port number");
}

#[test]
fn clone_keeps_kind_and_texts() {
    let error = RsshError::ConnectFailed { address: "h:1".to_string(), reason: "r".to_string() };
    let copy = error.clone();
    assert!(matches!(
        copy,
        RsshError::ConnectFailed { ref address, ref reason } if address == "h:1" && reason == "r"
    ));
    assert_eq!(copy.message(), error.message());
}
