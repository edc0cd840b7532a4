use rssh::credentials::{delete_password, get_password, set_password, VaultFault, SERVICE_NAME};
use rssh::error::RsshError;

fn other(reason: &str) -> VaultFault {
    VaultFault::Other { reason: reason.to_string() }
}

#[test]
fn secrets_are_filed_under_the_name_of_the_tool() {
    assert_eq!(SERVICE_NAME, "rssh");
}

#[test]
fn delete_of_a_stored_secret_succeeds() {
    assert!(delete_password(Ok(())).is_ok());
}

#[test]
fn delete_of_a_secret_that_was_never_stored_succeeds() {
    assert!(delete_password(Err(VaultFault::NoEntry)).is_ok());
}

#[test]
fn delete_that_fails_otherwise_is_an_error_in_the_words_of_the_vault() {
    let deleted = delete_password(Err(other("vault is locked")));
    assert!(matches!(deleted, Err(RsshError::Other { ref reason }) if reason == "vault is locked"));
}

#[test]
fn get_hands_on_the_secret() {
    assert_eq!(get_password("box", Ok("s3cret".to_string())).unwrap(), "s3cret");
    assert_eq!(get_password("box", Ok(String::new())).unwrap(), "");
}

#[test]
fn get_that_fails_names_the_alias() {
    for fault in [VaultFault::NoEntry, other("vault is locked")] {
        let secret = get_password("box", Err(fault));
        assert_eq!(
            secret.unwrap_err().message(),
            "Failed to retrieve password for 'box'. Please run 'connect' command to set it first."
        );
    }
}

#[test]
fn set_that_succeeds_is_no_error() {
    assert!(set_password("box", Ok(())).is_ok());
}

#[test]
fn set_that_fails_names_the_alias() {
    for fault in [VaultFault::NoEntry, other("vault is locked")] {
        let stored = set_password("box", Err(fault));
        assert_eq!(stored.unwrap_err().message(), "Failed to save password for 'box'");
    }
}
