use rssh::error::RsshError;
use rssh::target::ConnectionTarget;

fn refused(connection: &str) -> bool {
    match ConnectionTarget::parse(connection, 22) {
        Err(RsshError::InvalidConnectionString { connection: shown }) => shown == connection,
        _ => false,
    }
}

#[test]
fn parse_splits_at_the_one_separator() {
    let target = ConnectionTarget::parse("u@h", 22).unwrap();
    assert_eq!(target.user, "u");
    assert_eq!(target.host, "h");
    assert_eq!(target.port, 22);
}

#[test]
fn parse_keeps_user_and_host_whole() {
    let target = ConnectionTarget::parse("deploy.bot@build-7.example.org", 2222).unwrap();
    assert_eq!(target.user, "deploy.bot");
    assert_eq!(target.host, "build-7.example.org");
    assert_eq!(target.port, 2222);
    let target = ConnectionTarget::parse("u@10.0.0.1", 22).unwrap();
    assert_eq!(target.user, "u");
    assert_eq!(target.host, "10.0.0.1");
    let target = ConnectionTarget::parse("jürgen@höst", 1).unwrap();
    assert_eq!(target.user, "jürgen");
    assert_eq!(target.host, "höst");
    let target = ConnectionTarget::parse(" u @ h ", 1).unwrap();
    assert_eq!(target.user, " u ");
    assert_eq!(target.host, " h ");
}

#[test]
fn parse_refuses_a_string_without_separator() {
    assert!(refused("nobody"));
    assert!(refused(""));
    assert!(refused("user.host"));
}

#[test]
fn parse_refuses_more_than_one_separator() {
    assert!(refused("u@h@x"));
    assert!(refused("u@@h"));
    assert!(refused("@u@h"));
    assert!(refused("u@h@"));
    assert!(refused("@@"));
}

#[test]
fn parse_refuses_an_empty_side() {
    assert!(refused("@h"));
    assert!(refused("u@"));
    assert!(refused("@"));
}

#[test]
fn address_is_host_colon_port() {
    let target = ConnectionTarget::parse("u@10.0.0.1", 22).unwrap();
    assert_eq!(target.address(), "10.0.0.1:22");
    let target = ConnectionTarget::parse("u@example.org", 65535).unwrap();
    assert_eq!(target.address(), "example.org:65535");
    let target = ConnectionTarget::parse("u@h", 0).unwrap();
    assert_eq!(target.address(), "h:0");
}

#[test]
fn clone_of_a_target_keeps_its_parts() {
    let target = ConnectionTarget::parse("u@h", 22).unwrap();
    let copy = target.clone();
    assert_eq!(copy.user, "u");
    assert_eq!(copy.host, "h");
    assert_eq!(copy.port, 22);
}
