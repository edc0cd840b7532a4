use rssh::text::{chars_of, decimal_text, mentions, parse_port};

#[test]
fn chars_of_keeps_every_character_in_order() {
    assert_eq!(chars_of("u@h"), vec!['u', '@', 'h']);
    assert_eq!(chars_of(""), Vec::<char>::new());
    assert_eq!(chars_of("é€"), vec!['é', '€']);
}

#[test]
fn mentions_finds_the_word_anywhere() {
    assert!(mentions("Unable to extract public key: wrong passphrase", "passphrase"));
    assert!(mentions("passphrase needed", "passphrase"));
    assert!(mentions("a passphrase is needed", "passphrase"));
    assert!(mentions("passphrase", "passphrase"));
}

#[test]
fn mentions_misses_what_is_not_there() {
    assert!(!mentions("Username/PublicKey combination invalid", "passphrase"));
    assert!(!mentions("passphras", "passphrase"));
    assert!(!mentions("", "passphrase"));
    assert!(!mentions("Passphrase", "passphrase"));
    assert!(!mentions("pass phrase", "passphrase"));
}

#[test]
fn mentions_finds_the_empty_text_everywhere() {
    assert!(mentions("abc", ""));
    assert!(mentions("", ""));
}

#[test]
fn mentions_agrees_with_str_contains() {
    let hays = ["", "a", "ab", "aab", "abab", "xxabxx", "passphrase", "aaa", "ba"];
    let needles = ["", "a", "ab", "b", "aa", "abc", "ba", "xx"];
    for hay in hays {
        for needle in needles {
            assert_eq!(mentions(hay, needle), hay.contains(needle), "{:?} in {:?}", needle, hay);
        }
    }
}

#[test]
fn decimal_text_writes_ports() {
    assert_eq!(decimal_text(0), "0");
    assert_eq!(decimal_text(7), "7");
    assert_eq!(decimal_text(22), "22");
    assert_eq!(decimal_text(2222), "2222");
    assert_eq!(decimal_text(10000), "10000");
    assert_eq!(decimal_text(65535), "65535");
}

#[test]
fn decimal_text_agrees_with_formatting() {
    let mut n: u16 = 0;
    loop {
        assert_eq!(decimal_text(n), format!("{}", n));
        if n > u16::MAX - 97 {
            break;
        }
        n += 97;
    }
}

#[test]
fn parse_port_reads_plain_numbers() {
    assert_eq!(parse_port("22"), Some(22));
    assert_eq!(parse_port("0"), Some(0));
    assert_eq!(parse_port("2222"), Some(2222));
    assert_eq!(parse_port("65535"), Some(65535));
}

#[test]
fn parse_port_accepts_plus_and_leading_zeros() {
    assert_eq!(parse_port("+22"), Some(22));
    assert_eq!(parse_port("0022"), Some(22));
    assert_eq!(parse_port("+00000000000000000022"), Some(22));
}

#[test]
fn parse_port_refuses_what_is_no_port() {
    assert_eq!(parse_port(""), None);
    assert_eq!(parse_port("+"), None);
    assert_eq!(parse_port("-1"), None);
    assert_eq!(parse_port("22a"), None);
    assert_eq!(parse_port("a22"), None);
    assert_eq!(parse_port(" 22"), None);
    assert_eq!(parse_port("22 "), None);
    assert_eq!(parse_port("2 2"), None);
    assert_eq!(parse_port("++22"), None);
    assert_eq!(parse_port("٢٢"), None);
}

#[test]
fn parse_port_refuses_numbers_out_of_range() {
    assert_eq!(parse_port("65536"), None);
    assert_eq!(parse_port("65540"), None);
    assert_eq!(parse_port("70000"), None);
    assert_eq!(parse_port("100000"), None);
    assert_eq!(parse_port("99999999999999999999999999"), None);
}

#[test]
fn parse_port_agrees_with_the_standard_parser() {
    let texts = [
        "", "+", "-", "0", "+0", "-0", "22", "+22", "022", "65535", "65536", "655350", "6553", "1e3",
        "0x16", "22\n", "٣", "+-1", "4294967295",
    ];
    for text in texts {
        assert_eq!(parse_port(text), text.parse::<u16>().ok(), "{:?}", text);
    }
}

#[test]
fn parse_port_reads_back_what_decimal_text_writes() {
    for n in [0u16, 1, 9, 10, 22, 99, 100, 443, 8080, 65534, 65535] {
        assert_eq!(parse_port(&decimal_text(n)), Some(n));
    }
}
