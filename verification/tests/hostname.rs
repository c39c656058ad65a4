use tls_tunnel::error::TunnelError;
use tls_tunnel::hostname::{judge_name, server_name, validation_hostname};

#[test]
fn host_with_port_suffix_loses_it() {
    assert_eq!(validation_hostname("example.com:443"), "example.com");
}

#[test]
fn host_without_port_suffix_is_unchanged() {
    assert_eq!(validation_hostname("example.com"), "example.com");
}

#[test]
fn hostname_is_cut_at_the_first_colon_only() {
    assert_eq!(validation_hostname("a:b:c"), "a");
    assert_eq!(validation_hostname("[::1]:8443"), "[");
}

#[test]
fn hostname_of_empty_and_leading_colon_is_empty() {
    assert_eq!(validation_hostname(""), "");
    assert_eq!(validation_hostname(":443"), "");
    assert_eq!(validation_hostname("example.com:"), "example.com");
}

#[test]
fn hostname_counts_characters_not_bytes() {
    assert_eq!(validation_hostname("b\u{fc}cher.example:443"), "b\u{fc}cher.example");
}

#[test]
fn deriving_the_hostname_twice_changes_nothing() {
    let once = validation_hostname("example.com:443:tail");
    let twice = validation_hostname(&once);
    assert_eq!(once, twice);
}

#[test]
fn judge_name_keeps_an_accepted_name() {
    assert_eq!(judge_name("example.com".to_string(), true), Ok("example.com".to_string()));
}

#[test]
fn judge_name_refuses_with_invalid_hostname() {
    assert_eq!(judge_name("example.com".to_string(), false), Err(TunnelError::InvalidHostname));
}

#[test]
fn server_name_accepts_a_dns_name() {
    assert_eq!(server_name("example.com"), Ok("example.com".to_string()));
    assert_eq!(server_name("example.com:443"), Ok("example.com".to_string()));
    assert_eq!(server_name("under_score.example.com."), Ok("under_score.example.com.".to_string()));
}

#[test]
fn server_name_refuses_what_is_no_dns_name() {
    assert_eq!(server_name(""), Err(TunnelError::InvalidHostname));
    assert_eq!(server_name(":443"), Err(TunnelError::InvalidHostname));
    assert_eq!(server_name("exa mple.com"), Err(TunnelError::InvalidHostname));
    assert_eq!(server_name("-example.com"), Err(TunnelError::InvalidHostname));
    assert_eq!(server_name("example-.com"), Err(TunnelError::InvalidHostname));
    assert_eq!(server_name("*.example.com"), Err(TunnelError::InvalidHostname));
    assert_eq!(server_name("127.0.0.1"), Err(TunnelError::InvalidHostname));
    assert_eq!(server_name("[::1]:8443"), Err(TunnelError::InvalidHostname));
    assert_eq!(server_name("b\u{fc}cher.example"), Err(TunnelError::InvalidHostname));
}

#[test]
fn server_name_refuses_an_overlong_name() {
    let label = "a".repeat(63);
    let fits = format!("{}.{}.{}.{}", label, label, label, "b".repeat(61));
    assert_eq!(fits.len(), 253);
    assert_eq!(server_name(&fits), Ok(fits.clone()));
    let too_long = format!("{}c", fits);
    assert_eq!(server_name(&too_long), Err(TunnelError::InvalidHostname));
    let long_label = format!("{}.com", "a".repeat(64));
    assert_eq!(server_name(&long_label), Err(TunnelError::InvalidHostname));
}
