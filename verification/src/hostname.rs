//! The name that the remote certificate is validated against.

use crate::error::TunnelError;
use vstd::prelude::*;
use vstd::string::*;

verus! {

/// The validation name of a target host: the part before its first `':'`,
/// or the whole host when it holds no `':'`.
pub open spec fn hostname_of(host: Seq<char>) -> Seq<char> {
    match host.index_of_first(':') {
        Some(at) => host.take(at),
        None => host,
    }
}

/// Whether `webpki::DNSNameRef::try_from_ascii_str` accepts `name` as a
/// syntactically valid DNS name.
pub uninterp spec fn dns_name_accepted(name: Seq<char>) -> bool;

/// Calls `webpki::DNSNameRef::try_from_ascii_str` and reports whether it
/// returned `Ok`. The contract only names that answer: the syntax rules
/// themselves are webpki's and are not restated here.
#[verifier::external_body]
fn dns_name_is_valid(name: &str) -> (accepted: bool)
    ensures
        accepted == dns_name_accepted(name@),
{
    webpki::DNSNameRef::try_from_ascii_str(name).is_ok()
}

/// Derives the name to validate from a target host string: the part before
/// an embedded port suffix, or the host as given when it has none.
pub fn validation_hostname(host: &str) -> (name: String)
    ensures
        name@ == hostname_of(host@),
{
    let n: usize = host.unicode_len();
    let mut i: usize = 0;
    while i < n && host.get_char(i) != ':'
        invariant
            n == host@.len(),
            i <= n,
            forall|k: int| 0 <= k < i ==> host@[k] != ':',
        decreases n - i,
    {
        i = i + 1;
    }
    proof {
        host@.index_of_first_ensures(':');
        if i == n {
            assert(host@.take(n as int) =~= host@);
        }
    }
    host.substring_char(0, i).to_owned()
}

/// What the connector does with a derived name once the DNS syntax check
/// has answered: an accepted name goes on to the handshake unchanged, a
/// refused one fails the session with `InvalidHostname`.
pub fn judge_name(name: String, accepted: bool) -> (verdict: Result<String, TunnelError>)
    ensures
        match verdict {
            Ok(kept) => accepted && kept@ == name@,
            Err(e) => !accepted && e == TunnelError::InvalidHostname,
        },
{
    if accepted {
        Ok(name)
    } else {
        Err(TunnelError::InvalidHostname)
    }
}

/// The name presented for peer verification when connecting to `host`:
/// `Ok` with the derived name exactly when that name is an acceptable DNS
/// name, and `InvalidHostname` otherwise.
pub fn server_name(host: &str) -> (verdict: Result<String, TunnelError>)
    ensures
        match verdict {
            Ok(name) => dns_name_accepted(hostname_of(host@)) && name@ == hostname_of(host@),
            Err(e) => !dns_name_accepted(hostname_of(host@)) && e == TunnelError::InvalidHostname,
        },
{
    let name = validation_hostname(host);
    let accepted = dns_name_is_valid(name.as_str());
    judge_name(name, accepted)
}

/// The derived name is a prefix of the host, holds no `':'`, and stops
/// either at the end of the host or right before a `':'`.
pub proof fn hostname_stops_at_first_colon(host: Seq<char>)
    ensures
        hostname_of(host).len() <= host.len(),
        hostname_of(host) == host.take(hostname_of(host).len() as int),
        !hostname_of(host).contains(':'),
        hostname_of(host).len() < host.len() ==> host[hostname_of(host).len() as int] == ':',
{
    host.index_of_first_ensures(':');
    let name = hostname_of(host);
    match host.index_of_first(':') {
        Some(at) => {
            assert(name =~= host.take(name.len() as int));
            assert forall|k: int| 0 <= k < name.len() implies name[k] != ':' by {
                assert(name[k] == host[k]);
            }
        },
        None => {
            assert(host.take(host.len() as int) =~= host);
        },
    }
}

/// A host without a `':'` is its own validation name.
pub proof fn hostname_without_port_is_unchanged(host: Seq<char>)
    requires
        !host.contains(':'),
    ensures
        hostname_of(host) == host,
{
    host.index_of_first_ensures(':');
}

/// For a host made of a name without `':'`, a `':'` and any suffix, the
/// validation name is that name.
pub proof fn hostname_drops_port_suffix(name: Seq<char>, suffix: Seq<char>)
    requires
        !name.contains(':'),
    ensures
        hostname_of(name + seq![':'] + suffix) == name,
{
    let host = name + seq![':'] + suffix;
    host.index_of_first_ensures(':');
    assert(host[name.len() as int] == ':');
    assert(host.contains(':'));
    let at = host.index_of_first(':').unwrap();
    if at < name.len() {
        assert(name[at] == host[at]);
        assert(name.contains(':'));
    }
    assert(at == name.len());
    assert(host.take(at) =~= name);
}

/// Deriving the name twice gives the same as deriving it once.
pub proof fn hostname_is_idempotent(host: Seq<char>)
    ensures
        hostname_of(hostname_of(host)) == hostname_of(host),
{
    hostname_stops_at_first_colon(host);
    hostname_without_port_is_unchanged(hostname_of(host));
}

} // verus!
