//! Reading the values of single options.

use shadowsocks_service::config::{ManagerServerHost, ManagerServerMode};
use shadowsocks_service::shadowsocks::config::ManagerAddr;
use shadowsocks_service::shadowsocks::crypto::CipherKind;
use vstd::prelude::*;
use vstd::string::*;

verus! {

/// Whether a host is an IP address.
pub uninterp spec fn is_ip_addr(host: ManagerServerHost) -> bool;

/// The address that a text spells: `ip:port`, `domain:port`, or, where there are Unix
/// sockets, a path.
pub uninterp spec fn manager_addr_named(text: Seq<char>) -> Option<ManagerAddr>;

/// The host that a text spells: an IP address where it reads as one, and a domain name
/// otherwise.
pub uninterp spec fn server_host_named(text: Seq<char>) -> ManagerServerHost;

/// The mode that a text spells, if it spells one.
pub uninterp spec fn server_mode_named(text: Seq<char>) -> Option<ManagerServerMode>;

/// Whether a mode is the one in which servers run in the process of the manager. There is one
/// other at most.
pub uninterp spec fn is_builtin(mode: ManagerServerMode) -> bool;

/// The cipher that a text spells, if it spells one that is compiled in.
pub uninterp spec fn cipher_named(text: Seq<char>) -> Option<CipherKind>;

/// Whether a text is, letter for letter, one of those that list the ciphers that are compiled in.
pub uninterp spec fn cipher_listed(text: Seq<char>) -> bool;

/// Tells the two variants of `ManagerServerHost` apart.
#[verifier::external_body]
fn host_is_ip(host: &ManagerServerHost) -> (r: bool)
    ensures
        r == is_ip_addr(*host),
{
    match host {
        ManagerServerHost::Ip(_) => true,
        ManagerServerHost::Domain(_) => false,
    }
}

/// `ManagerAddr::from_str`: the address, or nothing where the text is refused.
#[verifier::external_body]
fn manager_addr_from(text: &str) -> (r: Option<ManagerAddr>)
    ensures
        r == manager_addr_named(text@),
{
    text.parse::<ManagerAddr>().ok()
}

/// `ManagerServerHost::from_str`, whose error type has no values: every text is a host.
#[verifier::external_body]
fn server_host_from(text: &str) -> (r: ManagerServerHost)
    ensures
        r == server_host_named(text@),
{
    match text.parse::<ManagerServerHost>() {
        Ok(host) => host,
        Err(never) => match never {},
    }
}

/// `ManagerServerMode::from_str`: `builtin` is always a mode, `standalone` is another on Unix,
/// and no other text is one. On which targets `standalone` is one is left open.
#[verifier::external_body]
fn server_mode_from(text: &str) -> (r: Option<ManagerServerMode>)
    ensures
        r == server_mode_named(text@),
        r matches Some(mode) ==> if is_builtin(mode) {
            text@ == "builtin"@
        } else {
            text@ == "standalone"@
        },
        text@ == "builtin"@ ==> r is Some,
{
    text.parse::<ManagerServerMode>().ok()
}

/// `CipherKind::from_str`: the cipher, or, where the text is refused, what `Debug` writes of the
/// error, which has one value only. No text that `available_ciphers` lists is refused.
#[verifier::external_body]
pub(crate) fn cipher_from(text: &str) -> (r: Result<CipherKind, String>)
    ensures
        match r {
            Ok(cipher) => cipher_named(text@) == Some(cipher),
            Err(err) => cipher_named(text@) is None && err@ == "ParseCipherKindError"@,
        },
        cipher_listed(text@) ==> r is Ok,
{
    text.parse::<CipherKind>().map_err(|err| format!("{err:?}"))
}

/// An IP address that outbound sockets bind to.
pub struct BindAddr {
    host: ManagerServerHost,
}

impl Clone for BindAddr {
    fn clone(&self) -> (r: Self)
        ensures
            r == *self,
    {
        proof {
            use_type_invariant(self);
        }
        BindAddr { host: self.host.clone() }
    }
}

impl BindAddr {
    #[verifier::type_invariant]
    spec fn wf(self) -> bool {
        is_ip_addr(self.host)
    }

    /// The address, as a host.
    pub closed spec fn host(self) -> ManagerServerHost {
        self.host
    }

    /// The address that a host is.
    pub(crate) fn new(host: ManagerServerHost) -> (r: BindAddr)
        requires
            is_ip_addr(host),
        ensures
            r.host() == host,
    {
        BindAddr { host }
    }

    /// The address, as a host.
    pub fn into_host(self) -> (r: ManagerServerHost)
        ensures
            r == self.host(),
            is_ip_addr(r),
    {
        proof {
            use_type_invariant(&self);
        }
        self.host
    }
}

/// Reads an IP address: a text is one if it spells a host that is one.
pub fn parse_ip_addr(v: &str) -> (r: Result<BindAddr, String>)
    ensures
        match r {
            Ok(addr) => addr.host() == server_host_named(v@) && is_ip_addr(server_host_named(v@)),
            Err(e) => !is_ip_addr(server_host_named(v@))
                && e@ == "should be a valid IPv4 or IPv6 address"@,
        },
{
    let host = server_host_from(v);
    if host_is_ip(&host) {
        Ok(BindAddr { host })
    } else {
        Err("should be a valid IPv4 or IPv6 address".to_string())
    }
}

/// Reads the address of a manager.
pub fn parse_manager_addr(v: &str) -> (r: Result<ManagerAddr, String>)
    ensures
        match manager_addr_named(v@) {
            Some(addr) => r == Ok::<ManagerAddr, String>(addr),
            None => r matches Err(e)
                && e@ == "should be either ip:port, domain:port or /path/to/unix.sock"@,
        },
{
    match manager_addr_from(v) {
        Some(addr) => Ok(addr),
        None => Err("should be either ip:port, domain:port or /path/to/unix.sock".to_string()),
    }
}

/// Reads the host that servers bind to. Every text is one.
pub fn parse_manager_server_host(v: &str) -> (r: Result<ManagerServerHost, String>)
    ensures
        r == Ok::<ManagerServerHost, String>(server_host_named(v@)),
{
    Ok(server_host_from(v))
}

/// Reads how the manager runs its servers.
pub fn parse_manager_server_mode(v: &str) -> (r: Result<ManagerServerMode, String>)
    ensures
        match server_mode_named(v@) {
            Some(mode) => r == Ok::<ManagerServerMode, String>(mode),
            None => r matches Err(e) && e@ == "should be either builtin or standalone"@,
        },
        r matches Ok(mode) ==> if is_builtin(mode) {
            v@ == "builtin"@
        } else {
            v@ == "standalone"@
        },
        v@ == "builtin"@ ==> r is Ok,
{
    match server_mode_from(v) {
        Some(mode) => Ok(mode),
        None => Err("should be either builtin or standalone".to_string()),
    }
}

} // verus!
