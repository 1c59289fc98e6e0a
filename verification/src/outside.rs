//! The types of other crates, and of the standard library, that pass through this library
//! unopened.

use vstd::prelude::*;

verus! {

#[verifier::external_type_specification]
#[verifier::external_body]
pub struct ExPathBuf(std::path::PathBuf);

#[verifier::external_type_specification]
#[verifier::external_body]
pub struct ExCommand(clap::Command);

#[verifier::external_type_specification]
#[verifier::external_body]
pub struct ExArg(clap::Arg);

#[verifier::external_type_specification]
#[verifier::external_body]
pub struct ExArgGroup(clap::ArgGroup);

#[verifier::external_type_specification]
#[verifier::external_body]
pub struct ExArgMatches(clap::ArgMatches);

#[verifier::external_type_specification]
#[verifier::external_body]
pub struct ExManagerAddr(shadowsocks_service::shadowsocks::config::ManagerAddr);

#[verifier::external_type_specification]
#[verifier::external_body]
pub struct ExManagerServerHost(shadowsocks_service::config::ManagerServerHost);

#[verifier::external_type_specification]
#[verifier::external_body]
pub struct ExManagerServerMode(shadowsocks_service::config::ManagerServerMode);

#[verifier::external_type_specification]
#[verifier::external_body]
pub struct ExCipherKind(shadowsocks_service::shadowsocks::crypto::CipherKind);

#[verifier::external_type_specification]
#[verifier::external_body]
pub struct ExDnsConfig(shadowsocks_service::config::DnsConfig);

#[verifier::external_type_specification]
#[verifier::external_body]
pub struct ExAccessControl(shadowsocks_service::acl::AccessControl);

#[verifier::external_type_specification]
#[verifier::external_body]
pub struct ExManagerConfig(shadowsocks_service::config::ManagerConfig);

#[verifier::external_type_specification]
#[verifier::external_body]
pub struct ExConfig(shadowsocks_service::config::Config);

/// `PathBuf::clone`: an equal path.
pub assume_specification[ <std::path::PathBuf as Clone>::clone ](
    value: &std::path::PathBuf,
) -> (r: std::path::PathBuf)
    ensures
        r == *value,
;

/// `ManagerAddr::clone`, which is derived: an equal address.
pub assume_specification[ <shadowsocks_service::shadowsocks::config::ManagerAddr as Clone>::clone ](
    value: &shadowsocks_service::shadowsocks::config::ManagerAddr,
) -> (r: shadowsocks_service::shadowsocks::config::ManagerAddr)
    ensures
        r == *value,
;

/// `ManagerServerHost::clone`, which is derived: an equal host.
pub assume_specification[ <shadowsocks_service::config::ManagerServerHost as Clone>::clone ](
    value: &shadowsocks_service::config::ManagerServerHost,
) -> (r: shadowsocks_service::config::ManagerServerHost)
    ensures
        r == *value,
;

} // verus!
