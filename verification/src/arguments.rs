//! What was given on the command line.

use std::path::PathBuf;

use clap::{Arg, ArgGroup, ArgMatches, Command};
use shadowsocks_service::config::{ManagerServerHost, ManagerServerMode};
use shadowsocks_service::shadowsocks::config::ManagerAddr;
use vstd::prelude::*;

use crate::cli::{
    args_of, declared_groups, declared_options, define_command_line_options, groups_of,
    next_order, only_options,
};
use crate::laws::law_aliases_are_other_spellings;
use crate::lookups::law_every_option_is_declared;
use crate::numbering::law_options_are_coherent;
use crate::options::{
    aliased, coherent, lemma_option_count, manager_groups, manager_options, GroupSpec,
    OptionSpec, ValueKind,
};
use crate::target::Target;
use crate::vparser::{cipher_listed, cipher_named, is_ip_addr, BindAddr};

verus! {

/// What an option, or a group of them, holds.
pub enum ArgValue {
    Text(Seq<char>),
    U64(u64),
    U32(u32),
    Usize(usize),
    Path(PathBuf),
    /// An IP address, as a host.
    IpAddr(ManagerServerHost),
    ServerHost(ManagerServerHost),
    ManagerAddr(ManagerAddr),
    ServerMode(ManagerServerMode),
    Flag(bool),
    Count(u8),
    Group,
}

/// The type that a value of some kind is stored under.
pub open spec fn stored(kind: ValueKind) -> ValueKind {
    if kind is Cipher {
        ValueKind::Text
    } else {
        kind
    }
}

/// Whether a value is of some kind.
pub open spec fn fits(value: ArgValue, kind: ValueKind) -> bool {
    match kind {
        ValueKind::Text => value is Text,
        ValueKind::Cipher => value matches ArgValue::Text(text) && cipher_listed(text)
            && cipher_named(text) is Some,
        ValueKind::U64 => value is U64,
        ValueKind::U32 => value is U32,
        ValueKind::Usize => value is Usize,
        ValueKind::Path => value is Path,
        ValueKind::IpAddr => value is IpAddr,
        ValueKind::ServerHost => value is ServerHost,
        ValueKind::ManagerAddr => value is ManagerAddr,
        ValueKind::ServerMode => value is ServerMode,
        ValueKind::Flag => value is Flag,
        ValueKind::Count => value is Count,
        ValueKind::Group => value is Group,
    }
}

/// What the options and groups of an `ArgMatches` hold, by id: for an option, the first of its
/// values.
pub uninterp spec fn matched(matches: ArgMatches) -> Map<Seq<char>, ArgValue>;

/// Whether an id can be looked up in an `ArgMatches` as a value of some type: it was declared,
/// with that type, and holds a value where it is present, as a flag always is. Looking up an id
/// that was not declared, or under another type, or a flag that holds nothing, stops the
/// program.
pub uninterp spec fn readable(matches: ArgMatches, id: Seq<char>, kind: ValueKind) -> bool;

/// What a command line, program name first, gives the options and groups that are declared, or
/// nothing where it is refused.
pub uninterp spec fn command_line_values(
    options: Seq<OptionSpec>,
    groups: Seq<GroupSpec>,
    argv: Seq<Seq<char>>,
) -> Option<Map<Seq<char>, ArgValue>>;

/// The characters of texts.
pub open spec fn texts(argv: Seq<String>) -> Seq<Seq<char>> {
    argv.map_values(|arg: String| arg@)
}

/// Whether an argument is a long name of an option, behind two dashes, with `rest` behind it:
/// nothing, or `=` and a value.
pub open spec fn spells(
    arg: Seq<char>,
    option: OptionSpec,
    name: Seq<char>,
    rest: Seq<char>,
) -> bool {
    &&& option.answers_to(name)
    &&& name.len() > 0
    &&& !name.contains('=')
    &&& rest.len() == 0 || rest[0] == '='
    &&& arg == "--"@ + name + rest
}

/// Whether two arguments are long names of the same option, with the same behind them.
pub open spec fn respells(options: Seq<OptionSpec>, arg: Seq<char>, other: Seq<char>) -> bool {
    exists|i: int, name: Seq<char>, other_name: Seq<char>, rest: Seq<char>|
        0 <= i < options.len() && #[trigger] spells(arg, options[i], name, rest)
            && #[trigger] spells(other, options[i], other_name, rest)
}

/// Whether two command lines, program name first, differ at most in which of its long names an
/// option is called by.
pub open spec fn respelt(
    options: Seq<OptionSpec>,
    argv: Seq<Seq<char>>,
    other: Seq<Seq<char>>,
) -> bool {
    &&& argv.len() == other.len()
    &&& forall|i: int|
        0 <= i < argv.len() ==> #[trigger] argv[i] == other[i] || (i > 0 && respells(
            options,
            argv[i],
            other[i],
        ))
}

/// Whether an option was given.
pub open spec fn given(values: Map<Seq<char>, ArgValue>, id: Seq<char>) -> bool {
    values.contains_key(id) && values[id] != ArgValue::Flag(false) && values[id]
        != ArgValue::Count(0)
}

/// Whether an option is in no conflict with another: neither by its own declaration nor by
/// that of another option, nor as a member of a group.
pub open spec fn unopposed(
    options: Seq<OptionSpec>,
    groups: Seq<GroupSpec>,
    id: Seq<char>,
) -> bool {
    &&& forall|i: int|
        0 <= i < options.len() ==> !(#[trigger] options[i]).conflicts.contains(id) && (
        options[i].id == id ==> options[i].conflicts.len() == 0)
    &&& forall|i: int| 0 <= i < groups.len() ==> !(#[trigger] groups[i]).members.contains(id)
}

/// Whether values are such as the declarations allow: every option holds what it should, no
/// option is given together with one that it excludes, nor without one that it needs, and a
/// group holds something exactly where one of its members was given.
pub open spec fn allowed(
    values: Map<Seq<char>, ArgValue>,
    options: Seq<OptionSpec>,
    groups: Seq<GroupSpec>,
) -> bool {
    &&& forall|i: int|
        0 <= i < options.len() ==> {
            let option = #[trigger] options[i];
            &&& values.contains_key(option.id) ==> fits(values[option.id], option.holds())
            &&& option.holds() is Flag || option.holds() is Count ==> values.contains_key(option.id)
        }
    &&& forall|i: int, id: Seq<char>|
        0 <= i < options.len() && #[trigger] options[i].conflicts.contains(id) ==> !(given(
            values,
            options[i].id,
        ) && given(values, id))
    &&& forall|i: int, id: Seq<char>|
        0 <= i < options.len() && #[trigger] options[i].requirements.contains(id) && unopposed(
            options,
            groups,
            id,
        ) && given(values, options[i].id) ==> given(values, id)
    &&& forall|i: int|
        0 <= i < groups.len() ==> (values.contains_key((#[trigger] groups[i]).id) <==> exists|
            id: Seq<char>,
        | #[trigger]
            groups[i].members.contains(id) && given(values, id))
}

/// Whether everything that is declared can be looked up under its type.
pub open spec fn all_readable(
    matches: ArgMatches,
    options: Seq<OptionSpec>,
    groups: Seq<GroupSpec>,
) -> bool {
    &&& forall|i: int|
        0 <= i < options.len() ==> readable(
            matches,
            (#[trigger] options[i]).id,
            stored(options[i].holds()),
        )
    &&& forall|i: int|
        0 <= i < groups.len() ==> readable(matches, (#[trigger] groups[i]).id, ValueKind::Group)
}

/// `Command::new`: nothing is declared.
#[verifier::external_body]
fn new_command(name: &'static str) -> (r: Command)
    ensures
        args_of(r) == Seq::<Arg>::empty(),
        groups_of(r) == Seq::<ArgGroup>::empty(),
        next_order(r) == Some(0nat),
        only_options(r),
{
    Command::new(name)
}

/// `Command::try_get_matches_from`, for a command that holds nothing but options and groups
/// that can be declared together (its checks of the declarations stop the program on others),
/// and at most a version and an about text, which are shown on request only. A command line that
/// has the version or the help shown counts as refused, as it does where there is no version.
/// An option that takes a cipher holds one of the names that `available_ciphers` lists, and
/// `CipherKind::from_str` refuses none of them. All long names of an option are looked up alike,
/// so that a command line which calls an option by another of them comes to the same. What is
/// said of a command line that is refused is left out.
#[verifier::external_body]
fn match_args(app: Command, argv: Vec<String>) -> (r: Option<ArgMatches>)
    requires
        only_options(app),
        coherent(declared_options(app), declared_groups(app)),
    ensures
        command_line_values(declared_options(app), declared_groups(app), texts(argv@)) == (
        match r {
            Some(matches) => Some(matched(matches)),
            None => None,
        }),
        forall|other: Seq<Seq<char>>|
            respelt(declared_options(app), texts(argv@), other) ==> (
            #[trigger] command_line_values(declared_options(app), declared_groups(app), other))
                == (match r {
                Some(matches) => Some(matched(matches)),
                None => None,
            }),
        r matches Some(matches) ==> allowed(
            matched(matches),
            declared_options(app),
            declared_groups(app),
        ),
        r matches Some(matches) ==> forall|i: int|
            0 <= i < declared_options(app).len() ==> readable(
                matches,
                (#[trigger] declared_options(app)[i]).id,
                stored(declared_options(app)[i].holds()),
            ),
        r matches Some(matches) ==> forall|i: int|
            0 <= i < declared_groups(app).len() ==> readable(
                matches,
                (#[trigger] declared_groups(app)[i]).id,
                ValueKind::Group,
            ),
{
    app.try_get_matches_from(argv).ok()
}

/// `ArgMatches::get_one`, for `u64`: the value of an option, if it has one.
#[verifier::external_body]
fn get_u64(matches: &ArgMatches, id: &str) -> (r: Option<u64>)
    requires
        readable(*matches, id@, ValueKind::U64),
    ensures
        r is Some <==> matched(*matches).contains_key(id@),
        r matches Some(value) ==> matched(*matches)[id@] == ArgValue::U64(value),
{
    matches.get_one::<u64>(id).copied()
}

/// `ArgMatches::get_one`, for `u32`: the value of an option, if it has one.
#[verifier::external_body]
fn get_u32(matches: &ArgMatches, id: &str) -> (r: Option<u32>)
    requires
        readable(*matches, id@, ValueKind::U32),
    ensures
        r is Some <==> matched(*matches).contains_key(id@),
        r matches Some(value) ==> matched(*matches)[id@] == ArgValue::U32(value),
{
    matches.get_one::<u32>(id).copied()
}

/// `ArgMatches::get_one`, for `usize`: the value of an option, if it has one.
#[verifier::external_body]
fn get_usize(matches: &ArgMatches, id: &str) -> (r: Option<usize>)
    requires
        readable(*matches, id@, ValueKind::Usize),
    ensures
        r is Some <==> matched(*matches).contains_key(id@),
        r matches Some(value) ==> matched(*matches)[id@] == ArgValue::Usize(value),
{
    matches.get_one::<usize>(id).copied()
}

/// `ArgMatches::get_one`, for `PathBuf`: the value of an option, if it has one.
#[verifier::external_body]
fn get_path(matches: &ArgMatches, id: &str) -> (r: Option<PathBuf>)
    requires
        readable(*matches, id@, ValueKind::Path),
    ensures
        r is Some <==> matched(*matches).contains_key(id@),
        r matches Some(value) ==> matched(*matches)[id@] == ArgValue::Path(value),
{
    matches.get_one::<PathBuf>(id).cloned()
}

/// `ArgMatches::get_one`, for `IpAddr`: the value of an option, as a host, if it has one.
#[verifier::external_body]
fn get_ip_addr(matches: &ArgMatches, id: &str) -> (r: Option<ManagerServerHost>)
    requires
        readable(*matches, id@, ValueKind::IpAddr),
    ensures
        r is Some <==> matched(*matches).contains_key(id@),
        r matches Some(value) ==> matched(*matches)[id@] == ArgValue::IpAddr(value),
        r matches Some(value) ==> is_ip_addr(value),
{
    matches.get_one(id).copied().map(ManagerServerHost::Ip)
}

/// The address that an option holds, if it holds one.
fn get_bind_addr(matches: &ArgMatches, id: &str) -> (r: Option<BindAddr>)
    requires
        readable(*matches, id@, ValueKind::IpAddr),
    ensures
        r is Some <==> matched(*matches).contains_key(id@),
        r matches Some(value) ==> matched(*matches)[id@] == ArgValue::IpAddr(value.host()),
{
    match get_ip_addr(matches, id) {
        Some(host) => Some(BindAddr::new(host)),
        None => None,
    }
}

/// `ArgMatches::get_one`, for `ManagerServerHost`: the value of an option, if it has one.
#[verifier::external_body]
fn get_server_host(matches: &ArgMatches, id: &str) -> (r: Option<ManagerServerHost>)
    requires
        readable(*matches, id@, ValueKind::ServerHost),
    ensures
        r is Some <==> matched(*matches).contains_key(id@),
        r matches Some(value) ==> matched(*matches)[id@] == ArgValue::ServerHost(value),
{
    matches.get_one::<ManagerServerHost>(id).cloned()
}

/// `ArgMatches::get_one`, for `ManagerAddr`: the value of an option, if it has one.
#[verifier::external_body]
fn get_manager_addr(matches: &ArgMatches, id: &str) -> (r: Option<ManagerAddr>)
    requires
        readable(*matches, id@, ValueKind::ManagerAddr),
    ensures
        r is Some <==> matched(*matches).contains_key(id@),
        r matches Some(value) ==> matched(*matches)[id@] == ArgValue::ManagerAddr(value),
{
    matches.get_one::<ManagerAddr>(id).cloned()
}

/// `ArgMatches::get_one`, for `ManagerServerMode`: the value of an option, if it has one.
#[verifier::external_body]
fn get_server_mode(matches: &ArgMatches, id: &str) -> (r: Option<ManagerServerMode>)
    requires
        readable(*matches, id@, ValueKind::ServerMode),
    ensures
        r is Some <==> matched(*matches).contains_key(id@),
        r matches Some(value) ==> matched(*matches)[id@] == ArgValue::ServerMode(value),
{
    matches.get_one::<ManagerServerMode>(id).cloned()
}

/// `ArgMatches::get_one`, for `String`: the value of an option, if it has one.
#[verifier::external_body]
fn get_text(matches: &ArgMatches, id: &str) -> (r: Option<String>)
    requires
        readable(*matches, id@, ValueKind::Text),
    ensures
        r is Some <==> matched(*matches).contains_key(id@),
        r matches Some(value) ==> matched(*matches)[id@] == ArgValue::Text(value@),
{
    matches.get_one::<String>(id).cloned()
}

/// `ArgMatches::get_flag`: whether a flag is on.
#[verifier::external_body]
fn get_flag(matches: &ArgMatches, id: &str) -> (r: bool)
    requires
        readable(*matches, id@, ValueKind::Flag),
    ensures
        matched(*matches).contains_pair(id@, ArgValue::Flag(r)),
{
    matches.get_flag(id)
}

/// `ArgMatches::contains_id`, for a group: whether one of its members was given.
#[verifier::external_body]
fn contains_group(matches: &ArgMatches, id: &str) -> (r: bool)
    requires
        readable(*matches, id@, ValueKind::Group),
    ensures
        r == matched(*matches).contains_key(id@),
{
    matches.contains_id(id)
}

/// `ArgMatches::get_raw`, for a path: whether the option has a value.
#[verifier::external_body]
fn has_raw_path(matches: &ArgMatches, id: &str) -> (r: bool)
    requires
        readable(*matches, id@, ValueKind::Path),
    ensures
        r == matched(*matches).contains_key(id@),
{
    matches.get_raw(id).is_some()
}

/// What was given on the command line, as far as it decides how the manager is set up. Options
/// that do not exist on a target count as not given.
pub struct ManagerOptions {
    /// Whether the manager is configured by the command line alone.
    pub server_config: bool,
    /// Whether a place for the process id was given.
    pub daemonize_pid: bool,
    /// The configuration file.
    pub config: Option<PathBuf>,
    /// Relay UDP only.
    pub udp_only: bool,
    /// Relay TCP and UDP.
    pub tcp_and_udp: bool,
    /// The address that outbound sockets bind to.
    pub outbound_bind_addr: Option<BindAddr>,
    /// The network interface that outbound sockets bind to.
    pub outbound_bind_interface: Option<String>,
    /// The host that servers bind to.
    pub server_host: Option<ManagerServerHost>,
    /// The address of the manager.
    pub manager_addr: Option<ManagerAddr>,
    /// The default cipher.
    pub encrypt_method: Option<String>,
    /// The default timeout of TCP relays, in seconds.
    pub timeout: Option<u64>,
    /// The default plugin.
    pub plugin: Option<String>,
    /// What the plugin relays.
    pub plugin_mode: Option<String>,
    /// The options of the plugin.
    pub plugin_opts: Option<String>,
    /// The access control list.
    pub acl: Option<String>,
    /// The name servers.
    pub dns: Option<String>,
    /// How many DNS records are cached.
    pub dns_cache_size: Option<usize>,
    /// Set `TCP_NODELAY`.
    pub tcp_no_delay: bool,
    /// Use TCP Fast Open.
    pub tcp_fast_open: bool,
    /// The TCP keep-alive timeout, in seconds.
    pub tcp_keep_alive: Option<u64>,
    /// Use Multipath TCP.
    pub tcp_multipath: bool,
    /// The timeout of UDP relays, in seconds.
    pub udp_timeout: Option<u64>,
    /// How many UDP associations are kept.
    pub udp_max_associations: Option<usize>,
    /// `SO_SNDBUF` of inbound sockets.
    pub inbound_send_buffer_size: Option<u32>,
    /// `SO_RCVBUF` of inbound sockets.
    pub inbound_recv_buffer_size: Option<u32>,
    /// `SO_SNDBUF` of outbound sockets.
    pub outbound_send_buffer_size: Option<u32>,
    /// `SO_RCVBUF` of outbound sockets.
    pub outbound_recv_buffer_size: Option<u32>,
    /// Prefer IPv6 addresses.
    pub ipv6_first: bool,
    /// Run in the background.
    pub daemonize: bool,
    /// Where to store the process id of the background process.
    pub daemonize_pid_path: Option<PathBuf>,
    /// How the manager runs its servers.
    pub manager_server_mode: Option<ManagerServerMode>,
    /// Where servers keep their files.
    pub manager_server_working_directory: Option<PathBuf>,
    /// The limit on open files.
    pub nofile: Option<u64>,
    /// `SO_MARK` of outbound sockets.
    pub outbound_fwmark: Option<u32>,
    /// `SO_USER_COOKIE` of outbound sockets.
    pub outbound_user_cookie: Option<u32>,
    /// The user to run as.
    pub user: Option<String>,
}

/// What was given on the command line, with texts as sequences of characters.
pub struct OptionsView {
    pub server_config: bool,
    pub daemonize_pid: bool,
    pub config: Option<PathBuf>,
    pub udp_only: bool,
    pub tcp_and_udp: bool,
    pub outbound_bind_addr: Option<ManagerServerHost>,
    pub outbound_bind_interface: Option<Seq<char>>,
    pub server_host: Option<ManagerServerHost>,
    pub manager_addr: Option<ManagerAddr>,
    pub encrypt_method: Option<Seq<char>>,
    pub timeout: Option<u64>,
    pub plugin: Option<Seq<char>>,
    pub plugin_mode: Option<Seq<char>>,
    pub plugin_opts: Option<Seq<char>>,
    pub acl: Option<Seq<char>>,
    pub dns: Option<Seq<char>>,
    pub dns_cache_size: Option<usize>,
    pub tcp_no_delay: bool,
    pub tcp_fast_open: bool,
    pub tcp_keep_alive: Option<u64>,
    pub tcp_multipath: bool,
    pub udp_timeout: Option<u64>,
    pub udp_max_associations: Option<usize>,
    pub inbound_send_buffer_size: Option<u32>,
    pub inbound_recv_buffer_size: Option<u32>,
    pub outbound_send_buffer_size: Option<u32>,
    pub outbound_recv_buffer_size: Option<u32>,
    pub ipv6_first: bool,
    pub daemonize: bool,
    pub daemonize_pid_path: Option<PathBuf>,
    pub manager_server_mode: Option<ManagerServerMode>,
    pub manager_server_working_directory: Option<PathBuf>,
    pub nofile: Option<u64>,
    pub outbound_fwmark: Option<u32>,
    pub outbound_user_cookie: Option<u32>,
    pub user: Option<Seq<char>>,
}

/// The characters of a text, if there is one.
pub open spec fn chars(text: Option<String>) -> Option<Seq<char>> {
    match text {
        Some(text) => Some(text@),
        None => None,
    }
}

/// The host that an address is, if there is one.
pub open spec fn opt_host(addr: Option<BindAddr>) -> Option<ManagerServerHost> {
    match addr {
        Some(addr) => Some(addr.host()),
        None => None,
    }
}

impl View for ManagerOptions {
    type V = OptionsView;

    open spec fn view(&self) -> OptionsView {
        OptionsView {
            server_config: self.server_config,
            daemonize_pid: self.daemonize_pid,
            config: self.config,
            udp_only: self.udp_only,
            tcp_and_udp: self.tcp_and_udp,
            outbound_bind_addr: opt_host(self.outbound_bind_addr),
            outbound_bind_interface: chars(self.outbound_bind_interface),
            server_host: self.server_host,
            manager_addr: self.manager_addr,
            encrypt_method: chars(self.encrypt_method),
            timeout: self.timeout,
            plugin: chars(self.plugin),
            plugin_mode: chars(self.plugin_mode),
            plugin_opts: chars(self.plugin_opts),
            acl: chars(self.acl),
            dns: chars(self.dns),
            dns_cache_size: self.dns_cache_size,
            tcp_no_delay: self.tcp_no_delay,
            tcp_fast_open: self.tcp_fast_open,
            tcp_keep_alive: self.tcp_keep_alive,
            tcp_multipath: self.tcp_multipath,
            udp_timeout: self.udp_timeout,
            udp_max_associations: self.udp_max_associations,
            inbound_send_buffer_size: self.inbound_send_buffer_size,
            inbound_recv_buffer_size: self.inbound_recv_buffer_size,
            outbound_send_buffer_size: self.outbound_send_buffer_size,
            outbound_recv_buffer_size: self.outbound_recv_buffer_size,
            ipv6_first: self.ipv6_first,
            daemonize: self.daemonize,
            daemonize_pid_path: self.daemonize_pid_path,
            manager_server_mode: self.manager_server_mode,
            manager_server_working_directory: self.manager_server_working_directory,
            nofile: self.nofile,
            outbound_fwmark: self.outbound_fwmark,
            outbound_user_cookie: self.outbound_user_cookie,
            user: chars(self.user),
        }
    }
}

/// The number that an option holds, if it holds one.
pub open spec fn u64_in(values: Map<Seq<char>, ArgValue>, id: Seq<char>) -> Option<u64> {
    if values.contains_key(id) {
        Some(values[id]->U64_0)
    } else {
        None
    }
}

/// The number that an option holds, if it holds one.
pub open spec fn u32_in(values: Map<Seq<char>, ArgValue>, id: Seq<char>) -> Option<u32> {
    if values.contains_key(id) {
        Some(values[id]->U32_0)
    } else {
        None
    }
}

/// The number that an option holds, if it holds one.
pub open spec fn usize_in(values: Map<Seq<char>, ArgValue>, id: Seq<char>) -> Option<usize> {
    if values.contains_key(id) {
        Some(values[id]->Usize_0)
    } else {
        None
    }
}

/// The path that an option holds, if it holds one.
pub open spec fn path_in(values: Map<Seq<char>, ArgValue>, id: Seq<char>) -> Option<PathBuf> {
    if values.contains_key(id) {
        Some(values[id]->Path_0)
    } else {
        None
    }
}

/// The host that an option holds, if it holds one.
pub open spec fn server_host_in(
    values: Map<Seq<char>, ArgValue>,
    id: Seq<char>,
) -> Option<ManagerServerHost> {
    if values.contains_key(id) {
        Some(values[id]->ServerHost_0)
    } else {
        None
    }
}

/// The address that an option holds, if it holds one.
pub open spec fn manager_addr_in(
    values: Map<Seq<char>, ArgValue>,
    id: Seq<char>,
) -> Option<ManagerAddr> {
    if values.contains_key(id) {
        Some(values[id]->ManagerAddr_0)
    } else {
        None
    }
}

/// The mode that an option holds, if it holds one.
pub open spec fn server_mode_in(
    values: Map<Seq<char>, ArgValue>,
    id: Seq<char>,
) -> Option<ManagerServerMode> {
    if values.contains_key(id) {
        Some(values[id]->ServerMode_0)
    } else {
        None
    }
}

/// The text that an option holds, if it holds one.
pub open spec fn text_in(values: Map<Seq<char>, ArgValue>, id: Seq<char>) -> Option<Seq<char>> {
    if values.contains_key(id) {
        Some(values[id]->Text_0)
    } else {
        None
    }
}

/// The address that an option holds, as a host, if it holds one.
pub open spec fn bind_addr_in(
    values: Map<Seq<char>, ArgValue>,
    id: Seq<char>,
) -> Option<ManagerServerHost> {
    if values.contains_key(id) {
        Some(values[id]->IpAddr_0)
    } else {
        None
    }
}

/// Whether a flag is on.
pub open spec fn flag_in(values: Map<Seq<char>, ArgValue>, id: Seq<char>) -> bool {
    values.contains_pair(id, ArgValue::Flag(true))
}

/// What `values` give the options of a manager that is built for `target`.
pub open spec fn options_in(values: Map<Seq<char>, ArgValue>, target: Target) -> OptionsView {
    OptionsView {
        server_config: values.contains_key("SERVER_CONFIG"@),
        daemonize_pid: target.unix && values.contains_key("DAEMONIZE_PID_PATH"@),
        config: path_in(values, "CONFIG"@),
        udp_only: flag_in(values, "UDP_ONLY"@),
        tcp_and_udp: flag_in(values, "TCP_AND_UDP"@),
        outbound_bind_addr: bind_addr_in(values, "OUTBOUND_BIND_ADDR"@),
        outbound_bind_interface: text_in(values, "OUTBOUND_BIND_INTERFACE"@),
        server_host: server_host_in(values, "SERVER_HOST"@),
        manager_addr: manager_addr_in(values, "MANAGER_ADDR"@),
        encrypt_method: text_in(values, "ENCRYPT_METHOD"@),
        timeout: u64_in(values, "TIMEOUT"@),
        plugin: text_in(values, "PLUGIN"@),
        plugin_mode: text_in(values, "PLUGIN_MODE"@),
        plugin_opts: text_in(values, "PLUGIN_OPT"@),
        acl: text_in(values, "ACL"@),
        dns: text_in(values, "DNS"@),
        dns_cache_size: usize_in(values, "DNS_CACHE_SIZE"@),
        tcp_no_delay: flag_in(values, "TCP_NO_DELAY"@),
        tcp_fast_open: flag_in(values, "TCP_FAST_OPEN"@),
        tcp_keep_alive: u64_in(values, "TCP_KEEP_ALIVE"@),
        tcp_multipath: flag_in(values, "TCP_MULTIPATH"@),
        udp_timeout: u64_in(values, "UDP_TIMEOUT"@),
        udp_max_associations: usize_in(values, "UDP_MAX_ASSOCIATIONS"@),
        inbound_send_buffer_size: u32_in(values, "INBOUND_SEND_BUFFER_SIZE"@),
        inbound_recv_buffer_size: u32_in(values, "INBOUND_RECV_BUFFER_SIZE"@),
        outbound_send_buffer_size: u32_in(values, "OUTBOUND_SEND_BUFFER_SIZE"@),
        outbound_recv_buffer_size: u32_in(values, "OUTBOUND_RECV_BUFFER_SIZE"@),
        ipv6_first: flag_in(values, "IPV6_FIRST"@),
        daemonize: target.unix && flag_in(values, "DAEMONIZE"@),
        daemonize_pid_path: if target.unix {
            path_in(values, "DAEMONIZE_PID_PATH"@)
        } else {
            None
        },
        manager_server_mode: if target.unix {
            server_mode_in(values, "MANAGER_SERVER_MODE"@)
        } else {
            None
        },
        manager_server_working_directory: if target.unix {
            path_in(values, "MANAGER_SERVER_WORKING_DIRECTORY"@)
        } else {
            None
        },
        nofile: if target.limits_files() {
            u64_in(values, "NOFILE"@)
        } else {
            None
        },
        outbound_fwmark: if target.marks_sockets() {
            u32_in(values, "OUTBOUND_FWMARK"@)
        } else {
            None
        },
        outbound_user_cookie: if target.freebsd {
            u32_in(values, "OUTBOUND_USER_COOKIE"@)
        } else {
            None
        },
        user: if target.unix {
            text_in(values, "USER"@)
        } else {
            None
        },
    }
}

/// Whether `id` can be looked up, as a value of the type that is stored for `kind`, in every
/// `ArgMatches` that has all of `options`.
pub open spec fn offers(options: Seq<OptionSpec>, id: Seq<char>, kind: ValueKind) -> bool {
    exists|i: int|
        0 <= i < options.len() && (#[trigger] options[i]).id == id && stored(options[i].holds())
            == kind
}

/// Reads what was given on the command line, out of `matches` that have the options of a
/// manager that is built for `target`.
pub fn read_options(matches: &ArgMatches, target: Target) -> (r: ManagerOptions)
    requires
        all_readable(*matches, manager_options(target), manager_groups()),
    ensures
        r@ == options_in(matched(*matches), target),
{
    proof {
        law_every_option_is_declared(target);
        assert(manager_groups()[0].id == "SERVER_CONFIG"@);
    }
    ManagerOptions {
        server_config: contains_group(matches, "SERVER_CONFIG"),
        daemonize_pid: target.unix && has_raw_path(matches, "DAEMONIZE_PID_PATH"),
        config: get_path(matches, "CONFIG"),
        udp_only: get_flag(matches, "UDP_ONLY"),
        tcp_and_udp: get_flag(matches, "TCP_AND_UDP"),
        outbound_bind_addr: get_bind_addr(matches, "OUTBOUND_BIND_ADDR"),
        outbound_bind_interface: get_text(matches, "OUTBOUND_BIND_INTERFACE"),
        server_host: get_server_host(matches, "SERVER_HOST"),
        manager_addr: get_manager_addr(matches, "MANAGER_ADDR"),
        encrypt_method: get_text(matches, "ENCRYPT_METHOD"),
        timeout: get_u64(matches, "TIMEOUT"),
        plugin: get_text(matches, "PLUGIN"),
        plugin_mode: get_text(matches, "PLUGIN_MODE"),
        plugin_opts: get_text(matches, "PLUGIN_OPT"),
        acl: get_text(matches, "ACL"),
        dns: get_text(matches, "DNS"),
        dns_cache_size: get_usize(matches, "DNS_CACHE_SIZE"),
        tcp_no_delay: get_flag(matches, "TCP_NO_DELAY"),
        tcp_fast_open: get_flag(matches, "TCP_FAST_OPEN"),
        tcp_keep_alive: get_u64(matches, "TCP_KEEP_ALIVE"),
        tcp_multipath: get_flag(matches, "TCP_MULTIPATH"),
        udp_timeout: get_u64(matches, "UDP_TIMEOUT"),
        udp_max_associations: get_usize(matches, "UDP_MAX_ASSOCIATIONS"),
        inbound_send_buffer_size: get_u32(matches, "INBOUND_SEND_BUFFER_SIZE"),
        inbound_recv_buffer_size: get_u32(matches, "INBOUND_RECV_BUFFER_SIZE"),
        outbound_send_buffer_size: get_u32(matches, "OUTBOUND_SEND_BUFFER_SIZE"),
        outbound_recv_buffer_size: get_u32(matches, "OUTBOUND_RECV_BUFFER_SIZE"),
        ipv6_first: get_flag(matches, "IPV6_FIRST"),
        daemonize: target.unix && get_flag(matches, "DAEMONIZE"),
        daemonize_pid_path: if target.unix {
            get_path(matches, "DAEMONIZE_PID_PATH")
        } else {
            None
        },
        manager_server_mode: if target.unix {
            get_server_mode(matches, "MANAGER_SERVER_MODE")
        } else {
            None
        },
        manager_server_working_directory: if target.unix {
            get_path(matches, "MANAGER_SERVER_WORKING_DIRECTORY")
        } else {
            None
        },
        nofile: if target.unix && !target.android {
            get_u64(matches, "NOFILE")
        } else {
            None
        },
        outbound_fwmark: if target.linux || target.android {
            get_u32(matches, "OUTBOUND_FWMARK")
        } else {
            None
        },
        outbound_user_cookie: if target.freebsd {
            get_u32(matches, "OUTBOUND_USER_COOKIE")
        } else {
            None
        },
        user: if target.unix {
            get_text(matches, "USER")
        } else {
            None
        },
    }
}

/// What a command line, program name first, gives the options of a manager that is built for
/// `target`, or nothing where it is refused.
pub open spec fn manager_values(argv: Seq<Seq<char>>, target: Target) -> Option<
    Map<Seq<char>, ArgValue>,
> {
    command_line_values(manager_options(target), manager_groups(), argv)
}

/// Whether a command line comes to the same whichever of its long names an option is called by.
pub open spec fn names_alike(
    options: Seq<OptionSpec>,
    groups: Seq<GroupSpec>,
    argv: Seq<Seq<char>>,
) -> bool {
    forall|other: Seq<Seq<char>>|
        respelt(options, argv, other) ==> (#[trigger] command_line_values(options, groups, other))
            == command_line_values(options, groups, argv)
}

/// Whether a command line comes to the same when an option of a manager is called by its alias.
pub open spec fn aliases_alike(
    options: Seq<OptionSpec>,
    groups: Seq<GroupSpec>,
    argv: Seq<Seq<char>>,
) -> bool {
    forall|i: int, long: Seq<char>, alias: Seq<char>, rest: Seq<char>|
        #![trigger aliased(long, alias), argv.update(i, "--"@ + alias + rest)]
        0 < i < argv.len() && aliased(long, alias) && (rest.len() == 0 || rest[0] == '=')
            && argv[i] == "--"@ + long + rest ==> command_line_values(
            options,
            groups,
            argv.update(i, "--"@ + alias + rest),
        ) == command_line_values(options, groups, argv)
}

/// The options of `app`, and behind them those of a manager that is built for `target`.
pub open spec fn all_options(app: Command, target: Target) -> Seq<OptionSpec> {
    declared_options(app) + manager_options(target)
}

/// The groups of `app`, and behind them those of a manager.
pub open spec fn all_groups(app: Command) -> Seq<GroupSpec> {
    declared_groups(app) + manager_groups()
}

/// Matches a command line, program name first, against the options of `app` and of a manager
/// that is built for `target`, which can be declared together.
pub fn match_command(app: Command, argv: Vec<String>, target: Target) -> (r: Option<ArgMatches>)
    requires
        only_options(app),
        coherent(all_options(app, target), all_groups(app)),
        next_order(app) matches Some(n) ==> n + manager_options(target).len() <= usize::MAX,
    ensures
        match command_line_values(all_options(app, target), all_groups(app), texts(argv@)) {
            Some(values) => {
                &&& r matches Some(matches)
                &&& matched(matches) == values
                &&& all_readable(matches, all_options(app, target), all_groups(app))
                &&& all_readable(matches, manager_options(target), manager_groups())
                &&& allowed(values, all_options(app, target), all_groups(app))
            },
            None => r is None,
        },
        names_alike(all_options(app, target), all_groups(app), texts(argv@)),
        aliases_alike(all_options(app, target), all_groups(app), texts(argv@)),
{
    let ghost own = declared_options(app);
    let ghost own_groups = declared_groups(app);
    let ghost options = all_options(app, target);
    let ghost groups = all_groups(app);
    let ghost line = texts(argv@);
    let app = define_command_line_options(app, target);
    let r = match_args(app, argv);
    assert(names_alike(options, groups, line));
    assert forall|i: int, long: Seq<char>, alias: Seq<char>, rest: Seq<char>|
        #![trigger aliased(long, alias), line.update(i, "--"@ + alias + rest)]
        0 < i < line.len() && aliased(long, alias) && (rest.len() == 0 || rest[0] == '=')
            && line[i] == "--"@ + long + rest implies command_line_values(
        options,
        groups,
        line.update(i, "--"@ + alias + rest),
    ) == command_line_values(options, groups, line) by {
        law_aliases_are_other_spellings(own, line, i, long, alias, rest, target);
    }
    proof {
        let ours = manager_options(target);
        assert(forall|i: int|
            0 <= i < ours.len() ==> #[trigger] ours[i] == options[own.len() + i]);
        assert(forall|i: int|
            0 <= i < manager_groups().len() ==> #[trigger] manager_groups()[i]
                == groups[own_groups.len() + i]);
    }
    r
}

/// Matches a command line, program name first, against the options of a manager that is built
/// for `target`.
pub fn match_command_line(argv: Vec<String>, target: Target) -> (r: Option<ArgMatches>)
    ensures
        match manager_values(texts(argv@), target) {
            Some(values) => {
                &&& r matches Some(matches)
                &&& matched(matches) == values
                &&& all_readable(matches, manager_options(target), manager_groups())
                &&& allowed(values, manager_options(target), manager_groups())
            },
            None => r is None,
        },
        names_alike(manager_options(target), manager_groups(), texts(argv@)),
        aliases_alike(manager_options(target), manager_groups(), texts(argv@)),
{
    let app = new_command("ssmanager");
    proof {
        lemma_option_count(target);
        law_options_are_coherent(target);
        assert(all_options(app, target) =~= manager_options(target));
        assert(all_groups(app) =~= manager_groups());
    }
    match_command(app, argv, target)
}

/// Reads a command line, program name first: what it gives the options of a manager that is
/// built for `target`, or nothing where it is refused.
pub fn parse_options(argv: Vec<String>, target: Target) -> (r: Option<ManagerOptions>)
    ensures
        match manager_values(texts(argv@), target) {
            Some(values) => {
                &&& r matches Some(options)
                &&& options@ == options_in(values, target)
                &&& allowed(values, manager_options(target), manager_groups())
            },
            None => r is None,
        },
        names_alike(manager_options(target), manager_groups(), texts(argv@)),
{
    match match_command_line(argv, target) {
        Some(matches) => Some(read_options(&matches, target)),
        None => None,
    }
}

} // verus!
