//! The configuration of the manager, and what the command line changes in it.

use core::time::Duration;

use shadowsocks_service::acl::AccessControl;
use shadowsocks_service::config::{
    Config, ConfigType, DnsConfig, ManagerConfig, ManagerServerHost, ManagerServerMode,
};
use shadowsocks_service::shadowsocks::config::{ManagerAddr, Mode};
use shadowsocks_service::shadowsocks::crypto::CipherKind;
use shadowsocks_service::shadowsocks::plugin::PluginConfig;
use vstd::prelude::*;
use vstd::string::*;

use crate::arguments::{chars, opt_host, ManagerOptions, OptionsView};
use crate::vparser::{
    cipher_from, cipher_named, is_builtin, is_ip_addr, server_host_named, server_mode_named,
    BindAddr,
};

verus! {

/// What is relayed.
#[derive(Clone, Copy, Debug, PartialEq, Eq, Structural)]
pub enum RelayMode {
    TcpOnly,
    TcpAndUdp,
    UdpOnly,
}

/// A length of time.
pub struct Span {
    pub secs: nat,
    pub nanos: nat,
}

/// The length of time that a `Duration` is.
pub uninterp spec fn span(duration: Duration) -> Span;

/// `Duration::from_secs`: a number of whole seconds.
pub assume_specification[ Duration::from_secs ](secs: u64) -> (r: Duration)
    ensures
        span(r) == (Span { secs: secs as nat, nanos: 0 }),
;

/// A number of whole seconds.
pub open spec fn seconds(secs: u64) -> Span {
    Span { secs: secs as nat, nanos: 0 }
}

/// A number of whole seconds, if there is one.
pub open spec fn opt_seconds(secs: Option<u64>) -> Option<Span> {
    match secs {
        Some(secs) => Some(seconds(secs)),
        None => None,
    }
}

/// The length of time that a `Duration` is, if there is one.
pub open spec fn opt_span(duration: Option<Duration>) -> Option<Span> {
    match duration {
        Some(duration) => Some(span(duration)),
        None => None,
    }
}

/// The first of two values, where there is one, and otherwise the second.
pub open spec fn prefer<T>(first: Option<T>, second: Option<T>) -> Option<T> {
    match first {
        Some(_) => first,
        None => second,
    }
}

/// A plugin.
pub struct Plugin {
    pub plugin: String,
    pub plugin_opts: Option<String>,
    pub plugin_args: Vec<String>,
    pub plugin_mode: RelayMode,
}

/// A plugin, with texts as sequences of characters.
pub struct PluginView {
    pub plugin: Seq<char>,
    pub plugin_opts: Option<Seq<char>>,
    pub plugin_args: Seq<Seq<char>>,
    pub plugin_mode: RelayMode,
}

impl View for Plugin {
    type V = PluginView;

    open spec fn view(&self) -> PluginView {
        PluginView {
            plugin: self.plugin@,
            plugin_opts: chars(self.plugin_opts),
            plugin_args: self.plugin_args@.map_values(|arg: String| arg@),
            plugin_mode: self.plugin_mode,
        }
    }
}

/// What the manager's part of a configuration says.
pub struct ManagerView {
    /// Where the manager listens.
    pub addr: ManagerAddr,
    /// The default cipher of servers.
    pub method: Option<CipherKind>,
    /// The default plugin of servers.
    pub plugin: Option<PluginView>,
    /// The timeout of TCP connections.
    pub timeout: Option<Span>,
    /// The host that servers bind to.
    pub server_host: ManagerServerHost,
    /// What servers relay.
    pub mode: RelayMode,
    /// How servers are run.
    pub server_mode: ManagerServerMode,
    /// What is not listed here: the server program and, on targets that have one, its working
    /// directory, which is an option's to change where `Platform` is put in.
    pub rest: ManagerConfig,
}

/// The manager's part of a configuration.
pub struct ManagerSetup {
    pub addr: ManagerAddr,
    pub method: Option<CipherKind>,
    pub plugin: Option<Plugin>,
    pub timeout: Option<Duration>,
    pub server_host: ManagerServerHost,
    pub mode: RelayMode,
    pub server_mode: ManagerServerMode,
    /// The part that this was read from: it holds what is not listed here.
    pub rest: ManagerConfig,
}

/// What a `ManagerConfig` of the service says.
pub uninterp spec fn manager_view(manager: ManagerConfig) -> ManagerView;

impl View for ManagerSetup {
    type V = ManagerView;

    open spec fn view(&self) -> ManagerView {
        ManagerView {
            addr: self.addr,
            method: self.method,
            plugin: match self.plugin {
                Some(plugin) => Some(plugin@),
                None => None,
            },
            timeout: opt_span(self.timeout),
            server_host: self.server_host,
            mode: self.mode,
            server_mode: self.server_mode,
            rest: manager_view(self.rest).rest,
        }
    }
}

/// What a configuration says on sockets, name resolution and access control.
pub struct SettingsView {
    pub no_delay: bool,
    pub fast_open: bool,
    pub keep_alive: Option<Span>,
    pub mptcp: bool,
    pub outbound_bind_interface: Option<Seq<char>>,
    pub acl: Option<AccessControl>,
    pub dns: DnsConfig,
    pub dns_cache_size: Option<usize>,
    pub ipv6_first: bool,
    pub udp_timeout: Option<Span>,
    pub udp_max_associations: Option<usize>,
    pub inbound_send_buffer_size: Option<u32>,
    pub inbound_recv_buffer_size: Option<u32>,
    pub outbound_send_buffer_size: Option<u32>,
    pub outbound_recv_buffer_size: Option<u32>,
}

/// The part of a configuration on sockets, name resolution and access control.
pub struct Settings {
    pub no_delay: bool,
    pub fast_open: bool,
    pub keep_alive: Option<Duration>,
    pub mptcp: bool,
    pub outbound_bind_interface: Option<String>,
    pub acl: Option<AccessControl>,
    pub dns: DnsConfig,
    pub dns_cache_size: Option<usize>,
    pub ipv6_first: bool,
    pub udp_timeout: Option<Duration>,
    pub udp_max_associations: Option<usize>,
    pub inbound_send_buffer_size: Option<u32>,
    pub inbound_recv_buffer_size: Option<u32>,
    pub outbound_send_buffer_size: Option<u32>,
    pub outbound_recv_buffer_size: Option<u32>,
}

impl View for Settings {
    type V = SettingsView;

    open spec fn view(&self) -> SettingsView {
        SettingsView {
            no_delay: self.no_delay,
            fast_open: self.fast_open,
            keep_alive: opt_span(self.keep_alive),
            mptcp: self.mptcp,
            outbound_bind_interface: chars(self.outbound_bind_interface),
            acl: self.acl,
            dns: self.dns,
            dns_cache_size: self.dns_cache_size,
            ipv6_first: self.ipv6_first,
            udp_timeout: opt_span(self.udp_timeout),
            udp_max_associations: self.udp_max_associations,
            inbound_send_buffer_size: self.inbound_send_buffer_size,
            inbound_recv_buffer_size: self.inbound_recv_buffer_size,
            outbound_send_buffer_size: self.outbound_send_buffer_size,
            outbound_recv_buffer_size: self.outbound_recv_buffer_size,
        }
    }
}

/// What a configuration says.
pub struct SetupView {
    pub settings: SettingsView,
    /// The IP address that outbound sockets bind to.
    pub outbound_bind_addr: Option<ManagerServerHost>,
    pub manager: Option<ManagerView>,
    /// What is not listed here, the servers among it. Nothing here changes it. On targets that
    /// have them it also holds the limit on open files, the firewall mark and the user cookie
    /// of sockets, which are an option's to change where `Platform` is put in.
    pub rest: Config,
}

/// A configuration.
pub struct Setup {
    pub settings: Settings,
    pub outbound_bind_addr: Option<BindAddr>,
    pub manager: Option<ManagerSetup>,
    /// The configuration that this was read from: it holds what is not listed here.
    pub rest: Config,
}

/// What a configuration of the service says on sockets, name resolution and access control.
pub uninterp spec fn settings_of(config: Config) -> SettingsView;

/// The IP address that a configuration of the service has outbound sockets bind to.
pub uninterp spec fn bind_addr_of(config: Config) -> Option<ManagerServerHost>;

/// The manager's part of a configuration of the service.
pub uninterp spec fn manager_of(config: Config) -> Option<ManagerConfig>;

/// A configuration of the service without what the others of these functions tell of it.
pub uninterp spec fn rest_of(config: Config) -> Config;

/// What is wrong with a configuration of the service: with what `rest_of` tells of it, where a
/// manager's part is present or missing.
pub uninterp spec fn integrity_fault(has_manager: bool, rest: Config) -> Option<Seq<char>>;

/// The name servers that a text spells, or what is wrong with it.
pub uninterp spec fn dns_named(text: Seq<char>) -> Result<DnsConfig, Seq<char>>;

/// How many servers a configuration of the service lists. It is no option's to change.
pub uninterp spec fn server_count(rest: Config) -> nat;

/// The program that a manager's part has its servers run by, on targets that run one.
pub uninterp spec fn server_program(rest: ManagerConfig) -> Option<Seq<char>>;

/// What a configuration of the service says.
pub open spec fn service_view(config: Config) -> SetupView {
    SetupView {
        settings: settings_of(config),
        outbound_bind_addr: bind_addr_of(config),
        manager: match manager_of(config) {
            Some(manager) => Some(manager_view(manager)),
            None => None,
        },
        rest: rest_of(config),
    }
}

impl View for Setup {
    type V = SetupView;

    open spec fn view(&self) -> SetupView {
        SetupView {
            settings: self.settings@,
            outbound_bind_addr: opt_host(self.outbound_bind_addr),
            manager: match self.manager {
                Some(manager) => Some(manager@),
                None => None,
            },
            rest: rest_of(self.rest),
        }
    }
}

/// The mode that a text spells, if it spells one.
pub open spec fn mode_named(text: Seq<char>) -> Option<RelayMode> {
    if text == "tcp_only"@ {
        Some(RelayMode::TcpOnly)
    } else if text == "tcp_and_udp"@ {
        Some(RelayMode::TcpAndUdp)
    } else if text == "udp_only"@ {
        Some(RelayMode::UdpOnly)
    } else {
        None
    }
}

/// `Mode::from_str`: three texts are modes.
#[verifier::external_body]
fn mode_from(text: &str) -> (r: Option<RelayMode>)
    ensures
        r == mode_named(text@),
{
    match text.parse::<Mode>() {
        Ok(Mode::TcpOnly) => Some(RelayMode::TcpOnly),
        Ok(Mode::TcpAndUdp) => Some(RelayMode::TcpAndUdp),
        Ok(Mode::UdpOnly) => Some(RelayMode::UdpOnly),
        Err(()) => None,
    }
}

/// `Config::set_dns_formatted`: the name servers that it sets, or, where the text is refused,
/// what `Debug` writes of the error. It is handed an empty configuration, of which it reads
/// nothing.
#[verifier::external_body]
fn dns_from(text: &str) -> (r: Result<DnsConfig, String>)
    ensures
        dns_named(text@) == (match r {
            Ok(dns) => Ok(dns),
            Err(err) => Err(err@),
        }),
        text@ == "system"@ ==> r is Ok,
{
    let mut config = Config::new(ConfigType::Manager);
    match config.set_dns_formatted(text) {
        Ok(()) => Ok(config.dns),
        Err(err) => Err(format!("{err:?}")),
    }
}

/// `ManagerConfig::new`: the address, and defaults. The default working directory is the
/// current one, of which nothing is said here.
#[verifier::external_body]
fn new_service_manager(addr: ManagerAddr) -> (r: ManagerConfig)
    ensures
        manager_view(r).addr == addr,
        manager_view(r).method is None,
        manager_view(r).plugin is None,
        manager_view(r).timeout is None,
        manager_view(r).server_host == server_host_named("0.0.0.0"@),
        manager_view(r).mode == RelayMode::TcpOnly,
        Some(manager_view(r).server_mode) == server_mode_named("builtin"@),
        is_builtin(manager_view(r).server_mode),
        server_program(manager_view(r).rest) matches Some(program) ==> program == "ssserver"@,
{
    ManagerConfig::new(addr)
}

/// Takes the fields out of a `ManagerConfig` of the service.
#[verifier::external_body]
fn open_manager(manager: ManagerConfig) -> (r: ManagerSetup)
    ensures
        r@ == manager_view(manager),
{
    let mode = |mode: Mode| match mode {
        Mode::TcpOnly => RelayMode::TcpOnly,
        Mode::TcpAndUdp => RelayMode::TcpAndUdp,
        Mode::UdpOnly => RelayMode::UdpOnly,
    };
    let m = manager.clone();
    let plugin = m.plugin.map(|p| Plugin {
        plugin: p.plugin, plugin_opts: p.plugin_opts,
        plugin_args: p.plugin_args, plugin_mode: mode(p.plugin_mode),
    });
    ManagerSetup {
        addr: m.addr, method: m.method, plugin, timeout: m.timeout, server_host: m.server_host,
        mode: mode(m.mode), server_mode: m.server_mode, rest: manager,
    }
}

/// Puts fields into a `ManagerConfig` of the service, in place of its own.
#[verifier::external_body]
fn close_manager(manager: ManagerSetup) -> (r: ManagerConfig)
    ensures
        manager_view(r) == manager@,
{
    let m = manager;
    let mode = |mode: RelayMode| match mode {
        RelayMode::TcpOnly => Mode::TcpOnly,
        RelayMode::TcpAndUdp => Mode::TcpAndUdp,
        RelayMode::UdpOnly => Mode::UdpOnly,
    };
    let plugin = m.plugin.map(|p| PluginConfig {
        plugin: p.plugin, plugin_opts: p.plugin_opts,
        plugin_args: p.plugin_args, plugin_mode: mode(p.plugin_mode),
    });
    ManagerConfig {
        addr: m.addr, method: m.method, plugin, timeout: m.timeout, server_host: m.server_host,
        mode: mode(m.mode), server_mode: m.server_mode, ..m.rest
    }
}

/// `Config::new`, for a manager: no manager's part, no server, no limits, and the system's
/// name servers. There is nothing in it to object to but the missing manager's part.
#[verifier::external_body]
fn new_service_config() -> (r: Config)
    ensures
        settings_of(r) == (SettingsView {
            no_delay: false,
            fast_open: false,
            keep_alive: None,
            mptcp: false,
            outbound_bind_interface: None,
            acl: None,
            dns: dns_named("system"@)->Ok_0,
            dns_cache_size: None,
            ipv6_first: false,
            udp_timeout: None,
            udp_max_associations: None,
            inbound_send_buffer_size: None,
            inbound_recv_buffer_size: None,
            outbound_send_buffer_size: None,
            outbound_recv_buffer_size: None,
        }),
        bind_addr_of(r) is None,
        manager_of(r) is None,
        server_count(rest_of(r)) == 0,
        integrity_fault(true, rest_of(r)) is None,
{
    Config::new(ConfigType::Manager)
}

/// Takes the fields out of a `Config` of the service: the settings, the address that sockets
/// bind to, the manager's part, and what is left.
#[verifier::external_body]
fn open_service_config(config: Config) -> (r: (
    Settings,
    Option<ManagerServerHost>,
    Option<ManagerConfig>,
    Config,
))
    ensures
        r.0@ == settings_of(config),
        r.1 == bind_addr_of(config),
        r.1 matches Some(addr) ==> is_ip_addr(addr),
        r.2 == manager_of(config),
        rest_of(r.3) == rest_of(config),
{
    let c = config.clone();
    let settings = Settings {
        no_delay: c.no_delay, fast_open: c.fast_open, keep_alive: c.keep_alive, mptcp: c.mptcp,
        outbound_bind_interface: c.outbound_bind_interface, acl: c.acl, dns: c.dns,
        dns_cache_size: c.dns_cache_size, ipv6_first: c.ipv6_first, udp_timeout: c.udp_timeout,
        udp_max_associations: c.udp_max_associations,
        inbound_send_buffer_size: c.inbound_send_buffer_size,
        inbound_recv_buffer_size: c.inbound_recv_buffer_size,
        outbound_send_buffer_size: c.outbound_send_buffer_size,
        outbound_recv_buffer_size: c.outbound_recv_buffer_size,
    };
    (settings, c.outbound_bind_addr.map(ManagerServerHost::Ip), c.manager, config)
}

/// Puts fields into a `Config` of the service, in place of its own.
#[verifier::external_body]
fn close_service_config(
    settings: Settings,
    outbound_bind_addr: Option<ManagerServerHost>,
    manager: Option<ManagerConfig>,
    rest: Config,
) -> (r: Config)
    requires
        outbound_bind_addr matches Some(addr) ==> is_ip_addr(addr),
    ensures
        settings_of(r) == settings@,
        bind_addr_of(r) == outbound_bind_addr,
        manager_of(r) == manager,
        rest_of(r) == rest_of(rest),
{
    let s = settings;
    let outbound_bind_addr = match outbound_bind_addr {
        Some(ManagerServerHost::Ip(addr)) => Some(addr),
        Some(ManagerServerHost::Domain(_)) | None => None,
    };
    Config {
        no_delay: s.no_delay, fast_open: s.fast_open, keep_alive: s.keep_alive, mptcp: s.mptcp,
        outbound_bind_interface: s.outbound_bind_interface, acl: s.acl, dns: s.dns,
        dns_cache_size: s.dns_cache_size, ipv6_first: s.ipv6_first, udp_timeout: s.udp_timeout,
        udp_max_associations: s.udp_max_associations, outbound_bind_addr, manager,
        inbound_send_buffer_size: s.inbound_send_buffer_size, inbound_recv_buffer_size: s.inbound_recv_buffer_size,
        outbound_send_buffer_size: s.outbound_send_buffer_size, outbound_recv_buffer_size: s.outbound_recv_buffer_size, ..rest
    }
}

/// `Config::check_integrity`: what it objects to, in its own words. Of the parts that options
/// change it looks at nothing but whether there is a manager's part.
#[verifier::external_body]
pub(crate) fn check_integrity(config: &Config) -> (r: Option<String>)
    ensures
        chars(r) == integrity_fault(manager_of(*config) is Some, rest_of(*config)),
{
    config.check_integrity().err().map(|err| err.to_string())
}

/// A place where the program cannot go on, because a text on the command line is not what it
/// should be.
#[derive(Debug)]
pub enum Stop {
    /// The default cipher is not one, for this reason.
    Method(String),
    /// What the plugin should relay is not a mode.
    PluginMode,
    /// The name servers are not some, for this reason.
    Dns(String),
}

/// A `Stop`, with texts as sequences of characters.
pub enum StopView {
    Method(Seq<char>),
    PluginMode,
    Dns(Seq<char>),
}

impl View for Stop {
    type V = StopView;

    open spec fn view(&self) -> StopView {
        match self {
            Stop::Method(err) => StopView::Method(err@),
            Stop::PluginMode => StopView::PluginMode,
            Stop::Dns(err) => StopView::Dns(err@),
        }
    }
}

/// A `Stop`, if there is one, with texts as sequences of characters.
pub open spec fn opt_stop(stop: Option<Stop>) -> Option<StopView> {
    match stop {
        Some(stop) => Some(stop@),
        None => None,
    }
}

impl StopView {
    /// What to tell the user: what was expected, and why it is not so.
    pub open spec fn text(self) -> Seq<char> {
        match self {
            StopView::Method(err) => "method: "@ + err,
            StopView::PluginMode =>
                "plugin-mode must be one of `tcp_only` (default), `udp_only` and `tcp_and_udp`: ()"@,
            StopView::Dns(err) => "dns: "@ + err,
        }
    }
}

impl Stop {
    /// What to tell the user: what was expected, and why it is not so.
    pub fn message(&self) -> (r: String)
        ensures
            r@ == self@.text(),
    {
        match self {
            Stop::Method(err) => {
                let mut text = "method: ".to_string();
                text.append(err.as_str());
                text
            },
            Stop::PluginMode =>
                "plugin-mode must be one of `tcp_only` (default), `udp_only` and `tcp_and_udp`: ()".to_string(),
            Stop::Dns(err) => {
                let mut text = "dns: ".to_string();
                text.append(err.as_str());
                text
            },
        }
    }
}

/// What the manager's part of a configuration says, if there is one.
pub open spec fn opt_manager(manager: Option<ManagerSetup>) -> Option<ManagerView> {
    match manager {
        Some(manager) => Some(manager@),
        None => None,
    }
}

/// Whether `manager` is what the manager's part says where nothing but an address is given. The
/// default working directory, in `rest`, is that of the process.
pub open spec fn is_fresh(manager: ManagerView, addr: ManagerAddr) -> bool {
    &&& manager == fresh_manager(addr, manager.rest)
    &&& is_builtin(manager.server_mode)
    &&& server_program(manager.rest) matches Some(program) ==> program == "ssserver"@
}

/// The listed fields of the manager's part where nothing but an address is given.
pub open spec fn fresh_manager(addr: ManagerAddr, rest: ManagerConfig) -> ManagerView {
    ManagerView {
        addr,
        method: None,
        plugin: None,
        timeout: None,
        server_host: server_host_named("0.0.0.0"@),
        mode: RelayMode::TcpOnly,
        server_mode: server_mode_named("builtin"@)->0,
        rest,
    }
}

/// Whether `setup` is what there is without a configuration file: nothing is set, there is no
/// server, and nothing is wrong but that the manager's part is missing.
pub open spec fn blank(setup: SetupView) -> bool {
    &&& setup.settings == SettingsView {
        no_delay: false,
        fast_open: false,
        keep_alive: None,
        mptcp: false,
        outbound_bind_interface: None,
        acl: None,
        dns: dns_named("system"@)->Ok_0,
        dns_cache_size: None,
        ipv6_first: false,
        udp_timeout: None,
        udp_max_associations: None,
        inbound_send_buffer_size: None,
        inbound_recv_buffer_size: None,
        outbound_send_buffer_size: None,
        outbound_recv_buffer_size: None,
    }
    &&& setup.outbound_bind_addr is None
    &&& setup.manager is None
    &&& server_count(setup.rest) == 0
    &&& integrity_fault(true, setup.rest) is None
}

impl ManagerSetup {
    /// The manager's part of a configuration, with an address and defaults.
    pub fn new(addr: ManagerAddr) -> (r: ManagerSetup)
        ensures
            is_fresh(r@, addr),
    {
        open_manager(new_service_manager(addr))
    }
}

impl Setup {
    /// What there is without a configuration file.
    pub fn new() -> (r: Setup)
        ensures
            blank(r@),
    {
        Setup::open(new_service_config())
    }

    /// Takes a configuration of the service apart.
    pub fn open(config: Config) -> (r: Setup)
        ensures
            r@ == service_view(config),
    {
        let (settings, addr, manager, rest) = open_service_config(config);
        let outbound_bind_addr = match addr {
            Some(addr) => Some(BindAddr::new(addr)),
            None => None,
        };
        let manager = match manager {
            Some(manager) => Some(open_manager(manager)),
            None => None,
        };
        Setup { settings, outbound_bind_addr, manager, rest }
    }

    /// Puts a configuration of the service together.
    pub fn close(self) -> (r: Config)
        ensures
            service_view(r) == self@,
    {
        let addr = match self.outbound_bind_addr {
            Some(addr) => Some(addr.into_host()),
            None => None,
        };
        let manager = match self.manager {
            Some(manager) => Some(close_manager(manager)),
            None => None,
        };
        close_service_config(self.settings, addr, manager, self.rest)
    }
}

/// The manager's part once the command line has given it an address: it takes the place of the
/// one that is there, and brings a manager's part where there is none.
pub open spec fn addressed(
    manager: Option<ManagerView>,
    addr: Option<ManagerAddr>,
    fresh: Option<ManagerView>,
) -> Option<ManagerView> {
    match (addr, manager) {
        (Some(addr), Some(manager)) => Some(ManagerView { addr, ..manager }),
        (Some(addr), None) => fresh,
        (None, _) => manager,
    }
}

/// A configuration after the options on TCP, on the outbound interface and on the address of
/// the manager.
pub open spec fn with_network(
    setup: SetupView,
    options: OptionsView,
    fresh: Option<ManagerView>,
) -> SetupView {
    let settings = setup.settings;
    SetupView {
        settings: SettingsView {
            no_delay: settings.no_delay || options.tcp_no_delay,
            fast_open: settings.fast_open || options.tcp_fast_open,
            keep_alive: prefer(opt_seconds(options.tcp_keep_alive), settings.keep_alive),
            mptcp: settings.mptcp || options.tcp_multipath,
            outbound_bind_interface: prefer(
                options.outbound_bind_interface,
                settings.outbound_bind_interface,
            ),
            ..settings
        },
        manager: addressed(setup.manager, options.manager_addr, fresh),
        ..setup
    }
}

/// The plugin that the command line asks for, if it asks for one.
pub open spec fn plugin_given(options: OptionsView) -> Option<PluginView> {
    match options.plugin {
        Some(plugin) => Some(
            PluginView {
                plugin,
                plugin_opts: options.plugin_opts,
                plugin_args: seq![],
                plugin_mode: match options.plugin_mode {
                    Some(text) => mode_named(text)->0,
                    None => RelayMode::TcpOnly,
                },
            },
        ),
        None => None,
    }
}

/// The cipher that the command line asks for, if it asks for one.
pub open spec fn method_given(options: OptionsView) -> Option<CipherKind> {
    match options.encrypt_method {
        Some(text) => cipher_named(text),
        None => None,
    }
}

/// A manager's part after the options on servers.
pub open spec fn managed(manager: ManagerView, options: OptionsView) -> ManagerView {
    ManagerView {
        method: prefer(method_given(options), manager.method),
        timeout: prefer(opt_seconds(options.timeout), manager.timeout),
        server_host: prefer(options.server_host, Some(manager.server_host))->0,
        plugin: prefer(plugin_given(options), manager.plugin),
        server_mode: prefer(options.manager_server_mode, Some(manager.server_mode))->0,
        mode: if options.tcp_and_udp {
            RelayMode::TcpAndUdp
        } else if options.udp_only {
            RelayMode::UdpOnly
        } else {
            manager.mode
        },
        ..manager
    }
}

/// A configuration after the options on servers, which only a manager's part takes in.
pub open spec fn with_manager(setup: SetupView, options: OptionsView) -> SetupView {
    SetupView {
        manager: match setup.manager {
            Some(manager) => Some(managed(manager, options)),
            None => None,
        },
        ..setup
    }
}

/// Where the options on servers stop the program. They do not where there is no manager's part
/// to take them in.
pub open spec fn manager_stop(setup: SetupView, options: OptionsView) -> Option<StopView> {
    if setup.manager is None {
        None
    } else if options.encrypt_method matches Some(text) && cipher_named(text) is None {
        Some(StopView::Method("ParseCipherKindError"@))
    } else if options.plugin is Some && (options.plugin_mode matches Some(text) && mode_named(text)
        is None) {
        Some(StopView::PluginMode)
    } else {
        None
    }
}

/// A configuration after an access control list was loaded.
pub open spec fn with_acl(setup: SetupView, acl: AccessControl) -> SetupView {
    SetupView { settings: SettingsView { acl: Some(acl), ..setup.settings }, ..setup }
}

/// The name servers that the command line asks for, if it asks for some.
pub open spec fn dns_given(options: OptionsView) -> Option<DnsConfig> {
    match options.dns {
        Some(text) => match dns_named(text) {
            Ok(dns) => Some(dns),
            Err(_) => None,
        },
        None => None,
    }
}

/// A configuration after the options on name resolution, UDP, buffers and the outbound address.
pub open spec fn with_limits(setup: SetupView, options: OptionsView) -> SetupView {
    let settings = setup.settings;
    SetupView {
        settings: SettingsView {
            dns: prefer(dns_given(options), Some(settings.dns))->0,
            dns_cache_size: prefer(options.dns_cache_size, settings.dns_cache_size),
            ipv6_first: settings.ipv6_first || options.ipv6_first,
            udp_timeout: prefer(opt_seconds(options.udp_timeout), settings.udp_timeout),
            udp_max_associations: prefer(
                options.udp_max_associations,
                settings.udp_max_associations,
            ),
            inbound_send_buffer_size: prefer(
                options.inbound_send_buffer_size,
                settings.inbound_send_buffer_size,
            ),
            inbound_recv_buffer_size: prefer(
                options.inbound_recv_buffer_size,
                settings.inbound_recv_buffer_size,
            ),
            outbound_send_buffer_size: prefer(
                options.outbound_send_buffer_size,
                settings.outbound_send_buffer_size,
            ),
            outbound_recv_buffer_size: prefer(
                options.outbound_recv_buffer_size,
                settings.outbound_recv_buffer_size,
            ),
            ..settings
        },
        outbound_bind_addr: prefer(options.outbound_bind_addr, setup.outbound_bind_addr),
        ..setup
    }
}

/// Where the options on name resolution stop the program.
pub open spec fn dns_stop(options: OptionsView) -> Option<StopView> {
    match options.dns {
        Some(text) => match dns_named(text) {
            Ok(_) => None,
            Err(err) => Some(StopView::Dns(err)),
        },
        None => None,
    }
}

/// The first of two values, where there is one, and otherwise the second.
pub(crate) fn either<T>(first: Option<T>, second: Option<T>) -> (r: Option<T>)
    ensures
        r == prefer(first, second),
{
    match first {
        Some(_) => first,
        None => second,
    }
}

/// A number of seconds, where there is one, and otherwise another length of time.
fn either_seconds(first: Option<u64>, second: Option<Duration>) -> (r: Option<Duration>)
    ensures
        opt_span(r) == prefer(opt_seconds(first), opt_span(second)),
{
    match first {
        Some(secs) => Some(Duration::from_secs(secs)),
        None => second,
    }
}

impl Setup {
    /// Takes in the options on TCP, on the outbound interface and on the address of the
    /// manager. `fresh` is the manager's part for a configuration that has none.
    pub fn apply_network(&mut self, options: &ManagerOptions, fresh: Option<ManagerSetup>)
        ensures
            final(self)@ == with_network(old(self)@, options@, opt_manager(fresh)),
    {
        let settings = &mut self.settings;
        settings.no_delay = settings.no_delay || options.tcp_no_delay;
        settings.fast_open = settings.fast_open || options.tcp_fast_open;
        settings.keep_alive = either_seconds(options.tcp_keep_alive, settings.keep_alive);
        settings.mptcp = settings.mptcp || options.tcp_multipath;
        if let Some(iface) = &options.outbound_bind_interface {
            self.settings.outbound_bind_interface = Some(iface.clone());
        }
        if let Some(addr) = &options.manager_addr {
            match &mut self.manager {
                Some(manager) => {
                    manager.addr = addr.clone();
                },
                None => {
                    self.manager = fresh;
                },
            }
        }
    }

    /// Takes in the options on servers, or says where they stop the program.
    pub fn apply_manager(&mut self, options: &ManagerOptions) -> (r: Option<Stop>)
        ensures
            opt_stop(r) == manager_stop(old(self)@, options@),
            r is None ==> final(self)@ == with_manager(old(self)@, options@),
    {
        match &mut self.manager {
            Some(manager) => {
                if let Some(method) = &options.encrypt_method {
                    match cipher_from(method.as_str()) {
                        Ok(cipher) => {
                            manager.method = Some(cipher);
                        },
                        Err(err) => {
                            return Some(Stop::Method(err));
                        },
                    }
                }
                manager.timeout = either_seconds(options.timeout, manager.timeout);
                if let Some(server_host) = &options.server_host {
                    manager.server_host = server_host.clone();
                }
                if let Some(plugin) = &options.plugin {
                    let plugin_mode = match &options.plugin_mode {
                        Some(text) => match mode_from(text.as_str()) {
                            Some(mode) => mode,
                            None => {
                                return Some(Stop::PluginMode);
                            },
                        },
                        None => RelayMode::TcpOnly,
                    };
                    let plugin = Plugin {
                        plugin: plugin.clone(),
                        plugin_opts: options.plugin_opts.clone(),
                        plugin_args: Vec::new(),
                        plugin_mode,
                    };
                    assert(plugin@.plugin_args =~= seq![]);
                    manager.plugin = Some(plugin);
                }
                if let Some(server_mode) = options.manager_server_mode {
                    manager.server_mode = server_mode;
                }
                if options.udp_only {
                    manager.mode = RelayMode::UdpOnly;
                }
                if options.tcp_and_udp {
                    manager.mode = RelayMode::TcpAndUdp;
                }
            },
            None => {},
        }
        None
    }

    /// Takes in the options on name resolution, UDP, buffers and the outbound address, or says
    /// where they stop the program.
    pub fn apply_limits(&mut self, options: &ManagerOptions) -> (r: Option<Stop>)
        ensures
            opt_stop(r) == dns_stop(options@),
            r is None ==> final(self)@ == with_limits(old(self)@, options@),
    {
        if let Some(text) = &options.dns {
            match dns_from(text.as_str()) {
                Ok(dns) => {
                    self.settings.dns = dns;
                },
                Err(err) => {
                    return Some(Stop::Dns(err));
                },
            }
        }
        let settings = &mut self.settings;
        settings.dns_cache_size = either(options.dns_cache_size, settings.dns_cache_size);
        settings.ipv6_first = settings.ipv6_first || options.ipv6_first;
        settings.udp_timeout = either_seconds(options.udp_timeout, settings.udp_timeout);
        settings.udp_max_associations = either(
            options.udp_max_associations,
            settings.udp_max_associations,
        );
        settings.inbound_send_buffer_size = either(
            options.inbound_send_buffer_size,
            settings.inbound_send_buffer_size,
        );
        settings.inbound_recv_buffer_size = either(
            options.inbound_recv_buffer_size,
            settings.inbound_recv_buffer_size,
        );
        settings.outbound_send_buffer_size = either(
            options.outbound_send_buffer_size,
            settings.outbound_send_buffer_size,
        );
        settings.outbound_recv_buffer_size = either(
            options.outbound_recv_buffer_size,
            settings.outbound_recv_buffer_size,
        );
        if let Some(addr) = &options.outbound_bind_addr {
            self.outbound_bind_addr = Some(addr.clone());
        }
        None
    }
}

} // verus!
