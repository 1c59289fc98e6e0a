use std::time::Duration;

use shadowsocks_service::config::{Config, ConfigType, ManagerConfig, ManagerServerMode};
use shadowsocks_service::shadowsocks::config::Mode;
use shadowsocks_service::shadowsocks::crypto::CipherKind;
use shadowsocks_service::shadowsocks::plugin::PluginConfig;
use ssmanager::arguments::{parse_options, ManagerOptions};
use ssmanager::config::{ManagerSetup, RelayMode, Setup, Stop};
use ssmanager::target::Target;

fn options(args: &[&str]) -> ManagerOptions {
    let target = Target {
        unix: true,
        linux: true,
        android: false,
        freebsd: false,
        logging: false,
        multi_threaded: false,
    };
    let mut argv = vec!["ssmanager".to_string()];
    for arg in args {
        argv.push(arg.to_string());
    }
    parse_options(argv, target).unwrap()
}

/// A configuration in which everything differs from the defaults.
fn full() -> Config {
    let mut manager = ManagerConfig::new("127.0.0.1:6100".parse().unwrap());
    manager.method = Some(CipherKind::AES_128_GCM);
    manager.plugin = Some(PluginConfig {
        plugin: "filed".to_string(),
        plugin_opts: Some("opts".to_string()),
        plugin_args: vec!["a".to_string(), "b".to_string()],
        plugin_mode: Mode::TcpAndUdp,
    });
    manager.timeout = Some(Duration::from_millis(1500));
    manager.server_host = "example.com".parse().unwrap();
    manager.mode = Mode::TcpAndUdp;
    manager.server_mode = ManagerServerMode::Standalone;
    manager.server_program = "other".to_string();
    let mut config = Config::new(ConfigType::Manager);
    config.no_delay = true;
    config.fast_open = true;
    config.keep_alive = Some(Duration::from_secs(3));
    config.mptcp = true;
    config.outbound_bind_interface = Some("lo".to_string());
    config.dns_cache_size = Some(5);
    config.ipv6_first = true;
    config.udp_timeout = Some(Duration::from_secs(4));
    config.udp_max_associations = Some(6);
    config.inbound_send_buffer_size = Some(7);
    config.inbound_recv_buffer_size = Some(8);
    config.outbound_send_buffer_size = Some(9);
    config.outbound_recv_buffer_size = Some(10);
    config.outbound_bind_addr = Some("10.1.1.1".parse().unwrap());
    config.nofile = Some(11);
    config.ipv6_only = true;
    config.set_dns_formatted("1.1.1.1").unwrap();
    config.manager = Some(manager);
    config
}

fn applied(config: Config, args: &[&str]) -> Config {
    let options = options(args);
    let fresh = match &options.manager_addr {
        Some(addr) => Some(ManagerSetup::new(addr.clone())),
        None => None,
    };
    let mut setup = Setup::open(config);
    setup.apply_network(&options, fresh);
    assert!(setup.apply_manager(&options).is_none());
    assert!(setup.apply_limits(&options).is_none());
    setup.close()
}

fn stopped(stop: Option<Stop>) -> String {
    stop.unwrap().message()
}

#[test]
fn opening_and_closing_changes_nothing() {
    assert_eq!(format!("{:?}", Setup::open(full()).close()), format!("{:?}", full()));
    let empty = Config::new(ConfigType::Manager);
    assert_eq!(format!("{:?}", Setup::open(empty.clone()).close()), format!("{:?}", empty));
}

#[test]
fn no_options_change_nothing() {
    assert_eq!(format!("{:?}", applied(full(), &[])), format!("{:?}", full()));
}

#[test]
fn options_apply_once() {
    let args = [
        "--manager-addr", "127.0.0.1:1", "-U", "--timeout", "9", "--dns", "8.8.8.8", "--plugin",
        "p", "-6", "-b", "10.0.0.3",
    ];
    let once = applied(Config::new(ConfigType::Manager), &args);
    assert_eq!(format!("{:?}", applied(once.clone(), &args)), format!("{:?}", once));
}

#[test]
fn a_blank_configuration_has_nothing_set() {
    let setup = Setup::new();
    assert!(!setup.settings.no_delay);
    assert!(!setup.settings.fast_open);
    assert!(setup.settings.keep_alive.is_none());
    assert!(!setup.settings.mptcp);
    assert!(setup.settings.outbound_bind_interface.is_none());
    assert!(setup.settings.acl.is_none());
    assert_eq!(format!("{:?}", setup.settings.dns), "System");
    assert!(setup.settings.dns_cache_size.is_none());
    assert!(!setup.settings.ipv6_first);
    assert!(setup.settings.udp_timeout.is_none());
    assert!(setup.settings.udp_max_associations.is_none());
    assert!(setup.settings.inbound_send_buffer_size.is_none());
    assert!(setup.settings.inbound_recv_buffer_size.is_none());
    assert!(setup.settings.outbound_send_buffer_size.is_none());
    assert!(setup.settings.outbound_recv_buffer_size.is_none());
    assert!(setup.outbound_bind_addr.is_none());
    assert!(setup.manager.is_none());
    assert!(setup.close().server.is_empty());
}

#[test]
fn a_fresh_manager_has_an_address_and_defaults() {
    let manager = ManagerSetup::new("127.0.0.1:6100".parse().unwrap());
    assert_eq!(manager.addr.to_string(), "127.0.0.1:6100");
    assert!(manager.method.is_none());
    assert!(manager.plugin.is_none());
    assert!(manager.timeout.is_none());
    assert_eq!(format!("{:?}", manager.server_host), "Ip(0.0.0.0)");
    assert_eq!(manager.mode, RelayMode::TcpOnly);
    assert_eq!(manager.server_mode.to_string(), "builtin");
    let mut setup = Setup::new();
    setup.manager = Some(manager);
    assert_eq!(setup.close().manager.unwrap().server_program, "ssserver");
}

#[test]
fn options_take_the_place_of_the_file() {
    let config = applied(full(), &[
        "--tcp-keep-alive", "30", "--outbound-bind-interface", "eth1", "--manager-addr",
        "example.com:7000", "-m", "chacha20-ietf-poly1305", "--timeout", "60", "-s", "10.0.0.9",
        "--plugin", "obfs", "--manager-server-mode", "builtin", "-u", "--dns", "system",
        "--dns-cache-size", "50", "--udp-timeout", "40", "--udp-max-associations", "60",
        "--inbound-send-buffer-size", "70", "--inbound-recv-buffer-size", "80",
        "--outbound-send-buffer-size", "90", "--outbound-recv-buffer-size", "100", "-b", "::1",
    ]);
    assert_eq!(config.keep_alive, Some(Duration::from_secs(30)));
    assert_eq!(config.outbound_bind_interface, Some("eth1".to_string()));
    assert_eq!(format!("{:?}", config.dns), "System");
    assert_eq!(config.dns_cache_size, Some(50));
    assert_eq!(config.udp_timeout, Some(Duration::from_secs(40)));
    assert_eq!(config.udp_max_associations, Some(60));
    assert_eq!(config.inbound_send_buffer_size, Some(70));
    assert_eq!(config.inbound_recv_buffer_size, Some(80));
    assert_eq!(config.outbound_send_buffer_size, Some(90));
    assert_eq!(config.outbound_recv_buffer_size, Some(100));
    assert_eq!(config.outbound_bind_addr.unwrap().to_string(), "::1");
    assert_eq!(config.nofile, Some(11));
    assert!(config.ipv6_only);
    let manager = config.manager.unwrap();
    assert_eq!(manager.addr.to_string(), "example.com:7000");
    assert_eq!(manager.method, Some(CipherKind::CHACHA20_POLY1305));
    assert_eq!(manager.timeout, Some(Duration::from_secs(60)));
    assert_eq!(format!("{:?}", manager.server_host), "Ip(10.0.0.9)");
    assert_eq!(manager.server_mode, ManagerServerMode::Builtin);
    assert_eq!(manager.server_program, "other");
    assert_eq!(format!("{:?}", manager.mode), "UdpOnly");
    let plugin = manager.plugin.unwrap();
    assert_eq!(plugin.plugin, "obfs");
    assert_eq!(plugin.plugin_opts, None);
    assert!(plugin.plugin_args.is_empty());
    assert_eq!(format!("{:?}", plugin.plugin_mode), "TcpOnly");
}

#[test]
fn flags_switch_on_and_never_off() {
    let config = applied(Config::new(ConfigType::Manager), &[
        "--tcp-no-delay", "--tcp-fast-open", "--tcp-multipath", "-6",
    ]);
    assert!(config.no_delay && config.fast_open && config.mptcp && config.ipv6_first);
    let config = applied(full(), &[]);
    assert!(config.no_delay && config.fast_open && config.mptcp && config.ipv6_first);
}

#[test]
fn plugin_modes() {
    for (text, expected) in [
        ("tcp_only", "TcpOnly"),
        ("tcp_and_udp", "TcpAndUdp"),
        ("udp_only", "UdpOnly"),
    ] {
        let args = ["--plugin", "p", "--plugin-mode", text, "--plugin-opts", "o"];
        let plugin = applied(full(), &args).manager.unwrap().plugin.unwrap();
        assert_eq!(format!("{:?}", plugin.plugin_mode), expected);
        assert_eq!(plugin.plugin_opts, Some("o".to_string()));
    }
}

#[test]
fn relayed_protocols() {
    let mode = |args: &[&str]| format!("{:?}", applied(full(), args).manager.unwrap().mode);
    assert_eq!(mode(&[]), "TcpAndUdp");
    assert_eq!(mode(&["-u"]), "UdpOnly");
    assert_eq!(mode(&["-U"]), "TcpAndUdp");
    let mut both = options(&[]);
    both.udp_only = true;
    both.tcp_and_udp = true;
    let mut setup = Setup::open(full());
    assert!(setup.apply_manager(&both).is_none());
    assert_eq!(setup.manager.unwrap().mode, RelayMode::TcpAndUdp);
}

#[test]
fn a_method_that_is_no_cipher_stops() {
    let mut options = options(&[]);
    options.encrypt_method = Some("rot13".to_string());
    assert_eq!(stopped(Setup::open(full()).apply_manager(&options)), "method: ParseCipherKindError");
    assert!(Setup::new().apply_manager(&options).is_none());
    options.plugin = Some("p".to_string());
    options.plugin_mode = Some("both".to_string());
    assert_eq!(stopped(Setup::open(full()).apply_manager(&options)), "method: ParseCipherKindError");
}

#[test]
fn a_plugin_mode_that_is_none_stops() {
    let mut options = options(&["--plugin", "p", "--plugin-mode", "TCP_ONLY"]);
    assert_eq!(
        stopped(Setup::open(full()).apply_manager(&options)),
        "plugin-mode must be one of `tcp_only` (default), `udp_only` and `tcp_and_udp`: ()"
    );
    assert!(Setup::new().apply_manager(&options).is_none());
    options.plugin = None;
    assert!(Setup::open(full()).apply_manager(&options).is_none());
}

#[test]
fn name_servers_that_are_none_stop() {
    let err = Config::new(ConfigType::Manager).set_dns_formatted("nobody").err().unwrap();
    assert_eq!(
        stopped(Setup::new().apply_limits(&options(&["--dns", "nobody"]))),
        format!("dns: {err:?}")
    );
    let mut setup = Setup::new();
    assert!(setup.apply_limits(&options(&["--dns", "tcp://1.2.3.4:5353"])).is_none());
    assert!(format!("{:?}", setup.settings.dns).contains("5353"));
}

#[test]
fn options_on_servers_need_a_manager() {
    let config = applied(Config::new(ConfigType::Manager), &["-U", "--timeout", "1"]);
    assert!(config.manager.is_none());
}
