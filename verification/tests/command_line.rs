use clap::Command;
use shadowsocks_service::config::{Config, ConfigType};
use ssmanager::arguments::{match_command, parse_options, read_options, ManagerOptions};
use ssmanager::cli::define_command_line_options;
use ssmanager::target::Target;

fn linux() -> Target {
    Target {
        unix: true,
        linux: true,
        android: false,
        freebsd: false,
        logging: true,
        multi_threaded: true,
    }
}

fn bare() -> Target {
    Target {
        unix: false,
        linux: false,
        android: false,
        freebsd: false,
        logging: false,
        multi_threaded: false,
    }
}

fn every_target() -> Vec<Target> {
    let mut targets = Vec::new();
    for n in 0..64u32 {
        targets.push(Target {
            unix: n & 1 != 0,
            linux: n & 2 != 0,
            android: n & 4 != 0,
            freebsd: n & 8 != 0,
            logging: n & 16 != 0,
            multi_threaded: n & 32 != 0,
        });
    }
    targets
}

fn parse(target: Target, args: &[&str]) -> Option<ManagerOptions> {
    let mut argv = vec!["ssmanager".to_string()];
    for arg in args {
        argv.push(arg.to_string());
    }
    parse_options(argv, target)
}

fn accept(args: &[&str]) -> ManagerOptions {
    parse(linux(), args).unwrap()
}

fn refuse(args: &[&str]) {
    assert!(parse(linux(), args).is_none(), "{:?}", args);
}

fn ids(target: Target) -> Vec<String> {
    let app = define_command_line_options(Command::new("shadowsocks"), target);
    app.get_arguments().map(|arg| arg.get_id().to_string()).collect()
}

#[test]
fn verify_manager_command() {
    let mut app = Command::new("shadowsocks")
        .version("0.1.0")
        .about("A fast tunnel proxy that helps you bypass firewalls. (https://shadowsocks.org)");
    app = define_command_line_options(app, linux());
    app.debug_assert();
}

#[test]
fn every_target_declares_a_valid_command() {
    for target in every_target() {
        let app = Command::new("shadowsocks").version("0.1.0");
        define_command_line_options(app, target).debug_assert();
    }
}

#[test]
fn every_target_can_read_its_options() {
    for target in every_target() {
        let options = parse(target, &["--manager-addr", "127.0.0.1:6100"]).unwrap();
        assert!(options.server_config);
        assert!(parse(target, &[]).is_some());
    }
}

#[test]
fn options_are_listed_in_order() {
    let expected = vec![
        "CONFIG",
        "UDP_ONLY",
        "TCP_AND_UDP",
        "OUTBOUND_BIND_ADDR",
        "OUTBOUND_BIND_INTERFACE",
        "SERVER_HOST",
        "MANAGER_ADDR",
        "ENCRYPT_METHOD",
        "TIMEOUT",
        "PLUGIN",
        "PLUGIN_MODE",
        "PLUGIN_OPT",
        "ACL",
        "DNS",
        "DNS_CACHE_SIZE",
        "TCP_NO_DELAY",
        "TCP_FAST_OPEN",
        "TCP_KEEP_ALIVE",
        "TCP_MULTIPATH",
        "UDP_TIMEOUT",
        "UDP_MAX_ASSOCIATIONS",
        "INBOUND_SEND_BUFFER_SIZE",
        "INBOUND_RECV_BUFFER_SIZE",
        "OUTBOUND_SEND_BUFFER_SIZE",
        "OUTBOUND_RECV_BUFFER_SIZE",
        "IPV6_FIRST",
    ];
    assert_eq!(ids(bare()), expected);
}

#[test]
fn options_depend_on_the_target() {
    for target in every_target() {
        let ids = ids(target);
        let has = |id: &str| ids.iter().any(|other| other == id);
        assert_eq!(has("VERBOSE"), target.logging);
        assert_eq!(has("LOG_WITHOUT_TIME"), target.logging);
        assert_eq!(has("LOG_CONFIG"), target.logging);
        assert_eq!(has("DAEMONIZE"), target.unix);
        assert_eq!(has("DAEMONIZE_PID_PATH"), target.unix);
        assert_eq!(has("MANAGER_SERVER_MODE"), target.unix);
        assert_eq!(has("MANAGER_SERVER_WORKING_DIRECTORY"), target.unix);
        assert_eq!(has("NOFILE"), target.unix && !target.android);
        assert_eq!(has("OUTBOUND_FWMARK"), target.linux || target.android);
        assert_eq!(has("OUTBOUND_USER_COOKIE"), target.freebsd);
        assert_eq!(has("SINGLE_THREADED"), target.multi_threaded);
        assert_eq!(has("WORKER_THREADS"), target.multi_threaded);
        assert_eq!(has("USER"), target.unix);
    }
}

#[test]
fn declarations_carry_names_and_help() {
    let app = define_command_line_options(Command::new("shadowsocks"), linux());
    let config = app.get_arguments().find(|arg| arg.get_id() == "CONFIG").unwrap();
    assert_eq!(config.get_short(), Some('c'));
    assert_eq!(config.get_long(), Some("config"));
    assert_eq!(config.get_help().unwrap().to_string(), "Shadowsocks configuration file (https://shadowsocks.org/doc/configs.html), the only required fields are \"manager_address\" and \"manager_port\". Servers defined will be created when process is started.");
    let no_delay = app.get_arguments().find(|arg| arg.get_id() == "TCP_NO_DELAY").unwrap();
    assert_eq!(no_delay.get_all_aliases(), Some(vec!["no-delay"]));
    let plugin = app.get_arguments().find(|arg| arg.get_id() == "PLUGIN").unwrap();
    assert_eq!(format!("{:?}", plugin.get_value_hint()), "CommandName");
    let group = app.get_groups().find(|group| group.get_id() == "SERVER_CONFIG").unwrap();
    let members: Vec<String> = group.get_args().map(|id| id.to_string()).collect();
    assert_eq!(members, vec!["MANAGER_ADDR"]);
}

#[test]
fn nothing_given() {
    let options = accept(&[]);
    assert!(!options.server_config);
    assert!(!options.daemonize_pid);
    assert!(options.config.is_none());
    assert!(!options.udp_only);
    assert!(!options.tcp_and_udp);
    assert!(options.outbound_bind_addr.is_none());
    assert!(options.outbound_bind_interface.is_none());
    assert!(options.server_host.is_none());
    assert!(options.manager_addr.is_none());
    assert!(options.encrypt_method.is_none());
    assert!(options.timeout.is_none());
    assert!(options.plugin.is_none());
    assert!(options.plugin_mode.is_none());
    assert!(options.plugin_opts.is_none());
    assert!(options.acl.is_none());
    assert!(options.dns.is_none());
    assert!(options.dns_cache_size.is_none());
    assert!(!options.tcp_no_delay);
    assert!(!options.tcp_fast_open);
    assert!(options.tcp_keep_alive.is_none());
    assert!(!options.tcp_multipath);
    assert!(options.udp_timeout.is_none());
    assert!(options.udp_max_associations.is_none());
    assert!(options.inbound_send_buffer_size.is_none());
    assert!(options.inbound_recv_buffer_size.is_none());
    assert!(options.outbound_send_buffer_size.is_none());
    assert!(options.outbound_recv_buffer_size.is_none());
    assert!(!options.ipv6_first);
    assert!(!options.daemonize);
    assert!(options.daemonize_pid_path.is_none());
    assert!(options.manager_server_mode.is_none());
    assert!(options.manager_server_working_directory.is_none());
    assert!(options.nofile.is_none());
    assert!(options.outbound_fwmark.is_none());
    assert!(options.outbound_user_cookie.is_none());
    assert!(options.user.is_none());
}

#[test]
fn everything_given() {
    let options = accept(&[
        "-c", "/etc/manager.json", "-u", "-b", "10.0.0.1", "--outbound-bind-interface", "eth0",
        "-s", "example.com", "--manager-addr", "127.0.0.1:6100", "-m", "aes-256-gcm", "--timeout",
        "300", "--plugin", "v2ray-plugin", "--plugin-mode", "udp_only", "--plugin-opts", "server",
        "--acl", "/etc/acl", "--dns", "8.8.8.8", "--dns-cache-size", "77", "--tcp-no-delay",
        "--tcp-fast-open", "--tcp-keep-alive", "15", "--tcp-multipath", "--udp-timeout", "60",
        "--udp-max-associations", "512", "--inbound-send-buffer-size", "1",
        "--inbound-recv-buffer-size", "2", "--outbound-send-buffer-size", "3",
        "--outbound-recv-buffer-size", "4", "-6", "-d", "--daemonize-pid", "/run/pid",
        "--manager-server-mode", "standalone", "--manager-server-working-directory", "/srv", "-n",
        "1024", "--outbound-fwmark", "5", "-a", "nobody",
    ]);
    assert!(options.server_config);
    assert!(options.daemonize_pid);
    assert_eq!(options.config.unwrap().to_str(), Some("/etc/manager.json"));
    assert!(options.udp_only);
    assert!(!options.tcp_and_udp);
    assert_eq!(format!("{:?}", options.outbound_bind_addr.unwrap().into_host()), "Ip(10.0.0.1)");
    assert_eq!(options.outbound_bind_interface.unwrap(), "eth0");
    assert_eq!(format!("{:?}", options.server_host.unwrap()), "Domain(\"example.com\")");
    assert_eq!(options.manager_addr.unwrap().to_string(), "127.0.0.1:6100");
    assert_eq!(options.encrypt_method.unwrap(), "aes-256-gcm");
    assert_eq!(options.timeout, Some(300));
    assert_eq!(options.plugin.unwrap(), "v2ray-plugin");
    assert_eq!(options.plugin_mode.unwrap(), "udp_only");
    assert_eq!(options.plugin_opts.unwrap(), "server");
    assert_eq!(options.acl.unwrap(), "/etc/acl");
    assert_eq!(options.dns.unwrap(), "8.8.8.8");
    assert_eq!(options.dns_cache_size, Some(77));
    assert!(options.tcp_no_delay);
    assert!(options.tcp_fast_open);
    assert_eq!(options.tcp_keep_alive, Some(15));
    assert!(options.tcp_multipath);
    assert_eq!(options.udp_timeout, Some(60));
    assert_eq!(options.udp_max_associations, Some(512));
    assert_eq!(options.inbound_send_buffer_size, Some(1));
    assert_eq!(options.inbound_recv_buffer_size, Some(2));
    assert_eq!(options.outbound_send_buffer_size, Some(3));
    assert_eq!(options.outbound_recv_buffer_size, Some(4));
    assert!(options.ipv6_first);
    assert!(options.daemonize);
    assert_eq!(options.daemonize_pid_path.unwrap().to_str(), Some("/run/pid"));
    assert_eq!(options.manager_server_mode.unwrap().to_string(), "standalone");
    assert_eq!(options.manager_server_working_directory.unwrap().to_str(), Some("/srv"));
    assert_eq!(options.nofile, Some(1024));
    assert_eq!(options.outbound_fwmark, Some(5));
    assert!(options.outbound_user_cookie.is_none());
    assert_eq!(options.user.unwrap(), "nobody");
}

#[test]
fn options_answer_to_their_aliases() {
    let options = accept(&[
        "--bind-addr", "::1", "--manager-address", "localhost:1", "--no-delay", "--fast-open",
        "--mptcp", "-U",
    ]);
    assert_eq!(format!("{:?}", options.outbound_bind_addr.unwrap().into_host()), "Ip(::1)");
    assert_eq!(options.manager_addr.unwrap().to_string(), "localhost:1");
    assert!(options.tcp_no_delay);
    assert!(options.tcp_fast_open);
    assert!(options.tcp_multipath);
    assert!(options.tcp_and_udp);
    assert!(!options.udp_only);
}

#[test]
fn udp_only_excludes_tcp_and_udp() {
    refuse(&["-u", "-U"]);
    refuse(&["-U", "-u"]);
}

#[test]
fn plugin_options_need_a_plugin() {
    refuse(&["--plugin-mode", "tcp_only"]);
    refuse(&["--plugin-opts", "x"]);
    accept(&["--plugin", "p", "--plugin-mode", "tcp_only", "--plugin-opts", "x"]);
    accept(&["--plugin", "p"]);
}

#[test]
fn the_method_is_a_cipher() {
    accept(&["-m", "none"]);
    accept(&["-m", "2022-blake3-aes-256-gcm"]);
    refuse(&["-m", "rot13"]);
    refuse(&["-m", "AES-256-GCM"]);
}

#[test]
fn values_of_the_wrong_type_are_refused() {
    refuse(&["--timeout", "soon"]);
    refuse(&["--timeout", "-1"]);
    refuse(&["--dns-cache-size", "x"]);
    refuse(&["--inbound-send-buffer-size", "4294967296"]);
    refuse(&["-b", "localhost"]);
    refuse(&["--manager-addr", "localhost:port"]);
    refuse(&["--manager-server-mode", "neither"]);
    refuse(&["--timeout"]);
    refuse(&["--timeout", "1", "--timeout", "2"]);
    refuse(&["--no-such-option"]);
    refuse(&["stray"]);
}

#[test]
fn the_address_configures_the_manager() {
    assert!(accept(&["--manager-addr", "/run/manager.sock"]).server_config);
    assert!(!accept(&["-c", "manager.json"]).server_config);
    assert!(accept(&["-c", "manager.json", "--manager-addr", "127.0.0.1:1"]).server_config);
}

#[test]
fn a_place_for_the_process_id_is_noted() {
    let options = accept(&["--daemonize-pid", "/run/pid"]);
    assert!(options.daemonize_pid);
    assert!(!options.daemonize);
}

#[test]
fn options_of_other_targets_are_refused() {
    assert!(parse(bare(), &["-a", "nobody"]).is_none());
    assert!(parse(bare(), &["-d"]).is_none());
    assert!(parse(bare(), &["-n", "1"]).is_none());
    assert!(parse(bare(), &["--outbound-fwmark", "1"]).is_none());
    let freebsd = Target { unix: true, freebsd: true, ..bare() };
    let options = parse(freebsd, &["--outbound-user-cookie", "9"]).unwrap();
    assert_eq!(options.outbound_user_cookie, Some(9));
    let android = Target { unix: true, android: true, ..bare() };
    assert!(parse(android, &["-n", "1"]).is_none());
    let options = parse(android, &["--outbound-fwmark", "1"]).unwrap();
    assert_eq!(options.outbound_fwmark, Some(1));
}

#[test]
fn matches_are_read_as_command_lines_are() {
    let app = define_command_line_options(Command::new("shadowsocks"), linux());
    let matches = app.get_matches_from(vec!["shadowsocks", "--timeout", "7", "-6"]);
    let options = read_options(&matches, linux());
    assert_eq!(options.timeout, Some(7));
    assert!(options.ipv6_first);
    assert!(!options.server_config);
}

#[test]
fn aliases_are_other_spellings() {
    let pairs = [
        ("--manager-addr", "--manager-address", Some("127.0.0.1:6100")),
        ("--outbound-bind-addr", "--bind-addr", Some("10.0.0.1")),
        ("--tcp-no-delay", "--no-delay", None),
        ("--tcp-fast-open", "--fast-open", None),
        ("--tcp-multipath", "--mptcp", None),
    ];
    let shown = |options: ManagerOptions| {
        (
            format!("{:?}", options.manager_addr),
            options.outbound_bind_addr.map(|addr| format!("{:?}", addr.into_host())),
            [options.server_config, options.tcp_no_delay, options.tcp_fast_open],
            options.tcp_multipath,
        )
    };
    for (long, alias, value) in pairs {
        let line = |name: &str| match value {
            Some(value) => vec![name.to_string(), value.to_string()],
            None => vec![name.to_string()],
        };
        let attached = |name: &str| vec![format!("{name}={}", value.unwrap_or("x"))];
        let trailing = |name: &str| vec!["--plugin".to_string(), name.to_string()];
        for make in [&line as &dyn Fn(&str) -> Vec<String>, &attached, &trailing] {
            let one = make(long);
            let other = make(alias);
            let one: Vec<&str> = one.iter().map(|arg| arg.as_str()).collect();
            let other: Vec<&str> = other.iter().map(|arg| arg.as_str()).collect();
            let one = parse(linux(), &one).map(shown);
            let other = parse(linux(), &other).map(shown);
            assert_eq!(one, other);
        }
        assert!(parse(linux(), &line(alias).iter().map(|arg| arg.as_str()).collect::<Vec<&str>>())
            .is_some());
    }
}

#[test]
fn aliases_are_hidden() {
    let app = define_command_line_options(Command::new("shadowsocks"), linux());
    for arg in app.get_arguments() {
        assert!(arg.get_visible_aliases().unwrap_or_default().is_empty());
    }
}

#[test]
fn nothing_else_of_a_command_changes() {
    let app = Command::new("shadowsocks")
        .version("1.2.3")
        .about("about")
        .arg(clap::Arg::new("OWN").long("own").required(true).default_value("x"))
        .arg(clap::Arg::new("PLACE").index(1))
        .group(clap::ArgGroup::new("OWNS").arg("OWN").multiple(true).required(true))
        .subcommand(Command::new("sub"))
        .next_display_order(100);
    let app = define_command_line_options(app, bare());
    assert_eq!(app.get_name(), "shadowsocks");
    assert_eq!(app.get_version(), Some("1.2.3"));
    assert_eq!(app.get_about().unwrap().to_string(), "about");
    assert_eq!(app.get_subcommands().count(), 1);
    let own = app.get_arguments().next().unwrap();
    assert_eq!(own.get_id(), "OWN");
    assert!(own.is_required_set());
    assert_eq!(own.get_default_values(), ["x"]);
    assert_eq!(app.get_arguments().nth(1).unwrap().get_index(), Some(1));
    assert_eq!(app.get_arguments().count(), 28);
    let mut group = app.get_groups().next().unwrap().clone();
    assert!(group.is_required_set());
    assert!(group.is_multiple());
    let groups: Vec<String> = app.get_groups().map(|group| group.get_id().to_string()).collect();
    assert_eq!(groups, vec!["OWNS", "SERVER_CONFIG"]);
}

#[test]
fn places_in_the_help_may_be_used_up_to_the_last() {
    let app = Command::new("shadowsocks").next_display_order(usize::MAX - 26);
    assert_eq!(define_command_line_options(app, bare()).get_arguments().count(), 26);
}

#[test]
fn an_outbound_address_is_stored_as_an_ip_address() {
    let app = define_command_line_options(Command::new("shadowsocks"), linux());
    let matches = app.get_matches_from(vec!["shadowsocks", "-b", "10.0.0.1"]);
    let mut config = Config::new(ConfigType::Manager);
    config.outbound_bind_addr = matches.get_one("OUTBOUND_BIND_ADDR").copied();
    assert_eq!(config.outbound_bind_addr.unwrap().to_string(), "10.0.0.1");
}

#[test]
fn commands_with_options_of_their_own() {
    let app = || {
        Command::new("shadowsocks")
            .version("0.1.0")
            .about("about")
            .arg(clap::Arg::new("OWN").long("own").action(clap::ArgAction::SetTrue))
    };
    let line = |args: &[&str]| {
        let mut argv = vec!["shadowsocks".to_string()];
        argv.extend(args.iter().map(|arg| arg.to_string()));
        match_command(app(), argv, linux())
    };
    for (one, other) in [("--tcp-no-delay", "--no-delay"), ("--tcp-multipath", "--mptcp")] {
        let one = read_options(&line(&["--own", one]).unwrap(), linux());
        let other = read_options(&line(&["--own", other]).unwrap(), linux());
        assert_eq!(one.tcp_no_delay, other.tcp_no_delay);
        assert_eq!(one.tcp_multipath, other.tcp_multipath);
        assert!(one.tcp_no_delay || one.tcp_multipath);
    }
    assert!(line(&["--own"]).unwrap().get_flag("OWN"));
    assert!(line(&["--own", "-u", "-U"]).is_none());
    assert!(line(&["--version"]).is_none());
    assert!(line(&["--help"]).is_none());
    let options = read_options(&line(&["--manager-address", "127.0.0.1:1"]).unwrap(), linux());
    assert!(options.server_config);
}
