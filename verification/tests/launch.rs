use std::path::PathBuf;

use clap::Command;
use shadowsocks_service::acl::AccessControl;
use shadowsocks_service::config::{Config, ConfigType, ManagerConfig, ServerInstanceConfig};
use shadowsocks_service::shadowsocks::config::ServerConfig;
use shadowsocks_service::shadowsocks::crypto::CipherKind;
use ssmanager::arguments::parse_options;
use ssmanager::cli::define_command_line_options;
use ssmanager::config::Stop;
use ssmanager::error::ShadowsocksError;
use ssmanager::launch::{
    create, create_from, create_with, Action, Launch, Loaded, Logging, Platform, Reply, RuntimeConfig,
    RuntimeMode, RuntimePlan, ServiceConfig,
};
use ssmanager::target::Target;

fn linux() -> Target {
    Target {
        unix: true,
        linux: true,
        android: false,
        freebsd: false,
        logging: true,
        multi_threaded: true,
    }
}

/// What the outside world answers.
struct World {
    default_config: Option<&'static str>,
    service: Option<&'static str>,
    log_config: Option<&'static str>,
    mode: RuntimeMode,
    worker_count: Option<usize>,
    config: Result<Config, &'static str>,
    nofile: Option<u64>,
    fwmark: Option<u32>,
    cookie: Option<u32>,
    directory: Option<&'static str>,
    acl: Option<&'static str>,
    user: Option<&'static str>,
}

fn world() -> World {
    World {
        default_config: None,
        service: None,
        log_config: None,
        mode: RuntimeMode::SingleThread,
        worker_count: None,
        config: Ok(managed()),
        nofile: None,
        fwmark: None,
        cookie: None,
        directory: None,
        acl: None,
        user: None,
    }
}

fn managed() -> Config {
    let mut config = Config::new(ConfigType::Manager);
    config.manager = Some(ManagerConfig::new("127.0.0.1:6100".parse().unwrap()));
    config
}

fn name(action: &Action) -> String {
    match action {
        Action::FindDefaultConfig(name) => format!("find {name}"),
        Action::PrepareService(path) => format!("service {path:?}"),
        Action::InitLogging(Logging::File(path)) => format!("log from {path:?}"),
        Action::InitLogging(Logging::Named(name)) => format!("log as {name}"),
        Action::LoadConfig(path) => format!("load {path:?}"),
        Action::AdjustNofile => "nofile".to_string(),
        Action::LoadAcl(file) => format!("acl {file}"),
        Action::Daemonize(path) => format!("daemonize {path:?}"),
        Action::SwitchUser(user) => format!("user {user}"),
        Action::Run(..) => "run".to_string(),
        Action::Fail(_) => "fail".to_string(),
        Action::Panic(_) => "panic".to_string(),
    }
}

fn answer(world: &World, action: &Action) -> Option<Reply> {
    let reply = match action {
        Action::FindDefaultConfig(_) => {
            Reply::DefaultConfig(world.default_config.map(PathBuf::from))
        }
        Action::PrepareService(_) => Reply::Service(match world.service {
            Some(err) => Err(err.to_string()),
            None => Ok(ServiceConfig {
                runtime: RuntimeConfig { mode: world.mode, worker_count: world.worker_count },
                log_config_path: world.log_config.map(PathBuf::from),
            }),
        }),
        Action::LoadConfig(_) => Reply::Config(match &world.config {
            Ok(config) => Ok(Loaded {
                config: config.clone(),
                platform: Platform {
                    nofile: world.nofile,
                    outbound_fwmark: world.fwmark,
                    outbound_user_cookie: world.cookie,
                    server_working_directory: world.directory.map(PathBuf::from),
                },
            }),
            Err(err) => Err(err.to_string()),
        }),
        Action::LoadAcl(_) => Reply::Acl(match world.acl {
            Some(err) => Err(err.to_string()),
            None => Ok(AccessControl::load_from_file("/dev/null").unwrap()),
        }),
        Action::SwitchUser(_) => Reply::User(match world.user {
            Some(err) => Err(err.to_string()),
            None => Ok(()),
        }),
        Action::InitLogging(_) | Action::AdjustNofile | Action::Daemonize(_) => Reply::Done,
        Action::Run(..) | Action::Fail(_) | Action::Panic(_) => {
            return None;
        }
    };
    Some(reply)
}

fn follow(start: (Launch, Action), world: &World) -> (Vec<String>, Action) {
    let (mut launch, mut action) = start;
    let mut names = vec![name(&action)];
    while let Some(reply) = answer(world, &action) {
        let (next, following) = launch.advance(reply);
        launch = next;
        action = following;
        names.push(name(&action));
    }
    (names, action)
}

fn launch_on(target: Target, args: &[&str], world: &World) -> (Vec<String>, Action) {
    let mut argv = vec!["ssmanager".to_string()];
    for arg in args {
        argv.push(arg.to_string());
    }
    follow(create_with(parse_options(argv, target).unwrap(), target), world)
}

fn launch(args: &[&str], world: &World) -> (Vec<String>, Action) {
    launch_on(linux(), args, world)
}

fn run(args: &[&str], world: &World) -> (RuntimePlan, Config, Platform) {
    match launch(args, world).1 {
        Action::Run(plan, config, platform) => (plan, config, platform),
        other => panic!("{}", name(&other)),
    }
}

fn failure(args: &[&str], world: &World) -> ShadowsocksError {
    match launch(args, world).1 {
        Action::Fail(err) => err,
        other => panic!("{}", name(&other)),
    }
}

#[test]
fn everything_that_can_be_asked_for_is_done_in_order() {
    let world = World { default_config: Some("/etc/manager.json"), ..world() };
    let (names, _) = launch(&["--acl", "list", "-d", "-a", "nobody"], &world);
    assert_eq!(names, vec![
        "find manager.json",
        "service Some(\"/etc/manager.json\")",
        "log as sslocal",
        "load \"/etc/manager.json\"",
        "nofile",
        "acl list",
        "daemonize None",
        "user nobody",
        "run",
    ]);
}

#[test]
fn an_address_is_enough() {
    let (names, action) = launch(&["--manager-addr", "127.0.0.1:6100"], &world());
    assert_eq!(names, vec!["service None", "log as sslocal", "nofile", "run"]);
    match action {
        Action::Run(plan, config, platform) => {
            assert_eq!(plan, RuntimePlan::CurrentThread);
            let manager = config.manager.unwrap();
            assert_eq!(manager.addr.to_string(), "127.0.0.1:6100");
            assert!(manager.method.is_none());
            assert!(config.server.is_empty());
            assert_eq!(platform.nofile, None);
            assert_eq!(platform.outbound_fwmark, None);
            assert_eq!(platform.outbound_user_cookie, None);
            assert_eq!(platform.server_working_directory, None);
        }
        _ => panic!(),
    }
}

#[test]
fn a_file_that_was_given_is_loaded() {
    let world = World { default_config: Some("/etc/manager.json"), ..world() };
    let (names, _) = launch(&["-c", "own.json"], &world);
    assert_eq!(names[0], "service Some(\"own.json\")");
    assert!(names.contains(&"load \"own.json\"".to_string()));
    let (names, _) = launch(&["-c", "own.json", "--manager-addr", "127.0.0.1:1"], &world);
    assert_eq!(names[0], "service Some(\"own.json\")");
}

#[test]
fn without_a_file_and_an_address_nothing_runs() {
    let err = failure(&[], &world());
    assert!(matches!(err, ShadowsocksError::InsufficientParams(_)));
    assert_eq!(err.message(), "missing `manager_address`, consider specifying it by --manager-address command line option, or \"manager_address\" and \"manager_port\" keys in configuration file");
    let world = World { config: Ok(Config::new(ConfigType::Manager)), ..world() };
    let err = failure(&["-c", "empty.json"], &world);
    assert!(matches!(err, ShadowsocksError::InsufficientParams(_)));
}

#[test]
fn a_file_that_cannot_be_read_is_a_failure() {
    let unreadable = World { service: Some("no such file"), ..world() };
    let err = failure(&["-c", "a \"b\".json"], &unreadable);
    assert!(matches!(err, ShadowsocksError::LoadConfigFailure(_)));
    assert_eq!(err.message(), "loading config \"a \\\"b\\\".json\", no such file");
    let broken = World { config: Err("json parse error"), ..world() };
    let err = failure(&["-c", "x.json"], &broken);
    assert!(matches!(err, ShadowsocksError::LoadConfigFailure(_)));
    assert_eq!(err.message(), "loading config \"x.json\", json parse error");
}

#[test]
fn a_list_that_cannot_be_read_is_a_failure() {
    let world = World { acl: Some("permission denied"), ..world() };
    let err = failure(&["-c", "x.json", "--acl", "list"], &world);
    assert!(matches!(err, ShadowsocksError::LoadAclFailure(_)));
    assert_eq!(err.message(), "loading ACL \"list\", permission denied");
}

#[test]
fn a_list_that_was_loaded_is_used() {
    let (_, config, _) = run(&["-c", "x.json", "--acl", "list"], &world());
    assert_eq!(config.acl.unwrap().file_path().to_str(), Some("/dev/null"));
    let (_, config, _) = run(&["-c", "x.json"], &world());
    assert!(config.acl.is_none());
}

#[test]
fn a_user_that_cannot_be_is_a_failure() {
    let world = World { user: Some("not permitted"), ..world() };
    let err = failure(&["-c", "x.json", "-a", "root"], &world);
    assert!(matches!(err, ShadowsocksError::InsufficientParams(_)));
    assert_eq!(err.message(), "failed to change as user, error: not permitted");
}

#[test]
fn a_configuration_that_does_not_hold_together_is_a_failure() {
    let mut config = managed();
    let server = ServerConfig::new(("127.0.0.1", 0), "password", CipherKind::AES_256_GCM).unwrap();
    config.server.push(ServerInstanceConfig::with_server_config(server));
    let world = World { config: Ok(config), ..world() };
    let (names, action) = launch(&["-c", "x.json", "-d", "-a", "nobody"], &world);
    assert_eq!(names.last().unwrap(), "fail");
    assert!(!names.iter().any(|n| n.starts_with("daemonize") || n.starts_with("user")));
    match action {
        Action::Fail(err) => {
            assert!(matches!(err, ShadowsocksError::LoadConfigFailure(_)));
            assert!(err.message().starts_with("config integrity check failed, "));
            assert!(err.message().contains("server_port"));
        }
        _ => panic!(),
    }
}

#[test]
fn servers_of_the_file_are_handed_on() {
    let mut config = managed();
    let server = ServerConfig::new(("127.0.0.1", 80), "password", CipherKind::AES_256_GCM).unwrap();
    config.server.push(ServerInstanceConfig::with_server_config(server));
    let world = World { config: Ok(config), ..world() };
    let (_, config, _) = run(&["-c", "x.json", "-U"], &world);
    assert_eq!(config.server.len(), 1);
    assert_eq!(config.server[0].config.addr().to_string(), "127.0.0.1:80");
}

#[test]
fn texts_that_cannot_be_read_stop_the_program() {
    match launch(&["-c", "x.json", "--dns", "nobody"], &world()).1 {
        Action::Panic(stop) => assert!(matches!(stop, Stop::Dns(_))),
        other => panic!("{}", name(&other)),
    }
    match launch(&["-c", "x.json", "--plugin", "p", "--plugin-mode", "q"], &world()).1 {
        Action::Panic(stop) => assert!(matches!(stop, Stop::PluginMode)),
        other => panic!("{}", name(&other)),
    }
}

#[test]
fn the_list_comes_before_the_name_servers() {
    let world = World { acl: Some("gone"), ..world() };
    let err = failure(&["-c", "x.json", "--acl", "l", "--dns", "nobody"], &world);
    assert!(matches!(err, ShadowsocksError::LoadAclFailure(_)));
}

#[test]
fn the_limit_on_open_files() {
    let (names, _) = launch(&["-c", "x.json"], &world());
    assert!(names.contains(&"nofile".to_string()));
    let filed = World { nofile: Some(10), ..world() };
    let (names, _) = launch(&["-c", "x.json"], &filed);
    assert!(!names.contains(&"nofile".to_string()));
    assert_eq!(run(&["-c", "x.json"], &filed).2.nofile, Some(10));
    assert_eq!(run(&["-c", "x.json", "-n", "20"], &filed).2.nofile, Some(20));
    let (names, _) = launch(&["-c", "x.json", "-n", "20"], &world());
    assert!(!names.contains(&"nofile".to_string()));
    let android = Target { android: true, linux: false, ..linux() };
    let (names, _) = launch_on(android, &["-c", "x.json"], &world());
    assert!(!names.contains(&"nofile".to_string()));
}

#[test]
fn what_only_some_targets_have() {
    let args =
        ["-c", "x.json", "--outbound-fwmark", "7", "--manager-server-working-directory", "/srv"];
    let (_, _, platform) = run(&args, &world());
    assert_eq!(platform.outbound_fwmark, Some(7));
    assert_eq!(platform.server_working_directory, Some(PathBuf::from("/srv")));
    let freebsd = Target { linux: false, freebsd: true, ..linux() };
    match launch_on(freebsd, &["-c", "x.json", "--outbound-user-cookie", "8"], &world()).1 {
        Action::Run(_, _, platform) => {
            assert_eq!(platform.outbound_user_cookie, Some(8));
            assert_eq!(platform.outbound_fwmark, None);
        }
        other => panic!("{}", name(&other)),
    }
}

#[test]
fn options_win_on_every_target() {
    let filed =
        World { fwmark: Some(1), cookie: Some(2), directory: Some("/filed"), ..world() };
    let (_, _, platform) = run(&["-c", "x.json"], &filed);
    assert_eq!(platform.outbound_fwmark, Some(1));
    assert_eq!(platform.outbound_user_cookie, Some(2));
    assert_eq!(platform.server_working_directory, Some(PathBuf::from("/filed")));
    let args =
        ["-c", "x.json", "--outbound-fwmark", "7", "--manager-server-working-directory", "/srv"];
    let (_, _, platform) = run(&args, &filed);
    assert_eq!(platform.outbound_fwmark, Some(7));
    assert_eq!(platform.outbound_user_cookie, Some(2));
    assert_eq!(platform.server_working_directory, Some(PathBuf::from("/srv")));
}

#[test]
fn the_log() {
    let world = World { log_config: Some("log.yaml"), ..world() };
    let (names, _) = launch(&["-c", "x.json"], &world);
    assert_eq!(names[1], "log from \"log.yaml\"");
    let silent = Target { logging: false, ..linux() };
    let (names, _) = launch_on(silent, &["-c", "x.json"], &world);
    assert_eq!(names[1], "load \"x.json\"");
}

#[test]
fn the_runtime() {
    let world = World { mode: RuntimeMode::MultiThread, worker_count: Some(4), ..world() };
    assert_eq!(run(&["-c", "x.json"], &world).0, RuntimePlan::MultiThread(Some(4)));
    let world = World { worker_count: None, ..world };
    assert_eq!(run(&["-c", "x.json"], &world).0, RuntimePlan::MultiThread(None));
    let world = World { mode: RuntimeMode::SingleThread, worker_count: Some(4), ..world };
    assert_eq!(run(&["-c", "x.json"], &world).0, RuntimePlan::CurrentThread);
}

#[test]
fn going_into_the_background() {
    let (names, _) = launch(&["-c", "x.json", "--daemonize-pid", "/run/pid"], &world());
    assert!(names.contains(&"daemonize Some(\"/run/pid\")".to_string()));
    let (names, _) = launch(&["-c", "x.json"], &world());
    assert!(!names.iter().any(|n| n.starts_with("daemonize")));
}

#[test]
fn an_address_takes_the_place_of_that_of_the_file() {
    let (_, config, _) = run(&["-c", "x.json", "--manager-addr", "127.0.0.2:1"], &world());
    assert_eq!(config.manager.unwrap().addr.to_string(), "127.0.0.2:1");
}

#[test]
fn a_manager_is_created_from_matches() {
    let app = define_command_line_options(Command::new("shadowsocks"), linux());
    let matches = app.get_matches_from(vec!["shadowsocks", "--manager-addr", "127.0.0.1:6100"]);
    let (names, action) = follow(create(&matches, linux()), &world());
    assert_eq!(names, vec!["service None", "log as sslocal", "nofile", "run"]);
    assert!(matches!(action, Action::Run(..)));
}

#[test]
fn a_manager_is_created_from_a_command_line() {
    let argv = |args: &[&str]| args.iter().map(|arg| arg.to_string()).collect::<Vec<String>>();
    let start = create_from(argv(&["ssmanager", "-c", "x.json", "-n", "5"]), linux()).unwrap();
    let (names, action) = follow(start, &world());
    assert_eq!(names, vec!["service Some(\"x.json\")", "log as sslocal", "load \"x.json\"", "run"]);
    assert!(matches!(action, Action::Run(..)));
    assert!(create_from(argv(&["ssmanager", "-u", "-U"]), linux()).is_none());
}
