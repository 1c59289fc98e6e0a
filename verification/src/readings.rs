//! What is read from a command line, option by option, and what a value of the library says.

use std::path::PathBuf;

use clap::{Arg, ArgGroup, Command};
use shadowsocks_service::config::{Config, ManagerServerHost, ManagerServerMode};
use shadowsocks_service::shadowsocks::config::ManagerAddr;
use vstd::prelude::*;

use crate::arguments::{options_in, ArgValue, ManagerOptions, OptionsView};
use crate::cli::{
    args_of, declaration, declared_groups, declared_options, group_declaration, groups_of,
    starts_with,
};
use crate::config::{
    bind_addr_of, manager_of, manager_view, opt_manager, opt_stop, rest_of, service_view,
    settings_of, span, ManagerSetup, Plugin, Settings, Setup, Stop, StopView,
};
use crate::course::told_alike;
use crate::error::{ErrorView, ShadowsocksError};
use crate::launch::{
    started, Action, ActionView, Given, Launch, Logging, LoggingView, Reply, ReplyView, Turn,
};
use crate::target::Target;

verus! {

/// A value is read from the option of its name, as it is held there, on every target; an option
/// that holds none is not given.
pub proof fn law_every_value_is_read_from_its_option(values: Map<Seq<char>, ArgValue>, target: Target)
    ensures
        forall|p: PathBuf| #[trigger]
            values.contains_pair("CONFIG"@, ArgValue::Path(p)) ==> options_in(values, target).config
                == Some(p),
        !values.contains_key("CONFIG"@) ==> options_in(values, target).config is None,
        forall|h: ManagerServerHost| #[trigger]
            values.contains_pair("OUTBOUND_BIND_ADDR"@, ArgValue::IpAddr(h)) ==> options_in(values, target).outbound_bind_addr
                == Some(h),
        !values.contains_key("OUTBOUND_BIND_ADDR"@) ==> options_in(values, target).outbound_bind_addr is None,
        forall|t: Seq<char>| #[trigger]
            values.contains_pair("OUTBOUND_BIND_INTERFACE"@, ArgValue::Text(t)) ==> options_in(values, target).outbound_bind_interface
                == Some(t),
        !values.contains_key("OUTBOUND_BIND_INTERFACE"@) ==> options_in(values, target).outbound_bind_interface is None,
        forall|h: ManagerServerHost| #[trigger]
            values.contains_pair("SERVER_HOST"@, ArgValue::ServerHost(h)) ==> options_in(values, target).server_host
                == Some(h),
        !values.contains_key("SERVER_HOST"@) ==> options_in(values, target).server_host is None,
        forall|a: ManagerAddr| #[trigger]
            values.contains_pair("MANAGER_ADDR"@, ArgValue::ManagerAddr(a)) ==> options_in(values, target).manager_addr
                == Some(a),
        !values.contains_key("MANAGER_ADDR"@) ==> options_in(values, target).manager_addr is None,
        forall|t: Seq<char>| #[trigger]
            values.contains_pair("ENCRYPT_METHOD"@, ArgValue::Text(t)) ==> options_in(values, target).encrypt_method
                == Some(t),
        !values.contains_key("ENCRYPT_METHOD"@) ==> options_in(values, target).encrypt_method is None,
        forall|n: u64| #[trigger]
            values.contains_pair("TIMEOUT"@, ArgValue::U64(n)) ==> options_in(values, target).timeout
                == Some(n),
        !values.contains_key("TIMEOUT"@) ==> options_in(values, target).timeout is None,
        forall|t: Seq<char>| #[trigger]
            values.contains_pair("PLUGIN"@, ArgValue::Text(t)) ==> options_in(values, target).plugin
                == Some(t),
        !values.contains_key("PLUGIN"@) ==> options_in(values, target).plugin is None,
        forall|t: Seq<char>| #[trigger]
            values.contains_pair("PLUGIN_MODE"@, ArgValue::Text(t)) ==> options_in(values, target).plugin_mode
                == Some(t),
        !values.contains_key("PLUGIN_MODE"@) ==> options_in(values, target).plugin_mode is None,
        forall|t: Seq<char>| #[trigger]
            values.contains_pair("PLUGIN_OPT"@, ArgValue::Text(t)) ==> options_in(values, target).plugin_opts
                == Some(t),
        !values.contains_key("PLUGIN_OPT"@) ==> options_in(values, target).plugin_opts is None,
        forall|t: Seq<char>| #[trigger]
            values.contains_pair("ACL"@, ArgValue::Text(t)) ==> options_in(values, target).acl
                == Some(t),
        !values.contains_key("ACL"@) ==> options_in(values, target).acl is None,
        forall|t: Seq<char>| #[trigger]
            values.contains_pair("DNS"@, ArgValue::Text(t)) ==> options_in(values, target).dns
                == Some(t),
        !values.contains_key("DNS"@) ==> options_in(values, target).dns is None,
        forall|n: usize| #[trigger]
            values.contains_pair("DNS_CACHE_SIZE"@, ArgValue::Usize(n)) ==> options_in(values, target).dns_cache_size
                == Some(n),
        !values.contains_key("DNS_CACHE_SIZE"@) ==> options_in(values, target).dns_cache_size is None,
        forall|n: u64| #[trigger]
            values.contains_pair("TCP_KEEP_ALIVE"@, ArgValue::U64(n)) ==> options_in(values, target).tcp_keep_alive
                == Some(n),
        !values.contains_key("TCP_KEEP_ALIVE"@) ==> options_in(values, target).tcp_keep_alive is None,
        forall|n: u64| #[trigger]
            values.contains_pair("UDP_TIMEOUT"@, ArgValue::U64(n)) ==> options_in(values, target).udp_timeout
                == Some(n),
        !values.contains_key("UDP_TIMEOUT"@) ==> options_in(values, target).udp_timeout is None,
        forall|n: usize| #[trigger]
            values.contains_pair("UDP_MAX_ASSOCIATIONS"@, ArgValue::Usize(n)) ==> options_in(values, target).udp_max_associations
                == Some(n),
        !values.contains_key("UDP_MAX_ASSOCIATIONS"@) ==> options_in(values, target).udp_max_associations is None,
        forall|n: u32| #[trigger]
            values.contains_pair("INBOUND_SEND_BUFFER_SIZE"@, ArgValue::U32(n)) ==> options_in(values, target).inbound_send_buffer_size
                == Some(n),
        !values.contains_key("INBOUND_SEND_BUFFER_SIZE"@) ==> options_in(values, target).inbound_send_buffer_size is None,
        forall|n: u32| #[trigger]
            values.contains_pair("INBOUND_RECV_BUFFER_SIZE"@, ArgValue::U32(n)) ==> options_in(values, target).inbound_recv_buffer_size
                == Some(n),
        !values.contains_key("INBOUND_RECV_BUFFER_SIZE"@) ==> options_in(values, target).inbound_recv_buffer_size is None,
        forall|n: u32| #[trigger]
            values.contains_pair("OUTBOUND_SEND_BUFFER_SIZE"@, ArgValue::U32(n)) ==> options_in(values, target).outbound_send_buffer_size
                == Some(n),
        !values.contains_key("OUTBOUND_SEND_BUFFER_SIZE"@) ==> options_in(values, target).outbound_send_buffer_size is None,
        forall|n: u32| #[trigger]
            values.contains_pair("OUTBOUND_RECV_BUFFER_SIZE"@, ArgValue::U32(n)) ==> options_in(values, target).outbound_recv_buffer_size
                == Some(n),
        !values.contains_key("OUTBOUND_RECV_BUFFER_SIZE"@) ==> options_in(values, target).outbound_recv_buffer_size is None,
{
}

/// A flag is read from the option of its name.
pub proof fn law_every_flag_is_read_from_its_option(values: Map<Seq<char>, ArgValue>, target: Target)
    ensures
        options_in(values, target).udp_only <==> values.contains_pair(
            "UDP_ONLY"@,
            ArgValue::Flag(true),
        ),
        options_in(values, target).tcp_and_udp <==> values.contains_pair(
            "TCP_AND_UDP"@,
            ArgValue::Flag(true),
        ),
        options_in(values, target).tcp_no_delay <==> values.contains_pair(
            "TCP_NO_DELAY"@,
            ArgValue::Flag(true),
        ),
        options_in(values, target).tcp_fast_open <==> values.contains_pair(
            "TCP_FAST_OPEN"@,
            ArgValue::Flag(true),
        ),
        options_in(values, target).tcp_multipath <==> values.contains_pair(
            "TCP_MULTIPATH"@,
            ArgValue::Flag(true),
        ),
        options_in(values, target).ipv6_first <==> values.contains_pair(
            "IPV6_FIRST"@,
            ArgValue::Flag(true),
        ),
        options_in(values, target).daemonize <==> target.unix && values.contains_pair(
            "DAEMONIZE"@,
            ArgValue::Flag(true),
        ),
{
}

/// A value of an option that only some targets have is read on these, and on no other.
pub proof fn law_every_target_reads_its_own_options(values: Map<Seq<char>, ArgValue>, target: Target)
    ensures
        forall|p: PathBuf| target.unix && #[trigger]
            values.contains_pair("DAEMONIZE_PID_PATH"@, ArgValue::Path(p)) ==> options_in(values, target).daemonize_pid_path
                == Some(p),
        !(target.unix) || !values.contains_key("DAEMONIZE_PID_PATH"@) ==> options_in(values, target).daemonize_pid_path is None,
        forall|m: ManagerServerMode| target.unix && #[trigger]
            values.contains_pair("MANAGER_SERVER_MODE"@, ArgValue::ServerMode(m)) ==> options_in(values, target).manager_server_mode
                == Some(m),
        !(target.unix) || !values.contains_key("MANAGER_SERVER_MODE"@) ==> options_in(values, target).manager_server_mode is None,
        forall|p: PathBuf| target.unix && #[trigger]
            values.contains_pair("MANAGER_SERVER_WORKING_DIRECTORY"@, ArgValue::Path(p)) ==> options_in(values, target).manager_server_working_directory
                == Some(p),
        !(target.unix) || !values.contains_key("MANAGER_SERVER_WORKING_DIRECTORY"@) ==> options_in(values, target).manager_server_working_directory is None,
        forall|n: u64| target.unix && !target.android && #[trigger]
            values.contains_pair("NOFILE"@, ArgValue::U64(n)) ==> options_in(values, target).nofile
                == Some(n),
        !(target.unix && !target.android) || !values.contains_key("NOFILE"@) ==> options_in(values, target).nofile is None,
        forall|n: u32| (target.linux || target.android) && #[trigger]
            values.contains_pair("OUTBOUND_FWMARK"@, ArgValue::U32(n)) ==> options_in(values, target).outbound_fwmark
                == Some(n),
        !((target.linux || target.android)) || !values.contains_key("OUTBOUND_FWMARK"@) ==> options_in(values, target).outbound_fwmark is None,
        forall|n: u32| target.freebsd && #[trigger]
            values.contains_pair("OUTBOUND_USER_COOKIE"@, ArgValue::U32(n)) ==> options_in(values, target).outbound_user_cookie
                == Some(n),
        !(target.freebsd) || !values.contains_key("OUTBOUND_USER_COOKIE"@) ==> options_in(values, target).outbound_user_cookie is None,
        forall|t: Seq<char>| target.unix && #[trigger]
            values.contains_pair("USER"@, ArgValue::Text(t)) ==> options_in(values, target).user
                == Some(t),
        !(target.unix) || !values.contains_key("USER"@) ==> options_in(values, target).user is None,
{
}

/// That the manager is configured by the command line alone is read from its group, and that
/// there is a place for the process id from the option that holds it.
pub proof fn law_presence_is_read_as_such(values: Map<Seq<char>, ArgValue>, target: Target)
    ensures
        options_in(values, target).server_config <==> values.contains_key("SERVER_CONFIG"@),
        told_alike(options_in(values, target)),
        options_in(values, target).daemonize_pid <==> options_in(values, target).daemonize_pid_path
            is Some,
        options_in(values, target).daemonize_pid <==> target.unix && values.contains_key(
            "DAEMONIZE_PID_PATH"@,
        ),
{
}

/// What is said of options is what they hold.
pub proof fn law_options_say_what_they_hold(options: ManagerOptions)
    ensures
        options@.server_config == options.server_config,
        options@.daemonize_pid == options.daemonize_pid,
        options@.config == options.config,
        options@.udp_only == options.udp_only,
        options@.tcp_and_udp == options.tcp_and_udp,
        options.outbound_bind_addr matches Some(addr) ==> options@.outbound_bind_addr == Some(
            addr.host(),
        ),
        options.outbound_bind_addr is None ==> options@.outbound_bind_addr is None,
        options.outbound_bind_interface matches Some(text) ==> options@.outbound_bind_interface == Some(text@),
        options.outbound_bind_interface is None ==> options@.outbound_bind_interface is None,
        options@.server_host == options.server_host,
        options@.manager_addr == options.manager_addr,
        options.encrypt_method matches Some(text) ==> options@.encrypt_method == Some(text@),
        options.encrypt_method is None ==> options@.encrypt_method is None,
        options@.timeout == options.timeout,
        options.plugin matches Some(text) ==> options@.plugin == Some(text@),
        options.plugin is None ==> options@.plugin is None,
        options.plugin_mode matches Some(text) ==> options@.plugin_mode == Some(text@),
        options.plugin_mode is None ==> options@.plugin_mode is None,
        options.plugin_opts matches Some(text) ==> options@.plugin_opts == Some(text@),
        options.plugin_opts is None ==> options@.plugin_opts is None,
        options.acl matches Some(text) ==> options@.acl == Some(text@),
        options.acl is None ==> options@.acl is None,
        options.dns matches Some(text) ==> options@.dns == Some(text@),
        options.dns is None ==> options@.dns is None,
        options@.dns_cache_size == options.dns_cache_size,
        options@.tcp_no_delay == options.tcp_no_delay,
        options@.tcp_fast_open == options.tcp_fast_open,
        options@.tcp_keep_alive == options.tcp_keep_alive,
        options@.tcp_multipath == options.tcp_multipath,
        options@.udp_timeout == options.udp_timeout,
        options@.udp_max_associations == options.udp_max_associations,
        options@.inbound_send_buffer_size == options.inbound_send_buffer_size,
        options@.inbound_recv_buffer_size == options.inbound_recv_buffer_size,
        options@.outbound_send_buffer_size == options.outbound_send_buffer_size,
        options@.outbound_recv_buffer_size == options.outbound_recv_buffer_size,
        options@.ipv6_first == options.ipv6_first,
        options@.daemonize == options.daemonize,
        options@.daemonize_pid_path == options.daemonize_pid_path,
        options@.manager_server_mode == options.manager_server_mode,
        options@.manager_server_working_directory == options.manager_server_working_directory,
        options@.nofile == options.nofile,
        options@.outbound_fwmark == options.outbound_fwmark,
        options@.outbound_user_cookie == options.outbound_user_cookie,
        options.user matches Some(text) ==> options@.user == Some(text@),
        options.user is None ==> options@.user is None,
{
}

/// What is said of settings is what they hold.
pub proof fn law_settings_say_what_they_hold(settings: Settings)
    ensures
        settings@.no_delay == settings.no_delay,
        settings@.fast_open == settings.fast_open,
        settings.keep_alive matches Some(time) ==> settings@.keep_alive == Some(span(time)),
        settings.keep_alive is None ==> settings@.keep_alive is None,
        settings@.mptcp == settings.mptcp,
        settings.outbound_bind_interface matches Some(text) ==> settings@.outbound_bind_interface == Some(text@),
        settings.outbound_bind_interface is None ==> settings@.outbound_bind_interface is None,
        settings@.acl == settings.acl,
        settings@.dns == settings.dns,
        settings@.dns_cache_size == settings.dns_cache_size,
        settings@.ipv6_first == settings.ipv6_first,
        settings.udp_timeout matches Some(time) ==> settings@.udp_timeout == Some(span(time)),
        settings.udp_timeout is None ==> settings@.udp_timeout is None,
        settings@.udp_max_associations == settings.udp_max_associations,
        settings@.inbound_send_buffer_size == settings.inbound_send_buffer_size,
        settings@.inbound_recv_buffer_size == settings.inbound_recv_buffer_size,
        settings@.outbound_send_buffer_size == settings.outbound_send_buffer_size,
        settings@.outbound_recv_buffer_size == settings.outbound_recv_buffer_size,
{
}

/// What is said of a configuration and of its manager's part is what they hold.
pub proof fn law_setups_say_what_they_hold(setup: Setup, manager: ManagerSetup, plugin: Plugin)
    ensures
        setup@.settings == setup.settings@,
        setup.outbound_bind_addr matches Some(addr) ==> setup@.outbound_bind_addr == Some(
            addr.host(),
        ),
        setup.outbound_bind_addr is None ==> setup@.outbound_bind_addr is None,
        setup.manager matches Some(part) ==> setup@.manager == Some(part@),
        setup.manager is None ==> setup@.manager is None,
        setup@.rest == rest_of(setup.rest),
        manager@.addr == manager.addr,
        manager@.method == manager.method,
        manager.plugin matches Some(p) ==> manager@.plugin == Some(p@),
        manager.plugin is None ==> manager@.plugin is None,
        manager.timeout matches Some(time) ==> manager@.timeout == Some(span(time)),
        manager.timeout is None ==> manager@.timeout is None,
        manager@.server_host == manager.server_host,
        manager@.mode == manager.mode,
        manager@.server_mode == manager.server_mode,
        manager@.rest == manager_view(manager.rest).rest,
        plugin@.plugin == plugin.plugin@,
        plugin.plugin_opts matches Some(text) ==> plugin@.plugin_opts == Some(text@),
        plugin.plugin_opts is None ==> plugin@.plugin_opts is None,
        plugin@.plugin_args.len() == plugin.plugin_args@.len(),
        forall|i: int|
            0 <= i < plugin.plugin_args@.len() ==> #[trigger] plugin@.plugin_args[i]
                == plugin.plugin_args@[i]@,
        plugin@.plugin_mode == plugin.plugin_mode,
{
}

/// What is said of a configuration of the service is what it holds.
pub proof fn law_service_configurations_say_what_they_hold(config: Config)
    ensures
        service_view(config).settings == settings_of(config),
        service_view(config).outbound_bind_addr == bind_addr_of(config),
        manager_of(config) matches Some(part) ==> service_view(config).manager == Some(
            manager_view(part),
        ),
        manager_of(config) is None ==> service_view(config).manager is None,
        service_view(config).rest == rest_of(config),
{
}

/// What is said of an action is what it holds.
pub proof fn law_actions_say_what_they_hold(action: Action)
    ensures
        match action {
            Action::FindDefaultConfig(name) => action@ == ActionView::FindDefaultConfig(name@),
            Action::PrepareService(path) => action@ == ActionView::PrepareService(path),
            Action::InitLogging(Logging::File(path)) => action@ == ActionView::InitLogging(
                LoggingView::File(path),
            ),
            Action::InitLogging(Logging::Named(name)) => action@ == ActionView::InitLogging(
                LoggingView::Named(name@),
            ),
            Action::LoadConfig(path) => action@ == ActionView::LoadConfig(path),
            Action::AdjustNofile => action@ == ActionView::AdjustNofile,
            Action::LoadAcl(file) => action@ == ActionView::LoadAcl(file@),
            Action::Daemonize(path) => action@ == ActionView::Daemonize(path),
            Action::SwitchUser(user) => action@ == ActionView::SwitchUser(user@),
            Action::Run(plan, config, platform) => action@ == ActionView::Run(
                plan,
                service_view(config),
                platform,
            ),
            Action::Fail(err) => action@ == ActionView::Fail(err@),
            Action::Panic(stop) => action@ == ActionView::Panic(stop@),
        },
{
}

/// What is said of a reply is what it holds.
pub proof fn law_replies_say_what_they_hold(reply: Reply)
    ensures
        match reply {
            Reply::DefaultConfig(path) => reply@ == ReplyView::DefaultConfig(path),
            Reply::Service(Ok(service)) => reply@ == ReplyView::Service(Ok(service)),
            Reply::Service(Err(err)) => reply@ == ReplyView::Service(Err(err@)),
            Reply::Config(Ok(file)) => reply@ matches ReplyView::Config(Ok(view)) && view.setup
                == service_view(file.config) && view.platform == file.platform,
            Reply::Config(Err(err)) => reply@ == ReplyView::Config(Err(err@)),
            Reply::Acl(Ok(acl)) => reply@ == ReplyView::Acl(Ok(acl)),
            Reply::Acl(Err(err)) => reply@ == ReplyView::Acl(Err(err@)),
            Reply::User(Ok(_)) => reply@ == ReplyView::User(Ok(())),
            Reply::User(Err(err)) => reply@ == ReplyView::User(Err(err@)),
            Reply::Done => reply@ == ReplyView::Done,
        },
{
}

/// What is said of an error and of a stop is what they hold.
pub proof fn law_errors_say_what_they_hold(err: ShadowsocksError, stop: Stop)
    ensures
        match err {
            ShadowsocksError::ServerExitUnexpectedly(text) => err@
                == ErrorView::ServerExitUnexpectedly(text@),
            ShadowsocksError::ServerAborted(text) => err@ == ErrorView::ServerAborted(text@),
            ShadowsocksError::LoadConfigFailure(text) => err@ == ErrorView::LoadConfigFailure(
                text@,
            ),
            ShadowsocksError::LoadAclFailure(text) => err@ == ErrorView::LoadAclFailure(text@),
            ShadowsocksError::InsufficientParams(text) => err@ == ErrorView::InsufficientParams(
                text@,
            ),
        },
        match stop {
            Stop::Method(text) => stop@ == StopView::Method(text@),
            Stop::PluginMode => stop@ == StopView::PluginMode,
            Stop::Dns(text) => stop@ == StopView::Dns(text@),
        },
{
}

/// What may be missing says what it holds where it is there, and nothing where it is not.
pub proof fn law_what_may_be_missing_is_there_or_not(manager: ManagerSetup, stop: Stop)
    ensures
        opt_manager(Some(manager)) == Some(manager@),
        opt_manager(None) is None,
        opt_stop(Some(stop)) == Some(stop@),
        opt_stop(None) is None,
{
}

/// A launch that was started holds the options and the target that it was started with. It asks
/// for what the program is told of itself, from the file that was given, or from none where the
/// manager is configured by the command line alone; and otherwise it looks for the default file.
pub proof fn law_start_of_a_launch(
    launch: Launch,
    action: Action,
    options: OptionsView,
    target: Target,
)
    requires
        started(launch, action, options, target),
    ensures
        launch.given().options == options,
        launch.given().target == target,
        options.config is Some ==> action@ == ActionView::PrepareService(options.config),
        options.config is None && options.server_config ==> action@ == ActionView::PrepareService(
            None,
        ),
        options.config is None && !options.server_config ==> action@
            == ActionView::FindDefaultConfig("manager.json"@),
{
}

/// A launch that took a turn waits for what the turn waits for, and its action is that of the
/// turn.
pub proof fn law_turns_are_taken_whole(launch: Launch, given: Given, turn: Turn, action: Action)
    requires
        launch.took(given, turn, action),
    ensures
        launch.given() == given,
        launch.stage() == turn.stage,
        action@ == turn.action,
{
}

/// What a command declares is what each of its arguments and groups declares, in order; and to
/// start with arguments or groups is to have them first, unchanged and in order.
pub proof fn law_commands_declare_what_they_hold(
    app: Command,
    args: Seq<Arg>,
    groups: Seq<ArgGroup>,
    i: int,
)
    ensures
        declared_options(app).len() == args_of(app).len(),
        0 <= i < args_of(app).len() ==> declared_options(app)[i] == declaration(args_of(app)[i]),
        declared_groups(app).len() == groups_of(app).len(),
        0 <= i < groups_of(app).len() ==> declared_groups(app)[i] == group_declaration(
            groups_of(app)[i],
        ),
        starts_with(args_of(app), args) <==> args.len() <= args_of(app).len() && args_of(app).take(
            args.len() as int,
        ) =~= args,
        starts_with(groups_of(app), groups) <==> groups.len() <= groups_of(app).len() && groups_of(
            app,
        ).take(groups.len() as int) =~= groups,
{
    if args.len() <= args_of(app).len() {
        let first = args_of(app).take(args.len() as int);
        assert(forall|k: int| 0 <= k < args.len() ==> #[trigger] args_of(app)[k] == first[k]);
    }
    if groups.len() <= groups_of(app).len() {
        let first = groups_of(app).take(groups.len() as int);
        assert(forall|k: int| 0 <= k < groups.len() ==> #[trigger] groups_of(app)[k] == first[k]);
    }
}

} // verus!
