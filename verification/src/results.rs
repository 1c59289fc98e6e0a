//! What a manager that is run has, field by field, from the command line and from its file.

use std::path::PathBuf;

use vstd::prelude::*;

use crate::config::{
    dns_named, integrity_fault, server_count, server_program, RelayMode, SetupView, StopView,
};
use crate::error::{exit_outcome, quoted, ErrorView, ServerExit};
use crate::launch::{
    begin, sown, ActionView, Given, LoadedView, Platform, RuntimeMode, RuntimePlan, SeedsView,
};
use crate::outcomes::{law_launch_comes_to_its_outcome, reached, World};
use crate::vparser::{cipher_named, is_builtin, server_host_named};

verus! {

/// The last action of bringing a manager up.
pub open spec fn finish(given: Given, seeds: SeedsView, world: World) -> ActionView {
    reached(given, begin(given, seeds), world, 8).action
}

/// Whether `file` is what options are put into: the file that was given, or the default one
/// where neither a file nor the address of the manager was given, or, without a file, nothing.
pub open spec fn starts_from(
    given: Given,
    seeds: SeedsView,
    world: World,
    file: LoadedView,
) -> bool {
    ||| given.options.config is Some && world.config == Ok::<LoadedView, Seq<char>>(file)
    ||| given.options.config is None && !given.options.server_config && world.default_config
        is Some && world.config == Ok::<LoadedView, Seq<char>>(file)
    ||| given.options.config is None && (given.options.server_config || world.default_config
        is None) && file.setup == seeds.blank && file.platform == (Platform {
        nofile: None,
        outbound_fwmark: None,
        outbound_user_cookie: None,
        server_working_directory: None,
    })
}

/// Whether a manager is run with `setup` and `platform`, from `file`.
pub open spec fn runs(
    given: Given,
    seeds: SeedsView,
    world: World,
    file: LoadedView,
    setup: SetupView,
    platform: Platform,
) -> bool {
    &&& sown(seeds, given.options)
    &&& world.service is Ok
    &&& starts_from(given, seeds, world, file)
    &&& finish(given, seeds, world) matches ActionView::Run(_, s, p) && s == setup && p == platform
}

/// Flags that were given are on, others are as in the file; none is switched off.
pub proof fn law_flags_of_a_run(
    given: Given,
    seeds: SeedsView,
    world: World,
    file: LoadedView,
    setup: SetupView,
    platform: Platform,
)
    requires
        runs(given, seeds, world, file, setup, platform),
    ensures
        setup.settings.no_delay <==> given.options.tcp_no_delay || file.setup.settings.no_delay,
        setup.settings.fast_open <==> given.options.tcp_fast_open || file.setup.settings.fast_open,
        setup.settings.mptcp <==> given.options.tcp_multipath || file.setup.settings.mptcp,
        setup.settings.ipv6_first <==> given.options.ipv6_first || file.setup.settings.ipv6_first,
{
    law_launch_comes_to_its_outcome(given, seeds, world);
}

/// A timeout that was given is that many whole seconds; one that was not is that of the file.
pub proof fn law_timeouts_of_a_run(
    given: Given,
    seeds: SeedsView,
    world: World,
    file: LoadedView,
    setup: SetupView,
    platform: Platform,
)
    requires
        runs(given, seeds, world, file, setup, platform),
    ensures
        given.options.tcp_keep_alive matches Some(n) ==> setup.settings.keep_alive matches Some(t)
            && t.secs == n && t.nanos == 0,
        given.options.tcp_keep_alive is None ==> setup.settings.keep_alive
            == file.setup.settings.keep_alive,
        given.options.udp_timeout matches Some(n) ==> setup.settings.udp_timeout matches Some(t)
            && t.secs == n && t.nanos == 0,
        given.options.udp_timeout is None ==> setup.settings.udp_timeout
            == file.setup.settings.udp_timeout,
        given.options.timeout matches Some(n) ==> setup.manager->0.timeout matches Some(t)
            && t.secs == n && t.nanos == 0,
        given.options.timeout is None && file.setup.manager is Some ==> setup.manager->0.timeout
            == file.setup.manager->0.timeout,
        given.options.timeout is None && file.setup.manager is None ==> setup.manager->0.timeout
            is None,
{
    law_launch_comes_to_its_outcome(given, seeds, world);
}

/// A number, a name or an address that was given is the one that is used; one that was not is
/// that of the file.
pub proof fn law_values_of_a_run(
    given: Given,
    seeds: SeedsView,
    world: World,
    file: LoadedView,
    setup: SetupView,
    platform: Platform,
)
    requires
        runs(given, seeds, world, file, setup, platform),
    ensures
        given.options.outbound_bind_interface is Some ==> setup.settings.outbound_bind_interface
            == given.options.outbound_bind_interface,
        given.options.outbound_bind_interface is None ==> setup.settings.outbound_bind_interface
            == file.setup.settings.outbound_bind_interface,
        given.options.outbound_bind_addr is Some ==> setup.outbound_bind_addr
            == given.options.outbound_bind_addr,
        given.options.outbound_bind_addr is None ==> setup.outbound_bind_addr
            == file.setup.outbound_bind_addr,
        given.options.dns_cache_size is Some ==> setup.settings.dns_cache_size
            == given.options.dns_cache_size,
        given.options.dns_cache_size is None ==> setup.settings.dns_cache_size
            == file.setup.settings.dns_cache_size,
        given.options.udp_max_associations is Some ==> setup.settings.udp_max_associations
            == given.options.udp_max_associations,
        given.options.udp_max_associations is None ==> setup.settings.udp_max_associations
            == file.setup.settings.udp_max_associations,
        given.options.inbound_send_buffer_size is Some ==> setup.settings.inbound_send_buffer_size
            == given.options.inbound_send_buffer_size,
        given.options.inbound_send_buffer_size is None ==> setup.settings.inbound_send_buffer_size
            == file.setup.settings.inbound_send_buffer_size,
        given.options.inbound_recv_buffer_size is Some ==> setup.settings.inbound_recv_buffer_size
            == given.options.inbound_recv_buffer_size,
        given.options.inbound_recv_buffer_size is None ==> setup.settings.inbound_recv_buffer_size
            == file.setup.settings.inbound_recv_buffer_size,
        given.options.outbound_send_buffer_size is Some
            ==> setup.settings.outbound_send_buffer_size
            == given.options.outbound_send_buffer_size,
        given.options.outbound_send_buffer_size is None
            ==> setup.settings.outbound_send_buffer_size
            == file.setup.settings.outbound_send_buffer_size,
        given.options.outbound_recv_buffer_size is Some
            ==> setup.settings.outbound_recv_buffer_size
            == given.options.outbound_recv_buffer_size,
        given.options.outbound_recv_buffer_size is None
            ==> setup.settings.outbound_recv_buffer_size
            == file.setup.settings.outbound_recv_buffer_size,
{
    law_launch_comes_to_its_outcome(given, seeds, world);
}

/// Name servers and an access control list that were asked for are used, and those of the file
/// otherwise. What is not listed in a configuration is as in the file.
pub proof fn law_lookups_of_a_run(
    given: Given,
    seeds: SeedsView,
    world: World,
    file: LoadedView,
    setup: SetupView,
    platform: Platform,
)
    requires
        runs(given, seeds, world, file, setup, platform),
    ensures
        given.options.dns matches Some(text) ==> match dns_named(text) {
            Ok(dns) => setup.settings.dns == dns,
            Err(_) => false,
        },
        given.options.dns is None ==> setup.settings.dns == file.setup.settings.dns,
        given.options.acl is Some ==> match world.acl {
            Ok(acl) => setup.settings.acl == Some(acl),
            Err(_) => false,
        },
        given.options.acl is None ==> setup.settings.acl == file.setup.settings.acl,
        setup.rest == file.setup.rest,
        integrity_fault(true, setup.rest) is None,
{
    law_launch_comes_to_its_outcome(given, seeds, world);
}

/// Over the manager's part of the file, what was given on servers is what is used, the rest is as
/// in the file: an address replaces nothing but the address.
pub proof fn law_manager_of_a_run_over_a_file(
    given: Given,
    seeds: SeedsView,
    world: World,
    file: LoadedView,
    setup: SetupView,
    platform: Platform,
)
    requires
        runs(given, seeds, world, file, setup, platform),
        file.setup.manager is Some,
    ensures
        setup.manager matches Some(manager) && {
            let filed = file.setup.manager->0;
            let options = given.options;
            &&& options.manager_addr matches Some(addr) ==> manager.addr == addr
            &&& options.manager_addr is None ==> manager.addr == filed.addr
            &&& options.encrypt_method matches Some(text) ==> manager.method is Some
                && manager.method == cipher_named(text)
            &&& options.encrypt_method is None ==> manager.method == filed.method
            &&& options.server_host matches Some(host) ==> manager.server_host == host
            &&& options.server_host is None ==> manager.server_host == filed.server_host
            &&& options.manager_server_mode matches Some(mode) ==> manager.server_mode == mode
            &&& options.manager_server_mode is None ==> manager.server_mode == filed.server_mode
            &&& options.plugin is None ==> manager.plugin == filed.plugin
            &&& options.tcp_and_udp ==> manager.mode == RelayMode::TcpAndUdp
            &&& options.udp_only && !options.tcp_and_udp ==> manager.mode == RelayMode::UdpOnly
            &&& !options.udp_only && !options.tcp_and_udp ==> manager.mode == filed.mode
            &&& manager.rest == filed.rest
        },
{
    law_launch_comes_to_its_outcome(given, seeds, world);
}

/// Without a manager's part in the file there is one exactly where an address was given: at that
/// address, with what was given on servers, and with defaults for the rest: no cipher, no
/// plugin, no timeout, every IPv4 address, TCP alone, servers within the process.
pub proof fn law_manager_of_a_run_without_one_in_a_file(
    given: Given,
    seeds: SeedsView,
    world: World,
    file: LoadedView,
    setup: SetupView,
    platform: Platform,
)
    requires
        runs(given, seeds, world, file, setup, platform),
        file.setup.manager is None,
    ensures
        given.options.manager_addr is Some,
        setup.manager matches Some(manager) && {
            let options = given.options;
            &&& Some(manager.addr) == options.manager_addr
            &&& options.encrypt_method matches Some(text) ==> manager.method is Some
                && manager.method == cipher_named(text)
            &&& options.encrypt_method is None ==> manager.method is None
            &&& options.timeout is None ==> manager.timeout is None
            &&& options.server_host matches Some(host) ==> manager.server_host == host
            &&& options.server_host is None ==> manager.server_host == server_host_named(
                "0.0.0.0"@,
            )
            &&& options.manager_server_mode matches Some(mode) ==> manager.server_mode == mode
            &&& options.manager_server_mode is None ==> is_builtin(manager.server_mode)
            &&& options.plugin is None ==> manager.plugin is None
            &&& options.tcp_and_udp ==> manager.mode == RelayMode::TcpAndUdp
            &&& options.udp_only && !options.tcp_and_udp ==> manager.mode == RelayMode::UdpOnly
            &&& !options.udp_only && !options.tcp_and_udp ==> manager.mode == RelayMode::TcpOnly
            &&& server_program(manager.rest) matches Some(program) ==> program == "ssserver"@
        },
{
    law_launch_comes_to_its_outcome(given, seeds, world);
}

/// A plugin that was given is the one that is run, with exactly the options that were given, no
/// arguments, and the mode that was spelt, or TCP alone where none was.
pub proof fn law_plugin_of_a_run(
    given: Given,
    seeds: SeedsView,
    world: World,
    file: LoadedView,
    setup: SetupView,
    platform: Platform,
    name: Seq<char>,
)
    requires
        runs(given, seeds, world, file, setup, platform),
        given.options.plugin == Some(name),
    ensures
        setup.manager->0.plugin matches Some(plugin) && {
            &&& plugin.plugin == name
            &&& plugin.plugin_opts == given.options.plugin_opts
            &&& plugin.plugin_args.len() == 0
            &&& match given.options.plugin_mode {
                None => plugin.plugin_mode == RelayMode::TcpOnly,
                Some(text) => {
                    ||| text == "tcp_only"@ && plugin.plugin_mode == RelayMode::TcpOnly
                    ||| text == "tcp_and_udp"@ && plugin.plugin_mode == RelayMode::TcpAndUdp
                    ||| text == "udp_only"@ && plugin.plugin_mode == RelayMode::UdpOnly
                },
            }
        },
{
    law_launch_comes_to_its_outcome(given, seeds, world);
}

/// Under the names that only some targets have, what was given is what is used, and what the
/// file has otherwise.
pub proof fn law_platform_of_a_run(
    given: Given,
    seeds: SeedsView,
    world: World,
    file: LoadedView,
    setup: SetupView,
    platform: Platform,
)
    requires
        runs(given, seeds, world, file, setup, platform),
    ensures
        given.options.nofile is Some ==> platform.nofile == given.options.nofile,
        given.options.nofile is None ==> platform.nofile == file.platform.nofile,
        given.options.outbound_fwmark is Some ==> platform.outbound_fwmark
            == given.options.outbound_fwmark,
        given.options.outbound_fwmark is None ==> platform.outbound_fwmark
            == file.platform.outbound_fwmark,
        given.options.outbound_user_cookie is Some ==> platform.outbound_user_cookie
            == given.options.outbound_user_cookie,
        given.options.outbound_user_cookie is None ==> platform.outbound_user_cookie
            == file.platform.outbound_user_cookie,
        given.options.manager_server_working_directory is Some
            ==> platform.server_working_directory
            == given.options.manager_server_working_directory,
        given.options.manager_server_working_directory is None
            ==> platform.server_working_directory == file.platform.server_working_directory,
{
    law_launch_comes_to_its_outcome(given, seeds, world);
}

/// Tasks run on the current thread, or on several, as many as the program was told, or as is
/// usual where it was told no number.
pub proof fn law_runtime_of_a_run(
    given: Given,
    seeds: SeedsView,
    world: World,
    file: LoadedView,
    setup: SetupView,
    platform: Platform,
)
    requires
        runs(given, seeds, world, file, setup, platform),
    ensures
        world.service matches Ok(service) && finish(given, seeds, world) matches ActionView::Run(
            plan,
            _,
            _,
        ) && {
            &&& plan is CurrentThread <==> service.runtime.mode == RuntimeMode::SingleThread
            &&& service.runtime.mode == RuntimeMode::MultiThread ==> plan
                == RuntimePlan::MultiThread(service.runtime.worker_count)
        },
{
    law_launch_comes_to_its_outcome(given, seeds, world);
}

/// Without a file nothing is set but by options: no flag, no time, no number, no name, no
/// access control list, no server, and the name servers are those of the system.
pub proof fn law_nothing_is_set_without_a_file(given: Given, seeds: SeedsView)
    requires
        sown(seeds, given.options),
    ensures
        ({
            let blank = seeds.blank.settings;
            &&& !blank.no_delay && !blank.fast_open && !blank.mptcp && !blank.ipv6_first
            &&& blank.keep_alive is None && blank.udp_timeout is None
            &&& blank.outbound_bind_interface is None && blank.acl is None
            &&& blank.dns_cache_size is None && blank.udp_max_associations is None
            &&& blank.inbound_send_buffer_size is None && blank.inbound_recv_buffer_size is None
            &&& blank.outbound_send_buffer_size is None && blank.outbound_recv_buffer_size is None
            &&& blank.dns == dns_named("system"@)->Ok_0
            &&& seeds.blank.outbound_bind_addr is None
            &&& seeds.blank.manager is None
            &&& server_count(seeds.blank.rest) == 0
            &&& integrity_fault(true, seeds.blank.rest) is None
        }),
{
}

/// What stands in the way of a run, in this order, and what is said of it: a file that cannot be
/// read or loaded; a cipher or a plugin's mode that is none, where there is a manager's part to
/// take it; an access control list that cannot be loaded; name servers that are none; no
/// address for the manager; a configuration that does not hold together; a user that cannot be
/// run as. Where none of them does, the manager is run.
pub proof fn law_what_stands_in_the_way(
    given: Given,
    seeds: SeedsView,
    world: World,
    path: Option<PathBuf>,
)
    requires
        sown(seeds, given.options),
        given.options.config is Some ==> path == given.options.config,
        given.options.config is None && given.options.server_config ==> path is None,
        given.options.config is None && !given.options.server_config ==> path
            == world.default_config,
        path is None ==> world.service is Ok,
    ensures
        ({
            let options = given.options;
            let last = finish(given, seeds, world);
            let managed = options.manager_addr is Some || (path is Some
                && world.config->Ok_0.setup.manager is Some);
            let rest = if path is Some {
                world.config->Ok_0.setup.rest
            } else {
                seeds.blank.rest
            };
            if path is Some && world.service is Err {
                last == ActionView::Fail(
                    ErrorView::LoadConfigFailure(
                        "loading config "@ + quoted(path->0) + ", "@ + world.service->Err_0,
                    ),
                )
            } else if path is Some && world.config is Err {
                last == ActionView::Fail(
                    ErrorView::LoadConfigFailure(
                        "loading config "@ + quoted(path->0) + ", "@ + world.config->Err_0,
                    ),
                )
            } else if managed && options.encrypt_method is Some && cipher_named(
                options.encrypt_method->0,
            ) is None {
                last == ActionView::Panic(StopView::Method("ParseCipherKindError"@))
            } else if managed && options.plugin is Some && options.plugin_mode is Some
                && options.plugin_mode->0 != "tcp_only"@ && options.plugin_mode->0
                != "tcp_and_udp"@ && options.plugin_mode->0 != "udp_only"@ {
                last == ActionView::Panic(StopView::PluginMode)
            } else if options.acl is Some && world.acl is Err {
                last == ActionView::Fail(
                    ErrorView::LoadAclFailure(
                        "loading ACL \""@ + options.acl->0 + "\", "@ + world.acl->Err_0,
                    ),
                )
            } else if options.dns is Some && dns_named(options.dns->0) is Err {
                last == ActionView::Panic(StopView::Dns(dns_named(options.dns->0)->Err_0))
            } else if !managed {
                last == ActionView::Fail(
                    ErrorView::InsufficientParams(
                        "missing `manager_address`, consider specifying it by --manager-address command line option, or \"manager_address\" and \"manager_port\" keys in configuration file"@,
                    ),
                )
            } else if integrity_fault(true, rest) is Some {
                last == ActionView::Fail(
                    ErrorView::LoadConfigFailure(
                        "config integrity check failed, "@ + integrity_fault(true, rest)->0,
                    ),
                )
            } else if options.user is Some && world.user is Err {
                last == ActionView::Fail(
                    ErrorView::InsufficientParams(
                        "failed to change as user, error: "@ + world.user->Err_0,
                    ),
                )
            } else {
                last is Run
            }
        }),
{
    law_launch_comes_to_its_outcome(given, seeds, world);
}

/// What is told of a stop is what was expected and, behind a colon, the whole reason, so that no
/// two reasons are told alike.
pub proof fn law_stops_tell_their_reason(reason: Seq<char>, other: Seq<char>)
    ensures
        StopView::Method(reason).text() == "method: "@ + reason,
        StopView::Dns(reason).text() == "dns: "@ + reason,
        StopView::PluginMode.text()
            == "plugin-mode must be one of `tcp_only` (default), `udp_only` and `tcp_and_udp`: ()"@,
        StopView::Dns(reason).text() == StopView::Dns(other).text() ==> reason == other,
{
    let head = "dns: "@;
    if head + reason == head + other {
        assert(reason =~= (head + reason).skip(head.len() as int));
        assert(other =~= (head + other).skip(head.len() as int));
    }
}

/// What is told of an error is its text, all of it.
pub proof fn law_errors_tell_their_text(text: Seq<char>)
    ensures
        ErrorView::ServerExitUnexpectedly(text).text() == text,
        ErrorView::ServerAborted(text).text() == text,
        ErrorView::LoadConfigFailure(text).text() == text,
        ErrorView::LoadAclFailure(text).text() == text,
        ErrorView::InsufficientParams(text).text() == text,
{
}

/// A manager that was started ends well only on a signal; what a server says when it fails is
/// told whole, so that no two failures are told alike.
pub proof fn law_only_a_signal_ends_well(exit: ServerExit, err: String, other: String)
    ensures
        exit_outcome(exit) is Ok <==> exit is Signalled,
        exit_outcome(ServerExit::Ended) == Err::<(), ErrorView>(
            ErrorView::ServerExitUnexpectedly("server exited unexpectedly"@),
        ),
        exit_outcome(ServerExit::Failed(err)) == Err::<(), ErrorView>(
            ErrorView::ServerAborted("server aborted with "@ + err@),
        ),
        exit_outcome(ServerExit::Failed(err)) == exit_outcome(ServerExit::Failed(other)) ==> err@
            == other@,
{
    let head = "server aborted with "@;
    if head + err@ == head + other@ {
        assert(err@ =~= (head + err@).skip(head.len() as int));
        assert(other@ =~= (head + other@).skip(head.len() as int));
    }
}

} // verus!
