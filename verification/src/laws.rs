//! What holds of command lines that are accepted, and of what options do to a configuration.

use shadowsocks_service::acl::AccessControl;
use vstd::prelude::*;

use crate::arguments::{
    allowed, given, options_in, respells, respelt, spells, unopposed, ArgValue, OptionsView,
};
use crate::config::{
    addressed, dns_given, managed, manager_stop, opt_seconds, prefer, ManagerView, RelayMode,
    SettingsView, SetupView, StopView,
};
use crate::options::{
    aliased, buffer_options, cookie_options, fwmark_options, logging_options, manager_groups,
    manager_options, nofile_options, process_options, relay_options, server_options,
    socket_options, thread_options, user_options, GroupSpec, OptionSpec,
};
use crate::target::Target;
use crate::vparser::{cipher_listed, cipher_named};

verus! {

/// Whether no option excludes another.
spec fn quiet(options: Seq<OptionSpec>) -> bool {
    forall|i: int| 0 <= i < options.len() ==> (#[trigger] options[i]).conflicts.len() == 0
}

proof fn lemma_quiet_blocks()
    ensures
        quiet(relay_options()),
        quiet(socket_options()),
        quiet(buffer_options()),
        quiet(logging_options()),
        quiet(process_options()),
        quiet(nofile_options()),
        quiet(fwmark_options()),
        quiet(cookie_options()),
        quiet(thread_options()),
        quiet(user_options()),
{
    assert(quiet(relay_options())) by {
        reveal(relay_options);
    }
    assert(quiet(socket_options())) by {
        reveal(socket_options);
    }
    assert(quiet(buffer_options())) by {
        reveal(buffer_options);
    }
    assert(quiet(logging_options())) by {
        reveal(logging_options);
    }
    assert(quiet(process_options())) by {
        reveal(process_options);
    }
    assert(quiet(nofile_options())) by {
        reveal(nofile_options);
    }
    assert(quiet(fwmark_options())) by {
        reveal(fwmark_options);
    }
    assert(quiet(cookie_options())) by {
        reveal(cookie_options);
    }
    assert(quiet(thread_options())) by {
        reveal(thread_options);
    }
    assert(quiet(user_options())) by {
        reveal(user_options);
    }
}

/// One option excludes another: `UDP_ONLY` excludes `TCP_AND_UDP`.
proof fn lemma_conflicts(target: Target)
    ensures
        manager_options(target).len() >= 15,
        manager_options(target)[1] == server_options()[1],
        server_options()[1].id == "UDP_ONLY"@,
        server_options()[1].conflicts == seq!["TCP_AND_UDP"@],
        forall|i: int|
            0 <= i < manager_options(target).len() && i != 1 ==> (#[trigger] manager_options(
                target,
            )[i]).conflicts.len() == 0,
        forall|i: int|
            0 <= i < relay_options().len() ==> manager_options(target)[7 + i]
                == #[trigger] relay_options()[i],
        relay_options().len() == 8,
{
    lemma_quiet_blocks();
    assert(server_options().len() == 7 && server_options()[1].id == "UDP_ONLY"@
        && server_options()[1].conflicts == seq!["TCP_AND_UDP"@] && (forall|i: int|
        0 <= i < 7 && i != 1 ==> (#[trigger] server_options()[i]).conflicts.len() == 0)) by {
        reveal(server_options);
    }
    assert(relay_options().len() == 8) by {
        reveal(relay_options);
    }
}

/// A command line that is accepted asks for UDP alone or for TCP and UDP, but not for both,
/// whatever options and groups a command has of its own.
pub proof fn law_relayed_protocols_exclude_each_other(
    own: Seq<OptionSpec>,
    groups: Seq<GroupSpec>,
    values: Map<Seq<char>, ArgValue>,
    target: Target,
)
    requires
        allowed(values, own + manager_options(target), groups),
    ensures
        !(options_in(values, target).udp_only && options_in(values, target).tcp_and_udp),
{
    lemma_conflicts(target);
    let options = own + manager_options(target);
    let k: int = own.len() + 1int;
    assert(options[k] == manager_options(target)[1]);
    assert(options[k].conflicts[0] == "TCP_AND_UDP"@);
    assert(options[k].conflicts.contains("TCP_AND_UDP"@));
}

/// On a command line that is accepted, what a plugin relays and the options of a plugin come
/// with a plugin, unless an option or a group that a command has of its own is in conflict with
/// the plugin.
pub proof fn law_plugin_options_need_a_plugin(
    own: Seq<OptionSpec>,
    own_groups: Seq<GroupSpec>,
    values: Map<Seq<char>, ArgValue>,
    target: Target,
)
    requires
        allowed(values, own + manager_options(target), own_groups + manager_groups()),
        unopposed(own, own_groups, "PLUGIN"@),
    ensures
        options_in(values, target).plugin_mode is Some ==> options_in(values, target).plugin
            is Some,
        options_in(values, target).plugin_opts is Some ==> options_in(values, target).plugin
            is Some,
{
    lemma_conflicts(target);
    reveal_strlit("TCP_AND_UDP");
    reveal_strlit("UDP_ONLY");
    reveal_strlit("PLUGIN");
    reveal_strlit("MANAGER_ADDR");
    let ours = manager_options(target);
    let options = own + ours;
    let groups = own_groups + manager_groups();
    let n: int = own.len() as int;
    assert(unopposed(options, groups, "PLUGIN"@)) by {
        assert forall|i: int| 0 <= i < options.len() implies !(
        #[trigger] options[i]).conflicts.contains("PLUGIN"@) && (options[i].id == "PLUGIN"@ ==>
            options[i].conflicts.len() == 0) by {
            if i < n {
                assert(options[i] == own[i]);
            } else {
                assert(options[i] == ours[i - n]);
                if i == n + 1 {
                    assert("UDP_ONLY"@.len() != "PLUGIN"@.len());
                    assert("TCP_AND_UDP"@.len() != "PLUGIN"@.len());
                }
            }
        }
        assert forall|i: int| 0 <= i < groups.len() implies !(
        #[trigger] groups[i]).members.contains("PLUGIN"@) by {
            if i < own_groups.len() {
                assert(groups[i] == own_groups[i]);
            } else {
                assert(groups[i] == manager_groups()[i - own_groups.len()]);
                assert("MANAGER_ADDR"@.len() != "PLUGIN"@.len());
            }
        }
    }
    assert(relay_options()[3].id == "PLUGIN_MODE"@ && relay_options()[3].requirements
        == seq!["PLUGIN"@] && relay_options()[4].id == "PLUGIN_OPT"@
        && relay_options()[4].requirements == seq!["PLUGIN"@] && relay_options()[3].holds() is Text
        && relay_options()[4].holds() is Text) by {
        reveal(relay_options);
    }
    assert(options[n + 10] == relay_options()[3]);
    assert(options[n + 11] == relay_options()[4]);
    assert(options[n + 10].requirements[0] == "PLUGIN"@);
    assert(options[n + 11].requirements[0] == "PLUGIN"@);
    assert(options[n + 10].requirements.contains("PLUGIN"@));
    assert(options[n + 11].requirements.contains("PLUGIN"@));
}

/// On a command line that is accepted, the default cipher is one, spelt as it is listed,
/// whatever options and groups a command has of its own.
pub proof fn law_method_is_a_cipher(
    own: Seq<OptionSpec>,
    groups: Seq<GroupSpec>,
    values: Map<Seq<char>, ArgValue>,
    target: Target,
    setup: SetupView,
)
    requires
        allowed(values, own + manager_options(target), groups),
    ensures
        options_in(values, target).encrypt_method matches Some(method) ==> cipher_listed(method)
            && cipher_named(method) is Some,
        !(manager_stop(setup, options_in(values, target)) matches Some(StopView::Method(_))),
{
    lemma_conflicts(target);
    let options = own + manager_options(target);
    assert(relay_options()[0].id == "ENCRYPT_METHOD"@ && relay_options()[0].holds() is Cipher) by {
        reveal(relay_options);
    }
    assert(options[own.len() + 7int] == relay_options()[0]);
}

/// A manager is configured by the command line alone exactly where its address is given there,
/// whatever options and groups a command has of its own.
pub proof fn law_address_configures_the_manager(
    own: Seq<OptionSpec>,
    own_groups: Seq<GroupSpec>,
    values: Map<Seq<char>, ArgValue>,
    target: Target,
)
    requires
        allowed(values, own + manager_options(target), own_groups + manager_groups()),
    ensures
        options_in(values, target).server_config <==> options_in(values, target).manager_addr
            is Some,
{
    lemma_conflicts(target);
    let options = own + manager_options(target);
    let groups = own_groups + manager_groups();
    let g: int = own_groups.len() as int;
    assert(server_options()[6].id == "MANAGER_ADDR"@ && server_options()[6].holds()
        is ManagerAddr && server_options().len() == 7) by {
        reveal(server_options);
    }
    assert(options[own.len() + 6int] == server_options()[6]);
    assert(groups[g] == manager_groups()[0]);
    assert(groups[g].members[0] == "MANAGER_ADDR"@);
    assert(groups[g].members.contains("MANAGER_ADDR"@));
    assert(values.contains_key("MANAGER_ADDR"@) ==> given(values, "MANAGER_ADDR"@));
    if values.contains_key("SERVER_CONFIG"@) {
        let id = choose|id: Seq<char>| #[trigger]
            groups[g].members.contains(id) && given(values, id);
        assert(id == "MANAGER_ADDR"@);
    }
}

proof fn lemma_aliased(long: Seq<char>, alias: Seq<char>, target: Target) -> (k: int)
    requires
        aliased(long, alias),
    ensures
        0 <= k < manager_options(target).len(),
        manager_options(target)[k].answers_to(long),
        manager_options(target)[k].answers_to(alias),
        manager_options(target)[k].long == Some(long),
        manager_options(target)[k].hidden_aliases.contains(alias),
        long.len() > 0 && !long.contains('='),
        alias.len() > 0 && !alias.contains('='),
{
    reveal_strlit("manager-addr");
    reveal_strlit("manager-address");
    reveal_strlit("outbound-bind-addr");
    reveal_strlit("bind-addr");
    reveal_strlit("tcp-no-delay");
    reveal_strlit("no-delay");
    reveal_strlit("tcp-fast-open");
    reveal_strlit("fast-open");
    reveal_strlit("tcp-multipath");
    reveal_strlit("mptcp");
    let options = manager_options(target);
    assert(server_options().len() == 7 && server_options()[3].long == Some("outbound-bind-addr"@)
        && server_options()[3].hidden_aliases == seq!["bind-addr"@] && server_options()[6].long
        == Some("manager-addr"@) && server_options()[6].hidden_aliases
        == seq!["manager-address"@]) by {
        reveal(server_options);
    }
    assert(relay_options().len() == 8) by {
        reveal(relay_options);
    }
    assert(socket_options().len() == 6 && socket_options()[0].long == Some("tcp-no-delay"@)
        && socket_options()[0].hidden_aliases == seq!["no-delay"@] && socket_options()[1].long
        == Some("tcp-fast-open"@) && socket_options()[1].hidden_aliases == seq!["fast-open"@]
        && socket_options()[3].long == Some("tcp-multipath"@)
        && socket_options()[3].hidden_aliases == seq!["mptcp"@]) by {
        reveal(socket_options);
    }
    assert(options[3] == server_options()[3]);
    assert(options[6] == server_options()[6]);
    assert(options[15] == socket_options()[0]);
    assert(options[16] == socket_options()[1]);
    assert(options[18] == socket_options()[3]);
    let k = if long == "manager-addr"@ && alias == "manager-address"@ {
        6int
    } else if long == "outbound-bind-addr"@ && alias == "bind-addr"@ {
        3
    } else if long == "tcp-no-delay"@ && alias == "no-delay"@ {
        15
    } else if long == "tcp-fast-open"@ && alias == "fast-open"@ {
        16
    } else {
        18
    };
    assert(options[k].hidden_aliases[0] == alias);
    k
}

/// An option of a manager that has an alias can be called by it instead, whatever options a
/// command has of its own: the command line is then another spelling of the same one, and the
/// alias is one that the help does not list. That other spellings come to the same, values and
/// all, is what `match_command` promises.
pub proof fn law_aliases_are_other_spellings(
    own: Seq<OptionSpec>,
    argv: Seq<Seq<char>>,
    i: int,
    long: Seq<char>,
    alias: Seq<char>,
    rest: Seq<char>,
    target: Target,
)
    requires
        0 < i < argv.len(),
        aliased(long, alias),
        rest.len() == 0 || rest[0] == '=',
        argv[i] == "--"@ + long + rest,
    ensures
        respelt(own + manager_options(target), argv, argv.update(i, "--"@ + alias + rest)),
        exists|k: int|
            0 <= k < manager_options(target).len() && (#[trigger] manager_options(target)[k]).long
                == Some(long) && manager_options(target)[k].hidden_aliases.contains(alias),
{
    let options = own + manager_options(target);
    let n = lemma_aliased(long, alias, target);
    let k = own.len() + n;
    assert(options[k] == manager_options(target)[n]);
    let other = argv.update(i, "--"@ + alias + rest);
    assert(spells(argv[i], options[k], long, rest));
    assert(spells(other[i], options[k], alias, rest));
    assert(respells(options, argv[i], other[i]));
}

/// What a configuration becomes under options: `base` is what was loaded, or a blank
/// configuration, `fresh` the manager's part for a configuration without one, and `acl` the
/// access control list that was loaded.
pub open spec fn configured(
    options: OptionsView,
    base: SetupView,
    fresh: Option<ManagerView>,
    acl: Option<AccessControl>,
) -> SetupView {
    let file = base.settings;
    SetupView {
        settings: SettingsView {
            no_delay: file.no_delay || options.tcp_no_delay,
            fast_open: file.fast_open || options.tcp_fast_open,
            keep_alive: prefer(opt_seconds(options.tcp_keep_alive), file.keep_alive),
            mptcp: file.mptcp || options.tcp_multipath,
            outbound_bind_interface: prefer(
                options.outbound_bind_interface,
                file.outbound_bind_interface,
            ),
            acl: prefer(acl, file.acl),
            dns: prefer(dns_given(options), Some(file.dns))->0,
            dns_cache_size: prefer(options.dns_cache_size, file.dns_cache_size),
            ipv6_first: file.ipv6_first || options.ipv6_first,
            udp_timeout: prefer(opt_seconds(options.udp_timeout), file.udp_timeout),
            udp_max_associations: prefer(options.udp_max_associations, file.udp_max_associations),
            inbound_send_buffer_size: prefer(
                options.inbound_send_buffer_size,
                file.inbound_send_buffer_size,
            ),
            inbound_recv_buffer_size: prefer(
                options.inbound_recv_buffer_size,
                file.inbound_recv_buffer_size,
            ),
            outbound_send_buffer_size: prefer(
                options.outbound_send_buffer_size,
                file.outbound_send_buffer_size,
            ),
            outbound_recv_buffer_size: prefer(
                options.outbound_recv_buffer_size,
                file.outbound_recv_buffer_size,
            ),
        },
        outbound_bind_addr: prefer(options.outbound_bind_addr, base.outbound_bind_addr),
        manager: match addressed(base.manager, options.manager_addr, fresh) {
            Some(manager) => Some(managed(manager, options)),
            None => None,
        },
        rest: base.rest,
    }
}

/// Whether no option was given that changes a configuration.
pub open spec fn unchanging(options: OptionsView) -> bool {
    &&& !options.udp_only && !options.tcp_and_udp
    &&& !options.tcp_no_delay && !options.tcp_fast_open && !options.tcp_multipath
    &&& !options.ipv6_first
    &&& options.outbound_bind_addr is None
    &&& options.outbound_bind_interface is None
    &&& options.server_host is None
    &&& options.manager_addr is None
    &&& options.encrypt_method is None
    &&& options.timeout is None
    &&& options.plugin is None
    &&& options.dns is None
    &&& options.dns_cache_size is None
    &&& options.tcp_keep_alive is None
    &&& options.udp_timeout is None
    &&& options.udp_max_associations is None
    &&& options.inbound_send_buffer_size is None
    &&& options.inbound_recv_buffer_size is None
    &&& options.outbound_send_buffer_size is None
    &&& options.outbound_recv_buffer_size is None
    &&& options.manager_server_mode is None
}

/// Where nothing was given, a configuration stays as it is.
pub proof fn law_without_options_nothing_changes(
    options: OptionsView,
    base: SetupView,
    fresh: Option<ManagerView>,
)
    requires
        unchanging(options),
    ensures
        configured(options, base, fresh, None) == base,
{
}

/// To put the same options in twice is to put them in once.
pub proof fn law_options_apply_once(
    options: OptionsView,
    base: SetupView,
    fresh: Option<ManagerView>,
    acl: Option<AccessControl>,
)
    requires
        options.manager_addr matches Some(addr) ==> fresh is Some && fresh->0.addr == addr,
    ensures
        configured(options, configured(options, base, fresh, acl), fresh, acl) == configured(
            options,
            base,
            fresh,
            acl,
        ),
{
}

/// Where both were asked for, TCP and UDP are relayed; where UDP alone was, it alone is; and
/// otherwise what the file says.
pub proof fn law_relayed_protocols(
    options: OptionsView,
    base: SetupView,
    fresh: Option<ManagerView>,
    acl: Option<AccessControl>,
)
    ensures
        configured(options, base, fresh, acl).manager matches Some(manager) ==> {
            &&& options.tcp_and_udp ==> manager.mode == RelayMode::TcpAndUdp
            &&& options.udp_only && !options.tcp_and_udp ==> manager.mode == RelayMode::UdpOnly
            &&& !options.udp_only && !options.tcp_and_udp && base.manager is Some ==> manager.mode
                == base.manager->0.mode
        },
{
}

} // verus!
