//! The options of a manager, one by one, and where they are listed.

use vstd::prelude::*;

use crate::numbering::law_options_are_coherent;
use crate::options::{
    buffer_options, common_options, cookie_options, fwmark_options, logging_options,
    manager_groups, manager_options, nofile_options, process_options, relay_options,
    server_options, socket_options, target_options, thread_options, user_options, Action, Hint,
    OptionSpec, ValueKind,
};
use crate::target::Target;

verus! {

/// Whether an option is called and does this.
pub open spec fn entry(
    option: OptionSpec,
    id: Seq<char>,
    short: Option<char>,
    long: Option<Seq<char>>,
    hidden_aliases: Seq<Seq<char>>,
    action: Action,
    num_args: Option<nat>,
    kind: Option<ValueKind>,
    hint: Option<Hint>,
    conflicts: Seq<Seq<char>>,
    requirements: Seq<Seq<char>>,
    help: Seq<char>,
) -> bool {
    &&& option.id == id
    &&& option.short == short
    &&& option.long == long
    &&& option.hidden_aliases =~= hidden_aliases
    &&& option.action == Some(action)
    &&& option.num_args == num_args
    &&& option.kind == kind
    &&& option.hint == hint
    &&& option.conflicts =~= conflicts
    &&& option.requirements =~= requirements
    &&& option.help == Some(help)
}

proof fn lemma_server_entries()
    ensures
        server_options().len() == 7,
        entry(
            server_options()[0],
            "CONFIG"@,
            Some('c'),
            Some("config"@),
            seq![],
            Action::Store,
            Some(1nat),
            Some(ValueKind::Path),
            Some(Hint::FilePath),
            seq![],
            seq![],
            "Shadowsocks configuration file (https://shadowsocks.org/doc/configs.html), the only required fields are \"manager_address\" and \"manager_port\". Servers defined will be created when process is started."@,
        ),
        entry(
            server_options()[1],
            "UDP_ONLY"@,
            Some('u'),
            None,
            seq![],
            Action::SetTrue,
            None,
            None,
            None,
            seq!["TCP_AND_UDP"@],
            seq![],
            "Server mode UDP_ONLY"@,
        ),
        entry(
            server_options()[2],
            "TCP_AND_UDP"@,
            Some('U'),
            None,
            seq![],
            Action::SetTrue,
            None,
            None,
            None,
            seq![],
            seq![],
            "Server mode TCP_AND_UDP"@,
        ),
        entry(
            server_options()[3],
            "OUTBOUND_BIND_ADDR"@,
            Some('b'),
            Some("outbound-bind-addr"@),
            seq!["bind-addr"@],
            Action::Store,
            Some(1nat),
            Some(ValueKind::IpAddr),
            None,
            seq![],
            seq![],
            "Bind address, outbound socket will bind this address"@,
        ),
        entry(
            server_options()[4],
            "OUTBOUND_BIND_INTERFACE"@,
            None,
            Some("outbound-bind-interface"@),
            seq![],
            Action::Store,
            Some(1nat),
            None,
            None,
            seq![],
            seq![],
            "Set SO_BINDTODEVICE / IP_BOUND_IF / IP_UNICAST_IF option for outbound socket"@,
        ),
        entry(
            server_options()[5],
            "SERVER_HOST"@,
            Some('s'),
            Some("server-host"@),
            seq![],
            Action::Store,
            Some(1nat),
            Some(ValueKind::ServerHost),
            None,
            seq![],
            seq![],
            "Host name or IP address of your remote server"@,
        ),
        entry(
            server_options()[6],
            "MANAGER_ADDR"@,
            None,
            Some("manager-addr"@),
            seq!["manager-address"@],
            Action::Store,
            Some(1nat),
            Some(ValueKind::ManagerAddr),
            None,
            seq![],
            seq![],
            "ShadowSocks Manager (ssmgr) address, could be ip:port, domain:port or /path/to/unix.sock"@,
        ),
{
    reveal(server_options);
}

proof fn lemma_relay_entries()
    ensures
        relay_options().len() == 8,
        entry(
            relay_options()[0],
            "ENCRYPT_METHOD"@,
            Some('m'),
            Some("encrypt-method"@),
            seq![],
            Action::Store,
            Some(1nat),
            Some(ValueKind::Cipher),
            None,
            seq![],
            seq![],
            "Default encryption method"@,
        ),
        entry(
            relay_options()[1],
            "TIMEOUT"@,
            None,
            Some("timeout"@),
            seq![],
            Action::Store,
            Some(1nat),
            Some(ValueKind::U64),
            None,
            seq![],
            seq![],
            "Default timeout seconds for TCP relay"@,
        ),
        entry(
            relay_options()[2],
            "PLUGIN"@,
            None,
            Some("plugin"@),
            seq![],
            Action::Store,
            Some(1nat),
            None,
            Some(Hint::CommandName),
            seq![],
            seq![],
            "Default SIP003 (https://shadowsocks.org/doc/sip003.html) plugin"@,
        ),
        entry(
            relay_options()[3],
            "PLUGIN_MODE"@,
            None,
            Some("plugin-mode"@),
            seq![],
            Action::Store,
            Some(1nat),
            None,
            None,
            seq![],
            seq!["PLUGIN"@],
            "SIP003/SIP003u plugin mode, must be one of `tcp_only` (default), `udp_only` and `tcp_and_udp`"@,
        ),
        entry(
            relay_options()[4],
            "PLUGIN_OPT"@,
            None,
            Some("plugin-opts"@),
            seq![],
            Action::Store,
            Some(1nat),
            None,
            None,
            seq![],
            seq!["PLUGIN"@],
            "Default SIP003 plugin options"@,
        ),
        entry(
            relay_options()[5],
            "ACL"@,
            None,
            Some("acl"@),
            seq![],
            Action::Store,
            Some(1nat),
            None,
            Some(Hint::FilePath),
            seq![],
            seq![],
            "Path to ACL (Access Control List)"@,
        ),
        entry(
            relay_options()[6],
            "DNS"@,
            None,
            Some("dns"@),
            seq![],
            Action::Store,
            Some(1nat),
            None,
            None,
            seq![],
            seq![],
            "DNS nameservers, formatted like [(tcp|udp)://]host[:port][,host[:port]]..., or unix:///path/to/dns, or predefined keys like \"google\", \"cloudflare\""@,
        ),
        entry(
            relay_options()[7],
            "DNS_CACHE_SIZE"@,
            None,
            Some("dns-cache-size"@),
            seq![],
            Action::Store,
            Some(1nat),
            Some(ValueKind::Usize),
            None,
            seq![],
            seq![],
            "DNS cache size in number of records. Works when trust-dns DNS backend is used."@,
        ),
{
    reveal(relay_options);
}

proof fn lemma_socket_entries()
    ensures
        socket_options().len() == 6,
        entry(
            socket_options()[0],
            "TCP_NO_DELAY"@,
            None,
            Some("tcp-no-delay"@),
            seq!["no-delay"@],
            Action::SetTrue,
            None,
            None,
            None,
            seq![],
            seq![],
            "Set TCP_NODELAY option for sockets"@,
        ),
        entry(
            socket_options()[1],
            "TCP_FAST_OPEN"@,
            None,
            Some("tcp-fast-open"@),
            seq!["fast-open"@],
            Action::SetTrue,
            None,
            None,
            None,
            seq![],
            seq![],
            "Enable TCP Fast Open (TFO)"@,
        ),
        entry(
            socket_options()[2],
            "TCP_KEEP_ALIVE"@,
            None,
            Some("tcp-keep-alive"@),
            seq![],
            Action::Store,
            Some(1nat),
            Some(ValueKind::U64),
            None,
            seq![],
            seq![],
            "Set TCP keep alive timeout seconds"@,
        ),
        entry(
            socket_options()[3],
            "TCP_MULTIPATH"@,
            None,
            Some("tcp-multipath"@),
            seq!["mptcp"@],
            Action::SetTrue,
            None,
            None,
            None,
            seq![],
            seq![],
            "Enable Multipath-TCP (MPTCP)"@,
        ),
        entry(
            socket_options()[4],
            "UDP_TIMEOUT"@,
            None,
            Some("udp-timeout"@),
            seq![],
            Action::Store,
            Some(1nat),
            Some(ValueKind::U64),
            None,
            seq![],
            seq![],
            "Timeout seconds for UDP relay"@,
        ),
        entry(
            socket_options()[5],
            "UDP_MAX_ASSOCIATIONS"@,
            None,
            Some("udp-max-associations"@),
            seq![],
            Action::Store,
            Some(1nat),
            Some(ValueKind::Usize),
            None,
            seq![],
            seq![],
            "Maximum associations to be kept simultaneously for UDP relay"@,
        ),
{
    reveal(socket_options);
}

proof fn lemma_buffer_entries()
    ensures
        buffer_options().len() == 5,
        entry(
            buffer_options()[0],
            "INBOUND_SEND_BUFFER_SIZE"@,
            None,
            Some("inbound-send-buffer-size"@),
            seq![],
            Action::Store,
            Some(1nat),
            Some(ValueKind::U32),
            None,
            seq![],
            seq![],
            "Set inbound sockets' SO_SNDBUF option"@,
        ),
        entry(
            buffer_options()[1],
            "INBOUND_RECV_BUFFER_SIZE"@,
            None,
            Some("inbound-recv-buffer-size"@),
            seq![],
            Action::Store,
            Some(1nat),
            Some(ValueKind::U32),
            None,
            seq![],
            seq![],
            "Set inbound sockets' SO_RCVBUF option"@,
        ),
        entry(
            buffer_options()[2],
            "OUTBOUND_SEND_BUFFER_SIZE"@,
            None,
            Some("outbound-send-buffer-size"@),
            seq![],
            Action::Store,
            Some(1nat),
            Some(ValueKind::U32),
            None,
            seq![],
            seq![],
            "Set outbound sockets' SO_SNDBUF option"@,
        ),
        entry(
            buffer_options()[3],
            "OUTBOUND_RECV_BUFFER_SIZE"@,
            None,
            Some("outbound-recv-buffer-size"@),
            seq![],
            Action::Store,
            Some(1nat),
            Some(ValueKind::U32),
            None,
            seq![],
            seq![],
            "Set outbound sockets' SO_RCVBUF option"@,
        ),
        entry(
            buffer_options()[4],
            "IPV6_FIRST"@,
            Some('6'),
            None,
            seq![],
            Action::SetTrue,
            None,
            None,
            None,
            seq![],
            seq![],
            "Resolve hostname to IPv6 address first"@,
        ),
{
    reveal(buffer_options);
}

proof fn lemma_logging_entries()
    ensures
        logging_options().len() == 3,
        entry(
            logging_options()[0],
            "VERBOSE"@,
            Some('v'),
            None,
            seq![],
            Action::Count,
            None,
            None,
            None,
            seq![],
            seq![],
            "Set log level"@,
        ),
        entry(
            logging_options()[1],
            "LOG_WITHOUT_TIME"@,
            None,
            Some("log-without-time"@),
            seq![],
            Action::SetTrue,
            None,
            None,
            None,
            seq![],
            seq![],
            "Log without datetime prefix"@,
        ),
        entry(
            logging_options()[2],
            "LOG_CONFIG"@,
            None,
            Some("log-config"@),
            seq![],
            Action::Store,
            Some(1nat),
            Some(ValueKind::Path),
            Some(Hint::FilePath),
            seq![],
            seq![],
            "log4rs configuration file"@,
        ),
{
    reveal(logging_options);
}

proof fn lemma_process_entries()
    ensures
        process_options().len() == 4,
        entry(
            process_options()[0],
            "DAEMONIZE"@,
            Some('d'),
            Some("daemonize"@),
            seq![],
            Action::SetTrue,
            None,
            None,
            None,
            seq![],
            seq![],
            "Daemonize"@,
        ),
        entry(
            process_options()[1],
            "DAEMONIZE_PID_PATH"@,
            None,
            Some("daemonize-pid"@),
            seq![],
            Action::Store,
            Some(1nat),
            Some(ValueKind::Path),
            Some(Hint::FilePath),
            seq![],
            seq![],
            "File path to store daemonized process's PID"@,
        ),
        entry(
            process_options()[2],
            "MANAGER_SERVER_MODE"@,
            None,
            Some("manager-server-mode"@),
            seq![],
            Action::Store,
            Some(1nat),
            Some(ValueKind::ServerMode),
            None,
            seq![],
            seq![],
            "Servers mode: builtin (default) or standalone"@,
        ),
        entry(
            process_options()[3],
            "MANAGER_SERVER_WORKING_DIRECTORY"@,
            None,
            Some("manager-server-working-directory"@),
            seq![],
            Action::Store,
            Some(1nat),
            Some(ValueKind::Path),
            Some(Hint::DirPath),
            seq![],
            seq![],
            "Folder for putting servers' configuration and pid files, default is current directory"@,
        ),
{
    reveal(process_options);
}

proof fn lemma_nofile_entries()
    ensures
        nofile_options().len() == 1,
        entry(
            nofile_options()[0],
            "NOFILE"@,
            Some('n'),
            Some("nofile"@),
            seq![],
            Action::Store,
            Some(1nat),
            Some(ValueKind::U64),
            None,
            seq![],
            seq![],
            "Set RLIMIT_NOFILE with both soft and hard limit"@,
        ),
{
    reveal(nofile_options);
}

proof fn lemma_fwmark_entries()
    ensures
        fwmark_options().len() == 1,
        entry(
            fwmark_options()[0],
            "OUTBOUND_FWMARK"@,
            None,
            Some("outbound-fwmark"@),
            seq![],
            Action::Store,
            Some(1nat),
            Some(ValueKind::U32),
            None,
            seq![],
            seq![],
            "Set SO_MARK option for outbound sockets"@,
        ),
{
    reveal(fwmark_options);
}

proof fn lemma_cookie_entries()
    ensures
        cookie_options().len() == 1,
        entry(
            cookie_options()[0],
            "OUTBOUND_USER_COOKIE"@,
            None,
            Some("outbound-user-cookie"@),
            seq![],
            Action::Store,
            Some(1nat),
            Some(ValueKind::U32),
            None,
            seq![],
            seq![],
            "Set SO_USER_COOKIE option for outbound sockets"@,
        ),
{
    reveal(cookie_options);
}

proof fn lemma_thread_entries()
    ensures
        thread_options().len() == 2,
        entry(
            thread_options()[0],
            "SINGLE_THREADED"@,
            None,
            Some("single-threaded"@),
            seq![],
            Action::SetTrue,
            None,
            None,
            None,
            seq![],
            seq![],
            "Run the program all in one thread"@,
        ),
        entry(
            thread_options()[1],
            "WORKER_THREADS"@,
            None,
            Some("worker-threads"@),
            seq![],
            Action::Store,
            Some(1nat),
            Some(ValueKind::Usize),
            None,
            seq![],
            seq![],
            "Sets the number of worker threads the `Runtime` will use"@,
        ),
{
    reveal(thread_options);
}

proof fn lemma_user_entries()
    ensures
        user_options().len() == 1,
        entry(
            user_options()[0],
            "USER"@,
            Some('a'),
            Some("user"@),
            seq![],
            Action::Store,
            Some(1nat),
            None,
            Some(Hint::Username),
            seq![],
            seq![],
            "Run as another user"@,
        ),
{
    reveal(user_options);
}

/// What comes first: the configuration file, the relayed protocols and the addresses.
pub proof fn law_listing_of_addresses(target: Target)
    ensures
        entry(
            manager_options(target)[0],
            "CONFIG"@,
            Some('c'),
            Some("config"@),
            seq![],
            Action::Store,
            Some(1nat),
            Some(ValueKind::Path),
            Some(Hint::FilePath),
            seq![],
            seq![],
            "Shadowsocks configuration file (https://shadowsocks.org/doc/configs.html), the only required fields are \"manager_address\" and \"manager_port\". Servers defined will be created when process is started."@,
        ),
        entry(
            manager_options(target)[1],
            "UDP_ONLY"@,
            Some('u'),
            None,
            seq![],
            Action::SetTrue,
            None,
            None,
            None,
            seq!["TCP_AND_UDP"@],
            seq![],
            "Server mode UDP_ONLY"@,
        ),
        entry(
            manager_options(target)[2],
            "TCP_AND_UDP"@,
            Some('U'),
            None,
            seq![],
            Action::SetTrue,
            None,
            None,
            None,
            seq![],
            seq![],
            "Server mode TCP_AND_UDP"@,
        ),
        entry(
            manager_options(target)[3],
            "OUTBOUND_BIND_ADDR"@,
            Some('b'),
            Some("outbound-bind-addr"@),
            seq!["bind-addr"@],
            Action::Store,
            Some(1nat),
            Some(ValueKind::IpAddr),
            None,
            seq![],
            seq![],
            "Bind address, outbound socket will bind this address"@,
        ),
        entry(
            manager_options(target)[4],
            "OUTBOUND_BIND_INTERFACE"@,
            None,
            Some("outbound-bind-interface"@),
            seq![],
            Action::Store,
            Some(1nat),
            None,
            None,
            seq![],
            seq![],
            "Set SO_BINDTODEVICE / IP_BOUND_IF / IP_UNICAST_IF option for outbound socket"@,
        ),
        entry(
            manager_options(target)[5],
            "SERVER_HOST"@,
            Some('s'),
            Some("server-host"@),
            seq![],
            Action::Store,
            Some(1nat),
            Some(ValueKind::ServerHost),
            None,
            seq![],
            seq![],
            "Host name or IP address of your remote server"@,
        ),
        entry(
            manager_options(target)[6],
            "MANAGER_ADDR"@,
            None,
            Some("manager-addr"@),
            seq!["manager-address"@],
            Action::Store,
            Some(1nat),
            Some(ValueKind::ManagerAddr),
            None,
            seq![],
            seq![],
            "ShadowSocks Manager (ssmgr) address, could be ip:port, domain:port or /path/to/unix.sock"@,
        ),
{
    lemma_server_entries();
    lemma_relay_entries();
    lemma_socket_entries();
    lemma_buffer_entries();
    assert(manager_options(target)[0] == server_options()[0]);
    assert(manager_options(target)[1] == server_options()[1]);
    assert(manager_options(target)[2] == server_options()[2]);
    assert(manager_options(target)[3] == server_options()[3]);
    assert(manager_options(target)[4] == server_options()[4]);
    assert(manager_options(target)[5] == server_options()[5]);
    assert(manager_options(target)[6] == server_options()[6]);
}

/// What follows: defaults for servers, access control and name resolution. Only what a plugin
/// relays and its options need something, the plugin.
pub proof fn law_listing_of_defaults_for_servers(target: Target)
    ensures
        entry(
            manager_options(target)[7],
            "ENCRYPT_METHOD"@,
            Some('m'),
            Some("encrypt-method"@),
            seq![],
            Action::Store,
            Some(1nat),
            Some(ValueKind::Cipher),
            None,
            seq![],
            seq![],
            "Default encryption method"@,
        ),
        entry(
            manager_options(target)[8],
            "TIMEOUT"@,
            None,
            Some("timeout"@),
            seq![],
            Action::Store,
            Some(1nat),
            Some(ValueKind::U64),
            None,
            seq![],
            seq![],
            "Default timeout seconds for TCP relay"@,
        ),
        entry(
            manager_options(target)[9],
            "PLUGIN"@,
            None,
            Some("plugin"@),
            seq![],
            Action::Store,
            Some(1nat),
            None,
            Some(Hint::CommandName),
            seq![],
            seq![],
            "Default SIP003 (https://shadowsocks.org/doc/sip003.html) plugin"@,
        ),
        entry(
            manager_options(target)[10],
            "PLUGIN_MODE"@,
            None,
            Some("plugin-mode"@),
            seq![],
            Action::Store,
            Some(1nat),
            None,
            None,
            seq![],
            seq!["PLUGIN"@],
            "SIP003/SIP003u plugin mode, must be one of `tcp_only` (default), `udp_only` and `tcp_and_udp`"@,
        ),
        entry(
            manager_options(target)[11],
            "PLUGIN_OPT"@,
            None,
            Some("plugin-opts"@),
            seq![],
            Action::Store,
            Some(1nat),
            None,
            None,
            seq![],
            seq!["PLUGIN"@],
            "Default SIP003 plugin options"@,
        ),
        entry(
            manager_options(target)[12],
            "ACL"@,
            None,
            Some("acl"@),
            seq![],
            Action::Store,
            Some(1nat),
            None,
            Some(Hint::FilePath),
            seq![],
            seq![],
            "Path to ACL (Access Control List)"@,
        ),
        entry(
            manager_options(target)[13],
            "DNS"@,
            None,
            Some("dns"@),
            seq![],
            Action::Store,
            Some(1nat),
            None,
            None,
            seq![],
            seq![],
            "DNS nameservers, formatted like [(tcp|udp)://]host[:port][,host[:port]]..., or unix:///path/to/dns, or predefined keys like \"google\", \"cloudflare\""@,
        ),
        entry(
            manager_options(target)[14],
            "DNS_CACHE_SIZE"@,
            None,
            Some("dns-cache-size"@),
            seq![],
            Action::Store,
            Some(1nat),
            Some(ValueKind::Usize),
            None,
            seq![],
            seq![],
            "DNS cache size in number of records. Works when trust-dns DNS backend is used."@,
        ),
{
    lemma_server_entries();
    lemma_relay_entries();
    lemma_socket_entries();
    lemma_buffer_entries();
    assert(manager_options(target)[7] == relay_options()[0]);
    assert(manager_options(target)[8] == relay_options()[1]);
    assert(manager_options(target)[9] == relay_options()[2]);
    assert(manager_options(target)[10] == relay_options()[3]);
    assert(manager_options(target)[11] == relay_options()[4]);
    assert(manager_options(target)[12] == relay_options()[5]);
    assert(manager_options(target)[13] == relay_options()[6]);
    assert(manager_options(target)[14] == relay_options()[7]);
}

/// What follows: TCP and UDP. Nothing here needs or excludes another option.
pub proof fn law_listing_of_sockets(target: Target)
    ensures
        entry(
            manager_options(target)[15],
            "TCP_NO_DELAY"@,
            None,
            Some("tcp-no-delay"@),
            seq!["no-delay"@],
            Action::SetTrue,
            None,
            None,
            None,
            seq![],
            seq![],
            "Set TCP_NODELAY option for sockets"@,
        ),
        entry(
            manager_options(target)[16],
            "TCP_FAST_OPEN"@,
            None,
            Some("tcp-fast-open"@),
            seq!["fast-open"@],
            Action::SetTrue,
            None,
            None,
            None,
            seq![],
            seq![],
            "Enable TCP Fast Open (TFO)"@,
        ),
        entry(
            manager_options(target)[17],
            "TCP_KEEP_ALIVE"@,
            None,
            Some("tcp-keep-alive"@),
            seq![],
            Action::Store,
            Some(1nat),
            Some(ValueKind::U64),
            None,
            seq![],
            seq![],
            "Set TCP keep alive timeout seconds"@,
        ),
        entry(
            manager_options(target)[18],
            "TCP_MULTIPATH"@,
            None,
            Some("tcp-multipath"@),
            seq!["mptcp"@],
            Action::SetTrue,
            None,
            None,
            None,
            seq![],
            seq![],
            "Enable Multipath-TCP (MPTCP)"@,
        ),
        entry(
            manager_options(target)[19],
            "UDP_TIMEOUT"@,
            None,
            Some("udp-timeout"@),
            seq![],
            Action::Store,
            Some(1nat),
            Some(ValueKind::U64),
            None,
            seq![],
            seq![],
            "Timeout seconds for UDP relay"@,
        ),
        entry(
            manager_options(target)[20],
            "UDP_MAX_ASSOCIATIONS"@,
            None,
            Some("udp-max-associations"@),
            seq![],
            Action::Store,
            Some(1nat),
            Some(ValueKind::Usize),
            None,
            seq![],
            seq![],
            "Maximum associations to be kept simultaneously for UDP relay"@,
        ),
{
    lemma_server_entries();
    lemma_relay_entries();
    lemma_socket_entries();
    lemma_buffer_entries();
    assert(manager_options(target)[15] == socket_options()[0]);
    assert(manager_options(target)[16] == socket_options()[1]);
    assert(manager_options(target)[17] == socket_options()[2]);
    assert(manager_options(target)[18] == socket_options()[3]);
    assert(manager_options(target)[19] == socket_options()[4]);
    assert(manager_options(target)[20] == socket_options()[5]);
}

/// What follows: buffers and the preferred addresses.
pub proof fn law_listing_of_buffers(target: Target)
    ensures
        entry(
            manager_options(target)[21],
            "INBOUND_SEND_BUFFER_SIZE"@,
            None,
            Some("inbound-send-buffer-size"@),
            seq![],
            Action::Store,
            Some(1nat),
            Some(ValueKind::U32),
            None,
            seq![],
            seq![],
            "Set inbound sockets' SO_SNDBUF option"@,
        ),
        entry(
            manager_options(target)[22],
            "INBOUND_RECV_BUFFER_SIZE"@,
            None,
            Some("inbound-recv-buffer-size"@),
            seq![],
            Action::Store,
            Some(1nat),
            Some(ValueKind::U32),
            None,
            seq![],
            seq![],
            "Set inbound sockets' SO_RCVBUF option"@,
        ),
        entry(
            manager_options(target)[23],
            "OUTBOUND_SEND_BUFFER_SIZE"@,
            None,
            Some("outbound-send-buffer-size"@),
            seq![],
            Action::Store,
            Some(1nat),
            Some(ValueKind::U32),
            None,
            seq![],
            seq![],
            "Set outbound sockets' SO_SNDBUF option"@,
        ),
        entry(
            manager_options(target)[24],
            "OUTBOUND_RECV_BUFFER_SIZE"@,
            None,
            Some("outbound-recv-buffer-size"@),
            seq![],
            Action::Store,
            Some(1nat),
            Some(ValueKind::U32),
            None,
            seq![],
            seq![],
            "Set outbound sockets' SO_RCVBUF option"@,
        ),
        entry(
            manager_options(target)[25],
            "IPV6_FIRST"@,
            Some('6'),
            None,
            seq![],
            Action::SetTrue,
            None,
            None,
            None,
            seq![],
            seq![],
            "Resolve hostname to IPv6 address first"@,
        ),
{
    lemma_server_entries();
    lemma_relay_entries();
    lemma_socket_entries();
    lemma_buffer_entries();
    assert(manager_options(target)[21] == buffer_options()[0]);
    assert(manager_options(target)[22] == buffer_options()[1]);
    assert(manager_options(target)[23] == buffer_options()[2]);
    assert(manager_options(target)[24] == buffer_options()[3]);
    assert(manager_options(target)[25] == buffer_options()[4]);
}

/// How many options a manager has on a target, and where those of each kind start that only
/// some targets have.
pub open spec fn starts(target: Target) -> (int, int, int, int, int, int, int) {
    let process = 26 + if target.logging {
        3int
    } else {
        0
    };
    let nofile = process + if target.unix {
        4int
    } else {
        0
    };
    let fwmark = nofile + if target.unix && !target.android {
        1int
    } else {
        0
    };
    let cookie = fwmark + if target.linux || target.android {
        1int
    } else {
        0
    };
    let thread = cookie + if target.freebsd {
        1int
    } else {
        0
    };
    let user = thread + if target.multi_threaded {
        2int
    } else {
        0
    };
    let all = user + if target.unix {
        1int
    } else {
        0
    };
    (process, nofile, fwmark, cookie, thread, user, all)
}

/// What comes last, where a target has it: the log, the process and its servers, the limit on
/// open files, the firewall mark, the user cookie, threads and the user. There is nothing else.
pub proof fn law_listing_of_what_some_targets_have(target: Target)
    ensures
        ({
            let options = manager_options(target);
            let (process, nofile, fwmark, cookie, thread, user, all) = starts(target);
            &&& options.len() == all
            &&& target.logging ==> entry(
                options[26],
                "VERBOSE"@,
                Some('v'),
                None,
                seq![],
                Action::Count,
                None,
                None,
                None,
                seq![],
                seq![],
                "Set log level"@,
            )
            &&& target.logging ==> entry(
                options[27],
                "LOG_WITHOUT_TIME"@,
                None,
                Some("log-without-time"@),
                seq![],
                Action::SetTrue,
                None,
                None,
                None,
                seq![],
                seq![],
                "Log without datetime prefix"@,
            )
            &&& target.logging ==> entry(
                options[28],
                "LOG_CONFIG"@,
                None,
                Some("log-config"@),
                seq![],
                Action::Store,
                Some(1nat),
                Some(ValueKind::Path),
                Some(Hint::FilePath),
                seq![],
                seq![],
                "log4rs configuration file"@,
            )
            &&& target.unix ==> entry(
                options[process],
                "DAEMONIZE"@,
                Some('d'),
                Some("daemonize"@),
                seq![],
                Action::SetTrue,
                None,
                None,
                None,
                seq![],
                seq![],
                "Daemonize"@,
            )
            &&& target.unix ==> entry(
                options[process + 1],
                "DAEMONIZE_PID_PATH"@,
                None,
                Some("daemonize-pid"@),
                seq![],
                Action::Store,
                Some(1nat),
                Some(ValueKind::Path),
                Some(Hint::FilePath),
                seq![],
                seq![],
                "File path to store daemonized process's PID"@,
            )
            &&& target.unix ==> entry(
                options[process + 2],
                "MANAGER_SERVER_MODE"@,
                None,
                Some("manager-server-mode"@),
                seq![],
                Action::Store,
                Some(1nat),
                Some(ValueKind::ServerMode),
                None,
                seq![],
                seq![],
                "Servers mode: builtin (default) or standalone"@,
            )
            &&& target.unix ==> entry(
                options[process + 3],
                "MANAGER_SERVER_WORKING_DIRECTORY"@,
                None,
                Some("manager-server-working-directory"@),
                seq![],
                Action::Store,
                Some(1nat),
                Some(ValueKind::Path),
                Some(Hint::DirPath),
                seq![],
                seq![],
                "Folder for putting servers' configuration and pid files, default is current directory"@,
            )
            &&& target.unix && !target.android ==> entry(
                options[nofile],
                "NOFILE"@,
                Some('n'),
                Some("nofile"@),
                seq![],
                Action::Store,
                Some(1nat),
                Some(ValueKind::U64),
                None,
                seq![],
                seq![],
                "Set RLIMIT_NOFILE with both soft and hard limit"@,
            )
            &&& target.linux || target.android ==> entry(
                options[fwmark],
                "OUTBOUND_FWMARK"@,
                None,
                Some("outbound-fwmark"@),
                seq![],
                Action::Store,
                Some(1nat),
                Some(ValueKind::U32),
                None,
                seq![],
                seq![],
                "Set SO_MARK option for outbound sockets"@,
            )
            &&& target.freebsd ==> entry(
                options[cookie],
                "OUTBOUND_USER_COOKIE"@,
                None,
                Some("outbound-user-cookie"@),
                seq![],
                Action::Store,
                Some(1nat),
                Some(ValueKind::U32),
                None,
                seq![],
                seq![],
                "Set SO_USER_COOKIE option for outbound sockets"@,
            )
            &&& target.multi_threaded ==> entry(
                options[thread],
                "SINGLE_THREADED"@,
                None,
                Some("single-threaded"@),
                seq![],
                Action::SetTrue,
                None,
                None,
                None,
                seq![],
                seq![],
                "Run the program all in one thread"@,
            )
            &&& target.multi_threaded ==> entry(
                options[thread + 1],
                "WORKER_THREADS"@,
                None,
                Some("worker-threads"@),
                seq![],
                Action::Store,
                Some(1nat),
                Some(ValueKind::Usize),
                None,
                seq![],
                seq![],
                "Sets the number of worker threads the `Runtime` will use"@,
            )
            &&& target.unix ==> entry(
                options[user],
                "USER"@,
                Some('a'),
                Some("user"@),
                seq![],
                Action::Store,
                Some(1nat),
                None,
                Some(Hint::Username),
                seq![],
                seq![],
                "Run as another user"@,
            )
        }),
{
    lemma_server_entries();
    lemma_relay_entries();
    lemma_socket_entries();
    lemma_buffer_entries();
    lemma_logging_entries();
    lemma_process_entries();
    lemma_nofile_entries();
    lemma_fwmark_entries();
    lemma_cookie_entries();
    lemma_thread_entries();
    lemma_user_entries();
    let options = manager_options(target);
    let (process, nofile, fwmark, cookie, thread, user, all) = starts(target);
    let more = target_options(target);
    assert(common_options().len() == 26);
    assert(forall|i: int| 0 <= i < more.len() ==> #[trigger] more[i] == options[26 + i]);
    if target.logging {
        assert(more[0] == logging_options()[0]);
        assert(more[1] == logging_options()[1]);
        assert(more[2] == logging_options()[2]);
    }
    if target.unix {
        assert(more[process - 26] == process_options()[0]);
        assert(more[process + 1 - 26] == process_options()[1]);
        assert(more[process + 2 - 26] == process_options()[2]);
        assert(more[process + 3 - 26] == process_options()[3]);
    }
    if target.unix && !target.android {
        assert(more[nofile - 26] == nofile_options()[0]);
    }
    if target.linux || target.android {
        assert(more[fwmark - 26] == fwmark_options()[0]);
    }
    if target.freebsd {
        assert(more[cookie - 26] == cookie_options()[0]);
    }
    if target.multi_threaded {
        assert(more[thread - 26] == thread_options()[0]);
        assert(more[thread + 1 - 26] == thread_options()[1]);
    }
    if target.unix {
        assert(more[user - 26] == user_options()[0]);
    }
}

/// Only what a plugin relays and the options of a plugin need another option, and that is the
/// plugin. Only `UDP_ONLY` excludes another, and that is `TCP_AND_UDP`.
pub proof fn law_what_options_need_and_exclude(target: Target, i: int)
    requires
        0 <= i < manager_options(target).len(),
    ensures
        ({
            let option = manager_options(target)[i];
            &&& option.id == "PLUGIN_MODE"@ || option.id == "PLUGIN_OPT"@ ==> option.requirements
                =~= seq!["PLUGIN"@]
            &&& option.id != "PLUGIN_MODE"@ && option.id != "PLUGIN_OPT"@
                ==> option.requirements.len() == 0
            &&& option.id == "UDP_ONLY"@ ==> option.conflicts =~= seq!["TCP_AND_UDP"@]
            &&& option.id != "UDP_ONLY"@ ==> option.conflicts.len() == 0
        }),
{
    lemma_server_entries();
    lemma_relay_entries();
    lemma_socket_entries();
    lemma_buffer_entries();
    lemma_logging_entries();
    lemma_process_entries();
    lemma_nofile_entries();
    lemma_fwmark_entries();
    lemma_cookie_entries();
    lemma_thread_entries();
    lemma_user_entries();
    law_listing_of_addresses(target);
    law_listing_of_defaults_for_servers(target);
    law_listing_of_sockets(target);
    law_listing_of_buffers(target);
    law_listing_of_what_some_targets_have(target);
    law_options_are_coherent(target);
    let options = manager_options(target);
    let (process, nofile, fwmark, cookie, thread, user, all) = starts(target);
    if i == 1 || i == 10 || i == 11 {
    } else if i < 26 {
        assert(options[i].id != options[1].id && options[i].id != options[10].id && options[i].id
            != options[11].id);
    }
}

/// There is one group, which tells whether the address of the manager was given.
pub proof fn law_listing_of_groups()
    ensures
        manager_groups().len() == 1,
        manager_groups()[0].id == "SERVER_CONFIG"@,
        manager_groups()[0].members =~= seq!["MANAGER_ADDR"@],
{
}

} // verus!
