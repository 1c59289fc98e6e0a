//! Help texts of the command line options, one constant for each option.

use vstd::prelude::*;

verus! {

pub const CONFIG: &'static str = "Shadowsocks configuration file (https://shadowsocks.org/doc/configs.html), the only required fields are \"manager_address\" and \"manager_port\". Servers defined will be created when process is started.";

pub const UDP_ONLY: &'static str = "Server mode UDP_ONLY";

pub const TCP_AND_UDP: &'static str = "Server mode TCP_AND_UDP";

pub const OUTBOUND_BIND_ADDR: &'static str = "Bind address, outbound socket will bind this address";

pub const OUTBOUND_BIND_INTERFACE: &'static str = "Set SO_BINDTODEVICE / IP_BOUND_IF / IP_UNICAST_IF option for outbound socket";

pub const SERVER_HOST: &'static str = "Host name or IP address of your remote server";

pub const MANAGER_ADDR: &'static str = "ShadowSocks Manager (ssmgr) address, could be ip:port, domain:port or /path/to/unix.sock";

pub const ENCRYPT_METHOD: &'static str = "Default encryption method";

pub const TIMEOUT: &'static str = "Default timeout seconds for TCP relay";

pub const PLUGIN: &'static str = "Default SIP003 (https://shadowsocks.org/doc/sip003.html) plugin";

pub const PLUGIN_MODE: &'static str = "SIP003/SIP003u plugin mode, must be one of `tcp_only` (default), `udp_only` and `tcp_and_udp`";

pub const PLUGIN_OPT: &'static str = "Default SIP003 plugin options";

pub const ACL: &'static str = "Path to ACL (Access Control List)";

pub const DNS: &'static str = "DNS nameservers, formatted like [(tcp|udp)://]host[:port][,host[:port]]..., or unix:///path/to/dns, or predefined keys like \"google\", \"cloudflare\"";

pub const DNS_CACHE_SIZE: &'static str = "DNS cache size in number of records. Works when trust-dns DNS backend is used.";

pub const TCP_NO_DELAY: &'static str = "Set TCP_NODELAY option for sockets";

pub const TCP_FAST_OPEN: &'static str = "Enable TCP Fast Open (TFO)";

pub const TCP_KEEP_ALIVE: &'static str = "Set TCP keep alive timeout seconds";

pub const TCP_MULTIPATH: &'static str = "Enable Multipath-TCP (MPTCP)";

pub const UDP_TIMEOUT: &'static str = "Timeout seconds for UDP relay";

pub const UDP_MAX_ASSOCIATIONS: &'static str = "Maximum associations to be kept simultaneously for UDP relay";

pub const INBOUND_SEND_BUFFER_SIZE: &'static str = "Set inbound sockets' SO_SNDBUF option";

pub const INBOUND_RECV_BUFFER_SIZE: &'static str = "Set inbound sockets' SO_RCVBUF option";

pub const OUTBOUND_SEND_BUFFER_SIZE: &'static str = "Set outbound sockets' SO_SNDBUF option";

pub const OUTBOUND_RECV_BUFFER_SIZE: &'static str = "Set outbound sockets' SO_RCVBUF option";

pub const IPV6_FIRST: &'static str = "Resolve hostname to IPv6 address first";

pub const VERBOSE: &'static str = "Set log level";

pub const LOG_WITHOUT_TIME: &'static str = "Log without datetime prefix";

pub const LOG_CONFIG: &'static str = "log4rs configuration file";

pub const DAEMONIZE: &'static str = "Daemonize";

pub const DAEMONIZE_PID_PATH: &'static str = "File path to store daemonized process's PID";

pub const MANAGER_SERVER_MODE: &'static str = "Servers mode: builtin (default) or standalone";

pub const MANAGER_SERVER_WORKING_DIRECTORY: &'static str = "Folder for putting servers' configuration and pid files, default is current directory";

pub const NOFILE: &'static str = "Set RLIMIT_NOFILE with both soft and hard limit";

pub const OUTBOUND_FWMARK: &'static str = "Set SO_MARK option for outbound sockets";

pub const OUTBOUND_USER_COOKIE: &'static str = "Set SO_USER_COOKIE option for outbound sockets";

pub const SINGLE_THREADED: &'static str = "Run the program all in one thread";

pub const WORKER_THREADS: &'static str = "Sets the number of worker threads the `Runtime` will use";

pub const USER: &'static str = "Run as another user";

} // verus!
