//! The command line: declaring the options of the manager.

use clap::builder::{PossibleValuesParser, ValueParser, ValueParserFactory};
use clap::{Arg, ArgAction, ArgGroup, Command, ValueHint};
use shadowsocks_service::config::ManagerServerHost;
use shadowsocks_service::shadowsocks::crypto::available_ciphers;
use vstd::prelude::*;

use crate::help;
use crate::options::{
    buffer_options, common_options, cookie_options, fwmark_options, included, logging_options,
    manager_groups, manager_options, nofile_options, process_options, relay_options,
    server_options, socket_options, target_options, thread_options, user_options, Action,
    GroupSpec, Hint, OptionSpec, ValueKind,
};
use crate::target::Target;
use crate::vparser;

verus! {

/// What an `Arg` declares.
pub uninterp spec fn declaration(arg: Arg) -> OptionSpec;

/// What an `ArgGroup` declares.
pub uninterp spec fn group_declaration(group: ArgGroup) -> GroupSpec;

/// The arguments that a `Command` holds, in order.
pub uninterp spec fn args_of(app: Command) -> Seq<Arg>;

/// The groups that a `Command` holds, in order.
pub uninterp spec fn groups_of(app: Command) -> Seq<ArgGroup>;

/// The options that a `Command` declares, in order.
pub open spec fn declared_options(app: Command) -> Seq<OptionSpec> {
    args_of(app).map_values(|arg: Arg| declaration(arg))
}

/// The groups of options that a `Command` declares, in order.
pub open spec fn declared_groups(app: Command) -> Seq<GroupSpec> {
    groups_of(app).map_values(|group: ArgGroup| group_declaration(group))
}

/// Whether a `Command` was made by its name alone and then given nothing but a version, an about
/// text, and options and groups that have nothing beyond what their declarations tell.
pub uninterp spec fn only_options(app: Command) -> bool;

/// The place in the help that the next option of a `Command` is given, where places are given.
pub uninterp spec fn next_order(app: Command) -> Option<nat>;

/// What a `Command` holds besides its options, its groups and the place of the next option: its
/// name, its version, its texts, its settings and its subcommands.
pub uninterp spec fn command_rest(app: Command) -> Command;

/// An option that is being declared.
struct Opt {
    arg: Arg,
}

impl Opt {
    /// `Arg::new`: an option of which only the id is set.
    #[verifier::external_body]
    fn new(id: &'static str) -> (r: Opt)
        ensures
            declaration(r.arg) == OptionSpec::new(id@),
    {
        Opt { arg: Arg::new(id) }
    }

    /// `Arg::short`: sets the letter. It stops the program on a `-`.
    #[verifier::external_body]
    fn short(self, short: char) -> (r: Opt)
        requires
            short != '-',
        ensures
            declaration(r.arg) == declaration(self.arg).with_short(short),
    {
        Opt { arg: self.arg.short(short) }
    }

    /// `Arg::long`: sets the long name.
    #[verifier::external_body]
    fn long(self, name: &'static str) -> (r: Opt)
        ensures
            declaration(r.arg) == declaration(self.arg).with_long(name@),
    {
        Opt { arg: self.arg.long(name) }
    }

    /// `Arg::alias`: adds another long name, which the help does not list.
    #[verifier::external_body]
    fn alias(self, name: &'static str) -> (r: Opt)
        ensures
            declaration(r.arg) == declaration(self.arg).with_alias(name@),
    {
        Opt { arg: self.arg.alias(name) }
    }

    /// `Arg::num_args`, for an exact number: sets how many values follow.
    #[verifier::external_body]
    fn num_args(self, n: usize) -> (r: Opt)
        ensures
            declaration(r.arg) == declaration(self.arg).with_num_args(n as nat),
    {
        Opt { arg: self.arg.num_args(n) }
    }

    /// `Arg::action`: sets what the option does.
    #[verifier::external_body]
    fn action(self, action: Action) -> (r: Opt)
        ensures
            declaration(r.arg) == declaration(self.arg).with_action(action),
    {
        let action = match action {
            Action::Store => ArgAction::Set,
            Action::SetTrue => ArgAction::SetTrue,
            Action::Count => ArgAction::Count,
        };
        Opt { arg: self.arg.action(action) }
    }

    /// `Arg::value_parser` with the parser of `u64` values.
    #[verifier::external_body]
    fn takes_u64(self) -> (r: Opt)
        ensures
            declaration(r.arg) == declaration(self.arg).with_kind(ValueKind::U64),
    {
        Opt { arg: self.arg.value_parser(<u64 as ValueParserFactory>::value_parser()) }
    }

    /// `Arg::value_parser` with the parser of `u32` values.
    #[verifier::external_body]
    fn takes_u32(self) -> (r: Opt)
        ensures
            declaration(r.arg) == declaration(self.arg).with_kind(ValueKind::U32),
    {
        Opt { arg: self.arg.value_parser(<u32 as ValueParserFactory>::value_parser()) }
    }

    /// `Arg::value_parser` with what `str::parse` makes of a text as a `usize`.
    #[verifier::external_body]
    fn takes_usize(self) -> (r: Opt)
        ensures
            declaration(r.arg) == declaration(self.arg).with_kind(ValueKind::Usize),
    {
        Opt { arg: self.arg.value_parser(|v: &str| v.parse::<usize>()) }
    }

    /// `Arg::value_parser` with the parser of paths.
    #[verifier::external_body]
    fn takes_path(self) -> (r: Opt)
        ensures
            declaration(r.arg) == declaration(self.arg).with_kind(ValueKind::Path),
    {
        Opt { arg: self.arg.value_parser(ValueParser::path_buf()) }
    }

    /// `Arg::value_parser` with `parse_ip_addr`, of which the IP address itself is kept.
    #[verifier::external_body]
    fn takes_ip_addr(self) -> (r: Opt)
        ensures
            declaration(r.arg) == declaration(self.arg).with_kind(ValueKind::IpAddr),
    {
        let parser = |v: &str| vparser::parse_ip_addr(v).and_then(|addr| match addr.into_host() {
            ManagerServerHost::Ip(ip) => Ok(ip),
            ManagerServerHost::Domain(name) => Err(name),
        });
        Opt { arg: self.arg.value_parser(parser) }
    }

    /// `Arg::value_parser` with `parse_manager_server_host`.
    #[verifier::external_body]
    fn takes_server_host(self) -> (r: Opt)
        ensures
            declaration(r.arg) == declaration(self.arg).with_kind(ValueKind::ServerHost),
    {
        Opt { arg: self.arg.value_parser(|v: &str| vparser::parse_manager_server_host(v)) }
    }

    /// `Arg::value_parser` with `parse_manager_addr`.
    #[verifier::external_body]
    fn takes_manager_addr(self) -> (r: Opt)
        ensures
            declaration(r.arg) == declaration(self.arg).with_kind(ValueKind::ManagerAddr),
    {
        Opt { arg: self.arg.value_parser(|v: &str| vparser::parse_manager_addr(v)) }
    }

    /// `Arg::value_parser` with `parse_manager_server_mode`.
    #[verifier::external_body]
    fn takes_server_mode(self) -> (r: Opt)
        ensures
            declaration(r.arg) == declaration(self.arg).with_kind(ValueKind::ServerMode),
    {
        Opt { arg: self.arg.value_parser(|v: &str| vparser::parse_manager_server_mode(v)) }
    }

    /// `Arg::value_parser` with the texts that `available_ciphers` lists as the possible values.
    #[verifier::external_body]
    fn takes_cipher(self) -> (r: Opt)
        ensures
            declaration(r.arg) == declaration(self.arg).with_kind(ValueKind::Cipher),
    {
        Opt { arg: self.arg.value_parser(PossibleValuesParser::new(available_ciphers())) }
    }

    /// `Arg::value_hint`: sets what the value names, for shell completion.
    #[verifier::external_body]
    fn hint(self, hint: Hint) -> (r: Opt)
        ensures
            declaration(r.arg) == declaration(self.arg).with_hint(hint),
    {
        let hint = match hint {
            Hint::FilePath => ValueHint::FilePath,
            Hint::DirPath => ValueHint::DirPath,
            Hint::CommandName => ValueHint::CommandName,
            Hint::Username => ValueHint::Username,
        };
        Opt { arg: self.arg.value_hint(hint) }
    }

    /// `Arg::conflicts_with`: adds an option that this one excludes.
    #[verifier::external_body]
    fn conflicts_with(self, id: &'static str) -> (r: Opt)
        ensures
            declaration(r.arg) == declaration(self.arg).with_conflict(id@),
    {
        Opt { arg: self.arg.conflicts_with(id) }
    }

    /// `Arg::requires`: adds an option that this one needs.
    #[verifier::external_body]
    fn requires_option(self, id: &'static str) -> (r: Opt)
        ensures
            declaration(r.arg) == declaration(self.arg).with_requirement(id@),
    {
        Opt { arg: self.arg.requires(id) }
    }

    /// `Arg::help`: sets the help text.
    #[verifier::external_body]
    fn help(self, text: &'static str) -> (r: Opt)
        ensures
            declaration(r.arg) == declaration(self.arg).with_help(text@),
    {
        Opt { arg: self.arg.help(text) }
    }
}

/// A place in the help, so many places further on, where places are given.
pub open spec fn further(order: Option<nat>, places: nat) -> Option<nat> {
    match order {
        Some(n) => Some(n + places),
        None => None,
    }
}

/// Whether so many more options can be given places in the help.
pub open spec fn has_places(app: Command, places: nat) -> bool {
    next_order(app) matches Some(n) ==> n + places <= usize::MAX
}

/// Whether `all` starts with `first`.
pub open spec fn starts_with<A>(all: Seq<A>, first: Seq<A>) -> bool {
    &&& first.len() <= all.len()
    &&& forall|i: int| 0 <= i < first.len() ==> #[trigger] all[i] == first[i]
}

/// `Command::arg`, for an option with a letter or a long name: appends the option, and gives it
/// a place in the help, where places are given. It stops the program where it runs out of them.
/// How the option is listed in the help is left open.
#[verifier::external_body]
fn push_arg(app: Command, option: Opt) -> (r: Command)
    requires
        next_order(app) matches Some(n) ==> n < usize::MAX,
        declaration(option.arg).short is Some || declaration(option.arg).long is Some,
    ensures
        args_of(r).len() == args_of(app).len() + 1,
        args_of(r).drop_last() == args_of(app),
        declaration(args_of(r).last()) == declaration(option.arg),
        groups_of(r) == groups_of(app),
        next_order(r) == further(next_order(app), 1),
        command_rest(r) == command_rest(app),
        only_options(app) ==> only_options(r),
{
    app.arg(option.arg)
}

/// `Command::group` with an `ArgGroup` of one member: appends the group.
#[verifier::external_body]
fn push_group(app: Command, id: &'static str, member: &'static str) -> (r: Command)
    ensures
        groups_of(r).len() == groups_of(app).len() + 1,
        groups_of(r).drop_last() == groups_of(app),
        group_declaration(groups_of(r).last()) == (GroupSpec { id: id@, members: seq![member@] }),
        args_of(r) == args_of(app),
        next_order(r) == next_order(app),
        command_rest(r) == command_rest(app),
        only_options(app) ==> only_options(r),
{
    app.group(ArgGroup::new(id).arg(member))
}

/// Whether `after` is `before` with `options` declared behind its own, and nothing else changed.
pub open spec fn extends(before: Command, after: Command, options: Seq<OptionSpec>) -> bool {
    &&& declared_options(after) == declared_options(before) + options
    &&& starts_with(args_of(after), args_of(before))
    &&& groups_of(after) == groups_of(before)
    &&& next_order(after) == further(next_order(before), options.len())
    &&& command_rest(after) == command_rest(before)
    &&& only_options(before) ==> only_options(after)
}

/// Appends an option.
fn add_option(app: Command, option: Opt) -> (r: Command)
    requires
        next_order(app) matches Some(n) ==> n < usize::MAX,
        declaration(option.arg).short is Some || declaration(option.arg).long is Some,
    ensures
        declared_options(r) == declared_options(app).push(declaration(option.arg)),
        starts_with(args_of(r), args_of(app)),
        groups_of(r) == groups_of(app),
        next_order(r) == further(next_order(app), 1),
        command_rest(r) == command_rest(app),
        only_options(app) ==> only_options(r),
{
    let r = push_arg(app, option);
    assert(forall|i: int|
        0 <= i < args_of(app).len() ==> #[trigger] args_of(r)[i] == args_of(r).drop_last()[i]);
    assert(declared_options(r) =~= declared_options(app).push(declaration(option.arg)));
    r
}

/// Appends the group of options that tell whether the manager is configured by the command line
/// alone.
fn add_manager_group(app: Command) -> (r: Command)
    ensures
        declared_groups(r) == declared_groups(app) + manager_groups(),
        starts_with(groups_of(r), groups_of(app)),
        args_of(r) == args_of(app),
        next_order(r) == next_order(app),
        command_rest(r) == command_rest(app),
        only_options(app) ==> only_options(r),
{
    let r = push_group(app, "SERVER_CONFIG", "MANAGER_ADDR");
    assert(forall|i: int|
        0 <= i < groups_of(app).len() ==> #[trigger] groups_of(r)[i] == groups_of(r).drop_last()[i]);
    assert(declared_groups(r) =~= declared_groups(app) + manager_groups());
    r
}

/// The options that come first: the configuration file, the relayed protocols, the addresses.
fn add_server_options(app: Command) -> (r: Command)
    requires
        has_places(app, server_options().len()),
    ensures
        extends(app, r, server_options()),
{
    let ghost before = declared_options(app);
    proof {
        reveal(server_options);
    }
    assert(server_options().len() == 7);
    let app = add_option(
        app,
        Opt::new("CONFIG").short('c').long("config").num_args(1).action(Action::Store)
            .takes_path().hint(Hint::FilePath).help(help::CONFIG),
    );
    let app = add_option(
        app,
        Opt::new("UDP_ONLY").short('u').action(Action::SetTrue).conflicts_with("TCP_AND_UDP")
            .help(help::UDP_ONLY),
    );
    let app = add_option(
        app,
        Opt::new("TCP_AND_UDP").short('U').action(Action::SetTrue).help(help::TCP_AND_UDP),
    );
    let app = add_option(
        app,
        Opt::new("OUTBOUND_BIND_ADDR").short('b').long("outbound-bind-addr").num_args(1)
            .action(Action::Store).alias("bind-addr").takes_ip_addr()
            .help(help::OUTBOUND_BIND_ADDR),
    );
    let app = add_option(
        app,
        Opt::new("OUTBOUND_BIND_INTERFACE").long("outbound-bind-interface").num_args(1)
            .action(Action::Store).help(help::OUTBOUND_BIND_INTERFACE),
    );
    let app = add_option(
        app,
        Opt::new("SERVER_HOST").short('s').long("server-host").num_args(1)
            .action(Action::Store).takes_server_host().help(help::SERVER_HOST),
    );
    let app = add_option(
        app,
        Opt::new("MANAGER_ADDR").long("manager-addr").num_args(1).action(Action::Store)
            .alias("manager-address").takes_manager_addr().help(help::MANAGER_ADDR),
    );
    assert(declared_options(app) =~= before + server_options());
    app
}

/// Defaults for the servers that the manager creates, access control and name resolution.
fn add_relay_options(app: Command) -> (r: Command)
    requires
        has_places(app, relay_options().len()),
    ensures
        extends(app, r, relay_options()),
{
    let ghost before = declared_options(app);
    proof {
        reveal(relay_options);
    }
    assert(relay_options().len() == 8);
    let app = add_option(
        app,
        Opt::new("ENCRYPT_METHOD").short('m').long("encrypt-method").num_args(1)
            .action(Action::Store).takes_cipher().help(help::ENCRYPT_METHOD),
    );
    let app = add_option(
        app,
        Opt::new("TIMEOUT").long("timeout").num_args(1).action(Action::Store).takes_u64()
            .help(help::TIMEOUT),
    );
    let app = add_option(
        app,
        Opt::new("PLUGIN").long("plugin").num_args(1).action(Action::Store)
            .hint(Hint::CommandName).help(help::PLUGIN),
    );
    let app = add_option(
        app,
        Opt::new("PLUGIN_MODE").long("plugin-mode").num_args(1).action(Action::Store)
            .requires_option("PLUGIN").help(help::PLUGIN_MODE),
    );
    let app = add_option(
        app,
        Opt::new("PLUGIN_OPT").long("plugin-opts").num_args(1).action(Action::Store)
            .requires_option("PLUGIN").help(help::PLUGIN_OPT),
    );
    let app = add_option(
        app,
        Opt::new("ACL").long("acl").num_args(1).action(Action::Store).hint(Hint::FilePath)
            .help(help::ACL),
    );
    let app = add_option(
        app,
        Opt::new("DNS").long("dns").num_args(1).action(Action::Store).help(help::DNS),
    );
    let app = add_option(
        app,
        Opt::new("DNS_CACHE_SIZE").long("dns-cache-size").num_args(1).action(Action::Store)
            .takes_usize().help(help::DNS_CACHE_SIZE),
    );
    assert(declared_options(app) =~= before + relay_options());
    app
}

/// TCP and UDP behaviour.
fn add_socket_options(app: Command) -> (r: Command)
    requires
        has_places(app, socket_options().len()),
    ensures
        extends(app, r, socket_options()),
{
    let ghost before = declared_options(app);
    proof {
        reveal(socket_options);
    }
    assert(socket_options().len() == 6);
    let app = add_option(
        app,
        Opt::new("TCP_NO_DELAY").long("tcp-no-delay").alias("no-delay").action(Action::SetTrue)
            .help(help::TCP_NO_DELAY),
    );
    let app = add_option(
        app,
        Opt::new("TCP_FAST_OPEN").long("tcp-fast-open").alias("fast-open")
            .action(Action::SetTrue).help(help::TCP_FAST_OPEN),
    );
    let app = add_option(
        app,
        Opt::new("TCP_KEEP_ALIVE").long("tcp-keep-alive").num_args(1).action(Action::Store)
            .takes_u64().help(help::TCP_KEEP_ALIVE),
    );
    let app = add_option(
        app,
        Opt::new("TCP_MULTIPATH").long("tcp-multipath").alias("mptcp").action(Action::SetTrue)
            .help(help::TCP_MULTIPATH),
    );
    let app = add_option(
        app,
        Opt::new("UDP_TIMEOUT").long("udp-timeout").num_args(1).action(Action::Store)
            .takes_u64().help(help::UDP_TIMEOUT),
    );
    let app = add_option(
        app,
        Opt::new("UDP_MAX_ASSOCIATIONS").long("udp-max-associations").num_args(1)
            .action(Action::Store).takes_usize().help(help::UDP_MAX_ASSOCIATIONS),
    );
    assert(declared_options(app) =~= before + socket_options());
    app
}

/// Socket buffer sizes and the preferred address family.
fn add_buffer_options(app: Command) -> (r: Command)
    requires
        has_places(app, buffer_options().len()),
    ensures
        extends(app, r, buffer_options()),
{
    let ghost before = declared_options(app);
    proof {
        reveal(buffer_options);
    }
    assert(buffer_options().len() == 5);
    let app = add_option(
        app,
        Opt::new("INBOUND_SEND_BUFFER_SIZE").long("inbound-send-buffer-size").num_args(1)
            .action(Action::Store).takes_u32().help(help::INBOUND_SEND_BUFFER_SIZE),
    );
    let app = add_option(
        app,
        Opt::new("INBOUND_RECV_BUFFER_SIZE").long("inbound-recv-buffer-size").num_args(1)
            .action(Action::Store).takes_u32().help(help::INBOUND_RECV_BUFFER_SIZE),
    );
    let app = add_option(
        app,
        Opt::new("OUTBOUND_SEND_BUFFER_SIZE").long("outbound-send-buffer-size").num_args(1)
            .action(Action::Store).takes_u32().help(help::OUTBOUND_SEND_BUFFER_SIZE),
    );
    let app = add_option(
        app,
        Opt::new("OUTBOUND_RECV_BUFFER_SIZE").long("outbound-recv-buffer-size").num_args(1)
            .action(Action::Store).takes_u32().help(help::OUTBOUND_RECV_BUFFER_SIZE),
    );
    let app = add_option(
        app,
        Opt::new("IPV6_FIRST").short('6').action(Action::SetTrue).help(help::IPV6_FIRST),
    );
    assert(declared_options(app) =~= before + buffer_options());
    app
}

/// Logging.
fn add_logging_options(app: Command, present: bool) -> (r: Command)
    requires
        has_places(app, included(present, logging_options()).len()),
    ensures
        extends(app, r, included(present, logging_options())),
{
    if !present {
        assert(declared_options(app) =~= declared_options(app) + seq![]);
        return app;
    }
    let ghost before = declared_options(app);
    proof {
        reveal(logging_options);
    }
    assert(logging_options().len() == 3);
    let app = add_option(
        app,
        Opt::new("VERBOSE").short('v').action(Action::Count).help(help::VERBOSE),
    );
    let app = add_option(
        app,
        Opt::new("LOG_WITHOUT_TIME").long("log-without-time").action(Action::SetTrue)
            .help(help::LOG_WITHOUT_TIME),
    );
    let app = add_option(
        app,
        Opt::new("LOG_CONFIG").long("log-config").num_args(1).action(Action::Store)
            .takes_path().hint(Hint::FilePath).help(help::LOG_CONFIG),
    );
    assert(declared_options(app) =~= before + logging_options());
    app
}

/// Running in the background, and how the servers are run.
fn add_process_options(app: Command, present: bool) -> (r: Command)
    requires
        has_places(app, included(present, process_options()).len()),
    ensures
        extends(app, r, included(present, process_options())),
{
    if !present {
        assert(declared_options(app) =~= declared_options(app) + seq![]);
        return app;
    }
    let ghost before = declared_options(app);
    proof {
        reveal(process_options);
    }
    assert(process_options().len() == 4);
    let app = add_option(
        app,
        Opt::new("DAEMONIZE").short('d').long("daemonize").action(Action::SetTrue)
            .help(help::DAEMONIZE),
    );
    let app = add_option(
        app,
        Opt::new("DAEMONIZE_PID_PATH").long("daemonize-pid").num_args(1).action(Action::Store)
            .takes_path().hint(Hint::FilePath).help(help::DAEMONIZE_PID_PATH),
    );
    let app = add_option(
        app,
        Opt::new("MANAGER_SERVER_MODE").long("manager-server-mode").num_args(1)
            .action(Action::Store).takes_server_mode().help(help::MANAGER_SERVER_MODE),
    );
    let app = add_option(
        app,
        Opt::new("MANAGER_SERVER_WORKING_DIRECTORY").long("manager-server-working-directory")
            .num_args(1).action(Action::Store).takes_path().hint(Hint::DirPath)
            .help(help::MANAGER_SERVER_WORKING_DIRECTORY),
    );
    assert(declared_options(app) =~= before + process_options());
    app
}

/// The limit on open files.
fn add_nofile_options(app: Command, present: bool) -> (r: Command)
    requires
        has_places(app, included(present, nofile_options()).len()),
    ensures
        extends(app, r, included(present, nofile_options())),
{
    if !present {
        assert(declared_options(app) =~= declared_options(app) + seq![]);
        return app;
    }
    let ghost before = declared_options(app);
    proof {
        reveal(nofile_options);
    }
    assert(nofile_options().len() == 1);
    let app = add_option(
        app,
        Opt::new("NOFILE").short('n').long("nofile").num_args(1).action(Action::Store)
            .takes_u64().help(help::NOFILE),
    );
    assert(declared_options(app) =~= before + nofile_options());
    app
}

/// The firewall mark of outbound sockets.
fn add_fwmark_options(app: Command, present: bool) -> (r: Command)
    requires
        has_places(app, included(present, fwmark_options()).len()),
    ensures
        extends(app, r, included(present, fwmark_options())),
{
    if !present {
        assert(declared_options(app) =~= declared_options(app) + seq![]);
        return app;
    }
    let ghost before = declared_options(app);
    proof {
        reveal(fwmark_options);
    }
    assert(fwmark_options().len() == 1);
    let app = add_option(
        app,
        Opt::new("OUTBOUND_FWMARK").long("outbound-fwmark").num_args(1).action(Action::Store)
            .takes_u32().help(help::OUTBOUND_FWMARK),
    );
    assert(declared_options(app) =~= before + fwmark_options());
    app
}

/// The user cookie of outbound sockets.
fn add_cookie_options(app: Command, present: bool) -> (r: Command)
    requires
        has_places(app, included(present, cookie_options()).len()),
    ensures
        extends(app, r, included(present, cookie_options())),
{
    if !present {
        assert(declared_options(app) =~= declared_options(app) + seq![]);
        return app;
    }
    let ghost before = declared_options(app);
    proof {
        reveal(cookie_options);
    }
    assert(cookie_options().len() == 1);
    let app = add_option(
        app,
        Opt::new("OUTBOUND_USER_COOKIE").long("outbound-user-cookie").num_args(1)
            .action(Action::Store).takes_u32().help(help::OUTBOUND_USER_COOKIE),
    );
    assert(declared_options(app) =~= before + cookie_options());
    app
}

/// The threads of the runtime.
fn add_thread_options(app: Command, present: bool) -> (r: Command)
    requires
        has_places(app, included(present, thread_options()).len()),
    ensures
        extends(app, r, included(present, thread_options())),
{
    if !present {
        assert(declared_options(app) =~= declared_options(app) + seq![]);
        return app;
    }
    let ghost before = declared_options(app);
    proof {
        reveal(thread_options);
    }
    assert(thread_options().len() == 2);
    let app = add_option(
        app,
        Opt::new("SINGLE_THREADED").long("single-threaded").action(Action::SetTrue)
            .help(help::SINGLE_THREADED),
    );
    let app = add_option(
        app,
        Opt::new("WORKER_THREADS").long("worker-threads").num_args(1).action(Action::Store)
            .takes_usize().help(help::WORKER_THREADS),
    );
    assert(declared_options(app) =~= before + thread_options());
    app
}

/// The user to run as.
fn add_user_options(app: Command, present: bool) -> (r: Command)
    requires
        has_places(app, included(present, user_options()).len()),
    ensures
        extends(app, r, included(present, user_options())),
{
    if !present {
        assert(declared_options(app) =~= declared_options(app) + seq![]);
        return app;
    }
    let ghost before = declared_options(app);
    proof {
        reveal(user_options);
    }
    assert(user_options().len() == 1);
    let app = add_option(
        app,
        Opt::new("USER").long("user").short('a').num_args(1).action(Action::Store)
            .hint(Hint::Username).help(help::USER),
    );
    assert(declared_options(app) =~= before + user_options());
    app
}

/// To add options and then others is to add them together.
proof fn lemma_extends(
    first: Command,
    middle: Command,
    last: Command,
    a: Seq<OptionSpec>,
    b: Seq<OptionSpec>,
)
    requires
        extends(first, middle, a),
        extends(middle, last, b),
    ensures
        extends(first, last, a + b),
{
    assert((declared_options(first) + a) + b =~= declared_options(first) + (a + b));
}

/// Adds the options that every manager has, and their group.
fn add_common_options(app: Command) -> (r: Command)
    requires
        has_places(app, common_options().len()),
    ensures
        declared_options(r) == declared_options(app) + common_options(),
        declared_groups(r) == declared_groups(app) + manager_groups(),
        starts_with(args_of(r), args_of(app)),
        starts_with(groups_of(r), groups_of(app)),
        next_order(r) == further(next_order(app), common_options().len()),
        command_rest(r) == command_rest(app),
        only_options(app) ==> only_options(r),
{
    let ghost app0 = app;
    let app = add_server_options(app);
    let app = add_manager_group(app);
    let ghost app1 = app;
    let app = add_relay_options(app);
    let ghost app2 = app;
    let app = add_socket_options(app);
    let ghost app3 = app;
    let app = add_buffer_options(app);
    proof {
        let listed = relay_options() + socket_options();
        lemma_extends(app1, app2, app3, relay_options(), socket_options());
        lemma_extends(app1, app3, app, listed, buffer_options());
        assert((declared_options(app0) + server_options()) + (listed + buffer_options())
            =~= declared_options(app0) + common_options());
    }
    app
}

/// Adds the options that only some targets have.
fn add_target_options(app: Command, target: Target) -> (r: Command)
    requires
        has_places(app, target_options(target).len()),
    ensures
        extends(app, r, target_options(target)),
{
    let ghost app0 = app;
    let app = add_logging_options(app, target.logging);
    let ghost listed = included(target.logging, logging_options());
    let ghost before = app;
    let ghost more = included(target.unix, process_options());
    let app = add_process_options(app, target.unix);
    proof {
        lemma_extends(app0, before, app, listed, more);
    }
    let ghost listed = listed + more;
    let ghost before = app;
    let ghost more = included(target.limits_files(), nofile_options());
    let app = add_nofile_options(app, target.unix && !target.android);
    proof {
        lemma_extends(app0, before, app, listed, more);
    }
    let ghost listed = listed + more;
    let ghost before = app;
    let ghost more = included(target.marks_sockets(), fwmark_options());
    let app = add_fwmark_options(app, target.linux || target.android);
    proof {
        lemma_extends(app0, before, app, listed, more);
    }
    let ghost listed = listed + more;
    let ghost before = app;
    let ghost more = included(target.freebsd, cookie_options());
    let app = add_cookie_options(app, target.freebsd);
    proof {
        lemma_extends(app0, before, app, listed, more);
    }
    let ghost listed = listed + more;
    let ghost before = app;
    let ghost more = included(target.multi_threaded, thread_options());
    let app = add_thread_options(app, target.multi_threaded);
    proof {
        lemma_extends(app0, before, app, listed, more);
    }
    let ghost listed = listed + more;
    let ghost before = app;
    let ghost more = included(target.unix, user_options());
    let app = add_user_options(app, target.unix);
    proof {
        lemma_extends(app0, before, app, listed, more);
    }
    app
}

/// Defines command line options: those of a manager that is built for `target`, behind
/// what `app` declares already. The arguments and groups of `app` itself stay as they are, with
/// all that they hold, and nothing else of `app` changes.
pub fn define_command_line_options(app: Command, target: Target) -> (r: Command)
    requires
        next_order(app) matches Some(n) ==> n + manager_options(target).len() <= usize::MAX,
    ensures
        declared_options(r) == declared_options(app) + manager_options(target),
        declared_groups(r) == declared_groups(app) + manager_groups(),
        starts_with(args_of(r), args_of(app)),
        starts_with(groups_of(r), groups_of(app)),
        next_order(r) == further(next_order(app), manager_options(target).len()),
        command_rest(r) == command_rest(app),
        only_options(app) ==> only_options(r),
{
    let ghost first = declared_options(app);
    let app = add_common_options(app);
    let app = add_target_options(app, target);
    assert((first + common_options()) + target_options(target) =~= first + manager_options(target));
    app
}

} // verus!
