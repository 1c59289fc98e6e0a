//! The command line options of the manager, as values: what each option is called,
//! what it takes and how options relate to each other.

use vstd::prelude::*;

use crate::help;
use crate::target::Target;

verus! {

/// What an option on the command line does.
pub enum Action {
    /// Stores the value that follows.
    Store,
    /// Switches a flag on.
    SetTrue,
    /// Counts how often it occurs.
    Count,
}

/// What the value of an option names, for shell completion.
pub enum Hint {
    FilePath,
    DirPath,
    CommandName,
    Username,
}

/// What an option holds once the command line has been read.
pub enum ValueKind {
    /// Any text.
    Text,
    /// The name of a cipher that is compiled in.
    Cipher,
    U64,
    U32,
    Usize,
    Path,
    /// An IP address.
    IpAddr,
    /// The host that servers bind to.
    ServerHost,
    /// The address of the manager.
    ManagerAddr,
    /// How the manager runs its servers.
    ServerMode,
    /// On or off.
    Flag,
    /// A number of occurrences.
    Count,
    /// Nothing of its own: the id of a group of options.
    Group,
}

/// One option.
pub struct OptionSpec {
    pub id: Seq<char>,
    pub short: Option<char>,
    pub long: Option<Seq<char>>,
    /// Other long names, which the help does not list.
    pub hidden_aliases: Seq<Seq<char>>,
    pub action: Option<Action>,
    pub num_args: Option<nat>,
    pub kind: Option<ValueKind>,
    pub hint: Option<Hint>,
    pub conflicts: Seq<Seq<char>>,
    pub requirements: Seq<Seq<char>>,
    pub help: Option<Seq<char>>,
}

/// A group of options.
pub struct GroupSpec {
    pub id: Seq<char>,
    pub members: Seq<Seq<char>>,
}

impl OptionSpec {
    /// An option of which only the id is known.
    pub open spec fn new(id: Seq<char>) -> Self {
        OptionSpec {
            id,
            short: None,
            long: None,
            hidden_aliases: seq![],
            action: None,
            num_args: None,
            kind: None,
            hint: None,
            conflicts: seq![],
            requirements: seq![],
            help: None,
        }
    }

    pub open spec fn with_short(self, short: char) -> Self {
        OptionSpec { short: Some(short), ..self }
    }

    pub open spec fn with_long(self, long: Seq<char>) -> Self {
        OptionSpec { long: Some(long), ..self }
    }

    pub open spec fn with_alias(self, alias: Seq<char>) -> Self {
        OptionSpec { hidden_aliases: self.hidden_aliases.push(alias), ..self }
    }

    pub open spec fn with_action(self, action: Action) -> Self {
        OptionSpec { action: Some(action), ..self }
    }

    pub open spec fn with_num_args(self, n: nat) -> Self {
        OptionSpec { num_args: Some(n), ..self }
    }

    pub open spec fn with_kind(self, kind: ValueKind) -> Self {
        OptionSpec { kind: Some(kind), ..self }
    }

    pub open spec fn with_hint(self, hint: Hint) -> Self {
        OptionSpec { hint: Some(hint), ..self }
    }

    pub open spec fn with_conflict(self, id: Seq<char>) -> Self {
        OptionSpec { conflicts: self.conflicts.push(id), ..self }
    }

    pub open spec fn with_requirement(self, id: Seq<char>) -> Self {
        OptionSpec { requirements: self.requirements.push(id), ..self }
    }

    pub open spec fn with_help(self, help: Seq<char>) -> Self {
        OptionSpec { help: Some(help), ..self }
    }

    /// What the option holds: what it was given for its value, or else what its action
    /// leaves.
    pub open spec fn holds(self) -> ValueKind {
        match (self.kind, self.action) {
            (Some(kind), _) => kind,
            (None, Some(Action::SetTrue)) => ValueKind::Flag,
            (None, Some(Action::Count)) => ValueKind::Count,
            (None, _) => ValueKind::Text,
        }
    }

    /// Whether `name` is what follows `--` for this option.
    pub open spec fn answers_to(self, name: Seq<char>) -> bool {
        self.long == Some(name) || self.hidden_aliases.contains(name)
    }
}

/// The options that come first: the configuration file, the relayed protocols, the addresses.
#[verifier::opaque]
pub open spec fn server_options() -> Seq<OptionSpec> {
    seq![
        OptionSpec::new("CONFIG"@).with_short('c').with_long("config"@).with_num_args(1)
            .with_action(Action::Store).with_kind(ValueKind::Path).with_hint(Hint::FilePath)
            .with_help(help::CONFIG@),
        OptionSpec::new("UDP_ONLY"@).with_short('u').with_action(Action::SetTrue)
            .with_conflict("TCP_AND_UDP"@).with_help(help::UDP_ONLY@),
        OptionSpec::new("TCP_AND_UDP"@).with_short('U').with_action(Action::SetTrue)
            .with_help(help::TCP_AND_UDP@),
        OptionSpec::new("OUTBOUND_BIND_ADDR"@).with_short('b').with_long("outbound-bind-addr"@)
            .with_num_args(1).with_action(Action::Store).with_alias("bind-addr"@)
            .with_kind(ValueKind::IpAddr).with_help(help::OUTBOUND_BIND_ADDR@),
        OptionSpec::new("OUTBOUND_BIND_INTERFACE"@).with_long("outbound-bind-interface"@)
            .with_num_args(1).with_action(Action::Store).with_help(help::OUTBOUND_BIND_INTERFACE@),
        OptionSpec::new("SERVER_HOST"@).with_short('s').with_long("server-host"@)
            .with_num_args(1).with_action(Action::Store).with_kind(ValueKind::ServerHost)
            .with_help(help::SERVER_HOST@),
        OptionSpec::new("MANAGER_ADDR"@).with_long("manager-addr"@).with_num_args(1)
            .with_action(Action::Store).with_alias("manager-address"@)
            .with_kind(ValueKind::ManagerAddr).with_help(help::MANAGER_ADDR@),
    ]
}

/// Defaults for the servers that the manager creates, access control and name resolution.
#[verifier::opaque]
pub open spec fn relay_options() -> Seq<OptionSpec> {
    seq![
        OptionSpec::new("ENCRYPT_METHOD"@).with_short('m').with_long("encrypt-method"@)
            .with_num_args(1).with_action(Action::Store).with_kind(ValueKind::Cipher)
            .with_help(help::ENCRYPT_METHOD@),
        OptionSpec::new("TIMEOUT"@).with_long("timeout"@).with_num_args(1)
            .with_action(Action::Store).with_kind(ValueKind::U64).with_help(help::TIMEOUT@),
        OptionSpec::new("PLUGIN"@).with_long("plugin"@).with_num_args(1)
            .with_action(Action::Store).with_hint(Hint::CommandName).with_help(help::PLUGIN@),
        OptionSpec::new("PLUGIN_MODE"@).with_long("plugin-mode"@).with_num_args(1)
            .with_action(Action::Store).with_requirement("PLUGIN"@).with_help(help::PLUGIN_MODE@),
        OptionSpec::new("PLUGIN_OPT"@).with_long("plugin-opts"@).with_num_args(1)
            .with_action(Action::Store).with_requirement("PLUGIN"@).with_help(help::PLUGIN_OPT@),
        OptionSpec::new("ACL"@).with_long("acl"@).with_num_args(1).with_action(Action::Store)
            .with_hint(Hint::FilePath).with_help(help::ACL@),
        OptionSpec::new("DNS"@).with_long("dns"@).with_num_args(1).with_action(Action::Store)
            .with_help(help::DNS@),
        OptionSpec::new("DNS_CACHE_SIZE"@).with_long("dns-cache-size"@).with_num_args(1)
            .with_action(Action::Store).with_kind(ValueKind::Usize)
            .with_help(help::DNS_CACHE_SIZE@),
    ]
}

/// TCP and UDP behaviour.
#[verifier::opaque]
pub open spec fn socket_options() -> Seq<OptionSpec> {
    seq![
        OptionSpec::new("TCP_NO_DELAY"@).with_long("tcp-no-delay"@).with_alias("no-delay"@)
            .with_action(Action::SetTrue).with_help(help::TCP_NO_DELAY@),
        OptionSpec::new("TCP_FAST_OPEN"@).with_long("tcp-fast-open"@).with_alias("fast-open"@)
            .with_action(Action::SetTrue).with_help(help::TCP_FAST_OPEN@),
        OptionSpec::new("TCP_KEEP_ALIVE"@).with_long("tcp-keep-alive"@).with_num_args(1)
            .with_action(Action::Store).with_kind(ValueKind::U64).with_help(help::TCP_KEEP_ALIVE@),
        OptionSpec::new("TCP_MULTIPATH"@).with_long("tcp-multipath"@).with_alias("mptcp"@)
            .with_action(Action::SetTrue).with_help(help::TCP_MULTIPATH@),
        OptionSpec::new("UDP_TIMEOUT"@).with_long("udp-timeout"@).with_num_args(1)
            .with_action(Action::Store).with_kind(ValueKind::U64).with_help(help::UDP_TIMEOUT@),
        OptionSpec::new("UDP_MAX_ASSOCIATIONS"@).with_long("udp-max-associations"@)
            .with_num_args(1).with_action(Action::Store).with_kind(ValueKind::Usize)
            .with_help(help::UDP_MAX_ASSOCIATIONS@),
    ]
}

/// Socket buffer sizes and the preferred address family.
#[verifier::opaque]
pub open spec fn buffer_options() -> Seq<OptionSpec> {
    seq![
        OptionSpec::new("INBOUND_SEND_BUFFER_SIZE"@).with_long("inbound-send-buffer-size"@)
            .with_num_args(1).with_action(Action::Store).with_kind(ValueKind::U32)
            .with_help(help::INBOUND_SEND_BUFFER_SIZE@),
        OptionSpec::new("INBOUND_RECV_BUFFER_SIZE"@).with_long("inbound-recv-buffer-size"@)
            .with_num_args(1).with_action(Action::Store).with_kind(ValueKind::U32)
            .with_help(help::INBOUND_RECV_BUFFER_SIZE@),
        OptionSpec::new("OUTBOUND_SEND_BUFFER_SIZE"@).with_long("outbound-send-buffer-size"@)
            .with_num_args(1).with_action(Action::Store).with_kind(ValueKind::U32)
            .with_help(help::OUTBOUND_SEND_BUFFER_SIZE@),
        OptionSpec::new("OUTBOUND_RECV_BUFFER_SIZE"@).with_long("outbound-recv-buffer-size"@)
            .with_num_args(1).with_action(Action::Store).with_kind(ValueKind::U32)
            .with_help(help::OUTBOUND_RECV_BUFFER_SIZE@),
        OptionSpec::new("IPV6_FIRST"@).with_short('6').with_action(Action::SetTrue)
            .with_help(help::IPV6_FIRST@),
    ]
}

/// Logging.
#[verifier::opaque]
pub open spec fn logging_options() -> Seq<OptionSpec> {
    seq![
        OptionSpec::new("VERBOSE"@).with_short('v').with_action(Action::Count)
            .with_help(help::VERBOSE@),
        OptionSpec::new("LOG_WITHOUT_TIME"@).with_long("log-without-time"@)
            .with_action(Action::SetTrue).with_help(help::LOG_WITHOUT_TIME@),
        OptionSpec::new("LOG_CONFIG"@).with_long("log-config"@).with_num_args(1)
            .with_action(Action::Store).with_kind(ValueKind::Path).with_hint(Hint::FilePath)
            .with_help(help::LOG_CONFIG@),
    ]
}

/// Running in the background, and how the servers are run.
#[verifier::opaque]
pub open spec fn process_options() -> Seq<OptionSpec> {
    seq![
        OptionSpec::new("DAEMONIZE"@).with_short('d').with_long("daemonize"@)
            .with_action(Action::SetTrue).with_help(help::DAEMONIZE@),
        OptionSpec::new("DAEMONIZE_PID_PATH"@).with_long("daemonize-pid"@).with_num_args(1)
            .with_action(Action::Store).with_kind(ValueKind::Path).with_hint(Hint::FilePath)
            .with_help(help::DAEMONIZE_PID_PATH@),
        OptionSpec::new("MANAGER_SERVER_MODE"@).with_long("manager-server-mode"@)
            .with_num_args(1).with_action(Action::Store).with_kind(ValueKind::ServerMode)
            .with_help(help::MANAGER_SERVER_MODE@),
        OptionSpec::new("MANAGER_SERVER_WORKING_DIRECTORY"@)
            .with_long("manager-server-working-directory"@).with_num_args(1)
            .with_action(Action::Store).with_kind(ValueKind::Path).with_hint(Hint::DirPath)
            .with_help(help::MANAGER_SERVER_WORKING_DIRECTORY@),
    ]
}

/// The limit on open files.
#[verifier::opaque]
pub open spec fn nofile_options() -> Seq<OptionSpec> {
    seq![
        OptionSpec::new("NOFILE"@).with_short('n').with_long("nofile"@).with_num_args(1)
            .with_action(Action::Store).with_kind(ValueKind::U64).with_help(help::NOFILE@),
    ]
}

/// The firewall mark of outbound sockets.
#[verifier::opaque]
pub open spec fn fwmark_options() -> Seq<OptionSpec> {
    seq![
        OptionSpec::new("OUTBOUND_FWMARK"@).with_long("outbound-fwmark"@).with_num_args(1)
            .with_action(Action::Store).with_kind(ValueKind::U32)
            .with_help(help::OUTBOUND_FWMARK@),
    ]
}

/// The user cookie of outbound sockets.
#[verifier::opaque]
pub open spec fn cookie_options() -> Seq<OptionSpec> {
    seq![
        OptionSpec::new("OUTBOUND_USER_COOKIE"@).with_long("outbound-user-cookie"@)
            .with_num_args(1).with_action(Action::Store).with_kind(ValueKind::U32)
            .with_help(help::OUTBOUND_USER_COOKIE@),
    ]
}

/// The threads of the runtime.
#[verifier::opaque]
pub open spec fn thread_options() -> Seq<OptionSpec> {
    seq![
        OptionSpec::new("SINGLE_THREADED"@).with_long("single-threaded"@)
            .with_action(Action::SetTrue).with_help(help::SINGLE_THREADED@),
        OptionSpec::new("WORKER_THREADS"@).with_long("worker-threads"@).with_num_args(1)
            .with_action(Action::Store).with_kind(ValueKind::Usize)
            .with_help(help::WORKER_THREADS@),
    ]
}

/// The user to run as.
#[verifier::opaque]
pub open spec fn user_options() -> Seq<OptionSpec> {
    seq![
        OptionSpec::new("USER"@).with_long("user"@).with_short('a').with_num_args(1)
            .with_action(Action::Store).with_hint(Hint::Username).with_help(help::USER@),
    ]
}

/// Whether an option can be declared: it has a name on the command line, an option that
/// stores a value takes one, and only such an option says what its value is.
pub open spec fn declarable(option: OptionSpec) -> bool {
    &&& option.short is Some || option.long is Some
    &&& option.short != Some('-')
    &&& option.long matches Some(name) ==> name.len() > 0 && name[0] != '-'
    &&& option.action is Some
    &&& option.action == Some(Action::Store) ==> option.num_args is None || option.num_args
        == Some(1nat)
    &&& option.action != Some(Action::Store) ==> option.num_args is None && option.kind is None
        && option.hint is None
    &&& option.kind matches Some(kind) ==> !(kind is Flag || kind is Count || kind is Group)
}

/// Whether one of `options` has the id `id`.
pub open spec fn has_option(options: Seq<OptionSpec>, id: Seq<char>) -> bool {
    exists|i: int| 0 <= i < options.len() && (#[trigger] options[i]).id == id
}

/// No two options have the same id, and none has that of a built-in option.
pub open spec fn distinct_ids(options: Seq<OptionSpec>) -> bool {
    &&& forall|i: int, j: int|
        0 <= i < j < options.len() ==> (#[trigger] options[i]).id != (#[trigger] options[j]).id
    &&& !has_option(options, "help"@)
    &&& !has_option(options, "version"@)
}

/// No two options have the same letter, and none has that of a built-in option.
pub open spec fn distinct_letters(options: Seq<OptionSpec>) -> bool {
    &&& forall|i: int, j: int|
        0 <= i < j < options.len() && (#[trigger] options[i]).short is Some ==> options[i].short
            != (#[trigger] options[j]).short
    &&& forall|i: int|
        0 <= i < options.len() ==> (#[trigger] options[i]).short != Some('h') && options[i].short
            != Some('V')
}

/// No two options answer to the same name, and none to that of a built-in option.
pub open spec fn distinct_names(options: Seq<OptionSpec>) -> bool {
    &&& forall|i: int, j: int, name: Seq<char>|
        0 <= i < j < options.len() && (#[trigger] options[i].answers_to(name)) ==> !(
        #[trigger] options[j].answers_to(name))
    &&& forall|i: int|
        0 <= i < options.len() ==> !(#[trigger] options[i]).answers_to("help"@)
            && !options[i].answers_to("version"@)
}

/// What an option excludes or needs is another option that is declared.
pub open spec fn refers_to_options(options: Seq<OptionSpec>) -> bool {
    forall|i: int, id: Seq<char>|
        #![trigger options[i], has_option(options, id)]
        0 <= i < options.len() && (options[i].conflicts.contains(id)
            || options[i].requirements.contains(id)) ==> id != options[i].id && has_option(
            options,
            id,
        )
}

/// The groups have ids of their own, and options that are declared.
pub open spec fn grouped(options: Seq<OptionSpec>, groups: Seq<GroupSpec>) -> bool {
    &&& forall|i: int, j: int|
        0 <= i < j < groups.len() ==> (#[trigger] groups[i]).id != (#[trigger] groups[j]).id
    &&& forall|i: int|
        0 <= i < groups.len() ==> {
            let group = #[trigger] groups[i];
            &&& !has_option(options, group.id)
            &&& group.id != "help"@
            &&& group.id != "version"@
            &&& forall|id: Seq<char>| group.members.contains(id) ==> #[trigger] has_option(options, id)
        }
}

/// Whether options and groups can be declared together.
pub open spec fn coherent(options: Seq<OptionSpec>, groups: Seq<GroupSpec>) -> bool {
    &&& forall|i: int| 0 <= i < options.len() ==> declarable(#[trigger] options[i])
    &&& distinct_ids(options)
    &&& distinct_letters(options)
    &&& distinct_names(options)
    &&& refers_to_options(options)
    &&& grouped(options, groups)
}

/// `options` where `present`, and none otherwise.
pub open spec fn included(present: bool, options: Seq<OptionSpec>) -> Seq<OptionSpec> {
    if present {
        options
    } else {
        seq![]
    }
}

/// The options that every manager has.
pub open spec fn common_options() -> Seq<OptionSpec> {
    server_options() + relay_options() + socket_options() + buffer_options()
}

/// The options that only some targets have.
pub open spec fn target_options(target: Target) -> Seq<OptionSpec> {
    included(target.logging, logging_options())
        + included(target.unix, process_options())
        + included(target.limits_files(), nofile_options())
        + included(target.marks_sockets(), fwmark_options())
        + included(target.freebsd, cookie_options())
        + included(target.multi_threaded, thread_options())
        + included(target.unix, user_options())
}

/// The options of a manager that is built for `target`, in the order in which they are
/// listed.
pub open spec fn manager_options(target: Target) -> Seq<OptionSpec> {
    common_options() + target_options(target)
}

/// Whether `long` and `alias` are the two long names of an option that has two.
pub open spec fn aliased(long: Seq<char>, alias: Seq<char>) -> bool {
    ||| long == "manager-addr"@ && alias == "manager-address"@
    ||| long == "outbound-bind-addr"@ && alias == "bind-addr"@
    ||| long == "tcp-no-delay"@ && alias == "no-delay"@
    ||| long == "tcp-fast-open"@ && alias == "fast-open"@
    ||| long == "tcp-multipath"@ && alias == "mptcp"@
}

/// The groups of options: one, which tells whether the manager is configured by the
/// command line alone.
pub open spec fn manager_groups() -> Seq<GroupSpec> {
    seq![GroupSpec { id: "SERVER_CONFIG"@, members: seq!["MANAGER_ADDR"@] }]
}

/// A manager has no more options than there are.
pub(crate) proof fn lemma_option_count(target: Target)
    ensures
        manager_options(target).len() <= 39,
{
    assert(server_options().len() == 7) by {
        reveal(server_options);
    }
    assert(relay_options().len() == 8) by {
        reveal(relay_options);
    }
    assert(socket_options().len() == 6) by {
        reveal(socket_options);
    }
    assert(buffer_options().len() == 5) by {
        reveal(buffer_options);
    }
    assert(logging_options().len() == 3) by {
        reveal(logging_options);
    }
    assert(process_options().len() == 4) by {
        reveal(process_options);
    }
    assert(nofile_options().len() == 1) by {
        reveal(nofile_options);
    }
    assert(fwmark_options().len() == 1) by {
        reveal(fwmark_options);
    }
    assert(cookie_options().len() == 1) by {
        reveal(cookie_options);
    }
    assert(thread_options().len() == 2) by {
        reveal(thread_options);
    }
    assert(user_options().len() == 1) by {
        reveal(user_options);
    }
}

} // verus!
