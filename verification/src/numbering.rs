//! That the options of the manager can be declared together.
//!
//! Every option has a number, which each of its names determines: two options that share a
//! name, a letter or an id would have the same number.

use vstd::prelude::*;

use crate::options::{
    buffer_options, coherent, common_options, cookie_options, declarable, distinct_ids,
    distinct_letters, distinct_names, fwmark_options, grouped, has_option, included,
    logging_options, manager_groups, manager_options, nofile_options, process_options,
    refers_to_options, relay_options, server_options, socket_options, target_options,
    thread_options, user_options, OptionSpec,
};
use crate::target::Target;

verus! {

/// Three characters of a text, as one number.
spec fn mark(text: Seq<char>) -> int {
    let n = text.len() as int;
    text[n - 1] as int + 256 * (text[n / 2] as int) + 65536 * (text[n / 3] as int)
}

/// The number of the option that a mark belongs to.
spec fn numbered_by(mark: int) -> int {
    if mark == 5129799 || mark == 7235175 {
        0
    } else if mark == 5263193 {
        1
    } else if mark == 6245968 {
        2
    } else if mark == 5128786 || mark == 7234162 || mark == 6565234 {
        3
    } else if mark == 4476485 || mark == 6581861 {
        4
    } else if mark == 5657172 || mark == 7762548 {
        5
    } else if mark == 4674130 || mark == 6779506 || mark == 6630771 {
        6
    } else if mark == 5857092 || mark == 7941476 {
        7
    } else if mark == 5064020 || mark == 7169396 {
        8
    } else if mark == 5588814 || mark == 7694190 {
        9
    } else if mark == 4673093 || mark == 6778469 {
        10
    } else if mark == 4673108 || mark == 6778483 {
        11
    } else if mark == 4408140 || mark == 6513516 {
        12
    } else if mark == 5131859 || mark == 7237235 {
        13
    } else if mark == 4409413 || mark == 6514789 {
        14
    } else if mark == 5136217 || mark == 7220601 || mark == 2975097 {
        15
    } else if mark == 4608846 || mark == 6714222 || mark == 7613806 {
        16
    } else if mark == 4935749 || mark == 7041125 {
        17
    } else if mark == 5065800 || mark == 7171176 || mark == 7369840 {
        18
    } else if mark == 6244692 || mark == 2976116 {
        19
    } else if mark == 5788499 || mark == 7893875 {
        20
    } else if mark == 5463877 || mark == 7548261 {
        21
    } else if mark == 5398341 || mark == 7482725 {
        22
    } else if mark == 6243397 || mark == 2974821 {
        23
    } else if mark == 6248005 || mark == 2979429 {
        24
    } else if mark == 3556948 {
        25
    } else if mark == 5390917 {
        26
    } else if mark == 4804421 || mark == 6909797 {
        27
    } else if mark == 6246215 || mark == 2977639 {
        28
    } else if mark == 5066565 || mark == 7171941 {
        29
    } else if mark == 4808520 || mark == 7301476 {
        30
    } else if mark == 5391685 || mark == 7497061 {
        31
    } else if mark == 5394265 || mark == 7499641 {
        32
    } else if mark == 4606277 || mark == 6711653 {
        33
    } else if mark == 5588043 || mark == 7693419 {
        34
    } else if mark == 5133125 || mark == 7238501 {
        35
    } else if mark == 4543556 || mark == 6648932 {
        36
    } else if mark == 4543571 || mark == 6648947 {
        37
    } else if mark == 5457234 || mark == 7562610 {
        38
    } else {
        -1
    }
}

/// The number of the option that an id or a name belongs to.
spec fn number(text: Seq<char>) -> int {
    numbered_by(mark(text))
}

/// The number of the option that a letter belongs to.
spec fn letter_number(letter: char) -> int {
    if letter == 'c' {
        0
    } else if letter == 'u' {
        1
    } else if letter == 'U' {
        2
    } else if letter == 'b' {
        3
    } else if letter == 's' {
        5
    } else if letter == 'm' {
        7
    } else if letter == '6' {
        25
    } else if letter == 'v' {
        26
    } else if letter == 'd' {
        29
    } else if letter == 'n' {
        33
    } else if letter == 'a' {
        38
    } else {
        -1
    }
}

/// Whether everything that names an option determines the number `n`, and the option can be
/// declared.
spec fn numbered(option: OptionSpec, n: int) -> bool {
    &&& 0 <= n
    &&& number(option.id) == n
    &&& option.short matches Some(letter) ==> letter_number(letter) == n
    &&& option.long matches Some(name) ==> number(name) == n
    &&& forall|name: Seq<char>| #[trigger]
        option.hidden_aliases.contains(name) ==> number(name) == n
    &&& declarable(option)
    &&& forall|id: Seq<char>| #[trigger] option.conflicts.contains(id) ==> id == "TCP_AND_UDP"@ && n == 1
    &&& forall|id: Seq<char>| #[trigger] option.requirements.contains(id) ==> id == "PLUGIN"@ && n > 9
}

/// Whether the options have ascending numbers from `low` up to, and without, `high`.
spec fn ascends(options: Seq<OptionSpec>, low: int, high: int) -> bool {
    &&& forall|i: int|
        0 <= i < options.len() ==> numbered(#[trigger] options[i], number(options[i].id))
            && low <= number(options[i].id) < high
    &&& forall|i: int, j: int|
        0 <= i < j < options.len() ==> number((#[trigger] options[i]).id) < number(
            (#[trigger] options[j]).id,
        )
}

proof fn lemma_ascends_append(
    a: Seq<OptionSpec>,
    b: Seq<OptionSpec>,
    low: int,
    middle: int,
    high: int,
)
    requires
        ascends(a, low, middle),
        ascends(b, middle, high),
        low <= middle <= high,
    ensures
        ascends(a + b, low, high),
{
    assert forall|i: int| 0 <= i < (a + b).len() implies numbered(
        #[trigger] (a + b)[i],
        number((a + b)[i].id),
    ) && low <= number((a + b)[i].id) < high by {
        if i < a.len() {
            assert((a + b)[i] == a[i]);
        } else {
            assert((a + b)[i] == b[i - a.len()]);
        }
    }
    assert forall|i: int, j: int| 0 <= i < j < (a + b).len() implies number(
        (#[trigger] (a + b)[i]).id,
    ) < number((#[trigger] (a + b)[j]).id) by {
        if i < a.len() {
            assert((a + b)[i] == a[i]);
        } else {
            assert((a + b)[i] == b[i - a.len()]);
        }
        if j < a.len() {
            assert((a + b)[j] == a[j]);
        } else {
            assert((a + b)[j] == b[j - a.len()]);
        }
    }
}

proof fn lemma_server_options()
    ensures
        ascends(server_options(), 0, 7),
        server_options().len() == 7,
        server_options()[2].id == "TCP_AND_UDP"@,
        server_options()[6].id == "MANAGER_ADDR"@,
{
    reveal(server_options);
    reveal_strlit("CONFIG");
    reveal_strlit("config");
    reveal_strlit("UDP_ONLY");
    reveal_strlit("TCP_AND_UDP");
    reveal_strlit("OUTBOUND_BIND_ADDR");
    reveal_strlit("outbound-bind-addr");
    reveal_strlit("bind-addr");
    reveal_strlit("OUTBOUND_BIND_INTERFACE");
    reveal_strlit("outbound-bind-interface");
    reveal_strlit("SERVER_HOST");
    reveal_strlit("server-host");
    reveal_strlit("MANAGER_ADDR");
    reveal_strlit("manager-addr");
    reveal_strlit("manager-address");
    assert(numbered(server_options()[0], 0));
    assert(numbered(server_options()[1], 1));
    assert(numbered(server_options()[2], 2));
    assert(numbered(server_options()[3], 3));
    assert(numbered(server_options()[4], 4));
    assert(numbered(server_options()[5], 5));
    assert(numbered(server_options()[6], 6));
}

proof fn lemma_relay_options()
    ensures
        ascends(relay_options(), 7, 15),
        relay_options().len() == 8,
        relay_options()[2].id == "PLUGIN"@,
{
    reveal(relay_options);
    reveal_strlit("ENCRYPT_METHOD");
    reveal_strlit("encrypt-method");
    reveal_strlit("TIMEOUT");
    reveal_strlit("timeout");
    reveal_strlit("PLUGIN");
    reveal_strlit("plugin");
    reveal_strlit("PLUGIN_MODE");
    reveal_strlit("plugin-mode");
    reveal_strlit("PLUGIN_OPT");
    reveal_strlit("plugin-opts");
    reveal_strlit("ACL");
    reveal_strlit("acl");
    reveal_strlit("DNS");
    reveal_strlit("dns");
    reveal_strlit("DNS_CACHE_SIZE");
    reveal_strlit("dns-cache-size");
    assert(numbered(relay_options()[0], 7));
    assert(numbered(relay_options()[1], 8));
    assert(numbered(relay_options()[2], 9));
    assert(numbered(relay_options()[3], 10));
    assert(numbered(relay_options()[4], 11));
    assert(numbered(relay_options()[5], 12));
    assert(numbered(relay_options()[6], 13));
    assert(numbered(relay_options()[7], 14));
}

proof fn lemma_socket_options()
    ensures
        ascends(socket_options(), 15, 21),
        socket_options().len() == 6,
{
    reveal(socket_options);
    reveal_strlit("TCP_NO_DELAY");
    reveal_strlit("tcp-no-delay");
    reveal_strlit("no-delay");
    reveal_strlit("TCP_FAST_OPEN");
    reveal_strlit("tcp-fast-open");
    reveal_strlit("fast-open");
    reveal_strlit("TCP_KEEP_ALIVE");
    reveal_strlit("tcp-keep-alive");
    reveal_strlit("TCP_MULTIPATH");
    reveal_strlit("tcp-multipath");
    reveal_strlit("mptcp");
    reveal_strlit("UDP_TIMEOUT");
    reveal_strlit("udp-timeout");
    reveal_strlit("UDP_MAX_ASSOCIATIONS");
    reveal_strlit("udp-max-associations");
    assert(numbered(socket_options()[0], 15));
    assert(numbered(socket_options()[1], 16));
    assert(numbered(socket_options()[2], 17));
    assert(numbered(socket_options()[3], 18));
    assert(numbered(socket_options()[4], 19));
    assert(numbered(socket_options()[5], 20));
}

proof fn lemma_buffer_options()
    ensures
        ascends(buffer_options(), 21, 26),
        buffer_options().len() == 5,
{
    reveal(buffer_options);
    reveal_strlit("INBOUND_SEND_BUFFER_SIZE");
    reveal_strlit("inbound-send-buffer-size");
    reveal_strlit("INBOUND_RECV_BUFFER_SIZE");
    reveal_strlit("inbound-recv-buffer-size");
    reveal_strlit("OUTBOUND_SEND_BUFFER_SIZE");
    reveal_strlit("outbound-send-buffer-size");
    reveal_strlit("OUTBOUND_RECV_BUFFER_SIZE");
    reveal_strlit("outbound-recv-buffer-size");
    reveal_strlit("IPV6_FIRST");
    assert(numbered(buffer_options()[0], 21));
    assert(numbered(buffer_options()[1], 22));
    assert(numbered(buffer_options()[2], 23));
    assert(numbered(buffer_options()[3], 24));
    assert(numbered(buffer_options()[4], 25));
}

proof fn lemma_logging_options()
    ensures
        ascends(logging_options(), 26, 29),
        logging_options().len() == 3,
{
    reveal(logging_options);
    reveal_strlit("VERBOSE");
    reveal_strlit("LOG_WITHOUT_TIME");
    reveal_strlit("log-without-time");
    reveal_strlit("LOG_CONFIG");
    reveal_strlit("log-config");
    assert(numbered(logging_options()[0], 26));
    assert(numbered(logging_options()[1], 27));
    assert(numbered(logging_options()[2], 28));
}

proof fn lemma_process_options()
    ensures
        ascends(process_options(), 29, 33),
        process_options().len() == 4,
{
    reveal(process_options);
    reveal_strlit("DAEMONIZE");
    reveal_strlit("daemonize");
    reveal_strlit("DAEMONIZE_PID_PATH");
    reveal_strlit("daemonize-pid");
    reveal_strlit("MANAGER_SERVER_MODE");
    reveal_strlit("manager-server-mode");
    reveal_strlit("MANAGER_SERVER_WORKING_DIRECTORY");
    reveal_strlit("manager-server-working-directory");
    assert(numbered(process_options()[0], 29));
    assert(numbered(process_options()[1], 30));
    assert(numbered(process_options()[2], 31));
    assert(numbered(process_options()[3], 32));
}

proof fn lemma_nofile_options()
    ensures
        ascends(nofile_options(), 33, 34),
        nofile_options().len() == 1,
{
    reveal(nofile_options);
    reveal_strlit("NOFILE");
    reveal_strlit("nofile");
    assert(numbered(nofile_options()[0], 33));
}

proof fn lemma_fwmark_options()
    ensures
        ascends(fwmark_options(), 34, 35),
        fwmark_options().len() == 1,
{
    reveal(fwmark_options);
    reveal_strlit("OUTBOUND_FWMARK");
    reveal_strlit("outbound-fwmark");
    assert(numbered(fwmark_options()[0], 34));
}

proof fn lemma_cookie_options()
    ensures
        ascends(cookie_options(), 35, 36),
        cookie_options().len() == 1,
{
    reveal(cookie_options);
    reveal_strlit("OUTBOUND_USER_COOKIE");
    reveal_strlit("outbound-user-cookie");
    assert(numbered(cookie_options()[0], 35));
}

proof fn lemma_thread_options()
    ensures
        ascends(thread_options(), 36, 38),
        thread_options().len() == 2,
{
    reveal(thread_options);
    reveal_strlit("SINGLE_THREADED");
    reveal_strlit("single-threaded");
    reveal_strlit("WORKER_THREADS");
    reveal_strlit("worker-threads");
    assert(numbered(thread_options()[0], 36));
    assert(numbered(thread_options()[1], 37));
}

proof fn lemma_user_options()
    ensures
        ascends(user_options(), 38, 39),
        user_options().len() == 1,
{
    reveal(user_options);
    reveal_strlit("USER");
    reveal_strlit("user");
    assert(numbered(user_options()[0], 38));
}

proof fn lemma_manager_options(target: Target)
    ensures
        ascends(manager_options(target), 0, 39),
        manager_options(target).len() >= 26,
        manager_options(target)[2].id == "TCP_AND_UDP"@,
        manager_options(target)[6].id == "MANAGER_ADDR"@,
        manager_options(target)[9].id == "PLUGIN"@,
{
    lemma_server_options();
    lemma_relay_options();
    lemma_socket_options();
    lemma_buffer_options();
    lemma_logging_options();
    lemma_process_options();
    lemma_nofile_options();
    lemma_fwmark_options();
    lemma_cookie_options();
    lemma_thread_options();
    lemma_user_options();
    let listed0 = server_options();
    let listed1 = listed0 + relay_options();
    lemma_ascends_append(listed0, relay_options(), 0, 7, 15);
    assert(listed1.len() == 15);
    let listed2 = listed1 + socket_options();
    lemma_ascends_append(listed1, socket_options(), 0, 15, 21);
    assert(listed2.len() == 21);
    let listed3 = listed2 + buffer_options();
    lemma_ascends_append(listed2, buffer_options(), 0, 21, 26);
    assert(listed3.len() == 26);
    assert(common_options() == listed3);
    let more0 = included(target.logging, logging_options());
    assert(ascends(more0, 26, 29));
    let more1 = more0 + included(target.unix, process_options());
    lemma_ascends_append(more0, included(target.unix, process_options()), 26, 29, 33);
    let more2 = more1 + included(target.limits_files(), nofile_options());
    lemma_ascends_append(more1, included(target.limits_files(), nofile_options()), 26, 33, 34);
    let more3 = more2 + included(target.marks_sockets(), fwmark_options());
    lemma_ascends_append(more2, included(target.marks_sockets(), fwmark_options()), 26, 34, 35);
    let more4 = more3 + included(target.freebsd, cookie_options());
    lemma_ascends_append(more3, included(target.freebsd, cookie_options()), 26, 35, 36);
    let more5 = more4 + included(target.multi_threaded, thread_options());
    lemma_ascends_append(more4, included(target.multi_threaded, thread_options()), 26, 36, 38);
    let more6 = more5 + included(target.unix, user_options());
    lemma_ascends_append(more5, included(target.unix, user_options()), 26, 38, 39);
    assert(target_options(target) == more6);
    lemma_ascends_append(common_options(), target_options(target), 0, 26, 39);
    assert(forall|i: int| 0 <= i < 7 ==> manager_options(target)[i] == server_options()[i]);
    assert(forall|i: int| 7 <= i < 15 ==> manager_options(target)[i] == relay_options()[i - 7]);
}

/// The options of a manager can be declared together, whatever it is built for: no two share
/// an id, a letter or a name, none takes what a built-in option is called, and what an option
/// or a group refers to is an option of the manager.
pub proof fn law_options_are_coherent(target: Target)
    ensures
        coherent(manager_options(target), manager_groups()),
{
    let options = manager_options(target);
    lemma_manager_options(target);
    reveal_strlit("help");
    reveal_strlit("version");
    reveal_strlit("SERVER_CONFIG");
    assert(number("help"@) == -1);
    assert(number("version"@) == -1);
    assert(number("SERVER_CONFIG"@) == -1);
    assert(!has_option(options, "help"@));
    assert(!has_option(options, "version"@));
    assert(!has_option(options, "SERVER_CONFIG"@));
    assert(distinct_ids(options));
    assert(distinct_letters(options));
    assert forall|i: int, name: Seq<char>|
        0 <= i < options.len() && #[trigger] options[i].answers_to(name) implies number(name)
        == number(options[i].id) by {
        assert(numbered(options[i], number(options[i].id)));
    }
    assert(distinct_names(options));
    assert(refers_to_options(options)) by {
        assert(has_option(options, "TCP_AND_UDP"@));
        assert(has_option(options, "PLUGIN"@));
        reveal_strlit("TCP_AND_UDP");
        reveal_strlit("PLUGIN");
        assert(number("TCP_AND_UDP"@) == 2);
        assert(number("PLUGIN"@) == 9);
        assert forall|i: int, id: Seq<char>|
            #![trigger options[i], has_option(options, id)]
            0 <= i < options.len() && (options[i].conflicts.contains(id)
                || options[i].requirements.contains(id)) implies id != options[i].id
            && has_option(options, id) by {
            assert(numbered(options[i], number(options[i].id)));
        }
    }
    assert(grouped(options, manager_groups())) by {
        assert(has_option(options, "MANAGER_ADDR"@));
    }
}

} // verus!
