//! That every option which is looked up is declared, under the type that it is looked up as.

use vstd::prelude::*;

use crate::arguments::{offers, stored};
use crate::options::{
    buffer_options, common_options, cookie_options, fwmark_options, included, logging_options,
    manager_options, nofile_options, process_options, relay_options, server_options,
    socket_options, target_options, thread_options, user_options, OptionSpec, ValueKind,
};
use crate::target::Target;

verus! {

proof fn lemma_offers_append(a: Seq<OptionSpec>, b: Seq<OptionSpec>)
    ensures
        forall|id: Seq<char>, kind: ValueKind|
            offers(a, id, kind) || offers(b, id, kind) ==> #[trigger] offers(a + b, id, kind),
{
    assert forall|id: Seq<char>, kind: ValueKind|
        offers(a, id, kind) || offers(b, id, kind) implies #[trigger] offers(a + b, id, kind) by {
        if offers(a, id, kind) {
            let i = choose|i: int|
                0 <= i < a.len() && (#[trigger] a[i]).id == id && stored(a[i].holds()) == kind;
            assert((a + b)[i] == a[i]);
        } else {
            let i = choose|i: int|
                0 <= i < b.len() && (#[trigger] b[i]).id == id && stored(b[i].holds()) == kind;
            assert((a + b)[i + a.len()] == b[i]);
        }
    }
}

proof fn lemma_server_options_offer()
    ensures
        offers(server_options(), "CONFIG"@, ValueKind::Path),
        offers(server_options(), "UDP_ONLY"@, ValueKind::Flag),
        offers(server_options(), "TCP_AND_UDP"@, ValueKind::Flag),
        offers(server_options(), "OUTBOUND_BIND_ADDR"@, ValueKind::IpAddr),
        offers(server_options(), "OUTBOUND_BIND_INTERFACE"@, ValueKind::Text),
        offers(server_options(), "SERVER_HOST"@, ValueKind::ServerHost),
        offers(server_options(), "MANAGER_ADDR"@, ValueKind::ManagerAddr),
{
    reveal(server_options);
    let options = server_options();
    assert(options[0].id == "CONFIG"@);
    assert(options[1].id == "UDP_ONLY"@);
    assert(options[2].id == "TCP_AND_UDP"@);
    assert(options[3].id == "OUTBOUND_BIND_ADDR"@);
    assert(options[4].id == "OUTBOUND_BIND_INTERFACE"@);
    assert(options[5].id == "SERVER_HOST"@);
    assert(options[6].id == "MANAGER_ADDR"@);
}

proof fn lemma_relay_options_offer()
    ensures
        offers(relay_options(), "ENCRYPT_METHOD"@, ValueKind::Text),
        offers(relay_options(), "TIMEOUT"@, ValueKind::U64),
        offers(relay_options(), "PLUGIN"@, ValueKind::Text),
        offers(relay_options(), "PLUGIN_MODE"@, ValueKind::Text),
        offers(relay_options(), "PLUGIN_OPT"@, ValueKind::Text),
        offers(relay_options(), "ACL"@, ValueKind::Text),
        offers(relay_options(), "DNS"@, ValueKind::Text),
        offers(relay_options(), "DNS_CACHE_SIZE"@, ValueKind::Usize),
{
    reveal(relay_options);
    let options = relay_options();
    assert(options[0].id == "ENCRYPT_METHOD"@);
    assert(options[1].id == "TIMEOUT"@);
    assert(options[2].id == "PLUGIN"@);
    assert(options[3].id == "PLUGIN_MODE"@);
    assert(options[4].id == "PLUGIN_OPT"@);
    assert(options[5].id == "ACL"@);
    assert(options[6].id == "DNS"@);
    assert(options[7].id == "DNS_CACHE_SIZE"@);
}

proof fn lemma_socket_options_offer()
    ensures
        offers(socket_options(), "TCP_NO_DELAY"@, ValueKind::Flag),
        offers(socket_options(), "TCP_FAST_OPEN"@, ValueKind::Flag),
        offers(socket_options(), "TCP_KEEP_ALIVE"@, ValueKind::U64),
        offers(socket_options(), "TCP_MULTIPATH"@, ValueKind::Flag),
        offers(socket_options(), "UDP_TIMEOUT"@, ValueKind::U64),
        offers(socket_options(), "UDP_MAX_ASSOCIATIONS"@, ValueKind::Usize),
{
    reveal(socket_options);
    let options = socket_options();
    assert(options[0].id == "TCP_NO_DELAY"@);
    assert(options[1].id == "TCP_FAST_OPEN"@);
    assert(options[2].id == "TCP_KEEP_ALIVE"@);
    assert(options[3].id == "TCP_MULTIPATH"@);
    assert(options[4].id == "UDP_TIMEOUT"@);
    assert(options[5].id == "UDP_MAX_ASSOCIATIONS"@);
}

proof fn lemma_buffer_options_offer()
    ensures
        offers(buffer_options(), "INBOUND_SEND_BUFFER_SIZE"@, ValueKind::U32),
        offers(buffer_options(), "INBOUND_RECV_BUFFER_SIZE"@, ValueKind::U32),
        offers(buffer_options(), "OUTBOUND_SEND_BUFFER_SIZE"@, ValueKind::U32),
        offers(buffer_options(), "OUTBOUND_RECV_BUFFER_SIZE"@, ValueKind::U32),
        offers(buffer_options(), "IPV6_FIRST"@, ValueKind::Flag),
{
    reveal(buffer_options);
    let options = buffer_options();
    assert(options[0].id == "INBOUND_SEND_BUFFER_SIZE"@);
    assert(options[1].id == "INBOUND_RECV_BUFFER_SIZE"@);
    assert(options[2].id == "OUTBOUND_SEND_BUFFER_SIZE"@);
    assert(options[3].id == "OUTBOUND_RECV_BUFFER_SIZE"@);
    assert(options[4].id == "IPV6_FIRST"@);
}

proof fn lemma_process_options_offer()
    ensures
        offers(process_options(), "DAEMONIZE"@, ValueKind::Flag),
        offers(process_options(), "DAEMONIZE_PID_PATH"@, ValueKind::Path),
        offers(process_options(), "MANAGER_SERVER_MODE"@, ValueKind::ServerMode),
        offers(process_options(), "MANAGER_SERVER_WORKING_DIRECTORY"@, ValueKind::Path),
{
    reveal(process_options);
    let options = process_options();
    assert(options[0].id == "DAEMONIZE"@);
    assert(options[1].id == "DAEMONIZE_PID_PATH"@);
    assert(options[2].id == "MANAGER_SERVER_MODE"@);
    assert(options[3].id == "MANAGER_SERVER_WORKING_DIRECTORY"@);
}

proof fn lemma_nofile_options_offer()
    ensures
        offers(nofile_options(), "NOFILE"@, ValueKind::U64),
{
    reveal(nofile_options);
    let options = nofile_options();
    assert(options[0].id == "NOFILE"@);
}

proof fn lemma_fwmark_options_offer()
    ensures
        offers(fwmark_options(), "OUTBOUND_FWMARK"@, ValueKind::U32),
{
    reveal(fwmark_options);
    let options = fwmark_options();
    assert(options[0].id == "OUTBOUND_FWMARK"@);
}

proof fn lemma_cookie_options_offer()
    ensures
        offers(cookie_options(), "OUTBOUND_USER_COOKIE"@, ValueKind::U32),
{
    reveal(cookie_options);
    let options = cookie_options();
    assert(options[0].id == "OUTBOUND_USER_COOKIE"@);
}

proof fn lemma_user_options_offer()
    ensures
        offers(user_options(), "USER"@, ValueKind::Text),
{
    reveal(user_options);
    let options = user_options();
    assert(options[0].id == "USER"@);
}

/// Every option that a manager looks up is one of those that it declares, and holds what it
/// is looked up as.
pub proof fn law_every_option_is_declared(target: Target)
    ensures
        offers(manager_options(target), "CONFIG"@, ValueKind::Path),
        offers(manager_options(target), "UDP_ONLY"@, ValueKind::Flag),
        offers(manager_options(target), "TCP_AND_UDP"@, ValueKind::Flag),
        offers(manager_options(target), "OUTBOUND_BIND_ADDR"@, ValueKind::IpAddr),
        offers(manager_options(target), "OUTBOUND_BIND_INTERFACE"@, ValueKind::Text),
        offers(manager_options(target), "SERVER_HOST"@, ValueKind::ServerHost),
        offers(manager_options(target), "MANAGER_ADDR"@, ValueKind::ManagerAddr),
        offers(manager_options(target), "ENCRYPT_METHOD"@, ValueKind::Text),
        offers(manager_options(target), "TIMEOUT"@, ValueKind::U64),
        offers(manager_options(target), "PLUGIN"@, ValueKind::Text),
        offers(manager_options(target), "PLUGIN_MODE"@, ValueKind::Text),
        offers(manager_options(target), "PLUGIN_OPT"@, ValueKind::Text),
        offers(manager_options(target), "ACL"@, ValueKind::Text),
        offers(manager_options(target), "DNS"@, ValueKind::Text),
        offers(manager_options(target), "DNS_CACHE_SIZE"@, ValueKind::Usize),
        offers(manager_options(target), "TCP_NO_DELAY"@, ValueKind::Flag),
        offers(manager_options(target), "TCP_FAST_OPEN"@, ValueKind::Flag),
        offers(manager_options(target), "TCP_KEEP_ALIVE"@, ValueKind::U64),
        offers(manager_options(target), "TCP_MULTIPATH"@, ValueKind::Flag),
        offers(manager_options(target), "UDP_TIMEOUT"@, ValueKind::U64),
        offers(manager_options(target), "UDP_MAX_ASSOCIATIONS"@, ValueKind::Usize),
        offers(manager_options(target), "INBOUND_SEND_BUFFER_SIZE"@, ValueKind::U32),
        offers(manager_options(target), "INBOUND_RECV_BUFFER_SIZE"@, ValueKind::U32),
        offers(manager_options(target), "OUTBOUND_SEND_BUFFER_SIZE"@, ValueKind::U32),
        offers(manager_options(target), "OUTBOUND_RECV_BUFFER_SIZE"@, ValueKind::U32),
        offers(manager_options(target), "IPV6_FIRST"@, ValueKind::Flag),
        target.unix ==> offers(manager_options(target), "DAEMONIZE"@, ValueKind::Flag),
        target.unix ==> offers(manager_options(target), "DAEMONIZE_PID_PATH"@, ValueKind::Path),
        target.unix ==> offers(manager_options(target), "MANAGER_SERVER_MODE"@, ValueKind::ServerMode),
        target.unix ==> offers(manager_options(target), "MANAGER_SERVER_WORKING_DIRECTORY"@, ValueKind::Path),
        target.unix ==> offers(manager_options(target), "USER"@, ValueKind::Text),
        target.limits_files() ==> offers(manager_options(target), "NOFILE"@, ValueKind::U64),
        target.marks_sockets() ==> offers(manager_options(target), "OUTBOUND_FWMARK"@, ValueKind::U32),
        target.freebsd ==> offers(manager_options(target), "OUTBOUND_USER_COOKIE"@, ValueKind::U32),
{
    lemma_server_options_offer();
    lemma_relay_options_offer();
    lemma_socket_options_offer();
    lemma_buffer_options_offer();
    lemma_process_options_offer();
    lemma_nofile_options_offer();
    lemma_fwmark_options_offer();
    lemma_cookie_options_offer();
    lemma_user_options_offer();
    let listed0 = server_options();
    let listed1 = listed0 + relay_options();
    lemma_offers_append(listed0, relay_options());
    let listed2 = listed1 + socket_options();
    lemma_offers_append(listed1, socket_options());
    let listed3 = listed2 + buffer_options();
    lemma_offers_append(listed2, buffer_options());
    assert(common_options() == listed3);
    let more0 = included(target.logging, logging_options());
    let more1 = more0 + included(target.unix, process_options());
    lemma_offers_append(more0, included(target.unix, process_options()));
    let more2 = more1 + included(target.limits_files(), nofile_options());
    lemma_offers_append(more1, included(target.limits_files(), nofile_options()));
    let more3 = more2 + included(target.marks_sockets(), fwmark_options());
    lemma_offers_append(more2, included(target.marks_sockets(), fwmark_options()));
    let more4 = more3 + included(target.freebsd, cookie_options());
    lemma_offers_append(more3, included(target.freebsd, cookie_options()));
    let more5 = more4 + included(target.multi_threaded, thread_options());
    lemma_offers_append(more4, included(target.multi_threaded, thread_options()));
    let more6 = more5 + included(target.unix, user_options());
    lemma_offers_append(more5, included(target.unix, user_options()));
    assert(target_options(target) == more6);
    lemma_offers_append(common_options(), target_options(target));
}

} // verus!
