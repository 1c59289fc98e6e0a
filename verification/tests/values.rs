use ssmanager::vparser::{
    parse_ip_addr, parse_manager_addr, parse_manager_server_host, parse_manager_server_mode,
};

#[test]
fn ip_addresses() {
    assert_eq!(format!("{:?}", parse_ip_addr("127.0.0.1").ok().unwrap().into_host()), "Ip(127.0.0.1)");
    assert_eq!(format!("{:?}", parse_ip_addr("::1").ok().unwrap().into_host()), "Ip(::1)");
    assert_eq!(
        format!("{:?}", parse_ip_addr("10.0.0.2").ok().unwrap().clone().into_host()),
        "Ip(10.0.0.2)"
    );
}

#[test]
fn not_ip_addresses() {
    for text in ["", "localhost", "127.0.0.1:80", "256.0.0.1"] {
        assert_eq!(
            parse_ip_addr(text).err().unwrap(),
            "should be a valid IPv4 or IPv6 address"
        );
    }
}

#[test]
fn manager_addresses() {
    let text = |v: &str| format!("{:?}", parse_manager_addr(v).ok().unwrap());
    assert_eq!(text("127.0.0.1:6100"), "SocketAddr(127.0.0.1:6100)");
    assert_eq!(text("[::1]:6100"), "SocketAddr([::1]:6100)");
    assert_eq!(text("example.com:6100"), "DomainName(\"example.com\", 6100)");
    assert_eq!(text("/run/manager.sock"), "UnixSocketAddr(\"/run/manager.sock\")");
}

#[test]
fn not_manager_addresses() {
    for text in ["example.com:port", "127.0.0.1:65536", ":"] {
        assert_eq!(
            parse_manager_addr(text).err().unwrap(),
            "should be either ip:port, domain:port or /path/to/unix.sock"
        );
    }
}

#[test]
fn server_hosts() {
    let text = |v: &str| format!("{:?}", parse_manager_server_host(v).ok().unwrap());
    assert_eq!(text("0.0.0.0"), "Ip(0.0.0.0)");
    assert_eq!(text("example.com"), "Domain(\"example.com\")");
    assert_eq!(text(""), "Domain(\"\")");
}

#[test]
fn server_modes() {
    assert_eq!(parse_manager_server_mode("builtin").ok().unwrap().to_string(), "builtin");
    assert_eq!(parse_manager_server_mode("standalone").ok().unwrap().to_string(), "standalone");
    for text in ["", "Builtin", "both"] {
        assert_eq!(
            parse_manager_server_mode(text).err().unwrap(),
            "should be either builtin or standalone"
        );
    }
}
