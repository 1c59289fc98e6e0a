use ssmanager::config::Stop;
use ssmanager::error::{server_outcome, ServerExit, ShadowsocksError};

#[test]
fn a_server_that_ends_by_itself_is_an_error() {
    let err = server_outcome(ServerExit::Ended).err().unwrap();
    assert!(matches!(err, ShadowsocksError::ServerExitUnexpectedly(_)));
    assert_eq!(err.message(), "server exited unexpectedly");
}

#[test]
fn a_server_that_fails_is_an_error() {
    let err = server_outcome(ServerExit::Failed("address in use".to_string())).err().unwrap();
    assert!(matches!(err, ShadowsocksError::ServerAborted(_)));
    assert_eq!(err.message(), "server aborted with address in use");
}

#[test]
fn a_signal_is_no_error() {
    assert!(server_outcome(ServerExit::Signalled).is_ok());
}

#[test]
fn stops_say_why() {
    assert_eq!(Stop::Method("reason".to_string()).message(), "method: reason");
    assert_eq!(
        Stop::PluginMode.message(),
        "plugin-mode must be one of `tcp_only` (default), `udp_only` and `tcp_and_udp`: ()"
    );
    assert_eq!(Stop::Dns("reason".to_string()).message(), "dns: reason");
}

#[test]
fn messages_are_those_of_the_errors() {
    let text = || "text".to_string();
    assert_eq!(ShadowsocksError::LoadConfigFailure(text()).message(), "text");
    assert_eq!(ShadowsocksError::LoadAclFailure(text()).message(), "text");
    assert_eq!(ShadowsocksError::InsufficientParams(text()).message(), "text");
}
