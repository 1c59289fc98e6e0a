//! Why the manager did not start, or stopped.

use std::path::PathBuf;

use vstd::prelude::*;
use vstd::string::*;

verus! {

/// Why the manager did not start, or stopped, and what to tell the user.
#[derive(Debug)]
pub enum ShadowsocksError {
    /// The server ended although nothing asked it to.
    ServerExitUnexpectedly(String),
    /// The server failed.
    ServerAborted(String),
    /// A configuration cannot be used.
    LoadConfigFailure(String),
    /// An access control list cannot be used.
    LoadAclFailure(String),
    /// Something that is needed was not given.
    InsufficientParams(String),
}

/// A `ShadowsocksError`, with its text as a sequence of characters.
pub enum ErrorView {
    ServerExitUnexpectedly(Seq<char>),
    ServerAborted(Seq<char>),
    LoadConfigFailure(Seq<char>),
    LoadAclFailure(Seq<char>),
    InsufficientParams(Seq<char>),
}

impl View for ShadowsocksError {
    type V = ErrorView;

    open spec fn view(&self) -> ErrorView {
        match self {
            ShadowsocksError::ServerExitUnexpectedly(text) => ErrorView::ServerExitUnexpectedly(
                text@,
            ),
            ShadowsocksError::ServerAborted(text) => ErrorView::ServerAborted(text@),
            ShadowsocksError::LoadConfigFailure(text) => ErrorView::LoadConfigFailure(text@),
            ShadowsocksError::LoadAclFailure(text) => ErrorView::LoadAclFailure(text@),
            ShadowsocksError::InsufficientParams(text) => ErrorView::InsufficientParams(text@),
        }
    }
}

impl ErrorView {
    /// The text.
    pub open spec fn text(self) -> Seq<char> {
        match self {
            ErrorView::ServerExitUnexpectedly(text) => text,
            ErrorView::ServerAborted(text) => text,
            ErrorView::LoadConfigFailure(text) => text,
            ErrorView::LoadAclFailure(text) => text,
            ErrorView::InsufficientParams(text) => text,
        }
    }
}

impl ShadowsocksError {
    /// What to tell the user.
    pub fn message(&self) -> (r: &str)
        ensures
            r@ == self@.text(),
    {
        match self {
            ShadowsocksError::ServerExitUnexpectedly(text) => text.as_str(),
            ShadowsocksError::ServerAborted(text) => text.as_str(),
            ShadowsocksError::LoadConfigFailure(text) => text.as_str(),
            ShadowsocksError::LoadAclFailure(text) => text.as_str(),
            ShadowsocksError::InsufficientParams(text) => text.as_str(),
        }
    }
}

/// A path, quoted and with special characters escaped.
pub uninterp spec fn quoted(path: PathBuf) -> Seq<char>;

/// `Debug` of `PathBuf`.
#[verifier::external_body]
fn quote(path: &PathBuf) -> (r: String)
    ensures
        r@ == quoted(*path),
{
    format!("{path:?}")
}

/// A configuration file cannot be used.
pub open spec fn config_failure(path: PathBuf, err: Seq<char>) -> ErrorView {
    ErrorView::LoadConfigFailure("loading config "@ + quoted(path) + ", "@ + err)
}

/// An access control list cannot be used.
pub open spec fn acl_failure(file: Seq<char>, err: Seq<char>) -> ErrorView {
    ErrorView::LoadAclFailure("loading ACL \""@ + file + "\", "@ + err)
}

/// A configuration does not hold together.
pub open spec fn integrity_failure(err: Seq<char>) -> ErrorView {
    ErrorView::LoadConfigFailure("config integrity check failed, "@ + err)
}

/// There is no address for the manager.
pub const MISSING_ADDRESS: &'static str = "missing `manager_address`, consider specifying it by --manager-address command line option, or \"manager_address\" and \"manager_port\" keys in configuration file";

/// There is no address for the manager.
pub open spec fn address_missing() -> ErrorView {
    ErrorView::InsufficientParams(MISSING_ADDRESS@)
}

/// The program cannot run as the user that was asked for.
pub open spec fn user_failure(err: Seq<char>) -> ErrorView {
    ErrorView::InsufficientParams("failed to change as user, error: "@ + err)
}

pub(crate) fn fail_config(path: &PathBuf, err: &str) -> (r: ShadowsocksError)
    ensures
        r@ == config_failure(*path, err@),
{
    let mut text = "loading config ".to_string();
    text.append(quote(path).as_str());
    text.append(", ");
    text.append(err);
    ShadowsocksError::LoadConfigFailure(text)
}

pub(crate) fn fail_acl(file: &str, err: &str) -> (r: ShadowsocksError)
    ensures
        r@ == acl_failure(file@, err@),
{
    let mut text = "loading ACL \"".to_string();
    text.append(file);
    text.append("\", ");
    text.append(err);
    ShadowsocksError::LoadAclFailure(text)
}

pub(crate) fn fail_integrity(err: &str) -> (r: ShadowsocksError)
    ensures
        r@ == integrity_failure(err@),
{
    let mut text = "config integrity check failed, ".to_string();
    text.append(err);
    ShadowsocksError::LoadConfigFailure(text)
}

pub(crate) fn fail_address() -> (r: ShadowsocksError)
    ensures
        r@ == address_missing(),
{
    ShadowsocksError::InsufficientParams(MISSING_ADDRESS.to_string())
}

pub(crate) fn fail_user(err: &str) -> (r: ShadowsocksError)
    ensures
        r@ == user_failure(err@),
{
    let mut text = "failed to change as user, error: ".to_string();
    text.append(err);
    ShadowsocksError::InsufficientParams(text)
}

/// How a manager that was started came to its end.
pub enum ServerExit {
    /// The server ended by itself.
    Ended,
    /// The server failed, with what it says.
    Failed(String),
    /// A signal asked the program to stop.
    Signalled,
}

/// What the program makes of the end of a manager.
pub open spec fn exit_outcome(exit: ServerExit) -> Result<(), ErrorView> {
    match exit {
        ServerExit::Ended => Err(
            ErrorView::ServerExitUnexpectedly("server exited unexpectedly"@),
        ),
        ServerExit::Failed(err) => Err(ErrorView::ServerAborted("server aborted with "@ + err@)),
        ServerExit::Signalled => Ok(()),
    }
}

/// What the program makes of the end of a manager: only a signal is a reason to end well.
pub fn server_outcome(exit: ServerExit) -> (r: Result<(), ShadowsocksError>)
    ensures
        match r {
            Ok(_) => exit_outcome(exit) is Ok,
            Err(e) => exit_outcome(exit) == Err::<(), ErrorView>(e@),
        },
        match exit {
            ServerExit::Ended => r matches Err(e) && e@ == ErrorView::ServerExitUnexpectedly(
                "server exited unexpectedly"@,
            ),
            ServerExit::Failed(err) => r matches Err(e) && e@ == ErrorView::ServerAborted(
                "server aborted with "@ + err@,
            ),
            ServerExit::Signalled => r is Ok,
        },
{
    match exit {
        ServerExit::Ended => Err(
            ShadowsocksError::ServerExitUnexpectedly("server exited unexpectedly".to_string()),
        ),
        ServerExit::Failed(err) => {
            let mut text = "server aborted with ".to_string();
            text.append(err.as_str());
            Err(ShadowsocksError::ServerAborted(text))
        },
        ServerExit::Signalled => Ok(()),
    }
}

} // verus!
