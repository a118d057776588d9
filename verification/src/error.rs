//! Errors of the SSH layer, and the terminal errors that they are reported as.

use crate::text;
use crate::text::decimal_string;
use vstd::prelude::*;
use vstd::string::*;

verus! {

/// Why an SSH operation failed.
#[derive(Debug, PartialEq, Eq)]
pub enum SshError {
    /// The connection was refused because of the key that the host presented.
    HostKeyVerification { fingerprint: String },
    AuthFailed(String),
    ConnectionFailed(String),
    Timeout,
    Disconnected,
    ExecFailed { exit_code: u32, stderr: String },
    PortForwardFailed(String),
}

/// Why a terminal could not be opened or used.
#[derive(Debug, PartialEq, Eq)]
pub enum TerminalError {
    Backend { detail: String },
    Unsupported { detail: String },
}

/// An SSH error with its texts as sequences of characters.
pub enum SshErrorView {
    HostKeyVerification { fingerprint: Seq<char> },
    AuthFailed(Seq<char>),
    ConnectionFailed(Seq<char>),
    Timeout,
    Disconnected,
    ExecFailed { exit_code: u32, stderr: Seq<char> },
    PortForwardFailed(Seq<char>),
}

/// A terminal error with its text as a sequence of characters.
pub enum TerminalErrorView {
    Backend { detail: Seq<char> },
    Unsupported { detail: Seq<char> },
}

impl View for SshError {
    type V = SshErrorView;

    open spec fn view(&self) -> SshErrorView {
        match *self {
            SshError::HostKeyVerification { fingerprint } => SshErrorView::HostKeyVerification {
                fingerprint: fingerprint@,
            },
            SshError::AuthFailed(detail) => SshErrorView::AuthFailed(detail@),
            SshError::ConnectionFailed(detail) => SshErrorView::ConnectionFailed(detail@),
            SshError::Timeout => SshErrorView::Timeout,
            SshError::Disconnected => SshErrorView::Disconnected,
            SshError::ExecFailed { exit_code, stderr } => SshErrorView::ExecFailed {
                exit_code,
                stderr: stderr@,
            },
            SshError::PortForwardFailed(detail) => SshErrorView::PortForwardFailed(detail@),
        }
    }
}

impl View for TerminalError {
    type V = TerminalErrorView;

    open spec fn view(&self) -> TerminalErrorView {
        match *self {
            TerminalError::Backend { detail } => TerminalErrorView::Backend { detail: detail@ },
            TerminalError::Unsupported { detail } => TerminalErrorView::Unsupported {
                detail: detail@,
            },
        }
    }
}

/// The backend error with the text `prefix` and `detail`.
pub open spec fn backend_error(prefix: Seq<char>, detail: Seq<char>) -> TerminalErrorView {
    TerminalErrorView::Backend { detail: prefix + detail }
}

/// The text that an SSH error is reported with. A host key that was refused is unknown, or,
/// where the host has a pinned key, changed.
pub open spec fn ssh_error_detail(error: SshErrorView, host: Seq<char>, pinned: bool) -> Seq<char> {
    match error {
        SshErrorView::HostKeyVerification { fingerprint } => if pinned {
            "host-key-changed:"@ + host + ":"@ + fingerprint
        } else {
            "unknown-host:"@ + fingerprint
        },
        SshErrorView::AuthFailed(detail) => "auth-failed:"@ + detail,
        SshErrorView::ConnectionFailed(detail) => "connect-failed:"@ + detail,
        SshErrorView::Timeout => "connect-timeout"@,
        SshErrorView::Disconnected => "disconnected"@,
        SshErrorView::ExecFailed { exit_code, stderr } => "exec-failed:"@ + text::decimal(
            exit_code as nat,
        ) + ":"@ + stderr,
        SshErrorView::PortForwardFailed(detail) => "port-forward-failed:"@ + detail,
    }
}

/// A backend error whose text is `prefix` and `detail`.
pub fn backend_failure(prefix: &str, detail: &str) -> (res: TerminalError)
    ensures
        res@ == backend_error(prefix@, detail@),
{
    let mut text = String::new();
    text.append(prefix);
    text.append(detail);
    assert(text@ =~= prefix@ + detail@);
    TerminalError::Backend { detail: text }
}

/// Reports an SSH error as a terminal error.
pub fn map_ssh_error(error: SshError, host: &str, pinned: Option<&str>) -> (res: TerminalError)
    ensures
        res@ == (TerminalErrorView::Backend {
            detail: ssh_error_detail(error@, host@, pinned is Some),
        }),
{
    let mut detail = String::new();
    match error {
        SshError::HostKeyVerification { fingerprint } => {
            match pinned {
                Some(_) => {
                    detail.append("host-key-changed:");
                    detail.append(host);
                    detail.append(":");
                    detail.append(fingerprint.as_str());
                },
                None => {
                    detail.append("unknown-host:");
                    detail.append(fingerprint.as_str());
                },
            }
        },
        SshError::AuthFailed(reason) => {
            detail.append("auth-failed:");
            detail.append(reason.as_str());
        },
        SshError::ConnectionFailed(reason) => {
            detail.append("connect-failed:");
            detail.append(reason.as_str());
        },
        SshError::Timeout => {
            detail.append("connect-timeout");
        },
        SshError::Disconnected => {
            detail.append("disconnected");
        },
        SshError::ExecFailed { exit_code, stderr } => {
            detail.append("exec-failed:");
            detail.append(decimal_string(exit_code).as_str());
            detail.append(":");
            detail.append(stderr.as_str());
        },
        SshError::PortForwardFailed(reason) => {
            detail.append("port-forward-failed:");
            detail.append(reason.as_str());
        },
    }
    assert(detail@ =~= ssh_error_detail(error@, host@, pinned is Some));
    TerminalError::Backend { detail }
}

/// The kind of an SSH error, in the order in which the kinds are declared.
pub open spec fn ssh_error_kind(error: SshErrorView) -> int {
    match error {
        SshErrorView::HostKeyVerification { .. } => 0,
        SshErrorView::AuthFailed(_) => 1,
        SshErrorView::ConnectionFailed(_) => 2,
        SshErrorView::Timeout => 3,
        SshErrorView::Disconnected => 4,
        SshErrorView::ExecFailed { .. } => 5,
        SshErrorView::PortForwardFailed(_) => 6,
    }
}

/// The reported text tells the kinds of error apart, whatever texts the errors carry, and among
/// the refused host keys the unknown from the changed ones.
pub proof fn law_error_text_tells_the_kind(
    error1: SshErrorView,
    host1: Seq<char>,
    pinned1: bool,
    error2: SshErrorView,
    host2: Seq<char>,
    pinned2: bool,
)
    requires
        ssh_error_detail(error1, host1, pinned1) == ssh_error_detail(error2, host2, pinned2),
    ensures
        ssh_error_kind(error1) == ssh_error_kind(error2),
        error1 is HostKeyVerification ==> pinned1 == pinned2,
{
    lemma_detail_start(error1, host1, pinned1);
    lemma_detail_start(error2, host2, pinned2);
}

/// The first character, and among the texts that start with `c` the ninth, is fixed by the kind.
proof fn lemma_detail_start(error: SshErrorView, host: Seq<char>, pinned: bool)
    ensures
        ({
            let detail = ssh_error_detail(error, host, pinned);
            &&& detail.len() > 8
            &&& match error {
                SshErrorView::HostKeyVerification { .. } => detail[0] == if pinned {
                    'h'
                } else {
                    'u'
                },
                SshErrorView::AuthFailed(_) => detail[0] == 'a',
                SshErrorView::ConnectionFailed(_) => detail[0] == 'c' && detail[8] == 'f',
                SshErrorView::Timeout => detail[0] == 'c' && detail[8] == 't',
                SshErrorView::Disconnected => detail[0] == 'd',
                SshErrorView::ExecFailed { .. } => detail[0] == 'e',
                SshErrorView::PortForwardFailed(_) => detail[0] == 'p',
            }
        }),
{
    reveal_strlit("host-key-changed:");
    reveal_strlit("unknown-host:");
    reveal_strlit("auth-failed:");
    reveal_strlit("connect-failed:");
    reveal_strlit("connect-timeout");
    reveal_strlit("disconnected");
    reveal_strlit("exec-failed:");
    reveal_strlit("port-forward-failed:");
}

/// The text of a backend error is its prefix, and behind it all of the detail.
pub proof fn law_backend_failure(prefix: &str, detail: &str, res: TerminalError)
    requires
        call_ensures(backend_failure, (prefix, detail), res),
    ensures
        res matches TerminalError::Backend { detail: text } && {
            &&& text@.len() == prefix@.len() + detail@.len()
            &&& text@.take(prefix@.len() as int) == prefix@
            &&& text@.skip(prefix@.len() as int) == detail@
        },
{
    if let TerminalError::Backend { detail: text } = res {
        assert(text@.take(prefix@.len() as int) =~= prefix@);
        assert(text@.skip(prefix@.len() as int) =~= detail@);
    }
}

/// Every SSH error is reported as a backend error whose text names the kind of the error and
/// carries over all that it says. A refused host key is reported as changed, with the host, where
/// a key is pinned, and as unknown where none is.
pub proof fn law_ssh_error_text(
    error: SshError,
    host: &str,
    pinned: Option<&str>,
    res: TerminalError,
)
    requires
        call_ensures(map_ssh_error, (error, host, pinned), res),
    ensures
        res matches TerminalError::Backend { detail: text } && match error {
            SshError::HostKeyVerification { fingerprint } => match pinned {
                Some(_) => text@ == "host-key-changed:"@ + host@ + ":"@ + fingerprint@,
                None => text@ == "unknown-host:"@ + fingerprint@,
            },
            SshError::AuthFailed(reason) => text@ == "auth-failed:"@ + reason@,
            SshError::ConnectionFailed(reason) => text@ == "connect-failed:"@ + reason@,
            SshError::Timeout => text@ == "connect-timeout"@,
            SshError::Disconnected => text@ == "disconnected"@,
            SshError::ExecFailed { exit_code, stderr } => text@ == "exec-failed:"@ + text::decimal(
                exit_code as nat,
            ) + ":"@ + stderr@,
            SshError::PortForwardFailed(reason) => text@ == "port-forward-failed:"@ + reason@,
        },
{
}

} // verus!
