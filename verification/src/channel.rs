//! How a terminal is opened in a channel of an SSH connection.

use crate::command;
use crate::command::build_terminal_command;
use crate::error::{SshError, SshErrorView};
use crate::text;
use crate::text::decimal_string;
use vstd::prelude::*;
use vstd::string::*;

verus! {

/// The kind of terminal that programs on the host see.
pub const TERMINAL_KIND: &'static str = "xterm-256color";

/// A terminal to be opened.
#[derive(Debug, PartialEq, Eq)]
pub struct TerminalRequest {
    pub cols: u16,
    pub rows: u16,
    /// The shell to run in place of tmux.
    pub shell: Option<String>,
    /// The directory to start in.
    pub cwd: Option<String>,
}

/// The pseudo terminal to ask the host for.
#[derive(Debug, PartialEq, Eq)]
pub struct PtyRequest {
    pub want_reply: bool,
    pub term: String,
    pub col_width: u32,
    pub row_height: u32,
    pub pix_width: u32,
    pub pix_height: u32,
    /// Codes and values of terminal modes.
    pub modes: Vec<(u8, u32)>,
}

/// The command to start in the pseudo terminal.
#[derive(Debug, PartialEq, Eq)]
pub struct CommandRequest {
    pub want_reply: bool,
    pub command: String,
}

/// The steps that open a terminal in a connection, in this order.
#[derive(Debug, Clone, Copy, PartialEq, Eq)]
pub enum ChannelStep {
    OpenSession,
    RequestPty,
    StartCommand,
}

/// What follows a step.
#[derive(Debug, PartialEq, Eq)]
pub enum ChannelNext {
    OpenSession,
    RequestPty(PtyRequest),
    StartCommand(CommandRequest),
    /// The terminal is open; this is the line to log.
    Opened(String),
    Failed(SshError),
}

/// A command to start, with its text as a sequence of characters.
pub struct CommandRequestView {
    pub want_reply: bool,
    pub command: Seq<char>,
}

/// A pseudo terminal to ask for, with its kind and its modes as sequences.
pub struct PtyRequestView {
    pub want_reply: bool,
    pub term: Seq<char>,
    pub col_width: u32,
    pub row_height: u32,
    pub pix_width: u32,
    pub pix_height: u32,
    pub modes: Seq<(u8, u32)>,
}

/// What follows a step, with its texts as sequences of characters.
pub enum ChannelNextView {
    OpenSession,
    RequestPty(PtyRequestView),
    StartCommand(CommandRequestView),
    Opened(Seq<char>),
    Failed(SshErrorView),
}

impl View for PtyRequest {
    type V = PtyRequestView;

    open spec fn view(&self) -> PtyRequestView {
        PtyRequestView {
            want_reply: self.want_reply,
            term: self.term@,
            col_width: self.col_width,
            row_height: self.row_height,
            pix_width: self.pix_width,
            pix_height: self.pix_height,
            modes: self.modes@,
        }
    }
}

impl View for CommandRequest {
    type V = CommandRequestView;

    open spec fn view(&self) -> CommandRequestView {
        CommandRequestView { want_reply: self.want_reply, command: self.command@ }
    }
}

impl View for ChannelNext {
    type V = ChannelNextView;

    open spec fn view(&self) -> ChannelNextView {
        match *self {
            ChannelNext::OpenSession => ChannelNextView::OpenSession,
            ChannelNext::RequestPty(request) => ChannelNextView::RequestPty(request@),
            ChannelNext::StartCommand(command) => ChannelNextView::StartCommand(command@),
            ChannelNext::Opened(line) => ChannelNextView::Opened(line@),
            ChannelNext::Failed(error) => ChannelNextView::Failed(error@),
        }
    }
}

/// The text in front of the reason for which a step failed.
pub open spec fn channel_failure_prefix(step: ChannelStep) -> Seq<char> {
    match step {
        ChannelStep::OpenSession => "open session: "@,
        ChannelStep::RequestPty => "request pty: "@,
        ChannelStep::StartCommand => "exec terminal command: "@,
    }
}

/// What comes first: the session, unless the connection is closed.
pub open spec fn channel_start(closed: bool) -> ChannelNextView {
    if closed {
        ChannelNextView::Failed(SshErrorView::Disconnected)
    } else {
        ChannelNextView::OpenSession
    }
}

/// Decides what comes first, given whether the connection is closed.
pub fn begin_channel(closed: bool) -> (res: ChannelNext)
    ensures
        res@ == channel_start(closed),
{
    if closed {
        ChannelNext::Failed(SshError::Disconnected)
    } else {
        ChannelNext::OpenSession
    }
}

impl TerminalRequest {
    /// The pseudo terminal to ask for: of the size of the terminal, with no size in pixels and
    /// no modes.
    pub open spec fn pty(&self) -> PtyRequestView {
        PtyRequestView {
            want_reply: true,
            term: TERMINAL_KIND@,
            col_width: self.cols as u32,
            row_height: self.rows as u32,
            pix_width: 0,
            pix_height: 0,
            modes: seq![],
        }
    }

    /// The command that the terminal runs.
    pub open spec fn command(&self) -> Seq<char> {
        command::terminal_command(text::owned_text(self.shell), text::owned_text(self.cwd))
    }

    /// The line to log once the terminal is open.
    pub open spec fn log_line(&self) -> Seq<char> {
        "ssh_terminal_channel_opened cols="@ + text::decimal(self.cols as nat) + " rows="@
            + text::decimal(self.rows as nat) + " shell="@ + match self.shell {
            Some(shell) => shell@,
            None => "tmux:litter"@,
        }
    }

    /// What follows a step: the next one, or, where it failed, the end.
    pub open spec fn next(&self, step: ChannelStep, outcome: Result<(), Seq<char>>) -> ChannelNextView {
        match outcome {
            Err(reason) => ChannelNextView::Failed(
                SshErrorView::ConnectionFailed(channel_failure_prefix(step) + reason),
            ),
            Ok(_) => match step {
                ChannelStep::OpenSession => ChannelNextView::RequestPty(self.pty()),
                ChannelStep::RequestPty => ChannelNextView::StartCommand(
                    CommandRequestView { want_reply: true, command: self.command() },
                ),
                ChannelStep::StartCommand => ChannelNextView::Opened(self.log_line()),
            },
        }
    }

    /// Writes the line to log once the terminal is open.
    pub fn opened_line(&self) -> (res: String)
        ensures
            res@ == self.log_line(),
    {
        let mut line = String::new();
        line.append("ssh_terminal_channel_opened cols=");
        line.append(decimal_string(self.cols as u32).as_str());
        line.append(" rows=");
        line.append(decimal_string(self.rows as u32).as_str());
        line.append(" shell=");
        match &self.shell {
            Some(shell) => {
                line.append(shell.as_str());
            },
            None => {
                line.append("tmux:litter");
            },
        }
        assert(line@ =~= self.log_line());
        line
    }

    /// Builds the command that the terminal runs.
    pub fn terminal_command(&self) -> (res: String)
        ensures
            res@ == self.command(),
    {
        let shell = match &self.shell {
            Some(shell) => Some(shell.as_str()),
            None => None,
        };
        let cwd = match &self.cwd {
            Some(dir) => Some(dir.as_str()),
            None => None,
        };
        build_terminal_command(shell, cwd)
    }

    /// Decides what follows a step that was performed, or that failed for the given reason.
    pub fn after_step(&self, step: ChannelStep, outcome: Result<(), String>) -> (res: ChannelNext)
        ensures
            res@ == self.next(step, text::outcome_text(outcome)),
    {
        match outcome {
            Ok(_) => match step {
                ChannelStep::OpenSession => ChannelNext::RequestPty(
                    PtyRequest {
                        want_reply: true,
                        term: TERMINAL_KIND.to_owned(),
                        col_width: self.cols as u32,
                        row_height: self.rows as u32,
                        pix_width: 0,
                        pix_height: 0,
                        modes: Vec::new(),
                    },
                ),
                ChannelStep::RequestPty => ChannelNext::StartCommand(
                    CommandRequest { want_reply: true, command: self.terminal_command() },
                ),
                ChannelStep::StartCommand => ChannelNext::Opened(self.opened_line()),
            },
            Err(reason) => {
                let mut detail = String::new();
                match step {
                    ChannelStep::OpenSession => {
                        detail.append("open session: ");
                    },
                    ChannelStep::RequestPty => {
                        detail.append("request pty: ");
                    },
                    ChannelStep::StartCommand => {
                        detail.append("exec terminal command: ");
                    },
                }
                detail.append(reason.as_str());
                assert(detail@ =~= channel_failure_prefix(step) + reason@);
                ChannelNext::Failed(SshError::ConnectionFailed(detail))
            },
        }
    }

    /// How opening the terminal ends when what is to be done next, and then the steps behind
    /// it, have the given outcomes: with a line to log, or with an error; nothing where there
    /// are too few outcomes to tell.
    pub open spec fn end(
        &self,
        next: ChannelNextView,
        outcomes: Seq<Result<(), Seq<char>>>,
    ) -> Option<Result<Seq<char>, SshErrorView>>
        decreases outcomes.len(),
    {
        match next {
            ChannelNextView::Opened(line) => Some(Ok(line)),
            ChannelNextView::Failed(error) => Some(Err(error)),
            _ => if outcomes.len() == 0 {
                None
            } else {
                let step = match next {
                    ChannelNextView::OpenSession => ChannelStep::OpenSession,
                    ChannelNextView::RequestPty(_) => ChannelStep::RequestPty,
                    _ => ChannelStep::StartCommand,
                };
                self.end(self.next(step, outcomes[0]), outcomes.drop_first())
            },
        }
    }
}

/// The steps in order.
pub open spec fn channel_steps() -> Seq<ChannelStep> {
    seq![ChannelStep::OpenSession, ChannelStep::RequestPty, ChannelStep::StartCommand]
}

/// A closed connection is reported as such and nothing is tried. In an open one, the terminal is
/// open exactly where every step succeeds; otherwise the first step that fails is the one that
/// is reported, and no later step plays a part.
pub proof fn law_open_channel(
    request: TerminalRequest,
    closed: bool,
    outcomes: Seq<Result<(), Seq<char>>>,
)
    requires
        outcomes.len() == channel_steps().len(),
    ensures
        ({
            let end = request.end(channel_start(closed), outcomes);
            &&& closed ==> end == Some(Err::<Seq<char>, SshErrorView>(SshErrorView::Disconnected))
            &&& !closed ==> (end == Some(Ok::<Seq<char>, SshErrorView>(request.log_line())) <==> (
            forall|i: int| 0 <= i < outcomes.len() ==> (#[trigger] outcomes[i]) is Ok))
            &&& !closed ==> forall|k: int|
                0 <= k < outcomes.len() && (#[trigger] outcomes[k]) is Err && (forall|i: int|
                    0 <= i < k ==> (#[trigger] outcomes[i]) is Ok) ==> end == Some(
                    Err::<Seq<char>, SshErrorView>(
                        SshErrorView::ConnectionFailed(
                            channel_failure_prefix(channel_steps()[k]) + outcomes[k]->Err_0,
                        ),
                    ),
                )
        }),
{
    reveal_with_fuel(TerminalRequest::end, 5);
    let o1 = outcomes.drop_first();
    let o2 = o1.drop_first();
    assert(o1[0] == outcomes[1] && o2[0] == outcomes[2]);
    assert(outcomes[0] is Ok || outcomes[0] is Err);
}

/// Opening a terminal begins with the session, and in a closed connection nothing begins.
pub proof fn law_begin_channel(closed: bool, res: ChannelNext)
    requires
        call_ensures(begin_channel, (closed,), res),
    ensures
        closed ==> res == ChannelNext::Failed(SshError::Disconnected),
        !closed ==> res is OpenSession,
{
}

/// The pseudo terminal that is asked for has as many columns as the terminal has columns and as
/// many rows as it has rows, whatever the size; it is an `xterm-256color` without a size in pixels
/// and without modes, and the host is asked to confirm it.
pub proof fn law_requested_pty(
    request: &TerminalRequest,
    outcome: Result<(), String>,
    res: ChannelNext,
)
    requires
        call_ensures(
            TerminalRequest::after_step,
            (request, ChannelStep::OpenSession, outcome),
            res,
        ),
    ensures
        outcome is Ok ==> (res matches ChannelNext::RequestPty(pty) && {
            &&& pty.col_width == request.cols
            &&& pty.row_height == request.rows
            &&& pty.pix_width == 0
            &&& pty.pix_height == 0
            &&& pty.modes@.len() == 0
            &&& pty.term@ == "xterm-256color"@
            &&& pty.want_reply
        }),
        outcome matches Err(reason) ==> (res matches ChannelNext::Failed(
            SshError::ConnectionFailed(detail),
        ) && detail@ == "open session: "@ + reason@),
{
}

/// In the pseudo terminal runs the command for the shell and the directory of the request, and
/// the host is asked to confirm it.
pub proof fn law_started_command(
    request: &TerminalRequest,
    outcome: Result<(), String>,
    shell: Option<&str>,
    cwd: Option<&str>,
    command: String,
    res: ChannelNext,
)
    requires
        call_ensures(TerminalRequest::after_step, (request, ChannelStep::RequestPty, outcome), res),
        call_ensures(build_terminal_command, (shell, cwd), command),
        match request.shell {
            Some(given) => shell matches Some(shell) && shell@ == given@,
            None => shell is None,
        },
        match request.cwd {
            Some(given) => cwd matches Some(cwd) && cwd@ == given@,
            None => cwd is None,
        },
    ensures
        outcome is Ok ==> (res matches ChannelNext::StartCommand(start) && start.command@
            == command@ && start.want_reply),
        outcome matches Err(reason) ==> (res matches ChannelNext::Failed(
            SshError::ConnectionFailed(detail),
        ) && detail@ == "request pty: "@ + reason@),
{
}

/// The command of a terminal is the one for its shell and its directory.
pub proof fn law_command_of_request(
    request: &TerminalRequest,
    shell: Option<&str>,
    cwd: Option<&str>,
    command: String,
    res: String,
)
    requires
        call_ensures(TerminalRequest::terminal_command, (request,), res),
        call_ensures(build_terminal_command, (shell, cwd), command),
        match request.shell {
            Some(given) => shell matches Some(shell) && shell@ == given@,
            None => shell is None,
        },
        match request.cwd {
            Some(given) => cwd matches Some(cwd) && cwd@ == given@,
            None => cwd is None,
        },
    ensures
        res@ == command@,
{
}

/// Once the command runs, the terminal is open, and the line to log tells its columns, its rows
/// and its shell, in this order.
pub proof fn law_opened_terminal(
    request: &TerminalRequest,
    outcome: Result<(), String>,
    line: String,
    res: ChannelNext,
)
    requires
        call_ensures(
            TerminalRequest::after_step,
            (request, ChannelStep::StartCommand, outcome),
            res,
        ),
        call_ensures(TerminalRequest::opened_line, (request,), line),
    ensures
        line@ == "ssh_terminal_channel_opened cols="@ + text::decimal(request.cols as nat)
            + " rows="@ + text::decimal(request.rows as nat) + match request.shell {
            Some(shell) => " shell="@ + shell@,
            None => " shell=tmux:litter"@,
        },
        outcome is Ok ==> (res matches ChannelNext::Opened(logged) && logged@ == line@),
        outcome matches Err(reason) ==> (res matches ChannelNext::Failed(
            SshError::ConnectionFailed(detail),
        ) && detail@ == "exec terminal command: "@ + reason@),
{
    reveal_strlit(" shell=");
    reveal_strlit("tmux:litter");
    reveal_strlit(" shell=tmux:litter");
    assert(" shell=tmux:litter"@ =~= " shell="@ + "tmux:litter"@);
    let front = "ssh_terminal_channel_opened cols="@ + text::decimal(request.cols as nat)
        + " rows="@ + text::decimal(request.rows as nat);
    if let Some(shell) = request.shell {
        assert(line@ =~= front + (" shell="@ + shell@));
    } else {
        assert(line@ =~= front + " shell=tmux:litter"@);
    }
}

} // verus!
