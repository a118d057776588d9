//! How the Eternal Terminal client is started in a pseudo terminal.

use crate::command;
use crate::command::{tin_tmux_session_name, tmux_command};
use crate::error;
use crate::error::{backend_failure, TerminalError, TerminalErrorView};
use crate::text;
use crate::text::{decimal_string, trim};
use portable_pty::CommandBuilder;
use vstd::prelude::*;
use vstd::string::*;

verus! {

/// The size of a terminal in characters.
#[derive(Debug, Clone, Copy, PartialEq, Eq)]
pub struct TerminalSize {
    pub cols: u16,
    pub rows: u16,
}

/// The size of a pseudo terminal: in characters, and in pixels where these are known.
#[derive(Debug, Clone, Copy, PartialEq, Eq)]
pub struct PtyGrid {
    pub rows: u16,
    pub cols: u16,
    pub pixel_width: u16,
    pub pixel_height: u16,
}

/// The pseudo terminal for a terminal of the given size, with no size in pixels.
pub fn pty_grid(size: TerminalSize) -> (res: PtyGrid)
    ensures
        res == (PtyGrid { rows: size.rows, cols: size.cols, pixel_width: 0, pixel_height: 0 }),
{
    PtyGrid { rows: size.rows, cols: size.cols, pixel_width: 0, pixel_height: 0 }
}

/// A command to be started in a pseudo terminal.
#[verifier::external_type_specification]
#[verifier::external_body]
pub struct ExCommandBuilder(CommandBuilder);

/// The program and the arguments of a command, in order.
pub uninterp spec fn command_argv(command: CommandBuilder) -> Seq<Seq<char>>;

/// The variables of a command's environment whose names and values are text.
pub uninterp spec fn command_env(command: CommandBuilder) -> Map<Seq<char>, Seq<char>>;

/// `CommandBuilder::new` makes a command that has a program and no arguments. Its environment is
/// that of this process, of which nothing is stated.
#[verifier::external_body]
fn new_command(program: &str) -> (res: CommandBuilder)
    ensures
        command_argv(res) == seq![program@],
{
    CommandBuilder::new(program)
}

/// `CommandBuilder::arg` puts an argument behind the others and leaves the environment alone. It
/// panics on a command without a program.
#[verifier::external_body]
fn add_argument(command: &mut CommandBuilder, argument: &str)
    requires
        command_argv(*old(command)).len() > 0,
    ensures
        command_argv(*final(command)) == command_argv(*old(command)).push(argument@),
        command_env(*final(command)) == command_env(*old(command)),
{
    command.arg(argument);
}

/// `CommandBuilder::env` gives a variable of the environment a value and leaves the others and
/// the arguments alone. Names of variables are told apart by their exact characters, as they are
/// on every Unix.
#[verifier::external_body]
fn set_variable(command: &mut CommandBuilder, name: &str, value: &str)
    ensures
        command_argv(*final(command)) == command_argv(*old(command)),
        command_env(*final(command)) == command_env(*old(command)).insert(name@, value@),
{
    command.env(name, value);
}

/// An environment with the client's variables set: they name the terminal, its colours and the
/// home directory. All others stay as they are.
pub open spec fn client_env(env: Map<Seq<char>, Seq<char>>) -> Map<Seq<char>, Seq<char>> {
    env.insert("TERM"@, "xterm-256color"@).insert("COLORTERM"@, "truecolor"@).insert(
        "HOME"@,
        "/data/data/com.sigkitten.litter.android.yolo/files"@,
    )
}

/// In the client's environment each of its three variables has its value, whatever it was
/// before, every other variable is as it was, and setting them again changes nothing.
pub proof fn law_client_env(env: Map<Seq<char>, Seq<char>>)
    ensures
        client_env(env).contains_pair("TERM"@, "xterm-256color"@),
        client_env(env).contains_pair("COLORTERM"@, "truecolor"@),
        client_env(env).contains_pair(
            "HOME"@,
            "/data/data/com.sigkitten.litter.android.yolo/files"@,
        ),
        forall|name: Seq<char>|
            name != "TERM"@ && name != "COLORTERM"@ && name != "HOME"@ ==> (client_env(
                env,
            ).contains_key(name) <==> env.contains_key(name)) && #[trigger] client_env(env)[name]
                == env[name],
        client_env(client_env(env)) == client_env(env),
{
    reveal_strlit("TERM");
    reveal_strlit("COLORTERM");
    reveal_strlit("HOME");
    assert("TERM"@[0] != "HOME"@[0]);
    assert(client_env(client_env(env)) =~= client_env(env));
}

/// Sets the client's variables in the environment of a command, and changes nothing else.
pub fn set_client_environment(command: &mut CommandBuilder)
    ensures
        command_argv(*final(command)) == command_argv(*old(command)),
        command_env(*final(command)) == client_env(command_env(*old(command))),
{
    set_variable(command, "TERM", "xterm-256color");
    set_variable(command, "COLORTERM", "truecolor");
    set_variable(command, "HOME", "/data/data/com.sigkitten.litter.android.yolo/files");
}

/// What a session is opened with.
#[derive(Debug, PartialEq, Eq)]
pub struct EtSession {
    pub host: String,
    pub et_port: u16,
    pub username: String,
    /// The directory to start in.
    pub cwd: Option<String>,
    /// Where the client program lies.
    pub et_client_path: String,
    /// The tmux session to attach to; named after the host where there is none.
    pub tmux_session: Option<String>,
    pub size: TerminalSize,
}

/// The text that names the user, the host and the port to the client; without a user where the
/// name is blank.
pub open spec fn host_argument(username: Seq<char>, host: Seq<char>, port: u16) -> Seq<char> {
    if text::trimmed(username).len() == 0 {
        host + ":"@ + text::decimal(port as nat)
    } else {
        username + "@"@ + host + ":"@ + text::decimal(port as nat)
    }
}

impl EtSession {
    /// The tmux session that the client attaches to.
    pub open spec fn session(&self) -> Seq<char> {
        match self.tmux_session {
            Some(session) => session@,
            None => command::session_name(self.host@),
        }
    }

    /// The command line of the client, the program first.
    pub open spec fn client_argv(&self, idpasskey: Seq<char>) -> Seq<Seq<char>> {
        seq![
            self.et_client_path@,
            "--litter-skip-ssh"@,
            "--litter-idpasskey"@,
            idpasskey,
            "--keepalive"@,
            "15"@,
            "--command"@,
            command::attach_command(text::owned_text(self.cwd), self.session()),
            "--noexit"@,
            host_argument(self.username@, self.host@, self.et_port),
        ]
    }

    /// Whether the environment of a command has the client's variables: they name the terminal,
    /// its colours and the home directory.
    pub open spec fn has_client_env(command: CommandBuilder) -> bool {
        let env = command_env(command);
        &&& env.contains_pair("TERM"@, "xterm-256color"@)
        &&& env.contains_pair("COLORTERM"@, "truecolor"@)
        &&& env.contains_pair(
            "HOME"@,
            "/data/data/com.sigkitten.litter.android.yolo/files"@,
        )
    }

    /// Refuses a session without a client program: one whose path is blank.
    pub fn check_client(&self) -> (res: Result<(), TerminalError>)
        ensures
            match res {
                Ok(_) => text::trimmed(self.et_client_path@).len() > 0,
                Err(error) => text::trimmed(self.et_client_path@).len() == 0 && error@ == (
                TerminalErrorView::Backend { detail: "missing bundled ET client path"@ }),
            },
    {
        if trim(self.et_client_path.as_str()).is_empty() {
            return Err(
                TerminalError::Backend { detail: "missing bundled ET client path".to_owned() },
            );
        }
        Ok(())
    }

    /// The text that names the user, the host and the port to the client.
    pub fn host_arg(&self) -> (res: String)
        ensures
            res@ == host_argument(self.username@, self.host@, self.et_port),
    {
        let mut arg = String::new();
        if !trim(self.username.as_str()).is_empty() {
            arg.append(self.username.as_str());
            arg.append("@");
        }
        arg.append(self.host.as_str());
        arg.append(":");
        arg.append(decimal_string(self.et_port as u32).as_str());
        assert(arg@ =~= host_argument(self.username@, self.host@, self.et_port));
        arg
    }

    /// The command that the client runs on the host.
    pub fn remote_command(&self) -> (res: String)
        ensures
            res@ == command::attach_command(text::owned_text(self.cwd), self.session()),
    {
        let cwd = match &self.cwd {
            Some(dir) => Some(dir.as_str()),
            None => None,
        };
        match &self.tmux_session {
            Some(session) => tmux_command(self.host.as_str(), cwd, session.as_str()),
            None => {
                let session = tin_tmux_session_name(self.host.as_str());
                tmux_command(self.host.as_str(), cwd, session.as_str())
            },
        }
    }

    /// Puts the client's arguments behind its program, and leaves the environment alone.
    fn add_client_arguments(&self, command: &mut CommandBuilder, idpasskey: &str)
        requires
            command_argv(*old(command)) == seq![self.et_client_path@],
        ensures
            command_argv(*final(command)) == self.client_argv(idpasskey@),
            command_env(*final(command)) == command_env(*old(command)),
    {
        let remote_command = self.remote_command();
        let host_arg = self.host_arg();
        add_argument(command, "--litter-skip-ssh");
        add_argument(command, "--litter-idpasskey");
        add_argument(command, idpasskey);
        add_argument(command, "--keepalive");
        add_argument(command, "15");
        add_argument(command, "--command");
        add_argument(command, remote_command.as_str());
        add_argument(command, "--noexit");
        add_argument(command, host_arg.as_str());
    }

    /// The command that starts the client under the given id and passkey. Its environment is
    /// that of this process, with the client's variables set.
    pub fn client_command(&self, idpasskey: &str) -> (res: CommandBuilder)
        ensures
            command_argv(res) == self.client_argv(idpasskey@),
            Self::has_client_env(res),
    {
        let mut command = new_command(self.et_client_path.as_str());
        self.add_client_arguments(&mut command, idpasskey);
        let ghost inherited = command_env(command);
        set_client_environment(&mut command);
        proof {
            law_client_env(inherited);
        }
        command
    }

    /// What follows the attempt to obtain an id and passkey: the client's command, or the error
    /// as it came.
    pub fn after_bootstrap(&self, bootstrap: Result<String, TerminalError>) -> (res: Result<
        CommandBuilder,
        TerminalError,
    >)
        ensures
            match bootstrap {
                Ok(idpasskey) => res matches Ok(command) && command_argv(command)
                    == self.client_argv(idpasskey@) && Self::has_client_env(command),
                Err(error) => res == Err::<CommandBuilder, TerminalError>(error),
            },
    {
        match bootstrap {
            Ok(idpasskey) => Ok(self.client_command(idpasskey.as_str())),
            Err(error) => Err(error),
        }
    }
}

/// The steps that open a session once the id and passkey are there, in this order.
#[derive(Debug, Clone, Copy, PartialEq, Eq)]
pub enum OpenStep {
    /// Wait for the task that opens the pseudo terminal.
    JoinPtyTask,
    /// See whether that task opened it.
    OpenPty,
    SpawnClient,
    CloneReader,
    TakeWriter,
}

/// Something that happened while a session is being opened.
#[derive(Debug, PartialEq, Eq)]
pub enum OpenEvent {
    /// Opening begins.
    Begin,
    /// The id and passkey are there, or could not be obtained.
    Bootstrapped(Result<String, TerminalError>),
    /// A step was performed, or failed for this reason.
    Stepped(OpenStep, Result<(), String>),
}

/// What is to be done next to open a session.
#[derive(Debug, PartialEq)]
pub enum OpenAction {
    /// Obtain an id and passkey.
    Bootstrap,
    /// Start the task that opens a pseudo terminal of this size, keep the command for the
    /// client, and wait for the task.
    OpenPty(PtyGrid, CommandBuilder),
    Perform(OpenStep),
    /// The session is open.
    Ready,
    Failed(TerminalError),
}

/// An event with its texts as sequences of characters.
pub enum OpenEventView {
    Begin,
    Bootstrapped(Result<Seq<char>, TerminalErrorView>),
    Stepped(OpenStep, Result<(), Seq<char>>),
}

/// What is to be done next, with the client's command line in place of its command, and the text
/// of an error as a sequence of characters.
pub enum OpenActionView {
    Bootstrap,
    OpenPty(PtyGrid, Seq<Seq<char>>),
    Perform(OpenStep),
    Ready,
    Failed(TerminalErrorView),
}

impl View for OpenEvent {
    type V = OpenEventView;

    open spec fn view(&self) -> OpenEventView {
        match *self {
            OpenEvent::Begin => OpenEventView::Begin,
            OpenEvent::Bootstrapped(Ok(idpasskey)) => OpenEventView::Bootstrapped(Ok(idpasskey@)),
            OpenEvent::Bootstrapped(Err(error)) => OpenEventView::Bootstrapped(Err(error@)),
            OpenEvent::Stepped(step, outcome) => OpenEventView::Stepped(
                step,
                text::outcome_text(outcome),
            ),
        }
    }
}

impl View for OpenAction {
    type V = OpenActionView;

    open spec fn view(&self) -> OpenActionView {
        match *self {
            OpenAction::Bootstrap => OpenActionView::Bootstrap,
            OpenAction::OpenPty(grid, command) => OpenActionView::OpenPty(
                grid,
                command_argv(command),
            ),
            OpenAction::Perform(step) => OpenActionView::Perform(step),
            OpenAction::Ready => OpenActionView::Ready,
            OpenAction::Failed(error) => OpenActionView::Failed(error@),
        }
    }
}

/// The text in front of the reason for which a step failed.
pub open spec fn open_failure_prefix(step: OpenStep) -> Seq<char> {
    match step {
        OpenStep::JoinPtyTask => "joining ET pty open task: "@,
        OpenStep::OpenPty => "open ET pty: "@,
        OpenStep::SpawnClient => "spawn ET client: "@,
        OpenStep::CloneReader => "clone ET pty reader: "@,
        OpenStep::TakeWriter => "take ET pty writer: "@,
    }
}

/// What follows a step: the next one, or, where it failed, the end.
pub open spec fn open_next(step: OpenStep, outcome: Result<(), Seq<char>>) -> OpenActionView {
    match outcome {
        Err(reason) => OpenActionView::Failed(
            error::backend_error(open_failure_prefix(step), reason),
        ),
        Ok(_) => match step {
            OpenStep::JoinPtyTask => OpenActionView::Perform(OpenStep::OpenPty),
            OpenStep::OpenPty => OpenActionView::Perform(OpenStep::SpawnClient),
            OpenStep::SpawnClient => OpenActionView::Perform(OpenStep::CloneReader),
            OpenStep::CloneReader => OpenActionView::Perform(OpenStep::TakeWriter),
            OpenStep::TakeWriter => OpenActionView::Ready,
        },
    }
}

/// Decides what follows a step that was performed, or that failed for the given reason.
pub fn after_open_step(step: OpenStep, outcome: Result<(), String>) -> (res: OpenAction)
    ensures
        res@ == open_next(step, text::outcome_text(outcome)),
{
    match outcome {
        Ok(_) => match step {
            OpenStep::JoinPtyTask => OpenAction::Perform(OpenStep::OpenPty),
            OpenStep::OpenPty => OpenAction::Perform(OpenStep::SpawnClient),
            OpenStep::SpawnClient => OpenAction::Perform(OpenStep::CloneReader),
            OpenStep::CloneReader => OpenAction::Perform(OpenStep::TakeWriter),
            OpenStep::TakeWriter => OpenAction::Ready,
        },
        Err(reason) => {
            let prefix = match step {
                OpenStep::JoinPtyTask => "joining ET pty open task: ",
                OpenStep::OpenPty => "open ET pty: ",
                OpenStep::SpawnClient => "spawn ET client: ",
                OpenStep::CloneReader => "clone ET pty reader: ",
                OpenStep::TakeWriter => "take ET pty writer: ",
            };
            OpenAction::Failed(backend_failure(prefix, reason.as_str()))
        },
    }
}

/// The error on a system that has no client program.
pub fn unsupported_platform() -> (res: TerminalError)
    ensures
        res@ == (TerminalErrorView::Unsupported {
            detail: "ET terminal backend is only available on Android"@,
        }),
{
    TerminalError::Unsupported {
        detail: "ET terminal backend is only available on Android".to_owned(),
    }
}

impl EtSession {
    /// The pseudo terminal of the session.
    pub open spec fn grid(&self) -> PtyGrid {
        PtyGrid { rows: self.size.rows, cols: self.size.cols, pixel_width: 0, pixel_height: 0 }
    }

    /// What is to be done after an event.
    pub open spec fn next_action(&self, event: OpenEventView) -> OpenActionView {
        match event {
            OpenEventView::Begin => if text::trimmed(self.et_client_path@).len() > 0 {
                OpenActionView::Bootstrap
            } else {
                OpenActionView::Failed(
                    TerminalErrorView::Backend { detail: "missing bundled ET client path"@ },
                )
            },
            OpenEventView::Bootstrapped(Ok(idpasskey)) => OpenActionView::OpenPty(
                self.grid(),
                self.client_argv(idpasskey),
            ),
            OpenEventView::Bootstrapped(Err(error)) => OpenActionView::Failed(error),
            OpenEventView::Stepped(step, outcome) => open_next(step, outcome),
        }
    }

    /// Decides what is to be done after an event.
    pub fn advance(&self, event: OpenEvent) -> (res: OpenAction)
        ensures
            res@ == self.next_action(event@),
            res matches OpenAction::OpenPty(_, command) ==> Self::has_client_env(command),
    {
        match event {
            OpenEvent::Begin => match self.check_client() {
                Ok(_) => OpenAction::Bootstrap,
                Err(error) => OpenAction::Failed(error),
            },
            OpenEvent::Bootstrapped(bootstrap) => match self.after_bootstrap(bootstrap) {
                Ok(command) => OpenAction::OpenPty(pty_grid(self.size), command),
                Err(error) => OpenAction::Failed(error),
            },
            OpenEvent::Stepped(step, outcome) => after_open_step(step, outcome),
        }
    }

    /// How opening the session ends when what is to be done next, and then all that follows,
    /// has the given outcomes: open, or failed; nothing where there are too few outcomes to
    /// tell.
    pub open spec fn end(
        &self,
        action: OpenActionView,
        bootstrap: Result<Seq<char>, TerminalErrorView>,
        outcomes: Seq<Result<(), Seq<char>>>,
    ) -> Option<Result<(), TerminalErrorView>>
        decreases
                outcomes.len(),
                if action is Bootstrap {
                    1int
                } else {
                    0
                },
    {
        match action {
            OpenActionView::Ready => Some(Ok(())),
            OpenActionView::Failed(error) => Some(Err(error)),
            OpenActionView::Bootstrap => self.end(
                self.next_action(OpenEventView::Bootstrapped(bootstrap)),
                bootstrap,
                outcomes,
            ),
            _ => if outcomes.len() == 0 {
                None
            } else {
                let step = match action {
                    OpenActionView::Perform(step) => step,
                    _ => OpenStep::JoinPtyTask,
                };
                self.end(
                    self.next_action(OpenEventView::Stepped(step, outcomes[0])),
                    bootstrap,
                    outcomes.drop_first(),
                )
            },
        }
    }
}

/// The steps in order.
pub open spec fn open_steps() -> Seq<OpenStep> {
    seq![
        OpenStep::JoinPtyTask,
        OpenStep::OpenPty,
        OpenStep::SpawnClient,
        OpenStep::CloneReader,
        OpenStep::TakeWriter,
    ]
}

/// Without a client program nothing is tried, and without an id and passkey no pseudo terminal
/// is opened: the error is reported as it came. Otherwise the session is open exactly where every
/// step succeeds, and else the first step that fails is the one that is reported; no later step
/// plays a part.
pub proof fn law_open_session(
    session: EtSession,
    bootstrap: Result<Seq<char>, TerminalErrorView>,
    outcomes: Seq<Result<(), Seq<char>>>,
)
    requires
        outcomes.len() == open_steps().len(),
    ensures
        ({
            let end = session.end(
                session.next_action(OpenEventView::Begin),
                bootstrap,
                outcomes,
            );
            if text::trimmed(session.et_client_path@).len() == 0 {
                end == Some(
                    Err::<(), TerminalErrorView>(
                        TerminalErrorView::Backend { detail: "missing bundled ET client path"@ },
                    ),
                )
            } else if bootstrap is Err {
                end == Some(Err::<(), TerminalErrorView>(bootstrap->Err_0))
            } else {
                &&& end == Some(Ok::<(), TerminalErrorView>(())) <==> (forall|i: int|
                    0 <= i < outcomes.len() ==> (#[trigger] outcomes[i]) is Ok)
                &&& forall|k: int|
                    0 <= k < outcomes.len() && (#[trigger] outcomes[k]) is Err && (forall|i: int|
                        0 <= i < k ==> (#[trigger] outcomes[i]) is Ok) ==> end == Some(
                        Err::<(), TerminalErrorView>(
                            error::backend_error(
                                open_failure_prefix(open_steps()[k]),
                                outcomes[k]->Err_0,
                            ),
                        ),
                    )
            }
        }),
{
    reveal_with_fuel(EtSession::end, 8);
    let o1 = outcomes.drop_first();
    let o2 = o1.drop_first();
    let o3 = o2.drop_first();
    let o4 = o3.drop_first();
    assert(o1[0] == outcomes[1] && o2[0] == outcomes[2] && o3[0] == outcomes[3] && o4[0]
        == outcomes[4]);
    assert(outcomes[0] is Ok || outcomes[0] is Err);
}

/// The pseudo terminal has the columns and the rows of the terminal, and no size in pixels.
pub proof fn law_pty_grid(size: TerminalSize, res: PtyGrid)
    requires
        call_ensures(pty_grid, (size,), res),
    ensures
        res.cols == size.cols,
        res.rows == size.rows,
        res.pixel_width == 0,
        res.pixel_height == 0,
{
}

/// A session is refused exactly where the path of its client program is nothing but white space.
pub proof fn law_check_client(session: &EtSession, res: Result<(), TerminalError>)
    requires
        call_ensures(EtSession::check_client, (session,), res),
    ensures
        res is Err <==> forall|i: int|
            0 <= i < session.et_client_path@.len() ==> text::is_blank(
                #[trigger] session.et_client_path@[i],
            ),
        res matches Err(error) ==> (error matches TerminalError::Backend { detail } && detail@
            == "missing bundled ET client path"@),
{
    text::law_trimmed(session.et_client_path@);
}

/// The client is told the host and the port, and, unless the user's name is blank, in front of
/// them the user's name as it stands.
pub proof fn law_host_arg(session: &EtSession, res: String)
    requires
        call_ensures(EtSession::host_arg, (session,), res),
    ensures
        (forall|i: int|
            0 <= i < session.username@.len() ==> text::is_blank(#[trigger] session.username@[i]))
            ==> res@ == session.host@ + ":"@ + text::decimal(session.et_port as nat),
        (exists|i: int|
            0 <= i < session.username@.len() && !text::is_blank(#[trigger] session.username@[i]))
            ==> res@ == session.username@ + "@"@ + session.host@ + ":"@ + text::decimal(
            session.et_port as nat,
        ),
{
    text::law_trimmed(session.username@);
}

/// On the host the client attaches to the tmux session that it is given, or else to the one that
/// is named after the host, in the directory that it is given.
pub proof fn law_remote_command(
    session: &EtSession,
    host: &str,
    cwd: Option<&str>,
    default: String,
    name: &str,
    attach: String,
    res: String,
)
    requires
        call_ensures(EtSession::remote_command, (session,), res),
        host@ == session.host@,
        match session.cwd {
            Some(given) => cwd matches Some(cwd) && cwd@ == given@,
            None => cwd is None,
        },
        call_ensures(tin_tmux_session_name, (host,), default),
        match session.tmux_session {
            Some(given) => name@ == given@,
            None => name@ == default@,
        },
        call_ensures(tmux_command, (host, cwd, name), attach),
    ensures
        res@ == attach@,
{
}

/// The command line of the client: the program, then its options with the id and passkey, the
/// interval of its signs of life and the remote command, then the host. Its environment names the
/// terminal, the colours and the home directory.
pub proof fn law_client_command(
    session: &EtSession,
    idpasskey: &str,
    remote: String,
    host: String,
    res: CommandBuilder,
)
    requires
        call_ensures(EtSession::client_command, (session, idpasskey), res),
        call_ensures(EtSession::remote_command, (session,), remote),
        call_ensures(EtSession::host_arg, (session,), host),
    ensures
        command_argv(res).len() == 10,
        command_argv(res)[0] == session.et_client_path@,
        command_argv(res)[1] == "--litter-skip-ssh"@,
        command_argv(res)[2] == "--litter-idpasskey"@ && command_argv(res)[3] == idpasskey@,
        command_argv(res)[4] == "--keepalive"@ && command_argv(res)[5] == "15"@,
        command_argv(res)[6] == "--command"@ && command_argv(res)[7] == remote@,
        command_argv(res)[8] == "--noexit"@,
        command_argv(res)[9] == host@,
        command_env(res).contains_pair("TERM"@, "xterm-256color"@),
        command_env(res).contains_pair("COLORTERM"@, "truecolor"@),
        command_env(res).contains_pair(
            "HOME"@,
            "/data/data/com.sigkitten.litter.android.yolo/files"@,
        ),
{
}

/// With an id and passkey the client's command for them follows, and without one the error, as it
/// came.
pub proof fn law_after_bootstrap(
    session: &EtSession,
    bootstrap: Result<String, TerminalError>,
    idpasskey: &str,
    command: CommandBuilder,
    res: Result<CommandBuilder, TerminalError>,
)
    requires
        call_ensures(EtSession::after_bootstrap, (session, bootstrap), res),
        bootstrap matches Ok(given) ==> idpasskey@ == given@,
        call_ensures(EtSession::client_command, (session, idpasskey), command),
    ensures
        match bootstrap {
            Ok(_) => res matches Ok(made) && command_argv(made) == command_argv(command)
                && command_env(made).contains_pair("TERM"@, "xterm-256color"@) && command_env(
                made,
            ).contains_pair("COLORTERM"@, "truecolor"@) && command_env(made).contains_pair(
                "HOME"@,
                "/data/data/com.sigkitten.litter.android.yolo/files"@,
            ),
            Err(error) => res == Err::<CommandBuilder, TerminalError>(error),
        },
{
}

/// A step that was performed leads to the next one and the last of them to the open session; one
/// that failed ends it all, and the error names the step and carries over the reason.
pub proof fn law_after_open_step(step: OpenStep, outcome: Result<(), String>, res: OpenAction)
    requires
        call_ensures(after_open_step, (step, outcome), res),
    ensures
        outcome is Ok ==> match step {
            OpenStep::JoinPtyTask => res == OpenAction::Perform(OpenStep::OpenPty),
            OpenStep::OpenPty => res == OpenAction::Perform(OpenStep::SpawnClient),
            OpenStep::SpawnClient => res == OpenAction::Perform(OpenStep::CloneReader),
            OpenStep::CloneReader => res == OpenAction::Perform(OpenStep::TakeWriter),
            OpenStep::TakeWriter => res is Ready,
        },
        outcome matches Err(reason) ==> (res matches OpenAction::Failed(
            TerminalError::Backend { detail },
        ) && match step {
            OpenStep::JoinPtyTask => detail@ == "joining ET pty open task: "@ + reason@,
            OpenStep::OpenPty => detail@ == "open ET pty: "@ + reason@,
            OpenStep::SpawnClient => detail@ == "spawn ET client: "@ + reason@,
            OpenStep::CloneReader => detail@ == "clone ET pty reader: "@ + reason@,
            OpenStep::TakeWriter => detail@ == "take ET pty writer: "@ + reason@,
        }),
{
}

/// A system without a client program is told so.
pub proof fn law_unsupported_platform(res: TerminalError)
    requires
        call_ensures(unsupported_platform, (), res),
    ensures
        res matches TerminalError::Unsupported { detail } && detail@
            == "ET terminal backend is only available on Android"@,
{
}

/// What each event leads to while a session is being opened: an id and passkey are obtained
/// unless the session is refused; with them a pseudo terminal of the size of the terminal is
/// opened for the client; an error is reported as it came; and every step leads to what follows
/// it.
pub proof fn law_open_step(
    session: &EtSession,
    event: OpenEvent,
    checked: Result<(), TerminalError>,
    started: Result<CommandBuilder, TerminalError>,
    stepped: OpenAction,
    res: OpenAction,
)
    requires
        call_ensures(EtSession::advance, (session, event), res),
        call_ensures(EtSession::check_client, (session,), checked),
        event matches OpenEvent::Bootstrapped(bootstrap) ==> call_ensures(
            EtSession::after_bootstrap,
            (session, bootstrap),
            started,
        ),
        event matches OpenEvent::Stepped(step, outcome) ==> call_ensures(
            after_open_step,
            (step, outcome),
            stepped,
        ),
    ensures
        match event {
            OpenEvent::Begin => match checked {
                Ok(_) => res is Bootstrap,
                Err(error) => res matches OpenAction::Failed(TerminalError::Backend { detail }) && (
                error matches TerminalError::Backend { detail: text } && detail@ == text@),
            },
            OpenEvent::Bootstrapped(Ok(_)) => res matches OpenAction::OpenPty(grid, command) && {
                &&& grid.cols == session.size.cols
                &&& grid.rows == session.size.rows
                &&& grid.pixel_width == 0
                &&& grid.pixel_height == 0
                &&& command_argv(command) == command_argv(started->Ok_0)
                &&& command_env(command).contains_pair("TERM"@, "xterm-256color"@)
                &&& command_env(command).contains_pair("COLORTERM"@, "truecolor"@)
                &&& command_env(command).contains_pair(
                    "HOME"@,
                    "/data/data/com.sigkitten.litter.android.yolo/files"@,
                )
            },
            OpenEvent::Bootstrapped(Err(TerminalError::Backend { detail })) => res matches
                OpenAction::Failed(TerminalError::Backend { detail: text }) && text@ == detail@,
            OpenEvent::Bootstrapped(Err(TerminalError::Unsupported { detail })) => res matches
                OpenAction::Failed(TerminalError::Unsupported { detail: text }) && text@ == detail@,
            OpenEvent::Stepped(_, _) => match stepped {
                OpenAction::Perform(step) => res == OpenAction::Perform(step),
                OpenAction::Ready => res is Ready,
                OpenAction::Failed(error) => res matches OpenAction::Failed(
                    TerminalError::Backend { detail },
                ) && (error matches TerminalError::Backend { detail: text } && detail@ == text@),
                _ => false,
            },
        },
{
}

} // verus!
