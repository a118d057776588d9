//! How a client obtains an id and passkey over SSH: which host keys it trusts, what it runs on
//! the host, and how it reads the outcome.

use crate::error;
use crate::error::{
    backend_failure, map_ssh_error, SshError, SshErrorView, TerminalError, TerminalErrorView,
};
use crate::idpass;
use crate::idpass::{bootstrap_script, first_nonempty, parse_idpasskey, random_request};
use crate::text;
use vstd::prelude::*;
use vstd::string::*;

verus! {

/// What the trust store knows of a host.
#[derive(Debug, PartialEq, Eq)]
pub enum KnownHost {
    /// There is no trust store.
    NoStore,
    /// The store has no key pinned for the host.
    NotPinned,
    /// The store has the key with this fingerprint pinned for the host.
    Pinned(String),
}

/// What a remote command left behind.
#[derive(Debug, PartialEq, Eq)]
pub struct ExecResult {
    pub exit_code: u32,
    pub stdout: String,
    pub stderr: String,
}

/// What a remote command left behind, with its texts as sequences of characters.
pub struct ExecResultView {
    pub exit_code: u32,
    pub stdout: Seq<char>,
    pub stderr: Seq<char>,
}

impl View for ExecResult {
    type V = ExecResultView;

    open spec fn view(&self) -> ExecResultView {
        ExecResultView {
            exit_code: self.exit_code,
            stdout: self.stdout@,
            stderr: self.stderr@,
        }
    }
}

/// One attempt to obtain an id and passkey from a host.
#[derive(Debug, PartialEq, Eq)]
pub struct Bootstrap {
    /// The name of the host, as errors report it.
    pub host: String,
    pub known: KnownHost,
    /// Whether a host without a pinned key is trusted.
    pub accept_unknown_host: bool,
}

/// The fingerprint that is pinned for a host.
pub open spec fn pinned_fingerprint(known: KnownHost) -> Option<Seq<char>> {
    match known {
        KnownHost::Pinned(fingerprint) => Some(fingerprint@),
        _ => None,
    }
}

/// A host key is trusted where its fingerprint is the pinned one, or, for a host without a
/// pinned key, where unknown hosts are.
pub open spec fn trusts(
    pinned: Option<Seq<char>>,
    accept_unknown_host: bool,
    fingerprint: Seq<char>,
) -> bool {
    match pinned {
        Some(expected) => expected == fingerprint,
        None => accept_unknown_host,
    }
}

/// The fingerprint to pin after a connection: the one that the host showed, where there is a
/// store, it has none for the host, and unknown hosts are trusted.
pub open spec fn pin_after(
    known: KnownHost,
    accept_unknown_host: bool,
    observed: Option<Seq<char>>,
) -> Option<Seq<char>> {
    if known is NotPinned && accept_unknown_host {
        observed
    } else {
        None
    }
}

/// A result with its texts as sequences of characters.
pub open spec fn outcome_of(res: Result<String, TerminalError>) -> Result<
    Seq<char>,
    TerminalErrorView,
> {
    match res {
        Ok(text) => Ok(text@),
        Err(error) => Err(error@),
    }
}

/// What the server's run amounts to: the id and passkey that it printed, or why there is none.
pub open spec fn server_outcome(exit_code: u32, stdout: Seq<char>, stderr: Seq<char>) -> Result<
    Seq<char>,
    TerminalErrorView,
> {
    if exit_code != 0 {
        Err(
            error::backend_error(
                "remote etterminal failed: "@,
                idpass::first_text(stderr, stdout),
            ),
        )
    } else {
        match idpass::idpasskey_in(stdout) {
            Some(idpasskey) => Ok(idpasskey),
            None => Err(
                error::backend_error(
                    "remote etterminal did not return IDPASSKEY; output: "@,
                    idpass::first_text(stdout, stderr),
                ),
            ),
        }
    }
}

/// Reads the id and passkey from what the server's run left behind.
pub fn read_server_run(run: &ExecResult) -> (res: Result<String, TerminalError>)
    ensures
        outcome_of(res) == server_outcome(run.exit_code, run.stdout@, run.stderr@),
{
    if run.exit_code != 0 {
        let output = first_nonempty(run.stderr.as_str(), run.stdout.as_str());
        return Err(backend_failure("remote etterminal failed: ", output.as_str()));
    }
    match parse_idpasskey(run.stdout.as_str()) {
        Some(idpasskey) => Ok(idpasskey),
        None => {
            let output = first_nonempty(run.stdout.as_str(), run.stderr.as_str());
            Err(
                backend_failure(
                    "remote etterminal did not return IDPASSKEY; output: ",
                    output.as_str(),
                ),
            )
        },
    }
}

impl Bootstrap {
    /// The error that an SSH error is reported as.
    pub open spec fn reported(&self, error: SshErrorView) -> TerminalErrorView {
        TerminalErrorView::Backend {
            detail: error::ssh_error_detail(
                error,
                self.host@,
                pinned_fingerprint(self.known) is Some,
            ),
        }
    }

    /// Tells whether the key that the host presents is trusted.
    pub fn accepts_host_key(&self, fingerprint: &String) -> (res: bool)
        ensures
            res == trusts(
                pinned_fingerprint(self.known),
                self.accept_unknown_host,
                fingerprint@,
            ),
    {
        match &self.known {
            KnownHost::Pinned(expected) => *expected == *fingerprint,
            _ => self.accept_unknown_host,
        }
    }

    /// Reports an SSH error.
    pub fn report(&self, error: SshError) -> (res: TerminalError)
        ensures
            res@ == self.reported(error@),
    {
        match &self.known {
            KnownHost::Pinned(expected) => map_ssh_error(
                error,
                self.host.as_str(),
                Some(expected.as_str()),
            ),
            _ => map_ssh_error(error, self.host.as_str(), None),
        }
    }

    /// What follows the attempt to connect: the fingerprint to pin for the host, if any, before
    /// a request is drawn; or the error. A connection brings the fingerprint of the key that the
    /// host showed, if it was seen.
    pub fn after_connect(&self, connection: Result<Option<String>, SshError>) -> (res: Result<
        Option<String>,
        TerminalError,
    >)
        ensures
            match connection {
                Ok(observed) => res matches Ok(pin) && text::owned_text(pin) == pin_after(
                    self.known,
                    self.accept_unknown_host,
                    text::owned_text(observed),
                ),
                Err(error) => res matches Err(reported) && reported@ == self.reported(error@),
            },
    {
        match connection {
            Ok(observed) => match &self.known {
                KnownHost::NotPinned => if self.accept_unknown_host {
                    Ok(observed)
                } else {
                    Ok(None)
                },
                _ => Ok(None),
            },
            Err(error) => Err(self.report(error)),
        }
    }

    /// The outcome, once the remote command has run or failed to.
    pub fn after_exec(&self, run: Result<ExecResult, SshError>) -> (res: Result<
        String,
        TerminalError,
    >)
        ensures
            outcome_of(res) == match run {
                Ok(run) => server_outcome(run.exit_code, run.stdout@, run.stderr@),
                Err(error) => Err(self.reported(error@)),
            },
    {
        match run {
            Ok(run) => read_server_run(&run),
            Err(error) => Err(self.report(error)),
        }
    }
}

/// Something that happened in the course of an attempt.
#[derive(Debug, PartialEq, Eq)]
pub enum BootstrapEvent {
    /// The attempt begins.
    Begin,
    /// There is a connection, with the fingerprint of the key that the host showed, if it was
    /// seen; or there is none.
    Connected(Result<Option<String>, SshError>),
    /// The fingerprint is pinned.
    Pinned,
    /// The remote command has run, or failed to.
    Ran(Result<ExecResult, SshError>),
}

/// What is to be done next in an attempt.
#[derive(Debug, PartialEq, Eq)]
pub enum BootstrapAction {
    Connect,
    /// Pin this fingerprint for the host.
    Pin(String),
    /// Run this command on the host.
    Run(String),
    /// The attempt has ended with this id and passkey.
    Done(String),
    Failed(TerminalError),
}

/// An event with its texts as sequences of characters.
pub enum BootstrapEventView {
    Begin,
    Connected(Result<Option<Seq<char>>, SshErrorView>),
    Pinned,
    Ran(Result<ExecResultView, SshErrorView>),
}

/// What is to be done next, with its texts as sequences of characters.
pub enum BootstrapActionView {
    Connect,
    Pin(Seq<char>),
    Run(Seq<char>),
    Done(Seq<char>),
    Failed(TerminalErrorView),
}

impl View for BootstrapEvent {
    type V = BootstrapEventView;

    open spec fn view(&self) -> BootstrapEventView {
        match *self {
            BootstrapEvent::Begin => BootstrapEventView::Begin,
            BootstrapEvent::Connected(Ok(observed)) => BootstrapEventView::Connected(
                Ok(text::owned_text(observed)),
            ),
            BootstrapEvent::Connected(Err(error)) => BootstrapEventView::Connected(Err(error@)),
            BootstrapEvent::Pinned => BootstrapEventView::Pinned,
            BootstrapEvent::Ran(Ok(run)) => BootstrapEventView::Ran(Ok(run@)),
            BootstrapEvent::Ran(Err(error)) => BootstrapEventView::Ran(Err(error@)),
        }
    }
}

impl View for BootstrapAction {
    type V = BootstrapActionView;

    open spec fn view(&self) -> BootstrapActionView {
        match *self {
            BootstrapAction::Connect => BootstrapActionView::Connect,
            BootstrapAction::Pin(fingerprint) => BootstrapActionView::Pin(fingerprint@),
            BootstrapAction::Run(script) => BootstrapActionView::Run(script@),
            BootstrapAction::Done(idpasskey) => BootstrapActionView::Done(idpasskey@),
            BootstrapAction::Failed(error) => BootstrapActionView::Failed(error@),
        }
    }
}

impl Bootstrap {
    /// What follows the run of the remote command.
    pub open spec fn end_of_run(
        &self,
        run: Result<ExecResultView, SshErrorView>,
    ) -> BootstrapActionView {
        match run {
            Ok(run) => match server_outcome(run.exit_code, run.stdout, run.stderr) {
                Ok(idpasskey) => BootstrapActionView::Done(idpasskey),
                Err(error) => BootstrapActionView::Failed(error),
            },
            Err(error) => BootstrapActionView::Failed(self.reported(error)),
        }
    }

    /// What is to be done after an event, where `script` is the command for the host: connect;
    /// pin the key that the host showed, if it has to be; run the command; read its outcome.
    pub open spec fn next_action(
        &self,
        event: BootstrapEventView,
        script: Seq<char>,
    ) -> BootstrapActionView {
        match event {
            BootstrapEventView::Begin => BootstrapActionView::Connect,
            BootstrapEventView::Connected(Err(error)) => BootstrapActionView::Failed(
                self.reported(error),
            ),
            BootstrapEventView::Connected(Ok(observed)) => match pin_after(
                self.known,
                self.accept_unknown_host,
                observed,
            ) {
                Some(fingerprint) => BootstrapActionView::Pin(fingerprint),
                None => BootstrapActionView::Run(script),
            },
            BootstrapEventView::Pinned => BootstrapActionView::Run(script),
            BootstrapEventView::Ran(run) => self.end_of_run(run),
        }
    }

    /// Decides what is to be done after an event, with the given request for the server.
    pub fn advance_with(&self, event: BootstrapEvent, request: &str) -> (res: BootstrapAction)
        ensures
            res@ == self.next_action(event@, idpass::script_text(request@)),
    {
        match event {
            BootstrapEvent::Begin => BootstrapAction::Connect,
            BootstrapEvent::Connected(connection) => match self.after_connect(connection) {
                Ok(Some(fingerprint)) => BootstrapAction::Pin(fingerprint),
                Ok(None) => BootstrapAction::Run(bootstrap_script(request)),
                Err(error) => BootstrapAction::Failed(error),
            },
            BootstrapEvent::Pinned => BootstrapAction::Run(bootstrap_script(request)),
            BootstrapEvent::Ran(run) => match self.after_exec(run) {
                Ok(idpasskey) => BootstrapAction::Done(idpasskey),
                Err(error) => BootstrapAction::Failed(error),
            },
        }
    }

    /// Tells whether the remote command comes next after an event.
    fn runs_next(&self, event: &BootstrapEvent) -> (res: bool)
        ensures
            forall|script: Seq<char>|
                res == ((#[trigger] self.next_action(event@, script)) is Run),
    {
        match event {
            BootstrapEvent::Connected(Ok(observed)) => match &self.known {
                KnownHost::NotPinned => !(self.accept_unknown_host && observed.is_some()),
                _ => true,
            },
            BootstrapEvent::Pinned => true,
            _ => false,
        }
    }

    /// Decides what is to be done after an event. A request is drawn where the remote command
    /// comes next, and only there.
    pub fn advance(&self, event: BootstrapEvent) -> (res: BootstrapAction)
        ensures
            exists|script: Seq<char>|
                idpass::is_random_script(script) && res@ == #[trigger] self.next_action(
                    event@,
                    script,
                ),
    {
        if self.runs_next(&event) {
            let request = random_request();
            proof {
                assert(idpass::is_random_script(idpass::script_text(request@)));
            }
            self.advance_with(event, request.as_str())
        } else {
            proof {
                let request = idpass::lemma_random_request_exists();
                let script = idpass::script_text(request);
                assert(idpass::is_random_script(script));
                assert(!(self.next_action(event@, script) is Run));
                assert(self.next_action(event@, script) == self.next_action(
                    event@,
                    idpass::script_text(""@),
                ));
            }
            self.advance_with(event, "")
        }
    }

    /// All that is done from `action` on, in order, when the connection, and then the remote
    /// command `script`, have the given outcomes.
    pub open spec fn course(
        &self,
        action: BootstrapActionView,
        connection: Result<Option<Seq<char>>, SshErrorView>,
        script: Seq<char>,
        run: Result<ExecResultView, SshErrorView>,
    ) -> Seq<BootstrapActionView>
        decreases
                match action {
                    BootstrapActionView::Connect => 3int,
                    BootstrapActionView::Pin(_) => 2,
                    BootstrapActionView::Run(_) => 1,
                    _ => 0,
                },
    {
        let event = match action {
            BootstrapActionView::Connect => Some(BootstrapEventView::Connected(connection)),
            BootstrapActionView::Pin(_) => Some(BootstrapEventView::Pinned),
            BootstrapActionView::Run(_) => Some(BootstrapEventView::Ran(run)),
            _ => None,
        };
        match event {
            Some(event) => seq![action] + self.course(
                self.next_action(event, script),
                connection,
                script,
                run,
            ),
            None => seq![action],
        }
    }
}

/// The whole of an attempt: after a connection that failed nothing is pinned and nothing is run,
/// and the failure is reported. After one that was made, the key that the host showed is pinned
/// first, where it has to be, then the remote command is run, once, and its outcome ends the
/// attempt.
pub proof fn law_bootstrap_course(
    bootstrap: Bootstrap,
    connection: Result<Option<Seq<char>>, SshErrorView>,
    script: Seq<char>,
    run: Result<ExecResultView, SshErrorView>,
)
    ensures
        bootstrap.course(
            bootstrap.next_action(BootstrapEventView::Begin, script),
            connection,
            script,
            run,
        ) == match connection {
            Err(error) => seq![
                BootstrapActionView::Connect,
                BootstrapActionView::Failed(bootstrap.reported(error)),
            ],
            Ok(observed) => match pin_after(
                bootstrap.known,
                bootstrap.accept_unknown_host,
                observed,
            ) {
                Some(fingerprint) => seq![
                    BootstrapActionView::Connect,
                    BootstrapActionView::Pin(fingerprint),
                    BootstrapActionView::Run(script),
                    bootstrap.end_of_run(run),
                ],
                None => seq![
                    BootstrapActionView::Connect,
                    BootstrapActionView::Run(script),
                    bootstrap.end_of_run(run),
                ],
            },
        },
        bootstrap.end_of_run(run) is Done || bootstrap.end_of_run(run) is Failed,
{
    reveal_with_fuel(Bootstrap::course, 5);
}

/// Trust on first use: a key that is pinned was trusted when it was seen; from then on that key,
/// and no other, is trusted for the host, whether unknown hosts are trusted or not; and it is
/// never replaced.
pub proof fn law_trust_on_first_use(
    known: KnownHost,
    accept_unknown_host: bool,
    observed: Option<Seq<char>>,
    later: KnownHost,
    accept_later: bool,
    fingerprint: Seq<char>,
    observed_later: Option<Seq<char>>,
)
    requires
        pin_after(known, accept_unknown_host, observed) is Some,
        pinned_fingerprint(later) == pin_after(known, accept_unknown_host, observed),
    ensures
        observed is Some,
        trusts(pinned_fingerprint(known), accept_unknown_host, observed->0),
        trusts(pinned_fingerprint(later), accept_later, fingerprint) <==> observed == Some(
            fingerprint,
        ),
        pin_after(later, accept_later, observed_later) is None,
{
}

/// A host key that is not the pinned one is refused, and the refusal is reported as a changed
/// key, with the host and the key that was shown.
pub proof fn law_changed_key_is_reported(bootstrap: Bootstrap, fingerprint: Seq<char>)
    requires
        bootstrap.known is Pinned,
        pinned_fingerprint(bootstrap.known) != Some(fingerprint),
    ensures
        !trusts(
            pinned_fingerprint(bootstrap.known),
            bootstrap.accept_unknown_host,
            fingerprint,
        ),
        bootstrap.reported(SshErrorView::HostKeyVerification { fingerprint })
            == error::backend_error(
            "host-key-changed:"@ + bootstrap.host@ + ":"@,
            fingerprint,
        ),
{
}

/// A run of the server that prints the marker and the request gives the request back.
pub proof fn law_request_comes_back(
    front: Seq<char>,
    blanks: Seq<char>,
    request: Seq<char>,
    rest: Seq<char>,
    stderr: Seq<char>,
)
    requires
        idpass::is_random_request(request),
        text::first_occurs_at(
            front + "IDPASSKEY:"@ + blanks + request + rest,
            "IDPASSKEY:"@,
            front.len() as int,
        ),
        forall|i: int| 0 <= i < blanks.len() ==> text::is_blank(#[trigger] blanks[i]),
        rest.len() == 0 || text::is_blank(rest[0]),
    ensures
        server_outcome(0, front + "IDPASSKEY:"@ + blanks + request + rest, stderr) == Ok::<
            Seq<char>,
            TerminalErrorView,
        >(request),
{
    idpass::law_random_request_is_plain(request);
    idpass::law_reply_gives_back_request(front, blanks, request, rest);
}

/// A run that ended with exit code 0 and printed, behind the first marker and white space, a word
/// with a slash in it, gives exactly that word as the id and passkey, whatever its length and
/// whatever else was printed.
pub proof fn law_server_reply_is_read(
    front: Seq<char>,
    blanks: Seq<char>,
    word: Seq<char>,
    rest: Seq<char>,
    run: &ExecResult,
    res: Result<String, TerminalError>,
)
    requires
        call_ensures(read_server_run, (run,), res),
        run.exit_code == 0,
        run.stdout@ == front + "IDPASSKEY:"@ + (blanks + word + rest),
        forall|j: int|
            0 <= j < front.len() ==> #[trigger] run.stdout@.subrange(j, j + 10) != "IDPASSKEY:"@,
        forall|i: int| 0 <= i < blanks.len() ==> text::is_blank(#[trigger] blanks[i]),
        forall|i: int| 0 <= i < word.len() ==> !text::is_blank(#[trigger] word[i]),
        word.contains('/'),
        rest.len() == 0 || text::is_blank(rest[0]),
    ensures
        res matches Ok(idpasskey) && idpasskey@ == word,
        server_outcome(0, run.stdout@, run.stderr@) == Ok::<Seq<char>, TerminalErrorView>(word),
{
    idpass::lemma_idpasskey_behind_marker(front, blanks, word, rest);
}

/// A run of the server is read as its output is: where it failed, or its output holds no id and
/// passkey, the error shows what it printed, its error output first where it failed, and its
/// output first where it did not.
pub proof fn law_server_run(
    run: &ExecResult,
    stdout: &str,
    stderr: &str,
    parsed: Option<String>,
    printed: String,
    complaint: String,
    res: Result<String, TerminalError>,
)
    requires
        call_ensures(read_server_run, (run,), res),
        stdout@ == run.stdout@,
        stderr@ == run.stderr@,
        call_ensures(parse_idpasskey, (stdout,), parsed),
        call_ensures(first_nonempty, (stdout, stderr), printed),
        call_ensures(first_nonempty, (stderr, stdout), complaint),
    ensures
        res is Ok <==> run.exit_code == 0 && parsed is Some,
        res matches Ok(idpasskey) ==> idpasskey@ == parsed->0@,
        run.exit_code != 0 ==> (res matches Err(TerminalError::Backend { detail }) && detail@
            == "remote etterminal failed: "@ + complaint@),
        run.exit_code == 0 && parsed is None ==> (res matches Err(TerminalError::Backend { detail })
            && detail@ == "remote etterminal did not return IDPASSKEY; output: "@ + printed@),
{
}

/// Where a key is pinned, that key and no other is trusted, whatever the setting. Where none is,
/// every key is trusted if unknown hosts are accepted, and none at all if they are not.
pub proof fn law_host_key(bootstrap: &Bootstrap, fingerprint: &String, res: bool)
    requires
        call_ensures(Bootstrap::accepts_host_key, (bootstrap, fingerprint), res),
    ensures
        match bootstrap.known {
            KnownHost::Pinned(expected) => res <==> expected@ == fingerprint@,
            KnownHost::NotPinned => res <==> bootstrap.accept_unknown_host,
            KnownHost::NoStore => res <==> bootstrap.accept_unknown_host,
        },
        forall|accept: bool, shown: Seq<char>| #[trigger] trusts(None, accept, shown) <==> accept,
        forall|expected: Seq<char>, accept: bool, shown: Seq<char>|
            #[trigger] trusts(Some(expected), accept, shown) <==> expected == shown,
{
}

/// An SSH error is reported in the name of the host, and a refused key as a changed one exactly
/// where the host has a pinned key.
pub proof fn law_report(
    bootstrap: &Bootstrap,
    error: SshError,
    host: &str,
    pinned: Option<&str>,
    mapped: TerminalError,
    res: TerminalError,
)
    requires
        call_ensures(Bootstrap::report, (bootstrap, error), res),
        call_ensures(map_ssh_error, (error, host, pinned), mapped),
        host@ == bootstrap.host@,
        pinned is Some <==> bootstrap.known is Pinned,
    ensures
        res matches TerminalError::Backend { detail } && (mapped matches TerminalError::Backend {
            detail: text,
        } && detail@ == text@),
        error matches SshError::HostKeyVerification { fingerprint } ==> res->Backend_detail@ == if (
        bootstrap.known is Pinned) {
            "host-key-changed:"@ + bootstrap.host@ + ":"@ + fingerprint@
        } else {
            "unknown-host:"@ + fingerprint@
        },
{
}

/// After a connection, the key that the host showed is pinned exactly where there is a store, it
/// has none for the host, and unknown hosts are accepted; a failed connection is reported.
pub proof fn law_after_connect(
    bootstrap: &Bootstrap,
    connection: Result<Option<String>, SshError>,
    reported: TerminalError,
    res: Result<Option<String>, TerminalError>,
)
    requires
        call_ensures(Bootstrap::after_connect, (bootstrap, connection), res),
        connection matches Err(error) ==> call_ensures(
            Bootstrap::report,
            (bootstrap, error),
            reported,
        ),
    ensures
        match connection {
            Ok(Some(shown)) => if bootstrap.known is NotPinned && bootstrap.accept_unknown_host {
                res matches Ok(Some(pin)) && pin@ == shown@
            } else {
                res matches Ok(None)
            },
            Ok(None) => res matches Ok(None),
            Err(_) => res matches Err(TerminalError::Backend { detail }) && (
            reported matches TerminalError::Backend { detail: text } && detail@ == text@),
        },
{
}

/// The outcome of the remote command is what its run is read as; one that could not be run is
/// reported.
pub proof fn law_after_exec(
    bootstrap: &Bootstrap,
    run: Result<ExecResult, SshError>,
    read: Result<String, TerminalError>,
    reported: TerminalError,
    res: Result<String, TerminalError>,
)
    requires
        call_ensures(Bootstrap::after_exec, (bootstrap, run), res),
        run matches Ok(run) ==> call_ensures(read_server_run, (&run,), read),
        run matches Err(error) ==> call_ensures(Bootstrap::report, (bootstrap, error), reported),
    ensures
        match run {
            Ok(_) => match read {
                Ok(idpasskey) => res matches Ok(text) && text@ == idpasskey@,
                Err(error) => res matches Err(TerminalError::Backend { detail }) && (
                error matches TerminalError::Backend { detail: text } && detail@ == text@),
            },
            Err(_) => res matches Err(TerminalError::Backend { detail }) && (
            reported matches TerminalError::Backend { detail: text } && detail@ == text@),
        },
{
}

/// What each event of an attempt leads to: the attempt begins with the connection; a key that has
/// to be pinned is pinned, and otherwise, as after pinning, the remote command for the request is
/// run; its outcome, or a failure, ends the attempt.
pub proof fn law_attempt_step(
    bootstrap: &Bootstrap,
    event: BootstrapEvent,
    request: &str,
    connected: Result<Option<String>, TerminalError>,
    script: String,
    ended: Result<String, TerminalError>,
    res: BootstrapAction,
)
    requires
        call_ensures(Bootstrap::advance_with, (bootstrap, event, request), res),
        call_ensures(bootstrap_script, (request,), script),
        event matches BootstrapEvent::Connected(connection) ==> call_ensures(
            Bootstrap::after_connect,
            (bootstrap, connection),
            connected,
        ),
        event matches BootstrapEvent::Ran(run) ==> call_ensures(
            Bootstrap::after_exec,
            (bootstrap, run),
            ended,
        ),
    ensures
        match event {
            BootstrapEvent::Begin => res is Connect,
            BootstrapEvent::Connected(_) => match connected {
                Ok(Some(pin)) => res matches BootstrapAction::Pin(fingerprint) && fingerprint@
                    == pin@,
                Ok(None) => res matches BootstrapAction::Run(command) && command@ == script@,
                Err(error) => res matches BootstrapAction::Failed(
                    TerminalError::Backend { detail },
                ) && (error matches TerminalError::Backend { detail: text } && detail@ == text@),
            },
            BootstrapEvent::Pinned => res matches BootstrapAction::Run(command) && command@
                == script@,
            BootstrapEvent::Ran(_) => match ended {
                Ok(idpasskey) => res matches BootstrapAction::Done(text) && text@ == idpasskey@,
                Err(error) => res matches BootstrapAction::Failed(
                    TerminalError::Backend { detail },
                ) && (error matches TerminalError::Backend { detail: text } && detail@ == text@),
            },
        },
{
}

/// An attempt with a request of its own goes the same way, and the command that it runs hands
/// over an id of 16 and a passkey of 32 hexadecimal digits.
pub proof fn law_attempt_step_with_random_request(
    bootstrap: &Bootstrap,
    event: BootstrapEvent,
    connected: Result<Option<String>, TerminalError>,
    ended: Result<String, TerminalError>,
    res: BootstrapAction,
)
    requires
        call_ensures(Bootstrap::advance, (bootstrap, event), res),
        event matches BootstrapEvent::Connected(connection) ==> call_ensures(
            Bootstrap::after_connect,
            (bootstrap, connection),
            connected,
        ),
        event matches BootstrapEvent::Ran(run) ==> call_ensures(
            Bootstrap::after_exec,
            (bootstrap, run),
            ended,
        ),
    ensures
        match event {
            BootstrapEvent::Begin => res is Connect,
            BootstrapEvent::Connected(_) => match connected {
                Ok(Some(pin)) => res matches BootstrapAction::Pin(fingerprint) && fingerprint@
                    == pin@,
                Ok(None) => res is Run,
                Err(error) => res matches BootstrapAction::Failed(
                    TerminalError::Backend { detail },
                ) && (error matches TerminalError::Backend { detail: text } && detail@ == text@),
            },
            BootstrapEvent::Pinned => res is Run,
            BootstrapEvent::Ran(_) => match ended {
                Ok(idpasskey) => res matches BootstrapAction::Done(text) && text@ == idpasskey@,
                Err(error) => res matches BootstrapAction::Failed(
                    TerminalError::Backend { detail },
                ) && (error matches TerminalError::Backend { detail: text } && detail@ == text@),
            },
        },
        res matches BootstrapAction::Run(command) ==> {
            let request = command@.subrange(14, 78);
            &&& command@.len() >= 78
            &&& command@.take(14) == "printf '%s\\n' "@
            &&& forall|i: int|
                0 <= i < 49 && i != 16 ==> ('0' <= #[trigger] request[i] <= '9' || 'a' <= request[i]
                    <= 'f')
            &&& request[16] == '/'
            &&& request.skip(49) == "_xterm-256color"@
            &&& command@.skip(78)
                == " | (command -v etterminal >/dev/null 2>&1 && etterminal --verbose=0 || /usr/local/bin/etterminal --verbose=0)"@
        },
{
    if let BootstrapAction::Run(command) = res {
        let script = choose|script: Seq<char>|
            idpass::is_random_script(script) && res@ == #[trigger] bootstrap.next_action(
                event@,
                script,
            );
        let request = choose|request: Seq<char>|
            idpass::is_random_request(request) && script == #[trigger] idpass::script_text(request);
        assert(command@ == script);
        idpass::law_random_request_is_plain(request);
        idpass::law_random_request_layout(request);
        reveal_strlit("printf '%s\\n' ");
        assert(command@.subrange(14, 78) =~= request);
        assert(command@.take(14) =~= "printf '%s\\n' "@);
        assert(command@.skip(78)
            =~= " | (command -v etterminal >/dev/null 2>&1 && etterminal --verbose=0 || /usr/local/bin/etterminal --verbose=0)"@);
    }
}

} // verus!
