use litter_terminal::channel::{
    begin_channel, ChannelNext, ChannelStep, CommandRequest, PtyRequest, TerminalRequest,
};
use litter_terminal::client::{
    after_open_step, pty_grid, set_client_environment, unsupported_platform, EtSession, OpenAction, OpenEvent, OpenStep,
    PtyGrid, TerminalSize,
};
use litter_terminal::error::{SshError, TerminalError};
use litter_terminal::stream::{
    after_read, after_wait, after_write, keeps_reading, PtySlot, ReadOutcome, ReaderAction,
    TerminalBackendEvent, OUTPUT_CHUNK,
};

const SIZE: TerminalSize = TerminalSize { cols: 80, rows: 24 };

fn backend(detail: &str) -> TerminalError {
    TerminalError::Backend { detail: detail.to_string() }
}

fn session() -> EtSession {
    EtSession {
        host: "box.example.org".to_string(),
        et_port: 2022,
        username: "tin".to_string(),
        cwd: None,
        et_client_path: "/opt/et".to_string(),
        tmux_session: None,
        size: SIZE,
    }
}

fn argv(session: &EtSession, idpasskey: &str) -> Vec<String> {
    let command = session.client_command(idpasskey);
    command.get_argv().iter().map(|arg| arg.to_str().unwrap().to_string()).collect()
}

#[test]
fn client_has_its_arguments() {
    assert_eq!(
        argv(&session(), "id/key"),
        [
            "/opt/et",
            "--litter-skip-ssh",
            "--litter-idpasskey",
            "id/key",
            "--keepalive",
            "15",
            "--command",
            "dir='$HOME/Central_Command'; if [ ! -d \"$dir\" ]; then dir=\"$HOME\"; fi; \
             exec tmux new-session -A -s codex-litter@box -c \"$dir\"",
            "--noexit",
            "tin@box.example.org:2022",
        ]
    );
}

#[test]
fn client_takes_the_given_session_and_directory() {
    let mut given = session();
    given.tmux_session = Some("my session".to_string());
    given.cwd = Some("/srv".to_string());
    assert_eq!(
        argv(&given, "id/key")[7],
        "dir=/srv; if [ ! -d \"$dir\" ]; then dir=\"$HOME\"; fi; \
         exec tmux new-session -A -s 'my session' -c \"$dir\""
    );
}

#[test]
fn client_has_its_environment() {
    let command = session().client_command("id/key");
    let value = |name: &str| command.get_env(name).and_then(|value| value.to_str());
    assert_eq!(value("TERM"), Some("xterm-256color"));
    assert_eq!(value("COLORTERM"), Some("truecolor"));
    assert_eq!(value("HOME"), Some("/data/data/com.sigkitten.litter.android.yolo/files"));
}

#[test]
fn only_the_variables_of_the_client_are_set() {
    let mut command = portable_pty::CommandBuilder::new("et");
    command.arg("x");
    command.env("TERM", "dumb");
    command.env("LITTER_OTHER", "kept");
    let before: Vec<(String, String)> = command
        .iter_full_env_as_str()
        .map(|(name, value)| (name.to_string(), value.to_string()))
        .collect();
    set_client_environment(&mut command);
    assert_eq!(command.get_argv().len(), 2);
    let own = ["TERM", "COLORTERM", "HOME"];
    let others = |pairs: &[(String, String)]| -> Vec<(String, String)> {
        pairs.iter().filter(|pair| !own.contains(&pair.0.as_str())).cloned().collect()
    };
    let after: Vec<(String, String)> = command
        .iter_full_env_as_str()
        .map(|(name, value)| (name.to_string(), value.to_string()))
        .collect();
    assert_eq!(others(&after), others(&before));
    assert_eq!(others(&after).len() + 3, after.len());
    assert!(after.contains(&("LITTER_OTHER".to_string(), "kept".to_string())));
    assert!(after.contains(&("TERM".to_string(), "xterm-256color".to_string())));
}

#[test]
fn blank_user_is_left_out() {
    let mut anonymous = session();
    anonymous.username = " \t".to_string();
    anonymous.et_port = 0;
    assert_eq!(anonymous.host_arg(), "box.example.org:0");
    anonymous.username = " a ".to_string();
    anonymous.et_port = 65535;
    assert_eq!(anonymous.host_arg(), " a @box.example.org:65535");
}

#[test]
fn client_path_is_required() {
    assert_eq!(session().check_client(), Ok(()));
    let mut pathless = session();
    pathless.et_client_path = " \n".to_string();
    assert_eq!(pathless.check_client(), Err(backend("missing bundled ET client path")));
}

#[test]
fn bootstrap_error_is_passed_on() {
    let failed = session().after_bootstrap(Err(backend("disconnected")));
    assert_eq!(failed.err(), Some(backend("disconnected")));
    let command = session().after_bootstrap(Ok("a/b".to_string())).unwrap();
    assert_eq!(command.get_argv()[3].to_str(), Some("a/b"));
}

#[test]
fn session_opens_step_by_step() {
    let mut step = OpenStep::JoinPtyTask;
    let mut seen = vec![step];
    while let OpenAction::Perform(next) = after_open_step(step, Ok(())) {
        step = next;
        seen.push(step);
    }
    assert_eq!(
        seen,
        [
            OpenStep::JoinPtyTask,
            OpenStep::OpenPty,
            OpenStep::SpawnClient,
            OpenStep::CloneReader,
            OpenStep::TakeWriter,
        ]
    );
    assert_eq!(after_open_step(step, Ok(())), OpenAction::Ready);
}

#[test]
fn failed_step_is_reported() {
    let failed = |step| after_open_step(step, Err("no".to_string()));
    let reported = |detail: &str| OpenAction::Failed(backend(detail));
    assert_eq!(failed(OpenStep::JoinPtyTask), reported("joining ET pty open task: no"));
    assert_eq!(failed(OpenStep::OpenPty), reported("open ET pty: no"));
    assert_eq!(failed(OpenStep::SpawnClient), reported("spawn ET client: no"));
    assert_eq!(failed(OpenStep::CloneReader), reported("clone ET pty reader: no"));
    assert_eq!(failed(OpenStep::TakeWriter), reported("take ET pty writer: no"));
}

#[test]
fn opening_begins_with_the_bootstrap() {
    assert_eq!(session().advance(OpenEvent::Begin), OpenAction::Bootstrap);
    let mut pathless = session();
    pathless.et_client_path = String::new();
    assert_eq!(
        pathless.advance(OpenEvent::Begin),
        OpenAction::Failed(backend("missing bundled ET client path"))
    );
    assert_eq!(
        session().advance(OpenEvent::Bootstrapped(Err(backend("connect-timeout")))),
        OpenAction::Failed(backend("connect-timeout"))
    );
    match session().advance(OpenEvent::Bootstrapped(Ok("a/b".to_string()))) {
        OpenAction::OpenPty(grid, command) => {
            assert_eq!(grid, pty_grid(SIZE));
            assert_eq!(command, session().client_command("a/b"));
        }
        other => panic!("{:?}", other),
    }
    assert_eq!(
        session().advance(OpenEvent::Stepped(OpenStep::OpenPty, Ok(()))),
        OpenAction::Perform(OpenStep::SpawnClient)
    );
    assert_eq!(
        session().advance(OpenEvent::Stepped(OpenStep::TakeWriter, Ok(()))),
        OpenAction::Ready
    );
    assert_eq!(
        session().advance(OpenEvent::Stepped(OpenStep::OpenPty, Err("no".to_string()))),
        OpenAction::Failed(backend("open ET pty: no"))
    );
}

#[test]
fn other_platforms_are_unsupported() {
    assert_eq!(
        unsupported_platform(),
        TerminalError::Unsupported {
            detail: "ET terminal backend is only available on Android".to_string()
        }
    );
}

#[test]
fn size_is_in_characters() {
    let grid = PtyGrid { rows: 24, cols: 80, pixel_width: 0, pixel_height: 0 };
    assert_eq!(pty_grid(SIZE), grid);
    assert_eq!(PtySlot::new("pty").resize_target(SIZE), Some((&"pty", grid)));
}

#[test]
fn failed_use_is_reported() {
    assert_eq!(after_write(Ok(())), Ok(()));
    assert_eq!(
        after_write(Err("broken pipe".to_string())),
        Err(backend("ET write: broken pipe"))
    );
    let slot = PtySlot::new("pty");
    assert_eq!(slot.after_resize(SIZE, Ok(())), Ok(()));
    assert_eq!(slot.after_resize(SIZE, Err("gone".to_string())), Err(backend("ET resize: gone")));
}

#[test]
fn resize_after_close_does_nothing() {
    let mut slot = PtySlot::new("pty");
    assert_eq!(slot.close(), Some("pty"));
    assert_eq!(slot.resize_target(SIZE), None);
    assert_eq!(slot.after_resize(SIZE, Ok(())), Ok(()));
    assert_eq!(slot.after_resize(SIZE, Err("gone".to_string())), Ok(()));
    assert_eq!(slot.close(), None);
    assert_eq!(slot.resize_target(SIZE), None);
}

#[test]
fn reader_decides_by_outcome() {
    let buffer = vec![1u8, 2, 3, 4];
    assert_eq!(after_read(ReadOutcome::Read(0), &buffer), ReaderAction::Stop);
    assert_eq!(
        after_read(ReadOutcome::Read(3), &buffer),
        ReaderAction::Send(TerminalBackendEvent::Bytes(vec![1, 2, 3]))
    );
    assert_eq!(
        after_read(ReadOutcome::Read(4), &buffer),
        ReaderAction::Send(TerminalBackendEvent::Bytes(vec![1, 2, 3, 4]))
    );
    assert_eq!(after_read(ReadOutcome::Interrupted, &buffer), ReaderAction::ReadAgain);
    assert_eq!(
        after_read(ReadOutcome::Failed("kapott \u{e9}".to_string()), &buffer),
        ReaderAction::SendLast(TerminalBackendEvent::Bytes(
            "\r\n[et] read error: kapott \u{e9}\r\n".as_bytes().to_vec()
        ))
    );
    assert_eq!(OUTPUT_CHUNK, 16384);
}

#[test]
fn reader_goes_on_while_events_are_taken() {
    let event = || TerminalBackendEvent::Bytes(vec![1]);
    for taken in [false, true] {
        assert!(!keeps_reading(&ReaderAction::Stop, taken));
        assert!(keeps_reading(&ReaderAction::ReadAgain, taken));
        assert_eq!(keeps_reading(&ReaderAction::Send(event()), taken), taken);
        assert!(!keeps_reading(&ReaderAction::SendLast(event()), taken));
    }
}

/// Runs the reader over these reads, where an empty one stands for an interruption, and gives the
/// events that it hands over while the first `takes` of them are taken.
fn read_all(reads: &[&[u8]], takes: usize) -> Vec<Vec<u8>> {
    let mut shown = Vec::new();
    for data in reads {
        let outcome = match data.len() {
            0 => ReadOutcome::Interrupted,
            n => ReadOutcome::Read(n),
        };
        let action = after_read(outcome, &data.to_vec());
        if let ReaderAction::Send(TerminalBackendEvent::Bytes(bytes)) = &action {
            shown.push(bytes.clone());
        }
        if !keeps_reading(&action, shown.len() <= takes) {
            break;
        }
    }
    shown
}

#[test]
fn reader_hands_over_all() {
    let reads: [&[u8]; 4] = [b"ab", b"", b"c", b"de"];
    assert_eq!(read_all(&reads, 9), [b"ab".to_vec(), b"c".to_vec(), b"de".to_vec()]);
    assert_eq!(read_all(&reads, 9).concat(), b"abcde");
}

#[test]
fn reader_stops_when_nobody_takes_events() {
    let reads: [&[u8]; 3] = [b"ab", b"c", b"de"];
    assert_eq!(read_all(&reads, 1), [b"ab".to_vec(), b"c".to_vec()]);
    assert_eq!(read_all(&reads, 0), [b"ab".to_vec()]);
}

#[test]
fn waiter_reports_the_exit() {
    assert_eq!(after_wait(Ok(0)), [TerminalBackendEvent::Exit(0)]);
    assert_eq!(after_wait(Ok(137)), [TerminalBackendEvent::Exit(137)]);
    assert_eq!(after_wait(Ok(0x7fff_ffff)), [TerminalBackendEvent::Exit(i32::MAX)]);
    assert_eq!(after_wait(Ok(0x8000_0000)), [TerminalBackendEvent::Exit(i32::MIN)]);
    assert_eq!(after_wait(Ok(u32::MAX)), [TerminalBackendEvent::Exit(-1)]);
    assert_eq!(
        after_wait(Err("no child".to_string())),
        [
            TerminalBackendEvent::Bytes(b"\r\n[et] wait error: no child\r\n".to_vec()),
            TerminalBackendEvent::Exit(-1),
        ]
    );
}

fn terminal(shell: Option<&str>) -> TerminalRequest {
    TerminalRequest {
        cols: 132,
        rows: 43,
        shell: shell.map(str::to_string),
        cwd: Some("/tmp/work".to_string()),
    }
}

#[test]
fn channel_opens_step_by_step() {
    let request = terminal(Some("/bin/zsh"));
    assert_eq!(begin_channel(false), ChannelNext::OpenSession);
    assert_eq!(
        request.after_step(ChannelStep::OpenSession, Ok(())),
        ChannelNext::RequestPty(PtyRequest {
            want_reply: true,
            term: "xterm-256color".to_string(),
            col_width: 132,
            row_height: 43,
            pix_width: 0,
            pix_height: 0,
            modes: Vec::new(),
        })
    );
    assert_eq!(
        request.after_step(ChannelStep::RequestPty, Ok(())),
        ChannelNext::StartCommand(CommandRequest {
            want_reply: true,
            command: "cd /tmp/work && exec /bin/zsh".to_string(),
        })
    );
    assert_eq!(
        request.after_step(ChannelStep::StartCommand, Ok(())),
        ChannelNext::Opened(
            "ssh_terminal_channel_opened cols=132 rows=43 shell=/bin/zsh".to_string()
        )
    );
    assert_eq!(
        terminal(None).opened_line(),
        "ssh_terminal_channel_opened cols=132 rows=43 shell=tmux:litter"
    );
}

#[test]
fn failed_channel_is_reported() {
    assert_eq!(begin_channel(true), ChannelNext::Failed(SshError::Disconnected));
    let request = terminal(None);
    let failed = |step| request.after_step(step, Err("no".to_string()));
    let reported =
        |detail: &str| ChannelNext::Failed(SshError::ConnectionFailed(detail.to_string()));
    assert_eq!(failed(ChannelStep::OpenSession), reported("open session: no"));
    assert_eq!(failed(ChannelStep::RequestPty), reported("request pty: no"));
    assert_eq!(failed(ChannelStep::StartCommand), reported("exec terminal command: no"));
}
