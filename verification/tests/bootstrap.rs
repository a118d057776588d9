use litter_terminal::bootstrap::{
    read_server_run, Bootstrap, BootstrapAction, BootstrapEvent, ExecResult, KnownHost,
};
use litter_terminal::error::{map_ssh_error, SshError, TerminalError};
use litter_terminal::idpass::{
    bootstrap_script, first_nonempty, parse_idpasskey, random_request, random_token,
    session_request, uuid_token,
};

const UUID: [u8; 16] = [
    0x67, 0xe5, 0x50, 0x44, 0x10, 0xb1, 0x42, 0x6f, 0x92, 0x47, 0xbb, 0x68, 0x0e, 0x5f, 0xe0, 0xc8,
];

fn backend(detail: &str) -> TerminalError {
    TerminalError::Backend { detail: detail.to_string() }
}

fn attempt(known: KnownHost, accept_unknown_host: bool) -> Bootstrap {
    Bootstrap { host: "box".to_string(), known, accept_unknown_host }
}

fn run(exit_code: u32, stdout: &str, stderr: &str) -> ExecResult {
    ExecResult { exit_code, stdout: stdout.to_string(), stderr: stderr.to_string() }
}

#[test]
fn token_is_the_start_of_the_uuid() {
    assert_eq!(uuid_token(UUID, 0), "");
    assert_eq!(uuid_token(UUID, 5), "67e55");
    assert_eq!(uuid_token(UUID, 16), "67e5504410b1426f");
    assert_eq!(uuid_token(UUID, 32), "67e5504410b1426f9247bb680e5fe0c8");
    assert_eq!(uuid_token(UUID, 33), "67e5504410b1426f9247bb680e5fe0c8");
}

#[test]
fn random_tokens_are_those_of_random_uuids() {
    for _ in 0..50 {
        let token = random_token(32);
        assert_eq!(token.len(), 32);
        assert!(token.chars().all(|c| matches!(c, '0'..='9' | 'a'..='f')));
        assert_eq!(&token[12..13], "4");
        assert!(matches!(&token[16..17], "8" | "9" | "a" | "b"));
    }
    assert_eq!(random_token(16).len(), 16);
    assert_eq!(random_token(100).len(), 32);
    assert_ne!(random_token(32), random_token(32));
}

#[test]
fn request_joins_id_and_passkey() {
    assert_eq!(session_request("ab", "cd"), "ab/cd_xterm-256color");
    let request = random_request();
    assert_eq!(request.len(), 16 + 1 + 32 + 15);
    assert_eq!(&request[16..17], "/");
    assert!(request.ends_with("_xterm-256color"));
}

#[test]
fn script_hands_over_the_request() {
    let rest = " | (command -v etterminal >/dev/null 2>&1 && etterminal --verbose=0 || \
                /usr/local/bin/etterminal --verbose=0)";
    assert_eq!(bootstrap_script("ab/cd_xterm"), format!("printf '%s\\n' ab/cd_xterm{}", rest));
    assert_eq!(bootstrap_script("a b"), format!("printf '%s\\n' 'a b'{}", rest));
}

#[test]
fn idpasskey_is_the_first_word_behind_the_marker() {
    assert_eq!(parse_idpasskey("IDPASSKEY:id/key\n"), Some("id/key".to_string()));
    assert_eq!(parse_idpasskey("hi\nIDPASSKEY: \t id/key more"), Some("id/key".to_string()));
    assert_eq!(
        parse_idpasskey("\u{e9} IDPASSKEY:a/b IDPASSKEY:c/d"),
        Some("a/b".to_string())
    );
    assert_eq!(parse_idpasskey("IDPASSKEY:IDPASSKEY:a/b"), Some("IDPASSKEY:a/b".to_string()));
}

#[test]
fn idpasskey_needs_marker_word_and_slash() {
    assert_eq!(parse_idpasskey(""), None);
    assert_eq!(parse_idpasskey("id/key"), None);
    assert_eq!(parse_idpasskey("IDPASSKEY:"), None);
    assert_eq!(parse_idpasskey("IDPASSKEY: \n"), None);
    assert_eq!(parse_idpasskey("IDPASSKEY:key a/b"), None);
    assert_eq!(parse_idpasskey("IDPASSKEY:key IDPASSKEY:a/b"), None);
}

#[test]
fn parsing_agrees_with_std() {
    let pieces = ["", " ", "IDPASSKEY:", "IDPASSKEY", "x/y", "z", "\n", "/", "\u{3000}"];
    for a in pieces {
        for b in pieces {
            for c in pieces {
                for d in pieces {
                    let output = [a, b, c, d].concat();
                    let expected = output.find("IDPASSKEY:").and_then(|at| {
                        output[at + "IDPASSKEY:".len()..]
                            .split_whitespace()
                            .next()
                            .filter(|word| word.contains('/'))
                            .map(str::to_string)
                    });
                    assert_eq!(parse_idpasskey(&output), expected, "{:?}", output);
                }
            }
        }
    }
}

#[test]
fn request_comes_back() {
    for _ in 0..20 {
        let request = random_request();
        let output = format!("motd\nIDPASSKEY:{}\r\n", request);
        assert_eq!(read_server_run(&run(0, &output, "")), Ok(request));
    }
}

#[test]
fn first_nonempty_prefers_the_first() {
    assert_eq!(first_nonempty(" a ", "b"), "a");
    assert_eq!(first_nonempty(" \n", "\tb\t"), "b");
    assert_eq!(first_nonempty(" \n", " "), "");
}

#[test]
fn failed_server_is_reported() {
    assert_eq!(
        read_server_run(&run(127, "out", " not found\n")),
        Err(backend("remote etterminal failed: not found"))
    );
    assert_eq!(
        read_server_run(&run(1, " out ", " ")),
        Err(backend("remote etterminal failed: out"))
    );
    assert_eq!(
        read_server_run(&run(0, " hello ", "oops")),
        Err(backend("remote etterminal did not return IDPASSKEY; output: hello"))
    );
    assert_eq!(
        read_server_run(&run(0, "", "oops\n")),
        Err(backend("remote etterminal did not return IDPASSKEY; output: oops"))
    );
}

#[test]
fn pinned_key_decides() {
    for accept in [false, true] {
        let pinned = attempt(KnownHost::Pinned("SHA256:a".to_string()), accept);
        assert!(pinned.accepts_host_key(&"SHA256:a".to_string()));
        assert!(!pinned.accepts_host_key(&"SHA256:b".to_string()));
    }
    assert!(attempt(KnownHost::NotPinned, true).accepts_host_key(&"x".to_string()));
    assert!(!attempt(KnownHost::NotPinned, false).accepts_host_key(&"x".to_string()));
    assert!(attempt(KnownHost::NoStore, true).accepts_host_key(&"x".to_string()));
    assert!(!attempt(KnownHost::NoStore, false).accepts_host_key(&"x".to_string()));
}

#[test]
fn first_key_is_pinned() {
    let seen = || Ok(Some("SHA256:a".to_string()));
    let pin = |known, accept| attempt(known, accept).after_connect(seen()).unwrap();
    assert_eq!(pin(KnownHost::NotPinned, true), Some("SHA256:a".to_string()));
    assert_eq!(pin(KnownHost::NotPinned, false), None);
    assert_eq!(pin(KnownHost::NoStore, true), None);
    assert_eq!(pin(KnownHost::Pinned("SHA256:a".to_string()), true), None);
    assert_eq!(attempt(KnownHost::NotPinned, true).after_connect(Ok(None)), Ok(None));
}

#[test]
fn attempt_takes_its_course() {
    let seen = || BootstrapEvent::Connected(Ok(Some("SHA256:a".to_string())));
    let script = || BootstrapAction::Run(bootstrap_script("a/b"));
    let new = attempt(KnownHost::NotPinned, true);
    assert_eq!(new.advance_with(BootstrapEvent::Begin, "a/b"), BootstrapAction::Connect);
    assert_eq!(new.advance_with(seen(), "a/b"), BootstrapAction::Pin("SHA256:a".to_string()));
    assert_eq!(new.advance_with(BootstrapEvent::Pinned, "a/b"), script());
    let pinned = attempt(KnownHost::Pinned("SHA256:a".to_string()), true);
    assert_eq!(pinned.advance_with(seen(), "a/b"), script());
    assert_eq!(
        new.advance_with(BootstrapEvent::Connected(Ok(None)), "a/b"),
        script()
    );
    assert_eq!(
        new.advance_with(BootstrapEvent::Ran(Ok(run(0, "IDPASSKEY:x/y", ""))), "a/b"),
        BootstrapAction::Done("x/y".to_string())
    );
    assert_eq!(
        new.advance_with(BootstrapEvent::Ran(Ok(run(1, "", "no"))), "a/b"),
        BootstrapAction::Failed(backend("remote etterminal failed: no"))
    );
}

#[test]
fn failed_connection_ends_the_attempt() {
    let new = attempt(KnownHost::NotPinned, true);
    assert_eq!(
        new.advance(BootstrapEvent::Connected(Err(SshError::Timeout))),
        BootstrapAction::Failed(backend("connect-timeout"))
    );
    assert_eq!(
        new.advance(BootstrapEvent::Ran(Err(SshError::Disconnected))),
        BootstrapAction::Failed(backend("disconnected"))
    );
}

#[test]
fn remote_command_hands_over_a_random_request() {
    let new = attempt(KnownHost::NotPinned, true);
    assert_eq!(new.advance(BootstrapEvent::Begin), BootstrapAction::Connect);
    let script = match new.advance(BootstrapEvent::Pinned) {
        BootstrapAction::Run(script) => script,
        other => panic!("{:?}", other),
    };
    let request = script.strip_prefix("printf '%s\\n' ").unwrap();
    let request = request.split(' ').next().unwrap();
    assert_eq!(script, bootstrap_script(request));
    assert_eq!(request.len(), 64);
    assert_ne!(new.advance(BootstrapEvent::Pinned), BootstrapAction::Run(script));
}

#[test]
fn ssh_errors_end_the_attempt() {
    let pinned = attempt(KnownHost::Pinned("SHA256:a".to_string()), true);
    let shown = || SshError::HostKeyVerification { fingerprint: "SHA256:b".to_string() };
    assert_eq!(
        pinned.after_connect(Err(shown())),
        Err(backend("host-key-changed:box:SHA256:b"))
    );
    let unknown = attempt(KnownHost::NotPinned, false);
    assert_eq!(unknown.after_connect(Err(shown())), Err(backend("unknown-host:SHA256:b")));
    assert_eq!(unknown.after_exec(Err(SshError::Disconnected)), Err(backend("disconnected")));
    assert_eq!(unknown.after_exec(Ok(run(0, "IDPASSKEY:a/b", ""))), Ok("a/b".to_string()));
    assert_eq!(
        unknown.after_exec(Ok(run(2, "", "no"))),
        Err(backend("remote etterminal failed: no"))
    );
}

#[test]
fn every_ssh_error_has_its_text() {
    let text = |error| map_ssh_error(error, "box", None);
    let s = |text: &str| text.to_string();
    assert_eq!(
        text(SshError::HostKeyVerification { fingerprint: s("f") }),
        backend("unknown-host:f")
    );
    assert_eq!(
        map_ssh_error(SshError::HostKeyVerification { fingerprint: s("f") }, "box", Some("g")),
        backend("host-key-changed:box:f")
    );
    assert_eq!(text(SshError::AuthFailed(s("no"))), backend("auth-failed:no"));
    assert_eq!(text(SshError::ConnectionFailed(s("no"))), backend("connect-failed:no"));
    assert_eq!(text(SshError::Timeout), backend("connect-timeout"));
    assert_eq!(text(SshError::Disconnected), backend("disconnected"));
    assert_eq!(
        text(SshError::ExecFailed { exit_code: 4294967295, stderr: s("bad") }),
        backend("exec-failed:4294967295:bad")
    );
    assert_eq!(
        text(SshError::PortForwardFailed(s("no"))),
        backend("port-forward-failed:no")
    );
}
