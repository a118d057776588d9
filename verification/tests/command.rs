use litter_terminal::command::{build_terminal_command, tin_tmux_session_name, tmux_command};
use litter_terminal::shell::shell_quote;

#[test]
fn default_terminal_uses_tmux() {
    let command = build_terminal_command(None, None);
    assert!(command.contains("command -v tmux"));
    assert!(command.contains("exec tmux new-session -A -s litter"));
    assert!(command.contains("${SHELL:-sh}"));
}

#[test]
fn default_terminal_passes_cwd_to_tmux() {
    let command = build_terminal_command(None, Some("/home/tin/Central Command"));
    assert!(command.contains("tmux new-session -A -s litter -c '/home/tin/Central Command'"));
}

#[test]
fn explicit_shell_preserves_legacy_behavior() {
    assert_eq!(
        build_terminal_command(Some("/bin/zsh"), Some("/tmp/work")),
        "cd /tmp/work && exec /bin/zsh"
    );
}

#[test]
fn default_terminal_falls_back_to_the_login_shell() {
    assert_eq!(
        build_terminal_command(None, None),
        "if command -v tmux >/dev/null 2>&1; then exec tmux new-session -A -s litter; \
         else exec \"${SHELL:-sh}\"; fi"
    );
    assert_eq!(build_terminal_command(None, Some("")), build_terminal_command(None, None));
    assert_eq!(
        build_terminal_command(None, Some("a b")),
        "if command -v tmux >/dev/null 2>&1; then exec tmux new-session -A -s litter -c 'a b'; \
         else exec \"${SHELL:-sh}\"; fi"
    );
}

#[test]
fn explicit_shell_without_directory_is_executed() {
    assert_eq!(build_terminal_command(Some("/bin/zsh"), None), "exec /bin/zsh");
    assert_eq!(build_terminal_command(Some("/bin/zsh"), Some("")), "exec /bin/zsh");
    assert_eq!(build_terminal_command(Some("my shell"), Some(" ")), "cd ' ' && exec 'my shell'");
}

#[test]
fn plain_text_is_not_quoted() {
    for text in ["litter", "/tmp/work", "codex-litter@host", "a_b-c.d:e+f,9Z"] {
        assert_eq!(shell_quote(text), text);
    }
}

#[test]
fn other_text_is_quoted() {
    assert_eq!(shell_quote(""), "''");
    assert_eq!(shell_quote("a b"), "'a b'");
    assert_eq!(shell_quote("$HOME; rm"), "'$HOME; rm'");
    assert_eq!(shell_quote("it's"), "'it'\\''s'");
    assert_eq!(shell_quote("'"), "''\\'''");
    assert_eq!(shell_quote("caf\u{e9}"), "'caf\u{e9}'");
}

/// Removes single quotes and backslashes as a shell does outside double quotes.
fn unquote(line: &str) -> String {
    let mut text = String::new();
    let mut chars = line.chars();
    while let Some(c) = chars.next() {
        match c {
            '\'' => {
                for inner in chars.by_ref() {
                    if inner == '\'' {
                        break;
                    }
                    text.push(inner);
                }
            }
            '\\' => text.extend(chars.next()),
            _ => text.push(c),
        }
    }
    text
}

#[test]
fn quoting_is_undone_by_the_shell() {
    for text in ["", "plain", "two words", "it's", "'''", "a\\'b\n\"c\" $d `e` *", "\u{1f600} x"] {
        assert_eq!(unquote(&shell_quote(text)), text);
    }
}

#[test]
fn session_starts_in_the_given_directory() {
    assert_eq!(
        tmux_command("host", Some("  /srv/my app "), "main"),
        "dir='/srv/my app'; if [ ! -d \"$dir\" ]; then dir=\"$HOME\"; fi; \
         exec tmux new-session -A -s main -c \"$dir\""
    );
}

#[test]
fn session_has_a_directory_of_its_own() {
    let expected = "dir='$HOME/Central_Command'; if [ ! -d \"$dir\" ]; then dir=\"$HOME\"; fi; \
                    exec tmux new-session -A -s 'my session' -c \"$dir\"";
    assert_eq!(tmux_command("host", None, "my session"), expected);
    assert_eq!(tmux_command("other", Some(" \t\n"), "my session"), expected);
}

#[test]
fn session_is_named_after_the_host() {
    assert_eq!(tin_tmux_session_name("box.example.org"), "codex-litter@box");
    assert_eq!(tin_tmux_session_name("  My_Box-1 "), "codex-litter@My_Box-1");
    assert_eq!(tin_tmux_session_name("fe80::1%eth0"), "codex-litter@fe80--1-eth0");
    assert_eq!(tin_tmux_session_name("b\u{fc}ro"), "codex-litter@b-ro");
    assert_eq!(tin_tmux_session_name(""), "codex-litter@remote");
    assert_eq!(tin_tmux_session_name(" .local"), "codex-litter@remote");
}

#[test]
fn session_name_needs_no_quotes() {
    for host in ["box.example.org", "a b:c'd", "", "\u{1f600}"] {
        let name = tin_tmux_session_name(host);
        assert_eq!(shell_quote(&name), name);
        assert!(!name.contains('.') && !name.contains(':'));
    }
}
