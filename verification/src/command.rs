//! The commands that start or attach to a remote terminal.

use crate::shell;
use crate::shell::{shell_quote, Lexer, Token};
use crate::text;
use crate::text::{chars_of, trim};
use vstd::prelude::*;
use vstd::string::*;

verus! {

/// The tmux session that a terminal without a shell of its own attaches to.
pub const DEFAULT_TMUX_SESSION: &'static str = "litter";

/// The tmux call of a terminal without a shell of its own.
pub open spec fn tmux_call(cwd: Option<Seq<char>>) -> Seq<char> {
    let attach = "tmux new-session -A -s "@ + shell::quoted(DEFAULT_TMUX_SESSION@);
    match cwd {
        Some(dir) if dir.len() > 0 => attach + " -c "@ + shell::quoted(dir),
        _ => attach,
    }
}

/// The command that a terminal runs: the given shell, in the given directory; or, without a
/// shell, tmux, and the login shell where tmux is missing.
pub open spec fn terminal_command(shell: Option<Seq<char>>, cwd: Option<Seq<char>>) -> Seq<char> {
    match (shell, cwd) {
        (Some(shell), Some(dir)) if dir.len() > 0 => "cd "@ + shell::quoted(dir)
            + " && exec "@ + shell::quoted(shell),
        (Some(shell), _) => "exec "@ + shell::quoted(shell),
        (None, _) => "if command -v tmux >/dev/null 2>&1; then exec "@ + tmux_call(cwd)
            + "; else exec \"${SHELL:-sh}\"; fi"@,
    }
}

/// Builds the command that a terminal runs. An empty directory counts as none.
pub fn build_terminal_command(shell: Option<&str>, cwd: Option<&str>) -> (res: String)
    ensures
        res@ == terminal_command(text::text_of(shell), text::text_of(cwd)),
{
    let mut command = String::new();
    if let Some(shell) = shell {
        if let Some(dir) = cwd {
            if !dir.is_empty() {
                command.append("cd ");
                command.append(shell_quote(dir).as_str());
                command.append(" && exec ");
                command.append(shell_quote(shell).as_str());
                return command;
            }
        }
        command.append("exec ");
        command.append(shell_quote(shell).as_str());
        return command;
    }
    let mut tmux = String::new();
    tmux.append("tmux new-session -A -s ");
    tmux.append(shell_quote(DEFAULT_TMUX_SESSION).as_str());
    if let Some(dir) = cwd {
        if !dir.is_empty() {
            tmux.append(" -c ");
            tmux.append(shell_quote(dir).as_str());
        }
    }
    // With tmux the remote shell survives a lost connection. Where tmux is missing, the login
    // shell takes its place.
    command.append("if command -v tmux >/dev/null 2>&1; then exec ");
    command.append(tmux.as_str());
    command.append("; else exec \"${SHELL:-sh}\"; fi");
    command
}

/// The directory that a session is given when it names none. It is taken literally: like every
/// directory it stands quoted in the command, so the shell does not expand the `$HOME` in it, and
/// a session ends up in the home directory unless a directory of exactly this name exists.
pub const DEFAULT_START_DIRECTORY: &'static str = "$HOME/Central_Command";

/// The directory that a session tries first: the given one, where it names any.
pub open spec fn start_directory(cwd: Option<Seq<char>>) -> Seq<char> {
    match cwd {
        Some(dir) if text::trimmed(dir).len() > 0 => text::trimmed(dir),
        _ => DEFAULT_START_DIRECTORY@,
    }
}

/// The command that attaches to the tmux session `session`, in the start directory where it
/// exists and in the home directory elsewhere.
pub open spec fn attach_command(cwd: Option<Seq<char>>, session: Seq<char>) -> Seq<char> {
    "dir="@ + shell::quoted(start_directory(cwd))
        + "; if [ ! -d \"$dir\" ]; then dir=\"$HOME\"; fi; exec tmux new-session -A -s "@
        + shell::quoted(session) + " -c \"$dir\""@
}

/// Builds the command that attaches to a tmux session. A blank directory counts as none, and the
/// directory is taken literally. The command is the same on every host.
pub fn tmux_command(_host: &str, cwd: Option<&str>, session: &str) -> (res: String)
    ensures
        res@ == attach_command(text::text_of(cwd), session@),
{
    let mut start_dir = DEFAULT_START_DIRECTORY;
    if let Some(dir) = cwd {
        let dir = trim(dir);
        if !dir.is_empty() {
            start_dir = dir;
        }
    }
    let mut command = String::new();
    command.append("dir=");
    command.append(shell_quote(start_dir).as_str());
    command.append(
        "; if [ ! -d \"$dir\" ]; then dir=\"$HOME\"; fi; exec tmux new-session -A -s ",
    );
    command.append(shell_quote(session).as_str());
    command.append(" -c \"$dir\"");
    command
}

/// The characters that a session name takes over from a host name.
pub open spec fn is_session_char(c: char) -> bool {
    ||| 'a' <= c <= 'z'
    ||| 'A' <= c <= 'Z'
    ||| '0' <= c <= '9'
    ||| c == '-'
    ||| c == '_'
}

/// A character of a host name as it stands in a session name.
pub open spec fn session_char(c: char) -> char {
    if is_session_char(c) {
        c
    } else {
        '-'
    }
}

/// The number of characters in front of the first dot.
pub open spec fn label_len(s: Seq<char>) -> nat
    decreases s.len(),
{
    if s.len() > 0 && s[0] != '.' {
        1 + label_len(s.drop_first())
    } else {
        0
    }
}

/// The first label of a host name, as it stands in a session name.
pub open spec fn session_label(host: Seq<char>) -> Seq<char> {
    let name = text::trimmed(host);
    name.take(label_len(name) as int).map_values(|c: char| session_char(c))
}

/// The name of the tmux session for a host.
pub open spec fn session_name(host: Seq<char>) -> Seq<char> {
    "codex-litter@"@ + if session_label(host).len() == 0 {
        "remote"@
    } else {
        session_label(host)
    }
}

/// The first dot stands behind the label, or there is none.
proof fn lemma_label_len(s: Seq<char>, n: nat)
    requires
        n <= s.len(),
        forall|i: int| 0 <= i < n ==> #[trigger] s[i] != '.',
        n < s.len() ==> s[n as int] == '.',
    ensures
        label_len(s) == n,
    decreases s.len(),
{
    if n > 0 {
        let rest = s.drop_first();
        assert forall|i: int| 0 <= i < n - 1 implies #[trigger] rest[i] != '.' by {
            assert(rest[i] == s[i + 1]);
        }
        lemma_label_len(rest, (n - 1) as nat);
    }
}

/// Names the tmux session for a host after the first label of the host's name.
pub fn tin_tmux_session_name(host: &str) -> (res: String)
    ensures
        res@ == session_name(host@),
{
    let name = trim(host);
    let chars = chars_of(name);
    let mut short = String::new();
    let mut i: usize = 0;
    while i < chars.len() && chars[i] != '.'
        invariant
            chars@ == name@,
            i <= chars.len(),
            forall|k: int| 0 <= k < i ==> #[trigger] name@[k] != '.',
            short@ == name@.take(i as int).map_values(|c: char| session_char(c)),
        decreases chars.len() - i,
    {
        let c = chars[i];
        let kept = ('a' <= c && c <= 'z') || ('A' <= c && c <= 'Z') || ('0' <= c && c <= '9') || c
            == '-' || c == '_';
        short.push(
            if kept {
                c
            } else {
                '-'
            },
        );
        i = i + 1;
        proof {
            assert(short@ =~= name@.take(i as int).map_values(|c: char| session_char(c)));
        }
    }
    proof {
        lemma_label_len(name@, i as nat);
    }
    let mut session = String::new();
    session.append("codex-litter@");
    if short.as_str().is_empty() {
        session.append("remote");
    } else {
        session.append(short.as_str());
    }
    session
}

/// Every character of a session label is a letter, a digit, `-` or `_`, so a session name holds
/// neither the dot nor the colon by which tmux parts the name of a target, and it needs no
/// quotes.
pub proof fn law_session_name_is_plain(host: Seq<char>)
    ensures
        forall|i: int|
            0 <= i < session_label(host).len() ==> is_session_char(#[trigger] session_label(host)[i]),
        forall|i: int|
            0 <= i < session_name(host).len() ==> #[trigger] session_name(host)[i] != '.'
                && session_name(host)[i] != ':',
        shell::quoted(session_name(host)) == session_name(host),
{
    reveal_strlit("codex-litter@");
    reveal_strlit("remote");
    let name = session_name(host);
    assert forall|i: int| 0 <= i < name.len() implies shell::is_plain(#[trigger] name[i]) && name[i]
        != '.' && name[i] != ':' by {
        let n = "codex-litter@"@.len();
        if i >= n {
            if session_label(host).len() == 0 {
                assert(name[i] == "remote"@[i - n]);
            } else {
                assert(name[i] == session_label(host)[i - n]);
                assert(is_session_char(session_label(host)[i - n]));
            }
        } else {
            assert(name[i] == "codex-litter@"@[i]);
        }
    }
}

/// With a shell of its own, and with or without a directory, the terminal runs exactly these
/// words: the directory and the shell are one argument each, whatever characters they hold.
pub proof fn law_shell_command_tokens(shell: Seq<char>, cwd: Option<Seq<char>>)
    ensures
        shell::tokens_of(terminal_command(Some(shell), cwd)) == Some(
            match cwd {
                Some(dir) if dir.len() > 0 => seq![
                    Token::Word(shell::word_of("cd"@, false)),
                    Token::Word(shell::argument_of(dir)),
                    Token::Operator('&'),
                    Token::Operator('&'),
                    Token::Word(shell::word_of("exec"@, false)),
                    Token::Word(shell::argument_of(shell)),
                ],
                _ => seq![
                    Token::Word(shell::word_of("exec"@, false)),
                    Token::Word(shell::argument_of(shell)),
                ],
            },
        ),
{
    let start = Lexer::start();
    let none = Seq::<char>::empty();
    assert(start.read(none) == start);
    reveal_strlit("exec");
    reveal_strlit("exec ");
    let exec_word = Token::Word(shell::word_of("exec"@, false));
    assert("exec "@ =~= "exec"@ + seq![' ']);
    shell::lemma_read_ordinary(start, "exec"@);
    shell::lemma_read_joined(start, "exec"@, seq![' ']);
    shell::lemma_read_one(start.read("exec"@), ' ');
    assert(start.partial() + shell::word_of("exec"@, false) =~= shell::word_of("exec"@, false));
    shell::law_argument_in_line("exec "@, shell, none);
    let exec_line = "exec "@ + shell::quoted(shell);
    assert(exec_line + none =~= exec_line);
    let at_exec = start.read("exec "@);
    let argument = Token::Word(shell::argument_of(shell));
    assert(at_exec.partial() + shell::argument_of(shell) =~= shell::argument_of(shell));
    assert(shell::tokens_of(none)->0 =~= seq![]);
    assert(shell::tokens_of(exec_line)->0 =~= seq![exec_word, argument]);
    if cwd is Some && cwd->0.len() > 0 {
        let dir = cwd->0;
        reveal_strlit("cd");
        reveal_strlit("cd ");
        reveal_strlit(" && exec ");
        assert("cd "@ =~= "cd"@ + seq![' ']);
        shell::lemma_read_ordinary(start, "cd"@);
        shell::lemma_read_joined(start, "cd"@, seq![' ']);
        shell::lemma_read_one(start.read("cd"@), ' ');
        assert(start.partial() + shell::word_of("cd"@, false) =~= shell::word_of("cd"@, false));
        let and = seq![' ', '&', '&', ' '];
        let rest = " && exec "@ + shell::quoted(shell);
        assert(rest =~= and + exec_line);
        shell::lemma_read_joined(start, and, exec_line);
        shell::lemma_read_four(start, and);
        let operators = seq![Token::Operator('&'), Token::Operator('&')];
        assert(start.read(and).tokens =~= operators + start.tokens);
        shell::lemma_read_behind(start, operators, exec_line);
        let end = start.read(exec_line);
        shell::lemma_push_behind(operators, end.tokens, argument);
        shell::law_argument_in_line("cd "@, dir, rest);
        let at_dir = start.read("cd "@);
        assert(at_dir.partial() + shell::argument_of(dir) =~= shell::argument_of(dir));
        assert("cd "@ + shell::quoted(dir) + rest =~= terminal_command(Some(shell), cwd));
    }
}

/// Without a shell of its own, the terminal names the tmux session and the directory as one
/// argument each, whatever characters they hold, and the shell reads all that stands around
/// them the same way for every directory.
pub proof fn law_tmux_call_tokens(cwd: Option<Seq<char>>)
    ensures
        ({
            let front = shell::tokens_of(
                "if command -v tmux >/dev/null 2>&1; then exec tmux new-session -A -s "@,
            );
            let rest = shell::tokens_of("; else exec \"${SHELL:-sh}\"; fi"@);
            let session = Token::Word(shell::argument_of(DEFAULT_TMUX_SESSION@));
            &&& front is Some
            &&& rest is Some
            &&& shell::tokens_of(terminal_command(None, cwd)) == Some(
                match cwd {
                    Some(dir) if dir.len() > 0 => front->0 + seq![
                        session,
                        Token::Word(shell::word_of("-c"@, false)),
                        Token::Word(shell::argument_of(dir)),
                    ] + rest->0,
                    _ => front->0 + seq![session] + rest->0,
                },
            )
        }),
{
    let start = Lexer::start();
    reveal_strlit("if command -v tmux >/dev/null 2>&1; then exec ");
    reveal_strlit("tmux new-session -A -s ");
    reveal_strlit("if command -v tmux >/dev/null 2>&1; then exec tmux new-session -A -s ");
    reveal_strlit("; else exec \"${SHELL:-sh}\"; fi");
    reveal_strlit("; else exec ");
    reveal_strlit("${SHELL:-sh}");
    reveal_strlit("; fi");
    let front = "if command -v tmux >/dev/null 2>&1; then exec tmux new-session -A -s "@;
    let rest = "; else exec \"${SHELL:-sh}\"; fi"@;
    assert(front =~= "if command -v tmux >/dev/null 2>&1; then exec "@
        + "tmux new-session -A -s "@);
    shell::lemma_read_unquoted(start, front);
    let login = seq!['"'] + "${SHELL:-sh}"@ + seq!['"'];
    assert(rest =~= "; else exec "@ + login + "; fi"@);
    shell::lemma_read_unquoted(start, "; else exec "@);
    shell::lemma_read_joined(start, "; else exec "@, login);
    shell::lemma_read_double_quoted(start.read("; else exec "@), "${SHELL:-sh}"@);
    shell::lemma_read_joined(start, "; else exec "@ + login, "; fi"@);
    shell::lemma_read_unquoted(start.read("; else exec "@ + login), "; fi"@);
    let session = Token::Word(shell::argument_of(DEFAULT_TMUX_SESSION@));
    let at_front = start.read(front);
    assert(at_front.partial() + shell::argument_of(DEFAULT_TMUX_SESSION@) =~= shell::argument_of(
        DEFAULT_TMUX_SESSION@,
    ));
    if cwd is Some && cwd->0.len() > 0 {
        let dir = cwd->0;
        reveal_strlit("-c");
        reveal_strlit(" -c ");
        let option = Token::Word(shell::word_of("-c"@, false));
        assert(" -c "@ =~= seq![' ', '-', 'c', ' ']);
        shell::lemma_read_four(start, " -c "@);
        assert(start.read(" -c "@).tokens =~= seq![option]) by {
            assert(shell::word_of("-c"@, false) =~= seq![
                shell::shell_char('-', false),
                shell::shell_char('c', false),
            ]);
            assert(start.partial().push(shell::shell_char('-', false)).push(
                shell::shell_char('c', false),
            ) =~= shell::word_of("-c"@, false));
        }
        shell::law_argument_in_line(" -c "@, dir, rest);
        assert(start.read(" -c "@).partial() + shell::argument_of(dir) =~= shell::argument_of(dir));
        let behind = " -c "@ + shell::quoted(dir) + rest;
        shell::law_argument_in_line(front, DEFAULT_TMUX_SESSION@, behind);
        assert(front + shell::quoted(DEFAULT_TMUX_SESSION@) + behind =~= terminal_command(
            None,
            cwd,
        ));
        assert(shell::tokens_of(terminal_command(None, cwd))->0 =~= shell::tokens_of(front)->0
            + seq![session, option, Token::Word(shell::argument_of(dir))] + shell::tokens_of(
            rest,
        )->0);
    } else {
        shell::law_argument_in_line(front, DEFAULT_TMUX_SESSION@, rest);
        assert(front + shell::quoted(DEFAULT_TMUX_SESSION@) + rest =~= terminal_command(None, cwd));
        assert(shell::tokens_of(terminal_command(None, cwd))->0 =~= shell::tokens_of(front)->0
            + seq![session] + shell::tokens_of(rest)->0);
    }
}

/// The start directory is the value assigned to `dir`, and the session name is one argument,
/// whatever characters they hold; the shell reads all that stands around them the same way for
/// every directory and every name.
pub proof fn law_attach_command_tokens(cwd: Option<Seq<char>>, session: Seq<char>)
    ensures
        ({
            let middle = shell::tokens_of(
                "; if [ ! -d \"$dir\" ]; then dir=\"$HOME\"; fi; exec tmux new-session -A -s "@,
            );
            let rest = shell::tokens_of(" -c \"$dir\""@);
            &&& middle is Some
            &&& rest is Some
            &&& shell::tokens_of(attach_command(cwd, session)) == Some(
                seq![
                    Token::Word(
                        shell::word_of("dir="@, false) + shell::argument_of(start_directory(cwd)),
                    ),
                ] + middle->0 + seq![Token::Word(shell::argument_of(session))] + rest->0,
            )
        }),
{
    let start = Lexer::start();
    let middle = "; if [ ! -d \"$dir\" ]; then dir=\"$HOME\"; fi; exec tmux new-session -A -s "@;
    let rest = " -c \"$dir\""@;
    reveal_strlit("; if [ ! -d \"$dir\" ]; then dir=\"$HOME\"; fi; exec tmux new-session -A -s ");
    reveal_strlit(" -c \"$dir\"");
    reveal_strlit("; if [ ! -d ");
    reveal_strlit("$dir");
    reveal_strlit(" ]; then dir=");
    reveal_strlit("$HOME");
    reveal_strlit("; fi; exec tmux new-session -A -s ");
    reveal_strlit(" -c ");
    reveal_strlit("dir=");
    let dir = seq!['"'] + "$dir"@ + seq!['"'];
    let home = seq!['"'] + "$HOME"@ + seq!['"'];
    let part1 = "; if [ ! -d "@;
    let part2 = part1 + dir;
    let part3 = part2 + " ]; then dir="@;
    let part4 = part3 + home;
    assert(middle =~= part4 + "; fi; exec tmux new-session -A -s "@);
    shell::lemma_read_unquoted(start, part1);
    shell::lemma_read_joined(start, part1, dir);
    shell::lemma_read_double_quoted(start.read(part1), "$dir"@);
    shell::lemma_read_joined(start, part2, " ]; then dir="@);
    shell::lemma_read_unquoted(start.read(part2), " ]; then dir="@);
    shell::lemma_read_joined(start, part3, home);
    shell::lemma_read_double_quoted(start.read(part3), "$HOME"@);
    shell::lemma_read_joined(start, part4, "; fi; exec tmux new-session -A -s "@);
    shell::lemma_read_unquoted(start.read(part4), "; fi; exec tmux new-session -A -s "@);
    assert(rest =~= " -c "@ + dir);
    shell::lemma_read_unquoted(start, " -c "@);
    shell::lemma_read_joined(start, " -c "@, dir);
    shell::lemma_read_double_quoted(start.read(" -c "@), "$dir"@);
    shell::law_argument_in_line(middle, session, rest);
    let argument = shell::argument_of(session);
    assert(start.read(middle).partial() + argument =~= argument);
    let behind = middle + shell::quoted(session) + rest;
    shell::lemma_read_ordinary(start, "dir="@);
    assert(start.partial() + shell::word_of("dir="@, false) =~= shell::word_of("dir="@, false));
    shell::law_argument_in_line("dir="@, start_directory(cwd), behind);
    assert("dir="@ + shell::quoted(start_directory(cwd)) + behind =~= attach_command(cwd, session));
    assert(shell::tokens_of(attach_command(cwd, session))->0 =~= seq![
        Token::Word(shell::word_of("dir="@, false) + shell::argument_of(start_directory(cwd))),
    ] + shell::tokens_of(middle)->0 + seq![Token::Word(argument)] + shell::tokens_of(rest)->0);
}

/// A terminal with neither a shell nor a directory runs tmux, or the login shell where tmux is
/// missing. A directory that is not empty is handed to tmux, and nothing else changes.
pub proof fn law_tmux_command_text(dir: &str, bare: String, res: String)
    requires
        call_ensures(build_terminal_command, (None::<&str>, None::<&str>), bare),
        call_ensures(build_terminal_command, (None::<&str>, Some(dir)), res),
    ensures
        bare@ == ("if command -v tmux >/dev/null 2>&1; then exec tmux new-session -A -s litter"@
            + "; else exec \"${SHELL:-sh}\"; fi"@),
        dir@.len() == 0 ==> res@ == bare@,
        dir@.len() > 0 ==> res@ == (
        "if command -v tmux >/dev/null 2>&1; then exec tmux new-session -A -s litter"@ + " -c "@
            + shell::quoted(dir@) + "; else exec \"${SHELL:-sh}\"; fi"@),
{
    reveal_strlit("litter");
    reveal_strlit("if command -v tmux >/dev/null 2>&1; then exec ");
    reveal_strlit("tmux new-session -A -s ");
    reveal_strlit("if command -v tmux >/dev/null 2>&1; then exec tmux new-session -A -s litter");
    assert(shell::is_plain_text(DEFAULT_TMUX_SESSION@));
    let attach = "if command -v tmux >/dev/null 2>&1; then exec tmux new-session -A -s litter"@;
    assert(attach =~= "if command -v tmux >/dev/null 2>&1; then exec "@ + (
    "tmux new-session -A -s "@ + DEFAULT_TMUX_SESSION@));
    assert(bare@ =~= attach + "; else exec \"${SHELL:-sh}\"; fi"@);
    if dir@.len() > 0 {
        assert(res@ =~= attach + " -c "@ + shell::quoted(dir@)
            + "; else exec \"${SHELL:-sh}\"; fi"@);
    }
}

/// A terminal with a shell of its own runs that shell. A directory that is not empty is entered
/// first, and the rest stays as it is.
pub proof fn law_shell_command_text(shell: &str, dir: &str, bare: String, res: String)
    requires
        call_ensures(build_terminal_command, (Some(shell), None::<&str>), bare),
        call_ensures(build_terminal_command, (Some(shell), Some(dir)), res),
    ensures
        bare@ == "exec "@ + shell::quoted(shell@),
        dir@.len() == 0 ==> res@ == bare@,
        dir@.len() > 0 ==> res@ == "cd "@ + shell::quoted(dir@) + " && "@ + bare@,
{
    reveal_strlit(" && exec ");
    reveal_strlit(" && ");
    reveal_strlit("exec ");
    if dir@.len() > 0 {
        assert(" && exec "@ =~= " && "@ + "exec "@);
        assert(res@ =~= "cd "@ + shell::quoted(dir@) + " && "@ + bare@);
    }
}

/// A session starts in the directory that it is given, without the white space around it and
/// whatever its length: the first word of the command assigns exactly that directory to `dir`.
/// The host plays no part.
pub proof fn law_given_directory(
    front: Seq<char>,
    dir: Seq<char>,
    back: Seq<char>,
    host: &str,
    cwd: &str,
    session: &str,
    res: String,
)
    requires
        call_ensures(tmux_command, (host, Some(cwd), session), res),
        cwd@ == front + dir + back,
        forall|i: int| 0 <= i < front.len() ==> text::is_blank(#[trigger] front[i]),
        forall|i: int| 0 <= i < back.len() ==> text::is_blank(#[trigger] back[i]),
        dir.len() > 0,
        !text::is_blank(dir[0]),
        !text::is_blank(dir.last()),
    ensures
        res@ == "dir="@ + shell::quoted(dir)
            + "; if [ ! -d \"$dir\" ]; then dir=\"$HOME\"; fi; exec tmux new-session -A -s "@
            + shell::quoted(session@) + " -c \"$dir\""@,
        shell::tokens_of(res@) is Some,
        shell::tokens_of(res@)->0.len() > 0,
        shell::tokens_of(res@)->0[0] == Token::Word(
            shell::word_of("dir="@, false) + shell::argument_of(dir),
        ),
        shell::tokens_of(res@)->0.contains(Token::Word(shell::argument_of(session@))),
{
    text::lemma_trimmed_middle(front, dir, back);
    lemma_attach_tokens(Some(cwd@), session@);
}

/// A session without a directory, or with a blank one, starts in the default directory, which is
/// taken literally.
pub proof fn law_default_directory(host: &str, cwd: Option<&str>, session: &str, res: String)
    requires
        call_ensures(tmux_command, (host, cwd, session), res),
        cwd matches Some(dir) ==> forall|i: int|
            0 <= i < dir@.len() ==> text::is_blank(#[trigger] dir@[i]),
    ensures
        res@ == "dir='$HOME/Central_Command'"@
            + "; if [ ! -d \"$dir\" ]; then dir=\"$HOME\"; fi; exec tmux new-session -A -s "@
            + shell::quoted(session@) + " -c \"$dir\""@,
        shell::tokens_of(res@) is Some,
        shell::tokens_of(res@)->0.len() > 0,
        shell::tokens_of(res@)->0[0] == Token::Word(
            shell::word_of("dir="@, false) + shell::word_of("$HOME/Central_Command"@, true),
        ),
        shell::tokens_of(res@)->0.contains(Token::Word(shell::argument_of(session@))),
{
    if let Some(dir) = cwd {
        text::law_trimmed(dir@);
    }
    let given = text::text_of(cwd);
    let default = "$HOME/Central_Command"@;
    assert(start_directory(given) == default);
    reveal_strlit("$HOME/Central_Command");
    reveal_strlit("dir='$HOME/Central_Command'");
    reveal_strlit("dir=");
    assert(!shell::is_plain(default[0]));
    shell::lemma_escaped_without_quotes(default);
    assert("dir='$HOME/Central_Command'"@ =~= "dir="@ + (seq!['\''] + default + seq!['\'']));
    lemma_attach_tokens(given, session@);
}

/// The command to attach starts with the assignment, and the session name is one of its words.
proof fn lemma_attach_tokens(cwd: Option<Seq<char>>, session: Seq<char>)
    ensures
        ({
            let tokens = shell::tokens_of(attach_command(cwd, session));
            &&& tokens is Some
            &&& tokens->0.len() > 0
            &&& tokens->0[0] == Token::Word(
                shell::word_of("dir="@, false) + shell::argument_of(start_directory(cwd)),
            )
            &&& tokens->0.contains(Token::Word(shell::argument_of(session)))
        }),
{
    law_attach_command_tokens(cwd, session);
    let tokens = shell::tokens_of(attach_command(cwd, session))->0;
    let middle = shell::tokens_of(
        "; if [ ! -d \"$dir\" ]; then dir=\"$HOME\"; fi; exec tmux new-session -A -s "@,
    )->0;
    assert(tokens[1int + middle.len()] == Token::Word(shell::argument_of(session)));
}

/// The session of a host is named after the first label of the host's name, at its full length:
/// ASCII letters, digits, `-` and `_` are kept, and every other character becomes a `-`. A host
/// whose name has no first label is called `remote`.
pub proof fn law_session_name_of_host(
    front: Seq<char>,
    label: Seq<char>,
    rest: Seq<char>,
    back: Seq<char>,
    host: &str,
    res: String,
)
    requires
        call_ensures(tin_tmux_session_name, (host,), res),
        host@ == front + (label + rest) + back,
        forall|i: int| 0 <= i < front.len() ==> text::is_blank(#[trigger] front[i]),
        forall|i: int| 0 <= i < back.len() ==> text::is_blank(#[trigger] back[i]),
        forall|i: int| 0 <= i < label.len() ==> #[trigger] label[i] != '.',
        rest.len() == 0 || rest[0] == '.',
        (label + rest).len() == 0 || (!text::is_blank((label + rest)[0]) && !text::is_blank(
            (label + rest).last(),
        )),
    ensures
        label.len() == 0 ==> res@ == "codex-litter@remote"@,
        label.len() > 0 ==> {
            &&& res@.len() == 13 + label.len()
            &&& res@.take(13) == "codex-litter@"@
            &&& forall|i: int|
                0 <= i < label.len() ==> #[trigger] res@[13 + i] == {
                    let n = label[i] as int;
                    if 0x61 <= n <= 0x7a || 0x41 <= n <= 0x5a || 0x30 <= n <= 0x39 || n == 0x2d || n
                        == 0x5f {
                        label[i]
                    } else {
                        '-'
                    }
                }
        },
{
    text::lemma_trimmed_middle(front, label + rest, back);
    let name = label + rest;
    assert forall|i: int| 0 <= i < label.len() implies #[trigger] name[i] != '.' by {
        assert(name[i] == label[i]);
    }
    lemma_label_len(name, label.len());
    assert(name.take(label.len() as int) =~= label);
    reveal_strlit("codex-litter@");
    reveal_strlit("remote");
    reveal_strlit("codex-litter@remote");
    if label.len() == 0 {
        assert(res@ =~= "codex-litter@remote"@);
    } else {
        assert(res@.take(13) =~= "codex-litter@"@);
        assert forall|i: int| 0 <= i < label.len() implies #[trigger] res@[13 + i] == session_char(
            label[i],
        ) by {
            assert(res@[13 + i] == session_label(host@)[i]);
        }
    }
}

} // verus!
