//! The id and passkey under which a client and the remote terminal server find each other: how
//! they are drawn, handed to the server, and read from its reply.

use crate::shell;
use crate::shell::{shell_quote, Lexer, Token};
use crate::text;
use crate::text::{after_first, chars_of, leading_word, trim};
use vstd::prelude::*;
use vstd::string::*;

verus! {

/// The lower-case hexadecimal digit `n`.
pub open spec fn hex_digit(n: int) -> char {
    if n < 10 {
        ('0' as int + n) as char
    } else {
        ('a' as int + n - 10) as char
    }
}

/// The bytes in lower-case hexadecimal notation, two digits each.
pub open spec fn hex(bytes: Seq<u8>) -> Seq<char>
    decreases bytes.len(),
{
    if bytes.len() == 0 {
        seq![]
    } else {
        hex(bytes.drop_last()).push(hex_digit(bytes.last() as int / 16)).push(
            hex_digit(bytes.last() as int % 16),
        )
    }
}

/// The layout of a random UUID: version 4, and the variant of RFC 9562.
pub open spec fn is_uuid_v4(bytes: Seq<u8>) -> bool {
    &&& bytes.len() == 16
    &&& bytes[6] / 16 == 4
    &&& 8 <= bytes[8] / 16 <= 11
}

/// `uuid::Uuid::new_v4` draws a UUID; `into_bytes` gives its bytes. Which one comes back is left
/// to chance; it has the layout of a random UUID. It panics where the operating system has no
/// random numbers to give.
#[verifier::external_body]
fn draw_uuid() -> (res: [u8; 16])
    ensures
        is_uuid_v4(res@),
{
    uuid::Uuid::new_v4().into_bytes()
}

/// `uuid::fmt::Simple` writes a UUID as the hexadecimal digits of its bytes, without hyphens.
#[verifier::external_body]
fn simple_form(bytes: [u8; 16]) -> (res: String)
    ensures
        res@ == hex(bytes@),
{
    uuid::Uuid::from_bytes(bytes).simple().to_string()
}

/// The first `len` digits of a UUID, or all of them where it has fewer.
pub open spec fn token_text(uuid: Seq<u8>, len: int) -> Seq<char> {
    if len <= hex(uuid).len() {
        hex(uuid).take(len)
    } else {
        hex(uuid)
    }
}

/// Each byte has two digits, all of them hexadecimal.
pub proof fn lemma_hex(bytes: Seq<u8>)
    ensures
        hex(bytes).len() == 2 * bytes.len(),
        forall|i: int|
            0 <= i < hex(bytes).len() ==> ('0' <= #[trigger] hex(bytes)[i] <= '9' || 'a' <= hex(
                bytes,
            )[i] <= 'f'),
    decreases bytes.len(),
{
    if bytes.len() > 0 {
        lemma_hex(bytes.drop_last());
    }
}

/// The token that a UUID gives: its first `len` hexadecimal digits.
pub fn uuid_token(uuid: [u8; 16], len: usize) -> (res: String)
    ensures
        res@ == token_text(uuid@, len as int),
{
    let digits = simple_form(uuid);
    let count: usize = digits.as_str().unicode_len();
    let end: usize = if len <= count {
        len
    } else {
        count
    };
    assert(digits@.subrange(0, end as int) =~= token_text(uuid@, len as int));
    digits.as_str().substring_char(0, end).to_owned()
}

/// Draws a token of `len` hexadecimal digits, or of the 32 that a UUID has where `len` is more.
pub fn random_token(len: usize) -> (res: String)
    ensures
        exists|uuid: Seq<u8>| is_uuid_v4(uuid) && res@ == #[trigger] token_text(uuid, len as int),
        res@.len() == if len <= 32 {
            len as int
        } else {
            32
        },
{
    let uuid = draw_uuid();
    proof {
        lemma_hex(uuid@);
    }
    uuid_token(uuid, len)
}

/// The line that asks the server for a session under an id and a passkey.
pub open spec fn request_text(id: Seq<char>, passkey: Seq<char>) -> Seq<char> {
    id + "/"@ + passkey + "_xterm-256color"@
}

/// The request for a session under the given id and passkey.
pub fn session_request(id: &str, passkey: &str) -> (res: String)
    ensures
        res@ == request_text(id@, passkey@),
{
    let mut request = String::new();
    request.append(id);
    request.append("/");
    request.append(passkey);
    request.append("_xterm-256color");
    assert(request@ =~= request_text(id@, passkey@));
    request
}

/// `request` asks for a session under an id of 16 and a passkey of 32 random digits.
pub open spec fn is_random_request(request: Seq<char>) -> bool {
    exists|id: Seq<u8>, passkey: Seq<u8>|
        is_uuid_v4(id) && is_uuid_v4(passkey) && request == request_text(
            #[trigger] token_text(id, 16),
            #[trigger] token_text(passkey, 32),
        )
}

/// Draws an id and a passkey, and writes the request for a session under them.
pub fn random_request() -> (res: String)
    ensures
        is_random_request(res@),
{
    let id = random_token(16);
    let passkey = random_token(32);
    session_request(id.as_str(), passkey.as_str())
}

/// The remote command that hands a request to the terminal server.
pub open spec fn script_text(request: Seq<char>) -> Seq<char> {
    "printf '%s\\n' "@ + shell::quoted(request)
        + " | (command -v etterminal >/dev/null 2>&1 && etterminal --verbose=0 || /usr/local/bin/etterminal --verbose=0)"@
}

/// Builds the remote command that hands a request to the terminal server.
pub fn bootstrap_script(request: &str) -> (res: String)
    ensures
        res@ == script_text(request@),
{
    let mut script = String::new();
    script.append("printf '%s\\n' ");
    script.append(shell_quote(request).as_str());
    script.append(
        " | (command -v etterminal >/dev/null 2>&1 && etterminal --verbose=0 || /usr/local/bin/etterminal --verbose=0)",
    );
    script
}

/// `script` hands a random request to the terminal server.
pub open spec fn is_random_script(script: Seq<char>) -> bool {
    exists|request: Seq<char>|
        is_random_request(request) && script == #[trigger] script_text(request)
}

/// What the server's output names as the id and passkey: the first word behind the first
/// marker, where it has a slash in it.
pub open spec fn idpasskey_in(output: Seq<char>) -> Option<Seq<char>> {
    match text::text_after(output, "IDPASSKEY:"@) {
        Some(rest) => if text::first_word(rest).contains('/') {
            Some(text::first_word(rest))
        } else {
            None
        },
        None => None,
    }
}

/// Reads the id and passkey from the server's output.
pub fn parse_idpasskey(output: &str) -> (res: Option<String>)
    ensures
        text::owned_text(res) == idpasskey_in(output@),
{
    let value = match after_first(output, "IDPASSKEY:") {
        Some(rest) => leading_word(rest),
        None => {
            return None;
        },
    };
    let chars = chars_of(value);
    let mut i: usize = 0;
    while i < chars.len()
        invariant
            chars@ == value@,
            i <= chars.len(),
            text::text_after(output@, "IDPASSKEY:"@) is Some,
            value@ == text::first_word(text::text_after(output@, "IDPASSKEY:"@)->0),
            forall|k: int| 0 <= k < i ==> #[trigger] value@[k] != '/',
        decreases chars.len() - i,
    {
        if chars[i] == '/' {
            assert(value@[i as int] == '/');
            return Some(value.to_owned());
        }
        i = i + 1;
    }
    None
}

/// The first text that is not blank, without the white space around it; empty where both are
/// blank.
pub open spec fn first_text(a: Seq<char>, b: Seq<char>) -> Seq<char> {
    if text::trimmed(a).len() > 0 {
        text::trimmed(a)
    } else {
        text::trimmed(b)
    }
}

/// The first text that is not blank, without the white space around it.
pub fn first_nonempty(a: &str, b: &str) -> (res: String)
    ensures
        res@ == first_text(a@, b@),
{
    let a = trim(a);
    if !a.is_empty() {
        a.to_owned()
    } else {
        trim(b).to_owned()
    }
}

/// A request of hexadecimal digits needs no quotes, holds no white space and has a slash in it.
pub proof fn law_random_request_is_plain(request: Seq<char>)
    requires
        is_random_request(request),
    ensures
        shell::quoted(request) == request,
        forall|i: int| 0 <= i < request.len() ==> !text::is_blank(#[trigger] request[i]),
        request.contains('/'),
{
    let (id, passkey) = choose|id: Seq<u8>, passkey: Seq<u8>|
        is_uuid_v4(id) && is_uuid_v4(passkey) && request == request_text(
            #[trigger] token_text(id, 16),
            #[trigger] token_text(passkey, 32),
        );
    lemma_hex(id);
    lemma_hex(passkey);
    reveal_strlit("/");
    reveal_strlit("_xterm-256color");
    let first = token_text(id, 16);
    let second = token_text(passkey, 32);
    assert(request[first.len() as int] == '/');
    assert forall|i: int| 0 <= i < request.len() implies shell::is_plain(#[trigger] request[i])
        && !text::is_blank(request[i]) by {
        if i < 16 {
            assert(request[i] == hex(id)[i]);
        } else if 17 <= i < 49 {
            assert(request[i] == hex(passkey)[i - 17]);
        } else if i >= 49 {
            assert(request[i] == "_xterm-256color"@[i - 49]);
        }
    }
}

/// There are random requests.
pub proof fn lemma_random_request_exists() -> (request: Seq<char>)
    ensures
        is_random_request(request),
{
    let uuid = Seq::new(
        16,
        |i: int|
            if i == 6 {
                0x40u8
            } else if i == 8 {
                0x80u8
            } else {
                0u8
            },
    );
    assert(is_uuid_v4(uuid));
    request_text(token_text(uuid, 16), token_text(uuid, 32))
}

/// The server's reply gives back what was asked for: where the first marker of the output is
/// followed by white space, a text without white space but with a slash, and then by white space
/// or the end, that text is what is read.
pub proof fn law_reply_gives_back_request(
    front: Seq<char>,
    blanks: Seq<char>,
    request: Seq<char>,
    rest: Seq<char>,
)
    requires
        text::first_occurs_at(
            front + "IDPASSKEY:"@ + blanks + request + rest,
            "IDPASSKEY:"@,
            front.len() as int,
        ),
        forall|i: int| 0 <= i < blanks.len() ==> text::is_blank(#[trigger] blanks[i]),
        forall|i: int| 0 <= i < request.len() ==> !text::is_blank(#[trigger] request[i]),
        request.contains('/'),
        rest.len() == 0 || text::is_blank(rest[0]),
    ensures
        idpasskey_in(front + "IDPASSKEY:"@ + blanks + request + rest) == Some(request),
{
    let marker = "IDPASSKEY:"@;
    let output = front + marker + blanks + request + rest;
    text::lemma_text_after(output, marker, front.len() as int);
    let behind = blanks + request + rest;
    assert(output.skip((front.len() + marker.len()) as int) =~= behind);
    assert(request.len() > 0);
    assert(behind[blanks.len() as int] == request[0]);
    assert forall|i: int| 0 <= i < blanks.len() implies text::is_blank(#[trigger] behind[i]) by {
        assert(behind[i] == blanks[i]);
    }
    text::lemma_leading_blanks_unique(behind, blanks.len());
    let words = request + rest;
    assert(behind.skip(blanks.len() as int) =~= words);
    assert forall|i: int| 0 <= i < request.len() implies !text::is_blank(#[trigger] words[i]) by {
        assert(words[i] == request[i]);
    }
    text::lemma_word_len_unique(words, request.len());
    assert(words.take(request.len() as int) =~= request);
}

/// The remote command prints the request as one argument, whatever characters it holds, and
/// pipes it to the server; the shell reads all that stands around it the same way for every
/// request.
pub proof fn law_script_tokens(request: Seq<char>)
    ensures
        ({
            let rest = shell::tokens_of(
                " | (command -v etterminal >/dev/null 2>&1 && etterminal --verbose=0 || /usr/local/bin/etterminal --verbose=0)"@,
            );
            &&& rest is Some
            &&& shell::tokens_of(script_text(request)) == Some(
                seq![
                    Token::Word(shell::word_of("printf"@, false)),
                    Token::Word(shell::word_of("%s\\n"@, true)),
                    Token::Word(shell::argument_of(request)),
                ] + rest->0,
            )
        }),
{
    let start = Lexer::start();
    let front = "printf '%s\\n' "@;
    let rest =
        " | (command -v etterminal >/dev/null 2>&1 && etterminal --verbose=0 || /usr/local/bin/etterminal --verbose=0)"@;
    reveal_strlit("printf '%s\\n' ");
    reveal_strlit(
        " | (command -v etterminal >/dev/null 2>&1 && etterminal --verbose=0 || /usr/local/bin/etterminal --verbose=0)",
    );
    reveal_strlit("printf");
    reveal_strlit("%s\\n");
    let format = "%s\\n"@;
    shell::lemma_read_unquoted(start, rest);
    let printf = Token::Word(shell::word_of("printf"@, false));
    let printf_blank = "printf"@ + seq![' '];
    shell::lemma_read_ordinary(start, "printf"@);
    shell::lemma_read_joined(start, "printf"@, seq![' ']);
    shell::lemma_read_one(start.read("printf"@), ' ');
    assert(start.partial() + shell::word_of("printf"@, false) =~= shell::word_of("printf"@, false));
    let at_format = start.read(printf_blank);
    assert(shell::escaped(format) =~= format) by {
        reveal_with_fuel(shell::escaped, 5);
    }
    assert(!shell::is_plain(format[0]));
    assert(front =~= printf_blank + shell::quoted(format) + seq![' ']);
    shell::lemma_read_joined(start, printf_blank, shell::quoted(format));
    shell::law_quoted_is_one_argument(at_format, format);
    assert(at_format.partial() + shell::argument_of(format) =~= shell::word_of(format, true));
    shell::lemma_read_joined(start, printf_blank + shell::quoted(format), seq![' ']);
    shell::lemma_read_one(start.read(printf_blank + shell::quoted(format)), ' ');
    shell::law_argument_in_line(front, request, rest);
    let at_request = start.read(front);
    assert(at_request.partial() + shell::argument_of(request) =~= shell::argument_of(request));
    assert(at_request.tokens =~= seq![printf, Token::Word(shell::word_of(format, true))]);
    assert(shell::tokens_of(script_text(request))->0 =~= seq![
        printf,
        Token::Word(shell::word_of(format, true)),
        Token::Word(shell::argument_of(request)),
    ] + shell::tokens_of(rest)->0);
}

/// A token is made of the first digits of a UUID: each byte gives two hexadecimal digits, the
/// higher one first. It has as many digits as were asked for, and 32 where more were.
pub proof fn law_token_digits(uuid: [u8; 16], len: usize, res: String)
    requires
        call_ensures(uuid_token, (uuid, len), res),
    ensures
        res@.len() == if len <= 32 {
            len as int
        } else {
            32
        },
        forall|k: int|
            0 <= k < 16 && 2 * k < res@.len() ==> res@[2 * k]
                == "0123456789abcdef"@[#[trigger] uuid@[k] as int / 16],
        forall|k: int|
            0 <= k < 16 && 2 * k + 1 < res@.len() ==> res@[2 * k + 1]
                == "0123456789abcdef"@[#[trigger] uuid@[k] as int % 16],
{
    lemma_hex(uuid@);
    assert forall|k: int| 0 <= k < 16 && 2 * k < res@.len() implies res@[2 * k]
        == "0123456789abcdef"@[#[trigger] uuid@[k] as int / 16] by {
        lemma_hex_digits(uuid@, k);
        assert(res@[2 * k] == hex(uuid@)[2 * k]);
    }
    assert forall|k: int| 0 <= k < 16 && 2 * k + 1 < res@.len() implies res@[2 * k + 1]
        == "0123456789abcdef"@[#[trigger] uuid@[k] as int % 16] by {
        lemma_hex_digits(uuid@, k);
        assert(res@[2 * k + 1] == hex(uuid@)[2 * k + 1]);
    }
}

/// The digit `n` stands at place `n` among the hexadecimal digits.
proof fn lemma_hex_digit(n: int)
    requires
        0 <= n < 16,
    ensures
        hex_digit(n) == "0123456789abcdef"@[n],
{
    reveal_strlit("0123456789abcdef");
    assert(n == 0 || n == 1 || n == 2 || n == 3 || n == 4 || n == 5 || n == 6 || n == 7 || n == 8
        || n == 9 || n == 10 || n == 11 || n == 12 || n == 13 || n == 14 || n == 15);
}

/// The two digits of the byte at index `k`.
pub proof fn lemma_hex_digits(bytes: Seq<u8>, k: int)
    requires
        0 <= k < bytes.len(),
    ensures
        hex(bytes).len() == 2 * bytes.len(),
        hex(bytes)[2 * k] == "0123456789abcdef"@[bytes[k] as int / 16],
        hex(bytes)[2 * k + 1] == "0123456789abcdef"@[bytes[k] as int % 16],
    decreases bytes.len(),
{
    let init = bytes.drop_last();
    lemma_hex(bytes);
    lemma_hex(init);
    if k < init.len() {
        lemma_hex_digits(init, k);
        assert(hex(bytes)[2 * k] == hex(init)[2 * k]);
        assert(hex(bytes)[2 * k + 1] == hex(init)[2 * k + 1]);
    } else {
        lemma_hex_digit(bytes[k] as int / 16);
        lemma_hex_digit(bytes[k] as int % 16);
    }
}

/// A random token has the length that was asked for, up to 32, and consists of lower-case
/// hexadecimal digits; the one at index 12, where it goes so far, is the version of a random UUID.
pub proof fn law_random_token(len: usize, res: String)
    requires
        call_ensures(random_token, (len,), res),
    ensures
        res@.len() == if len <= 32 {
            len as int
        } else {
            32
        },
        forall|i: int|
            0 <= i < res@.len() ==> ('0' <= #[trigger] res@[i] <= '9' || 'a' <= res@[i] <= 'f'),
        len > 12 ==> res@[12] == '4',
{
    let uuid = choose|uuid: Seq<u8>|
        is_uuid_v4(uuid) && res@ == #[trigger] token_text(uuid, len as int);
    lemma_hex(uuid);
    lemma_hex_digits(uuid, 6);
    reveal_strlit("0123456789abcdef");
    assert forall|i: int| 0 <= i < res@.len() implies ('0' <= #[trigger] res@[i] <= '9' || 'a'
        <= res@[i] <= 'f') by {
        assert(res@[i] == hex(uuid)[i]);
    }
    if len > 12 {
        assert(res@[12] == hex(uuid)[12]);
    }
}

/// A request is the id, a slash, the passkey and the kind of the terminal, each of them whole.
pub proof fn law_session_request(id: &str, passkey: &str, res: String)
    requires
        call_ensures(session_request, (id, passkey), res),
    ensures
        res@.len() == id@.len() + 1 + passkey@.len() + 15,
        res@.take(id@.len() as int) == id@,
        res@[id@.len() as int] == '/',
        res@.subrange(id@.len() + 1int, id@.len() + 1int + passkey@.len()) == passkey@,
        res@.skip(id@.len() + 1int + passkey@.len()) == "_xterm-256color"@,
{
    reveal_strlit("/");
    reveal_strlit("_xterm-256color");
    assert(res@.take(id@.len() as int) =~= id@);
    assert(res@.subrange(id@.len() + 1int, id@.len() + 1int + passkey@.len()) =~= passkey@);
    assert(res@.skip(id@.len() + 1int + passkey@.len()) =~= "_xterm-256color"@);
}

/// A random request asks for an id of 16 and a passkey of 32 hexadecimal digits.
pub proof fn law_random_request_layout(request: Seq<char>)
    requires
        is_random_request(request),
    ensures
        request.len() == 64,
        forall|i: int|
            0 <= i < 49 && i != 16 ==> ('0' <= #[trigger] request[i] <= '9' || 'a' <= request[i]
                <= 'f'),
        request[16] == '/',
        request[12] == '4' && request[29] == '4',
        request.skip(49) == "_xterm-256color"@,
{
    let (id, passkey) = choose|id: Seq<u8>, passkey: Seq<u8>|
        is_uuid_v4(id) && is_uuid_v4(passkey) && request == request_text(
            #[trigger] token_text(id, 16),
            #[trigger] token_text(passkey, 32),
        );
    lemma_hex(id);
    lemma_hex(passkey);
    lemma_hex_digits(id, 6);
    lemma_hex_digits(passkey, 6);
    reveal_strlit("0123456789abcdef");
    reveal_strlit("/");
    reveal_strlit("_xterm-256color");
    assert forall|i: int| 0 <= i < 49 && i != 16 implies ('0' <= #[trigger] request[i] <= '9'
        || 'a' <= request[i] <= 'f') by {
        if i < 16 {
            assert(request[i] == hex(id)[i]);
        } else {
            assert(request[i] == hex(passkey)[i - 17]);
        }
    }
    assert(request[12] == hex(id)[12]);
    assert(request[29] == hex(passkey)[12]);
    assert(request.skip(49) =~= "_xterm-256color"@);
}

/// The request that is drawn asks for an id of 16 and a passkey of 32 hexadecimal digits.
pub proof fn law_random_request(res: String)
    requires
        call_ensures(random_request, (), res),
    ensures
        res@.len() == 64,
        forall|i: int|
            0 <= i < 49 && i != 16 ==> ('0' <= #[trigger] res@[i] <= '9' || 'a' <= res@[i] <= 'f'),
        res@[16] == '/',
        res@.skip(49) == "_xterm-256color"@,
{
    law_random_request_layout(res@);
}

/// The remote command pipes the request, as one argument of `printf`, to the server, wherever the
/// server is installed; a random request stands in it as it is.
pub proof fn law_bootstrap_script(request: &str, res: String)
    requires
        call_ensures(bootstrap_script, (request,), res),
    ensures
        ({
            let argument = if is_random_request(request@) {
                request@
            } else {
                shell::quoted(request@)
            };
            res@ == "printf '%s\\n' "@ + argument
                + " | (command -v etterminal >/dev/null 2>&1 && etterminal --verbose=0 || /usr/local/bin/etterminal --verbose=0)"@
        }),
{
    if is_random_request(request@) {
        law_random_request_is_plain(request@);
    }
}

/// What stands behind the first marker decides: its first word is the id and passkey, all of it
/// and at any length, exactly where it has a slash in it.
pub proof fn law_idpasskey_behind_marker(
    front: Seq<char>,
    blanks: Seq<char>,
    word: Seq<char>,
    rest: Seq<char>,
    output: &str,
    res: Option<String>,
)
    requires
        call_ensures(parse_idpasskey, (output,), res),
        output@ == front + "IDPASSKEY:"@ + (blanks + word + rest),
        forall|j: int|
            0 <= j < front.len() ==> #[trigger] output@.subrange(j, j + 10) != "IDPASSKEY:"@,
        forall|i: int| 0 <= i < blanks.len() ==> text::is_blank(#[trigger] blanks[i]),
        forall|i: int| 0 <= i < word.len() ==> !text::is_blank(#[trigger] word[i]),
        rest.len() == 0 || (word.len() > 0 && text::is_blank(rest[0])),
    ensures
        word.contains('/') ==> (res matches Some(idpasskey) && idpasskey@ == word),
        !word.contains('/') ==> res is None,
{
    lemma_idpasskey_behind_marker(front, blanks, word, rest);
}

/// The first word behind the first marker is the id and passkey where it has a slash in it.
pub proof fn lemma_idpasskey_behind_marker(
    front: Seq<char>,
    blanks: Seq<char>,
    word: Seq<char>,
    rest: Seq<char>,
)
    requires
        forall|j: int|
            0 <= j < front.len() ==> #[trigger] (front + "IDPASSKEY:"@ + (blanks + word
                + rest)).subrange(j, j + 10) != "IDPASSKEY:"@,
        forall|i: int| 0 <= i < blanks.len() ==> text::is_blank(#[trigger] blanks[i]),
        forall|i: int| 0 <= i < word.len() ==> !text::is_blank(#[trigger] word[i]),
        rest.len() == 0 || (word.len() > 0 && text::is_blank(rest[0])),
    ensures
        idpasskey_in(front + "IDPASSKEY:"@ + (blanks + word + rest)) == if word.contains('/') {
            Some(word)
        } else {
            None
        },
{
    reveal_strlit("IDPASSKEY:");
    text::lemma_text_behind(front, "IDPASSKEY:"@, blanks + word + rest);
    text::lemma_first_word(blanks, word, rest);
}

/// Output without the marker holds no id and passkey.
pub proof fn law_no_marker_no_idpasskey(output: &str, res: Option<String>)
    requires
        call_ensures(parse_idpasskey, (output,), res),
        forall|j: int|
            0 <= j <= output@.len() - 10 ==> #[trigger] output@.subrange(j, j + 10)
                != "IDPASSKEY:"@,
    ensures
        res is None,
{
    reveal_strlit("IDPASSKEY:");
    text::lemma_text_nowhere(output@, "IDPASSKEY:"@);
}

/// The first text counts as soon as it holds a character that is not white space, and then all of
/// it does, without the white space around it; the second counts only where the first is blank.
pub proof fn law_first_nonempty(
    front: Seq<char>,
    middle: Seq<char>,
    back: Seq<char>,
    a: &str,
    b: &str,
    res: String,
)
    requires
        call_ensures(first_nonempty, (a, b), res),
        forall|i: int| 0 <= i < front.len() ==> text::is_blank(#[trigger] front[i]),
        forall|i: int| 0 <= i < back.len() ==> text::is_blank(#[trigger] back[i]),
        middle.len() == 0 || (!text::is_blank(middle[0]) && !text::is_blank(middle.last())),
    ensures
        a@ == front + middle + back && middle.len() > 0 ==> res@ == middle,
        (forall|i: int| 0 <= i < a@.len() ==> text::is_blank(#[trigger] a@[i])) && b@ == front
            + middle + back ==> res@ == middle,
{
    text::lemma_trimmed_middle(front, middle, back);
    text::law_trimmed(a@);
}

} // verus!
