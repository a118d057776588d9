//! Quoting for POSIX shells, and a model of how such a shell splits a line into tokens.

use crate::text::chars_of;
use vstd::prelude::*;
use vstd::string::*;

verus! {

/// Characters that mean themselves wherever they stand unquoted in an argument.
pub open spec fn is_plain(c: char) -> bool {
    ||| 'a' <= c <= 'z'
    ||| 'A' <= c <= 'Z'
    ||| '0' <= c <= '9'
    ||| c == '_'
    ||| c == '-'
    ||| c == '.'
    ||| c == '/'
    ||| c == ':'
    ||| c == '@'
    ||| c == '+'
    ||| c == ','
}

/// A text that needs no quotes: it has characters, and all of them are plain.
pub open spec fn is_plain_text(s: Seq<char>) -> bool {
    s.len() > 0 && forall|i: int| 0 <= i < s.len() ==> is_plain(#[trigger] s[i])
}

/// The text as it stands between single quotes: each single quote in it closes the quotes,
/// stands escaped, and opens them again.
pub open spec fn escaped(s: Seq<char>) -> Seq<char>
    decreases s.len(),
{
    if s.len() == 0 {
        seq![]
    } else if s.last() == '\'' {
        escaped(s.drop_last()) + seq!['\'', '\\', '\'', '\'']
    } else {
        escaped(s.drop_last()).push(s.last())
    }
}

/// The shell argument that stands for the text `s`.
pub open spec fn quoted(s: Seq<char>) -> Seq<char> {
    if is_plain_text(s) {
        s
    } else {
        seq!['\''] + escaped(s) + seq!['\'']
    }
}

/// Tells whether a character means itself unquoted.
fn plain(c: char) -> (res: bool)
    ensures
        res == is_plain(c),
{
    ('a' <= c && c <= 'z') || ('A' <= c && c <= 'Z') || ('0' <= c && c <= '9') || c == '_' || c
        == '-' || c == '.' || c == '/' || c == ':' || c == '@' || c == '+' || c == ','
}

/// Writes `value` as one argument of a shell command: as it stands where it is made of plain
/// characters alone, in single quotes elsewhere.
pub fn shell_quote(value: &str) -> (res: String)
    ensures
        res@ == quoted(value@),
{
    let chars = chars_of(value);
    let mut all_plain = chars.len() > 0;
    let mut i: usize = 0;
    while i < chars.len() && all_plain
        invariant
            chars@ == value@,
            i <= chars.len(),
            all_plain ==> chars.len() > 0 && forall|k: int| 0 <= k < i ==> is_plain(#[trigger] value@[k]),
            !all_plain ==> !is_plain_text(value@),
        decreases chars.len() - i,
    {
        if !plain(chars[i]) {
            assert(!is_plain(value@[i as int]));
            all_plain = false;
        }
        i = i + 1;
    }
    if all_plain {
        return value.to_owned();
    }
    let mut res = String::new();
    res.push('\'');
    let mut j: usize = 0;
    while j < chars.len()
        invariant
            chars@ == value@,
            j <= chars.len(),
            res@ == seq!['\''] + escaped(value@.take(j as int)),
        decreases chars.len() - j,
    {
        let c = chars[j];
        proof {
            let next = value@.take(j + 1);
            assert(next.drop_last() =~= value@.take(j as int));
            assert(next.last() == c);
        }
        if c == '\'' {
            res.push('\'');
            res.push('\\');
            res.push('\'');
            res.push('\'');
        } else {
            res.push(c);
        }
        j = j + 1;
    }
    res.push('\'');
    assert(value@.take(j as int) =~= value@);
    res
}

/// A character of a word, and whether quotes keep the shell from acting on it.
pub struct ShellChar {
    pub ch: char,
    pub quoted: bool,
}

/// What the shell reads a line as: words, and the operators between them.
pub enum Token {
    Word(Seq<ShellChar>),
    Operator(char),
}

/// The quoting in effect at a place of the line.
pub enum QuoteMode {
    Plain,
    Escaped,
    Single,
    Double,
    DoubleEscaped,
}

/// How far the shell has read: the tokens that are complete, the word that it is reading, if
/// it is in one, and the quoting in effect. Comments are left out: in this model a `#` is a
/// character like any other.
pub struct Lexer {
    pub tokens: Seq<Token>,
    pub word: Option<Seq<ShellChar>>,
    pub mode: QuoteMode,
}

/// The characters that delimit words and are tokens themselves. A longer operator, such as
/// `&&`, is read as its characters.
pub open spec fn is_operator(c: char) -> bool {
    c == ';' || c == '&' || c == '|' || c == '<' || c == '>' || c == '(' || c == ')' || c == '\n'
}

/// The characters that end no word, start no quotes and are no operators.
pub open spec fn is_ordinary(c: char) -> bool {
    &&& !is_operator(c)
    &&& c != ' '
    &&& c != '\t'
    &&& c != '\''
    &&& c != '"'
    &&& c != '\\'
}

impl Lexer {
    /// Nothing read yet.
    pub open spec fn start() -> Lexer {
        Lexer { tokens: seq![], word: None, mode: QuoteMode::Plain }
    }

    /// The characters of the word that is being read.
    pub open spec fn partial(self) -> Seq<ShellChar> {
        match self.word {
            Some(word) => word,
            None => seq![],
        }
    }

    /// The next character belongs to the word.
    pub open spec fn extend(self, ch: char, quoted: bool) -> Lexer {
        Lexer { word: Some(self.partial().push(ShellChar { ch, quoted })), ..self }
    }

    /// The quoting changes within a word.
    pub open spec fn switch(self, mode: QuoteMode) -> Lexer {
        Lexer { word: Some(self.partial()), mode, ..self }
    }

    /// The word, if there is one, ends here.
    pub open spec fn end_word(self) -> Lexer {
        match self.word {
            Some(word) => Lexer { tokens: self.tokens.push(Token::Word(word)), word: None, ..self },
            None => self,
        }
    }

    /// One more character is read. A backslash and the end of a line behind it count as nothing,
    /// within a word and between words.
    pub open spec fn step(self, c: char) -> Lexer {
        match self.mode {
            QuoteMode::Plain => if c == '\'' {
                self.switch(QuoteMode::Single)
            } else if c == '"' {
                self.switch(QuoteMode::Double)
            } else if c == '\\' {
                Lexer { mode: QuoteMode::Escaped, ..self }
            } else if c == ' ' || c == '\t' {
                self.end_word()
            } else if is_operator(c) {
                Lexer { tokens: self.end_word().tokens.push(Token::Operator(c)), ..self.end_word() }
            } else {
                self.extend(c, false)
            },
            QuoteMode::Escaped => if c == '\n' {
                Lexer { mode: QuoteMode::Plain, ..self }
            } else {
                self.extend(c, true).switch(QuoteMode::Plain)
            },
            QuoteMode::Single => if c == '\'' {
                self.switch(QuoteMode::Plain)
            } else {
                self.extend(c, true)
            },
            QuoteMode::Double => if c == '"' {
                self.switch(QuoteMode::Plain)
            } else if c == '\\' {
                self.switch(QuoteMode::DoubleEscaped)
            } else {
                self.extend(c, c != '$' && c != '`')
            },
            QuoteMode::DoubleEscaped => if c == '\n' {
                self.switch(QuoteMode::Double)
            } else if c == '$' || c == '`' || c == '"' || c == '\\' {
                self.extend(c, true).switch(QuoteMode::Double)
            } else {
                self.extend('\\', true).extend(c, true).switch(QuoteMode::Double)
            },
        }
    }

    /// All of `s` is read.
    pub open spec fn read(self, s: Seq<char>) -> Lexer
        decreases s.len(),
    {
        if s.len() == 0 {
            self
        } else {
            self.read(s.drop_last()).step(s.last())
        }
    }
}

/// The tokens of a line; nothing where quotes are left open.
pub open spec fn tokens_of(line: Seq<char>) -> Option<Seq<Token>> {
    let end = Lexer::start().read(line);
    if end.mode is Plain {
        Some(end.end_word().tokens)
    } else {
        None
    }
}

/// A character of a word.
pub open spec fn shell_char(ch: char, quoted: bool) -> ShellChar {
    ShellChar { ch, quoted }
}

/// The characters of `s` as they stand in a word, all of them quoted or all of them not.
pub open spec fn word_of(s: Seq<char>, quoted: bool) -> Seq<ShellChar> {
    s.map_values(|c: char| shell_char(c, quoted))
}

/// The word that the shell reads where the argument for `s` stands.
pub open spec fn argument_of(s: Seq<char>) -> Seq<ShellChar> {
    word_of(s, !is_plain_text(s))
}

/// Reading two texts one after the other is reading them joined.
pub proof fn lemma_read_joined(lexer: Lexer, a: Seq<char>, b: Seq<char>)
    ensures
        lexer.read(a + b) == lexer.read(a).read(b),
    decreases b.len(),
{
    if b.len() == 0 {
        assert(a + b =~= a);
    } else {
        lemma_read_joined(lexer, a, b.drop_last());
        assert((a + b).drop_last() =~= a + b.drop_last());
        assert((a + b).last() == b.last());
    }
}

/// The word of a text is that of all but its last character, and that character.
proof fn lemma_word_of_last(s: Seq<char>, quoted: bool)
    requires
        s.len() > 0,
    ensures
        word_of(s, quoted) == word_of(s.drop_last(), quoted).push(shell_char(s.last(), quoted)),
{
    let shorter = word_of(s.drop_last(), quoted);
    assert forall|i: int| 0 <= i < s.len() implies #[trigger] word_of(s, quoted)[i] == shorter.push(
        shell_char(s.last(), quoted),
    )[i] by {
        if i < s.len() - 1 {
            assert(s.drop_last()[i] == s[i]);
        }
    }
    assert(word_of(s, quoted) =~= shorter.push(shell_char(s.last(), quoted)));
}

/// Ordinary characters join the word that is being read.
pub proof fn lemma_read_ordinary(lexer: Lexer, s: Seq<char>)
    requires
        lexer.mode is Plain,
        s.len() > 0,
        forall|i: int| 0 <= i < s.len() ==> is_ordinary(#[trigger] s[i]),
    ensures
        lexer.read(s) == (Lexer { word: Some(lexer.partial() + word_of(s, false)), ..lexer }),
    decreases s.len(),
{
    let init = s.drop_last();
    assert(is_ordinary(s[s.len() - 1]));
    lemma_word_of_last(s, false);
    if init.len() == 0 {
        assert(lexer.read(init) == lexer);
    } else {
        lemma_read_ordinary(lexer, init);
    }
    assert(lexer.partial() + word_of(s, false) =~= (lexer.partial() + word_of(init, false)).push(
        shell_char(s.last(), false),
    ));
    assert(lexer.partial() + word_of(Seq::<char>::empty(), false) =~= lexer.partial());
}

/// Between single quotes, the escaped text adds exactly the characters of the text to the word,
/// all of them quoted.
proof fn lemma_read_escaped(lexer: Lexer, s: Seq<char>)
    requires
        lexer.mode is Single,
        lexer.word is Some,
    ensures
        lexer.read(escaped(s)) == (Lexer {
            word: Some(lexer.partial() + word_of(s, true)),
            ..lexer
        }),
    decreases s.len(),
{
    if s.len() == 0 {
        assert(lexer.partial() + word_of(s, true) =~= lexer.partial());
    } else {
        let init = s.drop_last();
        lemma_read_escaped(lexer, init);
        let before = lexer.read(escaped(init));
        lemma_word_of_last(s, true);
        assert(lexer.partial() + word_of(s, true) =~= (lexer.partial() + word_of(init, true)).push(
            shell_char(s.last(), true),
        ));
        if s.last() == '\'' {
            let piece = seq!['\'', '\\', '\'', '\''];
            lemma_read_joined(lexer, escaped(init), piece);
            lemma_read_four(before, piece);
        } else {
            assert(escaped(s).drop_last() =~= escaped(init));
        }
    }
}

/// Reading one character is one step.
pub proof fn lemma_read_one(lexer: Lexer, c: char)
    ensures
        lexer.read(seq![c]) == lexer.step(c),
{
    assert(seq![c].drop_last() =~= Seq::<char>::empty());
    assert(lexer.read(seq![c].drop_last()) == lexer);
}

/// Reading four characters is four steps.
pub proof fn lemma_read_four(lexer: Lexer, s: Seq<char>)
    requires
        s.len() == 4,
    ensures
        lexer.read(s) == lexer.step(s[0]).step(s[1]).step(s[2]).step(s[3]),
{
    reveal_with_fuel(Lexer::read, 5);
}

/// A quoted text is inert: wherever the shell reads it outside quotes, it adds exactly the
/// characters of the text to the word that it is reading, and leaves the quoting as it was.
pub proof fn law_quoted_is_one_argument(lexer: Lexer, s: Seq<char>)
    requires
        lexer.mode is Plain,
    ensures
        lexer.read(quoted(s)) == (Lexer {
            word: Some(lexer.partial() + argument_of(s)),
            ..lexer
        }),
        argument_of(s).len() == s.len(),
        forall|i: int|
            0 <= i < s.len() ==> {
                let c = #[trigger] argument_of(s)[i];
                c.ch == s[i] && (c.quoted || is_plain(c.ch))
            },
{
    if is_plain_text(s) {
        lemma_read_ordinary(lexer, s);
    } else {
        let open = seq!['\''];
        let inside = lexer.read(open);
        lemma_read_one(lexer, '\'');
        lemma_read_escaped(inside, s);
        let text = inside.read(escaped(s));
        lemma_read_joined(lexer, open, escaped(s));
        lemma_read_joined(lexer, open + escaped(s), open);
        lemma_read_one(text, '\'');
    }
}

/// Different texts are quoted differently.
pub proof fn law_quoted_is_injective(a: Seq<char>, b: Seq<char>)
    requires
        quoted(a) == quoted(b),
    ensures
        a == b,
{
    let start = Lexer::start();
    law_quoted_is_one_argument(start, a);
    law_quoted_is_one_argument(start, b);
    assert(start.partial() + argument_of(a) =~= argument_of(a));
    assert(start.partial() + argument_of(b) =~= argument_of(b));
    assert(argument_of(a) == argument_of(b));
    assert forall|i: int| 0 <= i < a.len() implies a[i] == b[i] by {
        assert(argument_of(a)[i].ch == a[i]);
        assert(argument_of(b)[i].ch == b[i]);
    }
    assert(a =~= b);
}

/// A token at the end stays there when others are put in front.
pub proof fn lemma_push_behind(before: Seq<Token>, tokens: Seq<Token>, token: Token)
    ensures
        (before + tokens).push(token) == before + tokens.push(token),
{
    assert((before + tokens).push(token) =~= before + tokens.push(token));
}

/// Tokens that are complete stay as they are, and what follows is read as if they were not
/// there.
pub proof fn lemma_read_behind(lexer: Lexer, before: Seq<Token>, s: Seq<char>)
    ensures
        (Lexer { tokens: before + lexer.tokens, ..lexer }).read(s) == (Lexer {
            tokens: before + lexer.read(s).tokens,
            ..lexer.read(s)
        }),
    decreases s.len(),
{
    if s.len() > 0 {
        let init = s.drop_last();
        lemma_read_behind(lexer, before, init);
        let here = lexer.read(init);
        let c = s.last();
        let word = Token::Word(here.partial());
        let operator = Token::Operator(c);
        lemma_push_behind(before, here.tokens, word);
        lemma_push_behind(before, here.tokens, operator);
        lemma_push_behind(before, here.tokens.push(word), operator);
    }
}

/// A quoted text within a line is one argument: it ends the word that stands in front of it,
/// which is empty behind a blank, and the shell reads the rest of the line as if it stood alone.
pub proof fn law_argument_in_line(front: Seq<char>, s: Seq<char>, rest: Seq<char>)
    requires
        Lexer::start().read(front).mode is Plain,
        tokens_of(rest) is Some,
        rest.len() == 0 || rest[0] == ' ' || rest[0] == '\t' || is_operator(rest[0]),
    ensures
        tokens_of(front + quoted(s) + rest) == Some(
            Lexer::start().read(front).tokens.push(
                Token::Word(Lexer::start().read(front).partial() + argument_of(s)),
            ) + tokens_of(rest)->0,
        ),
{
    let start = Lexer::start();
    let at_front = start.read(front);
    lemma_read_joined(start, front, quoted(s));
    law_quoted_is_one_argument(at_front, s);
    let behind = at_front.read(quoted(s));
    lemma_read_joined(start, front + quoted(s), rest);
    let done = behind.end_word().tokens;
    if rest.len() == 0 {
        assert(behind.read(rest) == behind);
        assert(start.read(rest) == start);
        assert(done + start.tokens =~= done);
    } else {
        let head = seq![rest[0]];
        let tail = rest.drop_first();
        assert(rest =~= head + tail);
        lemma_read_joined(behind, head, tail);
        lemma_read_joined(start, head, tail);
        lemma_read_one(behind, rest[0]);
        lemma_read_one(start, rest[0]);
        let next = start.step(rest[0]);
        assert(done + next.tokens =~= behind.step(rest[0]).tokens);
        lemma_read_behind(next, done, tail);
        let end = next.read(tail);
        assert(end == start.read(rest));
        let word = Token::Word(end.partial());
        lemma_push_behind(done, end.tokens, word);
    }
}

/// Text without quotes leaves the shell outside quotes.
pub proof fn lemma_read_unquoted(lexer: Lexer, s: Seq<char>)
    requires
        lexer.mode is Plain,
        forall|i: int|
            0 <= i < s.len() ==> #[trigger] s[i] != '\'' && s[i] != '"' && s[i] != '\\',
    ensures
        lexer.read(s).mode is Plain,
        s.len() > 0 && s.last() == ' ' ==> lexer.read(s).word is None,
    decreases s.len(),
{
    if s.len() > 0 {
        lemma_read_unquoted(lexer, s.drop_last());
        assert(s[s.len() - 1] == s.last());
    }
}

/// Text between double quotes that holds neither these nor a backslash ends where they do.
pub proof fn lemma_read_double_quoted(lexer: Lexer, s: Seq<char>)
    requires
        lexer.mode is Plain,
        forall|i: int| 0 <= i < s.len() ==> #[trigger] s[i] != '"' && s[i] != '\\',
    ensures
        lexer.read(seq!['"'] + s).mode is Double,
        lexer.read(seq!['"'] + s + seq!['"']).mode is Plain,
    decreases s.len(),
{
    let open = seq!['"'];
    if s.len() == 0 {
        assert(open + s =~= open);
        lemma_read_one(lexer, '"');
    } else {
        lemma_read_double_quoted(lexer, s.drop_last());
        assert((open + s).drop_last() =~= open + s.drop_last());
        assert((open + s).last() == s[s.len() - 1]);
    }
    assert((open + s + open).drop_last() =~= open + s);
}

/// The plain characters are the letters and digits of ASCII and eight marks.
pub proof fn law_plain_characters(c: char)
    ensures
        is_plain(c) <==> {
            ||| 0x61 <= c as int <= 0x7a
            ||| 0x41 <= c as int <= 0x5a
            ||| 0x30 <= c as int <= 0x39
            ||| "_-./:@+,"@.contains(c)
        },
{
    reveal_strlit("_-./:@+,");
    let marks = "_-./:@+,"@;
    assert(marks =~= seq!['_', '-', '.', '/', ':', '@', '+', ',']);
    assert(marks[0] == '_' && marks[1] == '-' && marks[2] == '.' && marks[3] == '/' && marks[4]
        == ':' && marks[5] == '@' && marks[6] == '+' && marks[7] == ',');
}

/// A text of plain characters is its own argument. Any other text stands between single quotes,
/// with each single quote in it replaced by four characters and every other character kept.
pub proof fn law_shell_quote(s: &str, res: String)
    requires
        call_ensures(shell_quote, (s,), res),
    ensures
        s@.len() > 0 && (forall|i: int| 0 <= i < s@.len() ==> is_plain(#[trigger] s@[i])) ==> res@
            == s@,
        s@.len() == 0 || (exists|i: int| 0 <= i < s@.len() && !is_plain(#[trigger] s@[i])) ==> res@
            == seq!['\''] + escaped(s@) + seq!['\''],
        res@ == quoted(s@),
{
}

/// Texts are escaped character by character.
pub proof fn law_escaped(a: Seq<char>, b: Seq<char>, c: char)
    ensures
        escaped(Seq::empty()) == Seq::<char>::empty(),
        escaped(seq![c]) == if c == '\'' {
            "'\\''"@
        } else {
            seq![c]
        },
        escaped(a + b) == escaped(a) + escaped(b),
    decreases b.len(),
{
    reveal_strlit("'\\''");
    assert(seq![c].drop_last() =~= Seq::<char>::empty());
    assert(escaped(Seq::<char>::empty()) =~= Seq::<char>::empty());
    assert(escaped(seq![c]) =~= if c == '\'' {
        "'\\''"@
    } else {
        seq![c]
    });
    if b.len() == 0 {
        assert(a + b =~= a);
        assert(escaped(a) + escaped(b) =~= escaped(a));
    } else {
        let init = b.drop_last();
        law_escaped(a, init, c);
        assert((a + b).drop_last() =~= a + init);
        assert((a + b).last() == b.last());
        assert(escaped(a + b) =~= escaped(a) + escaped(b));
    }
}

/// A text without single quotes is escaped as it stands.
pub proof fn lemma_escaped_without_quotes(s: Seq<char>)
    requires
        forall|i: int| 0 <= i < s.len() ==> #[trigger] s[i] != '\'',
    ensures
        escaped(s) == s,
    decreases s.len(),
{
    if s.len() > 0 {
        let init = s.drop_last();
        assert forall|i: int| 0 <= i < init.len() implies #[trigger] init[i] != '\'' by {
            assert(init[i] == s[i]);
        }
        lemma_escaped_without_quotes(init);
        assert(s[s.len() - 1] != '\'');
        assert(escaped(s) =~= s);
    }
}

} // verus!
