//! Text operations on strings seen as sequences of characters.

use vstd::prelude::*;
use vstd::string::*;

verus! {

/// `String::push` appends one character at the end of the string.
pub assume_specification[ String::push ](s: &mut String, c: char)
    ensures
        final(s)@ == old(s)@.push(c),
;

/// The characters with the Unicode property `White_Space`.
pub open spec fn is_blank(c: char) -> bool {
    ||| '\u{9}' <= c <= '\u{d}'
    ||| c == ' '
    ||| c == '\u{85}'
    ||| c == '\u{a0}'
    ||| c == '\u{1680}'
    ||| '\u{2000}' <= c <= '\u{200a}'
    ||| c == '\u{2028}'
    ||| c == '\u{2029}'
    ||| c == '\u{202f}'
    ||| c == '\u{205f}'
    ||| c == '\u{3000}'
}

/// Tells whether a character is white space.
pub fn blank(c: char) -> (res: bool)
    ensures
        res == is_blank(c),
{
    ('\u{9}' <= c && c <= '\u{d}') || c == ' ' || c == '\u{85}' || c == '\u{a0}' || c == '\u{1680}'
        || ('\u{2000}' <= c && c <= '\u{200a}') || c == '\u{2028}' || c == '\u{2029}' || c
        == '\u{202f}' || c == '\u{205f}' || c == '\u{3000}'
}

/// The characters of a string, in order.
pub(crate) fn chars_of(s: &str) -> (res: Vec<char>)
    ensures
        res@ == s@,
{
    let mut res: Vec<char> = Vec::new();
    for c in it: s.chars()
        invariant
            res@ == s@.take(it.index()),
            it.seq() == s@,
    {
        res.push(c);
    }
    res
}

/// The text of an optional string.
pub open spec fn text_of(s: Option<&str>) -> Option<Seq<char>> {
    match s {
        Some(s) => Some(s@),
        None => None,
    }
}

/// The text of an optional owned string.
pub open spec fn owned_text(s: Option<String>) -> Option<Seq<char>> {
    match s {
        Some(s) => Some(s@),
        None => None,
    }
}

/// The outcome of a step, with the reason of a failure as a text.
pub open spec fn outcome_text(outcome: Result<(), String>) -> Result<(), Seq<char>> {
    match outcome {
        Ok(_) => Ok(()),
        Err(reason) => Err(reason@),
    }
}

/// The number of white-space characters at the front.
pub open spec fn leading_blanks(s: Seq<char>) -> nat
    decreases s.len(),
{
    if s.len() > 0 && is_blank(s[0]) {
        1 + leading_blanks(s.drop_first())
    } else {
        0
    }
}

/// The number of white-space characters at the end.
pub open spec fn trailing_blanks(s: Seq<char>) -> nat
    decreases s.len(),
{
    if s.len() > 0 && is_blank(s.last()) {
        1 + trailing_blanks(s.drop_last())
    } else {
        0
    }
}

/// The text without the white space at its front.
pub open spec fn trimmed_start(s: Seq<char>) -> Seq<char> {
    s.skip(leading_blanks(s) as int)
}

/// The text without the white space at its end.
pub open spec fn trimmed_end(s: Seq<char>) -> Seq<char> {
    s.take(s.len() - trailing_blanks(s))
}

/// The text without the white space around it.
pub open spec fn trimmed(s: Seq<char>) -> Seq<char> {
    trimmed_end(trimmed_start(s))
}

/// The number of characters in front of the first white space.
pub open spec fn word_len(s: Seq<char>) -> nat
    decreases s.len(),
{
    if s.len() > 0 && !is_blank(s[0]) {
        1 + word_len(s.drop_first())
    } else {
        0
    }
}

/// The first run of characters that are not white space; empty where there is none.
pub open spec fn first_word(s: Seq<char>) -> Seq<char> {
    trimmed_start(s).take(word_len(trimmed_start(s)) as int)
}

/// The leading white space ends at a character that is not white space, or at the end.
pub proof fn lemma_leading_blanks(s: Seq<char>)
    ensures
        leading_blanks(s) <= s.len(),
        forall|i: int| 0 <= i < leading_blanks(s) ==> is_blank(#[trigger] s[i]),
        leading_blanks(s) < s.len() ==> !is_blank(s[leading_blanks(s) as int]),
    decreases s.len(),
{
    if s.len() > 0 && is_blank(s[0]) {
        let rest = s.drop_first();
        lemma_leading_blanks(rest);
        assert forall|i: int| 0 <= i < leading_blanks(s) implies is_blank(#[trigger] s[i]) by {
            if i > 0 {
                assert(rest[i - 1] == s[i]);
            }
        }
    }
}

/// The trailing white space begins behind a character that is not white space, or at the front.
pub proof fn lemma_trailing_blanks(s: Seq<char>)
    ensures
        trailing_blanks(s) <= s.len(),
        forall|i: int| s.len() - trailing_blanks(s) <= i < s.len() ==> is_blank(#[trigger] s[i]),
        trailing_blanks(s) < s.len() ==> !is_blank(s[s.len() - trailing_blanks(s) - 1]),
    decreases s.len(),
{
    if s.len() > 0 && is_blank(s.last()) {
        let rest = s.drop_last();
        lemma_trailing_blanks(rest);
        assert forall|i: int| s.len() - trailing_blanks(s) <= i < s.len() implies is_blank(
            #[trigger] s[i],
        ) by {
            if i < rest.len() {
                assert(rest[i] == s[i]);
            }
        }
    }
}

/// The leading word ends at white space, or at the end.
pub proof fn lemma_word_len(s: Seq<char>)
    ensures
        word_len(s) <= s.len(),
        forall|i: int| 0 <= i < word_len(s) ==> !is_blank(#[trigger] s[i]),
        word_len(s) < s.len() ==> is_blank(s[word_len(s) as int]),
    decreases s.len(),
{
    if s.len() > 0 && !is_blank(s[0]) {
        let rest = s.drop_first();
        lemma_word_len(rest);
        assert forall|i: int| 0 <= i < word_len(s) implies !is_blank(#[trigger] s[i]) by {
            if i > 0 {
                assert(rest[i - 1] == s[i]);
            }
        }
    }
}

/// Only one length splits the leading white space off.
pub proof fn lemma_leading_blanks_unique(s: Seq<char>, n: nat)
    requires
        n <= s.len(),
        forall|i: int| 0 <= i < n ==> is_blank(#[trigger] s[i]),
        n < s.len() ==> !is_blank(s[n as int]),
    ensures
        leading_blanks(s) == n,
{
    lemma_leading_blanks(s);
    if n < leading_blanks(s) {
        assert(is_blank(s[n as int]));
    }
}

/// Only one length splits the trailing white space off.
pub proof fn lemma_trailing_blanks_unique(s: Seq<char>, n: nat)
    requires
        n <= s.len(),
        forall|i: int| s.len() - n <= i < s.len() ==> is_blank(#[trigger] s[i]),
        n < s.len() ==> !is_blank(s[s.len() - n - 1]),
    ensures
        trailing_blanks(s) == n,
{
    lemma_trailing_blanks(s);
    if n < trailing_blanks(s) {
        assert(is_blank(s[s.len() - n - 1]));
    }
}

/// Only one length splits the leading word off.
pub proof fn lemma_word_len_unique(s: Seq<char>, n: nat)
    requires
        n <= s.len(),
        forall|i: int| 0 <= i < n ==> !is_blank(#[trigger] s[i]),
        n < s.len() ==> is_blank(s[n as int]),
    ensures
        word_len(s) == n,
{
    lemma_word_len(s);
    if n < word_len(s) {
        assert(!is_blank(s[n as int]));
    }
}

/// Trimming takes away white space and no more: nothing is left exactly where there was nothing
/// but white space, and what is left neither starts nor ends with it.
pub proof fn law_trimmed(s: Seq<char>)
    ensures
        trimmed(s).len() == 0 <==> (forall|i: int| 0 <= i < s.len() ==> is_blank(#[trigger] s[i])),
        trimmed(s).len() > 0 ==> !is_blank(trimmed(s)[0]) && !is_blank(trimmed(s).last()),
        trimmed(trimmed(s)) == trimmed(s),
{
    lemma_leading_blanks(s);
    let rest = trimmed_start(s);
    lemma_trailing_blanks(rest);
    let res = trimmed(s);
    if rest.len() > 0 {
        let first = leading_blanks(s) as int;
        assert(rest[0] == s[first]);
        assert(res.len() > 0) by {
            if trailing_blanks(rest) == rest.len() {
                assert(is_blank(rest[0]));
            }
        }
        assert(res[0] == rest[0]);
        assert(res.last() == rest[rest.len() - trailing_blanks(rest) - 1]);
        assert(!is_blank(s[first]));
    }
    lemma_leading_blanks_unique(res, 0);
    assert(trimmed_start(res) =~= res);
    lemma_trailing_blanks_unique(res, 0);
    assert(trimmed_end(res) =~= res);
}

/// The text without the white space around it.
pub fn trim(s: &str) -> (res: &str)
    ensures
        res@ == trimmed(s@),
{
    let chars = chars_of(s);
    let mut start: usize = 0;
    while start < chars.len() && blank(chars[start])
        invariant
            start <= chars.len(),
            chars@ == s@,
            forall|i: int| 0 <= i < start ==> is_blank(#[trigger] s@[i]),
        decreases chars.len() - start,
    {
        start = start + 1;
    }
    proof {
        lemma_leading_blanks_unique(s@, start as nat);
    }
    let ghost rest = s@.skip(start as int);
    let mut end: usize = chars.len();
    while end > start && blank(chars[end - 1])
        invariant
            start <= end <= chars.len(),
            chars@ == s@,
            rest == s@.skip(start as int),
            forall|i: int| end - start <= i < rest.len() ==> is_blank(#[trigger] rest[i]),
        decreases end,
    {
        end = end - 1;
    }
    proof {
        lemma_trailing_blanks_unique(rest, (chars.len() - end) as nat);
        assert(s@.subrange(start as int, end as int) =~= rest.take(end - start));
    }
    s.substring_char(start, end)
}

/// The first run of characters that are not white space; empty where there is none.
pub fn leading_word(s: &str) -> (res: &str)
    ensures
        res@ == first_word(s@),
{
    let chars = chars_of(s);
    let mut start: usize = 0;
    while start < chars.len() && blank(chars[start])
        invariant
            start <= chars.len(),
            chars@ == s@,
            forall|i: int| 0 <= i < start ==> is_blank(#[trigger] s@[i]),
        decreases chars.len() - start,
    {
        start = start + 1;
    }
    proof {
        lemma_leading_blanks_unique(s@, start as nat);
    }
    let ghost rest = s@.skip(start as int);
    let mut end: usize = start;
    while end < chars.len() && !blank(chars[end])
        invariant
            start <= end <= chars.len(),
            chars@ == s@,
            rest == s@.skip(start as int),
            forall|i: int| 0 <= i < end - start ==> !is_blank(#[trigger] rest[i]),
        decreases chars.len() - end,
    {
        end = end + 1;
    }
    proof {
        lemma_word_len_unique(rest, (end - start) as nat);
        assert(s@.subrange(start as int, end as int) =~= rest.take(end - start));
    }
    s.substring_char(start, end)
}

/// `pattern` stands in `s` from index `i` on.
pub open spec fn occurs_at(s: Seq<char>, pattern: Seq<char>, i: int) -> bool {
    &&& 0 <= i <= s.len() - pattern.len()
    &&& s.subrange(i, i + pattern.len()) == pattern
}

/// `i` is the first index from which `pattern` stands in `s`.
pub open spec fn first_occurs_at(s: Seq<char>, pattern: Seq<char>, i: int) -> bool {
    &&& occurs_at(s, pattern, i)
    &&& forall|j: int| 0 <= j < i ==> !occurs_at(s, pattern, j)
}

/// The text behind the first place where `pattern` stands in `s`, or nothing where it stands
/// nowhere.
pub open spec fn text_after(s: Seq<char>, pattern: Seq<char>) -> Option<Seq<char>> {
    if exists|i: int| first_occurs_at(s, pattern, i) {
        let i = choose|i: int| first_occurs_at(s, pattern, i);
        Some(s.skip(i + pattern.len()))
    } else {
        None
    }
}

/// Where `i` is the first place of `pattern`, what follows it is the text behind the pattern.
pub proof fn lemma_text_after(s: Seq<char>, pattern: Seq<char>, i: int)
    requires
        first_occurs_at(s, pattern, i),
    ensures
        text_after(s, pattern) == Some(s.skip(i + pattern.len())),
{
    let j = choose|j: int| first_occurs_at(s, pattern, j);
    assert(first_occurs_at(s, pattern, j));
    assert(i == j) by {
        if i < j {
            assert(!occurs_at(s, pattern, i));
        }
        if j < i {
            assert(!occurs_at(s, pattern, j));
        }
    }
}

/// Tells whether `pattern` stands in `s` from index `at` on.
fn stands_at(s: &Vec<char>, pattern: &Vec<char>, at: usize) -> (res: bool)
    requires
        at + pattern.len() <= s.len(),
    ensures
        res == occurs_at(s@, pattern@, at as int),
{
    let mut i: usize = 0;
    while i < pattern.len()
        invariant
            i <= pattern.len(),
            at + pattern.len() <= s.len(),
            forall|k: int| 0 <= k < i ==> s@[at + k] == #[trigger] pattern@[k],
        decreases pattern.len() - i,
    {
        if s[at + i] != pattern[i] {
            assert(s@.subrange(at as int, at + pattern@.len())[i as int] != pattern@[i as int]);
            return false;
        }
        i = i + 1;
    }
    assert(s@.subrange(at as int, at + pattern@.len()) =~= pattern@);
    true
}

/// The text behind the first place where `pattern` stands in `s`.
pub fn after_first<'a>(s: &'a str, pattern: &str) -> (res: Option<&'a str>)
    ensures
        res matches Some(rest) ==> text_after(s@, pattern@) == Some(rest@),
        res is None ==> text_after(s@, pattern@) is None,
{
    let chars = chars_of(s);
    let wanted = chars_of(pattern);
    if wanted.len() > chars.len() {
        return None;
    }
    let last: usize = chars.len() - wanted.len();
    let mut i: usize = 0;
    loop
        invariant
            chars@ == s@,
            wanted@ == pattern@,
            last + wanted.len() == chars.len(),
            i <= last,
            forall|j: int| 0 <= j < i ==> !occurs_at(s@, pattern@, j),
        decreases last - i,
    {
        if stands_at(&chars, &wanted, i) {
            proof {
                lemma_text_after(s@, pattern@, i as int);
                assert(s@.subrange(i + wanted.len(), chars.len() as int) =~= s@.skip(
                    i + wanted.len(),
                ));
            }
            return Some(s.substring_char(i + wanted.len(), chars.len()));
        }
        if i == last {
            return None;
        }
        i = i + 1;
    }
}

/// The decimal digit `d`.
pub open spec fn digit(d: nat) -> char {
    ('0' as int + d) as char
}

/// The decimal notation of `n`.
pub open spec fn decimal(n: nat) -> Seq<char>
    decreases n,
{
    if n < 10 {
        seq![digit(n)]
    } else {
        decimal(n / 10).push(digit(n % 10))
    }
}

/// The decimal notation of `n`.
pub fn decimal_string(n: u32) -> (res: String)
    ensures
        res@ == decimal(n as nat),
    decreases n,
{
    if n < 10 {
        let mut res = String::new();
        res.push((48u8 + n as u8) as char);
        res
    } else {
        let mut res = decimal_string(n / 10);
        res.push((48u8 + (n % 10) as u8) as char);
        res
    }
}

/// The number that a text of decimal digits denotes.
pub open spec fn decimal_value(s: Seq<char>) -> int
    decreases s.len(),
{
    if s.len() == 0 {
        0
    } else {
        10 * decimal_value(s.drop_last()) + (s.last() as int - '0' as int)
    }
}

/// The decimal notation of a number denotes it, so different numbers are written differently;
/// it is made of digits alone, and starts with `0` for zero only.
pub proof fn law_decimal(n: nat)
    ensures
        decimal_value(decimal(n)) == n,
        decimal(n).len() > 0,
        forall|i: int| 0 <= i < decimal(n).len() ==> '0' <= #[trigger] decimal(n)[i] <= '9',
        decimal(n)[0] == '0' <==> n == 0,
    decreases n,
{
    if n >= 10 {
        law_decimal(n / 10);
        assert(decimal(n).drop_last() =~= decimal(n / 10));
        assert(decimal(n)[0] == decimal(n / 10)[0]);
    } else {
        assert(decimal(n).drop_last() =~= Seq::<char>::empty());
        assert(decimal_value(Seq::<char>::empty()) == 0);
        assert(decimal(n)[0] == digit(n));
    }
}

/// White space are the 25 characters to which Unicode gives this property, and no others.
pub proof fn law_white_space(c: char, res: bool)
    requires
        call_ensures(blank, (c,), res),
    ensures
        res == is_blank(c),
        is_blank(c) <==> seq![
            0x9int, 0xa, 0xb, 0xc, 0xd, 0x20, 0x85, 0xa0, 0x1680, 0x2000, 0x2001, 0x2002, 0x2003,
            0x2004, 0x2005, 0x2006, 0x2007, 0x2008, 0x2009, 0x200a, 0x2028, 0x2029, 0x202f, 0x205f,
            0x3000,
        ].contains(c as int),
{
    let points = seq![
        0x9int, 0xa, 0xb, 0xc, 0xd, 0x20, 0x85, 0xa0, 0x1680, 0x2000, 0x2001, 0x2002, 0x2003,
        0x2004, 0x2005, 0x2006, 0x2007, 0x2008, 0x2009, 0x200a, 0x2028, 0x2029, 0x202f, 0x205f,
        0x3000,
    ];
    let n = c as int;
    if is_blank(c) {
        let i: int = if n <= 0xd {
            n - 0x9
        } else if n == 0x20 {
            5
        } else if n == 0x85 {
            6
        } else if n == 0xa0 {
            7
        } else if n == 0x1680 {
            8
        } else if n <= 0x200a {
            9 + n - 0x2000
        } else if n <= 0x2029 {
            20 + n - 0x2028
        } else if n == 0x202f {
            22
        } else if n == 0x205f {
            23
        } else {
            24
        };
        assert(points[i] == n);
    }
}

/// Trimming gives back what stands between the white space on both sides, all of it.
pub proof fn law_trim<'a>(
    front: Seq<char>,
    middle: Seq<char>,
    back: Seq<char>,
    s: &'a str,
    res: &'a str,
)
    requires
        call_ensures(trim, (s,), res),
        s@ == front + middle + back,
        forall|i: int| 0 <= i < front.len() ==> is_blank(#[trigger] front[i]),
        forall|i: int| 0 <= i < back.len() ==> is_blank(#[trigger] back[i]),
        middle.len() == 0 || (!is_blank(middle[0]) && !is_blank(middle.last())),
    ensures
        res@ == middle,
{
    lemma_trimmed_middle(front, middle, back);
}

/// What stands between the white space on both sides is the trimmed text.
pub proof fn lemma_trimmed_middle(front: Seq<char>, middle: Seq<char>, back: Seq<char>)
    requires
        forall|i: int| 0 <= i < front.len() ==> is_blank(#[trigger] front[i]),
        forall|i: int| 0 <= i < back.len() ==> is_blank(#[trigger] back[i]),
        middle.len() == 0 || (!is_blank(middle[0]) && !is_blank(middle.last())),
    ensures
        trimmed(front + middle + back) == middle,
{
    let s = front + middle + back;
    if middle.len() == 0 {
        assert forall|i: int| 0 <= i < s.len() implies is_blank(#[trigger] s[i]) by {
            if i < front.len() {
                assert(s[i] == front[i]);
            } else {
                assert(s[i] == back[i - front.len()]);
            }
        }
        law_trimmed(s);
        assert(trimmed(s) =~= middle);
    } else {
        assert forall|i: int| 0 <= i < front.len() implies is_blank(#[trigger] s[i]) by {
            assert(s[i] == front[i]);
        }
        assert(s[front.len() as int] == middle[0]);
        lemma_leading_blanks_unique(s, front.len());
        let rest = trimmed_start(s);
        assert(rest =~= middle + back);
        assert forall|i: int| rest.len() - back.len() <= i < rest.len() implies is_blank(
            #[trigger] rest[i],
        ) by {
            assert(rest[i] == back[i - middle.len()]);
        }
        assert(rest[middle.len() - 1] == middle.last());
        lemma_trailing_blanks_unique(rest, back.len());
        assert(trimmed(s) =~= middle);
    }
}

/// The leading word is all that stands between the white space in front of it and the next white
/// space, or the end.
pub proof fn law_leading_word<'a>(
    blanks: Seq<char>,
    word: Seq<char>,
    rest: Seq<char>,
    s: &'a str,
    res: &'a str,
)
    requires
        call_ensures(leading_word, (s,), res),
        s@ == blanks + word + rest,
        forall|i: int| 0 <= i < blanks.len() ==> is_blank(#[trigger] blanks[i]),
        forall|i: int| 0 <= i < word.len() ==> !is_blank(#[trigger] word[i]),
        rest.len() == 0 || (word.len() > 0 && is_blank(rest[0])),
    ensures
        res@ == word,
{
    lemma_first_word(blanks, word, rest);
}

/// The first word stands behind the white space in front, and ends at the next white space.
pub proof fn lemma_first_word(blanks: Seq<char>, word: Seq<char>, rest: Seq<char>)
    requires
        forall|i: int| 0 <= i < blanks.len() ==> is_blank(#[trigger] blanks[i]),
        forall|i: int| 0 <= i < word.len() ==> !is_blank(#[trigger] word[i]),
        rest.len() == 0 || (word.len() > 0 && is_blank(rest[0])),
    ensures
        first_word(blanks + word + rest) == word,
{
    let s = blanks + word + rest;
    assert forall|i: int| 0 <= i < blanks.len() implies is_blank(#[trigger] s[i]) by {
        assert(s[i] == blanks[i]);
    }
    if word.len() > 0 {
        assert(s[blanks.len() as int] == word[0]);
    }
    lemma_leading_blanks_unique(s, blanks.len());
    let words = word + rest;
    assert(s.skip(blanks.len() as int) =~= words);
    assert forall|i: int| 0 <= i < word.len() implies !is_blank(#[trigger] words[i]) by {
        assert(words[i] == word[i]);
    }
    lemma_word_len_unique(words, word.len());
    assert(words.take(word.len() as int) =~= word);
}

/// Behind the first place of a pattern stands all the rest of the text.
pub proof fn law_after_first<'a>(
    front: Seq<char>,
    rest: Seq<char>,
    s: &'a str,
    pattern: &str,
    res: Option<&'a str>,
)
    requires
        call_ensures(after_first, (s, pattern), res),
        s@ == front + pattern@ + rest,
        forall|j: int|
            0 <= j < front.len() ==> #[trigger] s@.subrange(j, j + pattern@.len()) != pattern@,
    ensures
        res matches Some(text) && text@ == rest,
{
    lemma_text_behind(front, pattern@, rest);
}

/// A text in which the pattern stands nowhere has nothing behind it.
pub proof fn law_after_first_nowhere<'a>(s: &'a str, pattern: &str, res: Option<&'a str>)
    requires
        call_ensures(after_first, (s, pattern), res),
        forall|j: int|
            0 <= j <= s@.len() - pattern@.len() ==> #[trigger] s@.subrange(j, j + pattern@.len())
                != pattern@,
    ensures
        res is None,
{
    lemma_text_nowhere(s@, pattern@);
}

/// Where no earlier place holds the pattern, the text behind it is what follows.
pub proof fn lemma_text_behind(front: Seq<char>, pattern: Seq<char>, rest: Seq<char>)
    requires
        forall|j: int|
            0 <= j < front.len() ==> #[trigger] (front + pattern + rest).subrange(
                j,
                j + pattern.len(),
            ) != pattern,
    ensures
        text_after(front + pattern + rest, pattern) == Some(rest),
{
    let s = front + pattern + rest;
    let at = front.len() as int;
    assert(s.subrange(at, at + pattern.len()) =~= pattern);
    assert(first_occurs_at(s, pattern, at));
    lemma_text_after(s, pattern, at);
    assert(s.skip(at + pattern.len()) =~= rest);
}

/// Where no place holds the pattern, there is no text behind it.
pub proof fn lemma_text_nowhere(s: Seq<char>, pattern: Seq<char>)
    requires
        forall|j: int|
            0 <= j <= s.len() - pattern.len() ==> #[trigger] s.subrange(j, j + pattern.len())
                != pattern,
    ensures
        text_after(s, pattern) is None,
{
}

/// A number below ten is written as its digit, and every other number as the number without its
/// last digit, followed by that digit.
pub proof fn law_decimal_digits(n: u32, res: String)
    requires
        call_ensures(decimal_string, (n,), res),
    ensures
        res@ == decimal(n as nat),
        forall|m: nat|
            (#[trigger] decimal(m)) == if m < 10 {
                seq!["0123456789"@[m as int]]
            } else {
                decimal(m / 10).push("0123456789"@[m as int % 10])
            },
{
    reveal_strlit("0123456789");
    assert forall|m: nat| (#[trigger] decimal(m)) == if m < 10 {
        seq!["0123456789"@[m as int]]
    } else {
        decimal(m / 10).push("0123456789"@[m as int % 10])
    } by {
        let d = m % 10;
        assert(d == 0 || d == 1 || d == 2 || d == 3 || d == 4 || d == 5 || d == 6 || d == 7 || d
            == 8 || d == 9);
        assert(digit(d) == "0123456789"@[d as int]);
        if m < 10 {
            assert(decimal(m) =~= seq!["0123456789"@[m as int]]);
        }
    }
}

} // verus!
