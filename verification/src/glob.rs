//! Patterns in which `*` stands for any run of characters. A backslash
//! takes the special meaning from the character behind it, so `\*` is a
//! star and `\\` a backslash; a backslash at the end of a pattern has
//! nothing behind it, and the pattern is malformed.

use crate::text::chars_of;
use vstd::prelude::*;

verus! {

/// A part of a pattern: a star, or a character that stands for itself.
#[derive(Debug, PartialEq, Eq, Clone, Copy, Structural)]
pub enum GlobToken {
    Star,
    Literal(char),
}

impl GlobToken {
    /// The part that stands for the character `c` itself.
    pub open spec fn literal(c: char) -> GlobToken {
        GlobToken::Literal(c)
    }

    /// The part that an unescaped character of a pattern is: a star, or the
    /// character itself.
    pub open spec fn unescaped(c: char) -> GlobToken {
        if c == '*' {
            GlobToken::Star
        } else {
            GlobToken::Literal(c)
        }
    }
}

/// The parts of a pattern, in order; nothing where the pattern ends in a
/// backslash that escapes nothing.
pub open spec fn glob_tokens(pattern: Seq<char>) -> Option<Seq<GlobToken>>
    decreases pattern.len(),
{
    if pattern.len() == 0 {
        Some(Seq::empty())
    } else if pattern[0] == '\\' {
        if pattern.len() < 2 {
            None
        } else {
            match glob_tokens(pattern.skip(2)) {
                Some(rest) => Some(seq![GlobToken::literal(pattern[1])] + rest),
                None => None,
            }
        }
    } else {
        match glob_tokens(pattern.skip(1)) {
            Some(rest) => Some(seq![GlobToken::unescaped(pattern[0])] + rest),
            None => None,
        }
    }
}

/// Whether the parts of a pattern cover a text from its first character to
/// its last: a literal covers one character, itself, and a star any run of
/// characters, also none.
pub open spec fn tokens_match(tokens: Seq<GlobToken>, text: Seq<char>) -> bool
    decreases tokens.len(), text.len(),
{
    if tokens.len() == 0 {
        text.len() == 0
    } else {
        match tokens[0] {
            GlobToken::Star => tokens_match(tokens.drop_first(), text) || (text.len() > 0
                && tokens_match(tokens, text.drop_first())),
            GlobToken::Literal(c) => text.len() > 0 && text[0] == c && tokens_match(
                tokens.drop_first(),
                text.drop_first(),
            ),
        }
    }
}

/// Whether a pattern covers a text; nothing where the pattern is malformed.
pub open spec fn string_matches(pattern: Seq<char>, text: Seq<char>) -> Option<bool> {
    match glob_tokens(pattern) {
        Some(tokens) => Some(tokens_match(tokens, text)),
        None => None,
    }
}

/// A part put behind a run of parts and before any other run is the same
/// put as the first of that other run.
pub proof fn lemma_push_front(before: Seq<GlobToken>, first: GlobToken)
    ensures
        forall|rest: Seq<GlobToken>| #[trigger] (before.push(first) + rest) == before + (seq![first] + rest),
{
    assert forall|rest: Seq<GlobToken>| #[trigger] (before.push(first) + rest) == before + (seq![first] + rest) by {
        assert(before.push(first) + rest =~= before + (seq![first] + rest));
    }
}

/// The parts of a pattern, in order; nothing where the pattern is
/// malformed.
pub fn tokenize(pattern: &Vec<char>) -> (res: Option<Vec<GlobToken>>)
    ensures
        match glob_tokens(pattern@) {
            Some(tokens) => res matches Some(found) && found@ == tokens,
            None => res is None,
        },
{
    let mut tokens: Vec<GlobToken> = Vec::new();
    let mut i: usize = 0;
    assert(pattern@.skip(0) =~= pattern@);
    while i < pattern.len()
        invariant
            i <= pattern.len(),
            glob_tokens(pattern@) == match glob_tokens(pattern@.skip(i as int)) {
                Some(rest) => Some(tokens@ + rest),
                None => None,
            },
        decreases pattern.len() - i,
    {
        let ghost tail = pattern@.skip(i as int);
        let ghost before = tokens@;
        assert(tail[0] == pattern@[i as int]);
        if pattern[i] == '\\' {
            if i + 1 >= pattern.len() {
                return None;
            }
            assert(tail[1] == pattern@[i + 1]);
            assert(tail.skip(2) =~= pattern@.skip(i + 2));
            tokens.push(GlobToken::Literal(pattern[i + 1]));
            proof {
                lemma_push_front(before, GlobToken::Literal(pattern@[i + 1]));
            }
            i += 2;
        } else {
            assert(tail.skip(1) =~= pattern@.skip(i + 1));
            let first = if pattern[i] == '*' {
                GlobToken::Star
            } else {
                GlobToken::Literal(pattern[i])
            };
            tokens.push(first);
            proof {
                lemma_push_front(before, first);
            }
            i += 1;
        }
    }
    assert(tokens@ + Seq::<GlobToken>::empty() =~= tokens@);
    Some(tokens)
}

/// Whether the parts of a pattern cover a text.
pub fn match_tokens(tokens: &Vec<GlobToken>, text: &Vec<char>) -> (res: bool)
    ensures
        res == tokens_match(tokens@, text@),
{
    let n: usize = text.len();
    // With the parts from `i` on: `row[j]` tells whether they cover the text
    // from `j` on, and `last` whether they cover the empty text.
    let mut row: Vec<bool> = Vec::new();
    while row.len() < n
        invariant
            n == text.len(),
            row.len() <= n,
            forall|k: int| 0 <= k < row.len() ==> !row@[k],
        decreases n - row.len(),
    {
        row.push(false);
    }
    let mut last: bool = true;
    let mut i: usize = tokens.len();
    proof {
        assert(tokens@.skip(i as int).len() == 0);
        assert forall|k: int| 0 <= k <= n implies covers(tokens@, text@, i as int, k) == (k == n) by {
            assert(text@.skip(k).len() == n - k);
        }
    }
    while i > 0
        invariant
            i <= tokens.len(),
            n == text.len(),
            row.len() == n,
            forall|k: int| 0 <= k < n ==> row@[k] == covers(tokens@, text@, i as int, k),
            last == covers(tokens@, text@, i as int, n as int),
        decreases i,
    {
        i -= 1;
        let token = tokens[i];
        let ghost below = row@;
        let ghost below_last = last;
        proof {
            assert forall|k: int| 0 <= k <= n implies #[trigger] covers(tokens@, text@, i as int, k)
                == step(token, text@, k, covers(tokens@, text@, i + 1, k), covers(
                tokens@,
                text@,
                i + 1,
                k + 1,
            ), covers(tokens@, text@, i as int, k + 1)) by {
                lemma_covers_step(tokens@, text@, i as int, k);
            }
        }
        let mut under: bool = last;
        last =
        match token {
            GlobToken::Star => last,
            GlobToken::Literal(_) => false,
        };
        let mut beside: bool = last;
        let mut j: usize = n;
        while j > 0
            invariant
                j <= n,
                n == text.len(),
                row.len() == n,
                below.len() == n,
                i < tokens.len(),
                token == tokens@[i as int],
                forall|k: int| 0 <= k < n ==> below[k] == covers(tokens@, text@, i + 1, k),
                below_last == covers(tokens@, text@, i + 1, n as int),
                forall|k: int|
                    0 <= k <= n ==> #[trigger] covers(tokens@, text@, i as int, k) == step(
                        token,
                        text@,
                        k,
                        covers(tokens@, text@, i + 1, k),
                        covers(tokens@, text@, i + 1, k + 1),
                        covers(tokens@, text@, i as int, k + 1),
                    ),
                forall|k: int| 0 <= k < j ==> row@[k] == below[k],
                forall|k: int| j <= k < n ==> row@[k] == covers(tokens@, text@, i as int, k),
                last == covers(tokens@, text@, i as int, n as int),
                under == covers(tokens@, text@, i + 1, j as int),
                beside == covers(tokens@, text@, i as int, j as int),
            decreases j,
        {
            j -= 1;
            let old: bool = row[j];
            let covered: bool = match token {
                GlobToken::Star => old || beside,
                GlobToken::Literal(c) => text[j] == c && under,
            };
            proof {
                assert(old == below[j as int]);
                assert(covered == step(
                    token,
                    text@,
                    j as int,
                    covers(tokens@, text@, i + 1, j as int),
                    covers(tokens@, text@, i + 1, j + 1),
                    covers(tokens@, text@, i as int, j + 1),
                ));
                assert(covered == covers(tokens@, text@, i as int, j as int));
            }
            row.set(j, covered);
            under = old;
            beside = covered;
        }
    }
    proof {
        assert(tokens@.skip(0) =~= tokens@);
        assert(text@.skip(0) =~= text@);
    }
    if n == 0 {
        last
    } else {
        row[0]
    }
}

/// Whether the parts of a pattern from place `i` on cover the text from
/// place `j` on.
pub open spec fn covers(tokens: Seq<GlobToken>, text: Seq<char>, i: int, j: int) -> bool {
    tokens_match(tokens.skip(i), text.skip(j))
}

/// Whether a part and what follows it cover the text from place `j` on,
/// given whether what follows the part covers the text from `j` on
/// (`under`) and from `j + 1` on (`under_next`), and whether the part and
/// what follows it cover the text from `j + 1` on (`beside`).
pub open spec fn step(
    token: GlobToken,
    text: Seq<char>,
    j: int,
    under: bool,
    under_next: bool,
    beside: bool,
) -> bool {
    match token {
        GlobToken::Star => under || (j < text.len() && beside),
        GlobToken::Literal(c) => j < text.len() && text[j] == c && under_next,
    }
}

/// How covering from one part on follows from covering from the next part
/// on.
pub proof fn lemma_covers_step(tokens: Seq<GlobToken>, text: Seq<char>, i: int, j: int)
    requires
        0 <= i < tokens.len(),
        0 <= j <= text.len(),
    ensures
        covers(tokens, text, i, j) == step(
            tokens[i],
            text,
            j,
            covers(tokens, text, i + 1, j),
            covers(tokens, text, i + 1, j + 1),
            covers(tokens, text, i, j + 1),
        ),
{
    let here = tokens.skip(i);
    let rest = text.skip(j);
    assert(here[0] == tokens[i]);
    assert(here.drop_first() =~= tokens.skip(i + 1));
    assert(rest.len() == text.len() - j);
    if j < text.len() {
        assert(rest[0] == text[j]);
        assert(rest.drop_first() =~= text.skip(j + 1));
    }
}

/// Whether `pattern` covers `text`; nothing where the pattern is
/// malformed.
pub fn glob_match(pattern: &str, text: &str) -> (res: Option<bool>)
    ensures
        res == string_matches(pattern@, text@),
{
    let pattern_chars = chars_of(pattern);
    let text_chars = chars_of(text);
    match tokenize(&pattern_chars) {
        None => None,
        Some(tokens) => {
            Some(match_tokens(&tokens, &text_chars))
        },
    }
}

/// Whether a text holds neither a star nor a backslash.
pub open spec fn plain(text: Seq<char>) -> bool {
    forall|i: int| 0 <= i < text.len() ==> text[i] != '*' && text[i] != '\\'
}

/// The characters of a text as parts that each stand for themselves.
pub open spec fn literals(text: Seq<char>) -> Seq<GlobToken>
    decreases text.len(),
{
    if text.len() == 0 {
        Seq::empty()
    } else {
        seq![GlobToken::literal(text[0])] + literals(text.skip(1))
    }
}

/// The parts of a pattern without star and backslash are its characters.
pub proof fn lemma_plain_tokens(pattern: Seq<char>)
    requires
        plain(pattern),
    ensures
        glob_tokens(pattern) == Some(literals(pattern)),
    decreases pattern.len(),
{
    if pattern.len() > 0 {
        let rest = pattern.skip(1);
        assert forall|i: int| 0 <= i < rest.len() implies rest[i] != '*' && rest[i] != '\\' by {
            assert(rest[i] == pattern[i + 1]);
        }
        lemma_plain_tokens(rest);
    }
}

/// Parts that each stand for themselves cover one text: the one that they
/// spell.
pub proof fn lemma_literals_match(pattern: Seq<char>, text: Seq<char>)
    ensures
        tokens_match(literals(pattern), text) <==> text == pattern,
    decreases pattern.len(),
{
    let tokens = literals(pattern);
    if pattern.len() == 0 {
        if text.len() == 0 {
            assert(text =~= pattern);
        }
    } else {
        assert(tokens[0] == GlobToken::literal(pattern[0]));
        assert(tokens.drop_first() =~= literals(pattern.skip(1)));
        if text.len() > 0 {
            lemma_literals_match(pattern.skip(1), text.drop_first());
            if text[0] == pattern[0] && text.drop_first() == pattern.skip(1) {
                assert(text =~= seq![text[0]] + text.drop_first());
                assert(pattern =~= seq![pattern[0]] + pattern.skip(1));
            }
            if text == pattern {
                assert(text.drop_first() =~= pattern.skip(1));
            }
        }
    }
}

/// A pattern without star and backslash covers itself and no other text.
pub proof fn lemma_plain_pattern(pattern: Seq<char>, text: Seq<char>)
    requires
        plain(pattern),
    ensures
        string_matches(pattern, text) == Some(text == pattern),
{
    lemma_plain_tokens(pattern);
    lemma_literals_match(pattern, text);
}

/// A text without star and backslash, taken as a pattern, covers itself,
/// and does not cover itself with a character behind it that it does not
/// hold.
pub proof fn lemma_glob_round_trip(text: Seq<char>, c: char)
    requires
        plain(text),
        !text.contains(c),
    ensures
        string_matches(text, text) == Some(true),
        string_matches(text, text.push(c)) == Some(false),
{
    lemma_plain_pattern(text, text);
    lemma_plain_pattern(text, text.push(c));
    assert(text.push(c).len() != text.len());
}

} // verus!
