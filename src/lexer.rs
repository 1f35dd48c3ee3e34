use vstd::prelude::*;
use vstd::std_specs::iter::IteratorSpec;

use crate::tokens::{NenyrTokens, TokenView};

verus! {

pub open spec fn is_blank(c: char) -> bool {
    c == ' ' || c == '\t' || c == '\n' || c == '\r'
}

/// Characters that make up an identifier.
pub open spec fn is_word_char(c: char) -> bool {
    ('a' <= c && c <= 'z') || ('A' <= c && c <= 'Z') || ('0' <= c && c <= '9') || c == '_' || c
        == '-' || c == '.' || c == '#' || c == '%'
}

/// The single-character token that `c` stands for, if any.
pub open spec fn punctuation(c: char) -> Option<TokenView> {
    if c == '{' {
        Some(TokenView::CurlyBracketOpen)
    } else if c == '}' {
        Some(TokenView::CurlyBracketClose)
    } else if c == '(' {
        Some(TokenView::ParenthesisOpen)
    } else if c == ')' {
        Some(TokenView::ParenthesisClose)
    } else if c == '[' {
        Some(TokenView::SquareBracketOpen)
    } else if c == ']' {
        Some(TokenView::SquareBracketClose)
    } else if c == ':' {
        Some(TokenView::Colon)
    } else if c == ';' {
        Some(TokenView::Semicolon)
    } else if c == ',' {
        Some(TokenView::Comma)
    } else {
        None
    }
}

/// The index just past the run of word characters that starts at `i`.
pub open spec fn word_end(s: Seq<char>, i: int) -> int
    decreases s.len() - i,
{
    if 0 <= i < s.len() && is_word_char(s[i]) {
        word_end(s, i + 1)
    } else {
        i
    }
}

/// The index of the first double quote at or after `i`, or the length of `s`.
pub open spec fn quote_end(s: Seq<char>, i: int) -> int
    decreases s.len() - i,
{
    if 0 <= i < s.len() && s[i] != '"' {
        quote_end(s, i + 1)
    } else {
        i
    }
}

/// The tokens of `s` from index `i` on, and whether all of the text could be read.
/// A complete stream ends with `EndOfLine`; an incomplete one stops before the
/// first character that starts no token.
pub open spec fn lex_from(s: Seq<char>, i: int) -> (Seq<TokenView>, bool)
    decreases s.len() - i,
{
    if i < 0 || i >= s.len() {
        (seq![TokenView::EndOfLine], true)
    } else if is_blank(s[i]) {
        lex_from(s, i + 1)
    } else if punctuation(s[i]) is Some {
        let rest = lex_from(s, i + 1);
        (seq![punctuation(s[i])->0] + rest.0, rest.1)
    } else if is_word_char(s[i]) {
        let e = word_end(s, i);
        if i < e <= s.len() {
            let rest = lex_from(s, e);
            (seq![TokenView::Identifier(s.subrange(i, e))] + rest.0, rest.1)
        } else {
            (seq![], false)
        }
    } else if s[i] == '"' {
        let e = quote_end(s, i + 1);
        if i < e < s.len() {
            let rest = lex_from(s, e + 1);
            (seq![TokenView::StringLiteral(s.subrange(i + 1, e))] + rest.0, rest.1)
        } else {
            (seq![], false)
        }
    } else {
        (seq![], false)
    }
}

pub open spec fn views(tokens: Seq<NenyrTokens>) -> Seq<TokenView> {
    tokens.map_values(|t: NenyrTokens| t@)
}

fn blank(c: char) -> (r: bool)
    ensures
        r == is_blank(c),
{
    c == ' ' || c == '\t' || c == '\n' || c == '\r'
}

fn word_char(c: char) -> (r: bool)
    ensures
        r == is_word_char(c),
{
    ('a' <= c && c <= 'z') || ('A' <= c && c <= 'Z') || ('0' <= c && c <= '9') || c == '_' || c
        == '-' || c == '.' || c == '#' || c == '%'
}

fn punctuation_token(c: char) -> (r: Option<NenyrTokens>)
    ensures
        match r {
            Some(t) => punctuation(c) == Some(t@),
            None => punctuation(c) is None,
        },
{
    if c == '{' {
        Some(NenyrTokens::CurlyBracketOpen)
    } else if c == '}' {
        Some(NenyrTokens::CurlyBracketClose)
    } else if c == '(' {
        Some(NenyrTokens::ParenthesisOpen)
    } else if c == ')' {
        Some(NenyrTokens::ParenthesisClose)
    } else if c == '[' {
        Some(NenyrTokens::SquareBracketOpen)
    } else if c == ']' {
        Some(NenyrTokens::SquareBracketClose)
    } else if c == ':' {
        Some(NenyrTokens::Colon)
    } else if c == ';' {
        Some(NenyrTokens::Semicolon)
    } else if c == ',' {
        Some(NenyrTokens::Comma)
    } else {
        None
    }
}

/// Relies on `String::push`: `c` is added at the end of `s`.
#[verifier::external_body]
fn push_char(s: String, c: char) -> (r: String)
    ensures
        r@ == s@.push(c),
{
    let mut s = s;
    s.push(c);
    s
}

/// The characters of `s`, in order.
fn chars_of(s: &str) -> (r: Vec<char>)
    ensures
        r@ == s@,
{
    broadcast use vstd::string::axiom_spec_iter, vstd::string::next_postcondition;

    let mut chars = s.chars();
    let mut out: Vec<char> = Vec::new();
    loop
        invariant
            chars.obeys_prophetic_iter_laws(),
            out@ + chars.remaining() == s@,
            chars.decrease() is Some,
        decreases chars.decrease()->0,
    {
        match chars.next() {
            Some(c) => {
                out.push(c);
                assert(out@ + chars.remaining() =~= s@);
            },
            None => {
                assert(out@ =~= s@);
                return out;
            },
        }
    }
}

/// Splits `source` into tokens. The flag is false when the text holds a
/// character that starts no token, or a string literal that is never closed.
pub fn tokenize(source: &str) -> (r: (Vec<NenyrTokens>, bool))
    ensures
        views(r.0@) == lex_from(source@, 0).0,
        r.1 == lex_from(source@, 0).1,
{
    let ghost s = source@;
    let chars = chars_of(source);
    let n = chars.len();
    let mut tokens: Vec<NenyrTokens> = Vec::new();
    let mut i: usize = 0;
    loop
        invariant
            s == source@,
            chars@ == s,
            n == s.len(),
            i <= n,
            views(tokens@) + lex_from(s, i as int).0 == lex_from(s, 0).0,
            lex_from(s, i as int).1 == lex_from(s, 0).1,
        decreases n - i,
    {
        let ghost before = tokens@;
        if i >= n {
            tokens.push(NenyrTokens::EndOfLine);
            assert(views(tokens@) =~= views(before) + seq![TokenView::EndOfLine]);
            return (tokens, true);
        }
        let c = chars[i];
        if blank(c) {
            i = i + 1;
        } else if let Some(t) = punctuation_token(c) {
            let ghost rest = lex_from(s, i + 1);
            tokens.push(t);
            assert(views(tokens@) =~= views(before).push(t@));
            assert(views(tokens@) + rest.0 =~= views(before) + (seq![t@] + rest.0));
            i = i + 1;
        } else if word_char(c) {
            let mut text = push_char(String::new(), c);
            let mut j: usize = i + 1;
            while j < n && word_char(chars[j])
                invariant
                    chars@ == s,
                    n == s.len(),
                    i < j <= n,
                    word_end(s, i as int) == word_end(s, j as int),
                    text@ == s.subrange(i as int, j as int),
                decreases n - j,
            {
                text = push_char(text, chars[j]);
                j = j + 1;
                assert(text@ =~= s.subrange(i as int, j as int));
            }
            let t = NenyrTokens::Identifier(text);
            let ghost rest = lex_from(s, j as int);
            tokens.push(t);
            assert(views(tokens@) =~= views(before).push(t@));
            assert(views(tokens@) + rest.0 =~= views(before) + (seq![t@] + rest.0));
            i = j;
        } else if c == '"' {
            let mut text = String::new();
            let mut j: usize = i + 1;
            while j < n && chars[j] != '"'
                invariant
                    chars@ == s,
                    n == s.len(),
                    i < j <= n,
                    quote_end(s, i + 1) == quote_end(s, j as int),
                    text@ == s.subrange(i + 1, j as int),
                decreases n - j,
            {
                text = push_char(text, chars[j]);
                j = j + 1;
                assert(text@ =~= s.subrange(i + 1, j as int));
            }
            if j >= n {
                return (tokens, false);
            }
            assert(text@ =~= s.subrange(i + 1, j as int));
            let t = NenyrTokens::StringLiteral(text);
            let ghost rest = lex_from(s, j + 1);
            tokens.push(t);
            assert(views(tokens@) =~= views(before).push(t@));
            assert(views(tokens@) + rest.0 =~= views(before) + (seq![t@] + rest.0));
            i = j + 1;
        } else {
            assert(views(tokens@) =~= views(tokens@) + lex_from(s, i as int).0);
            return (tokens, false);
        }
    }
}

} // verus!
