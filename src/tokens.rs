use vstd::prelude::*;

use crate::error::append;

verus! {

/// The mathematical value of a token: the same variants, with text as `Seq<char>`.
pub enum TokenView {
    StartOfFile,
    CurlyBracketOpen,
    CurlyBracketClose,
    ParenthesisOpen,
    ParenthesisClose,
    SquareBracketOpen,
    SquareBracketClose,
    Colon,
    Semicolon,
    Comma,
    Identifier(Seq<char>),
    StringLiteral(Seq<char>),
    EndOfLine,
}

/// A lexical unit of a Nenyr document.
#[derive(Debug, PartialEq, Clone)]
pub enum NenyrTokens {
    /// Before the first call to advance: no token has been read yet.
    StartOfFile,
    CurlyBracketOpen,
    CurlyBracketClose,
    ParenthesisOpen,
    ParenthesisClose,
    SquareBracketOpen,
    SquareBracketClose,
    Colon,
    Semicolon,
    Comma,
    /// A run of word characters: letters, digits and `_ - . # %`.
    Identifier(String),
    /// The text between two double quotes.
    StringLiteral(String),
    /// The end of the token stream.
    EndOfLine,
}

impl View for NenyrTokens {
    type V = TokenView;

    open spec fn view(&self) -> TokenView {
        match self {
            NenyrTokens::StartOfFile => TokenView::StartOfFile,
            NenyrTokens::CurlyBracketOpen => TokenView::CurlyBracketOpen,
            NenyrTokens::CurlyBracketClose => TokenView::CurlyBracketClose,
            NenyrTokens::ParenthesisOpen => TokenView::ParenthesisOpen,
            NenyrTokens::ParenthesisClose => TokenView::ParenthesisClose,
            NenyrTokens::SquareBracketOpen => TokenView::SquareBracketOpen,
            NenyrTokens::SquareBracketClose => TokenView::SquareBracketClose,
            NenyrTokens::Colon => TokenView::Colon,
            NenyrTokens::Semicolon => TokenView::Semicolon,
            NenyrTokens::Comma => TokenView::Comma,
            NenyrTokens::Identifier(s) => TokenView::Identifier(s@),
            NenyrTokens::StringLiteral(s) => TokenView::StringLiteral(s@),
            NenyrTokens::EndOfLine => TokenView::EndOfLine,
        }
    }
}

/// How a token is shown inside a diagnostic message.
pub open spec fn token_text(t: TokenView) -> Seq<char> {
    match t {
        TokenView::StartOfFile => "start of file"@,
        TokenView::CurlyBracketOpen => "{"@,
        TokenView::CurlyBracketClose => "}"@,
        TokenView::ParenthesisOpen => "("@,
        TokenView::ParenthesisClose => ")"@,
        TokenView::SquareBracketOpen => "["@,
        TokenView::SquareBracketClose => "]"@,
        TokenView::Colon => ":"@,
        TokenView::Semicolon => ";"@,
        TokenView::Comma => ","@,
        TokenView::Identifier(s) => s,
        TokenView::StringLiteral(s) => "\""@ + s + "\""@,
        TokenView::EndOfLine => "end of input"@,
    }
}

impl NenyrTokens {
    /// The text of this token as it appears in diagnostics.
    pub fn lexeme(&self) -> (r: String)
        ensures
            r@ == token_text(self@),
    {
        match self {
            NenyrTokens::StartOfFile => "start of file".to_owned(),
            NenyrTokens::CurlyBracketOpen => "{".to_owned(),
            NenyrTokens::CurlyBracketClose => "}".to_owned(),
            NenyrTokens::ParenthesisOpen => "(".to_owned(),
            NenyrTokens::ParenthesisClose => ")".to_owned(),
            NenyrTokens::SquareBracketOpen => "[".to_owned(),
            NenyrTokens::SquareBracketClose => "]".to_owned(),
            NenyrTokens::Colon => ":".to_owned(),
            NenyrTokens::Semicolon => ";".to_owned(),
            NenyrTokens::Comma => ",".to_owned(),
            NenyrTokens::Identifier(s) => s.clone(),
            NenyrTokens::StringLiteral(s) => {
                let quoted = append("\"".to_owned(), s.as_str());
                append(quoted, "\"")
            },
            NenyrTokens::EndOfLine => "end of input".to_owned(),
        }
    }
}

} // verus!
