use vstd::prelude::*;

verus! {

/// The delimiters that the scope combinators check.
#[derive(Debug, PartialEq, Eq, Clone, Copy, Structural)]
pub enum DelimiterKind {
    CurlyBrace,
    Parenthesis,
    SquareBracket,
    Colon,
}

/// The broad class of a diagnostic.
#[derive(Debug, PartialEq, Eq, Clone, Copy, Structural)]
pub enum NenyrErrorKind {
    /// A boundary check of a combinator failed.
    SyntaxError,
    /// The token source could not produce a next token.
    LexicalError,
}

/// The precise rule whose check failed.
#[derive(Debug, PartialEq, Eq, Clone, Copy, Structural)]
pub enum FailedRule {
    MissingOpenDelimiter(DelimiterKind),
    MissingCloseDelimiter(DelimiterKind),
    MissingSeparator,
    UnexpectedEndOfInput,
    UnrecognizedInput,
}

/// A snapshot of where the cursor stood when a diagnostic was made.
#[derive(Debug, PartialEq, Clone)]
pub struct NenyrErrorTracing {
    /// Index of the current token in the token stream.
    pub position: usize,
    /// The text of the last few tokens read, ending with the current one.
    pub recent_tokens: Vec<String>,
}

/// A located diagnostic with an optional suggestion for a fix.
#[derive(Debug, PartialEq, Clone)]
pub struct NenyrError {
    pub suggestion: Option<String>,
    pub context_name: Option<String>,
    pub context_path: String,
    pub error_message: String,
    pub error_kind: NenyrErrorKind,
    pub failed_rule: FailedRule,
    pub tracing: NenyrErrorTracing,
}

pub type NenyrResult<T> = Result<T, NenyrError>;

impl NenyrError {
    /// Builds a diagnostic from all of its parts at once.
    pub fn new(
        suggestion: Option<String>,
        context_name: Option<String>,
        context_path: String,
        error_message: String,
        error_kind: NenyrErrorKind,
        failed_rule: FailedRule,
        tracing: NenyrErrorTracing,
    ) -> (r: NenyrError)
        ensures
            r.suggestion == suggestion,
            r.context_name == context_name,
            r.context_path == context_path,
            r.error_message == error_message,
            r.error_kind == error_kind,
            r.failed_rule == failed_rule,
            r.tracing == tracing,
    {
        NenyrError {
            suggestion,
            context_name,
            context_path,
            error_message,
            error_kind,
            failed_rule,
            tracing,
        }
    }
}

/// Relies on `String::push_str`: the text of `tail` is added at the end of `s`.
#[verifier::external_body]
pub(crate) fn append(s: String, tail: &str) -> (r: String)
    ensures
        r@ == s@ + tail@,
{
    let mut s = s;
    s.push_str(tail);
    s
}

} // verus!
