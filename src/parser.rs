use vstd::prelude::*;

use crate::error::{append, FailedRule, NenyrError, NenyrErrorKind, NenyrErrorTracing, NenyrResult};
use crate::lexer::{lex_from, tokenize, views};
use crate::tokens::{token_text, NenyrTokens, TokenView};

verus! {

/// How many tokens, ending with the current one, a diagnostic's trace keeps.
pub const TRACE_WINDOW: usize = 4;

/// The message of a diagnostic raised when no next token can be read.
pub open spec fn advance_failure_message() -> Seq<char> {
    "Could not read the next token."@
}

/// `message`, followed by the text of the token that was found instead.
pub open spec fn found_message(message: Seq<char>, found: TokenView) -> Seq<char> {
    message + " However, found `"@ + token_text(found) + "` instead."@
}

/// The parser state: a token cursor with the context that diagnostics report.
///
/// `tokens[0]` is `StartOfFile`; the cursor starts there and moves forward one
/// token per advance. A stream that could be read to its end finishes with
/// `EndOfLine`; one that could not stops at the last token read.
pub struct NenyrParser {
    pub tokens: Vec<NenyrTokens>,
    pub position: usize,
    /// The logical unit being parsed, such as a layout or class name.
    pub context_name: Option<String>,
    /// Where the document comes from, such as a file path.
    pub context_path: String,
}

impl NenyrParser {
    pub open spec fn wf(&self) -> bool {
        self.position < self.tokens.len()
    }

    /// The token under the cursor.
    pub open spec fn current(&self) -> NenyrTokens {
        self.tokens@[self.position as int]
    }

    /// Whether a further token can be read.
    pub open spec fn can_advance(&self) -> bool {
        self.position + 1 < self.tokens.len()
    }

    /// `self` is `before` with the cursor moved one token forward.
    pub open spec fn is_advance_of(&self, before: NenyrParser) -> bool {
        &&& self.tokens == before.tokens
        &&& self.position == before.position + 1
        &&& self.context_name == before.context_name
        &&& self.context_path == before.context_path
    }

    pub open spec fn trace_start(&self) -> int {
        if self.position >= TRACE_WINDOW {
            self.position - TRACE_WINDOW + 1
        } else {
            0
        }
    }

    /// `t` records the cursor position and the text of the last few tokens.
    pub open spec fn traces(&self, t: NenyrErrorTracing) -> bool {
        &&& t.position == self.position
        &&& t.recent_tokens.len() == self.position + 1 - self.trace_start()
        &&& forall|k: int|
            0 <= k < t.recent_tokens.len() ==> #[trigger] t.recent_tokens@[k]@ == token_text(
                self.tokens@[self.trace_start() + k]@,
            )
    }

    /// `e` is the diagnostic that this state gives for a failed rule, built from
    /// the caller's message and suggestion.
    pub open spec fn reports(
        &self,
        e: NenyrError,
        kind: NenyrErrorKind,
        rule: FailedRule,
        message: Seq<char>,
        suggestion: Option<String>,
    ) -> bool {
        &&& e.error_kind == kind
        &&& e.failed_rule == rule
        &&& e.suggestion == suggestion
        &&& e.context_name == self.context_name
        &&& e.context_path == self.context_path
        &&& e.error_message@ == found_message(message, self.current()@)
        &&& self.traces(e.tracing)
    }

    /// `e` is the diagnostic that this state gives when no next token can be read.
    pub open spec fn reports_advance_failure(&self, e: NenyrError) -> bool {
        let rule = if self.current() is EndOfLine {
            FailedRule::UnexpectedEndOfInput
        } else {
            FailedRule::UnrecognizedInput
        };
        self.reports(e, NenyrErrorKind::LexicalError, rule, advance_failure_message(), None)
    }

    /// A parser over an empty document.
    pub fn new() -> (r: NenyrParser)
        ensures
            r.wf(),
            r.position == 0,
            views(r.tokens@) == seq![TokenView::StartOfFile, TokenView::EndOfLine],
            r.context_name is None,
            r.context_path@ == Seq::<char>::empty(),
    {
        let mut tokens: Vec<NenyrTokens> = Vec::new();
        tokens.push(NenyrTokens::StartOfFile);
        tokens.push(NenyrTokens::EndOfLine);
        let r = NenyrParser { tokens, position: 0, context_name: None, context_path: String::new() };
        assert(views(r.tokens@) =~= seq![TokenView::StartOfFile, TokenView::EndOfLine]);
        r
    }

    /// Loads a document: its tokens, and the path that diagnostics report.
    /// The cursor stands before the first token.
    pub fn setup_dependencies(&mut self, raw_nenyr: String, context_path: String)
        ensures
            final(self).wf(),
            final(self).position == 0,
            views(final(self).tokens@) == seq![TokenView::StartOfFile] + lex_from(raw_nenyr@, 0).0,
            final(self).context_name == old(self).context_name,
            final(self).context_path == context_path,
    {
        let (lexed, _complete) = tokenize(raw_nenyr.as_str());
        let mut tokens: Vec<NenyrTokens> = Vec::new();
        tokens.push(NenyrTokens::StartOfFile);
        let mut lexed = lexed;
        tokens.append(&mut lexed);
        assert(views(tokens@) =~= seq![TokenView::StartOfFile] + lex_from(raw_nenyr@, 0).0);
        self.tokens = tokens;
        self.position = 0;
        self.context_path = context_path;
    }

    /// The token under the cursor.
    pub fn current_token(&self) -> (r: &NenyrTokens)
        requires
            self.wf(),
        ensures
            *r == self.current(),
    {
        &self.tokens[self.position]
    }

    /// The cursor position and the text of the last few tokens read.
    pub fn get_tracing(&self) -> (r: NenyrErrorTracing)
        requires
            self.wf(),
        ensures
            self.traces(r),
    {
        let start: usize = if self.position >= TRACE_WINDOW {
            self.position - TRACE_WINDOW + 1
        } else {
            0
        };
        let mut recent_tokens: Vec<String> = Vec::new();
        let mut i: usize = start;
        while i <= self.position
            invariant
                self.wf(),
                start == self.trace_start(),
                start <= i <= self.position + 1,
                recent_tokens.len() == i - start,
                forall|k: int|
                    0 <= k < recent_tokens.len() ==> #[trigger] recent_tokens@[k]@ == token_text(
                        self.tokens@[start + k]@,
                    ),
            decreases self.position + 1 - i,
        {
            recent_tokens.push(self.tokens[i].lexeme());
            i = i + 1;
        }
        NenyrErrorTracing { position: self.position, recent_tokens }
    }

    /// `error_message` followed by the text of the current token.
    pub fn add_nenyr_token_to_error(&self, error_message: &str) -> (r: String)
        requires
            self.wf(),
        ensures
            r@ == found_message(error_message@, self.current()@),
    {
        let found = self.tokens[self.position].lexeme();
        let r = append(error_message.to_owned(), " However, found `");
        let r = append(r, found.as_str());
        append(r, "` instead.")
    }

    /// Builds the diagnostic for a failed rule at the current position.
    pub fn diagnostic(
        &self,
        suggestion: Option<String>,
        error_message: &str,
        kind: NenyrErrorKind,
        rule: FailedRule,
    ) -> (e: NenyrError)
        requires
            self.wf(),
        ensures
            self.reports(e, kind, rule, error_message@, suggestion),
    {
        NenyrError::new(
            suggestion,
            self.context_name.clone(),
            self.context_path.clone(),
            self.add_nenyr_token_to_error(error_message),
            kind,
            rule,
            self.get_tracing(),
        )
    }

    /// Moves the cursor to the next token. At the last token read, nothing
    /// moves and a lexical diagnostic comes back.
    pub fn process_next_token(&mut self) -> (r: NenyrResult<()>)
        requires
            old(self).wf(),
        ensures
            final(self).wf(),
            old(self).can_advance() ==> r is Ok && final(self).is_advance_of(*old(self)),
            !old(self).can_advance() ==> (r matches Err(e) && old(self).reports_advance_failure(e)),
            !old(self).can_advance() ==> *final(self) == *old(self),
    {
        if self.position + 1 < self.tokens.len() {
            self.position = self.position + 1;
            Ok(())
        } else {
            let rule = if let NenyrTokens::EndOfLine = self.tokens[self.position] {
                FailedRule::UnexpectedEndOfInput
            } else {
                FailedRule::UnrecognizedInput
            };
            Err(
                self.diagnostic(
                    None,
                    "Could not read the next token.",
                    NenyrErrorKind::LexicalError,
                    rule,
                ),
            )
        }
    }
}

} // verus!
