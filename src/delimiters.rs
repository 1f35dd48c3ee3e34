use vstd::prelude::*;

use crate::error::{DelimiterKind, FailedRule, NenyrError, NenyrErrorKind, NenyrResult};
use crate::parser::NenyrParser;
use crate::tokens::NenyrTokens;

verus! {

/// `t` is the token that opens a scope of `kind`. A colon has no pair: it is
/// its own open and close token.
pub open spec fn opens(kind: DelimiterKind, t: NenyrTokens) -> bool {
    match kind {
        DelimiterKind::CurlyBrace => t is CurlyBracketOpen,
        DelimiterKind::Parenthesis => t is ParenthesisOpen,
        DelimiterKind::SquareBracket => t is SquareBracketOpen,
        DelimiterKind::Colon => t is Colon,
    }
}

/// `t` is the token that closes a scope of `kind`.
pub open spec fn closes(kind: DelimiterKind, t: NenyrTokens) -> bool {
    match kind {
        DelimiterKind::CurlyBrace => t is CurlyBracketClose,
        DelimiterKind::Parenthesis => t is ParenthesisClose,
        DelimiterKind::SquareBracket => t is SquareBracketClose,
        DelimiterKind::Colon => t is Colon,
    }
}

/// What a scope ends with once its interior parse has left the parser in
/// `after` with result `inner`: an interior diagnostic is passed on unchanged;
/// a missing close token gives the caller's close diagnostic; otherwise the
/// cursor moves past the close token and the interior value is returned.
pub open spec fn closing_outcome<T>(
    kind: DelimiterKind,
    after: NenyrParser,
    inner: NenyrResult<T>,
    error_message_on_close: Seq<char>,
    suggestion_on_close: Option<String>,
    r: NenyrResult<T>,
    fin: NenyrParser,
) -> bool {
    match inner {
        Err(e) => r == Err::<T, NenyrError>(e) && fin == after,
        Ok(v) => if !closes(kind, after.current()) {
            &&& r matches Err(e) && after.reports(
                e,
                NenyrErrorKind::SyntaxError,
                FailedRule::MissingCloseDelimiter(kind),
                error_message_on_close,
                suggestion_on_close,
            )
            &&& fin == after
        } else if !after.can_advance() {
            &&& r matches Err(e) && after.reports_advance_failure(e)
            &&& fin == after
        } else {
            &&& r == Ok::<T, NenyrError>(v)
            &&& fin.is_advance_of(after)
        },
    }
}

/// The outcome of a scope of `kind` from `before` when the open token is
/// missing, or when nothing follows it: the caller's open diagnostic, or the
/// lexical one, and no movement.
pub open spec fn opening_outcome<T>(
    kind: DelimiterKind,
    before: NenyrParser,
    suggestion_on_open: Option<String>,
    error_message_on_open: Seq<char>,
    r: NenyrResult<T>,
    fin: NenyrParser,
) -> bool {
    &&& fin == before
    &&& if !opens(kind, before.current()) {
        r matches Err(e) && before.reports(
            e,
            NenyrErrorKind::SyntaxError,
            FailedRule::MissingOpenDelimiter(kind),
            error_message_on_open,
            suggestion_on_open,
        )
    } else {
        r matches Err(e) && before.reports_advance_failure(e)
    }
}

/// The scope can be entered: the open token is there and a token follows it.
pub open spec fn enters(kind: DelimiterKind, before: NenyrParser) -> bool {
    opens(kind, before.current()) && before.can_advance()
}

/// `a` and `b` say the same thing: every field holds the same value or text.
pub open spec fn same_diagnostic(a: NenyrError, b: NenyrError) -> bool {
    &&& a.error_kind == b.error_kind
    &&& a.failed_rule == b.failed_rule
    &&& a.suggestion == b.suggestion
    &&& a.context_name == b.context_name
    &&& a.context_path == b.context_path
    &&& a.error_message@ == b.error_message@
    &&& a.tracing.position == b.tracing.position
    &&& a.tracing.recent_tokens.len() == b.tracing.recent_tokens.len()
    &&& forall|k: int|
        0 <= k < a.tracing.recent_tokens.len() ==> #[trigger] a.tracing.recent_tokens@[k]@
            == b.tracing.recent_tokens@[k]@
}

/// A scope whose open token is missing moves nothing, so asking for it again
/// from where the first attempt left the parser fails again with the same
/// diagnostic.
pub proof fn lemma_missing_open_repeats<T>(
    kind: DelimiterKind,
    before: NenyrParser,
    suggestion_on_open: Option<String>,
    error_message_on_open: Seq<char>,
    first: NenyrResult<T>,
    between: NenyrParser,
    second: NenyrResult<T>,
    after: NenyrParser,
)
    requires
        before.wf(),
        !opens(kind, before.current()),
        opening_outcome(kind, before, suggestion_on_open, error_message_on_open, first, between),
        opening_outcome(kind, between, suggestion_on_open, error_message_on_open, second, after),
    ensures
        between == before,
        after == before,
        first is Err,
        second is Err,
        same_diagnostic(first->Err_0, second->Err_0),
{
}

fn opens_token(kind: DelimiterKind, t: &NenyrTokens) -> (r: bool)
    ensures
        r == opens(kind, *t),
{
    match kind {
        DelimiterKind::CurlyBrace => matches!(t, NenyrTokens::CurlyBracketOpen),
        DelimiterKind::Parenthesis => matches!(t, NenyrTokens::ParenthesisOpen),
        DelimiterKind::SquareBracket => matches!(t, NenyrTokens::SquareBracketOpen),
        DelimiterKind::Colon => matches!(t, NenyrTokens::Colon),
    }
}

fn closes_token(kind: DelimiterKind, t: &NenyrTokens) -> (r: bool)
    ensures
        r == closes(kind, *t),
{
    match kind {
        DelimiterKind::CurlyBrace => matches!(t, NenyrTokens::CurlyBracketClose),
        DelimiterKind::Parenthesis => matches!(t, NenyrTokens::ParenthesisClose),
        DelimiterKind::SquareBracket => matches!(t, NenyrTokens::SquareBracketClose),
        DelimiterKind::Colon => matches!(t, NenyrTokens::Colon),
    }
}

/// Calls the interior parser on `p`.
fn run_interior<F, T>(p: &mut NenyrParser, parse_fn: F) -> (r: NenyrResult<T>) where
    F: FnOnce(&mut NenyrParser) -> NenyrResult<T>,

    requires
        old(p).wf(),
        forall|q: &mut NenyrParser| (*q).wf() ==> call_requires(parse_fn, (q,)),
        forall|q: &mut NenyrParser, inner: NenyrResult<T>|
            (*q).wf() && call_ensures(parse_fn, (q,), inner) ==> (*final(q)).wf(),
    ensures
        final(p).wf(),
        exists|q: &mut NenyrParser|
            *q == *old(p) && call_ensures(parse_fn, (q,), r) && *final(q) == *final(p),
{
    parse_fn(p)
}

impl NenyrParser {
    /// Parses `open interior close` for the bracket pair of `kind`, with
    /// `parse_fn` parsing the interior.
    pub fn parse_delimited_scope<F, T>(
        &mut self,
        kind: DelimiterKind,
        suggestion_on_open: Option<String>,
        error_message_on_open: &str,
        suggestion_on_close: Option<String>,
        error_message_on_close: &str,
        parse_fn: F,
    ) -> (r: NenyrResult<T>) where F: FnOnce(&mut NenyrParser) -> NenyrResult<T>
        requires
            kind != DelimiterKind::Colon,
            old(self).wf(),
            forall|p: &mut NenyrParser| (*p).wf() ==> call_requires(parse_fn, (p,)),
            forall|p: &mut NenyrParser, inner: NenyrResult<T>|
                (*p).wf() && call_ensures(parse_fn, (p,), inner) ==> (*final(p)).wf(),
        ensures
            final(self).wf(),
            !enters(kind, *old(self)) ==> opening_outcome(
                kind,
                *old(self),
                suggestion_on_open,
                error_message_on_open@,
                r,
                *final(self),
            ),
            enters(kind, *old(self)) ==> exists|p: &mut NenyrParser, inner: NenyrResult<T>|
                {
                    &&& (*p).is_advance_of(*old(self))
                    &&& call_ensures(parse_fn, (p,), inner)
                    &&& closing_outcome(
                        kind,
                        *final(p),
                        inner,
                        error_message_on_close@,
                        suggestion_on_close,
                        r,
                        *final(self),
                    )
                },
    {
        if !opens_token(kind, &self.tokens[self.position]) {
            return Err(
                self.diagnostic(
                    suggestion_on_open,
                    error_message_on_open,
                    NenyrErrorKind::SyntaxError,
                    FailedRule::MissingOpenDelimiter(kind),
                ),
            );
        }
        match self.process_next_token() {
            Err(e) => {
                return Err(e);
            },
            Ok(()) => {},
        }
        let ghost entered = *self;
        let outcome = run_interior(self, parse_fn);
        let ghost after = *self;
        let ghost q = choose|q: &mut NenyrParser|
            *q == entered && call_ensures(parse_fn, (q,), outcome) && *final(q) == after;
        let r = match outcome {
            Err(e) => Err(e),
            Ok(parsed_value) => {
                if closes_token(kind, &self.tokens[self.position]) {
                    match self.process_next_token() {
                        Err(e) => Err(e),
                        Ok(()) => Ok(parsed_value),
                    }
                } else {
                    Err(
                        self.diagnostic(
                            suggestion_on_close,
                            error_message_on_close,
                            NenyrErrorKind::SyntaxError,
                            FailedRule::MissingCloseDelimiter(kind),
                        ),
                    )
                }
            },
        };
        assert(closing_outcome(
            kind,
            *final(q),
            outcome,
            error_message_on_close@,
            suggestion_on_close,
            r,
            *self,
        ));
        r
    }
    /// Parses a region enclosed in curly brackets `{ }`, running `parse_fn` on its interior.
    /// Without the open token: the open diagnostic and no movement. After the
    /// interior parse: its diagnostic unchanged, or the close diagnostic when
    /// the cursor is not on the close token, or else the interior value with the
    /// cursor moved past the close token.
    pub fn parse_curly_bracketed_delimiter<F, T>(
        &mut self,
        suggestion_on_open: Option<String>,
        error_message_on_open: &str,
        suggestion_on_close: Option<String>,
        error_message_on_close: &str,
        parse_fn: F,
    ) -> (r: NenyrResult<T>) where F: FnOnce(&mut NenyrParser) -> NenyrResult<T>
        requires
            old(self).wf(),
            forall|p: &mut NenyrParser| (*p).wf() ==> call_requires(parse_fn, (p,)),
            forall|p: &mut NenyrParser, inner: NenyrResult<T>|
                (*p).wf() && call_ensures(parse_fn, (p,), inner) ==> (*final(p)).wf(),
        ensures
            final(self).wf(),
            !enters(DelimiterKind::CurlyBrace, *old(self)) ==> opening_outcome(
                DelimiterKind::CurlyBrace,
                *old(self),
                suggestion_on_open,
                error_message_on_open@,
                r,
                *final(self),
            ),
            enters(DelimiterKind::CurlyBrace, *old(self)) ==> exists|
                p: &mut NenyrParser,
                inner: NenyrResult<T>,
            |
                {
                    &&& (*p).is_advance_of(*old(self))
                    &&& call_ensures(parse_fn, (p,), inner)
                    &&& closing_outcome(
                        DelimiterKind::CurlyBrace,
                        *final(p),
                        inner,
                        error_message_on_close@,
                        suggestion_on_close,
                        r,
                        *final(self),
                    )
                },
    {
        self.parse_delimited_scope(
            DelimiterKind::CurlyBrace,
            suggestion_on_open,
            error_message_on_open,
            suggestion_on_close,
            error_message_on_close,
            parse_fn,
        )
    }

    /// Parses a region enclosed in parentheses `( )`, running `parse_fn` on its interior.
    /// Without the open token: the open diagnostic and no movement. After the
    /// interior parse: its diagnostic unchanged, or the close diagnostic when
    /// the cursor is not on the close token, or else the interior value with the
    /// cursor moved past the close token.
    pub fn parse_parenthesized_delimiter<F, T>(
        &mut self,
        suggestion_on_open: Option<String>,
        error_message_on_open: &str,
        suggestion_on_close: Option<String>,
        error_message_on_close: &str,
        parse_fn: F,
    ) -> (r: NenyrResult<T>) where F: FnOnce(&mut NenyrParser) -> NenyrResult<T>
        requires
            old(self).wf(),
            forall|p: &mut NenyrParser| (*p).wf() ==> call_requires(parse_fn, (p,)),
            forall|p: &mut NenyrParser, inner: NenyrResult<T>|
                (*p).wf() && call_ensures(parse_fn, (p,), inner) ==> (*final(p)).wf(),
        ensures
            final(self).wf(),
            !enters(DelimiterKind::Parenthesis, *old(self)) ==> opening_outcome(
                DelimiterKind::Parenthesis,
                *old(self),
                suggestion_on_open,
                error_message_on_open@,
                r,
                *final(self),
            ),
            enters(DelimiterKind::Parenthesis, *old(self)) ==> exists|
                p: &mut NenyrParser,
                inner: NenyrResult<T>,
            |
                {
                    &&& (*p).is_advance_of(*old(self))
                    &&& call_ensures(parse_fn, (p,), inner)
                    &&& closing_outcome(
                        DelimiterKind::Parenthesis,
                        *final(p),
                        inner,
                        error_message_on_close@,
                        suggestion_on_close,
                        r,
                        *final(self),
                    )
                },
    {
        self.parse_delimited_scope(
            DelimiterKind::Parenthesis,
            suggestion_on_open,
            error_message_on_open,
            suggestion_on_close,
            error_message_on_close,
            parse_fn,
        )
    }

    /// Parses a region enclosed in square brackets `[ ]`, running `parse_fn` on its interior.
    /// Without the open token: the open diagnostic and no movement. After the
    /// interior parse: its diagnostic unchanged, or the close diagnostic when
    /// the cursor is not on the close token, or else the interior value with the
    /// cursor moved past the close token.
    pub fn parse_square_bracketed_delimiter<F, T>(
        &mut self,
        suggestion_on_open: Option<String>,
        error_message_on_open: &str,
        suggestion_on_close: Option<String>,
        error_message_on_close: &str,
        parse_fn: F,
    ) -> (r: NenyrResult<T>) where F: FnOnce(&mut NenyrParser) -> NenyrResult<T>
        requires
            old(self).wf(),
            forall|p: &mut NenyrParser| (*p).wf() ==> call_requires(parse_fn, (p,)),
            forall|p: &mut NenyrParser, inner: NenyrResult<T>|
                (*p).wf() && call_ensures(parse_fn, (p,), inner) ==> (*final(p)).wf(),
        ensures
            final(self).wf(),
            !enters(DelimiterKind::SquareBracket, *old(self)) ==> opening_outcome(
                DelimiterKind::SquareBracket,
                *old(self),
                suggestion_on_open,
                error_message_on_open@,
                r,
                *final(self),
            ),
            enters(DelimiterKind::SquareBracket, *old(self)) ==> exists|
                p: &mut NenyrParser,
                inner: NenyrResult<T>,
            |
                {
                    &&& (*p).is_advance_of(*old(self))
                    &&& call_ensures(parse_fn, (p,), inner)
                    &&& closing_outcome(
                        DelimiterKind::SquareBracket,
                        *final(p),
                        inner,
                        error_message_on_close@,
                        suggestion_on_close,
                        r,
                        *final(self),
                    )
                },
    {
        self.parse_delimited_scope(
            DelimiterKind::SquareBracket,
            suggestion_on_open,
            error_message_on_open,
            suggestion_on_close,
            error_message_on_close,
            parse_fn,
        )
    }

    /// Checks that the current token is a colon, the separator between a key
    /// and its value. When `with_next_move` is set the cursor then moves past it.
    pub fn parse_colon_delimiter(
        &mut self,
        suggestion: Option<String>,
        error_message: &str,
        with_next_move: bool,
    ) -> (r: NenyrResult<()>)
        requires
            old(self).wf(),
        ensures
            final(self).wf(),
            !(old(self).current() is Colon) ==> (r matches Err(e) && old(self).reports(
                e,
                NenyrErrorKind::SyntaxError,
                FailedRule::MissingSeparator,
                error_message@,
                suggestion,
            )),
            !(old(self).current() is Colon) ==> *final(self) == *old(self),
            old(self).current() is Colon && !with_next_move ==> r is Ok,
            old(self).current() is Colon && !with_next_move ==> *final(self) == *old(self),
            old(self).current() is Colon && with_next_move && old(self).can_advance() ==> r is Ok
                && final(self).is_advance_of(*old(self)),
            old(self).current() is Colon && with_next_move && !old(self).can_advance() ==> (
            r matches Err(e) && old(self).reports_advance_failure(e)),
            old(self).current() is Colon && with_next_move && !old(self).can_advance()
                ==> *final(self) == *old(self),
    {
        if let NenyrTokens::Colon = self.tokens[self.position] {
            if with_next_move {
                return self.process_next_token();
            }
            return Ok(());
        }
        Err(
            self.diagnostic(
                suggestion,
                error_message,
                NenyrErrorKind::SyntaxError,
                FailedRule::MissingSeparator,
            ),
        )
    }
}

} // verus!
