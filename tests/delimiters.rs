use nenyr::{DelimiterKind, FailedRule, NenyrErrorKind, NenyrParser, NenyrResult, NenyrTokens};

fn parser_on(raw_nenyr: &str) -> NenyrParser {
    let mut parser = NenyrParser::new();
    parser.setup_dependencies(raw_nenyr.to_string(), "".to_string());
    let _ = parser.process_next_token();
    parser
}

#[test]
fn bracketed_section_is_valid() {
    let raw_nenyr = "{ }";
    let mut parser = NenyrParser::new();

    parser.setup_dependencies(raw_nenyr.to_string(), "".to_string());

    let _ = parser.process_next_token();
    assert_eq!(
        parser.parse_curly_bracketed_delimiter(None, "", None, "", |_| Ok(())),
        Ok(())
    );
}

#[test]
fn bracketed_section_missing_opening_curly_bracket() {
    let raw_nenyr = "}";
    let mut parser = NenyrParser::new();

    parser.setup_dependencies(raw_nenyr.to_string(), "".to_string());

    let _ = parser.process_next_token();
    assert_ne!(
        parser.parse_curly_bracketed_delimiter(None, "", None, "", |_| Ok(())),
        Ok(())
    );
}

#[test]
fn bracketed_section_missing_closing_curly_bracket() {
    let raw_nenyr = "{";
    let mut parser = NenyrParser::new();

    parser.setup_dependencies(raw_nenyr.to_string(), "".to_string());

    let _ = parser.process_next_token();
    assert_ne!(
        parser.parse_curly_bracketed_delimiter(None, "", None, "", |_| Ok(())),
        Ok(())
    );
}

#[test]
fn parenthesized_section_is_valid() {
    let raw_nenyr = "( )";
    let mut parser = NenyrParser::new();

    parser.setup_dependencies(raw_nenyr.to_string(), "".to_string());

    let _ = parser.process_next_token();
    assert_eq!(
        parser.parse_parenthesized_delimiter(None, "", None, "", |_| Ok(())),
        Ok(())
    );
}

#[test]
fn parenthesized_section_missing_opening_parenthesis() {
    let raw_nenyr = ")";
    let mut parser = NenyrParser::new();

    parser.setup_dependencies(raw_nenyr.to_string(), "".to_string());

    let _ = parser.process_next_token();
    assert_ne!(
        parser.parse_parenthesized_delimiter(None, "", None, "", |_| Ok(())),
        Ok(())
    );
}

#[test]
fn parenthesized_section_missing_closing_parenthesis() {
    let raw_nenyr = "(";
    let mut parser = NenyrParser::new();

    parser.setup_dependencies(raw_nenyr.to_string(), "".to_string());

    let _ = parser.process_next_token();
    assert_ne!(
        parser.parse_parenthesized_delimiter(None, "", None, "", |_| Ok(())),
        Ok(())
    );
}

#[test]
fn colon_is_valid() {
    let raw_nenyr = ":";
    let mut parser = NenyrParser::new();

    parser.setup_dependencies(raw_nenyr.to_string(), "".to_string());

    let _ = parser.process_next_token();
    assert_eq!(parser.parse_colon_delimiter(None, "", false), Ok(()));
}

#[test]
fn colon_is_not_valid() {
    let raw_nenyr = ";";
    let mut parser = NenyrParser::new();

    parser.setup_dependencies(raw_nenyr.to_string(), "".to_string());

    let _ = parser.process_next_token();
    assert_ne!(parser.parse_colon_delimiter(None, "", false), Ok(()));
}

#[test]
fn squared_section_is_valid() {
    let raw_nenyr = "[] ]";
    let mut parser = NenyrParser::new();

    parser.setup_dependencies(raw_nenyr.to_string(), "".to_string());

    let _ = parser.process_next_token();
    assert_eq!(
        parser.parse_square_bracketed_delimiter(None, "", None, "", |_| Ok(())),
        Ok(())
    );
}

#[test]
fn squared_section_missing_opening_square_bracket() {
    let raw_nenyr = "]";
    let mut parser = NenyrParser::new();

    parser.setup_dependencies(raw_nenyr.to_string(), "".to_string());

    let _ = parser.process_next_token();
    assert_ne!(
        parser.parse_square_bracketed_delimiter(None, "", None, "", |_| Ok(())),
        Ok(())
    );
}

#[test]
fn squared_section_missing_closing_square_bracket() {
    let raw_nenyr = "[";
    let mut parser = NenyrParser::new();

    parser.setup_dependencies(raw_nenyr.to_string(), "".to_string());

    let _ = parser.process_next_token();
    assert_ne!(
        parser.parse_square_bracketed_delimiter(None, "", None, "", |_| Ok(())),
        Ok(())
    );
}

#[test]
fn valid_scope_leaves_cursor_at_end_of_stream() {
    let mut parser = parser_on("{ }");
    assert_eq!(
        parser.parse_curly_bracketed_delimiter(None, "", None, "", |_| Ok(())),
        Ok(())
    );
    assert_eq!(parser.current_token(), &NenyrTokens::EndOfLine);
}

#[test]
fn valid_scope_returns_interior_value_unchanged() {
    let mut parser = parser_on("( width )");
    let r = parser.parse_parenthesized_delimiter(None, "", None, "", |p| {
        let found = p.current_token().clone();
        p.process_next_token()?;
        Ok(found)
    });
    assert_eq!(r, Ok(NenyrTokens::Identifier("width".to_string())));
    assert_eq!(parser.current_token(), &NenyrTokens::EndOfLine);
}

#[test]
fn nested_scopes_parse_recursively() {
    let mut parser = parser_on("{ { } }");
    let r = parser.parse_curly_bracketed_delimiter(None, "", None, "", |p| {
        p.parse_curly_bracketed_delimiter(None, "", None, "", |_| Ok(()))
    });
    assert_eq!(r, Ok(()));
    assert_eq!(parser.current_token(), &NenyrTokens::EndOfLine);
}

#[test]
fn nested_scope_of_another_kind() {
    let mut parser = parser_on("{ [ ] }");
    let r = parser.parse_curly_bracketed_delimiter(None, "", None, "", |p| {
        p.parse_square_bracketed_delimiter(None, "", None, "", |_| Ok(7u32))
    });
    assert_eq!(r, Ok(7));
}

#[test]
fn missing_open_moves_nothing_and_repeats() {
    let mut parser = parser_on("} {");
    let before = parser.position;
    let first = parser.parse_curly_bracketed_delimiter(
        Some("Open the block with `{`.".to_string()),
        "Expected an opening curly bracket.",
        None,
        "",
        |_| Ok(()),
    );
    assert_eq!(parser.position, before);
    assert_eq!(parser.current_token(), &NenyrTokens::CurlyBracketClose);
    let second = parser.parse_curly_bracketed_delimiter(
        Some("Open the block with `{`.".to_string()),
        "Expected an opening curly bracket.",
        None,
        "",
        |_| Ok(()),
    );
    assert_eq!(first, second);
    let e = first.unwrap_err();
    assert_eq!(e.error_kind, NenyrErrorKind::SyntaxError);
    assert_eq!(
        e.failed_rule,
        FailedRule::MissingOpenDelimiter(DelimiterKind::CurlyBrace)
    );
    assert_eq!(e.suggestion, Some("Open the block with `{`.".to_string()));
    assert_eq!(
        e.error_message,
        "Expected an opening curly bracket. However, found `}` instead."
    );
}

#[test]
fn missing_close_reports_close_message() {
    let mut parser = parser_on("[ ;");
    let r: NenyrResult<()> = parser.parse_square_bracketed_delimiter(
        None,
        "",
        Some("Close the list with `]`.".to_string()),
        "Expected a closing square bracket.",
        |_| Ok(()),
    );
    let e = r.unwrap_err();
    assert_eq!(
        e.failed_rule,
        FailedRule::MissingCloseDelimiter(DelimiterKind::SquareBracket)
    );
    assert_eq!(e.suggestion, Some("Close the list with `]`.".to_string()));
    assert_eq!(
        e.error_message,
        "Expected a closing square bracket. However, found `;` instead."
    );
    assert_eq!(parser.current_token(), &NenyrTokens::Semicolon);
}

#[test]
fn missing_close_at_end_of_stream() {
    let mut parser = parser_on("{");
    let r: NenyrResult<()> = parser.parse_curly_bracketed_delimiter(None, "", None, "", |_| Ok(()));
    let e = r.unwrap_err();
    assert_eq!(
        e.failed_rule,
        FailedRule::MissingCloseDelimiter(DelimiterKind::CurlyBrace)
    );
    assert_eq!(e.error_message, " However, found `end of input` instead.");
}

#[test]
fn interior_diagnostic_is_passed_on_unchanged() {
    let mut parser = parser_on("( : )");
    let r: NenyrResult<()> = parser.parse_parenthesized_delimiter(None, "", None, "close", |p| {
        p.parse_curly_bracketed_delimiter(None, "inner open", None, "", |_| Ok(()))
    });
    let e = r.unwrap_err();
    assert_eq!(
        e.failed_rule,
        FailedRule::MissingOpenDelimiter(DelimiterKind::CurlyBrace)
    );
    assert_eq!(e.error_message, "inner open However, found `:` instead.");
}

#[test]
fn colon_with_move_reaches_end_of_stream() {
    let mut parser = parser_on(":");
    assert_eq!(parser.parse_colon_delimiter(None, "", true), Ok(()));
    assert_eq!(parser.current_token(), &NenyrTokens::EndOfLine);
}

#[test]
fn colon_without_move_stays() {
    let mut parser = parser_on(":");
    assert_eq!(parser.parse_colon_delimiter(None, "", false), Ok(()));
    assert_eq!(parser.current_token(), &NenyrTokens::Colon);
}

#[test]
fn semicolon_is_no_colon() {
    let mut parser = parser_on(";");
    let e = parser
        .parse_colon_delimiter(Some("Put `:` after the key.".to_string()), "Expected a colon.", true)
        .unwrap_err();
    assert_eq!(e.failed_rule, FailedRule::MissingSeparator);
    assert_eq!(e.error_message, "Expected a colon. However, found `;` instead.");
    assert_eq!(e.suggestion, Some("Put `:` after the key.".to_string()));
    assert_eq!(parser.current_token(), &NenyrTokens::Semicolon);
}

#[test]
fn diagnostic_carries_context() {
    let mut parser = NenyrParser::new();
    parser.setup_dependencies("a b c d e".to_string(), "styles/main.nyr".to_string());
    parser.context_name = Some("mainLayout".to_string());
    for _ in 0..5 {
        parser.process_next_token().unwrap();
    }
    let e = parser.parse_colon_delimiter(None, "", false).unwrap_err();
    assert_eq!(e.context_name, Some("mainLayout".to_string()));
    assert_eq!(e.context_path, "styles/main.nyr");
    assert_eq!(e.tracing.position, 5);
    assert_eq!(e.tracing.recent_tokens, vec!["b", "c", "d", "e"]);
}
