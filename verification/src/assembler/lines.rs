//! From the text of a file to its statements, line by line.

use crate::assembler::ast::Statement;
use crate::assembler::error::AssemblerError;
use crate::assembler::lexer::{
    scan_string_literal, spec_string_literal, spec_tokenize, tokenize, Jam1Token, ParseStringError,
    PunctuationKind, Token,
};
use crate::assembler::parser::{parse, spec_parse};
use crate::assembler::span::{FileId, TextSpan};
use vstd::prelude::*;
use vstd::slice::slice_subrange;

verus! {

/// The diagnostic for an error in the string literal at `literal`.
pub open spec fn spec_string_error(literal: TextSpan, error: ParseStringError) -> AssemblerError {
    match error {
        ParseStringError::MissingClosingQuote => AssemblerError::UnclosedStringLiteral { literal },
        ParseStringError::InvalidEscapeSequence { start, end } => {
            AssemblerError::InvalidEscapeSequence { literal, start, end }
        },
    }
}

/// The diagnostics for the string literal at `literal`, in the order of
/// its errors.
pub open spec fn spec_string_errors(text: Seq<u8>, literal: TextSpan) -> Seq<AssemblerError> {
    let errors = spec_string_literal(text, literal.start_byte_offset as int).errors;
    Seq::new(errors.len(), |i: int| spec_string_error(literal, errors[i]))
}

/// Where the run of invalid characters that holds `at` ends.
pub open spec fn spec_invalid_run_end(tokens: Seq<Token>, at: int) -> int
    decreases tokens.len() - at,
{
    if 0 <= at < tokens.len() && tokens[at].kind is InvalidChar {
        spec_invalid_run_end(tokens, at + 1)
    } else {
        at
    }
}

/// The diagnostics for the tokens of a line from `at` on, after `errors`,
/// and whether the line can be parsed. An invalid directive and invalid
/// characters keep the line from being parsed; an invalid literal does
/// not. A run of invalid characters gives one diagnostic.
pub open spec fn spec_lexer_errors(
    tokens: Seq<Token>,
    text: Seq<u8>,
    at: int,
    errors: Seq<AssemblerError>,
    can_parse: bool,
) -> (Seq<AssemblerError>, bool)
    decreases tokens.len() - at,
{
    if at < 0 || at >= tokens.len() {
        (errors, can_parse)
    } else {
        let span = tokens[at].span;
        match tokens[at].kind {
            Jam1Token::InvalidDirective => spec_lexer_errors(
                tokens,
                text,
                at + 1,
                errors.push(AssemblerError::InvalidDirective { directive: span }),
                false,
            ),
            Jam1Token::InvalidIntegerLiteral => spec_lexer_errors(
                tokens,
                text,
                at + 1,
                errors.push(AssemblerError::InvalidIntegerLiteral { literal: span }),
                can_parse,
            ),
            Jam1Token::InvalidStringLiteral => spec_lexer_errors(
                tokens,
                text,
                at + 1,
                errors + spec_string_errors(text, span),
                can_parse,
            ),
            Jam1Token::InvalidChar(_) => {
                let end = spec_invalid_run_end(tokens, at + 1);
                if at < end <= tokens.len() {
                    spec_lexer_errors(
                        tokens,
                        text,
                        end,
                        errors.push(
                            AssemblerError::InvalidChars {
                                span: span.spec_cover(tokens[end - 1].span),
                            },
                        ),
                        false,
                    )
                } else {
                    (errors, false)
                }
            },
            _ => spec_lexer_errors(tokens, text, at + 1, errors, can_parse),
        }
    }
}

fn push_string_errors(text: &[u8], literal: TextSpan, errors: &mut Vec<AssemblerError>)
    ensures
        final(errors)@ == old(errors)@ + spec_string_errors(text@, literal),
{
    if literal.start_byte_offset >= text.len() {
        errors.push(AssemblerError::UnclosedStringLiteral { literal });
        assert(errors@ =~= old(errors)@ + spec_string_errors(text@, literal));
        return ;
    }
    let (_, found, _) = scan_string_literal(text, literal.start_byte_offset);
    let mut i: usize = 0;
    while i < found.len()
        invariant
            i <= found@.len(),
            found@ == spec_string_literal(text@, literal.start_byte_offset as int).errors,
            errors@ == old(errors)@ + spec_string_errors(text@, literal).take(i as int),
        decreases found@.len() - i,
    {
        let error = match found[i] {
            ParseStringError::MissingClosingQuote => AssemblerError::UnclosedStringLiteral {
                literal,
            },
            ParseStringError::InvalidEscapeSequence { start, end } => {
                AssemblerError::InvalidEscapeSequence { literal, start, end }
            },
        };
        errors.push(error);
        i += 1;
        assert(errors@ =~= old(errors)@ + spec_string_errors(text@, literal).take(i as int));
    }
    assert(spec_string_errors(text@, literal).take(i as int) =~= spec_string_errors(
        text@,
        literal,
    ));
}

/// Reports what the lexer found wrong with the tokens of one line and
/// says whether the line can be parsed.
pub fn emit_lexer_errors(tokens: &[Token], text: &[u8], errors: &mut Vec<AssemblerError>) -> (can_parse:
    bool)
    ensures
        (final(errors)@, can_parse) == spec_lexer_errors(tokens@, text@, 0, old(errors)@, true),
{
    let mut can_parse = true;
    let mut at: usize = 0;
    while at < tokens.len()
        invariant
            at <= tokens@.len(),
            spec_lexer_errors(tokens@, text@, 0, old(errors)@, true) == spec_lexer_errors(
                tokens@,
                text@,
                at as int,
                errors@,
                can_parse,
            ),
        decreases tokens@.len() - at,
    {
        let span = tokens[at].span;
        match tokens[at].kind {
            Jam1Token::InvalidDirective => {
                errors.push(AssemblerError::InvalidDirective { directive: span });
                can_parse = false;
                at += 1;
            },
            Jam1Token::InvalidIntegerLiteral => {
                errors.push(AssemblerError::InvalidIntegerLiteral { literal: span });
                at += 1;
            },
            Jam1Token::InvalidStringLiteral => {
                push_string_errors(text, span, errors);
                at += 1;
            },
            Jam1Token::InvalidChar(_) => {
                let mut end: usize = at + 1;
                while end < tokens.len() && matches!(tokens[end].kind, Jam1Token::InvalidChar(_))
                    invariant
                        at < end <= tokens@.len(),
                        spec_invalid_run_end(tokens@, at + 1) == spec_invalid_run_end(
                            tokens@,
                            end as int,
                        ),
                    decreases tokens@.len() - end,
                {
                    end += 1;
                }
                errors.push(
                    AssemblerError::InvalidChars { span: span.cover(tokens[end - 1].span) },
                );
                can_parse = false;
                at = end;
            },
            _ => {
                at += 1;
            },
        }
    }
    can_parse
}

/// The tokens of the line that starts at `at`, after `line`, without the
/// comments, and where the line ends: at a line feed or at the end.
pub open spec fn spec_collect_line(tokens: Seq<Token>, at: int, line: Seq<Token>) -> (
    Seq<Token>,
    int,
)
    decreases tokens.len() - at,
{
    if at < 0 || at >= tokens.len() {
        (line, at)
    } else if tokens[at].kind is NewLine {
        (line, at)
    } else if tokens[at].kind is Comment {
        spec_collect_line(tokens, at + 1, line)
    } else {
        spec_collect_line(tokens, at + 1, line.push(tokens[at]))
    }
}

/// The statements and diagnostics of a file so far.
pub struct ParsedLines {
    pub statements: Seq<Statement>,
    pub errors: Seq<AssemblerError>,
}

/// What the tokens of one statement add: the statement, or the parser's
/// diagnostic.
pub open spec fn spec_parse_statement(tokens: Seq<Token>, so_far: ParsedLines) -> ParsedLines {
    match spec_parse(tokens) {
        Ok(statement) => ParsedLines { statements: so_far.statements.push(statement), ..so_far },
        Err(error) => ParsedLines {
            errors: so_far.errors.push(AssemblerError::ParseError(error)),
            ..so_far
        },
    }
}

/// Whether the line starts with a name and a colon and goes on after them:
/// a label that stands before another statement.
pub open spec fn spec_leading_label(line: Seq<Token>) -> bool {
    line.len() > 2 && line[0].kind is Identifier && line[1].kind == Jam1Token::Punctuation(
        PunctuationKind::Colon,
    )
}

/// What one line adds: the lexer's diagnostics and, if the line can be
/// parsed, its statement or the parser's diagnostic. A label with a colon
/// may stand before the statement of the line and is a statement of its
/// own. An empty line adds nothing.
pub open spec fn spec_parse_line(line: Seq<Token>, text: Seq<u8>, so_far: ParsedLines)
    -> ParsedLines {
    if line.len() == 0 {
        so_far
    } else {
        let (errors, can_parse) = spec_lexer_errors(line, text, 0, so_far.errors, true);
        let checked = ParsedLines { statements: so_far.statements, errors };
        if !can_parse {
            checked
        } else if spec_leading_label(line) {
            spec_parse_statement(
                line.subrange(2, line.len() as int),
                spec_parse_statement(line.subrange(0, 2), checked),
            )
        } else {
            spec_parse_statement(line, checked)
        }
    }
}

fn parse_statement(
    tokens: &[Token],
    statements: &mut Vec<Statement>,
    errors: &mut Vec<AssemblerError>,
)
    requires
        tokens@.len() > 0,
    ensures
        (ParsedLines { statements: final(statements)@, errors: final(errors)@ })
            == spec_parse_statement(
            tokens@,
            ParsedLines { statements: old(statements)@, errors: old(errors)@ },
        ),
{
    match parse(tokens) {
        Ok(statement) => {
            statements.push(statement);
        },
        Err(error) => {
            errors.push(AssemblerError::ParseError(error));
        },
    }
}

/// What the lines from token `at` on add.
pub open spec fn spec_parse_lines(tokens: Seq<Token>, text: Seq<u8>, at: int, so_far: ParsedLines)
    -> ParsedLines
    decreases tokens.len() - at,
{
    if at < 0 || at >= tokens.len() {
        so_far
    } else {
        let (line, end) = spec_collect_line(tokens, at, Seq::empty());
        let parsed = spec_parse_line(line, text, so_far);
        if end < at || end >= tokens.len() {
            parsed
        } else {
            spec_parse_lines(tokens, text, end + 1, parsed)
        }
    }
}

/// The statements of the file `file` with the text `text`, and the
/// diagnostics for the lines that are no statements, after `errors`.
pub open spec fn spec_parse_file(file: FileId, text: Seq<u8>, errors: Seq<AssemblerError>)
    -> ParsedLines {
    spec_parse_lines(
        spec_tokenize(file, text),
        text,
        0,
        ParsedLines { statements: Seq::empty(), errors },
    )
}

/// Splits the file into lines and parses each.
pub fn parse_file(file: FileId, text: &[u8], errors: &mut Vec<AssemblerError>) -> (statements: Vec<
    Statement,
>)
    ensures
        statements@ == spec_parse_file(file, text@, old(errors)@).statements,
        final(errors)@ == spec_parse_file(file, text@, old(errors)@).errors,
{
    let tokens = tokenize(file, text);
    let mut statements: Vec<Statement> = Vec::new();
    let mut at: usize = 0;
    while at < tokens.len()
        invariant
            at <= tokens@.len(),
            tokens@ == spec_tokenize(file, text@),
            spec_parse_file(file, text@, old(errors)@) == spec_parse_lines(
                tokens@,
                text@,
                at as int,
                ParsedLines { statements: statements@, errors: errors@ },
            ),
        decreases tokens@.len() - at,
    {
        let mut line: Vec<Token> = Vec::new();
        let mut end: usize = at;
        while end < tokens.len() && !matches!(tokens[end].kind, Jam1Token::NewLine)
            invariant
                at <= end <= tokens@.len(),
                spec_collect_line(tokens@, at as int, Seq::empty()) == spec_collect_line(
                    tokens@,
                    end as int,
                    line@,
                ),
            decreases tokens@.len() - end,
        {
            if !matches!(tokens[end].kind, Jam1Token::Comment) {
                line.push(tokens[end]);
            }
            end += 1;
        }
        if line.len() > 0 {
            if emit_lexer_errors(line.as_slice(), text, errors) {
                if line.len() > 2 && matches!(line[0].kind, Jam1Token::Identifier) && matches!(
                    line[1].kind,
                    Jam1Token::Punctuation(PunctuationKind::Colon)
                ) {
                    parse_statement(
                        slice_subrange(line.as_slice(), 0, 2),
                        &mut statements,
                        errors,
                    );
                    parse_statement(
                        slice_subrange(line.as_slice(), 2, line.len()),
                        &mut statements,
                        errors,
                    );
                } else {
                    parse_statement(line.as_slice(), &mut statements, errors);
                }
            }
        }
        if end >= tokens.len() {
            at = end;
        } else {
            at = end + 1;
        }
    }
    statements
}

} // verus!
