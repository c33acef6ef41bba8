//! Diagnostics as text for a terminal: a headline and the lines of the
//! source at fault, with the part at fault underlined.

use crate::assembler::error::AssemblerError;
use crate::assembler::lexer::{LINE_FEED, QUOTE};
use crate::assembler::parser::{Expected, ParseError};
use crate::assembler::lexer::{scan_string_literal, spec_string_literal};
use crate::assembler::span::{spec_file_text, FileServer, SourceFileModel, TextSpan};
use vstd::prelude::*;
use vstd::string::StringSliceAdditionalSpecFns;

verus! {

pub const CARRIAGE_RETURN: u8 = 0x0D;

pub const SPACE: u8 = 0x20;

pub const CARET: u8 = 0x5E;

/// What the bytes stand for as text. Bytes that are UTF-8 stand for the
/// text they encode; any others are replaced.
pub uninterp spec fn spec_text_from_utf8(bytes: Seq<u8>) -> Seq<char>;

/// `String::from_utf8_lossy`: the text that the bytes stand for. Bytes
/// that are valid UTF-8 come back as the text they encode, unchanged.
#[verifier::external_body]
fn text_from_utf8(bytes: &Vec<u8>) -> (text: String)
    ensures
        text@ == spec_text_from_utf8(bytes@),
        vstd::utf8::valid_utf8(bytes@) ==> text@ == vstd::utf8::decode_utf8(bytes@),
{
    String::from_utf8_lossy(bytes).into_owned()
}

fn push_text(out: &mut Vec<u8>, text: &str)
    ensures
        final(out)@ == old(out)@ + text.spec_bytes(),
{
    push_bytes(out, text.as_bytes());
}

fn push_bytes(out: &mut Vec<u8>, bytes: &[u8])
    ensures
        final(out)@ == old(out)@ + bytes@,
{
    let mut i: usize = 0;
    while i < bytes.len()
        invariant
            i <= bytes@.len(),
            out@ == old(out)@ + bytes@.take(i as int),
        decreases bytes@.len() - i,
    {
        out.push(bytes[i]);
        i += 1;
        assert(out@ =~= old(out)@ + bytes@.take(i as int));
    }
    assert(bytes@.take(i as int) =~= bytes@);
}

/// `count` times the byte `byte`.
pub open spec fn spec_repeat(byte: u8, count: nat) -> Seq<u8> {
    Seq::new(count, |i: int| byte)
}

fn push_repeated(out: &mut Vec<u8>, byte: u8, count: usize)
    ensures
        final(out)@ == old(out)@ + spec_repeat(byte, count as nat),
{
    let mut i: usize = 0;
    while i < count
        invariant
            i <= count,
            out@ == old(out)@ + spec_repeat(byte, i as nat),
        decreases count - i,
    {
        out.push(byte);
        i += 1;
        assert(out@ =~= old(out)@ + spec_repeat(byte, i as nat));
    }
}

/// The digits of `n` in base ten.
pub open spec fn spec_decimal(n: nat) -> Seq<u8>
    decreases n,
{
    if n < 10 {
        seq![(0x30 + n) as u8]
    } else {
        spec_decimal(n / 10).push((0x30 + n % 10) as u8)
    }
}

pub fn decimal(n: usize) -> (digits: Vec<u8>)
    ensures
        digits@ == spec_decimal(n as nat),
        digits@.len() >= 1,
    decreases n,
{
    if n < 10 {
        let digits: Vec<u8> = vec![0x30u8 + n as u8];
        assert(digits@ =~= spec_decimal(n as nat));
        digits
    } else {
        let mut digits = decimal(n / 10);
        digits.push(0x30u8 + (n % 10) as u8);
        digits
    }
}

/// Where the line that holds the byte `at` starts.
pub open spec fn spec_line_start(text: Seq<u8>, at: int) -> int
    decreases at,
{
    if at <= 0 || at > text.len() {
        0
    } else if text[at - 1] == LINE_FEED {
        at
    } else {
        spec_line_start(text, at - 1)
    }
}

/// Where the line that starts at `at` ends: before its line feed, and
/// before the carriage return if one stands before the line feed.
pub open spec fn spec_line_end(text: Seq<u8>, at: int) -> int
    decreases text.len() - at,
{
    if at < 0 || at >= text.len() {
        at
    } else if text[at] == LINE_FEED {
        at
    } else if text[at] == CARRIAGE_RETURN && at + 1 < text.len() && text[at + 1] == LINE_FEED {
        at
    } else {
        spec_line_end(text, at + 1)
    }
}

/// The number of line feeds among the first `upto` bytes.
pub open spec fn spec_count_lines(text: Seq<u8>, upto: int) -> nat
    decreases upto,
{
    if upto <= 0 || upto > text.len() {
        0
    } else if text[upto - 1] == LINE_FEED {
        spec_count_lines(text, upto - 1) + 1
    } else {
        spec_count_lines(text, upto - 1)
    }
}

/// The number of characters that start among the bytes from `from` up to
/// `to`: the bytes that are no continuation bytes.
pub open spec fn spec_count_chars(text: Seq<u8>, from: int, to: int) -> nat
    decreases to - from,
{
    if to <= from || from < 0 || to > text.len() {
        0
    } else if 0x80 <= text[to - 1] < 0xC0 {
        spec_count_chars(text, from, to - 1)
    } else {
        spec_count_chars(text, from, to - 1) + 1
    }
}

proof fn lemma_counts(text: Seq<u8>, from: int, to: int)
    requires
        0 <= from <= to <= text.len(),
    ensures
        spec_count_lines(text, to) <= to,
        spec_count_chars(text, from, to) <= to - from,
    decreases to,
{
    if to > 0 {
        lemma_counts(text, 0, to - 1);
    }
    if to > from {
        lemma_counts(text, from, to - 1);
    }
}

fn line_start(text: &[u8], at: usize) -> (start: usize)
    requires
        at <= text@.len(),
    ensures
        start == spec_line_start(text@, at as int),
        start <= at,
{
    let mut i: usize = at;
    while i > 0 && text[i - 1] != LINE_FEED
        invariant
            i <= at <= text@.len(),
            spec_line_start(text@, at as int) == spec_line_start(text@, i as int),
        decreases i,
    {
        i -= 1;
    }
    i
}

fn line_end(text: &[u8], at: usize) -> (end: usize)
    requires
        at <= text@.len(),
    ensures
        end == spec_line_end(text@, at as int),
        at <= end <= text@.len(),
{
    let mut i: usize = at;
    while i < text.len() && text[i] != LINE_FEED && !(text[i] == CARRIAGE_RETURN && i + 1
        < text.len() && text[i + 1] == LINE_FEED)
        invariant
            at <= i <= text@.len(),
            spec_line_end(text@, at as int) == spec_line_end(text@, i as int),
        decreases text@.len() - i,
    {
        i += 1;
    }
    i
}

fn count_lines(text: &[u8], upto: usize) -> (count: usize)
    requires
        upto <= text@.len(),
    ensures
        count == spec_count_lines(text@, upto as int),
{
    let mut count: usize = 0;
    let mut i: usize = 0;
    while i < upto
        invariant
            i <= upto <= text@.len(),
            count == spec_count_lines(text@, i as int),
            count <= i,
        decreases upto - i,
    {
        if text[i] == LINE_FEED {
            count += 1;
        }
        i += 1;
    }
    count
}

fn count_chars(text: &[u8], from: usize, to: usize) -> (count: usize)
    requires
        from <= to <= text@.len(),
    ensures
        count == spec_count_chars(text@, from as int, to as int),
{
    let mut count: usize = 0;
    let mut i: usize = from;
    while i < to
        invariant
            from <= i <= to <= text@.len(),
            count == spec_count_chars(text@, from as int, i as int),
            count <= i - from,
        decreases to - i,
    {
        if !(0x80 <= text[i] && text[i] < 0xC0) {
            count += 1;
        }
        i += 1;
    }
    count
}

/// What a hint shows: the line of the source, its number, and where the
/// carets stand.
pub struct HintModel {
    /// The line of the source, without its end.
    pub line: Seq<u8>,
    /// The number of the line in base ten, counted from 1.
    pub number: Seq<u8>,
    /// The number of columns before the first caret.
    pub indent: nat,
    /// The number of carets.
    pub width: nat,
}

/// What the hint for `span` shows. The line is the one that holds the
/// start of the span. The carets stand under `range`, counted in columns
/// from the start of the span, or under the whole span as far as it lies
/// in the line; there is at least one.
pub open spec fn spec_hint_model(
    files: Seq<SourceFileModel>,
    span: TextSpan,
    range: Option<(usize, usize)>,
) -> HintModel {
    let text = spec_file_text(files, span.file_id);
    let from = if span.start_byte_offset <= text.len() {
        span.start_byte_offset as int
    } else {
        text.len() as int
    };
    let to = if from <= span.end_byte_offset <= text.len() {
        span.end_byte_offset as int
    } else {
        from
    };
    let start = spec_line_start(text, from);
    let end = spec_line_end(text, start);
    let start_column = spec_count_chars(text, start, from);
    let end_column = if spec_line_start(text, to) == start {
        spec_count_chars(text, start, to)
    } else {
        spec_count_chars(text, start, end)
    };
    let (hint_start, hint_end) = match range {
        Some((a, b)) => (a as int, b as int),
        None => (
            0int,
            if end_column >= start_column {
                end_column - start_column
            } else {
                0
            },
        ),
    };
    HintModel {
        line: if start <= end <= text.len() {
            text.subrange(start, end)
        } else {
            Seq::empty()
        },
        number: spec_decimal(
            if spec_count_lines(text, from) < usize::MAX {
                spec_count_lines(text, from) + 1
            } else {
                usize::MAX as nat
            },
        ),
        indent: if start_column + hint_start <= usize::MAX {
            (start_column + hint_start) as nat
        } else {
            usize::MAX as nat
        },
        width: if hint_end - hint_start >= 1 {
            (hint_end - hint_start) as nat
        } else {
            1
        },
    }
}

impl HintModel {
    /// An empty line of the margin, in bold.
    pub open spec fn margin_line(self) -> Seq<u8> {
        "\x1B[1m\x1B[36m".spec_bytes() + spec_repeat(SPACE, self.number.len())
            + " |\x1B[39m\r\n".spec_bytes()
    }

    /// The line of the source behind its number.
    pub open spec fn source_line(self) -> Seq<u8> {
        "\x1B[36m".spec_bytes() + self.number + " |\x1B[39m\x1B[22m  ".spec_bytes() + self.line
            + "\r\n".spec_bytes()
    }

    /// The carets in the color `color`.
    pub open spec fn caret_line(self, color: &str) -> Seq<u8> {
        "\x1B[1m\x1B[36m".spec_bytes() + spec_repeat(SPACE, self.number.len())
            + " |\x1B[39m  ".spec_bytes() + spec_repeat(SPACE, self.indent) + color.spec_bytes()
            + spec_repeat(CARET, self.width) + "\x1B[39m\r\n".spec_bytes()
    }

    /// An empty line of the margin.
    pub open spec fn closing_line(self) -> Seq<u8> {
        "\x1B[36m".spec_bytes() + spec_repeat(SPACE, self.number.len())
            + " |\x1B[39m\x1B[22m\r\n".spec_bytes()
    }
}

/// The hint for `span` as the terminal takes it: a margin line, the line
/// of the source, the carets, a margin line.
pub open spec fn spec_hint(
    files: Seq<SourceFileModel>,
    span: TextSpan,
    color: &str,
    range: Option<(usize, usize)>,
) -> Seq<u8> {
    let hint = spec_hint_model(files, span, range);
    hint.margin_line() + hint.source_line() + hint.caret_line(color) + hint.closing_line()
}

/// What a hint shows.
pub struct Hint {
    pub line: Vec<u8>,
    pub number: Vec<u8>,
    pub indent: usize,
    pub width: usize,
}

impl View for Hint {
    type V = HintModel;

    open spec fn view(&self) -> HintModel {
        HintModel {
            line: self.line@,
            number: self.number@,
            indent: self.indent as nat,
            width: self.width as nat,
        }
    }
}

fn hint_for(files: &FileServer, span: TextSpan, hint_range: Option<(usize, usize)>) -> (hint: Hint)
    ensures
        hint@ == spec_hint_model(files@, span, hint_range),
{
    let empty: Vec<u8> = Vec::new();
    let text: &Vec<u8> = match files.get_file(span.file_id) {
        Some(file) => if file.failed() {
            &empty
        } else {
            file.text()
        },
        None => &empty,
    };
    assert(text@ =~= spec_file_text(files@, span.file_id));
    let text = text.as_slice();
    let from: usize = if span.start_byte_offset <= text.len() {
        span.start_byte_offset
    } else {
        text.len()
    };
    let to: usize = if from <= span.end_byte_offset && span.end_byte_offset <= text.len() {
        span.end_byte_offset
    } else {
        from
    };
    let start = line_start(text, from);
    let end = line_end(text, start);
    proof {
        lemma_counts(text@, 0, from as int);
        lemma_counts(text@, start as int, from as int);
    }
    let number = decimal(count_lines(text, from).saturating_add(1));
    let start_column = count_chars(text, start, from);
    let end_column = if line_start(text, to) == start {
        count_chars(text, start, to)
    } else {
        count_chars(text, start, end)
    };
    let (hint_start, hint_end): (usize, usize) = match hint_range {
        Some((a, b)) => (a, b),
        None => (
            0,
            if end_column >= start_column {
                end_column - start_column
            } else {
                0
            },
        ),
    };
    let width: usize = if hint_end > hint_start {
        hint_end - hint_start
    } else {
        1
    };
    let indent: usize = start_column.saturating_add(hint_start);
    let line = crate::assembler::lexer::copy_range(text, start, end);
    Hint { line, number, indent, width }
}

fn push_margin_line(out: &mut Vec<u8>, hint: &Hint)
    ensures
        final(out)@ == old(out)@ + hint@.margin_line(),
{
    push_text(out, "\x1B[1m\x1B[36m");
    push_repeated(out, SPACE, hint.number.len());
    push_text(out, " |\x1B[39m\r\n");
    assert(out@ =~= old(out)@ + hint@.margin_line());
}

fn push_source_line(out: &mut Vec<u8>, hint: &Hint)
    ensures
        final(out)@ == old(out)@ + hint@.source_line(),
{
    push_text(out, "\x1B[36m");
    push_bytes(out, hint.number.as_slice());
    push_text(out, " |\x1B[39m\x1B[22m  ");
    push_bytes(out, hint.line.as_slice());
    push_text(out, "\r\n");
    assert(out@ =~= old(out)@ + hint@.source_line());
}

fn push_caret_line(out: &mut Vec<u8>, hint: &Hint, color: &str)
    ensures
        final(out)@ == old(out)@ + hint@.caret_line(color),
{
    push_text(out, "\x1B[1m\x1B[36m");
    push_repeated(out, SPACE, hint.number.len());
    push_text(out, " |\x1B[39m  ");
    push_repeated(out, SPACE, hint.indent);
    push_text(out, color);
    push_repeated(out, CARET, hint.width);
    push_text(out, "\x1B[39m\r\n");
    assert(out@ =~= old(out)@ + hint@.caret_line(color));
}

fn push_closing_line(out: &mut Vec<u8>, hint: &Hint)
    ensures
        final(out)@ == old(out)@ + hint@.closing_line(),
{
    push_text(out, "\x1B[36m");
    push_repeated(out, SPACE, hint.number.len());
    push_text(out, " |\x1B[39m\x1B[22m\r\n");
    assert(out@ =~= old(out)@ + hint@.closing_line());
}

/// Appends the line of the source that holds the start of `span`, between
/// two margin lines, and under it carets in the color `hint_color`. The
/// carets stand under `hint_range`, counted in columns from the start of
/// the span, or under the whole span as far as it lies in the line.
pub fn format_code_hint(
    out: &mut Vec<u8>,
    files: &FileServer,
    span: TextSpan,
    hint_color: &str,
    hint_range: Option<(usize, usize)>,
)
    ensures
        final(out)@ == old(out)@ + spec_hint(files@, span, hint_color, hint_range),
{
    let hint = hint_for(files, span, hint_range);
    push_margin_line(out, &hint);
    push_source_line(out, &hint);
    push_caret_line(out, &hint, hint_color);
    push_closing_line(out, &hint);
    assert(out@ =~= old(out)@ + spec_hint(files@, span, hint_color, hint_range));
}

impl Expected {
    /// What was expected, in words.
    pub open spec fn spec_text(self) -> Seq<char> {
        match self {
            Expected::Expression => "expression"@,
            Expected::ExpressionOrClosingParenthesis => "expression or `)`"@,
            Expected::IntegerLiteralOrOpeningParenthesis => "integer literal or `(`"@,
            Expected::ColonOrEqualSign => "`:` or `=`"@,
            Expected::IntegerLiteral => "integer literal"@,
            Expected::StringLiteral => "string literal"@,
            Expected::Register => "register"@,
            Expected::ClosingBracket => "`]`"@,
            Expected::RegisterOrMemoryLocation => "register or memory location"@,
            Expected::Comma => "`,`"@,
            Expected::ExpressionRegisterOrMemoryLocation => {
                "expression, register or memory location"@
            },
            Expected::RegisterOrExpression => "register or expression"@,
            Expected::IoRegister => "IO register"@,
        }
    }

    pub fn text(self) -> (text: &'static str)
        ensures
            text@ == self.spec_text(),
    {
        match self {
            Expected::Expression => "expression",
            Expected::ExpressionOrClosingParenthesis => "expression or `)`",
            Expected::IntegerLiteralOrOpeningParenthesis => "integer literal or `(`",
            Expected::ColonOrEqualSign => "`:` or `=`",
            Expected::IntegerLiteral => "integer literal",
            Expected::StringLiteral => "string literal",
            Expected::Register => "register",
            Expected::ClosingBracket => "`]`",
            Expected::RegisterOrMemoryLocation => "register or memory location",
            Expected::Comma => "`,`",
            Expected::ExpressionRegisterOrMemoryLocation => {
                "expression, register or memory location"
            },
            Expected::RegisterOrExpression => "register or expression",
            Expected::IoRegister => "IO register",
        }
    }
}

impl AssemblerError {
    /// What is wrong, in words. The errors that name sections or say
    /// what was expected have a headline of their own.
    pub open spec fn spec_message(self) -> Seq<char> {
        match self {
            AssemblerError::UnclosedBlockComment { .. } => "block comment is not closed"@,
            AssemblerError::InvalidDirective { .. } => "unknown directive"@,
            AssemblerError::InvalidIntegerLiteral { .. } => "literal contains invalid characters"@,
            AssemblerError::UnclosedStringLiteral { .. } => "literal is missing closing quotes"@,
            AssemblerError::InvalidEscapeSequence { .. } => "unknown escape sequence"@,
            AssemblerError::InvalidChars { .. } => "invalid characters in input"@,
            AssemblerError::DuplicateSectionBase { .. } => {
                "section base address is defined twice"@
            },
            AssemblerError::DuplicateLabel { .. } => "symbol is defined twice"@,
            AssemblerError::SectionTooLarge { .. } => "section is too large"@,
            AssemblerError::InvalidValue { .. } => "value is not valid for this directive"@,
            AssemblerError::InvalidOriginDirective { .. } => "origin has already been defined"@,
            AssemblerError::UndefinedSection { .. } => "statement is only valid inside a section"@,
            AssemblerError::OverlappingSections { .. } => "sections are overlapping"@,
            AssemblerError::DivideByZero { .. } => {
                "divide by zero error while evaluating expression"@
            },
            AssemblerError::UndefinedSymbol { .. } => "symbol is not defined"@,
            AssemblerError::CyclicExpression { .. } => {
                "expression cannot be evaluated due to cyclic dependencies"@
            },
            AssemblerError::IncludeError { .. } => "failed to include file"@,
            AssemblerError::IncludeTooDeep { .. } => "files are included too deeply"@,
            AssemblerError::IncludeUnsupported { .. } => {
                "including files is not supported in this environment"@
            },
            AssemblerError::ParseError(error) => match error {
                ParseError::UnexpectedToken { .. } => "unexpected token"@,
                ParseError::InvalidOperands { .. } => {
                    "instruction does not support this combination of operands"@
                },
                ParseError::InvalidRegister { .. } => {
                    "register is not supported by this instruction"@
                },
                ParseError::TokensRemaining { .. } => "unexpected tokens after complete statement"@,
                ParseError::NoMatch { .. } => "unknown statement"@,
            },
        }
    }

    pub fn message(&self) -> (text: &'static str)
        ensures
            text@ == self.spec_message(),
    {
        match self {
            AssemblerError::UnclosedBlockComment { .. } => "block comment is not closed",
            AssemblerError::InvalidDirective { .. } => "unknown directive",
            AssemblerError::InvalidIntegerLiteral { .. } => "literal contains invalid characters",
            AssemblerError::UnclosedStringLiteral { .. } => "literal is missing closing quotes",
            AssemblerError::InvalidEscapeSequence { .. } => "unknown escape sequence",
            AssemblerError::InvalidChars { .. } => "invalid characters in input",
            AssemblerError::DuplicateSectionBase { .. } => "section base address is defined twice",
            AssemblerError::DuplicateLabel { .. } => "symbol is defined twice",
            AssemblerError::SectionTooLarge { .. } => "section is too large",
            AssemblerError::InvalidValue { .. } => "value is not valid for this directive",
            AssemblerError::InvalidOriginDirective { .. } => "origin has already been defined",
            AssemblerError::UndefinedSection { .. } => "statement is only valid inside a section",
            AssemblerError::OverlappingSections { .. } => "sections are overlapping",
            AssemblerError::DivideByZero { .. } => {
                "divide by zero error while evaluating expression"
            },
            AssemblerError::UndefinedSymbol { .. } => "symbol is not defined",
            AssemblerError::CyclicExpression { .. } => {
                "expression cannot be evaluated due to cyclic dependencies"
            },
            AssemblerError::IncludeError { .. } => "failed to include file",
            AssemblerError::IncludeTooDeep { .. } => "files are included too deeply",
            AssemblerError::IncludeUnsupported { .. } => {
                "including files is not supported in this environment"
            },
            AssemblerError::ParseError(error) => match error {
                ParseError::UnexpectedToken { .. } => "unexpected token",
                ParseError::InvalidOperands { .. } => {
                    "instruction does not support this combination of operands"
                },
                ParseError::InvalidRegister { .. } => {
                    "register is not supported by this instruction"
                },
                ParseError::TokensRemaining { .. } => "unexpected tokens after complete statement",
                ParseError::NoMatch { .. } => "unknown statement",
            },
        }
    }
}

/// The name of the section that the string literal at `name` gives.
pub open spec fn spec_section_name(files: Seq<SourceFileModel>, name: TextSpan) -> Seq<u8> {
    let text = spec_file_text(files, name.file_id);
    if name.start_byte_offset < text.len() && text[name.start_byte_offset as int] == QUOTE
        && spec_string_literal(text, name.start_byte_offset as int).errors.len() == 0 {
        spec_string_literal(text, name.start_byte_offset as int).value
    } else {
        Seq::empty()
    }
}

fn section_name(files: &FileServer, name: TextSpan) -> (value: Vec<u8>)
    ensures
        value@ == spec_section_name(files@, name),
{
    match files.get_file(name.file_id) {
        Some(file) => {
            if !file.failed() && name.start_byte_offset < file.text().len() && file.text()[name.start_byte_offset]
                == QUOTE {
                let (value, errors, _) = scan_string_literal(
                    file.text().as_slice(),
                    name.start_byte_offset,
                );
                if errors.len() == 0 {
                    value
                } else {
                    Vec::new()
                }
            } else {
                Vec::new()
            }
        },
        None => Vec::new(),
    }
}

impl AssemblerError {
    /// The headline: `Error` in bold red, then what is wrong.
    pub open spec fn spec_headline(self, files: Seq<SourceFileModel>) -> Seq<u8> {
        let lead = "\x1B[1m\x1B[31mError\x1B[39m: ".spec_bytes();
        let tail = "\x1B[22m\r\n".spec_bytes();
        match self {
            AssemblerError::SectionTooLarge { section } => lead + "section `".spec_bytes()
                + spec_section_name(files, section) + "` is too large".spec_bytes() + tail,
            AssemblerError::OverlappingSections { first, second } => lead
                + "sections `".spec_bytes() + spec_section_name(files, first)
                + "` and `".spec_bytes() + spec_section_name(files, second)
                + "` are overlapping".spec_bytes() + tail,
            AssemblerError::ParseError(ParseError::UnexpectedToken { token, expected }) => lead
                + "expected ".spec_bytes() + vstd::utf8::encode_utf8(expected.spec_text())
                + "\r\n".spec_bytes(),
            _ => lead + vstd::utf8::encode_utf8(self.spec_message()) + tail,
        }
    }

    /// The diagnostic as text for a terminal: the headline and, for the
    /// errors that point at the source, the line at fault with the part
    /// at fault underlined in red. An error about a second definition
    /// shows the first one too, underlined in blue.
    pub open spec fn spec_format(self, files: Seq<SourceFileModel>) -> Seq<u8> {
        let headline = self.spec_headline(files);
        let red = "\x1B[31m";
        let blue = "\x1B[34m";
        match self {
            AssemblerError::UnclosedBlockComment { comment } => headline + spec_hint(
                files,
                comment,
                red,
                None,
            ),
            AssemblerError::InvalidDirective { directive } => headline + spec_hint(
                files,
                directive,
                red,
                None,
            ),
            AssemblerError::InvalidIntegerLiteral { literal } => headline + spec_hint(
                files,
                literal,
                red,
                None,
            ),
            AssemblerError::UnclosedStringLiteral { literal } => headline + spec_hint(
                files,
                literal,
                red,
                None,
            ),
            AssemblerError::InvalidEscapeSequence { literal, start, end } => headline + spec_hint(
                files,
                literal,
                red,
                Some((start, end)),
            ),
            AssemblerError::InvalidChars { span } => headline + spec_hint(files, span, red, None),
            AssemblerError::DuplicateSectionBase { value, previous } => headline + spec_hint(
                files,
                value,
                red,
                None,
            ) + "Previous definition:\r\n".spec_bytes() + spec_hint(files, previous, blue, None),
            AssemblerError::DuplicateLabel { previous, duplicate } => headline + spec_hint(
                files,
                duplicate,
                red,
                None,
            ) + "Previous definition:\r\n".spec_bytes() + spec_hint(files, previous, blue, None),
            AssemblerError::SectionTooLarge { section } => headline,
            AssemblerError::InvalidValue { value, directive } => headline + spec_hint(
                files,
                value,
                red,
                None,
            ),
            AssemblerError::InvalidOriginDirective { directive } => headline + spec_hint(
                files,
                directive,
                red,
                None,
            ),
            AssemblerError::UndefinedSection { statement } => headline + spec_hint(
                files,
                statement,
                red,
                None,
            ),
            AssemblerError::OverlappingSections { first, second } => headline,
            AssemblerError::DivideByZero { expr } => headline + spec_hint(files, expr, red, None),
            AssemblerError::UndefinedSymbol { ident } => headline + spec_hint(
                files,
                ident,
                red,
                None,
            ),
            AssemblerError::CyclicExpression { expr } => headline + spec_hint(
                files,
                expr,
                red,
                None,
            ),
            AssemblerError::IncludeError { directive, path, file } => headline + (if 0 < file.index
                < files.len() {
                files[file.index as int].text
            } else {
                "file is not loaded".spec_bytes()
            }) + "\r\n".spec_bytes() + spec_hint(files, directive, red, None),
            AssemblerError::IncludeTooDeep { directive } => headline + spec_hint(
                files,
                directive,
                red,
                None,
            ),
            AssemblerError::IncludeUnsupported { directive } => headline + spec_hint(
                files,
                directive,
                red,
                None,
            ),
            AssemblerError::ParseError(error) => match error {
                ParseError::UnexpectedToken { token, expected } => headline + spec_hint(
                    files,
                    token,
                    red,
                    None,
                ),
                ParseError::InvalidOperands { op1, op2 } => headline + spec_hint(
                    files,
                    op1.spec_cover(op2),
                    red,
                    None,
                ),
                ParseError::InvalidRegister { register } => headline + spec_hint(
                    files,
                    register,
                    red,
                    None,
                ),
                ParseError::TokensRemaining { span } => headline + spec_hint(
                    files,
                    span,
                    red,
                    None,
                ),
                ParseError::NoMatch { span } => headline + spec_hint(files, span, red, None),
            },
        }
    }

    fn push_headline(&self, out: &mut Vec<u8>, files: &FileServer)
        ensures
            final(out)@ == old(out)@ + self.spec_headline(files@),
    {
        let ghost before = out@;
        push_text(out, "\x1B[1m\x1B[31mError\x1B[39m: ");
        match self {
            AssemblerError::SectionTooLarge { section } => {
                push_text(out, "section `");
                let name = section_name(files, *section);
                push_bytes(out, name.as_slice());
                push_text(out, "` is too large");
                push_text(out, "\x1B[22m\r\n");
            },
            AssemblerError::OverlappingSections { first, second } => {
                push_text(out, "sections `");
                let first_name = section_name(files, *first);
                push_bytes(out, first_name.as_slice());
                push_text(out, "` and `");
                let second_name = section_name(files, *second);
                push_bytes(out, second_name.as_slice());
                push_text(out, "` are overlapping");
                push_text(out, "\x1B[22m\r\n");
            },
            AssemblerError::ParseError(ParseError::UnexpectedToken { token, expected }) => {
                push_text(out, "expected ");
                push_text(out, expected.text());
                push_text(out, "\r\n");
            },
            _ => {
                push_text(out, self.message());
                push_text(out, "\x1B[22m\r\n");
            },
        }
        assert(out@ =~= before + self.spec_headline(files@));
    }

    /// The diagnostic as bytes of UTF-8.
    pub fn format_bytes(&self, files: &FileServer) -> (out: Vec<u8>)
        ensures
            out@ == self.spec_format(files@),
    {
        let mut out: Vec<u8> = Vec::new();
        self.push_headline(&mut out, files);
        let red = "\x1B[31m";
        let blue = "\x1B[34m";
        let ghost headline = out@;
        assert(headline =~= self.spec_headline(files@));
        match self {
            AssemblerError::UnclosedBlockComment { comment } => {
                format_code_hint(&mut out, files, *comment, red, None);
            },
            AssemblerError::InvalidDirective { directive } => {
                format_code_hint(&mut out, files, *directive, red, None);
            },
            AssemblerError::InvalidIntegerLiteral { literal } => {
                format_code_hint(&mut out, files, *literal, red, None);
            },
            AssemblerError::UnclosedStringLiteral { literal } => {
                format_code_hint(&mut out, files, *literal, red, None);
            },
            AssemblerError::InvalidEscapeSequence { literal, start, end } => {
                format_code_hint(&mut out, files, *literal, red, Some((*start, *end)));
            },
            AssemblerError::InvalidChars { span } => {
                format_code_hint(&mut out, files, *span, red, None);
            },
            AssemblerError::DuplicateSectionBase { value, previous } => {
                format_code_hint(&mut out, files, *value, red, None);
                push_text(&mut out, "Previous definition:\r\n");
                format_code_hint(&mut out, files, *previous, blue, None);
            },
            AssemblerError::DuplicateLabel { previous, duplicate } => {
                format_code_hint(&mut out, files, *duplicate, red, None);
                push_text(&mut out, "Previous definition:\r\n");
                format_code_hint(&mut out, files, *previous, blue, None);
            },
            AssemblerError::SectionTooLarge { section } => {},
            AssemblerError::InvalidValue { value, directive } => {
                format_code_hint(&mut out, files, *value, red, None);
            },
            AssemblerError::InvalidOriginDirective { directive } => {
                format_code_hint(&mut out, files, *directive, red, None);
            },
            AssemblerError::UndefinedSection { statement } => {
                format_code_hint(&mut out, files, *statement, red, None);
            },
            AssemblerError::OverlappingSections { first, second } => {},
            AssemblerError::DivideByZero { expr } => {
                format_code_hint(&mut out, files, *expr, red, None);
            },
            AssemblerError::UndefinedSymbol { ident } => {
                format_code_hint(&mut out, files, *ident, red, None);
            },
            AssemblerError::CyclicExpression { expr } => {
                format_code_hint(&mut out, files, *expr, red, None);
            },
            AssemblerError::IncludeError { directive, path, file } => {
                let reason = if file.index > 0 {
                    files.get_file(*file)
                } else {
                    None
                };
                match reason {
                    Some(record) => {
                        push_bytes(&mut out, record.text().as_slice());
                    },
                    None => {
                        push_text(&mut out, "file is not loaded");
                    },
                }
                push_text(&mut out, "\r\n");
                format_code_hint(&mut out, files, *directive, red, None);
            },
            AssemblerError::IncludeTooDeep { directive } => {
                format_code_hint(&mut out, files, *directive, red, None);
            },
            AssemblerError::IncludeUnsupported { directive } => {
                format_code_hint(&mut out, files, *directive, red, None);
            },
            AssemblerError::ParseError(error) => match error {
                ParseError::UnexpectedToken { token, expected } => {
                    format_code_hint(&mut out, files, *token, red, None);
                },
                ParseError::InvalidOperands { op1, op2 } => {
                    format_code_hint(&mut out, files, op1.cover(*op2), red, None);
                },
                ParseError::InvalidRegister { register } => {
                    format_code_hint(&mut out, files, *register, red, None);
                },
                ParseError::TokensRemaining { span } => {
                    format_code_hint(&mut out, files, *span, red, None);
                },
                ParseError::NoMatch { span } => {
                    format_code_hint(&mut out, files, *span, red, None);
                },
            },
        }
        assert(out@ =~= self.spec_format(files@));
        out
    }

    /// The diagnostic as text. Where its bytes are UTF-8, as they are
    /// for files that are UTF-8, the text is what they encode.
    pub fn format(&self, files: &FileServer) -> (text: String)
        ensures
            text@ == spec_text_from_utf8(self.spec_format(files@)),
            vstd::utf8::valid_utf8(self.spec_format(files@)) ==> text@ == vstd::utf8::decode_utf8(
                self.spec_format(files@),
            ),
    {
        let out = self.format_bytes(files);
        text_from_utf8(&out)
    }
}

/// The first `upto` diagnostics as text, with a line feed between one and
/// the next.
pub open spec fn spec_format_all(
    errors: Seq<AssemblerError>,
    files: Seq<SourceFileModel>,
    upto: int,
) -> Seq<u8>
    decreases upto,
{
    if upto <= 0 || upto > errors.len() {
        Seq::empty()
    } else if upto == 1 {
        errors[0].spec_format(files)
    } else {
        spec_format_all(errors, files, upto - 1).push(LINE_FEED) + errors[upto - 1].spec_format(
            files,
        )
    }
}

/// All diagnostics as bytes of UTF-8.
pub fn format_all(errors: &Vec<AssemblerError>, files: &FileServer) -> (out: Vec<u8>)
    ensures
        out@ == spec_format_all(errors@, files@, errors@.len() as int),
{
    let mut out: Vec<u8> = Vec::new();
    let mut i: usize = 0;
    while i < errors.len()
        invariant
            i <= errors@.len(),
            out@ == spec_format_all(errors@, files@, i as int),
        decreases errors@.len() - i,
    {
        let ghost before = out@;
        if i > 0 {
            out.push(LINE_FEED);
        }
        let one = errors[i].format_bytes(files);
        push_bytes(&mut out, one.as_slice());
        i += 1;
        assert(out@ =~= spec_format_all(errors@, files@, i as int));
    }
    out
}

/// The bytes as text.
pub fn bytes_to_text(bytes: &Vec<u8>) -> (text: String)
    ensures
        text@ == spec_text_from_utf8(bytes@),
        vstd::utf8::valid_utf8(bytes@) ==> text@ == vstd::utf8::decode_utf8(bytes@),
{
    text_from_utf8(bytes)
}

/// The text with four spaces in place of each tab.
pub open spec fn spec_expand_tabs(text: Seq<u8>, upto: int) -> Seq<u8>
    decreases upto,
{
    if upto <= 0 || upto > text.len() {
        Seq::empty()
    } else if text[upto - 1] == 0x09 {
        spec_expand_tabs(text, upto - 1) + spec_repeat(SPACE, 4)
    } else {
        spec_expand_tabs(text, upto - 1).push(text[upto - 1])
    }
}

pub fn expand_tabs(text: &[u8]) -> (out: Vec<u8>)
    ensures
        out@ == spec_expand_tabs(text@, text@.len() as int),
{
    let mut out: Vec<u8> = Vec::new();
    let mut i: usize = 0;
    while i < text.len()
        invariant
            i <= text@.len(),
            out@ == spec_expand_tabs(text@, i as int),
        decreases text@.len() - i,
    {
        if text[i] == 0x09 {
            push_repeated(&mut out, SPACE, 4);
        } else {
            out.push(text[i]);
        }
        i += 1;
    }
    out
}

} // verus!
