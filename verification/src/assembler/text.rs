//! Diagnostics are text: where the source files are UTF-8, so is every
//! diagnostic made from them.

use crate::assembler::error::AssemblerError;
use crate::assembler::format::{
    spec_count_lines, spec_decimal, spec_expand_tabs, spec_format_all, spec_hint,
    spec_hint_model, spec_line_end, spec_line_start, spec_repeat, spec_section_name, CARET,
    CARRIAGE_RETURN, SPACE,
};
use crate::assembler::lexer::{
    spec_digit_value, spec_escape, spec_hex_digits, spec_scan_string, Escape, ParseStringError,
    BACKSLASH, LINE_FEED, QUOTE,
};
use crate::assembler::parser::ParseError;
use crate::assembler::span::{spec_file_text, SourceFileModel, TextSpan};
use crate::assembler::spec_code_files;
use crate::utf8::{spec_char_len, spec_encode, spec_is_scalar};
use vstd::prelude::*;
use vstd::string::StringSliceAdditionalSpecFns;
use vstd::utf8::{
    encode_scalar, encode_utf8, encode_utf8_valid_utf8, is_char_boundary,
    is_char_boundary_iff_not_is_continuation_byte, is_char_boundary_start_end_of_seq,
    partial_valid_utf8_extend_ascii_block, pop_first_scalar, valid_utf8, valid_utf8_concat,
    valid_utf8_split,
};

verus! {

/// Whether the text of every file, and the message of every file that
/// could not be loaded, is UTF-8 and of a length that a machine can hold.
pub open spec fn spec_files_are_text(files: Seq<SourceFileModel>) -> bool {
    forall|i: int|
        0 <= i < files.len() ==> valid_utf8(#[trigger] files[i].text) && files[i].text.len()
            <= usize::MAX
}

/// Bytes below 0x80 are text.
pub proof fn lemma_ascii_is_text(bytes: Seq<u8>)
    requires
        forall|i: int| 0 <= i < bytes.len() ==> #[trigger] bytes[i] < 0x80,
    ensures
        valid_utf8(bytes),
{
    assert(bytes.subrange(0, 0) =~= Seq::<u8>::empty());
    partial_valid_utf8_extend_ascii_block(bytes, 0, bytes.len() as int);
    assert(bytes.subrange(0, bytes.len() as int) =~= bytes);
}

/// The bytes of a string are text.
pub proof fn lemma_string_is_text(s: &str)
    ensures
        valid_utf8(s.spec_bytes()),
{
    encode_utf8_valid_utf8(s@);
}

/// Three texts in a row are a text.
proof fn lemma_three(a: Seq<u8>, b: Seq<u8>, c: Seq<u8>)
    requires
        valid_utf8(a),
        valid_utf8(b),
        valid_utf8(c),
    ensures
        valid_utf8(a + b + c),
{
    valid_utf8_concat(a, b);
    valid_utf8_concat(a + b, c);
}

proof fn lemma_decimal_is_ascii(n: nat)
    ensures
        forall|i: int| 0 <= i < spec_decimal(n).len() ==> #[trigger] spec_decimal(n)[i] < 0x80,
    decreases n,
{
    if n >= 10 {
        lemma_decimal_is_ascii(n / 10);
        let digit = (0x30 + n % 10) as u8;
        assert(digit < 0x80);
        assert forall|i: int| 0 <= i < spec_decimal(n).len() implies #[trigger] spec_decimal(n)[i]
            < 0x80 by {
            if i < spec_decimal(n / 10).len() {
                assert(spec_decimal(n)[i] == spec_decimal(n / 10)[i]);
            }
        }
    } else {
        let digit = (0x30 + n) as u8;
        assert(digit < 0x80);
        assert(spec_decimal(n) =~= seq![digit]);
        assert(spec_decimal(n)[0] < 0x80);
    }
}

/// What follows a byte below 0x80 in a text is a text, and so is what
/// stands before it.
pub proof fn lemma_cut_after_ascii(text: Seq<u8>, at: int)
    requires
        valid_utf8(text),
        1 <= at <= text.len(),
        text[at - 1] < 0x80,
    ensures
        valid_utf8(text.subrange(at, text.len() as int)),
        valid_utf8(text.subrange(0, at)),
{
    is_char_boundary_iff_not_is_continuation_byte(text, at - 1);
    valid_utf8_split(text, at - 1);
    let tail = text.subrange(at - 1, text.len() as int);
    assert(tail[0] == text[at - 1]);
    assert(tail.subrange(1, tail.len() as int) =~= text.subrange(at, text.len() as int));
    let one = seq![text[at - 1]];
    lemma_ascii_is_text(one);
    valid_utf8_concat(text.subrange(0, at - 1), one);
    assert(text.subrange(0, at - 1) + one =~= text.subrange(0, at));
}

/// What stands before a byte that continues no character is a text, and
/// so is what stands from it on.
pub proof fn lemma_cut_before_lead(text: Seq<u8>, at: int)
    requires
        valid_utf8(text),
        0 <= at <= text.len(),
        at < text.len() ==> !(0x80 <= text[at] < 0xC0),
    ensures
        valid_utf8(text.subrange(at, text.len() as int)),
        valid_utf8(text.subrange(0, at)),
        is_char_boundary(text, at),
{
    if at < text.len() {
        is_char_boundary_iff_not_is_continuation_byte(text, at);
    } else {
        is_char_boundary_start_end_of_seq(text);
    }
    valid_utf8_split(text, at);
}

proof fn lemma_line_start_bounds(text: Seq<u8>, at: int)
    requires
        0 <= at <= text.len(),
    ensures
        0 <= spec_line_start(text, at) <= at,
        spec_line_start(text, at) > 0 ==> text[spec_line_start(text, at) - 1] == LINE_FEED,
    decreases at,
{
    if at > 0 && text[at - 1] != LINE_FEED {
        lemma_line_start_bounds(text, at - 1);
    }
}

proof fn lemma_line_end_bounds(text: Seq<u8>, at: int)
    requires
        0 <= at <= text.len(),
    ensures
        at <= spec_line_end(text, at) <= text.len(),
        spec_line_end(text, at) < text.len() ==> text[spec_line_end(text, at)] == LINE_FEED
            || text[spec_line_end(text, at)] == CARRIAGE_RETURN,
    decreases text.len() - at,
{
    if at < text.len() && text[at] != LINE_FEED && !(text[at] == CARRIAGE_RETURN && at + 1
        < text.len() && text[at + 1] == LINE_FEED) {
        lemma_line_end_bounds(text, at + 1);
    }
}

/// A line of a text is a text.
pub proof fn lemma_line_is_text(text: Seq<u8>, at: int)
    requires
        valid_utf8(text),
        0 <= at <= text.len(),
    ensures
        ({
            let start = spec_line_start(text, at);
            let end = spec_line_end(text, start);
            0 <= start <= end <= text.len() && valid_utf8(text.subrange(start, end))
        }),
{
    let start = spec_line_start(text, at);
    lemma_line_start_bounds(text, at);
    let end = spec_line_end(text, start);
    lemma_line_end_bounds(text, start);
    let rest = text.subrange(start, text.len() as int);
    if start > 0 {
        lemma_cut_after_ascii(text, start);
    } else {
        assert(rest =~= text);
    }
    if end < text.len() {
        assert(rest[end - start] == text[end]);
    }
    lemma_cut_before_lead(rest, end - start);
    assert(rest.subrange(0, end - start) =~= text.subrange(start, end));
}

/// The hint for a span in files that are text is a text.
pub proof fn lemma_hint_is_text(
    files: Seq<SourceFileModel>,
    span: TextSpan,
    color: &str,
    range: Option<(usize, usize)>,
)
    requires
        spec_files_are_text(files),
    ensures
        valid_utf8(spec_hint(files, span, color, range)),
{
    let hint = spec_hint_model(files, span, range);
    let text = spec_file_text(files, span.file_id);
    let from = if span.start_byte_offset <= text.len() {
        span.start_byte_offset as int
    } else {
        text.len() as int
    };
    assert(valid_utf8(text));
    lemma_line_is_text(text, from);
    assert(valid_utf8(hint.line));
    lemma_decimal_is_ascii(
        if spec_count_lines(text, from) < usize::MAX {
            spec_count_lines(text, from) + 1
        } else {
            usize::MAX as nat
        },
    );
    lemma_ascii_is_text(hint.number);
    let pad = spec_repeat(SPACE, hint.number.len());
    lemma_ascii_is_text(pad);
    let indent = spec_repeat(SPACE, hint.indent);
    lemma_ascii_is_text(indent);
    let carets = spec_repeat(CARET, hint.width);
    lemma_ascii_is_text(carets);
    lemma_string_is_text("\x1B[1m\x1B[36m");
    lemma_string_is_text(" |\x1B[39m\r\n");
    lemma_string_is_text("\x1B[36m");
    lemma_string_is_text(" |\x1B[39m\x1B[22m  ");
    lemma_string_is_text("\r\n");
    lemma_string_is_text(" |\x1B[39m  ");
    lemma_string_is_text(color);
    lemma_string_is_text("\x1B[39m\r\n");
    lemma_string_is_text(" |\x1B[39m\x1B[22m\r\n");
    lemma_three("\x1B[1m\x1B[36m".spec_bytes(), pad, " |\x1B[39m\r\n".spec_bytes());
    lemma_three("\x1B[36m".spec_bytes(), hint.number, " |\x1B[39m\x1B[22m  ".spec_bytes());
    lemma_three(
        "\x1B[36m".spec_bytes() + hint.number + " |\x1B[39m\x1B[22m  ".spec_bytes(),
        hint.line,
        "\r\n".spec_bytes(),
    );
    lemma_three("\x1B[1m\x1B[36m".spec_bytes(), pad, " |\x1B[39m  ".spec_bytes());
    lemma_three(
        "\x1B[1m\x1B[36m".spec_bytes() + pad + " |\x1B[39m  ".spec_bytes(),
        indent,
        color.spec_bytes(),
    );
    lemma_three(
        "\x1B[1m\x1B[36m".spec_bytes() + pad + " |\x1B[39m  ".spec_bytes() + indent
            + color.spec_bytes(),
        carets,
        "\x1B[39m\r\n".spec_bytes(),
    );
    lemma_three("\x1B[36m".spec_bytes(), pad, " |\x1B[39m\x1B[22m\r\n".spec_bytes());
    lemma_three(hint.margin_line(), hint.source_line(), hint.caret_line(color));
    valid_utf8_concat(
        hint.margin_line() + hint.source_line() + hint.caret_line(color),
        hint.closing_line(),
    );
}

/// The bytes that stand for one character are those that the standard
/// gives for it.
proof fn lemma_encode_bytes(cp: u32)
    requires
        spec_is_scalar(cp),
    ensures
        spec_encode(cp) == encode_scalar(cp),
{
    let q1: u32 = cp / 64;
    let q2: u32 = cp / 4096;
    let q3: u32 = cp / 262144;
    let r0: u32 = cp % 64;
    let r1: u32 = q1 % 64;
    let r2: u32 = q2 % 64;
    assert(q1 == cp >> 6 && q2 == cp >> 12 && q3 == cp >> 18 && r0 == cp & 0x3F && r1 == (cp >> 6)
        & 0x3F && r2 == (cp >> 12) & 0x3F) by (bit_vector)
        requires
            q1 == cp / 64,
            q2 == cp / 4096,
            q3 == cp / 262144,
            r0 == cp % 64,
            r1 == q1 % 64,
            r2 == q2 % 64,
    ;
    if cp < 0x80 {
        assert((cp & 0x7F) as u8 == cp as u8) by (bit_vector)
            requires
                cp < 0x80,
        ;
        assert(spec_encode(cp) =~= encode_scalar(cp));
    } else if cp < 0x800 {
        let a: u8 = (0xC0 + q1) as u8;
        let b: u8 = (0x80 + r0) as u8;
        assert(a == 0xC0u8 | ((cp >> 6) & 0x1F) as u8 && b == 0x80u8 | (cp & 0x3F) as u8)
            by (bit_vector)
            requires
                cp < 0x800,
                q1 == cp >> 6,
                r0 == cp & 0x3F,
                a == (0xC0u32 + q1) as u8,
                b == (0x80u32 + r0) as u8,
        ;
        assert(spec_encode(cp) =~= encode_scalar(cp));
    } else if cp < 0x10000 {
        let a: u8 = (0xE0 + q2) as u8;
        let b: u8 = (0x80 + r1) as u8;
        let c: u8 = (0x80 + r0) as u8;
        assert(a == 0xE0u8 | ((cp >> 12) & 0x0F) as u8 && b == 0x80u8 | ((cp >> 6) & 0x3F) as u8
            && c == 0x80u8 | (cp & 0x3F) as u8) by (bit_vector)
            requires
                cp < 0x10000,
                q2 == cp >> 12,
                r1 == (cp >> 6) & 0x3F,
                r0 == cp & 0x3F,
                a == (0xE0u32 + q2) as u8,
                b == (0x80u32 + r1) as u8,
                c == (0x80u32 + r0) as u8,
        ;
        assert(spec_encode(cp) =~= encode_scalar(cp));
    } else {
        let a: u8 = (0xF0 + q3) as u8;
        let b: u8 = (0x80 + r2) as u8;
        let c: u8 = (0x80 + r1) as u8;
        let d: u8 = (0x80 + r0) as u8;
        assert(a == 0xF0u8 | ((cp >> 18) & 0x07) as u8 && b == 0x80u8 | ((cp >> 12) & 0x3F) as u8
            && c == 0x80u8 | ((cp >> 6) & 0x3F) as u8 && d == 0x80u8 | (cp & 0x3F) as u8)
            by (bit_vector)
            requires
                cp <= 0x10FFFF,
                q3 == cp >> 18,
                r2 == (cp >> 12) & 0x3F,
                r1 == (cp >> 6) & 0x3F,
                r0 == cp & 0x3F,
                a == (0xF0u32 + q3) as u8,
                b == (0x80u32 + r2) as u8,
                c == (0x80u32 + r1) as u8,
                d == (0x80u32 + r0) as u8,
        ;
        assert(spec_encode(cp) =~= encode_scalar(cp));
    }
}

/// The bytes that stand for one character are a text.
pub proof fn lemma_encode_is_text(cp: u32)
    requires
        spec_is_scalar(cp),
    ensures
        valid_utf8(spec_encode(cp)),
{
    lemma_encode_bytes(cp);
    let c = cp as char;
    assert(c as u32 == cp);
    let chars = seq![c];
    encode_utf8_valid_utf8(chars);
    assert(chars.drop_first() =~= Seq::<char>::empty());
    reveal_with_fuel(encode_utf8, 2);
    assert(encode_utf8(chars) =~= encode_scalar(cp));
}

/// What follows the first character of a text is a text.
proof fn lemma_char_len_is_cut(text: Seq<u8>, at: int)
    requires
        0 <= at < text.len(),
        valid_utf8(text.subrange(at, text.len() as int)),
    ensures
        at < at + spec_char_len(text, at) <= text.len(),
        valid_utf8(text.subrange(at + spec_char_len(text, at), text.len() as int)),
{
    let rest = text.subrange(at, text.len() as int);
    assert(rest[0] == text[at]);
    let n = spec_char_len(text, at);
    assert(pop_first_scalar(rest) =~= text.subrange(at + n, text.len() as int));
}

/// What follows a run of characters read as digits is a text.
proof fn lemma_hex_is_cut(text: Seq<u8>, at: int, count: nat, acc: Option<int>)
    requires
        0 <= at <= text.len(),
        valid_utf8(text.subrange(at, text.len() as int)),
    ensures
        match spec_hex_digits(text, at, count, acc) {
            Some((_, end)) => at <= end <= text.len() && valid_utf8(
                text.subrange(end, text.len() as int),
            ),
            None => true,
        },
    decreases count,
{
    if count > 0 && at < text.len() {
        lemma_char_len_is_cut(text, at);
        let next = match (acc, spec_digit_value(text[at], 16)) {
            (Some(a), Some(d)) => Some(a * 16 + d),
            _ => None,
        };
        lemma_hex_is_cut(text, at + spec_char_len(text, at), (count - 1) as nat, next);
    }
}

/// What follows an escape sequence is a text, and so is the character
/// that the sequence stands for.
proof fn lemma_escape_is_cut(text: Seq<u8>, start: int, at: int)
    requires
        0 <= at <= text.len() <= usize::MAX,
        valid_utf8(text.subrange(at, text.len() as int)),
    ensures
        match spec_escape(text, start, at) {
            Escape::Char { code, next } => valid_utf8(spec_encode(code)) && (next <= text.len()
                ==> at < next && valid_utf8(text.subrange(next as int, text.len() as int))),
            Escape::Invalid { error, next } => next <= text.len() ==> at < next && valid_utf8(
                text.subrange(next as int, text.len() as int),
            ),
            Escape::Unterminated => true,
        },
{
    if at < text.len() {
        let rest = text.subrange(at, text.len() as int);
        assert(rest[0] == text[at]);
        lemma_char_len_is_cut(text, at);
        if text[at] < 0x80 {
            assert(spec_char_len(text, at) == 1);
            lemma_hex_is_cut(text, at + 1, 2, Some(0));
            lemma_hex_is_cut(text, at + 1, 4, Some(0));
        }
        match spec_escape(text, start, at) {
            Escape::Char { code, next } => {
                lemma_encode_is_text(code);
            },
            _ => {},
        }
    }
}

/// The value of a string literal in a text is a text.
proof fn lemma_scan_is_text(
    text: Seq<u8>,
    start: int,
    at: int,
    value: Seq<u8>,
    errors: Seq<ParseStringError>,
)
    requires
        0 <= at <= text.len() <= usize::MAX,
        valid_utf8(value + text.subrange(at, text.len() as int)),
    ensures
        valid_utf8(spec_scan_string(text, start, at, value, errors).value),
    decreases text.len() - at,
{
    let rest = text.subrange(at, text.len() as int);
    let whole = value + rest;
    if at >= text.len() {
        assert(whole =~= value);
    } else if text[at] == BACKSLASH || text[at] == QUOTE || text[at] == LINE_FEED {
        assert(whole[value.len() as int] == text[at]);
        lemma_cut_before_lead(whole, value.len() as int);
        assert(whole.subrange(0, value.len() as int) =~= value);
        assert(whole.subrange(value.len() as int, whole.len() as int) =~= rest);
        if text[at] == BACKSLASH {
            assert(rest[0] == text[at]);
            lemma_cut_after_ascii(rest, 1);
            assert(rest.subrange(1, rest.len() as int) =~= text.subrange(
                at + 1,
                text.len() as int,
            ));
            lemma_escape_is_cut(text, start, at + 1);
            match spec_escape(text, start, at + 1) {
                Escape::Char { code, next } => {
                    if at < next <= text.len() {
                        lemma_three(
                            value,
                            spec_encode(code),
                            text.subrange(next as int, text.len() as int),
                        );
                        lemma_scan_is_text(
                            text,
                            start,
                            next as int,
                            value + spec_encode(code),
                            errors,
                        );
                    }
                },
                Escape::Invalid { error, next } => {
                    if at < next <= text.len() {
                        valid_utf8_concat(value, text.subrange(next as int, text.len() as int));
                        lemma_scan_is_text(text, start, next as int, value, errors.push(error));
                    }
                },
                Escape::Unterminated => {},
            }
        }
    } else {
        assert(value.push(text[at]) + text.subrange(at + 1, text.len() as int) =~= whole);
        lemma_scan_is_text(text, start, at + 1, value.push(text[at]), errors);
    }
}

/// The name of a section in files that are text is a text.
pub proof fn lemma_section_name_is_text(files: Seq<SourceFileModel>, name: TextSpan)
    requires
        spec_files_are_text(files),
    ensures
        valid_utf8(spec_section_name(files, name)),
{
    let text = spec_file_text(files, name.file_id);
    if name.start_byte_offset < text.len() && text[name.start_byte_offset as int] == QUOTE {
        let start = name.start_byte_offset as int;
        lemma_cut_after_ascii(text, start + 1);
        assert(Seq::<u8>::empty() + text.subrange(start + 1, text.len() as int)
            =~= text.subrange(start + 1, text.len() as int));
        lemma_scan_is_text(text, start, start + 1, Seq::empty(), Seq::empty());
    }
}

/// A text with a hint behind it is a text.
proof fn lemma_with_hint(
    head: Seq<u8>,
    files: Seq<SourceFileModel>,
    span: TextSpan,
    color: &str,
    range: Option<(usize, usize)>,
)
    requires
        valid_utf8(head),
        spec_files_are_text(files),
    ensures
        valid_utf8(head + spec_hint(files, span, color, range)),
{
    lemma_hint_is_text(files, span, color, range);
    valid_utf8_concat(head, spec_hint(files, span, color, range));
}

/// The headline of a diagnostic about files that are text is a text.
pub proof fn lemma_headline_is_text(error: AssemblerError, files: Seq<SourceFileModel>)
    requires
        spec_files_are_text(files),
    ensures
        valid_utf8(error.spec_headline(files)),
{
    let lead = "\x1B[1m\x1B[31mError\x1B[39m: ".spec_bytes();
    let tail = "\x1B[22m\r\n".spec_bytes();
    lemma_string_is_text("\x1B[1m\x1B[31mError\x1B[39m: ");
    lemma_string_is_text("\x1B[22m\r\n");
    match error {
        AssemblerError::SectionTooLarge { section } => {
            lemma_string_is_text("section `");
            lemma_string_is_text("` is too large");
            lemma_section_name_is_text(files, section);
            let name = spec_section_name(files, section);
            lemma_three(lead, "section `".spec_bytes(), name);
            lemma_three(
                lead + "section `".spec_bytes() + name,
                "` is too large".spec_bytes(),
                tail,
            );
        },
        AssemblerError::OverlappingSections { first, second } => {
            lemma_string_is_text("sections `");
            lemma_string_is_text("` and `");
            lemma_string_is_text("` are overlapping");
            lemma_section_name_is_text(files, first);
            lemma_section_name_is_text(files, second);
            let one = spec_section_name(files, first);
            let two = spec_section_name(files, second);
            lemma_three(lead, "sections `".spec_bytes(), one);
            lemma_three(lead + "sections `".spec_bytes() + one, "` and `".spec_bytes(), two);
            lemma_three(
                lead + "sections `".spec_bytes() + one + "` and `".spec_bytes() + two,
                "` are overlapping".spec_bytes(),
                tail,
            );
        },
        AssemblerError::ParseError(ParseError::UnexpectedToken { token, expected }) => {
            lemma_string_is_text("expected ");
            lemma_string_is_text("\r\n");
            encode_utf8_valid_utf8(expected.spec_text());
            lemma_three(lead, "expected ".spec_bytes(), encode_utf8(expected.spec_text()));
            valid_utf8_concat(
                lead + "expected ".spec_bytes() + encode_utf8(expected.spec_text()),
                "\r\n".spec_bytes(),
            );
        },
        _ => {
            encode_utf8_valid_utf8(error.spec_message());
            lemma_three(lead, encode_utf8(error.spec_message()), tail);
        },
    }
}

/// A diagnostic about files that are text is a text: what `format` gives
/// for it is what its bytes encode.
pub proof fn lemma_format_is_text(error: AssemblerError, files: Seq<SourceFileModel>)
    requires
        spec_files_are_text(files),
    ensures
        valid_utf8(error.spec_format(files)),
{
    let headline = error.spec_headline(files);
    lemma_headline_is_text(error, files);
    let red = "\x1B[31m";
    let blue = "\x1B[34m";
    lemma_string_is_text("Previous definition:\r\n");
    lemma_string_is_text("file is not loaded");
    lemma_string_is_text("\r\n");
    match error {
        AssemblerError::UnclosedBlockComment { comment } => {
            lemma_with_hint(headline, files, comment, red, None);
        },
        AssemblerError::InvalidDirective { directive } => {
            lemma_with_hint(headline, files, directive, red, None);
        },
        AssemblerError::InvalidIntegerLiteral { literal } => {
            lemma_with_hint(headline, files, literal, red, None);
        },
        AssemblerError::UnclosedStringLiteral { literal } => {
            lemma_with_hint(headline, files, literal, red, None);
        },
        AssemblerError::InvalidEscapeSequence { literal, start, end } => {
            lemma_with_hint(headline, files, literal, red, Some((start, end)));
        },
        AssemblerError::InvalidChars { span } => {
            lemma_with_hint(headline, files, span, red, None);
        },
        AssemblerError::InvalidValue { value, directive } => {
            lemma_with_hint(headline, files, value, red, None);
        },
        AssemblerError::InvalidOriginDirective { directive } => {
            lemma_with_hint(headline, files, directive, red, None);
        },
        AssemblerError::UndefinedSection { statement } => {
            lemma_with_hint(headline, files, statement, red, None);
        },
        AssemblerError::DivideByZero { expr } => {
            lemma_with_hint(headline, files, expr, red, None);
        },
        AssemblerError::UndefinedSymbol { ident } => {
            lemma_with_hint(headline, files, ident, red, None);
        },
        AssemblerError::CyclicExpression { expr } => {
            lemma_with_hint(headline, files, expr, red, None);
        },
        AssemblerError::IncludeTooDeep { directive } => {
            lemma_with_hint(headline, files, directive, red, None);
        },
        AssemblerError::IncludeUnsupported { directive } => {
            lemma_with_hint(headline, files, directive, red, None);
        },
        AssemblerError::ParseError(ParseError::UnexpectedToken { token, expected }) => {
            lemma_with_hint(headline, files, token, red, None);
        },
        AssemblerError::ParseError(ParseError::InvalidOperands { op1, op2 }) => {
            lemma_with_hint(headline, files, op1.spec_cover(op2), red, None);
        },
        AssemblerError::ParseError(ParseError::InvalidRegister { register }) => {
            lemma_with_hint(headline, files, register, red, None);
        },
        AssemblerError::ParseError(ParseError::TokensRemaining { span }) => {
            lemma_with_hint(headline, files, span, red, None);
        },
        AssemblerError::ParseError(ParseError::NoMatch { span }) => {
            lemma_with_hint(headline, files, span, red, None);
        },
        AssemblerError::DuplicateSectionBase { value, previous } => {
            lemma_with_hint(headline, files, value, red, None);
            valid_utf8_concat(
                headline + spec_hint(files, value, red, None),
                "Previous definition:\r\n".spec_bytes(),
            );
            lemma_with_hint(
                headline + spec_hint(files, value, red, None)
                    + "Previous definition:\r\n".spec_bytes(),
                files,
                previous,
                blue,
                None,
            );
        },
        AssemblerError::DuplicateLabel { previous, duplicate } => {
            lemma_with_hint(headline, files, duplicate, red, None);
            valid_utf8_concat(
                headline + spec_hint(files, duplicate, red, None),
                "Previous definition:\r\n".spec_bytes(),
            );
            lemma_with_hint(
                headline + spec_hint(files, duplicate, red, None)
                    + "Previous definition:\r\n".spec_bytes(),
                files,
                previous,
                blue,
                None,
            );
        },
        AssemblerError::SectionTooLarge { section } => {},
        AssemblerError::OverlappingSections { first, second } => {},
        AssemblerError::IncludeError { directive, path, file } => {
            let message = if 0 < file.index < files.len() {
                files[file.index as int].text
            } else {
                "file is not loaded".spec_bytes()
            };
            lemma_three(headline, message, "\r\n".spec_bytes());
            lemma_with_hint(
                headline + message + "\r\n".spec_bytes(),
                files,
                directive,
                red,
                None,
            );
        },
    }
}

/// Diagnostics about files that are text are a text.
pub proof fn lemma_format_all_is_text(
    errors: Seq<AssemblerError>,
    files: Seq<SourceFileModel>,
    upto: int,
)
    requires
        spec_files_are_text(files),
    ensures
        valid_utf8(spec_format_all(errors, files, upto)),
    decreases upto,
{
    if upto <= 0 || upto > errors.len() {
    } else if upto == 1 {
        lemma_format_is_text(errors[0], files);
    } else {
        lemma_format_all_is_text(errors, files, upto - 1);
        lemma_format_is_text(errors[upto - 1], files);
        let before = spec_format_all(errors, files, upto - 1);
        let feed = seq![LINE_FEED];
        lemma_ascii_is_text(feed);
        assert(before.push(LINE_FEED) =~= before + feed);
        lemma_three(before, feed, errors[upto - 1].spec_format(files));
    }
}

/// What a text comes to up to `upto` with its tabs expanded, and the rest
/// of the text behind it, are a text.
proof fn lemma_expand_keeps_text(text: Seq<u8>, upto: int)
    requires
        valid_utf8(text),
        0 <= upto <= text.len(),
    ensures
        valid_utf8(spec_expand_tabs(text, upto) + text.subrange(upto, text.len() as int)),
    decreases upto,
{
    if upto == 0 {
        assert(spec_expand_tabs(text, upto) + text.subrange(upto, text.len() as int) =~= text);
    } else {
        lemma_expand_keeps_text(text, upto - 1);
        let done = spec_expand_tabs(text, upto - 1);
        let rest = text.subrange(upto - 1, text.len() as int);
        let next = text.subrange(upto, text.len() as int);
        let whole = done + rest;
        if text[upto - 1] == 0x09 {
            assert(whole[done.len() as int] == text[upto - 1]);
            lemma_cut_before_lead(whole, done.len() as int);
            assert(whole.subrange(0, done.len() as int) =~= done);
            assert(whole.subrange(done.len() as int, whole.len() as int) =~= rest);
            assert(rest[0] == text[upto - 1]);
            lemma_cut_after_ascii(rest, 1);
            assert(rest.subrange(1, rest.len() as int) =~= next);
            lemma_ascii_is_text(spec_repeat(SPACE, 4));
            lemma_three(done, spec_repeat(SPACE, 4), next);
        } else {
            assert(done.push(text[upto - 1]) + next =~= whole);
        }
    }
}

/// A text with its tabs expanded is a text.
pub proof fn lemma_expand_is_text(text: Seq<u8>)
    requires
        valid_utf8(text),
    ensures
        valid_utf8(spec_expand_tabs(text, text.len() as int)),
{
    lemma_expand_keeps_text(text, text.len() as int);
    let all = spec_expand_tabs(text, text.len() as int);
    assert(all + text.subrange(text.len() as int, text.len() as int) =~= all);
}

/// The diagnostics of a program that is given as text are a text.
pub proof fn lemma_code_report_is_text(code: Seq<char>, errors: Seq<AssemblerError>)
    requires
        spec_expand_tabs(encode_utf8(code), encode_utf8(code).len() as int).len() <= usize::MAX,
    ensures
        spec_files_are_text(spec_code_files(encode_utf8(code))),
        valid_utf8(
            spec_format_all(errors, spec_code_files(encode_utf8(code)), errors.len() as int),
        ),
{
    encode_utf8_valid_utf8(code);
    lemma_expand_is_text(encode_utf8(code));
    lemma_format_all_is_text(errors, spec_code_files(encode_utf8(code)), errors.len() as int);
}

} // verus!
