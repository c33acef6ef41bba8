//! The parser: from the tokens of one line to a statement.

use crate::assembler::ast::{
    AddInstruction, AddacInstruction, AddcInstruction, AlignDirective, AndInstruction,
    BinaryExpression, BranchInstruction, CallBdInstruction, CallInstruction, CmpInstruction,
    DecInstruction, Directive, Expression, GroupExpression, Identifier, InInstruction,
    IncInstruction, InccInstruction, IncludeDirective, Instruction, IntegerLiteral, IoRegister,
    JmpInstruction, JumpTarget, Label, LabelValue, Mnemonic, MovDestination, MovInstruction,
    MovSource, NotInstruction, OffsetDirective, OrInstruction, OriginDirective, OutInstruction,
    PopInstruction, Punctuation, PushInstruction, Register, SectionDirective, ShlInstruction,
    ShrInstruction, Statement, StringLiteral, SubInstruction, SubaeInstruction, SubbInstruction,
    TestInstruction, UnaryExpression, XorInstruction,
};
use crate::assembler::lexer::{DirectiveKind, Jam1Token, MnemonicKind, PunctuationKind, Token};
use crate::assembler::span::TextSpan;
use vstd::prelude::*;

verus! {

/// What the parser wanted to see where it found something else.
#[derive(Debug, Clone, Copy, PartialEq, Eq, Structural)]
pub enum Expected {
    Expression,
    ExpressionOrClosingParenthesis,
    IntegerLiteralOrOpeningParenthesis,
    ColonOrEqualSign,
    IntegerLiteral,
    StringLiteral,
    Register,
    ClosingBracket,
    RegisterOrMemoryLocation,
    Comma,
    ExpressionRegisterOrMemoryLocation,
    RegisterOrExpression,
    IoRegister,
}

/// Why a line is no statement.
#[derive(Debug, Clone, Copy, PartialEq, Eq, Structural)]
pub enum ParseError {
    /// Something else stands where `expected` had to stand.
    UnexpectedToken { token: TextSpan, expected: Expected },
    /// The instruction does not take these two operands together.
    InvalidOperands { op1: TextSpan, op2: TextSpan },
    /// The instruction does not take this register.
    InvalidRegister { register: TextSpan },
    /// Tokens follow a complete statement.
    TokensRemaining { span: TextSpan },
    /// The line starts like no statement.
    NoMatch { span: TextSpan },
}

/// The outcome of one rule of the grammar at one position.
pub enum ParseResult<T> {
    /// The rule matched; the next token is at `next`.
    Match { value: T, next: usize },
    /// The rule does not start here.
    NoMatch,
    /// The rule started here and went wrong.
    Error(ParseError),
}

/// Where an error about position `pos` points: at the token there, or
/// behind the last token if the line ends before.
pub open spec fn spec_position(tokens: Seq<Token>, pos: int) -> TextSpan {
    if 0 <= pos < tokens.len() {
        tokens[pos].span
    } else if tokens.len() > 0 {
        tokens[tokens.len() - 1].span.spec_end()
    } else {
        TextSpan::spec_empty()
    }
}

pub fn position(tokens: &[Token], pos: usize) -> (r: TextSpan)
    ensures
        r == spec_position(tokens@, pos as int),
{
    if pos < tokens.len() {
        tokens[pos].span
    } else if tokens.len() > 0 {
        let last = tokens[tokens.len() - 1].span;
        TextSpan {
            file_id: last.file_id,
            start_byte_offset: last.end_byte_offset,
            end_byte_offset: last.end_byte_offset,
        }
    } else {
        TextSpan::empty()
    }
}

/// The error that says what had to stand at `pos`.
pub open spec fn spec_expect(tokens: Seq<Token>, pos: int, expected: Expected) -> ParseError {
    ParseError::UnexpectedToken { token: spec_position(tokens, pos), expected }
}

pub fn expect(tokens: &[Token], pos: usize, expected: Expected) -> (r: ParseError)
    ensures
        r == spec_expect(tokens@, pos as int, expected),
{
    ParseError::UnexpectedToken { token: position(tokens, pos), expected }
}

/// The punctuation mark at `pos`.
pub open spec fn spec_punctuation(tokens: Seq<Token>, pos: int) -> Option<Punctuation> {
    if 0 <= pos < tokens.len() {
        match tokens[pos].kind {
            Jam1Token::Punctuation(kind) => Some(Punctuation { kind, span: tokens[pos].span }),
            _ => None,
        }
    } else {
        None
    }
}

pub fn punctuation(tokens: &[Token], pos: usize) -> (r: Option<Punctuation>)
    ensures
        r == spec_punctuation(tokens@, pos as int),
        r.is_some() ==> pos < tokens@.len(),
        tokens@.len() <= usize::MAX,
{
    if pos < tokens.len() {
        match tokens[pos].kind {
            Jam1Token::Punctuation(kind) => Some(Punctuation { kind, span: tokens[pos].span }),
            _ => None,
        }
    } else {
        None
    }
}

/// The directive at `pos`.
pub open spec fn spec_directive(tokens: Seq<Token>, pos: int) -> Option<Directive> {
    if 0 <= pos < tokens.len() {
        match tokens[pos].kind {
            Jam1Token::Directive(kind) => Some(Directive { kind, span: tokens[pos].span }),
            _ => None,
        }
    } else {
        None
    }
}

pub fn directive(tokens: &[Token], pos: usize) -> (r: Option<Directive>)
    ensures
        r == spec_directive(tokens@, pos as int),
        r.is_some() ==> pos < tokens@.len(),
        tokens@.len() <= usize::MAX,
{
    if pos < tokens.len() {
        match tokens[pos].kind {
            Jam1Token::Directive(kind) => Some(Directive { kind, span: tokens[pos].span }),
            _ => None,
        }
    } else {
        None
    }
}

/// The register at `pos`.
pub open spec fn spec_register(tokens: Seq<Token>, pos: int) -> Option<Register> {
    if 0 <= pos < tokens.len() {
        match tokens[pos].kind {
            Jam1Token::Register(kind) => Some(Register { kind, span: tokens[pos].span }),
            _ => None,
        }
    } else {
        None
    }
}

pub fn register(tokens: &[Token], pos: usize) -> (r: Option<Register>)
    ensures
        r == spec_register(tokens@, pos as int),
        r.is_some() ==> pos < tokens@.len(),
        tokens@.len() <= usize::MAX,
{
    if pos < tokens.len() {
        match tokens[pos].kind {
            Jam1Token::Register(kind) => Some(Register { kind, span: tokens[pos].span }),
            _ => None,
        }
    } else {
        None
    }
}

/// The I/O port at `pos`.
pub open spec fn spec_io_register(tokens: Seq<Token>, pos: int) -> Option<IoRegister> {
    if 0 <= pos < tokens.len() {
        match tokens[pos].kind {
            Jam1Token::IoRegister(kind) => Some(IoRegister { kind, span: tokens[pos].span }),
            _ => None,
        }
    } else {
        None
    }
}

pub fn io_register(tokens: &[Token], pos: usize) -> (r: Option<IoRegister>)
    ensures
        r == spec_io_register(tokens@, pos as int),
        r.is_some() ==> pos < tokens@.len(),
        tokens@.len() <= usize::MAX,
{
    if pos < tokens.len() {
        match tokens[pos].kind {
            Jam1Token::IoRegister(kind) => Some(IoRegister { kind, span: tokens[pos].span }),
            _ => None,
        }
    } else {
        None
    }
}

/// The mnemonic at `pos`.
pub open spec fn spec_mnemonic(tokens: Seq<Token>, pos: int) -> Option<Mnemonic> {
    if 0 <= pos < tokens.len() {
        match tokens[pos].kind {
            Jam1Token::Mnemonic(kind) => Some(Mnemonic { kind, span: tokens[pos].span }),
            _ => None,
        }
    } else {
        None
    }
}

pub fn mnemonic(tokens: &[Token], pos: usize) -> (r: Option<Mnemonic>)
    ensures
        r == spec_mnemonic(tokens@, pos as int),
        r.is_some() ==> pos < tokens@.len(),
        tokens@.len() <= usize::MAX,
{
    if pos < tokens.len() {
        match tokens[pos].kind {
            Jam1Token::Mnemonic(kind) => Some(Mnemonic { kind, span: tokens[pos].span }),
            _ => None,
        }
    } else {
        None
    }
}

/// The name at `pos`.
pub open spec fn spec_identifier(tokens: Seq<Token>, pos: int) -> Option<Identifier> {
    if 0 <= pos < tokens.len() {
        match tokens[pos].kind {
            Jam1Token::Identifier => Some(Identifier { span: tokens[pos].span }),
            _ => None,
        }
    } else {
        None
    }
}

pub fn identifier(tokens: &[Token], pos: usize) -> (r: Option<Identifier>)
    ensures
        r == spec_identifier(tokens@, pos as int),
        r.is_some() ==> pos < tokens@.len(),
        tokens@.len() <= usize::MAX,
{
    if pos < tokens.len() {
        match tokens[pos].kind {
            Jam1Token::Identifier => Some(Identifier { span: tokens[pos].span }),
            _ => None,
        }
    } else {
        None
    }
}

/// The integer literal at `pos`. One whose digits stand for no value is a literal without value: the lexer has reported it.
pub open spec fn spec_integer_literal(tokens: Seq<Token>, pos: int) -> Option<IntegerLiteral> {
    if 0 <= pos < tokens.len() {
        match tokens[pos].kind {
            Jam1Token::IntegerLiteral(value) => Some(
                IntegerLiteral { value: Some(value), span: tokens[pos].span },
            ),
            Jam1Token::InvalidIntegerLiteral => Some(
                IntegerLiteral { value: None, span: tokens[pos].span },
            ),
            _ => None,
        }
    } else {
        None
    }
}

pub fn integer_literal(tokens: &[Token], pos: usize) -> (r: Option<IntegerLiteral>)
    ensures
        r == spec_integer_literal(tokens@, pos as int),
        r.is_some() ==> pos < tokens@.len(),
        tokens@.len() <= usize::MAX,
{
    if pos < tokens.len() {
        match tokens[pos].kind {
            Jam1Token::IntegerLiteral(value) => Some(
                IntegerLiteral { value: Some(value), span: tokens[pos].span },
            ),
            Jam1Token::InvalidIntegerLiteral => Some(
                IntegerLiteral { value: None, span: tokens[pos].span },
            ),
            _ => None,
        }
    } else {
        None
    }
}

/// The string literal at `pos`. One with errors is a literal without value: the lexer has reported it.
pub open spec fn spec_string_literal(tokens: Seq<Token>, pos: int) -> Option<StringLiteral> {
    if 0 <= pos < tokens.len() {
        match tokens[pos].kind {
            Jam1Token::StringLiteral => Some(StringLiteral { valid: true, span: tokens[pos].span }),
            Jam1Token::InvalidStringLiteral => Some(
                StringLiteral { valid: false, span: tokens[pos].span },
            ),
            _ => None,
        }
    } else {
        None
    }
}

pub fn string_literal(tokens: &[Token], pos: usize) -> (r: Option<StringLiteral>)
    ensures
        r == spec_string_literal(tokens@, pos as int),
        r.is_some() ==> pos < tokens@.len(),
        tokens@.len() <= usize::MAX,
{
    if pos < tokens.len() {
        match tokens[pos].kind {
            Jam1Token::StringLiteral => Some(StringLiteral { valid: true, span: tokens[pos].span }),
            Jam1Token::InvalidStringLiteral => Some(
                StringLiteral { valid: false, span: tokens[pos].span },
            ),
            _ => None,
        }
    } else {
        None
    }
}

/// The punctuation mark at `pos` if it is `kind`.
pub open spec fn spec_punctuation_of(tokens: Seq<Token>, pos: int, kind: PunctuationKind) -> Option<
    Punctuation,
> {
    match spec_punctuation(tokens, pos) {
        Some(p) => if p.kind == kind {
            Some(p)
        } else {
            None
        },
        None => None,
    }
}

pub fn punctuation_of(tokens: &[Token], pos: usize, kind: PunctuationKind) -> (r: Option<
    Punctuation,
>)
    ensures
        r == spec_punctuation_of(tokens@, pos as int, kind),
        r.is_some() ==> pos < tokens@.len(),
        tokens@.len() <= usize::MAX,
{
    match punctuation(tokens, pos) {
        Some(p) => if p.kind == kind {
            Some(p)
        } else {
            None
        },
        None => None,
    }
}

/// How tightly a binary operator binds: `|` least, then `^`, `&`, the
/// shifts, `+` and `-`, and `*`, `/` and `%` most.
pub open spec fn spec_binary_level(kind: PunctuationKind) -> Option<u8> {
    match kind {
        PunctuationKind::VerticalBar => Some(0),
        PunctuationKind::Accent => Some(1),
        PunctuationKind::Ampersand => Some(2),
        PunctuationKind::DoubleLessThanSign
        | PunctuationKind::TrippleGreaterThanSign
        | PunctuationKind::DoubleGreaterThanSign => Some(3),
        PunctuationKind::PlusSign | PunctuationKind::MinusSign => Some(4),
        PunctuationKind::Asterisk | PunctuationKind::Slash | PunctuationKind::PercentSign => Some(
            5,
        ),
        _ => None,
    }
}

#[verifier::when_used_as_spec(spec_binary_level)]
pub fn binary_level(kind: PunctuationKind) -> (r: Option<u8>)
    ensures
        r == spec_binary_level(kind),
{
    match kind {
        PunctuationKind::VerticalBar => Some(0),
        PunctuationKind::Accent => Some(1),
        PunctuationKind::Ampersand => Some(2),
        PunctuationKind::DoubleLessThanSign
        | PunctuationKind::TrippleGreaterThanSign
        | PunctuationKind::DoubleGreaterThanSign => Some(3),
        PunctuationKind::PlusSign | PunctuationKind::MinusSign => Some(4),
        PunctuationKind::Asterisk | PunctuationKind::Slash | PunctuationKind::PercentSign => Some(
            5,
        ),
        _ => None,
    }
}

/// The number of binding levels of binary operators.
pub const BINARY_LEVELS: u8 = 6;

/// Whether the mark is a sign or the bitwise not.
pub open spec fn spec_is_unary(kind: PunctuationKind) -> bool {
    kind == PunctuationKind::PlusSign || kind == PunctuationKind::MinusSign || kind
        == PunctuationKind::ExclamationMark
}

#[verifier::when_used_as_spec(spec_is_unary)]
pub fn is_unary(kind: PunctuationKind) -> (r: bool)
    ensures
        r == spec_is_unary(kind),
{
    match kind {
        PunctuationKind::PlusSign
        | PunctuationKind::MinusSign
        | PunctuationKind::ExclamationMark => true,
        _ => false,
    }
}

/// The expression that applies the unary operator `op` to `inner`.
pub open spec fn spec_build_unary(op: Punctuation, inner: Expression) -> Expression {
    let expr = Box::new(UnaryExpression { op, inner });
    match op.kind {
        PunctuationKind::MinusSign => Expression::Negation(expr),
        PunctuationKind::ExclamationMark => Expression::BitwiseNot(expr),
        _ => Expression::Identity(expr),
    }
}

pub fn build_unary(op: Punctuation, inner: Expression) -> (r: Expression)
    ensures
        r == spec_build_unary(op, inner),
{
    let kind = op.kind;
    let expr = Box::new(UnaryExpression { op, inner });
    match kind {
        PunctuationKind::MinusSign => Expression::Negation(expr),
        PunctuationKind::ExclamationMark => Expression::BitwiseNot(expr),
        _ => Expression::Identity(expr),
    }
}

/// The expression that applies the binary operator `op` to `lhs` and `rhs`.
pub open spec fn spec_build_binary(lhs: Expression, op: Punctuation, rhs: Expression) -> Expression {
    let expr = Box::new(BinaryExpression { lhs, op, rhs });
    match op.kind {
        PunctuationKind::MinusSign => Expression::Subtraction(expr),
        PunctuationKind::Asterisk => Expression::Multiplication(expr),
        PunctuationKind::Slash => Expression::Division(expr),
        PunctuationKind::PercentSign => Expression::Remainder(expr),
        PunctuationKind::Ampersand => Expression::BitwiseAnd(expr),
        PunctuationKind::VerticalBar => Expression::BitwiseOr(expr),
        PunctuationKind::Accent => Expression::BitwiseXor(expr),
        PunctuationKind::DoubleLessThanSign => Expression::LeftShift(expr),
        PunctuationKind::TrippleGreaterThanSign => Expression::ArithmeticRightShift(expr),
        PunctuationKind::DoubleGreaterThanSign => Expression::LogicalRightShift(expr),
        _ => Expression::Addition(expr),
    }
}

pub fn build_binary(lhs: Expression, op: Punctuation, rhs: Expression) -> (r: Expression)
    ensures
        r == spec_build_binary(lhs, op, rhs),
{
    let kind = op.kind;
    let expr = Box::new(BinaryExpression { lhs, op, rhs });
    match kind {
        PunctuationKind::MinusSign => Expression::Subtraction(expr),
        PunctuationKind::Asterisk => Expression::Multiplication(expr),
        PunctuationKind::Slash => Expression::Division(expr),
        PunctuationKind::PercentSign => Expression::Remainder(expr),
        PunctuationKind::Ampersand => Expression::BitwiseAnd(expr),
        PunctuationKind::VerticalBar => Expression::BitwiseOr(expr),
        PunctuationKind::Accent => Expression::BitwiseXor(expr),
        PunctuationKind::DoubleLessThanSign => Expression::LeftShift(expr),
        PunctuationKind::TrippleGreaterThanSign => Expression::ArithmeticRightShift(expr),
        PunctuationKind::DoubleGreaterThanSign => Expression::LogicalRightShift(expr),
        _ => Expression::Addition(expr),
    }
}

/// How far `level` is from the operands, for the sake of termination.
pub open spec fn spec_level_rank(level: u8) -> int {
    if level >= BINARY_LEVELS {
        4
    } else {
        10 - level
    }
}

/// An expression whose operators bind at `level` or tighter: an operand
/// of the next level and then operators of this level with their
/// operands, grouped from the left. Beyond the last level stand the unary
/// expressions.
pub open spec fn spec_expression_level(tokens: Seq<Token>, pos: int, level: u8) -> ParseResult<
    Expression,
>
    decreases tokens.len() - pos, spec_level_rank(level), 0int,
{
    if pos < 0 || pos > tokens.len() {
        ParseResult::NoMatch
    } else if level >= BINARY_LEVELS {
        spec_unary(tokens, pos, false)
    } else {
        match spec_expression_level(tokens, pos, (level + 1) as u8) {
            ParseResult::Match { value, next } => if pos < next <= tokens.len() {
                spec_tail(tokens, next as int, level, value)
            } else {
                ParseResult::NoMatch
            },
            ParseResult::NoMatch => ParseResult::NoMatch,
            ParseResult::Error(e) => ParseResult::Error(e),
        }
    }
}

/// The operators of `level` from `pos` on, applied to `lhs` and to the
/// operands that follow them.
pub open spec fn spec_tail(tokens: Seq<Token>, pos: int, level: u8, lhs: Expression) -> ParseResult<
    Expression,
>
    decreases tokens.len() - pos, spec_level_rank(level), 1int,
{
    if pos < 0 || pos >= tokens.len() || level >= BINARY_LEVELS {
        ParseResult::Match { value: lhs, next: pos as usize }
    } else {
        match spec_punctuation(tokens, pos) {
            Some(op) => if spec_binary_level(op.kind) == Some(level) {
                match spec_expression_level(tokens, pos + 1, (level + 1) as u8) {
                    ParseResult::Match { value, next } => if pos < next <= tokens.len() {
                        spec_tail(tokens, next as int, level, spec_build_binary(lhs, op, value))
                    } else {
                        ParseResult::NoMatch
                    },
                    ParseResult::NoMatch => ParseResult::Error(
                        spec_expect(tokens, pos + 1, Expected::Expression),
                    ),
                    ParseResult::Error(e) => ParseResult::Error(e),
                }
            } else {
                ParseResult::Match { value: lhs, next: pos as usize }
            },
            None => ParseResult::Match { value: lhs, next: pos as usize },
        }
    }
}

/// Unary operators and the operand they end in. After an operator the
/// operand is `required`.
pub open spec fn spec_unary(tokens: Seq<Token>, pos: int, required: bool) -> ParseResult<Expression>
    decreases tokens.len() - pos, 3int, 0int,
{
    if pos < 0 || pos > tokens.len() {
        ParseResult::NoMatch
    } else {
        match spec_punctuation(tokens, pos) {
            Some(op) => if spec_is_unary(op.kind) {
                match spec_unary(tokens, pos + 1, true) {
                    ParseResult::Match { value, next } => ParseResult::Match {
                        value: spec_build_unary(op, value),
                        next,
                    },
                    ParseResult::NoMatch => ParseResult::Error(
                        spec_expect(tokens, pos + 1, Expected::IntegerLiteralOrOpeningParenthesis),
                    ),
                    ParseResult::Error(e) => ParseResult::Error(e),
                }
            } else {
                spec_leaf_required(tokens, pos, required)
            },
            None => spec_leaf_required(tokens, pos, required),
        }
    }
}

/// An operand; if it is `required` and does not start here, that is an error.
pub open spec fn spec_leaf_required(tokens: Seq<Token>, pos: int, required: bool) -> ParseResult<
    Expression,
>
    decreases tokens.len() - pos, 2int, 1int,
{
    match spec_leaf(tokens, pos) {
        ParseResult::NoMatch => if required {
            ParseResult::Error(
                spec_expect(tokens, pos, Expected::IntegerLiteralOrOpeningParenthesis),
            )
        } else {
            ParseResult::NoMatch
        },
        other => other,
    }
}

/// An operand: an integer literal, a name, or an expression in parentheses.
pub open spec fn spec_leaf(tokens: Seq<Token>, pos: int) -> ParseResult<Expression>
    decreases tokens.len() - pos, 2int, 0int,
{
    if pos < 0 || pos >= tokens.len() {
        ParseResult::NoMatch
    } else if spec_integer_literal(tokens, pos).is_some() {
        ParseResult::Match {
            value: Expression::Literal(Box::new(spec_integer_literal(tokens, pos).unwrap())),
            next: (pos + 1) as usize,
        }
    } else if spec_identifier(tokens, pos).is_some() {
        ParseResult::Match {
            value: Expression::Identifier(Box::new(spec_identifier(tokens, pos).unwrap())),
            next: (pos + 1) as usize,
        }
    } else {
        match spec_punctuation_of(tokens, pos, PunctuationKind::OpeningParenthesis) {
            None => ParseResult::NoMatch,
            Some(open_paren) => match spec_expression_level(tokens, pos + 1, 0) {
                ParseResult::NoMatch => ParseResult::Error(
                    spec_expect(tokens, pos + 1, Expected::Expression),
                ),
                ParseResult::Error(e) => ParseResult::Error(e),
                ParseResult::Match { value, next } => match spec_punctuation_of(
                    tokens,
                    next as int,
                    PunctuationKind::ClosingParenthesis,
                ) {
                    Some(close_paren) => ParseResult::Match {
                        value: Expression::Group(
                            Box::new(GroupExpression { open_paren, inner: value, close_paren }),
                        ),
                        next: (next + 1) as usize,
                    },
                    None => ParseResult::Error(
                        spec_expect(tokens, next as int, Expected::ExpressionOrClosingParenthesis),
                    ),
                },
            },
        }
    }
}

/// An expression.
pub open spec fn spec_expression(tokens: Seq<Token>, pos: int) -> ParseResult<Expression> {
    spec_expression_level(tokens, pos, 0)
}

pub fn expression_level(tokens: &[Token], pos: usize, level: u8) -> (r: ParseResult<Expression>)
    ensures
        r == spec_expression_level(tokens@, pos as int, level),
        r matches ParseResult::Match { value, next } ==> pos < next <= tokens@.len(),
    decreases tokens@.len() - pos, spec_level_rank(level), 0int,
{
    if pos > tokens.len() {
        ParseResult::NoMatch
    } else if level >= BINARY_LEVELS {
        unary(tokens, pos, false)
    } else {
        match expression_level(tokens, pos, level + 1) {
            ParseResult::Match { value, next } => tail(tokens, next, level, value),
            ParseResult::NoMatch => ParseResult::NoMatch,
            ParseResult::Error(e) => ParseResult::Error(e),
        }
    }
}

pub fn tail(tokens: &[Token], pos: usize, level: u8, lhs: Expression) -> (r: ParseResult<Expression>)
    requires
        pos <= tokens@.len(),
    ensures
        r == spec_tail(tokens@, pos as int, level, lhs),
        r matches ParseResult::Match { value, next } ==> pos <= next <= tokens@.len(),
    decreases tokens@.len() - pos, spec_level_rank(level), 1int,
{
    if pos >= tokens.len() || level >= BINARY_LEVELS {
        ParseResult::Match { value: lhs, next: pos }
    } else {
        match punctuation(tokens, pos) {
            Some(op) => if binary_level(op.kind) == Some(level) {
                match expression_level(tokens, pos + 1, level + 1) {
                    ParseResult::Match { value, next } => tail(
                        tokens,
                        next,
                        level,
                        build_binary(lhs, op, value),
                    ),
                    ParseResult::NoMatch => ParseResult::Error(
                        expect(tokens, pos + 1, Expected::Expression),
                    ),
                    ParseResult::Error(e) => ParseResult::Error(e),
                }
            } else {
                ParseResult::Match { value: lhs, next: pos }
            },
            None => ParseResult::Match { value: lhs, next: pos },
        }
    }
}

pub fn unary(tokens: &[Token], pos: usize, required: bool) -> (r: ParseResult<Expression>)
    requires
        pos <= tokens@.len(),
    ensures
        r == spec_unary(tokens@, pos as int, required),
        r matches ParseResult::Match { value, next } ==> pos < next <= tokens@.len(),
    decreases tokens@.len() - pos, 3int, 0int,
{
    match punctuation(tokens, pos) {
        Some(op) => if is_unary(op.kind) {
            match unary(tokens, pos + 1, true) {
                ParseResult::Match { value, next } => ParseResult::Match {
                    value: build_unary(op, value),
                    next,
                },
                ParseResult::NoMatch => ParseResult::Error(
                    expect(tokens, pos + 1, Expected::IntegerLiteralOrOpeningParenthesis),
                ),
                ParseResult::Error(e) => ParseResult::Error(e),
            }
        } else {
            leaf_required(tokens, pos, required)
        },
        None => leaf_required(tokens, pos, required),
    }
}

pub fn leaf_required(tokens: &[Token], pos: usize, required: bool) -> (r: ParseResult<Expression>)
    requires
        pos <= tokens@.len(),
    ensures
        r == spec_leaf_required(tokens@, pos as int, required),
        r matches ParseResult::Match { value, next } ==> pos < next <= tokens@.len(),
    decreases tokens@.len() - pos, 2int, 1int,
{
    match leaf(tokens, pos) {
        ParseResult::NoMatch => if required {
            ParseResult::Error(expect(tokens, pos, Expected::IntegerLiteralOrOpeningParenthesis))
        } else {
            ParseResult::NoMatch
        },
        other => other,
    }
}

pub fn leaf(tokens: &[Token], pos: usize) -> (r: ParseResult<Expression>)
    requires
        pos <= tokens@.len(),
    ensures
        r == spec_leaf(tokens@, pos as int),
        r matches ParseResult::Match { value, next } ==> pos < next <= tokens@.len(),
    decreases tokens@.len() - pos, 2int, 0int,
{
    if pos >= tokens.len() {
        return ParseResult::NoMatch;
    }
    match integer_literal(tokens, pos) {
        Some(literal) => {
            return ParseResult::Match {
                value: Expression::Literal(Box::new(literal)),
                next: pos + 1,
            };
        },
        None => {},
    }
    match identifier(tokens, pos) {
        Some(name) => {
            return ParseResult::Match {
                value: Expression::Identifier(Box::new(name)),
                next: pos + 1,
            };
        },
        None => {},
    }
    match punctuation_of(tokens, pos, PunctuationKind::OpeningParenthesis) {
        None => ParseResult::NoMatch,
        Some(open_paren) => match expression_level(tokens, pos + 1, 0) {
            ParseResult::NoMatch => ParseResult::Error(expect(tokens, pos + 1, Expected::Expression)),
            ParseResult::Error(e) => ParseResult::Error(e),
            ParseResult::Match { value, next } => match punctuation_of(
                tokens,
                next,
                PunctuationKind::ClosingParenthesis,
            ) {
                Some(close_paren) => ParseResult::Match {
                    value: Expression::Group(
                        Box::new(GroupExpression { open_paren, inner: value, close_paren }),
                    ),
                    next: next + 1,
                },
                None => ParseResult::Error(
                    expect(tokens, next, Expected::ExpressionOrClosingParenthesis),
                ),
            },
        },
    }
}

pub fn expression(tokens: &[Token], pos: usize) -> (r: ParseResult<Expression>)
    ensures
        r == spec_expression(tokens@, pos as int),
        r matches ParseResult::Match { value, next } ==> pos < next <= tokens@.len(),
{
    expression_level(tokens, pos, 0)
}

/// An expression that has to stand at `pos`.
pub open spec fn spec_required_expression(tokens: Seq<Token>, pos: int) -> ParseResult<Expression> {
    match spec_expression(tokens, pos) {
        ParseResult::NoMatch => ParseResult::Error(spec_expect(tokens, pos, Expected::Expression)),
        other => other,
    }
}

pub fn required_expression(tokens: &[Token], pos: usize) -> (r: ParseResult<Expression>)
    ensures
        r == spec_required_expression(tokens@, pos as int),
        r matches ParseResult::Match { value, next } ==> pos < next <= tokens@.len(),
        !(r is NoMatch),
{
    match expression(tokens, pos) {
        ParseResult::NoMatch => ParseResult::Error(expect(tokens, pos, Expected::Expression)),
        other => other,
    }
}

/// A register in brackets, from the opening bracket at `pos`.
pub open spec fn spec_memory_location(tokens: Seq<Token>, pos: int) -> ParseResult<
    (Punctuation, Register, Punctuation),
> {
    match spec_punctuation_of(tokens, pos, PunctuationKind::OpeningBracket) {
        None => ParseResult::NoMatch,
        Some(open_bracket) => match spec_register(tokens, pos + 1) {
            None => ParseResult::Error(spec_expect(tokens, pos + 1, Expected::Register)),
            Some(address_source) => match spec_punctuation_of(
                tokens,
                pos + 2,
                PunctuationKind::ClosingBracket,
            ) {
                None => ParseResult::Error(spec_expect(tokens, pos + 2, Expected::ClosingBracket)),
                Some(close_bracket) => ParseResult::Match {
                    value: (open_bracket, address_source, close_bracket),
                    next: (pos + 3) as usize,
                },
            },
        },
    }
}

pub fn memory_location(tokens: &[Token], pos: usize) -> (r: ParseResult<
    (Punctuation, Register, Punctuation),
>)
    ensures
        r == spec_memory_location(tokens@, pos as int),
        r matches ParseResult::Match { value, next } ==> pos < next <= tokens@.len(),
{
    match punctuation_of(tokens, pos, PunctuationKind::OpeningBracket) {
        None => ParseResult::NoMatch,
        Some(open_bracket) => match register(tokens, pos + 1) {
            None => ParseResult::Error(expect(tokens, pos + 1, Expected::Register)),
            Some(address_source) => match punctuation_of(
                tokens,
                pos + 2,
                PunctuationKind::ClosingBracket,
            ) {
                None => ParseResult::Error(expect(tokens, pos + 2, Expected::ClosingBracket)),
                Some(close_bracket) => ParseResult::Match {
                    value: (open_bracket, address_source, close_bracket),
                    next: pos + 3,
                },
            },
        },
    }
}

/// The destination of a MOV: a register or a memory location.
pub open spec fn spec_mov_destination(tokens: Seq<Token>, pos: int) -> ParseResult<MovDestination> {
    match spec_register(tokens, pos) {
        Some(reg) => ParseResult::Match {
            value: MovDestination::Register(reg),
            next: (pos + 1) as usize,
        },
        None => match spec_memory_location(tokens, pos) {
            ParseResult::Match { value, next } => ParseResult::Match {
                value: MovDestination::Memory {
                    open_bracket: value.0,
                    address_source: value.1,
                    close_bracket: value.2,
                },
                next,
            },
            ParseResult::NoMatch => ParseResult::Error(
                spec_expect(tokens, pos, Expected::RegisterOrMemoryLocation),
            ),
            ParseResult::Error(e) => ParseResult::Error(e),
        },
    }
}

pub fn mov_destination(tokens: &[Token], pos: usize) -> (r: ParseResult<MovDestination>)
    ensures
        r == spec_mov_destination(tokens@, pos as int),
        r matches ParseResult::Match { value, next } ==> pos < next <= tokens@.len(),
{
    match register(tokens, pos) {
        Some(reg) => ParseResult::Match { value: MovDestination::Register(reg), next: pos + 1 },
        None => match memory_location(tokens, pos) {
            ParseResult::Match { value, next } => ParseResult::Match {
                value: MovDestination::Memory {
                    open_bracket: value.0,
                    address_source: value.1,
                    close_bracket: value.2,
                },
                next,
            },
            ParseResult::NoMatch => ParseResult::Error(
                expect(tokens, pos, Expected::RegisterOrMemoryLocation),
            ),
            ParseResult::Error(e) => ParseResult::Error(e),
        },
    }
}

/// The source of a MOV: an immediate value, which may be marked with `#`,
/// a register or a memory location.
pub open spec fn spec_mov_source(tokens: Seq<Token>, pos: int) -> ParseResult<MovSource> {
    if spec_punctuation_of(tokens, pos, PunctuationKind::NumberSign).is_some() {
        match spec_required_expression(tokens, pos + 1) {
            ParseResult::Match { value, next } => ParseResult::Match {
                value: MovSource::Value(value),
                next,
            },
            ParseResult::NoMatch => ParseResult::NoMatch,
            ParseResult::Error(e) => ParseResult::Error(e),
        }
    } else {
        match spec_expression(tokens, pos) {
            ParseResult::Match { value, next } => ParseResult::Match {
                value: MovSource::Value(value),
                next,
            },
            ParseResult::Error(e) => ParseResult::Error(e),
            ParseResult::NoMatch => match spec_register(tokens, pos) {
                Some(reg) => ParseResult::Match {
                    value: MovSource::Register(reg),
                    next: (pos + 1) as usize,
                },
                None => match spec_memory_location(tokens, pos) {
                    ParseResult::Match { value, next } => ParseResult::Match {
                        value: MovSource::Memory {
                            open_bracket: value.0,
                            address_source: value.1,
                            close_bracket: value.2,
                        },
                        next,
                    },
                    ParseResult::NoMatch => ParseResult::Error(
                        spec_expect(tokens, pos, Expected::ExpressionRegisterOrMemoryLocation),
                    ),
                    ParseResult::Error(e) => ParseResult::Error(e),
                },
            },
        }
    }
}

pub fn mov_source(tokens: &[Token], pos: usize) -> (r: ParseResult<MovSource>)
    ensures
        r == spec_mov_source(tokens@, pos as int),
        r matches ParseResult::Match { value, next } ==> pos < next <= tokens@.len(),
{
    if punctuation_of(tokens, pos, PunctuationKind::NumberSign).is_some() {
        match required_expression(tokens, pos + 1) {
            ParseResult::Match { value, next } => ParseResult::Match {
                value: MovSource::Value(value),
                next,
            },
            ParseResult::NoMatch => ParseResult::NoMatch,
            ParseResult::Error(e) => ParseResult::Error(e),
        }
    } else {
        match expression(tokens, pos) {
            ParseResult::Match { value, next } => ParseResult::Match {
                value: MovSource::Value(value),
                next,
            },
            ParseResult::Error(e) => ParseResult::Error(e),
            ParseResult::NoMatch => match register(tokens, pos) {
                Some(reg) => ParseResult::Match { value: MovSource::Register(reg), next: pos + 1 },
                None => match memory_location(tokens, pos) {
                    ParseResult::Match { value, next } => ParseResult::Match {
                        value: MovSource::Memory {
                            open_bracket: value.0,
                            address_source: value.1,
                            close_bracket: value.2,
                        },
                        next,
                    },
                    ParseResult::NoMatch => ParseResult::Error(
                        expect(tokens, pos, Expected::ExpressionRegisterOrMemoryLocation),
                    ),
                    ParseResult::Error(e) => ParseResult::Error(e),
                },
            },
        }
    }
}

/// The target of a jump or call: an expression or a register.
pub open spec fn spec_jump_target(tokens: Seq<Token>, pos: int) -> ParseResult<JumpTarget> {
    match spec_expression(tokens, pos) {
        ParseResult::Match { value, next } => ParseResult::Match {
            value: JumpTarget::Value(value),
            next,
        },
        ParseResult::Error(e) => ParseResult::Error(e),
        ParseResult::NoMatch => match spec_register(tokens, pos) {
            Some(reg) => ParseResult::Match {
                value: JumpTarget::Register(reg),
                next: (pos + 1) as usize,
            },
            None => ParseResult::Error(spec_expect(tokens, pos, Expected::RegisterOrExpression)),
        },
    }
}

pub fn jump_target(tokens: &[Token], pos: usize) -> (r: ParseResult<JumpTarget>)
    ensures
        r == spec_jump_target(tokens@, pos as int),
        r matches ParseResult::Match { value, next } ==> pos < next <= tokens@.len(),
{
    match expression(tokens, pos) {
        ParseResult::Match { value, next } => ParseResult::Match {
            value: JumpTarget::Value(value),
            next,
        },
        ParseResult::Error(e) => ParseResult::Error(e),
        ParseResult::NoMatch => match register(tokens, pos) {
            Some(reg) => ParseResult::Match { value: JumpTarget::Register(reg), next: pos + 1 },
            None => ParseResult::Error(expect(tokens, pos, Expected::RegisterOrExpression)),
        },
    }
}

/// The instruction of one register that `mnemonic` names, if it takes the register.
pub open spec fn spec_single_register_instruction(mnemonic: Mnemonic, register: Register) -> Option<Instruction> {
    match mnemonic.kind {
        MnemonicKind::Inc => match IncInstruction::spec_new(mnemonic, register) {
            Some(inst) => Some(Instruction::Inc(inst)),
            None => None,
        },
        MnemonicKind::Incc => match InccInstruction::spec_new(mnemonic, register) {
            Some(inst) => Some(Instruction::Incc(inst)),
            None => None,
        },
        MnemonicKind::Dec => match DecInstruction::spec_new(mnemonic, register) {
            Some(inst) => Some(Instruction::Dec(inst)),
            None => None,
        },
        MnemonicKind::Push => match PushInstruction::spec_new(mnemonic, register) {
            Some(inst) => Some(Instruction::Push(inst)),
            None => None,
        },
        MnemonicKind::Pop => match PopInstruction::spec_new(mnemonic, register) {
            Some(inst) => Some(Instruction::Pop(inst)),
            None => None,
        },
        MnemonicKind::Shl => match ShlInstruction::spec_new(mnemonic, register) {
            Some(inst) => Some(Instruction::Shl(inst)),
            None => None,
        },
        MnemonicKind::Shr => match ShrInstruction::spec_new(mnemonic, register) {
            Some(inst) => Some(Instruction::Shr(inst)),
            None => None,
        },
        MnemonicKind::Not => match NotInstruction::spec_new(mnemonic, register) {
            Some(inst) => Some(Instruction::Not(inst)),
            None => None,
        },
        MnemonicKind::Test => match TestInstruction::spec_new(mnemonic, register) {
            Some(inst) => Some(Instruction::Test(inst)),
            None => None,
        },
        _ => None,
    }
}

pub fn single_register_instruction(mnemonic: Mnemonic, register: Register) -> (r: Option<Instruction>)
    ensures
        r == spec_single_register_instruction(mnemonic, register),
{
    match mnemonic.kind {
        MnemonicKind::Inc => match IncInstruction::new(mnemonic, register) {
            Some(inst) => Some(Instruction::Inc(inst)),
            None => None,
        },
        MnemonicKind::Incc => match InccInstruction::new(mnemonic, register) {
            Some(inst) => Some(Instruction::Incc(inst)),
            None => None,
        },
        MnemonicKind::Dec => match DecInstruction::new(mnemonic, register) {
            Some(inst) => Some(Instruction::Dec(inst)),
            None => None,
        },
        MnemonicKind::Push => match PushInstruction::new(mnemonic, register) {
            Some(inst) => Some(Instruction::Push(inst)),
            None => None,
        },
        MnemonicKind::Pop => match PopInstruction::new(mnemonic, register) {
            Some(inst) => Some(Instruction::Pop(inst)),
            None => None,
        },
        MnemonicKind::Shl => match ShlInstruction::new(mnemonic, register) {
            Some(inst) => Some(Instruction::Shl(inst)),
            None => None,
        },
        MnemonicKind::Shr => match ShrInstruction::new(mnemonic, register) {
            Some(inst) => Some(Instruction::Shr(inst)),
            None => None,
        },
        MnemonicKind::Not => match NotInstruction::new(mnemonic, register) {
            Some(inst) => Some(Instruction::Not(inst)),
            None => None,
        },
        MnemonicKind::Test => match TestInstruction::new(mnemonic, register) {
            Some(inst) => Some(Instruction::Test(inst)),
            None => None,
        },
        _ => None,
    }
}

/// The instruction of two registers that `mnemonic` names, if it takes them.
pub open spec fn spec_dual_register_instruction(mnemonic: Mnemonic, destination: Register, comma: Punctuation, source: Register) -> Option<Instruction> {
    match mnemonic.kind {
        MnemonicKind::Add => match AddInstruction::spec_new(mnemonic, destination, comma, source) {
            Some(inst) => Some(Instruction::Add(inst)),
            None => None,
        },
        MnemonicKind::Addc => match AddcInstruction::spec_new(mnemonic, destination, comma, source) {
            Some(inst) => Some(Instruction::Addc(inst)),
            None => None,
        },
        MnemonicKind::Sub => match SubInstruction::spec_new(mnemonic, destination, comma, source) {
            Some(inst) => Some(Instruction::Sub(inst)),
            None => None,
        },
        MnemonicKind::Subb => match SubbInstruction::spec_new(mnemonic, destination, comma, source) {
            Some(inst) => Some(Instruction::Subb(inst)),
            None => None,
        },
        MnemonicKind::And => match AndInstruction::spec_new(mnemonic, destination, comma, source) {
            Some(inst) => Some(Instruction::And(inst)),
            None => None,
        },
        MnemonicKind::Or => match OrInstruction::spec_new(mnemonic, destination, comma, source) {
            Some(inst) => Some(Instruction::Or(inst)),
            None => None,
        },
        MnemonicKind::Xor => match XorInstruction::spec_new(mnemonic, destination, comma, source) {
            Some(inst) => Some(Instruction::Xor(inst)),
            None => None,
        },
        MnemonicKind::Cmp => match CmpInstruction::spec_new(mnemonic, destination, comma, source) {
            Some(inst) => Some(Instruction::Cmp(inst)),
            None => None,
        },
        MnemonicKind::Addac => match AddacInstruction::spec_new(mnemonic, destination, comma, source) {
            Some(inst) => Some(Instruction::Addac(inst)),
            None => None,
        },
        MnemonicKind::Subae => match SubaeInstruction::spec_new(mnemonic, destination, comma, source) {
            Some(inst) => Some(Instruction::Subae(inst)),
            None => None,
        },
        _ => None,
    }
}

pub fn dual_register_instruction(mnemonic: Mnemonic, destination: Register, comma: Punctuation, source: Register) -> (r: Option<Instruction>)
    ensures
        r == spec_dual_register_instruction(mnemonic, destination, comma, source),
{
    match mnemonic.kind {
        MnemonicKind::Add => match AddInstruction::new(mnemonic, destination, comma, source) {
            Some(inst) => Some(Instruction::Add(inst)),
            None => None,
        },
        MnemonicKind::Addc => match AddcInstruction::new(mnemonic, destination, comma, source) {
            Some(inst) => Some(Instruction::Addc(inst)),
            None => None,
        },
        MnemonicKind::Sub => match SubInstruction::new(mnemonic, destination, comma, source) {
            Some(inst) => Some(Instruction::Sub(inst)),
            None => None,
        },
        MnemonicKind::Subb => match SubbInstruction::new(mnemonic, destination, comma, source) {
            Some(inst) => Some(Instruction::Subb(inst)),
            None => None,
        },
        MnemonicKind::And => match AndInstruction::new(mnemonic, destination, comma, source) {
            Some(inst) => Some(Instruction::And(inst)),
            None => None,
        },
        MnemonicKind::Or => match OrInstruction::new(mnemonic, destination, comma, source) {
            Some(inst) => Some(Instruction::Or(inst)),
            None => None,
        },
        MnemonicKind::Xor => match XorInstruction::new(mnemonic, destination, comma, source) {
            Some(inst) => Some(Instruction::Xor(inst)),
            None => None,
        },
        MnemonicKind::Cmp => match CmpInstruction::new(mnemonic, destination, comma, source) {
            Some(inst) => Some(Instruction::Cmp(inst)),
            None => None,
        },
        MnemonicKind::Addac => match AddacInstruction::new(mnemonic, destination, comma, source) {
            Some(inst) => Some(Instruction::Addac(inst)),
            None => None,
        },
        MnemonicKind::Subae => match SubaeInstruction::new(mnemonic, destination, comma, source) {
            Some(inst) => Some(Instruction::Subae(inst)),
            None => None,
        },
        _ => None,
    }
}

/// The jump or call that `mnemonic` names, if it takes the target.
pub open spec fn spec_jump_instruction(mnemonic: Mnemonic, target: JumpTarget) -> Option<Instruction> {
    match mnemonic.kind {
        MnemonicKind::Call => match CallInstruction::spec_new(mnemonic, target) {
            Some(inst) => Some(Instruction::Call(inst)),
            None => None,
        },
        MnemonicKind::CallBd => match CallBdInstruction::spec_new(mnemonic, target) {
            Some(inst) => Some(Instruction::CallBd(inst)),
            None => None,
        },
        MnemonicKind::Jmp => match JmpInstruction::spec_new(mnemonic, target) {
            Some(inst) => Some(Instruction::Jmp(inst)),
            None => None,
        },
        MnemonicKind::Jo | MnemonicKind::Jno | MnemonicKind::Js | MnemonicKind::Jns | MnemonicKind::Jz | MnemonicKind::Jnz | MnemonicKind::Je | MnemonicKind::Jne | MnemonicKind::Jc | MnemonicKind::Jnc | MnemonicKind::Jnae | MnemonicKind::Jb | MnemonicKind::Jae | MnemonicKind::Jnb | MnemonicKind::Jbe | MnemonicKind::Jna | MnemonicKind::Ja | MnemonicKind::Jnbe | MnemonicKind::Jl | MnemonicKind::Jnge | MnemonicKind::Jge | MnemonicKind::Jnl | MnemonicKind::Jle | MnemonicKind::Jng | MnemonicKind::Jg | MnemonicKind::Jnle | MnemonicKind::Jlc | MnemonicKind::Jnlc => match BranchInstruction::spec_new(mnemonic, target) {
            Some(inst) => Some(Instruction::Branch(inst)),
            None => None,
        },
        _ => None,
    }
}

pub fn jump_instruction(mnemonic: Mnemonic, target: JumpTarget) -> (r: Option<Instruction>)
    ensures
        r == spec_jump_instruction(mnemonic, target),
{
    match mnemonic.kind {
        MnemonicKind::Call => match CallInstruction::new(mnemonic, target) {
            Some(inst) => Some(Instruction::Call(inst)),
            None => None,
        },
        MnemonicKind::CallBd => match CallBdInstruction::new(mnemonic, target) {
            Some(inst) => Some(Instruction::CallBd(inst)),
            None => None,
        },
        MnemonicKind::Jmp => match JmpInstruction::new(mnemonic, target) {
            Some(inst) => Some(Instruction::Jmp(inst)),
            None => None,
        },
        MnemonicKind::Jo | MnemonicKind::Jno | MnemonicKind::Js | MnemonicKind::Jns | MnemonicKind::Jz | MnemonicKind::Jnz | MnemonicKind::Je | MnemonicKind::Jne | MnemonicKind::Jc | MnemonicKind::Jnc | MnemonicKind::Jnae | MnemonicKind::Jb | MnemonicKind::Jae | MnemonicKind::Jnb | MnemonicKind::Jbe | MnemonicKind::Jna | MnemonicKind::Ja | MnemonicKind::Jnbe | MnemonicKind::Jl | MnemonicKind::Jnge | MnemonicKind::Jge | MnemonicKind::Jnl | MnemonicKind::Jle | MnemonicKind::Jng | MnemonicKind::Jg | MnemonicKind::Jnle | MnemonicKind::Jlc | MnemonicKind::Jnlc => match BranchInstruction::new(mnemonic, target) {
            Some(inst) => Some(Instruction::Branch(inst)),
            None => None,
        },
        _ => None,
    }
}

/// How the operands of an instruction are written.
#[derive(Debug, Clone, Copy, PartialEq, Eq, Structural)]
pub enum OperandShape {
    /// No operand.
    Bare,
    /// A destination and a source, each a register, a memory location or,
    /// for the source, a value.
    Mov,
    /// One register.
    SingleRegister,
    /// Two registers.
    DualRegister,
    /// An expression or a register.
    Jump,
    /// A register and an I/O port.
    In,
    /// An I/O port and a register.
    Out,
}

/// How the operands of `kind` are written.
pub open spec fn spec_operand_shape(kind: MnemonicKind) -> OperandShape {
    match kind {
        MnemonicKind::Nop => OperandShape::Bare,
        MnemonicKind::Cnop => OperandShape::Bare,
        MnemonicKind::Break => OperandShape::Bare,
        MnemonicKind::Lodsb => OperandShape::Bare,
        MnemonicKind::Stosb => OperandShape::Bare,
        MnemonicKind::Ret => OperandShape::Bare,
        MnemonicKind::RetBd => OperandShape::Bare,
        MnemonicKind::Clc => OperandShape::Bare,
        MnemonicKind::Mov => OperandShape::Mov,
        MnemonicKind::Inc => OperandShape::SingleRegister,
        MnemonicKind::Incc => OperandShape::SingleRegister,
        MnemonicKind::Dec => OperandShape::SingleRegister,
        MnemonicKind::Push => OperandShape::SingleRegister,
        MnemonicKind::Pop => OperandShape::SingleRegister,
        MnemonicKind::Shl => OperandShape::SingleRegister,
        MnemonicKind::Shr => OperandShape::SingleRegister,
        MnemonicKind::Not => OperandShape::SingleRegister,
        MnemonicKind::Test => OperandShape::SingleRegister,
        MnemonicKind::Add => OperandShape::DualRegister,
        MnemonicKind::Addc => OperandShape::DualRegister,
        MnemonicKind::Sub => OperandShape::DualRegister,
        MnemonicKind::Subb => OperandShape::DualRegister,
        MnemonicKind::And => OperandShape::DualRegister,
        MnemonicKind::Or => OperandShape::DualRegister,
        MnemonicKind::Xor => OperandShape::DualRegister,
        MnemonicKind::Cmp => OperandShape::DualRegister,
        MnemonicKind::Addac => OperandShape::DualRegister,
        MnemonicKind::Subae => OperandShape::DualRegister,
        MnemonicKind::In => OperandShape::In,
        MnemonicKind::Out => OperandShape::Out,
        _ => OperandShape::Jump,
    }
}

#[verifier::when_used_as_spec(spec_operand_shape)]
pub fn operand_shape(kind: MnemonicKind) -> (r: OperandShape)
    ensures
        r == spec_operand_shape(kind),
{
    match kind {
        MnemonicKind::Nop => OperandShape::Bare,
        MnemonicKind::Cnop => OperandShape::Bare,
        MnemonicKind::Break => OperandShape::Bare,
        MnemonicKind::Lodsb => OperandShape::Bare,
        MnemonicKind::Stosb => OperandShape::Bare,
        MnemonicKind::Ret => OperandShape::Bare,
        MnemonicKind::RetBd => OperandShape::Bare,
        MnemonicKind::Clc => OperandShape::Bare,
        MnemonicKind::Mov => OperandShape::Mov,
        MnemonicKind::Inc => OperandShape::SingleRegister,
        MnemonicKind::Incc => OperandShape::SingleRegister,
        MnemonicKind::Dec => OperandShape::SingleRegister,
        MnemonicKind::Push => OperandShape::SingleRegister,
        MnemonicKind::Pop => OperandShape::SingleRegister,
        MnemonicKind::Shl => OperandShape::SingleRegister,
        MnemonicKind::Shr => OperandShape::SingleRegister,
        MnemonicKind::Not => OperandShape::SingleRegister,
        MnemonicKind::Test => OperandShape::SingleRegister,
        MnemonicKind::Add => OperandShape::DualRegister,
        MnemonicKind::Addc => OperandShape::DualRegister,
        MnemonicKind::Sub => OperandShape::DualRegister,
        MnemonicKind::Subb => OperandShape::DualRegister,
        MnemonicKind::And => OperandShape::DualRegister,
        MnemonicKind::Or => OperandShape::DualRegister,
        MnemonicKind::Xor => OperandShape::DualRegister,
        MnemonicKind::Cmp => OperandShape::DualRegister,
        MnemonicKind::Addac => OperandShape::DualRegister,
        MnemonicKind::Subae => OperandShape::DualRegister,
        MnemonicKind::In => OperandShape::In,
        MnemonicKind::Out => OperandShape::Out,
        _ => OperandShape::Jump,
    }
}

/// The instruction without operands that `mnemonic` names.
pub open spec fn spec_bare_instruction(mnemonic: Mnemonic) -> Instruction {
    match mnemonic.kind {
        MnemonicKind::Break => Instruction::Break(mnemonic),
        MnemonicKind::Lodsb => Instruction::Lodsb(mnemonic),
        MnemonicKind::Stosb => Instruction::Stosb(mnemonic),
        MnemonicKind::Ret => Instruction::Ret(mnemonic),
        MnemonicKind::RetBd => Instruction::RetBd(mnemonic),
        MnemonicKind::Clc => Instruction::Clc(mnemonic),
        _ => Instruction::Nop(mnemonic),
    }
}

pub fn bare_instruction(mnemonic: Mnemonic) -> (r: Instruction)
    ensures
        r == spec_bare_instruction(mnemonic),
{
    match mnemonic.kind {
        MnemonicKind::Break => Instruction::Break(mnemonic),
        MnemonicKind::Lodsb => Instruction::Lodsb(mnemonic),
        MnemonicKind::Stosb => Instruction::Stosb(mnemonic),
        MnemonicKind::Ret => Instruction::Ret(mnemonic),
        MnemonicKind::RetBd => Instruction::RetBd(mnemonic),
        MnemonicKind::Clc => Instruction::Clc(mnemonic),
        _ => Instruction::Nop(mnemonic),
    }
}

/// Two registers with a comma between them, from `pos` on.
pub open spec fn spec_register_pair(tokens: Seq<Token>, pos: int) -> Result<
    (Register, Punctuation, Register),
    ParseError,
> {
    match spec_register(tokens, pos) {
        None => Err(spec_expect(tokens, pos, Expected::Register)),
        Some(destination) => match spec_punctuation_of(tokens, pos + 1, PunctuationKind::Comma) {
            None => Err(spec_expect(tokens, pos + 1, Expected::Comma)),
            Some(comma) => match spec_register(tokens, pos + 2) {
                None => Err(spec_expect(tokens, pos + 2, Expected::Register)),
                Some(source) => Ok((destination, comma, source)),
            },
        },
    }
}

pub fn register_pair(tokens: &[Token], pos: usize) -> (r: Result<
    (Register, Punctuation, Register),
    ParseError,
>)
    requires
        pos <= tokens@.len(),
    ensures
        r == spec_register_pair(tokens@, pos as int),
        r.is_ok() ==> pos + 3 <= tokens@.len(),
{
    match register(tokens, pos) {
        None => Err(expect(tokens, pos, Expected::Register)),
        Some(destination) => match punctuation_of(tokens, pos + 1, PunctuationKind::Comma) {
            None => Err(expect(tokens, pos + 1, Expected::Comma)),
            Some(comma) => match register(tokens, pos + 2) {
                None => Err(expect(tokens, pos + 2, Expected::Register)),
                Some(source) => Ok((destination, comma, source)),
            },
        },
    }
}

/// The MOV whose mnemonic stands before `pos`.
pub open spec fn spec_mov_instruction(tokens: Seq<Token>, pos: int, mnemonic: Mnemonic)
    -> ParseResult<Instruction> {
    match spec_mov_destination(tokens, pos) {
        ParseResult::NoMatch => ParseResult::NoMatch,
        ParseResult::Error(e) => ParseResult::Error(e),
        ParseResult::Match { value: destination, next } => match spec_punctuation_of(
            tokens,
            next as int,
            PunctuationKind::Comma,
        ) {
            None => ParseResult::Error(spec_expect(tokens, next as int, Expected::Comma)),
            Some(comma) => match spec_mov_source(tokens, next + 1) {
                ParseResult::NoMatch => ParseResult::NoMatch,
                ParseResult::Error(e) => ParseResult::Error(e),
                ParseResult::Match { value: source, next: end } => match MovInstruction::spec_new(
                    mnemonic,
                    destination,
                    comma,
                    source,
                ) {
                    Some(inst) => ParseResult::Match { value: Instruction::Mov(inst), next: end },
                    None => ParseResult::Error(
                        ParseError::InvalidOperands {
                            op1: destination.spec_span(),
                            op2: source.spec_span(),
                        },
                    ),
                },
            },
        },
    }
}

pub fn mov_instruction(tokens: &[Token], pos: usize, mnemonic: Mnemonic) -> (r: ParseResult<
    Instruction,
>)
    ensures
        r == spec_mov_instruction(tokens@, pos as int, mnemonic),
        r matches ParseResult::Match { value, next } ==> pos < next <= tokens@.len(),
{
    match mov_destination(tokens, pos) {
        ParseResult::NoMatch => ParseResult::NoMatch,
        ParseResult::Error(e) => ParseResult::Error(e),
        ParseResult::Match { value: destination, next } => match punctuation_of(
            tokens,
            next,
            PunctuationKind::Comma,
        ) {
            None => ParseResult::Error(expect(tokens, next, Expected::Comma)),
            Some(comma) => match mov_source(tokens, next + 1) {
                ParseResult::NoMatch => ParseResult::NoMatch,
                ParseResult::Error(e) => ParseResult::Error(e),
                ParseResult::Match { value: source, next: end } => {
                    let op1 = destination.span();
                    let op2 = source.span();
                    match MovInstruction::new(mnemonic, destination, comma, source) {
                        Some(inst) => ParseResult::Match {
                            value: Instruction::Mov(inst),
                            next: end,
                        },
                        None => ParseResult::Error(ParseError::InvalidOperands { op1, op2 }),
                    }
                },
            },
        },
    }
}

/// The instruction whose mnemonic stands at `pos`.
pub open spec fn spec_instruction(tokens: Seq<Token>, pos: int) -> ParseResult<Instruction> {
    match spec_mnemonic(tokens, pos) {
        None => ParseResult::NoMatch,
        Some(mnemonic) => match spec_operand_shape(mnemonic.kind) {
            OperandShape::Bare => ParseResult::Match {
                value: spec_bare_instruction(mnemonic),
                next: (pos + 1) as usize,
            },
            OperandShape::Mov => spec_mov_instruction(tokens, pos + 1, mnemonic),
            OperandShape::SingleRegister => match spec_register(tokens, pos + 1) {
                None => ParseResult::Error(spec_expect(tokens, pos + 1, Expected::Register)),
                Some(reg) => match spec_single_register_instruction(mnemonic, reg) {
                    Some(inst) => ParseResult::Match { value: inst, next: (pos + 2) as usize },
                    None => ParseResult::Error(ParseError::InvalidRegister { register: reg.span }),
                },
            },
            OperandShape::DualRegister => match spec_register_pair(tokens, pos + 1) {
                Err(e) => ParseResult::Error(e),
                Ok(pair) => match spec_dual_register_instruction(
                    mnemonic,
                    pair.0,
                    pair.1,
                    pair.2,
                ) {
                    Some(inst) => ParseResult::Match { value: inst, next: (pos + 4) as usize },
                    None => ParseResult::Error(
                        ParseError::InvalidOperands { op1: pair.0.span, op2: pair.2.span },
                    ),
                },
            },
            OperandShape::Jump => match spec_jump_target(tokens, pos + 1) {
                ParseResult::NoMatch => ParseResult::NoMatch,
                ParseResult::Error(e) => ParseResult::Error(e),
                ParseResult::Match { value: target, next } => match spec_jump_instruction(
                    mnemonic,
                    target,
                ) {
                    Some(inst) => ParseResult::Match { value: inst, next },
                    None => ParseResult::Error(
                        ParseError::InvalidRegister { register: target.spec_span() },
                    ),
                },
            },
            OperandShape::In => match spec_register(tokens, pos + 1) {
                None => ParseResult::Error(spec_expect(tokens, pos + 1, Expected::Register)),
                Some(destination) => match spec_punctuation_of(
                    tokens,
                    pos + 2,
                    PunctuationKind::Comma,
                ) {
                    None => ParseResult::Error(spec_expect(tokens, pos + 2, Expected::Comma)),
                    Some(comma) => match spec_io_register(tokens, pos + 3) {
                        None => ParseResult::Error(
                            spec_expect(tokens, pos + 3, Expected::IoRegister),
                        ),
                        Some(source) => match InInstruction::spec_new(
                            mnemonic,
                            destination,
                            comma,
                            source,
                        ) {
                            Some(inst) => ParseResult::Match {
                                value: Instruction::In(inst),
                                next: (pos + 4) as usize,
                            },
                            None => ParseResult::Error(
                                ParseError::InvalidOperands {
                                    op1: destination.span,
                                    op2: source.span,
                                },
                            ),
                        },
                    },
                },
            },
            OperandShape::Out => match spec_io_register(tokens, pos + 1) {
                None => ParseResult::Error(spec_expect(tokens, pos + 1, Expected::IoRegister)),
                Some(destination) => match spec_punctuation_of(
                    tokens,
                    pos + 2,
                    PunctuationKind::Comma,
                ) {
                    None => ParseResult::Error(spec_expect(tokens, pos + 2, Expected::Comma)),
                    Some(comma) => match spec_register(tokens, pos + 3) {
                        None => ParseResult::Error(spec_expect(tokens, pos + 3, Expected::Register)),
                        Some(source) => match OutInstruction::spec_new(
                            mnemonic,
                            destination,
                            comma,
                            source,
                        ) {
                            Some(inst) => ParseResult::Match {
                                value: Instruction::Out(inst),
                                next: (pos + 4) as usize,
                            },
                            None => ParseResult::Error(
                                ParseError::InvalidOperands {
                                    op1: destination.span,
                                    op2: source.span,
                                },
                            ),
                        },
                    },
                },
            },
        },
    }
}

pub fn instruction(tokens: &[Token], pos: usize) -> (r: ParseResult<Instruction>)
    ensures
        r == spec_instruction(tokens@, pos as int),
        r matches ParseResult::Match { value, next } ==> pos < next <= tokens@.len(),
{
    let mnemonic = match mnemonic(tokens, pos) {
        None => {
            return ParseResult::NoMatch;
        },
        Some(mnemonic) => mnemonic,
    };
    match operand_shape(mnemonic.kind) {
        OperandShape::Bare => ParseResult::Match {
            value: bare_instruction(mnemonic),
            next: pos + 1,
        },
        OperandShape::Mov => mov_instruction(tokens, pos + 1, mnemonic),
        OperandShape::SingleRegister => match register(tokens, pos + 1) {
            None => ParseResult::Error(expect(tokens, pos + 1, Expected::Register)),
            Some(reg) => match single_register_instruction(mnemonic, reg) {
                Some(inst) => ParseResult::Match { value: inst, next: pos + 2 },
                None => ParseResult::Error(ParseError::InvalidRegister { register: reg.span }),
            },
        },
        OperandShape::DualRegister => match register_pair(tokens, pos + 1) {
            Err(e) => ParseResult::Error(e),
            Ok(pair) => match dual_register_instruction(mnemonic, pair.0, pair.1, pair.2) {
                Some(inst) => ParseResult::Match { value: inst, next: pos + 4 },
                None => ParseResult::Error(
                    ParseError::InvalidOperands { op1: pair.0.span, op2: pair.2.span },
                ),
            },
        },
        OperandShape::Jump => match jump_target(tokens, pos + 1) {
            ParseResult::NoMatch => ParseResult::NoMatch,
            ParseResult::Error(e) => ParseResult::Error(e),
            ParseResult::Match { value: target, next } => {
                let register = target.span();
                match jump_instruction(mnemonic, target) {
                    Some(inst) => ParseResult::Match { value: inst, next },
                    None => ParseResult::Error(ParseError::InvalidRegister { register }),
                }
            },
        },
        OperandShape::In => match register(tokens, pos + 1) {
            None => ParseResult::Error(expect(tokens, pos + 1, Expected::Register)),
            Some(destination) => match punctuation_of(tokens, pos + 2, PunctuationKind::Comma) {
                None => ParseResult::Error(expect(tokens, pos + 2, Expected::Comma)),
                Some(comma) => match io_register(tokens, pos + 3) {
                    None => ParseResult::Error(expect(tokens, pos + 3, Expected::IoRegister)),
                    Some(source) => match InInstruction::new(
                        mnemonic,
                        destination,
                        comma,
                        source,
                    ) {
                        Some(inst) => ParseResult::Match {
                            value: Instruction::In(inst),
                            next: pos + 4,
                        },
                        None => ParseResult::Error(
                            ParseError::InvalidOperands { op1: destination.span, op2: source.span },
                        ),
                    },
                },
            },
        },
        OperandShape::Out => match io_register(tokens, pos + 1) {
            None => ParseResult::Error(expect(tokens, pos + 1, Expected::IoRegister)),
            Some(destination) => match punctuation_of(tokens, pos + 2, PunctuationKind::Comma) {
                None => ParseResult::Error(expect(tokens, pos + 2, Expected::Comma)),
                Some(comma) => match register(tokens, pos + 3) {
                    None => ParseResult::Error(expect(tokens, pos + 3, Expected::Register)),
                    Some(source) => match OutInstruction::new(
                        mnemonic,
                        destination,
                        comma,
                        source,
                    ) {
                        Some(inst) => ParseResult::Match {
                            value: Instruction::Out(inst),
                            next: pos + 4,
                        },
                        None => ParseResult::Error(
                            ParseError::InvalidOperands { op1: destination.span, op2: source.span },
                        ),
                    },
                },
            },
        },
    }
}

/// The label whose name stands at the start of the line.
pub open spec fn spec_label(tokens: Seq<Token>) -> ParseResult<Statement> {
    match spec_identifier(tokens, 0) {
        None => ParseResult::NoMatch,
        Some(name) => match spec_punctuation_of(tokens, 1, PunctuationKind::Colon) {
            Some(colon) => ParseResult::Match {
                value: Statement::Label(
                    Box::new(Label { name, value: LabelValue::Address { colon } }),
                ),
                next: 2,
            },
            None => match spec_punctuation_of(tokens, 1, PunctuationKind::EqualSign) {
                None => ParseResult::Error(spec_expect(tokens, 1, Expected::ColonOrEqualSign)),
                Some(assign_op) => match spec_required_expression(tokens, 2) {
                    ParseResult::Match { value, next } => ParseResult::Match {
                        value: Statement::Label(
                            Box::new(
                                Label { name, value: LabelValue::Expression { assign_op, value } },
                            ),
                        ),
                        next,
                    },
                    ParseResult::NoMatch => ParseResult::NoMatch,
                    ParseResult::Error(e) => ParseResult::Error(e),
                },
            },
        },
    }
}

pub fn label(tokens: &[Token]) -> (r: ParseResult<Statement>)
    ensures
        r == spec_label(tokens@),
        r matches ParseResult::Match { value, next } ==> 0 < next <= tokens@.len(),
{
    match identifier(tokens, 0) {
        None => ParseResult::NoMatch,
        Some(name) => match punctuation_of(tokens, 1, PunctuationKind::Colon) {
            Some(colon) => ParseResult::Match {
                value: Statement::Label(
                    Box::new(Label { name, value: LabelValue::Address { colon } }),
                ),
                next: 2,
            },
            None => match punctuation_of(tokens, 1, PunctuationKind::EqualSign) {
                None => ParseResult::Error(expect(tokens, 1, Expected::ColonOrEqualSign)),
                Some(assign_op) => match required_expression(tokens, 2) {
                    ParseResult::Match { value, next } => ParseResult::Match {
                        value: Statement::Label(
                            Box::new(
                                Label { name, value: LabelValue::Expression { assign_op, value } },
                            ),
                        ),
                        next,
                    },
                    ParseResult::NoMatch => ParseResult::NoMatch,
                    ParseResult::Error(e) => ParseResult::Error(e),
                },
            },
        },
    }
}

/// The directive whose name stands at the start of the line.
pub open spec fn spec_directive_statement(tokens: Seq<Token>) -> ParseResult<Statement> {
    match spec_directive(tokens, 0) {
        None => ParseResult::NoMatch,
        Some(directive) => match directive.kind {
            DirectiveKind::Section => match spec_string_literal(tokens, 1) {
                None => ParseResult::Error(spec_expect(tokens, 1, Expected::StringLiteral)),
                Some(name) => match spec_integer_literal(tokens, 2) {
                    Some(base) => ParseResult::Match {
                        value: Statement::SectionDirective(
                            Box::new(SectionDirective { directive, name, base: Some(base) }),
                        ),
                        next: 3,
                    },
                    None => ParseResult::Match {
                        value: Statement::SectionDirective(
                            Box::new(SectionDirective { directive, name, base: None }),
                        ),
                        next: 2,
                    },
                },
            },
            DirectiveKind::Include => match spec_string_literal(tokens, 1) {
                None => ParseResult::Error(spec_expect(tokens, 1, Expected::StringLiteral)),
                Some(path) => ParseResult::Match {
                    value: Statement::IncludeDirective(Box::new(IncludeDirective { directive, path })),
                    next: 2,
                },
            },
            kind => match spec_integer_literal(tokens, 1) {
                None => ParseResult::Error(spec_expect(tokens, 1, Expected::IntegerLiteral)),
                Some(value) => ParseResult::Match {
                    value: match kind {
                        DirectiveKind::Offset => Statement::OffsetDirective(
                            Box::new(OffsetDirective { directive, value }),
                        ),
                        DirectiveKind::Align => Statement::AlignDirective(
                            Box::new(AlignDirective { directive, value }),
                        ),
                        _ => Statement::OriginDirective(
                            Box::new(OriginDirective { directive, value }),
                        ),
                    },
                    next: 2,
                },
            },
        },
    }
}

pub fn directive_statement(tokens: &[Token]) -> (r: ParseResult<Statement>)
    ensures
        r == spec_directive_statement(tokens@),
        r matches ParseResult::Match { value, next } ==> 0 < next <= tokens@.len(),
{
    match directive(tokens, 0) {
        None => ParseResult::NoMatch,
        Some(directive) => match directive.kind {
            DirectiveKind::Section => match string_literal(tokens, 1) {
                None => ParseResult::Error(expect(tokens, 1, Expected::StringLiteral)),
                Some(name) => match integer_literal(tokens, 2) {
                    Some(base) => ParseResult::Match {
                        value: Statement::SectionDirective(
                            Box::new(SectionDirective { directive, name, base: Some(base) }),
                        ),
                        next: 3,
                    },
                    None => ParseResult::Match {
                        value: Statement::SectionDirective(
                            Box::new(SectionDirective { directive, name, base: None }),
                        ),
                        next: 2,
                    },
                },
            },
            DirectiveKind::Include => match string_literal(tokens, 1) {
                None => ParseResult::Error(expect(tokens, 1, Expected::StringLiteral)),
                Some(path) => ParseResult::Match {
                    value: Statement::IncludeDirective(Box::new(IncludeDirective { directive, path })),
                    next: 2,
                },
            },
            kind => match integer_literal(tokens, 1) {
                None => ParseResult::Error(expect(tokens, 1, Expected::IntegerLiteral)),
                Some(value) => ParseResult::Match {
                    value: match kind {
                        DirectiveKind::Offset => Statement::OffsetDirective(
                            Box::new(OffsetDirective { directive, value }),
                        ),
                        DirectiveKind::Align => Statement::AlignDirective(
                            Box::new(AlignDirective { directive, value }),
                        ),
                        _ => Statement::OriginDirective(
                            Box::new(OriginDirective { directive, value }),
                        ),
                    },
                    next: 2,
                },
            },
        },
    }
}

/// The statement that the line starts with: a label, a directive or an
/// instruction.
pub open spec fn spec_statement(tokens: Seq<Token>) -> ParseResult<Statement> {
    match spec_label(tokens) {
        ParseResult::NoMatch => match spec_directive_statement(tokens) {
            ParseResult::NoMatch => match spec_instruction(tokens, 0) {
                ParseResult::Match { value, next } => ParseResult::Match {
                    value: Statement::Instruction(Box::new(value)),
                    next,
                },
                ParseResult::NoMatch => ParseResult::NoMatch,
                ParseResult::Error(e) => ParseResult::Error(e),
            },
            other => other,
        },
        other => other,
    }
}

pub fn statement(tokens: &[Token]) -> (r: ParseResult<Statement>)
    ensures
        r == spec_statement(tokens@),
        r matches ParseResult::Match { value, next } ==> 0 < next <= tokens@.len(),
{
    match label(tokens) {
        ParseResult::NoMatch => match directive_statement(tokens) {
            ParseResult::NoMatch => match instruction(tokens, 0) {
                ParseResult::Match { value, next } => ParseResult::Match {
                    value: Statement::Instruction(Box::new(value)),
                    next,
                },
                ParseResult::NoMatch => ParseResult::NoMatch,
                ParseResult::Error(e) => ParseResult::Error(e),
            },
            other => other,
        },
        other => other,
    }
}

/// The statement that the tokens of one line make up. The whole line has
/// to be one statement.
pub open spec fn spec_parse(tokens: Seq<Token>) -> Result<Statement, ParseError> {
    match spec_statement(tokens) {
        ParseResult::Match { value, next } => if next >= tokens.len() {
            Ok(value)
        } else {
            Err(
                ParseError::TokensRemaining {
                    span: tokens[next as int].span.spec_cover(tokens[tokens.len() - 1].span),
                },
            )
        },
        ParseResult::NoMatch => Err(
            ParseError::NoMatch { span: tokens[0].span.spec_cover(tokens[tokens.len() - 1].span) },
        ),
        ParseResult::Error(e) => Err(e),
    }
}

/// Parses the tokens of one line, of which there is at least one.
pub fn parse(tokens: &[Token]) -> (r: Result<Statement, ParseError>)
    requires
        tokens@.len() > 0,
    ensures
        r == spec_parse(tokens@),
{
    let last = tokens[tokens.len() - 1].span;
    match statement(tokens) {
        ParseResult::Match { value, next } => if next >= tokens.len() {
            Ok(value)
        } else {
            Err(ParseError::TokensRemaining { span: tokens[next].span.cover(last) })
        },
        ParseResult::NoMatch => Err(ParseError::NoMatch { span: tokens[0].span.cover(last) }),
        ParseResult::Error(e) => Err(e),
    }
}

} // verus!
