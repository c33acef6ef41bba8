//! The syntax tree of one statement, the rules that say which operands an
//! instruction takes, and the bytes that each instruction assembles to.

use crate::assembler::lexer::{DirectiveKind, IoRegisterKind, MnemonicKind, PunctuationKind};
use crate::assembler::lexer::RegisterKind;
use crate::assembler::span::TextSpan;
use vstd::prelude::*;

verus! {

/// A punctuation mark in the source.
#[derive(Debug, Clone, Copy, PartialEq, Eq, Structural)]
pub struct Punctuation {
    pub kind: PunctuationKind,
    pub span: TextSpan,
}

impl Punctuation {
    pub fn new(kind: PunctuationKind, span: TextSpan) -> (r: Self)
        ensures
            r == (Punctuation { kind, span }),
    {
        Punctuation { kind, span }
    }

    pub fn kind(&self) -> (kind: PunctuationKind)
        ensures
            kind == self.kind,
    {
        self.kind
    }

    pub fn span(&self) -> (span: TextSpan)
        ensures
            span == self.span,
    {
        self.span
    }
}

/// A directive name in the source.
#[derive(Debug, Clone, Copy, PartialEq, Eq, Structural)]
pub struct Directive {
    pub kind: DirectiveKind,
    pub span: TextSpan,
}

impl Directive {
    pub fn new(kind: DirectiveKind, span: TextSpan) -> (r: Self)
        ensures
            r == (Directive { kind, span }),
    {
        Directive { kind, span }
    }

    pub fn kind(&self) -> (kind: DirectiveKind)
        ensures
            kind == self.kind,
    {
        self.kind
    }

    pub fn span(&self) -> (span: TextSpan)
        ensures
            span == self.span,
    {
        self.span
    }
}

/// A register name in the source.
#[derive(Debug, Clone, Copy, PartialEq, Eq, Structural)]
pub struct Register {
    pub kind: RegisterKind,
    pub span: TextSpan,
}

impl Register {
    pub fn new(kind: RegisterKind, span: TextSpan) -> (r: Self)
        ensures
            r == (Register { kind, span }),
    {
        Register { kind, span }
    }

    pub fn kind(&self) -> (kind: RegisterKind)
        ensures
            kind == self.kind,
    {
        self.kind
    }

    pub fn span(&self) -> (span: TextSpan)
        ensures
            span == self.span,
    {
        self.span
    }
}

/// An I/O port name in the source.
#[derive(Debug, Clone, Copy, PartialEq, Eq, Structural)]
pub struct IoRegister {
    pub kind: IoRegisterKind,
    pub span: TextSpan,
}

impl IoRegister {
    pub fn new(kind: IoRegisterKind, span: TextSpan) -> (r: Self)
        ensures
            r == (IoRegister { kind, span }),
    {
        IoRegister { kind, span }
    }

    pub fn kind(&self) -> (kind: IoRegisterKind)
        ensures
            kind == self.kind,
    {
        self.kind
    }

    pub fn span(&self) -> (span: TextSpan)
        ensures
            span == self.span,
    {
        self.span
    }
}

/// A mnemonic in the source.
#[derive(Debug, Clone, Copy, PartialEq, Eq, Structural)]
pub struct Mnemonic {
    pub kind: MnemonicKind,
    pub span: TextSpan,
}

impl Mnemonic {
    pub fn new(kind: MnemonicKind, span: TextSpan) -> (r: Self)
        ensures
            r == (Mnemonic { kind, span }),
    {
        Mnemonic { kind, span }
    }

    pub fn kind(&self) -> (kind: MnemonicKind)
        ensures
            kind == self.kind,
    {
        self.kind
    }

    pub fn span(&self) -> (span: TextSpan)
        ensures
            span == self.span,
    {
        self.span
    }
}

/// A name of the program's own. The name is what the source holds at the span.
#[derive(Debug, Clone, Copy, PartialEq, Eq, Structural)]
pub struct Identifier {
    pub span: TextSpan,
}

impl Identifier {
    pub fn new(span: TextSpan) -> (r: Self)
        ensures
            r == (Identifier { span }),
    {
        Identifier { span }
    }

    pub fn span(&self) -> (span: TextSpan)
        ensures
            span == self.span,
    {
        self.span
    }
}

/// An integer literal. It has no value if its digits stand for none.
#[derive(Debug, Clone, Copy, PartialEq, Eq, Structural)]
pub struct IntegerLiteral {
    pub value: Option<i64>,
    pub span: TextSpan,
}

impl IntegerLiteral {
    pub fn new(value: Option<i64>, span: TextSpan) -> (r: Self)
        ensures
            r == (IntegerLiteral { value, span }),
    {
        IntegerLiteral { value, span }
    }

    pub fn value(&self) -> (value: Option<i64>)
        ensures
            value == self.value,
    {
        self.value
    }

    pub fn span(&self) -> (span: TextSpan)
        ensures
            span == self.span,
    {
        self.span
    }
}

/// A string literal. Its value is what the literal at the span stands
/// for, and empty if the literal has errors.
#[derive(Debug, Clone, Copy, PartialEq, Eq, Structural)]
pub struct StringLiteral {
    pub valid: bool,
    pub span: TextSpan,
}

impl StringLiteral {
    pub fn new(valid: bool, span: TextSpan) -> (r: Self)
        ensures
            r == (StringLiteral { valid, span }),
    {
        StringLiteral { valid, span }
    }

    pub fn span(&self) -> (span: TextSpan)
        ensures
            span == self.span,
    {
        self.span
    }
}

/// An expression in parentheses.
#[derive(Debug)]
pub struct GroupExpression {
    pub open_paren: Punctuation,
    pub inner: Expression,
    pub close_paren: Punctuation,
}

/// A sign or a bitwise not and its operand.
#[derive(Debug)]
pub struct UnaryExpression {
    pub op: Punctuation,
    pub inner: Expression,
}

/// Two operands and the operator between them.
#[derive(Debug)]
pub struct BinaryExpression {
    pub lhs: Expression,
    pub op: Punctuation,
    pub rhs: Expression,
}

/// An expression over integers and names.
#[derive(Debug)]
pub enum Expression {
    Literal(Box<IntegerLiteral>),
    Identifier(Box<Identifier>),
    Group(Box<GroupExpression>),
    Identity(Box<UnaryExpression>),
    Negation(Box<UnaryExpression>),
    BitwiseNot(Box<UnaryExpression>),
    Addition(Box<BinaryExpression>),
    Subtraction(Box<BinaryExpression>),
    Multiplication(Box<BinaryExpression>),
    Division(Box<BinaryExpression>),
    Remainder(Box<BinaryExpression>),
    LeftShift(Box<BinaryExpression>),
    ArithmeticRightShift(Box<BinaryExpression>),
    LogicalRightShift(Box<BinaryExpression>),
    BitwiseAnd(Box<BinaryExpression>),
    BitwiseOr(Box<BinaryExpression>),
    BitwiseXor(Box<BinaryExpression>),
}

impl GroupExpression {
    pub fn new(open_paren: Punctuation, inner: Expression, close_paren: Punctuation) -> (r: Self)
        ensures
            r == (GroupExpression { open_paren, inner, close_paren }),
    {
        GroupExpression { open_paren, inner, close_paren }
    }

    pub fn inner(&self) -> (inner: &Expression)
        ensures
            *inner == self.inner,
    {
        &self.inner
    }

    /// From the opening to the closing parenthesis.
    pub open spec fn spec_span(self) -> TextSpan {
        self.open_paren.span.spec_cover(self.close_paren.span)
    }

    pub fn span(&self) -> (span: TextSpan)
        ensures
            span == self.spec_span(),
    {
        self.open_paren.span.cover(self.close_paren.span)
    }
}

impl UnaryExpression {
    pub fn new(op: Punctuation, inner: Expression) -> (r: Self)
        ensures
            r == (UnaryExpression { op, inner }),
    {
        UnaryExpression { op, inner }
    }

    pub fn inner(&self) -> (inner: &Expression)
        ensures
            *inner == self.inner,
    {
        &self.inner
    }

    /// From the operator to the end of the operand.
    pub open spec fn spec_span(self) -> TextSpan
        decreases self,
    {
        self.op.span.spec_cover(self.inner.spec_span())
    }

    pub fn span(&self) -> (span: TextSpan)
        ensures
            span == self.spec_span(),
        decreases self,
    {
        self.op.span.cover(self.inner.span())
    }
}

impl BinaryExpression {
    pub fn new(lhs: Expression, op: Punctuation, rhs: Expression) -> (r: Self)
        ensures
            r == (BinaryExpression { lhs, op, rhs }),
    {
        BinaryExpression { lhs, op, rhs }
    }

    pub fn lhs(&self) -> (lhs: &Expression)
        ensures
            *lhs == self.lhs,
    {
        &self.lhs
    }

    pub fn rhs(&self) -> (rhs: &Expression)
        ensures
            *rhs == self.rhs,
    {
        &self.rhs
    }

    /// From the start of the left operand to the end of the right one.
    pub open spec fn spec_span(self) -> TextSpan
        decreases self,
    {
        self.lhs.spec_span().spec_cover(self.rhs.spec_span())
    }

    pub fn span(&self) -> (span: TextSpan)
        ensures
            span == self.spec_span(),
        decreases self,
    {
        self.lhs.span().cover(self.rhs.span())
    }
}

impl Expression {
    /// The part of the source that the expression takes up.
    pub open spec fn spec_span(self) -> TextSpan
        decreases self,
    {
        match self {
            Expression::Literal(expr) => expr.span,
            Expression::Identifier(expr) => expr.span,
            Expression::Group(expr) => expr.spec_span(),
            Expression::Identity(expr)
            | Expression::Negation(expr)
            | Expression::BitwiseNot(expr) => expr.spec_span(),
            Expression::Addition(expr)
            | Expression::Subtraction(expr)
            | Expression::Multiplication(expr)
            | Expression::Division(expr)
            | Expression::Remainder(expr)
            | Expression::LeftShift(expr)
            | Expression::ArithmeticRightShift(expr)
            | Expression::LogicalRightShift(expr)
            | Expression::BitwiseAnd(expr)
            | Expression::BitwiseOr(expr)
            | Expression::BitwiseXor(expr) => expr.spec_span(),
        }
    }

    pub fn span(&self) -> (span: TextSpan)
        ensures
            span == self.spec_span(),
        decreases self,
    {
        match self {
            Expression::Literal(expr) => expr.span,
            Expression::Identifier(expr) => expr.span,
            Expression::Group(expr) => expr.span(),
            Expression::Identity(expr)
            | Expression::Negation(expr)
            | Expression::BitwiseNot(expr) => expr.span(),
            Expression::Addition(expr)
            | Expression::Subtraction(expr)
            | Expression::Multiplication(expr)
            | Expression::Division(expr)
            | Expression::Remainder(expr)
            | Expression::LeftShift(expr)
            | Expression::ArithmeticRightShift(expr)
            | Expression::LogicalRightShift(expr)
            | Expression::BitwiseAnd(expr)
            | Expression::BitwiseOr(expr)
            | Expression::BitwiseXor(expr) => expr.span(),
        }
    }
}

/// What a label stands for.
#[derive(Debug)]
pub enum LabelValue {
    /// The address at which the label stands.
    Address { colon: Punctuation },
    /// The value of an expression.
    Expression { assign_op: Punctuation, value: Expression },
}

impl LabelValue {
    pub open spec fn spec_span(self) -> TextSpan {
        match self {
            LabelValue::Address { colon } => colon.span,
            LabelValue::Expression { assign_op, value } => assign_op.span.spec_cover(
                value.spec_span(),
            ),
        }
    }

    pub fn span(&self) -> (span: TextSpan)
        ensures
            span == self.spec_span(),
    {
        match self {
            LabelValue::Address { colon } => colon.span,
            LabelValue::Expression { assign_op, value } => assign_op.span.cover(value.span()),
        }
    }
}

/// A label: a name and what it stands for.
#[derive(Debug)]
pub struct Label {
    pub name: Identifier,
    pub value: LabelValue,
}

impl Label {
    pub fn new(name: Identifier, value: LabelValue) -> (r: Self)
        ensures
            r == (Label { name, value }),
    {
        Label { name, value }
    }

    pub fn name(&self) -> (name: &Identifier)
        ensures
            *name == self.name,
    {
        &self.name
    }

    pub fn value(&self) -> (value: &LabelValue)
        ensures
            *value == self.value,
    {
        &self.value
    }

    pub open spec fn spec_span(self) -> TextSpan {
        self.name.span.spec_cover(self.value.spec_span())
    }

    pub fn span(&self) -> (span: TextSpan)
        ensures
            span == self.spec_span(),
    {
        self.name.span.cover(self.value.span())
    }
}

/// `.offset N`: the statements that follow are laid out from offset `N` of the section.
#[derive(Debug, Clone, Copy, PartialEq, Eq, Structural)]
pub struct OffsetDirective {
    pub directive: Directive,
    pub value: IntegerLiteral,
}

impl OffsetDirective {
    pub fn new(directive: Directive, value: IntegerLiteral) -> (r: Self)
        ensures
            r == (OffsetDirective { directive, value }),
    {
        OffsetDirective { directive, value }
    }

    pub fn directive(&self) -> (directive: &Directive)
        ensures
            *directive == self.directive,
    {
        &self.directive
    }

    pub fn value(&self) -> (value: &IntegerLiteral)
        ensures
            *value == self.value,
    {
        &self.value
    }

    pub open spec fn spec_span(self) -> TextSpan {
        self.directive.span.spec_cover(self.value.span)
    }

    pub fn span(&self) -> (span: TextSpan)
        ensures
            span == self.spec_span(),
    {
        self.directive.span.cover(self.value.span)
    }
}

/// `.align N`: the next statement is laid out at a multiple of `N`.
#[derive(Debug, Clone, Copy, PartialEq, Eq, Structural)]
pub struct AlignDirective {
    pub directive: Directive,
    pub value: IntegerLiteral,
}

impl AlignDirective {
    pub fn new(directive: Directive, value: IntegerLiteral) -> (r: Self)
        ensures
            r == (AlignDirective { directive, value }),
    {
        AlignDirective { directive, value }
    }

    pub fn directive(&self) -> (directive: &Directive)
        ensures
            *directive == self.directive,
    {
        &self.directive
    }

    pub fn value(&self) -> (value: &IntegerLiteral)
        ensures
            *value == self.value,
    {
        &self.value
    }

    pub open spec fn spec_span(self) -> TextSpan {
        self.directive.span.spec_cover(self.value.span)
    }

    pub fn span(&self) -> (span: TextSpan)
        ensures
            span == self.spec_span(),
    {
        self.directive.span.cover(self.value.span)
    }
}

/// `.origin N`: sections without a base of their own are laid out from `N`.
#[derive(Debug, Clone, Copy, PartialEq, Eq, Structural)]
pub struct OriginDirective {
    pub directive: Directive,
    pub value: IntegerLiteral,
}

impl OriginDirective {
    pub fn new(directive: Directive, value: IntegerLiteral) -> (r: Self)
        ensures
            r == (OriginDirective { directive, value }),
    {
        OriginDirective { directive, value }
    }

    pub fn directive(&self) -> (directive: &Directive)
        ensures
            *directive == self.directive,
    {
        &self.directive
    }

    pub fn value(&self) -> (value: &IntegerLiteral)
        ensures
            *value == self.value,
    {
        &self.value
    }

    pub open spec fn spec_span(self) -> TextSpan {
        self.directive.span.spec_cover(self.value.span)
    }

    pub fn span(&self) -> (span: TextSpan)
        ensures
            span == self.spec_span(),
    {
        self.directive.span.cover(self.value.span)
    }
}

/// `.section "name" [base]`: the statements that follow belong to the section.
#[derive(Debug, Clone, Copy, PartialEq, Eq, Structural)]
pub struct SectionDirective {
    pub directive: Directive,
    pub name: StringLiteral,
    pub base: Option<IntegerLiteral>,
}

impl SectionDirective {
    pub fn new(directive: Directive, name: StringLiteral, base: Option<IntegerLiteral>) -> (r: Self)
        ensures
            r == (SectionDirective { directive, name, base }),
    {
        SectionDirective { directive, name, base }
    }

    pub fn directive(&self) -> (directive: &Directive)
        ensures
            *directive == self.directive,
    {
        &self.directive
    }

    pub fn name(&self) -> (name: &StringLiteral)
        ensures
            *name == self.name,
    {
        &self.name
    }

    pub fn base(&self) -> (base: Option<IntegerLiteral>)
        ensures
            base == self.base,
    {
        self.base
    }

    /// The directive and the name; the base is not part of it.
    pub open spec fn spec_span(self) -> TextSpan {
        self.directive.span.spec_cover(self.name.span)
    }

    pub fn span(&self) -> (span: TextSpan)
        ensures
            span == self.spec_span(),
    {
        self.directive.span.cover(self.name.span)
    }
}

/// `.include "path"`: the statements of another file take its place.
#[derive(Debug, Clone, Copy, PartialEq, Eq, Structural)]
pub struct IncludeDirective {
    pub directive: Directive,
    pub path: StringLiteral,
}

impl IncludeDirective {
    pub fn new(directive: Directive, path: StringLiteral) -> (r: Self)
        ensures
            r == (IncludeDirective { directive, path }),
    {
        IncludeDirective { directive, path }
    }

    pub fn directive(&self) -> (directive: &Directive)
        ensures
            *directive == self.directive,
    {
        &self.directive
    }

    pub fn path(&self) -> (path: &StringLiteral)
        ensures
            *path == self.path,
    {
        &self.path
    }

    pub open spec fn spec_span(self) -> TextSpan {
        self.directive.span.spec_cover(self.path.span)
    }

    pub fn span(&self) -> (span: TextSpan)
        ensures
            span == self.spec_span(),
    {
        self.directive.span.cover(self.path.span)
    }
}

/// The low byte of `value`: its eight lowest bits.
pub open spec fn spec_low_byte(value: i64) -> u8 {
    (value % 256) as u8
}

/// The second byte of `value`: bits 8 to 15.
pub open spec fn spec_high_byte(value: i64) -> u8 {
    ((value / 256) % 256) as u8
}

pub fn low_byte(value: i64) -> (r: u8)
    ensures
        r == spec_low_byte(value),
{
    if value >= 0 {
        ((value as u64) % 256) as u8
    } else {
        let inverse: u64 = (-(value + 1)) as u64;
        (255 - inverse % 256) as u8
    }
}

pub fn high_byte(value: i64) -> (r: u8)
    ensures
        r == spec_high_byte(value),
{
    if value >= 0 {
        (((value as u64) / 256) % 256) as u8
    } else {
        let inverse: u64 = (-(value + 1)) as u64;
        (255 - (inverse / 256) % 256) as u8
    }
}

/// Where a MOV stores.
#[derive(Debug, Clone, Copy, PartialEq, Eq, Structural)]
pub enum MovDestination {
    Register(Register),
    Memory { open_bracket: Punctuation, address_source: Register, close_bracket: Punctuation },
}

impl MovDestination {
    pub open spec fn spec_span(self) -> TextSpan {
        match self {
            MovDestination::Register(reg) => reg.span,
            MovDestination::Memory { open_bracket, address_source, close_bracket } => {
                open_bracket.span.spec_cover(close_bracket.span)
            },
        }
    }

    pub fn span(&self) -> (span: TextSpan)
        ensures
            span == self.spec_span(),
    {
        match self {
            MovDestination::Register(reg) => reg.span,
            MovDestination::Memory { open_bracket, address_source, close_bracket } => {
                open_bracket.span.cover(close_bracket.span)
            },
        }
    }
}

/// What a MOV loads.
#[derive(Debug)]
pub enum MovSource {
    Value(Expression),
    Register(Register),
    Memory { open_bracket: Punctuation, address_source: Register, close_bracket: Punctuation },
}

impl MovSource {
    pub open spec fn spec_span(self) -> TextSpan {
        match self {
            MovSource::Value(value) => value.spec_span(),
            MovSource::Register(reg) => reg.span,
            MovSource::Memory { open_bracket, address_source, close_bracket } => {
                open_bracket.span.spec_cover(close_bracket.span)
            },
        }
    }

    pub fn span(&self) -> (span: TextSpan)
        ensures
            span == self.spec_span(),
    {
        match self {
            MovSource::Value(value) => value.span(),
            MovSource::Register(reg) => reg.span,
            MovSource::Memory { open_bracket, address_source, close_bracket } => {
                open_bracket.span.cover(close_bracket.span)
            },
        }
    }
}

/// Where a jump or call goes.
#[derive(Debug)]
pub enum JumpTarget {
    Value(Expression),
    Register(Register),
}

impl JumpTarget {
    pub open spec fn spec_span(self) -> TextSpan {
        match self {
            JumpTarget::Value(value) => value.spec_span(),
            JumpTarget::Register(reg) => reg.span,
        }
    }

    pub fn span(&self) -> (span: TextSpan)
        ensures
            span == self.spec_span(),
    {
        match self {
            JumpTarget::Value(value) => value.span(),
            JumpTarget::Register(reg) => reg.span,
        }
    }
}

/// The opcode of `MOV destination, source` between two registers.
pub open spec fn spec_mov_register_opcode(destination: RegisterKind, source: RegisterKind) -> Option<u8> {
    match (destination, source) {
        (RegisterKind::A, RegisterKind::B) => Some(0x07),
        (RegisterKind::A, RegisterKind::C) => Some(0x08),
        (RegisterKind::A, RegisterKind::D) => Some(0x09),
        (RegisterKind::B, RegisterKind::A) => Some(0x0A),
        (RegisterKind::B, RegisterKind::C) => Some(0x0B),
        (RegisterKind::B, RegisterKind::D) => Some(0x0C),
        (RegisterKind::C, RegisterKind::A) => Some(0x0D),
        (RegisterKind::C, RegisterKind::B) => Some(0x0E),
        (RegisterKind::C, RegisterKind::D) => Some(0x0F),
        (RegisterKind::D, RegisterKind::A) => Some(0x10),
        (RegisterKind::D, RegisterKind::B) => Some(0x11),
        (RegisterKind::D, RegisterKind::C) => Some(0x12),
        (RegisterKind::TL, RegisterKind::A) => Some(0x13),
        (RegisterKind::TL, RegisterKind::B) => Some(0x14),
        (RegisterKind::TL, RegisterKind::C) => Some(0x15),
        (RegisterKind::TL, RegisterKind::D) => Some(0x16),
        (RegisterKind::TH, RegisterKind::A) => Some(0x17),
        (RegisterKind::TH, RegisterKind::B) => Some(0x18),
        (RegisterKind::TH, RegisterKind::C) => Some(0x19),
        (RegisterKind::TH, RegisterKind::D) => Some(0x1A),
        (RegisterKind::A, RegisterKind::TL) => Some(0x1B),
        (RegisterKind::B, RegisterKind::TL) => Some(0x1C),
        (RegisterKind::C, RegisterKind::TL) => Some(0x1D),
        (RegisterKind::D, RegisterKind::TL) => Some(0x1E),
        (RegisterKind::A, RegisterKind::TH) => Some(0x1F),
        (RegisterKind::B, RegisterKind::TH) => Some(0x20),
        (RegisterKind::C, RegisterKind::TH) => Some(0x21),
        (RegisterKind::D, RegisterKind::TH) => Some(0x22),
        (RegisterKind::RA, RegisterKind::TX) => Some(0x23),
        (RegisterKind::TX, RegisterKind::RA) => Some(0x24),
        (RegisterKind::SP, RegisterKind::TX) => Some(0x25),
        (RegisterKind::TX, RegisterKind::SP) => Some(0x26),
        (RegisterKind::SI, RegisterKind::TX) => Some(0x27),
        (RegisterKind::TX, RegisterKind::SI) => Some(0x28),
        (RegisterKind::DI, RegisterKind::TX) => Some(0x29),
        (RegisterKind::TX, RegisterKind::DI) => Some(0x2A),
        (RegisterKind::DI, RegisterKind::SI) => Some(0x2B),
        (RegisterKind::SI, RegisterKind::DI) => Some(0x2C),
        (RegisterKind::SI, RegisterKind::SP) => Some(0x2D),
        (RegisterKind::DI, RegisterKind::SP) => Some(0x2E),
        _ => None,
    }
}

#[verifier::when_used_as_spec(spec_mov_register_opcode)]
pub fn mov_register_opcode(destination: RegisterKind, source: RegisterKind) -> (r: Option<u8>)
    ensures
        r == spec_mov_register_opcode(destination, source),
{
    match (destination, source) {
        (RegisterKind::A, RegisterKind::B) => Some(0x07),
        (RegisterKind::A, RegisterKind::C) => Some(0x08),
        (RegisterKind::A, RegisterKind::D) => Some(0x09),
        (RegisterKind::B, RegisterKind::A) => Some(0x0A),
        (RegisterKind::B, RegisterKind::C) => Some(0x0B),
        (RegisterKind::B, RegisterKind::D) => Some(0x0C),
        (RegisterKind::C, RegisterKind::A) => Some(0x0D),
        (RegisterKind::C, RegisterKind::B) => Some(0x0E),
        (RegisterKind::C, RegisterKind::D) => Some(0x0F),
        (RegisterKind::D, RegisterKind::A) => Some(0x10),
        (RegisterKind::D, RegisterKind::B) => Some(0x11),
        (RegisterKind::D, RegisterKind::C) => Some(0x12),
        (RegisterKind::TL, RegisterKind::A) => Some(0x13),
        (RegisterKind::TL, RegisterKind::B) => Some(0x14),
        (RegisterKind::TL, RegisterKind::C) => Some(0x15),
        (RegisterKind::TL, RegisterKind::D) => Some(0x16),
        (RegisterKind::TH, RegisterKind::A) => Some(0x17),
        (RegisterKind::TH, RegisterKind::B) => Some(0x18),
        (RegisterKind::TH, RegisterKind::C) => Some(0x19),
        (RegisterKind::TH, RegisterKind::D) => Some(0x1A),
        (RegisterKind::A, RegisterKind::TL) => Some(0x1B),
        (RegisterKind::B, RegisterKind::TL) => Some(0x1C),
        (RegisterKind::C, RegisterKind::TL) => Some(0x1D),
        (RegisterKind::D, RegisterKind::TL) => Some(0x1E),
        (RegisterKind::A, RegisterKind::TH) => Some(0x1F),
        (RegisterKind::B, RegisterKind::TH) => Some(0x20),
        (RegisterKind::C, RegisterKind::TH) => Some(0x21),
        (RegisterKind::D, RegisterKind::TH) => Some(0x22),
        (RegisterKind::RA, RegisterKind::TX) => Some(0x23),
        (RegisterKind::TX, RegisterKind::RA) => Some(0x24),
        (RegisterKind::SP, RegisterKind::TX) => Some(0x25),
        (RegisterKind::TX, RegisterKind::SP) => Some(0x26),
        (RegisterKind::SI, RegisterKind::TX) => Some(0x27),
        (RegisterKind::TX, RegisterKind::SI) => Some(0x28),
        (RegisterKind::DI, RegisterKind::TX) => Some(0x29),
        (RegisterKind::TX, RegisterKind::DI) => Some(0x2A),
        (RegisterKind::DI, RegisterKind::SI) => Some(0x2B),
        (RegisterKind::SI, RegisterKind::DI) => Some(0x2C),
        (RegisterKind::SI, RegisterKind::SP) => Some(0x2D),
        (RegisterKind::DI, RegisterKind::SP) => Some(0x2E),
        _ => None,
    }
}

/// The opcode of `MOV destination, [address]`.
pub open spec fn spec_mov_load_opcode(destination: RegisterKind, address: RegisterKind) -> Option<u8> {
    match (destination, address) {
        (RegisterKind::A, RegisterKind::SI) => Some(0x40),
        (RegisterKind::B, RegisterKind::SI) => Some(0x41),
        (RegisterKind::C, RegisterKind::SI) => Some(0x42),
        (RegisterKind::D, RegisterKind::SI) => Some(0x43),
        (RegisterKind::A, RegisterKind::DI) => Some(0x44),
        (RegisterKind::B, RegisterKind::DI) => Some(0x45),
        (RegisterKind::C, RegisterKind::DI) => Some(0x46),
        (RegisterKind::D, RegisterKind::DI) => Some(0x47),
        (RegisterKind::A, RegisterKind::TX) => Some(0x48),
        (RegisterKind::B, RegisterKind::TX) => Some(0x49),
        (RegisterKind::C, RegisterKind::TX) => Some(0x4A),
        (RegisterKind::D, RegisterKind::TX) => Some(0x4B),
        _ => None,
    }
}

#[verifier::when_used_as_spec(spec_mov_load_opcode)]
pub fn mov_load_opcode(destination: RegisterKind, address: RegisterKind) -> (r: Option<u8>)
    ensures
        r == spec_mov_load_opcode(destination, address),
{
    match (destination, address) {
        (RegisterKind::A, RegisterKind::SI) => Some(0x40),
        (RegisterKind::B, RegisterKind::SI) => Some(0x41),
        (RegisterKind::C, RegisterKind::SI) => Some(0x42),
        (RegisterKind::D, RegisterKind::SI) => Some(0x43),
        (RegisterKind::A, RegisterKind::DI) => Some(0x44),
        (RegisterKind::B, RegisterKind::DI) => Some(0x45),
        (RegisterKind::C, RegisterKind::DI) => Some(0x46),
        (RegisterKind::D, RegisterKind::DI) => Some(0x47),
        (RegisterKind::A, RegisterKind::TX) => Some(0x48),
        (RegisterKind::B, RegisterKind::TX) => Some(0x49),
        (RegisterKind::C, RegisterKind::TX) => Some(0x4A),
        (RegisterKind::D, RegisterKind::TX) => Some(0x4B),
        _ => None,
    }
}

/// The opcode of `MOV [address], source`.
pub open spec fn spec_mov_store_opcode(address: RegisterKind, source: RegisterKind) -> Option<u8> {
    match (address, source) {
        (RegisterKind::SI, RegisterKind::A) => Some(0x4C),
        (RegisterKind::SI, RegisterKind::B) => Some(0x4D),
        (RegisterKind::SI, RegisterKind::C) => Some(0x4E),
        (RegisterKind::SI, RegisterKind::D) => Some(0x4F),
        (RegisterKind::DI, RegisterKind::A) => Some(0x50),
        (RegisterKind::DI, RegisterKind::B) => Some(0x51),
        (RegisterKind::DI, RegisterKind::C) => Some(0x52),
        (RegisterKind::DI, RegisterKind::D) => Some(0x53),
        (RegisterKind::TX, RegisterKind::A) => Some(0x54),
        (RegisterKind::TX, RegisterKind::B) => Some(0x55),
        (RegisterKind::TX, RegisterKind::C) => Some(0x56),
        (RegisterKind::TX, RegisterKind::D) => Some(0x57),
        _ => None,
    }
}

#[verifier::when_used_as_spec(spec_mov_store_opcode)]
pub fn mov_store_opcode(address: RegisterKind, source: RegisterKind) -> (r: Option<u8>)
    ensures
        r == spec_mov_store_opcode(address, source),
{
    match (address, source) {
        (RegisterKind::SI, RegisterKind::A) => Some(0x4C),
        (RegisterKind::SI, RegisterKind::B) => Some(0x4D),
        (RegisterKind::SI, RegisterKind::C) => Some(0x4E),
        (RegisterKind::SI, RegisterKind::D) => Some(0x4F),
        (RegisterKind::DI, RegisterKind::A) => Some(0x50),
        (RegisterKind::DI, RegisterKind::B) => Some(0x51),
        (RegisterKind::DI, RegisterKind::C) => Some(0x52),
        (RegisterKind::DI, RegisterKind::D) => Some(0x53),
        (RegisterKind::TX, RegisterKind::A) => Some(0x54),
        (RegisterKind::TX, RegisterKind::B) => Some(0x55),
        (RegisterKind::TX, RegisterKind::C) => Some(0x56),
        (RegisterKind::TX, RegisterKind::D) => Some(0x57),
        _ => None,
    }
}

/// The opcode of `MOV register, #imm8` for the six byte registers.
pub open spec fn spec_mov_immediate_opcode(destination: RegisterKind) -> Option<u8> {
    match destination {
        RegisterKind::A => Some(0x01),
        RegisterKind::B => Some(0x02),
        RegisterKind::C => Some(0x03),
        RegisterKind::D => Some(0x04),
        RegisterKind::TL => Some(0x05),
        RegisterKind::TH => Some(0x06),
        _ => None,
    }
}

#[verifier::when_used_as_spec(spec_mov_immediate_opcode)]
pub fn mov_immediate_opcode(destination: RegisterKind) -> (r: Option<u8>)
    ensures
        r == spec_mov_immediate_opcode(destination),
{
    match destination {
        RegisterKind::A => Some(0x01),
        RegisterKind::B => Some(0x02),
        RegisterKind::C => Some(0x03),
        RegisterKind::D => Some(0x04),
        RegisterKind::TL => Some(0x05),
        RegisterKind::TH => Some(0x06),
        _ => None,
    }
}

/// The opcode of `INC register`.
pub open spec fn spec_inc_opcode(register: RegisterKind) -> Option<u8> {
    match register {
        RegisterKind::A => Some(0xA0),
        RegisterKind::B => Some(0xA1),
        RegisterKind::C => Some(0xA2),
        RegisterKind::D => Some(0xA3),
        RegisterKind::SI => Some(0x35),
        RegisterKind::DI => Some(0x36),
        _ => None,
    }
}

#[verifier::when_used_as_spec(spec_inc_opcode)]
pub fn inc_opcode(register: RegisterKind) -> (r: Option<u8>)
    ensures
        r == spec_inc_opcode(register),
{
    match register {
        RegisterKind::A => Some(0xA0),
        RegisterKind::B => Some(0xA1),
        RegisterKind::C => Some(0xA2),
        RegisterKind::D => Some(0xA3),
        RegisterKind::SI => Some(0x35),
        RegisterKind::DI => Some(0x36),
        _ => None,
    }
}

/// The opcode of `INCC register`.
pub open spec fn spec_incc_opcode(register: RegisterKind) -> Option<u8> {
    match register {
        RegisterKind::A => Some(0xA4),
        RegisterKind::B => Some(0xA5),
        RegisterKind::C => Some(0xA6),
        RegisterKind::D => Some(0xA7),
        RegisterKind::SI => Some(0x34),
        _ => None,
    }
}

#[verifier::when_used_as_spec(spec_incc_opcode)]
pub fn incc_opcode(register: RegisterKind) -> (r: Option<u8>)
    ensures
        r == spec_incc_opcode(register),
{
    match register {
        RegisterKind::A => Some(0xA4),
        RegisterKind::B => Some(0xA5),
        RegisterKind::C => Some(0xA6),
        RegisterKind::D => Some(0xA7),
        RegisterKind::SI => Some(0x34),
        _ => None,
    }
}

/// The opcode of `DEC register`.
pub open spec fn spec_dec_opcode(register: RegisterKind) -> Option<u8> {
    match register {
        RegisterKind::A => Some(0xC0),
        RegisterKind::B => Some(0xC1),
        RegisterKind::C => Some(0xC2),
        RegisterKind::D => Some(0xC3),
        RegisterKind::SI => Some(0x32),
        RegisterKind::DI => Some(0x33),
        _ => None,
    }
}

#[verifier::when_used_as_spec(spec_dec_opcode)]
pub fn dec_opcode(register: RegisterKind) -> (r: Option<u8>)
    ensures
        r == spec_dec_opcode(register),
{
    match register {
        RegisterKind::A => Some(0xC0),
        RegisterKind::B => Some(0xC1),
        RegisterKind::C => Some(0xC2),
        RegisterKind::D => Some(0xC3),
        RegisterKind::SI => Some(0x32),
        RegisterKind::DI => Some(0x33),
        _ => None,
    }
}

/// The opcode of `SHL register`.
pub open spec fn spec_shl_opcode(register: RegisterKind) -> Option<u8> {
    match register {
        RegisterKind::A => Some(0x80),
        RegisterKind::B => Some(0x81),
        RegisterKind::C => Some(0x82),
        RegisterKind::D => Some(0x83),
        _ => None,
    }
}

#[verifier::when_used_as_spec(spec_shl_opcode)]
pub fn shl_opcode(register: RegisterKind) -> (r: Option<u8>)
    ensures
        r == spec_shl_opcode(register),
{
    match register {
        RegisterKind::A => Some(0x80),
        RegisterKind::B => Some(0x81),
        RegisterKind::C => Some(0x82),
        RegisterKind::D => Some(0x83),
        _ => None,
    }
}

/// The opcode of `SHR register`.
pub open spec fn spec_shr_opcode(register: RegisterKind) -> Option<u8> {
    match register {
        RegisterKind::A => Some(0x84),
        RegisterKind::B => Some(0x85),
        RegisterKind::C => Some(0x86),
        RegisterKind::D => Some(0x87),
        _ => None,
    }
}

#[verifier::when_used_as_spec(spec_shr_opcode)]
pub fn shr_opcode(register: RegisterKind) -> (r: Option<u8>)
    ensures
        r == spec_shr_opcode(register),
{
    match register {
        RegisterKind::A => Some(0x84),
        RegisterKind::B => Some(0x85),
        RegisterKind::C => Some(0x86),
        RegisterKind::D => Some(0x87),
        _ => None,
    }
}

/// The opcode of `NOT register`.
pub open spec fn spec_not_opcode(register: RegisterKind) -> Option<u8> {
    match register {
        RegisterKind::A => Some(0xEC),
        RegisterKind::B => Some(0xED),
        RegisterKind::C => Some(0xEE),
        RegisterKind::D => Some(0xEF),
        _ => None,
    }
}

#[verifier::when_used_as_spec(spec_not_opcode)]
pub fn not_opcode(register: RegisterKind) -> (r: Option<u8>)
    ensures
        r == spec_not_opcode(register),
{
    match register {
        RegisterKind::A => Some(0xEC),
        RegisterKind::B => Some(0xED),
        RegisterKind::C => Some(0xEE),
        RegisterKind::D => Some(0xEF),
        _ => None,
    }
}

/// The opcode of `TEST register`.
pub open spec fn spec_test_opcode(register: RegisterKind) -> Option<u8> {
    match register {
        RegisterKind::A => Some(0xFC),
        RegisterKind::B => Some(0xFD),
        RegisterKind::C => Some(0xFE),
        RegisterKind::D => Some(0xFF),
        _ => None,
    }
}

#[verifier::when_used_as_spec(spec_test_opcode)]
pub fn test_opcode(register: RegisterKind) -> (r: Option<u8>)
    ensures
        r == spec_test_opcode(register),
{
    match register {
        RegisterKind::A => Some(0xFC),
        RegisterKind::B => Some(0xFD),
        RegisterKind::C => Some(0xFE),
        RegisterKind::D => Some(0xFF),
        _ => None,
    }
}

/// The opcode of `ADD destination, source`.
pub open spec fn spec_add_opcode(destination: RegisterKind, source: RegisterKind) -> Option<u8> {
    match (destination, source) {
        (RegisterKind::A, RegisterKind::B) => Some(0x88),
        (RegisterKind::A, RegisterKind::C) => Some(0x89),
        (RegisterKind::A, RegisterKind::D) => Some(0x8A),
        (RegisterKind::B, RegisterKind::A) => Some(0x8B),
        (RegisterKind::B, RegisterKind::B) => Some(0x59),
        (RegisterKind::B, RegisterKind::C) => Some(0x8C),
        (RegisterKind::B, RegisterKind::D) => Some(0x8D),
        (RegisterKind::C, RegisterKind::A) => Some(0x8E),
        (RegisterKind::C, RegisterKind::B) => Some(0x8F),
        (RegisterKind::C, RegisterKind::D) => Some(0x90),
        (RegisterKind::D, RegisterKind::A) => Some(0x91),
        (RegisterKind::D, RegisterKind::B) => Some(0x92),
        (RegisterKind::D, RegisterKind::C) => Some(0x93),
        _ => None,
    }
}

#[verifier::when_used_as_spec(spec_add_opcode)]
pub fn add_opcode(destination: RegisterKind, source: RegisterKind) -> (r: Option<u8>)
    ensures
        r == spec_add_opcode(destination, source),
{
    match (destination, source) {
        (RegisterKind::A, RegisterKind::B) => Some(0x88),
        (RegisterKind::A, RegisterKind::C) => Some(0x89),
        (RegisterKind::A, RegisterKind::D) => Some(0x8A),
        (RegisterKind::B, RegisterKind::A) => Some(0x8B),
        (RegisterKind::B, RegisterKind::B) => Some(0x59),
        (RegisterKind::B, RegisterKind::C) => Some(0x8C),
        (RegisterKind::B, RegisterKind::D) => Some(0x8D),
        (RegisterKind::C, RegisterKind::A) => Some(0x8E),
        (RegisterKind::C, RegisterKind::B) => Some(0x8F),
        (RegisterKind::C, RegisterKind::D) => Some(0x90),
        (RegisterKind::D, RegisterKind::A) => Some(0x91),
        (RegisterKind::D, RegisterKind::B) => Some(0x92),
        (RegisterKind::D, RegisterKind::C) => Some(0x93),
        _ => None,
    }
}

/// The opcode of `ADDC destination, source`.
pub open spec fn spec_addc_opcode(destination: RegisterKind, source: RegisterKind) -> Option<u8> {
    match (destination, source) {
        (RegisterKind::A, RegisterKind::B) => Some(0x94),
        (RegisterKind::A, RegisterKind::C) => Some(0x95),
        (RegisterKind::A, RegisterKind::D) => Some(0x96),
        (RegisterKind::B, RegisterKind::A) => Some(0x97),
        (RegisterKind::B, RegisterKind::B) => Some(0x58),
        (RegisterKind::B, RegisterKind::C) => Some(0x98),
        (RegisterKind::B, RegisterKind::D) => Some(0x99),
        (RegisterKind::C, RegisterKind::A) => Some(0x9A),
        (RegisterKind::C, RegisterKind::B) => Some(0x9B),
        (RegisterKind::C, RegisterKind::D) => Some(0x9C),
        (RegisterKind::D, RegisterKind::A) => Some(0x9D),
        (RegisterKind::D, RegisterKind::B) => Some(0x9E),
        (RegisterKind::D, RegisterKind::C) => Some(0x9F),
        _ => None,
    }
}

#[verifier::when_used_as_spec(spec_addc_opcode)]
pub fn addc_opcode(destination: RegisterKind, source: RegisterKind) -> (r: Option<u8>)
    ensures
        r == spec_addc_opcode(destination, source),
{
    match (destination, source) {
        (RegisterKind::A, RegisterKind::B) => Some(0x94),
        (RegisterKind::A, RegisterKind::C) => Some(0x95),
        (RegisterKind::A, RegisterKind::D) => Some(0x96),
        (RegisterKind::B, RegisterKind::A) => Some(0x97),
        (RegisterKind::B, RegisterKind::B) => Some(0x58),
        (RegisterKind::B, RegisterKind::C) => Some(0x98),
        (RegisterKind::B, RegisterKind::D) => Some(0x99),
        (RegisterKind::C, RegisterKind::A) => Some(0x9A),
        (RegisterKind::C, RegisterKind::B) => Some(0x9B),
        (RegisterKind::C, RegisterKind::D) => Some(0x9C),
        (RegisterKind::D, RegisterKind::A) => Some(0x9D),
        (RegisterKind::D, RegisterKind::B) => Some(0x9E),
        (RegisterKind::D, RegisterKind::C) => Some(0x9F),
        _ => None,
    }
}

/// The opcode of `SUB destination, source`.
pub open spec fn spec_sub_opcode(destination: RegisterKind, source: RegisterKind) -> Option<u8> {
    match (destination, source) {
        (RegisterKind::A, RegisterKind::B) => Some(0xA8),
        (RegisterKind::A, RegisterKind::C) => Some(0xA9),
        (RegisterKind::A, RegisterKind::D) => Some(0xAA),
        (RegisterKind::B, RegisterKind::A) => Some(0xAB),
        (RegisterKind::B, RegisterKind::C) => Some(0xAC),
        (RegisterKind::B, RegisterKind::D) => Some(0xAD),
        (RegisterKind::C, RegisterKind::A) => Some(0xAE),
        (RegisterKind::C, RegisterKind::B) => Some(0xAF),
        (RegisterKind::C, RegisterKind::D) => Some(0xB0),
        (RegisterKind::D, RegisterKind::A) => Some(0xB1),
        (RegisterKind::D, RegisterKind::B) => Some(0xB2),
        (RegisterKind::D, RegisterKind::C) => Some(0xB3),
        _ => None,
    }
}

#[verifier::when_used_as_spec(spec_sub_opcode)]
pub fn sub_opcode(destination: RegisterKind, source: RegisterKind) -> (r: Option<u8>)
    ensures
        r == spec_sub_opcode(destination, source),
{
    match (destination, source) {
        (RegisterKind::A, RegisterKind::B) => Some(0xA8),
        (RegisterKind::A, RegisterKind::C) => Some(0xA9),
        (RegisterKind::A, RegisterKind::D) => Some(0xAA),
        (RegisterKind::B, RegisterKind::A) => Some(0xAB),
        (RegisterKind::B, RegisterKind::C) => Some(0xAC),
        (RegisterKind::B, RegisterKind::D) => Some(0xAD),
        (RegisterKind::C, RegisterKind::A) => Some(0xAE),
        (RegisterKind::C, RegisterKind::B) => Some(0xAF),
        (RegisterKind::C, RegisterKind::D) => Some(0xB0),
        (RegisterKind::D, RegisterKind::A) => Some(0xB1),
        (RegisterKind::D, RegisterKind::B) => Some(0xB2),
        (RegisterKind::D, RegisterKind::C) => Some(0xB3),
        _ => None,
    }
}

/// The opcode of `SUBB destination, source`.
pub open spec fn spec_subb_opcode(destination: RegisterKind, source: RegisterKind) -> Option<u8> {
    match (destination, source) {
        (RegisterKind::A, RegisterKind::B) => Some(0xB4),
        (RegisterKind::A, RegisterKind::C) => Some(0xB5),
        (RegisterKind::A, RegisterKind::D) => Some(0xB6),
        (RegisterKind::B, RegisterKind::A) => Some(0xB7),
        (RegisterKind::B, RegisterKind::C) => Some(0xB8),
        (RegisterKind::B, RegisterKind::D) => Some(0xB9),
        (RegisterKind::C, RegisterKind::A) => Some(0xBA),
        (RegisterKind::C, RegisterKind::B) => Some(0xBB),
        (RegisterKind::C, RegisterKind::D) => Some(0xBC),
        (RegisterKind::D, RegisterKind::A) => Some(0xBD),
        (RegisterKind::D, RegisterKind::B) => Some(0xBE),
        (RegisterKind::D, RegisterKind::C) => Some(0xBF),
        _ => None,
    }
}

#[verifier::when_used_as_spec(spec_subb_opcode)]
pub fn subb_opcode(destination: RegisterKind, source: RegisterKind) -> (r: Option<u8>)
    ensures
        r == spec_subb_opcode(destination, source),
{
    match (destination, source) {
        (RegisterKind::A, RegisterKind::B) => Some(0xB4),
        (RegisterKind::A, RegisterKind::C) => Some(0xB5),
        (RegisterKind::A, RegisterKind::D) => Some(0xB6),
        (RegisterKind::B, RegisterKind::A) => Some(0xB7),
        (RegisterKind::B, RegisterKind::C) => Some(0xB8),
        (RegisterKind::B, RegisterKind::D) => Some(0xB9),
        (RegisterKind::C, RegisterKind::A) => Some(0xBA),
        (RegisterKind::C, RegisterKind::B) => Some(0xBB),
        (RegisterKind::C, RegisterKind::D) => Some(0xBC),
        (RegisterKind::D, RegisterKind::A) => Some(0xBD),
        (RegisterKind::D, RegisterKind::B) => Some(0xBE),
        (RegisterKind::D, RegisterKind::C) => Some(0xBF),
        _ => None,
    }
}

/// The opcode of `AND destination, source`.
pub open spec fn spec_and_opcode(destination: RegisterKind, source: RegisterKind) -> Option<u8> {
    match (destination, source) {
        (RegisterKind::A, RegisterKind::B) => Some(0xC4),
        (RegisterKind::A, RegisterKind::C) => Some(0xC5),
        (RegisterKind::A, RegisterKind::D) => Some(0xC6),
        (RegisterKind::B, RegisterKind::A) => Some(0xC7),
        (RegisterKind::B, RegisterKind::C) => Some(0xC8),
        (RegisterKind::B, RegisterKind::D) => Some(0xC9),
        (RegisterKind::C, RegisterKind::A) => Some(0xCA),
        (RegisterKind::C, RegisterKind::B) => Some(0xCB),
        (RegisterKind::C, RegisterKind::D) => Some(0xCC),
        (RegisterKind::D, RegisterKind::A) => Some(0xCD),
        (RegisterKind::D, RegisterKind::B) => Some(0xCE),
        (RegisterKind::D, RegisterKind::C) => Some(0xCF),
        _ => None,
    }
}

#[verifier::when_used_as_spec(spec_and_opcode)]
pub fn and_opcode(destination: RegisterKind, source: RegisterKind) -> (r: Option<u8>)
    ensures
        r == spec_and_opcode(destination, source),
{
    match (destination, source) {
        (RegisterKind::A, RegisterKind::B) => Some(0xC4),
        (RegisterKind::A, RegisterKind::C) => Some(0xC5),
        (RegisterKind::A, RegisterKind::D) => Some(0xC6),
        (RegisterKind::B, RegisterKind::A) => Some(0xC7),
        (RegisterKind::B, RegisterKind::C) => Some(0xC8),
        (RegisterKind::B, RegisterKind::D) => Some(0xC9),
        (RegisterKind::C, RegisterKind::A) => Some(0xCA),
        (RegisterKind::C, RegisterKind::B) => Some(0xCB),
        (RegisterKind::C, RegisterKind::D) => Some(0xCC),
        (RegisterKind::D, RegisterKind::A) => Some(0xCD),
        (RegisterKind::D, RegisterKind::B) => Some(0xCE),
        (RegisterKind::D, RegisterKind::C) => Some(0xCF),
        _ => None,
    }
}

/// The opcode of `OR destination, source`.
pub open spec fn spec_or_opcode(destination: RegisterKind, source: RegisterKind) -> Option<u8> {
    match (destination, source) {
        (RegisterKind::A, RegisterKind::B) => Some(0xD0),
        (RegisterKind::A, RegisterKind::C) => Some(0xD1),
        (RegisterKind::A, RegisterKind::D) => Some(0xD2),
        (RegisterKind::B, RegisterKind::A) => Some(0xD3),
        (RegisterKind::B, RegisterKind::C) => Some(0xD4),
        (RegisterKind::B, RegisterKind::D) => Some(0xD5),
        (RegisterKind::C, RegisterKind::A) => Some(0xD6),
        (RegisterKind::C, RegisterKind::B) => Some(0xD7),
        (RegisterKind::C, RegisterKind::D) => Some(0xD8),
        (RegisterKind::D, RegisterKind::A) => Some(0xD9),
        (RegisterKind::D, RegisterKind::B) => Some(0xDA),
        (RegisterKind::D, RegisterKind::C) => Some(0xDB),
        _ => None,
    }
}

#[verifier::when_used_as_spec(spec_or_opcode)]
pub fn or_opcode(destination: RegisterKind, source: RegisterKind) -> (r: Option<u8>)
    ensures
        r == spec_or_opcode(destination, source),
{
    match (destination, source) {
        (RegisterKind::A, RegisterKind::B) => Some(0xD0),
        (RegisterKind::A, RegisterKind::C) => Some(0xD1),
        (RegisterKind::A, RegisterKind::D) => Some(0xD2),
        (RegisterKind::B, RegisterKind::A) => Some(0xD3),
        (RegisterKind::B, RegisterKind::C) => Some(0xD4),
        (RegisterKind::B, RegisterKind::D) => Some(0xD5),
        (RegisterKind::C, RegisterKind::A) => Some(0xD6),
        (RegisterKind::C, RegisterKind::B) => Some(0xD7),
        (RegisterKind::C, RegisterKind::D) => Some(0xD8),
        (RegisterKind::D, RegisterKind::A) => Some(0xD9),
        (RegisterKind::D, RegisterKind::B) => Some(0xDA),
        (RegisterKind::D, RegisterKind::C) => Some(0xDB),
        _ => None,
    }
}

/// The opcode of `XOR destination, source`.
pub open spec fn spec_xor_opcode(destination: RegisterKind, source: RegisterKind) -> Option<u8> {
    match (destination, source) {
        (RegisterKind::A, RegisterKind::B) => Some(0xDC),
        (RegisterKind::A, RegisterKind::C) => Some(0xDD),
        (RegisterKind::A, RegisterKind::D) => Some(0xDE),
        (RegisterKind::B, RegisterKind::A) => Some(0xDF),
        (RegisterKind::B, RegisterKind::C) => Some(0xE0),
        (RegisterKind::B, RegisterKind::D) => Some(0xE1),
        (RegisterKind::C, RegisterKind::A) => Some(0xE2),
        (RegisterKind::C, RegisterKind::B) => Some(0xE3),
        (RegisterKind::C, RegisterKind::D) => Some(0xE4),
        (RegisterKind::D, RegisterKind::A) => Some(0xE5),
        (RegisterKind::D, RegisterKind::B) => Some(0xE6),
        (RegisterKind::D, RegisterKind::C) => Some(0xE7),
        (RegisterKind::A, RegisterKind::A) => Some(0xE8),
        (RegisterKind::B, RegisterKind::B) => Some(0xE9),
        (RegisterKind::C, RegisterKind::C) => Some(0xEA),
        (RegisterKind::D, RegisterKind::D) => Some(0xEB),
        _ => None,
    }
}

#[verifier::when_used_as_spec(spec_xor_opcode)]
pub fn xor_opcode(destination: RegisterKind, source: RegisterKind) -> (r: Option<u8>)
    ensures
        r == spec_xor_opcode(destination, source),
{
    match (destination, source) {
        (RegisterKind::A, RegisterKind::B) => Some(0xDC),
        (RegisterKind::A, RegisterKind::C) => Some(0xDD),
        (RegisterKind::A, RegisterKind::D) => Some(0xDE),
        (RegisterKind::B, RegisterKind::A) => Some(0xDF),
        (RegisterKind::B, RegisterKind::C) => Some(0xE0),
        (RegisterKind::B, RegisterKind::D) => Some(0xE1),
        (RegisterKind::C, RegisterKind::A) => Some(0xE2),
        (RegisterKind::C, RegisterKind::B) => Some(0xE3),
        (RegisterKind::C, RegisterKind::D) => Some(0xE4),
        (RegisterKind::D, RegisterKind::A) => Some(0xE5),
        (RegisterKind::D, RegisterKind::B) => Some(0xE6),
        (RegisterKind::D, RegisterKind::C) => Some(0xE7),
        (RegisterKind::A, RegisterKind::A) => Some(0xE8),
        (RegisterKind::B, RegisterKind::B) => Some(0xE9),
        (RegisterKind::C, RegisterKind::C) => Some(0xEA),
        (RegisterKind::D, RegisterKind::D) => Some(0xEB),
        _ => None,
    }
}

/// The opcode of `CMP destination, source`.
pub open spec fn spec_cmp_opcode(destination: RegisterKind, source: RegisterKind) -> Option<u8> {
    match (destination, source) {
        (RegisterKind::A, RegisterKind::B) => Some(0xF0),
        (RegisterKind::A, RegisterKind::C) => Some(0xF1),
        (RegisterKind::A, RegisterKind::D) => Some(0xF2),
        (RegisterKind::B, RegisterKind::A) => Some(0xF3),
        (RegisterKind::B, RegisterKind::C) => Some(0xF4),
        (RegisterKind::B, RegisterKind::D) => Some(0xF5),
        (RegisterKind::C, RegisterKind::A) => Some(0xF6),
        (RegisterKind::C, RegisterKind::B) => Some(0xF7),
        (RegisterKind::C, RegisterKind::D) => Some(0xF8),
        (RegisterKind::D, RegisterKind::A) => Some(0xF9),
        (RegisterKind::D, RegisterKind::B) => Some(0xFA),
        (RegisterKind::D, RegisterKind::C) => Some(0xFB),
        _ => None,
    }
}

#[verifier::when_used_as_spec(spec_cmp_opcode)]
pub fn cmp_opcode(destination: RegisterKind, source: RegisterKind) -> (r: Option<u8>)
    ensures
        r == spec_cmp_opcode(destination, source),
{
    match (destination, source) {
        (RegisterKind::A, RegisterKind::B) => Some(0xF0),
        (RegisterKind::A, RegisterKind::C) => Some(0xF1),
        (RegisterKind::A, RegisterKind::D) => Some(0xF2),
        (RegisterKind::B, RegisterKind::A) => Some(0xF3),
        (RegisterKind::B, RegisterKind::C) => Some(0xF4),
        (RegisterKind::B, RegisterKind::D) => Some(0xF5),
        (RegisterKind::C, RegisterKind::A) => Some(0xF6),
        (RegisterKind::C, RegisterKind::B) => Some(0xF7),
        (RegisterKind::C, RegisterKind::D) => Some(0xF8),
        (RegisterKind::D, RegisterKind::A) => Some(0xF9),
        (RegisterKind::D, RegisterKind::B) => Some(0xFA),
        (RegisterKind::D, RegisterKind::C) => Some(0xFB),
        _ => None,
    }
}

/// The opcode of `ADDAC destination, source`.
pub open spec fn spec_addac_opcode(destination: RegisterKind, source: RegisterKind) -> Option<u8> {
    match (destination, source) {
        (RegisterKind::C, RegisterKind::A) => Some(0x5A),
        _ => None,
    }
}

#[verifier::when_used_as_spec(spec_addac_opcode)]
pub fn addac_opcode(destination: RegisterKind, source: RegisterKind) -> (r: Option<u8>)
    ensures
        r == spec_addac_opcode(destination, source),
{
    match (destination, source) {
        (RegisterKind::C, RegisterKind::A) => Some(0x5A),
        _ => None,
    }
}

/// The opcode of `SUBAE destination, source`.
pub open spec fn spec_subae_opcode(destination: RegisterKind, source: RegisterKind) -> Option<u8> {
    match (destination, source) {
        (RegisterKind::D, RegisterKind::C) => Some(0x2F),
        _ => None,
    }
}

#[verifier::when_used_as_spec(spec_subae_opcode)]
pub fn subae_opcode(destination: RegisterKind, source: RegisterKind) -> (r: Option<u8>)
    ensures
        r == spec_subae_opcode(destination, source),
{
    match (destination, source) {
        (RegisterKind::D, RegisterKind::C) => Some(0x2F),
        _ => None,
    }
}

/// The bytes of `PUSH register`: a wide register goes by way of the transfer register.
pub open spec fn spec_push_bytes(register: RegisterKind) -> Seq<u8> {
    match register {
        RegisterKind::A => seq![0x72u8],
        RegisterKind::B => seq![0x73u8],
        RegisterKind::C => seq![0x74u8],
        RegisterKind::D => seq![0x75u8],
        RegisterKind::TL => seq![0x76u8],
        RegisterKind::TH => seq![0x77u8],
        RegisterKind::TX => seq![0x76u8, 0x77u8],
        RegisterKind::RA => seq![0x24u8, 0x76u8, 0x77u8],
        RegisterKind::SP => seq![0x26u8, 0x76u8, 0x77u8],
        RegisterKind::SI => seq![0x28u8, 0x76u8, 0x77u8],
        RegisterKind::DI => seq![0x2Au8, 0x76u8, 0x77u8],
        _ => Seq::empty(),
    }
}

pub fn push_bytes(register: RegisterKind) -> (r: Vec<u8>)
    ensures
        r@ == spec_push_bytes(register),
{
    let bytes: Vec<u8> = match register {
        RegisterKind::A => vec![0x72u8],
        RegisterKind::B => vec![0x73u8],
        RegisterKind::C => vec![0x74u8],
        RegisterKind::D => vec![0x75u8],
        RegisterKind::TL => vec![0x76u8],
        RegisterKind::TH => vec![0x77u8],
        RegisterKind::TX => vec![0x76u8, 0x77u8],
        RegisterKind::RA => vec![0x24u8, 0x76u8, 0x77u8],
        RegisterKind::SP => vec![0x26u8, 0x76u8, 0x77u8],
        RegisterKind::SI => vec![0x28u8, 0x76u8, 0x77u8],
        RegisterKind::DI => vec![0x2Au8, 0x76u8, 0x77u8],
        _ => Vec::new(),
    };
    assert(bytes@ =~= spec_push_bytes(register));
    bytes
}

/// The bytes of `POP register`: a wide register comes by way of the transfer register.
pub open spec fn spec_pop_bytes(register: RegisterKind) -> Seq<u8> {
    match register {
        RegisterKind::A => seq![0x78u8],
        RegisterKind::B => seq![0x79u8],
        RegisterKind::C => seq![0x7Au8],
        RegisterKind::D => seq![0x7Bu8],
        RegisterKind::TL => seq![0x7Cu8],
        RegisterKind::TH => seq![0x7Du8],
        RegisterKind::TX => seq![0x7Du8, 0x7Cu8],
        RegisterKind::RA => seq![0x7Du8, 0x7Cu8, 0x00u8, 0x23u8],
        RegisterKind::SP => seq![0x7Du8, 0x7Cu8, 0x00u8, 0x25u8],
        RegisterKind::SI => seq![0x7Du8, 0x7Cu8, 0x00u8, 0x27u8],
        RegisterKind::DI => seq![0x7Du8, 0x7Cu8, 0x00u8, 0x29u8],
        _ => Seq::empty(),
    }
}

pub fn pop_bytes(register: RegisterKind) -> (r: Vec<u8>)
    ensures
        r@ == spec_pop_bytes(register),
{
    let bytes: Vec<u8> = match register {
        RegisterKind::A => vec![0x78u8],
        RegisterKind::B => vec![0x79u8],
        RegisterKind::C => vec![0x7Au8],
        RegisterKind::D => vec![0x7Bu8],
        RegisterKind::TL => vec![0x7Cu8],
        RegisterKind::TH => vec![0x7Du8],
        RegisterKind::TX => vec![0x7Du8, 0x7Cu8],
        RegisterKind::RA => vec![0x7Du8, 0x7Cu8, 0x00u8, 0x23u8],
        RegisterKind::SP => vec![0x7Du8, 0x7Cu8, 0x00u8, 0x25u8],
        RegisterKind::SI => vec![0x7Du8, 0x7Cu8, 0x00u8, 0x27u8],
        RegisterKind::DI => vec![0x7Du8, 0x7Cu8, 0x00u8, 0x29u8],
        _ => Vec::new(),
    };
    assert(bytes@ =~= spec_pop_bytes(register));
    bytes
}

/// The opcode of the conditional jump that `mnemonic` names.
pub open spec fn spec_branch_opcode(mnemonic: MnemonicKind) -> Option<u8> {
    match mnemonic {
        MnemonicKind::Jo => Some(0x61),
        MnemonicKind::Jno => Some(0x62),
        MnemonicKind::Js => Some(0x63),
        MnemonicKind::Jns => Some(0x64),
        MnemonicKind::Jz => Some(0x65),
        MnemonicKind::Jnz => Some(0x66),
        MnemonicKind::Je => Some(0x65),
        MnemonicKind::Jne => Some(0x66),
        MnemonicKind::Jc => Some(0x67),
        MnemonicKind::Jnc => Some(0x68),
        MnemonicKind::Jnae => Some(0x68),
        MnemonicKind::Jb => Some(0x68),
        MnemonicKind::Jae => Some(0x67),
        MnemonicKind::Jnb => Some(0x67),
        MnemonicKind::Jbe => Some(0x69),
        MnemonicKind::Jna => Some(0x69),
        MnemonicKind::Ja => Some(0x6A),
        MnemonicKind::Jnbe => Some(0x6A),
        MnemonicKind::Jl => Some(0x6B),
        MnemonicKind::Jnge => Some(0x6B),
        MnemonicKind::Jge => Some(0x6C),
        MnemonicKind::Jnl => Some(0x6C),
        MnemonicKind::Jle => Some(0x6D),
        MnemonicKind::Jng => Some(0x6D),
        MnemonicKind::Jg => Some(0x6E),
        MnemonicKind::Jnle => Some(0x6E),
        MnemonicKind::Jlc => Some(0x6F),
        MnemonicKind::Jnlc => Some(0x70),
        _ => None,
    }
}

#[verifier::when_used_as_spec(spec_branch_opcode)]
pub fn branch_opcode(mnemonic: MnemonicKind) -> (r: Option<u8>)
    ensures
        r == spec_branch_opcode(mnemonic),
{
    match mnemonic {
        MnemonicKind::Jo => Some(0x61),
        MnemonicKind::Jno => Some(0x62),
        MnemonicKind::Js => Some(0x63),
        MnemonicKind::Jns => Some(0x64),
        MnemonicKind::Jz => Some(0x65),
        MnemonicKind::Jnz => Some(0x66),
        MnemonicKind::Je => Some(0x65),
        MnemonicKind::Jne => Some(0x66),
        MnemonicKind::Jc => Some(0x67),
        MnemonicKind::Jnc => Some(0x68),
        MnemonicKind::Jnae => Some(0x68),
        MnemonicKind::Jb => Some(0x68),
        MnemonicKind::Jae => Some(0x67),
        MnemonicKind::Jnb => Some(0x67),
        MnemonicKind::Jbe => Some(0x69),
        MnemonicKind::Jna => Some(0x69),
        MnemonicKind::Ja => Some(0x6A),
        MnemonicKind::Jnbe => Some(0x6A),
        MnemonicKind::Jl => Some(0x6B),
        MnemonicKind::Jnge => Some(0x6B),
        MnemonicKind::Jge => Some(0x6C),
        MnemonicKind::Jnl => Some(0x6C),
        MnemonicKind::Jle => Some(0x6D),
        MnemonicKind::Jng => Some(0x6D),
        MnemonicKind::Jg => Some(0x6E),
        MnemonicKind::Jnle => Some(0x6E),
        MnemonicKind::Jlc => Some(0x6F),
        MnemonicKind::Jnlc => Some(0x70),
        _ => None,
    }
}

/// The opcode of `IN A, port`.
pub open spec fn spec_in_opcode(port: IoRegisterKind) -> Option<u8> {
    match port {
        IoRegisterKind::UartData => Some(0x3A),
        IoRegisterKind::UartControl => Some(0x3B),
        IoRegisterKind::ControllerData => Some(0x3D),
        IoRegisterKind::VgaStatus => Some(0x31),
        IoRegisterKind::Gpio => Some(0x3E),
        _ => None,
    }
}

#[verifier::when_used_as_spec(spec_in_opcode)]
pub fn in_opcode(port: IoRegisterKind) -> (r: Option<u8>)
    ensures
        r == spec_in_opcode(port),
{
    match port {
        IoRegisterKind::UartData => Some(0x3A),
        IoRegisterKind::UartControl => Some(0x3B),
        IoRegisterKind::ControllerData => Some(0x3D),
        IoRegisterKind::VgaStatus => Some(0x31),
        IoRegisterKind::Gpio => Some(0x3E),
        _ => None,
    }
}

/// The opcode of `OUT port, A`.
pub open spec fn spec_out_opcode(port: IoRegisterKind) -> Option<u8> {
    match port {
        IoRegisterKind::UartData => Some(0x39),
        IoRegisterKind::AudioData => Some(0x3C),
        IoRegisterKind::Gpio => Some(0x37),
        _ => None,
    }
}

#[verifier::when_used_as_spec(spec_out_opcode)]
pub fn out_opcode(port: IoRegisterKind) -> (r: Option<u8>)
    ensures
        r == spec_out_opcode(port),
{
    match port {
        IoRegisterKind::UartData => Some(0x39),
        IoRegisterKind::AudioData => Some(0x3C),
        IoRegisterKind::Gpio => Some(0x37),
        _ => None,
    }
}

/// The four bytes that load `value` into the transfer register: `MOV TL`
/// with the low byte, `MOV TH` with the high byte.
pub open spec fn spec_load_transfer(value: i64) -> Seq<u8> {
    seq![0x05u8, spec_low_byte(value), 0x06u8, spec_high_byte(value)]
}

pub fn load_transfer(value: i64) -> (r: Vec<u8>)
    ensures
        r@ == spec_load_transfer(value),
{
    let bytes: Vec<u8> = vec![0x05u8, low_byte(value), 0x06u8, high_byte(value)];
    assert(bytes@ =~= spec_load_transfer(value));
    bytes
}

/// `a` followed by `b`.
pub fn concat(a: Vec<u8>, b: &Vec<u8>) -> (r: Vec<u8>)
    ensures
        r@ == a@ + b@,
{
    let mut r = a;
    let mut i: usize = 0;
    while i < b.len()
        invariant
            i <= b@.len(),
            r@ == a@ + b@.take(i as int),
        decreases b@.len() - i,
    {
        r.push(b[i]);
        i += 1;
        assert(r@ =~= a@ + b@.take(i as int));
    }
    assert(b@.take(i as int) =~= b@);
    r
}

/// A MOV instruction.
#[derive(Debug)]
pub struct MovInstruction {
    pub mnemonic: Mnemonic,
    pub destination: MovDestination,
    pub comma: Punctuation,
    pub source: MovSource,
}

impl MovInstruction {
    /// The bytes of the instruction, given the value of its immediate
    /// operand. Operands that no MOV takes give no bytes.
    pub open spec fn spec_encode(self, value: i64) -> Seq<u8> {
        match (self.destination, self.source) {
            (MovDestination::Register(destination), MovSource::Value(_)) => {
                match destination.kind {
                    RegisterKind::TX => spec_load_transfer(value),
                    RegisterKind::AB => seq![
                        0x01u8,
                        spec_low_byte(value),
                        0x02u8,
                        spec_high_byte(value),
                    ],
                    RegisterKind::CD => seq![
                        0x03u8,
                        spec_low_byte(value),
                        0x04u8,
                        spec_high_byte(value),
                    ],
                    RegisterKind::SI => spec_load_transfer(value).push(0x27),
                    RegisterKind::DI => spec_load_transfer(value).push(0x29),
                    kind => match spec_mov_immediate_opcode(kind) {
                        Some(opcode) => seq![opcode, spec_low_byte(value)],
                        None => Seq::empty(),
                    },
                }
            },
            (MovDestination::Register(destination), MovSource::Register(source)) => {
                match spec_mov_register_opcode(destination.kind, source.kind) {
                    Some(opcode) => seq![opcode],
                    None => Seq::empty(),
                }
            },
            (
                MovDestination::Register(destination),
                MovSource::Memory { open_bracket, address_source, close_bracket },
            ) => match spec_mov_load_opcode(destination.kind, address_source.kind) {
                Some(opcode) => seq![opcode],
                None => Seq::empty(),
            },
            (
                MovDestination::Memory { open_bracket, address_source, close_bracket },
                MovSource::Register(source),
            ) => match spec_mov_store_opcode(address_source.kind, source.kind) {
                Some(opcode) => seq![opcode],
                None => Seq::empty(),
            },
            _ => Seq::empty(),
        }
    }

    /// The number of bytes that the instruction takes up: 2 for a byte
    /// register and an immediate, 4 for a register pair, 5 for an index
    /// register, 1 for any move between registers or to or from memory,
    /// 0 for operands that no MOV takes.
    pub open spec fn spec_emit_size(self) -> u16 {
        match (self.destination, self.source) {
            (MovDestination::Register(destination), MovSource::Value(_)) => {
                match destination.kind {
                    RegisterKind::A
                    | RegisterKind::B
                    | RegisterKind::C
                    | RegisterKind::D
                    | RegisterKind::TL
                    | RegisterKind::TH => 2,
                    RegisterKind::TX | RegisterKind::AB | RegisterKind::CD => 4,
                    RegisterKind::SI | RegisterKind::DI => 5,
                    _ => 0,
                }
            },
            (MovDestination::Register(destination), MovSource::Register(source)) => {
                if spec_mov_register_opcode(destination.kind, source.kind).is_some() {
                    1
                } else {
                    0
                }
            },
            (
                MovDestination::Register(destination),
                MovSource::Memory { open_bracket, address_source, close_bracket },
            ) => if spec_mov_load_opcode(destination.kind, address_source.kind).is_some() {
                1
            } else {
                0
            },
            (
                MovDestination::Memory { open_bracket, address_source, close_bracket },
                MovSource::Register(source),
            ) => if spec_mov_store_opcode(address_source.kind, source.kind).is_some() {
                1
            } else {
                0
            },
            _ => 0,
        }
    }

    pub fn emit_size(&self) -> (size: u16)
        ensures
            size == self.spec_emit_size(),
    {
        match (&self.destination, &self.source) {
            (MovDestination::Register(destination), MovSource::Value(_)) => {
                match destination.kind {
                    RegisterKind::A
                    | RegisterKind::B
                    | RegisterKind::C
                    | RegisterKind::D
                    | RegisterKind::TL
                    | RegisterKind::TH => 2,
                    RegisterKind::TX | RegisterKind::AB | RegisterKind::CD => 4,
                    RegisterKind::SI | RegisterKind::DI => 5,
                    _ => 0,
                }
            },
            (MovDestination::Register(destination), MovSource::Register(source)) => {
                if mov_register_opcode(destination.kind, source.kind).is_some() {
                    1
                } else {
                    0
                }
            },
            (
                MovDestination::Register(destination),
                MovSource::Memory { open_bracket, address_source, close_bracket },
            ) => if mov_load_opcode(destination.kind, address_source.kind).is_some() {
                1
            } else {
                0
            },
            (
                MovDestination::Memory { open_bracket, address_source, close_bracket },
                MovSource::Register(source),
            ) => if mov_store_opcode(address_source.kind, source.kind).is_some() {
                1
            } else {
                0
            },
            _ => 0,
        }
    }

    /// Whether a MOV takes these operands.
    pub open spec fn spec_valid(destination: MovDestination, source: MovSource) -> bool {
        (MovInstruction {
            mnemonic: Mnemonic { kind: MnemonicKind::Mov, span: TextSpan::spec_empty() },
            destination,
            comma: Punctuation { kind: PunctuationKind::Comma, span: TextSpan::spec_empty() },
            source,
        }).spec_emit_size() > 0
    }

    /// The instruction, if a MOV takes these operands.
    pub open spec fn spec_new(
        mnemonic: Mnemonic,
        destination: MovDestination,
        comma: Punctuation,
        source: MovSource,
    ) -> Option<MovInstruction> {
        if Self::spec_valid(destination, source) {
            Some(MovInstruction { mnemonic, destination, comma, source })
        } else {
            None
        }
    }

    pub fn new(
        mnemonic: Mnemonic,
        destination: MovDestination,
        comma: Punctuation,
        source: MovSource,
    ) -> (r: Option<Self>)
        ensures
            r == Self::spec_new(mnemonic, destination, comma, source),
            r.is_some() ==> 1 <= r.unwrap().spec_emit_size() <= 5,
    {
        let inst = MovInstruction { mnemonic, destination, comma, source };
        if inst.emit_size() > 0 {
            Some(inst)
        } else {
            None
        }
    }

    /// The bytes of the instruction, given the value of its immediate operand.
    pub fn encode(&self, value: i64) -> (bytes: Vec<u8>)
        ensures
            bytes@ == self.spec_encode(value),
            bytes@.len() == self.spec_emit_size(),
    {
        let bytes: Vec<u8> = match (&self.destination, &self.source) {
            (MovDestination::Register(destination), MovSource::Value(_)) => {
                match destination.kind {
                    RegisterKind::TX => load_transfer(value),
                    RegisterKind::AB => vec![0x01u8, low_byte(value), 0x02u8, high_byte(value)],
                    RegisterKind::CD => vec![0x03u8, low_byte(value), 0x04u8, high_byte(value)],
                    RegisterKind::SI => {
                        let mut bytes = load_transfer(value);
                        bytes.push(0x27);
                        bytes
                    },
                    RegisterKind::DI => {
                        let mut bytes = load_transfer(value);
                        bytes.push(0x29);
                        bytes
                    },
                    kind => match mov_immediate_opcode(kind) {
                        Some(opcode) => vec![opcode, low_byte(value)],
                        None => Vec::new(),
                    },
                }
            },
            (MovDestination::Register(destination), MovSource::Register(source)) => {
                match mov_register_opcode(destination.kind, source.kind) {
                    Some(opcode) => vec![opcode],
                    None => Vec::new(),
                }
            },
            (
                MovDestination::Register(destination),
                MovSource::Memory { open_bracket, address_source, close_bracket },
            ) => match mov_load_opcode(destination.kind, address_source.kind) {
                Some(opcode) => vec![opcode],
                None => Vec::new(),
            },
            (
                MovDestination::Memory { open_bracket, address_source, close_bracket },
                MovSource::Register(source),
            ) => match mov_store_opcode(address_source.kind, source.kind) {
                Some(opcode) => vec![opcode],
                None => Vec::new(),
            },
            _ => Vec::new(),
        };
        assert(bytes@ =~= self.spec_encode(value));
        bytes
    }

    pub open spec fn spec_span(self) -> TextSpan {
        self.mnemonic.span.spec_cover(self.source.spec_span())
    }

    pub fn span(&self) -> (span: TextSpan)
        ensures
            span == self.spec_span(),
    {
        self.mnemonic.span.cover(self.source.span())
    }
}

/// `INC register`.
#[derive(Debug, Clone, Copy, PartialEq, Eq, Structural)]
pub struct IncInstruction {
    pub mnemonic: Mnemonic,
    pub register: Register,
}

impl IncInstruction {
    /// The bytes of the instruction; none for a register that INC does not take.
    pub open spec fn spec_encode(self) -> Seq<u8> {
        match spec_inc_opcode(self.register.kind) {
            Some(opcode) => seq![opcode],
            None => Seq::empty(),
        }
    }

    /// The number of bytes that the instruction takes up.
    pub open spec fn spec_emit_size(self) -> u16 {
        self.spec_encode().len() as u16
    }

    /// The instruction, if INC takes the register.
    pub open spec fn spec_new(mnemonic: Mnemonic, register: Register) -> Option<IncInstruction> {
        if (IncInstruction { mnemonic, register }).spec_encode().len() > 0 {
            Some(IncInstruction { mnemonic, register })
        } else {
            None
        }
    }

    pub fn new(mnemonic: Mnemonic, register: Register) -> (r: Option<Self>)
        ensures
            r == Self::spec_new(mnemonic, register),
    {
        let inst = IncInstruction { mnemonic, register };
        if inst.encode().len() > 0 {
            Some(inst)
        } else {
            None
        }
    }

    pub fn emit_size(&self) -> (size: u16)
        ensures
            size == self.spec_emit_size(),
            size <= 4,
    {
        self.encode().len() as u16
    }

    pub fn encode(&self) -> (bytes: Vec<u8>)
        ensures
            bytes@ == self.spec_encode(),
            bytes@.len() <= 4,
    {
        let bytes: Vec<u8> = match inc_opcode(self.register.kind) {
            Some(opcode) => vec![opcode],
            None => Vec::new(),
        };
        assert(bytes@ =~= self.spec_encode());
        bytes
    }

    pub open spec fn spec_span(self) -> TextSpan {
        self.mnemonic.span.spec_cover(self.register.span)
    }

    pub fn span(&self) -> (span: TextSpan)
        ensures
            span == self.spec_span(),
    {
        self.mnemonic.span.cover(self.register.span)
    }
}

/// `INCC register`.
#[derive(Debug, Clone, Copy, PartialEq, Eq, Structural)]
pub struct InccInstruction {
    pub mnemonic: Mnemonic,
    pub register: Register,
}

impl InccInstruction {
    /// The bytes of the instruction; none for a register that INCC does not take.
    pub open spec fn spec_encode(self) -> Seq<u8> {
        match spec_incc_opcode(self.register.kind) {
            Some(opcode) => seq![opcode],
            None => Seq::empty(),
        }
    }

    /// The number of bytes that the instruction takes up.
    pub open spec fn spec_emit_size(self) -> u16 {
        self.spec_encode().len() as u16
    }

    /// The instruction, if INCC takes the register.
    pub open spec fn spec_new(mnemonic: Mnemonic, register: Register) -> Option<InccInstruction> {
        if (InccInstruction { mnemonic, register }).spec_encode().len() > 0 {
            Some(InccInstruction { mnemonic, register })
        } else {
            None
        }
    }

    pub fn new(mnemonic: Mnemonic, register: Register) -> (r: Option<Self>)
        ensures
            r == Self::spec_new(mnemonic, register),
    {
        let inst = InccInstruction { mnemonic, register };
        if inst.encode().len() > 0 {
            Some(inst)
        } else {
            None
        }
    }

    pub fn emit_size(&self) -> (size: u16)
        ensures
            size == self.spec_emit_size(),
            size <= 4,
    {
        self.encode().len() as u16
    }

    pub fn encode(&self) -> (bytes: Vec<u8>)
        ensures
            bytes@ == self.spec_encode(),
            bytes@.len() <= 4,
    {
        let bytes: Vec<u8> = match incc_opcode(self.register.kind) {
            Some(opcode) => vec![opcode],
            None => Vec::new(),
        };
        assert(bytes@ =~= self.spec_encode());
        bytes
    }

    pub open spec fn spec_span(self) -> TextSpan {
        self.mnemonic.span.spec_cover(self.register.span)
    }

    pub fn span(&self) -> (span: TextSpan)
        ensures
            span == self.spec_span(),
    {
        self.mnemonic.span.cover(self.register.span)
    }
}

/// `DEC register`.
#[derive(Debug, Clone, Copy, PartialEq, Eq, Structural)]
pub struct DecInstruction {
    pub mnemonic: Mnemonic,
    pub register: Register,
}

impl DecInstruction {
    /// The bytes of the instruction; none for a register that DEC does not take.
    pub open spec fn spec_encode(self) -> Seq<u8> {
        match spec_dec_opcode(self.register.kind) {
            Some(opcode) => seq![opcode],
            None => Seq::empty(),
        }
    }

    /// The number of bytes that the instruction takes up.
    pub open spec fn spec_emit_size(self) -> u16 {
        self.spec_encode().len() as u16
    }

    /// The instruction, if DEC takes the register.
    pub open spec fn spec_new(mnemonic: Mnemonic, register: Register) -> Option<DecInstruction> {
        if (DecInstruction { mnemonic, register }).spec_encode().len() > 0 {
            Some(DecInstruction { mnemonic, register })
        } else {
            None
        }
    }

    pub fn new(mnemonic: Mnemonic, register: Register) -> (r: Option<Self>)
        ensures
            r == Self::spec_new(mnemonic, register),
    {
        let inst = DecInstruction { mnemonic, register };
        if inst.encode().len() > 0 {
            Some(inst)
        } else {
            None
        }
    }

    pub fn emit_size(&self) -> (size: u16)
        ensures
            size == self.spec_emit_size(),
            size <= 4,
    {
        self.encode().len() as u16
    }

    pub fn encode(&self) -> (bytes: Vec<u8>)
        ensures
            bytes@ == self.spec_encode(),
            bytes@.len() <= 4,
    {
        let bytes: Vec<u8> = match dec_opcode(self.register.kind) {
            Some(opcode) => vec![opcode],
            None => Vec::new(),
        };
        assert(bytes@ =~= self.spec_encode());
        bytes
    }

    pub open spec fn spec_span(self) -> TextSpan {
        self.mnemonic.span.spec_cover(self.register.span)
    }

    pub fn span(&self) -> (span: TextSpan)
        ensures
            span == self.spec_span(),
    {
        self.mnemonic.span.cover(self.register.span)
    }
}

/// `SHL register`.
#[derive(Debug, Clone, Copy, PartialEq, Eq, Structural)]
pub struct ShlInstruction {
    pub mnemonic: Mnemonic,
    pub register: Register,
}

impl ShlInstruction {
    /// The bytes of the instruction; none for a register that SHL does not take.
    pub open spec fn spec_encode(self) -> Seq<u8> {
        match spec_shl_opcode(self.register.kind) {
            Some(opcode) => seq![opcode],
            None => Seq::empty(),
        }
    }

    /// The number of bytes that the instruction takes up.
    pub open spec fn spec_emit_size(self) -> u16 {
        self.spec_encode().len() as u16
    }

    /// The instruction, if SHL takes the register.
    pub open spec fn spec_new(mnemonic: Mnemonic, register: Register) -> Option<ShlInstruction> {
        if (ShlInstruction { mnemonic, register }).spec_encode().len() > 0 {
            Some(ShlInstruction { mnemonic, register })
        } else {
            None
        }
    }

    pub fn new(mnemonic: Mnemonic, register: Register) -> (r: Option<Self>)
        ensures
            r == Self::spec_new(mnemonic, register),
    {
        let inst = ShlInstruction { mnemonic, register };
        if inst.encode().len() > 0 {
            Some(inst)
        } else {
            None
        }
    }

    pub fn emit_size(&self) -> (size: u16)
        ensures
            size == self.spec_emit_size(),
            size <= 4,
    {
        self.encode().len() as u16
    }

    pub fn encode(&self) -> (bytes: Vec<u8>)
        ensures
            bytes@ == self.spec_encode(),
            bytes@.len() <= 4,
    {
        let bytes: Vec<u8> = match shl_opcode(self.register.kind) {
            Some(opcode) => vec![opcode],
            None => Vec::new(),
        };
        assert(bytes@ =~= self.spec_encode());
        bytes
    }

    pub open spec fn spec_span(self) -> TextSpan {
        self.mnemonic.span.spec_cover(self.register.span)
    }

    pub fn span(&self) -> (span: TextSpan)
        ensures
            span == self.spec_span(),
    {
        self.mnemonic.span.cover(self.register.span)
    }
}

/// `SHR register`.
#[derive(Debug, Clone, Copy, PartialEq, Eq, Structural)]
pub struct ShrInstruction {
    pub mnemonic: Mnemonic,
    pub register: Register,
}

impl ShrInstruction {
    /// The bytes of the instruction; none for a register that SHR does not take.
    pub open spec fn spec_encode(self) -> Seq<u8> {
        match spec_shr_opcode(self.register.kind) {
            Some(opcode) => seq![opcode],
            None => Seq::empty(),
        }
    }

    /// The number of bytes that the instruction takes up.
    pub open spec fn spec_emit_size(self) -> u16 {
        self.spec_encode().len() as u16
    }

    /// The instruction, if SHR takes the register.
    pub open spec fn spec_new(mnemonic: Mnemonic, register: Register) -> Option<ShrInstruction> {
        if (ShrInstruction { mnemonic, register }).spec_encode().len() > 0 {
            Some(ShrInstruction { mnemonic, register })
        } else {
            None
        }
    }

    pub fn new(mnemonic: Mnemonic, register: Register) -> (r: Option<Self>)
        ensures
            r == Self::spec_new(mnemonic, register),
    {
        let inst = ShrInstruction { mnemonic, register };
        if inst.encode().len() > 0 {
            Some(inst)
        } else {
            None
        }
    }

    pub fn emit_size(&self) -> (size: u16)
        ensures
            size == self.spec_emit_size(),
            size <= 4,
    {
        self.encode().len() as u16
    }

    pub fn encode(&self) -> (bytes: Vec<u8>)
        ensures
            bytes@ == self.spec_encode(),
            bytes@.len() <= 4,
    {
        let bytes: Vec<u8> = match shr_opcode(self.register.kind) {
            Some(opcode) => vec![opcode],
            None => Vec::new(),
        };
        assert(bytes@ =~= self.spec_encode());
        bytes
    }

    pub open spec fn spec_span(self) -> TextSpan {
        self.mnemonic.span.spec_cover(self.register.span)
    }

    pub fn span(&self) -> (span: TextSpan)
        ensures
            span == self.spec_span(),
    {
        self.mnemonic.span.cover(self.register.span)
    }
}

/// `NOT register`.
#[derive(Debug, Clone, Copy, PartialEq, Eq, Structural)]
pub struct NotInstruction {
    pub mnemonic: Mnemonic,
    pub register: Register,
}

impl NotInstruction {
    /// The bytes of the instruction; none for a register that NOT does not take.
    pub open spec fn spec_encode(self) -> Seq<u8> {
        match spec_not_opcode(self.register.kind) {
            Some(opcode) => seq![opcode],
            None => Seq::empty(),
        }
    }

    /// The number of bytes that the instruction takes up.
    pub open spec fn spec_emit_size(self) -> u16 {
        self.spec_encode().len() as u16
    }

    /// The instruction, if NOT takes the register.
    pub open spec fn spec_new(mnemonic: Mnemonic, register: Register) -> Option<NotInstruction> {
        if (NotInstruction { mnemonic, register }).spec_encode().len() > 0 {
            Some(NotInstruction { mnemonic, register })
        } else {
            None
        }
    }

    pub fn new(mnemonic: Mnemonic, register: Register) -> (r: Option<Self>)
        ensures
            r == Self::spec_new(mnemonic, register),
    {
        let inst = NotInstruction { mnemonic, register };
        if inst.encode().len() > 0 {
            Some(inst)
        } else {
            None
        }
    }

    pub fn emit_size(&self) -> (size: u16)
        ensures
            size == self.spec_emit_size(),
            size <= 4,
    {
        self.encode().len() as u16
    }

    pub fn encode(&self) -> (bytes: Vec<u8>)
        ensures
            bytes@ == self.spec_encode(),
            bytes@.len() <= 4,
    {
        let bytes: Vec<u8> = match not_opcode(self.register.kind) {
            Some(opcode) => vec![opcode],
            None => Vec::new(),
        };
        assert(bytes@ =~= self.spec_encode());
        bytes
    }

    pub open spec fn spec_span(self) -> TextSpan {
        self.mnemonic.span.spec_cover(self.register.span)
    }

    pub fn span(&self) -> (span: TextSpan)
        ensures
            span == self.spec_span(),
    {
        self.mnemonic.span.cover(self.register.span)
    }
}

/// `TEST register`.
#[derive(Debug, Clone, Copy, PartialEq, Eq, Structural)]
pub struct TestInstruction {
    pub mnemonic: Mnemonic,
    pub register: Register,
}

impl TestInstruction {
    /// The bytes of the instruction; none for a register that TEST does not take.
    pub open spec fn spec_encode(self) -> Seq<u8> {
        match spec_test_opcode(self.register.kind) {
            Some(opcode) => seq![opcode],
            None => Seq::empty(),
        }
    }

    /// The number of bytes that the instruction takes up.
    pub open spec fn spec_emit_size(self) -> u16 {
        self.spec_encode().len() as u16
    }

    /// The instruction, if TEST takes the register.
    pub open spec fn spec_new(mnemonic: Mnemonic, register: Register) -> Option<TestInstruction> {
        if (TestInstruction { mnemonic, register }).spec_encode().len() > 0 {
            Some(TestInstruction { mnemonic, register })
        } else {
            None
        }
    }

    pub fn new(mnemonic: Mnemonic, register: Register) -> (r: Option<Self>)
        ensures
            r == Self::spec_new(mnemonic, register),
    {
        let inst = TestInstruction { mnemonic, register };
        if inst.encode().len() > 0 {
            Some(inst)
        } else {
            None
        }
    }

    pub fn emit_size(&self) -> (size: u16)
        ensures
            size == self.spec_emit_size(),
            size <= 4,
    {
        self.encode().len() as u16
    }

    pub fn encode(&self) -> (bytes: Vec<u8>)
        ensures
            bytes@ == self.spec_encode(),
            bytes@.len() <= 4,
    {
        let bytes: Vec<u8> = match test_opcode(self.register.kind) {
            Some(opcode) => vec![opcode],
            None => Vec::new(),
        };
        assert(bytes@ =~= self.spec_encode());
        bytes
    }

    pub open spec fn spec_span(self) -> TextSpan {
        self.mnemonic.span.spec_cover(self.register.span)
    }

    pub fn span(&self) -> (span: TextSpan)
        ensures
            span == self.spec_span(),
    {
        self.mnemonic.span.cover(self.register.span)
    }
}

/// `PUSH register`.
#[derive(Debug, Clone, Copy, PartialEq, Eq, Structural)]
pub struct PushInstruction {
    pub mnemonic: Mnemonic,
    pub register: Register,
}

impl PushInstruction {
    /// The bytes of the instruction; none for a register that PUSH does not take.
    pub open spec fn spec_encode(self) -> Seq<u8> {
        spec_push_bytes(self.register.kind)
    }

    /// The number of bytes that the instruction takes up.
    pub open spec fn spec_emit_size(self) -> u16 {
        self.spec_encode().len() as u16
    }

    /// The instruction, if PUSH takes the register.
    pub open spec fn spec_new(mnemonic: Mnemonic, register: Register) -> Option<PushInstruction> {
        if (PushInstruction { mnemonic, register }).spec_encode().len() > 0 {
            Some(PushInstruction { mnemonic, register })
        } else {
            None
        }
    }

    pub fn new(mnemonic: Mnemonic, register: Register) -> (r: Option<Self>)
        ensures
            r == Self::spec_new(mnemonic, register),
    {
        let inst = PushInstruction { mnemonic, register };
        if inst.encode().len() > 0 {
            Some(inst)
        } else {
            None
        }
    }

    pub fn emit_size(&self) -> (size: u16)
        ensures
            size == self.spec_emit_size(),
            size <= 4,
    {
        self.encode().len() as u16
    }

    pub fn encode(&self) -> (bytes: Vec<u8>)
        ensures
            bytes@ == self.spec_encode(),
            bytes@.len() <= 4,
    {
        push_bytes(self.register.kind)
    }

    pub open spec fn spec_span(self) -> TextSpan {
        self.mnemonic.span.spec_cover(self.register.span)
    }

    pub fn span(&self) -> (span: TextSpan)
        ensures
            span == self.spec_span(),
    {
        self.mnemonic.span.cover(self.register.span)
    }
}

/// `POP register`.
#[derive(Debug, Clone, Copy, PartialEq, Eq, Structural)]
pub struct PopInstruction {
    pub mnemonic: Mnemonic,
    pub register: Register,
}

impl PopInstruction {
    /// The bytes of the instruction; none for a register that POP does not take.
    pub open spec fn spec_encode(self) -> Seq<u8> {
        spec_pop_bytes(self.register.kind)
    }

    /// The number of bytes that the instruction takes up.
    pub open spec fn spec_emit_size(self) -> u16 {
        self.spec_encode().len() as u16
    }

    /// The instruction, if POP takes the register.
    pub open spec fn spec_new(mnemonic: Mnemonic, register: Register) -> Option<PopInstruction> {
        if (PopInstruction { mnemonic, register }).spec_encode().len() > 0 {
            Some(PopInstruction { mnemonic, register })
        } else {
            None
        }
    }

    pub fn new(mnemonic: Mnemonic, register: Register) -> (r: Option<Self>)
        ensures
            r == Self::spec_new(mnemonic, register),
    {
        let inst = PopInstruction { mnemonic, register };
        if inst.encode().len() > 0 {
            Some(inst)
        } else {
            None
        }
    }

    pub fn emit_size(&self) -> (size: u16)
        ensures
            size == self.spec_emit_size(),
            size <= 4,
    {
        self.encode().len() as u16
    }

    pub fn encode(&self) -> (bytes: Vec<u8>)
        ensures
            bytes@ == self.spec_encode(),
            bytes@.len() <= 4,
    {
        pop_bytes(self.register.kind)
    }

    pub open spec fn spec_span(self) -> TextSpan {
        self.mnemonic.span.spec_cover(self.register.span)
    }

    pub fn span(&self) -> (span: TextSpan)
        ensures
            span == self.spec_span(),
    {
        self.mnemonic.span.cover(self.register.span)
    }
}

/// `ADD destination, source`.
#[derive(Debug, Clone, Copy, PartialEq, Eq, Structural)]
pub struct AddInstruction {
    pub mnemonic: Mnemonic,
    pub destination: Register,
    pub comma: Punctuation,
    pub source: Register,
}

impl AddInstruction {
    /// The byte of the instruction; none for operands that ADD does not take.
    pub open spec fn spec_encode(self) -> Seq<u8> {
        match spec_add_opcode(self.destination.kind, self.source.kind) {
            Some(opcode) => seq![opcode],
            None => Seq::empty(),
        }
    }

    /// The number of bytes that the instruction takes up.
    pub open spec fn spec_emit_size(self) -> u16 {
        self.spec_encode().len() as u16
    }

    /// The instruction, if ADD takes the operands.
    pub open spec fn spec_new(
        mnemonic: Mnemonic,
        destination: Register,
        comma: Punctuation,
        source: Register,
    ) -> Option<AddInstruction> {
        let inst = AddInstruction { mnemonic, destination, comma, source };
        if inst.spec_encode().len() > 0 {
            Some(inst)
        } else {
            None
        }
    }

    pub fn new(mnemonic: Mnemonic, destination: Register, comma: Punctuation, source: Register) -> (r:
        Option<Self>)
        ensures
            r == Self::spec_new(mnemonic, destination, comma, source),
    {
        let inst = AddInstruction { mnemonic, destination, comma, source };
        if inst.encode().len() > 0 {
            Some(inst)
        } else {
            None
        }
    }

    pub fn emit_size(&self) -> (size: u16)
        ensures
            size == self.spec_emit_size(),
            size <= 1,
    {
        self.encode().len() as u16
    }

    pub fn encode(&self) -> (bytes: Vec<u8>)
        ensures
            bytes@ == self.spec_encode(),
            bytes@.len() <= 1,
    {
        let bytes: Vec<u8> = match add_opcode(self.destination.kind, self.source.kind) {
            Some(opcode) => vec![opcode],
            None => Vec::new(),
        };
        assert(bytes@ =~= self.spec_encode());
        bytes
    }

    pub open spec fn spec_span(self) -> TextSpan {
        self.mnemonic.span.spec_cover(self.source.span)
    }

    pub fn span(&self) -> (span: TextSpan)
        ensures
            span == self.spec_span(),
    {
        self.mnemonic.span.cover(self.source.span)
    }
}

/// `ADDC destination, source`.
#[derive(Debug, Clone, Copy, PartialEq, Eq, Structural)]
pub struct AddcInstruction {
    pub mnemonic: Mnemonic,
    pub destination: Register,
    pub comma: Punctuation,
    pub source: Register,
}

impl AddcInstruction {
    /// The byte of the instruction; none for operands that ADDC does not take.
    pub open spec fn spec_encode(self) -> Seq<u8> {
        match spec_addc_opcode(self.destination.kind, self.source.kind) {
            Some(opcode) => seq![opcode],
            None => Seq::empty(),
        }
    }

    /// The number of bytes that the instruction takes up.
    pub open spec fn spec_emit_size(self) -> u16 {
        self.spec_encode().len() as u16
    }

    /// The instruction, if ADDC takes the operands.
    pub open spec fn spec_new(
        mnemonic: Mnemonic,
        destination: Register,
        comma: Punctuation,
        source: Register,
    ) -> Option<AddcInstruction> {
        let inst = AddcInstruction { mnemonic, destination, comma, source };
        if inst.spec_encode().len() > 0 {
            Some(inst)
        } else {
            None
        }
    }

    pub fn new(mnemonic: Mnemonic, destination: Register, comma: Punctuation, source: Register) -> (r:
        Option<Self>)
        ensures
            r == Self::spec_new(mnemonic, destination, comma, source),
    {
        let inst = AddcInstruction { mnemonic, destination, comma, source };
        if inst.encode().len() > 0 {
            Some(inst)
        } else {
            None
        }
    }

    pub fn emit_size(&self) -> (size: u16)
        ensures
            size == self.spec_emit_size(),
            size <= 1,
    {
        self.encode().len() as u16
    }

    pub fn encode(&self) -> (bytes: Vec<u8>)
        ensures
            bytes@ == self.spec_encode(),
            bytes@.len() <= 1,
    {
        let bytes: Vec<u8> = match addc_opcode(self.destination.kind, self.source.kind) {
            Some(opcode) => vec![opcode],
            None => Vec::new(),
        };
        assert(bytes@ =~= self.spec_encode());
        bytes
    }

    pub open spec fn spec_span(self) -> TextSpan {
        self.mnemonic.span.spec_cover(self.source.span)
    }

    pub fn span(&self) -> (span: TextSpan)
        ensures
            span == self.spec_span(),
    {
        self.mnemonic.span.cover(self.source.span)
    }
}

/// `SUB destination, source`.
#[derive(Debug, Clone, Copy, PartialEq, Eq, Structural)]
pub struct SubInstruction {
    pub mnemonic: Mnemonic,
    pub destination: Register,
    pub comma: Punctuation,
    pub source: Register,
}

impl SubInstruction {
    /// The byte of the instruction; none for operands that SUB does not take.
    pub open spec fn spec_encode(self) -> Seq<u8> {
        match spec_sub_opcode(self.destination.kind, self.source.kind) {
            Some(opcode) => seq![opcode],
            None => Seq::empty(),
        }
    }

    /// The number of bytes that the instruction takes up.
    pub open spec fn spec_emit_size(self) -> u16 {
        self.spec_encode().len() as u16
    }

    /// The instruction, if SUB takes the operands.
    pub open spec fn spec_new(
        mnemonic: Mnemonic,
        destination: Register,
        comma: Punctuation,
        source: Register,
    ) -> Option<SubInstruction> {
        let inst = SubInstruction { mnemonic, destination, comma, source };
        if inst.spec_encode().len() > 0 {
            Some(inst)
        } else {
            None
        }
    }

    pub fn new(mnemonic: Mnemonic, destination: Register, comma: Punctuation, source: Register) -> (r:
        Option<Self>)
        ensures
            r == Self::spec_new(mnemonic, destination, comma, source),
    {
        let inst = SubInstruction { mnemonic, destination, comma, source };
        if inst.encode().len() > 0 {
            Some(inst)
        } else {
            None
        }
    }

    pub fn emit_size(&self) -> (size: u16)
        ensures
            size == self.spec_emit_size(),
            size <= 1,
    {
        self.encode().len() as u16
    }

    pub fn encode(&self) -> (bytes: Vec<u8>)
        ensures
            bytes@ == self.spec_encode(),
            bytes@.len() <= 1,
    {
        let bytes: Vec<u8> = match sub_opcode(self.destination.kind, self.source.kind) {
            Some(opcode) => vec![opcode],
            None => Vec::new(),
        };
        assert(bytes@ =~= self.spec_encode());
        bytes
    }

    pub open spec fn spec_span(self) -> TextSpan {
        self.mnemonic.span.spec_cover(self.source.span)
    }

    pub fn span(&self) -> (span: TextSpan)
        ensures
            span == self.spec_span(),
    {
        self.mnemonic.span.cover(self.source.span)
    }
}

/// `SUBB destination, source`.
#[derive(Debug, Clone, Copy, PartialEq, Eq, Structural)]
pub struct SubbInstruction {
    pub mnemonic: Mnemonic,
    pub destination: Register,
    pub comma: Punctuation,
    pub source: Register,
}

impl SubbInstruction {
    /// The byte of the instruction; none for operands that SUBB does not take.
    pub open spec fn spec_encode(self) -> Seq<u8> {
        match spec_subb_opcode(self.destination.kind, self.source.kind) {
            Some(opcode) => seq![opcode],
            None => Seq::empty(),
        }
    }

    /// The number of bytes that the instruction takes up.
    pub open spec fn spec_emit_size(self) -> u16 {
        self.spec_encode().len() as u16
    }

    /// The instruction, if SUBB takes the operands.
    pub open spec fn spec_new(
        mnemonic: Mnemonic,
        destination: Register,
        comma: Punctuation,
        source: Register,
    ) -> Option<SubbInstruction> {
        let inst = SubbInstruction { mnemonic, destination, comma, source };
        if inst.spec_encode().len() > 0 {
            Some(inst)
        } else {
            None
        }
    }

    pub fn new(mnemonic: Mnemonic, destination: Register, comma: Punctuation, source: Register) -> (r:
        Option<Self>)
        ensures
            r == Self::spec_new(mnemonic, destination, comma, source),
    {
        let inst = SubbInstruction { mnemonic, destination, comma, source };
        if inst.encode().len() > 0 {
            Some(inst)
        } else {
            None
        }
    }

    pub fn emit_size(&self) -> (size: u16)
        ensures
            size == self.spec_emit_size(),
            size <= 1,
    {
        self.encode().len() as u16
    }

    pub fn encode(&self) -> (bytes: Vec<u8>)
        ensures
            bytes@ == self.spec_encode(),
            bytes@.len() <= 1,
    {
        let bytes: Vec<u8> = match subb_opcode(self.destination.kind, self.source.kind) {
            Some(opcode) => vec![opcode],
            None => Vec::new(),
        };
        assert(bytes@ =~= self.spec_encode());
        bytes
    }

    pub open spec fn spec_span(self) -> TextSpan {
        self.mnemonic.span.spec_cover(self.source.span)
    }

    pub fn span(&self) -> (span: TextSpan)
        ensures
            span == self.spec_span(),
    {
        self.mnemonic.span.cover(self.source.span)
    }
}

/// `AND destination, source`.
#[derive(Debug, Clone, Copy, PartialEq, Eq, Structural)]
pub struct AndInstruction {
    pub mnemonic: Mnemonic,
    pub destination: Register,
    pub comma: Punctuation,
    pub source: Register,
}

impl AndInstruction {
    /// The byte of the instruction; none for operands that AND does not take.
    pub open spec fn spec_encode(self) -> Seq<u8> {
        match spec_and_opcode(self.destination.kind, self.source.kind) {
            Some(opcode) => seq![opcode],
            None => Seq::empty(),
        }
    }

    /// The number of bytes that the instruction takes up.
    pub open spec fn spec_emit_size(self) -> u16 {
        self.spec_encode().len() as u16
    }

    /// The instruction, if AND takes the operands.
    pub open spec fn spec_new(
        mnemonic: Mnemonic,
        destination: Register,
        comma: Punctuation,
        source: Register,
    ) -> Option<AndInstruction> {
        let inst = AndInstruction { mnemonic, destination, comma, source };
        if inst.spec_encode().len() > 0 {
            Some(inst)
        } else {
            None
        }
    }

    pub fn new(mnemonic: Mnemonic, destination: Register, comma: Punctuation, source: Register) -> (r:
        Option<Self>)
        ensures
            r == Self::spec_new(mnemonic, destination, comma, source),
    {
        let inst = AndInstruction { mnemonic, destination, comma, source };
        if inst.encode().len() > 0 {
            Some(inst)
        } else {
            None
        }
    }

    pub fn emit_size(&self) -> (size: u16)
        ensures
            size == self.spec_emit_size(),
            size <= 1,
    {
        self.encode().len() as u16
    }

    pub fn encode(&self) -> (bytes: Vec<u8>)
        ensures
            bytes@ == self.spec_encode(),
            bytes@.len() <= 1,
    {
        let bytes: Vec<u8> = match and_opcode(self.destination.kind, self.source.kind) {
            Some(opcode) => vec![opcode],
            None => Vec::new(),
        };
        assert(bytes@ =~= self.spec_encode());
        bytes
    }

    pub open spec fn spec_span(self) -> TextSpan {
        self.mnemonic.span.spec_cover(self.source.span)
    }

    pub fn span(&self) -> (span: TextSpan)
        ensures
            span == self.spec_span(),
    {
        self.mnemonic.span.cover(self.source.span)
    }
}

/// `OR destination, source`.
#[derive(Debug, Clone, Copy, PartialEq, Eq, Structural)]
pub struct OrInstruction {
    pub mnemonic: Mnemonic,
    pub destination: Register,
    pub comma: Punctuation,
    pub source: Register,
}

impl OrInstruction {
    /// The byte of the instruction; none for operands that OR does not take.
    pub open spec fn spec_encode(self) -> Seq<u8> {
        match spec_or_opcode(self.destination.kind, self.source.kind) {
            Some(opcode) => seq![opcode],
            None => Seq::empty(),
        }
    }

    /// The number of bytes that the instruction takes up.
    pub open spec fn spec_emit_size(self) -> u16 {
        self.spec_encode().len() as u16
    }

    /// The instruction, if OR takes the operands.
    pub open spec fn spec_new(
        mnemonic: Mnemonic,
        destination: Register,
        comma: Punctuation,
        source: Register,
    ) -> Option<OrInstruction> {
        let inst = OrInstruction { mnemonic, destination, comma, source };
        if inst.spec_encode().len() > 0 {
            Some(inst)
        } else {
            None
        }
    }

    pub fn new(mnemonic: Mnemonic, destination: Register, comma: Punctuation, source: Register) -> (r:
        Option<Self>)
        ensures
            r == Self::spec_new(mnemonic, destination, comma, source),
    {
        let inst = OrInstruction { mnemonic, destination, comma, source };
        if inst.encode().len() > 0 {
            Some(inst)
        } else {
            None
        }
    }

    pub fn emit_size(&self) -> (size: u16)
        ensures
            size == self.spec_emit_size(),
            size <= 1,
    {
        self.encode().len() as u16
    }

    pub fn encode(&self) -> (bytes: Vec<u8>)
        ensures
            bytes@ == self.spec_encode(),
            bytes@.len() <= 1,
    {
        let bytes: Vec<u8> = match or_opcode(self.destination.kind, self.source.kind) {
            Some(opcode) => vec![opcode],
            None => Vec::new(),
        };
        assert(bytes@ =~= self.spec_encode());
        bytes
    }

    pub open spec fn spec_span(self) -> TextSpan {
        self.mnemonic.span.spec_cover(self.source.span)
    }

    pub fn span(&self) -> (span: TextSpan)
        ensures
            span == self.spec_span(),
    {
        self.mnemonic.span.cover(self.source.span)
    }
}

/// `XOR destination, source`.
#[derive(Debug, Clone, Copy, PartialEq, Eq, Structural)]
pub struct XorInstruction {
    pub mnemonic: Mnemonic,
    pub destination: Register,
    pub comma: Punctuation,
    pub source: Register,
}

impl XorInstruction {
    /// The byte of the instruction; none for operands that XOR does not take.
    pub open spec fn spec_encode(self) -> Seq<u8> {
        match spec_xor_opcode(self.destination.kind, self.source.kind) {
            Some(opcode) => seq![opcode],
            None => Seq::empty(),
        }
    }

    /// The number of bytes that the instruction takes up.
    pub open spec fn spec_emit_size(self) -> u16 {
        self.spec_encode().len() as u16
    }

    /// The instruction, if XOR takes the operands.
    pub open spec fn spec_new(
        mnemonic: Mnemonic,
        destination: Register,
        comma: Punctuation,
        source: Register,
    ) -> Option<XorInstruction> {
        let inst = XorInstruction { mnemonic, destination, comma, source };
        if inst.spec_encode().len() > 0 {
            Some(inst)
        } else {
            None
        }
    }

    pub fn new(mnemonic: Mnemonic, destination: Register, comma: Punctuation, source: Register) -> (r:
        Option<Self>)
        ensures
            r == Self::spec_new(mnemonic, destination, comma, source),
    {
        let inst = XorInstruction { mnemonic, destination, comma, source };
        if inst.encode().len() > 0 {
            Some(inst)
        } else {
            None
        }
    }

    pub fn emit_size(&self) -> (size: u16)
        ensures
            size == self.spec_emit_size(),
            size <= 1,
    {
        self.encode().len() as u16
    }

    pub fn encode(&self) -> (bytes: Vec<u8>)
        ensures
            bytes@ == self.spec_encode(),
            bytes@.len() <= 1,
    {
        let bytes: Vec<u8> = match xor_opcode(self.destination.kind, self.source.kind) {
            Some(opcode) => vec![opcode],
            None => Vec::new(),
        };
        assert(bytes@ =~= self.spec_encode());
        bytes
    }

    pub open spec fn spec_span(self) -> TextSpan {
        self.mnemonic.span.spec_cover(self.source.span)
    }

    pub fn span(&self) -> (span: TextSpan)
        ensures
            span == self.spec_span(),
    {
        self.mnemonic.span.cover(self.source.span)
    }
}

/// `CMP destination, source`.
#[derive(Debug, Clone, Copy, PartialEq, Eq, Structural)]
pub struct CmpInstruction {
    pub mnemonic: Mnemonic,
    pub destination: Register,
    pub comma: Punctuation,
    pub source: Register,
}

impl CmpInstruction {
    /// The byte of the instruction; none for operands that CMP does not take.
    pub open spec fn spec_encode(self) -> Seq<u8> {
        match spec_cmp_opcode(self.destination.kind, self.source.kind) {
            Some(opcode) => seq![opcode],
            None => Seq::empty(),
        }
    }

    /// The number of bytes that the instruction takes up.
    pub open spec fn spec_emit_size(self) -> u16 {
        self.spec_encode().len() as u16
    }

    /// The instruction, if CMP takes the operands.
    pub open spec fn spec_new(
        mnemonic: Mnemonic,
        destination: Register,
        comma: Punctuation,
        source: Register,
    ) -> Option<CmpInstruction> {
        let inst = CmpInstruction { mnemonic, destination, comma, source };
        if inst.spec_encode().len() > 0 {
            Some(inst)
        } else {
            None
        }
    }

    pub fn new(mnemonic: Mnemonic, destination: Register, comma: Punctuation, source: Register) -> (r:
        Option<Self>)
        ensures
            r == Self::spec_new(mnemonic, destination, comma, source),
    {
        let inst = CmpInstruction { mnemonic, destination, comma, source };
        if inst.encode().len() > 0 {
            Some(inst)
        } else {
            None
        }
    }

    pub fn emit_size(&self) -> (size: u16)
        ensures
            size == self.spec_emit_size(),
            size <= 1,
    {
        self.encode().len() as u16
    }

    pub fn encode(&self) -> (bytes: Vec<u8>)
        ensures
            bytes@ == self.spec_encode(),
            bytes@.len() <= 1,
    {
        let bytes: Vec<u8> = match cmp_opcode(self.destination.kind, self.source.kind) {
            Some(opcode) => vec![opcode],
            None => Vec::new(),
        };
        assert(bytes@ =~= self.spec_encode());
        bytes
    }

    pub open spec fn spec_span(self) -> TextSpan {
        self.mnemonic.span.spec_cover(self.source.span)
    }

    pub fn span(&self) -> (span: TextSpan)
        ensures
            span == self.spec_span(),
    {
        self.mnemonic.span.cover(self.source.span)
    }
}

/// `ADDAC destination, source`.
#[derive(Debug, Clone, Copy, PartialEq, Eq, Structural)]
pub struct AddacInstruction {
    pub mnemonic: Mnemonic,
    pub destination: Register,
    pub comma: Punctuation,
    pub source: Register,
}

impl AddacInstruction {
    /// The byte of the instruction; none for operands that ADDAC does not take.
    pub open spec fn spec_encode(self) -> Seq<u8> {
        match spec_addac_opcode(self.destination.kind, self.source.kind) {
            Some(opcode) => seq![opcode],
            None => Seq::empty(),
        }
    }

    /// The number of bytes that the instruction takes up.
    pub open spec fn spec_emit_size(self) -> u16 {
        self.spec_encode().len() as u16
    }

    /// The instruction, if ADDAC takes the operands.
    pub open spec fn spec_new(
        mnemonic: Mnemonic,
        destination: Register,
        comma: Punctuation,
        source: Register,
    ) -> Option<AddacInstruction> {
        let inst = AddacInstruction { mnemonic, destination, comma, source };
        if inst.spec_encode().len() > 0 {
            Some(inst)
        } else {
            None
        }
    }

    pub fn new(mnemonic: Mnemonic, destination: Register, comma: Punctuation, source: Register) -> (r:
        Option<Self>)
        ensures
            r == Self::spec_new(mnemonic, destination, comma, source),
    {
        let inst = AddacInstruction { mnemonic, destination, comma, source };
        if inst.encode().len() > 0 {
            Some(inst)
        } else {
            None
        }
    }

    pub fn emit_size(&self) -> (size: u16)
        ensures
            size == self.spec_emit_size(),
            size <= 1,
    {
        self.encode().len() as u16
    }

    pub fn encode(&self) -> (bytes: Vec<u8>)
        ensures
            bytes@ == self.spec_encode(),
            bytes@.len() <= 1,
    {
        let bytes: Vec<u8> = match addac_opcode(self.destination.kind, self.source.kind) {
            Some(opcode) => vec![opcode],
            None => Vec::new(),
        };
        assert(bytes@ =~= self.spec_encode());
        bytes
    }

    pub open spec fn spec_span(self) -> TextSpan {
        self.mnemonic.span.spec_cover(self.source.span)
    }

    pub fn span(&self) -> (span: TextSpan)
        ensures
            span == self.spec_span(),
    {
        self.mnemonic.span.cover(self.source.span)
    }
}

/// `SUBAE destination, source`.
#[derive(Debug, Clone, Copy, PartialEq, Eq, Structural)]
pub struct SubaeInstruction {
    pub mnemonic: Mnemonic,
    pub destination: Register,
    pub comma: Punctuation,
    pub source: Register,
}

impl SubaeInstruction {
    /// The byte of the instruction; none for operands that SUBAE does not take.
    pub open spec fn spec_encode(self) -> Seq<u8> {
        match spec_subae_opcode(self.destination.kind, self.source.kind) {
            Some(opcode) => seq![opcode],
            None => Seq::empty(),
        }
    }

    /// The number of bytes that the instruction takes up.
    pub open spec fn spec_emit_size(self) -> u16 {
        self.spec_encode().len() as u16
    }

    /// The instruction, if SUBAE takes the operands.
    pub open spec fn spec_new(
        mnemonic: Mnemonic,
        destination: Register,
        comma: Punctuation,
        source: Register,
    ) -> Option<SubaeInstruction> {
        let inst = SubaeInstruction { mnemonic, destination, comma, source };
        if inst.spec_encode().len() > 0 {
            Some(inst)
        } else {
            None
        }
    }

    pub fn new(mnemonic: Mnemonic, destination: Register, comma: Punctuation, source: Register) -> (r:
        Option<Self>)
        ensures
            r == Self::spec_new(mnemonic, destination, comma, source),
    {
        let inst = SubaeInstruction { mnemonic, destination, comma, source };
        if inst.encode().len() > 0 {
            Some(inst)
        } else {
            None
        }
    }

    pub fn emit_size(&self) -> (size: u16)
        ensures
            size == self.spec_emit_size(),
            size <= 1,
    {
        self.encode().len() as u16
    }

    pub fn encode(&self) -> (bytes: Vec<u8>)
        ensures
            bytes@ == self.spec_encode(),
            bytes@.len() <= 1,
    {
        let bytes: Vec<u8> = match subae_opcode(self.destination.kind, self.source.kind) {
            Some(opcode) => vec![opcode],
            None => Vec::new(),
        };
        assert(bytes@ =~= self.spec_encode());
        bytes
    }

    pub open spec fn spec_span(self) -> TextSpan {
        self.mnemonic.span.spec_cover(self.source.span)
    }

    pub fn span(&self) -> (span: TextSpan)
        ensures
            span == self.spec_span(),
    {
        self.mnemonic.span.cover(self.source.span)
    }
}

/// The opcode of `IN destination, port`: only A takes the value.
pub open spec fn spec_in_instruction_opcode(destination: RegisterKind, port: IoRegisterKind) -> Option<
    u8,
> {
    if destination == RegisterKind::A {
        spec_in_opcode(port)
    } else {
        None
    }
}

#[verifier::when_used_as_spec(spec_in_instruction_opcode)]
pub fn in_instruction_opcode(destination: RegisterKind, port: IoRegisterKind) -> (r: Option<u8>)
    ensures
        r == spec_in_instruction_opcode(destination, port),
{
    match destination {
        RegisterKind::A => in_opcode(port),
        _ => None,
    }
}

/// The opcode of `OUT port, source`: only A gives the value.
pub open spec fn spec_out_instruction_opcode(port: IoRegisterKind, source: RegisterKind) -> Option<
    u8,
> {
    if source == RegisterKind::A {
        spec_out_opcode(port)
    } else {
        None
    }
}

#[verifier::when_used_as_spec(spec_out_instruction_opcode)]
pub fn out_instruction_opcode(port: IoRegisterKind, source: RegisterKind) -> (r: Option<u8>)
    ensures
        r == spec_out_instruction_opcode(port, source),
{
    match source {
        RegisterKind::A => out_opcode(port),
        _ => None,
    }
}

/// `IN A, port`: reads an I/O port.
#[derive(Debug, Clone, Copy, PartialEq, Eq, Structural)]
pub struct InInstruction {
    pub mnemonic: Mnemonic,
    pub destination: Register,
    pub comma: Punctuation,
    pub source: IoRegister,
}

impl InInstruction {
    /// The byte of the instruction; none for operands that IN does not take.
    pub open spec fn spec_encode(self) -> Seq<u8> {
        match spec_in_instruction_opcode(self.destination.kind, self.source.kind) {
            Some(opcode) => seq![opcode],
            None => Seq::empty(),
        }
    }

    /// The number of bytes that the instruction takes up.
    pub open spec fn spec_emit_size(self) -> u16 {
        self.spec_encode().len() as u16
    }

    /// The instruction, if IN takes the operands.
    pub open spec fn spec_new(
        mnemonic: Mnemonic,
        destination: Register,
        comma: Punctuation,
        source: IoRegister,
    ) -> Option<InInstruction> {
        let inst = InInstruction { mnemonic, destination, comma, source };
        if inst.spec_encode().len() > 0 {
            Some(inst)
        } else {
            None
        }
    }

    pub fn new(mnemonic: Mnemonic, destination: Register, comma: Punctuation, source: IoRegister) -> (r:
        Option<Self>)
        ensures
            r == Self::spec_new(mnemonic, destination, comma, source),
    {
        let inst = InInstruction { mnemonic, destination, comma, source };
        if inst.encode().len() > 0 {
            Some(inst)
        } else {
            None
        }
    }

    pub fn emit_size(&self) -> (size: u16)
        ensures
            size == self.spec_emit_size(),
            size <= 1,
    {
        self.encode().len() as u16
    }

    pub fn encode(&self) -> (bytes: Vec<u8>)
        ensures
            bytes@ == self.spec_encode(),
            bytes@.len() <= 1,
    {
        let bytes: Vec<u8> = match in_instruction_opcode(self.destination.kind, self.source.kind) {
            Some(opcode) => vec![opcode],
            None => Vec::new(),
        };
        assert(bytes@ =~= self.spec_encode());
        bytes
    }

    pub open spec fn spec_span(self) -> TextSpan {
        self.mnemonic.span.spec_cover(self.source.span)
    }

    pub fn span(&self) -> (span: TextSpan)
        ensures
            span == self.spec_span(),
    {
        self.mnemonic.span.cover(self.source.span)
    }
}

/// `OUT port, A`: writes an I/O port.
#[derive(Debug, Clone, Copy, PartialEq, Eq, Structural)]
pub struct OutInstruction {
    pub mnemonic: Mnemonic,
    pub destination: IoRegister,
    pub comma: Punctuation,
    pub source: Register,
}

impl OutInstruction {
    /// The byte of the instruction; none for operands that OUT does not take.
    pub open spec fn spec_encode(self) -> Seq<u8> {
        match spec_out_instruction_opcode(self.destination.kind, self.source.kind) {
            Some(opcode) => seq![opcode],
            None => Seq::empty(),
        }
    }

    /// The number of bytes that the instruction takes up.
    pub open spec fn spec_emit_size(self) -> u16 {
        self.spec_encode().len() as u16
    }

    /// The instruction, if OUT takes the operands.
    pub open spec fn spec_new(
        mnemonic: Mnemonic,
        destination: IoRegister,
        comma: Punctuation,
        source: Register,
    ) -> Option<OutInstruction> {
        let inst = OutInstruction { mnemonic, destination, comma, source };
        if inst.spec_encode().len() > 0 {
            Some(inst)
        } else {
            None
        }
    }

    pub fn new(mnemonic: Mnemonic, destination: IoRegister, comma: Punctuation, source: Register) -> (r:
        Option<Self>)
        ensures
            r == Self::spec_new(mnemonic, destination, comma, source),
    {
        let inst = OutInstruction { mnemonic, destination, comma, source };
        if inst.encode().len() > 0 {
            Some(inst)
        } else {
            None
        }
    }

    pub fn emit_size(&self) -> (size: u16)
        ensures
            size == self.spec_emit_size(),
            size <= 1,
    {
        self.encode().len() as u16
    }

    pub fn encode(&self) -> (bytes: Vec<u8>)
        ensures
            bytes@ == self.spec_encode(),
            bytes@.len() <= 1,
    {
        let bytes: Vec<u8> = match out_instruction_opcode(self.destination.kind, self.source.kind) {
            Some(opcode) => vec![opcode],
            None => Vec::new(),
        };
        assert(bytes@ =~= self.spec_encode());
        bytes
    }

    pub open spec fn spec_span(self) -> TextSpan {
        self.mnemonic.span.spec_cover(self.source.span)
    }

    pub fn span(&self) -> (span: TextSpan)
        ensures
            span == self.spec_span(),
    {
        self.mnemonic.span.cover(self.source.span)
    }
}

/// `CALL target`: the call and the two NOPs that fill its delay slots.
#[derive(Debug)]
pub struct CallInstruction {
    pub mnemonic: Mnemonic,
    pub target: JumpTarget,
}

impl CallInstruction {
    /// The bytes of the instruction, given the value of its target
    /// expression. A target that CALL does not take gives no bytes.
    pub open spec fn spec_encode(self, value: i64) -> Seq<u8> {
        match self.target {
            JumpTarget::Value(_) => spec_load_transfer(value).push(0x5C).push(0x00).push(0x00),
            JumpTarget::Register(target) => match target.kind {
                RegisterKind::TX => seq![0x5Cu8, 0x00u8, 0x00u8],
                RegisterKind::DI => seq![0x5Du8, 0x00u8, 0x00u8],
                _ => Seq::empty(),
            },
        }
    }

    /// The number of bytes that the instruction takes up; 0 for a target
    /// that CALL does not take.
    pub open spec fn spec_emit_size(self) -> u16 {
        match self.target {
            JumpTarget::Value(_) => 7,
            JumpTarget::Register(target) => match target.kind {
                RegisterKind::TX => 3,
                RegisterKind::DI => 3,
                _ => 0,
            },
        }
    }

    /// The instruction, if CALL takes the target.
    pub open spec fn spec_new(mnemonic: Mnemonic, target: JumpTarget) -> Option<CallInstruction> {
        let inst = CallInstruction { mnemonic, target };
        if inst.spec_emit_size() > 0 {
            Some(inst)
        } else {
            None
        }
    }

    pub fn new(mnemonic: Mnemonic, target: JumpTarget) -> (r: Option<Self>)
        ensures
            r == Self::spec_new(mnemonic, target),
            r.is_some() ==> 1 <= r.unwrap().spec_emit_size() <= 7,
    {
        let inst = CallInstruction { mnemonic, target };
        if inst.emit_size() > 0 {
            Some(inst)
        } else {
            None
        }
    }

    pub fn emit_size(&self) -> (size: u16)
        ensures
            size == self.spec_emit_size(),
            size <= 7,
    {
        self.encode(0).len() as u16
    }

    pub fn encode(&self, value: i64) -> (bytes: Vec<u8>)
        ensures
            bytes@ == self.spec_encode(value),
            bytes@.len() == self.spec_emit_size(),
    {
        let bytes: Vec<u8> = match &self.target {
            JumpTarget::Value(_) => {
                let mut bytes = load_transfer(value);
                bytes.push(0x5C);
                bytes.push(0x00);
                bytes.push(0x00);
                bytes
            },
            JumpTarget::Register(target) => match target.kind {
                RegisterKind::TX => vec![0x5Cu8, 0x00u8, 0x00u8],
                RegisterKind::DI => vec![0x5Du8, 0x00u8, 0x00u8],
                _ => Vec::new(),
            },
        };
        assert(bytes@ =~= self.spec_encode(value));
        bytes
    }

    pub open spec fn spec_span(self) -> TextSpan {
        self.mnemonic.span.spec_cover(self.target.spec_span())
    }

    pub fn span(&self) -> (span: TextSpan)
        ensures
            span == self.spec_span(),
    {
        self.mnemonic.span.cover(self.target.span())
    }
}

/// `CALLBD target`: the bare call; the program fills the delay slots.
#[derive(Debug)]
pub struct CallBdInstruction {
    pub mnemonic: Mnemonic,
    pub target: JumpTarget,
}

impl CallBdInstruction {
    /// The bytes of the instruction, given the value of its target
    /// expression. A target that CALLBD does not take gives no bytes.
    pub open spec fn spec_encode(self, value: i64) -> Seq<u8> {
        match self.target {
            JumpTarget::Value(_) => spec_load_transfer(value).push(0x5C),
            JumpTarget::Register(target) => match target.kind {
                RegisterKind::TX => seq![0x5Cu8],
                RegisterKind::DI => seq![0x5Du8],
                _ => Seq::empty(),
            },
        }
    }

    /// The number of bytes that the instruction takes up; 0 for a target
    /// that CALLBD does not take.
    pub open spec fn spec_emit_size(self) -> u16 {
        match self.target {
            JumpTarget::Value(_) => 5,
            JumpTarget::Register(target) => match target.kind {
                RegisterKind::TX => 1,
                RegisterKind::DI => 1,
                _ => 0,
            },
        }
    }

    /// The instruction, if CALLBD takes the target.
    pub open spec fn spec_new(mnemonic: Mnemonic, target: JumpTarget) -> Option<CallBdInstruction> {
        let inst = CallBdInstruction { mnemonic, target };
        if inst.spec_emit_size() > 0 {
            Some(inst)
        } else {
            None
        }
    }

    pub fn new(mnemonic: Mnemonic, target: JumpTarget) -> (r: Option<Self>)
        ensures
            r == Self::spec_new(mnemonic, target),
            r.is_some() ==> 1 <= r.unwrap().spec_emit_size() <= 7,
    {
        let inst = CallBdInstruction { mnemonic, target };
        if inst.emit_size() > 0 {
            Some(inst)
        } else {
            None
        }
    }

    pub fn emit_size(&self) -> (size: u16)
        ensures
            size == self.spec_emit_size(),
            size <= 7,
    {
        self.encode(0).len() as u16
    }

    pub fn encode(&self, value: i64) -> (bytes: Vec<u8>)
        ensures
            bytes@ == self.spec_encode(value),
            bytes@.len() == self.spec_emit_size(),
    {
        let bytes: Vec<u8> = match &self.target {
            JumpTarget::Value(_) => {
                let mut bytes = load_transfer(value);
                bytes.push(0x5C);
                bytes
            },
            JumpTarget::Register(target) => match target.kind {
                RegisterKind::TX => vec![0x5Cu8],
                RegisterKind::DI => vec![0x5Du8],
                _ => Vec::new(),
            },
        };
        assert(bytes@ =~= self.spec_encode(value));
        bytes
    }

    pub open spec fn spec_span(self) -> TextSpan {
        self.mnemonic.span.spec_cover(self.target.spec_span())
    }

    pub fn span(&self) -> (span: TextSpan)
        ensures
            span == self.spec_span(),
    {
        self.mnemonic.span.cover(self.target.span())
    }
}

/// `JMP target`: a prebranch and the jump.
#[derive(Debug)]
pub struct JmpInstruction {
    pub mnemonic: Mnemonic,
    pub target: JumpTarget,
}

impl JmpInstruction {
    /// The bytes of the instruction, given the value of its target
    /// expression. A target that JMP does not take gives no bytes.
    pub open spec fn spec_encode(self, value: i64) -> Seq<u8> {
        match self.target {
            JumpTarget::Value(_) => spec_load_transfer(value).push(0x5F).push(0x60),
            JumpTarget::Register(target) => match target.kind {
                RegisterKind::TX => seq![0x5Fu8, 0x60u8],
                RegisterKind::DI => seq![0x5Fu8, 0x71u8],
                _ => Seq::empty(),
            },
        }
    }

    /// The number of bytes that the instruction takes up; 0 for a target
    /// that JMP does not take.
    pub open spec fn spec_emit_size(self) -> u16 {
        match self.target {
            JumpTarget::Value(_) => 6,
            JumpTarget::Register(target) => match target.kind {
                RegisterKind::TX => 2,
                RegisterKind::DI => 2,
                _ => 0,
            },
        }
    }

    /// The instruction, if JMP takes the target.
    pub open spec fn spec_new(mnemonic: Mnemonic, target: JumpTarget) -> Option<JmpInstruction> {
        let inst = JmpInstruction { mnemonic, target };
        if inst.spec_emit_size() > 0 {
            Some(inst)
        } else {
            None
        }
    }

    pub fn new(mnemonic: Mnemonic, target: JumpTarget) -> (r: Option<Self>)
        ensures
            r == Self::spec_new(mnemonic, target),
            r.is_some() ==> 1 <= r.unwrap().spec_emit_size() <= 7,
    {
        let inst = JmpInstruction { mnemonic, target };
        if inst.emit_size() > 0 {
            Some(inst)
        } else {
            None
        }
    }

    pub fn emit_size(&self) -> (size: u16)
        ensures
            size == self.spec_emit_size(),
            size <= 7,
    {
        self.encode(0).len() as u16
    }

    pub fn encode(&self, value: i64) -> (bytes: Vec<u8>)
        ensures
            bytes@ == self.spec_encode(value),
            bytes@.len() == self.spec_emit_size(),
    {
        let bytes: Vec<u8> = match &self.target {
            JumpTarget::Value(_) => {
                let mut bytes = load_transfer(value);
                bytes.push(0x5F);
                bytes.push(0x60);
                bytes
            },
            JumpTarget::Register(target) => match target.kind {
                RegisterKind::TX => vec![0x5Fu8, 0x60u8],
                RegisterKind::DI => vec![0x5Fu8, 0x71u8],
                _ => Vec::new(),
            },
        };
        assert(bytes@ =~= self.spec_encode(value));
        bytes
    }

    pub open spec fn spec_span(self) -> TextSpan {
        self.mnemonic.span.spec_cover(self.target.spec_span())
    }

    pub fn span(&self) -> (span: TextSpan)
        ensures
            span == self.spec_span(),
    {
        self.mnemonic.span.cover(self.target.span())
    }
}

/// A conditional jump: a prebranch and the jump that the mnemonic names.
#[derive(Debug)]
pub struct BranchInstruction {
    pub mnemonic: Mnemonic,
    pub target: JumpTarget,
}

impl BranchInstruction {
    /// The bytes of the instruction, given the value of its target
    /// expression. A target that a conditional jump does not take gives no bytes.
    pub open spec fn spec_encode(self, value: i64) -> Seq<u8> {
        match spec_branch_opcode(self.mnemonic.kind) {
            None => Seq::empty(),
            Some(opcode) => match self.target {
                JumpTarget::Value(_) => spec_load_transfer(value).push(0x5F).push(opcode),
                JumpTarget::Register(target) => match target.kind {
                    RegisterKind::TX => seq![0x5Fu8, opcode],
                    _ => Seq::empty(),
                },
            },
        }
    }

    /// The number of bytes that the instruction takes up; 0 for a target
    /// that a conditional jump does not take.
    pub open spec fn spec_emit_size(self) -> u16 {
        match spec_branch_opcode(self.mnemonic.kind) {
            None => 0,
            Some(_) => match self.target {
                JumpTarget::Value(_) => 6,
                JumpTarget::Register(target) => match target.kind {
                    RegisterKind::TX => 2,
                    _ => 0,
                },
            },
        }
    }

    /// The instruction, if a conditional jump takes the target.
    pub open spec fn spec_new(mnemonic: Mnemonic, target: JumpTarget) -> Option<BranchInstruction> {
        let inst = BranchInstruction { mnemonic, target };
        if inst.spec_emit_size() > 0 {
            Some(inst)
        } else {
            None
        }
    }

    pub fn new(mnemonic: Mnemonic, target: JumpTarget) -> (r: Option<Self>)
        ensures
            r == Self::spec_new(mnemonic, target),
            r.is_some() ==> 1 <= r.unwrap().spec_emit_size() <= 7,
    {
        let inst = BranchInstruction { mnemonic, target };
        if inst.emit_size() > 0 {
            Some(inst)
        } else {
            None
        }
    }

    pub fn emit_size(&self) -> (size: u16)
        ensures
            size == self.spec_emit_size(),
            size <= 7,
    {
        self.encode(0).len() as u16
    }

    pub fn encode(&self, value: i64) -> (bytes: Vec<u8>)
        ensures
            bytes@ == self.spec_encode(value),
            bytes@.len() == self.spec_emit_size(),
    {
        let bytes: Vec<u8> = match branch_opcode(self.mnemonic.kind) {
            None => Vec::new(),
            Some(opcode) => match &self.target {
                JumpTarget::Value(_) => {
                    let mut bytes = load_transfer(value);
                    bytes.push(0x5F);
                    bytes.push(opcode);
                    bytes
                },
                JumpTarget::Register(target) => match target.kind {
                    RegisterKind::TX => vec![0x5Fu8, opcode],
                    _ => Vec::new(),
                },
            },
        };
        assert(bytes@ =~= self.spec_encode(value));
        bytes
    }

    pub open spec fn spec_span(self) -> TextSpan {
        self.mnemonic.span.spec_cover(self.target.spec_span())
    }

    pub fn span(&self) -> (span: TextSpan)
        ensures
            span == self.spec_span(),
    {
        self.mnemonic.span.cover(self.target.span())
    }
}

/// One instruction.
#[derive(Debug)]
pub enum Instruction {
    Nop(Mnemonic),
    Break(Mnemonic),
    Lodsb(Mnemonic),
    Stosb(Mnemonic),
    Ret(Mnemonic),
    RetBd(Mnemonic),
    Clc(Mnemonic),
    Mov(MovInstruction),
    Inc(IncInstruction),
    Incc(InccInstruction),
    Dec(DecInstruction),
    Push(PushInstruction),
    Pop(PopInstruction),
    Shl(ShlInstruction),
    Shr(ShrInstruction),
    Not(NotInstruction),
    Test(TestInstruction),
    Add(AddInstruction),
    Addc(AddcInstruction),
    Sub(SubInstruction),
    Subb(SubbInstruction),
    And(AndInstruction),
    Or(OrInstruction),
    Xor(XorInstruction),
    Cmp(CmpInstruction),
    Addac(AddacInstruction),
    Subae(SubaeInstruction),
    Call(CallInstruction),
    CallBd(CallBdInstruction),
    Jmp(JmpInstruction),
    Branch(BranchInstruction),
    In(InInstruction),
    Out(OutInstruction),
}

impl Instruction {
    /// The expression whose value the instruction assembles into its
    /// bytes, if it has one.
    pub open spec fn spec_operand(self) -> Option<Expression> {
        match self {
            Instruction::Mov(inst) => match inst.source {
                MovSource::Value(value) => Some(value),
                _ => None,
            },
            Instruction::Call(inst) => match inst.target {
                JumpTarget::Value(value) => Some(value),
                _ => None,
            },
            Instruction::CallBd(inst) => match inst.target {
                JumpTarget::Value(value) => Some(value),
                _ => None,
            },
            Instruction::Jmp(inst) => match inst.target {
                JumpTarget::Value(value) => Some(value),
                _ => None,
            },
            Instruction::Branch(inst) => match inst.target {
                JumpTarget::Value(value) => Some(value),
                _ => None,
            },
            _ => None,
        }
    }

    pub fn operand(&self) -> (r: Option<&Expression>)
        ensures
            match self.spec_operand() {
                Some(value) => r.is_some() && *r.unwrap() == value,
                None => r.is_none(),
            },
    {
        match self {
            Instruction::Mov(inst) => match &inst.source {
                MovSource::Value(value) => Some(value),
                _ => None,
            },
            Instruction::Call(inst) => match &inst.target {
                JumpTarget::Value(value) => Some(value),
                _ => None,
            },
            Instruction::CallBd(inst) => match &inst.target {
                JumpTarget::Value(value) => Some(value),
                _ => None,
            },
            Instruction::Jmp(inst) => match &inst.target {
                JumpTarget::Value(value) => Some(value),
                _ => None,
            },
            Instruction::Branch(inst) => match &inst.target {
                JumpTarget::Value(value) => Some(value),
                _ => None,
            },
            _ => None,
        }
    }

    /// The number of bytes that the instruction takes up. It depends on
    /// the operands' shapes alone, never on a value.
    pub open spec fn spec_emit_size(self) -> u16 {
        match self {
            Instruction::Nop(_) => 1,
            Instruction::Break(_) => 4,
            Instruction::Lodsb(_) => 1,
            Instruction::Stosb(_) => 1,
            Instruction::Ret(_) => 3,
            Instruction::RetBd(_) => 1,
            Instruction::Clc(_) => 1,
            Instruction::Mov(inst) => inst.spec_emit_size(),
            Instruction::Inc(inst) => inst.spec_emit_size(),
            Instruction::Incc(inst) => inst.spec_emit_size(),
            Instruction::Dec(inst) => inst.spec_emit_size(),
            Instruction::Push(inst) => inst.spec_emit_size(),
            Instruction::Pop(inst) => inst.spec_emit_size(),
            Instruction::Shl(inst) => inst.spec_emit_size(),
            Instruction::Shr(inst) => inst.spec_emit_size(),
            Instruction::Not(inst) => inst.spec_emit_size(),
            Instruction::Test(inst) => inst.spec_emit_size(),
            Instruction::Add(inst) => inst.spec_emit_size(),
            Instruction::Addc(inst) => inst.spec_emit_size(),
            Instruction::Sub(inst) => inst.spec_emit_size(),
            Instruction::Subb(inst) => inst.spec_emit_size(),
            Instruction::And(inst) => inst.spec_emit_size(),
            Instruction::Or(inst) => inst.spec_emit_size(),
            Instruction::Xor(inst) => inst.spec_emit_size(),
            Instruction::Cmp(inst) => inst.spec_emit_size(),
            Instruction::Addac(inst) => inst.spec_emit_size(),
            Instruction::Subae(inst) => inst.spec_emit_size(),
            Instruction::Call(inst) => inst.spec_emit_size(),
            Instruction::CallBd(inst) => inst.spec_emit_size(),
            Instruction::Jmp(inst) => inst.spec_emit_size(),
            Instruction::Branch(inst) => inst.spec_emit_size(),
            Instruction::In(inst) => inst.spec_emit_size(),
            Instruction::Out(inst) => inst.spec_emit_size(),
        }
    }

    pub fn emit_size(&self) -> (size: u16)
        ensures
            size == self.spec_emit_size(),
            size <= 7,
    {
        match self {
            Instruction::Nop(_) => 1,
            Instruction::Break(_) => 4,
            Instruction::Lodsb(_) => 1,
            Instruction::Stosb(_) => 1,
            Instruction::Ret(_) => 3,
            Instruction::RetBd(_) => 1,
            Instruction::Clc(_) => 1,
            Instruction::Mov(inst) => inst.emit_size(),
            Instruction::Inc(inst) => inst.emit_size(),
            Instruction::Incc(inst) => inst.emit_size(),
            Instruction::Dec(inst) => inst.emit_size(),
            Instruction::Push(inst) => inst.emit_size(),
            Instruction::Pop(inst) => inst.emit_size(),
            Instruction::Shl(inst) => inst.emit_size(),
            Instruction::Shr(inst) => inst.emit_size(),
            Instruction::Not(inst) => inst.emit_size(),
            Instruction::Test(inst) => inst.emit_size(),
            Instruction::Add(inst) => inst.emit_size(),
            Instruction::Addc(inst) => inst.emit_size(),
            Instruction::Sub(inst) => inst.emit_size(),
            Instruction::Subb(inst) => inst.emit_size(),
            Instruction::And(inst) => inst.emit_size(),
            Instruction::Or(inst) => inst.emit_size(),
            Instruction::Xor(inst) => inst.emit_size(),
            Instruction::Cmp(inst) => inst.emit_size(),
            Instruction::Addac(inst) => inst.emit_size(),
            Instruction::Subae(inst) => inst.emit_size(),
            Instruction::Call(inst) => inst.emit_size(),
            Instruction::CallBd(inst) => inst.emit_size(),
            Instruction::Jmp(inst) => inst.emit_size(),
            Instruction::Branch(inst) => inst.emit_size(),
            Instruction::In(inst) => inst.emit_size(),
            Instruction::Out(inst) => inst.emit_size(),
        }
    }

    /// The bytes of the instruction, given the value of its operand.
    pub open spec fn spec_encode(self, value: i64) -> Seq<u8> {
        match self {
            Instruction::Nop(_) => seq![0x00u8],
            Instruction::Break(_) => seq![0x00u8, 0x3Fu8, 0x00u8, 0x00u8],
            Instruction::Lodsb(_) => seq![0x5Bu8],
            Instruction::Stosb(_) => seq![0x7Eu8],
            Instruction::Ret(_) => seq![0x5Eu8, 0x00u8, 0x00u8],
            Instruction::RetBd(_) => seq![0x5Eu8],
            Instruction::Clc(_) => seq![0x7Fu8],
            Instruction::Mov(inst) => inst.spec_encode(value),
            Instruction::Inc(inst) => inst.spec_encode(),
            Instruction::Incc(inst) => inst.spec_encode(),
            Instruction::Dec(inst) => inst.spec_encode(),
            Instruction::Push(inst) => inst.spec_encode(),
            Instruction::Pop(inst) => inst.spec_encode(),
            Instruction::Shl(inst) => inst.spec_encode(),
            Instruction::Shr(inst) => inst.spec_encode(),
            Instruction::Not(inst) => inst.spec_encode(),
            Instruction::Test(inst) => inst.spec_encode(),
            Instruction::Add(inst) => inst.spec_encode(),
            Instruction::Addc(inst) => inst.spec_encode(),
            Instruction::Sub(inst) => inst.spec_encode(),
            Instruction::Subb(inst) => inst.spec_encode(),
            Instruction::And(inst) => inst.spec_encode(),
            Instruction::Or(inst) => inst.spec_encode(),
            Instruction::Xor(inst) => inst.spec_encode(),
            Instruction::Cmp(inst) => inst.spec_encode(),
            Instruction::Addac(inst) => inst.spec_encode(),
            Instruction::Subae(inst) => inst.spec_encode(),
            Instruction::Call(inst) => inst.spec_encode(value),
            Instruction::CallBd(inst) => inst.spec_encode(value),
            Instruction::Jmp(inst) => inst.spec_encode(value),
            Instruction::Branch(inst) => inst.spec_encode(value),
            Instruction::In(inst) => inst.spec_encode(),
            Instruction::Out(inst) => inst.spec_encode(),
        }
    }

    pub fn encode(&self, value: i64) -> (bytes: Vec<u8>)
        ensures
            bytes@ == self.spec_encode(value),
            bytes@.len() == self.spec_emit_size(),
    {
        let bytes: Vec<u8> = match self {
            Instruction::Nop(_) => vec![0x00u8],
            Instruction::Break(_) => vec![0x00u8, 0x3Fu8, 0x00u8, 0x00u8],
            Instruction::Lodsb(_) => vec![0x5Bu8],
            Instruction::Stosb(_) => vec![0x7Eu8],
            Instruction::Ret(_) => vec![0x5Eu8, 0x00u8, 0x00u8],
            Instruction::RetBd(_) => vec![0x5Eu8],
            Instruction::Clc(_) => vec![0x7Fu8],
            Instruction::Mov(inst) => inst.encode(value),
            Instruction::Inc(inst) => inst.encode(),
            Instruction::Incc(inst) => inst.encode(),
            Instruction::Dec(inst) => inst.encode(),
            Instruction::Push(inst) => inst.encode(),
            Instruction::Pop(inst) => inst.encode(),
            Instruction::Shl(inst) => inst.encode(),
            Instruction::Shr(inst) => inst.encode(),
            Instruction::Not(inst) => inst.encode(),
            Instruction::Test(inst) => inst.encode(),
            Instruction::Add(inst) => inst.encode(),
            Instruction::Addc(inst) => inst.encode(),
            Instruction::Sub(inst) => inst.encode(),
            Instruction::Subb(inst) => inst.encode(),
            Instruction::And(inst) => inst.encode(),
            Instruction::Or(inst) => inst.encode(),
            Instruction::Xor(inst) => inst.encode(),
            Instruction::Cmp(inst) => inst.encode(),
            Instruction::Addac(inst) => inst.encode(),
            Instruction::Subae(inst) => inst.encode(),
            Instruction::Call(inst) => inst.encode(value),
            Instruction::CallBd(inst) => inst.encode(value),
            Instruction::Jmp(inst) => inst.encode(value),
            Instruction::Branch(inst) => inst.encode(value),
            Instruction::In(inst) => inst.encode(),
            Instruction::Out(inst) => inst.encode(),
        };
        assert(bytes@ =~= self.spec_encode(value));
        bytes
    }

    pub open spec fn spec_span(self) -> TextSpan {
        match self {
            Instruction::Nop(mnemonic) => mnemonic.span,
            Instruction::Break(mnemonic) => mnemonic.span,
            Instruction::Lodsb(mnemonic) => mnemonic.span,
            Instruction::Stosb(mnemonic) => mnemonic.span,
            Instruction::Ret(mnemonic) => mnemonic.span,
            Instruction::RetBd(mnemonic) => mnemonic.span,
            Instruction::Clc(mnemonic) => mnemonic.span,
            Instruction::Mov(inst) => inst.spec_span(),
            Instruction::Inc(inst) => inst.spec_span(),
            Instruction::Incc(inst) => inst.spec_span(),
            Instruction::Dec(inst) => inst.spec_span(),
            Instruction::Push(inst) => inst.spec_span(),
            Instruction::Pop(inst) => inst.spec_span(),
            Instruction::Shl(inst) => inst.spec_span(),
            Instruction::Shr(inst) => inst.spec_span(),
            Instruction::Not(inst) => inst.spec_span(),
            Instruction::Test(inst) => inst.spec_span(),
            Instruction::Add(inst) => inst.spec_span(),
            Instruction::Addc(inst) => inst.spec_span(),
            Instruction::Sub(inst) => inst.spec_span(),
            Instruction::Subb(inst) => inst.spec_span(),
            Instruction::And(inst) => inst.spec_span(),
            Instruction::Or(inst) => inst.spec_span(),
            Instruction::Xor(inst) => inst.spec_span(),
            Instruction::Cmp(inst) => inst.spec_span(),
            Instruction::Addac(inst) => inst.spec_span(),
            Instruction::Subae(inst) => inst.spec_span(),
            Instruction::Call(inst) => inst.spec_span(),
            Instruction::CallBd(inst) => inst.spec_span(),
            Instruction::Jmp(inst) => inst.spec_span(),
            Instruction::Branch(inst) => inst.spec_span(),
            Instruction::In(inst) => inst.spec_span(),
            Instruction::Out(inst) => inst.spec_span(),
        }
    }

    pub fn span(&self) -> (span: TextSpan)
        ensures
            span == self.spec_span(),
    {
        match self {
            Instruction::Nop(mnemonic) => mnemonic.span,
            Instruction::Break(mnemonic) => mnemonic.span,
            Instruction::Lodsb(mnemonic) => mnemonic.span,
            Instruction::Stosb(mnemonic) => mnemonic.span,
            Instruction::Ret(mnemonic) => mnemonic.span,
            Instruction::RetBd(mnemonic) => mnemonic.span,
            Instruction::Clc(mnemonic) => mnemonic.span,
            Instruction::Mov(inst) => inst.span(),
            Instruction::Inc(inst) => inst.span(),
            Instruction::Incc(inst) => inst.span(),
            Instruction::Dec(inst) => inst.span(),
            Instruction::Push(inst) => inst.span(),
            Instruction::Pop(inst) => inst.span(),
            Instruction::Shl(inst) => inst.span(),
            Instruction::Shr(inst) => inst.span(),
            Instruction::Not(inst) => inst.span(),
            Instruction::Test(inst) => inst.span(),
            Instruction::Add(inst) => inst.span(),
            Instruction::Addc(inst) => inst.span(),
            Instruction::Sub(inst) => inst.span(),
            Instruction::Subb(inst) => inst.span(),
            Instruction::And(inst) => inst.span(),
            Instruction::Or(inst) => inst.span(),
            Instruction::Xor(inst) => inst.span(),
            Instruction::Cmp(inst) => inst.span(),
            Instruction::Addac(inst) => inst.span(),
            Instruction::Subae(inst) => inst.span(),
            Instruction::Call(inst) => inst.span(),
            Instruction::CallBd(inst) => inst.span(),
            Instruction::Jmp(inst) => inst.span(),
            Instruction::Branch(inst) => inst.span(),
            Instruction::In(inst) => inst.span(),
            Instruction::Out(inst) => inst.span(),
        }
    }
}

/// One statement: a line of the source.
#[derive(Debug)]
pub enum Statement {
    Label(Box<Label>),
    OffsetDirective(Box<OffsetDirective>),
    AlignDirective(Box<AlignDirective>),
    OriginDirective(Box<OriginDirective>),
    SectionDirective(Box<SectionDirective>),
    IncludeDirective(Box<IncludeDirective>),
    Instruction(Box<Instruction>),
}

impl Statement {
    /// The number of bytes that the statement takes up: only instructions
    /// take up any.
    pub open spec fn spec_emit_size(self) -> u16 {
        match self {
            Statement::Instruction(instruction) => instruction.spec_emit_size(),
            _ => 0,
        }
    }

    pub fn emit_size(&self) -> (size: u16)
        ensures
            size == self.spec_emit_size(),
            size <= 7,
    {
        match self {
            Statement::Instruction(instruction) => instruction.emit_size(),
            _ => 0,
        }
    }

    pub open spec fn spec_span(self) -> TextSpan {
        match self {
            Statement::Label(label) => label.spec_span(),
            Statement::OffsetDirective(directive) => directive.spec_span(),
            Statement::AlignDirective(directive) => directive.spec_span(),
            Statement::OriginDirective(directive) => directive.spec_span(),
            Statement::SectionDirective(directive) => directive.spec_span(),
            Statement::IncludeDirective(directive) => directive.spec_span(),
            Statement::Instruction(inst) => inst.spec_span(),
        }
    }

    pub fn span(&self) -> (span: TextSpan)
        ensures
            span == self.spec_span(),
    {
        match self {
            Statement::Label(label) => label.span(),
            Statement::OffsetDirective(directive) => directive.span(),
            Statement::AlignDirective(directive) => directive.span(),
            Statement::OriginDirective(directive) => directive.span(),
            Statement::SectionDirective(directive) => directive.span(),
            Statement::IncludeDirective(directive) => directive.span(),
            Statement::Instruction(inst) => inst.span(),
        }
    }
}

/// The bytes of an instruction are as many as its size says, whatever the
/// value of its operand; and an instruction that was accepted takes up
/// between one and seven bytes.
pub proof fn lemma_emit_size(inst: Instruction, value: i64)
    ensures
        inst.spec_encode(value).len() == inst.spec_emit_size(),
        inst.spec_emit_size() <= 7,
{
    match inst {
        Instruction::Mov(m) => {
            lemma_mov_emit_size(m, value);
        },
        Instruction::Push(p) => {
            assert(p.spec_encode().len() <= 3);
        },
        Instruction::Pop(p) => {
            assert(p.spec_encode().len() <= 4);
        },
        _ => {},
    }
}

pub proof fn lemma_mov_emit_size(inst: MovInstruction, value: i64)
    ensures
        inst.spec_encode(value).len() == inst.spec_emit_size(),
        inst.spec_emit_size() <= 5,
{
}

} // verus!
