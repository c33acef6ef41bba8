//! The lexer: from the bytes of a source file to tokens.

use crate::assembler::span::{FileId, TextSpan};
use crate::utf8;
use vstd::prelude::*;

verus! {

/// A punctuation mark.
#[derive(Debug, Clone, Copy, PartialEq, Eq, Structural)]
pub enum PunctuationKind {
    /// `,`
    Comma,
    /// `:`
    Colon,
    /// `=`
    EqualSign,
    /// `+`
    PlusSign,
    /// `-`
    MinusSign,
    /// `*`
    Asterisk,
    /// `/`
    Slash,
    /// `%`
    PercentSign,
    /// `!`
    ExclamationMark,
    /// `&`
    Ampersand,
    /// `|`
    VerticalBar,
    /// `^`
    Accent,
    /// `<<`
    DoubleLessThanSign,
    /// `>>>`
    TrippleGreaterThanSign,
    /// `>>`
    DoubleGreaterThanSign,
    /// `(`
    OpeningParenthesis,
    /// `)`
    ClosingParenthesis,
    /// `[`
    OpeningBracket,
    /// `]`
    ClosingBracket,
    /// `#`
    NumberSign,
}

/// A directive, written with a leading dot.
#[derive(Debug, Clone, Copy, PartialEq, Eq, Structural)]
pub enum DirectiveKind {
    /// `offset`
    Offset,
    /// `align`
    Align,
    /// `origin`
    Origin,
    /// `section`
    Section,
    /// `include`
    Include,
}

/// A register name.
#[derive(Debug, Clone, Copy, PartialEq, Eq, Structural)]
pub enum RegisterKind {
    /// `a`
    A,
    /// `b`
    B,
    /// `c`
    C,
    /// `d`
    D,
    /// `tl`
    TL,
    /// `th`
    TH,
    /// `si`
    SI,
    /// `di`
    DI,
    /// `tx`
    TX,
    /// `ab`
    AB,
    /// `cd`
    CD,
    /// `ra`
    RA,
    /// `sp`
    SP,
}

/// The name of an I/O port.
#[derive(Debug, Clone, Copy, PartialEq, Eq, Structural)]
pub enum IoRegisterKind {
    /// `uart_data`
    UartData,
    /// `uart_ctrl`
    UartControl,
    /// `audio_data`
    AudioData,
    /// `cntrl_data`
    ControllerData,
    /// `vga`
    VgaStatus,
    /// `gpio`
    Gpio,
}

/// An instruction mnemonic.
#[derive(Debug, Clone, Copy, PartialEq, Eq, Structural)]
pub enum MnemonicKind {
    /// `nop`
    Nop,
    /// `cnop`
    Cnop,
    /// `mov`
    Mov,
    /// `inc`
    Inc,
    /// `incc`
    Incc,
    /// `dec`
    Dec,
    /// `in`
    In,
    /// `out`
    Out,
    /// `break`
    Break,
    /// `lodsb`
    Lodsb,
    /// `stosb`
    Stosb,
    /// `call`
    Call,
    /// `ret`
    Ret,
    /// `callbd`
    CallBd,
    /// `retbd`
    RetBd,
    /// `jmp`
    Jmp,
    /// `jo`
    Jo,
    /// `jno`
    Jno,
    /// `js`
    Js,
    /// `jns`
    Jns,
    /// `jz`
    Jz,
    /// `jnz`
    Jnz,
    /// `je`
    Je,
    /// `jne`
    Jne,
    /// `jc`
    Jc,
    /// `jnc`
    Jnc,
    /// `jnae`
    Jnae,
    /// `jb`
    Jb,
    /// `jae`
    Jae,
    /// `jnb`
    Jnb,
    /// `jbe`
    Jbe,
    /// `jna`
    Jna,
    /// `ja`
    Ja,
    /// `jnbe`
    Jnbe,
    /// `jl`
    Jl,
    /// `jnge`
    Jnge,
    /// `jge`
    Jge,
    /// `jnl`
    Jnl,
    /// `jle`
    Jle,
    /// `jng`
    Jng,
    /// `jg`
    Jg,
    /// `jnle`
    Jnle,
    /// `jlc`
    Jlc,
    /// `jnlc`
    Jnlc,
    /// `push`
    Push,
    /// `pop`
    Pop,
    /// `clc`
    Clc,
    /// `shl`
    Shl,
    /// `shr`
    Shr,
    /// `add`
    Add,
    /// `addc`
    Addc,
    /// `addac`
    Addac,
    /// `sub`
    Sub,
    /// `subb`
    Subb,
    /// `subae`
    Subae,
    /// `and`
    And,
    /// `or`
    Or,
    /// `xor`
    Xor,
    /// `not`
    Not,
    /// `cmp`
    Cmp,
    /// `test`
    Test,
}

impl PunctuationKind {
    /// The mark as it is written.
    pub open spec fn spec_text(self) -> Seq<u8> {
        match self {
            PunctuationKind::Comma => seq![0x2Cu8],
            PunctuationKind::Colon => seq![0x3Au8],
            PunctuationKind::EqualSign => seq![0x3Du8],
            PunctuationKind::PlusSign => seq![0x2Bu8],
            PunctuationKind::MinusSign => seq![0x2Du8],
            PunctuationKind::Asterisk => seq![0x2Au8],
            PunctuationKind::Slash => seq![0x2Fu8],
            PunctuationKind::PercentSign => seq![0x25u8],
            PunctuationKind::ExclamationMark => seq![0x21u8],
            PunctuationKind::Ampersand => seq![0x26u8],
            PunctuationKind::VerticalBar => seq![0x7Cu8],
            PunctuationKind::Accent => seq![0x5Eu8],
            PunctuationKind::DoubleLessThanSign => seq![0x3Cu8, 0x3Cu8],
            PunctuationKind::TrippleGreaterThanSign => seq![0x3Eu8, 0x3Eu8, 0x3Eu8],
            PunctuationKind::DoubleGreaterThanSign => seq![0x3Eu8, 0x3Eu8],
            PunctuationKind::OpeningParenthesis => seq![0x28u8],
            PunctuationKind::ClosingParenthesis => seq![0x29u8],
            PunctuationKind::OpeningBracket => seq![0x5Bu8],
            PunctuationKind::ClosingBracket => seq![0x5Du8],
            PunctuationKind::NumberSign => seq![0x23u8],
        }
    }

    pub fn text(self) -> (r: Vec<u8>)
        ensures
            r@ == self.spec_text(),
    {
        let word = match self {
            PunctuationKind::Comma => vec![0x2Cu8],
            PunctuationKind::Colon => vec![0x3Au8],
            PunctuationKind::EqualSign => vec![0x3Du8],
            PunctuationKind::PlusSign => vec![0x2Bu8],
            PunctuationKind::MinusSign => vec![0x2Du8],
            PunctuationKind::Asterisk => vec![0x2Au8],
            PunctuationKind::Slash => vec![0x2Fu8],
            PunctuationKind::PercentSign => vec![0x25u8],
            PunctuationKind::ExclamationMark => vec![0x21u8],
            PunctuationKind::Ampersand => vec![0x26u8],
            PunctuationKind::VerticalBar => vec![0x7Cu8],
            PunctuationKind::Accent => vec![0x5Eu8],
            PunctuationKind::DoubleLessThanSign => vec![0x3Cu8, 0x3Cu8],
            PunctuationKind::TrippleGreaterThanSign => vec![0x3Eu8, 0x3Eu8, 0x3Eu8],
            PunctuationKind::DoubleGreaterThanSign => vec![0x3Eu8, 0x3Eu8],
            PunctuationKind::OpeningParenthesis => vec![0x28u8],
            PunctuationKind::ClosingParenthesis => vec![0x29u8],
            PunctuationKind::OpeningBracket => vec![0x5Bu8],
            PunctuationKind::ClosingBracket => vec![0x5Du8],
            PunctuationKind::NumberSign => vec![0x23u8],
        };
        assert(word@ =~= self.spec_text());
        word
    }
}

impl DirectiveKind {
    /// The name of the directive, without the dot.
    pub open spec fn spec_text(self) -> Seq<u8> {
        match self {
            DirectiveKind::Offset => seq![0x6Fu8, 0x66u8, 0x66u8, 0x73u8, 0x65u8, 0x74u8],
            DirectiveKind::Align => seq![0x61u8, 0x6Cu8, 0x69u8, 0x67u8, 0x6Eu8],
            DirectiveKind::Origin => seq![0x6Fu8, 0x72u8, 0x69u8, 0x67u8, 0x69u8, 0x6Eu8],
            DirectiveKind::Section => seq![0x73u8, 0x65u8, 0x63u8, 0x74u8, 0x69u8, 0x6Fu8, 0x6Eu8],
            DirectiveKind::Include => seq![0x69u8, 0x6Eu8, 0x63u8, 0x6Cu8, 0x75u8, 0x64u8, 0x65u8],
        }
    }

    pub fn text(self) -> (r: Vec<u8>)
        ensures
            r@ == self.spec_text(),
    {
        let word = match self {
            DirectiveKind::Offset => vec![0x6Fu8, 0x66u8, 0x66u8, 0x73u8, 0x65u8, 0x74u8],
            DirectiveKind::Align => vec![0x61u8, 0x6Cu8, 0x69u8, 0x67u8, 0x6Eu8],
            DirectiveKind::Origin => vec![0x6Fu8, 0x72u8, 0x69u8, 0x67u8, 0x69u8, 0x6Eu8],
            DirectiveKind::Section => vec![0x73u8, 0x65u8, 0x63u8, 0x74u8, 0x69u8, 0x6Fu8, 0x6Eu8],
            DirectiveKind::Include => vec![0x69u8, 0x6Eu8, 0x63u8, 0x6Cu8, 0x75u8, 0x64u8, 0x65u8],
        };
        assert(word@ =~= self.spec_text());
        word
    }
}

impl RegisterKind {
    /// The name of the register in lower case.
    pub open spec fn spec_text(self) -> Seq<u8> {
        match self {
            RegisterKind::A => seq![0x61u8],
            RegisterKind::B => seq![0x62u8],
            RegisterKind::C => seq![0x63u8],
            RegisterKind::D => seq![0x64u8],
            RegisterKind::TL => seq![0x74u8, 0x6Cu8],
            RegisterKind::TH => seq![0x74u8, 0x68u8],
            RegisterKind::SI => seq![0x73u8, 0x69u8],
            RegisterKind::DI => seq![0x64u8, 0x69u8],
            RegisterKind::TX => seq![0x74u8, 0x78u8],
            RegisterKind::AB => seq![0x61u8, 0x62u8],
            RegisterKind::CD => seq![0x63u8, 0x64u8],
            RegisterKind::RA => seq![0x72u8, 0x61u8],
            RegisterKind::SP => seq![0x73u8, 0x70u8],
        }
    }

    pub fn text(self) -> (r: Vec<u8>)
        ensures
            r@ == self.spec_text(),
    {
        let word = match self {
            RegisterKind::A => vec![0x61u8],
            RegisterKind::B => vec![0x62u8],
            RegisterKind::C => vec![0x63u8],
            RegisterKind::D => vec![0x64u8],
            RegisterKind::TL => vec![0x74u8, 0x6Cu8],
            RegisterKind::TH => vec![0x74u8, 0x68u8],
            RegisterKind::SI => vec![0x73u8, 0x69u8],
            RegisterKind::DI => vec![0x64u8, 0x69u8],
            RegisterKind::TX => vec![0x74u8, 0x78u8],
            RegisterKind::AB => vec![0x61u8, 0x62u8],
            RegisterKind::CD => vec![0x63u8, 0x64u8],
            RegisterKind::RA => vec![0x72u8, 0x61u8],
            RegisterKind::SP => vec![0x73u8, 0x70u8],
        };
        assert(word@ =~= self.spec_text());
        word
    }
}

impl IoRegisterKind {
    /// The name of the port in lower case.
    pub open spec fn spec_text(self) -> Seq<u8> {
        match self {
            IoRegisterKind::UartData => seq![0x75u8, 0x61u8, 0x72u8, 0x74u8, 0x5Fu8, 0x64u8, 0x61u8, 0x74u8, 0x61u8],
            IoRegisterKind::UartControl => seq![0x75u8, 0x61u8, 0x72u8, 0x74u8, 0x5Fu8, 0x63u8, 0x74u8, 0x72u8, 0x6Cu8],
            IoRegisterKind::AudioData => seq![0x61u8, 0x75u8, 0x64u8, 0x69u8, 0x6Fu8, 0x5Fu8, 0x64u8, 0x61u8, 0x74u8, 0x61u8],
            IoRegisterKind::ControllerData => seq![0x63u8, 0x6Eu8, 0x74u8, 0x72u8, 0x6Cu8, 0x5Fu8, 0x64u8, 0x61u8, 0x74u8, 0x61u8],
            IoRegisterKind::VgaStatus => seq![0x76u8, 0x67u8, 0x61u8],
            IoRegisterKind::Gpio => seq![0x67u8, 0x70u8, 0x69u8, 0x6Fu8],
        }
    }

    pub fn text(self) -> (r: Vec<u8>)
        ensures
            r@ == self.spec_text(),
    {
        let word = match self {
            IoRegisterKind::UartData => vec![0x75u8, 0x61u8, 0x72u8, 0x74u8, 0x5Fu8, 0x64u8, 0x61u8, 0x74u8, 0x61u8],
            IoRegisterKind::UartControl => vec![0x75u8, 0x61u8, 0x72u8, 0x74u8, 0x5Fu8, 0x63u8, 0x74u8, 0x72u8, 0x6Cu8],
            IoRegisterKind::AudioData => vec![0x61u8, 0x75u8, 0x64u8, 0x69u8, 0x6Fu8, 0x5Fu8, 0x64u8, 0x61u8, 0x74u8, 0x61u8],
            IoRegisterKind::ControllerData => vec![0x63u8, 0x6Eu8, 0x74u8, 0x72u8, 0x6Cu8, 0x5Fu8, 0x64u8, 0x61u8, 0x74u8, 0x61u8],
            IoRegisterKind::VgaStatus => vec![0x76u8, 0x67u8, 0x61u8],
            IoRegisterKind::Gpio => vec![0x67u8, 0x70u8, 0x69u8, 0x6Fu8],
        };
        assert(word@ =~= self.spec_text());
        word
    }
}

impl MnemonicKind {
    /// The mnemonic in lower case.
    pub open spec fn spec_text(self) -> Seq<u8> {
        match self {
            MnemonicKind::Nop => seq![0x6Eu8, 0x6Fu8, 0x70u8],
            MnemonicKind::Cnop => seq![0x63u8, 0x6Eu8, 0x6Fu8, 0x70u8],
            MnemonicKind::Mov => seq![0x6Du8, 0x6Fu8, 0x76u8],
            MnemonicKind::Inc => seq![0x69u8, 0x6Eu8, 0x63u8],
            MnemonicKind::Incc => seq![0x69u8, 0x6Eu8, 0x63u8, 0x63u8],
            MnemonicKind::Dec => seq![0x64u8, 0x65u8, 0x63u8],
            MnemonicKind::In => seq![0x69u8, 0x6Eu8],
            MnemonicKind::Out => seq![0x6Fu8, 0x75u8, 0x74u8],
            MnemonicKind::Break => seq![0x62u8, 0x72u8, 0x65u8, 0x61u8, 0x6Bu8],
            MnemonicKind::Lodsb => seq![0x6Cu8, 0x6Fu8, 0x64u8, 0x73u8, 0x62u8],
            MnemonicKind::Stosb => seq![0x73u8, 0x74u8, 0x6Fu8, 0x73u8, 0x62u8],
            MnemonicKind::Call => seq![0x63u8, 0x61u8, 0x6Cu8, 0x6Cu8],
            MnemonicKind::Ret => seq![0x72u8, 0x65u8, 0x74u8],
            MnemonicKind::CallBd => seq![0x63u8, 0x61u8, 0x6Cu8, 0x6Cu8, 0x62u8, 0x64u8],
            MnemonicKind::RetBd => seq![0x72u8, 0x65u8, 0x74u8, 0x62u8, 0x64u8],
            MnemonicKind::Jmp => seq![0x6Au8, 0x6Du8, 0x70u8],
            MnemonicKind::Jo => seq![0x6Au8, 0x6Fu8],
            MnemonicKind::Jno => seq![0x6Au8, 0x6Eu8, 0x6Fu8],
            MnemonicKind::Js => seq![0x6Au8, 0x73u8],
            MnemonicKind::Jns => seq![0x6Au8, 0x6Eu8, 0x73u8],
            MnemonicKind::Jz => seq![0x6Au8, 0x7Au8],
            MnemonicKind::Jnz => seq![0x6Au8, 0x6Eu8, 0x7Au8],
            MnemonicKind::Je => seq![0x6Au8, 0x65u8],
            MnemonicKind::Jne => seq![0x6Au8, 0x6Eu8, 0x65u8],
            MnemonicKind::Jc => seq![0x6Au8, 0x63u8],
            MnemonicKind::Jnc => seq![0x6Au8, 0x6Eu8, 0x63u8],
            MnemonicKind::Jnae => seq![0x6Au8, 0x6Eu8, 0x61u8, 0x65u8],
            MnemonicKind::Jb => seq![0x6Au8, 0x62u8],
            MnemonicKind::Jae => seq![0x6Au8, 0x61u8, 0x65u8],
            MnemonicKind::Jnb => seq![0x6Au8, 0x6Eu8, 0x62u8],
            MnemonicKind::Jbe => seq![0x6Au8, 0x62u8, 0x65u8],
            MnemonicKind::Jna => seq![0x6Au8, 0x6Eu8, 0x61u8],
            MnemonicKind::Ja => seq![0x6Au8, 0x61u8],
            MnemonicKind::Jnbe => seq![0x6Au8, 0x6Eu8, 0x62u8, 0x65u8],
            MnemonicKind::Jl => seq![0x6Au8, 0x6Cu8],
            MnemonicKind::Jnge => seq![0x6Au8, 0x6Eu8, 0x67u8, 0x65u8],
            MnemonicKind::Jge => seq![0x6Au8, 0x67u8, 0x65u8],
            MnemonicKind::Jnl => seq![0x6Au8, 0x6Eu8, 0x6Cu8],
            MnemonicKind::Jle => seq![0x6Au8, 0x6Cu8, 0x65u8],
            MnemonicKind::Jng => seq![0x6Au8, 0x6Eu8, 0x67u8],
            MnemonicKind::Jg => seq![0x6Au8, 0x67u8],
            MnemonicKind::Jnle => seq![0x6Au8, 0x6Eu8, 0x6Cu8, 0x65u8],
            MnemonicKind::Jlc => seq![0x6Au8, 0x6Cu8, 0x63u8],
            MnemonicKind::Jnlc => seq![0x6Au8, 0x6Eu8, 0x6Cu8, 0x63u8],
            MnemonicKind::Push => seq![0x70u8, 0x75u8, 0x73u8, 0x68u8],
            MnemonicKind::Pop => seq![0x70u8, 0x6Fu8, 0x70u8],
            MnemonicKind::Clc => seq![0x63u8, 0x6Cu8, 0x63u8],
            MnemonicKind::Shl => seq![0x73u8, 0x68u8, 0x6Cu8],
            MnemonicKind::Shr => seq![0x73u8, 0x68u8, 0x72u8],
            MnemonicKind::Add => seq![0x61u8, 0x64u8, 0x64u8],
            MnemonicKind::Addc => seq![0x61u8, 0x64u8, 0x64u8, 0x63u8],
            MnemonicKind::Addac => seq![0x61u8, 0x64u8, 0x64u8, 0x61u8, 0x63u8],
            MnemonicKind::Sub => seq![0x73u8, 0x75u8, 0x62u8],
            MnemonicKind::Subb => seq![0x73u8, 0x75u8, 0x62u8, 0x62u8],
            MnemonicKind::Subae => seq![0x73u8, 0x75u8, 0x62u8, 0x61u8, 0x65u8],
            MnemonicKind::And => seq![0x61u8, 0x6Eu8, 0x64u8],
            MnemonicKind::Or => seq![0x6Fu8, 0x72u8],
            MnemonicKind::Xor => seq![0x78u8, 0x6Fu8, 0x72u8],
            MnemonicKind::Not => seq![0x6Eu8, 0x6Fu8, 0x74u8],
            MnemonicKind::Cmp => seq![0x63u8, 0x6Du8, 0x70u8],
            MnemonicKind::Test => seq![0x74u8, 0x65u8, 0x73u8, 0x74u8],
        }
    }

    pub fn text(self) -> (r: Vec<u8>)
        ensures
            r@ == self.spec_text(),
    {
        let word = match self {
            MnemonicKind::Nop => vec![0x6Eu8, 0x6Fu8, 0x70u8],
            MnemonicKind::Cnop => vec![0x63u8, 0x6Eu8, 0x6Fu8, 0x70u8],
            MnemonicKind::Mov => vec![0x6Du8, 0x6Fu8, 0x76u8],
            MnemonicKind::Inc => vec![0x69u8, 0x6Eu8, 0x63u8],
            MnemonicKind::Incc => vec![0x69u8, 0x6Eu8, 0x63u8, 0x63u8],
            MnemonicKind::Dec => vec![0x64u8, 0x65u8, 0x63u8],
            MnemonicKind::In => vec![0x69u8, 0x6Eu8],
            MnemonicKind::Out => vec![0x6Fu8, 0x75u8, 0x74u8],
            MnemonicKind::Break => vec![0x62u8, 0x72u8, 0x65u8, 0x61u8, 0x6Bu8],
            MnemonicKind::Lodsb => vec![0x6Cu8, 0x6Fu8, 0x64u8, 0x73u8, 0x62u8],
            MnemonicKind::Stosb => vec![0x73u8, 0x74u8, 0x6Fu8, 0x73u8, 0x62u8],
            MnemonicKind::Call => vec![0x63u8, 0x61u8, 0x6Cu8, 0x6Cu8],
            MnemonicKind::Ret => vec![0x72u8, 0x65u8, 0x74u8],
            MnemonicKind::CallBd => vec![0x63u8, 0x61u8, 0x6Cu8, 0x6Cu8, 0x62u8, 0x64u8],
            MnemonicKind::RetBd => vec![0x72u8, 0x65u8, 0x74u8, 0x62u8, 0x64u8],
            MnemonicKind::Jmp => vec![0x6Au8, 0x6Du8, 0x70u8],
            MnemonicKind::Jo => vec![0x6Au8, 0x6Fu8],
            MnemonicKind::Jno => vec![0x6Au8, 0x6Eu8, 0x6Fu8],
            MnemonicKind::Js => vec![0x6Au8, 0x73u8],
            MnemonicKind::Jns => vec![0x6Au8, 0x6Eu8, 0x73u8],
            MnemonicKind::Jz => vec![0x6Au8, 0x7Au8],
            MnemonicKind::Jnz => vec![0x6Au8, 0x6Eu8, 0x7Au8],
            MnemonicKind::Je => vec![0x6Au8, 0x65u8],
            MnemonicKind::Jne => vec![0x6Au8, 0x6Eu8, 0x65u8],
            MnemonicKind::Jc => vec![0x6Au8, 0x63u8],
            MnemonicKind::Jnc => vec![0x6Au8, 0x6Eu8, 0x63u8],
            MnemonicKind::Jnae => vec![0x6Au8, 0x6Eu8, 0x61u8, 0x65u8],
            MnemonicKind::Jb => vec![0x6Au8, 0x62u8],
            MnemonicKind::Jae => vec![0x6Au8, 0x61u8, 0x65u8],
            MnemonicKind::Jnb => vec![0x6Au8, 0x6Eu8, 0x62u8],
            MnemonicKind::Jbe => vec![0x6Au8, 0x62u8, 0x65u8],
            MnemonicKind::Jna => vec![0x6Au8, 0x6Eu8, 0x61u8],
            MnemonicKind::Ja => vec![0x6Au8, 0x61u8],
            MnemonicKind::Jnbe => vec![0x6Au8, 0x6Eu8, 0x62u8, 0x65u8],
            MnemonicKind::Jl => vec![0x6Au8, 0x6Cu8],
            MnemonicKind::Jnge => vec![0x6Au8, 0x6Eu8, 0x67u8, 0x65u8],
            MnemonicKind::Jge => vec![0x6Au8, 0x67u8, 0x65u8],
            MnemonicKind::Jnl => vec![0x6Au8, 0x6Eu8, 0x6Cu8],
            MnemonicKind::Jle => vec![0x6Au8, 0x6Cu8, 0x65u8],
            MnemonicKind::Jng => vec![0x6Au8, 0x6Eu8, 0x67u8],
            MnemonicKind::Jg => vec![0x6Au8, 0x67u8],
            MnemonicKind::Jnle => vec![0x6Au8, 0x6Eu8, 0x6Cu8, 0x65u8],
            MnemonicKind::Jlc => vec![0x6Au8, 0x6Cu8, 0x63u8],
            MnemonicKind::Jnlc => vec![0x6Au8, 0x6Eu8, 0x6Cu8, 0x63u8],
            MnemonicKind::Push => vec![0x70u8, 0x75u8, 0x73u8, 0x68u8],
            MnemonicKind::Pop => vec![0x70u8, 0x6Fu8, 0x70u8],
            MnemonicKind::Clc => vec![0x63u8, 0x6Cu8, 0x63u8],
            MnemonicKind::Shl => vec![0x73u8, 0x68u8, 0x6Cu8],
            MnemonicKind::Shr => vec![0x73u8, 0x68u8, 0x72u8],
            MnemonicKind::Add => vec![0x61u8, 0x64u8, 0x64u8],
            MnemonicKind::Addc => vec![0x61u8, 0x64u8, 0x64u8, 0x63u8],
            MnemonicKind::Addac => vec![0x61u8, 0x64u8, 0x64u8, 0x61u8, 0x63u8],
            MnemonicKind::Sub => vec![0x73u8, 0x75u8, 0x62u8],
            MnemonicKind::Subb => vec![0x73u8, 0x75u8, 0x62u8, 0x62u8],
            MnemonicKind::Subae => vec![0x73u8, 0x75u8, 0x62u8, 0x61u8, 0x65u8],
            MnemonicKind::And => vec![0x61u8, 0x6Eu8, 0x64u8],
            MnemonicKind::Or => vec![0x6Fu8, 0x72u8],
            MnemonicKind::Xor => vec![0x78u8, 0x6Fu8, 0x72u8],
            MnemonicKind::Not => vec![0x6Eu8, 0x6Fu8, 0x74u8],
            MnemonicKind::Cmp => vec![0x63u8, 0x6Du8, 0x70u8],
            MnemonicKind::Test => vec![0x74u8, 0x65u8, 0x73u8, 0x74u8],
        };
        assert(word@ =~= self.spec_text());
        word
    }
}

/// The directive that `word` names.
pub open spec fn spec_directive_from_word(word: Seq<u8>) -> Option<DirectiveKind> {
    if word.len() == 6 && word[0] == 0x6Fu8 && word[1] == 0x66u8 && word[2] == 0x66u8 && word[3] == 0x73u8 && word[4] == 0x65u8 && word[5] == 0x74u8 {
        // offset
        Some(DirectiveKind::Offset)
    } else if word.len() == 5 && word[0] == 0x61u8 && word[1] == 0x6Cu8 && word[2] == 0x69u8 && word[3] == 0x67u8 && word[4] == 0x6Eu8 {
        // align
        Some(DirectiveKind::Align)
    } else if word.len() == 6 && word[0] == 0x6Fu8 && word[1] == 0x72u8 && word[2] == 0x69u8 && word[3] == 0x67u8 && word[4] == 0x69u8 && word[5] == 0x6Eu8 {
        // origin
        Some(DirectiveKind::Origin)
    } else if word.len() == 7 && word[0] == 0x73u8 && word[1] == 0x65u8 && word[2] == 0x63u8 && word[3] == 0x74u8 && word[4] == 0x69u8 && word[5] == 0x6Fu8 && word[6] == 0x6Eu8 {
        // section
        Some(DirectiveKind::Section)
    } else if word.len() == 7 && word[0] == 0x69u8 && word[1] == 0x6Eu8 && word[2] == 0x63u8 && word[3] == 0x6Cu8 && word[4] == 0x75u8 && word[5] == 0x64u8 && word[6] == 0x65u8 {
        // include
        Some(DirectiveKind::Include)
    } else {
        None
    }
}

pub fn directive_from_word(word: &[u8]) -> (r: Option<DirectiveKind>)
    ensures
        r == spec_directive_from_word(word@),
{
    if word.len() == 6 && word[0] == 0x6Fu8 && word[1] == 0x66u8 && word[2] == 0x66u8 && word[3] == 0x73u8 && word[4] == 0x65u8 && word[5] == 0x74u8 {
        // offset
        Some(DirectiveKind::Offset)
    } else if word.len() == 5 && word[0] == 0x61u8 && word[1] == 0x6Cu8 && word[2] == 0x69u8 && word[3] == 0x67u8 && word[4] == 0x6Eu8 {
        // align
        Some(DirectiveKind::Align)
    } else if word.len() == 6 && word[0] == 0x6Fu8 && word[1] == 0x72u8 && word[2] == 0x69u8 && word[3] == 0x67u8 && word[4] == 0x69u8 && word[5] == 0x6Eu8 {
        // origin
        Some(DirectiveKind::Origin)
    } else if word.len() == 7 && word[0] == 0x73u8 && word[1] == 0x65u8 && word[2] == 0x63u8 && word[3] == 0x74u8 && word[4] == 0x69u8 && word[5] == 0x6Fu8 && word[6] == 0x6Eu8 {
        // section
        Some(DirectiveKind::Section)
    } else if word.len() == 7 && word[0] == 0x69u8 && word[1] == 0x6Eu8 && word[2] == 0x63u8 && word[3] == 0x6Cu8 && word[4] == 0x75u8 && word[5] == 0x64u8 && word[6] == 0x65u8 {
        // include
        Some(DirectiveKind::Include)
    } else {
        None
    }
}

/// The register that the lower-case `word` names.
pub open spec fn spec_register_from_word(word: Seq<u8>) -> Option<RegisterKind> {
    if word.len() == 1 && word[0] == 0x61u8 {
        // a
        Some(RegisterKind::A)
    } else if word.len() == 1 && word[0] == 0x62u8 {
        // b
        Some(RegisterKind::B)
    } else if word.len() == 1 && word[0] == 0x63u8 {
        // c
        Some(RegisterKind::C)
    } else if word.len() == 1 && word[0] == 0x64u8 {
        // d
        Some(RegisterKind::D)
    } else if word.len() == 2 && word[0] == 0x74u8 && word[1] == 0x6Cu8 {
        // tl
        Some(RegisterKind::TL)
    } else if word.len() == 2 && word[0] == 0x74u8 && word[1] == 0x68u8 {
        // th
        Some(RegisterKind::TH)
    } else if word.len() == 2 && word[0] == 0x73u8 && word[1] == 0x69u8 {
        // si
        Some(RegisterKind::SI)
    } else if word.len() == 2 && word[0] == 0x64u8 && word[1] == 0x69u8 {
        // di
        Some(RegisterKind::DI)
    } else if word.len() == 2 && word[0] == 0x74u8 && word[1] == 0x78u8 {
        // tx
        Some(RegisterKind::TX)
    } else if word.len() == 2 && word[0] == 0x61u8 && word[1] == 0x62u8 {
        // ab
        Some(RegisterKind::AB)
    } else if word.len() == 2 && word[0] == 0x63u8 && word[1] == 0x64u8 {
        // cd
        Some(RegisterKind::CD)
    } else if word.len() == 2 && word[0] == 0x72u8 && word[1] == 0x61u8 {
        // ra
        Some(RegisterKind::RA)
    } else if word.len() == 2 && word[0] == 0x73u8 && word[1] == 0x70u8 {
        // sp
        Some(RegisterKind::SP)
    } else {
        None
    }
}

pub fn register_from_word(word: &[u8]) -> (r: Option<RegisterKind>)
    ensures
        r == spec_register_from_word(word@),
{
    if word.len() == 1 && word[0] == 0x61u8 {
        // a
        Some(RegisterKind::A)
    } else if word.len() == 1 && word[0] == 0x62u8 {
        // b
        Some(RegisterKind::B)
    } else if word.len() == 1 && word[0] == 0x63u8 {
        // c
        Some(RegisterKind::C)
    } else if word.len() == 1 && word[0] == 0x64u8 {
        // d
        Some(RegisterKind::D)
    } else if word.len() == 2 && word[0] == 0x74u8 && word[1] == 0x6Cu8 {
        // tl
        Some(RegisterKind::TL)
    } else if word.len() == 2 && word[0] == 0x74u8 && word[1] == 0x68u8 {
        // th
        Some(RegisterKind::TH)
    } else if word.len() == 2 && word[0] == 0x73u8 && word[1] == 0x69u8 {
        // si
        Some(RegisterKind::SI)
    } else if word.len() == 2 && word[0] == 0x64u8 && word[1] == 0x69u8 {
        // di
        Some(RegisterKind::DI)
    } else if word.len() == 2 && word[0] == 0x74u8 && word[1] == 0x78u8 {
        // tx
        Some(RegisterKind::TX)
    } else if word.len() == 2 && word[0] == 0x61u8 && word[1] == 0x62u8 {
        // ab
        Some(RegisterKind::AB)
    } else if word.len() == 2 && word[0] == 0x63u8 && word[1] == 0x64u8 {
        // cd
        Some(RegisterKind::CD)
    } else if word.len() == 2 && word[0] == 0x72u8 && word[1] == 0x61u8 {
        // ra
        Some(RegisterKind::RA)
    } else if word.len() == 2 && word[0] == 0x73u8 && word[1] == 0x70u8 {
        // sp
        Some(RegisterKind::SP)
    } else {
        None
    }
}

/// The I/O port that the lower-case `word` names.
pub open spec fn spec_io_register_from_word(word: Seq<u8>) -> Option<IoRegisterKind> {
    if word.len() == 9 && word[0] == 0x75u8 && word[1] == 0x61u8 && word[2] == 0x72u8 && word[3] == 0x74u8 && word[4] == 0x5Fu8 && word[5] == 0x64u8 && word[6] == 0x61u8 && word[7] == 0x74u8 && word[8] == 0x61u8 {
        // uart_data
        Some(IoRegisterKind::UartData)
    } else if word.len() == 9 && word[0] == 0x75u8 && word[1] == 0x61u8 && word[2] == 0x72u8 && word[3] == 0x74u8 && word[4] == 0x5Fu8 && word[5] == 0x63u8 && word[6] == 0x74u8 && word[7] == 0x72u8 && word[8] == 0x6Cu8 {
        // uart_ctrl
        Some(IoRegisterKind::UartControl)
    } else if word.len() == 10 && word[0] == 0x61u8 && word[1] == 0x75u8 && word[2] == 0x64u8 && word[3] == 0x69u8 && word[4] == 0x6Fu8 && word[5] == 0x5Fu8 && word[6] == 0x64u8 && word[7] == 0x61u8 && word[8] == 0x74u8 && word[9] == 0x61u8 {
        // audio_data
        Some(IoRegisterKind::AudioData)
    } else if word.len() == 10 && word[0] == 0x63u8 && word[1] == 0x6Eu8 && word[2] == 0x74u8 && word[3] == 0x72u8 && word[4] == 0x6Cu8 && word[5] == 0x5Fu8 && word[6] == 0x64u8 && word[7] == 0x61u8 && word[8] == 0x74u8 && word[9] == 0x61u8 {
        // cntrl_data
        Some(IoRegisterKind::ControllerData)
    } else if word.len() == 3 && word[0] == 0x76u8 && word[1] == 0x67u8 && word[2] == 0x61u8 {
        // vga
        Some(IoRegisterKind::VgaStatus)
    } else if word.len() == 4 && word[0] == 0x67u8 && word[1] == 0x70u8 && word[2] == 0x69u8 && word[3] == 0x6Fu8 {
        // gpio
        Some(IoRegisterKind::Gpio)
    } else {
        None
    }
}

pub fn io_register_from_word(word: &[u8]) -> (r: Option<IoRegisterKind>)
    ensures
        r == spec_io_register_from_word(word@),
{
    if word.len() == 9 && word[0] == 0x75u8 && word[1] == 0x61u8 && word[2] == 0x72u8 && word[3] == 0x74u8 && word[4] == 0x5Fu8 && word[5] == 0x64u8 && word[6] == 0x61u8 && word[7] == 0x74u8 && word[8] == 0x61u8 {
        // uart_data
        Some(IoRegisterKind::UartData)
    } else if word.len() == 9 && word[0] == 0x75u8 && word[1] == 0x61u8 && word[2] == 0x72u8 && word[3] == 0x74u8 && word[4] == 0x5Fu8 && word[5] == 0x63u8 && word[6] == 0x74u8 && word[7] == 0x72u8 && word[8] == 0x6Cu8 {
        // uart_ctrl
        Some(IoRegisterKind::UartControl)
    } else if word.len() == 10 && word[0] == 0x61u8 && word[1] == 0x75u8 && word[2] == 0x64u8 && word[3] == 0x69u8 && word[4] == 0x6Fu8 && word[5] == 0x5Fu8 && word[6] == 0x64u8 && word[7] == 0x61u8 && word[8] == 0x74u8 && word[9] == 0x61u8 {
        // audio_data
        Some(IoRegisterKind::AudioData)
    } else if word.len() == 10 && word[0] == 0x63u8 && word[1] == 0x6Eu8 && word[2] == 0x74u8 && word[3] == 0x72u8 && word[4] == 0x6Cu8 && word[5] == 0x5Fu8 && word[6] == 0x64u8 && word[7] == 0x61u8 && word[8] == 0x74u8 && word[9] == 0x61u8 {
        // cntrl_data
        Some(IoRegisterKind::ControllerData)
    } else if word.len() == 3 && word[0] == 0x76u8 && word[1] == 0x67u8 && word[2] == 0x61u8 {
        // vga
        Some(IoRegisterKind::VgaStatus)
    } else if word.len() == 4 && word[0] == 0x67u8 && word[1] == 0x70u8 && word[2] == 0x69u8 && word[3] == 0x6Fu8 {
        // gpio
        Some(IoRegisterKind::Gpio)
    } else {
        None
    }
}

/// The mnemonic that the lower-case `word` names.
pub open spec fn spec_mnemonic_from_word(word: Seq<u8>) -> Option<MnemonicKind> {
    match spec_mnemonic_from_word_0(word) {
        Some(kind) => Some(kind),
        None => match spec_mnemonic_from_word_1(word) {
            Some(kind) => Some(kind),
            None => spec_mnemonic_from_word_2(word),
        },
    }
}

pub fn mnemonic_from_word(word: &[u8]) -> (r: Option<MnemonicKind>)
    ensures
        r == spec_mnemonic_from_word(word@),
{
    match mnemonic_from_word_0(word) {
        Some(kind) => Some(kind),
        None => match mnemonic_from_word_1(word) {
            Some(kind) => Some(kind),
            None => mnemonic_from_word_2(word),
        },
    }
}

/// Part 1 of the mnemonic table.
pub open spec fn spec_mnemonic_from_word_0(word: Seq<u8>) -> Option<MnemonicKind> {
    if word.len() == 3 && word[0] == 0x6Eu8 && word[1] == 0x6Fu8 && word[2] == 0x70u8 {
        // nop
        Some(MnemonicKind::Nop)
    } else if word.len() == 4 && word[0] == 0x63u8 && word[1] == 0x6Eu8 && word[2] == 0x6Fu8 && word[3] == 0x70u8 {
        // cnop
        Some(MnemonicKind::Cnop)
    } else if word.len() == 3 && word[0] == 0x6Du8 && word[1] == 0x6Fu8 && word[2] == 0x76u8 {
        // mov
        Some(MnemonicKind::Mov)
    } else if word.len() == 3 && word[0] == 0x69u8 && word[1] == 0x6Eu8 && word[2] == 0x63u8 {
        // inc
        Some(MnemonicKind::Inc)
    } else if word.len() == 4 && word[0] == 0x69u8 && word[1] == 0x6Eu8 && word[2] == 0x63u8 && word[3] == 0x63u8 {
        // incc
        Some(MnemonicKind::Incc)
    } else if word.len() == 3 && word[0] == 0x64u8 && word[1] == 0x65u8 && word[2] == 0x63u8 {
        // dec
        Some(MnemonicKind::Dec)
    } else if word.len() == 2 && word[0] == 0x69u8 && word[1] == 0x6Eu8 {
        // in
        Some(MnemonicKind::In)
    } else if word.len() == 3 && word[0] == 0x6Fu8 && word[1] == 0x75u8 && word[2] == 0x74u8 {
        // out
        Some(MnemonicKind::Out)
    } else if word.len() == 5 && word[0] == 0x62u8 && word[1] == 0x72u8 && word[2] == 0x65u8 && word[3] == 0x61u8 && word[4] == 0x6Bu8 {
        // break
        Some(MnemonicKind::Break)
    } else if word.len() == 5 && word[0] == 0x6Cu8 && word[1] == 0x6Fu8 && word[2] == 0x64u8 && word[3] == 0x73u8 && word[4] == 0x62u8 {
        // lodsb
        Some(MnemonicKind::Lodsb)
    } else if word.len() == 5 && word[0] == 0x73u8 && word[1] == 0x74u8 && word[2] == 0x6Fu8 && word[3] == 0x73u8 && word[4] == 0x62u8 {
        // stosb
        Some(MnemonicKind::Stosb)
    } else if word.len() == 4 && word[0] == 0x63u8 && word[1] == 0x61u8 && word[2] == 0x6Cu8 && word[3] == 0x6Cu8 {
        // call
        Some(MnemonicKind::Call)
    } else if word.len() == 3 && word[0] == 0x72u8 && word[1] == 0x65u8 && word[2] == 0x74u8 {
        // ret
        Some(MnemonicKind::Ret)
    } else if word.len() == 6 && word[0] == 0x63u8 && word[1] == 0x61u8 && word[2] == 0x6Cu8 && word[3] == 0x6Cu8 && word[4] == 0x62u8 && word[5] == 0x64u8 {
        // callbd
        Some(MnemonicKind::CallBd)
    } else if word.len() == 5 && word[0] == 0x72u8 && word[1] == 0x65u8 && word[2] == 0x74u8 && word[3] == 0x62u8 && word[4] == 0x64u8 {
        // retbd
        Some(MnemonicKind::RetBd)
    } else if word.len() == 3 && word[0] == 0x6Au8 && word[1] == 0x6Du8 && word[2] == 0x70u8 {
        // jmp
        Some(MnemonicKind::Jmp)
    } else if word.len() == 2 && word[0] == 0x6Au8 && word[1] == 0x6Fu8 {
        // jo
        Some(MnemonicKind::Jo)
    } else if word.len() == 3 && word[0] == 0x6Au8 && word[1] == 0x6Eu8 && word[2] == 0x6Fu8 {
        // jno
        Some(MnemonicKind::Jno)
    } else if word.len() == 2 && word[0] == 0x6Au8 && word[1] == 0x73u8 {
        // js
        Some(MnemonicKind::Js)
    } else if word.len() == 3 && word[0] == 0x6Au8 && word[1] == 0x6Eu8 && word[2] == 0x73u8 {
        // jns
        Some(MnemonicKind::Jns)
    } else {
        None
    }
}

pub fn mnemonic_from_word_0(word: &[u8]) -> (r: Option<MnemonicKind>)
    ensures
        r == spec_mnemonic_from_word_0(word@),
{
    if word.len() == 3 && word[0] == 0x6Eu8 && word[1] == 0x6Fu8 && word[2] == 0x70u8 {
        // nop
        Some(MnemonicKind::Nop)
    } else if word.len() == 4 && word[0] == 0x63u8 && word[1] == 0x6Eu8 && word[2] == 0x6Fu8 && word[3] == 0x70u8 {
        // cnop
        Some(MnemonicKind::Cnop)
    } else if word.len() == 3 && word[0] == 0x6Du8 && word[1] == 0x6Fu8 && word[2] == 0x76u8 {
        // mov
        Some(MnemonicKind::Mov)
    } else if word.len() == 3 && word[0] == 0x69u8 && word[1] == 0x6Eu8 && word[2] == 0x63u8 {
        // inc
        Some(MnemonicKind::Inc)
    } else if word.len() == 4 && word[0] == 0x69u8 && word[1] == 0x6Eu8 && word[2] == 0x63u8 && word[3] == 0x63u8 {
        // incc
        Some(MnemonicKind::Incc)
    } else if word.len() == 3 && word[0] == 0x64u8 && word[1] == 0x65u8 && word[2] == 0x63u8 {
        // dec
        Some(MnemonicKind::Dec)
    } else if word.len() == 2 && word[0] == 0x69u8 && word[1] == 0x6Eu8 {
        // in
        Some(MnemonicKind::In)
    } else if word.len() == 3 && word[0] == 0x6Fu8 && word[1] == 0x75u8 && word[2] == 0x74u8 {
        // out
        Some(MnemonicKind::Out)
    } else if word.len() == 5 && word[0] == 0x62u8 && word[1] == 0x72u8 && word[2] == 0x65u8 && word[3] == 0x61u8 && word[4] == 0x6Bu8 {
        // break
        Some(MnemonicKind::Break)
    } else if word.len() == 5 && word[0] == 0x6Cu8 && word[1] == 0x6Fu8 && word[2] == 0x64u8 && word[3] == 0x73u8 && word[4] == 0x62u8 {
        // lodsb
        Some(MnemonicKind::Lodsb)
    } else if word.len() == 5 && word[0] == 0x73u8 && word[1] == 0x74u8 && word[2] == 0x6Fu8 && word[3] == 0x73u8 && word[4] == 0x62u8 {
        // stosb
        Some(MnemonicKind::Stosb)
    } else if word.len() == 4 && word[0] == 0x63u8 && word[1] == 0x61u8 && word[2] == 0x6Cu8 && word[3] == 0x6Cu8 {
        // call
        Some(MnemonicKind::Call)
    } else if word.len() == 3 && word[0] == 0x72u8 && word[1] == 0x65u8 && word[2] == 0x74u8 {
        // ret
        Some(MnemonicKind::Ret)
    } else if word.len() == 6 && word[0] == 0x63u8 && word[1] == 0x61u8 && word[2] == 0x6Cu8 && word[3] == 0x6Cu8 && word[4] == 0x62u8 && word[5] == 0x64u8 {
        // callbd
        Some(MnemonicKind::CallBd)
    } else if word.len() == 5 && word[0] == 0x72u8 && word[1] == 0x65u8 && word[2] == 0x74u8 && word[3] == 0x62u8 && word[4] == 0x64u8 {
        // retbd
        Some(MnemonicKind::RetBd)
    } else if word.len() == 3 && word[0] == 0x6Au8 && word[1] == 0x6Du8 && word[2] == 0x70u8 {
        // jmp
        Some(MnemonicKind::Jmp)
    } else if word.len() == 2 && word[0] == 0x6Au8 && word[1] == 0x6Fu8 {
        // jo
        Some(MnemonicKind::Jo)
    } else if word.len() == 3 && word[0] == 0x6Au8 && word[1] == 0x6Eu8 && word[2] == 0x6Fu8 {
        // jno
        Some(MnemonicKind::Jno)
    } else if word.len() == 2 && word[0] == 0x6Au8 && word[1] == 0x73u8 {
        // js
        Some(MnemonicKind::Js)
    } else if word.len() == 3 && word[0] == 0x6Au8 && word[1] == 0x6Eu8 && word[2] == 0x73u8 {
        // jns
        Some(MnemonicKind::Jns)
    } else {
        None
    }
}

/// Part 2 of the mnemonic table.
pub open spec fn spec_mnemonic_from_word_1(word: Seq<u8>) -> Option<MnemonicKind> {
    if word.len() == 2 && word[0] == 0x6Au8 && word[1] == 0x7Au8 {
        // jz
        Some(MnemonicKind::Jz)
    } else if word.len() == 3 && word[0] == 0x6Au8 && word[1] == 0x6Eu8 && word[2] == 0x7Au8 {
        // jnz
        Some(MnemonicKind::Jnz)
    } else if word.len() == 2 && word[0] == 0x6Au8 && word[1] == 0x65u8 {
        // je
        Some(MnemonicKind::Je)
    } else if word.len() == 3 && word[0] == 0x6Au8 && word[1] == 0x6Eu8 && word[2] == 0x65u8 {
        // jne
        Some(MnemonicKind::Jne)
    } else if word.len() == 2 && word[0] == 0x6Au8 && word[1] == 0x63u8 {
        // jc
        Some(MnemonicKind::Jc)
    } else if word.len() == 3 && word[0] == 0x6Au8 && word[1] == 0x6Eu8 && word[2] == 0x63u8 {
        // jnc
        Some(MnemonicKind::Jnc)
    } else if word.len() == 4 && word[0] == 0x6Au8 && word[1] == 0x6Eu8 && word[2] == 0x61u8 && word[3] == 0x65u8 {
        // jnae
        Some(MnemonicKind::Jnae)
    } else if word.len() == 2 && word[0] == 0x6Au8 && word[1] == 0x62u8 {
        // jb
        Some(MnemonicKind::Jb)
    } else if word.len() == 3 && word[0] == 0x6Au8 && word[1] == 0x61u8 && word[2] == 0x65u8 {
        // jae
        Some(MnemonicKind::Jae)
    } else if word.len() == 3 && word[0] == 0x6Au8 && word[1] == 0x6Eu8 && word[2] == 0x62u8 {
        // jnb
        Some(MnemonicKind::Jnb)
    } else if word.len() == 3 && word[0] == 0x6Au8 && word[1] == 0x62u8 && word[2] == 0x65u8 {
        // jbe
        Some(MnemonicKind::Jbe)
    } else if word.len() == 3 && word[0] == 0x6Au8 && word[1] == 0x6Eu8 && word[2] == 0x61u8 {
        // jna
        Some(MnemonicKind::Jna)
    } else if word.len() == 2 && word[0] == 0x6Au8 && word[1] == 0x61u8 {
        // ja
        Some(MnemonicKind::Ja)
    } else if word.len() == 4 && word[0] == 0x6Au8 && word[1] == 0x6Eu8 && word[2] == 0x62u8 && word[3] == 0x65u8 {
        // jnbe
        Some(MnemonicKind::Jnbe)
    } else if word.len() == 2 && word[0] == 0x6Au8 && word[1] == 0x6Cu8 {
        // jl
        Some(MnemonicKind::Jl)
    } else if word.len() == 4 && word[0] == 0x6Au8 && word[1] == 0x6Eu8 && word[2] == 0x67u8 && word[3] == 0x65u8 {
        // jnge
        Some(MnemonicKind::Jnge)
    } else if word.len() == 3 && word[0] == 0x6Au8 && word[1] == 0x67u8 && word[2] == 0x65u8 {
        // jge
        Some(MnemonicKind::Jge)
    } else if word.len() == 3 && word[0] == 0x6Au8 && word[1] == 0x6Eu8 && word[2] == 0x6Cu8 {
        // jnl
        Some(MnemonicKind::Jnl)
    } else if word.len() == 3 && word[0] == 0x6Au8 && word[1] == 0x6Cu8 && word[2] == 0x65u8 {
        // jle
        Some(MnemonicKind::Jle)
    } else if word.len() == 3 && word[0] == 0x6Au8 && word[1] == 0x6Eu8 && word[2] == 0x67u8 {
        // jng
        Some(MnemonicKind::Jng)
    } else {
        None
    }
}

pub fn mnemonic_from_word_1(word: &[u8]) -> (r: Option<MnemonicKind>)
    ensures
        r == spec_mnemonic_from_word_1(word@),
{
    if word.len() == 2 && word[0] == 0x6Au8 && word[1] == 0x7Au8 {
        // jz
        Some(MnemonicKind::Jz)
    } else if word.len() == 3 && word[0] == 0x6Au8 && word[1] == 0x6Eu8 && word[2] == 0x7Au8 {
        // jnz
        Some(MnemonicKind::Jnz)
    } else if word.len() == 2 && word[0] == 0x6Au8 && word[1] == 0x65u8 {
        // je
        Some(MnemonicKind::Je)
    } else if word.len() == 3 && word[0] == 0x6Au8 && word[1] == 0x6Eu8 && word[2] == 0x65u8 {
        // jne
        Some(MnemonicKind::Jne)
    } else if word.len() == 2 && word[0] == 0x6Au8 && word[1] == 0x63u8 {
        // jc
        Some(MnemonicKind::Jc)
    } else if word.len() == 3 && word[0] == 0x6Au8 && word[1] == 0x6Eu8 && word[2] == 0x63u8 {
        // jnc
        Some(MnemonicKind::Jnc)
    } else if word.len() == 4 && word[0] == 0x6Au8 && word[1] == 0x6Eu8 && word[2] == 0x61u8 && word[3] == 0x65u8 {
        // jnae
        Some(MnemonicKind::Jnae)
    } else if word.len() == 2 && word[0] == 0x6Au8 && word[1] == 0x62u8 {
        // jb
        Some(MnemonicKind::Jb)
    } else if word.len() == 3 && word[0] == 0x6Au8 && word[1] == 0x61u8 && word[2] == 0x65u8 {
        // jae
        Some(MnemonicKind::Jae)
    } else if word.len() == 3 && word[0] == 0x6Au8 && word[1] == 0x6Eu8 && word[2] == 0x62u8 {
        // jnb
        Some(MnemonicKind::Jnb)
    } else if word.len() == 3 && word[0] == 0x6Au8 && word[1] == 0x62u8 && word[2] == 0x65u8 {
        // jbe
        Some(MnemonicKind::Jbe)
    } else if word.len() == 3 && word[0] == 0x6Au8 && word[1] == 0x6Eu8 && word[2] == 0x61u8 {
        // jna
        Some(MnemonicKind::Jna)
    } else if word.len() == 2 && word[0] == 0x6Au8 && word[1] == 0x61u8 {
        // ja
        Some(MnemonicKind::Ja)
    } else if word.len() == 4 && word[0] == 0x6Au8 && word[1] == 0x6Eu8 && word[2] == 0x62u8 && word[3] == 0x65u8 {
        // jnbe
        Some(MnemonicKind::Jnbe)
    } else if word.len() == 2 && word[0] == 0x6Au8 && word[1] == 0x6Cu8 {
        // jl
        Some(MnemonicKind::Jl)
    } else if word.len() == 4 && word[0] == 0x6Au8 && word[1] == 0x6Eu8 && word[2] == 0x67u8 && word[3] == 0x65u8 {
        // jnge
        Some(MnemonicKind::Jnge)
    } else if word.len() == 3 && word[0] == 0x6Au8 && word[1] == 0x67u8 && word[2] == 0x65u8 {
        // jge
        Some(MnemonicKind::Jge)
    } else if word.len() == 3 && word[0] == 0x6Au8 && word[1] == 0x6Eu8 && word[2] == 0x6Cu8 {
        // jnl
        Some(MnemonicKind::Jnl)
    } else if word.len() == 3 && word[0] == 0x6Au8 && word[1] == 0x6Cu8 && word[2] == 0x65u8 {
        // jle
        Some(MnemonicKind::Jle)
    } else if word.len() == 3 && word[0] == 0x6Au8 && word[1] == 0x6Eu8 && word[2] == 0x67u8 {
        // jng
        Some(MnemonicKind::Jng)
    } else {
        None
    }
}

/// Part 3 of the mnemonic table.
pub open spec fn spec_mnemonic_from_word_2(word: Seq<u8>) -> Option<MnemonicKind> {
    if word.len() == 2 && word[0] == 0x6Au8 && word[1] == 0x67u8 {
        // jg
        Some(MnemonicKind::Jg)
    } else if word.len() == 4 && word[0] == 0x6Au8 && word[1] == 0x6Eu8 && word[2] == 0x6Cu8 && word[3] == 0x65u8 {
        // jnle
        Some(MnemonicKind::Jnle)
    } else if word.len() == 3 && word[0] == 0x6Au8 && word[1] == 0x6Cu8 && word[2] == 0x63u8 {
        // jlc
        Some(MnemonicKind::Jlc)
    } else if word.len() == 4 && word[0] == 0x6Au8 && word[1] == 0x6Eu8 && word[2] == 0x6Cu8 && word[3] == 0x63u8 {
        // jnlc
        Some(MnemonicKind::Jnlc)
    } else if word.len() == 4 && word[0] == 0x70u8 && word[1] == 0x75u8 && word[2] == 0x73u8 && word[3] == 0x68u8 {
        // push
        Some(MnemonicKind::Push)
    } else if word.len() == 3 && word[0] == 0x70u8 && word[1] == 0x6Fu8 && word[2] == 0x70u8 {
        // pop
        Some(MnemonicKind::Pop)
    } else if word.len() == 3 && word[0] == 0x63u8 && word[1] == 0x6Cu8 && word[2] == 0x63u8 {
        // clc
        Some(MnemonicKind::Clc)
    } else if word.len() == 3 && word[0] == 0x73u8 && word[1] == 0x68u8 && word[2] == 0x6Cu8 {
        // shl
        Some(MnemonicKind::Shl)
    } else if word.len() == 3 && word[0] == 0x73u8 && word[1] == 0x68u8 && word[2] == 0x72u8 {
        // shr
        Some(MnemonicKind::Shr)
    } else if word.len() == 3 && word[0] == 0x61u8 && word[1] == 0x64u8 && word[2] == 0x64u8 {
        // add
        Some(MnemonicKind::Add)
    } else if word.len() == 4 && word[0] == 0x61u8 && word[1] == 0x64u8 && word[2] == 0x64u8 && word[3] == 0x63u8 {
        // addc
        Some(MnemonicKind::Addc)
    } else if word.len() == 5 && word[0] == 0x61u8 && word[1] == 0x64u8 && word[2] == 0x64u8 && word[3] == 0x61u8 && word[4] == 0x63u8 {
        // addac
        Some(MnemonicKind::Addac)
    } else if word.len() == 3 && word[0] == 0x73u8 && word[1] == 0x75u8 && word[2] == 0x62u8 {
        // sub
        Some(MnemonicKind::Sub)
    } else if word.len() == 4 && word[0] == 0x73u8 && word[1] == 0x75u8 && word[2] == 0x62u8 && word[3] == 0x62u8 {
        // subb
        Some(MnemonicKind::Subb)
    } else if word.len() == 5 && word[0] == 0x73u8 && word[1] == 0x75u8 && word[2] == 0x62u8 && word[3] == 0x61u8 && word[4] == 0x65u8 {
        // subae
        Some(MnemonicKind::Subae)
    } else if word.len() == 3 && word[0] == 0x61u8 && word[1] == 0x6Eu8 && word[2] == 0x64u8 {
        // and
        Some(MnemonicKind::And)
    } else if word.len() == 2 && word[0] == 0x6Fu8 && word[1] == 0x72u8 {
        // or
        Some(MnemonicKind::Or)
    } else if word.len() == 3 && word[0] == 0x78u8 && word[1] == 0x6Fu8 && word[2] == 0x72u8 {
        // xor
        Some(MnemonicKind::Xor)
    } else if word.len() == 3 && word[0] == 0x6Eu8 && word[1] == 0x6Fu8 && word[2] == 0x74u8 {
        // not
        Some(MnemonicKind::Not)
    } else if word.len() == 3 && word[0] == 0x63u8 && word[1] == 0x6Du8 && word[2] == 0x70u8 {
        // cmp
        Some(MnemonicKind::Cmp)
    } else if word.len() == 4 && word[0] == 0x74u8 && word[1] == 0x65u8 && word[2] == 0x73u8 && word[3] == 0x74u8 {
        // test
        Some(MnemonicKind::Test)
    } else {
        None
    }
}

pub fn mnemonic_from_word_2(word: &[u8]) -> (r: Option<MnemonicKind>)
    ensures
        r == spec_mnemonic_from_word_2(word@),
{
    if word.len() == 2 && word[0] == 0x6Au8 && word[1] == 0x67u8 {
        // jg
        Some(MnemonicKind::Jg)
    } else if word.len() == 4 && word[0] == 0x6Au8 && word[1] == 0x6Eu8 && word[2] == 0x6Cu8 && word[3] == 0x65u8 {
        // jnle
        Some(MnemonicKind::Jnle)
    } else if word.len() == 3 && word[0] == 0x6Au8 && word[1] == 0x6Cu8 && word[2] == 0x63u8 {
        // jlc
        Some(MnemonicKind::Jlc)
    } else if word.len() == 4 && word[0] == 0x6Au8 && word[1] == 0x6Eu8 && word[2] == 0x6Cu8 && word[3] == 0x63u8 {
        // jnlc
        Some(MnemonicKind::Jnlc)
    } else if word.len() == 4 && word[0] == 0x70u8 && word[1] == 0x75u8 && word[2] == 0x73u8 && word[3] == 0x68u8 {
        // push
        Some(MnemonicKind::Push)
    } else if word.len() == 3 && word[0] == 0x70u8 && word[1] == 0x6Fu8 && word[2] == 0x70u8 {
        // pop
        Some(MnemonicKind::Pop)
    } else if word.len() == 3 && word[0] == 0x63u8 && word[1] == 0x6Cu8 && word[2] == 0x63u8 {
        // clc
        Some(MnemonicKind::Clc)
    } else if word.len() == 3 && word[0] == 0x73u8 && word[1] == 0x68u8 && word[2] == 0x6Cu8 {
        // shl
        Some(MnemonicKind::Shl)
    } else if word.len() == 3 && word[0] == 0x73u8 && word[1] == 0x68u8 && word[2] == 0x72u8 {
        // shr
        Some(MnemonicKind::Shr)
    } else if word.len() == 3 && word[0] == 0x61u8 && word[1] == 0x64u8 && word[2] == 0x64u8 {
        // add
        Some(MnemonicKind::Add)
    } else if word.len() == 4 && word[0] == 0x61u8 && word[1] == 0x64u8 && word[2] == 0x64u8 && word[3] == 0x63u8 {
        // addc
        Some(MnemonicKind::Addc)
    } else if word.len() == 5 && word[0] == 0x61u8 && word[1] == 0x64u8 && word[2] == 0x64u8 && word[3] == 0x61u8 && word[4] == 0x63u8 {
        // addac
        Some(MnemonicKind::Addac)
    } else if word.len() == 3 && word[0] == 0x73u8 && word[1] == 0x75u8 && word[2] == 0x62u8 {
        // sub
        Some(MnemonicKind::Sub)
    } else if word.len() == 4 && word[0] == 0x73u8 && word[1] == 0x75u8 && word[2] == 0x62u8 && word[3] == 0x62u8 {
        // subb
        Some(MnemonicKind::Subb)
    } else if word.len() == 5 && word[0] == 0x73u8 && word[1] == 0x75u8 && word[2] == 0x62u8 && word[3] == 0x61u8 && word[4] == 0x65u8 {
        // subae
        Some(MnemonicKind::Subae)
    } else if word.len() == 3 && word[0] == 0x61u8 && word[1] == 0x6Eu8 && word[2] == 0x64u8 {
        // and
        Some(MnemonicKind::And)
    } else if word.len() == 2 && word[0] == 0x6Fu8 && word[1] == 0x72u8 {
        // or
        Some(MnemonicKind::Or)
    } else if word.len() == 3 && word[0] == 0x78u8 && word[1] == 0x6Fu8 && word[2] == 0x72u8 {
        // xor
        Some(MnemonicKind::Xor)
    } else if word.len() == 3 && word[0] == 0x6Eu8 && word[1] == 0x6Fu8 && word[2] == 0x74u8 {
        // not
        Some(MnemonicKind::Not)
    } else if word.len() == 3 && word[0] == 0x63u8 && word[1] == 0x6Du8 && word[2] == 0x70u8 {
        // cmp
        Some(MnemonicKind::Cmp)
    } else if word.len() == 4 && word[0] == 0x74u8 && word[1] == 0x65u8 && word[2] == 0x73u8 && word[3] == 0x74u8 {
        // test
        Some(MnemonicKind::Test)
    } else {
        None
    }
}

/// The punctuation mark that `text` holds at `at`, and its length. Longer
/// marks win over their prefixes.
pub open spec fn spec_punctuation_at(text: Seq<u8>, at: int) -> Option<(PunctuationKind, int)> {
    if at + 1 <= text.len() && text[at] == 0x2Cu8 {
        // ,
        Some((PunctuationKind::Comma, 1))
    } else if at + 1 <= text.len() && text[at] == 0x3Au8 {
        // :
        Some((PunctuationKind::Colon, 1))
    } else if at + 1 <= text.len() && text[at] == 0x3Du8 {
        // =
        Some((PunctuationKind::EqualSign, 1))
    } else if at + 1 <= text.len() && text[at] == 0x2Bu8 {
        // +
        Some((PunctuationKind::PlusSign, 1))
    } else if at + 1 <= text.len() && text[at] == 0x2Du8 {
        // -
        Some((PunctuationKind::MinusSign, 1))
    } else if at + 1 <= text.len() && text[at] == 0x2Au8 {
        // *
        Some((PunctuationKind::Asterisk, 1))
    } else if at + 1 <= text.len() && text[at] == 0x2Fu8 {
        // /
        Some((PunctuationKind::Slash, 1))
    } else if at + 1 <= text.len() && text[at] == 0x25u8 {
        // %
        Some((PunctuationKind::PercentSign, 1))
    } else if at + 1 <= text.len() && text[at] == 0x21u8 {
        // !
        Some((PunctuationKind::ExclamationMark, 1))
    } else if at + 1 <= text.len() && text[at] == 0x26u8 {
        // &
        Some((PunctuationKind::Ampersand, 1))
    } else if at + 1 <= text.len() && text[at] == 0x7Cu8 {
        // |
        Some((PunctuationKind::VerticalBar, 1))
    } else if at + 1 <= text.len() && text[at] == 0x5Eu8 {
        // ^
        Some((PunctuationKind::Accent, 1))
    } else if at + 2 <= text.len() && text[at] == 0x3Cu8 && text[at + 1] == 0x3Cu8 {
        // <<
        Some((PunctuationKind::DoubleLessThanSign, 2))
    } else if at + 3 <= text.len() && text[at] == 0x3Eu8 && text[at + 1] == 0x3Eu8 && text[at + 2] == 0x3Eu8 {
        // >>>
        Some((PunctuationKind::TrippleGreaterThanSign, 3))
    } else if at + 2 <= text.len() && text[at] == 0x3Eu8 && text[at + 1] == 0x3Eu8 {
        // >>
        Some((PunctuationKind::DoubleGreaterThanSign, 2))
    } else if at + 1 <= text.len() && text[at] == 0x28u8 {
        // (
        Some((PunctuationKind::OpeningParenthesis, 1))
    } else if at + 1 <= text.len() && text[at] == 0x29u8 {
        // )
        Some((PunctuationKind::ClosingParenthesis, 1))
    } else if at + 1 <= text.len() && text[at] == 0x5Bu8 {
        // [
        Some((PunctuationKind::OpeningBracket, 1))
    } else if at + 1 <= text.len() && text[at] == 0x5Du8 {
        // ]
        Some((PunctuationKind::ClosingBracket, 1))
    } else if at + 1 <= text.len() && text[at] == 0x23u8 {
        // #
        Some((PunctuationKind::NumberSign, 1))
    } else {
        None
    }
}

pub fn punctuation_at(text: &[u8], at: usize) -> (r: Option<(PunctuationKind, usize)>)
    requires
        at <= text@.len(),
    ensures
        match spec_punctuation_at(text@, at as int) {
            Some((kind, len)) => r == Some((kind, len as usize)),
            None => r.is_none(),
        },
{
    let rest: usize = text.len() - at;
    if 1 <= rest && text[at] == 0x2Cu8 {
        // ,
        Some((PunctuationKind::Comma, 1))
    } else if 1 <= rest && text[at] == 0x3Au8 {
        // :
        Some((PunctuationKind::Colon, 1))
    } else if 1 <= rest && text[at] == 0x3Du8 {
        // =
        Some((PunctuationKind::EqualSign, 1))
    } else if 1 <= rest && text[at] == 0x2Bu8 {
        // +
        Some((PunctuationKind::PlusSign, 1))
    } else if 1 <= rest && text[at] == 0x2Du8 {
        // -
        Some((PunctuationKind::MinusSign, 1))
    } else if 1 <= rest && text[at] == 0x2Au8 {
        // *
        Some((PunctuationKind::Asterisk, 1))
    } else if 1 <= rest && text[at] == 0x2Fu8 {
        // /
        Some((PunctuationKind::Slash, 1))
    } else if 1 <= rest && text[at] == 0x25u8 {
        // %
        Some((PunctuationKind::PercentSign, 1))
    } else if 1 <= rest && text[at] == 0x21u8 {
        // !
        Some((PunctuationKind::ExclamationMark, 1))
    } else if 1 <= rest && text[at] == 0x26u8 {
        // &
        Some((PunctuationKind::Ampersand, 1))
    } else if 1 <= rest && text[at] == 0x7Cu8 {
        // |
        Some((PunctuationKind::VerticalBar, 1))
    } else if 1 <= rest && text[at] == 0x5Eu8 {
        // ^
        Some((PunctuationKind::Accent, 1))
    } else if 2 <= rest && text[at] == 0x3Cu8 && text[at + 1] == 0x3Cu8 {
        // <<
        Some((PunctuationKind::DoubleLessThanSign, 2))
    } else if 3 <= rest && text[at] == 0x3Eu8 && text[at + 1] == 0x3Eu8 && text[at + 2] == 0x3Eu8 {
        // >>>
        Some((PunctuationKind::TrippleGreaterThanSign, 3))
    } else if 2 <= rest && text[at] == 0x3Eu8 && text[at + 1] == 0x3Eu8 {
        // >>
        Some((PunctuationKind::DoubleGreaterThanSign, 2))
    } else if 1 <= rest && text[at] == 0x28u8 {
        // (
        Some((PunctuationKind::OpeningParenthesis, 1))
    } else if 1 <= rest && text[at] == 0x29u8 {
        // )
        Some((PunctuationKind::ClosingParenthesis, 1))
    } else if 1 <= rest && text[at] == 0x5Bu8 {
        // [
        Some((PunctuationKind::OpeningBracket, 1))
    } else if 1 <= rest && text[at] == 0x5Du8 {
        // ]
        Some((PunctuationKind::ClosingBracket, 1))
    } else if 1 <= rest && text[at] == 0x23u8 {
        // #
        Some((PunctuationKind::NumberSign, 1))
    } else {
        None
    }
}

pub const BACKSLASH: u8 = 0x5C;

pub const DIGIT_0: u8 = 0x30;

pub const DIGIT_9: u8 = 0x39;

pub const DOT: u8 = 0x2E;

pub const LINE_FEED: u8 = 0x0A;

pub const LOWER_A: u8 = 0x61;

pub const LOWER_B: u8 = 0x62;

pub const LOWER_N: u8 = 0x6E;

pub const LOWER_O: u8 = 0x6F;

pub const LOWER_R: u8 = 0x72;

pub const LOWER_T: u8 = 0x74;

pub const LOWER_U: u8 = 0x75;

pub const LOWER_X: u8 = 0x78;

pub const LOWER_Z: u8 = 0x7A;

pub const QUOTE: u8 = 0x22;

pub const SEMICOLON: u8 = 0x3B;

pub const SLASH: u8 = 0x2F;

pub const UNDERSCORE: u8 = 0x5F;

pub const UPPER_A: u8 = 0x41;

pub const UPPER_B: u8 = 0x42;

pub const UPPER_O: u8 = 0x4F;

pub const UPPER_X: u8 = 0x58;

pub const UPPER_Z: u8 = 0x5A;

/// What went wrong in a string literal.
#[derive(Debug, Clone, Copy, PartialEq, Eq, Structural)]
pub enum ParseStringError {
    /// The literal ends at the end of its line or of the file.
    MissingClosingQuote,
    /// An escape that stands for nothing, with the bytes it takes up,
    /// counted from the opening quote.
    InvalidEscapeSequence { start: usize, end: usize },
}

/// A token. Identifiers and string literals are found in the source by the
/// token's span.
#[derive(Debug, Clone, Copy, PartialEq, Eq, Structural)]
pub enum Jam1Token {
    NewLine,
    Comment,
    Punctuation(PunctuationKind),
    Directive(DirectiveKind),
    Register(RegisterKind),
    IoRegister(IoRegisterKind),
    Mnemonic(MnemonicKind),
    Identifier,
    IntegerLiteral(i64),
    StringLiteral,
    /// A dot and a name that names no directive.
    InvalidDirective,
    /// Digits that stand for no value of 63 bits.
    InvalidIntegerLiteral,
    /// A string literal with errors in it.
    InvalidStringLiteral,
    /// A character that starts no token, by its code point.
    InvalidChar(u32),
}

/// A token and the number of bytes it takes up.
#[derive(Debug, Clone, Copy, PartialEq, Eq, Structural)]
pub struct ReadTokenResult {
    pub token: Jam1Token,
    pub consumed_bytes: usize,
}

/// A token and where it stands.
#[derive(Debug, Clone, Copy, PartialEq, Eq, Structural)]
pub struct Token {
    pub span: TextSpan,
    pub kind: Jam1Token,
}

pub open spec fn spec_is_word_start(b: u8) -> bool {
    (UPPER_A <= b <= UPPER_Z) || (LOWER_A <= b <= LOWER_Z) || b == UNDERSCORE
}

pub open spec fn spec_is_digit(b: u8) -> bool {
    DIGIT_0 <= b <= DIGIT_9
}

/// Letters, digits and the underscore make up names and numbers.
pub open spec fn spec_is_word_byte(b: u8) -> bool {
    spec_is_word_start(b) || spec_is_digit(b)
}

#[verifier::when_used_as_spec(spec_is_word_start)]
pub fn is_word_start(b: u8) -> (r: bool)
    ensures
        r == spec_is_word_start(b),
{
    (UPPER_A <= b && b <= UPPER_Z) || (LOWER_A <= b && b <= LOWER_Z) || b == UNDERSCORE
}

#[verifier::when_used_as_spec(spec_is_digit)]
pub fn is_digit(b: u8) -> (r: bool)
    ensures
        r == spec_is_digit(b),
{
    DIGIT_0 <= b && b <= DIGIT_9
}

#[verifier::when_used_as_spec(spec_is_word_byte)]
pub fn is_word_byte(b: u8) -> (r: bool)
    ensures
        r == spec_is_word_byte(b),
{
    is_word_start(b) || is_digit(b)
}

/// Where the run of word bytes that starts at `at` ends.
pub open spec fn spec_scan_word(text: Seq<u8>, at: int) -> int
    decreases text.len() - at,
{
    if 0 <= at < text.len() && spec_is_word_byte(text[at]) {
        spec_scan_word(text, at + 1)
    } else {
        at
    }
}

pub proof fn lemma_scan_word_bounds(text: Seq<u8>, at: int)
    requires
        0 <= at <= text.len(),
    ensures
        at <= spec_scan_word(text, at) <= text.len(),
        forall|i: int| at <= i < spec_scan_word(text, at) ==> spec_is_word_byte(#[trigger] text[i]),
    decreases text.len() - at,
{
    if at < text.len() && spec_is_word_byte(text[at]) {
        lemma_scan_word_bounds(text, at + 1);
    }
}

pub fn scan_word(text: &[u8], at: usize) -> (end: usize)
    requires
        at <= text@.len(),
    ensures
        end == spec_scan_word(text@, at as int),
        at <= end <= text@.len(),
{
    let mut i: usize = at;
    while i < text.len() && is_word_byte(text[i])
        invariant
            at <= i <= text@.len(),
            spec_scan_word(text@, at as int) == spec_scan_word(text@, i as int),
        decreases text@.len() - i,
    {
        i += 1;
    }
    i
}

/// Where the line that holds `at` ends: at the next line feed or at the
/// end of the text.
pub open spec fn spec_scan_line(text: Seq<u8>, at: int) -> int
    decreases text.len() - at,
{
    if 0 <= at < text.len() && text[at] != LINE_FEED {
        spec_scan_line(text, at + 1)
    } else {
        at
    }
}

pub fn scan_line(text: &[u8], at: usize) -> (end: usize)
    requires
        at <= text@.len(),
    ensures
        end == spec_scan_line(text@, at as int),
        at <= end <= text@.len(),
{
    let mut i: usize = at;
    while i < text.len() && text[i] != LINE_FEED
        invariant
            at <= i <= text@.len(),
            spec_scan_line(text@, at as int) == spec_scan_line(text@, i as int),
        decreases text@.len() - i,
    {
        i += 1;
    }
    i
}

/// A comment runs from `//` or `;` to the end of the line.
pub open spec fn spec_read_comment_token(text: Seq<u8>, at: int) -> Option<ReadTokenResult> {
    if at + 2 <= text.len() && text[at] == SLASH && text[at + 1] == SLASH {
        Some(
            ReadTokenResult {
                token: Jam1Token::Comment,
                consumed_bytes: (spec_scan_line(text, at + 2) - at) as usize,
            },
        )
    } else if at + 1 <= text.len() && text[at] == SEMICOLON {
        Some(
            ReadTokenResult {
                token: Jam1Token::Comment,
                consumed_bytes: (spec_scan_line(text, at + 1) - at) as usize,
            },
        )
    } else {
        None
    }
}

pub fn read_comment_token(text: &[u8], at: usize) -> (r: Option<ReadTokenResult>)
    requires
        at < text@.len(),
    ensures
        r == spec_read_comment_token(text@, at as int),
        r.is_some() ==> 1 <= r.unwrap().consumed_bytes <= text@.len() - at,
{
    if text.len() - at >= 2 && text[at] == SLASH && text[at + 1] == SLASH {
        let end = scan_line(text, at + 2);
        Some(ReadTokenResult { token: Jam1Token::Comment, consumed_bytes: end - at })
    } else if text[at] == SEMICOLON {
        let end = scan_line(text, at + 1);
        Some(ReadTokenResult { token: Jam1Token::Comment, consumed_bytes: end - at })
    } else {
        None
    }
}

pub open spec fn spec_read_punctuation_token(text: Seq<u8>, at: int) -> Option<ReadTokenResult> {
    match spec_punctuation_at(text, at) {
        Some((kind, len)) => Some(
            ReadTokenResult { token: Jam1Token::Punctuation(kind), consumed_bytes: len as usize },
        ),
        None => None,
    }
}

pub fn read_punctuation_token(text: &[u8], at: usize) -> (r: Option<ReadTokenResult>)
    requires
        at < text@.len(),
    ensures
        r == spec_read_punctuation_token(text@, at as int),
        r.is_some() ==> 1 <= r.unwrap().consumed_bytes <= text@.len() - at,
{
    match punctuation_at(text, at) {
        Some((kind, len)) => Some(
            ReadTokenResult { token: Jam1Token::Punctuation(kind), consumed_bytes: len },
        ),
        None => None,
    }
}

/// A directive is a dot and the word that follows it. A word that names no
/// directive gives an invalid-directive token.
pub open spec fn spec_read_directive_token(text: Seq<u8>, at: int) -> Option<ReadTokenResult> {
    if text[at] == DOT {
        let end = spec_scan_word(text, at + 1);
        Some(
            ReadTokenResult {
                token: match spec_directive_from_word(text.subrange(at + 1, end)) {
                    Some(kind) => Jam1Token::Directive(kind),
                    None => Jam1Token::InvalidDirective,
                },
                consumed_bytes: (end - at) as usize,
            },
        )
    } else {
        None
    }
}

/// A copy of the bytes from `from` up to `to`.
pub fn copy_range(text: &[u8], from: usize, to: usize) -> (word: Vec<u8>)
    requires
        from <= to <= text@.len(),
    ensures
        word@ == text@.subrange(from as int, to as int),
{
    let mut word: Vec<u8> = Vec::new();
    let mut i: usize = from;
    while i < to
        invariant
            from <= i <= to <= text@.len(),
            word@ == text@.subrange(from as int, i as int),
        decreases to - i,
    {
        word.push(text[i]);
        i += 1;
        assert(word@ =~= text@.subrange(from as int, i as int));
    }
    word
}

pub fn read_directive_token(text: &[u8], at: usize) -> (r: Option<ReadTokenResult>)
    requires
        at < text@.len(),
    ensures
        r == spec_read_directive_token(text@, at as int),
        r.is_some() ==> 1 <= r.unwrap().consumed_bytes <= text@.len() - at,
{
    if text[at] == DOT {
        let end = scan_word(text, at + 1);
        let word = copy_range(text, at + 1, end);
        let token = match directive_from_word(word.as_slice()) {
            Some(kind) => Jam1Token::Directive(kind),
            None => Jam1Token::InvalidDirective,
        };
        Some(ReadTokenResult { token, consumed_bytes: end - at })
    } else {
        None
    }
}

/// The byte with an upper-case ASCII letter turned into lower case.
pub open spec fn spec_lower(b: u8) -> u8 {
    if UPPER_A <= b <= UPPER_Z {
        (b + 32) as u8
    } else {
        b
    }
}

/// The word in lower case, as far as ASCII letters go.
pub open spec fn spec_to_ascii_lowercase(word: Seq<u8>) -> Seq<u8> {
    Seq::new(word.len(), |i: int| spec_lower(word[i]))
}

pub fn to_ascii_lowercase(word: &[u8]) -> (lower: Vec<u8>)
    ensures
        lower@ == spec_to_ascii_lowercase(word@),
{
    let mut lower: Vec<u8> = Vec::new();
    let mut i: usize = 0;
    while i < word.len()
        invariant
            i <= word@.len(),
            lower@ == spec_to_ascii_lowercase(word@.take(i as int)),
        decreases word@.len() - i,
    {
        let b = word[i];
        lower.push(
            if UPPER_A <= b && b <= UPPER_Z {
                b + 32
            } else {
                b
            },
        );
        i += 1;
        assert(lower@ =~= spec_to_ascii_lowercase(word@.take(i as int)));
    }
    assert(word@.take(i as int) =~= word@);
    lower
}

/// What the word stands for: a register, an I/O port or a mnemonic,
/// whatever its case, and else a name of the program's own.
pub open spec fn spec_classify_word(word: Seq<u8>) -> Jam1Token {
    let lower = spec_to_ascii_lowercase(word);
    match spec_register_from_word(lower) {
        Some(kind) => Jam1Token::Register(kind),
        None => match spec_io_register_from_word(lower) {
            Some(kind) => Jam1Token::IoRegister(kind),
            None => match spec_mnemonic_from_word(lower) {
                Some(kind) => Jam1Token::Mnemonic(kind),
                None => Jam1Token::Identifier,
            },
        },
    }
}

pub fn classify_word(word: &[u8]) -> (token: Jam1Token)
    ensures
        token == spec_classify_word(word@),
{
    let lower = to_ascii_lowercase(word);
    match register_from_word(lower.as_slice()) {
        Some(kind) => Jam1Token::Register(kind),
        None => match io_register_from_word(lower.as_slice()) {
            Some(kind) => Jam1Token::IoRegister(kind),
            None => match mnemonic_from_word(lower.as_slice()) {
                Some(kind) => Jam1Token::Mnemonic(kind),
                None => Jam1Token::Identifier,
            },
        },
    }
}

/// A word that starts with a letter or an underscore.
pub open spec fn spec_read_identifier_token(text: Seq<u8>, at: int) -> Option<ReadTokenResult> {
    if spec_is_word_start(text[at]) {
        let end = spec_scan_word(text, at + 1);
        Some(
            ReadTokenResult {
                token: spec_classify_word(text.subrange(at, end)),
                consumed_bytes: (end - at) as usize,
            },
        )
    } else {
        None
    }
}

pub fn read_identifier_token(text: &[u8], at: usize) -> (r: Option<ReadTokenResult>)
    requires
        at < text@.len(),
    ensures
        r == spec_read_identifier_token(text@, at as int),
        r.is_some() ==> 1 <= r.unwrap().consumed_bytes <= text@.len() - at,
{
    if is_word_start(text[at]) {
        let end = scan_word(text, at + 1);
        let word = copy_range(text, at, end);
        Some(ReadTokenResult { token: classify_word(word.as_slice()), consumed_bytes: end - at })
    } else {
        None
    }
}

/// The value of the digit `b` in the base `radix`, if it is one.
pub open spec fn spec_digit_value(b: u8, radix: u8) -> Option<u8> {
    let value = if DIGIT_0 <= b <= DIGIT_9 {
        (b - DIGIT_0) as int
    } else if LOWER_A <= b <= LOWER_Z {
        b - LOWER_A + 10
    } else if UPPER_A <= b <= UPPER_Z {
        b - UPPER_A + 10
    } else {
        255
    };
    if value < radix {
        Some(value as u8)
    } else {
        None
    }
}

#[verifier::when_used_as_spec(spec_digit_value)]
pub fn digit_value(b: u8, radix: u8) -> (r: Option<u8>)
    ensures
        r == spec_digit_value(b, radix),
{
    let value: u8 = if DIGIT_0 <= b && b <= DIGIT_9 {
        b - DIGIT_0
    } else if LOWER_A <= b && b <= LOWER_Z {
        b - LOWER_A + 10
    } else if UPPER_A <= b && b <= UPPER_Z {
        b - UPPER_A + 10
    } else {
        255
    };
    if value < radix {
        Some(value)
    } else {
        None
    }
}

/// The value of the digits from `at` on in the base `radix`, given that
/// the digits before stand for `acc`. Underscores are skipped. There is no
/// value if a byte is no digit, if the value does not fit 63 bits, or if
/// there is no digit at all (`seen` says whether there was one).
pub open spec fn spec_digits_value(digits: Seq<u8>, radix: u8, at: int, acc: int, seen: bool)
    -> Option<i64>
    decreases digits.len() - at,
{
    if at < 0 || at >= digits.len() {
        if seen && 0 <= acc <= i64::MAX {
            Some(acc as i64)
        } else {
            None
        }
    } else if digits[at] == UNDERSCORE {
        spec_digits_value(digits, radix, at + 1, acc, seen)
    } else {
        match spec_digit_value(digits[at], radix) {
            None => None,
            Some(d) => if acc * radix + d > i64::MAX {
                None
            } else {
                spec_digits_value(digits, radix, at + 1, acc * radix + d, true)
            },
        }
    }
}

/// The base that the prefix of an integer literal asks for and the length
/// of the prefix: `0x` for 16, `0o` for 8, `0b` for 2, in either case.
pub open spec fn spec_radix_prefix(word: Seq<u8>) -> (u8, int) {
    if word.len() >= 2 && word[0] == DIGIT_0 {
        if word[1] == LOWER_X || word[1] == UPPER_X {
            (16, 2)
        } else if word[1] == LOWER_O || word[1] == UPPER_O {
            (8, 2)
        } else if word[1] == LOWER_B || word[1] == UPPER_B {
            (2, 2)
        } else {
            (10, 0)
        }
    } else {
        (10, 0)
    }
}

/// The value of the integer literal `word`.
pub open spec fn spec_parse_integer(word: Seq<u8>) -> Option<i64> {
    let (radix, skip) = spec_radix_prefix(word);
    spec_digits_value(word, radix, skip, 0, false)
}

pub fn parse_integer(word: &[u8]) -> (r: Option<i64>)
    ensures
        r == spec_parse_integer(word@),
{
    let (radix, skip): (u8, usize) = if word.len() >= 2 && word[0] == DIGIT_0 {
        if word[1] == LOWER_X || word[1] == UPPER_X {
            (16, 2)
        } else if word[1] == LOWER_O || word[1] == UPPER_O {
            (8, 2)
        } else if word[1] == LOWER_B || word[1] == UPPER_B {
            (2, 2)
        } else {
            (10, 0)
        }
    } else {
        (10, 0)
    };
    let mut at: usize = skip;
    let mut acc: i64 = 0;
    let mut seen = false;
    while at < word.len()
        invariant
            skip <= at <= word@.len(),
            0 <= acc,
            2 <= radix <= 16,
            spec_parse_integer(word@) == spec_digits_value(word@, radix, at as int, acc as int, seen),
        decreases word@.len() - at,
    {
        let b = word[at];
        if b != UNDERSCORE {
            match digit_value(b, radix) {
                None => {
                    return None;
                },
                Some(d) => {
                    assert(acc * radix <= i64::MAX * 16) by (nonlinear_arith)
                        requires
                            0 <= acc <= i64::MAX,
                            2 <= radix <= 16,
                    ;
                    let wide: i128 = (acc as i128) * (radix as i128) + (d as i128);
                    if wide > i64::MAX as i128 {
                        return None;
                    }
                    acc = wide as i64;
                    seen = true;
                },
            }
        }
        at += 1;
    }
    if seen {
        Some(acc)
    } else {
        None
    }
}

/// A word that starts with a digit.
pub open spec fn spec_read_integer_literal_token(text: Seq<u8>, at: int) -> Option<
    ReadTokenResult,
> {
    if spec_is_digit(text[at]) {
        let end = spec_scan_word(text, at + 1);
        Some(
            ReadTokenResult {
                token: match spec_parse_integer(text.subrange(at, end)) {
                    Some(value) => Jam1Token::IntegerLiteral(value),
                    None => Jam1Token::InvalidIntegerLiteral,
                },
                consumed_bytes: (end - at) as usize,
            },
        )
    } else {
        None
    }
}

pub fn read_integer_literal_token(text: &[u8], at: usize) -> (r: Option<ReadTokenResult>)
    requires
        at < text@.len(),
    ensures
        r == spec_read_integer_literal_token(text@, at as int),
        r.is_some() ==> 1 <= r.unwrap().consumed_bytes <= text@.len() - at,
{
    if is_digit(text[at]) {
        let end = scan_word(text, at + 1);
        let word = copy_range(text, at, end);
        let token = match parse_integer(word.as_slice()) {
            Some(value) => Jam1Token::IntegerLiteral(value),
            None => Jam1Token::InvalidIntegerLiteral,
        };
        Some(ReadTokenResult { token, consumed_bytes: end - at })
    } else {
        None
    }
}

/// What an escape sequence in a string literal comes to.
#[derive(Debug, Clone, Copy, PartialEq, Eq, Structural)]
pub enum Escape {
    /// It stands for the character `code`; the literal goes on at `next`.
    Char { code: u32, next: usize },
    /// It stands for nothing; the literal goes on at `next`.
    Invalid { error: ParseStringError, next: usize },
    /// The line or the text ends within it.
    Unterminated,
}

/// Reads `count` characters from `at` on as hexadecimal digits, given that
/// the digits before stand for `acc`. Gives the value, which is `None` if
/// a character was no digit, and where the characters end. `None` if the
/// text ends before `count` characters.
pub open spec fn spec_hex_digits(text: Seq<u8>, at: int, count: nat, acc: Option<int>) -> Option<
    (Option<int>, int),
>
    decreases count,
{
    if count == 0 {
        Some((acc, at))
    } else if at < 0 || at >= text.len() {
        None
    } else {
        let next = match (acc, spec_digit_value(text[at], 16)) {
            (Some(a), Some(d)) => Some(a * 16 + d),
            _ => None,
        };
        spec_hex_digits(text, at + utf8::spec_char_len(text, at), (count - 1) as nat, next)
    }
}

fn hex_digits(text: &[u8], at: usize, count: u8) -> (r: Option<(Option<u32>, usize)>)
    requires
        at <= text@.len(),
        count == 2 || count == 4,
    ensures
        match spec_hex_digits(text@, at as int, count as nat, Some(0)) {
            Some((value, end)) => {
                &&& r.is_some()
                &&& r.unwrap().1 == end
                &&& at < end <= text@.len()
                &&& match value {
                    Some(v) => r.unwrap().0 == Some(v as u32) && 0 <= v < 65536 && (count == 2
                        ==> v < 256),
                    None => r.unwrap().0.is_none(),
                }
            },
            None => r.is_none(),
        },
{
    let mut value: Option<u32> = Some(0);
    let mut pos: usize = at;
    let mut left: u8 = count;
    while left > 0
        invariant
            at <= pos <= text@.len(),
            left <= count <= 4,
            left < count ==> pos > at,
            match value {
                Some(v) => {
                    &&& count - left == 0 ==> v == 0
                    &&& count - left == 1 ==> v < 16
                    &&& count - left == 2 ==> v < 256
                    &&& count - left == 3 ==> v < 4096
                    &&& count - left == 4 ==> v < 65536
                },
                None => true,
            },
            spec_hex_digits(text@, at as int, count as nat, Some(0)) == spec_hex_digits(
                text@,
                pos as int,
                left as nat,
                match value {
                    Some(v) => Some(v as int),
                    None => None,
                },
            ),
        decreases left,
    {
        if pos >= text.len() {
            return None;
        }
        let len = utf8::char_len(text, pos);
        value = match (value, digit_value(text[pos], 16)) {
            (Some(v), Some(d)) => Some(v * 16 + d as u32),
            _ => None,
        };
        pos = pos + len;
        left = left - 1;
    }
    Some((value, pos))
}

/// What the escape sequence comes to whose first character after the
/// backslash stands at `at`, in a literal that starts at `start`.
pub open spec fn spec_escape(text: Seq<u8>, start: int, at: int) -> Escape {
    if at >= text.len() {
        Escape::Unterminated
    } else {
        let c = text[at];
        let next = (at + 1) as usize;
        if c == LOWER_R {
            Escape::Char { code: 0x0D, next }
        } else if c == LOWER_N {
            Escape::Char { code: 0x0A, next }
        } else if c == LOWER_T {
            Escape::Char { code: 0x09, next }
        } else if c == DIGIT_0 {
            Escape::Char { code: 0, next }
        } else if c == QUOTE {
            Escape::Char { code: 0x22, next }
        } else if c == BACKSLASH {
            Escape::Char { code: 0x5C, next }
        } else if c == LOWER_X || c == LOWER_U {
            match spec_hex_digits(
                text,
                at + 1,
                if c == LOWER_X {
                    2
                } else {
                    4
                },
                Some(0),
            ) {
                None => Escape::Unterminated,
                Some((value, end)) => if value.is_some() && utf8::spec_is_scalar(
                    value.unwrap() as u32,
                ) {
                    Escape::Char { code: value.unwrap() as u32, next: end as usize }
                } else {
                    Escape::Invalid {
                        error: ParseStringError::InvalidEscapeSequence {
                            start: (at - 1 - start) as usize,
                            end: (end - start) as usize,
                        },
                        next: end as usize,
                    }
                },
            }
        } else if c == LINE_FEED {
            Escape::Unterminated
        } else {
            let end = at + utf8::spec_char_len(text, at);
            Escape::Invalid {
                error: ParseStringError::InvalidEscapeSequence {
                    start: (at - 1 - start) as usize,
                    end: (end - start) as usize,
                },
                next: end as usize,
            }
        }
    }
}

pub fn process_escape_sequence(text: &[u8], start: usize, at: usize) -> (r: Escape)
    requires
        start < at <= text@.len(),
    ensures
        r == spec_escape(text@, start as int, at as int),
        match r {
            Escape::Char { code, next } => at < next <= text@.len() && code <= utf8::MAX_CODE_POINT,
            Escape::Invalid { error, next } => at < next <= text@.len(),
            Escape::Unterminated => true,
        },
{
    if at >= text.len() {
        return Escape::Unterminated;
    }
    let c = text[at];
    if c == LOWER_R {
        Escape::Char { code: 0x0D, next: at + 1 }
    } else if c == LOWER_N {
        Escape::Char { code: 0x0A, next: at + 1 }
    } else if c == LOWER_T {
        Escape::Char { code: 0x09, next: at + 1 }
    } else if c == DIGIT_0 {
        Escape::Char { code: 0, next: at + 1 }
    } else if c == QUOTE {
        Escape::Char { code: 0x22, next: at + 1 }
    } else if c == BACKSLASH {
        Escape::Char { code: 0x5C, next: at + 1 }
    } else if c == LOWER_X || c == LOWER_U {
        let count: u8 = if c == LOWER_X {
            2
        } else {
            4
        };
        match hex_digits(text, at + 1, count) {
            None => Escape::Unterminated,
            Some((value, end)) => {
                match value {
                    Some(code) => {
                        if utf8::is_scalar(code) {
                            return Escape::Char { code, next: end };
                        }
                    },
                    None => {},
                }
                Escape::Invalid {
                    error: ParseStringError::InvalidEscapeSequence {
                        start: at - 1 - start,
                        end: end - start,
                    },
                    next: end,
                }
            },
        }
    } else if c == LINE_FEED {
        Escape::Unterminated
    } else {
        let end = at + utf8::char_len(text, at);
        Escape::Invalid {
            error: ParseStringError::InvalidEscapeSequence {
                start: at - 1 - start,
                end: end - start,
            },
            next: end,
        }
    }
}

/// What a string literal comes to: the bytes it stands for, what is wrong
/// with it, and where it ends.
pub struct StringScan {
    pub value: Seq<u8>,
    pub errors: Seq<ParseStringError>,
    pub end: int,
}

/// Scans the string literal that starts with the quote at `start`, from
/// `at` on, with what was found so far. The literal ends after the closing
/// quote. If the line or the text ends first the literal ends there and
/// lacks its quote. An escape that stands for nothing is an error and the
/// scan goes on after it.
pub open spec fn spec_scan_string(
    text: Seq<u8>,
    start: int,
    at: int,
    value: Seq<u8>,
    errors: Seq<ParseStringError>,
) -> StringScan
    decreases text.len() - at,
{
    if at < 0 || at >= text.len() {
        StringScan {
            value,
            errors: errors.push(ParseStringError::MissingClosingQuote),
            end: text.len() as int,
        }
    } else if text[at] == BACKSLASH {
        match spec_escape(text, start, at + 1) {
            Escape::Char { code, next } => if at < next <= text.len() {
                spec_scan_string(text, start, next as int, value + utf8::spec_encode(code), errors)
            } else {
                StringScan { value, errors, end: at }
            },
            Escape::Invalid { error, next } => if at < next <= text.len() {
                spec_scan_string(text, start, next as int, value, errors.push(error))
            } else {
                StringScan { value, errors, end: at }
            },
            Escape::Unterminated => StringScan {
                value,
                errors: errors.push(ParseStringError::MissingClosingQuote),
                end: at + 1,
            },
        }
    } else if text[at] == QUOTE {
        StringScan { value, errors, end: at + 1 }
    } else if text[at] == LINE_FEED {
        StringScan { value, errors: errors.push(ParseStringError::MissingClosingQuote), end: at }
    } else {
        spec_scan_string(text, start, at + 1, value.push(text[at]), errors)
    }
}

/// The string literal that starts with the quote at `start`.
pub open spec fn spec_string_literal(text: Seq<u8>, start: int) -> StringScan {
    spec_scan_string(text, start, start + 1, Seq::empty(), Seq::empty())
}

/// Scans the string literal at `start`: its value, its errors, its end.
pub fn scan_string_literal(text: &[u8], start: usize) -> (r: (Vec<u8>, Vec<ParseStringError>, usize))
    requires
        start < text@.len(),
    ensures
        r.0@ == spec_string_literal(text@, start as int).value,
        r.1@ == spec_string_literal(text@, start as int).errors,
        r.2 == spec_string_literal(text@, start as int).end,
        start < r.2 <= text@.len(),
{
    let mut value: Vec<u8> = Vec::new();
    let mut errors: Vec<ParseStringError> = Vec::new();
    let len = text.len();
    let mut at: usize = start + 1;
    while at < text.len()
        invariant
            start < at <= text@.len(),
            spec_string_literal(text@, start as int) == spec_scan_string(
                text@,
                start as int,
                at as int,
                value@,
                errors@,
            ),
        decreases text@.len() - at,
    {
        let c = text[at];
        if c == BACKSLASH {
            match process_escape_sequence(text, start, at + 1) {
                Escape::Char { code, next } => {
                    utf8::encode(code, &mut value);
                    at = next;
                },
                Escape::Invalid { error, next } => {
                    errors.push(error);
                    at = next;
                },
                Escape::Unterminated => {
                    errors.push(ParseStringError::MissingClosingQuote);
                    return (value, errors, at + 1);
                },
            }
        } else if c == QUOTE {
            return (value, errors, at + 1);
        } else if c == LINE_FEED {
            errors.push(ParseStringError::MissingClosingQuote);
            return (value, errors, at);
        } else {
            value.push(c);
            at = at + 1;
        }
    }
    errors.push(ParseStringError::MissingClosingQuote);
    (value, errors, at)
}

/// A string literal starts with a double quote.
pub open spec fn spec_read_string_literal_token(text: Seq<u8>, at: int) -> Option<ReadTokenResult> {
    if text[at] == QUOTE {
        let scan = spec_string_literal(text, at);
        Some(
            ReadTokenResult {
                token: if scan.errors.len() == 0 {
                    Jam1Token::StringLiteral
                } else {
                    Jam1Token::InvalidStringLiteral
                },
                consumed_bytes: (scan.end - at) as usize,
            },
        )
    } else {
        None
    }
}

pub fn read_string_literal_token(text: &[u8], at: usize) -> (r: Option<ReadTokenResult>)
    requires
        at < text@.len(),
    ensures
        r == spec_read_string_literal_token(text@, at as int),
        r.is_some() ==> 1 <= r.unwrap().consumed_bytes <= text@.len() - at,
{
    if text[at] == QUOTE {
        let (_, errors, end) = scan_string_literal(text, at);
        Some(
            ReadTokenResult {
                token: if errors.len() == 0 {
                    Jam1Token::StringLiteral
                } else {
                    Jam1Token::InvalidStringLiteral
                },
                consumed_bytes: end - at,
            },
        )
    } else {
        None
    }
}

/// The token that starts at `at`: a line feed, a comment, a punctuation
/// mark, a directive, a word, a number or a string literal, tried in this
/// order. A character that starts none of them is a token of its own.
pub open spec fn spec_read_token(text: Seq<u8>, at: int) -> ReadTokenResult {
    if text[at] == LINE_FEED {
        ReadTokenResult { token: Jam1Token::NewLine, consumed_bytes: 1 }
    } else if spec_read_comment_token(text, at).is_some() {
        spec_read_comment_token(text, at).unwrap()
    } else if spec_read_punctuation_token(text, at).is_some() {
        spec_read_punctuation_token(text, at).unwrap()
    } else if spec_read_directive_token(text, at).is_some() {
        spec_read_directive_token(text, at).unwrap()
    } else if spec_read_identifier_token(text, at).is_some() {
        spec_read_identifier_token(text, at).unwrap()
    } else if spec_read_integer_literal_token(text, at).is_some() {
        spec_read_integer_literal_token(text, at).unwrap()
    } else if spec_read_string_literal_token(text, at).is_some() {
        spec_read_string_literal_token(text, at).unwrap()
    } else {
        ReadTokenResult {
            token: Jam1Token::InvalidChar(utf8::spec_decode(text, at)),
            consumed_bytes: utf8::spec_char_len(text, at) as usize,
        }
    }
}

pub fn read_token(text: &[u8], at: usize) -> (r: ReadTokenResult)
    requires
        at < text@.len(),
    ensures
        r == spec_read_token(text@, at as int),
        1 <= r.consumed_bytes <= text@.len() - at,
{
    if text[at] == LINE_FEED {
        return ReadTokenResult { token: Jam1Token::NewLine, consumed_bytes: 1 };
    }
    match read_comment_token(text, at) {
        Some(result) => {
            return result;
        },
        None => {},
    }
    match read_punctuation_token(text, at) {
        Some(result) => {
            return result;
        },
        None => {},
    }
    match read_directive_token(text, at) {
        Some(result) => {
            return result;
        },
        None => {},
    }
    match read_identifier_token(text, at) {
        Some(result) => {
            return result;
        },
        None => {},
    }
    match read_integer_literal_token(text, at) {
        Some(result) => {
            return result;
        },
        None => {},
    }
    match read_string_literal_token(text, at) {
        Some(result) => {
            return result;
        },
        None => {},
    }
    ReadTokenResult {
        token: Jam1Token::InvalidChar(utf8::decode(text, at)),
        consumed_bytes: utf8::char_len(text, at),
    }
}

/// Reads the tokens of this assembly language.
#[derive(Debug, Clone, Copy, PartialEq, Eq, Structural)]
pub struct Jam1TokenReader {}

impl Jam1TokenReader {
    /// The token that starts at `at`.
    pub fn read_token(text: &[u8], at: usize) -> (r: ReadTokenResult)
        requires
            at < text@.len(),
        ensures
            r == spec_read_token(text@, at as int),
            1 <= r.consumed_bytes <= text@.len() - at,
    {
        read_token(text, at)
    }
}

/// Where the white space that starts at `at` ends. A line feed is no white
/// space here: it is a token.
pub open spec fn spec_skip_whitespace(text: Seq<u8>, at: int) -> int
    decreases text.len() - at,
{
    if 0 <= at < text.len() && text[at] != LINE_FEED && utf8::spec_is_whitespace(
        utf8::spec_decode(text, at),
    ) {
        spec_skip_whitespace(text, at + utf8::spec_char_len(text, at))
    } else {
        at
    }
}

pub fn skip_whitespace(text: &[u8], at: usize) -> (end: usize)
    requires
        at <= text@.len(),
    ensures
        end == spec_skip_whitespace(text@, at as int),
        at <= end <= text@.len(),
{
    let mut i: usize = at;
    while i < text.len() && text[i] != LINE_FEED && utf8::is_whitespace(utf8::decode(text, i))
        invariant
            at <= i <= text@.len(),
            spec_skip_whitespace(text@, at as int) == spec_skip_whitespace(text@, i as int),
        decreases text@.len() - i,
    {
        i = i + utf8::char_len(text, i);
    }
    i
}

/// The tokens of `text` from `at` on, after the tokens `tokens`.
pub open spec fn spec_lex(file_id: FileId, text: Seq<u8>, at: int, tokens: Seq<Token>) -> Seq<Token>
    decreases text.len() - at,
{
    let from = spec_skip_whitespace(text, at);
    if from < at || from >= text.len() {
        tokens
    } else {
        let read = spec_read_token(text, from);
        if read.consumed_bytes == 0 || from + read.consumed_bytes > text.len() {
            tokens
        } else {
            spec_lex(
                file_id,
                text,
                from + read.consumed_bytes,
                tokens.push(
                    Token {
                        span: TextSpan {
                            file_id,
                            start_byte_offset: from as usize,
                            end_byte_offset: (from + read.consumed_bytes) as usize,
                        },
                        kind: read.token,
                    },
                ),
            )
        }
    }
}

/// The tokens of the file `file_id` with the text `text`.
pub open spec fn spec_tokenize(file_id: FileId, text: Seq<u8>) -> Seq<Token> {
    spec_lex(file_id, text, 0, Seq::empty())
}

/// Splits `text` into tokens. White space between tokens is dropped, line
/// feeds are kept.
pub fn tokenize(file_id: FileId, text: &[u8]) -> (tokens: Vec<Token>)
    ensures
        tokens@ == spec_tokenize(file_id, text@),
{
    let mut tokens: Vec<Token> = Vec::new();
    let mut at: usize = 0;
    loop
        invariant
            at <= text@.len(),
            spec_tokenize(file_id, text@) == spec_lex(file_id, text@, at as int, tokens@),
        ensures
            tokens@ == spec_tokenize(file_id, text@),
        decreases text@.len() - at,
    {
        let from = skip_whitespace(text, at);
        if from >= text.len() {
            break ;
        }
        let read = read_token(text, from);
        tokens.push(
            Token {
                span: TextSpan {
                    file_id,
                    start_byte_offset: from,
                    end_byte_offset: from + read.consumed_bytes,
                },
                kind: read.token,
            },
        );
        at = from + read.consumed_bytes;
    }
    tokens
}

/// Every token covers at least one byte, the tokens follow one another in
/// the text, and none reaches past its end.
pub proof fn lemma_lex_spans(file_id: FileId, text: Seq<u8>, at: int, tokens: Seq<Token>)
    requires
        0 <= at <= text.len(),
        text.len() <= usize::MAX,
        forall|i: int|
            0 <= i < tokens.len() ==> {
                &&& (#[trigger] tokens[i]).span.file_id == file_id
                &&& tokens[i].span.start_byte_offset < tokens[i].span.end_byte_offset <= at
            },
        forall|i: int, j: int|
            0 <= i < j < tokens.len() ==> (#[trigger] tokens[i]).span.end_byte_offset <= (
            #[trigger] tokens[j]).span.start_byte_offset,
    ensures
        ({
            let all = spec_lex(file_id, text, at, tokens);
            &&& all.len() >= tokens.len()
            &&& forall|i: int|
                0 <= i < all.len() ==> {
                    &&& (#[trigger] all[i]).span.file_id == file_id
                    &&& all[i].span.start_byte_offset < all[i].span.end_byte_offset <= text.len()
                }
            &&& forall|i: int, j: int|
                0 <= i < j < all.len() ==> (#[trigger] all[i]).span.end_byte_offset <= (
                #[trigger] all[j]).span.start_byte_offset
        }),
    decreases text.len() - at,
{
    lemma_skip_whitespace_bounds(text, at);
    let from = spec_skip_whitespace(text, at);
    if from < text.len() {
        let read = spec_read_token(text, from);
        lemma_read_token_bounds(text, from);
        let token = Token {
            span: TextSpan {
                file_id,
                start_byte_offset: from as usize,
                end_byte_offset: (from + read.consumed_bytes) as usize,
            },
            kind: read.token,
        };
        let next = tokens.push(token);
        assert forall|i: int, j: int| 0 <= i < j < next.len() implies (
        #[trigger] next[i]).span.end_byte_offset <= (#[trigger] next[j]).span.start_byte_offset by {
            if j == tokens.len() {
                assert(tokens[i].span.end_byte_offset <= at);
            }
        }
        lemma_lex_spans(file_id, text, from + read.consumed_bytes, next);
    }
}

pub proof fn lemma_skip_whitespace_bounds(text: Seq<u8>, at: int)
    requires
        0 <= at <= text.len(),
    ensures
        at <= spec_skip_whitespace(text, at) <= text.len(),
    decreases text.len() - at,
{
    if at < text.len() && text[at] != LINE_FEED && utf8::spec_is_whitespace(
        utf8::spec_decode(text, at),
    ) {
        lemma_skip_whitespace_bounds(text, at + utf8::spec_char_len(text, at));
    }
}

pub proof fn lemma_scan_line_bounds(text: Seq<u8>, at: int)
    requires
        0 <= at <= text.len(),
    ensures
        at <= spec_scan_line(text, at) <= text.len(),
    decreases text.len() - at,
{
    if at < text.len() && text[at] != LINE_FEED {
        lemma_scan_line_bounds(text, at + 1);
    }
}

pub proof fn lemma_hex_digits_bounds(text: Seq<u8>, at: int, count: nat, acc: Option<int>)
    requires
        0 <= at <= text.len(),
    ensures
        match spec_hex_digits(text, at, count, acc) {
            Some((_, end)) => at <= end <= text.len() && (count > 0 ==> at < end),
            None => true,
        },
    decreases count,
{
    if count > 0 && at < text.len() {
        let next = match (acc, spec_digit_value(text[at], 16)) {
            (Some(a), Some(d)) => Some(a * 16 + d),
            _ => None,
        };
        lemma_hex_digits_bounds(text, at + utf8::spec_char_len(text, at), (count - 1) as nat, next);
    }
}

pub proof fn lemma_scan_string_bounds(
    text: Seq<u8>,
    start: int,
    at: int,
    value: Seq<u8>,
    errors: Seq<ParseStringError>,
)
    requires
        0 <= start < at <= text.len(),
    ensures
        start < spec_scan_string(text, start, at, value, errors).end <= text.len(),
    decreases text.len() - at,
{
    if at < text.len() {
        if text[at] == BACKSLASH {
            if at + 1 < text.len() && (text[at + 1] == LOWER_X || text[at + 1] == LOWER_U) {
                lemma_hex_digits_bounds(
                    text,
                    at + 2,
                    if text[at + 1] == LOWER_X {
                        2
                    } else {
                        4
                    },
                    Some(0),
                );
            }
            match spec_escape(text, start, at + 1) {
                Escape::Char { code, next } => {
                    if at < next <= text.len() {
                        lemma_scan_string_bounds(
                            text,
                            start,
                            next as int,
                            value + utf8::spec_encode(code),
                            errors,
                        );
                    }
                },
                Escape::Invalid { error, next } => {
                    if at < next <= text.len() {
                        lemma_scan_string_bounds(
                            text,
                            start,
                            next as int,
                            value,
                            errors.push(error),
                        );
                    }
                },
                Escape::Unterminated => {},
            }
        } else if text[at] != QUOTE && text[at] != LINE_FEED {
            lemma_scan_string_bounds(text, start, at + 1, value.push(text[at]), errors);
        }
    }
}

/// A token takes up at least one byte and ends within the text.
pub proof fn lemma_read_token_bounds(text: Seq<u8>, at: int)
    requires
        0 <= at < text.len(),
        text.len() <= usize::MAX,
    ensures
        1 <= spec_read_token(text, at).consumed_bytes <= text.len() - at,
{
    lemma_scan_line_bounds(text, at + 1);
    if at + 2 <= text.len() {
        lemma_scan_line_bounds(text, at + 2);
    }
    lemma_scan_word_bounds(text, at + 1);
    if text[at] == QUOTE {
        lemma_scan_string_bounds(text, at, at + 1, Seq::empty(), Seq::empty());
    }
    if text[at] == LINE_FEED {
    } else if spec_read_comment_token(text, at).is_some() {
    } else if spec_read_punctuation_token(text, at).is_some() {
        assert(spec_punctuation_at(text, at).is_some());
        assert(1 <= spec_punctuation_at(text, at).unwrap().1 <= text.len() - at);
    } else if spec_read_directive_token(text, at).is_some() {
    } else if spec_read_identifier_token(text, at).is_some() {
    } else if spec_read_integer_literal_token(text, at).is_some() {
    } else if spec_read_string_literal_token(text, at).is_some() {
    } else {
        assert(1 <= utf8::spec_char_len(text, at) <= text.len() - at);
    }
}

} // verus!
