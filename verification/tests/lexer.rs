use jam1emu::assembler::lexer::{
    classify_word, parse_integer, process_escape_sequence, read_token, scan_string_literal,
    skip_whitespace, to_ascii_lowercase, tokenize, DirectiveKind, Escape, IoRegisterKind,
    Jam1Token, Jam1TokenReader, MnemonicKind, ParseStringError, PunctuationKind, ReadTokenResult, RegisterKind,
};
use jam1emu::assembler::span::{FileId, TextSpan};

fn kinds(text: &str) -> Vec<Jam1Token> {
    tokenize(FileId { index: 1 }, text.as_bytes()).into_iter().map(|t| t.kind).collect()
}

#[test]
fn tokens_carry_their_spans() {
    let tokens = tokenize(FileId { index: 3 }, "  mov\ta , 0x10\n".as_bytes());
    let spans: Vec<(usize, usize)> =
        tokens.iter().map(|t| (t.span.start_byte_offset, t.span.end_byte_offset)).collect();
    assert_eq!(spans, vec![(2, 5), (6, 7), (8, 9), (10, 14), (14, 15)]);
    assert!(tokens.iter().all(|t| t.span.file_id == FileId { index: 3 }));
    assert_eq!(
        tokens.iter().map(|t| t.kind).collect::<Vec<_>>(),
        vec![
            Jam1Token::Mnemonic(MnemonicKind::Mov),
            Jam1Token::Register(RegisterKind::A),
            Jam1Token::Punctuation(PunctuationKind::Comma),
            Jam1Token::IntegerLiteral(16),
            Jam1Token::NewLine,
        ]
    );
}

#[test]
fn white_space_is_dropped_and_line_feeds_are_kept() {
    assert_eq!(kinds("  \n  \t   \r\n "), vec![Jam1Token::NewLine, Jam1Token::NewLine]);
    assert_eq!(kinds(""), vec![]);
    assert_eq!(kinds("\u{a0}\u{3000}a"), vec![Jam1Token::Register(RegisterKind::A)]);
    assert_eq!(skip_whitespace(" \t\nx".as_bytes(), 0), 2);
}

#[test]
fn comments_run_to_the_end_of_the_line() {
    assert_eq!(
        kinds("nop // one\nnop ; two"),
        vec![
            Jam1Token::Mnemonic(MnemonicKind::Nop),
            Jam1Token::Comment,
            Jam1Token::NewLine,
            Jam1Token::Mnemonic(MnemonicKind::Nop),
            Jam1Token::Comment,
        ]
    );
    assert_eq!(
        read_token("// x\ny".as_bytes(), 0),
        ReadTokenResult { token: Jam1Token::Comment, consumed_bytes: 4 }
    );
    assert_eq!(
        Jam1TokenReader::read_token("\ny".as_bytes(), 0),
        ReadTokenResult { token: Jam1Token::NewLine, consumed_bytes: 1 }
    );
}

#[test]
fn punctuation_takes_the_longest_mark() {
    let marks: Vec<PunctuationKind> = kinds(", : = + - * / % ! & | ^ << >>> >> ( ) [ ] #")
        .into_iter()
        .map(|k| match k {
            Jam1Token::Punctuation(p) => p,
            other => panic!("{:?}", other),
        })
        .collect();
    assert_eq!(
        marks,
        vec![
            PunctuationKind::Comma, PunctuationKind::Colon, PunctuationKind::EqualSign, PunctuationKind::PlusSign, PunctuationKind::MinusSign, PunctuationKind::Asterisk, PunctuationKind::Slash, PunctuationKind::PercentSign,
            PunctuationKind::ExclamationMark, PunctuationKind::Ampersand, PunctuationKind::VerticalBar, PunctuationKind::Accent, PunctuationKind::DoubleLessThanSign,
            PunctuationKind::TrippleGreaterThanSign, PunctuationKind::DoubleGreaterThanSign, PunctuationKind::OpeningParenthesis, PunctuationKind::ClosingParenthesis,
            PunctuationKind::OpeningBracket, PunctuationKind::ClosingBracket, PunctuationKind::NumberSign,
        ]
    );
    assert_eq!(
        kinds(">>>>"),
        vec![
            Jam1Token::Punctuation(PunctuationKind::TrippleGreaterThanSign),
            Jam1Token::InvalidChar('>' as u32),
        ]
    );
    assert_eq!(kinds("<"), vec![Jam1Token::InvalidChar('<' as u32)]);
    for mark in marks {
        let text = mark.text();
        assert_eq!(read_token(&text, 0).token, Jam1Token::Punctuation(mark));
    }
}

#[test]
fn directives_are_case_sensitive() {
    assert_eq!(
        kinds(".offset .align .origin .section .include"),
        vec![
            Jam1Token::Directive(DirectiveKind::Offset),
            Jam1Token::Directive(DirectiveKind::Align),
            Jam1Token::Directive(DirectiveKind::Origin),
            Jam1Token::Directive(DirectiveKind::Section),
            Jam1Token::Directive(DirectiveKind::Include),
        ]
    );
    assert_eq!(kinds(".Offset"), vec![Jam1Token::InvalidDirective]);
    assert_eq!(kinds(".org_2"), vec![Jam1Token::InvalidDirective]);
    assert_eq!(kinds("."), vec![Jam1Token::InvalidDirective]);
    assert_eq!(DirectiveKind::Section.text(), b"section");
}

#[test]
fn words_name_registers_ports_and_mnemonics_in_any_case() {
    let registers = [
        ("a", RegisterKind::A),
        ("B", RegisterKind::B),
        ("c", RegisterKind::C),
        ("d", RegisterKind::D),
        ("tl", RegisterKind::TL),
        ("Th", RegisterKind::TH),
        ("SI", RegisterKind::SI),
        ("di", RegisterKind::DI),
        ("tx", RegisterKind::TX),
        ("ab", RegisterKind::AB),
        ("cd", RegisterKind::CD),
        ("ra", RegisterKind::RA),
        ("sp", RegisterKind::SP),
    ];
    for (word, kind) in registers {
        assert_eq!(classify_word(word.as_bytes()), Jam1Token::Register(kind));
        assert_eq!(classify_word(&kind.text()), Jam1Token::Register(kind));
    }
    let ports = [
        ("uart_data", IoRegisterKind::UartData),
        ("UART_CTRL", IoRegisterKind::UartControl),
        ("audio_data", IoRegisterKind::AudioData),
        ("cntrl_data", IoRegisterKind::ControllerData),
        ("vga", IoRegisterKind::VgaStatus),
        ("gpio", IoRegisterKind::Gpio),
    ];
    for (word, kind) in ports {
        assert_eq!(classify_word(word.as_bytes()), Jam1Token::IoRegister(kind));
        assert_eq!(classify_word(&kind.text()), Jam1Token::IoRegister(kind));
    }
    assert_eq!(classify_word(b"JnLe"), Jam1Token::Mnemonic(MnemonicKind::Jnle));
    assert_eq!(classify_word(b"callbd"), Jam1Token::Mnemonic(MnemonicKind::CallBd));
    assert_eq!(classify_word(b"test"), Jam1Token::Mnemonic(MnemonicKind::Test));
    assert_eq!(classify_word(b"tests"), Jam1Token::Identifier);
    assert_eq!(classify_word(b"_a"), Jam1Token::Identifier);
    assert_eq!(kinds("loop_1 x9"), vec![Jam1Token::Identifier, Jam1Token::Identifier]);
    assert_eq!(to_ascii_lowercase(b"MoV_\xC3\x89Z"), b"mov_\xC3\x89z");
}

#[test]
fn every_mnemonic_is_found_by_its_text() {
    let all = [
        MnemonicKind::Nop,
        MnemonicKind::Cnop,
        MnemonicKind::Mov,
        MnemonicKind::Inc,
        MnemonicKind::Incc,
        MnemonicKind::Dec,
        MnemonicKind::In,
        MnemonicKind::Out,
        MnemonicKind::Break,
        MnemonicKind::Lodsb,
        MnemonicKind::Stosb,
        MnemonicKind::Call,
        MnemonicKind::Ret,
        MnemonicKind::CallBd,
        MnemonicKind::RetBd,
        MnemonicKind::Jmp,
        MnemonicKind::Jo,
        MnemonicKind::Jno,
        MnemonicKind::Js,
        MnemonicKind::Jns,
        MnemonicKind::Jz,
        MnemonicKind::Jnz,
        MnemonicKind::Je,
        MnemonicKind::Jne,
        MnemonicKind::Jc,
        MnemonicKind::Jnc,
        MnemonicKind::Jnae,
        MnemonicKind::Jb,
        MnemonicKind::Jae,
        MnemonicKind::Jnb,
        MnemonicKind::Jbe,
        MnemonicKind::Jna,
        MnemonicKind::Ja,
        MnemonicKind::Jnbe,
        MnemonicKind::Jl,
        MnemonicKind::Jnge,
        MnemonicKind::Jge,
        MnemonicKind::Jnl,
        MnemonicKind::Jle,
        MnemonicKind::Jng,
        MnemonicKind::Jg,
        MnemonicKind::Jnle,
        MnemonicKind::Jlc,
        MnemonicKind::Jnlc,
        MnemonicKind::Push,
        MnemonicKind::Pop,
        MnemonicKind::Clc,
        MnemonicKind::Shl,
        MnemonicKind::Shr,
        MnemonicKind::Add,
        MnemonicKind::Addc,
        MnemonicKind::Addac,
        MnemonicKind::Sub,
        MnemonicKind::Subb,
        MnemonicKind::Subae,
        MnemonicKind::And,
        MnemonicKind::Or,
        MnemonicKind::Xor,
        MnemonicKind::Not,
        MnemonicKind::Cmp,
        MnemonicKind::Test,
    ];
    for kind in all {
        assert_eq!(classify_word(&kind.text()), Jam1Token::Mnemonic(kind));
    }
    assert_eq!(MnemonicKind::Subae.text(), b"subae");
}

#[test]
fn integer_literals_in_four_bases() {
    assert_eq!(parse_integer(b"0"), Some(0));
    assert_eq!(parse_integer(b"1_000"), Some(1000));
    assert_eq!(parse_integer(b"0x7f"), Some(127));
    assert_eq!(parse_integer(b"0XFF_ff"), Some(0xFFFF));
    assert_eq!(parse_integer(b"0o17"), Some(15));
    assert_eq!(parse_integer(b"0O7"), Some(7));
    assert_eq!(parse_integer(b"0b1010_1010"), Some(0xAA));
    assert_eq!(parse_integer(b"0B1"), Some(1));
    assert_eq!(parse_integer(b"9223372036854775807"), Some(i64::MAX));
    assert_eq!(parse_integer(b"0x7FFFFFFFFFFFFFFF"), Some(i64::MAX));
    assert_eq!(parse_integer(b"9223372036854775808"), None);
    assert_eq!(parse_integer(b"0x"), None);
    assert_eq!(parse_integer(b"0x_"), None);
    assert_eq!(parse_integer(b"12a"), None);
    assert_eq!(parse_integer(b"0b2"), None);
    assert_eq!(parse_integer(b"0o8"), None);
    assert_eq!(parse_integer(b"0xg"), None);
    assert_eq!(kinds("0x10 12ab"), vec![Jam1Token::IntegerLiteral(16), Jam1Token::InvalidIntegerLiteral]);
}

#[test]
fn string_literals_and_their_escapes() {
    let text = br#""a\r\n\t\0\"\\\x41\xe9\u20AC" rest"#;
    let (value, errors, end) = scan_string_literal(text, 0);
    assert_eq!(value, "a\r\n\t\0\"\\A\u{e9}\u{20ac}".as_bytes());
    assert!(errors.is_empty());
    assert_eq!(end, text.len() - 5);
    assert_eq!(kinds(r#""code""#), vec![Jam1Token::StringLiteral]);
    assert_eq!(kinds(r#""""#), vec![Jam1Token::StringLiteral]);
}

#[test]
fn string_literal_errors() {
    // The end of the text.
    let (value, errors, end) = scan_string_literal(b"\"abc", 0);
    assert_eq!(value, b"abc");
    assert_eq!(errors, vec![ParseStringError::MissingClosingQuote]);
    assert_eq!(end, 4);
    // The end of the line: the line feed is a token of its own.
    assert_eq!(
        kinds("\"abc\nnop"),
        vec![
            Jam1Token::InvalidStringLiteral,
            Jam1Token::NewLine,
            Jam1Token::Mnemonic(MnemonicKind::Nop),
        ]
    );
    // An escape that stands for nothing; the literal goes on.
    let (value, errors, end) = scan_string_literal(br#""a\qb\xZZc""#, 0);
    assert_eq!(value, b"abc");
    assert_eq!(
        errors,
        vec![
            ParseStringError::InvalidEscapeSequence { start: 2, end: 4 },
            ParseStringError::InvalidEscapeSequence { start: 5, end: 9 },
        ]
    );
    assert_eq!(end, 11);
    // A literal that ends within an escape.
    let (_, errors, end) = scan_string_literal(b"\"a\\", 0);
    assert_eq!(errors, vec![ParseStringError::MissingClosingQuote]);
    assert_eq!(end, 3);
    let (_, errors, end) = scan_string_literal(b"\"a\\x4", 0);
    assert_eq!(errors, vec![ParseStringError::MissingClosingQuote]);
    assert_eq!(end, 3);
    let (_, errors, _) = scan_string_literal(b"\"a\\\nb\"", 0);
    assert_eq!(errors, vec![ParseStringError::MissingClosingQuote]);
    // A surrogate is no character.
    let (value, errors, _) = scan_string_literal(br#""\uD800""#, 0);
    assert!(value.is_empty());
    assert_eq!(errors, vec![ParseStringError::InvalidEscapeSequence { start: 1, end: 7 }]);
    // A sign is no digit.
    let (_, errors, _) = scan_string_literal(br#""\x+1""#, 0);
    assert_eq!(errors, vec![ParseStringError::InvalidEscapeSequence { start: 1, end: 5 }]);
}

#[test]
fn escapes_one_by_one() {
    assert_eq!(process_escape_sequence(b"\"\\n", 0, 2), Escape::Char { code: 0x0A, next: 3 });
    assert_eq!(process_escape_sequence(b"\"\\x7F", 0, 2), Escape::Char { code: 0x7F, next: 5 });
    assert_eq!(process_escape_sequence(b"\"\\u00e9", 0, 2), Escape::Char { code: 0xE9, next: 7 });
    assert_eq!(process_escape_sequence(b"\"\\", 0, 2), Escape::Unterminated);
    assert_eq!(
        process_escape_sequence("\"\\\u{e9}".as_bytes(), 0, 2),
        Escape::Invalid {
            error: ParseStringError::InvalidEscapeSequence { start: 1, end: 4 },
            next: 4
        }
    );
}

#[test]
fn characters_that_start_no_token() {
    assert_eq!(
        kinds("@\u{20ac}$"),
        vec![
            Jam1Token::InvalidChar('@' as u32),
            Jam1Token::InvalidChar(0x20AC),
            Jam1Token::InvalidChar('$' as u32),
        ]
    );
    let tokens = tokenize(FileId::none(), "\u{20ac}".as_bytes());
    assert_eq!(tokens[0].span, TextSpan::new(FileId::none(), 0, 3));
}
