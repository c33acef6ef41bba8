use jam1emu::assembler::ast::{
    Expression, Instruction, JumpTarget, LabelValue, MovDestination, MovSource, Statement,
};
use jam1emu::assembler::eval::{EvalError, LabelState, LabelTable};
use jam1emu::assembler::lexer::{tokenize, Jam1Token, MnemonicKind, PunctuationKind, RegisterKind, Token};
use jam1emu::assembler::parser::{expression, parse, Expected, ParseError, ParseResult};
use jam1emu::assembler::span::{FileId, FileServer, TextSpan};

fn tokens(text: &str) -> Vec<Token> {
    tokenize(FileId { index: 1 }, text.as_bytes())
        .into_iter()
        .filter(|t| !matches!(t.kind, Jam1Token::Comment | Jam1Token::NewLine))
        .collect()
}

fn parse_line(text: &str) -> Result<Statement, ParseError> {
    parse(&tokens(text))
}

fn span(start: usize, end: usize) -> TextSpan {
    TextSpan::new(FileId { index: 1 }, start, end)
}

/// The value of the expression `text` with the labels `x` = 10 and
/// `pending`, which is not settled, and `failed`, which cannot be.
fn eval(text: &str) -> Result<i64, EvalError> {
    let source = format!("{} x pending failed", text);
    let mut files = FileServer::new();
    files.register_file_memory("<code>", &source).unwrap();
    let mut labels = LabelTable::new();
    labels.declare(b"x".to_vec(), TextSpan::empty());
    labels.declare(b"pending".to_vec(), TextSpan::empty());
    labels.declare(b"failed".to_vec(), TextSpan::empty());
    labels.set_state(0, LabelState::Known(10));
    labels.set_state(2, LabelState::Failed);
    let all = tokens(text);
    match expression(&all, 0) {
        ParseResult::Match { value, next } => {
            assert_eq!(next, all.len());
            value.try_eval(&files, &labels)
        }
        _ => panic!("no expression"),
    }
}

#[test]
fn operators_bind_by_level() {
    assert_eq!(eval("1 + 2 * 3"), Ok(7));
    assert_eq!(eval("(1 + 2) * 3"), Ok(9));
    assert_eq!(eval("1 | 2 ^ 3 & 4"), Ok(3));
    assert_eq!(eval("6 ^ 3 | 8"), Ok(13));
    assert_eq!(eval("1 << 4 + 1"), Ok(32));
    assert_eq!(eval("0xF0 & 0x3C >> 2"), Ok(0));
    assert_eq!(eval("10 - 4 - 3"), Ok(3));
    assert_eq!(eval("100 / 10 / 5"), Ok(2));
    assert_eq!(eval("2 * x + 1"), Ok(21));
}

#[test]
fn unary_operators_nest() {
    assert_eq!(eval("-5"), Ok(-5));
    assert_eq!(eval("--5"), Ok(5));
    assert_eq!(eval("+-!0"), Ok(1));
    assert_eq!(eval("!0"), Ok(-1));
    assert_eq!(eval("-x * 2"), Ok(-20));
    assert_eq!(eval("- (1 + 2)"), Ok(-3));
}

#[test]
fn arithmetic_wraps() {
    assert_eq!(eval("9223372036854775807 + 1"), Ok(i64::MIN));
    assert_eq!(eval("-9223372036854775807 - 2"), Ok(i64::MAX));
    assert_eq!(eval("9223372036854775807 * 2"), Ok(-2));
    assert_eq!(eval("(-9223372036854775807 - 1) / -1"), Ok(i64::MIN));
    assert_eq!(eval("(-9223372036854775807 - 1) % -1"), Ok(0));
    assert_eq!(eval("-(-9223372036854775807 - 1)"), Ok(i64::MIN));
    assert_eq!(eval("7 / 2"), Ok(3));
    assert_eq!(eval("-7 / 2"), Ok(-3));
    assert_eq!(eval("-7 % 2"), Ok(-1));
    assert_eq!(eval("7 % -2"), Ok(1));
}

#[test]
fn shifts() {
    assert_eq!(eval("1 << 63"), Ok(i64::MIN));
    assert_eq!(eval("1 << 64"), Ok(1));
    assert_eq!(eval("1 << -1"), Ok(i64::MIN));
    assert_eq!(eval("-16 >>> 2"), Ok(-4));
    assert_eq!(eval("-16 >>> 66"), Ok(-4));
    assert_eq!(eval("-1 >> 60"), Ok(15));
    assert_eq!(eval("-1 >> 0"), Ok(-1));
    assert_eq!(eval("-1 >> 64"), Ok(-1));
    assert_eq!(eval("0x100 >> 4"), Ok(0x10));
    assert_eq!(eval("-1 >> 63"), Ok(1));
}

#[test]
fn evaluation_errors() {
    assert_eq!(eval("1 / 0"), Err(EvalError::DivideByZero(span(0, 5))));
    assert_eq!(eval("2 + 1 % (x - 10)"), Err(EvalError::DivideByZero(span(4, 16))));
    assert_eq!(eval("1 + nowhere"), Err(EvalError::UndefinedSymbol(span(4, 11))));
    assert_eq!(eval("pending + nowhere"), Err(EvalError::MissingReferenceValue));
    assert_eq!(eval("nowhere + pending"), Err(EvalError::UndefinedSymbol(span(0, 7))));
    assert_eq!(eval("failed"), Err(EvalError::ErrorInReferenceEval));
    assert_eq!(eval("0xZ + 1"), Err(EvalError::InvalidLiteralValue(span(0, 3))));
}

#[test]
fn expression_spans() {
    let all = tokens("  (1 + x) * -2");
    match expression(&all, 0) {
        ParseResult::Match { value, .. } => {
            assert_eq!(value.span(), span(2, 14));
            match value {
                Expression::Multiplication(product) => {
                    assert_eq!(product.lhs().span(), span(2, 9));
                    assert_eq!(product.rhs().span(), span(12, 14));
                }
                _ => panic!("no product"),
            }
        }
        _ => panic!("no expression"),
    }
}

#[test]
fn expression_errors() {
    let unexpected = |token, expected| Err(ParseError::UnexpectedToken { token, expected });
    assert!(matches!(parse_line("x = 1 +").err(), Some(ParseError::UnexpectedToken {
        expected: Expected::Expression, ..
    })));
    assert_eq!(parse_line("x = 1 +").map(|_| ()), unexpected(span(7, 7), Expected::Expression));
    assert_eq!(
        parse_line("x = (1").map(|_| ()),
        unexpected(span(6, 6), Expected::ExpressionOrClosingParenthesis)
    );
    assert_eq!(parse_line("x = ()").map(|_| ()), unexpected(span(5, 6), Expected::Expression));
    assert_eq!(
        parse_line("x = - ,").map(|_| ()),
        unexpected(span(6, 7), Expected::IntegerLiteralOrOpeningParenthesis)
    );
    assert_eq!(parse_line("x =").map(|_| ()), unexpected(span(3, 3), Expected::Expression));
    assert_eq!(parse_line("x 1").map(|_| ()), unexpected(span(2, 3), Expected::ColonOrEqualSign));
}

#[test]
fn labels() {
    match parse_line("start:").unwrap() {
        Statement::Label(label) => {
            assert_eq!(label.name().span(), span(0, 5));
            assert!(matches!(label.value(), LabelValue::Address { .. }));
            assert_eq!(label.span(), span(0, 6));
        }
        _ => panic!("no label"),
    }
    match parse_line("size = end - start").unwrap() {
        Statement::Label(label) => {
            assert!(matches!(label.value(), LabelValue::Expression { .. }));
            assert_eq!(label.span(), span(0, 18));
        }
        _ => panic!("no label"),
    }
}

#[test]
fn directives() {
    match parse_line(".offset 0x10").unwrap() {
        Statement::OffsetDirective(d) => assert_eq!(d.value().value(), Some(16)),
        _ => panic!(),
    }
    match parse_line(".align 4").unwrap() {
        Statement::AlignDirective(d) => assert_eq!(d.value().value(), Some(4)),
        _ => panic!(),
    }
    match parse_line(".origin 0xE000").unwrap() {
        Statement::OriginDirective(d) => {
            assert_eq!(d.value().value(), Some(0xE000));
            assert_eq!(d.span(), span(0, 14));
        }
        _ => panic!(),
    }
    match parse_line(".section \"code\" 0x100").unwrap() {
        Statement::SectionDirective(d) => {
            assert_eq!(d.base().unwrap().value(), Some(0x100));
            assert_eq!(d.name().span(), span(9, 15));
            assert_eq!(d.span(), span(0, 15));
        }
        _ => panic!(),
    }
    match parse_line(".section \"code\"").unwrap() {
        Statement::SectionDirective(d) => assert!(d.base().is_none()),
        _ => panic!(),
    }
    match parse_line(".include \"lib.asm\"").unwrap() {
        Statement::IncludeDirective(d) => assert_eq!(d.path().span(), span(9, 18)),
        _ => panic!(),
    }
    let unexpected = |token, expected| Err(ParseError::UnexpectedToken { token, expected });
    assert_eq!(parse_line(".offset x").map(|_| ()), unexpected(span(8, 9), Expected::IntegerLiteral));
    assert_eq!(parse_line(".section 5").map(|_| ()), unexpected(span(9, 10), Expected::StringLiteral));
    assert_eq!(parse_line(".include").map(|_| ()), unexpected(span(8, 8), Expected::StringLiteral));
}

#[test]
fn instructions_and_their_operands() {
    match parse_line("mov [si], a").unwrap() {
        Statement::Instruction(inst) => match *inst {
            Instruction::Mov(mov) => {
                assert!(matches!(mov.destination, MovDestination::Memory { .. }));
                assert!(matches!(mov.source, MovSource::Register(_)));
                assert_eq!(mov.emit_size(), 1);
                assert_eq!(mov.span(), span(0, 11));
            }
            _ => panic!(),
        },
        _ => panic!(),
    }
    match parse_line("jz tx").unwrap() {
        Statement::Instruction(inst) => match *inst {
            Instruction::Branch(branch) => {
                assert_eq!(branch.mnemonic.kind(), MnemonicKind::Jz);
                assert!(matches!(branch.target, JumpTarget::Register(_)));
                assert_eq!(branch.emit_size(), 2);
            }
            _ => panic!(),
        },
        _ => panic!(),
    }
    assert_eq!(parse_line("cnop").unwrap().emit_size(), 1);
    assert_eq!(parse_line("break").unwrap().emit_size(), 4);
    assert_eq!(parse_line("ret").unwrap().emit_size(), 3);
    assert_eq!(parse_line("retbd").unwrap().emit_size(), 1);
    assert_eq!(parse_line("call 0x1234").unwrap().emit_size(), 7);
    assert_eq!(parse_line("callbd di").unwrap().emit_size(), 1);
    assert_eq!(parse_line("mov si, #1").unwrap().emit_size(), 5);
    assert_eq!(parse_line("start:").unwrap().emit_size(), 0);
}

#[test]
fn operand_errors() {
    let unexpected = |token, expected| Err(ParseError::UnexpectedToken { token, expected });
    assert_eq!(
        parse_line("mov 1, a").map(|_| ()),
        unexpected(span(4, 5), Expected::RegisterOrMemoryLocation)
    );
    assert_eq!(parse_line("mov a b").map(|_| ()), unexpected(span(6, 7), Expected::Comma));
    assert_eq!(
        parse_line("mov a,").map(|_| ()),
        unexpected(span(6, 6), Expected::ExpressionRegisterOrMemoryLocation)
    );
    assert_eq!(parse_line("mov a, #").map(|_| ()), unexpected(span(8, 8), Expected::Expression));
    assert_eq!(parse_line("mov [1], a").map(|_| ()), unexpected(span(5, 6), Expected::Register));
    assert_eq!(
        parse_line("mov [si, a").map(|_| ()),
        unexpected(span(7, 8), Expected::ClosingBracket)
    );
    assert_eq!(parse_line("inc 5").map(|_| ()), unexpected(span(4, 5), Expected::Register));
    assert_eq!(parse_line("jmp ,").map(|_| ()), unexpected(span(4, 5), Expected::RegisterOrExpression));
    assert_eq!(parse_line("in a, b").map(|_| ()), unexpected(span(6, 7), Expected::IoRegister));
    assert_eq!(parse_line("out a, a").map(|_| ()), unexpected(span(4, 5), Expected::IoRegister));
    assert_eq!(
        parse_line("mov a, a").map(|_| ()),
        Err(ParseError::InvalidOperands { op1: span(4, 5), op2: span(7, 8) })
    );
    assert_eq!(
        parse_line("mov [sp], a").map(|_| ()),
        Err(ParseError::InvalidOperands { op1: span(4, 8), op2: span(10, 11) })
    );
    assert_eq!(
        parse_line("add a, a").map(|_| ()),
        Err(ParseError::InvalidOperands { op1: span(4, 5), op2: span(7, 8) })
    );
    assert_eq!(
        parse_line("in b, vga").map(|_| ()),
        Err(ParseError::InvalidOperands { op1: span(3, 4), op2: span(6, 9) })
    );
    assert_eq!(
        parse_line("out vga, a").map(|_| ()),
        Err(ParseError::InvalidOperands { op1: span(4, 7), op2: span(9, 10) })
    );
    assert_eq!(
        parse_line("push ab").map(|_| ()),
        Err(ParseError::InvalidRegister { register: span(5, 7) })
    );
    assert_eq!(
        parse_line("jmp si").map(|_| ()),
        Err(ParseError::InvalidRegister { register: span(4, 6) })
    );
    assert_eq!(
        parse_line("jz di").map(|_| ()),
        Err(ParseError::InvalidRegister { register: span(3, 5) })
    );
    assert_eq!(
        parse_line("nop nop nop").map(|_| ()),
        Err(ParseError::TokensRemaining { span: span(4, 11) })
    );
    assert_eq!(
        parse_line(", 1 2").map(|_| ()),
        Err(ParseError::NoMatch { span: span(0, 5) })
    );
    assert_eq!(PunctuationKind::Comma.text(), b",");
    assert_eq!(RegisterKind::SP.text(), b"sp");
}

#[test]
fn every_statement_assembles_to_as_many_bytes_as_its_size() {
    let lines = [
        "nop", "break", "lodsb", "stosb", "ret", "retbd", "clc", "mov a, 1", "mov tx, label",
        "mov ab, 2", "mov si, 3", "mov a, b", "mov a, [si]", "mov [tx], d", "inc a", "inc si",
        "incc si", "dec di", "push a", "push tx", "push ra", "pop a", "pop tx", "pop sp", "shl a",
        "shr b", "not c", "test d", "add a, b", "addc b, b", "sub c, d", "subb d, a", "and a, c",
        "or b, d", "xor a, a", "cmp a, b", "addac c, a", "subae d, c", "call 5", "call tx",
        "callbd 5", "callbd di", "jmp 5", "jmp di", "jz 5", "jnle tx", "in a, vga",
        "out gpio, a", ".offset 3", "label:", "x = 1",
    ];
    let mut files = FileServer::new();
    files.register_file_memory("<code>", "").unwrap();
    let labels = LabelTable::new();
    for line in lines {
        match parse_line(line).unwrap() {
            Statement::Instruction(inst) => {
                let value = match inst.operand() {
                    Some(expr) => expr.try_eval(&files, &labels).unwrap_or(0x1234),
                    None => 0,
                };
                let size = inst.emit_size() as usize;
                assert!(1 <= size && size <= 7, "{}", line);
                assert_eq!(inst.encode(value).len(), size, "{}", line);
                assert_eq!(inst.encode(-1).len(), size, "{}", line);
            }
            other => assert_eq!(other.emit_size(), 0, "{}", line),
        }
    }
}
