use jam1emu::assembler::error::AssemblerError;
use jam1emu::assembler::parser::ParseError;
use jam1emu::assembler::place::include_target;
use jam1emu::assembler::span::{FileId, FileServer, RegisterMemoryFileError, TextSpan};
use jam1emu::assembler::{assemble, assemble_code};

fn errors_of(text: &str) -> Vec<AssemblerError> {
    let mut files = FileServer::new();
    let file = files.register_file_memory("<code>", text).unwrap();
    match assemble(&files, file, false) {
        Ok(image) => panic!("assembled to {:?}", image),
        Err(errors) => errors,
    }
}

fn assemble_text(text: &str) -> Result<(u16, Vec<u8>), Vec<AssemblerError>> {
    let mut files = FileServer::new();
    let file = files.register_file_memory("<code>", text).unwrap();
    assemble(&files, file, false)
}

/// The bytes of the one instruction `line`.
fn bytes_of(line: &str) -> Vec<u8> {
    let text = format!(".section \"code\"\n{}\n", line);
    match assemble_text(&text) {
        Ok((0, bytes)) => bytes,
        other => panic!("{} gives {:?}", line, other),
    }
}

fn span(start: usize, end: usize) -> TextSpan {
    TextSpan::new(FileId { index: 1 }, start, end)
}

#[test]
fn assembles_label_and_jump() {
    let result = assemble_code(".section \"code\" 0x0000\nstart: mov a,#1\n  jmp start", false);
    assert_eq!(
        result,
        Ok((0x0000, vec![0x01, 0x01, 0x05, 0x00, 0x06, 0x00, 0x5F, 0x60]))
    );
}

#[test]
fn assembles_directives_and_expressions() {
    let source = ".origin 0x100\n.section \"a\"\nvalue = (1 + 2) * 3\n  mov tx, value << 8 | 0x12 ; comment\n  push tx\n.section \"b\" 0x200\n  .offset 4\n  nop\n";
    let result = assemble_text(source);
    let mut expected = vec![0x05, 0x12, 0x06, 0x09, 0x76, 0x77];
    expected.resize(0x100 + 4, 0);
    expected.push(0x00);
    assert_eq!(result, Ok((0x100, expected)));
}

#[test]
fn empty_program_is_an_empty_image() {
    assert_eq!(assemble_text(""), Ok((0, vec![])));
    assert_eq!(assemble_text("// nothing\n\n.origin 5\n"), Ok((0, vec![])));
    assert_eq!(assemble_text(".section \"s\" 0x40\n"), Ok((0x40, vec![])));
}

#[test]
fn mov_immediate_encodings() {
    assert_eq!(bytes_of("mov a, #0xAA"), [0x01, 0xAA]);
    assert_eq!(bytes_of("mov b, 0x1234"), [0x02, 0x34]);
    assert_eq!(bytes_of("mov c, -1"), [0x03, 0xFF]);
    assert_eq!(bytes_of("mov d, 4"), [0x04, 0x04]);
    assert_eq!(bytes_of("mov tl, 5"), [0x05, 0x05]);
    assert_eq!(bytes_of("mov th, 6"), [0x06, 0x06]);
    assert_eq!(bytes_of("mov tx, 0x1234"), [0x05, 0x34, 0x06, 0x12]);
    assert_eq!(bytes_of("mov ab, 0x1234"), [0x01, 0x34, 0x02, 0x12]);
    assert_eq!(bytes_of("mov cd, -2"), [0x03, 0xFE, 0x04, 0xFF]);
    assert_eq!(bytes_of("mov si, #0x1234"), [0x05, 0x34, 0x06, 0x12, 0x27]);
    assert_eq!(bytes_of("mov di, 0x1234"), [0x05, 0x34, 0x06, 0x12, 0x29]);
}

#[test]
fn mov_register_encodings() {
    let gpr = ["a", "b", "c", "d"];
    let mut opcode = 0x07;
    for dst in gpr {
        for src in gpr {
            if dst != src {
                assert_eq!(bytes_of(&format!("mov {}, {}", dst, src)), [opcode]);
                opcode += 1;
            }
        }
    }
    for half in ["tl", "th"] {
        for src in gpr {
            assert_eq!(bytes_of(&format!("mov {}, {}", half, src)), [opcode]);
            opcode += 1;
        }
    }
    for half in ["tl", "th"] {
        for dst in gpr {
            assert_eq!(bytes_of(&format!("mov {}, {}", dst, half)), [opcode]);
            opcode += 1;
        }
    }
    assert_eq!(opcode, 0x23);
    let wide = [
        "ra, tx", "tx, ra", "sp, tx", "tx, sp", "si, tx", "tx, si", "di, tx", "tx, di", "di, si",
        "si, di", "si, sp", "di, sp",
    ];
    for operands in wide {
        assert_eq!(bytes_of(&format!("mov {}", operands)), [opcode]);
        opcode += 1;
    }
    assert_eq!(opcode, 0x2F);
}

#[test]
fn mov_memory_encodings() {
    let gpr = ["a", "b", "c", "d"];
    let mut opcode = 0x40;
    for address in ["si", "di", "tx"] {
        for dst in gpr {
            assert_eq!(bytes_of(&format!("mov {}, [{}]", dst, address)), [opcode]);
            opcode += 1;
        }
    }
    for address in ["si", "di", "tx"] {
        for src in gpr {
            assert_eq!(bytes_of(&format!("mov [{}], {}", address, src)), [opcode]);
            opcode += 1;
        }
    }
    assert_eq!(opcode, 0x58);
}

#[test]
fn single_register_encodings() {
    let gpr = ["a", "b", "c", "d"];
    for (mnemonic, first) in
        [("shl", 0x80), ("shr", 0x84), ("inc", 0xA0), ("incc", 0xA4), ("dec", 0xC0), ("not", 0xEC), ("test", 0xFC)]
    {
        for (i, reg) in gpr.iter().enumerate() {
            assert_eq!(bytes_of(&format!("{} {}", mnemonic, reg)), [first + i as u8]);
        }
    }
    assert_eq!(bytes_of("dec si"), [0x32]);
    assert_eq!(bytes_of("dec di"), [0x33]);
    assert_eq!(bytes_of("incc si"), [0x34]);
    assert_eq!(bytes_of("inc si"), [0x35]);
    assert_eq!(bytes_of("inc di"), [0x36]);
}

#[test]
fn push_and_pop_encodings() {
    for (i, reg) in ["a", "b", "c", "d", "tl", "th"].iter().enumerate() {
        assert_eq!(bytes_of(&format!("push {}", reg)), [0x72 + i as u8]);
        assert_eq!(bytes_of(&format!("pop {}", reg)), [0x78 + i as u8]);
    }
    assert_eq!(bytes_of("push tx"), [0x76, 0x77]);
    assert_eq!(bytes_of("push ra"), [0x24, 0x76, 0x77]);
    assert_eq!(bytes_of("push sp"), [0x26, 0x76, 0x77]);
    assert_eq!(bytes_of("push si"), [0x28, 0x76, 0x77]);
    assert_eq!(bytes_of("push di"), [0x2A, 0x76, 0x77]);
    assert_eq!(bytes_of("pop tx"), [0x7D, 0x7C]);
    assert_eq!(bytes_of("pop ra"), [0x7D, 0x7C, 0x00, 0x23]);
    assert_eq!(bytes_of("pop sp"), [0x7D, 0x7C, 0x00, 0x25]);
    assert_eq!(bytes_of("pop si"), [0x7D, 0x7C, 0x00, 0x27]);
    assert_eq!(bytes_of("pop di"), [0x7D, 0x7C, 0x00, 0x29]);
}

#[test]
fn two_register_encodings() {
    let gpr = ["a", "b", "c", "d"];
    for (mnemonic, first) in
        [("add", 0x88), ("addc", 0x94), ("sub", 0xA8), ("subb", 0xB4), ("and", 0xC4), ("or", 0xD0), ("xor", 0xDC), ("cmp", 0xF0)]
    {
        let mut opcode = first;
        for dst in gpr {
            for src in gpr {
                if dst != src {
                    assert_eq!(bytes_of(&format!("{} {}, {}", mnemonic, dst, src)), [opcode]);
                    opcode += 1;
                }
            }
        }
    }
    assert_eq!(bytes_of("add b, b"), [0x59]);
    assert_eq!(bytes_of("addc b, b"), [0x58]);
    assert_eq!(bytes_of("xor a, a"), [0xE8]);
    assert_eq!(bytes_of("xor b, b"), [0xE9]);
    assert_eq!(bytes_of("xor c, c"), [0xEA]);
    assert_eq!(bytes_of("xor d, d"), [0xEB]);
    assert_eq!(bytes_of("addac c, a"), [0x5A]);
    assert_eq!(bytes_of("subae d, c"), [0x2F]);
}

#[test]
fn jump_encodings() {
    assert_eq!(bytes_of("jmp 0x1234"), [0x05, 0x34, 0x06, 0x12, 0x5F, 0x60]);
    assert_eq!(bytes_of("jmp tx"), [0x5F, 0x60]);
    assert_eq!(bytes_of("jmp di"), [0x5F, 0x71]);
    assert_eq!(bytes_of("call 0x1234"), [0x05, 0x34, 0x06, 0x12, 0x5C, 0x00, 0x00]);
    assert_eq!(bytes_of("call tx"), [0x5C, 0x00, 0x00]);
    assert_eq!(bytes_of("call di"), [0x5D, 0x00, 0x00]);
    assert_eq!(bytes_of("callbd 0x1234"), [0x05, 0x34, 0x06, 0x12, 0x5C]);
    assert_eq!(bytes_of("callbd tx"), [0x5C]);
    assert_eq!(bytes_of("callbd di"), [0x5D]);
    let branches = [
        ("jo", 0x61), ("jno", 0x62), ("js", 0x63), ("jns", 0x64), ("jz", 0x65), ("jnz", 0x66),
        ("je", 0x65), ("jne", 0x66), ("jc", 0x67), ("jnc", 0x68), ("jnae", 0x68), ("jb", 0x68),
        ("jae", 0x67), ("jnb", 0x67), ("jbe", 0x69), ("jna", 0x69), ("ja", 0x6A), ("jnbe", 0x6A),
        ("jl", 0x6B), ("jnge", 0x6B), ("jge", 0x6C), ("jnl", 0x6C), ("jle", 0x6D), ("jng", 0x6D),
        ("jg", 0x6E), ("jnle", 0x6E), ("jlc", 0x6F), ("jnlc", 0x70),
    ];
    for (mnemonic, opcode) in branches {
        assert_eq!(
            bytes_of(&format!("{} 0x1234", mnemonic)),
            [0x05, 0x34, 0x06, 0x12, 0x5F, opcode]
        );
        assert_eq!(bytes_of(&format!("{} tx", mnemonic)), [0x5F, opcode]);
    }
}

#[test]
fn bare_and_port_encodings() {
    assert_eq!(bytes_of("nop"), [0x00]);
    assert_eq!(bytes_of("cnop"), [0x00]);
    assert_eq!(bytes_of("break"), [0x00, 0x3F, 0x00, 0x00]);
    assert_eq!(bytes_of("lodsb"), [0x5B]);
    assert_eq!(bytes_of("stosb"), [0x7E]);
    assert_eq!(bytes_of("ret"), [0x5E, 0x00, 0x00]);
    assert_eq!(bytes_of("retbd"), [0x5E]);
    assert_eq!(bytes_of("clc"), [0x7F]);
    assert_eq!(bytes_of("in a, uart_data"), [0x3A]);
    assert_eq!(bytes_of("in a, uart_ctrl"), [0x3B]);
    assert_eq!(bytes_of("in a, cntrl_data"), [0x3D]);
    assert_eq!(bytes_of("in a, vga"), [0x31]);
    assert_eq!(bytes_of("in a, gpio"), [0x3E]);
    assert_eq!(bytes_of("out uart_data, a"), [0x39]);
    assert_eq!(bytes_of("out audio_data, a"), [0x3C]);
    assert_eq!(bytes_of("out gpio, a"), [0x37]);
}

#[test]
fn labels_stand_for_their_addresses() {
    let source = ".section \"code\" 0x1000\nstart: nop\nloop:\n  jmp loop\n  mov tx, start\n  .offset 0x20\nfar: mov cd, far\n";
    let (start, bytes) = assemble_text(source).unwrap();
    assert_eq!(start, 0x1000);
    assert_eq!(&bytes[0..11], &[0x00, 0x05, 0x01, 0x06, 0x10, 0x5F, 0x60, 0x05, 0x00, 0x06, 0x10]);
    assert_eq!(&bytes[0x20..], &[0x03, 0x20, 0x04, 0x10]);
    assert_eq!(bytes.len(), 0x24);
    assert!(bytes[11..0x20].iter().all(|&b| b == 0));
}

#[test]
fn align_rounds_the_offset_up() {
    assert_eq!(
        assemble_text(".section \"s\"\ninc a\n.align 4\ninc a\n.align 4\ninc b\n.align 1\ninc c"),
        Ok((0, vec![0xA0, 0, 0, 0, 0xA0, 0, 0, 0, 0xA1, 0xA2]))
    );
}

#[test]
fn expression_labels_settle_pass_by_pass() {
    // A register's name is no label.
    let errors = errors_of(".section \"s\"\na = 1\n");
    assert_eq!(errors, vec![AssemblerError::ParseError(ParseError::NoMatch { span: span(13, 18) })]);
    let source = ".section \"s\"\nx = y + 1\ny = z + 1\nz = here + 5\n  mov a, x\n  nop\nhere:\n";
    assert_eq!(assemble_text(source), Ok((0, vec![0x01, 3 + 5 + 2, 0x00])));
}

#[test]
fn sections_are_packed_and_sorted_by_base() {
    let source = ".section \"high\" 0x10\n  inc a\n.section \"low\" 0x02\n  inc b\n  inc c\n.section \"high\"\n  inc d\n";
    let mut expected = vec![0xA1, 0xA2];
    expected.resize(0x0E, 0);
    expected.extend([0xA0, 0xA3]);
    assert_eq!(assemble_text(source), Ok((0x02, expected)));
}

#[test]
fn default_base_comes_from_the_origin() {
    assert_eq!(assemble_text(".origin 0x300\n.section \"s\"\nnop"), Ok((0x300, vec![0])));
    assert_eq!(assemble_text(".section \"s\"\nnop"), Ok((0, vec![0])));
}

#[test]
fn lexical_errors() {
    assert_eq!(
        errors_of(".section \"s\"\n.fill 3"),
        vec![AssemblerError::InvalidDirective { directive: span(13, 18) }]
    );
    let errors = errors_of(".section \"s\"\nmov a, 0xZZ");
    assert_eq!(errors, vec![AssemblerError::InvalidIntegerLiteral { literal: span(20, 24) }]);
    assert_eq!(
        errors_of(".section \"s"),
        vec![AssemblerError::UnclosedStringLiteral { literal: span(9, 11) }]
    );
    assert_eq!(
        errors_of(".section \"a\\qb\\x+1\"\n"),
        vec![
            AssemblerError::InvalidEscapeSequence { literal: span(9, 19), start: 2, end: 4 },
            AssemblerError::InvalidEscapeSequence { literal: span(9, 19), start: 5, end: 9 },
        ]
    );
    assert_eq!(
        errors_of(".section \"s\"\nnop @$ nop ?"),
        vec![
            AssemblerError::InvalidChars { span: span(17, 19) },
            AssemblerError::InvalidChars { span: span(24, 25) },
        ]
    );
}

#[test]
fn parse_errors_are_reported_line_by_line() {
    let errors = errors_of(".section \"s\"\nmov a\nfoo bar\nnop nop\n");
    assert_eq!(errors.len(), 3);
    assert!(matches!(errors[0], AssemblerError::ParseError(ParseError::UnexpectedToken { .. })));
    assert!(matches!(errors[1], AssemblerError::ParseError(ParseError::UnexpectedToken { .. })));
    assert_eq!(
        errors[2],
        AssemblerError::ParseError(ParseError::TokensRemaining { span: span(31, 34) })
    );
    assert_eq!(
        errors_of(".section \"s\"\n, ,"),
        vec![AssemblerError::ParseError(ParseError::NoMatch { span: span(13, 16) })]
    );
    assert_eq!(
        errors_of(".section \"s\"\npush ab"),
        vec![AssemblerError::ParseError(ParseError::InvalidRegister { register: span(18, 20) })]
    );
}

#[test]
fn section_errors() {
    assert_eq!(
        errors_of(".section \"s\" 1\n.section \"s\" 2\n"),
        vec![AssemblerError::DuplicateSectionBase { value: span(28, 29), previous: span(13, 14) }]
    );
    assert_eq!(
        errors_of("nop\n.section \"s\"\nnop"),
        vec![AssemblerError::UndefinedSection { statement: span(0, 3) }]
    );
    // Two sections that touch count as overlapping.
    assert_eq!(
        errors_of(".section \"a\"\nnop\n.section \"b\"\nnop"),
        vec![AssemblerError::OverlappingSections { first: span(9, 12), second: span(26, 29) }]
    );
    assert_eq!(
        errors_of(".section \"a\" 0x10\n.offset 8\n.section \"b\" 0x14\nnop"),
        vec![AssemblerError::OverlappingSections { first: span(9, 12), second: span(37, 40) }]
    );
    // A section that holds another overlaps it, whichever is named first.
    assert_eq!(
        errors_of(".section \"a\" 0x10\nnop\nnop\n.section \"b\" 0\n.offset 0x20\nnop"),
        vec![AssemblerError::OverlappingSections { first: span(9, 12), second: span(35, 38) }]
    );
    assert_eq!(
        errors_of(".section \"b\" 0\n.offset 0x20\nnop\n.section \"a\" 0x10\nnop\nnop"),
        vec![AssemblerError::OverlappingSections { first: span(9, 12), second: span(41, 44) }]
    );
    // Sections with a gap between them do not.
    assert!(assemble_text(".section \"a\" 0x10\nnop\n.section \"b\" 0x12\nnop").is_ok());
    assert_eq!(
        errors_of(".section \"a\" 0xFFFF\nnop\nnop"),
        vec![AssemblerError::SectionTooLarge { section: span(9, 12) }]
    );
    assert_eq!(
        errors_of(".section \"a\"\n.offset 0xFFFF\nnop"),
        vec![AssemblerError::SectionTooLarge { section: span(9, 12) }]
    );
    assert_eq!(
        errors_of(".section \"a\"\n.offset 0xFFFF\n.align 0x8000\n"),
        vec![AssemblerError::SectionTooLarge { section: span(9, 12) }]
    );
}

#[test]
fn directive_value_errors() {
    assert_eq!(
        errors_of(".section \"a\"\n.offset 0x10000"),
        vec![AssemblerError::InvalidValue { value: span(21, 28), directive: span(13, 28) }]
    );
    assert_eq!(
        errors_of(".section \"a\"\n.align 0"),
        vec![AssemblerError::InvalidValue { value: span(20, 21), directive: span(13, 21) }]
    );
    assert_eq!(
        errors_of(".section \"a\"\n.align 65536"),
        vec![AssemblerError::InvalidValue { value: span(20, 25), directive: span(13, 25) }]
    );
    assert_eq!(
        errors_of(".origin 70000"),
        vec![AssemblerError::InvalidValue { value: span(8, 13), directive: span(0, 13) }]
    );
    assert_eq!(
        errors_of(".origin 1\n.origin 2"),
        vec![AssemblerError::InvalidOriginDirective { directive: span(10, 19) }]
    );
    assert_eq!(
        errors_of(".section \"a\"\n.origin 2"),
        vec![AssemblerError::InvalidOriginDirective { directive: span(13, 22) }]
    );
}

#[test]
fn label_errors() {
    assert_eq!(
        errors_of(".section \"s\"\nx:\nx = 1\n"),
        vec![AssemblerError::DuplicateLabel { previous: span(13, 14), duplicate: span(16, 17) }]
    );
    assert_eq!(
        errors_of(".section \"s\"\nx = 1 / (y - y)\ny:\n"),
        vec![AssemblerError::DivideByZero { expr: span(17, 28) }]
    );
    assert_eq!(
        errors_of(".section \"s\"\nx = y + 1\nz = x\n"),
        vec![AssemblerError::UndefinedSymbol { ident: span(17, 18) }]
    );
    assert_eq!(
        errors_of(".section \"s\"\nx = y + 1\ny = x * 2\nz = 3\n"),
        vec![
            AssemblerError::CyclicExpression { expr: span(17, 22) },
            AssemblerError::CyclicExpression { expr: span(27, 32) },
        ]
    );
    assert_eq!(
        errors_of(".section \"s\"\nself = self\n"),
        vec![AssemblerError::CyclicExpression { expr: span(20, 24) }]
    );
}

#[test]
fn emission_errors() {
    assert_eq!(
        errors_of(".section \"s\"\nmov a, nowhere\njmp 1 % 0\n"),
        vec![
            AssemblerError::UndefinedSymbol { ident: span(20, 27) },
            AssemblerError::DivideByZero { expr: span(32, 37) },
        ]
    );
}

#[test]
fn includes_are_read_where_they_stand() {
    let mut files = FileServer::new();
    let main = files
        .register_file_memory("src/main.asm", ".section \"s\"\ninc a\n.include \"lib/b.asm\"\ninc d\n")
        .unwrap();
    files.register_file_memory("src/lib/b.asm", "inc b\n.include \"/abs/c.asm\"\n").unwrap();
    files.register_file_memory("/abs/c.asm", "inc c\n").unwrap();
    assert_eq!(assemble(&files, main, true), Ok((0, vec![0xA0, 0xA1, 0xA2, 0xA3])));
    assert_eq!(files.len(), 4);
    assert_eq!(files.find(b"src/lib/b.asm"), Some(FileId { index: 2 }));
    assert_eq!(files.find(b"b.asm"), None);
    assert_eq!(files.get_file(FileId { index: 3 }).unwrap().text().as_slice(), b"inc c\n");
    assert!(files.get_file(FileId { index: 9 }).is_none());
    assert_eq!(
        assemble(&files, main, false),
        Err(vec![AssemblerError::IncludeUnsupported {
            directive: TextSpan::new(main, 19, 39)
        }])
    );
}

#[test]
fn include_errors() {
    let mut files = FileServer::new();
    let main = files.register_file_memory("main.asm", ".include \"gone.asm\"\n.include \"bad.asm\"\n").unwrap();
    let bad = files.register_failure(b"bad.asm", b"permission denied").unwrap();
    assert_eq!(
        assemble(&files, main, true),
        Err(vec![
            AssemblerError::IncludeError {
                directive: TextSpan::new(main, 0, 19),
                path: TextSpan::new(main, 9, 19),
                file: FileId::none(),
            },
            AssemblerError::IncludeError {
                directive: TextSpan::new(main, 20, 38),
                path: TextSpan::new(main, 29, 38),
                file: bad,
            },
        ])
    );
    assert_eq!(include_target(&files, TextSpan::new(main, 9, 19)), b"gone.asm");
    let text = AssemblerError::IncludeError {
        directive: TextSpan::new(main, 20, 38),
        path: TextSpan::new(main, 29, 38),
        file: bad,
    }
    .format(&files);
    assert!(text.contains("failed to include file"));
    assert!(text.contains("permission denied\r\n"));
    let mut files = FileServer::new();
    let own = files.register_file_memory("loop.asm", ".include \"loop.asm\"\n").unwrap();
    let errors = assemble(&files, own, true).unwrap_err();
    assert_eq!(errors, vec![AssemblerError::IncludeTooDeep { directive: TextSpan::new(own, 0, 19) }]);
    assert_eq!(
        files.register_file_memory("loop.asm", ""),
        Err(RegisterMemoryFileError::NameAlreadyRegistered(own))
    );
}

#[test]
fn assemble_code_reports_diagnostics_as_text() {
    let text = assemble_code(".section \"code\"\n\tmov a, missing\n", false).unwrap_err();
    let expected = [
        "\x1B[1m\x1B[31mError\x1B[39m: symbol is not defined\x1B[22m\r\n",
        "\x1B[1m\x1B[36m  |\x1B[39m\r\n",
        "\x1B[36m2 |\x1B[39m\x1B[22m      mov a, missing\r\n",
        "\x1B[1m\x1B[36m  |\x1B[39m             \x1B[31m^^^^^^^\x1B[39m\r\n",
        "\x1B[36m  |\x1B[39m\x1B[22m\r\n",
    ]
    .join("");
    assert_eq!(text, expected);
}

#[test]
fn diagnostics_are_joined_by_line_feeds() {
    let text = assemble_code(".section \"s\"\nx:\nx:\n.fill\n", false).unwrap_err();
    let parts: Vec<&str> = text.split("\n\x1B[1m\x1B[31mError").collect();
    assert_eq!(parts.len(), 2);
    assert!(parts[0].contains("unknown directive"));
    assert!(parts[1].contains("symbol is defined twice"));
    assert!(parts[1].contains("Previous definition:\r\n"));
    assert!(parts[1].contains("\x1B[34m^\x1B[39m"));
}

#[test]
fn headlines_of_the_errors_without_a_hint() {
    let mut files = FileServer::new();
    let file = files
        .register_file_memory("<code>", ".section \"first\"\nnop\n.section \"second\"\nnop")
        .unwrap();
    let errors = assemble(&files, file, false).unwrap_err();
    assert_eq!(
        errors[0].format(&files),
        "\x1B[1m\x1B[31mError\x1B[39m: sections `first` and `second` are overlapping\x1B[22m\r\n"
    );
    let large = AssemblerError::SectionTooLarge { section: span(9, 16) };
    assert_eq!(
        large.format(&files),
        "\x1B[1m\x1B[31mError\x1B[39m: section `first` is too large\x1B[22m\r\n"
    );
    assert_eq!(large.message(), "section is too large");
}

#[test]
fn hints_show_the_part_at_fault() {
    let mut files = FileServer::new();
    let file = files.register_file_memory("<code>", "one\r\nmov a,\r\n").unwrap();
    let errors = assemble(&files, file, false).unwrap_err();
    let text = errors[1].format(&files);
    assert!(text.starts_with(
        "\x1B[1m\x1B[31mError\x1B[39m: expected expression, register or memory location\r\n"
    ));
    assert!(text.contains("\x1B[36m2 |\x1B[39m\x1B[22m  mov a,\r\n"));
    assert!(text.contains("|\x1B[39m        \x1B[31m^\x1B[39m\r\n"));
    let escape = AssemblerError::InvalidEscapeSequence {
        literal: TextSpan::new(file, 5, 8),
        start: 2,
        end: 5,
    };
    assert!(escape.format(&files).contains("|\x1B[39m    \x1B[31m^^^\x1B[39m\r\n"));
    let bytes = escape.format_bytes(&files);
    assert_eq!(String::from_utf8(bytes).unwrap(), escape.format(&files));
}

#[test]
fn diagnostics_keep_the_characters_of_the_source() {
    let text =
        assemble_code(".section \"code\"\n\tmov a, missing ; gr\u{F6}\u{DF}er \u{2192} \u{1F600}\n", false)
            .unwrap_err();
    let expected = [
        "\x1B[1m\x1B[31mError\x1B[39m: symbol is not defined\x1B[22m\r\n",
        "\x1B[1m\x1B[36m  |\x1B[39m\r\n",
        "\x1B[36m2 |\x1B[39m\x1B[22m      mov a, missing ; gr\u{F6}\u{DF}er \u{2192} \u{1F600}\r\n",
        "\x1B[1m\x1B[36m  |\x1B[39m             \x1B[31m^^^^^^^\x1B[39m\r\n",
        "\x1B[36m  |\x1B[39m\x1B[22m\r\n",
    ]
    .join("");
    assert_eq!(text, expected);
}

#[test]
fn section_names_with_escapes_are_text() {
    let mut files = FileServer::new();
    let file = files
        .register_file_memory(
            "<code>",
            ".section \"gr\\xFCn \\u20AC\"\nnop\n.section \"bl\u{E4}u\"\nnop",
        )
        .unwrap();
    let errors = assemble(&files, file, false).unwrap_err();
    assert_eq!(
        errors[0].format(&files),
        "\x1B[1m\x1B[31mError\x1B[39m: sections `gr\u{FC}n \u{20AC}` and `bl\u{E4}u` are overlapping\x1B[22m\r\n"
    );
    assert_eq!(
        String::from_utf8(errors[0].format_bytes(&files)).unwrap(),
        errors[0].format(&files)
    );
}
