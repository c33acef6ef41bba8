//! What can be wrong with a program.

use crate::assembler::parser::ParseError;
use crate::assembler::span::{FileId, TextSpan};
use vstd::prelude::*;

verus! {

/// A mistake in the source. Each one points at the part of the source that
/// is at fault.
#[derive(Debug, Clone, Copy, PartialEq, Eq, Structural)]
pub enum AssemblerError {
    /// A block comment is not closed.
    UnclosedBlockComment { comment: TextSpan },
    /// A dot is followed by a name that names no directive.
    InvalidDirective { directive: TextSpan },
    /// The digits of an integer literal stand for no value.
    InvalidIntegerLiteral { literal: TextSpan },
    /// A string literal lacks its closing quote.
    UnclosedStringLiteral { literal: TextSpan },
    /// An escape in a string literal stands for nothing. `start` and `end`
    /// count bytes from the opening quote.
    InvalidEscapeSequence { literal: TextSpan, start: usize, end: usize },
    /// Characters that start no token.
    InvalidChars { span: TextSpan },
    /// A section is given a base address a second time.
    DuplicateSectionBase { value: TextSpan, previous: TextSpan },
    /// A label is declared a second time.
    DuplicateLabel { previous: TextSpan, duplicate: TextSpan },
    /// A section reaches past the end of the address space. The span is
    /// that of the section's name where the section first occurs.
    SectionTooLarge { section: TextSpan },
    /// A directive is given a value that it cannot take.
    InvalidValue { value: TextSpan, directive: TextSpan },
    /// `.origin` stands where the origin is settled already.
    InvalidOriginDirective { directive: TextSpan },
    /// A statement stands before the first section.
    UndefinedSection { statement: TextSpan },
    /// Two sections take up the same addresses. The spans are those of
    /// the sections' names.
    OverlappingSections { first: TextSpan, second: TextSpan },
    /// An expression divides by zero.
    DivideByZero { expr: TextSpan },
    /// A name is no label.
    UndefinedSymbol { ident: TextSpan },
    /// A label's expression depends on the label itself.
    CyclicExpression { expr: TextSpan },
    /// An included file could not be loaded. `path` is where the
    /// directive names the file; `file` names the record of the failure,
    /// or no file if none was ever registered for the path.
    IncludeError { directive: TextSpan, path: TextSpan, file: FileId },
    /// Files include one another too deeply.
    IncludeTooDeep { directive: TextSpan },
    /// A file is included where none can be.
    IncludeUnsupported { directive: TextSpan },
    /// A line is no statement.
    ParseError(ParseError),
}

} // verus!
