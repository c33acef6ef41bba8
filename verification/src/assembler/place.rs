//! From the statements of the files to the sections of the program.

use crate::assembler::ast::{
    high_byte, low_byte, spec_high_byte, spec_low_byte, Label, Statement, StringLiteral,
};
use crate::assembler::error::AssemblerError;
use crate::assembler::eval::{LabelModel, LabelTable};
use crate::assembler::lexer::{scan_string_literal, spec_string_literal};
use crate::assembler::lines::{parse_file, spec_parse_file};
use crate::assembler::sections::{spec_find_section, RawSectionModel, SectionTable};
use crate::assembler::span::{
    spec_file_text, spec_find, spec_span_bytes, FileId, FileServer, SourceFileModel, TextSpan,
};
use vstd::prelude::*;

verus! {

/// How deeply files may include one another.
pub const MAX_INCLUDE_DEPTH: usize = 64;

/// The byte that separates the parts of a path.
pub const PATH_SEPARATOR: u8 = 0x2F;

/// What is known of a program while its files are read.
pub struct AssemblyModel {
    pub errors: Seq<AssemblerError>,
    pub sections: Seq<RawSectionModel>,
    pub labels: Seq<LabelModel>,
    /// The section that the statements go to: its name and where the
    /// directive names it.
    pub current_section: Option<(Seq<u8>, TextSpan)>,
    /// The base of the sections without a base of their own, once it is
    /// settled.
    pub default_base: Option<u16>,
    /// Whether a statement outside of any section has ended the reading.
    pub halted: bool,
}

/// What is known of a program while its files are read.
pub struct Assembly {
    pub errors: Vec<AssemblerError>,
    pub sections: SectionTable,
    pub labels: LabelTable,
    pub current_section: Option<(Vec<u8>, TextSpan)>,
    pub default_base: Option<u16>,
    pub halted: bool,
}

impl View for Assembly {
    type V = AssemblyModel;

    open spec fn view(&self) -> AssemblyModel {
        AssemblyModel {
            errors: self.errors@,
            sections: self.sections@,
            labels: self.labels@,
            current_section: match self.current_section {
                Some((name, span)) => Some((name@, span)),
                None => None,
            },
            default_base: self.default_base,
            halted: self.halted,
        }
    }
}

impl Assembly {
    pub open spec fn wf(&self) -> bool {
        self.sections.wf()
    }

    /// Nothing is known yet.
    pub fn new() -> (assembly: Self)
        ensures
            assembly.wf(),
            assembly@ == AssemblyModel::spec_new(),
    {
        let assembly = Assembly {
            errors: Vec::new(),
            sections: SectionTable::new(),
            labels: LabelTable::new(),
            current_section: None,
            default_base: None,
            halted: false,
        };
        assert(assembly@.sections =~= Seq::empty());
        assert(assembly@.labels =~= Seq::empty());
        assembly
    }
}

/// The low sixteen bits of `value`.
pub open spec fn spec_low_word(value: i64) -> u16 {
    (spec_high_byte(value) * 256 + spec_low_byte(value)) as u16
}

pub fn low_word(value: i64) -> (r: u16)
    ensures
        r == spec_low_word(value),
{
    (high_byte(value) as u16) * 256 + (low_byte(value) as u16)
}

/// `value` as an address, if it is one.
pub open spec fn spec_address(value: i64) -> Option<u16> {
    if 0 <= value <= 0xFFFF {
        Some(value as u16)
    } else {
        None
    }
}

pub fn address(value: i64) -> (r: Option<u16>)
    ensures
        r == spec_address(value),
{
    if 0 <= value && value <= 0xFFFF {
        Some(value as u16)
    } else {
        None
    }
}

/// What the string literal stands for: nothing if it has errors.
pub open spec fn spec_string_value(files: Seq<SourceFileModel>, literal: StringLiteral) -> Seq<u8> {
    let text = spec_file_text(files, literal.span.file_id);
    if literal.valid && literal.span.start_byte_offset < text.len() {
        spec_string_literal(text, literal.span.start_byte_offset as int).value
    } else {
        Seq::empty()
    }
}

pub fn string_value(files: &FileServer, literal: &StringLiteral) -> (value: Vec<u8>)
    ensures
        value@ == spec_string_value(files@, *literal),
{
    if !literal.valid {
        return Vec::new();
    }
    match files.get_file(literal.span.file_id) {
        Some(file) => {
            if !file.failed() && literal.span.start_byte_offset < file.text().len() {
                let (value, _, _) = scan_string_literal(
                    file.text().as_slice(),
                    literal.span.start_byte_offset,
                );
                value
            } else {
                Vec::new()
            }
        },
        None => Vec::new(),
    }
}

/// The length of the directory part of the first `at` bytes of `path`:
/// all up to the last separator, which is included.
pub open spec fn spec_directory_len(path: Seq<u8>, at: int) -> int
    decreases at,
{
    if at <= 0 || at > path.len() {
        0
    } else if path[at - 1] == PATH_SEPARATOR {
        at
    } else {
        spec_directory_len(path, at - 1)
    }
}

/// The path of the file that `from` includes as `relative`: `relative`
/// itself if it starts at the root, and else `relative` in the directory
/// of `from`.
pub open spec fn spec_include_path(from: Seq<u8>, relative: Seq<u8>) -> Seq<u8> {
    if relative.len() > 0 && relative[0] == PATH_SEPARATOR {
        relative
    } else {
        from.subrange(0, spec_directory_len(from, from.len() as int)) + relative
    }
}

pub fn include_path(from: &[u8], relative: &[u8]) -> (path: Vec<u8>)
    ensures
        path@ == spec_include_path(from@, relative@),
{
    let mut path: Vec<u8> = Vec::new();
    if !(relative.len() > 0 && relative[0] == PATH_SEPARATOR) {
        let mut end: usize = from.len();
        while end > 0 && from[end - 1] != PATH_SEPARATOR
            invariant
                end <= from@.len(),
                spec_directory_len(from@, from@.len() as int) == spec_directory_len(
                    from@,
                    end as int,
                ),
            decreases end,
        {
            end -= 1;
        }
        let mut i: usize = 0;
        while i < end
            invariant
                i <= end <= from@.len(),
                path@ == from@.subrange(0, i as int),
            decreases end - i,
        {
            path.push(from[i]);
            i += 1;
            assert(path@ =~= from@.subrange(0, i as int));
        }
    }
    let ghost head = path@;
    let mut j: usize = 0;
    while j < relative.len()
        invariant
            j <= relative@.len(),
            path@ == head + relative@.take(j as int),
        decreases relative@.len() - j,
    {
        path.push(relative[j]);
        j += 1;
        assert(path@ =~= head + relative@.take(j as int));
    }
    assert(relative@.take(j as int) =~= relative@);
    assert(path@ =~= spec_include_path(from@, relative@));
    path
}

/// The path of the file that file `from` includes with the literal `path`.
pub open spec fn spec_include_target(
    files: Seq<SourceFileModel>,
    from: FileId,
    path: StringLiteral,
) -> Seq<u8> {
    spec_include_path(spec_file_path(files, from), spec_string_value(files, path))
}

/// The path of the file that is included by the string literal at `path`,
/// which stands in a file of `files`.
pub fn include_target(files: &FileServer, path: TextSpan) -> (target: Vec<u8>)
    ensures
        target@ == spec_include_target(
            files@,
            path.file_id,
            StringLiteral { valid: true, span: path },
        ),
{
    let relative = string_value(files, &StringLiteral { valid: true, span: path });
    let empty: Vec<u8> = Vec::new();
    let from: &Vec<u8> = match files.get_file(path.file_id) {
        Some(source) => source.path(),
        None => &empty,
    };
    assert(from@ =~= spec_file_path(files@, path.file_id));
    include_path(from.as_slice(), relative.as_slice())
}

/// The path of file `file`; empty if there is no such file.
pub open spec fn spec_file_path(files: Seq<SourceFileModel>, file: FileId) -> Seq<u8> {
    if file.index < files.len() {
        files[file.index as int].path
    } else {
        Seq::empty()
    }
}

impl AssemblyModel {
    pub open spec fn spec_new() -> AssemblyModel {
        AssemblyModel {
            errors: Seq::empty(),
            sections: Seq::empty(),
            labels: Seq::empty(),
            current_section: None,
            default_base: None,
            halted: false,
        }
    }

    pub open spec fn with_error(self, error: AssemblerError) -> AssemblyModel {
        AssemblyModel { errors: self.errors.push(error), ..self }
    }

    /// The sections with the one called `name` in them, and its position.
    pub open spec fn with_section(self, name: Seq<u8>, span: TextSpan) -> (Seq<RawSectionModel>, int) {
        match spec_find_section(self.sections, name, 0) {
            Some(at) => (self.sections, at),
            None => (
                SectionTable::spec_created(self.sections, name, span),
                self.sections.len() as int,
            ),
        }
    }

    /// After `.section`: the statements go to the section of that name
    /// from now on, and the default base is settled. A base given with
    /// the directive becomes the section's base, unless it has one.
    pub open spec fn after_section_directive(
        self,
        name: Seq<u8>,
        name_span: TextSpan,
        base: Option<(i64, TextSpan)>,
    ) -> AssemblyModel {
        let entered = AssemblyModel {
            current_section: Some((name, name_span)),
            default_base: match self.default_base {
                Some(base) => Some(base),
                None => Some(0u16),
            },
            ..self
        };
        match base {
            None => entered,
            Some((value, span)) => {
                let (sections, at) = entered.with_section(name, name_span);
                match sections[at].base {
                    Some((_, previous)) => AssemblyModel { sections, ..entered }.with_error(
                        AssemblerError::DuplicateSectionBase { value: span, previous },
                    ),
                    None => AssemblyModel {
                        sections: sections.update(
                            at,
                            RawSectionModel {
                                base: Some((spec_low_word(value), span)),
                                ..sections[at]
                            },
                        ),
                        ..entered
                    },
                }
            },
        }
    }

    /// After `.origin`: the default base is settled, if it was not yet
    /// and the value is an address.
    pub open spec fn after_origin_directive(
        self,
        value: Option<i64>,
        value_span: TextSpan,
        directive: TextSpan,
    ) -> AssemblyModel {
        if self.default_base.is_some() {
            self.with_error(AssemblerError::InvalidOriginDirective { directive })
        } else {
            match spec_address(
                match value {
                    Some(v) => v,
                    None => 0,
                },
            ) {
                Some(base) => AssemblyModel { default_base: Some(base), ..self },
                None => self.with_error(
                    AssemblerError::InvalidValue { value: value_span, directive },
                ),
            }
        }
    }

    /// After a label was declared: a second declaration is an error.
    pub open spec fn after_label(self, name: Seq<u8>, span: TextSpan) -> AssemblyModel {
        let declared = AssemblyModel {
            labels: LabelTable::spec_declare(self.labels, name, span),
            ..self
        };
        match crate::assembler::eval::spec_lookup(self.labels, name, 0) {
            Some(i) => declared.with_error(
                AssemblerError::DuplicateLabel { previous: self.labels[i].span, duplicate: span },
            ),
            None => declared,
        }
    }

    /// After a statement was put into the current section. Without a
    /// current section that is an error and ends the reading.
    pub open spec fn after_statement(self, statement: Statement) -> AssemblyModel {
        match self.current_section {
            Some((name, span)) => {
                let (sections, at) = self.with_section(name, span);
                AssemblyModel {
                    sections: sections.update(
                        at,
                        RawSectionModel {
                            statements: sections[at].statements.push(statement),
                            ..sections[at]
                        },
                    ),
                    ..self
                }
            },
            None => AssemblyModel {
                halted: true,
                ..self.with_error(
                    AssemblerError::UndefinedSection { statement: statement.spec_span() },
                )
            },
        }
    }

    /// The program after one statement of the file `file` was read.
    pub open spec fn place(
        self,
        files: Seq<SourceFileModel>,
        file: FileId,
        statement: Statement,
        allow_include: bool,
        depth: nat,
    ) -> AssemblyModel
        decreases depth, 0int, 0int,
    {
        match statement {
            Statement::SectionDirective(directive) => self.after_section_directive(
                spec_string_value(files, directive.name),
                directive.name.span,
                match directive.base {
                    Some(base) => match base.value {
                        Some(value) => Some((value, base.span)),
                        None => None,
                    },
                    None => None,
                },
            ),
            Statement::IncludeDirective(directive) => if !allow_include {
                self.with_error(
                    AssemblerError::IncludeUnsupported { directive: directive.spec_span() },
                )
            } else {
                match spec_find(files, spec_include_target(files, file, directive.path), 1) {
                    None => self.with_error(
                        AssemblerError::IncludeError {
                            directive: directive.spec_span(),
                            path: directive.path.span,
                            file: FileId::spec_none(),
                        },
                    ),
                    Some(included) => if included.index >= files.len()
                        || files[included.index as int].failed {
                        self.with_error(
                            AssemblerError::IncludeError {
                                directive: directive.spec_span(),
                                path: directive.path.span,
                                file: included,
                            },
                        )
                    } else if depth == 0 {
                        self.with_error(
                            AssemblerError::IncludeTooDeep { directive: directive.spec_span() },
                        )
                    } else {
                        self.process_file(files, included, allow_include, (depth - 1) as nat)
                    },
                }
            },
            Statement::OriginDirective(directive) => self.after_origin_directive(
                directive.value.value,
                directive.value.span,
                directive.spec_span(),
            ),
            Statement::Label(label) => self.after_label(
                spec_span_bytes(files, label.name.span),
                label.name.span,
            ).after_statement(statement),
            _ => self.after_statement(statement),
        }
    }

    /// The program after the statements from `at` on were read, or as
    /// many as were read before the reading ended.
    pub open spec fn place_all(
        self,
        files: Seq<SourceFileModel>,
        file: FileId,
        statements: Seq<Statement>,
        at: int,
        allow_include: bool,
        depth: nat,
    ) -> AssemblyModel
        decreases depth, 1int, statements.len() - at,
    {
        if at < 0 || at >= statements.len() || self.halted {
            self
        } else {
            self.place(files, file, statements[at], allow_include, depth).place_all(
                files,
                file,
                statements,
                at + 1,
                allow_include,
                depth,
            )
        }
    }

    /// The program after the file `file` was read: first every line is
    /// parsed, then the statements are put into their sections, and the
    /// files that they include are read where they are included.
    pub open spec fn process_file(
        self,
        files: Seq<SourceFileModel>,
        file: FileId,
        allow_include: bool,
        depth: nat,
    ) -> AssemblyModel
        decreases depth, 2int, 0int,
    {
        let parsed = spec_parse_file(file, spec_file_text(files, file), self.errors);
        AssemblyModel { errors: parsed.errors, ..self }.place_all(
            files,
            file,
            parsed.statements,
            0,
            allow_include,
            depth,
        )
    }
}

/// The statements in reverse order.
fn reversed(statements: Vec<Statement>) -> (r: Vec<Statement>)
    ensures
        r@ == statements@.reverse(),
{
    let mut rest = statements;
    let mut r: Vec<Statement> = Vec::new();
    while rest.len() > 0
        invariant
            rest@.len() + r@.len() == statements@.len(),
            rest@ == statements@.take(rest@.len() as int),
            forall|i: int| 0 <= i < r@.len() ==> r@[i] == statements@[statements@.len() - 1 - i],
        decreases rest@.len(),
    {
        match rest.pop() {
            Some(statement) => {
                r.push(statement);
            },
            None => {},
        }
    }
    assert(r@ =~= statements@.reverse());
    r
}

fn place_statement(state: &mut Assembly, statement: Statement)
    requires
        old(state).wf(),
    ensures
        final(state).wf(),
        final(state)@ == old(state)@.after_statement(statement),
{
    let span = statement.span();
    let current = match &state.current_section {
        Some((name, name_span)) => Some(state.sections.find_or_create(name, *name_span)),
        None => None,
    };
    match current {
        Some(at) => {
            state.sections.push_statement(at, statement);
        },
        None => {
            state.errors.push(AssemblerError::UndefinedSection { statement: span });
            state.halted = true;
        },
    }
}

/// Reads the file `file`: parses its lines, puts its statements into the
/// sections, and reads the files that it includes, at most `depth` deep.
pub fn process_file(
    files: &FileServer,
    file: FileId,
    state: &mut Assembly,
    allow_include: bool,
    depth: usize,
)
    requires
        old(state).wf(),
    ensures
        final(state).wf(),
        final(state)@ == old(state)@.process_file(files@, file, allow_include, depth as nat),
    decreases depth,
{
    let text: Vec<u8> = Vec::new();
    let file_text: &Vec<u8> = match files.get_file(file) {
        Some(source) => if source.failed() {
            &text
        } else {
            source.text()
        },
        None => &text,
    };
    assert(file_text@ =~= spec_file_text(files@, file));
    let statements = parse_file(file, file_text.as_slice(), &mut state.errors);
    let ghost parsed = statements@;
    let ghost start = state@;
    assert(start == (AssemblyModel {
        errors: spec_parse_file(file, spec_file_text(files@, file), old(state)@.errors).errors,
        ..old(state)@
    }));
    let mut rest = reversed(statements);
    let mut at: usize = 0;
    let total = rest.len();
    while at < total && !state.halted
        invariant
            state.wf(),
            at <= total == parsed.len(),
            rest@.len() == total - at,
            forall|i: int| 0 <= i < rest@.len() ==> rest@[i] == parsed[parsed.len() - 1 - i],
            start.place_all(files@, file, parsed, 0, allow_include, depth as nat)
                == state@.place_all(files@, file, parsed, at as int, allow_include, depth as nat),
        decreases total - at,
    {
        let statement = rest.pop().unwrap();
        assert(statement == parsed[at as int]);
        let ghost before = state@;
        match &statement {
            Statement::SectionDirective(directive) => {
                let name = string_value(files, &directive.name);
                let name_span = directive.name.span;
                if state.default_base.is_none() {
                    state.default_base = Some(0);
                }
                let base = match directive.base {
                    Some(literal) => match literal.value {
                        Some(value) => Some((value, literal.span)),
                        None => None,
                    },
                    None => None,
                };
                match base {
                    None => {},
                    Some((value, span)) => {
                        let section = state.sections.find_or_create(&name, name_span);
                        match state.sections.base(section) {
                            Some((_, previous)) => {
                                state.errors.push(
                                    AssemblerError::DuplicateSectionBase { value: span, previous },
                                );
                            },
                            None => {
                                state.sections.set_base(section, (low_word(value), span));
                            },
                        }
                    },
                }
                state.current_section = Some((name, name_span));
            },
            Statement::IncludeDirective(directive) => {
                let span = directive.span();
                if !allow_include {
                    state.errors.push(AssemblerError::IncludeUnsupported { directive: span });
                } else {
                    let relative = string_value(files, &directive.path);
                    let empty: Vec<u8> = Vec::new();
                    let from: &Vec<u8> = match files.get_file(file) {
                        Some(source) => source.path(),
                        None => &empty,
                    };
                    assert(from@ =~= spec_file_path(files@, file));
                    let path = include_path(from.as_slice(), relative.as_slice());
                    match files.find(path.as_slice()) {
                        None => {
                            state.errors.push(
                                AssemblerError::IncludeError {
                                    directive: span,
                                    path: directive.path.span,
                                    file: FileId::none(),
                                },
                            );
                        },
                        Some(included) => {
                            let failed = match files.get_file(included) {
                                Some(source) => source.failed(),
                                None => true,
                            };
                            if failed {
                                state.errors.push(
                                    AssemblerError::IncludeError {
                                        directive: span,
                                        path: directive.path.span,
                                        file: included,
                                    },
                                );
                            } else if depth == 0 {
                                state.errors.push(
                                    AssemblerError::IncludeTooDeep { directive: span },
                                );
                            } else {
                                process_file(files, included, state, allow_include, depth - 1);
                            }
                        },
                    }
                }
            },
            Statement::OriginDirective(directive) => {
                let span = directive.span();
                if state.default_base.is_some() {
                    state.errors.push(AssemblerError::InvalidOriginDirective { directive: span });
                } else {
                    let value = match directive.value.value {
                        Some(v) => v,
                        None => 0,
                    };
                    match address(value) {
                        Some(base) => {
                            state.default_base = Some(base);
                        },
                        None => {
                            state.errors.push(
                                AssemblerError::InvalidValue {
                                    value: directive.value.span,
                                    directive: span,
                                },
                            );
                        },
                    }
                }
            },
            Statement::Label(label) => {
                let name = files.span_bytes(label.name.span);
                let span = label.name.span;
                match state.labels.declare(name, span) {
                    Some(previous) => {
                        state.errors.push(
                            AssemblerError::DuplicateLabel { previous, duplicate: span },
                        );
                    },
                    None => {},
                }
                place_statement(state, statement);
            },
            _ => {
                place_statement(state, statement);
            },
        }
        assert(state@ == before.place(files@, file, parsed[at as int], allow_include, depth as nat));
        at += 1;
    }
    assert(state@.place_all(files@, file, parsed, at as int, allow_include, depth as nat)
        == state@);
}

} // verus!
