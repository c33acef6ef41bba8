//! From the laid-out sections to the bytes of the program.

use crate::assembler::ast::{Expression, Instruction, Statement};
use crate::assembler::error::AssemblerError;
use crate::assembler::eval::{EvalError, LabelModel, LabelTable};
use crate::assembler::layout::{spec_views, Section, SectionModel, Walk, WalkModel};
use crate::assembler::span::{FileServer, SourceFileModel};
use vstd::prelude::*;

verus! {

impl Expression {
    /// The value of the expression; 0 if it has none. A division by zero
    /// and a name that is no label are reported.
    pub open spec fn spec_eval_or_zero(
        self,
        files: Seq<SourceFileModel>,
        labels: Seq<LabelModel>,
        errors: Seq<AssemblerError>,
    ) -> (i64, Seq<AssemblerError>) {
        match self.spec_try_eval(files, labels) {
            Ok(value) => (value, errors),
            Err(EvalError::DivideByZero(span)) => (
                0,
                errors.push(AssemblerError::DivideByZero { expr: span }),
            ),
            Err(EvalError::UndefinedSymbol(span)) => (
                0,
                errors.push(AssemblerError::UndefinedSymbol { ident: span }),
            ),
            Err(_) => (0, errors),
        }
    }

    pub fn eval_or_zero(
        &self,
        files: &FileServer,
        labels: &LabelTable,
        errors: &mut Vec<AssemblerError>,
    ) -> (value: i64)
        ensures
            (value, final(errors)@) == self.spec_eval_or_zero(files@, labels@, old(errors)@),
    {
        match self.try_eval(files, labels) {
            Ok(value) => value,
            Err(EvalError::DivideByZero(span)) => {
                errors.push(AssemblerError::DivideByZero { expr: span });
                0
            },
            Err(EvalError::UndefinedSymbol(span)) => {
                errors.push(AssemblerError::UndefinedSymbol { ident: span });
                0
            },
            Err(_) => 0,
        }
    }
}

/// Where the section `k` goes into `order`, which holds sections sorted
/// by base: behind the last of the first `at` that does not start after it.
pub open spec fn spec_insert_position(
    order: Seq<usize>,
    sections: Seq<SectionModel>,
    k: int,
    at: int,
) -> int
    decreases at,
{
    if at <= 0 || at > order.len() {
        0
    } else if sections[order[at - 1] as int].base <= sections[k].base {
        at
    } else {
        spec_insert_position(order, sections, k, at - 1)
    }
}

/// The first `upto` sections in the order of their bases. Sections with
/// the same base keep the order in which the source names them.
pub open spec fn spec_order(sections: Seq<SectionModel>, upto: int) -> Seq<usize>
    decreases upto,
{
    if upto <= 0 || upto > sections.len() {
        Seq::empty()
    } else {
        let before = spec_order(sections, upto - 1);
        before.insert(
            spec_insert_position(before, sections, upto - 1, before.len() as int),
            (upto - 1) as usize,
        )
    }
}

proof fn lemma_insert_position(order: Seq<usize>, sections: Seq<SectionModel>, k: int, at: int)
    requires
        0 <= at <= order.len(),
    ensures
        0 <= spec_insert_position(order, sections, k, at) <= at,
    decreases at,
{
    if at > 0 && !(sections[order[at - 1] as int].base <= sections[k].base) {
        lemma_insert_position(order, sections, k, at - 1);
    }
}

/// Every entry of the order names a section, and there are `upto` of them.
pub proof fn lemma_order(sections: Seq<SectionModel>, upto: int)
    requires
        0 <= upto <= sections.len(),
    ensures
        spec_order(sections, upto).len() == upto,
        forall|i: int| 0 <= i < upto ==> (#[trigger] spec_order(sections, upto)[i]) < upto,
    decreases upto,
{
    if upto > 0 {
        lemma_order(sections, upto - 1);
        let before = spec_order(sections, upto - 1);
        lemma_insert_position(before, sections, upto - 1, before.len() as int);
    }
}

/// The sections in the order of their bases.
pub fn sorted_order(sections: &Vec<Section>) -> (order: Vec<usize>)
    ensures
        order@ == spec_order(spec_views(sections@), sections@.len() as int),
        order@.len() == sections@.len(),
        forall|i: int| 0 <= i < order@.len() ==> (#[trigger] order@[i]) < sections@.len(),
{
    let ghost models = spec_views(sections@);
    let mut order: Vec<usize> = Vec::new();
    let mut k: usize = 0;
    while k < sections.len()
        invariant
            k <= sections@.len(),
            models == spec_views(sections@),
            order@ == spec_order(models, k as int),
            order@.len() == k,
            forall|i: int| 0 <= i < order@.len() ==> (#[trigger] order@[i]) < k,
        decreases sections@.len() - k,
    {
        let mut at: usize = order.len();
        while at > 0 && sections[order[at - 1]].base > sections[k].base
            invariant
                at <= order@.len(),
                k < sections@.len(),
                models == spec_views(sections@),
                forall|i: int| 0 <= i < order@.len() ==> (#[trigger] order@[i]) < k,
                spec_insert_position(order@, models, k as int, order@.len() as int)
                    == spec_insert_position(order@, models, k as int, at as int),
            decreases at,
        {
            assert(models[order@[at - 1] as int] == sections@[order@[at - 1] as int]@);
            assert(models[k as int] == sections@[k as int]@);
            at -= 1;
        }
        proof {
            if at > 0 {
                assert(models[order@[at - 1] as int] == sections@[order@[at - 1] as int]@);
                assert(models[k as int] == sections@[k as int]@);
            }
        }
        let ghost before = order@;
        order.insert(at, k);
        assert forall|i: int| 0 <= i < order@.len() implies (#[trigger] order@[i]) < k + 1 by {
            if i < at {
                assert(order@[i] == before[i]);
            } else if i > at {
                assert(order@[i] == before[i - 1]);
            }
        }
        k += 1;
    }
    order
}

/// `data` with `bytes` written at `at`; zeros fill the gap if `at` lies
/// behind the end.
pub open spec fn spec_write_at(data: Seq<u8>, at: int, bytes: Seq<u8>) -> Seq<u8> {
    Seq::new(
        if data.len() >= at + bytes.len() {
            data.len()
        } else {
            (at + bytes.len()) as nat
        },
        |i: int|
            if at <= i < at + bytes.len() {
                bytes[i - at]
            } else if i < data.len() {
                data[i]
            } else {
                0u8
            },
    )
}

pub fn write_at(data: &mut Vec<u8>, at: usize, bytes: &Vec<u8>)
    requires
        at + bytes@.len() <= usize::MAX,
    ensures
        final(data)@ == spec_write_at(old(data)@, at as int, bytes@),
{
    let end: usize = at + bytes.len();
    while data.len() < end
        invariant
            data@.len() >= old(data)@.len(),
            data@.len() <= end || data@.len() == old(data)@.len(),
            forall|i: int| 0 <= i < old(data)@.len() ==> data@[i] == old(data)@[i],
            forall|i: int| old(data)@.len() <= i < data@.len() ==> data@[i] == 0,
        decreases end - data@.len(),
    {
        data.push(0);
    }
    let ghost padded = data@;
    let mut i: usize = 0;
    while i < bytes.len()
        invariant
            i <= bytes@.len(),
            padded.len() >= old(data)@.len(),
            padded.len() <= end || padded.len() == old(data)@.len(),
            forall|j: int| 0 <= j < old(data)@.len() ==> padded[j] == old(data)@[j],
            forall|j: int| old(data)@.len() <= j < padded.len() ==> padded[j] == 0,
            end == at + bytes@.len(),
            data@.len() == padded.len(),
            padded.len() >= end,
            forall|j: int| 0 <= j < data@.len() && !(at <= j < at + i) ==> data@[j] == padded[j],
            forall|j: int| at <= j < at + i ==> data@[j] == bytes@[j - at],
        decreases bytes@.len() - i,
    {
        data.set(at + i, bytes[i]);
        i += 1;
    }
    proof {
        let target = spec_write_at(old(data)@, at as int, bytes@);
        assert(padded.len() == target.len());
        assert forall|j: int| 0 <= j < target.len() implies data@[j] == target[j] by {
            if at <= j < at + bytes@.len() {
            } else {
                assert(data@[j] == padded[j]);
            }
        }
        assert(data@ =~= target);
    }
}

/// The image and the errors while the bytes are written.
pub struct EmitModel {
    pub data: Seq<u8>,
    pub errors: Seq<AssemblerError>,
}

impl EmitModel {
    /// After statement `i` of `section`: an instruction puts its bytes
    /// where the layout puts the statement, counted from `start`. Its
    /// operand is evaluated with the labels.
    pub open spec fn with_statement(
        self,
        files: Seq<SourceFileModel>,
        labels: Seq<LabelModel>,
        section: SectionModel,
        i: int,
        start: u16,
    ) -> EmitModel {
        match section.statements[i] {
            Statement::Instruction(instruction) => {
                let (value, errors) = match instruction.spec_operand() {
                    Some(expr) => expr.spec_eval_or_zero(files, labels, self.errors),
                    None => (0i64, self.errors),
                };
                let offset = WalkModel::start(Seq::empty()).walk(
                    section.statements,
                    section.name_span,
                    i,
                ).address;
                if section.base >= start {
                    EmitModel {
                        data: spec_write_at(
                            self.data,
                            section.base - start + offset,
                            instruction.spec_encode(value),
                        ),
                        errors,
                    }
                } else {
                    EmitModel { errors, ..self }
                }
            },
            _ => self,
        }
    }

    /// After the first `upto` statements of `section`.
    pub open spec fn with_statements(
        self,
        files: Seq<SourceFileModel>,
        labels: Seq<LabelModel>,
        section: SectionModel,
        upto: int,
        start: u16,
    ) -> EmitModel
        decreases upto,
    {
        if upto <= 0 || upto > section.statements.len() {
            self
        } else {
            self.with_statements(files, labels, section, upto - 1, start).with_statement(
                files,
                labels,
                section,
                upto - 1,
                start,
            )
        }
    }

    /// After the first `upto` sections of `order`.
    pub open spec fn with_sections(
        self,
        files: Seq<SourceFileModel>,
        labels: Seq<LabelModel>,
        sections: Seq<SectionModel>,
        order: Seq<usize>,
        upto: int,
        start: u16,
    ) -> EmitModel
        decreases upto,
    {
        if upto <= 0 || upto > order.len() {
            self
        } else {
            let before = self.with_sections(files, labels, sections, order, upto - 1, start);
            let at = order[upto - 1] as int;
            if at < sections.len() {
                before.with_statements(
                    files,
                    labels,
                    sections[at],
                    sections[at].statements.len() as int,
                    start,
                )
            } else {
                before
            }
        }
    }
}

/// The image of the sections: as long as it takes to reach the end of the
/// section with the highest base, zero where no instruction stands, and
/// with the bytes of every instruction in its place. The first byte of
/// the image belongs at the lowest base, which is returned with it.
pub open spec fn spec_emit(
    files: Seq<SourceFileModel>,
    labels: Seq<LabelModel>,
    sections: Seq<SectionModel>,
) -> (u16, EmitModel) {
    if sections.len() == 0 {
        (0, EmitModel { data: Seq::empty(), errors: Seq::empty() })
    } else {
        let order = spec_order(sections, sections.len() as int);
        let first = sections[order[0] as int];
        let last = sections[order[order.len() - 1] as int];
        let length = if last.base + last.size >= first.base {
            last.base + last.size - first.base
        } else {
            0
        };
        (
            first.base,
            EmitModel {
                data: Seq::new(length as nat, |i: int| 0u8),
                errors: Seq::empty(),
            }.with_sections(files, labels, sections, order, order.len() as int, first.base),
        )
    }
}

/// Writes the image of the sections.
pub fn emit(files: &FileServer, labels: &LabelTable, sections: &Vec<Section>) -> (r: (
    u16,
    Vec<u8>,
    Vec<AssemblerError>,
))
    ensures
        r.0 == spec_emit(files@, labels@, spec_views(sections@)).0,
        r.1@ == spec_emit(files@, labels@, spec_views(sections@)).1.data,
        r.2@ == spec_emit(files@, labels@, spec_views(sections@)).1.errors,
{
    let ghost models = spec_views(sections@);
    let mut errors: Vec<AssemblerError> = Vec::new();
    let mut data: Vec<u8> = Vec::new();
    if sections.len() == 0 {
        return (0, data, errors);
    }
    let order = sorted_order(sections);
    let first = &sections[order[0]];
    let last = &sections[order[order.len() - 1]];
    assert(models[order@[0] as int] == first@);
    assert(models[order@[order@.len() - 1] as int] == last@);
    let start: u16 = first.base;
    let end: u32 = last.base as u32 + last.size as u32;
    let length: u32 = if end >= start as u32 {
        end - start as u32
    } else {
        0
    };
    let mut n: u32 = 0;
    while n < length
        invariant
            n <= length,
            data@ == Seq::new(n as nat, |i: int| 0u8),
        decreases length - n,
    {
        data.push(0);
        n += 1;
        assert(data@ =~= Seq::new(n as nat, |i: int| 0u8));
    }
    let ghost blank = EmitModel { data: data@, errors: errors@ };
    assert(errors@ =~= Seq::empty());
    let mut o: usize = 0;
    while o < order.len()
        invariant
            o <= order@.len(),
            models == spec_views(sections@),
            forall|i: int| 0 <= i < order@.len() ==> (#[trigger] order@[i]) < sections@.len(),
            (EmitModel { data: data@, errors: errors@ }) == blank.with_sections(
                files@,
                labels@,
                models,
                order@,
                o as int,
                start,
            ),
        decreases order@.len() - o,
    {
        let section = &sections[order[o]];
        assert(models[order@[o as int] as int] == section@);
        let ghost section_start = EmitModel { data: data@, errors: errors@ };
        let mut walk = Walk::start();
        let mut scratch: Vec<AssemblerError> = Vec::new();
        let ghost walk_start = WalkModel::start(Seq::empty());
        assert(scratch@ =~= Seq::empty());
        assert(walk.model(scratch@) == walk_start);
        let mut i: usize = 0;
        while i < section.statements.len()
            invariant
                i <= section.statements@.len(),
                walk_start == WalkModel::start(Seq::empty()),
                walk.model(scratch@) == walk_start.walk(
                    section.statements@,
                    section.name_span,
                    i as int,
                ),
                (EmitModel { data: data@, errors: errors@ }) == section_start.with_statements(
                    files@,
                    labels@,
                    section@,
                    i as int,
                    start,
                ),
            decreases section.statements@.len() - i,
        {
            let ghost before = EmitModel { data: data@, errors: errors@ };
            match &section.statements[i] {
                Statement::Instruction(instruction) => {
                    let value = match instruction.operand() {
                        Some(expr) => expr.eval_or_zero(files, labels, &mut errors),
                        None => 0,
                    };
                    let bytes = instruction.encode(value);
                    if section.base >= start {
                        let at: usize = (section.base - start) as usize + walk.address as usize;
                        assert(walk.model(scratch@).address == walk.address);
                        write_at(&mut data, at, &bytes);
                    }
                },
                _ => {},
            }
            assert((EmitModel { data: data@, errors: errors@ }) == before.with_statement(
                files@,
                labels@,
                section@,
                i as int,
                start,
            ));
            walk.step(&section.statements[i], section.name_span, &mut scratch);
            i += 1;
        }
        o += 1;
    }
    (start, data, errors)
}

/// The number of bytes that the first `upto` statements of a section put
/// into the image.
pub open spec fn spec_emitted_len(
    statements: Seq<Statement>,
    files: Seq<SourceFileModel>,
    labels: Seq<LabelModel>,
    upto: int,
) -> nat
    decreases upto,
{
    if upto <= 0 || upto > statements.len() {
        0
    } else {
        spec_emitted_len(statements, files, labels, upto - 1) + match statements[upto - 1] {
            Statement::Instruction(instruction) => instruction.spec_encode(
                match instruction.spec_operand() {
                    Some(expr) => expr.spec_eval_or_zero(files, labels, Seq::empty()).0,
                    None => 0i64,
                },
            ).len(),
            _ => 0nat,
        }
    }
}

/// The statements of a section put as many bytes into the image as their
/// sizes add up to, whatever the labels stand for.
pub proof fn lemma_emitted_len_is_size(
    statements: Seq<Statement>,
    files: Seq<SourceFileModel>,
    labels: Seq<LabelModel>,
    upto: int,
)
    requires
        0 <= upto <= statements.len(),
    ensures
        spec_emitted_len(statements, files, labels, upto) == crate::assembler::layout::spec_size_sum(
            statements,
            upto,
        ),
    decreases upto,
{
    if upto > 0 {
        lemma_emitted_len_is_size(statements, files, labels, upto - 1);
        match statements[upto - 1] {
            Statement::Instruction(instruction) => {
                let value = match instruction.spec_operand() {
                    Some(expr) => expr.spec_eval_or_zero(files, labels, Seq::empty()).0,
                    None => 0i64,
                };
                crate::assembler::ast::lemma_emit_size(*instruction, value);
            },
            _ => {},
        }
    }
}

/// Writing into the image changes the bytes written to and no others.
pub proof fn lemma_write_at(data: Seq<u8>, at: int, bytes: Seq<u8>, i: int)
    requires
        0 <= at,
        0 <= i < spec_write_at(data, at, bytes).len(),
    ensures
        at <= i < at + bytes.len() ==> spec_write_at(data, at, bytes)[i] == bytes[i - at],
        i < at && i < data.len() ==> spec_write_at(data, at, bytes)[i] == data[i],
        i >= at + bytes.len() ==> spec_write_at(data, at, bytes)[i] == data[i],
        at + bytes.len() <= data.len() ==> spec_write_at(data, at, bytes).len() == data.len(),
{
}

} // verus!
