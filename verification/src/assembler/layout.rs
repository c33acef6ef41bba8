//! The layout of the sections: where each statement stands, how large
//! each section is, and where each section starts.

use crate::assembler::ast::Statement;
use crate::assembler::error::AssemblerError;
use crate::assembler::place::{address, spec_address};
use crate::assembler::sections::{RawSection, RawSectionModel};
use crate::assembler::span::TextSpan;
use vstd::prelude::*;

verus! {

/// The last address.
pub const MAX_ADDRESS: u16 = 0xFFFF;

/// Where the walk through the statements of a section stands.
pub struct WalkModel {
    /// The offset in the section at which the next statement stands.
    pub address: u16,
    /// The largest offset that a statement has reached.
    pub size: u16,
    pub errors: Seq<AssemblerError>,
    /// Whether the section has outgrown the address space, which ends the walk.
    pub stopped: bool,
}

/// Where the walk through the statements of a section stands.
pub struct Walk {
    pub address: u16,
    pub size: u16,
    pub stopped: bool,
}

/// The least multiple of `align` that is not less than `address`.
pub open spec fn spec_align_up(address: u16, align: u16) -> int {
    ((address + align - 1) / (align as int)) * align
}

pub fn align_up(address: u16, align: u16) -> (r: u32)
    requires
        align > 0,
    ensures
        r == spec_align_up(address, align),
        address <= r < address + align,
{
    let blocks: u32 = (address as u32 + align as u32 - 1) / (align as u32);
    proof {
        let a = address as int;
        let n = align as int;
        let q = (a + n - 1) / n;
        assert(q * n <= a + n - 1 && a + n - 1 < q * n + n) by (nonlinear_arith)
            requires
                q == (a + n - 1) / n,
                n > 0,
                a >= 0,
        ;
        assert(q <= 0x10000) by (nonlinear_arith)
            requires
                q * n <= a + n - 1,
                n >= 1,
                a <= 0xFFFF,
                q >= 0,
        ;
    }
    blocks * (align as u32)
}

impl WalkModel {
    pub open spec fn start(errors: Seq<AssemblerError>) -> WalkModel {
        WalkModel { address: 0, size: 0, errors, stopped: false }
    }

    pub open spec fn too_large(self, section: TextSpan) -> WalkModel {
        WalkModel {
            errors: self.errors.push(AssemblerError::SectionTooLarge { section }),
            stopped: true,
            ..self
        }
    }

    /// The walk after the directive in `statement` has moved the address:
    /// `.offset N` sets it to `N`, `.align N` rounds it up to a multiple
    /// of `N`. A value that is no address, or an alignment of 0, is an
    /// error and moves nothing.
    pub open spec fn directed(self, statement: Statement, section: TextSpan) -> WalkModel {
        match statement {
            Statement::OffsetDirective(directive) => match spec_address(
                match directive.value.value {
                    Some(v) => v,
                    None => 0,
                },
            ) {
                Some(offset) => WalkModel { address: offset, ..self },
                None => WalkModel {
                    errors: self.errors.push(
                        AssemblerError::InvalidValue {
                            value: directive.value.span,
                            directive: directive.spec_span(),
                        },
                    ),
                    ..self
                },
            },
            Statement::AlignDirective(directive) => match spec_address(
                match directive.value.value {
                    Some(v) => v,
                    None => 1,
                },
            ) {
                Some(align) => if align == 0 {
                    WalkModel {
                        errors: self.errors.push(
                            AssemblerError::InvalidValue {
                                value: directive.value.span,
                                directive: directive.spec_span(),
                            },
                        ),
                        ..self
                    }
                } else if spec_align_up(self.address, align) > MAX_ADDRESS {
                    self.too_large(section)
                } else {
                    WalkModel { address: spec_align_up(self.address, align) as u16, ..self }
                },
                None => WalkModel {
                    errors: self.errors.push(
                        AssemblerError::InvalidValue {
                            value: directive.value.span,
                            directive: directive.spec_span(),
                        },
                    ),
                    ..self
                },
            },
            _ => self,
        }
    }

    /// The walk after one statement: its directive moves the address,
    /// then its bytes take up room. A section that reaches past the last
    /// address is too large, and the walk ends there.
    pub open spec fn step(self, statement: Statement, section: TextSpan) -> WalkModel {
        if self.stopped {
            self
        } else {
            let moved = self.directed(statement, section);
            if moved.stopped {
                moved
            } else if moved.address + statement.spec_emit_size() > MAX_ADDRESS {
                moved.too_large(section)
            } else {
                let next = (moved.address + statement.spec_emit_size()) as u16;
                WalkModel {
                    address: next,
                    size: if next > moved.size {
                        next
                    } else {
                        moved.size
                    },
                    ..moved
                }
            }
        }
    }

    /// The walk after the first `upto` statements.
    pub open spec fn walk(self, statements: Seq<Statement>, section: TextSpan, upto: int)
        -> WalkModel
        decreases upto,
    {
        if upto <= 0 || upto > statements.len() {
            self
        } else {
            self.walk(statements, section, upto - 1).step(statements[upto - 1], section)
        }
    }
}

impl Walk {
    pub open spec fn model(self, errors: Seq<AssemblerError>) -> WalkModel {
        WalkModel { address: self.address, size: self.size, errors, stopped: self.stopped }
    }

    pub fn start() -> (walk: Self)
        ensures
            forall|errors: Seq<AssemblerError>| #[trigger]
                walk.model(errors) == WalkModel::start(errors),
    {
        Walk { address: 0, size: 0, stopped: false }
    }

    /// Takes the walk one statement on.
    pub fn step(&mut self, statement: &Statement, section: TextSpan, errors: &mut Vec<AssemblerError>)
        ensures
            final(self).model(final(errors)@) == old(self).model(old(errors)@).step(
                *statement,
                section,
            ),
    {
        if self.stopped {
            return ;
        }
        match statement {
            Statement::OffsetDirective(directive) => {
                let value = match directive.value.value {
                    Some(v) => v,
                    None => 0,
                };
                match address(value) {
                    Some(offset) => {
                        self.address = offset;
                    },
                    None => {
                        errors.push(
                            AssemblerError::InvalidValue {
                                value: directive.value.span,
                                directive: directive.span(),
                            },
                        );
                    },
                }
            },
            Statement::AlignDirective(directive) => {
                let value = match directive.value.value {
                    Some(v) => v,
                    None => 1,
                };
                let align = match address(value) {
                    Some(align) => align,
                    None => 0,
                };
                if align == 0 {
                    errors.push(
                        AssemblerError::InvalidValue {
                            value: directive.value.span,
                            directive: directive.span(),
                        },
                    );
                } else {
                    let aligned = align_up(self.address, align);
                    if aligned > MAX_ADDRESS as u32 {
                        errors.push(AssemblerError::SectionTooLarge { section });
                        self.stopped = true;
                        return ;
                    }
                    self.address = aligned as u16;
                }
            },
            _ => {},
        }
        let size = statement.emit_size();
        if self.address as u32 + size as u32 > MAX_ADDRESS as u32 {
            errors.push(AssemblerError::SectionTooLarge { section });
            self.stopped = true;
        } else {
            self.address = self.address + size;
            if self.address > self.size {
                self.size = self.address;
            }
        }
    }
}

/// A section with its place in memory.
pub struct SectionModel {
    pub name: Seq<u8>,
    pub name_span: TextSpan,
    pub base: u16,
    pub size: u16,
    pub statements: Seq<Statement>,
}

/// A section with its place in memory.
pub struct Section {
    pub name: Vec<u8>,
    pub name_span: TextSpan,
    pub base: u16,
    pub size: u16,
    pub statements: Vec<Statement>,
}

impl View for Section {
    type V = SectionModel;

    open spec fn view(&self) -> SectionModel {
        SectionModel {
            name: self.name@,
            name_span: self.name_span,
            base: self.base,
            size: self.size,
            statements: self.statements@,
        }
    }
}

/// The sections laid out so far.
pub struct LayoutModel {
    pub sections: Seq<SectionModel>,
    /// Where the next section without a base of its own starts.
    pub default_base: u16,
    pub errors: Seq<AssemblerError>,
}

impl LayoutModel {
    /// The layout with one more section. A section without a base of its
    /// own starts at the default base and moves the default base to its
    /// end. A section that ends past the last address is too large.
    pub open spec fn with_section(self, raw: RawSectionModel) -> LayoutModel {
        let base = match raw.base {
            Some((base, _)) => base,
            None => self.default_base,
        };
        let walked = WalkModel::start(self.errors).walk(
            raw.statements,
            raw.name_span,
            raw.statements.len() as int,
        );
        let section = SectionModel {
            name: raw.name,
            name_span: raw.name_span,
            base,
            size: walked.size,
            statements: raw.statements,
        };
        if base + walked.size > MAX_ADDRESS {
            LayoutModel {
                sections: self.sections.push(section),
                errors: walked.errors.push(
                    AssemblerError::SectionTooLarge { section: raw.name_span },
                ),
                ..self
            }
        } else {
            LayoutModel {
                sections: self.sections.push(section),
                default_base: if raw.base.is_none() {
                    (base + walked.size) as u16
                } else {
                    self.default_base
                },
                errors: walked.errors,
            }
        }
    }

    /// The layout with the first `upto` sections.
    pub open spec fn with_sections(self, raw: Seq<RawSectionModel>, upto: int) -> LayoutModel
        decreases upto,
    {
        if upto <= 0 || upto > raw.len() {
            self
        } else {
            self.with_sections(raw, upto - 1).with_section(raw[upto - 1])
        }
    }
}

/// Whether the two sections have an address in common, where a section
/// takes up the addresses from its base up to its base and size, the ends
/// included.
pub open spec fn spec_overlapping(first: SectionModel, second: SectionModel) -> bool {
    first.base <= second.base + second.size && second.base <= first.base + first.size
}

pub fn overlapping(first: &Section, second: &Section) -> (r: bool)
    ensures
        r == spec_overlapping(first@, second@),
{
    let first_start: u32 = first.base as u32;
    let first_end: u32 = first.base as u32 + first.size as u32;
    let second_start: u32 = second.base as u32;
    let second_end: u32 = second.base as u32 + second.size as u32;
    first_start <= second_end && second_start <= first_end
}

/// Whether `address` is one of the addresses that the section takes up.
pub open spec fn spec_takes_up(section: SectionModel, address: int) -> bool {
    section.base <= address <= section.base + section.size
}

/// Two sections overlap exactly if some address lies in both. It does not
/// matter which of them is named first, and a section that starts in
/// another, ends in another or holds another overlaps it.
pub proof fn lemma_overlapping(first: SectionModel, second: SectionModel)
    ensures
        spec_overlapping(first, second) == spec_overlapping(second, first),
        spec_overlapping(first, second) <==> exists|address: int|
            #[trigger] spec_takes_up(first, address) && spec_takes_up(second, address),
        first.base <= second.base <= first.base + first.size ==> spec_overlapping(first, second),
        first.base <= second.base + second.size <= first.base + first.size ==> spec_overlapping(
            first,
            second,
        ),
        second.base <= first.base && first.base + first.size <= second.base + second.size
            ==> spec_overlapping(first, second),
{
    if spec_overlapping(first, second) {
        let address = if first.base >= second.base {
            first.base as int
        } else {
            second.base as int
        };
        assert(spec_takes_up(first, address) && spec_takes_up(second, address));
    }
}

/// The errors for the pairs of sections from the pair `(i, j)` on that
/// overlap, after `errors`. Each section is held against those that
/// follow it.
pub open spec fn spec_overlaps(
    sections: Seq<SectionModel>,
    i: int,
    j: int,
    errors: Seq<AssemblerError>,
) -> Seq<AssemblerError>
    decreases sections.len() - i, sections.len() - j,
{
    if i < 0 || i >= sections.len() || j <= i {
        errors
    } else if j >= sections.len() {
        spec_overlaps(sections, i + 1, i + 2, errors)
    } else {
        spec_overlaps(
            sections,
            i,
            j + 1,
            if spec_overlapping(sections[i], sections[j]) {
                errors.push(
                    AssemblerError::OverlappingSections {
                        first: sections[i].name_span,
                        second: sections[j].name_span,
                    },
                )
            } else {
                errors
            },
        )
    }
}

/// The sections of `raw` laid out from `default_base` on, with the errors
/// of the layout and then those for the sections that overlap.
pub open spec fn spec_process_sections(
    raw: Seq<RawSectionModel>,
    default_base: u16,
    errors: Seq<AssemblerError>,
) -> (Seq<SectionModel>, Seq<AssemblerError>) {
    let layout = LayoutModel { sections: Seq::empty(), default_base, errors }.with_sections(
        raw,
        raw.len() as int,
    );
    (layout.sections, spec_overlaps(layout.sections, 0, 1, layout.errors))
}

/// The views of the sections.
pub open spec fn spec_views(sections: Seq<Section>) -> Seq<SectionModel> {
    Seq::new(sections.len(), |i: int| sections[i]@)
}

pub open spec fn spec_raw_views(sections: Seq<RawSection>) -> Seq<RawSectionModel> {
    Seq::new(sections.len(), |i: int| sections[i]@)
}

/// Finds the size of each section and where it starts, and reports the
/// sections that are too large or overlap.
pub fn process_sections(raw: Vec<RawSection>, default_base: u16, errors: &mut Vec<AssemblerError>)
    -> (sections: Vec<Section>)
    ensures
        (spec_views(sections@), final(errors)@) == spec_process_sections(
            spec_raw_views(raw@),
            default_base,
            old(errors)@,
        ),
{
    let ghost raws = spec_raw_views(raw@);
    let ghost initial = LayoutModel { sections: Seq::empty(), default_base, errors: errors@ };
    let mut raw = raw;
    let mut default_base = default_base;
    let mut sections: Vec<Section> = Vec::new();
    let total = raw.len();
    let mut i: usize = 0;
    assert(spec_views(sections@) =~= Seq::empty());
    while i < total
        invariant
            i <= total == raw@.len() == raws.len(),
            forall|k: int| i <= k < total ==> (#[trigger] raw@[k])@ == raws[k],
            (LayoutModel { sections: spec_views(sections@), default_base, errors: errors@ })
                == initial.with_sections(raws, i as int),
        decreases total - i,
    {
        let ghost before = LayoutModel {
            sections: spec_views(sections@),
            default_base,
            errors: errors@,
        };
        let ghost current = raws[i as int];
        assert(raw@[i as int]@ == current);
        let mut statements: Vec<Statement> = Vec::new();
        core::mem::swap(&mut statements, &mut raw[i].statements);
        let mut name: Vec<u8> = Vec::new();
        core::mem::swap(&mut name, &mut raw[i].name);
        let name_span = raw[i].name_span;
        let own_base = raw[i].base;
        let base = match own_base {
            Some((base, _)) => base,
            None => default_base,
        };
        let mut walk = Walk::start();
        let ghost walk_start = WalkModel::start(errors@);
        assert(walk.model(errors@) == walk_start);
        let mut k: usize = 0;
        while k < statements.len()
            invariant
                k <= statements@.len(),
                walk.model(errors@) == walk_start.walk(statements@, name_span, k as int),
            decreases statements@.len() - k,
        {
            walk.step(&statements[k], name_span, errors);
            k += 1;
        }
        let size = walk.size;
        if base as u32 + size as u32 > MAX_ADDRESS as u32 {
            errors.push(AssemblerError::SectionTooLarge { section: name_span });
        } else if own_base.is_none() {
            default_base = base + size;
        }
        sections.push(Section { name, name_span, base, size, statements });
        i += 1;
        proof {
            let after = LayoutModel { sections: spec_views(sections@), default_base, errors: errors@ };
            assert(after.sections =~= before.with_section(current).sections);
            assert(after == before.with_section(current));
        }
    }
    let ghost layout = LayoutModel { sections: spec_views(sections@), default_base, errors: errors@ };
    let mut first: usize = 0;
    let mut second: usize = 1;
    while first < sections.len()
        invariant
            first < second || first >= sections@.len(),
            second <= sections@.len() + 1,
            spec_overlaps(layout.sections, 0, 1, layout.errors) == spec_overlaps(
                layout.sections,
                first as int,
                second as int,
                errors@,
            ),
            layout.sections == spec_views(sections@),
        decreases sections@.len() - first, sections@.len() + 1 - second,
    {
        let ghost target = spec_overlaps(layout.sections, first as int, second as int, errors@);
        if second >= sections.len() {
            assert(target == spec_overlaps(layout.sections, first + 1, first + 2, errors@));
            first += 1;
            second = first.saturating_add(1);
            assert(target == spec_overlaps(layout.sections, first as int, second as int, errors@));
        } else {
            assert(layout.sections[first as int] == sections@[first as int]@);
            assert(layout.sections[second as int] == sections@[second as int]@);
            if overlapping(&sections[first], &sections[second]) {
                errors.push(
                    AssemblerError::OverlappingSections {
                        first: sections[first].name_span,
                        second: sections[second].name_span,
                    },
                );
            }
            second += 1;
            assert(target == spec_overlaps(layout.sections, first as int, second as int, errors@));
        }
    }
    sections
}

/// The sizes of the first `upto` statements, added up.
pub open spec fn spec_size_sum(statements: Seq<Statement>, upto: int) -> nat
    decreases upto,
{
    if upto <= 0 || upto > statements.len() {
        0
    } else {
        spec_size_sum(statements, upto - 1) + statements[upto - 1].spec_emit_size() as nat
    }
}

/// Whether the statement moves the address of the layout.
pub open spec fn spec_moves_address(statement: Statement) -> bool {
    statement is OffsetDirective || statement is AlignDirective
}

/// In a section without `.offset` and `.align` that fits the address
/// space, each statement stands behind the one before it: the offset of a
/// statement is the sum of the sizes before it, and the size of the
/// section is the sum of all sizes. The layout reports nothing.
pub proof fn lemma_plain_layout(
    statements: Seq<Statement>,
    section: TextSpan,
    errors: Seq<AssemblerError>,
    upto: int,
)
    requires
        0 <= upto <= statements.len(),
        forall|i: int| 0 <= i < upto ==> !spec_moves_address(#[trigger] statements[i]),
        spec_size_sum(statements, upto) <= MAX_ADDRESS,
    ensures
        WalkModel::start(errors).walk(statements, section, upto) == (WalkModel {
            address: spec_size_sum(statements, upto) as u16,
            size: spec_size_sum(statements, upto) as u16,
            errors,
            stopped: false,
        }),
    decreases upto,
{
    if upto > 0 {
        assert(!spec_moves_address(statements[upto - 1]));
        lemma_plain_layout(statements, section, errors, upto - 1);
    }
}

/// The size of a section is never less than the offset at which the
/// layout stands: no statement reaches past the end of its section.
pub proof fn lemma_walk_within_size(
    start: WalkModel,
    statements: Seq<Statement>,
    section: TextSpan,
    upto: int,
)
    requires
        0 <= upto <= statements.len(),
        start.address <= start.size,
    ensures
        start.walk(statements, section, upto).address <= start.walk(
            statements,
            section,
            upto,
        ).size,
        start.walk(statements, section, upto).size >= start.size,
    decreases upto,
{
    if upto > 0 {
        lemma_walk_within_size(start, statements, section, upto - 1);
    }
}

} // verus!
