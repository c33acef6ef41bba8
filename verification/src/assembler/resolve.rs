//! The values of the labels: addresses first, then expressions until no
//! more of them can be evaluated.

use crate::assembler::ast::{Expression, LabelValue, Statement};
use crate::assembler::error::AssemblerError;
use crate::assembler::eval::{
    lemma_value_is_stable, spec_lookup, spec_settles, EvalError, LabelModel, LabelState, LabelTable,
};
use crate::assembler::layout::{spec_views, Section, SectionModel, Walk, WalkModel};
use crate::assembler::span::{spec_span_bytes, FileServer, SourceFileModel};
use vstd::prelude::*;

verus! {

/// Points at a label that stands for an expression: the label's place in
/// the table and the statement that declares it.
#[derive(Debug, Clone, Copy, PartialEq, Eq, Structural)]
pub struct ExprRef {
    pub label: usize,
    pub section: usize,
    pub statement: usize,
}

/// The expression of the label that `r` points at.
pub open spec fn spec_label_expression(sections: Seq<SectionModel>, r: ExprRef) -> Option<
    Expression,
> {
    if r.section < sections.len() && r.statement < sections[r.section as int].statements.len() {
        match sections[r.section as int].statements[r.statement as int] {
            Statement::Label(label) => match label.value {
                LabelValue::Expression { assign_op, value } => Some(value),
                _ => None,
            },
            _ => None,
        }
    } else {
        None
    }
}

pub fn label_expression<'a>(sections: &'a Vec<Section>, r: ExprRef) -> (e: Option<&'a Expression>)
    ensures
        match spec_label_expression(spec_views(sections@), r) {
            Some(value) => e.is_some() && *e.unwrap() == value,
            None => e.is_none(),
        },
{
    if r.section < sections.len() {
        assert(spec_views(sections@)[r.section as int] == sections@[r.section as int]@);
        if r.statement < sections[r.section].statements.len() {
            match &sections[r.section].statements[r.statement] {
                Statement::Label(label) => match &label.value {
                    LabelValue::Expression { assign_op, value } => Some(value),
                    _ => None,
                },
                _ => None,
            }
        } else {
            None
        }
    } else {
        None
    }
}

/// The address of statement `i` of the section: the base of the section
/// and the offset at which the layout puts the statement.
pub open spec fn spec_statement_address(section: SectionModel, i: int) -> u16 {
    ((section.base + WalkModel::start(Seq::empty()).walk(
        section.statements,
        section.name_span,
        i,
    ).address) % 0x10000) as u16
}

/// The labels as far as their addresses are known, and the labels that
/// stand for expressions.
pub struct Positions {
    pub labels: Seq<LabelModel>,
    pub exprs: Seq<ExprRef>,
}

impl Positions {
    /// After statement `i` of section `s`: a label with a colon stands
    /// for the statement's address, a label with an expression is kept
    /// for later.
    pub open spec fn with_statement(
        self,
        files: Seq<SourceFileModel>,
        sections: Seq<SectionModel>,
        s: int,
        i: int,
    ) -> Positions {
        match sections[s].statements[i] {
            Statement::Label(label) => match spec_lookup(
                self.labels,
                spec_span_bytes(files, label.name.span),
                0,
            ) {
                None => self,
                Some(at) => match label.value {
                    LabelValue::Address { colon } => Positions {
                        labels: self.labels.update(
                            at,
                            LabelModel {
                                state: LabelState::Known(
                                    spec_statement_address(sections[s], i) as i64,
                                ),
                                ..self.labels[at]
                            },
                        ),
                        ..self
                    },
                    LabelValue::Expression { assign_op, value } => Positions {
                        exprs: self.exprs.push(
                            ExprRef { label: at as usize, section: s as usize, statement: i as usize },
                        ),
                        ..self
                    },
                },
            },
            _ => self,
        }
    }

    /// After the first `upto` statements of section `s`.
    pub open spec fn with_statements(
        self,
        files: Seq<SourceFileModel>,
        sections: Seq<SectionModel>,
        s: int,
        upto: int,
    ) -> Positions
        decreases upto,
    {
        if upto <= 0 || s < 0 || s >= sections.len() || upto > sections[s].statements.len() {
            self
        } else {
            self.with_statements(files, sections, s, upto - 1).with_statement(
                files,
                sections,
                s,
                upto - 1,
            )
        }
    }

    /// After the first `upto` sections.
    pub open spec fn with_sections(
        self,
        files: Seq<SourceFileModel>,
        sections: Seq<SectionModel>,
        upto: int,
    ) -> Positions
        decreases upto,
    {
        if upto <= 0 || upto > sections.len() {
            self
        } else {
            self.with_sections(files, sections, upto - 1).with_statements(
                files,
                sections,
                upto - 1,
                sections[upto - 1].statements.len() as int,
            )
        }
    }
}

/// The labels and errors while expressions are evaluated.
pub struct Resolution {
    pub labels: Seq<LabelModel>,
    pub errors: Seq<AssemblerError>,
    /// Whether a label was settled in the current pass.
    pub progressed: bool,
}

impl Resolution {
    pub open spec fn settled(self, label: int, state: LabelState) -> Resolution {
        Resolution {
            labels: self.labels.update(label, LabelModel { state, ..self.labels[label] }),
            progressed: true,
            ..self
        }
    }

    /// After an attempt at the label that `r` points at. A label that is
    /// settled is left alone. A value settles it. An error settles it as
    /// failed, and a division by zero or an unknown name is reported. An
    /// expression that needs a label that is not settled yet has to wait.
    pub open spec fn with_attempt(
        self,
        files: Seq<SourceFileModel>,
        sections: Seq<SectionModel>,
        r: ExprRef,
    ) -> Resolution {
        if r.label >= self.labels.len() || self.labels[r.label as int].state
            != LabelState::Pending {
            self
        } else {
            match spec_label_expression(sections, r) {
                None => self,
                Some(expr) => match expr.spec_try_eval(files, self.labels) {
                    Ok(value) => self.settled(r.label as int, LabelState::Known(value)),
                    Err(EvalError::InvalidLiteralValue(_)) => self.settled(
                        r.label as int,
                        LabelState::Failed,
                    ),
                    Err(EvalError::ErrorInReferenceEval) => self.settled(
                        r.label as int,
                        LabelState::Failed,
                    ),
                    Err(EvalError::DivideByZero(span)) => Resolution {
                        errors: self.errors.push(AssemblerError::DivideByZero { expr: span }),
                        ..self
                    }.settled(r.label as int, LabelState::Failed),
                    Err(EvalError::UndefinedSymbol(span)) => Resolution {
                        errors: self.errors.push(AssemblerError::UndefinedSymbol { ident: span }),
                        ..self
                    }.settled(r.label as int, LabelState::Failed),
                    Err(EvalError::MissingReferenceValue) => self,
                },
            }
        }
    }

    /// After attempts at the first `upto` labels, in their order.
    pub open spec fn with_attempts(
        self,
        files: Seq<SourceFileModel>,
        sections: Seq<SectionModel>,
        exprs: Seq<ExprRef>,
        upto: int,
    ) -> Resolution
        decreases upto,
    {
        if upto <= 0 || upto > exprs.len() {
            self
        } else {
            self.with_attempts(files, sections, exprs, upto - 1).with_attempt(
                files,
                sections,
                exprs[upto - 1],
            )
        }
    }

    /// One pass over all labels.
    pub open spec fn pass(
        self,
        files: Seq<SourceFileModel>,
        sections: Seq<SectionModel>,
        exprs: Seq<ExprRef>,
    ) -> Resolution {
        Resolution { progressed: false, ..self }.with_attempts(
            files,
            sections,
            exprs,
            exprs.len() as int,
        )
    }

    /// Passes until one settles nothing, and at most `fuel` more after
    /// the first.
    pub open spec fn resolve(
        self,
        files: Seq<SourceFileModel>,
        sections: Seq<SectionModel>,
        exprs: Seq<ExprRef>,
        fuel: nat,
    ) -> Resolution
        decreases fuel,
    {
        let next = self.pass(files, sections, exprs);
        if !next.progressed || fuel == 0 {
            next
        } else {
            next.resolve(files, sections, exprs, (fuel - 1) as nat)
        }
    }

    /// The errors with one for each of the first `upto` labels that is
    /// still not settled: its expression depends on itself.
    pub open spec fn with_cycles(self, sections: Seq<SectionModel>, exprs: Seq<ExprRef>, upto: int)
        -> Seq<AssemblerError>
        decreases upto,
    {
        if upto <= 0 || upto > exprs.len() {
            self.errors
        } else {
            let before = self.with_cycles(sections, exprs, upto - 1);
            let r = exprs[upto - 1];
            if r.label < self.labels.len() && self.labels[r.label as int].state
                == LabelState::Pending {
                match spec_label_expression(sections, r) {
                    Some(expr) => before.push(
                        AssemblerError::CyclicExpression { expr: expr.spec_span() },
                    ),
                    None => before,
                }
            } else {
                before
            }
        }
    }
}

/// The values of the labels and the errors met on the way: the labels
/// with a colon stand for their addresses; the labels with an expression
/// are evaluated pass by pass until a pass settles none; those that are
/// left depend on themselves.
pub open spec fn spec_evaluate_labels(
    files: Seq<SourceFileModel>,
    sections: Seq<SectionModel>,
    labels: Seq<LabelModel>,
    errors: Seq<AssemblerError>,
) -> (Seq<LabelModel>, Seq<AssemblerError>) {
    let positions = Positions { labels, exprs: Seq::empty() }.with_sections(
        files,
        sections,
        sections.len() as int,
    );
    let resolved = Resolution { labels: positions.labels, errors, progressed: false }.resolve(
        files,
        sections,
        positions.exprs,
        positions.exprs.len(),
    );
    (
        resolved.labels,
        resolved.with_cycles(sections, positions.exprs, positions.exprs.len() as int),
    )
}

fn attempt(
    files: &FileServer,
    sections: &Vec<Section>,
    r: ExprRef,
    labels: &mut LabelTable,
    errors: &mut Vec<AssemblerError>,
    progressed: &mut bool,
)
    ensures
        (Resolution { labels: final(labels)@, errors: final(errors)@, progressed: *final(progressed) })
            == (Resolution {
            labels: old(labels)@,
            errors: old(errors)@,
            progressed: *old(progressed),
        }).with_attempt(files@, spec_views(sections@), r),
{
    if r.label >= labels.len() {
        return ;
    }
    match labels.state(r.label) {
        LabelState::Pending => {},
        _ => {
            return ;
        },
    }
    let expr = match label_expression(sections, r) {
        Some(expr) => expr,
        None => {
            return ;
        },
    };
    match expr.try_eval(files, labels) {
        Ok(value) => {
            labels.set_state(r.label, LabelState::Known(value));
            *progressed = true;
        },
        Err(EvalError::InvalidLiteralValue(_)) => {
            labels.set_state(r.label, LabelState::Failed);
            *progressed = true;
        },
        Err(EvalError::ErrorInReferenceEval) => {
            labels.set_state(r.label, LabelState::Failed);
            *progressed = true;
        },
        Err(EvalError::DivideByZero(span)) => {
            errors.push(AssemblerError::DivideByZero { expr: span });
            labels.set_state(r.label, LabelState::Failed);
            *progressed = true;
        },
        Err(EvalError::UndefinedSymbol(span)) => {
            errors.push(AssemblerError::UndefinedSymbol { ident: span });
            labels.set_state(r.label, LabelState::Failed);
            *progressed = true;
        },
        Err(EvalError::MissingReferenceValue) => {},
    }
}

/// Gives every label its value, as far as it has one.
pub fn evaluate_labels(
    files: &FileServer,
    sections: &Vec<Section>,
    labels: &mut LabelTable,
    errors: &mut Vec<AssemblerError>,
)
    ensures
        (final(labels)@, final(errors)@) == spec_evaluate_labels(
            files@,
            spec_views(sections@),
            old(labels)@,
            old(errors)@,
        ),
{
    let ghost models = spec_views(sections@);
    let ghost initial = Positions { labels: labels@, exprs: Seq::empty() };
    let mut exprs: Vec<ExprRef> = Vec::new();
    let mut s: usize = 0;
    while s < sections.len()
        invariant
            s <= sections@.len(),
            models == spec_views(sections@),
            errors@ == old(errors)@,
            (Positions { labels: labels@, exprs: exprs@ }) == initial.with_sections(
                files@,
                models,
                s as int,
            ),
        decreases sections@.len() - s,
    {
        let section = &sections[s];
        assert(models[s as int] == section@);
        let ghost section_start = Positions { labels: labels@, exprs: exprs@ };
        let mut walk = Walk::start();
        let mut scratch: Vec<AssemblerError> = Vec::new();
        let ghost walk_start = WalkModel::start(Seq::empty());
        assert(scratch@ =~= Seq::empty());
        assert(walk.model(scratch@) == walk_start);
        let mut i: usize = 0;
        while i < section.statements.len()
            invariant
                i <= section.statements@.len(),
                s < sections@.len(),
                models == spec_views(sections@),
                models[s as int] == section@,
                errors@ == old(errors)@,
                walk_start == WalkModel::start(Seq::empty()),
                walk.model(scratch@) == walk_start.walk(
                    section.statements@,
                    section.name_span,
                    i as int,
                ),
                (Positions { labels: labels@, exprs: exprs@ }) == section_start.with_statements(
                    files@,
                    models,
                    s as int,
                    i as int,
                ),
            decreases section.statements@.len() - i,
        {
            let ghost before = Positions { labels: labels@, exprs: exprs@ };
            match &section.statements[i] {
                Statement::Label(label) => {
                    let name = files.span_bytes(label.name.span);
                    match labels.find(name.as_slice()) {
                        None => {},
                        Some(at) => match &label.value {
                            LabelValue::Address { colon } => {
                                let sum: u32 = section.base as u32 + walk.address as u32;
                                let address: u16 = (sum % 0x10000) as u16;
                                assert(walk.model(scratch@).address == walk.address);
                                assert(models[s as int].statements == section.statements@);
                                assert(address == spec_statement_address(models[s as int], i as int));
                                labels.set_state(at, LabelState::Known(address as i64));
                            },
                            LabelValue::Expression { assign_op, value } => {
                                exprs.push(ExprRef { label: at, section: s, statement: i });
                            },
                        },
                    }
                },
                _ => {},
            }
            assert((Positions { labels: labels@, exprs: exprs@ }) == before.with_statement(
                files@,
                models,
                s as int,
                i as int,
            ));
            walk.step(&section.statements[i], section.name_span, &mut scratch);
            i += 1;
        }
        s += 1;
    }
    let ghost positions = Positions { labels: labels@, exprs: exprs@ };
    let ghost unresolved = Resolution { labels: labels@, errors: errors@, progressed: false };
    let mut fuel: usize = exprs.len();
    let mut progressed = false;
    loop
        invariant_except_break
            unresolved.resolve(files@, models, exprs@, exprs@.len()) == (Resolution {
                labels: labels@,
                errors: errors@,
                progressed: false,
            }).resolve(files@, models, exprs@, fuel as nat),
        invariant
            models == spec_views(sections@),
        ensures
            (Resolution { labels: labels@, errors: errors@, progressed }) == unresolved.resolve(
                files@,
                models,
                exprs@,
                exprs@.len(),
            ),
        decreases fuel,
    {
        let ghost pass_start = Resolution { labels: labels@, errors: errors@, progressed: false };
        progressed = false;
        let mut k: usize = 0;
        while k < exprs.len()
            invariant
                k <= exprs@.len(),
                models == spec_views(sections@),
                (Resolution { labels: labels@, errors: errors@, progressed })
                    == pass_start.with_attempts(files@, models, exprs@, k as int),
            decreases exprs@.len() - k,
        {
            attempt(files, sections, exprs[k], labels, errors, &mut progressed);
            k += 1;
        }
        assert((Resolution { labels: labels@, errors: errors@, progressed }) == pass_start.pass(
            files@,
            models,
            exprs@,
        ));
        if !progressed || fuel == 0 {
            break ;
        }
        proof {
            let next = Resolution { labels: labels@, errors: errors@, progressed };
            assert(pass_start.resolve(files@, models, exprs@, fuel as nat) == next.resolve(
                files@,
                models,
                exprs@,
                (fuel - 1) as nat,
            ));
            lemma_resolve_ignores_flag(next, files@, models, exprs@, (fuel - 1) as nat);
        }
        fuel -= 1;
    }
    let ghost resolved = Resolution { labels: labels@, errors: errors@, progressed };
    let mut c: usize = 0;
    while c < exprs.len()
        invariant
            c <= exprs@.len(),
            models == spec_views(sections@),
            labels@ == resolved.labels,
            errors@ == resolved.with_cycles(models, exprs@, c as int),
        decreases exprs@.len() - c,
    {
        let r = exprs[c];
        if r.label < labels.len() {
            match labels.state(r.label) {
                LabelState::Pending => match label_expression(sections, r) {
                    Some(expr) => {
                        errors.push(AssemblerError::CyclicExpression { expr: expr.span() });
                    },
                    None => {},
                },
                _ => {},
            }
        }
        c += 1;
    }
}

/// A pass starts by forgetting whether the pass before settled anything.
pub proof fn lemma_resolve_ignores_flag(
    state: Resolution,
    files: Seq<SourceFileModel>,
    sections: Seq<SectionModel>,
    exprs: Seq<ExprRef>,
    fuel: nat,
)
    ensures
        state.resolve(files, sections, exprs, fuel) == (Resolution {
            progressed: false,
            ..state
        }).resolve(files, sections, exprs, fuel),
{
    assert(state.pass(files, sections, exprs) == (Resolution { progressed: false, ..state }).pass(
        files,
        sections,
        exprs,
    ));
}

/// Whether the label that `r` points at is not settled.
pub open spec fn spec_is_pending(labels: Seq<LabelModel>, r: ExprRef) -> bool {
    r.label < labels.len() && labels[r.label as int].state == LabelState::Pending
}

/// How many of the first `upto` labels that stand for expressions are
/// not settled.
pub open spec fn spec_pending_count(exprs: Seq<ExprRef>, labels: Seq<LabelModel>, upto: int) -> nat
    decreases upto,
{
    if upto <= 0 || upto > exprs.len() {
        0
    } else {
        spec_pending_count(exprs, labels, upto - 1) + if spec_is_pending(labels, exprs[upto - 1]) {
            1nat
        } else {
            0nat
        }
    }
}

/// How many passes the resolution runs.
pub open spec fn spec_pass_count(
    state: Resolution,
    files: Seq<SourceFileModel>,
    sections: Seq<SectionModel>,
    exprs: Seq<ExprRef>,
    fuel: nat,
) -> nat
    decreases fuel,
{
    let next = state.pass(files, sections, exprs);
    if !next.progressed || fuel == 0 {
        1
    } else {
        1 + spec_pass_count(next, files, sections, exprs, (fuel - 1) as nat)
    }
}

proof fn lemma_count_bound(exprs: Seq<ExprRef>, labels: Seq<LabelModel>, upto: int)
    requires
        0 <= upto <= exprs.len(),
    ensures
        spec_pending_count(exprs, labels, upto) <= upto,
    decreases upto,
{
    if upto > 0 {
        lemma_count_bound(exprs, labels, upto - 1);
    }
}

proof fn lemma_count_falls(
    exprs: Seq<ExprRef>,
    before: Seq<LabelModel>,
    after: Seq<LabelModel>,
    upto: int,
)
    requires
        0 <= upto <= exprs.len(),
        spec_settles(before, after),
    ensures
        spec_pending_count(exprs, after, upto) <= spec_pending_count(exprs, before, upto),
        forall|k: int|
            0 <= k < upto && spec_is_pending(before, #[trigger] exprs[k]) && !spec_is_pending(
                after,
                exprs[k],
            ) ==> spec_pending_count(exprs, after, upto) < spec_pending_count(exprs, before, upto),
    decreases upto,
{
    if upto > 0 {
        lemma_count_falls(exprs, before, after, upto - 1);
        let r = exprs[upto - 1];
        if spec_is_pending(after, r) {
            assert(before[r.label as int].state == LabelState::Pending);
        }
    }
}

proof fn lemma_attempt(
    state: Resolution,
    files: Seq<SourceFileModel>,
    sections: Seq<SectionModel>,
    r: ExprRef,
)
    ensures
        spec_settles(state.labels, state.with_attempt(files, sections, r).labels),
        state.with_attempt(files, sections, r) == state || ({
            let next = state.with_attempt(files, sections, r);
            next.progressed && spec_is_pending(state.labels, r) && !spec_is_pending(next.labels, r)
        }),
{
}

proof fn lemma_attempts(
    state: Resolution,
    files: Seq<SourceFileModel>,
    sections: Seq<SectionModel>,
    exprs: Seq<ExprRef>,
    upto: int,
)
    requires
        0 <= upto <= exprs.len(),
        !state.progressed,
    ensures
        ({
            let next = state.with_attempts(files, sections, exprs, upto);
            &&& spec_settles(state.labels, next.labels)
            &&& !next.progressed ==> next == state
            &&& next.progressed ==> exists|k: int|
                0 <= k < upto && spec_is_pending(state.labels, #[trigger] exprs[k])
                    && !spec_is_pending(next.labels, exprs[k])
        }),
    decreases upto,
{
    if upto > 0 {
        lemma_attempts(state, files, sections, exprs, upto - 1);
        let before = state.with_attempts(files, sections, exprs, upto - 1);
        let r = exprs[upto - 1];
        let next = before.with_attempt(files, sections, r);
        lemma_attempt(before, files, sections, r);
        assert(spec_settles(state.labels, next.labels)) by {
            assert forall|j: int|
                0 <= j < state.labels.len() && (#[trigger] state.labels[j]).state
                    != LabelState::Pending implies next.labels[j] == state.labels[j] by {
                assert(before.labels[j] == state.labels[j]);
            }
        }
        if next.progressed {
            if next == before {
                let k = choose|k: int|
                    0 <= k < upto - 1 && spec_is_pending(state.labels, #[trigger] exprs[k])
                        && !spec_is_pending(before.labels, exprs[k]);
                assert(0 <= k < upto && spec_is_pending(state.labels, exprs[k])
                    && !spec_is_pending(next.labels, exprs[k]));
            } else {
                if !spec_is_pending(state.labels, r) {
                    assert(before.labels[r.label as int] == state.labels[r.label as int]);
                }
                assert(0 <= upto - 1 < upto && spec_is_pending(state.labels, exprs[upto - 1])
                    && !spec_is_pending(next.labels, exprs[upto - 1]));
            }
        }
    }
}

/// A pass that settles nothing changes nothing, and a pass that settles
/// something leaves fewer labels that are not settled.
pub proof fn lemma_pass(
    state: Resolution,
    files: Seq<SourceFileModel>,
    sections: Seq<SectionModel>,
    exprs: Seq<ExprRef>,
)
    ensures
        ({
            let next = state.pass(files, sections, exprs);
            &&& spec_settles(state.labels, next.labels)
            &&& !next.progressed ==> next.labels == state.labels && next.errors == state.errors
            &&& next.progressed ==> spec_pending_count(exprs, next.labels, exprs.len() as int)
                < spec_pending_count(exprs, state.labels, exprs.len() as int)
        }),
{
    let start = Resolution { progressed: false, ..state };
    lemma_attempts(start, files, sections, exprs, exprs.len() as int);
    let next = state.pass(files, sections, exprs);
    lemma_count_falls(exprs, state.labels, next.labels, exprs.len() as int);
}

/// With as much fuel as there are labels that are not settled, the
/// resolution ends with a pass that settles nothing: one more pass would
/// change neither a label nor the errors. It runs at most one pass more
/// than there were such labels.
pub proof fn lemma_resolve_converges(
    state: Resolution,
    files: Seq<SourceFileModel>,
    sections: Seq<SectionModel>,
    exprs: Seq<ExprRef>,
    fuel: nat,
)
    requires
        fuel >= spec_pending_count(exprs, state.labels, exprs.len() as int),
    ensures
        ({
            let end = state.resolve(files, sections, exprs, fuel);
            let again = end.pass(files, sections, exprs);
            &&& !end.progressed
            &&& !again.progressed
            &&& again.labels == end.labels
            &&& again.errors == end.errors
            &&& spec_settles(state.labels, end.labels)
            &&& spec_pass_count(state, files, sections, exprs, fuel) <= spec_pending_count(
                exprs,
                state.labels,
                exprs.len() as int,
            ) + 1
        }),
    decreases fuel,
{
    let next = state.pass(files, sections, exprs);
    lemma_pass(state, files, sections, exprs);
    if !next.progressed {
        assert(next.pass(files, sections, exprs) == state.pass(files, sections, exprs));
    } else {
        lemma_resolve_converges(next, files, sections, exprs, (fuel - 1) as nat);
        let end = next.resolve(files, sections, exprs, (fuel - 1) as nat);
        assert(spec_settles(state.labels, end.labels)) by {
            assert forall|j: int|
                0 <= j < state.labels.len() && (#[trigger] state.labels[j]).state
                    != LabelState::Pending implies end.labels[j] == state.labels[j] by {
                assert(next.labels[j] == state.labels[j]);
            }
        }
    }
}

/// The loop that gives the labels their values comes to rest: it ends
/// after at most one pass more than there are labels that stand for
/// expressions, a further pass would settle nothing, a label that was
/// settled keeps its value, and each label that is left gets its
/// diagnostic.
pub proof fn lemma_labels_converge(
    files: Seq<SourceFileModel>,
    sections: Seq<SectionModel>,
    labels: Seq<LabelModel>,
    errors: Seq<AssemblerError>,
)
    ensures
        ({
            let positions = Positions { labels, exprs: Seq::empty() }.with_sections(
                files,
                sections,
                sections.len() as int,
            );
            let start = Resolution { labels: positions.labels, errors, progressed: false };
            let n = positions.exprs.len();
            let end = start.resolve(files, sections, positions.exprs, n);
            &&& spec_pass_count(start, files, sections, positions.exprs, n) <= n + 1
            &&& end.pass(files, sections, positions.exprs).labels == end.labels
            &&& end.pass(files, sections, positions.exprs).errors == end.errors
            &&& spec_settles(positions.labels, end.labels)
            &&& spec_evaluate_labels(files, sections, labels, errors).0 == end.labels
            &&& spec_evaluate_labels(files, sections, labels, errors).1.len() >= end.errors.len()
        }),
{
    let positions = Positions { labels, exprs: Seq::empty() }.with_sections(
        files,
        sections,
        sections.len() as int,
    );
    let start = Resolution { labels: positions.labels, errors, progressed: false };
    let n = positions.exprs.len();
    lemma_count_bound(positions.exprs, positions.labels, n as int);
    lemma_resolve_converges(start, files, sections, positions.exprs, n);
    let end = start.resolve(files, sections, positions.exprs, n);
    lemma_cycles_grow(end, sections, positions.exprs, n as int);
}

proof fn lemma_cycles_grow(state: Resolution, sections: Seq<SectionModel>, exprs: Seq<ExprRef>, upto: int)
    requires
        0 <= upto <= exprs.len(),
    ensures
        state.with_cycles(sections, exprs, upto).len() >= state.errors.len(),
    decreases upto,
{
    if upto > 0 {
        lemma_cycles_grow(state, sections, exprs, upto - 1);
    }
}

/// Whether each label that was not settled in `start` and has a value in
/// `labels` has it from one of the expressions: the value of a label is
/// the value of an expression that declares it, taken with `labels`.
pub open spec fn spec_explained(
    files: Seq<SourceFileModel>,
    sections: Seq<SectionModel>,
    exprs: Seq<ExprRef>,
    start: Seq<LabelModel>,
    labels: Seq<LabelModel>,
) -> bool {
    forall|j: int|
        0 <= j < labels.len() && j < start.len() && start[j].state == LabelState::Pending
            && (#[trigger] labels[j]).state is Known ==> exists|k: int|
            0 <= k < exprs.len() && (#[trigger] exprs[k]).label == j
                && spec_expression_gives(files, sections, exprs[k], labels, labels[j].state)
}

/// Whether the expression that `r` points at has the value that `state`
/// holds, taken with `labels`.
pub open spec fn spec_expression_gives(
    files: Seq<SourceFileModel>,
    sections: Seq<SectionModel>,
    r: ExprRef,
    labels: Seq<LabelModel>,
    state: LabelState,
) -> bool {
    match (spec_label_expression(sections, r), state) {
        (Some(expr), LabelState::Known(value)) => expr.spec_try_eval(files, labels) == Ok::<
            i64,
            EvalError,
        >(value),
        _ => false,
    }
}

proof fn lemma_settles_chain(a: Seq<LabelModel>, b: Seq<LabelModel>, c: Seq<LabelModel>)
    requires
        spec_settles(a, b),
        spec_settles(b, c),
    ensures
        spec_settles(a, c),
{
    assert forall|j: int| 0 <= j < a.len() implies (#[trigger] c[j]).name == a[j].name by {
        assert(b[j].name == a[j].name);
    }
    assert forall|j: int|
        0 <= j < a.len() && (#[trigger] a[j]).state != LabelState::Pending implies c[j] == a[j] by {
        assert(b[j] == a[j]);
    }
}

proof fn lemma_explained_stays(
    files: Seq<SourceFileModel>,
    sections: Seq<SectionModel>,
    exprs: Seq<ExprRef>,
    start: Seq<LabelModel>,
    before: Seq<LabelModel>,
    after: Seq<LabelModel>,
    settled: int,
)
    requires
        spec_settles(start, before),
        spec_settles(before, after),
        spec_explained(files, sections, exprs, start, before),
        forall|j: int| 0 <= j < before.len() && j != settled ==> after[j] == before[j],
        0 <= settled < before.len() && after[settled].state is Known ==> before[settled].state
            is Known || exists|k: int|
            0 <= k < exprs.len() && (#[trigger] exprs[k]).label == settled
                && spec_expression_gives(files, sections, exprs[k], after, after[settled].state),
    ensures
        spec_explained(files, sections, exprs, start, after),
{
    assert forall|j: int|
        0 <= j < after.len() && j < start.len() && start[j].state == LabelState::Pending
            && (#[trigger] after[j]).state is Known implies exists|k: int|
        0 <= k < exprs.len() && (#[trigger] exprs[k]).label == j && spec_expression_gives(
            files,
            sections,
            exprs[k],
            after,
            after[j].state,
        ) by {
        if before[j].state is Known {
            assert(after[j] == before[j]);
            let k = choose|k: int|
                0 <= k < exprs.len() && (#[trigger] exprs[k]).label == j
                    && spec_expression_gives(files, sections, exprs[k], before, before[j].state);
            let expr = spec_label_expression(sections, exprs[k]).unwrap();
            lemma_value_is_stable(expr, files, before, after);
            assert(spec_expression_gives(files, sections, exprs[k], after, after[j].state));
        } else {
            assert(j == settled);
        }
    }
}

proof fn lemma_attempt_explained(
    state: Resolution,
    files: Seq<SourceFileModel>,
    sections: Seq<SectionModel>,
    exprs: Seq<ExprRef>,
    start: Seq<LabelModel>,
    k: int,
)
    requires
        0 <= k < exprs.len(),
        spec_settles(start, state.labels),
        spec_explained(files, sections, exprs, start, state.labels),
    ensures
        spec_settles(start, state.with_attempt(files, sections, exprs[k]).labels),
        spec_explained(
            files,
            sections,
            exprs,
            start,
            state.with_attempt(files, sections, exprs[k]).labels,
        ),
{
    let r = exprs[k];
    let next = state.with_attempt(files, sections, r);
    lemma_attempt(state, files, sections, r);
    lemma_settles_chain(start, state.labels, next.labels);
    if next != state {
        let j = r.label as int;
        if next.labels[j].state is Known {
            let expr = spec_label_expression(sections, r).unwrap();
            lemma_value_is_stable(expr, files, state.labels, next.labels);
            assert(spec_expression_gives(files, sections, exprs[k], next.labels, next.labels[j].state));
        }
        lemma_explained_stays(files, sections, exprs, start, state.labels, next.labels, j);
    }
}

proof fn lemma_attempts_explained(
    state: Resolution,
    files: Seq<SourceFileModel>,
    sections: Seq<SectionModel>,
    exprs: Seq<ExprRef>,
    start: Seq<LabelModel>,
    upto: int,
)
    requires
        0 <= upto <= exprs.len(),
        spec_settles(start, state.labels),
        spec_explained(files, sections, exprs, start, state.labels),
    ensures
        spec_settles(start, state.with_attempts(files, sections, exprs, upto).labels),
        spec_explained(
            files,
            sections,
            exprs,
            start,
            state.with_attempts(files, sections, exprs, upto).labels,
        ),
    decreases upto,
{
    if upto > 0 {
        lemma_attempts_explained(state, files, sections, exprs, start, upto - 1);
        lemma_attempt_explained(
            state.with_attempts(files, sections, exprs, upto - 1),
            files,
            sections,
            exprs,
            start,
            upto - 1,
        );
    }
}

proof fn lemma_resolve_explained(
    state: Resolution,
    files: Seq<SourceFileModel>,
    sections: Seq<SectionModel>,
    exprs: Seq<ExprRef>,
    start: Seq<LabelModel>,
    fuel: nat,
)
    requires
        spec_settles(start, state.labels),
        spec_explained(files, sections, exprs, start, state.labels),
    ensures
        spec_explained(
            files,
            sections,
            exprs,
            start,
            state.resolve(files, sections, exprs, fuel).labels,
        ),
    decreases fuel,
{
    let begun = Resolution { progressed: false, ..state };
    lemma_attempts_explained(begun, files, sections, exprs, start, exprs.len() as int);
    let next = state.pass(files, sections, exprs);
    if next.progressed && fuel > 0 {
        lemma_resolve_explained(next, files, sections, exprs, start, (fuel - 1) as nat);
    }
}

/// When the labels have their values, each label that stands for an
/// expression and has a value has the value of an expression that declares
/// it, evaluated with the labels as they stand in the end.
pub proof fn lemma_labels_explained(
    files: Seq<SourceFileModel>,
    sections: Seq<SectionModel>,
    labels: Seq<LabelModel>,
    errors: Seq<AssemblerError>,
)
    ensures
        ({
            let positions = Positions { labels, exprs: Seq::empty() }.with_sections(
                files,
                sections,
                sections.len() as int,
            );
            spec_explained(
                files,
                sections,
                positions.exprs,
                positions.labels,
                spec_evaluate_labels(files, sections, labels, errors).0,
            )
        }),
{
    let positions = Positions { labels, exprs: Seq::empty() }.with_sections(
        files,
        sections,
        sections.len() as int,
    );
    let start = Resolution { labels: positions.labels, errors, progressed: false };
    lemma_resolve_explained(
        start,
        files,
        sections,
        positions.exprs,
        positions.labels,
        positions.exprs.len(),
    );
}

} // verus!
