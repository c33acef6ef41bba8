//! Labels and the evaluation of expressions over them.

use crate::assembler::ast::{low_byte, spec_low_byte, Expression};
use crate::assembler::span::{bytes_eq, spec_span_bytes, FileServer, SourceFileModel, TextSpan};
use vstd::prelude::*;

verus! {

/// What is known of a label's value.
#[derive(Debug, Clone, Copy, PartialEq, Eq, Structural)]
pub enum LabelState {
    /// Not evaluated yet.
    Pending,
    /// Evaluated.
    Known(i64),
    /// Cannot be evaluated; the reason was reported.
    Failed,
}

/// A label as the table holds it.
pub struct LabelModel {
    pub name: Seq<u8>,
    /// Where the label was declared last.
    pub span: TextSpan,
    pub state: LabelState,
}

/// A declared label.
pub struct LabelEntry {
    name: Vec<u8>,
    span: TextSpan,
    state: LabelState,
}

impl View for LabelEntry {
    type V = LabelModel;

    closed spec fn view(&self) -> LabelModel {
        LabelModel { name: self.name@, span: self.span, state: self.state }
    }
}

/// The index of the first label from `from` on that is called `name`.
pub open spec fn spec_lookup(labels: Seq<LabelModel>, name: Seq<u8>, from: int) -> Option<int>
    decreases labels.len() - from,
{
    if from < 0 || from >= labels.len() {
        None
    } else if labels[from].name == name {
        Some(from)
    } else {
        spec_lookup(labels, name, from + 1)
    }
}

pub proof fn lemma_lookup(labels: Seq<LabelModel>, name: Seq<u8>, from: int)
    requires
        0 <= from,
    ensures
        match spec_lookup(labels, name, from) {
            Some(i) => from <= i < labels.len() && labels[i].name == name && forall|j: int|
                from <= j < i ==> (#[trigger] labels[j]).name != name,
            None => forall|j: int| from <= j < labels.len() ==> (#[trigger] labels[j]).name != name,
        },
    decreases labels.len() - from,
{
    if from < labels.len() && labels[from].name != name {
        lemma_lookup(labels, name, from + 1);
    }
}

/// The labels of a program, in the order in which they were declared.
/// No two entries have the same name.
pub struct LabelTable {
    entries: Vec<LabelEntry>,
}

impl View for LabelTable {
    type V = Seq<LabelModel>;

    closed spec fn view(&self) -> Seq<LabelModel> {
        Seq::new(self.entries@.len(), |i: int| self.entries@[i]@)
    }
}

impl LabelTable {
    /// A table without labels.
    pub fn new() -> (table: Self)
        ensures
            table@.len() == 0,
    {
        LabelTable { entries: Vec::new() }
    }

    pub fn len(&self) -> (n: usize)
        ensures
            n == self@.len(),
    {
        self.entries.len()
    }

    /// The index of the label called `name`.
    pub fn find(&self, name: &[u8]) -> (r: Option<usize>)
        ensures
            match r {
                Some(i) => spec_lookup(self@, name@, 0) == Some(i as int) && i < self@.len(),
                None => spec_lookup(self@, name@, 0).is_none(),
            },
    {
        let mut i: usize = 0;
        while i < self.entries.len()
            invariant
                spec_lookup(self@, name@, 0) == spec_lookup(self@, name@, i as int),
            decreases self.entries@.len() - i,
        {
            if bytes_eq(self.entries[i].name.as_slice(), name) {
                return Some(i);
            }
            i += 1;
        }
        None
    }

    /// What is known of the value of label `index`.
    pub fn state(&self, index: usize) -> (state: LabelState)
        requires
            index < self@.len(),
        ensures
            state == self@[index as int].state,
    {
        self.entries[index].state
    }

    /// Where label `index` was declared.
    pub fn span(&self, index: usize) -> (span: TextSpan)
        requires
            index < self@.len(),
        ensures
            span == self@[index as int].span,
    {
        self.entries[index].span
    }

    /// The table after `name` was declared at `span`: a new name is added
    /// at the end, a known name is declared at `span` from now on.
    pub open spec fn spec_declare(labels: Seq<LabelModel>, name: Seq<u8>, span: TextSpan) -> Seq<
        LabelModel,
    > {
        match spec_lookup(labels, name, 0) {
            Some(i) => labels.update(i, LabelModel { span, ..labels[i] }),
            None => labels.push(LabelModel { name, span, state: LabelState::Pending }),
        }
    }

    /// Declares the label `name` at `span`. If the name is taken, says
    /// where it was declared before.
    pub fn declare(&mut self, name: Vec<u8>, span: TextSpan) -> (previous: Option<TextSpan>)
        ensures
            final(self)@ == Self::spec_declare(old(self)@, name@, span),
            match spec_lookup(old(self)@, name@, 0) {
                Some(i) => previous == Some(old(self)@[i].span),
                None => previous.is_none(),
            },
    {
        proof {
            lemma_lookup(self@, name@, 0);
        }
        match self.find(name.as_slice()) {
            Some(i) => {
                assert(old(self)@[i as int] == old(self).entries@[i as int]@);
                let previous = self.entries[i].span;
                let state = self.entries[i].state;
                self.entries.set(i, LabelEntry { name, span, state });
                assert(self@[i as int] == self.entries@[i as int]@);
                assert(self@[i as int] == (LabelModel { span, ..old(self)@[i as int] }));
                assert(self@ =~= old(self)@.update(
                    i as int,
                    LabelModel { span, ..old(self)@[i as int] },
                ));
                Some(previous)
            },
            None => {
                self.entries.push(LabelEntry { name, span, state: LabelState::Pending });
                assert(self@ =~= Self::spec_declare(old(self)@, name@, span));
                None
            },
        }
    }

    /// Records what is known of the value of label `index`.
    pub fn set_state(&mut self, index: usize, state: LabelState)
        requires
            index < old(self)@.len(),
        ensures
            final(self)@ == old(self)@.update(
                index as int,
                LabelModel { state, ..old(self)@[index as int] },
            ),
    {
        self.entries[index].state = state;
        assert(self@ =~= old(self)@.update(
            index as int,
            LabelModel { state, ..old(self)@[index as int] },
        ));
    }
}

/// Why an expression has no value.
#[derive(Debug, Clone, Copy, PartialEq, Eq, Structural)]
pub enum EvalError {
    /// An integer literal in it has no value; the literal's span.
    InvalidLiteralValue(TextSpan),
    /// A division or remainder by zero; the span of the operation.
    DivideByZero(TextSpan),
    /// A label in it cannot be evaluated.
    ErrorInReferenceEval,
    /// A label in it is not evaluated yet.
    MissingReferenceValue,
    /// A name in it is no label; the name's span.
    UndefinedSymbol(TextSpan),
}

/// The number of bits by which `amount` shifts a 64-bit value: `amount`
/// modulo 64.
pub open spec fn spec_shift_amount(amount: i64) -> u32 {
    (spec_low_byte(amount) % 64) as u32
}

pub fn shift_amount(amount: i64) -> (r: u32)
    ensures
        r == spec_shift_amount(amount),
        r < 64,
{
    (low_byte(amount) % 64) as u32
}

/// `lhs` shifted right by `amount` modulo 64 with zeros moving in: the
/// arithmetic shift with the copies of the sign bit masked off.
pub open spec fn spec_logical_shift_right(lhs: i64, amount: i64) -> i64 {
    let n = spec_shift_amount(amount);
    if n == 0 {
        lhs
    } else {
        lhs.wrapping_shr(n) & i64::MAX.wrapping_shr((n - 1) as u32)
    }
}

pub fn logical_shift_right(lhs: i64, amount: i64) -> (r: i64)
    ensures
        r == spec_logical_shift_right(lhs, amount),
{
    let n = shift_amount(amount);
    if n == 0 {
        lhs
    } else {
        lhs.wrapping_shr(n) & i64::MAX.wrapping_shr(n - 1)
    }
}

/// The quotient that wraps: the least value divided by -1 is the least value.
pub open spec fn spec_wrapping_div(lhs: i64, rhs: i64) -> i64 {
    match lhs.checked_div(rhs) {
        Some(q) => q,
        None => i64::MIN,
    }
}

/// The remainder that wraps: the least value leaves 0 when divided by -1.
pub open spec fn spec_wrapping_rem(lhs: i64, rhs: i64) -> i64 {
    match lhs.checked_rem(rhs) {
        Some(r) => r,
        None => 0,
    }
}

/// The value of a name: the value of the label it names.
pub open spec fn spec_eval_name(name: Seq<u8>, span: TextSpan, labels: Seq<LabelModel>) -> Result<
    i64,
    EvalError,
> {
    match spec_lookup(labels, name, 0) {
        Some(i) => match labels[i].state {
            LabelState::Known(value) => Ok(value),
            LabelState::Failed => Err(EvalError::ErrorInReferenceEval),
            LabelState::Pending => Err(EvalError::MissingReferenceValue),
        },
        None => Err(EvalError::UndefinedSymbol(span)),
    }
}

impl Expression {
    /// The value of the expression over 64-bit integers that wrap. The
    /// left operand is evaluated first and its error wins.
    pub open spec fn spec_try_eval(self, files: Seq<SourceFileModel>, labels: Seq<LabelModel>)
        -> Result<i64, EvalError>
        decreases self,
    {
        match self {
            Expression::Literal(expr) => match expr.value {
                Some(value) => Ok(value),
                None => Err(EvalError::InvalidLiteralValue(expr.span)),
            },
            Expression::Identifier(expr) => spec_eval_name(
                spec_span_bytes(files, expr.span),
                expr.span,
                labels,
            ),
            Expression::Group(expr) => expr.inner.spec_try_eval(files, labels),
            Expression::Identity(expr) => expr.inner.spec_try_eval(files, labels),
            Expression::Negation(expr) => match expr.inner.spec_try_eval(files, labels) {
                Ok(value) => Ok(0i64.wrapping_sub(value)),
                Err(e) => Err(e),
            },
            Expression::BitwiseNot(expr) => match expr.inner.spec_try_eval(files, labels) {
                Ok(value) => Ok(!value),
                Err(e) => Err(e),
            },
            Expression::Addition(expr) => match expr.lhs.spec_try_eval(files, labels) {
                Err(e) => Err(e),
                Ok(lhs) => match expr.rhs.spec_try_eval(files, labels) {
                    Err(e) => Err(e),
                    Ok(rhs) => Ok(lhs.wrapping_add(rhs)),
                },
            },
            Expression::Subtraction(expr) => match expr.lhs.spec_try_eval(files, labels) {
                Err(e) => Err(e),
                Ok(lhs) => match expr.rhs.spec_try_eval(files, labels) {
                    Err(e) => Err(e),
                    Ok(rhs) => Ok(lhs.wrapping_sub(rhs)),
                },
            },
            Expression::Multiplication(expr) => match expr.lhs.spec_try_eval(files, labels) {
                Err(e) => Err(e),
                Ok(lhs) => match expr.rhs.spec_try_eval(files, labels) {
                    Err(e) => Err(e),
                    Ok(rhs) => Ok(lhs.wrapping_mul(rhs)),
                },
            },
            Expression::Division(expr) => match expr.lhs.spec_try_eval(files, labels) {
                Err(e) => Err(e),
                Ok(lhs) => match expr.rhs.spec_try_eval(files, labels) {
                    Err(e) => Err(e),
                    Ok(rhs) => if rhs == 0 {
                        Err(EvalError::DivideByZero(expr.spec_span()))
                    } else {
                        Ok(spec_wrapping_div(lhs, rhs))
                    },
                },
            },
            Expression::Remainder(expr) => match expr.lhs.spec_try_eval(files, labels) {
                Err(e) => Err(e),
                Ok(lhs) => match expr.rhs.spec_try_eval(files, labels) {
                    Err(e) => Err(e),
                    Ok(rhs) => if rhs == 0 {
                        Err(EvalError::DivideByZero(expr.spec_span()))
                    } else {
                        Ok(spec_wrapping_rem(lhs, rhs))
                    },
                },
            },
            Expression::LeftShift(expr) => match expr.lhs.spec_try_eval(files, labels) {
                Err(e) => Err(e),
                Ok(lhs) => match expr.rhs.spec_try_eval(files, labels) {
                    Err(e) => Err(e),
                    Ok(rhs) => Ok(lhs.wrapping_shl(spec_shift_amount(rhs))),
                },
            },
            Expression::ArithmeticRightShift(expr) => match expr.lhs.spec_try_eval(files, labels) {
                Err(e) => Err(e),
                Ok(lhs) => match expr.rhs.spec_try_eval(files, labels) {
                    Err(e) => Err(e),
                    Ok(rhs) => Ok(lhs.wrapping_shr(spec_shift_amount(rhs))),
                },
            },
            Expression::LogicalRightShift(expr) => match expr.lhs.spec_try_eval(files, labels) {
                Err(e) => Err(e),
                Ok(lhs) => match expr.rhs.spec_try_eval(files, labels) {
                    Err(e) => Err(e),
                    Ok(rhs) => Ok(spec_logical_shift_right(lhs, rhs)),
                },
            },
            Expression::BitwiseAnd(expr) => match expr.lhs.spec_try_eval(files, labels) {
                Err(e) => Err(e),
                Ok(lhs) => match expr.rhs.spec_try_eval(files, labels) {
                    Err(e) => Err(e),
                    Ok(rhs) => Ok(lhs & rhs),
                },
            },
            Expression::BitwiseOr(expr) => match expr.lhs.spec_try_eval(files, labels) {
                Err(e) => Err(e),
                Ok(lhs) => match expr.rhs.spec_try_eval(files, labels) {
                    Err(e) => Err(e),
                    Ok(rhs) => Ok(lhs | rhs),
                },
            },
            Expression::BitwiseXor(expr) => match expr.lhs.spec_try_eval(files, labels) {
                Err(e) => Err(e),
                Ok(lhs) => match expr.rhs.spec_try_eval(files, labels) {
                    Err(e) => Err(e),
                    Ok(rhs) => Ok(lhs ^ rhs),
                },
            },
        }
    }

    /// Evaluates the expression with the labels as far as they are known.
    pub fn try_eval(&self, files: &FileServer, labels: &LabelTable) -> (r: Result<i64, EvalError>)
        ensures
            r == self.spec_try_eval(files@, labels@),
        decreases self,
    {
        match self {
            Expression::Literal(expr) => match expr.value {
                Some(value) => Ok(value),
                None => Err(EvalError::InvalidLiteralValue(expr.span)),
            },
            Expression::Identifier(expr) => {
                let name = files.span_bytes(expr.span);
                match labels.find(name.as_slice()) {
                    Some(i) => match labels.state(i) {
                        LabelState::Known(value) => Ok(value),
                        LabelState::Failed => Err(EvalError::ErrorInReferenceEval),
                        LabelState::Pending => Err(EvalError::MissingReferenceValue),
                    },
                    None => Err(EvalError::UndefinedSymbol(expr.span)),
                }
            },
            Expression::Group(expr) => expr.inner.try_eval(files, labels),
            Expression::Identity(expr) => expr.inner.try_eval(files, labels),
            Expression::Negation(expr) => match expr.inner.try_eval(files, labels) {
                Ok(value) => Ok(0i64.wrapping_sub(value)),
                Err(e) => Err(e),
            },
            Expression::BitwiseNot(expr) => match expr.inner.try_eval(files, labels) {
                Ok(value) => Ok(!value),
                Err(e) => Err(e),
            },
            Expression::Addition(expr) => match expr.lhs.try_eval(files, labels) {
                Err(e) => Err(e),
                Ok(lhs) => match expr.rhs.try_eval(files, labels) {
                    Err(e) => Err(e),
                    Ok(rhs) => {
                        Ok(lhs.wrapping_add(rhs))
                    },
                },
            },
            Expression::Subtraction(expr) => match expr.lhs.try_eval(files, labels) {
                Err(e) => Err(e),
                Ok(lhs) => match expr.rhs.try_eval(files, labels) {
                    Err(e) => Err(e),
                    Ok(rhs) => {
                        Ok(lhs.wrapping_sub(rhs))
                    },
                },
            },
            Expression::Multiplication(expr) => match expr.lhs.try_eval(files, labels) {
                Err(e) => Err(e),
                Ok(lhs) => match expr.rhs.try_eval(files, labels) {
                    Err(e) => Err(e),
                    Ok(rhs) => {
                        Ok(lhs.wrapping_mul(rhs))
                    },
                },
            },
            Expression::Division(expr) => match expr.lhs.try_eval(files, labels) {
                Err(e) => Err(e),
                Ok(lhs) => match expr.rhs.try_eval(files, labels) {
                    Err(e) => Err(e),
                    Ok(rhs) => {
                        if rhs == 0 {
                            Err(EvalError::DivideByZero(expr.span()))
                        } else {
                            Ok(
                                match lhs.checked_div(rhs) {
                                    Some(q) => q,
                                    None => i64::MIN,
                                },
                            )
                        }
                    },
                },
            },
            Expression::Remainder(expr) => match expr.lhs.try_eval(files, labels) {
                Err(e) => Err(e),
                Ok(lhs) => match expr.rhs.try_eval(files, labels) {
                    Err(e) => Err(e),
                    Ok(rhs) => {
                        if rhs == 0 {
                            Err(EvalError::DivideByZero(expr.span()))
                        } else {
                            Ok(
                                match lhs.checked_rem(rhs) {
                                    Some(r) => r,
                                    None => 0,
                                },
                            )
                        }
                    },
                },
            },
            Expression::LeftShift(expr) => match expr.lhs.try_eval(files, labels) {
                Err(e) => Err(e),
                Ok(lhs) => match expr.rhs.try_eval(files, labels) {
                    Err(e) => Err(e),
                    Ok(rhs) => {
                        Ok(lhs.wrapping_shl(shift_amount(rhs)))
                    },
                },
            },
            Expression::ArithmeticRightShift(expr) => match expr.lhs.try_eval(files, labels) {
                Err(e) => Err(e),
                Ok(lhs) => match expr.rhs.try_eval(files, labels) {
                    Err(e) => Err(e),
                    Ok(rhs) => {
                        Ok(lhs.wrapping_shr(shift_amount(rhs)))
                    },
                },
            },
            Expression::LogicalRightShift(expr) => match expr.lhs.try_eval(files, labels) {
                Err(e) => Err(e),
                Ok(lhs) => match expr.rhs.try_eval(files, labels) {
                    Err(e) => Err(e),
                    Ok(rhs) => {
                        Ok(logical_shift_right(lhs, rhs))
                    },
                },
            },
            Expression::BitwiseAnd(expr) => match expr.lhs.try_eval(files, labels) {
                Err(e) => Err(e),
                Ok(lhs) => match expr.rhs.try_eval(files, labels) {
                    Err(e) => Err(e),
                    Ok(rhs) => {
                        Ok(lhs & rhs)
                    },
                },
            },
            Expression::BitwiseOr(expr) => match expr.lhs.try_eval(files, labels) {
                Err(e) => Err(e),
                Ok(lhs) => match expr.rhs.try_eval(files, labels) {
                    Err(e) => Err(e),
                    Ok(rhs) => {
                        Ok(lhs | rhs)
                    },
                },
            },
            Expression::BitwiseXor(expr) => match expr.lhs.try_eval(files, labels) {
                Err(e) => Err(e),
                Ok(lhs) => match expr.rhs.try_eval(files, labels) {
                    Err(e) => Err(e),
                    Ok(rhs) => {
                        Ok(lhs ^ rhs)
                    },
                },
            },
        }
    }
}

/// Whether `after` has the labels of `before` under their names and has
/// left alone what was known of the labels that were settled.
pub open spec fn spec_settles(before: Seq<LabelModel>, after: Seq<LabelModel>) -> bool {
    &&& before.len() == after.len()
    &&& forall|j: int| 0 <= j < before.len() ==> (#[trigger] after[j]).name == before[j].name
    &&& forall|j: int|
        0 <= j < before.len() && (#[trigger] before[j]).state != LabelState::Pending ==> after[j]
            == before[j]
}

proof fn lemma_lookup_settled(
    before: Seq<LabelModel>,
    after: Seq<LabelModel>,
    name: Seq<u8>,
    from: int,
)
    requires
        spec_settles(before, after),
        0 <= from,
    ensures
        spec_lookup(after, name, from) == spec_lookup(before, name, from),
    decreases before.len() - from,
{
    if from < before.len() {
        assert(after[from].name == before[from].name);
        if before[from].name != name {
            lemma_lookup_settled(before, after, name, from + 1);
        }
    }
}

/// An expression that has a value keeps it when more labels are settled.
pub proof fn lemma_value_is_stable(
    expr: Expression,
    files: Seq<SourceFileModel>,
    before: Seq<LabelModel>,
    after: Seq<LabelModel>,
)
    requires
        spec_settles(before, after),
        expr.spec_try_eval(files, before).is_ok(),
    ensures
        expr.spec_try_eval(files, after) == expr.spec_try_eval(files, before),
    decreases expr,
{
    match expr {
        Expression::Literal(e) => {},
        Expression::Identifier(e) => {
            let name = spec_span_bytes(files, e.span);
            lemma_lookup_settled(before, after, name, 0);
            lemma_lookup(before, name, 0);
            match spec_lookup(before, name, 0) {
                Some(i) => {
                    assert(before[i].state != LabelState::Pending);
                    assert(after[i] == before[i]);
                },
                None => {},
            }
        },
        Expression::Group(e) => {
            lemma_value_is_stable(e.inner, files, before, after);
        },
        Expression::Identity(e) | Expression::Negation(e) | Expression::BitwiseNot(e) => {
            lemma_value_is_stable(e.inner, files, before, after);
        },
        Expression::Addition(e)
        | Expression::Subtraction(e)
        | Expression::Multiplication(e)
        | Expression::Division(e)
        | Expression::Remainder(e)
        | Expression::LeftShift(e)
        | Expression::ArithmeticRightShift(e)
        | Expression::LogicalRightShift(e)
        | Expression::BitwiseAnd(e)
        | Expression::BitwiseOr(e)
        | Expression::BitwiseXor(e) => {
            lemma_value_is_stable(e.lhs, files, before, after);
            lemma_value_is_stable(e.rhs, files, before, after);
        },
    }
}

/// An expression without names has the same value whatever the labels are.
pub proof fn lemma_literal_value(value: i64, span: TextSpan, files: Seq<SourceFileModel>, labels: Seq<
    LabelModel,
>)
    ensures
        Expression::Literal(
            Box::new(crate::assembler::ast::IntegerLiteral { value: Some(value), span }),
        ).spec_try_eval(files, labels) == Ok::<i64, EvalError>(value),
{
}

} // verus!
