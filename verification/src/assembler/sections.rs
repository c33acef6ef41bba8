//! The sections of a program, found by name and kept in the order in
//! which the source names them.

use crate::assembler::ast::Statement;
use crate::assembler::span::TextSpan;
use indexmap::IndexMap;
use std::collections::hash_map::RandomState;
use vstd::prelude::*;

verus! {

/// `indexmap::IndexMap`: a hash map that keeps its pairs in the order of
/// insertion. Nothing is known of what is inside a value.
#[verifier::external_type_specification]
#[verifier::external_body]
#[verifier::reject_recursive_types(K)]
#[verifier::reject_recursive_types(V)]
#[verifier::reject_recursive_types(S)]
pub struct ExIndexMap<K, V, S>(IndexMap<K, V, S>);

/// The key-value pairs of an index of names, in the order of insertion.
pub uninterp spec fn index_entries(index: IndexMap<Vec<u8>, usize, RandomState>) -> Seq<
    (Seq<u8>, usize),
>;

/// The value of the first pair from `from` on whose key is `name`.
pub open spec fn spec_index_get(entries: Seq<(Seq<u8>, usize)>, name: Seq<u8>, from: int) -> Option<
    usize,
>
    decreases entries.len() - from,
{
    if from < 0 || from >= entries.len() {
        None
    } else if entries[from].0 == name {
        Some(entries[from].1)
    } else {
        spec_index_get(entries, name, from + 1)
    }
}

/// `IndexMap::new`: the map it returns holds no pair.
#[verifier::external_body]
fn index_new() -> (index: IndexMap<Vec<u8>, usize, RandomState>)
    ensures
        index_entries(index) == Seq::<(Seq<u8>, usize)>::empty(),
{
    IndexMap::new()
}

/// `IndexMap::get`: the value stored under the key `name`, if the map
/// holds the key. A map holds a key once, so this is the value of the
/// first pair with that key.
#[verifier::external_body]
fn index_get(index: &IndexMap<Vec<u8>, usize, RandomState>, name: &[u8]) -> (value: Option<usize>)
    ensures
        value == spec_index_get(index_entries(*index), name@, 0),
{
    index.get(name).copied()
}

/// `IndexMap::insert` of a key that the map does not hold: the pair
/// becomes the last in order and the others stay as they are.
#[verifier::external_body]
fn index_insert(index: &mut IndexMap<Vec<u8>, usize, RandomState>, name: Vec<u8>, value: usize)
    requires
        spec_index_get(index_entries(*old(index)), name@, 0).is_none(),
    ensures
        index_entries(*final(index)) == index_entries(*old(index)).push((name@, value)),
{
    index.insert(name, value);
}

/// A section as the source gives it.
pub struct RawSectionModel {
    pub name: Seq<u8>,
    /// Where the source names the section first.
    pub name_span: TextSpan,
    /// The base address that the source gives, and where.
    pub base: Option<(u16, TextSpan)>,
    pub statements: Seq<Statement>,
}

/// A section as the source gives it: its name, its base if it has one of
/// its own, and its statements.
pub struct RawSection {
    pub name: Vec<u8>,
    pub name_span: TextSpan,
    pub base: Option<(u16, TextSpan)>,
    pub statements: Vec<Statement>,
}

impl View for RawSection {
    type V = RawSectionModel;

    open spec fn view(&self) -> RawSectionModel {
        RawSectionModel {
            name: self.name@,
            name_span: self.name_span,
            base: self.base,
            statements: self.statements@,
        }
    }
}

/// The index of the first section from `from` on that is called `name`.
pub open spec fn spec_find_section(sections: Seq<RawSectionModel>, name: Seq<u8>, from: int)
    -> Option<int>
    decreases sections.len() - from,
{
    if from < 0 || from >= sections.len() {
        None
    } else if sections[from].name == name {
        Some(from)
    } else {
        spec_find_section(sections, name, from + 1)
    }
}

/// The sections of a program in the order in which the source names them
/// first, with an index that finds a section by its name.
pub struct SectionTable {
    index: IndexMap<Vec<u8>, usize, RandomState>,
    sections: Vec<RawSection>,
}

impl View for SectionTable {
    type V = Seq<RawSectionModel>;

    closed spec fn view(&self) -> Seq<RawSectionModel> {
        Seq::new(self.sections@.len(), |i: int| self.sections@[i]@)
    }
}

/// The pairs of an index that maps each section's name to its position.
pub open spec fn spec_index_of(sections: Seq<RawSectionModel>) -> Seq<(Seq<u8>, usize)> {
    Seq::new(sections.len(), |i: int| (sections[i].name, i as usize))
}

proof fn lemma_index_get(sections: Seq<RawSectionModel>, name: Seq<u8>, from: int)
    requires
        0 <= from,
        sections.len() <= usize::MAX,
    ensures
        match spec_find_section(sections, name, from) {
            Some(i) => spec_index_get(spec_index_of(sections), name, from) == Some(i as usize)
                && from <= i < sections.len() && sections[i].name == name,
            None => spec_index_get(spec_index_of(sections), name, from).is_none(),
        },
    decreases sections.len() - from,
{
    if from < sections.len() && sections[from].name != name {
        lemma_index_get(sections, name, from + 1);
    }
}

impl SectionTable {
    /// The index knows every section by its name and position.
    pub closed spec fn wf(&self) -> bool {
        index_entries(self.index) == spec_index_of(self@)
    }

    /// A table without sections.
    pub fn new() -> (table: Self)
        ensures
            table.wf(),
            table@.len() == 0,
    {
        let table = SectionTable { index: index_new(), sections: Vec::new() };
        assert(index_entries(table.index) =~= spec_index_of(table@));
        table
    }

    pub fn len(&self) -> (n: usize)
        ensures
            n == self@.len(),
    {
        self.sections.len()
    }

    /// The position of the section called `name`.
    pub fn find(&self, name: &[u8]) -> (r: Option<usize>)
        requires
            self.wf(),
        ensures
            match r {
                Some(i) => spec_find_section(self@, name@, 0) == Some(i as int) && i < self@.len(),
                None => spec_find_section(self@, name@, 0).is_none(),
            },
    {
        let n = self.sections.len();
        proof {
            lemma_index_get(self@, name@, 0);
        }
        index_get(&self.index, name)
    }

    /// The sections with a new, empty one called `name` at the end.
    pub open spec fn spec_created(sections: Seq<RawSectionModel>, name: Seq<u8>, name_span: TextSpan)
        -> Seq<RawSectionModel> {
        sections.push(
            RawSectionModel { name, name_span, base: None, statements: Seq::empty() },
        )
    }

    /// The position of the section called `name`; if there is none yet,
    /// an empty one is added at the end.
    pub fn find_or_create(&mut self, name: &Vec<u8>, name_span: TextSpan) -> (at: usize)
        requires
            old(self).wf(),
        ensures
            final(self).wf(),
            at < final(self)@.len(),
            match spec_find_section(old(self)@, name@, 0) {
                Some(i) => at == i && final(self)@ == old(self)@,
                None => at == old(self)@.len() && final(self)@ == Self::spec_created(
                    old(self)@,
                    name@,
                    name_span,
                ),
            },
    {
        match self.find(name.as_slice()) {
            Some(at) => at,
            None => {
                let at = self.sections.len();
                proof {
                    lemma_index_get(self@, name@, 0);
                }
                index_insert(&mut self.index, name.clone(), at);
                self.sections.push(
                    RawSection { name: name.clone(), name_span, base: None, statements: Vec::new() },
                );
                assert(self@ =~= Self::spec_created(old(self)@, name@, name_span));
                assert(index_entries(self.index) =~= spec_index_of(self@));
                at
            },
        }
    }

    /// The base that the source gives section `at`.
    pub fn base(&self, at: usize) -> (base: Option<(u16, TextSpan)>)
        requires
            at < self@.len(),
        ensures
            base == self@[at as int].base,
    {
        self.sections[at].base
    }

    /// Gives section `at` the base `base`.
    pub fn set_base(&mut self, at: usize, base: (u16, TextSpan))
        requires
            old(self).wf(),
            at < old(self)@.len(),
        ensures
            final(self).wf(),
            final(self)@ == old(self)@.update(
                at as int,
                RawSectionModel { base: Some(base), ..old(self)@[at as int] },
            ),
    {
        self.sections[at].base = Some(base);
        assert(self@ =~= old(self)@.update(
            at as int,
            RawSectionModel { base: Some(base), ..old(self)@[at as int] },
        ));
        assert(spec_index_of(self@) =~= spec_index_of(old(self)@));
    }

    /// Appends `statement` to section `at`.
    pub fn push_statement(&mut self, at: usize, statement: Statement)
        requires
            old(self).wf(),
            at < old(self)@.len(),
        ensures
            final(self).wf(),
            final(self)@ == old(self)@.update(
                at as int,
                RawSectionModel {
                    statements: old(self)@[at as int].statements.push(statement),
                    ..old(self)@[at as int]
                },
            ),
    {
        self.sections[at].statements.push(statement);
        assert(self@ =~= old(self)@.update(
            at as int,
            RawSectionModel {
                statements: old(self)@[at as int].statements.push(statement),
                ..old(self)@[at as int]
            },
        ));
        assert(spec_index_of(self@) =~= spec_index_of(old(self)@));
    }

    /// Hands the sections over, in their order.
    pub fn into_sections(self) -> (sections: Vec<RawSection>)
        ensures
            sections@.len() == self@.len(),
            forall|i: int| 0 <= i < sections@.len() ==> (#[trigger] sections@[i])@ == self@[i],
    {
        self.sections
    }
}

} // verus!
