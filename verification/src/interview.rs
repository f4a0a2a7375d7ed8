//! The interview tree: sections, sequences of questions, and alternatives.

use vstd::prelude::*;
use crate::question::{Question, QuestionModel};

verus! {

/// A sequence of sections, which contain questions.
#[derive(Debug)]
pub struct Interview {
    pub sections: Vec<Section>,
}

/// A section may be empty, questions in sequence, or a single choice among
/// named branches.
#[derive(Debug)]
pub enum Section {
    /// Nothing to ask.
    Empty,
    /// A sequence of questions.
    Sequence(Sequence),
    /// A single-choice selection: the index of the default branch, and the
    /// branches in order.
    Alternatives(usize, Vec<Alternative>),
}

/// A sequence of questions.
#[derive(Debug)]
pub struct Sequence {
    /// The list of questions to ask in sequence.
    pub sequence: Vec<Question>,
}

/// One branch of a single choice.
#[derive(Debug)]
pub struct Alternative {
    /// The name of the alternative.
    pub name: String,
    /// What to ask once this branch is chosen.
    pub section: Section,
}

/// What a section is, as mathematics.
pub ghost enum SectionModel {
    Empty,
    Sequence(Seq<QuestionModel>),
    Alternatives(usize, Seq<AlternativeModel>),
}

/// What a branch is, as mathematics.
pub ghost struct AlternativeModel {
    pub name: Seq<char>,
    pub section: SectionModel,
}

impl Section {
    pub open spec fn model(&self) -> SectionModel
        decreases self,
    {
        match self {
            Section::Empty => SectionModel::Empty,
            Section::Sequence(s) => SectionModel::Sequence(s.model()),
            Section::Alternatives(d, alts) => SectionModel::Alternatives(
                *d,
                Seq::new(
                    alts@.len(),
                    |i: int|
                        if 0 <= i < alts@.len() {
                            alts@[i].model()
                        } else {
                            AlternativeModel { name: Seq::empty(), section: SectionModel::Empty }
                        },
                ),
            ),
        }
    }
}

impl Alternative {
    pub open spec fn model(&self) -> AlternativeModel
        decreases self,
    {
        AlternativeModel { name: self.name@, section: self.section.model() }
    }
}

impl Sequence {
    pub open spec fn model(&self) -> Seq<QuestionModel>
        decreases self,
    {
        Seq::new(
            self.sequence@.len(),
            |i: int|
                if 0 <= i < self.sequence@.len() {
                    self.sequence@[i].model()
                } else {
                    arbitrary()
                },
        )
    }
}

impl Interview {
    pub open spec fn model(&self) -> Seq<SectionModel>
        decreases self,
    {
        Seq::new(
            self.sections@.len(),
            |i: int|
                if 0 <= i < self.sections@.len() {
                    self.sections@[i].model()
                } else {
                    SectionModel::Empty
                },
        )
    }
}

impl View for Section {
    type V = SectionModel;

    open spec fn view(&self) -> SectionModel {
        self.model()
    }
}

impl View for Alternative {
    type V = AlternativeModel;

    open spec fn view(&self) -> AlternativeModel {
        self.model()
    }
}

impl View for Sequence {
    type V = Seq<QuestionModel>;

    open spec fn view(&self) -> Seq<QuestionModel> {
        self.model()
    }
}

impl View for Interview {
    type V = Seq<SectionModel>;

    open spec fn view(&self) -> Seq<SectionModel> {
        self.model()
    }
}

impl Interview {
    /// The interview of a struct: one sequence of questions.
    pub fn of_sequence(questions: Vec<Question>) -> (r: Interview)
        ensures
            r@ == seq![SectionModel::Sequence(Sequence { sequence: questions }@)],
    {
        let mut sections: Vec<Section> = Vec::new();
        sections.push(Section::Sequence(Sequence { sequence: questions }));
        let r = Interview { sections };
        assert(r@ =~= seq![SectionModel::Sequence(Sequence { sequence: questions }@)]);
        r
    }

    /// The interview of an enum: one choice among its variants.
    pub fn of_alternatives(default: usize, alternatives: Vec<Alternative>) -> (r: Interview)
        ensures
            r@ == seq![Section::Alternatives(default, alternatives)@],
    {
        let mut sections: Vec<Section> = Vec::new();
        sections.push(Section::Alternatives(default, alternatives));
        let r = Interview { sections };
        assert(r@ =~= seq![Section::Alternatives(default, alternatives)@]);
        r
    }
}

impl Alternative {
    /// A branch without questions, for a variant without fields.
    pub fn unit(name: &str) -> (r: Alternative)
        ensures
            r@ == (AlternativeModel { name: name@, section: SectionModel::Empty }),
    {
        Alternative { name: name.to_owned(), section: Section::Empty }
    }

    /// A branch with the questions of a variant's fields.
    pub fn with_fields(name: &str, questions: Vec<Question>) -> (r: Alternative)
        ensures
            r@ == (AlternativeModel {
                name: name@,
                section: SectionModel::Sequence(Sequence { sequence: questions }@),
            }),
    {
        Alternative {
            name: name.to_owned(),
            section: Section::Sequence(Sequence { sequence: questions }),
        }
    }
}

} // verus!
