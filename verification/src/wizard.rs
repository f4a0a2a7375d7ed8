//! Types that can be asked for: their interview, the answers that spell a
//! value, and the value that answers spell.

use vstd::prelude::*;
use crate::answer::{Answers, Value};
use crate::backend::{BackendError, BackendErrorModel, InterviewBackend, presented, TestBackend};
use crate::default::AssumedAnswer;
use crate::interview::{Interview, Section, SectionModel};
use crate::resolve::{
    lemma_all_assumed_asks_nothing, lemma_suggested_are_still_asked, resolve, resolved, tree_keys,
};

verus! {

/// A type with an interview of its own.
pub trait Wizard: Sized + View {
    /// The interview of this type.
    spec fn tree() -> Seq<SectionModel>;

    /// The answers that spell this value.
    spec fn spelled(&self) -> Map<Seq<char>, Value>;

    /// Whether answers can spell this value. Every value can be spelled,
    /// unless its type says otherwise: a selection of several variants names
    /// no variant twice.
    open spec fn spellable(&self) -> bool {
        true
    }

    /// The value that `answers` spell, or why they spell none.
    spec fn decoded(answers: Map<Seq<char>, Value>) -> Result<Self::V, BackendErrorModel>;

    /// Get the interview structure for this type
    fn interview() -> (r: Interview)
        ensures
            r@ == Self::tree(),
    ;

    /// The answers that spell this value.
    fn to_answers(&self) -> (r: Answers)
        ensures
            r@ == self.spelled(),
    ;

    /// Build this type from collected answers
    fn from_answers(answers: &Answers) -> (r: Result<Self, BackendError>)
        ensures
            match r {
                Ok(v) => Self::decoded(answers@) == Ok::<Self::V, BackendErrorModel>(v@),
                Err(e) => Self::decoded(answers@) == Err::<Self::V, BackendErrorModel>(e@),
            },
    ;

    /// The answers that spell a value spell that value.
    proof fn lemma_round_trip(&self)
        requires
            self.spellable(),
        ensures
            Self::decoded(self.spelled()) == Ok::<Self::V, BackendErrorModel>(self@),
    ;

    /// Get the interview structure with suggested values from this instance
    fn interview_with_suggestions(&self) -> (r: Interview)
        ensures
            r@ == resolved(Self::tree(), self.spelled(), Map::empty()),
    {
        let tree = Self::interview();
        let suggestions = self.to_answers();
        let none = Answers::new();
        resolve(&tree, &suggestions, &none)
    }
}

/// Round trip: presenting a type with exactly the answers that spell a value
/// and reconstructing from them yields that value.
pub proof fn lemma_reconstructs<T: Wizard>(value: T, presented: Map<Seq<char>, Value>)
    requires
        value.spellable(),
        presented == value.spelled(),
    ensures
        T::decoded(presented) == Ok::<T::V, BackendErrorModel>(value@),
{
    value.lemma_round_trip();
}

/// Create a builder for the wizard of `T`
pub fn wizard_builder<T: Wizard>() -> (r: WizardBuilder<T, NoBackend>)
    ensures
        r.suggested() == Map::<Seq<char>, Value>::empty(),
        r.assumed() == Map::<Seq<char>, Value>::empty(),
{
    WizardBuilder::new()
}

/// The backend of a builder that was given none: it presents nothing.
pub struct NoBackend;

/// The failure of a builder that was given no backend.
pub open spec fn no_backend() -> BackendErrorModel {
    BackendErrorModel::ExecutionError("No backend specified"@)
}

impl InterviewBackend for NoBackend {
    open spec fn presents(
        &self,
        interview: Seq<SectionModel>,
        store: Map<Seq<char>, Value>,
        outcome: Result<Map<Seq<char>, Value>, BackendErrorModel>,
    ) -> bool {
        outcome == Err::<Map<Seq<char>, Value>, BackendErrorModel>(no_backend())
    }

    fn execute(&self, interview: &Interview, answers: Answers) -> (r: Result<Answers, BackendError>) {
        Err(BackendError::ExecutionError("No backend specified".to_owned()))
    }

    /// A single section fails as a whole interview does: no backend was given.
    open spec fn executes_sections(&self) -> bool {
        true
    }

    fn execute_section(&self, section: &Section) -> (r: Result<Answers, BackendError>)
        ensures
            presented(r) == Err::<Map<Seq<char>, Value>, BackendErrorModel>(no_backend()),
    {
        Err(BackendError::ExecutionError("No backend specified".to_owned()))
    }
}

/// Builder for configuring and executing a wizard
pub struct WizardBuilder<T: Wizard, B: InterviewBackend> {
    suggestions: Option<T>,
    partial_assumptions: Answers,
    backend: B,
}

/// What a build comes to, as mathematics.
pub open spec fn built<T: Wizard>(r: Result<T, BackendError>) -> Result<T::V, BackendErrorModel> {
    match r {
        Ok(v) => Ok(v@),
        Err(e) => Err(e@),
    }
}

/// What a build comes to once the backend has handed back `outcome`: its
/// failure, or the value that the answers spell together with the assumed
/// ones, which take precedence.
pub open spec fn finished<T: Wizard>(
    outcome: Result<Map<Seq<char>, Value>, BackendErrorModel>,
    assumptions: Map<Seq<char>, Value>,
) -> Result<T::V, BackendErrorModel> {
    match outcome {
        Err(e) => Err(e),
        Ok(answers) => T::decoded(answers.union_prefer_right(assumptions)),
    }
}

impl<T: Wizard> WizardBuilder<T, NoBackend> {
    /// Create a new wizard builder
    pub fn new() -> (r: Self)
        ensures
            r.suggested() == Map::<Seq<char>, Value>::empty(),
            r.assumed() == Map::<Seq<char>, Value>::empty(),
    {
        Self { suggestions: None, partial_assumptions: Answers::new(), backend: NoBackend }
    }
}

impl<T: Wizard, B: InterviewBackend> WizardBuilder<T, B> {
    /// The suggested answers: those that spell the suggested value.
    pub closed spec fn suggested(&self) -> Map<Seq<char>, Value> {
        match self.suggestions {
            Some(v) => v.spelled(),
            None => Map::empty(),
        }
    }

    /// The assumed answers.
    pub closed spec fn assumed(&self) -> Map<Seq<char>, Value> {
        self.partial_assumptions@
    }

    /// The backend that presents the interview.
    pub closed spec fn presenter(&self) -> &B {
        &self.backend
    }

    /// The tree that the backend is handed.
    pub open spec fn presented_tree(&self) -> Seq<SectionModel> {
        resolved(T::tree(), self.suggested(), self.assumed())
    }

    /// Set suggested values for the wizard
    pub fn with_suggestions(self, suggestions: T) -> (r: Self)
        ensures
            r.suggested() == suggestions.spelled(),
            r.assumed() == self.assumed(),
            r.presenter() == self.presenter(),
    {
        Self {
            suggestions: Some(suggestions),
            partial_assumptions: self.partial_assumptions,
            backend: self.backend,
        }
    }

    /// Assume a specific field value. The question for this field will be skipped.
    pub fn assume_field(self, field: &str, value: AssumedAnswer) -> (r: Self)
        ensures
            r.assumed() == self.assumed().insert(field@, value@),
            r.suggested() == self.suggested(),
            r.presenter() == self.presenter(),
    {
        let mut partial_assumptions = self.partial_assumptions;
        partial_assumptions.insert(field.to_owned(), value.into_value());
        Self { suggestions: self.suggestions, partial_assumptions, backend: self.backend }
    }

    /// Set a custom backend
    pub fn with_backend<C: InterviewBackend>(self, backend: C) -> (r: WizardBuilder<T, C>)
        ensures
            r.suggested() == self.suggested(),
            r.assumed() == self.assumed(),
            *r.presenter() == backend,
    {
        WizardBuilder {
            suggestions: self.suggestions,
            partial_assumptions: self.partial_assumptions,
            backend,
        }
    }

    /// Finishes a build with what the backend handed back.
    pub fn finish(outcome: Result<Answers, BackendError>, assumptions: Answers) -> (r: Result<
        T,
        BackendError,
    >)
        ensures
            built(r) == finished::<T>(presented(outcome), assumptions@),
    {
        match outcome {
            Err(e) => Err(e),
            Ok(answers) => {
                let mut answers = answers;
                answers.merge(assumptions);
                T::from_answers(&answers)
            },
        }
    }

    /// Execute the wizard and return the result: the tree is resolved, the
    /// backend presents it, and the value is built from what it hands back
    /// together with the assumed answers.
    pub fn build(self) -> (r: Result<T, BackendError>)
        ensures
            exists|outcome: Result<Map<Seq<char>, Value>, BackendErrorModel>|
                #![trigger self.presenter().presents(self.presented_tree(), self.assumed(), outcome)]
                self.presenter().presents(self.presented_tree(), self.assumed(), outcome)
                    && built(r) == finished::<T>(outcome, self.assumed()),
    {
        let tree = T::interview();
        let suggestions = match &self.suggestions {
            Some(v) => v.to_answers(),
            None => Answers::new(),
        };
        let interview = resolve(&tree, &suggestions, &self.partial_assumptions);
        let outcome = self.backend.execute(&interview, self.partial_assumptions.duplicate());
        proof {
            assert(self.presenter().presents(
                self.presented_tree(),
                self.assumed(),
                presented(outcome),
            ));
        }
        Self::finish(outcome, self.partial_assumptions)
    }
}

/// Assumptions elide presentation: where the assumed answers spell a value,
/// every question of the type is assumed, so the presenter is asked nothing,
/// and once it hands back no answers the build comes to that value.
pub proof fn lemma_all_assumed_builds<T: Wizard>(value: T, suggestions: Map<Seq<char>, Value>)
    requires
        value.spellable(),
        forall|k: Seq<char>| tree_keys(T::tree()).contains(k) ==> value.spelled().contains_key(k),
    ensures
        tree_keys(resolved(T::tree(), suggestions, value.spelled())).len() == 0,
        finished::<T>(Ok(Map::empty()), value.spelled()) == Ok::<T::V, BackendErrorModel>(value@),
        finished::<T>(Ok(value.spelled()), value.spelled()) == Ok::<T::V, BackendErrorModel>(
            value@,
        ),
{
    lemma_all_assumed_asks_nothing(T::tree(), suggestions, value.spelled());
    value.lemma_round_trip();
    assert(Map::<Seq<char>, Value>::empty().union_prefer_right(value.spelled())
        =~= value.spelled());
    assert(value.spelled().union_prefer_right(value.spelled()) =~= value.spelled());
}

/// With the test backend, a build comes to the value that the predefined
/// answers spell together with the assumed ones: what is suggested changes
/// the tree and nothing else, so an answer that differs from the suggestion
/// is the one that is built.
pub proof fn lemma_supplied_answer_wins<T: Wizard>(
    builder: WizardBuilder<T, TestBackend>,
    outcome: Result<Map<Seq<char>, Value>, BackendErrorModel>,
)
    requires
        builder.presenter().presents(builder.presented_tree(), builder.assumed(), outcome),
    ensures
        finished::<T>(outcome, builder.assumed()) == T::decoded(
            builder.presenter()@.union_prefer_right(builder.assumed()),
        ),
        builder.assumed() == Map::<Seq<char>, Value>::empty() ==> tree_keys(
            builder.presented_tree(),
        ) == tree_keys(T::tree()),
{
    assert(builder.assumed().union_prefer_right(builder.presenter()@).union_prefer_right(
        builder.assumed(),
    ) =~= builder.presenter()@.union_prefer_right(builder.assumed()));
    if builder.assumed() == Map::<Seq<char>, Value>::empty() {
        lemma_suggested_are_still_asked(T::tree(), builder.suggested());
    }
}

} // verus!
