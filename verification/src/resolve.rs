//! Overlays on a tree before it is presented: suggestions become defaults,
//! and assumptions take their questions out of the tree.

use vstd::prelude::*;
use crate::answer::{Answers, AnswerValue, Value};
use crate::interview::{Alternative, AlternativeModel, Interview, Section, SectionModel, Sequence};
use crate::question::{
    kind_with, lemma_suggestion_keeps_bounds, value_model, KindModel, NestedQuestion, Question,
    QuestionKind, QuestionModel,
};
use crate::reconstruct::{
    branch_place, branch_place_of, choice_key, choice_key_of, section_place, section_place_of,
};
use crate::text::{scoped, scoped_key, str_eq};
use crate::validation::answer_key;
use crate::SELECTED_ALTERNATIVE_KEY;

verus! {

/// The value under `key`, if there is one.
pub open spec fn lookup(m: Map<Seq<char>, Value>, key: Seq<char>) -> Option<Value> {
    if m.contains_key(key) {
        Some(m[key])
    } else {
        None
    }
}

/// The position of the first of the first `n` branches that is called `name`.
pub open spec fn branch_named(branches: Seq<AlternativeModel>, name: Seq<char>, n: nat) -> Option<
    usize,
>
    decreases n,
{
    if n == 0 || n > branches.len() {
        None
    } else {
        match branch_named(branches, name, (n - 1) as nat) {
            Some(i) => Some(i),
            None => if branches[n - 1].name == name {
                Some((n - 1) as usize)
            } else {
                None
            },
        }
    }
}

/// The branch that `m` names for the choice that stands at `place`: the
/// text under the key of the choice, where it is the name of a branch.
pub open spec fn named_branch(
    branches: Seq<AlternativeModel>,
    place: Seq<char>,
    m: Map<Seq<char>, Value>,
) -> Option<usize> {
    match lookup(m, choice_key(place)) {
        Some(Value::Text(name)) => branch_named(branches, name, branches.len()),
        _ => None,
    }
}

/// A question after the overlays: the tree of a nested question is resolved
/// in the scope of the question's key; any other question takes the value
/// suggested for its key as its default.
pub open spec fn resolved_question(
    q: QuestionModel,
    scope: Seq<char>,
    suggestions: Map<Seq<char>, Value>,
    assumptions: Map<Seq<char>, Value>,
) -> QuestionModel
    decreases q, 0nat,
{
    match q.kind {
        KindModel::Nested { type_path, sections } => QuestionModel {
            kind: KindModel::Nested {
                type_path,
                sections: resolved_sections(
                    sections,
                    answer_key(scope, q),
                    answer_key(scope, q),
                    suggestions,
                    assumptions,
                    sections.len(),
                ),
            },
            ..q
        },
        kind => QuestionModel {
            kind: kind_with(kind, lookup(suggestions, answer_key(scope, q))),
            ..q
        },
    }
}

/// Whether the question is taken out of the tree: it is not nested, and a
/// value is assumed for its key.
pub open spec fn elided(q: QuestionModel, scope: Seq<char>, assumptions: Map<Seq<char>, Value>) -> bool {
    !(q.kind is Nested) && assumptions.contains_key(answer_key(scope, q))
}

/// The first `n` questions of a sequence after the overlays: those with an
/// assumed answer are gone, the others are resolved, in order.
pub open spec fn resolved_sequence(
    questions: Seq<QuestionModel>,
    scope: Seq<char>,
    suggestions: Map<Seq<char>, Value>,
    assumptions: Map<Seq<char>, Value>,
    n: nat,
) -> Seq<QuestionModel>
    decreases questions, n,
{
    if n == 0 || n > questions.len() {
        Seq::empty()
    } else {
        let before = resolved_sequence(questions, scope, suggestions, assumptions, (n - 1) as nat);
        if elided(questions[n - 1], scope, assumptions) {
            before
        } else {
            before.push(resolved_question(questions[n - 1], scope, suggestions, assumptions))
        }
    }
}

/// The first `n` branches of a choice after the overlays.
pub open spec fn resolved_branches(
    branches: Seq<AlternativeModel>,
    scope: Seq<char>,
    place: Seq<char>,
    suggestions: Map<Seq<char>, Value>,
    assumptions: Map<Seq<char>, Value>,
    n: nat,
) -> Seq<AlternativeModel>
    decreases branches, n,
{
    if n == 0 || n > branches.len() {
        Seq::empty()
    } else {
        resolved_branches(branches, scope, place, suggestions, assumptions, (n - 1) as nat).push(
            AlternativeModel {
                name: branches[n - 1].name,
                section: resolved_section(
                    branches[n - 1].section,
                    scope,
                    branch_place(place, (n - 1) as nat),
                    suggestions,
                    assumptions,
                ),
            },
        )
    }
}

/// A section after the overlays. A choice whose branch is assumed becomes
/// that branch's section; any other choice keeps all its branches, and the
/// suggested branch, where one is named, becomes its default.
pub open spec fn resolved_section(
    section: SectionModel,
    scope: Seq<char>,
    place: Seq<char>,
    suggestions: Map<Seq<char>, Value>,
    assumptions: Map<Seq<char>, Value>,
) -> SectionModel
    decreases section, 0nat,
{
    match section {
        SectionModel::Empty => SectionModel::Empty,
        SectionModel::Sequence(questions) => SectionModel::Sequence(
            resolved_sequence(questions, scope, suggestions, assumptions, questions.len()),
        ),
        SectionModel::Alternatives(default, branches) => match named_branch(branches, place,
            assumptions,
        ) {
            Some(i) => if i < branches.len() {
                resolved_section(branches[i as int].section, scope, branch_place(place, i as nat), suggestions, assumptions)
            } else {
                SectionModel::Empty
            },
            None => SectionModel::Alternatives(
                match named_branch(branches, place, suggestions) {
                    Some(i) => i,
                    None => default,
                },
                resolved_branches(branches, scope, place, suggestions, assumptions, branches.len()),
            ),
        },
    }
}

/// The first `n` sections of a tree after the overlays.
pub open spec fn resolved_sections(
    sections: Seq<SectionModel>,
    scope: Seq<char>,
    place: Seq<char>,
    suggestions: Map<Seq<char>, Value>,
    assumptions: Map<Seq<char>, Value>,
    n: nat,
) -> Seq<SectionModel>
    decreases sections, n,
{
    if n == 0 || n > sections.len() {
        Seq::empty()
    } else {
        resolved_sections(sections, scope, place, suggestions, assumptions, (n - 1) as nat).push(
            resolved_section(sections[n - 1], scope, section_place(place, (n - 1) as nat), suggestions, assumptions),
        )
    }
}

/// A tree after the overlays.
pub open spec fn resolved(
    tree: Seq<SectionModel>,
    suggestions: Map<Seq<char>, Value>,
    assumptions: Map<Seq<char>, Value>,
) -> Seq<SectionModel> {
    resolved_sections(tree, Seq::empty(), Seq::empty(), suggestions, assumptions, tree.len())
}

proof fn lemma_branch_named(branches: Seq<AlternativeModel>, name: Seq<char>, n: nat)
    requires
        n <= branches.len() <= usize::MAX,
    ensures
        match branch_named(branches, name, n) {
            Some(i) => i < n && branches[i as int].name == name,
            None => forall|j: int| 0 <= j < n ==> branches[j].name != name,
        },
    decreases n,
{
    if n > 0 {
        lemma_branch_named(branches, name, (n - 1) as nat);
    }
}

proof fn lemma_first_named(branches: Seq<AlternativeModel>, name: Seq<char>, i: nat, n: nat)
    requires
        i < n <= branches.len() <= usize::MAX,
        branches[i as int].name == name,
        forall|j: int| 0 <= j < i ==> branches[j].name != name,
    ensures
        branch_named(branches, name, n) == Some(i as usize),
    decreases n,
{
    if n == i + 1 {
        lemma_branch_named(branches, name, i);
    } else {
        lemma_first_named(branches, name, i, (n - 1) as nat);
    }
}

fn find_branch(alternatives: &Vec<Alternative>, place: &str, m: &Answers, Ghost(branches): Ghost<
    Seq<AlternativeModel>,
>) -> (r: Option<usize>)
    requires
        branches.len() == alternatives@.len(),
        forall|i: int| 0 <= i < alternatives@.len() ==> branches[i] == (#[trigger] alternatives@[i])@,
    ensures
        r == named_branch(branches, place@, m@),
        r matches Some(i) ==> i < alternatives@.len(),
{
    let key = choice_key_of(place);
    let name = match m.get(key.as_str()) {
        Some(AnswerValue::String(name)) => name,
        _ => {
            return None;
        },
    };
    let n = alternatives.len();
    let mut i: usize = 0;
    while i < n
        invariant
            i <= n,
            n == alternatives@.len(),
            branches.len() == alternatives@.len(),
            forall|j: int|
                0 <= j < alternatives@.len() ==> branches[j] == (#[trigger] alternatives@[j])@,
            forall|j: int| 0 <= j < i ==> branches[j].name != name@,
            named_branch(branches, place@, m@) == branch_named(branches, name@, branches.len()),
        decreases n - i,
    {
        if str_eq(alternatives[i].name.as_str(), name.as_str()) {
            proof {
                assert(branches[i as int] == alternatives@[i as int]@);
                lemma_first_named(branches, name@, i as nat, branches.len());
            }
            return Some(i);
        }
        i += 1;
    }
    proof {
        lemma_branch_named(branches, name@, branches.len());
    }
    None
}

/// Resolves a question: see `resolved_question`.
pub fn resolve_question(
    question: &Question,
    scope: &str,
    suggestions: &Answers,
    assumptions: &Answers,
) -> (r: Question)
    ensures
        r@ == resolved_question(question@, scope@, suggestions@, assumptions@),
    decreases question@, 0nat,
{
    proof {
        question.lemma_kind();
    }
    let key = scoped_key(scope, question.key());
    match question.kind() {
        QuestionKind::Nested(nested) => {
            let sections = resolve_sections(
                &nested.interview.sections,
                key.as_str(),
                key.as_str(),
                suggestions,
                assumptions,
                nested.interview.sections.len(),
                Ghost(nested.interview@),
            );
            let interview = Interview { sections };
            assert(interview@ =~= resolved_sections(
                nested.interview@,
                key@,
                key@,
                suggestions@,
                assumptions@,
                nested.interview@.len(),
            ));
            question.with_kind(
                QuestionKind::Nested(
                    NestedQuestion { type_path: nested.type_path.clone(), interview },
                ),
            )
        },
        kind => {
            let suggestion = suggestions.get(key.as_str());
            proof {
                use_type_invariant(question);
                lemma_suggestion_keeps_bounds(kind@, value_model(suggestion));
            }
            question.with_kind(kind.copy_with(suggestion).unwrap())
        },
    }
}

fn resolve_sequence(
    sequence: &Sequence,
    scope: &str,
    suggestions: &Answers,
    assumptions: &Answers,
    n: usize,
) -> (r: Vec<Question>)
    requires
        n <= sequence.sequence@.len(),
    ensures
        r@.len() == resolved_sequence(sequence@, scope@, suggestions@, assumptions@, n as nat).len(),
        forall|i: int|
            0 <= i < r@.len() ==> (#[trigger] r@[i])@ == resolved_sequence(
                sequence@,
                scope@,
                suggestions@,
                assumptions@,
                n as nat,
            )[i],
    decreases sequence@, n,
{
    if n == 0 {
        Vec::new()
    } else {
        let mut before = resolve_sequence(sequence, scope, suggestions, assumptions, n - 1);
        let question = &sequence.sequence[n - 1];
        assert(sequence@[n - 1] == question@);
        assert(decreases_to!(sequence@ => sequence@[n - 1]));
        proof {
            question.lemma_kind();
        }
        let nested = match question.kind() {
            QuestionKind::Nested(_) => true,
            _ => false,
        };
        let key = scoped_key(scope, question.key());
        if !nested && assumptions.contains_key(key.as_str()) {
            before
        } else {
            before.push(resolve_question(question, scope, suggestions, assumptions));
            before
        }
    }
}

fn resolve_branches(
    alternatives: &Vec<Alternative>,
    scope: &str,
    place: &str,
    suggestions: &Answers,
    assumptions: &Answers,
    n: usize,
    Ghost(branches): Ghost<Seq<AlternativeModel>>,
) -> (r: Vec<Alternative>)
    requires
        n <= alternatives@.len(),
        branches.len() == alternatives@.len(),
        forall|i: int| 0 <= i < alternatives@.len() ==> branches[i] == (#[trigger] alternatives@[i])@,
    ensures
        r@.len() == n,
        forall|i: int|
            0 <= i < n ==> (#[trigger] r@[i])@ == resolved_branches(
                branches,
                scope@,
                place@,
                suggestions@,
                assumptions@,
                n as nat,
            )[i],
        resolved_branches(branches, scope@, place@, suggestions@, assumptions@, n as nat).len() == n,
    decreases branches, n,
{
    if n == 0 {
        Vec::new()
    } else {
        let mut before = resolve_branches(
            alternatives,
            scope,
            place,
            suggestions,
            assumptions,
            n - 1,
            Ghost(branches),
        );
        let alt = &alternatives[n - 1];
        assert(branches[n - 1] == alt@);
        assert(decreases_to!(branches => branches[n - 1]));
        assert(decreases_to!(alt@ => alt@.section));
        let section = resolve_section(&alt.section, scope, branch_place_of(place, n - 1).as_str(), suggestions, assumptions);
        before.push(Alternative { name: alt.name.clone(), section });
        before
    }
}

/// Resolves a section: see `resolved_section`.
pub fn resolve_section(
    section: &Section,
    scope: &str,
    place: &str,
    suggestions: &Answers,
    assumptions: &Answers,
) -> (r: Section)
    ensures
        r@ == resolved_section(section@, scope@, place@, suggestions@, assumptions@),
    decreases section@, 0nat,
{
    match section {
        Section::Empty => Section::Empty,
        Section::Sequence(sequence) => {
            assert(decreases_to!(section@ => section@->Sequence_0));
            let questions = resolve_sequence(
                sequence,
                scope,
                suggestions,
                assumptions,
                sequence.sequence.len(),
            );
            let r = Section::Sequence(Sequence { sequence: questions });
            assert(r@->Sequence_0 =~= resolved_sequence(
                sequence@,
                scope@,
                suggestions@,
                assumptions@,
                sequence@.len(),
            ));
            r
        },
        Section::Alternatives(default, alternatives) => {
            let ghost branches = section@->Alternatives_1;
            match find_branch(alternatives, place, assumptions, Ghost(branches)) {
                Some(i) => {
                    let alt = &alternatives[i];
                    assert(branches[i as int] == alt@);
                    assert(decreases_to!(section@ => branches));
                    assert(decreases_to!(branches => alt@));
                    assert(decreases_to!(alt@ => alt@.section));
                    resolve_section(&alt.section, scope, branch_place_of(place, i).as_str(), suggestions, assumptions)
                },
                None => {
                    let chosen = match find_branch(alternatives, place, suggestions, Ghost(branches)) {
                        Some(i) => i,
                        None => *default,
                    };
                    assert(decreases_to!(section@ => branches));
                    let copies = resolve_branches(
                        alternatives,
                        scope,
                        place,
                        suggestions,
                        assumptions,
                        alternatives.len(),
                        Ghost(branches),
                    );
                    let r = Section::Alternatives(chosen, copies);
                    assert(r@->Alternatives_1 =~= resolved_branches(
                        branches,
                        scope@,
                        place@,
                        suggestions@,
                        assumptions@,
                        branches.len(),
                    ));
                    r
                },
            }
        },
    }
}

fn resolve_sections(
    sections: &Vec<Section>,
    scope: &str,
    place: &str,
    suggestions: &Answers,
    assumptions: &Answers,
    n: usize,
    Ghost(models): Ghost<Seq<SectionModel>>,
) -> (r: Vec<Section>)
    requires
        n <= sections@.len(),
        models.len() == sections@.len(),
        forall|i: int| 0 <= i < sections@.len() ==> models[i] == (#[trigger] sections@[i])@,
    ensures
        r@.len() == n,
        resolved_sections(models, scope@, place@, suggestions@, assumptions@, n as nat).len() == n,
        forall|i: int|
            0 <= i < n ==> (#[trigger] r@[i])@ == resolved_sections(
                models,
                scope@,
                place@,
                suggestions@,
                assumptions@,
                n as nat,
            )[i],
    decreases models, n,
{
    if n == 0 {
        Vec::new()
    } else {
        let mut before = resolve_sections(
            sections,
            scope,
            place,
            suggestions,
            assumptions,
            n - 1,
            Ghost(models),
        );
        assert(models[n - 1] == sections@[n - 1]@);
        assert(decreases_to!(models => models[n - 1]));
        before.push(resolve_section(&sections[n - 1], scope, section_place_of(place, n - 1).as_str(), suggestions, assumptions));
        before
    }
}

/// Resolves a tree before it is presented: the suggested values become the
/// defaults of their questions and the suggested branches the defaults of
/// their choices; the questions with an assumed answer leave the tree, and a
/// choice with an assumed branch gives way to that branch.
pub fn resolve(interview: &Interview, suggestions: &Answers, assumptions: &Answers) -> (r: Interview)
    ensures
        r@ == resolved(interview@, suggestions@, assumptions@),
{
    let root = String::new();
    let sections = resolve_sections(
        &interview.sections,
        root.as_str(),
        root.as_str(),
        suggestions,
        assumptions,
        interview.sections.len(),
        Ghost(interview@),
    );
    let r = Interview { sections };
    assert(r@ =~= resolved(interview@, suggestions@, assumptions@));
    r
}

/// The keys of the answers that a question asks for: its own, or those of
/// its tree where it is nested.
pub open spec fn question_keys(q: QuestionModel, scope: Seq<char>) -> Seq<Seq<char>>
    decreases q, 0nat,
{
    match q.kind {
        KindModel::Nested { sections, .. } => sections_keys(
            sections,
            answer_key(scope, q),
            sections.len(),
        ),
        _ => seq![answer_key(scope, q)],
    }
}

/// The keys that the first `n` questions of a sequence ask for.
pub open spec fn sequence_keys(questions: Seq<QuestionModel>, scope: Seq<char>, n: nat) -> Seq<
    Seq<char>,
>
    decreases questions, n,
{
    if n == 0 || n > questions.len() {
        Seq::empty()
    } else {
        sequence_keys(questions, scope, (n - 1) as nat) + question_keys(questions[n - 1], scope)
    }
}

/// The keys that the first `n` branches of a choice ask for, whichever
/// branch is chosen.
pub open spec fn branches_keys(branches: Seq<AlternativeModel>, scope: Seq<char>, n: nat) -> Seq<
    Seq<char>,
>
    decreases branches, n,
{
    if n == 0 || n > branches.len() {
        Seq::empty()
    } else {
        branches_keys(branches, scope, (n - 1) as nat) + section_keys(
            branches[n - 1].section,
            scope,
        )
    }
}

/// The keys that a section asks for.
pub open spec fn section_keys(section: SectionModel, scope: Seq<char>) -> Seq<Seq<char>>
    decreases section, 0nat,
{
    match section {
        SectionModel::Empty => Seq::empty(),
        SectionModel::Sequence(questions) => sequence_keys(questions, scope, questions.len()),
        SectionModel::Alternatives(_, branches) => branches_keys(branches, scope, branches.len()),
    }
}

/// The keys that the first `n` sections of a tree ask for.
pub open spec fn sections_keys(sections: Seq<SectionModel>, scope: Seq<char>, n: nat) -> Seq<
    Seq<char>,
>
    decreases sections, n,
{
    if n == 0 || n > sections.len() {
        Seq::empty()
    } else {
        sections_keys(sections, scope, (n - 1) as nat) + section_keys(sections[n - 1], scope)
    }
}

/// The keys of all the questions of a tree, in the order in which they are
/// asked.
pub open spec fn tree_keys(tree: Seq<SectionModel>) -> Seq<Seq<char>> {
    sections_keys(tree, Seq::empty(), tree.len())
}

/// The characters of each text of a vector.
pub open spec fn key_texts(keys: Vec<String>) -> Seq<Seq<char>> {
    Seq::new(keys@.len(), |i: int| keys@[i]@)
}

fn push_question_keys(question: &Question, scope: &str, keys: &mut Vec<String>)
    ensures
        key_texts(*final(keys)) == key_texts(*old(keys)) + question_keys(question@, scope@),
    decreases question@, 0nat,
{
    proof {
        question.lemma_kind();
    }
    let key = scoped_key(scope, question.key());
    match question.kind() {
        QuestionKind::Nested(nested) => {
            assert(question@.kind->Nested_sections == nested.interview@);
            assert(decreases_to!(question@ => question@.kind));
            assert(decreases_to!(question@.kind => question@.kind->Nested_sections));
            push_sections_keys(
                &nested.interview.sections,
                key.as_str(),
                nested.interview.sections.len(),
                keys,
                Ghost(nested.interview@),
            );
        },
        _ => {
            keys.push(key);
            assert(key_texts(*keys) =~= key_texts(*old(keys)) + question_keys(
                question@,
                scope@,
            ));
        },
    }
}

fn push_sequence_keys(sequence: &Sequence, scope: &str, n: usize, keys: &mut Vec<String>)
    requires
        n <= sequence.sequence@.len(),
    ensures
        key_texts(*final(keys)) == key_texts(*old(keys)) + sequence_keys(
            sequence@,
            scope@,
            n as nat,
        ),
    decreases sequence@, n,
{
    if n == 0 {
        assert(key_texts(*keys) =~= key_texts(*keys) + Seq::<Seq<char>>::empty());
    } else {
        push_sequence_keys(sequence, scope, n - 1, keys);
        let ghost middle = key_texts(*keys);
        assert(sequence@[n - 1] == sequence.sequence@[n - 1]@);
        assert(decreases_to!(sequence@ => sequence@[n - 1]));
        push_question_keys(&sequence.sequence[n - 1], scope, keys);
        assert(key_texts(*keys) =~= key_texts(*old(keys)) + sequence_keys(
            sequence@,
            scope@,
            n as nat,
        ));
    }
}

fn push_branches_keys(
    alternatives: &Vec<Alternative>,
    scope: &str,
    n: usize,
    keys: &mut Vec<String>,
    Ghost(branches): Ghost<Seq<AlternativeModel>>,
)
    requires
        n <= alternatives@.len(),
        branches.len() == alternatives@.len(),
        forall|i: int| 0 <= i < alternatives@.len() ==> branches[i] == (#[trigger] alternatives@[i])@,
    ensures
        key_texts(*final(keys)) == key_texts(*old(keys)) + branches_keys(
            branches,
            scope@,
            n as nat,
        ),
    decreases branches, n,
{
    if n == 0 {
        assert(key_texts(*keys) =~= key_texts(*keys) + Seq::<Seq<char>>::empty());
    } else {
        push_branches_keys(alternatives, scope, n - 1, keys, Ghost(branches));
        let alt = &alternatives[n - 1];
        assert(branches[n - 1] == alt@);
        assert(decreases_to!(branches => branches[n - 1]));
        assert(decreases_to!(alt@ => alt@.section));
        push_section_keys(&alt.section, scope, keys);
        assert(key_texts(*keys) =~= key_texts(*old(keys)) + branches_keys(
            branches,
            scope@,
            n as nat,
        ));
    }
}

fn push_section_keys(section: &Section, scope: &str, keys: &mut Vec<String>)
    ensures
        key_texts(*final(keys)) == key_texts(*old(keys)) + section_keys(section@, scope@),
    decreases section@, 0nat,
{
    match section {
        Section::Empty => {
            assert(key_texts(*keys) =~= key_texts(*keys) + Seq::<Seq<char>>::empty());
        },
        Section::Sequence(sequence) => {
            assert(decreases_to!(section@ => section@->Sequence_0));
            push_sequence_keys(sequence, scope, sequence.sequence.len(), keys);
        },
        Section::Alternatives(_, alternatives) => {
            assert(decreases_to!(section@ => section@->Alternatives_1));
            push_branches_keys(
                alternatives,
                scope,
                alternatives.len(),
                keys,
                Ghost(section@->Alternatives_1),
            );
        },
    }
}

fn push_sections_keys(
    sections: &Vec<Section>,
    scope: &str,
    n: usize,
    keys: &mut Vec<String>,
    Ghost(models): Ghost<Seq<SectionModel>>,
)
    requires
        n <= sections@.len(),
        models.len() == sections@.len(),
        forall|i: int| 0 <= i < sections@.len() ==> models[i] == (#[trigger] sections@[i])@,
    ensures
        key_texts(*final(keys)) == key_texts(*old(keys)) + sections_keys(
            models,
            scope@,
            n as nat,
        ),
    decreases models, n,
{
    if n == 0 {
        assert(key_texts(*keys) =~= key_texts(*keys) + Seq::<Seq<char>>::empty());
    } else {
        push_sections_keys(sections, scope, n - 1, keys, Ghost(models));
        assert(models[n - 1] == sections@[n - 1]@);
        assert(decreases_to!(models => models[n - 1]));
        push_section_keys(&sections[n - 1], scope, keys);
        assert(key_texts(*keys) =~= key_texts(*old(keys)) + sections_keys(
            models,
            scope@,
            n as nat,
        ));
    }
}

/// The keys of all the questions of a tree, in the order in which they are
/// asked: those of every branch of every choice.
pub fn keys_of(interview: &Interview) -> (r: Vec<String>)
    ensures
        key_texts(r) == tree_keys(interview@),
{
    let root = String::new();
    let mut keys: Vec<String> = Vec::new();
    assert(key_texts(keys) =~= Seq::<Seq<char>>::empty());
    push_sections_keys(
        &interview.sections,
        root.as_str(),
        interview.sections.len(),
        &mut keys,
        Ghost(interview@),
    );
    assert(key_texts(keys) =~= tree_keys(interview@));
    keys
}

proof fn lemma_concat_contains(a: Seq<Seq<char>>, b: Seq<Seq<char>>, x: Seq<char>)
    ensures
        (a + b).contains(x) <==> a.contains(x) || b.contains(x),
{
    if a.contains(x) {
        let i = choose|i: int| 0 <= i < a.len() && a[i] == x;
        assert((a + b)[i] == x);
    }
    if b.contains(x) {
        let i = choose|i: int| 0 <= i < b.len() && b[i] == x;
        assert((a + b)[a.len() + i] == x);
    }
    if (a + b).contains(x) {
        let i = choose|i: int| 0 <= i < (a + b).len() && (a + b)[i] == x;
        if i < a.len() {
            assert(a[i] == x);
        } else {
            assert(b[i - a.len()] == x);
        }
    }
}

proof fn lemma_sequence_keys_prefix(a: Seq<QuestionModel>, b: Seq<QuestionModel>, scope: Seq<char>, n: nat)
    requires
        n <= a.len(),
        n <= b.len(),
        forall|i: int| 0 <= i < n ==> a[i] == b[i],
    ensures
        sequence_keys(a, scope, n) == sequence_keys(b, scope, n),
    decreases n,
{
    if n > 0 {
        lemma_sequence_keys_prefix(a, b, scope, (n - 1) as nat);
    }
}

proof fn lemma_branches_keys_prefix(
    a: Seq<AlternativeModel>,
    b: Seq<AlternativeModel>,
    scope: Seq<char>,
    n: nat,
)
    requires
        n <= a.len(),
        n <= b.len(),
        forall|i: int| 0 <= i < n ==> a[i].section == b[i].section,
    ensures
        branches_keys(a, scope, n) == branches_keys(b, scope, n),
    decreases n,
{
    if n > 0 {
        lemma_branches_keys_prefix(a, b, scope, (n - 1) as nat);
    }
}

proof fn lemma_sections_keys_prefix(a: Seq<SectionModel>, b: Seq<SectionModel>, scope: Seq<char>, n: nat)
    requires
        n <= a.len(),
        n <= b.len(),
        forall|i: int| 0 <= i < n ==> a[i] == b[i],
    ensures
        sections_keys(a, scope, n) == sections_keys(b, scope, n),
    decreases n,
{
    if n > 0 {
        lemma_sections_keys_prefix(a, b, scope, (n - 1) as nat);
    }
}

proof fn lemma_branch_keys_within(branches: Seq<AlternativeModel>, scope: Seq<char>, i: int, n: nat, k: Seq<char>)
    requires
        0 <= i < n <= branches.len(),
        section_keys(branches[i].section, scope).contains(k),
    ensures
        branches_keys(branches, scope, n).contains(k),
    decreases n,
{
    lemma_concat_contains(
        branches_keys(branches, scope, (n - 1) as nat),
        section_keys(branches[n - 1].section, scope),
        k,
    );
    if i < n - 1 {
        lemma_branch_keys_within(branches, scope, i, (n - 1) as nat, k);
    }
}

/// What is left of a question after the overlays asks only for keys that
/// the question asked for, and for none with an assumed answer.
proof fn lemma_left_question(
    q: QuestionModel,
    scope: Seq<char>,
    s: Map<Seq<char>, Value>,
    a: Map<Seq<char>, Value>,
    k: Seq<char>,
)
    requires
        !elided(q, scope, a),
        question_keys(resolved_question(q, scope, s, a), scope).contains(k),
    ensures
        question_keys(q, scope).contains(k),
        !a.contains_key(k),
    decreases q, 0nat,
{
    match q.kind {
        KindModel::Nested { type_path, sections } => {
            lemma_left_sections(sections, answer_key(scope, q), answer_key(scope, q), s, a, sections.len(), k);
        },
        _ => {
            assert(question_keys(resolved_question(q, scope, s, a), scope)[0] == answer_key(scope, q));
            assert(question_keys(q, scope)[0] == answer_key(scope, q));
        },
    }
}

proof fn lemma_left_sequence(
    qs: Seq<QuestionModel>,
    scope: Seq<char>,
    s: Map<Seq<char>, Value>,
    a: Map<Seq<char>, Value>,
    n: nat,
    k: Seq<char>,
)
    requires
        n <= qs.len(),
        sequence_keys(
            resolved_sequence(qs, scope, s, a, n),
            scope,
            resolved_sequence(qs, scope, s, a, n).len(),
        ).contains(k),
    ensures
        sequence_keys(qs, scope, n).contains(k),
        !a.contains_key(k),
    decreases qs, n,
{
    if n > 0 {
        let before = resolved_sequence(qs, scope, s, a, (n - 1) as nat);
        lemma_concat_contains(
            sequence_keys(qs, scope, (n - 1) as nat),
            question_keys(qs[n - 1], scope),
            k,
        );
        if elided(qs[n - 1], scope, a) {
            lemma_left_sequence(qs, scope, s, a, (n - 1) as nat, k);
        } else {
            let now = before.push(resolved_question(qs[n - 1], scope, s, a));
            lemma_sequence_keys_prefix(now, before, scope, before.len());
            lemma_concat_contains(
                sequence_keys(now, scope, before.len()),
                question_keys(now[before.len() as int], scope),
                k,
            );
            if sequence_keys(before, scope, before.len()).contains(k) {
                lemma_left_sequence(qs, scope, s, a, (n - 1) as nat, k);
            } else {
                lemma_left_question(qs[n - 1], scope, s, a, k);
            }
        }
    }
}

proof fn lemma_left_branches(
    branches: Seq<AlternativeModel>,
    scope: Seq<char>,
    place: Seq<char>,
    s: Map<Seq<char>, Value>,
    a: Map<Seq<char>, Value>,
    n: nat,
    k: Seq<char>,
)
    requires
        n <= branches.len(),
        branches_keys(
            resolved_branches(branches, scope, place, s, a, n),
            scope,
            resolved_branches(branches, scope, place, s, a, n).len(),
        ).contains(k),
    ensures
        branches_keys(branches, scope, n).contains(k),
        !a.contains_key(k),
    decreases branches, n,
{
    if n > 0 {
        let before = resolved_branches(branches, scope, place, s, a, (n - 1) as nat);
        let now = resolved_branches(branches, scope, place, s, a, n);
        lemma_concat_contains(
            branches_keys(branches, scope, (n - 1) as nat),
            section_keys(branches[n - 1].section, scope),
            k,
        );
        lemma_branches_keys_prefix(now, before, scope, before.len());
        lemma_concat_contains(
            branches_keys(now, scope, before.len()),
            section_keys(now[before.len() as int].section, scope),
            k,
        );
        if branches_keys(before, scope, before.len()).contains(k) {
            lemma_left_branches(branches, scope, place, s, a, (n - 1) as nat, k);
        } else {
            lemma_left_section(branches[n - 1].section, scope, branch_place(place, (n - 1) as nat), s, a, k);
        }
    }
}

proof fn lemma_left_section(
    section: SectionModel,
    scope: Seq<char>,
    place: Seq<char>,
    s: Map<Seq<char>, Value>,
    a: Map<Seq<char>, Value>,
    k: Seq<char>,
)
    requires
        section_keys(resolved_section(section, scope, place, s, a), scope).contains(k),
    ensures
        section_keys(section, scope).contains(k),
        !a.contains_key(k),
    decreases section, 0nat,
{
    match section {
        SectionModel::Empty => {},
        SectionModel::Sequence(questions) => {
            lemma_left_sequence(questions, scope, s, a, questions.len(), k);
        },
        SectionModel::Alternatives(default, branches) => {
            match named_branch(branches, place, a) {
                Some(i) => {
                    if i < branches.len() {
                        lemma_left_section(branches[i as int].section, scope, branch_place(place, i as nat), s, a, k);
                        lemma_branch_keys_within(branches, scope, i as int, branches.len(), k);
                    }
                },
                None => {
                    lemma_left_branches(branches, scope, place, s, a, branches.len(), k);
                },
            }
        },
    }
}

proof fn lemma_left_sections(
    sections: Seq<SectionModel>,
    scope: Seq<char>,
    place: Seq<char>,
    s: Map<Seq<char>, Value>,
    a: Map<Seq<char>, Value>,
    n: nat,
    k: Seq<char>,
)
    requires
        n <= sections.len(),
        sections_keys(
            resolved_sections(sections, scope, place, s, a, n),
            scope,
            resolved_sections(sections, scope, place, s, a, n).len(),
        ).contains(k),
    ensures
        sections_keys(sections, scope, n).contains(k),
        !a.contains_key(k),
    decreases sections, n,
{
    if n > 0 {
        let before = resolved_sections(sections, scope, place, s, a, (n - 1) as nat);
        let now = resolved_sections(sections, scope, place, s, a, n);
        lemma_concat_contains(
            sections_keys(sections, scope, (n - 1) as nat),
            section_keys(sections[n - 1], scope),
            k,
        );
        lemma_sections_keys_prefix(now, before, scope, before.len());
        lemma_concat_contains(
            sections_keys(now, scope, before.len()),
            section_keys(now[before.len() as int], scope),
            k,
        );
        if sections_keys(before, scope, before.len()).contains(k) {
            lemma_left_sections(sections, scope, place, s, a, (n - 1) as nat, k);
        } else {
            lemma_left_section(sections[n - 1], scope, section_place(place, (n - 1) as nat), s, a, k);
        }
    }
}

/// Every question that is left in a resolved tree is a question of the tree
/// and has no assumed answer.
pub proof fn lemma_assumed_are_not_asked(
    tree: Seq<SectionModel>,
    suggestions: Map<Seq<char>, Value>,
    assumptions: Map<Seq<char>, Value>,
    key: Seq<char>,
)
    requires
        tree_keys(resolved(tree, suggestions, assumptions)).contains(key),
    ensures
        tree_keys(tree).contains(key),
        !assumptions.contains_key(key),
{
    lemma_left_sections(tree, Seq::empty(), Seq::empty(), suggestions, assumptions, tree.len(), key);
}

/// Assumptions elide presentation: where every question of a tree has an
/// assumed answer, the resolved tree asks no question at all.
pub proof fn lemma_all_assumed_asks_nothing(
    tree: Seq<SectionModel>,
    suggestions: Map<Seq<char>, Value>,
    assumptions: Map<Seq<char>, Value>,
)
    requires
        forall|k: Seq<char>| tree_keys(tree).contains(k) ==> assumptions.contains_key(k),
    ensures
        tree_keys(resolved(tree, suggestions, assumptions)).len() == 0,
{
    let left = tree_keys(resolved(tree, suggestions, assumptions));
    if left.len() > 0 {
        assert(left.contains(left[0]));
        lemma_assumed_are_not_asked(tree, suggestions, assumptions, left[0]);
    }
}

proof fn lemma_kept_question(q: QuestionModel, scope: Seq<char>, s: Map<Seq<char>, Value>, a: Map<Seq<char>, Value>)
    requires
        forall|k: Seq<char>| !a.contains_key(k),
    ensures
        question_keys(resolved_question(q, scope, s, a), scope) == question_keys(q, scope),
    decreases q, 0nat,
{
    match q.kind {
        KindModel::Nested { type_path, sections } => {
            lemma_kept_sections(sections, answer_key(scope, q), answer_key(scope, q), s, a, sections.len());
        },
        _ => {},
    }
}

proof fn lemma_kept_sequence(
    qs: Seq<QuestionModel>,
    scope: Seq<char>,
    s: Map<Seq<char>, Value>,
    a: Map<Seq<char>, Value>,
    n: nat,
)
    requires
        n <= qs.len(),
        forall|k: Seq<char>| !a.contains_key(k),
    ensures
        resolved_sequence(qs, scope, s, a, n).len() == n,
        sequence_keys(resolved_sequence(qs, scope, s, a, n), scope, n) == sequence_keys(
            qs,
            scope,
            n,
        ),
    decreases qs, n,
{
    if n > 0 {
        let before = resolved_sequence(qs, scope, s, a, (n - 1) as nat);
        let now = resolved_sequence(qs, scope, s, a, n);
        lemma_kept_sequence(qs, scope, s, a, (n - 1) as nat);
        lemma_kept_question(qs[n - 1], scope, s, a);
        lemma_sequence_keys_prefix(now, before, scope, (n - 1) as nat);
    }
}

proof fn lemma_kept_branches(
    branches: Seq<AlternativeModel>,
    scope: Seq<char>,
    place: Seq<char>,
    s: Map<Seq<char>, Value>,
    a: Map<Seq<char>, Value>,
    n: nat,
)
    requires
        n <= branches.len(),
        forall|k: Seq<char>| !a.contains_key(k),
    ensures
        resolved_branches(branches, scope, place, s, a, n).len() == n,
        branches_keys(resolved_branches(branches, scope, place, s, a, n), scope, n) == branches_keys(
            branches,
            scope,
            n,
        ),
    decreases branches, n,
{
    if n > 0 {
        let before = resolved_branches(branches, scope, place, s, a, (n - 1) as nat);
        let now = resolved_branches(branches, scope, place, s, a, n);
        lemma_kept_branches(branches, scope, place, s, a, (n - 1) as nat);
        lemma_kept_section(branches[n - 1].section, scope, branch_place(place, (n - 1) as nat), s, a);
        lemma_branches_keys_prefix(now, before, scope, (n - 1) as nat);
    }
}

proof fn lemma_kept_section(section: SectionModel, scope: Seq<char>, place: Seq<char>, s: Map<Seq<char>, Value>, a: Map<Seq<char>, Value>)
    requires
        forall|k: Seq<char>| !a.contains_key(k),
    ensures
        section_keys(resolved_section(section, scope, place, s, a), scope) == section_keys(section, scope),
    decreases section, 0nat,
{
    match section {
        SectionModel::Empty => {},
        SectionModel::Sequence(questions) => {
            lemma_kept_sequence(questions, scope, s, a, questions.len());
        },
        SectionModel::Alternatives(default, branches) => {
            lemma_kept_branches(branches, scope, place, s, a, branches.len());
        },
    }
}

proof fn lemma_kept_sections(
    sections: Seq<SectionModel>,
    scope: Seq<char>,
    place: Seq<char>,
    s: Map<Seq<char>, Value>,
    a: Map<Seq<char>, Value>,
    n: nat,
)
    requires
        n <= sections.len(),
        forall|k: Seq<char>| !a.contains_key(k),
    ensures
        resolved_sections(sections, scope, place, s, a, n).len() == n,
        sections_keys(resolved_sections(sections, scope, place, s, a, n), scope, n) == sections_keys(
            sections,
            scope,
            n,
        ),
    decreases sections, n,
{
    if n > 0 {
        let before = resolved_sections(sections, scope, place, s, a, (n - 1) as nat);
        let now = resolved_sections(sections, scope, place, s, a, n);
        lemma_kept_sections(sections, scope, place, s, a, (n - 1) as nat);
        lemma_kept_section(sections[n - 1], scope, section_place(place, (n - 1) as nat), s, a);
        lemma_sections_keys_prefix(now, before, scope, (n - 1) as nat);
    }
}

/// Suggestions edit without skipping: with nothing assumed, the resolved
/// tree asks exactly the questions of the tree, in the same order, whatever
/// is suggested.
pub proof fn lemma_suggested_are_still_asked(
    tree: Seq<SectionModel>,
    suggestions: Map<Seq<char>, Value>,
)
    ensures
        tree_keys(resolved(tree, suggestions, Map::empty())) == tree_keys(tree),
{
    lemma_kept_sections(tree, Seq::empty(), Seq::empty(), suggestions, Map::empty(), tree.len());
}

} // verus!
