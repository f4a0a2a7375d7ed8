//! The state of a form that shows a whole interview at once: text buffers,
//! chosen branches and validation errors, by key, and what they come to when
//! the form is submitted. Drawing the form is left to the caller.

use vstd::prelude::*;
use vstd::hash_map::StringHashMap;
use crate::answer::{Answers, AnswerValue, Value};
use crate::backend::{BackendError, BackendErrorModel, InterviewBackend, presented};
use crate::interview::{AlternativeModel, Interview, Section, SectionModel, Sequence};
use crate::question::{IntQuestion, KindModel, Question, QuestionKind, QuestionModel};
use crate::text::{int_of_text, parse_int, scoped, scoped_key, str_eq, text_of_nat, usize_to_text};
use crate::validation::{answer_key, NoValidators, validate_answer, Validators, Verdict, verdict_of};
use crate::reconstruct::{
    branch_place, branch_place_of, choice_key, choice_key_of, lemma_choices_apart, section_place,
    section_place_of,
};

verus! {

/// State for the interview
pub struct InterviewState {
    input_buffers: StringHashMap<String>,
    /// The floats that the buffers of float questions spell, as their bits;
    /// a buffer that spells no float has no entry.
    float_values: StringHashMap<u64>,
    selected_alternatives: StringHashMap<usize>,
    validation_errors: StringHashMap<String>,
}

/// What the state of a form is, as mathematics.
pub ghost struct StateModel {
    pub buffers: Map<Seq<char>, Seq<char>>,
    pub floats: Map<Seq<char>, u64>,
    pub selected: Map<Seq<char>, usize>,
    pub errors: Map<Seq<char>, Seq<char>>,
}

/// The characters of each text of a map.
pub open spec fn texts(m: Map<Seq<char>, String>) -> Map<Seq<char>, Seq<char>> {
    m.map_values(|s: String| s@)
}

impl View for InterviewState {
    type V = StateModel;

    closed spec fn view(&self) -> StateModel {
        StateModel {
            buffers: texts(self.input_buffers@),
            floats: self.float_values@,
            selected: self.selected_alternatives@,
            errors: texts(self.validation_errors@),
        }
    }
}

impl StateModel {
    /// The state of a form that nobody has touched.
    pub open spec fn empty() -> StateModel {
        StateModel {
            buffers: Map::empty(),
            floats: Map::empty(),
            selected: Map::empty(),
            errors: Map::empty(),
        }
    }

    /// The text in the buffer `key`: empty where there is no such buffer.
    pub open spec fn buffer(self, key: Seq<char>) -> Seq<char> {
        if self.buffers.contains_key(key) {
            self.buffers[key]
        } else {
            Seq::empty()
        }
    }

    /// The state once the buffer `key` exists.
    pub open spec fn with_buffer(self, key: Seq<char>) -> StateModel {
        StateModel { buffers: self.buffers.insert(key, self.buffer(key)), ..self }
    }

    /// The float that the buffer `key` spells, if it spells one.
    pub open spec fn float(self, key: Seq<char>) -> Option<u64> {
        if self.floats.contains_key(key) {
            Some(self.floats[key])
        } else {
            None
        }
    }

    /// The branch chosen at the node `key`, or `default` where none was.
    pub open spec fn choice(self, key: Seq<char>, default: usize) -> usize {
        if self.selected.contains_key(key) {
            self.selected[key]
        } else {
            default
        }
    }
}

proof fn lemma_texts_insert(m: Map<Seq<char>, String>, k: Seq<char>, v: String)
    ensures
        texts(m.insert(k, v)) == texts(m).insert(k, v@),
{
    assert(texts(m.insert(k, v)) =~= texts(m).insert(k, v@));
}

proof fn lemma_texts_remove(m: Map<Seq<char>, String>, k: Seq<char>)
    ensures
        texts(m.remove(k)) == texts(m).remove(k),
{
    assert(texts(m.remove(k)) =~= texts(m).remove(k));
}

impl InterviewState {
    pub fn new() -> (r: Self)
        ensures
            r@ == StateModel::empty(),
    {
        let r = Self {
            input_buffers: StringHashMap::new(),
            float_values: StringHashMap::new(),
            selected_alternatives: StringHashMap::new(),
            validation_errors: StringHashMap::new(),
        };
        assert(r@.buffers =~= Map::<Seq<char>, Seq<char>>::empty());
        assert(r@.errors =~= Map::<Seq<char>, Seq<char>>::empty());
        r
    }

    /// The buffer `key`, made empty first where there was none. The text is
    /// handed out for reading: the map behind the buffers gives no entry out
    /// for writing, and `set_buffer` replaces the text.
    pub fn get_or_init_buffer(&mut self, key: &str) -> (r: &String)
        ensures
            final(self)@ == old(self)@.with_buffer(key@),
            r@ == old(self)@.buffer(key@),
    {
        if !self.input_buffers.contains_key(key) {
            let fresh = String::new();
            proof {
                lemma_texts_insert(self.input_buffers@, key@, fresh);
            }
            self.input_buffers.insert(key.to_owned(), fresh);
        } else {
            assert(texts(self.input_buffers@).insert(key@, self@.buffer(key@)) =~= texts(
                self.input_buffers@,
            ));
        }
        self.input_buffers.get(key).unwrap()
    }

    /// Replaces the text of the buffer `key`.
    pub fn set_buffer(&mut self, key: &str, text: String)
        ensures
            final(self)@ == (StateModel {
                buffers: old(self)@.buffers.insert(key@, text@),
                ..old(self)@
            }),
    {
        proof {
            lemma_texts_insert(self.input_buffers@, key@, text);
        }
        self.input_buffers.insert(key.to_owned(), text);
    }

    /// Replaces the text of the buffer `key` of a float question, with the
    /// float that the text spells, as its bits, or `None` where it spells none.
    pub fn set_float_buffer(&mut self, key: &str, text: String, value: Option<u64>)
        ensures
            final(self)@ == (StateModel {
                buffers: old(self)@.buffers.insert(key@, text@),
                floats: match value {
                    Some(bits) => old(self)@.floats.insert(key@, bits),
                    None => old(self)@.floats.remove(key@),
                },
                ..old(self)@
            }),
    {
        proof {
            lemma_texts_insert(self.input_buffers@, key@, text);
        }
        self.input_buffers.insert(key.to_owned(), text);
        match value {
            Some(bits) => {
                self.float_values.insert(key.to_owned(), bits);
            },
            None => {
                self.float_values.remove(key);
            },
        }
    }

    /// The float that the buffer `key` spells, if it spells one.
    pub fn float_value(&self, key: &str) -> (r: Option<u64>)
        ensures
            r == self@.float(key@),
    {
        match self.float_values.get(key) {
            Some(bits) => Some(*bits),
            None => None,
        }
    }

    /// Chooses the branch `index` at the node `key`.
    pub fn select(&mut self, key: &str, index: usize)
        ensures
            final(self)@ == (StateModel {
                selected: old(self)@.selected.insert(key@, index),
                ..old(self)@
            }),
    {
        self.selected_alternatives.insert(key.to_owned(), index);
    }

    /// The branch chosen at the node `key`, or `default` where none was.
    pub fn selected(&self, key: &str, default: usize) -> (r: usize)
        ensures
            r == self@.choice(key@, default),
    {
        match self.selected_alternatives.get(key) {
            Some(index) => *index,
            None => default,
        }
    }

    /// Whether a validation error is recorded for `key`.
    pub fn has_error(&self, key: &str) -> (r: bool)
        ensures
            r == self@.errors.contains_key(key@),
    {
        self.validation_errors.contains_key(key)
    }

    /// The validation error recorded for `key`.
    pub fn error(&self, key: &str) -> (r: Option<&String>)
        ensures
            match r {
                Some(m) => self@.errors.contains_key(key@) && self@.errors[key@] == m@,
                None => !self@.errors.contains_key(key@),
            },
    {
        self.validation_errors.get(key)
    }

    /// Whether no validation error is recorded.
    pub fn is_clean(&self) -> (r: bool)
        ensures
            r == (self@.errors == Map::<Seq<char>, Seq<char>>::empty()),
    {
        let r = self.validation_errors.is_empty();
        proof {
            if r {
                assert(self@.errors =~= Map::<Seq<char>, Seq<char>>::empty());
            } else {
                let k = choose|k: Seq<char>| self.validation_errors@.dom().contains(k);
                assert(self@.errors.contains_key(k));
            }
        }
        r
    }

    fn record_error(&mut self, key: &str, message: String)
        ensures
            final(self)@ == (StateModel {
                errors: old(self)@.errors.insert(key@, message@),
                ..old(self)@
            }),
    {
        proof {
            lemma_texts_insert(self.validation_errors@, key@, message);
        }
        self.validation_errors.insert(key.to_owned(), message);
    }

    fn clear_error(&mut self, key: &str)
        ensures
            final(self)@ == (StateModel { errors: old(self)@.errors.remove(key@), ..old(self)@ }),
    {
        proof {
            lemma_texts_remove(self.validation_errors@, key@);
        }
        self.validation_errors.remove(key);
    }

    fn clear_errors(&mut self)
        ensures
            final(self)@ == (StateModel { errors: Map::empty(), ..old(self)@ }),
    {
        self.validation_errors.clear();
        assert(self@.errors =~= Map::<Seq<char>, Seq<char>>::empty());
    }
}

/// The integer that the form shows for an integer question: the default, or
/// 0, while the buffer is empty; else what the buffer spells, or 0 where it
/// spells no integer.
pub fn shown_int(buffer: &str, question: &IntQuestion) -> (r: i64)
    ensures
        r == if buffer@.len() == 0 {
            match question.default {
                Some(d) => d,
                None => 0,
            }
        } else {
            match int_of_text(buffer@) {
                Some(v) => v,
                None => 0,
            }
        },
{
    if buffer.is_empty() {
        match question.default {
            Some(d) => d,
            None => 0,
        }
    } else {
        match parse_int(buffer) {
            Some(v) => v,
            None => 0,
        }
    }
}

/// The range to which the form keeps an integer question's value: from the
/// minimum to the maximum, each the farthest integer where it is not given;
/// none where neither is given.
pub fn int_range(question: &IntQuestion) -> (r: Option<(i64, i64)>)
    ensures
        r == match (question.min, question.max) {
            (Some(min), Some(max)) => Some((min, max)),
            (Some(min), None) => Some((min, i64::MAX)),
            (None, Some(max)) => Some((i64::MIN, max)),
            (None, None) => None,
        },
{
    match question.min {
        Some(min) => Some(
            (
                min,
                match question.max {
                    Some(max) => max,
                    None => i64::MAX,
                },
            ),
        ),
        None => match question.max {
            Some(max) => Some((i64::MIN, max)),
            None => None,
        },
    }
}

/// The text of a truth value.
pub fn bool_text(value: bool) -> (r: String)
    ensures
        r@ == if value {
            "true"@
        } else {
            "false"@
        },
{
    if value {
        "true".to_owned()
    } else {
        "false".to_owned()
    }
}

/// The truth value that the form shows for a confirmation: the default while
/// the buffer is empty, else whether the buffer reads `true`.
pub fn shown_bool(buffer: &str, default: bool) -> (r: bool)
    ensures
        r == if buffer@.len() == 0 {
            default
        } else {
            buffer@ == "true"@
        },
{
    if buffer.is_empty() {
        default
    } else {
        str_eq(buffer, "true")
    }
}

/// Whether a question of this kind has an answer to fall back on while its
/// buffer is empty.
pub open spec fn has_default(kind: KindModel) -> bool {
    match kind {
        KindModel::Input { default, .. } => default is Some,
        KindModel::Multiline { default, .. } => default is Some,
        KindModel::Int { default, .. } => default is Some,
        KindModel::Float { default, .. } => default is Some,
        KindModel::Confirm { .. } => true,
        KindModel::Masked { .. } => false,
        KindModel::List { .. } => false,
        KindModel::Nested { .. } => false,
    }
}

fn falls_back(kind: &QuestionKind) -> (r: bool)
    ensures
        r == has_default(kind@),
{
    match kind {
        QuestionKind::Input(q) => q.default.is_some(),
        QuestionKind::Multiline(q) => q.default.is_some(),
        QuestionKind::Int(q) => q.default.is_some(),
        QuestionKind::Float(q) => q.default.is_some(),
        QuestionKind::Confirm(_) => true,
        QuestionKind::Masked(_) => false,
        QuestionKind::List(_) => false,
        QuestionKind::Nested(_) => false,
    }
}

/// The candidate that a buffer holds for a question of kind `kind`, or the
/// message with which the buffer is refused. `float` is the float that the
/// buffer spells.
pub open spec fn candidate_of(kind: KindModel, buffer: Seq<char>, float: Option<u64>) -> Result<
    Value,
    Seq<char>,
> {
    match kind {
        KindModel::Input { default, .. } | KindModel::Multiline { default, .. } => Ok(
            Value::Text(
                if buffer.len() == 0 {
                    match default {
                        Some(d) => d,
                        None => Seq::empty(),
                    }
                } else {
                    buffer
                },
            ),
        ),
        KindModel::Masked { .. } => Ok(Value::Text(buffer)),
        KindModel::Int { default, .. } => if buffer.len() == 0 {
            Ok(
                Value::Int(
                    match default {
                        Some(d) => d,
                        None => 0,
                    },
                ),
            )
        } else {
            match int_of_text(buffer) {
                Some(v) => Ok(Value::Int(v)),
                None => Err("Please enter a valid integer"@),
            }
        },
        KindModel::Float { default, .. } => if buffer.len() == 0 {
            Ok(
                Value::Float(
                    match default {
                        Some(d) => d,
                        None => 0,
                    },
                ),
            )
        } else {
            match float {
                Some(v) => Ok(Value::Float(v)),
                None => Err("Please enter a valid decimal number"@),
            }
        },
        KindModel::Confirm { default } => Ok(
            Value::Bool(
                if buffer.len() == 0 {
                    default
                } else {
                    buffer == "true"@
                },
            ),
        ),
        KindModel::List { .. } => Err("Lists cannot be entered in this form"@),
        KindModel::Nested { .. } => Err("Nested questions hold no answer of their own"@),
    }
}

fn candidate(kind: &QuestionKind, buffer: String, float: Option<u64>) -> (r: Result<
    AnswerValue,
    String,
>)
    ensures
        match r {
            Ok(v) => candidate_of(kind@, buffer@, float) == Ok::<Value, Seq<char>>(v@),
            Err(m) => candidate_of(kind@, buffer@, float) == Err::<Value, Seq<char>>(m@),
        },
{
    match kind {
        QuestionKind::Input(q) => {
            let value = if buffer.as_str().is_empty() {
                match &q.default {
                    Some(d) => d.clone(),
                    None => String::new(),
                }
            } else {
                buffer
            };
            Ok(AnswerValue::String(value))
        },
        QuestionKind::Multiline(q) => {
            let value = if buffer.as_str().is_empty() {
                match &q.default {
                    Some(d) => d.clone(),
                    None => String::new(),
                }
            } else {
                buffer
            };
            Ok(AnswerValue::String(value))
        },
        QuestionKind::Masked(_) => Ok(AnswerValue::String(buffer)),
        QuestionKind::Int(q) => {
            if buffer.as_str().is_empty() {
                Ok(
                    AnswerValue::Int(
                        match q.default {
                            Some(d) => d,
                            None => 0,
                        },
                    ),
                )
            } else {
                match parse_int(buffer.as_str()) {
                    Some(v) => Ok(AnswerValue::Int(v)),
                    None => Err("Please enter a valid integer".to_owned()),
                }
            }
        },
        QuestionKind::Float(q) => {
            if buffer.as_str().is_empty() {
                Ok(
                    AnswerValue::Float(
                        match q.default {
                            Some(d) => d,
                            None => 0,
                        },
                    ),
                )
            } else {
                match float {
                    Some(v) => Ok(AnswerValue::Float(v)),
                    None => Err("Please enter a valid decimal number".to_owned()),
                }
            }
        },
        QuestionKind::Confirm(q) => Ok(AnswerValue::Bool(shown_bool(buffer.as_str(), q.default))),
        QuestionKind::List(_) => Err("Lists cannot be entered in this form".to_owned()),
        QuestionKind::Nested(_) => Err("Nested questions hold no answer of their own".to_owned()),
    }
}

/// A form: its state, and the answers saved so far.
pub ghost struct Form {
    pub state: StateModel,
    pub answers: Map<Seq<char>, Value>,
}

/// A form after a part of it was submitted, and whether every question of
/// that part held a valid answer.
pub ghost struct Saved {
    pub form: Form,
    pub valid: bool,
}

impl Form {
    /// The form after a refusal at `key`: the message is recorded.
    pub open spec fn refused(self, key: Seq<char>, message: Seq<char>) -> Saved {
        Saved {
            form: Form {
                state: StateModel {
                    errors: self.state.errors.insert(key, message),
                    ..self.state
                },
                answers: self.answers,
            },
            valid: false,
        }
    }

    /// The form after the question at `key` was skipped: it leaves no answer
    /// and no error.
    pub open spec fn skipped(self, key: Seq<char>) -> Saved {
        Saved {
            form: Form {
                state: StateModel { errors: self.state.errors.remove(key), ..self.state },
                answers: self.answers,
            },
            valid: true,
        }
    }

    /// The form after the answer at `key` was taken.
    pub open spec fn taken(self, key: Seq<char>, value: Value) -> Saved {
        Saved {
            form: Form {
                state: StateModel { errors: self.state.errors.remove(key), ..self.state },
                answers: self.answers.insert(key, value),
            },
            valid: true,
        }
    }
}

/// The text recorded for a verdict that is no acceptance.
pub open spec fn refusal_text(verdict: Verdict, key: Seq<char>) -> Seq<char> {
    match crate::validation::verdict_result(verdict, key) {
        Err(BackendErrorModel::Validation(m)) => m,
        Err(e) => e.message(),
        Ok(_) => Seq::empty(),
    }
}

/// What saving the answer to a question that is not nested does to a form:
/// the question's buffer is made if it was not there. A question that may
/// be skipped, with an empty buffer and nothing to fall back on, is
/// skipped: it leaves no answer. Else what the buffer holds is validated
/// against the answers saved so far; an accepted candidate is saved and the
/// error at its key removed; a refused one leaves its message.
pub open spec fn saved_answer<V: Validators>(
    validators: &V,
    q: QuestionModel,
    scope: Seq<char>,
    form: Form,
) -> Saved {
    let key = answer_key(scope, q);
    let ready = Form { state: form.state.with_buffer(key), ..form };
    if q.optional && form.state.buffer(key).len() == 0 && !has_default(q.kind) {
        ready.skipped(key)
    } else {
        match candidate_of(q.kind, form.state.buffer(key), form.state.float(key)) {
            Err(m) => ready.refused(key, m),
            Ok(value) => match verdict_of(validators, q, key, value, form.answers) {
                Verdict::Accepted => ready.taken(key, value),
                verdict => ready.refused(key, refusal_text(verdict, key)),
            },
        }
    }
}

/// What saving the answer to a question does to a form. A nested question
/// holds no answer: the sections of its tree are saved, in the scope of the
/// question's key.
pub open spec fn saved_question<V: Validators>(
    validators: &V,
    q: QuestionModel,
    scope: Seq<char>,
    form: Form,
) -> Saved
    decreases q, 0nat,
{
    match q.kind {
        KindModel::Nested { sections, .. } => saved_sections(
            validators,
            sections,
            answer_key(scope, q),
            answer_key(scope, q),
            sections.len(),
            form,
        ),
        _ => saved_answer(validators, q, scope, form),
    }
}

/// What saving the first `n` questions of a sequence does to a form: each
/// is saved in turn, whether or not those before it were valid.
pub open spec fn saved_sequence<V: Validators>(
    validators: &V,
    questions: Seq<QuestionModel>,
    scope: Seq<char>,
    n: nat,
    form: Form,
) -> Saved
    decreases questions, n,
{
    if n == 0 || n > questions.len() {
        Saved { form, valid: true }
    } else {
        let before = saved_sequence(validators, questions, scope, (n - 1) as nat, form);
        let after = saved_question(validators, questions[n - 1], scope, before.form);
        Saved { form: after.form, valid: before.valid && after.valid }
    }
}

/// What saving the section that stands at `place` does to a form. At a
/// choice, the branch is the one that the state holds under the key of the
/// choice, or the default; its name is saved under that key, which no other
/// choice of the tree shares, and then the branch's own section.
pub open spec fn saved_section<V: Validators>(
    validators: &V,
    section: SectionModel,
    place: Seq<char>,
    scope: Seq<char>,
    form: Form,
) -> Saved
    decreases section, 0nat,
{
    match section {
        SectionModel::Empty => Saved { form, valid: true },
        SectionModel::Sequence(questions) => saved_sequence(
            validators,
            questions,
            scope,
            questions.len(),
            form,
        ),
        SectionModel::Alternatives(default, branches) => {
            let selected = form.state.choice(choice_key(place), default);
            if selected < branches.len() {
                saved_section(
                    validators,
                    branches[selected as int].section,
                    branch_place(place, selected as nat),
                    scope,
                    Form {
                        answers: form.answers.insert(
                            choice_key(place),
                            Value::Text(branches[selected as int].name),
                        ),
                        ..form
                    },
                )
            } else {
                Saved { form, valid: true }
            }
        },
    }
}

/// What saving the first `n` sections of a tree that stands at `place`
/// does to a form.
pub open spec fn saved_sections<V: Validators>(
    validators: &V,
    sections: Seq<SectionModel>,
    place: Seq<char>,
    scope: Seq<char>,
    n: nat,
    form: Form,
) -> Saved
    decreases sections, n,
{
    if n == 0 || n > sections.len() {
        Saved { form, valid: true }
    } else {
        let before = saved_sections(validators, sections, place, scope, (n - 1) as nat, form);
        let after = saved_section(
            validators,
            sections[n - 1],
            section_place(place, (n - 1) as nat),
            scope,
            before.form,
        );
        Saved { form: after.form, valid: before.valid && after.valid }
    }
}

/// The form that a state and the answers make.
pub open spec fn form_of(state: &InterviewState, answers: &Answers) -> Form {
    Form { state: state@, answers: answers@ }
}

fn save_answer<V: Validators>(
    state: &mut InterviewState,
    question: &Question,
    scope: &str,
    answers: &mut Answers,
    validators: &V,
) -> (r: bool)
    ensures
        saved_answer(validators, question@, scope@, form_of(old(state), old(answers))) == (Saved {
            form: form_of(final(state), final(answers)),
            valid: r,
        }),
{
    let key = scoped_key(scope, question.key());
    let buffer = state.get_or_init_buffer(key.as_str()).clone();
    let float = state.float_value(key.as_str());
    proof {
        question.lemma_kind();
    }
    if question.is_optional() && buffer.as_str().is_empty() && !falls_back(question.kind()) {
        state.clear_error(key.as_str());
        return true;
    }
    let value = match candidate(question.kind(), buffer, float) {
        Ok(value) => value,
        Err(message) => {
            state.record_error(key.as_str(), message);
            return false;
        },
    };
    match validate_answer(question, scope, &value, answers, validators) {
        Ok(_) => {
            answers.insert(scoped_key(scope, question.key()), value);
            state.clear_error(key.as_str());
            true
        },
        Err(BackendError::Validation(message)) => {
            state.record_error(key.as_str(), message);
            false
        },
        Err(e) => {
            state.record_error(key.as_str(), e.message());
            false
        },
    }
}

/// Validates what the form holds for a question and saves it. Returns
/// whether the question, or every question of its tree where it is nested,
/// held a valid answer.
pub fn validate_and_save_question<V: Validators>(
    state: &mut InterviewState,
    question: &Question,
    scope: &str,
    answers: &mut Answers,
    validators: &V,
) -> (r: bool)
    ensures
        saved_question(validators, question@, scope@, form_of(old(state), old(answers))) == (Saved {
            form: form_of(final(state), final(answers)),
            valid: r,
        }),
    decreases question@, 0nat,
{
    proof {
        question.lemma_kind();
    }
    match question.kind() {
        QuestionKind::Nested(nested) => {
            let key = scoped_key(scope, question.key());
            validate_sections(
                state,
                &nested.interview.sections,
                key.as_str(),
                key.as_str(),
                nested.interview.sections.len(),
                answers,
                validators,
                Ghost(nested.interview@),
            )
        },
        _ => save_answer(state, question, scope, answers, validators),
    }
}

fn validate_sequence<V: Validators>(
    state: &mut InterviewState,
    sequence: &Sequence,
    scope: &str,
    n: usize,
    answers: &mut Answers,
    validators: &V,
) -> (r: bool)
    requires
        n <= sequence.sequence@.len(),
    ensures
        saved_sequence(
            validators,
            sequence@,
            scope@,
            n as nat,
            form_of(old(state), old(answers)),
        ) == (Saved { form: form_of(final(state), final(answers)), valid: r }),
    decreases sequence@, n,
{
    if n == 0 {
        true
    } else {
        let before = validate_sequence(state, sequence, scope, n - 1, answers, validators);
        assert(sequence@[n - 1] == sequence.sequence@[n - 1]@);
        assert(decreases_to!(sequence@ => sequence@[n - 1]));
        let after = validate_and_save_question(
            state,
            &sequence.sequence[n - 1],
            scope,
            answers,
            validators,
        );
        before && after
    }
}

/// Validates what the form holds for a section and saves it. Returns
/// whether every question of the section held a valid answer.
pub fn validate_section<V: Validators>(
    state: &mut InterviewState,
    section: &Section,
    place: &str,
    scope: &str,
    answers: &mut Answers,
    validators: &V,
) -> (r: bool)
    ensures
        saved_section(
            validators,
            section@,
            place@,
            scope@,
            form_of(old(state), old(answers)),
        ) == (Saved { form: form_of(final(state), final(answers)), valid: r }),
    decreases section@, 0nat,
{
    match section {
        Section::Empty => true,
        Section::Sequence(seq) => {
            assert(decreases_to!(section@ => section@->Sequence_0));
            validate_sequence(state, seq, scope, seq.sequence.len(), answers, validators)
        },
        Section::Alternatives(default_idx, alternatives) => {
            let alt_key = choice_key_of(place);
            let selected = state.selected(alt_key.as_str(), *default_idx);
            if selected < alternatives.len() {
                let alt = &alternatives[selected];
                assert(section@->Alternatives_1[selected as int] == alt@);
                assert(decreases_to!(section@ => section@->Alternatives_1));
                assert(decreases_to!(section@->Alternatives_1 => alt@));
                assert(decreases_to!(alt@ => alt@.section));
                answers.insert(alt_key, AnswerValue::String(alt.name.clone()));
                validate_section(
                    state,
                    &alt.section,
                    branch_place_of(place, selected).as_str(),
                    scope,
                    answers,
                    validators,
                )
            } else {
                true
            }
        },
    }
}

fn validate_sections<V: Validators>(
    state: &mut InterviewState,
    sections: &Vec<Section>,
    place: &str,
    scope: &str,
    n: usize,
    answers: &mut Answers,
    validators: &V,
    Ghost(models): Ghost<Seq<SectionModel>>,
) -> (r: bool)
    requires
        n <= sections@.len(),
        models.len() == sections@.len(),
        forall|i: int| 0 <= i < sections@.len() ==> models[i] == (#[trigger] sections@[i])@,
    ensures
        saved_sections(
            validators,
            models,
            place@,
            scope@,
            n as nat,
            form_of(old(state), old(answers)),
        ) == (Saved { form: form_of(final(state), final(answers)), valid: r }),
    decreases models, n,
{
    if n == 0 {
        true
    } else {
        let before = validate_sections(
            state,
            sections,
            place,
            scope,
            n - 1,
            answers,
            validators,
            Ghost(models),
        );
        let after = validate_section(
            state,
            &sections[n - 1],
            section_place_of(place, n - 1).as_str(),
            scope,
            answers,
            validators,
        );
        before && after
    }
}

/// A form backend: the interview, the state of its form, and what the
/// form came to when it was last submitted.
pub struct EguiBackend<V: Validators> {
    interview: Interview,
    state: InterviewState,
    validators: V,
    completed: bool,
    result: Option<Result<Answers, BackendError>>,
    /// The answers that stand before the form is filled: the assumed ones.
    store: Answers,
}

/// The failure of a form that is asked to execute an interview by itself.
pub open spec fn not_executable() -> BackendErrorModel {
    BackendErrorModel::Custom(
        "EguiBackend::execute should not be called directly. Use show() method instead."@,
    )
}

impl EguiBackend<NoValidators> {
    /// A fresh form for `interview`, with no validators.
    pub fn new(interview: Interview) -> (r: Self)
        ensures
            r.tree() == interview@,
            r.form_state() == StateModel::empty(),
            !r.is_completed(),
            r.outcome() is None,
            r.given() == Map::<Seq<char>, Value>::empty(),
    {
        Self {
            interview,
            state: InterviewState::new(),
            validators: NoValidators,
            completed: false,
            result: None,
            store: Answers::new(),
        }
    }
}

impl<V: Validators> EguiBackend<V> {
    pub closed spec fn tree(&self) -> Seq<SectionModel> {
        self.interview@
    }

    pub closed spec fn form_state(&self) -> StateModel {
        self.state@
    }

    pub closed spec fn rules(&self) -> &V {
        &self.validators
    }

    #[verifier::when_used_as_spec(spec_is_completed)]
    pub fn is_completed(&self) -> (r: bool)
        ensures
            r == self.spec_is_completed(),
    {
        self.completed
    }

    pub closed spec fn spec_is_completed(&self) -> bool {
        self.completed
    }

    /// What the last submission came to, if there was one that succeeded.
    pub closed spec fn outcome(&self) -> Option<Result<Map<Seq<char>, Value>, BackendErrorModel>> {
        match self.result {
            Some(r) => Some(presented(r)),
            None => None,
        }
    }

    /// The same form, with `validators` to run on submission.
    pub fn with_validators<W: Validators>(self, validators: W) -> (r: EguiBackend<W>)
        ensures
            r.tree() == self.tree(),
            r.form_state() == self.form_state(),
            r.is_completed() == self.is_completed(),
            r.outcome() == self.outcome(),
            r.given() == self.given(),
            *r.rules() == validators,
    {
        EguiBackend {
            interview: self.interview,
            state: self.state,
            validators,
            completed: self.completed,
            result: self.result,
            store: self.store,
        }
    }

    /// The answers that stand before the form is filled.
    pub closed spec fn given(&self) -> Map<Seq<char>, Value> {
        self.store@
    }

    /// The same form, with `answers` as the store that stands before it is
    /// filled: the assumed answers.
    pub fn with_answers(self, answers: Answers) -> (r: Self)
        ensures
            r.tree() == self.tree(),
            r.form_state() == self.form_state(),
            r.is_completed() == self.is_completed(),
            r.outcome() == self.outcome(),
            r.rules() == self.rules(),
            r.given() == answers@,
    {
        EguiBackend {
            interview: self.interview,
            state: self.state,
            validators: self.validators,
            completed: self.completed,
            result: self.result,
            store: answers,
        }
    }

    /// The interview that the form shows.
    pub fn interview(&self) -> (r: &Interview)
        ensures
            r@ == self.tree(),
    {
        &self.interview
    }

    /// The state of the form.
    pub fn state(&self) -> (r: &InterviewState)
        ensures
            r@ == self.form_state(),
    {
        &self.state
    }

    /// The state of the form, to be changed as the user edits it.
    pub fn state_mut(&mut self) -> (r: &mut InterviewState)
        ensures
            r@ == old(self).form_state(),
            final(self).form_state() == final(r)@,
            final(self).tree() == old(self).tree(),
            final(self).given() == old(self).given(),
            final(self).is_completed() == old(self).is_completed(),
            final(self).outcome() == old(self).outcome(),
            final(self).rules() == old(self).rules(),
    {
        &mut self.state
    }

    /// What submitting the form comes to: the errors are cleared, then every
    /// section is saved into fresh answers.
    pub open spec fn submitted(&self) -> Saved {
        saved_sections(
            self.rules(),
            self.tree(),
            Seq::empty(),
            Seq::empty(),
            self.tree().len(),
            Form {
                state: StateModel { errors: Map::empty(), ..self.form_state() },
                answers: self.given(),
            },
        )
    }

    /// Validates and saves the whole form. Where every question holds a
    /// valid answer, the answers become the result; else the result stays.
    pub fn validate_and_save_all(&mut self) -> (r: bool)
        ensures
            r == old(self).submitted().valid,
            final(self).form_state() == old(self).submitted().form.state,
            final(self).outcome() == if r {
                Some(Ok::<Map<Seq<char>, Value>, BackendErrorModel>(old(self).submitted().form.answers))
            } else {
                old(self).outcome()
            },
            final(self).tree() == old(self).tree(),
            final(self).given() == old(self).given(),
            final(self).rules() == old(self).rules(),
            final(self).is_completed() == old(self).is_completed(),
    {
        self.state.clear_errors();
        let mut answers = self.store.duplicate();
        let empty = String::new();
        let all_valid = validate_sections(
            &mut self.state,
            &self.interview.sections,
            empty.as_str(),
            empty.as_str(),
            self.interview.sections.len(),
            &mut answers,
            &self.validators,
            Ghost(self.interview@),
        );
        if all_valid {
            self.result = Some(Ok(answers));
        }
        all_valid
    }

    /// Submits the form: it is completed where every question holds a valid
    /// answer.
    pub fn submit(&mut self) -> (r: bool)
        ensures
            r == old(self).submitted().valid,
            final(self).is_completed() == (old(self).is_completed() || r),
            final(self).form_state() == old(self).submitted().form.state,
            final(self).outcome() == if r {
                Some(Ok::<Map<Seq<char>, Value>, BackendErrorModel>(old(self).submitted().form.answers))
            } else {
                old(self).outcome()
            },
            final(self).tree() == old(self).tree(),
            final(self).given() == old(self).given(),
            final(self).rules() == old(self).rules(),
    {
        let valid = self.validate_and_save_all();
        if valid {
            self.completed = true;
        }
        valid
    }

    /// One step of a form that is shown again and again: a completed form
    /// stays as it is, whatever is clicked; any other is submitted where the
    /// button was clicked. Returns whether the form is completed.
    pub fn step(&mut self, submit_clicked: bool) -> (r: bool)
        ensures
            r == final(self).is_completed(),
            old(self).is_completed() || !submit_clicked ==> *final(self) == *old(self),
            !old(self).is_completed() && submit_clicked ==> {
                &&& r == old(self).submitted().valid
                &&& final(self).form_state() == old(self).submitted().form.state
                &&& final(self).outcome() == if r {
                    Some(
                        Ok::<Map<Seq<char>, Value>, BackendErrorModel>(
                            old(self).submitted().form.answers,
                        ),
                    )
                } else {
                    old(self).outcome()
                }
                &&& final(self).tree() == old(self).tree()
                &&& final(self).given() == old(self).given()
                &&& final(self).rules() == old(self).rules()
            },
    {
        if self.completed {
            true
        } else if submit_clicked {
            self.submit()
        } else {
            false
        }
    }

    /// Get the result if the interview is completed
    pub fn result(&self) -> (r: Option<&Result<Answers, BackendError>>)
        ensures
            match r {
                Some(x) => self.outcome() == Some(presented(*x)),
                None => self.outcome() is None,
            },
    {
        self.result.as_ref()
    }
}

impl<V: Validators> InterviewBackend for EguiBackend<V> {
    /// A form does not execute an interview by itself: it is shown, edited
    /// and submitted.
    open spec fn presents(
        &self,
        interview: Seq<SectionModel>,
        store: Map<Seq<char>, Value>,
        outcome: Result<Map<Seq<char>, Value>, BackendErrorModel>,
    ) -> bool {
        outcome == Err::<Map<Seq<char>, Value>, BackendErrorModel>(not_executable())
    }

    fn execute(&self, interview: &Interview, answers: Answers) -> (r: Result<Answers, BackendError>) {
        Err(
            BackendError::Custom(
                "EguiBackend::execute should not be called directly. Use show() method instead.".to_owned(),
            ),
        )
    }

    fn execute_section(&self, section: &Section) -> (r: Result<Answers, BackendError>)
        ensures
            presented(r) == Err::<Map<Seq<char>, Value>, BackendErrorModel>(
                BackendErrorModel::Custom("execute_section not implemented"@),
            ),
    {
        Err(crate::backend::section_not_implemented())
    }
}

/// Every choice keeps a record of its own: of two choices that stand one
/// after the other, both chosen names are saved, each under the key of its
/// own node, and the second takes nothing from the first.
pub proof fn lemma_choices_keep_their_records<V: Validators>(
    validators: &V,
    first: Seq<AlternativeModel>,
    second: Seq<AlternativeModel>,
    form: Form,
)
    requires
        form.state.choice(choice_key(Seq::empty()), 0) < first.len(),
        form.state.choice(choice_key(section_place(Seq::empty(), 1)), 0) < second.len(),
        first[form.state.choice(choice_key(Seq::empty()), 0) as int].section is Empty,
        second[form.state.choice(choice_key(section_place(Seq::empty(), 1)), 0) as int].section is Empty,
    ensures
        choice_key(Seq::empty()) != choice_key(section_place(Seq::empty(), 1)),
        saved_sections(
            validators,
            seq![SectionModel::Alternatives(0, first), SectionModel::Alternatives(0, second)],
            Seq::empty(),
            Seq::empty(),
            2,
            form,
        ) == (Saved {
            form: Form {
                answers: form.answers.insert(
                    choice_key(Seq::empty()),
                    Value::Text(first[form.state.choice(choice_key(Seq::empty()), 0) as int].name),
                ).insert(
                    choice_key(section_place(Seq::empty(), 1)),
                    Value::Text(
                        second[form.state.choice(
                            choice_key(section_place(Seq::empty(), 1)),
                            0,
                        ) as int].name,
                    ),
                ),
                ..form
            },
            valid: true,
        }),
{
    let sections = seq![SectionModel::Alternatives(0, first), SectionModel::Alternatives(0, second)];
    let root = Seq::<char>::empty();
    lemma_choices_apart(root, 0, 1);
    assert(section_place(root, 0) == root);
    let none = saved_sections(validators, sections, root, root, 0, form);
    assert(none == Saved { form, valid: true });
    let one = saved_sections(validators, sections, root, root, 1, form);
    let chosen = form.state.choice(choice_key(root), 0);
    let kept = Form {
        answers: form.answers.insert(choice_key(root), Value::Text(first[chosen as int].name)),
        ..form
    };
    assert(saved_section(validators, first[chosen as int].section, branch_place(root, chosen as nat), root, kept)
        == Saved { form: kept, valid: true });
    assert(saved_section(validators, sections[0], root, root, form) == Saved { form: kept, valid: true });
    assert(one == Saved { form: kept, valid: true });
    let place = section_place(root, 1);
    let then = kept.state.choice(choice_key(place), 0);
    let both = Form {
        answers: kept.answers.insert(choice_key(place), Value::Text(second[then as int].name)),
        ..kept
    };
    assert(saved_section(validators, second[then as int].section, branch_place(place, then as nat), root, both)
        == Saved { form: both, valid: true });
    assert(saved_section(validators, sections[1], place, root, kept) == Saved { form: both, valid: true });
}

} // verus!
