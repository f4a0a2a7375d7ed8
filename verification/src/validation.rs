//! Validation of candidate answers: the bounds of the question first, then
//! its own validator, then the validator of the struct that holds the field.

use vstd::prelude::*;
use crate::answer::{AnswerError, AnswerErrorModel, Answers, AnswerValue, Value};
use crate::backend::{BackendError, BackendErrorModel};
use crate::path::{dotted, ResponsePath, segments_of};
use crate::question::{ElementModel, KindModel, ListElement, Question, QuestionKind, QuestionModel};
use crate::text::{int_to_text, scoped, scoped_key, text_of_int, wide_to_text};

pub use crate::question::{
    bounds_ordered, float_at_most, float_is_nan, float_le, float_magnitude, float_rank,
    has_ordered_bounds,
};

verus! {

/// What the validation of a candidate comes to.
pub ghost enum Verdict {
    /// The candidate is taken.
    Accepted,
    /// The candidate is of another kind than the question asks for.
    Mismatch(Seq<char>),
    /// A bound or a validator rejects the candidate, with this message.
    Rejected(Seq<char>),
}

/// What an integer's bounds say of it.
pub open spec fn int_verdict(min: Option<i64>, max: Option<i64>, v: i64) -> Verdict {
    if min is Some && v < min->0 {
        Verdict::Rejected("Value must be at least "@ + text_of_int(min->0 as int))
    } else if max is Some && v > max->0 {
        Verdict::Rejected("Value must be at most "@ + text_of_int(max->0 as int))
    } else {
        Verdict::Accepted
    }
}

/// What a float's bounds say of it.
pub open spec fn float_verdict(min: Option<u64>, max: Option<u64>, v: u64) -> Verdict {
    if min is Some && !float_le(min->0, v) {
        Verdict::Rejected("Value is below the minimum"@)
    } else if max is Some && !float_le(v, max->0) {
        Verdict::Rejected("Value is above the maximum"@)
    } else {
        Verdict::Accepted
    }
}

/// What a list question says of the first `n` items of a list: the first
/// item that is of the wrong kind or out of bounds decides.
pub open spec fn items_verdict(
    element: ElementModel,
    min: Option<i64>,
    max: Option<i64>,
    items: Seq<Value>,
    n: nat,
) -> Verdict
    decreases n,
{
    if n == 0 {
        Verdict::Accepted
    } else {
        match items_verdict(element, min, max, items, (n - 1) as nat) {
            Verdict::Accepted => match (element, items[n - 1]) {
                (ElementModel::Text, Value::Text(_)) => Verdict::Accepted,
                (ElementModel::Int, Value::Int(v)) => int_verdict(min, max, v),
                (ElementModel::Float, Value::Float(_)) => Verdict::Accepted,
                _ => Verdict::Mismatch("List"@),
            },
            other => other,
        }
    }
}

/// Whether no index occurs twice among the chosen ones.
pub open spec fn distinct(chosen: Seq<usize>) -> bool {
    forall|i: int, j: int| 0 <= i < j < chosen.len() ==> chosen[i] != chosen[j]
}

/// What a multi-select among `variants` variants says of the chosen indices.
pub open spec fn chosen_verdict(variants: nat, chosen: Seq<usize>) -> Verdict {
    if exists|i: int| 0 <= i < chosen.len() && chosen[i] >= variants {
        Verdict::Rejected("Unknown variant selected"@)
    } else if !distinct(chosen) {
        Verdict::Rejected("A variant is selected more than once"@)
    } else {
        Verdict::Accepted
    }
}

/// What the kind of a question says of a candidate: whether it is of the
/// kind asked for, and within the bounds.
pub open spec fn kind_verdict(kind: KindModel, candidate: Value) -> Verdict {
    match kind {
        KindModel::Input { .. } | KindModel::Multiline { .. } | KindModel::Masked { .. } => {
            match candidate {
                Value::Text(_) | Value::Path(_) => Verdict::Accepted,
                _ => Verdict::Mismatch("String"@),
            }
        },
        KindModel::Int { min, max, .. } => match candidate {
            Value::Int(v) => int_verdict(min, max, v),
            _ => Verdict::Mismatch("Int"@),
        },
        KindModel::Float { min, max, .. } => match candidate {
            Value::Float(v) => float_verdict(min, max, v),
            _ => Verdict::Mismatch("Float"@),
        },
        KindModel::Confirm { .. } => match candidate {
            Value::Bool(_) => Verdict::Accepted,
            _ => Verdict::Mismatch("Bool"@),
        },
        KindModel::List { element, min, max, .. } => match (element, candidate) {
            (ElementModel::Variants(names), Value::Chosen(chosen)) => chosen_verdict(
                names.len(),
                chosen,
            ),
            (ElementModel::Variants(_), _) => Verdict::Mismatch("ChosenVariants"@),
            (_, Value::List(items)) => items_verdict(element, min, max, items, items.len()),
            _ => Verdict::Mismatch("List"@),
        },
        KindModel::Nested { .. } => match candidate {
            Value::Nested(_) => Verdict::Accepted,
            _ => Verdict::Mismatch("Nested"@),
        },
    }
}

/// The validator that a question of this kind runs on submission.
pub open spec fn on_submit(kind: KindModel) -> Option<Seq<char>> {
    match kind {
        KindModel::Input { on_submit, .. } => on_submit,
        KindModel::Multiline { on_submit, .. } => on_submit,
        KindModel::Masked { on_submit, .. } => on_submit,
        KindModel::Int { on_submit, .. } => on_submit,
        KindModel::Float { on_submit, .. } => on_submit,
        KindModel::List { on_submit, .. } => on_submit,
        KindModel::Confirm { .. } => None,
        KindModel::Nested { .. } => None,
    }
}

/// What `r` shows of an acceptance or of a message.
pub open spec fn objection_of(r: Result<(), String>) -> Option<Seq<char>> {
    match r {
        Ok(_) => None,
        Err(m) => Some(m@),
    }
}

/// The validator that a question of this kind runs on each edit.
pub open spec fn on_key(kind: KindModel) -> Option<Seq<char>> {
    match kind {
        KindModel::Input { on_key, .. } => on_key,
        KindModel::Multiline { on_key, .. } => on_key,
        KindModel::Masked { on_key, .. } => on_key,
        KindModel::Int { on_key, .. } => on_key,
        KindModel::Float { on_key, .. } => on_key,
        KindModel::List { .. } => None,
        KindModel::Confirm { .. } => None,
        KindModel::Nested { .. } => None,
    }
}

/// The validators that questions name. A validator sees the candidate, all
/// answers accepted so far, and the path of the question.
pub trait Validators {
    /// What the validator called `name` says: `None` where it accepts the
    /// candidate, else the message with which it rejects it.
    spec fn objection(
        &self,
        name: Seq<char>,
        candidate: Value,
        answers: Map<Seq<char>, Value>,
        path: Seq<Seq<char>>,
    ) -> Option<Seq<char>>;

    /// Runs the validator called `name`.
    fn validate(
        &self,
        name: &str,
        candidate: &AnswerValue,
        answers: &Answers,
        path: &ResponsePath,
    ) -> (r: Result<(), String>)
        ensures
            match r {
                Ok(_) => self.objection(name@, candidate@, answers@, path@) is None,
                Err(m) => self.objection(name@, candidate@, answers@, path@) == Some(m@),
            },
    ;
}

/// No validators: every name accepts every candidate.
pub struct NoValidators;

impl Validators for NoValidators {
    open spec fn objection(
        &self,
        name: Seq<char>,
        candidate: Value,
        answers: Map<Seq<char>, Value>,
        path: Seq<Seq<char>>,
    ) -> Option<Seq<char>> {
        None
    }

    fn validate(
        &self,
        name: &str,
        candidate: &AnswerValue,
        answers: &Answers,
        path: &ResponsePath,
    ) -> (r: Result<(), String>) {
        Ok(())
    }
}

/// The path of the field `name` beside the field at `path`.
pub open spec fn sibling(path: Seq<Seq<char>>, name: Seq<char>) -> Seq<Seq<char>> {
    if path.len() == 0 {
        path.push(name)
    } else {
        path.drop_last().push(name)
    }
}

/// The integer stored under `key`, or 0 where none is.
pub open spec fn int_at(answers: Map<Seq<char>, Value>, key: Seq<char>) -> int {
    if answers.contains_key(key) && answers[key] is Int {
        answers[key]->Int_0 as int
    } else {
        0
    }
}

/// The sum of the integers answered so far for the first `n` of the fields
/// `names` beside the field at `path`.
pub open spec fn siblings_total(
    answers: Map<Seq<char>, Value>,
    path: Seq<Seq<char>>,
    names: Seq<Seq<char>>,
    n: nat,
) -> int
    decreases n,
{
    if n == 0 || n > names.len() {
        0
    } else {
        siblings_total(answers, path, names, (n - 1) as nat) + int_at(
            answers,
            dotted(sibling(path, names[n - 1])),
        )
    }
}

/// The running total that a candidate brings the fields `names` to: the
/// candidate itself, and what was answered so far for each of the fields.
pub open spec fn running_total(
    candidate: i64,
    answers: Map<Seq<char>, Value>,
    path: Seq<Seq<char>>,
    names: Seq<Seq<char>>,
) -> int {
    candidate + siblings_total(answers, path, names, names.len())
}

/// What a limit on the sum of the fields `names` says of a candidate: an
/// integer is rejected where it brings the running total above the limit.
pub open spec fn total_objection(
    limit: i64,
    names: Seq<Seq<char>>,
    candidate: Value,
    answers: Map<Seq<char>, Value>,
    path: Seq<Seq<char>>,
) -> Option<Seq<char>> {
    match candidate {
        Value::Int(v) => if running_total(v, answers, path, names) > limit {
            Some(
                "Total "@ + text_of_int(running_total(v, answers, path, names))
                    + " exceeds the limit of "@ + text_of_int(limit as int),
            )
        } else {
            None
        },
        _ => None,
    }
}

/// A validator for the fields of one struct: the sum of the named fields
/// may not exceed the limit. It is run for each field as it is answered,
/// with the fields answered before it.
pub struct SumAtMost {
    pub limit: i64,
    pub fields: Vec<String>,
}

impl SumAtMost {
    /// The names of the fields that are summed.
    pub open spec fn names(&self) -> Seq<Seq<char>> {
        Seq::new(self.fields@.len(), |i: int| self.fields@[i]@)
    }

    /// The running total that `candidate` brings the fields to.
    pub fn total(&self, candidate: i64, answers: &Answers, path: &ResponsePath) -> (r: i128)
        ensures
            r == running_total(candidate, answers@, path@, self.names()),
    {
        let parent = path.parent();
        let mut total: i128 = candidate as i128;
        let mut i: usize = 0;
        while i < self.fields.len()
            invariant
                i <= self.fields@.len(),
                parent@ == if path@.len() == 0 {
                    path@
                } else {
                    path@.drop_last()
                },
                total == candidate + siblings_total(answers@, path@, self.names(), i as nat),
                -0x8000_0000_0000_0000 * (i + 1) <= total <= 0x8000_0000_0000_0000 * (i + 1),
            decreases self.fields@.len() - i,
        {
            let beside = parent.child(self.fields[i].as_str());
            assert(beside@ == sibling(path@, self.names()[i as int]));
            let key = beside.join();
            let value: i64 = match answers.as_int(key.as_str()) {
                Ok(v) => v,
                Err(_) => 0,
            };
            total = total + value as i128;
            i += 1;
        }
        total
    }
}

impl Validators for SumAtMost {
    /// Whatever the name: the limit on the sum.
    open spec fn objection(
        &self,
        name: Seq<char>,
        candidate: Value,
        answers: Map<Seq<char>, Value>,
        path: Seq<Seq<char>>,
    ) -> Option<Seq<char>> {
        total_objection(self.limit, self.names(), candidate, answers, path)
    }

    fn validate(
        &self,
        name: &str,
        candidate: &AnswerValue,
        answers: &Answers,
        path: &ResponsePath,
    ) -> (r: Result<(), String>) {
        match candidate {
            AnswerValue::Int(v) => {
                let total = self.total(*v, answers, path);
                if total > self.limit as i128 {
                    let mut text = "Total ".to_owned();
                    let sum = wide_to_text(total);
                    text.append(sum.as_str());
                    text.append(" exceeds the limit of ");
                    let limit = int_to_text(self.limit);
                    text.append(limit.as_str());
                    Err(text)
                } else {
                    Ok(())
                }
            },
            _ => Ok(()),
        }
    }
}

/// What an optional validator says of a candidate.
pub open spec fn named_objection<V: Validators>(
    validators: &V,
    name: Option<Seq<char>>,
    candidate: Value,
    answers: Map<Seq<char>, Value>,
    path: Seq<Seq<char>>,
) -> Option<Seq<char>> {
    match name {
        Some(n) => validators.objection(n, candidate, answers, path),
        None => None,
    }
}

/// The key under which the answer to `q`, asked in `scope`, is stored.
pub open spec fn answer_key(scope: Seq<char>, q: QuestionModel) -> Seq<char> {
    scoped(scope, q.key())
}

/// What validation says of a candidate for `q` at the key `key`: the kind
/// and bounds decide first; where they accept, the question's own validator;
/// where that accepts too, the validator of the enclosing struct.
pub open spec fn verdict_of<V: Validators>(
    validators: &V,
    q: QuestionModel,
    key: Seq<char>,
    candidate: Value,
    answers: Map<Seq<char>, Value>,
) -> Verdict {
    match kind_verdict(q.kind, candidate) {
        Verdict::Accepted => match named_objection(
            validators,
            on_submit(q.kind),
            candidate,
            answers,
            segments_of(key),
        ) {
            Some(m) => Verdict::Rejected(m),
            None => match named_objection(
                validators,
                q.propagated,
                candidate,
                answers,
                segments_of(key),
            ) {
                Some(m) => Verdict::Rejected(m),
                None => Verdict::Accepted,
            },
        },
        other => other,
    }
}

/// The result that stands for a verdict on the candidate at `key`.
pub open spec fn verdict_result(verdict: Verdict, key: Seq<char>) -> Result<(), BackendErrorModel> {
    match verdict {
        Verdict::Accepted => Ok(()),
        Verdict::Mismatch(expected) => Err(
            BackendErrorModel::Answer(AnswerErrorModel::TypeMismatch { key, expected }),
        ),
        Verdict::Rejected(m) => Err(BackendErrorModel::Validation(m)),
    }
}

/// What `r` shows of a success or of a failure.
pub open spec fn outcome(r: Result<(), BackendError>) -> Result<(), BackendErrorModel> {
    match r {
        Ok(_) => Ok(()),
        Err(e) => Err(e@),
    }
}

/// A verdict while it is computed: accepted, a mismatch with what was
/// expected, or a rejection with its message.
enum Finding {
    Accepted,
    Mismatch(&'static str),
    Rejected(String),
}

impl View for Finding {
    type V = Verdict;

    closed spec fn view(&self) -> Verdict {
        match self {
            Finding::Accepted => Verdict::Accepted,
            Finding::Mismatch(e) => Verdict::Mismatch(e@),
            Finding::Rejected(m) => Verdict::Rejected(m@),
        }
    }
}

fn check_int(min: Option<i64>, max: Option<i64>, v: i64) -> (r: Finding)
    ensures
        r@ == int_verdict(min, max, v),
{
    match min {
        Some(m) => {
            if v < m {
                let mut text = "Value must be at least ".to_owned();
                let digits = int_to_text(m);
                text.append(digits.as_str());
                return Finding::Rejected(text);
            }
        },
        None => {},
    }
    match max {
        Some(m) => {
            if v > m {
                let mut text = "Value must be at most ".to_owned();
                let digits = int_to_text(m);
                text.append(digits.as_str());
                return Finding::Rejected(text);
            }
        },
        None => {},
    }
    Finding::Accepted
}

fn check_float(min: Option<u64>, max: Option<u64>, v: u64) -> (r: Finding)
    ensures
        r@ == float_verdict(min, max, v),
{
    match min {
        Some(m) => {
            if !float_at_most(m, v) {
                return Finding::Rejected("Value is below the minimum".to_owned());
            }
        },
        None => {},
    }
    match max {
        Some(m) => {
            if !float_at_most(v, m) {
                return Finding::Rejected("Value is above the maximum".to_owned());
            }
        },
        None => {},
    }
    Finding::Accepted
}

proof fn lemma_items_verdict_stays(
    element: ElementModel,
    min: Option<i64>,
    max: Option<i64>,
    items: Seq<Value>,
    k: nat,
    n: nat,
)
    requires
        k <= n <= items.len(),
        !(items_verdict(element, min, max, items, k) is Accepted),
    ensures
        items_verdict(element, min, max, items, n) == items_verdict(element, min, max, items, k),
    decreases n - k,
{
    if k < n {
        lemma_items_verdict_stays(element, min, max, items, k, (n - 1) as nat);
    }
}

fn check_items(element: &ListElement, min: Option<i64>, max: Option<i64>, items: &Vec<AnswerValue>) -> (r:
    Finding)
    requires
        !(element is Variants),
    ensures
        r@ == items_verdict(element.model(), min, max, AnswerValue::List(*items)@->List_0, items@.len()),
{
    let ghost models = AnswerValue::List(*items)@->List_0;
    let mut i: usize = 0;
    while i < items.len()
        invariant
            i <= items@.len(),
            !(element is Variants),
            models == AnswerValue::List(*items)@->List_0,
            items_verdict(element.model(), min, max, models, i as nat) is Accepted,
        decreases items@.len() - i,
    {
        assert(models[i as int] == items@[i as int]@);
        let found = match (element, &items[i]) {
            (ListElement::Text, AnswerValue::String(_)) => Finding::Accepted,
            (ListElement::Int, AnswerValue::Int(v)) => check_int(min, max, *v),
            (ListElement::Float, AnswerValue::Float(_)) => Finding::Accepted,
            _ => Finding::Mismatch("List"),
        };
        match found {
            Finding::Accepted => {},
            other => {
                proof {
                    lemma_items_verdict_stays(
                        element.model(),
                        min,
                        max,
                        models,
                        (i + 1) as nat,
                        items@.len(),
                    );
                }
                return other;
            },
        }
        i += 1;
    }
    Finding::Accepted
}

fn check_chosen(variants: usize, chosen: &Vec<usize>) -> (r: Finding)
    ensures
        r@ == chosen_verdict(variants as nat, chosen@),
{
    let mut i: usize = 0;
    while i < chosen.len()
        invariant
            i <= chosen@.len(),
            forall|j: int| 0 <= j < i ==> chosen@[j] < variants,
        decreases chosen@.len() - i,
    {
        if chosen[i] >= variants {
            return Finding::Rejected("Unknown variant selected".to_owned());
        }
        i += 1;
    }
    let mut i: usize = 0;
    while i < chosen.len()
        invariant
            i <= chosen@.len(),
            forall|j: int| 0 <= j < chosen@.len() ==> chosen@[j] < variants,
            forall|a: int, b: int| 0 <= a < b < chosen@.len() && a < i ==> chosen@[a] != chosen@[b],
        decreases chosen@.len() - i,
    {
        let mut j: usize = i + 1;
        while j < chosen.len()
            invariant
                i < j <= chosen@.len(),
                forall|k: int| 0 <= k < chosen@.len() ==> chosen@[k] < variants,
                forall|b: int| i < b < j ==> chosen@[i as int] != chosen@[b],
            decreases chosen@.len() - j,
        {
            if chosen[i] == chosen[j] {
                return Finding::Rejected("A variant is selected more than once".to_owned());
            }
            j += 1;
        }
        i += 1;
    }
    Finding::Accepted
}

fn check_kind(kind: &QuestionKind, candidate: &AnswerValue) -> (r: Finding)
    ensures
        r@ == kind_verdict(kind@, candidate@),
{
    match kind {
        QuestionKind::Input(_) | QuestionKind::Multiline(_) | QuestionKind::Masked(_) => {
            match candidate {
                AnswerValue::String(_) | AnswerValue::Path(_) => Finding::Accepted,
                _ => Finding::Mismatch("String"),
            }
        },
        QuestionKind::Int(q) => match candidate {
            AnswerValue::Int(v) => check_int(q.min, q.max, *v),
            _ => Finding::Mismatch("Int"),
        },
        QuestionKind::Float(q) => match candidate {
            AnswerValue::Float(v) => check_float(q.min, q.max, *v),
            _ => Finding::Mismatch("Float"),
        },
        QuestionKind::Confirm(_) => match candidate {
            AnswerValue::Bool(_) => Finding::Accepted,
            _ => Finding::Mismatch("Bool"),
        },
        QuestionKind::List(q) => match &q.element {
            ListElement::Variants(names) => match candidate {
                AnswerValue::ChosenVariants(chosen) => check_chosen(names.len(), chosen),
                _ => Finding::Mismatch("ChosenVariants"),
            },
            _ => match candidate {
                AnswerValue::List(items) => check_items(&q.element, q.min, q.max, items),
                _ => Finding::Mismatch("List"),
            },
        },
        QuestionKind::Nested(_) => match candidate {
            AnswerValue::Nested(_) => Finding::Accepted,
            _ => Finding::Mismatch("Nested"),
        },
    }
}

fn submit_validator(kind: &QuestionKind) -> (r: Option<&str>)
    ensures
        match r {
            Some(n) => on_submit(kind@) == Some(n@),
            None => on_submit(kind@) is None,
        },
{
    let name = match kind {
        QuestionKind::Input(q) => &q.validate_on_submit,
        QuestionKind::Multiline(q) => &q.validate_on_submit,
        QuestionKind::Masked(q) => &q.validate_on_submit,
        QuestionKind::Int(q) => &q.validate_on_submit,
        QuestionKind::Float(q) => &q.validate_on_submit,
        QuestionKind::List(q) => &q.validate_on_submit,
        QuestionKind::Confirm(_) => {
            return None;
        },
        QuestionKind::Nested(_) => {
            return None;
        },
    };
    match name {
        Some(n) => Some(n.as_str()),
        None => None,
    }
}

/// Validates a candidate answer to `question`, asked in `scope`, against the
/// answers accepted so far.
pub fn validate_answer<V: Validators>(
    question: &Question,
    scope: &str,
    candidate: &AnswerValue,
    answers: &Answers,
    validators: &V,
) -> (r: Result<(), BackendError>)
    ensures
        outcome(r) == verdict_result(
            verdict_of(validators, question@, answer_key(scope@, question@), candidate@, answers@),
            answer_key(scope@, question@),
        ),
{
    let key = scoped_key(scope, question.key());
    proof {
        question.lemma_kind();
    }
    match check_kind(question.kind(), candidate) {
        Finding::Accepted => {},
        Finding::Mismatch(expected) => {
            return Err(BackendError::Answer(AnswerError::TypeMismatch { key, expected }));
        },
        Finding::Rejected(m) => {
            return Err(BackendError::Validation(m));
        },
    }
    let path = ResponsePath::from_dotted(key.as_str());
    match submit_validator(question.kind()) {
        Some(name) => match validators.validate(name, candidate, answers, &path) {
            Ok(_) => {},
            Err(m) => {
                return Err(BackendError::Validation(m));
            },
        },
        None => {},
    }
    match question.propagated() {
        Some(name) => match validators.validate(name, candidate, answers, &path) {
            Ok(_) => {},
            Err(m) => {
                return Err(BackendError::Validation(m));
            },
        },
        None => {},
    }
    Ok(())
}

/// Runs the validator that the question names for each edit, where it names
/// one, on what was entered so far. Nothing is stored.
pub fn validate_on_key<V: Validators>(
    question: &Question,
    scope: &str,
    candidate: &AnswerValue,
    answers: &Answers,
    validators: &V,
) -> (r: Result<(), String>)
    ensures
        objection_of(r) == named_objection(
            validators,
            on_key(question@.kind),
            candidate@,
            answers@,
            segments_of(answer_key(scope@, question@)),
        ),
{
    proof {
        question.lemma_kind();
    }
    let name = match question.kind() {
        QuestionKind::Input(q) => &q.validate_on_key,
        QuestionKind::Multiline(q) => &q.validate_on_key,
        QuestionKind::Masked(q) => &q.validate_on_key,
        QuestionKind::Int(q) => &q.validate_on_key,
        QuestionKind::Float(q) => &q.validate_on_key,
        _ => {
            return Ok(());
        },
    };
    match name {
        Some(n) => {
            let key = scoped_key(scope, question.key());
            let path = ResponsePath::from_dotted(key.as_str());
            validators.validate(n.as_str(), candidate, answers, &path)
        },
        None => Ok(()),
    }
}

/// Validates a candidate and, where it is accepted, stores it. A rejected
/// candidate leaves the answers as they were.
pub fn accept_answer<V: Validators>(
    answers: &mut Answers,
    question: &Question,
    scope: &str,
    candidate: AnswerValue,
    validators: &V,
) -> (r: Result<(), BackendError>)
    ensures
        outcome(r) == verdict_result(
            verdict_of(
                validators,
                question@,
                answer_key(scope@, question@),
                candidate@,
                old(answers)@,
            ),
            answer_key(scope@, question@),
        ),
        final(answers)@ == if r is Ok {
            old(answers)@.insert(answer_key(scope@, question@), candidate@)
        } else {
            old(answers)@
        },
{
    match validate_answer(question, scope, &candidate, answers, validators) {
        Ok(_) => {
            answers.insert(scoped_key(scope, question.key()), candidate);
            Ok(())
        },
        Err(e) => Err(e),
    }
}

/// Bounds are inclusive: of an integer question with both bounds, in order,
/// the two bounds themselves are accepted, and the integers next below the
/// minimum and next above the maximum are rejected.
pub proof fn lemma_int_bounds_inclusive(kind: KindModel, min: i64, max: i64)
    requires
        kind matches KindModel::Int { min: lo, max: hi, .. } && lo == Some(min) && hi == Some(max),
        min <= max,
    ensures
        kind_verdict(kind, Value::Int(min)) is Accepted,
        kind_verdict(kind, Value::Int(max)) is Accepted,
        min > i64::MIN ==> kind_verdict(kind, Value::Int((min - 1) as i64)) is Rejected,
        max < i64::MAX ==> kind_verdict(kind, Value::Int((max + 1) as i64)) is Rejected,
{
}

/// Bounds are inclusive: of a float question with both bounds, numbers in
/// order, the two bounds themselves are accepted, and every number below the
/// minimum or above the maximum is rejected.
pub proof fn lemma_float_bounds_inclusive(kind: KindModel, min: u64, max: u64, v: u64)
    requires
        kind matches KindModel::Float { min: lo, max: hi, .. } && lo == Some(min) && hi == Some(
            max,
        ),
        float_le(min, max),
        !float_is_nan(v),
    ensures
        kind_verdict(kind, Value::Float(min)) is Accepted,
        kind_verdict(kind, Value::Float(max)) is Accepted,
        float_rank(v) < float_rank(min) || float_rank(max) < float_rank(v) ==> kind_verdict(
            kind,
            Value::Float(v),
        ) is Rejected,
        float_rank(min) <= float_rank(v) <= float_rank(max) ==> kind_verdict(
            kind,
            Value::Float(v),
        ) is Accepted,
{
}

/// A candidate that the bounds reject is a validation failure, whatever the
/// validators say, and leaves no trace; one that the bounds accept, for a
/// question without validators, is taken.
pub proof fn lemma_bounds_decide<V: Validators>(
    validators: &V,
    q: QuestionModel,
    key: Seq<char>,
    candidate: Value,
    answers: Map<Seq<char>, Value>,
)
    ensures
        kind_verdict(q.kind, candidate) matches Verdict::Rejected(m) ==> verdict_result(
            verdict_of(validators, q, key, candidate, answers),
            key,
        ) == Err::<(), BackendErrorModel>(BackendErrorModel::Validation(m)),
        kind_verdict(q.kind, candidate) is Accepted && on_submit(q.kind) is None && q.propagated
            is None ==> verdict_result(verdict_of(validators, q, key, candidate, answers), key)
            == Ok::<(), BackendErrorModel>(()),
{
}

proof fn lemma_dotted_last(parent: Seq<Seq<char>>, a: Seq<char>, b: Seq<char>)
    requires
        a != b,
    ensures
        dotted(parent.push(a)) != dotted(parent.push(b)),
{
    let x = parent.push(a);
    let y = parent.push(b);
    assert(x.drop_last() =~= parent);
    assert(y.drop_last() =~= parent);
    if parent.len() > 0 {
        let head = dotted(parent) + seq!['.'];
        assert(dotted(x) == head + a);
        assert(dotted(y) == head + b);
        if dotted(x) == dotted(y) {
            assert((head + a).subrange(head.len() as int, (head + a).len() as int) =~= a);
            assert((head + b).subrange(head.len() as int, (head + b).len() as int) =~= b);
        }
    }
}

proof fn lemma_total_of_absent(
    answers: Map<Seq<char>, Value>,
    path: Seq<Seq<char>>,
    names: Seq<Seq<char>>,
    n: nat,
)
    requires
        n <= names.len(),
        forall|i: int|
            0 <= i < n ==> !answers.contains_key(dotted(sibling(path, #[trigger] names[i]))),
    ensures
        siblings_total(answers, path, names, n) == 0,
    decreases n,
{
    if n > 0 {
        lemma_total_of_absent(answers, path, names, (n - 1) as nat);
    }
}

/// A propagated validator sees the running total. Three fields `a`, `b` and
/// `c` of one struct share a limit on their sum. With nothing answered yet,
/// `a` may take the whole limit. With that answer accepted, 1 for `b` is
/// rejected, and 0 for `b` is accepted.
pub proof fn lemma_running_total_is_seen(
    limit: i64,
    parent: Seq<Seq<char>>,
    a: Seq<char>,
    b: Seq<char>,
    c: Seq<char>,
)
    requires
        a != b,
        a != c,
        b != c,
    ensures
        total_objection(limit, seq![a, b, c], Value::Int(limit), Map::empty(), parent.push(a))
            is None,
        total_objection(
            limit,
            seq![a, b, c],
            Value::Int(1),
            Map::<Seq<char>, Value>::empty().insert(dotted(parent.push(a)), Value::Int(limit)),
            parent.push(b),
        ) is Some,
        total_objection(
            limit,
            seq![a, b, c],
            Value::Int(0),
            Map::<Seq<char>, Value>::empty().insert(dotted(parent.push(a)), Value::Int(limit)),
            parent.push(b),
        ) is None,
{
    let names = seq![a, b, c];
    let none = Map::<Seq<char>, Value>::empty();
    let after = none.insert(dotted(parent.push(a)), Value::Int(limit));
    let at_a = parent.push(a);
    let at_b = parent.push(b);
    assert(at_a.drop_last() =~= parent);
    assert(at_b.drop_last() =~= parent);
    lemma_total_of_absent(none, at_a, names, 3);
    lemma_dotted_last(parent, a, b);
    lemma_dotted_last(parent, a, c);
    assert(sibling(at_b, names[0]) == parent.push(a));
    assert(sibling(at_b, names[1]) == parent.push(b));
    assert(sibling(at_b, names[2]) == parent.push(c));
    assert(siblings_total(after, at_b, names, 0) == 0);
    assert(siblings_total(after, at_b, names, 1) == limit);
    assert(siblings_total(after, at_b, names, 2) == limit);
    assert(siblings_total(after, at_b, names, 3) == limit);
}

/// A candidate that a validator rejects is not stored: the verdict is a
/// validation failure, and the answers that `accept_answer` leaves are those
/// that it found.
pub proof fn lemma_rejected_leaves_no_trace<V: Validators>(
    validators: &V,
    q: QuestionModel,
    key: Seq<char>,
    candidate: Value,
    answers: Map<Seq<char>, Value>,
)
    requires
        kind_verdict(q.kind, candidate) is Accepted,
        named_objection(validators, q.propagated, candidate, answers, segments_of(key)) is Some
            || named_objection(validators, on_submit(q.kind), candidate, answers, segments_of(key))
            is Some,
    ensures
        verdict_result(verdict_of(validators, q, key, candidate, answers), key) matches Err(
            BackendErrorModel::Validation(_),
        ),
{
}

} // verus!
