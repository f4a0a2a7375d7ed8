//! Presentation backends: what executes an interview and hands back answers.

use vstd::prelude::*;
use crate::answer::{AnswerError, AnswerErrorModel, Answers, AnswerValue, Value};
use crate::interview::{Interview, Section, SectionModel};

verus! {

/// Why an interview gave no value.
#[derive(Debug)]
pub enum BackendError {
    /// An answer is missing or of the wrong kind.
    Answer(AnswerError),
    /// A bound or a validator rejected a candidate, with its message.
    Validation(String),
    /// The presenter failed or was cancelled.
    ExecutionError(String),
    /// The presenter's input or output failed, with the failure's text.
    Io(String),
    /// A failure of one backend's own.
    Custom(String),
}

/// What a backend's failure is, as mathematics.
pub ghost enum BackendErrorModel {
    Answer(AnswerErrorModel),
    Validation(Seq<char>),
    ExecutionError(Seq<char>),
    Io(Seq<char>),
    Custom(Seq<char>),
}

impl View for BackendError {
    type V = BackendErrorModel;

    open spec fn view(&self) -> BackendErrorModel {
        match self {
            BackendError::Answer(e) => BackendErrorModel::Answer(e@),
            BackendError::Validation(m) => BackendErrorModel::Validation(m@),
            BackendError::ExecutionError(m) => BackendErrorModel::ExecutionError(m@),
            BackendError::Io(m) => BackendErrorModel::Io(m@),
            BackendError::Custom(m) => BackendErrorModel::Custom(m@),
        }
    }
}

impl BackendErrorModel {
    /// The text of this error.
    pub open spec fn message(self) -> Seq<char> {
        match self {
            BackendErrorModel::Answer(e) => "Answer error: "@ + e.message(),
            BackendErrorModel::Validation(m) => "Validation error: "@ + m,
            BackendErrorModel::ExecutionError(m) => "Execution error: "@ + m,
            BackendErrorModel::Io(m) => "IO error: "@ + m,
            BackendErrorModel::Custom(m) => "Backend-specific error: "@ + m,
        }
    }
}

impl BackendError {
    /// The text of this error.
    pub fn message(&self) -> (r: String)
        ensures
            r@ == self@.message(),
    {
        match self {
            BackendError::Answer(e) => {
                let mut r = "Answer error: ".to_owned();
                let inner = e.message();
                r.append(inner.as_str());
                r
            },
            BackendError::Validation(m) => {
                let mut r = "Validation error: ".to_owned();
                r.append(m.as_str());
                r
            },
            BackendError::ExecutionError(m) => {
                let mut r = "Execution error: ".to_owned();
                r.append(m.as_str());
                r
            },
            BackendError::Io(m) => {
                let mut r = "IO error: ".to_owned();
                r.append(m.as_str());
                r
            },
            BackendError::Custom(m) => {
                let mut r = "Backend-specific error: ".to_owned();
                r.append(m.as_str());
                r
            },
        }
    }
}

impl From<AnswerError> for BackendError {
    fn from(e: AnswerError) -> (r: BackendError) {
        BackendError::Answer(e)
    }
}

impl vstd::std_specs::convert::FromSpecImpl<AnswerError> for BackendError {
    open spec fn obeys_from_spec() -> bool {
        true
    }

    open spec fn from_spec(e: AnswerError) -> BackendError {
        BackendError::Answer(e)
    }
}

/// What a presenter handed back, as mathematics.
pub open spec fn presented(r: Result<Answers, BackendError>) -> Result<
    Map<Seq<char>, Value>,
    BackendErrorModel,
> {
    match r {
        Ok(a) => Ok(a@),
        Err(e) => Err(e@),
    }
}

/// An interview execution backend.
pub trait InterviewBackend {
    /// Whether executing `interview` on this backend, with `store` as the
    /// answers that stand before the first question is asked, may end in
    /// `outcome`. Of a backend that says nothing else, every outcome is
    /// possible.
    open spec fn presents(
        &self,
        interview: Seq<SectionModel>,
        store: Map<Seq<char>, Value>,
        outcome: Result<Map<Seq<char>, Value>, BackendErrorModel>,
    ) -> bool {
        true
    }

    /// Execute an interview and return the collected answers. `answers` is
    /// the store as it stands before presentation: it holds the assumed
    /// answers, which validators see from the first question on.
    fn execute(&self, interview: &Interview, answers: Answers) -> (r: Result<Answers, BackendError>)
        ensures
            self.presents(interview@, answers@, presented(r)),
    ;

    /// Execute a single section. A backend that does not say how fails.
    fn execute_section(&self, section: &Section) -> (r: Result<Answers, BackendError>)
        ensures
            !self.executes_sections() ==> presented(r) == Err::<
                Map<Seq<char>, Value>,
                BackendErrorModel,
            >(BackendErrorModel::Custom("execute_section not implemented"@)),
    {
        Err(section_not_implemented())
    }

    /// Whether this backend has a way of its own to execute a single
    /// section. A backend that says nothing else has none.
    open spec fn executes_sections(&self) -> bool {
        false
    }
}

/// The failure of a backend that executes no single sections.
pub fn section_not_implemented() -> (r: BackendError)
    ensures
        r@ == BackendErrorModel::Custom("execute_section not implemented"@),
{
    BackendError::Custom("execute_section not implemented".to_owned())
}

/// Test backend that returns predefined answers
#[derive(Debug)]
pub struct TestBackend {
    answers: Answers,
}

impl View for TestBackend {
    type V = Map<Seq<char>, Value>;

    closed spec fn view(&self) -> Map<Seq<char>, Value> {
        self.answers@
    }
}

impl TestBackend {
    pub fn new() -> (r: Self)
        ensures
            r@ == Map::<Seq<char>, Value>::empty(),
    {
        TestBackend { answers: Answers::new() }
    }

    pub fn with_string(self, key: &str, value: &str) -> (r: Self)
        ensures
            r@ == self@.insert(key@, Value::Text(value@)),
    {
        let mut answers = self.answers;
        answers.insert(key.to_owned(), AnswerValue::String(value.to_owned()));
        TestBackend { answers }
    }

    pub fn with_int(self, key: &str, value: i64) -> (r: Self)
        ensures
            r@ == self@.insert(key@, Value::Int(value)),
    {
        let mut answers = self.answers;
        answers.insert(key.to_owned(), AnswerValue::Int(value));
        TestBackend { answers }
    }

    /// Adds a float, given as its bits.
    pub fn with_float(self, key: &str, value: u64) -> (r: Self)
        ensures
            r@ == self@.insert(key@, Value::Float(value)),
    {
        let mut answers = self.answers;
        answers.insert(key.to_owned(), AnswerValue::Float(value));
        TestBackend { answers }
    }

    pub fn with_bool(self, key: &str, value: bool) -> (r: Self)
        ensures
            r@ == self@.insert(key@, Value::Bool(value)),
    {
        let mut answers = self.answers;
        answers.insert(key.to_owned(), AnswerValue::Bool(value));
        TestBackend { answers }
    }

    /// A backend that returns `answers`.
    pub fn with_answers(answers: Answers) -> (r: Self)
        ensures
            r@ == answers@,
    {
        TestBackend { answers }
    }

    /// Adds a value of any kind.
    pub fn with_value(self, key: &str, value: AnswerValue) -> (r: Self)
        ensures
            r@ == self@.insert(key@, value@),
    {
        let mut answers = self.answers;
        answers.insert(key.to_owned(), value);
        TestBackend { answers }
    }
}

impl InterviewBackend for TestBackend {
    /// Whatever the interview, the store comes back with the predefined
    /// answers written into it.
    open spec fn presents(
        &self,
        interview: Seq<SectionModel>,
        store: Map<Seq<char>, Value>,
        outcome: Result<Map<Seq<char>, Value>, BackendErrorModel>,
    ) -> bool {
        outcome == Ok::<Map<Seq<char>, Value>, BackendErrorModel>(
            store.union_prefer_right(self@),
        )
    }

    fn execute(&self, interview: &Interview, answers: Answers) -> (r: Result<Answers, BackendError>) {
        let mut answers = answers;
        answers.merge(self.answers.duplicate());
        Ok(answers)
    }

    fn execute_section(&self, section: &Section) -> (r: Result<Answers, BackendError>)
        ensures
            presented(r) == Err::<Map<Seq<char>, Value>, BackendErrorModel>(
                BackendErrorModel::Custom("execute_section not implemented"@),
            ),
    {
        Err(section_not_implemented())
    }
}

} // verus!
