//! Salary expectations, with a limit on their sum.

use vstd::prelude::*;
use crate::answer::{Answers, AnswerValue, Value};
use crate::backend::{BackendError, BackendErrorModel};
use crate::interview::{Interview, SectionModel};
use crate::path::{dotted, ResponsePath};
use crate::question::{Question, QuestionModel};
use crate::reconstruct::{Choice, int_in, read_int};
use crate::text::{int_to_text, text_of_int, wide_to_text};
use crate::validation::{int_at, objection_of, sibling};
use crate::wizard::Wizard;

verus! {

/// Salary expectations, in thousands a year: the two together may not exceed the greatest total compensation.
#[derive(Debug)]
pub struct Salary {
    pub base: u32,
    pub bonus: u32,
}

/// What a Salary is, as mathematics.
pub ghost struct SalaryModel {
    pub base: u32,
    pub bonus: u32,
}

impl View for Salary {
    type V = SalaryModel;

    open spec fn view(&self) -> SalaryModel {
        SalaryModel {
            base: self.base,
            bonus: self.bonus,
        }
    }
}

impl Wizard for Salary {
    open spec fn tree() -> Seq<SectionModel> {
        seq![
            SectionModel::Sequence(
                seq![
                    QuestionModel { propagated: Some("validate_salary"@), ..QuestionModel::integer("base"@, "Base salary ($k/year):"@, Some(30), Some(200), None) },
                    QuestionModel { propagated: Some("validate_salary"@), ..QuestionModel::integer("bonus"@, "Expected bonus ($k/year):"@, Some(0), Some(100), None) },
                ],
            ),
        ]
    }

    open spec fn spelled(&self) -> Map<Seq<char>, Value> {
        Map::empty()
            .insert("base"@, Value::Int(self.base as i64))
            .insert("bonus"@, Value::Int(self.bonus as i64))
    }

    open spec fn decoded(answers: Map<Seq<char>, Value>) -> Result<SalaryModel, BackendErrorModel> {
        match int_in(answers, "base"@, 0, u32::MAX as int) {
            Err(e) => Err(e),
            Ok(base) => match int_in(answers, "bonus"@, 0, u32::MAX as int) {
                Err(e) => Err(e),
                Ok(bonus) => Ok(
                    SalaryModel {
                        base: base as u32,
                        bonus: bonus as u32,
                    },
                ),
            },
        }
    }

    fn interview() -> (r: Interview) {
        let mut questions: Vec<Question> = Vec::new();
        let mut base = Question::integer("base", "Base salary ($k/year):", Some(30), Some(200), None);
        base.set_propagated(Some("validate_salary".to_owned()));
        questions.push(base);
        let mut bonus = Question::integer("bonus", "Expected bonus ($k/year):", Some(0), Some(100), None);
        bonus.set_propagated(Some("validate_salary".to_owned()));
        questions.push(bonus);
        let r = Interview::of_sequence(questions);
        assert(r@[0]->Sequence_0 =~= Self::tree()[0]->Sequence_0);
        assert(r@ =~= Self::tree());
        r
    }

    fn to_answers(&self) -> (r: Answers) {
        let mut r = Answers::new();
        r.insert("base".to_owned(), AnswerValue::Int(self.base as i64));
        r.insert("bonus".to_owned(), AnswerValue::Int(self.bonus as i64));
        r
    }

    fn from_answers(answers: &Answers) -> (r: Result<Self, BackendError>) {
        let base = match read_int(answers, "base", 0, 0xffff_ffff) {
            Ok(v) => v,
            Err(e) => {
                return Err(e);
            },
        };
        let bonus = match read_int(answers, "bonus", 0, 0xffff_ffff) {
            Ok(v) => v,
            Err(e) => {
                return Err(e);
            },
        };
        Ok(
            Salary {
                base: base as u32,
                bonus: bonus as u32,
            },
        )
    }

    proof fn lemma_round_trip(&self) {
        reveal_strlit("base");
        reveal_strlit("bonus");
        assert("base"@.len() == 4);
        assert("bonus"@.len() == 5);
        assert("base"@ != "bonus"@);
    }
}

/// The greatest total compensation, in thousands a year.
pub const MAX_TOTAL_COMP: i64 = 250;

/// The key of the field `name` beside the field at `path`.
pub open spec fn beside(path: Seq<Seq<char>>, name: Seq<char>) -> Seq<char> {
    dotted(sibling(path, name))
}

/// What is said of a salary field: with the base and the bonus answered so
/// far, the candidate may not bring the total above the limit.
pub open spec fn salary_objection(
    value: Value,
    answers: Map<Seq<char>, Value>,
    path: Seq<Seq<char>>,
) -> Option<Seq<char>> {
    match value {
        Value::Int(current) => {
            let total = int_at(answers, beside(path, "base"@)) + int_at(
                answers,
                beside(path, "bonus"@),
            ) + current;
            if total > 250 {
                Some(
                    "Total comp $"@ + text_of_int(total) + "k exceeds $"@ + text_of_int(250)
                        + "k limit"@,
                )
            } else {
                None
            }
        },
        _ => None,
    }
}

/// Salary expectations must total at most the greatest total compensation.
pub fn validate_salary(value: &AnswerValue, responses: &Answers, path: &ResponsePath) -> (r: Result<
    (),
    String,
>)
    ensures
        objection_of(r) == salary_objection(value@, responses@, path@),
{
    let current = match value {
        AnswerValue::Int(current) => *current,
        _ => {
            return Ok(());
        },
    };
    let parent = path.parent();
    let base_key = parent.child("base").join();
    let bonus_key = parent.child("bonus").join();
    let base: i64 = match responses.as_int(base_key.as_str()) {
        Ok(v) => v,
        Err(_) => 0,
    };
    let bonus: i64 = match responses.as_int(bonus_key.as_str()) {
        Ok(v) => v,
        Err(_) => 0,
    };
    let total: i128 = base as i128 + bonus as i128 + current as i128;
    if total > MAX_TOTAL_COMP as i128 {
        let mut text = "Total comp $".to_owned();
        let sum = wide_to_text(total);
        text.append(sum.as_str());
        text.append("k exceeds $");
        let limit = int_to_text(MAX_TOTAL_COMP);
        text.append(limit.as_str());
        text.append("k limit");
        Err(text)
    } else {
        Ok(())
    }
}

/// Engineering focus area
#[derive(Debug, Clone, Copy, PartialEq, Eq, Structural)]
pub enum FocusArea {
    Backend,
    Frontend,
    Fullstack,
    Infrastructure,
    Security,
    Data,
}

impl Choice for FocusArea {
    open spec fn count() -> nat {
        6
    }

    open spec fn position(&self) -> nat {
        match self {
            FocusArea::Backend => 0,
            FocusArea::Frontend => 1,
            FocusArea::Fullstack => 2,
            FocusArea::Infrastructure => 3,
            FocusArea::Security => 4,
            FocusArea::Data => 5,
        }
    }

    fn from_index(i: usize) -> (r: Option<Self>) {
        if i == 0 {
            Some(FocusArea::Backend)
        } else if i == 1 {
            Some(FocusArea::Frontend)
        } else if i == 2 {
            Some(FocusArea::Fullstack)
        } else if i == 3 {
            Some(FocusArea::Infrastructure)
        } else if i == 4 {
            Some(FocusArea::Security)
        } else if i == 5 {
            Some(FocusArea::Data)
        } else {
            None
        }
    }

    fn index(&self) -> (r: usize) {
        match self {
            FocusArea::Backend => 0,
            FocusArea::Frontend => 1,
            FocusArea::Fullstack => 2,
            FocusArea::Infrastructure => 3,
            FocusArea::Security => 4,
            FocusArea::Data => 5,
        }
    }
}

} // verus!
