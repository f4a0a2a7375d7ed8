//! Fields of the basic kinds.

use vstd::prelude::*;
use crate::answer::{Answers, AnswerValue, Value};
use crate::backend::{BackendError, BackendErrorModel};
use crate::interview::{Interview, SectionModel};
use crate::question::{Question, QuestionModel};
use crate::reconstruct::{
    bool_in, float_in, int_in, read_bool, read_float, read_int, read_text, text_in,
};
use crate::wizard::Wizard;

verus! {

/// The basic kinds of field: text, numbers and a yes or no.
#[derive(Debug)]
pub struct BasicFields {
    pub name: String,
    pub age: u32,
    /// A float, held as its bits.
    pub height: u64,
    pub temperature: i32,
    pub enjoying: bool,
}

/// What a BasicFields is, as mathematics.
pub ghost struct BasicFieldsModel {
    pub name: Seq<char>,
    pub age: u32,
    pub height: u64,
    pub temperature: i32,
    pub enjoying: bool,
}

impl View for BasicFields {
    type V = BasicFieldsModel;

    open spec fn view(&self) -> BasicFieldsModel {
        BasicFieldsModel {
            name: self.name@,
            age: self.age,
            height: self.height,
            temperature: self.temperature,
            enjoying: self.enjoying,
        }
    }
}

impl Wizard for BasicFields {
    open spec fn tree() -> Seq<SectionModel> {
        seq![
            SectionModel::Sequence(
                seq![
                    QuestionModel::input("name"@, "What is your name?"@, None),
                    QuestionModel::integer("age"@, "How old are you?"@, None, None, None),
                    QuestionModel::float("height"@, "What is your height in meters?"@, None, None, None),
                    QuestionModel::integer("temperature"@, "What is the temperature (can be negative)?"@, None, None, None),
                    QuestionModel::confirm("enjoying"@, "Are you enjoying this example?"@),
                ],
            ),
        ]
    }

    open spec fn spelled(&self) -> Map<Seq<char>, Value> {
        Map::empty()
            .insert("name"@, Value::Text(self.name@))
            .insert("age"@, Value::Int(self.age as i64))
            .insert("height"@, Value::Float(self.height))
            .insert("temperature"@, Value::Int(self.temperature as i64))
            .insert("enjoying"@, Value::Bool(self.enjoying))
    }

    open spec fn decoded(answers: Map<Seq<char>, Value>) -> Result<BasicFieldsModel, BackendErrorModel> {
        match text_in(answers, "name"@) {
            Err(e) => Err(e),
            Ok(name) => match int_in(answers, "age"@, 0, u32::MAX as int) {
                Err(e) => Err(e),
                Ok(age) => match float_in(answers, "height"@) {
                    Err(e) => Err(e),
                    Ok(height) => match int_in(answers, "temperature"@, i32::MIN as int, i32::MAX as int) {
                        Err(e) => Err(e),
                        Ok(temperature) => match bool_in(answers, "enjoying"@) {
                            Err(e) => Err(e),
                            Ok(enjoying) => Ok(
                                BasicFieldsModel {
                                    name,
                                    age: age as u32,
                                    height,
                                    temperature: temperature as i32,
                                    enjoying,
                                },
                            ),
                        },
                    },
                },
            },
        }
    }

    fn interview() -> (r: Interview) {
        let mut questions: Vec<Question> = Vec::new();
        questions.push(Question::input("name", "What is your name?", None));
        questions.push(Question::integer("age", "How old are you?", None, None, None));
        questions.push(Question::float("height", "What is your height in meters?", None, None, None));
        questions.push(Question::integer("temperature", "What is the temperature (can be negative)?", None, None, None));
        questions.push(Question::confirm("enjoying", "Are you enjoying this example?"));
        let r = Interview::of_sequence(questions);
        assert(r@[0]->Sequence_0 =~= Self::tree()[0]->Sequence_0);
        assert(r@ =~= Self::tree());
        r
    }

    fn to_answers(&self) -> (r: Answers) {
        let mut r = Answers::new();
        r.insert("name".to_owned(), AnswerValue::String(self.name.clone()));
        r.insert("age".to_owned(), AnswerValue::Int(self.age as i64));
        r.insert("height".to_owned(), AnswerValue::Float(self.height));
        r.insert("temperature".to_owned(), AnswerValue::Int(self.temperature as i64));
        r.insert("enjoying".to_owned(), AnswerValue::Bool(self.enjoying));
        r
    }

    fn from_answers(answers: &Answers) -> (r: Result<Self, BackendError>) {
        let name = match read_text(answers, "name") {
            Ok(v) => v,
            Err(e) => {
                return Err(e);
            },
        };
        let age = match read_int(answers, "age", 0, 0xffff_ffff) {
            Ok(v) => v,
            Err(e) => {
                return Err(e);
            },
        };
        let height = match read_float(answers, "height") {
            Ok(v) => v,
            Err(e) => {
                return Err(e);
            },
        };
        let temperature = match read_int(answers, "temperature", -0x8000_0000, 0x7fff_ffff) {
            Ok(v) => v,
            Err(e) => {
                return Err(e);
            },
        };
        let enjoying = match read_bool(answers, "enjoying") {
            Ok(v) => v,
            Err(e) => {
                return Err(e);
            },
        };
        Ok(
            BasicFields {
                name,
                age: age as u32,
                height,
                temperature: temperature as i32,
                enjoying,
            },
        )
    }

    proof fn lemma_round_trip(&self) {
        reveal_strlit("name");
        reveal_strlit("age");
        reveal_strlit("height");
        reveal_strlit("temperature");
        reveal_strlit("enjoying");
        assert("name"@.len() == 4);
        assert("age"@.len() == 3);
        assert("height"@.len() == 6);
        assert("temperature"@.len() == 11);
        assert("enjoying"@.len() == 8);
        assert("name"@ != "age"@);
        assert("name"@ != "height"@);
        assert("name"@ != "temperature"@);
        assert("name"@ != "enjoying"@);
        assert("age"@ != "height"@);
        assert("age"@ != "temperature"@);
        assert("age"@ != "enjoying"@);
        assert("height"@ != "temperature"@);
        assert("height"@ != "enjoying"@);
        assert("temperature"@ != "enjoying"@);
    }
}

} // verus!
