//! A survey with a text before it and a text after it.

use vstd::prelude::*;
use crate::answer::{Answers, AnswerValue, Value};
use crate::backend::{BackendError, BackendErrorModel};
use crate::interview::{Interview, SectionModel};
use crate::question::{Question, QuestionModel};
use crate::reconstruct::{
    bool_in, float_in, int_in, read_bool, read_float, read_int, read_text, text_in,
};
use crate::wizard::Wizard;

verus! {

/// The text shown before the survey starts.
pub const PRELUDE: &'static str = "Welcome to the Fitness Tracker setup!\n\nThis wizard will help you configure your fitness goals and preferences.\nPlease answer the following questions.";

/// The text shown after the survey completes.
pub const EPILOGUE: &'static str = "Setup complete! Your fitness profile has been created.\n\nYou can now start tracking your workouts and progress.\nGood luck on your fitness journey!";

/// A fitness profile: weights and a height within bounds.
#[derive(Debug)]
pub struct FitnessProfile {
    pub name: String,
    /// A float, held as its bits.
    pub weight: u64,
    pub height: u32,
    /// A float, held as its bits.
    pub target_weight: u64,
    pub has_experience: bool,
}

/// What a FitnessProfile is, as mathematics.
pub ghost struct FitnessProfileModel {
    pub name: Seq<char>,
    pub weight: u64,
    pub height: u32,
    pub target_weight: u64,
    pub has_experience: bool,
}

impl View for FitnessProfile {
    type V = FitnessProfileModel;

    open spec fn view(&self) -> FitnessProfileModel {
        FitnessProfileModel {
            name: self.name@,
            weight: self.weight,
            height: self.height,
            target_weight: self.target_weight,
            has_experience: self.has_experience,
        }
    }
}

impl Wizard for FitnessProfile {
    open spec fn tree() -> Seq<SectionModel> {
        seq![
            SectionModel::Sequence(
                seq![
                    QuestionModel::input("name"@, "What is your name?"@, None),
                    QuestionModel::float("weight"@, "What is your current weight (kg)?"@, Some(0x4034000000000000), Some(0x4072c00000000000), None),
                    QuestionModel::integer("height"@, "What is your height (cm)?"@, Some(100), Some(250), None),
                    QuestionModel::float("target_weight"@, "What is your target weight (kg)?"@, Some(0x4034000000000000), Some(0x4072c00000000000), None),
                    QuestionModel::confirm("has_experience"@, "Do you have any previous fitness experience?"@),
                ],
            ),
        ]
    }

    open spec fn spelled(&self) -> Map<Seq<char>, Value> {
        Map::empty()
            .insert("name"@, Value::Text(self.name@))
            .insert("weight"@, Value::Float(self.weight))
            .insert("height"@, Value::Int(self.height as i64))
            .insert("target_weight"@, Value::Float(self.target_weight))
            .insert("has_experience"@, Value::Bool(self.has_experience))
    }

    open spec fn decoded(answers: Map<Seq<char>, Value>) -> Result<FitnessProfileModel, BackendErrorModel> {
        match text_in(answers, "name"@) {
            Err(e) => Err(e),
            Ok(name) => match float_in(answers, "weight"@) {
                Err(e) => Err(e),
                Ok(weight) => match int_in(answers, "height"@, 0, u32::MAX as int) {
                    Err(e) => Err(e),
                    Ok(height) => match float_in(answers, "target_weight"@) {
                        Err(e) => Err(e),
                        Ok(target_weight) => match bool_in(answers, "has_experience"@) {
                            Err(e) => Err(e),
                            Ok(has_experience) => Ok(
                                FitnessProfileModel {
                                    name,
                                    weight,
                                    height: height as u32,
                                    target_weight,
                                    has_experience,
                                },
                            ),
                        },
                    },
                },
            },
        }
    }

    fn interview() -> (r: Interview) {
        let mut questions: Vec<Question> = Vec::new();
        questions.push(Question::input("name", "What is your name?", None));
        questions.push(Question::float("weight", "What is your current weight (kg)?", Some(0x4034000000000000), Some(0x4072c00000000000), None));
        questions.push(Question::integer("height", "What is your height (cm)?", Some(100), Some(250), None));
        questions.push(Question::float("target_weight", "What is your target weight (kg)?", Some(0x4034000000000000), Some(0x4072c00000000000), None));
        questions.push(Question::confirm("has_experience", "Do you have any previous fitness experience?"));
        let r = Interview::of_sequence(questions);
        assert(r@[0]->Sequence_0 =~= Self::tree()[0]->Sequence_0);
        assert(r@ =~= Self::tree());
        r
    }

    fn to_answers(&self) -> (r: Answers) {
        let mut r = Answers::new();
        r.insert("name".to_owned(), AnswerValue::String(self.name.clone()));
        r.insert("weight".to_owned(), AnswerValue::Float(self.weight));
        r.insert("height".to_owned(), AnswerValue::Int(self.height as i64));
        r.insert("target_weight".to_owned(), AnswerValue::Float(self.target_weight));
        r.insert("has_experience".to_owned(), AnswerValue::Bool(self.has_experience));
        r
    }

    fn from_answers(answers: &Answers) -> (r: Result<Self, BackendError>) {
        let name = match read_text(answers, "name") {
            Ok(v) => v,
            Err(e) => {
                return Err(e);
            },
        };
        let weight = match read_float(answers, "weight") {
            Ok(v) => v,
            Err(e) => {
                return Err(e);
            },
        };
        let height = match read_int(answers, "height", 0, 0xffff_ffff) {
            Ok(v) => v,
            Err(e) => {
                return Err(e);
            },
        };
        let target_weight = match read_float(answers, "target_weight") {
            Ok(v) => v,
            Err(e) => {
                return Err(e);
            },
        };
        let has_experience = match read_bool(answers, "has_experience") {
            Ok(v) => v,
            Err(e) => {
                return Err(e);
            },
        };
        Ok(
            FitnessProfile {
                name,
                weight,
                height: height as u32,
                target_weight,
                has_experience,
            },
        )
    }

    proof fn lemma_round_trip(&self) {
        reveal_strlit("name");
        reveal_strlit("weight");
        reveal_strlit("height");
        reveal_strlit("target_weight");
        reveal_strlit("has_experience");
        assert("name"@.len() == 4);
        assert("weight"@.len() == 6);
        assert("height"@.len() == 6);
        assert("target_weight"@.len() == 13);
        assert("has_experience"@.len() == 14);
        assert("weight"@[0] != "height"@[0]);
        assert("name"@ != "weight"@);
        assert("name"@ != "height"@);
        assert("name"@ != "target_weight"@);
        assert("name"@ != "has_experience"@);
        assert("weight"@ != "height"@);
        assert("weight"@ != "target_weight"@);
        assert("weight"@ != "has_experience"@);
        assert("height"@ != "target_weight"@);
        assert("height"@ != "has_experience"@);
        assert("target_weight"@ != "has_experience"@);
    }
}

} // verus!
