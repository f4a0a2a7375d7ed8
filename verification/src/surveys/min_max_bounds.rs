//! Game settings: integers within bounds.

use vstd::prelude::*;
use crate::answer::{Answers, AnswerValue, Value};
use crate::backend::{BackendError, BackendErrorModel};
use crate::interview::{Interview, SectionModel};
use crate::question::{Question, QuestionModel};
use crate::reconstruct::{int_in, read_int};
use crate::wizard::Wizard;

verus! {

/// Game settings: each an integer within bounds.
#[derive(Debug)]
pub struct GameSettings {
    pub difficulty: u32,
    pub volume: u32,
    pub brightness: i32,
    pub sensitivity: u32,
}

/// What a GameSettings is, as mathematics.
pub ghost struct GameSettingsModel {
    pub difficulty: u32,
    pub volume: u32,
    pub brightness: i32,
    pub sensitivity: u32,
}

impl View for GameSettings {
    type V = GameSettingsModel;

    open spec fn view(&self) -> GameSettingsModel {
        GameSettingsModel {
            difficulty: self.difficulty,
            volume: self.volume,
            brightness: self.brightness,
            sensitivity: self.sensitivity,
        }
    }
}

impl Wizard for GameSettings {
    open spec fn tree() -> Seq<SectionModel> {
        seq![
            SectionModel::Sequence(
                seq![
                    QuestionModel::integer("difficulty"@, "Set the difficulty level (1-10):"@, Some(1), Some(10), None),
                    QuestionModel::integer("volume"@, "Set volume (0-100):"@, Some(0), Some(100), None),
                    QuestionModel::integer("brightness"@, "Set brightness (-50 to 50):"@, Some(-50i64), Some(50), None),
                    QuestionModel::integer("sensitivity"@, "Set mouse sensitivity (1 to 10):"@, Some(1), Some(10), None),
                ],
            ),
        ]
    }

    open spec fn spelled(&self) -> Map<Seq<char>, Value> {
        Map::empty()
            .insert("difficulty"@, Value::Int(self.difficulty as i64))
            .insert("volume"@, Value::Int(self.volume as i64))
            .insert("brightness"@, Value::Int(self.brightness as i64))
            .insert("sensitivity"@, Value::Int(self.sensitivity as i64))
    }

    open spec fn decoded(answers: Map<Seq<char>, Value>) -> Result<GameSettingsModel, BackendErrorModel> {
        match int_in(answers, "difficulty"@, 0, u32::MAX as int) {
            Err(e) => Err(e),
            Ok(difficulty) => match int_in(answers, "volume"@, 0, u32::MAX as int) {
                Err(e) => Err(e),
                Ok(volume) => match int_in(answers, "brightness"@, i32::MIN as int, i32::MAX as int) {
                    Err(e) => Err(e),
                    Ok(brightness) => match int_in(answers, "sensitivity"@, 0, u32::MAX as int) {
                        Err(e) => Err(e),
                        Ok(sensitivity) => Ok(
                            GameSettingsModel {
                                difficulty: difficulty as u32,
                                volume: volume as u32,
                                brightness: brightness as i32,
                                sensitivity: sensitivity as u32,
                            },
                        ),
                    },
                },
            },
        }
    }

    fn interview() -> (r: Interview) {
        let mut questions: Vec<Question> = Vec::new();
        questions.push(Question::integer("difficulty", "Set the difficulty level (1-10):", Some(1), Some(10), None));
        questions.push(Question::integer("volume", "Set volume (0-100):", Some(0), Some(100), None));
        questions.push(Question::integer("brightness", "Set brightness (-50 to 50):", Some(-50), Some(50), None));
        questions.push(Question::integer("sensitivity", "Set mouse sensitivity (1 to 10):", Some(1), Some(10), None));
        let r = Interview::of_sequence(questions);
        assert(r@[0]->Sequence_0 =~= Self::tree()[0]->Sequence_0);
        assert(r@ =~= Self::tree());
        r
    }

    fn to_answers(&self) -> (r: Answers) {
        let mut r = Answers::new();
        r.insert("difficulty".to_owned(), AnswerValue::Int(self.difficulty as i64));
        r.insert("volume".to_owned(), AnswerValue::Int(self.volume as i64));
        r.insert("brightness".to_owned(), AnswerValue::Int(self.brightness as i64));
        r.insert("sensitivity".to_owned(), AnswerValue::Int(self.sensitivity as i64));
        r
    }

    fn from_answers(answers: &Answers) -> (r: Result<Self, BackendError>) {
        let difficulty = match read_int(answers, "difficulty", 0, 0xffff_ffff) {
            Ok(v) => v,
            Err(e) => {
                return Err(e);
            },
        };
        let volume = match read_int(answers, "volume", 0, 0xffff_ffff) {
            Ok(v) => v,
            Err(e) => {
                return Err(e);
            },
        };
        let brightness = match read_int(answers, "brightness", -0x8000_0000, 0x7fff_ffff) {
            Ok(v) => v,
            Err(e) => {
                return Err(e);
            },
        };
        let sensitivity = match read_int(answers, "sensitivity", 0, 0xffff_ffff) {
            Ok(v) => v,
            Err(e) => {
                return Err(e);
            },
        };
        Ok(
            GameSettings {
                difficulty: difficulty as u32,
                volume: volume as u32,
                brightness: brightness as i32,
                sensitivity: sensitivity as u32,
            },
        )
    }

    proof fn lemma_round_trip(&self) {
        reveal_strlit("difficulty");
        reveal_strlit("volume");
        reveal_strlit("brightness");
        reveal_strlit("sensitivity");
        assert("difficulty"@.len() == 10);
        assert("volume"@.len() == 6);
        assert("brightness"@.len() == 10);
        assert("sensitivity"@.len() == 11);
        assert("difficulty"@[0] != "brightness"@[0]);
        assert("difficulty"@ != "volume"@);
        assert("difficulty"@ != "brightness"@);
        assert("difficulty"@ != "sensitivity"@);
        assert("volume"@ != "brightness"@);
        assert("volume"@ != "sensitivity"@);
        assert("brightness"@ != "sensitivity"@);
    }
}

} // verus!
