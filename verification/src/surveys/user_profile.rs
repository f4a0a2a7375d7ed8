//! A user profile: the basic kinds of field.

use vstd::prelude::*;
use crate::answer::{Answers, AnswerValue, Value};
use crate::backend::{BackendError, BackendErrorModel};
use crate::interview::{Interview, SectionModel};
use crate::question::{Question, QuestionModel};
use crate::reconstruct::{bool_in, int_in, read_bool, read_int, read_text, text_in};
use crate::wizard::Wizard;

verus! {

/// A simple user profile survey.
#[derive(Debug)]
pub struct UserProfile {
    pub name: String,
    pub age: i64,
    pub email: String,
    pub bio: String,
    pub newsletter: bool,
}

/// What an UserProfile is, as mathematics.
pub ghost struct UserProfileModel {
    pub name: Seq<char>,
    pub age: i64,
    pub email: Seq<char>,
    pub bio: Seq<char>,
    pub newsletter: bool,
}

impl View for UserProfile {
    type V = UserProfileModel;

    open spec fn view(&self) -> UserProfileModel {
        UserProfileModel {
            name: self.name@,
            age: self.age,
            email: self.email@,
            bio: self.bio@,
            newsletter: self.newsletter,
        }
    }
}

impl Wizard for UserProfile {
    open spec fn tree() -> Seq<SectionModel> {
        seq![
            SectionModel::Sequence(
                seq![
                    QuestionModel::input("name"@, "What is your name?"@, None),
                    QuestionModel::integer("age"@, "How old are you?"@, Some(0), Some(150), None),
                    QuestionModel::input("email"@, "What is your email?"@, None),
                    QuestionModel::multiline("bio"@, "Tell us about yourself"@, None),
                    QuestionModel::confirm("newsletter"@, "Would you like to receive our newsletter?"@),
                ],
            ),
        ]
    }

    open spec fn spelled(&self) -> Map<Seq<char>, Value> {
        Map::empty()
            .insert("name"@, Value::Text(self.name@))
            .insert("age"@, Value::Int(self.age))
            .insert("email"@, Value::Text(self.email@))
            .insert("bio"@, Value::Text(self.bio@))
            .insert("newsletter"@, Value::Bool(self.newsletter))
    }

    open spec fn decoded(answers: Map<Seq<char>, Value>) -> Result<UserProfileModel, BackendErrorModel> {
        match text_in(answers, "name"@) {
            Err(e) => Err(e),
            Ok(name) => match int_in(answers, "age"@, i64::MIN as int, i64::MAX as int) {
                Err(e) => Err(e),
                Ok(age) => match text_in(answers, "email"@) {
                    Err(e) => Err(e),
                    Ok(email) => match text_in(answers, "bio"@) {
                        Err(e) => Err(e),
                        Ok(bio) => match bool_in(answers, "newsletter"@) {
                            Err(e) => Err(e),
                            Ok(newsletter) => Ok(
                                UserProfileModel {
                                    name,
                                    age: age as i64,
                                    email,
                                    bio,
                                    newsletter,
                                },
                            ),
                        },
                    },
                },
            },
        }
    }

    fn interview() -> (r: Interview) {
        let mut questions: Vec<Question> = Vec::new();
        questions.push(Question::input("name", "What is your name?", None));
        questions.push(Question::integer("age", "How old are you?", Some(0), Some(150), None));
        questions.push(Question::input("email", "What is your email?", None));
        questions.push(Question::multiline("bio", "Tell us about yourself", None));
        questions.push(Question::confirm("newsletter", "Would you like to receive our newsletter?"));
        let r = Interview::of_sequence(questions);
        assert(r@[0]->Sequence_0 =~= Self::tree()[0]->Sequence_0);
        assert(r@ =~= Self::tree());
        r
    }

    fn to_answers(&self) -> (r: Answers) {
        let mut r = Answers::new();
        r.insert("name".to_owned(), AnswerValue::String(self.name.clone()));
        r.insert("age".to_owned(), AnswerValue::Int(self.age));
        r.insert("email".to_owned(), AnswerValue::String(self.email.clone()));
        r.insert("bio".to_owned(), AnswerValue::String(self.bio.clone()));
        r.insert("newsletter".to_owned(), AnswerValue::Bool(self.newsletter));
        r
    }

    fn from_answers(answers: &Answers) -> (r: Result<Self, BackendError>) {
        let name = match read_text(answers, "name") {
            Ok(v) => v,
            Err(e) => {
                return Err(e);
            },
        };
        let age = match read_int(answers, "age", i64::MIN, i64::MAX) {
            Ok(v) => v,
            Err(e) => {
                return Err(e);
            },
        };
        let email = match read_text(answers, "email") {
            Ok(v) => v,
            Err(e) => {
                return Err(e);
            },
        };
        let bio = match read_text(answers, "bio") {
            Ok(v) => v,
            Err(e) => {
                return Err(e);
            },
        };
        let newsletter = match read_bool(answers, "newsletter") {
            Ok(v) => v,
            Err(e) => {
                return Err(e);
            },
        };
        Ok(
            UserProfile {
                name,
                age,
                email,
                bio,
                newsletter,
            },
        )
    }

    proof fn lemma_round_trip(&self) {
        reveal_strlit("name");
        reveal_strlit("age");
        reveal_strlit("email");
        reveal_strlit("bio");
        reveal_strlit("newsletter");
        assert("name"@.len() == 4);
        assert("age"@.len() == 3);
        assert("email"@.len() == 5);
        assert("bio"@.len() == 3);
        assert("newsletter"@.len() == 10);
        assert("age"@[0] != "bio"@[0]);
        assert("name"@ != "age"@);
        assert("name"@ != "email"@);
        assert("name"@ != "bio"@);
        assert("name"@ != "newsletter"@);
        assert("age"@ != "email"@);
        assert("age"@ != "bio"@);
        assert("age"@ != "newsletter"@);
        assert("email"@ != "bio"@);
        assert("email"@ != "newsletter"@);
        assert("bio"@ != "newsletter"@);
    }
}

} // verus!
