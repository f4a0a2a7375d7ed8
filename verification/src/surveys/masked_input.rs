//! A password and its confirmation, checked against each other.

use vstd::prelude::*;
use crate::answer::{Answers, AnswerValue, Value};
use crate::backend::{BackendError, BackendErrorModel};
use crate::interview::{Interview, SectionModel};
use crate::path::{dotted, ResponsePath};
use crate::question::{Question, QuestionModel};
use crate::reconstruct::{read_text, text_in};
use crate::text::str_eq;
use crate::validation::{objection_of, sibling};
use crate::wizard::Wizard;

verus! {

/// The text stored under `key`, or the empty text where none is.
pub open spec fn text_at(answers: Map<Seq<char>, Value>, key: Seq<char>) -> Seq<char> {
    if answers.contains_key(key) && answers[key] is Text {
        answers[key]->Text_0
    } else {
        Seq::empty()
    }
}

/// What is said of a password's confirmation: it is the password given in
/// the field `password` beside it.
pub open spec fn confirmation_objection(
    value: Value,
    answers: Map<Seq<char>, Value>,
    path: Seq<Seq<char>>,
) -> Option<Seq<char>> {
    match value {
        Value::Text(confirm) => if text_at(answers, dotted(sibling(path, "password"@)))
            != confirm {
            Some("Passwords do not match"@)
        } else {
            None
        },
        _ => None,
    }
}

/// Validates that the password confirmation matches the password
pub fn passwords_match(value: &AnswerValue, responses: &Answers, path: &ResponsePath) -> (r: Result<
    (),
    String,
>)
    ensures
        objection_of(r) == confirmation_objection(value@, responses@, path@),
{
    let password_confirm = match value {
        AnswerValue::String(s) => s,
        _ => {
            return Ok(());
        },
    };
    let key = path.parent().child("password").join();
    let password = match responses.as_string(key.as_str()) {
        Ok(p) => p,
        Err(_) => String::new(),
    };
    if !str_eq(password.as_str(), password_confirm.as_str()) {
        return Err("Passwords do not match".to_owned());
    }
    Ok(())
}

/// A password, given twice.
#[derive(Debug)]
pub struct Passwords {
    pub password: String,
    pub password_confirm: String,
}

/// What a Passwords is, as mathematics.
pub ghost struct PasswordsModel {
    pub password: Seq<char>,
    pub password_confirm: Seq<char>,
}

impl View for Passwords {
    type V = PasswordsModel;

    open spec fn view(&self) -> PasswordsModel {
        PasswordsModel {
            password: self.password@,
            password_confirm: self.password_confirm@,
        }
    }
}

impl Wizard for Passwords {
    open spec fn tree() -> Seq<SectionModel> {
        seq![
            SectionModel::Sequence(
                seq![
                    QuestionModel::masked("password"@, "Enter your password:"@, None),
                    QuestionModel::masked("password_confirm"@, "Confirm your password:"@, Some("passwords_match"@)),
                ],
            ),
        ]
    }

    open spec fn spelled(&self) -> Map<Seq<char>, Value> {
        Map::empty()
            .insert("password"@, Value::Text(self.password@))
            .insert("password_confirm"@, Value::Text(self.password_confirm@))
    }

    open spec fn decoded(answers: Map<Seq<char>, Value>) -> Result<PasswordsModel, BackendErrorModel> {
        match text_in(answers, "password"@) {
            Err(e) => Err(e),
            Ok(password) => match text_in(answers, "password_confirm"@) {
                Err(e) => Err(e),
                Ok(password_confirm) => Ok(
                    PasswordsModel {
                        password,
                        password_confirm,
                    },
                ),
            },
        }
    }

    fn interview() -> (r: Interview) {
        let mut questions: Vec<Question> = Vec::new();
        questions.push(Question::masked("password", "Enter your password:", None));
        questions.push(Question::masked("password_confirm", "Confirm your password:", Some("passwords_match")));
        let r = Interview::of_sequence(questions);
        assert(r@[0]->Sequence_0 =~= Self::tree()[0]->Sequence_0);
        assert(r@ =~= Self::tree());
        r
    }

    fn to_answers(&self) -> (r: Answers) {
        let mut r = Answers::new();
        r.insert("password".to_owned(), AnswerValue::String(self.password.clone()));
        r.insert("password_confirm".to_owned(), AnswerValue::String(self.password_confirm.clone()));
        r
    }

    fn from_answers(answers: &Answers) -> (r: Result<Self, BackendError>) {
        let password = match read_text(answers, "password") {
            Ok(v) => v,
            Err(e) => {
                return Err(e);
            },
        };
        let password_confirm = match read_text(answers, "password_confirm") {
            Ok(v) => v,
            Err(e) => {
                return Err(e);
            },
        };
        Ok(
            Passwords {
                password,
                password_confirm,
            },
        )
    }

    proof fn lemma_round_trip(&self) {
        reveal_strlit("password");
        reveal_strlit("password_confirm");
        assert("password"@.len() == 8);
        assert("password_confirm"@.len() == 16);
        assert("password"@ != "password_confirm"@);
    }
}

/// A login: the two passwords are asked in line, under the name of their field.
#[derive(Debug)]
pub struct Login {
    pub username: String,
    pub passwords: Passwords,
}

/// What a Login is, as mathematics.
pub ghost struct LoginModel {
    pub username: Seq<char>,
    pub passwords: PasswordsModel,
}

impl View for Login {
    type V = LoginModel;

    open spec fn view(&self) -> LoginModel {
        LoginModel {
            username: self.username@,
            passwords: self.passwords@,
        }
    }
}

impl Wizard for Login {
    open spec fn tree() -> Seq<SectionModel> {
        seq![
            SectionModel::Sequence(
                seq![
                    QuestionModel::input("username"@, "Enter your username:"@, None),
                    QuestionModel::masked("passwords.password"@, "Enter your password:"@, None),
                    QuestionModel::masked("passwords.password_confirm"@, "Confirm your password:"@, Some("passwords_match"@)),
                ],
            ),
        ]
    }

    open spec fn spelled(&self) -> Map<Seq<char>, Value> {
        Map::empty()
            .insert("username"@, Value::Text(self.username@))
            .insert("passwords.password"@, Value::Text(self.passwords.password@))
            .insert("passwords.password_confirm"@, Value::Text(self.passwords.password_confirm@))
    }

    open spec fn decoded(answers: Map<Seq<char>, Value>) -> Result<LoginModel, BackendErrorModel> {
        match text_in(answers, "username"@) {
            Err(e) => Err(e),
            Ok(username) => match text_in(answers, "passwords.password"@) {
                Err(e) => Err(e),
                Ok(passwords_password) => match text_in(answers, "passwords.password_confirm"@) {
                    Err(e) => Err(e),
                    Ok(passwords_password_confirm) => Ok(
                        LoginModel {
                            username,
                            passwords: PasswordsModel { password: passwords_password, password_confirm: passwords_password_confirm },
                        },
                    ),
                },
            },
        }
    }

    fn interview() -> (r: Interview) {
        let mut questions: Vec<Question> = Vec::new();
        questions.push(Question::input("username", "Enter your username:", None));
        questions.push(Question::masked("passwords.password", "Enter your password:", None));
        questions.push(Question::masked("passwords.password_confirm", "Confirm your password:", Some("passwords_match")));
        let r = Interview::of_sequence(questions);
        assert(r@[0]->Sequence_0 =~= Self::tree()[0]->Sequence_0);
        assert(r@ =~= Self::tree());
        r
    }

    fn to_answers(&self) -> (r: Answers) {
        let mut r = Answers::new();
        r.insert("username".to_owned(), AnswerValue::String(self.username.clone()));
        r.insert("passwords.password".to_owned(), AnswerValue::String(self.passwords.password.clone()));
        r.insert("passwords.password_confirm".to_owned(), AnswerValue::String(self.passwords.password_confirm.clone()));
        r
    }

    fn from_answers(answers: &Answers) -> (r: Result<Self, BackendError>) {
        let username = match read_text(answers, "username") {
            Ok(v) => v,
            Err(e) => {
                return Err(e);
            },
        };
        let passwords_password = match read_text(answers, "passwords.password") {
            Ok(v) => v,
            Err(e) => {
                return Err(e);
            },
        };
        let passwords_password_confirm = match read_text(answers, "passwords.password_confirm") {
            Ok(v) => v,
            Err(e) => {
                return Err(e);
            },
        };
        Ok(
            Login {
                username,
                passwords: Passwords { password: passwords_password, password_confirm: passwords_password_confirm },
            },
        )
    }

    proof fn lemma_round_trip(&self) {
        reveal_strlit("username");
        reveal_strlit("passwords.password");
        reveal_strlit("passwords.password_confirm");
        assert("username"@.len() == 8);
        assert("passwords.password"@.len() == 18);
        assert("passwords.password_confirm"@.len() == 26);
        assert("username"@ != "passwords.password"@);
        assert("username"@ != "passwords.password_confirm"@);
        assert("passwords.password"@ != "passwords.password_confirm"@);
    }
}

} // verus!
