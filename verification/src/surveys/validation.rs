//! Validators for an account: user name, e-mail address and password.

use vstd::prelude::*;
use crate::answer::{Answers, AnswerValue, Value};
use crate::backend::{BackendError, BackendErrorModel};
use crate::interview::{Interview, SectionModel};
use crate::path::ResponsePath;
use crate::question::{Question, QuestionModel};
use crate::reconstruct::{int_in, read_int, read_text, text_in};
use crate::text::{
    all_word_chars, any_digit, any_upper, byte_len, byte_length, contains_char, is_alphanumeric,
    is_digit, is_upper,
};
use crate::validation::objection_of;
use crate::wizard::Wizard;

verus! {

/// What is said of an e-mail address: it holds an `@` and a dot.
pub open spec fn email_objection(value: Value) -> Option<Seq<char>> {
    match value {
        Value::Text(email) => if !email.contains('@') {
            Some("Email must contain '@' symbol"@)
        } else if !email.contains('.') {
            Some("Email must contain a domain"@)
        } else {
            None
        },
        _ => None,
    }
}

/// What is said of a password: at least 8 bytes, a digit and a capital.
pub open spec fn password_objection(value: Value) -> Option<Seq<char>> {
    match value {
        Value::Text(password) => if byte_length(password) < 8 {
            Some("Password must be at least 8 characters"@)
        } else if !(exists|i: int| 0 <= i < password.len() && is_digit(#[trigger] password[i])) {
            Some("Password must contain at least one number"@)
        } else if !(exists|i: int| 0 <= i < password.len() && is_upper(#[trigger] password[i])) {
            Some("Password must contain at least one uppercase letter"@)
        } else {
            None
        },
        _ => None,
    }
}

/// What is said of a user name: at least 3 bytes, and only letters, digits
/// and underscores.
pub open spec fn username_objection(value: Value) -> Option<Seq<char>> {
    match value {
        Value::Text(username) => if byte_length(username) < 3 {
            Some("Username must be at least 3 characters"@)
        } else if !(forall|i: int|
            0 <= i < username.len() ==> is_alphanumeric(#[trigger] username[i]) || username[i]
                == '_') {
            Some("Username can only contain letters, numbers, and underscores"@)
        } else {
            None
        },
        _ => None,
    }
}

pub fn validate_email(value: &AnswerValue, _responses: &Answers, _path: &ResponsePath) -> (r: Result<
    (),
    String,
>)
    ensures
        objection_of(r) == email_objection(value@),
{
    let email = match value {
        AnswerValue::String(email) => email,
        _ => {
            return Ok(());
        },
    };
    if !contains_char(email.as_str(), '@') {
        return Err("Email must contain '@' symbol".to_owned());
    }
    if !contains_char(email.as_str(), '.') {
        return Err("Email must contain a domain".to_owned());
    }
    Ok(())
}

pub fn validate_password(value: &AnswerValue, _responses: &Answers, _path: &ResponsePath) -> (r:
    Result<(), String>)
    ensures
        objection_of(r) == password_objection(value@),
{
    let password = match value {
        AnswerValue::String(password) => password,
        _ => {
            return Ok(());
        },
    };
    if byte_len(password.as_str()) < 8 {
        return Err("Password must be at least 8 characters".to_owned());
    }
    if !any_digit(password.as_str()) {
        return Err("Password must contain at least one number".to_owned());
    }
    if !any_upper(password.as_str()) {
        return Err("Password must contain at least one uppercase letter".to_owned());
    }
    Ok(())
}

pub fn validate_username(value: &AnswerValue, _responses: &Answers, _path: &ResponsePath) -> (r:
    Result<(), String>)
    ensures
        objection_of(r) == username_objection(value@),
{
    let username = match value {
        AnswerValue::String(username) => username,
        _ => {
            return Ok(());
        },
    };
    if byte_len(username.as_str()) < 3 {
        return Err("Username must be at least 3 characters".to_owned());
    }
    if !all_word_chars(username.as_str()) {
        return Err("Username can only contain letters, numbers, and underscores".to_owned());
    }
    Ok(())
}

/// A new account: each field with a validator or bounds of its own.
#[derive(Debug)]
pub struct AccountCreation {
    pub username: String,
    pub email: String,
    pub password: String,
    pub age: u32,
}

/// What an AccountCreation is, as mathematics.
pub ghost struct AccountCreationModel {
    pub username: Seq<char>,
    pub email: Seq<char>,
    pub password: Seq<char>,
    pub age: u32,
}

impl View for AccountCreation {
    type V = AccountCreationModel;

    open spec fn view(&self) -> AccountCreationModel {
        AccountCreationModel {
            username: self.username@,
            email: self.email@,
            password: self.password@,
            age: self.age,
        }
    }
}

impl Wizard for AccountCreation {
    open spec fn tree() -> Seq<SectionModel> {
        seq![
            SectionModel::Sequence(
                seq![
                    QuestionModel::input("username"@, "Choose a username:"@, Some("validate_username"@)),
                    QuestionModel::input("email"@, "Enter your email:"@, Some("validate_email"@)),
                    QuestionModel::masked("password"@, "Create a password:"@, Some("validate_password"@)),
                    QuestionModel::integer("age"@, "Your age:"@, Some(13), Some(120), None),
                ],
            ),
        ]
    }

    open spec fn spelled(&self) -> Map<Seq<char>, Value> {
        Map::empty()
            .insert("username"@, Value::Text(self.username@))
            .insert("email"@, Value::Text(self.email@))
            .insert("password"@, Value::Text(self.password@))
            .insert("age"@, Value::Int(self.age as i64))
    }

    open spec fn decoded(answers: Map<Seq<char>, Value>) -> Result<AccountCreationModel, BackendErrorModel> {
        match text_in(answers, "username"@) {
            Err(e) => Err(e),
            Ok(username) => match text_in(answers, "email"@) {
                Err(e) => Err(e),
                Ok(email) => match text_in(answers, "password"@) {
                    Err(e) => Err(e),
                    Ok(password) => match int_in(answers, "age"@, 0, u32::MAX as int) {
                        Err(e) => Err(e),
                        Ok(age) => Ok(
                            AccountCreationModel {
                                username,
                                email,
                                password,
                                age: age as u32,
                            },
                        ),
                    },
                },
            },
        }
    }

    fn interview() -> (r: Interview) {
        let mut questions: Vec<Question> = Vec::new();
        questions.push(Question::input("username", "Choose a username:", Some("validate_username")));
        questions.push(Question::input("email", "Enter your email:", Some("validate_email")));
        questions.push(Question::masked("password", "Create a password:", Some("validate_password")));
        questions.push(Question::integer("age", "Your age:", Some(13), Some(120), None));
        let r = Interview::of_sequence(questions);
        assert(r@[0]->Sequence_0 =~= Self::tree()[0]->Sequence_0);
        assert(r@ =~= Self::tree());
        r
    }

    fn to_answers(&self) -> (r: Answers) {
        let mut r = Answers::new();
        r.insert("username".to_owned(), AnswerValue::String(self.username.clone()));
        r.insert("email".to_owned(), AnswerValue::String(self.email.clone()));
        r.insert("password".to_owned(), AnswerValue::String(self.password.clone()));
        r.insert("age".to_owned(), AnswerValue::Int(self.age as i64));
        r
    }

    fn from_answers(answers: &Answers) -> (r: Result<Self, BackendError>) {
        let username = match read_text(answers, "username") {
            Ok(v) => v,
            Err(e) => {
                return Err(e);
            },
        };
        let email = match read_text(answers, "email") {
            Ok(v) => v,
            Err(e) => {
                return Err(e);
            },
        };
        let password = match read_text(answers, "password") {
            Ok(v) => v,
            Err(e) => {
                return Err(e);
            },
        };
        let age = match read_int(answers, "age", 0, 0xffff_ffff) {
            Ok(v) => v,
            Err(e) => {
                return Err(e);
            },
        };
        Ok(
            AccountCreation {
                username,
                email,
                password,
                age: age as u32,
            },
        )
    }

    proof fn lemma_round_trip(&self) {
        reveal_strlit("username");
        reveal_strlit("email");
        reveal_strlit("password");
        reveal_strlit("age");
        assert("username"@.len() == 8);
        assert("email"@.len() == 5);
        assert("password"@.len() == 8);
        assert("age"@.len() == 3);
        assert("username"@[0] != "password"@[0]);
        assert("username"@ != "email"@);
        assert("username"@ != "password"@);
        assert("username"@ != "age"@);
        assert("email"@ != "password"@);
        assert("email"@ != "age"@);
        assert("password"@ != "age"@);
    }
}

} // verus!
