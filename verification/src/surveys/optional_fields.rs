//! Fields that may be skipped.

use vstd::prelude::*;
use crate::answer::{Answers, AnswerValue, Value};
use crate::backend::{BackendError, BackendErrorModel};
use crate::interview::{Interview, SectionModel};
use crate::question::{Question, QuestionModel, text_model};
use crate::reconstruct::{
    bool_in, optional_int_in, optional_path_in, optional_text_in, read_bool, read_optional_int,
    read_optional_path, read_optional_text, read_text, text_in, with_optional_int,
    with_optional_path, with_optional_text,
};
use crate::wizard::Wizard;

verus! {

/// A project: some fields may be skipped, and are then absent.
#[derive(Debug)]
pub struct ProjectConfig {
    pub name: String,
    pub description: Option<String>,
    /// A filesystem path, held as text.
    pub license_path: Option<String>,
    pub version: Option<String>,
    pub debug: bool,
    pub log_level: Option<u32>,
}

/// What a ProjectConfig is, as mathematics.
pub ghost struct ProjectConfigModel {
    pub name: Seq<char>,
    pub description: Option<Seq<char>>,
    pub license_path: Option<Seq<char>>,
    pub version: Option<Seq<char>>,
    pub debug: bool,
    pub log_level: Option<u32>,
}

impl View for ProjectConfig {
    type V = ProjectConfigModel;

    open spec fn view(&self) -> ProjectConfigModel {
        ProjectConfigModel {
            name: self.name@,
            description: text_model(self.description),
            license_path: text_model(self.license_path),
            version: text_model(self.version),
            debug: self.debug,
            log_level: self.log_level,
        }
    }
}

impl Wizard for ProjectConfig {
    open spec fn tree() -> Seq<SectionModel> {
        seq![
            SectionModel::Sequence(
                seq![
                    QuestionModel::input("name"@, "Project name:"@, None),
                    QuestionModel::input("description"@, "Project description (optional):"@, None).skippable(),
                    QuestionModel::input("license_path"@, "License file path (optional):"@, None).skippable(),
                    QuestionModel::input("version"@, "Initial version number (optional):"@, None).skippable(),
                    QuestionModel::confirm("debug"@, "Enable debug mode?"@),
                    QuestionModel::integer("log_level"@, "Log level (optional, 0-5):"@, Some(0), Some(5), None).skippable(),
                ],
            ),
        ]
    }

    open spec fn spelled(&self) -> Map<Seq<char>, Value> {
        let m = Map::empty().insert("name"@, Value::Text(self.name@));
        let m = with_optional_text(m, "description"@, text_model(self.description));
        let m = with_optional_path(m, "license_path"@, text_model(self.license_path));
        let m = with_optional_text(m, "version"@, text_model(self.version));
        let m = m.insert("debug"@, Value::Bool(self.debug));
        let m = with_optional_int(m, "log_level"@, match self.log_level { Some(v) => Some(v as i64), None => None });
        m
    }

    open spec fn decoded(answers: Map<Seq<char>, Value>) -> Result<ProjectConfigModel, BackendErrorModel> {
        match text_in(answers, "name"@) {
            Err(e) => Err(e),
            Ok(name) => match optional_text_in(answers, "description"@) {
                Err(e) => Err(e),
                Ok(description) => match optional_path_in(answers, "license_path"@) {
                    Err(e) => Err(e),
                    Ok(license_path) => match optional_text_in(answers, "version"@) {
                        Err(e) => Err(e),
                        Ok(version) => match bool_in(answers, "debug"@) {
                            Err(e) => Err(e),
                            Ok(debug) => match optional_int_in(answers, "log_level"@, 0, u32::MAX as int) {
                                Err(e) => Err(e),
                                Ok(log_level) => Ok(
                                    ProjectConfigModel {
                                        name,
                                        description,
                                        license_path,
                                        version,
                                        debug,
                                        log_level: match log_level {
                                            Some(v) => Some(v as u32),
                                            None => None,
                                        },
                                    },
                                ),
                            },
                        },
                    },
                },
            },
        }
    }

    fn interview() -> (r: Interview) {
        let mut questions: Vec<Question> = Vec::new();
        questions.push(Question::input("name", "Project name:", None));
        questions.push(Question::input("description", "Project description (optional):", None).skippable());
        questions.push(Question::input("license_path", "License file path (optional):", None).skippable());
        questions.push(Question::input("version", "Initial version number (optional):", None).skippable());
        questions.push(Question::confirm("debug", "Enable debug mode?"));
        questions.push(Question::integer("log_level", "Log level (optional, 0-5):", Some(0), Some(5), None).skippable());
        let r = Interview::of_sequence(questions);
        assert(r@[0]->Sequence_0 =~= Self::tree()[0]->Sequence_0);
        assert(r@ =~= Self::tree());
        r
    }

    fn to_answers(&self) -> (r: Answers) {
        let mut r = Answers::new();
        r.insert("name".to_owned(), AnswerValue::String(self.name.clone()));
        match &self.description {
            Some(v) => {
                r.insert("description".to_owned(), AnswerValue::String(v.clone()));
            },
            None => {},
        }
        match &self.license_path {
            Some(v) => {
                r.insert("license_path".to_owned(), AnswerValue::Path(v.clone()));
            },
            None => {},
        }
        match &self.version {
            Some(v) => {
                r.insert("version".to_owned(), AnswerValue::String(v.clone()));
            },
            None => {},
        }
        r.insert("debug".to_owned(), AnswerValue::Bool(self.debug));
        match self.log_level {
            Some(v) => {
                r.insert("log_level".to_owned(), AnswerValue::Int(v as i64));
            },
            None => {},
        }
        r
    }

    fn from_answers(answers: &Answers) -> (r: Result<Self, BackendError>) {
        let name = match read_text(answers, "name") {
            Ok(v) => v,
            Err(e) => {
                return Err(e);
            },
        };
        let description = match read_optional_text(answers, "description") {
            Ok(v) => v,
            Err(e) => {
                return Err(e);
            },
        };
        let license_path = match read_optional_path(answers, "license_path") {
            Ok(v) => v,
            Err(e) => {
                return Err(e);
            },
        };
        let version = match read_optional_text(answers, "version") {
            Ok(v) => v,
            Err(e) => {
                return Err(e);
            },
        };
        let debug = match read_bool(answers, "debug") {
            Ok(v) => v,
            Err(e) => {
                return Err(e);
            },
        };
        let log_level = match read_optional_int(answers, "log_level", 0, 0xffff_ffff) {
            Ok(v) => v,
            Err(e) => {
                return Err(e);
            },
        };
        Ok(
            ProjectConfig {
                name,
                description,
                license_path,
                version,
                debug,
                log_level: match log_level {
                    Some(v) => Some(v as u32),
                    None => None,
                },
            },
        )
    }

    proof fn lemma_round_trip(&self) {
        reveal_strlit("name");
        reveal_strlit("description");
        reveal_strlit("license_path");
        reveal_strlit("version");
        reveal_strlit("debug");
        reveal_strlit("log_level");
        assert("name"@.len() == 4);
        assert("description"@.len() == 11);
        assert("license_path"@.len() == 12);
        assert("version"@.len() == 7);
        assert("debug"@.len() == 5);
        assert("log_level"@.len() == 9);
        assert("name"@ != "description"@);
        assert("name"@ != "license_path"@);
        assert("name"@ != "version"@);
        assert("name"@ != "debug"@);
        assert("name"@ != "log_level"@);
        assert("description"@ != "license_path"@);
        assert("description"@ != "version"@);
        assert("description"@ != "debug"@);
        assert("description"@ != "log_level"@);
        assert("license_path"@ != "version"@);
        assert("license_path"@ != "debug"@);
        assert("license_path"@ != "log_level"@);
        assert("version"@ != "debug"@);
        assert("version"@ != "log_level"@);
        assert("debug"@ != "log_level"@);
    }
}

} // verus!
