//! Application settings: values that are suggested, assumed or edited.

use vstd::prelude::*;
use crate::answer::{Answers, AnswerValue, Value};
use crate::backend::{BackendError, BackendErrorModel};
use crate::interview::{Interview, SectionModel};
use crate::question::{Question, QuestionModel};
use crate::reconstruct::{bool_in, int_in, read_bool, read_int, read_text, text_in};
use crate::wizard::Wizard;

verus! {

/// Application settings with suggested defaults.
#[derive(Debug)]
pub struct AppSettings {
    pub app_name: String,
    pub port: i64,
    pub max_connections: i64,
    pub timeout: i64,
    pub debug_mode: bool,
    pub log_path: String,
}

/// What an AppSettings is, as mathematics.
pub ghost struct AppSettingsModel {
    pub app_name: Seq<char>,
    pub port: i64,
    pub max_connections: i64,
    pub timeout: i64,
    pub debug_mode: bool,
    pub log_path: Seq<char>,
}

impl View for AppSettings {
    type V = AppSettingsModel;

    open spec fn view(&self) -> AppSettingsModel {
        AppSettingsModel {
            app_name: self.app_name@,
            port: self.port,
            max_connections: self.max_connections,
            timeout: self.timeout,
            debug_mode: self.debug_mode,
            log_path: self.log_path@,
        }
    }
}

impl Wizard for AppSettings {
    open spec fn tree() -> Seq<SectionModel> {
        seq![
            SectionModel::Sequence(
                seq![
                    QuestionModel::input("app_name"@, "Application name:"@, None),
                    QuestionModel::integer("port"@, "Port number:"@, Some(1024), Some(65535), None),
                    QuestionModel::integer("max_connections"@, "Max connections:"@, Some(1), Some(10000), None),
                    QuestionModel::integer("timeout"@, "Timeout in seconds:"@, Some(1), Some(300), None),
                    QuestionModel::confirm("debug_mode"@, "Enable debug mode:"@),
                    QuestionModel::input("log_path"@, "Log file path:"@, None),
                ],
            ),
        ]
    }

    open spec fn spelled(&self) -> Map<Seq<char>, Value> {
        Map::empty()
            .insert("app_name"@, Value::Text(self.app_name@))
            .insert("port"@, Value::Int(self.port))
            .insert("max_connections"@, Value::Int(self.max_connections))
            .insert("timeout"@, Value::Int(self.timeout))
            .insert("debug_mode"@, Value::Bool(self.debug_mode))
            .insert("log_path"@, Value::Text(self.log_path@))
    }

    open spec fn decoded(answers: Map<Seq<char>, Value>) -> Result<AppSettingsModel, BackendErrorModel> {
        match text_in(answers, "app_name"@) {
            Err(e) => Err(e),
            Ok(app_name) => match int_in(answers, "port"@, i64::MIN as int, i64::MAX as int) {
                Err(e) => Err(e),
                Ok(port) => match int_in(answers, "max_connections"@, i64::MIN as int, i64::MAX as int) {
                    Err(e) => Err(e),
                    Ok(max_connections) => match int_in(answers, "timeout"@, i64::MIN as int, i64::MAX as int) {
                        Err(e) => Err(e),
                        Ok(timeout) => match bool_in(answers, "debug_mode"@) {
                            Err(e) => Err(e),
                            Ok(debug_mode) => match text_in(answers, "log_path"@) {
                                Err(e) => Err(e),
                                Ok(log_path) => Ok(
                                    AppSettingsModel {
                                        app_name,
                                        port: port as i64,
                                        max_connections: max_connections as i64,
                                        timeout: timeout as i64,
                                        debug_mode,
                                        log_path,
                                    },
                                ),
                            },
                        },
                    },
                },
            },
        }
    }

    fn interview() -> (r: Interview) {
        let mut questions: Vec<Question> = Vec::new();
        questions.push(Question::input("app_name", "Application name:", None));
        questions.push(Question::integer("port", "Port number:", Some(1024), Some(65535), None));
        questions.push(Question::integer("max_connections", "Max connections:", Some(1), Some(10000), None));
        questions.push(Question::integer("timeout", "Timeout in seconds:", Some(1), Some(300), None));
        questions.push(Question::confirm("debug_mode", "Enable debug mode:"));
        questions.push(Question::input("log_path", "Log file path:", None));
        let r = Interview::of_sequence(questions);
        assert(r@[0]->Sequence_0 =~= Self::tree()[0]->Sequence_0);
        assert(r@ =~= Self::tree());
        r
    }

    fn to_answers(&self) -> (r: Answers) {
        let mut r = Answers::new();
        r.insert("app_name".to_owned(), AnswerValue::String(self.app_name.clone()));
        r.insert("port".to_owned(), AnswerValue::Int(self.port));
        r.insert("max_connections".to_owned(), AnswerValue::Int(self.max_connections));
        r.insert("timeout".to_owned(), AnswerValue::Int(self.timeout));
        r.insert("debug_mode".to_owned(), AnswerValue::Bool(self.debug_mode));
        r.insert("log_path".to_owned(), AnswerValue::String(self.log_path.clone()));
        r
    }

    fn from_answers(answers: &Answers) -> (r: Result<Self, BackendError>) {
        let app_name = match read_text(answers, "app_name") {
            Ok(v) => v,
            Err(e) => {
                return Err(e);
            },
        };
        let port = match read_int(answers, "port", i64::MIN, i64::MAX) {
            Ok(v) => v,
            Err(e) => {
                return Err(e);
            },
        };
        let max_connections = match read_int(answers, "max_connections", i64::MIN, i64::MAX) {
            Ok(v) => v,
            Err(e) => {
                return Err(e);
            },
        };
        let timeout = match read_int(answers, "timeout", i64::MIN, i64::MAX) {
            Ok(v) => v,
            Err(e) => {
                return Err(e);
            },
        };
        let debug_mode = match read_bool(answers, "debug_mode") {
            Ok(v) => v,
            Err(e) => {
                return Err(e);
            },
        };
        let log_path = match read_text(answers, "log_path") {
            Ok(v) => v,
            Err(e) => {
                return Err(e);
            },
        };
        Ok(
            AppSettings {
                app_name,
                port,
                max_connections,
                timeout,
                debug_mode,
                log_path,
            },
        )
    }

    proof fn lemma_round_trip(&self) {
        reveal_strlit("app_name");
        reveal_strlit("port");
        reveal_strlit("max_connections");
        reveal_strlit("timeout");
        reveal_strlit("debug_mode");
        reveal_strlit("log_path");
        assert("app_name"@.len() == 8);
        assert("port"@.len() == 4);
        assert("max_connections"@.len() == 15);
        assert("timeout"@.len() == 7);
        assert("debug_mode"@.len() == 10);
        assert("log_path"@.len() == 8);
        assert("app_name"@[0] != "log_path"@[0]);
        assert("app_name"@ != "port"@);
        assert("app_name"@ != "max_connections"@);
        assert("app_name"@ != "timeout"@);
        assert("app_name"@ != "debug_mode"@);
        assert("app_name"@ != "log_path"@);
        assert("port"@ != "max_connections"@);
        assert("port"@ != "timeout"@);
        assert("port"@ != "debug_mode"@);
        assert("port"@ != "log_path"@);
        assert("max_connections"@ != "timeout"@);
        assert("max_connections"@ != "debug_mode"@);
        assert("max_connections"@ != "log_path"@);
        assert("timeout"@ != "debug_mode"@);
        assert("timeout"@ != "log_path"@);
        assert("debug_mode"@ != "log_path"@);
    }
}

} // verus!
