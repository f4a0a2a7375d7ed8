//! A blog post, with texts of several lines.

use vstd::prelude::*;
use crate::answer::{Answers, AnswerValue, Value};
use crate::backend::{BackendError, BackendErrorModel};
use crate::interview::{Interview, SectionModel};
use crate::question::{Question, QuestionModel};
use crate::reconstruct::{read_text, text_in};
use crate::wizard::Wizard;

verus! {

/// A blog post: a title and two longer texts.
#[derive(Debug)]
pub struct BlogPost {
    pub title: String,
    pub content: String,
    pub notes: String,
}

/// What a BlogPost is, as mathematics.
pub ghost struct BlogPostModel {
    pub title: Seq<char>,
    pub content: Seq<char>,
    pub notes: Seq<char>,
}

impl View for BlogPost {
    type V = BlogPostModel;

    open spec fn view(&self) -> BlogPostModel {
        BlogPostModel {
            title: self.title@,
            content: self.content@,
            notes: self.notes@,
        }
    }
}

impl Wizard for BlogPost {
    open spec fn tree() -> Seq<SectionModel> {
        seq![
            SectionModel::Sequence(
                seq![
                    QuestionModel::input("title"@, "What is the title of your blog post?"@, None),
                    QuestionModel::multiline("content"@, "Write your blog post content:"@, None),
                    QuestionModel::multiline("notes"@, "Add any final notes or comments:"@, None),
                ],
            ),
        ]
    }

    open spec fn spelled(&self) -> Map<Seq<char>, Value> {
        Map::empty()
            .insert("title"@, Value::Text(self.title@))
            .insert("content"@, Value::Text(self.content@))
            .insert("notes"@, Value::Text(self.notes@))
    }

    open spec fn decoded(answers: Map<Seq<char>, Value>) -> Result<BlogPostModel, BackendErrorModel> {
        match text_in(answers, "title"@) {
            Err(e) => Err(e),
            Ok(title) => match text_in(answers, "content"@) {
                Err(e) => Err(e),
                Ok(content) => match text_in(answers, "notes"@) {
                    Err(e) => Err(e),
                    Ok(notes) => Ok(
                        BlogPostModel {
                            title,
                            content,
                            notes,
                        },
                    ),
                },
            },
        }
    }

    fn interview() -> (r: Interview) {
        let mut questions: Vec<Question> = Vec::new();
        questions.push(Question::input("title", "What is the title of your blog post?", None));
        questions.push(Question::multiline("content", "Write your blog post content:", None));
        questions.push(Question::multiline("notes", "Add any final notes or comments:", None));
        let r = Interview::of_sequence(questions);
        assert(r@[0]->Sequence_0 =~= Self::tree()[0]->Sequence_0);
        assert(r@ =~= Self::tree());
        r
    }

    fn to_answers(&self) -> (r: Answers) {
        let mut r = Answers::new();
        r.insert("title".to_owned(), AnswerValue::String(self.title.clone()));
        r.insert("content".to_owned(), AnswerValue::String(self.content.clone()));
        r.insert("notes".to_owned(), AnswerValue::String(self.notes.clone()));
        r
    }

    fn from_answers(answers: &Answers) -> (r: Result<Self, BackendError>) {
        let title = match read_text(answers, "title") {
            Ok(v) => v,
            Err(e) => {
                return Err(e);
            },
        };
        let content = match read_text(answers, "content") {
            Ok(v) => v,
            Err(e) => {
                return Err(e);
            },
        };
        let notes = match read_text(answers, "notes") {
            Ok(v) => v,
            Err(e) => {
                return Err(e);
            },
        };
        Ok(
            BlogPost {
                title,
                content,
                notes,
            },
        )
    }

    proof fn lemma_round_trip(&self) {
        reveal_strlit("title");
        reveal_strlit("content");
        reveal_strlit("notes");
        assert("title"@.len() == 5);
        assert("content"@.len() == 7);
        assert("notes"@.len() == 5);
        assert("title"@[0] != "notes"@[0]);
        assert("title"@ != "content"@);
        assert("title"@ != "notes"@);
        assert("content"@ != "notes"@);
    }
}

} // verus!
