//! Lists of texts and of numbers.

use vstd::prelude::*;
use crate::answer::{Answers, AnswerValue, Value};
use crate::backend::{BackendError, BackendErrorModel};
use crate::interview::{Interview, SectionModel};
use crate::question::{ElementModel, ListElement, Question, QuestionModel};
use crate::reconstruct::{
    lemma_number_list_reads_back, lemma_text_list_reads_back, number_list, number_list_in,
    number_list_value, read_number_list, read_text, read_text_list, text_in, text_list,
    text_list_in, text_list_value, texts_view,
};
use crate::wizard::Wizard;

verus! {

/// A shopping list: items, and a quantity and a price for each.
#[derive(Debug)]
pub struct ShoppingList {
    pub items: Vec<String>,
    pub quantities: Vec<u32>,
    pub prices: Vec<u32>,
}

/// What a ShoppingList is, as mathematics.
pub ghost struct ShoppingListModel {
    pub items: Seq<Seq<char>>,
    pub quantities: Seq<u32>,
    pub prices: Seq<u32>,
}

impl View for ShoppingList {
    type V = ShoppingListModel;

    open spec fn view(&self) -> ShoppingListModel {
        ShoppingListModel {
            items: texts_view(self.items),
            quantities: self.quantities@,
            prices: self.prices@,
        }
    }
}

impl Wizard for ShoppingList {
    open spec fn tree() -> Seq<SectionModel> {
        seq![
            SectionModel::Sequence(
                seq![
                    QuestionModel::list("items"@, "Enter items to buy (one per entry):"@, ElementModel::Text, None, None, None),
                    QuestionModel::list("quantities"@, "Enter the quantity for each item:"@, ElementModel::Int, Some(1), Some(100), None),
                    QuestionModel::list("prices"@, "Enter the price for each item (in cents):"@, ElementModel::Int, Some(1), None, None),
                ],
            ),
        ]
    }

    open spec fn spelled(&self) -> Map<Seq<char>, Value> {
        Map::empty()
            .insert("items"@, text_list(texts_view(self.items)))
            .insert("quantities"@, number_list(self.quantities@))
            .insert("prices"@, number_list(self.prices@))
    }

    open spec fn decoded(answers: Map<Seq<char>, Value>) -> Result<ShoppingListModel, BackendErrorModel> {
        match text_list_in(answers, "items"@) {
            Err(e) => Err(e),
            Ok(items) => match number_list_in(answers, "quantities"@) {
                Err(e) => Err(e),
                Ok(quantities) => match number_list_in(answers, "prices"@) {
                    Err(e) => Err(e),
                    Ok(prices) => Ok(
                        ShoppingListModel {
                            items,
                            quantities,
                            prices,
                        },
                    ),
                },
            },
        }
    }

    fn interview() -> (r: Interview) {
        let mut questions: Vec<Question> = Vec::new();
        questions.push(Question::list("items", "Enter items to buy (one per entry):", ListElement::Text, None, None, None));
        questions.push(Question::list("quantities", "Enter the quantity for each item:", ListElement::Int, Some(1), Some(100), None));
        questions.push(Question::list("prices", "Enter the price for each item (in cents):", ListElement::Int, Some(1), None, None));
        let r = Interview::of_sequence(questions);
        assert(r@[0]->Sequence_0 =~= Self::tree()[0]->Sequence_0);
        assert(r@ =~= Self::tree());
        r
    }

    fn to_answers(&self) -> (r: Answers) {
        let mut r = Answers::new();
        r.insert("items".to_owned(), text_list_value(&self.items));
        r.insert("quantities".to_owned(), number_list_value(&self.quantities));
        r.insert("prices".to_owned(), number_list_value(&self.prices));
        r
    }

    fn from_answers(answers: &Answers) -> (r: Result<Self, BackendError>) {
        let items = match read_text_list(answers, "items") {
            Ok(v) => v,
            Err(e) => {
                return Err(e);
            },
        };
        let quantities = match read_number_list(answers, "quantities") {
            Ok(v) => v,
            Err(e) => {
                return Err(e);
            },
        };
        let prices = match read_number_list(answers, "prices") {
            Ok(v) => v,
            Err(e) => {
                return Err(e);
            },
        };
        Ok(
            ShoppingList {
                items,
                quantities,
                prices,
            },
        )
    }

    proof fn lemma_round_trip(&self) {
        reveal_strlit("items");
        reveal_strlit("quantities");
        reveal_strlit("prices");
        assert("items"@.len() == 5);
        assert("quantities"@.len() == 10);
        assert("prices"@.len() == 6);
        assert("items"@ != "quantities"@);
        assert("items"@ != "prices"@);
        assert("quantities"@ != "prices"@);
        lemma_text_list_reads_back(self.spelled(), "items"@, texts_view(self.items));
        lemma_number_list_reads_back(self.spelled(), "quantities"@, self.quantities@);
        lemma_number_list_reads_back(self.spelled(), "prices"@, self.prices@);
    }
}

/// The grades of a student.
#[derive(Debug)]
pub struct StudentGrades {
    pub name: String,
    pub scores: Vec<u32>,
    pub homework: Vec<u32>,
}

/// What a StudentGrades is, as mathematics.
pub ghost struct StudentGradesModel {
    pub name: Seq<char>,
    pub scores: Seq<u32>,
    pub homework: Seq<u32>,
}

impl View for StudentGrades {
    type V = StudentGradesModel;

    open spec fn view(&self) -> StudentGradesModel {
        StudentGradesModel {
            name: self.name@,
            scores: self.scores@,
            homework: self.homework@,
        }
    }
}

impl Wizard for StudentGrades {
    open spec fn tree() -> Seq<SectionModel> {
        seq![
            SectionModel::Sequence(
                seq![
                    QuestionModel::input("name"@, "Student name:"@, None),
                    QuestionModel::list("scores"@, "Enter test scores (0-100):"@, ElementModel::Int, Some(0), Some(100), None),
                    QuestionModel::list("homework"@, "Enter homework grades (0-100):"@, ElementModel::Int, Some(0), Some(100), None),
                ],
            ),
        ]
    }

    open spec fn spelled(&self) -> Map<Seq<char>, Value> {
        Map::empty()
            .insert("name"@, Value::Text(self.name@))
            .insert("scores"@, number_list(self.scores@))
            .insert("homework"@, number_list(self.homework@))
    }

    open spec fn decoded(answers: Map<Seq<char>, Value>) -> Result<StudentGradesModel, BackendErrorModel> {
        match text_in(answers, "name"@) {
            Err(e) => Err(e),
            Ok(name) => match number_list_in(answers, "scores"@) {
                Err(e) => Err(e),
                Ok(scores) => match number_list_in(answers, "homework"@) {
                    Err(e) => Err(e),
                    Ok(homework) => Ok(
                        StudentGradesModel {
                            name,
                            scores,
                            homework,
                        },
                    ),
                },
            },
        }
    }

    fn interview() -> (r: Interview) {
        let mut questions: Vec<Question> = Vec::new();
        questions.push(Question::input("name", "Student name:", None));
        questions.push(Question::list("scores", "Enter test scores (0-100):", ListElement::Int, Some(0), Some(100), None));
        questions.push(Question::list("homework", "Enter homework grades (0-100):", ListElement::Int, Some(0), Some(100), None));
        let r = Interview::of_sequence(questions);
        assert(r@[0]->Sequence_0 =~= Self::tree()[0]->Sequence_0);
        assert(r@ =~= Self::tree());
        r
    }

    fn to_answers(&self) -> (r: Answers) {
        let mut r = Answers::new();
        r.insert("name".to_owned(), AnswerValue::String(self.name.clone()));
        r.insert("scores".to_owned(), number_list_value(&self.scores));
        r.insert("homework".to_owned(), number_list_value(&self.homework));
        r
    }

    fn from_answers(answers: &Answers) -> (r: Result<Self, BackendError>) {
        let name = match read_text(answers, "name") {
            Ok(v) => v,
            Err(e) => {
                return Err(e);
            },
        };
        let scores = match read_number_list(answers, "scores") {
            Ok(v) => v,
            Err(e) => {
                return Err(e);
            },
        };
        let homework = match read_number_list(answers, "homework") {
            Ok(v) => v,
            Err(e) => {
                return Err(e);
            },
        };
        Ok(
            StudentGrades {
                name,
                scores,
                homework,
            },
        )
    }

    proof fn lemma_round_trip(&self) {
        reveal_strlit("name");
        reveal_strlit("scores");
        reveal_strlit("homework");
        assert("name"@.len() == 4);
        assert("scores"@.len() == 6);
        assert("homework"@.len() == 8);
        assert("name"@ != "scores"@);
        assert("name"@ != "homework"@);
        assert("scores"@ != "homework"@);
        lemma_number_list_reads_back(self.spelled(), "scores"@, self.scores@);
        lemma_number_list_reads_back(self.spelled(), "homework"@, self.homework@);
    }
}

} // verus!
