//! A developer's profile: selections of several variants at once, some of
//! which carry answers of their own.

use vstd::prelude::*;
use crate::answer::{AnswerValue, Answers, Value};
use crate::backend::{BackendError, BackendErrorModel};
use crate::interview::{Alternative, AlternativeModel, Interview, SectionModel};
use crate::question::{ElementModel, ListElement, Question, QuestionModel};
use crate::reconstruct::{bool_in, int_in, lemma_scoped_apart, read_bool, read_int, read_text, text_in};
use crate::selection::{
    can_be_selected, chosen_from, chosen_onto, improper, lemma_choice_reads_back, lemma_read_each, lemma_read_length, lemma_selection_leaves, lemma_selection_reads_back,
    lemma_selection_reads_same, read_selection, same_from, selectable_together, selected_in, selected_onto,
    views, read_choice, write_choice, write_selection, Selectable,
};
use crate::text::{scoped, scoped_key, str_eq};
use crate::SELECTED_ALTERNATIVE_KEY;
use crate::wizard::{finished, Wizard};

verus! {

/// A programming language that a developer knows.
#[derive(Debug)]
pub enum ProgrammingLanguage {
    Rust,
    Python,
    JavaScript,
    Go,
    Cpp,
    Java,
    Other(String),
}

/// What a ProgrammingLanguage is, as mathematics.
pub ghost enum ProgrammingLanguageModel {
    Rust,
    Python,
    JavaScript,
    Go,
    Cpp,
    Java,
    Other(Seq<char>),
}

impl View for ProgrammingLanguage {
    type V = ProgrammingLanguageModel;

    open spec fn view(&self) -> ProgrammingLanguageModel {
        match self {
            ProgrammingLanguage::Rust => ProgrammingLanguageModel::Rust,
            ProgrammingLanguage::Python => ProgrammingLanguageModel::Python,
            ProgrammingLanguage::JavaScript => ProgrammingLanguageModel::JavaScript,
            ProgrammingLanguage::Go => ProgrammingLanguageModel::Go,
            ProgrammingLanguage::Cpp => ProgrammingLanguageModel::Cpp,
            ProgrammingLanguage::Java => ProgrammingLanguageModel::Java,
            ProgrammingLanguage::Other(text) => ProgrammingLanguageModel::Other(text@),
        }
    }
}

impl ProgrammingLanguage {
    /// What the variants are called where they are offered, in their order.
    pub open spec fn labels() -> Seq<Seq<char>> {
        seq![
            "Rust"@,
            "Python"@,
            "JavaScript"@,
            "Go"@,
            "C++"@,
            "Java"@,
            "Other language"@,
        ]
    }

    /// What the variants are called where they are offered, in their order.
    pub fn options() -> (r: Vec<String>)
        ensures
            Seq::new(r@.len(), |i: int| r@[i]@) == Self::labels(),
    {
        let mut r: Vec<String> = Vec::new();
        r.push("Rust".to_owned());
        r.push("Python".to_owned());
        r.push("JavaScript".to_owned());
        r.push("Go".to_owned());
        r.push("C++".to_owned());
        r.push("Java".to_owned());
        r.push("Other language".to_owned());
        assert(Seq::new(r@.len(), |i: int| r@[i]@) =~= Self::labels());
        r
    }
}

impl Selectable for ProgrammingLanguage {
    open spec fn count() -> usize {
        7
    }

    open spec fn position(&self) -> usize {
        match self {
            ProgrammingLanguage::Rust => 0,
            ProgrammingLanguage::Python => 1,
            ProgrammingLanguage::JavaScript => 2,
            ProgrammingLanguage::Go => 3,
            ProgrammingLanguage::Cpp => 4,
            ProgrammingLanguage::Java => 5,
            ProgrammingLanguage::Other(_) => 6,
        }
    }

    open spec fn carried_onto(&self, base: Map<Seq<char>, Value>, scope: Seq<char>) -> Map<
        Seq<char>,
        Value,
    > {
        match self {
            ProgrammingLanguage::Other(text) => base.insert(
                scoped(scope, "Other field 0"@),
                Value::Text(text@),
            ),
            _ => base,
        }
    }

    open spec fn carried_at(answers: Map<Seq<char>, Value>, scope: Seq<char>, position: usize) -> Result<
        ProgrammingLanguageModel,
        BackendErrorModel,
    > {
        if position == 0 {
            Ok(ProgrammingLanguageModel::Rust)
        } else if position == 1 {
            Ok(ProgrammingLanguageModel::Python)
        } else if position == 2 {
            Ok(ProgrammingLanguageModel::JavaScript)
        } else if position == 3 {
            Ok(ProgrammingLanguageModel::Go)
        } else if position == 4 {
            Ok(ProgrammingLanguageModel::Cpp)
        } else if position == 5 {
            Ok(ProgrammingLanguageModel::Java)
        } else if position == 6 {
            match text_in(answers, scoped(scope, "Other field 0"@)) {
                Err(e) => Err(e),
                Ok(text) => Ok(ProgrammingLanguageModel::Other(text)),
            }
        } else {
            Err(improper(scope))
        }
    }

    open spec fn name_at(position: usize) -> Seq<char> {
        if position == 0 {
            "Rust"@
        } else if position == 1 {
            "Python"@
        } else if position == 2 {
            "JavaScript"@
        } else if position == 3 {
            "Go"@
        } else if position == 4 {
            "Cpp"@
        } else if position == 5 {
            "Java"@
        } else if position == 6 {
            "Other"@
        } else {
            Seq::empty()
        }
    }

    open spec fn position_named(name: Seq<char>) -> Option<usize> {
        if name == "Rust"@ {
            Some(0)
        } else if name == "Python"@ {
            Some(1)
        } else if name == "JavaScript"@ {
            Some(2)
        } else if name == "Go"@ {
            Some(3)
        } else if name == "Cpp"@ {
            Some(4)
        } else if name == "Java"@ {
            Some(5)
        } else if name == "Other"@ {
            Some(6)
        } else {
            None
        }
    }

    open spec fn called() -> Seq<char> {
        "ProgrammingLanguage"@
    }

    fn name(&self) -> (r: &'static str) {
        match self {
            ProgrammingLanguage::Rust => "Rust",
            ProgrammingLanguage::Python => "Python",
            ProgrammingLanguage::JavaScript => "JavaScript",
            ProgrammingLanguage::Go => "Go",
            ProgrammingLanguage::Cpp => "Cpp",
            ProgrammingLanguage::Java => "Java",
            ProgrammingLanguage::Other(_) => "Other",
        }
    }

    fn named(name: &str) -> (r: Option<usize>) {
        if str_eq(name, "Rust") {
            Some(0)
        } else if str_eq(name, "Python") {
            Some(1)
        } else if str_eq(name, "JavaScript") {
            Some(2)
        } else if str_eq(name, "Go") {
            Some(3)
        } else if str_eq(name, "Cpp") {
            Some(4)
        } else if str_eq(name, "Java") {
            Some(5)
        } else if str_eq(name, "Other") {
            Some(6)
        } else {
            None
        }
    }

    fn known_as() -> (r: &'static str) {
        "ProgrammingLanguage"
    }

    fn index(&self) -> (r: usize) {
        match self {
            ProgrammingLanguage::Rust => 0,
            ProgrammingLanguage::Python => 1,
            ProgrammingLanguage::JavaScript => 2,
            ProgrammingLanguage::Go => 3,
            ProgrammingLanguage::Cpp => 4,
            ProgrammingLanguage::Java => 5,
            ProgrammingLanguage::Other(_) => 6,
        }
    }

    fn known(position: usize) -> (r: bool) {
        position < 7
    }

    fn write_in(&self, answers: &mut Answers, scope: &str) {
        match self {
            ProgrammingLanguage::Other(text) => {
                answers.insert(scoped_key(scope, "Other field 0"), AnswerValue::String(text.clone()));
            },
            _ => {},
        }
    }

    fn read_at(answers: &Answers, scope: &str, position: usize) -> (r: Result<Self, BackendError>) {
        if position == 0 {
            Ok(ProgrammingLanguage::Rust)
        } else if position == 1 {
            Ok(ProgrammingLanguage::Python)
        } else if position == 2 {
            Ok(ProgrammingLanguage::JavaScript)
        } else if position == 3 {
            Ok(ProgrammingLanguage::Go)
        } else if position == 4 {
            Ok(ProgrammingLanguage::Cpp)
        } else if position == 5 {
            Ok(ProgrammingLanguage::Java)
        } else {
            match read_text(answers, scoped_key(scope, "Other field 0").as_str()) {
                Ok(text) => Ok(ProgrammingLanguage::Other(text)),
                Err(e) => Err(e),
            }
        }
    }

    proof fn lemma_position_known(&self) {
    }

    proof fn lemma_reads_back(&self, base: Map<Seq<char>, Value>, scope: Seq<char>) {
    }

    proof fn lemma_others_stay(&self, base: Map<Seq<char>, Value>, scope: Seq<char>, position: usize) {
    }

    proof fn lemma_writes_in_scope(&self, base: Map<Seq<char>, Value>, scope: Seq<char>, key: Seq<char>) {
        assert(key != scoped(scope, "Other field 0"@));
    }

    proof fn lemma_found_by_name(&self) {
        reveal_strlit("Rust");
        reveal_strlit("Python");
        reveal_strlit("JavaScript");
        reveal_strlit("Go");
        reveal_strlit("Cpp");
        reveal_strlit("Java");
        reveal_strlit("Other");
        assert("Rust"@.len() == 4);
        assert("Python"@.len() == 6);
        assert("JavaScript"@.len() == 10);
        assert("Go"@.len() == 2);
        assert("Cpp"@.len() == 3);
        assert("Java"@.len() == 4);
        assert("Other"@.len() == 5);
        assert("Rust"@[0] != "Java"@[0]);
    }

    proof fn lemma_reads_beside_choice(
        base: Map<Seq<char>, Value>,
        scope: Seq<char>,
        position: usize,
        chosen: Value,
    ) {
        reveal_strlit("selected_alternative");
        assert(SELECTED_ALTERNATIVE_KEY@.len() == 20);
        reveal_strlit("Other field 0");
        assert("Other field 0"@.len() == 13);
        lemma_scoped_apart(scope, "Other field 0"@, SELECTED_ALTERNATIVE_KEY@);
    }

    proof fn lemma_reads_in_scope(
        a: Map<Seq<char>, Value>,
        b: Map<Seq<char>, Value>,
        scope: Seq<char>,
        position: usize,
    ) {
        let key = scoped(scope, "Other field 0"@);
        assert(a.contains_key(key) == b.contains_key(key) && a[key] == b[key]);
    }
}

impl ProgrammingLanguage {
    /// The branches of the choice of one variant.
    pub open spec fn branches() -> Seq<AlternativeModel> {
        seq![
            AlternativeModel { name: "Rust"@, section: SectionModel::Empty },
            AlternativeModel { name: "Python"@, section: SectionModel::Empty },
            AlternativeModel { name: "JavaScript"@, section: SectionModel::Empty },
            AlternativeModel { name: "Go"@, section: SectionModel::Empty },
            AlternativeModel { name: "Cpp"@, section: SectionModel::Empty },
            AlternativeModel { name: "Java"@, section: SectionModel::Empty },
            AlternativeModel {
                name: "Other"@,
                section: SectionModel::Sequence(
                    seq![
                        QuestionModel::input("Other field 0"@, "Which language?"@, None),
                    ],
                ),
            },
        ]
    }
}

impl Wizard for ProgrammingLanguage {
    open spec fn tree() -> Seq<SectionModel> {
        seq![SectionModel::Alternatives(0, Self::branches())]
    }

    open spec fn spelled(&self) -> Map<Seq<char>, Value> {
        chosen_onto(*self, Map::empty(), Seq::empty())
    }

    open spec fn decoded(answers: Map<Seq<char>, Value>) -> Result<ProgrammingLanguageModel, BackendErrorModel> {
        chosen_from::<ProgrammingLanguage>(answers, Seq::empty())
    }

    fn interview() -> (r: Interview) {
        let mut alternatives: Vec<Alternative> = Vec::new();
        alternatives.push(Alternative::unit("Rust"));
        alternatives.push(Alternative::unit("Python"));
        alternatives.push(Alternative::unit("JavaScript"));
        alternatives.push(Alternative::unit("Go"));
        alternatives.push(Alternative::unit("Cpp"));
        alternatives.push(Alternative::unit("Java"));
        let mut fields_of_other: Vec<Question> = Vec::new();
        fields_of_other.push(Question::input("Other field 0", "Which language?", None));
        let branch = Alternative::with_fields("Other", fields_of_other);
        assert(branch@.section->Sequence_0 =~= Self::branches()[6].section->Sequence_0);
        alternatives.push(branch);
        let r = Interview::of_alternatives(0, alternatives);
        assert(r@[0]->Alternatives_1 =~= Self::branches());
        assert(r@ =~= Self::tree());
        r
    }

    fn to_answers(&self) -> (r: Answers) {
        let mut r = Answers::new();
        let root = String::new();
        write_choice(self, &mut r, root.as_str());
        r
    }

    fn from_answers(answers: &Answers) -> (r: Result<Self, BackendError>) {
        let root = String::new();
        read_choice::<ProgrammingLanguage>(answers, root.as_str())
    }

    proof fn lemma_round_trip(&self) {
        lemma_choice_reads_back(*self, Map::empty(), Seq::empty());
    }
}

/// Something that a developer does beside the work.
#[derive(Debug)]
pub enum Hobby {
    Reading(String),
    Gaming { favorite_game: String, hours_per_week: u32 },
    Cooking,
    Sports(String),
    Music { plays_instrument: bool, favorite_genre: String },
    Travel(String),
}

/// What a Hobby is, as mathematics.
pub ghost enum HobbyModel {
    Reading(Seq<char>),
    Gaming { favorite_game: Seq<char>, hours_per_week: u32 },
    Cooking,
    Sports(Seq<char>),
    Music { plays_instrument: bool, favorite_genre: Seq<char> },
    Travel(Seq<char>),
}

impl View for Hobby {
    type V = HobbyModel;

    open spec fn view(&self) -> HobbyModel {
        match self {
            Hobby::Reading(text) => HobbyModel::Reading(text@),
            Hobby::Gaming { favorite_game, hours_per_week } => HobbyModel::Gaming {
                favorite_game: favorite_game@,
                hours_per_week: *hours_per_week,
            },
            Hobby::Cooking => HobbyModel::Cooking,
            Hobby::Sports(text) => HobbyModel::Sports(text@),
            Hobby::Music { plays_instrument, favorite_genre } => HobbyModel::Music {
                plays_instrument: *plays_instrument,
                favorite_genre: favorite_genre@,
            },
            Hobby::Travel(text) => HobbyModel::Travel(text@),
        }
    }
}

impl Hobby {
    /// What the variants are called where they are offered, in their order.
    pub open spec fn labels() -> Seq<Seq<char>> {
        seq!["Reading"@, "Gaming"@, "Cooking"@, "Sports"@, "Music"@, "Travel"@]
    }

    /// What the variants are called where they are offered, in their order.
    pub fn options() -> (r: Vec<String>)
        ensures
            Seq::new(r@.len(), |i: int| r@[i]@) == Self::labels(),
    {
        let mut r: Vec<String> = Vec::new();
        r.push("Reading".to_owned());
        r.push("Gaming".to_owned());
        r.push("Cooking".to_owned());
        r.push("Sports".to_owned());
        r.push("Music".to_owned());
        r.push("Travel".to_owned());
        assert(Seq::new(r@.len(), |i: int| r@[i]@) =~= Self::labels());
        r
    }

    /// The names under which the variants keep what they carry are different
    /// from each other, and so are their keys in one scope.
    pub proof fn lemma_keys_apart(scope: Seq<char>)
        ensures
            scoped(scope, "Reading field 0"@) != scoped(scope, "favorite_game"@),
            scoped(scope, "Reading field 0"@) != scoped(scope, "hours_per_week"@),
            scoped(scope, "Reading field 0"@) != scoped(scope, "Sports field 0"@),
            scoped(scope, "Reading field 0"@) != scoped(scope, "plays_instrument"@),
            scoped(scope, "Reading field 0"@) != scoped(scope, "favorite_genre"@),
            scoped(scope, "Reading field 0"@) != scoped(scope, "Travel field 0"@),
            scoped(scope, "favorite_game"@) != scoped(scope, "hours_per_week"@),
            scoped(scope, "favorite_game"@) != scoped(scope, "Sports field 0"@),
            scoped(scope, "favorite_game"@) != scoped(scope, "plays_instrument"@),
            scoped(scope, "favorite_game"@) != scoped(scope, "favorite_genre"@),
            scoped(scope, "favorite_game"@) != scoped(scope, "Travel field 0"@),
            scoped(scope, "hours_per_week"@) != scoped(scope, "Sports field 0"@),
            scoped(scope, "hours_per_week"@) != scoped(scope, "plays_instrument"@),
            scoped(scope, "hours_per_week"@) != scoped(scope, "favorite_genre"@),
            scoped(scope, "hours_per_week"@) != scoped(scope, "Travel field 0"@),
            scoped(scope, "Sports field 0"@) != scoped(scope, "plays_instrument"@),
            scoped(scope, "Sports field 0"@) != scoped(scope, "favorite_genre"@),
            scoped(scope, "Sports field 0"@) != scoped(scope, "Travel field 0"@),
            scoped(scope, "plays_instrument"@) != scoped(scope, "favorite_genre"@),
            scoped(scope, "plays_instrument"@) != scoped(scope, "Travel field 0"@),
            scoped(scope, "favorite_genre"@) != scoped(scope, "Travel field 0"@),
    {
        reveal_strlit("Reading field 0");
        reveal_strlit("favorite_game");
        reveal_strlit("hours_per_week");
        reveal_strlit("Sports field 0");
        reveal_strlit("plays_instrument");
        reveal_strlit("favorite_genre");
        reveal_strlit("Travel field 0");
        assert("Reading field 0"@.len() == 15);
        assert("favorite_game"@.len() == 13);
        assert("hours_per_week"@.len() == 14);
        assert("Sports field 0"@.len() == 14);
        assert("plays_instrument"@.len() == 16);
        assert("favorite_genre"@.len() == 14);
        assert("Travel field 0"@.len() == 14);
        assert("hours_per_week"@[0] == 'h');
        assert("Sports field 0"@[0] == 'S');
        assert("favorite_genre"@[0] == 'f');
        assert("Travel field 0"@[0] == 'T');
        lemma_scoped_apart(scope, "Reading field 0"@, "favorite_game"@);
        lemma_scoped_apart(scope, "Reading field 0"@, "hours_per_week"@);
        lemma_scoped_apart(scope, "Reading field 0"@, "Sports field 0"@);
        lemma_scoped_apart(scope, "Reading field 0"@, "plays_instrument"@);
        lemma_scoped_apart(scope, "Reading field 0"@, "favorite_genre"@);
        lemma_scoped_apart(scope, "Reading field 0"@, "Travel field 0"@);
        lemma_scoped_apart(scope, "favorite_game"@, "hours_per_week"@);
        lemma_scoped_apart(scope, "favorite_game"@, "Sports field 0"@);
        lemma_scoped_apart(scope, "favorite_game"@, "plays_instrument"@);
        lemma_scoped_apart(scope, "favorite_game"@, "favorite_genre"@);
        lemma_scoped_apart(scope, "favorite_game"@, "Travel field 0"@);
        lemma_scoped_apart(scope, "hours_per_week"@, "Sports field 0"@);
        lemma_scoped_apart(scope, "hours_per_week"@, "plays_instrument"@);
        lemma_scoped_apart(scope, "hours_per_week"@, "favorite_genre"@);
        lemma_scoped_apart(scope, "hours_per_week"@, "Travel field 0"@);
        lemma_scoped_apart(scope, "Sports field 0"@, "plays_instrument"@);
        lemma_scoped_apart(scope, "Sports field 0"@, "favorite_genre"@);
        lemma_scoped_apart(scope, "Sports field 0"@, "Travel field 0"@);
        lemma_scoped_apart(scope, "plays_instrument"@, "favorite_genre"@);
        lemma_scoped_apart(scope, "plays_instrument"@, "Travel field 0"@);
        lemma_scoped_apart(scope, "favorite_genre"@, "Travel field 0"@);
    }
}

impl Selectable for Hobby {
    open spec fn count() -> usize {
        6
    }

    open spec fn position(&self) -> usize {
        match self {
            Hobby::Reading(_) => 0,
            Hobby::Gaming { .. } => 1,
            Hobby::Cooking => 2,
            Hobby::Sports(_) => 3,
            Hobby::Music { .. } => 4,
            Hobby::Travel(_) => 5,
        }
    }

    open spec fn carried_onto(&self, base: Map<Seq<char>, Value>, scope: Seq<char>) -> Map<
        Seq<char>,
        Value,
    > {
        match self {
            Hobby::Reading(text) => base.insert(scoped(scope, "Reading field 0"@), Value::Text(text@)),
            Hobby::Gaming { favorite_game, hours_per_week } => base.insert(
                scoped(scope, "favorite_game"@),
                Value::Text(favorite_game@),
            ).insert(scoped(scope, "hours_per_week"@), Value::Int(*hours_per_week as i64)),
            Hobby::Cooking => base,
            Hobby::Sports(text) => base.insert(scoped(scope, "Sports field 0"@), Value::Text(text@)),
            Hobby::Music { plays_instrument, favorite_genre } => base.insert(
                scoped(scope, "plays_instrument"@),
                Value::Bool(*plays_instrument),
            ).insert(scoped(scope, "favorite_genre"@), Value::Text(favorite_genre@)),
            Hobby::Travel(text) => base.insert(scoped(scope, "Travel field 0"@), Value::Text(text@)),
        }
    }

    open spec fn carried_at(answers: Map<Seq<char>, Value>, scope: Seq<char>, position: usize) -> Result<
        HobbyModel,
        BackendErrorModel,
    > {
        if position == 0 {
            match text_in(answers, scoped(scope, "Reading field 0"@)) {
                Err(e) => Err(e),
                Ok(text) => Ok(HobbyModel::Reading(text)),
            }
        } else if position == 1 {
            match text_in(answers, scoped(scope, "favorite_game"@)) {
                Err(e) => Err(e),
                Ok(favorite_game) => match int_in(
                    answers,
                    scoped(scope, "hours_per_week"@),
                    0,
                    u32::MAX as int,
                ) {
                    Err(e) => Err(e),
                    Ok(hours) => Ok(
                        HobbyModel::Gaming { favorite_game, hours_per_week: hours as u32 },
                    ),
                },
            }
        } else if position == 2 {
            Ok(HobbyModel::Cooking)
        } else if position == 3 {
            match text_in(answers, scoped(scope, "Sports field 0"@)) {
                Err(e) => Err(e),
                Ok(text) => Ok(HobbyModel::Sports(text)),
            }
        } else if position == 4 {
            match bool_in(answers, scoped(scope, "plays_instrument"@)) {
                Err(e) => Err(e),
                Ok(plays_instrument) => match text_in(answers, scoped(scope, "favorite_genre"@)) {
                    Err(e) => Err(e),
                    Ok(favorite_genre) => Ok(HobbyModel::Music { plays_instrument, favorite_genre }),
                },
            }
        } else if position == 5 {
            match text_in(answers, scoped(scope, "Travel field 0"@)) {
                Err(e) => Err(e),
                Ok(text) => Ok(HobbyModel::Travel(text)),
            }
        } else {
            Err(improper(scope))
        }
    }

    open spec fn name_at(position: usize) -> Seq<char> {
        if position == 0 {
            "Reading"@
        } else if position == 1 {
            "Gaming"@
        } else if position == 2 {
            "Cooking"@
        } else if position == 3 {
            "Sports"@
        } else if position == 4 {
            "Music"@
        } else if position == 5 {
            "Travel"@
        } else {
            Seq::empty()
        }
    }

    open spec fn position_named(name: Seq<char>) -> Option<usize> {
        if name == "Reading"@ {
            Some(0)
        } else if name == "Gaming"@ {
            Some(1)
        } else if name == "Cooking"@ {
            Some(2)
        } else if name == "Sports"@ {
            Some(3)
        } else if name == "Music"@ {
            Some(4)
        } else if name == "Travel"@ {
            Some(5)
        } else {
            None
        }
    }

    open spec fn called() -> Seq<char> {
        "Hobby"@
    }

    fn name(&self) -> (r: &'static str) {
        match self {
            Hobby::Reading(_) => "Reading",
            Hobby::Gaming { .. } => "Gaming",
            Hobby::Cooking => "Cooking",
            Hobby::Sports(_) => "Sports",
            Hobby::Music { .. } => "Music",
            Hobby::Travel(_) => "Travel",
        }
    }

    fn named(name: &str) -> (r: Option<usize>) {
        if str_eq(name, "Reading") {
            Some(0)
        } else if str_eq(name, "Gaming") {
            Some(1)
        } else if str_eq(name, "Cooking") {
            Some(2)
        } else if str_eq(name, "Sports") {
            Some(3)
        } else if str_eq(name, "Music") {
            Some(4)
        } else if str_eq(name, "Travel") {
            Some(5)
        } else {
            None
        }
    }

    fn known_as() -> (r: &'static str) {
        "Hobby"
    }

    fn index(&self) -> (r: usize) {
        match self {
            Hobby::Reading(_) => 0,
            Hobby::Gaming { .. } => 1,
            Hobby::Cooking => 2,
            Hobby::Sports(_) => 3,
            Hobby::Music { .. } => 4,
            Hobby::Travel(_) => 5,
        }
    }

    fn known(position: usize) -> (r: bool) {
        position < 6
    }

    fn write_in(&self, answers: &mut Answers, scope: &str) {
        match self {
            Hobby::Reading(text) => {
                answers.insert(scoped_key(scope, "Reading field 0"), AnswerValue::String(text.clone()));
            },
            Hobby::Gaming { favorite_game, hours_per_week } => {
                answers.insert(
                    scoped_key(scope, "favorite_game"),
                    AnswerValue::String(favorite_game.clone()),
                );
                answers.insert(
                    scoped_key(scope, "hours_per_week"),
                    AnswerValue::Int(*hours_per_week as i64),
                );
            },
            Hobby::Cooking => {},
            Hobby::Sports(text) => {
                answers.insert(scoped_key(scope, "Sports field 0"), AnswerValue::String(text.clone()));
            },
            Hobby::Music { plays_instrument, favorite_genre } => {
                answers.insert(
                    scoped_key(scope, "plays_instrument"),
                    AnswerValue::Bool(*plays_instrument),
                );
                answers.insert(
                    scoped_key(scope, "favorite_genre"),
                    AnswerValue::String(favorite_genre.clone()),
                );
            },
            Hobby::Travel(text) => {
                answers.insert(scoped_key(scope, "Travel field 0"), AnswerValue::String(text.clone()));
            },
        }
    }

    fn read_at(answers: &Answers, scope: &str, position: usize) -> (r: Result<Self, BackendError>) {
        if position == 0 {
            match read_text(answers, scoped_key(scope, "Reading field 0").as_str()) {
                Ok(text) => Ok(Hobby::Reading(text)),
                Err(e) => Err(e),
            }
        } else if position == 1 {
            let favorite_game = match read_text(answers, scoped_key(scope, "favorite_game").as_str()) {
                Ok(v) => v,
                Err(e) => {
                    return Err(e);
                },
            };
            let hours = match read_int(
                answers,
                scoped_key(scope, "hours_per_week").as_str(),
                0,
                0xffff_ffff,
            ) {
                Ok(v) => v,
                Err(e) => {
                    return Err(e);
                },
            };
            Ok(Hobby::Gaming { favorite_game, hours_per_week: hours as u32 })
        } else if position == 2 {
            Ok(Hobby::Cooking)
        } else if position == 3 {
            match read_text(answers, scoped_key(scope, "Sports field 0").as_str()) {
                Ok(text) => Ok(Hobby::Sports(text)),
                Err(e) => Err(e),
            }
        } else if position == 4 {
            let plays_instrument = match read_bool(
                answers,
                scoped_key(scope, "plays_instrument").as_str(),
            ) {
                Ok(v) => v,
                Err(e) => {
                    return Err(e);
                },
            };
            let favorite_genre = match read_text(
                answers,
                scoped_key(scope, "favorite_genre").as_str(),
            ) {
                Ok(v) => v,
                Err(e) => {
                    return Err(e);
                },
            };
            Ok(Hobby::Music { plays_instrument, favorite_genre })
        } else {
            match read_text(answers, scoped_key(scope, "Travel field 0").as_str()) {
                Ok(text) => Ok(Hobby::Travel(text)),
                Err(e) => Err(e),
            }
        }
    }

    proof fn lemma_position_known(&self) {
    }

    proof fn lemma_reads_back(&self, base: Map<Seq<char>, Value>, scope: Seq<char>) {
        Self::lemma_keys_apart(scope);
    }

    proof fn lemma_others_stay(&self, base: Map<Seq<char>, Value>, scope: Seq<char>, position: usize) {
        Self::lemma_keys_apart(scope);
    }

    proof fn lemma_writes_in_scope(&self, base: Map<Seq<char>, Value>, scope: Seq<char>, key: Seq<char>) {
        assert(key != scoped(scope, "Reading field 0"@));
        assert(key != scoped(scope, "favorite_game"@));
        assert(key != scoped(scope, "hours_per_week"@));
        assert(key != scoped(scope, "Sports field 0"@));
        assert(key != scoped(scope, "plays_instrument"@));
        assert(key != scoped(scope, "favorite_genre"@));
        assert(key != scoped(scope, "Travel field 0"@));
    }

    proof fn lemma_found_by_name(&self) {
        reveal_strlit("Reading");
        reveal_strlit("Gaming");
        reveal_strlit("Cooking");
        reveal_strlit("Sports");
        reveal_strlit("Music");
        reveal_strlit("Travel");
        assert("Reading"@.len() == 7);
        assert("Gaming"@.len() == 6);
        assert("Cooking"@.len() == 7);
        assert("Sports"@.len() == 6);
        assert("Music"@.len() == 5);
        assert("Travel"@.len() == 6);
        assert("Reading"@[0] != "Cooking"@[0]);
        assert("Gaming"@[0] != "Sports"@[0]);
        assert("Gaming"@[0] != "Travel"@[0]);
        assert("Sports"@[0] != "Travel"@[0]);
    }

    proof fn lemma_reads_beside_choice(
        base: Map<Seq<char>, Value>,
        scope: Seq<char>,
        position: usize,
        chosen: Value,
    ) {
        reveal_strlit("selected_alternative");
        assert(SELECTED_ALTERNATIVE_KEY@.len() == 20);
        reveal_strlit("Reading field 0");
        assert("Reading field 0"@.len() == 15);
        lemma_scoped_apart(scope, "Reading field 0"@, SELECTED_ALTERNATIVE_KEY@);
        reveal_strlit("favorite_game");
        assert("favorite_game"@.len() == 13);
        lemma_scoped_apart(scope, "favorite_game"@, SELECTED_ALTERNATIVE_KEY@);
        reveal_strlit("hours_per_week");
        assert("hours_per_week"@.len() == 14);
        lemma_scoped_apart(scope, "hours_per_week"@, SELECTED_ALTERNATIVE_KEY@);
        reveal_strlit("Sports field 0");
        assert("Sports field 0"@.len() == 14);
        lemma_scoped_apart(scope, "Sports field 0"@, SELECTED_ALTERNATIVE_KEY@);
        reveal_strlit("plays_instrument");
        assert("plays_instrument"@.len() == 16);
        lemma_scoped_apart(scope, "plays_instrument"@, SELECTED_ALTERNATIVE_KEY@);
        reveal_strlit("favorite_genre");
        assert("favorite_genre"@.len() == 14);
        lemma_scoped_apart(scope, "favorite_genre"@, SELECTED_ALTERNATIVE_KEY@);
        reveal_strlit("Travel field 0");
        assert("Travel field 0"@.len() == 14);
        lemma_scoped_apart(scope, "Travel field 0"@, SELECTED_ALTERNATIVE_KEY@);
    }

    proof fn lemma_reads_in_scope(
        a: Map<Seq<char>, Value>,
        b: Map<Seq<char>, Value>,
        scope: Seq<char>,
        position: usize,
    ) {
        assert(a.contains_key(scoped(scope, "Reading field 0"@)) == b.contains_key(scoped(scope, "Reading field 0"@)));
        assert(a[scoped(scope, "Reading field 0"@)] == b[scoped(scope, "Reading field 0"@)]);
        assert(a.contains_key(scoped(scope, "favorite_game"@)) == b.contains_key(scoped(scope, "favorite_game"@)));
        assert(a[scoped(scope, "favorite_game"@)] == b[scoped(scope, "favorite_game"@)]);
        assert(a.contains_key(scoped(scope, "hours_per_week"@)) == b.contains_key(scoped(scope, "hours_per_week"@)));
        assert(a[scoped(scope, "hours_per_week"@)] == b[scoped(scope, "hours_per_week"@)]);
        assert(a.contains_key(scoped(scope, "Sports field 0"@)) == b.contains_key(scoped(scope, "Sports field 0"@)));
        assert(a[scoped(scope, "Sports field 0"@)] == b[scoped(scope, "Sports field 0"@)]);
        assert(a.contains_key(scoped(scope, "plays_instrument"@)) == b.contains_key(scoped(scope, "plays_instrument"@)));
        assert(a[scoped(scope, "plays_instrument"@)] == b[scoped(scope, "plays_instrument"@)]);
        assert(a.contains_key(scoped(scope, "favorite_genre"@)) == b.contains_key(scoped(scope, "favorite_genre"@)));
        assert(a[scoped(scope, "favorite_genre"@)] == b[scoped(scope, "favorite_genre"@)]);
        assert(a.contains_key(scoped(scope, "Travel field 0"@)) == b.contains_key(scoped(scope, "Travel field 0"@)));
        assert(a[scoped(scope, "Travel field 0"@)] == b[scoped(scope, "Travel field 0"@)]);
    }
}

impl Hobby {
    /// The branches of the choice of one variant.
    pub open spec fn branches() -> Seq<AlternativeModel> {
        seq![
            AlternativeModel {
                name: "Reading"@,
                section: SectionModel::Sequence(
                    seq![
                        QuestionModel::input("Reading field 0"@, "Favorite book genre?"@, None),
                    ],
                ),
            },
            AlternativeModel {
                name: "Gaming"@,
                section: SectionModel::Sequence(
                    seq![
                        QuestionModel::input("favorite_game"@, "Favorite game?"@, None),
                        QuestionModel::integer("hours_per_week"@, "Hours per week?"@, Some(1), Some(100), None),
                    ],
                ),
            },
            AlternativeModel { name: "Cooking"@, section: SectionModel::Empty },
            AlternativeModel {
                name: "Sports"@,
                section: SectionModel::Sequence(
                    seq![
                        QuestionModel::input("Sports field 0"@, "Which sport?"@, None),
                    ],
                ),
            },
            AlternativeModel {
                name: "Music"@,
                section: SectionModel::Sequence(
                    seq![
                        QuestionModel::confirm("plays_instrument"@, "Do you play an instrument?"@),
                        QuestionModel::input("favorite_genre"@, "Favorite genre?"@, None),
                    ],
                ),
            },
            AlternativeModel {
                name: "Travel"@,
                section: SectionModel::Sequence(
                    seq![
                        QuestionModel::input("Travel field 0"@, "Which country do you want to visit next?"@, None),
                    ],
                ),
            },
        ]
    }
}

impl Wizard for Hobby {
    open spec fn tree() -> Seq<SectionModel> {
        seq![SectionModel::Alternatives(0, Self::branches())]
    }

    open spec fn spelled(&self) -> Map<Seq<char>, Value> {
        chosen_onto(*self, Map::empty(), Seq::empty())
    }

    open spec fn decoded(answers: Map<Seq<char>, Value>) -> Result<HobbyModel, BackendErrorModel> {
        chosen_from::<Hobby>(answers, Seq::empty())
    }

    fn interview() -> (r: Interview) {
        let mut alternatives: Vec<Alternative> = Vec::new();
        let mut fields_of_reading: Vec<Question> = Vec::new();
        fields_of_reading.push(Question::input("Reading field 0", "Favorite book genre?", None));
        let branch = Alternative::with_fields("Reading", fields_of_reading);
        assert(branch@.section->Sequence_0 =~= Self::branches()[0].section->Sequence_0);
        alternatives.push(branch);
        let mut fields_of_gaming: Vec<Question> = Vec::new();
        fields_of_gaming.push(Question::input("favorite_game", "Favorite game?", None));
        fields_of_gaming.push(Question::integer("hours_per_week", "Hours per week?", Some(1), Some(100), None));
        let branch = Alternative::with_fields("Gaming", fields_of_gaming);
        assert(branch@.section->Sequence_0 =~= Self::branches()[1].section->Sequence_0);
        alternatives.push(branch);
        alternatives.push(Alternative::unit("Cooking"));
        let mut fields_of_sports: Vec<Question> = Vec::new();
        fields_of_sports.push(Question::input("Sports field 0", "Which sport?", None));
        let branch = Alternative::with_fields("Sports", fields_of_sports);
        assert(branch@.section->Sequence_0 =~= Self::branches()[3].section->Sequence_0);
        alternatives.push(branch);
        let mut fields_of_music: Vec<Question> = Vec::new();
        fields_of_music.push(Question::confirm("plays_instrument", "Do you play an instrument?"));
        fields_of_music.push(Question::input("favorite_genre", "Favorite genre?", None));
        let branch = Alternative::with_fields("Music", fields_of_music);
        assert(branch@.section->Sequence_0 =~= Self::branches()[4].section->Sequence_0);
        alternatives.push(branch);
        let mut fields_of_travel: Vec<Question> = Vec::new();
        fields_of_travel.push(Question::input("Travel field 0", "Which country do you want to visit next?", None));
        let branch = Alternative::with_fields("Travel", fields_of_travel);
        assert(branch@.section->Sequence_0 =~= Self::branches()[5].section->Sequence_0);
        alternatives.push(branch);
        let r = Interview::of_alternatives(0, alternatives);
        assert(r@[0]->Alternatives_1 =~= Self::branches());
        assert(r@ =~= Self::tree());
        r
    }

    fn to_answers(&self) -> (r: Answers) {
        let mut r = Answers::new();
        let root = String::new();
        write_choice(self, &mut r, root.as_str());
        r
    }

    fn from_answers(answers: &Answers) -> (r: Result<Self, BackendError>) {
        let root = String::new();
        read_choice::<Hobby>(answers, root.as_str())
    }

    proof fn lemma_round_trip(&self) {
        lemma_choice_reads_back(*self, Map::empty(), Seq::empty());
    }
}

/// A developer: a name, the languages known and the hobbies.
#[derive(Debug)]
pub struct DeveloperProfile {
    pub name: String,
    pub languages: Vec<ProgrammingLanguage>,
    pub hobbies: Vec<Hobby>,
}

/// What a DeveloperProfile is, as mathematics.
pub ghost struct DeveloperProfileModel {
    pub name: Seq<char>,
    pub languages: Seq<ProgrammingLanguageModel>,
    pub hobbies: Seq<HobbyModel>,
}

impl View for DeveloperProfile {
    type V = DeveloperProfileModel;

    open spec fn view(&self) -> DeveloperProfileModel {
        DeveloperProfileModel {
            name: self.name@,
            languages: views(self.languages@),
            hobbies: views(self.hobbies@),
        }
    }
}

impl DeveloperProfile {
    /// Whether answers can spell this profile: no language and no hobby is
    /// named twice.
    pub fn is_spellable(&self) -> (r: bool)
        ensures
            r == self.spellable(),
    {
        can_be_selected(&self.languages) && can_be_selected(&self.hobbies)
    }
}

impl Wizard for DeveloperProfile {
    open spec fn tree() -> Seq<SectionModel> {
        seq![
            SectionModel::Sequence(
                seq![
                    QuestionModel::input("name"@, "What is your name?"@, None),
                    QuestionModel::multi_select(
                        "languages"@,
                        "Select the programming languages you know:"@,
                        ProgrammingLanguage::labels(),
                        None,
                    ),
                    QuestionModel::input("languages.Other field 0"@, "Which language?"@, None).skippable(),
                    QuestionModel::multi_select(
                        "hobbies"@,
                        "Select your hobbies:"@,
                        Hobby::labels(),
                        None,
                    ),
                    QuestionModel::input("hobbies.Reading field 0"@, "Favorite book genre?"@, None).skippable(),
                    QuestionModel::input("hobbies.favorite_game"@, "Favorite game?"@, None).skippable(),
                    QuestionModel::integer(
                        "hobbies.hours_per_week"@,
                        "Hours per week?"@,
                        Some(1),
                        Some(100),
                        None,
                    ).skippable(),
                    QuestionModel::input("hobbies.Sports field 0"@, "Which sport?"@, None).skippable(),
                    QuestionModel::confirm(
                        "hobbies.plays_instrument"@,
                        "Do you play an instrument?"@,
                    ).skippable(),
                    QuestionModel::input("hobbies.favorite_genre"@, "Favorite genre?"@, None).skippable(),
                    QuestionModel::input(
                        "hobbies.Travel field 0"@,
                        "Which country do you want to visit next?"@,
                        None,
                    ).skippable(),
                ],
            ),
        ]
    }

    open spec fn spelled(&self) -> Map<Seq<char>, Value> {
        selected_onto(
            self.hobbies@,
            selected_onto(
                self.languages@,
                Map::empty().insert("name"@, Value::Text(self.name@)),
                "languages"@,
            ),
            "hobbies"@,
        )
    }

    open spec fn spellable(&self) -> bool {
        selectable_together(self.languages@) && selectable_together(self.hobbies@)
    }

    open spec fn decoded(answers: Map<Seq<char>, Value>) -> Result<DeveloperProfileModel, BackendErrorModel> {
        match text_in(answers, "name"@) {
            Err(e) => Err(e),
            Ok(name) => match selected_in::<ProgrammingLanguage>(answers, "languages"@) {
                Err(e) => Err(e),
                Ok(languages) => match selected_in::<Hobby>(answers, "hobbies"@) {
                    Err(e) => Err(e),
                    Ok(hobbies) => Ok(DeveloperProfileModel { name, languages, hobbies }),
                },
            },
        }
    }

    fn interview() -> (r: Interview) {
        let mut questions: Vec<Question> = Vec::new();
        questions.push(Question::input("name", "What is your name?", None));
        let languages = ProgrammingLanguage::options();
        assert(ListElement::Variants(languages).model() == ElementModel::Variants(
            ProgrammingLanguage::labels(),
        ));
        questions.push(
            Question::multi_select(
                "languages",
                "Select the programming languages you know:",
                languages,
                None,
            ),
        );
        questions.push(Question::input("languages.Other field 0", "Which language?", None).skippable());
        let hobbies = Hobby::options();
        assert(ListElement::Variants(hobbies).model() == ElementModel::Variants(Hobby::labels()));
        questions.push(Question::multi_select("hobbies", "Select your hobbies:", hobbies, None));
        questions.push(
            Question::input("hobbies.Reading field 0", "Favorite book genre?", None).skippable(),
        );
        questions.push(Question::input("hobbies.favorite_game", "Favorite game?", None).skippable());
        questions.push(
            Question::integer("hobbies.hours_per_week", "Hours per week?", Some(1), Some(100), None).skippable(),
        );
        questions.push(Question::input("hobbies.Sports field 0", "Which sport?", None).skippable());
        questions.push(
            Question::confirm("hobbies.plays_instrument", "Do you play an instrument?").skippable(),
        );
        questions.push(Question::input("hobbies.favorite_genre", "Favorite genre?", None).skippable());
        questions.push(
            Question::input(
                "hobbies.Travel field 0",
                "Which country do you want to visit next?",
                None,
            ).skippable(),
        );
        let r = Interview::of_sequence(questions);
        assert(r@[0]->Sequence_0 =~= Self::tree()[0]->Sequence_0);
        assert(r@ =~= Self::tree());
        r
    }

    fn to_answers(&self) -> (r: Answers) {
        let mut r = Answers::new();
        r.insert("name".to_owned(), AnswerValue::String(self.name.clone()));
        write_selection(&self.languages, &mut r, "languages");
        write_selection(&self.hobbies, &mut r, "hobbies");
        r
    }

    fn from_answers(answers: &Answers) -> (r: Result<Self, BackendError>) {
        let name = match read_text(answers, "name") {
            Ok(v) => v,
            Err(e) => {
                return Err(e);
            },
        };
        let languages = match read_selection::<ProgrammingLanguage>(answers, "languages") {
            Ok(v) => v,
            Err(e) => {
                return Err(e);
            },
        };
        let hobbies = match read_selection::<Hobby>(answers, "hobbies") {
            Ok(v) => v,
            Err(e) => {
                return Err(e);
            },
        };
        Ok(DeveloperProfile { name, languages, hobbies })
    }

    proof fn lemma_round_trip(&self) {
        reveal_strlit("name");
        reveal_strlit("languages");
        reveal_strlit("hobbies");
        assert("name"@.len() == 4);
        assert("languages"@.len() == 9);
        assert("hobbies"@.len() == 7);
        let named = Map::<Seq<char>, Value>::empty().insert("name"@, Value::Text(self.name@));
        let known = selected_onto(self.languages@, named, "languages"@);
        let all = selected_onto(self.hobbies@, known, "hobbies"@);
        lemma_selection_leaves(self.languages@, named, "languages"@, "name"@);
        lemma_selection_leaves(self.hobbies@, known, "hobbies"@, "name"@);
        assert forall|k: Seq<char>|
            #![trigger all.contains_key(k)]
            #![trigger known.contains_key(k)]
            k.len() > 0 && k[0] == "languages"@[0] implies all.contains_key(k) == known.contains_key(k)
                && all[k] == known[k] by {
            lemma_selection_leaves(self.hobbies@, known, "hobbies"@, k);
        }
        assert(same_from(all, known, "languages"@[0]));
        lemma_selection_reads_same::<ProgrammingLanguage>(all, known, "languages"@);
        lemma_selection_reads_back(self.languages@, named, "languages"@);
        lemma_selection_reads_back(self.hobbies@, known, "hobbies"@);
    }
}

/// Multi-select reconstructs as a set: where a build of a profile succeeds
/// on what the presenter handed back, its hobbies are exactly as many as the
/// positions chosen under the key of the hobbies, and at each place stands
/// the variant of the position chosen there, irrespective of the variants
/// that were not chosen.
pub proof fn lemma_reconstructs_as_chosen(
    presented: Map<Seq<char>, Value>,
    assumed: Map<Seq<char>, Value>,
    chosen: Seq<usize>,
)
    requires
        presented.union_prefer_right(assumed).contains_key("hobbies"@),
        presented.union_prefer_right(assumed)["hobbies"@] == Value::Chosen(chosen),
        finished::<DeveloperProfile>(Ok(presented), assumed) is Ok,
    ensures
        finished::<DeveloperProfile>(Ok(presented), assumed)->Ok_0.hobbies.len() == chosen.len(),
        forall|i: int|
            0 <= i < chosen.len() ==> Hobby::carried_at(
                presented.union_prefer_right(assumed),
                "hobbies"@,
                #[trigger] chosen[i],
            ) == Ok::<HobbyModel, BackendErrorModel>(
                finished::<DeveloperProfile>(Ok(presented), assumed)->Ok_0.hobbies[i],
            ),
{
    let answers = presented.union_prefer_right(assumed);
    let hobbies = DeveloperProfile::decoded(answers)->Ok_0.hobbies;
    assert(selected_in::<Hobby>(answers, "hobbies"@) == Ok::<Seq<HobbyModel>, BackendErrorModel>(
        hobbies,
    ));
    assert forall|i: int| 0 <= i < chosen.len() implies Hobby::carried_at(
        answers,
        "hobbies"@,
        #[trigger] chosen[i],
    ) == Ok::<HobbyModel, BackendErrorModel>(hobbies[i]) by {
        lemma_read_each::<Hobby>(answers, "hobbies"@, chosen, chosen.len(), i);
    }
    lemma_read_length::<Hobby>(answers, "hobbies"@, chosen, chosen.len());
}

} // verus!
