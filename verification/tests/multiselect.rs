use derive_wizard::interview::Section;
use derive_wizard::question::{ListElement, QuestionKind};
use derive_wizard::selection::{can_be_selected, is_distinct, read_selection, write_selection};
use derive_wizard::surveys::multiselect::{DeveloperProfile, Hobby, ProgrammingLanguage};
use derive_wizard::surveys::simple_spooky_forest::{
    SimpleItem, SimpleRole, SimpleSpookyForest, EPILOGUE, PRELUDE,
};
use derive_wizard::surveys::SurveyValidators;
use derive_wizard::validation::validate_answer;
use derive_wizard::wizard::wizard_builder;
use derive_wizard::{AnswerError, AnswerValue, Answers, BackendError, TestBackend, Wizard};

fn text(s: &str) -> AnswerValue {
    AnswerValue::String(s.to_string())
}

fn profile() -> DeveloperProfile {
    DeveloperProfile {
        name: "Ada".to_string(),
        languages: vec![ProgrammingLanguage::Other("Zig".to_string()), ProgrammingLanguage::Rust],
        hobbies: vec![
            Hobby::Reading("sf".to_string()),
            Hobby::Cooking,
            Hobby::Gaming { favorite_game: "Go".to_string(), hours_per_week: 3 },
            Hobby::Music { plays_instrument: true, favorite_genre: "jazz".to_string() },
        ],
    }
}

#[test]
fn a_profile_is_spelled_under_the_keys_of_its_selections() {
    let answers = profile().to_answers();
    assert_eq!(answers.len(), 9);
    assert_eq!(answers.as_string("name").unwrap(), "Ada");
    assert_eq!(answers.as_chosen_variants("languages").unwrap(), &vec![6, 0]);
    assert_eq!(answers.as_string("languages.Other field 0").unwrap(), "Zig");
    assert_eq!(answers.as_chosen_variants("hobbies").unwrap(), &vec![0, 2, 1, 4]);
    assert_eq!(answers.as_string("hobbies.Reading field 0").unwrap(), "sf");
    assert_eq!(answers.as_string("hobbies.favorite_game").unwrap(), "Go");
    assert_eq!(answers.as_int("hobbies.hours_per_week").unwrap(), 3);
    assert!(answers.as_bool("hobbies.plays_instrument").unwrap());
    assert_eq!(answers.as_string("hobbies.favorite_genre").unwrap(), "jazz");
}

#[test]
fn a_profile_goes_round() {
    let value = profile();
    assert!(value.is_spellable());
    let back = DeveloperProfile::from_answers(&value.to_answers()).unwrap();
    assert_eq!(format!("{:?}", back), format!("{:?}", value));
    let empty = DeveloperProfile { name: String::new(), languages: vec![], hobbies: vec![] };
    assert!(empty.is_spellable());
    let answers = empty.to_answers();
    assert_eq!(answers.len(), 3);
    let back = DeveloperProfile::from_answers(&answers).unwrap();
    assert_eq!(format!("{:?}", back), format!("{:?}", empty));
}

#[test]
fn a_selection_of_two_among_six_builds_to_those_two() {
    let backend = TestBackend::new()
        .with_string("name", "Ada")
        .with_value("languages", AnswerValue::ChosenVariants(vec![]))
        .with_value("hobbies", AnswerValue::ChosenVariants(vec![0, 2]))
        .with_string("hobbies.Reading field 0", "sf")
        .with_string("hobbies.Travel field 0", "never asked for")
        .with_string("hobbies.favorite_game", "left over");
    let built: DeveloperProfile = wizard_builder().with_backend(backend).build().unwrap();
    assert_eq!(built.languages.len(), 0);
    assert_eq!(built.hobbies.len(), 2);
    assert!(matches!(&built.hobbies[0], Hobby::Reading(genre) if genre == "sf"));
    assert!(matches!(&built.hobbies[1], Hobby::Cooking));
    let backwards = TestBackend::new()
        .with_string("name", "Ada")
        .with_value("languages", AnswerValue::ChosenVariants(vec![5, 1]))
        .with_value("hobbies", AnswerValue::ChosenVariants(vec![2, 0]))
        .with_string("hobbies.Reading field 0", "sf");
    let built: DeveloperProfile = wizard_builder().with_backend(backwards).build().unwrap();
    assert!(matches!(built.languages[..], [ProgrammingLanguage::Java, ProgrammingLanguage::Python]));
    assert!(matches!(&built.hobbies[..], [Hobby::Cooking, Hobby::Reading(_)]));
}

fn with_hobbies(chosen: Vec<usize>) -> Answers {
    let mut answers = Answers::new();
    answers.insert("name".to_string(), text("Ada"));
    answers.insert("languages".to_string(), AnswerValue::ChosenVariants(vec![]));
    answers.insert("hobbies".to_string(), AnswerValue::ChosenVariants(chosen));
    answers
}

#[test]
fn a_selection_names_no_variant_twice_and_none_that_is_not_there() {
    let improper = |answers: &Answers| match DeveloperProfile::from_answers(answers) {
        Err(BackendError::Answer(AnswerError::TypeMismatch { key, expected })) => {
            assert_eq!(key, "hobbies");
            assert_eq!(expected, "ChosenVariants");
        },
        other => panic!("{:?}", other),
    };
    improper(&with_hobbies(vec![2, 2]));
    improper(&with_hobbies(vec![6]));
    improper(&with_hobbies(vec![2, usize::MAX]));
    assert!(DeveloperProfile::from_answers(&with_hobbies(vec![2])).is_ok());
    let mut wrong = with_hobbies(vec![]);
    wrong.insert("hobbies".to_string(), text("Cooking"));
    improper(&wrong);
    let mut missing = Answers::new();
    missing.insert("name".to_string(), text("Ada"));
    missing.insert("languages".to_string(), AnswerValue::ChosenVariants(vec![]));
    assert!(matches!(
        DeveloperProfile::from_answers(&missing),
        Err(BackendError::Answer(AnswerError::MissingKey(key))) if key == "hobbies"
    ));
    assert!(is_distinct(&vec![]));
    assert!(is_distinct(&vec![3, 1, 2]));
    assert!(!is_distinct(&vec![3, 1, 3]));
    assert!(can_be_selected(&vec![Hobby::Cooking, Hobby::Travel("x".to_string())]));
    assert!(!can_be_selected(&vec![
        Hobby::Travel("x".to_string()),
        Hobby::Cooking,
        Hobby::Travel("y".to_string()),
    ]));
    let twice = DeveloperProfile {
        name: String::new(),
        languages: vec![ProgrammingLanguage::Go, ProgrammingLanguage::Go],
        hobbies: vec![],
    };
    assert!(!twice.is_spellable());
}

#[test]
fn a_chosen_variant_needs_what_it_carries() {
    let answers = with_hobbies(vec![1]);
    assert!(matches!(
        DeveloperProfile::from_answers(&answers),
        Err(BackendError::Answer(AnswerError::MissingKey(key))) if key == "hobbies.favorite_game"
    ));
    let mut answers = with_hobbies(vec![1]);
    answers.insert("hobbies.favorite_game".to_string(), text("Go"));
    answers.insert("hobbies.hours_per_week".to_string(), AnswerValue::Int(-1));
    assert!(matches!(
        DeveloperProfile::from_answers(&answers),
        Err(BackendError::Answer(AnswerError::TypeMismatch { key, .. })) if key == "hobbies.hours_per_week"
    ));
    answers.insert("hobbies.hours_per_week".to_string(), AnswerValue::Int(7));
    let built = DeveloperProfile::from_answers(&answers).unwrap();
    assert!(matches!(
        &built.hobbies[..],
        [Hobby::Gaming { favorite_game, hours_per_week: 7 }] if favorite_game == "Go"
    ));
}

#[test]
fn selections_are_written_and_read_under_any_key() {
    let items = vec![
        SimpleItem::Potion,
        SimpleItem::ChewingGum { flavor: "mint".to_string(), quantity: 4 },
        SimpleItem::Sword,
    ];
    let mut answers = Answers::new();
    answers.insert("other".to_string(), AnswerValue::Int(1));
    write_selection(&items, &mut answers, "bag");
    assert_eq!(answers.len(), 4);
    assert_eq!(answers.as_chosen_variants("bag").unwrap(), &vec![2, 4, 0]);
    assert_eq!(answers.as_string("bag.flavor").unwrap(), "mint");
    assert_eq!(answers.as_int("bag.quantity").unwrap(), 4);
    let back: Vec<SimpleItem> = read_selection(&answers, "bag").unwrap();
    assert_eq!(format!("{:?}", back), format!("{:?}", items));
    assert!(read_selection::<SimpleItem>(&answers, "other").is_err());
    assert!(read_selection::<SimpleItem>(&answers, "none").is_err());
}

fn adventurer() -> SimpleSpookyForest {
    SimpleSpookyForest {
        name: "Frodo".to_string(),
        passphrase: "mellon".to_string(),
        age: 50,
        role: SimpleRole::Other("Gardener".to_string()),
        inventory: vec![
            SimpleItem::Shield,
            SimpleItem::ChewingGum { flavor: "mint".to_string(), quantity: 4 },
        ],
    }
}

#[test]
fn an_adventurer_goes_round() {
    let value = adventurer();
    assert!(value.is_spellable());
    let answers = value.to_answers();
    assert_eq!(answers.len(), 8);
    assert_eq!(answers.as_string("name").unwrap(), "Frodo");
    assert_eq!(answers.as_string("passphrase").unwrap(), "mellon");
    assert_eq!(answers.as_int("age").unwrap(), 50);
    assert_eq!(answers.as_string("role.selected_alternative").unwrap(), "Other");
    assert_eq!(answers.as_string("role.Other field 0").unwrap(), "Gardener");
    assert_eq!(answers.as_chosen_variants("inventory").unwrap(), &vec![1, 4]);
    assert_eq!(answers.as_string("inventory.flavor").unwrap(), "mint");
    assert_eq!(answers.as_int("inventory.quantity").unwrap(), 4);
    let back = SimpleSpookyForest::from_answers(&answers).unwrap();
    assert_eq!(format!("{:?}", back), format!("{:?}", value));
    let backend = TestBackend::with_answers(value.to_answers());
    let built: SimpleSpookyForest = wizard_builder().with_backend(backend).build().unwrap();
    assert_eq!(format!("{:?}", built), format!("{:?}", value));
    assert_eq!(PRELUDE, "A journey begins...!");
    assert_eq!(EPILOGUE, "Good luck.");
}

#[test]
fn an_adventure_asks_for_the_inventory_on_a_budget() {
    let interview = SimpleSpookyForest::interview();
    assert_eq!(interview.sections.len(), 1);
    let questions = match &interview.sections[0] {
        Section::Sequence(sequence) => &sequence.sequence,
        other => panic!("{:?}", other),
    };
    let names: Vec<&str> = questions.iter().map(|q| q.name()).collect();
    assert_eq!(
        names,
        vec!["name", "passphrase", "age", "role", "inventory", "inventory.flavor", "inventory.quantity"]
    );
    let inventory = &questions[4];
    assert_eq!(inventory.prompt(), "Pick your inventory:");
    assert!(!inventory.is_optional());
    assert!(questions[5].is_optional());
    assert!(questions[6].is_optional());
    match inventory.kind() {
        QuestionKind::List(list) => {
            assert_eq!(list.validate_on_submit.as_deref(), Some("is_within_starting_budget"));
            match &list.element {
                ListElement::Variants(names) => {
                    assert_eq!(names.len(), 5);
                    assert_eq!(names[0], "Sword (value: 80)");
                    assert_eq!(names[4], "Chewing Gum (value: 2 * quantity)");
                },
                other => panic!("{:?}", other),
            }
        },
        other => panic!("{:?}", other),
    }
    let none = Answers::new();
    let within = AnswerValue::ChosenVariants(vec![0, 1, 2]);
    assert!(validate_answer(inventory, "", &within, &none, &SurveyValidators).is_ok());
    let over = AnswerValue::ChosenVariants(vec![0, 1, 2, 3]);
    match validate_answer(inventory, "", &over, &none, &SurveyValidators) {
        Err(e) => assert!(e.message().contains("Over budget! Total: 160 gold, limit: 150 gold")),
        Ok(()) => panic!("accepted"),
    }
}

#[test]
fn a_profile_asks_for_what_the_variants_carry() {
    let interview = DeveloperProfile::interview();
    let questions = match &interview.sections[0] {
        Section::Sequence(sequence) => &sequence.sequence,
        other => panic!("{:?}", other),
    };
    assert_eq!(questions.len(), 11);
    assert_eq!(questions[1].name(), "languages");
    assert_eq!(questions[2].name(), "languages.Other field 0");
    assert_eq!(questions[2].prompt(), "Which language?");
    assert_eq!(questions[3].name(), "hobbies");
    assert_eq!(questions[6].name(), "hobbies.hours_per_week");
    assert!(questions.iter().skip(4).all(|q| q.is_optional()));
    match questions[3].kind() {
        QuestionKind::List(list) => match &list.element {
            ListElement::Variants(names) => {
                assert_eq!(names, &vec!["Reading", "Gaming", "Cooking", "Sports", "Music", "Travel"]);
            },
            other => panic!("{:?}", other),
        },
        other => panic!("{:?}", other),
    }
    let every_key = profile().to_answers();
    for question in questions.iter().filter(|q| !q.name().ends_with("field 0")) {
        assert!(every_key.contains_key(question.name()), "{}", question.name());
    }
}

#[test]
fn a_variant_is_chosen_alone_by_its_name() {
    let zig = ProgrammingLanguage::Other("Zig".to_string());
    let answers = zig.to_answers();
    assert_eq!(answers.len(), 2);
    assert_eq!(answers.as_string("selected_alternative").unwrap(), "Other");
    assert_eq!(answers.as_string("Other field 0").unwrap(), "Zig");
    let back = ProgrammingLanguage::from_answers(&answers).unwrap();
    assert!(matches!(back, ProgrammingLanguage::Other(name) if name == "Zig"));
    let cpp = ProgrammingLanguage::Cpp.to_answers();
    assert_eq!(cpp.len(), 1);
    assert_eq!(cpp.as_string("selected_alternative").unwrap(), "Cpp");
    assert!(matches!(ProgrammingLanguage::from_answers(&cpp), Ok(ProgrammingLanguage::Cpp)));
    let mut unknown = Answers::new();
    unknown.insert("selected_alternative".to_string(), text("C++"));
    match ProgrammingLanguage::from_answers(&unknown) {
        Err(BackendError::Answer(AnswerError::TypeMismatch { key, expected })) => {
            assert_eq!(key, "selected_alternative");
            assert_eq!(expected, "ProgrammingLanguage");
        },
        other => panic!("{:?}", other),
    }
    let mut bare = Answers::new();
    bare.insert("selected_alternative".to_string(), text("Other"));
    assert!(matches!(
        ProgrammingLanguage::from_answers(&bare),
        Err(BackendError::Answer(AnswerError::MissingKey(key))) if key == "Other field 0"
    ));
    assert!(matches!(
        ProgrammingLanguage::from_answers(&Answers::new()),
        Err(BackendError::Answer(AnswerError::MissingKey(key))) if key == "selected_alternative"
    ));
}

#[test]
fn every_variant_goes_round_alone() {
    let hobbies = vec![
        Hobby::Reading("sf".to_string()),
        Hobby::Gaming { favorite_game: "Go".to_string(), hours_per_week: 100 },
        Hobby::Cooking,
        Hobby::Sports("chess".to_string()),
        Hobby::Music { plays_instrument: false, favorite_genre: "jazz".to_string() },
        Hobby::Travel("Iceland".to_string()),
    ];
    let names = ["Reading", "Gaming", "Cooking", "Sports", "Music", "Travel"];
    for (hobby, name) in hobbies.iter().zip(names) {
        let answers = hobby.to_answers();
        assert_eq!(answers.as_string("selected_alternative").unwrap(), name);
        let back = Hobby::from_answers(&answers).unwrap();
        assert_eq!(format!("{:?}", back), format!("{:?}", hobby));
        let built: Hobby = wizard_builder()
            .with_backend(TestBackend::with_answers(hobby.to_answers()))
            .build()
            .unwrap();
        assert_eq!(format!("{:?}", built), format!("{:?}", hobby));
    }
    let items = vec![
        SimpleItem::Sword,
        SimpleItem::Shield,
        SimpleItem::Potion,
        SimpleItem::Scroll,
        SimpleItem::ChewingGum { flavor: "mint".to_string(), quantity: 10 },
    ];
    for item in &items {
        let back = SimpleItem::from_answers(&item.to_answers()).unwrap();
        assert_eq!(format!("{:?}", back), format!("{:?}", item));
    }
    let languages = vec![
        ProgrammingLanguage::Rust,
        ProgrammingLanguage::Python,
        ProgrammingLanguage::JavaScript,
        ProgrammingLanguage::Go,
        ProgrammingLanguage::Cpp,
        ProgrammingLanguage::Java,
        ProgrammingLanguage::Other(String::new()),
    ];
    for language in &languages {
        let back = ProgrammingLanguage::from_answers(&language.to_answers()).unwrap();
        assert_eq!(format!("{:?}", back), format!("{:?}", language));
    }
}

#[test]
fn a_variant_alone_is_asked_for_as_a_choice() {
    let interview = Hobby::interview();
    assert_eq!(interview.sections.len(), 1);
    let branches = match &interview.sections[0] {
        Section::Alternatives(0, branches) => branches,
        other => panic!("{:?}", other),
    };
    let names: Vec<&str> = branches.iter().map(|b| b.name.as_str()).collect();
    assert_eq!(names, vec!["Reading", "Gaming", "Cooking", "Sports", "Music", "Travel"]);
    assert!(matches!(branches[2].section, Section::Empty));
    match &branches[1].section {
        Section::Sequence(fields) => {
            assert_eq!(fields.sequence.len(), 2);
            assert_eq!(fields.sequence[0].name(), "favorite_game");
            assert_eq!(fields.sequence[1].name(), "hours_per_week");
            assert_eq!(fields.sequence[1].prompt(), "Hours per week?");
            assert!(matches!(
                fields.sequence[1].kind(),
                QuestionKind::Int(q) if q.min == Some(1) && q.max == Some(100)
            ));
        },
        other => panic!("{:?}", other),
    }
    match &SimpleItem::interview().sections[0] {
        Section::Alternatives(0, branches) => {
            assert_eq!(branches.len(), 5);
            assert_eq!(branches[4].name, "ChewingGum");
        },
        other => panic!("{:?}", other),
    }
    match &ProgrammingLanguage::interview().sections[0] {
        Section::Alternatives(0, branches) => {
            assert_eq!(branches.len(), 7);
            assert_eq!(branches[6].name, "Other");
        },
        other => panic!("{:?}", other),
    }
}
