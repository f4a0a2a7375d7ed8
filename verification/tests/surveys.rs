use derive_wizard::interview::Section;
use derive_wizard::question::{ListElement, QuestionKind};
use derive_wizard::reconstruct::{
    number_list_value, read_number_list, read_optional_int, read_optional_path,
    read_optional_text, read_path, read_text_list, text_list_value,
};
use derive_wizard::surveys::basic_fields::BasicFields;
use derive_wizard::surveys::optional_fields::ProjectConfig;
use derive_wizard::surveys::prelude_epilogue::{FitnessProfile, EPILOGUE, PRELUDE};
use derive_wizard::surveys::vec_lists::{ShoppingList, StudentGrades};
use derive_wizard::validation::{validate_answer, NoValidators};
use derive_wizard::wizard::wizard_builder;
use derive_wizard::{
    AnswerError, AnswerValue, Answers, BackendError, EguiBackend, TestBackend, Wizard,
};

fn text(s: &str) -> AnswerValue {
    AnswerValue::String(s.to_string())
}

#[test]
fn floats_go_round_as_their_bits() {
    let fields = BasicFields {
        name: "Ada".to_string(),
        age: 36,
        height: 1.68f64.to_bits(),
        temperature: -5,
        enjoying: true,
    };
    let answers = fields.to_answers();
    assert_eq!(f64::from_bits(answers.as_float("height").unwrap()), 1.68);
    let back = BasicFields::from_answers(&answers).unwrap();
    assert_eq!(format!("{:?}", back), format!("{:?}", fields));
    let backend = TestBackend::new()
        .with_string("name", "Ada")
        .with_int("age", 36)
        .with_float("height", 1.68f64.to_bits())
        .with_int("temperature", -5)
        .with_bool("enjoying", true);
    let built: BasicFields = wizard_builder().with_backend(backend).build().unwrap();
    assert_eq!(f64::from_bits(built.height), 1.68);
    assert_eq!(built.temperature, -5);
    let wrong = TestBackend::new()
        .with_string("name", "Ada")
        .with_int("age", 36)
        .with_int("height", 2)
        .with_int("temperature", -5)
        .with_bool("enjoying", true);
    match wizard_builder::<BasicFields>().with_backend(wrong).build() {
        Err(BackendError::Answer(AnswerError::TypeMismatch { key, expected })) => {
            assert_eq!(key, "height");
            assert_eq!(expected, "Float");
        },
        other => panic!("{:?}", other),
    }
}

#[test]
fn float_bounds_of_a_survey_are_inclusive() {
    let tree = FitnessProfile::interview();
    let questions = match &tree.sections[0] {
        Section::Sequence(s) => &s.sequence,
        other => panic!("{:?}", other),
    };
    let weight = &questions[1];
    match weight.kind() {
        QuestionKind::Float(q) => {
            assert_eq!(q.min.map(f64::from_bits), Some(20.0));
            assert_eq!(q.max.map(f64::from_bits), Some(300.0));
        },
        other => panic!("{:?}", other),
    }
    let answers = Answers::new();
    let check = |v: f64| {
        validate_answer(weight, "", &AnswerValue::Float(v.to_bits()), &answers, &NoValidators).is_ok()
    };
    assert!(check(20.0));
    assert!(check(300.0));
    assert!(!check(19.0));
    assert!(!check(301.0));
    assert!(check(72.5));
    assert!(PRELUDE.starts_with("Welcome to the Fitness Tracker setup!"));
    assert!(EPILOGUE.ends_with("Good luck on your fitness journey!"));
    let profile = FitnessProfile {
        name: "Ada".to_string(),
        weight: 72.5f64.to_bits(),
        height: 170,
        target_weight: 70f64.to_bits(),
        has_experience: false,
    };
    let back = FitnessProfile::from_answers(&profile.to_answers()).unwrap();
    assert_eq!(format!("{:?}", back), format!("{:?}", profile));
    let mut form = EguiBackend::new(FitnessProfile::interview());
    form.state_mut().set_float_buffer("weight", "19".to_string(), Some(19f64.to_bits()));
    form.state_mut().set_float_buffer("target_weight", "20".to_string(), Some(20f64.to_bits()));
    form.state_mut().set_buffer("height", "100".to_string());
    assert!(!form.submit());
    assert!(form.state().has_error("weight"));
    assert!(!form.state().has_error("target_weight"));
    assert!(!form.state().has_error("height"));
}

#[test]
fn skipped_fields_are_absent() {
    let full = ProjectConfig {
        name: "demo".to_string(),
        description: Some("A demo".to_string()),
        license_path: Some("/tmp/LICENSE".to_string()),
        version: Some("0.1.0".to_string()),
        debug: true,
        log_level: Some(5),
    };
    let answers = full.to_answers();
    assert_eq!(answers.len(), 6);
    assert_eq!(answers.as_path("license_path").unwrap(), "/tmp/LICENSE");
    let back = ProjectConfig::from_answers(&answers).unwrap();
    assert_eq!(format!("{:?}", back), format!("{:?}", full));
    let bare = ProjectConfig {
        name: "demo".to_string(),
        description: None,
        license_path: None,
        version: None,
        debug: false,
        log_level: None,
    };
    let answers = bare.to_answers();
    assert_eq!(answers.len(), 2);
    let back = ProjectConfig::from_answers(&answers).unwrap();
    assert_eq!(format!("{:?}", back), format!("{:?}", bare));
    let backend = TestBackend::new()
        .with_string("name", "demo")
        .with_bool("debug", false)
        .with_string("license_path", "LICENSE")
        .with_int("log_level", 0);
    let built: ProjectConfig = wizard_builder().with_backend(backend).build().unwrap();
    assert_eq!(built.description, None);
    assert_eq!(built.license_path.as_deref(), Some("LICENSE"));
    assert_eq!(built.log_level, Some(0));
    let questions = match ProjectConfig::interview().sections.remove(0) {
        Section::Sequence(s) => s.sequence,
        other => panic!("{:?}", other),
    };
    let optional: Vec<bool> = questions.iter().map(|q| q.is_optional()).collect();
    assert_eq!(optional, vec![false, true, true, true, false, true]);
    let mut wrong = bare.to_answers();
    wrong.insert("log_level".to_string(), AnswerValue::Int(-1));
    assert!(matches!(
        ProjectConfig::from_answers(&wrong),
        Err(BackendError::Answer(AnswerError::TypeMismatch { expected: "Int", .. }))
    ));
    wrong.insert("log_level".to_string(), AnswerValue::Int(7));
    wrong.insert("version".to_string(), AnswerValue::Bool(true));
    assert!(matches!(
        ProjectConfig::from_answers(&wrong),
        Err(BackendError::Answer(AnswerError::TypeMismatch { expected: "String", .. }))
    ));
    assert!(matches!(
        ProjectConfig::from_answers(&Answers::new()),
        Err(BackendError::Answer(AnswerError::MissingKey(_)))
    ));
}

#[test]
fn optional_reads_tell_absent_from_wrong() {
    let mut answers = Answers::new();
    answers.insert("t".to_string(), text("x"));
    answers.insert("p".to_string(), AnswerValue::Path("/x".to_string()));
    answers.insert("i".to_string(), AnswerValue::Int(3));
    assert_eq!(read_optional_text(&answers, "t").unwrap().as_deref(), Some("x"));
    assert_eq!(read_optional_text(&answers, "none").unwrap(), None);
    assert!(read_optional_text(&answers, "i").is_err());
    assert_eq!(read_path(&answers, "p").unwrap(), "/x");
    assert_eq!(read_path(&answers, "t").unwrap(), "x");
    assert!(matches!(
        read_path(&answers, "i"),
        Err(BackendError::Answer(AnswerError::TypeMismatch { expected: "Path", .. }))
    ));
    assert!(matches!(read_path(&answers, "none"), Err(BackendError::Answer(AnswerError::MissingKey(_)))));
    assert_eq!(read_optional_path(&answers, "none").unwrap(), None);
    assert_eq!(read_optional_path(&answers, "p").unwrap().as_deref(), Some("/x"));
    assert!(read_optional_path(&answers, "i").is_err());
    assert_eq!(read_optional_int(&answers, "i", 0, 3).unwrap(), Some(3));
    assert_eq!(read_optional_int(&answers, "none", 0, 3).unwrap(), None);
    assert!(read_optional_int(&answers, "i", 0, 2).is_err());
    assert!(read_optional_int(&answers, "t", 0, 2).is_err());
}

#[test]
fn lists_go_round() {
    let list = ShoppingList {
        items: vec!["milk".to_string(), "eggs".to_string()],
        quantities: vec![1, 12],
        prices: vec![99, u32::MAX],
    };
    let answers = list.to_answers();
    assert_eq!(answers.as_list("items").unwrap().len(), 2);
    assert!(matches!(&answers.as_list("prices").unwrap()[1], AnswerValue::Int(v) if *v == u32::MAX as i64));
    let back = ShoppingList::from_answers(&answers).unwrap();
    assert_eq!(format!("{:?}", back), format!("{:?}", list));
    let grades = StudentGrades { name: "Ada".to_string(), scores: vec![], homework: vec![100, 0, 50] };
    let back = StudentGrades::from_answers(&grades.to_answers()).unwrap();
    assert_eq!(format!("{:?}", back), format!("{:?}", grades));
    let backend = TestBackend::new()
        .with_string("name", "Ada")
        .with_value("scores", number_list_value(&vec![90, 80]))
        .with_value("homework", AnswerValue::List(vec![]));
    let built: StudentGrades = wizard_builder().with_backend(backend).build().unwrap();
    assert_eq!(built.scores, vec![90, 80]);
    assert_eq!(built.homework, Vec::<u32>::new());
    let questions = match StudentGrades::interview().sections.remove(0) {
        Section::Sequence(s) => s.sequence,
        other => panic!("{:?}", other),
    };
    match questions[1].kind() {
        QuestionKind::List(q) => {
            assert!(matches!(q.element, ListElement::Int));
            assert_eq!((q.min, q.max), (Some(0), Some(100)));
        },
        other => panic!("{:?}", other),
    }
    let scores = |items: Vec<i64>| AnswerValue::List(items.into_iter().map(AnswerValue::Int).collect());
    let answers = Answers::new();
    assert!(validate_answer(&questions[1], "", &scores(vec![0, 100]), &answers, &NoValidators).is_ok());
    assert!(validate_answer(&questions[1], "", &scores(vec![0, 101]), &answers, &NoValidators).is_err());
    assert!(validate_answer(&questions[1], "", &scores(vec![-1]), &answers, &NoValidators).is_err());
}

#[test]
fn list_reads_check_every_item() {
    let mut answers = Answers::new();
    answers.insert("texts".to_string(), text_list_value(&vec!["a".to_string(), "".to_string()]));
    answers.insert("numbers".to_string(), number_list_value(&vec![0, 7, u32::MAX]));
    answers.insert("mixed".to_string(), AnswerValue::List(vec![text("a"), AnswerValue::Int(1)]));
    answers.insert("negative".to_string(), AnswerValue::List(vec![AnswerValue::Int(-1)]));
    answers.insert("wide".to_string(), AnswerValue::List(vec![AnswerValue::Int(1 << 32)]));
    answers.insert("one".to_string(), text("a"));
    assert_eq!(read_text_list(&answers, "texts").unwrap(), vec!["a", ""]);
    assert_eq!(read_number_list(&answers, "numbers").unwrap(), vec![0, 7, u32::MAX]);
    for key in ["mixed", "numbers", "one"] {
        assert!(
            matches!(
                read_text_list(&answers, key),
                Err(BackendError::Answer(AnswerError::TypeMismatch { expected: "List", .. }))
            ),
            "{}",
            key
        );
    }
    for key in ["mixed", "texts", "negative", "wide", "one"] {
        assert!(
            matches!(
                read_number_list(&answers, key),
                Err(BackendError::Answer(AnswerError::TypeMismatch { expected: "List", .. }))
            ),
            "{}",
            key
        );
    }
    assert!(matches!(
        read_number_list(&answers, "gone"),
        Err(BackendError::Answer(AnswerError::MissingKey(_)))
    ));
}
