use derive_wizard::backend::{InterviewBackend, TestBackend};
use derive_wizard::interview::{Interview, Section};
use derive_wizard::{AnswerError, AnswerValue, Answers, BackendError};

fn text(s: &str) -> AnswerValue {
    AnswerValue::String(s.to_string())
}

#[test]
fn answers_insert_then_get() {
    let mut answers = Answers::new();
    assert!(answers.is_empty());
    answers.insert("name".to_string(), text("Alice"));
    answers.insert("age".to_string(), AnswerValue::Int(30));
    answers.insert("height".to_string(), AnswerValue::Float(1.75f64.to_bits()));
    answers.insert("likes_rust".to_string(), AnswerValue::Bool(true));
    assert_eq!(answers.len(), 4);
    assert!(!answers.is_empty());
    assert!(answers.contains_key("age"));
    assert!(!answers.contains_key("ag"));
    assert_eq!(answers.as_string("name").unwrap(), "Alice");
    assert_eq!(answers.as_int("age").unwrap(), 30);
    assert_eq!(f64::from_bits(answers.as_float("height").unwrap()), 1.75);
    assert!(answers.as_bool("likes_rust").unwrap());
    assert!(matches!(answers.get("name"), Some(AnswerValue::String(s)) if s == "Alice"));
    assert!(answers.get("Name").is_none());
}

#[test]
fn answers_insert_replaces() {
    let mut answers = Answers::new();
    answers.insert("age".to_string(), AnswerValue::Int(30));
    answers.insert("name".to_string(), text("Alice"));
    answers.insert("age".to_string(), AnswerValue::Int(31));
    assert_eq!(answers.len(), 2);
    assert_eq!(answers.as_int("age").unwrap(), 31);
    assert_eq!(answers.as_string("name").unwrap(), "Alice");
}

#[test]
fn answers_lookup_errors() {
    let mut answers = Answers::new();
    answers.insert("name".to_string(), text("Alice"));
    match answers.as_int("name") {
        Err(AnswerError::TypeMismatch { key, expected }) => {
            assert_eq!(key, "name");
            assert_eq!(expected, "Int");
        },
        other => panic!("{:?}", other),
    }
    match answers.as_string("age") {
        Err(AnswerError::MissingKey(key)) => assert_eq!(key, "age"),
        other => panic!("{:?}", other),
    }
    let expected = [
        (answers.as_float("name").unwrap_err(), "Float"),
        (answers.as_bool("name").unwrap_err(), "Bool"),
        (answers.as_nested("name").err().unwrap(), "Nested"),
        (answers.as_path("name").unwrap_err(), "Path"),
        (answers.as_list("name").err().unwrap(), "List"),
        (answers.as_chosen_variants("name").err().unwrap(), "ChosenVariants"),
    ];
    for (e, kind) in expected {
        assert_eq!(e.message(), format!("Type mismatch for key 'name': expected {}", kind));
    }
    answers.insert("n".to_string(), AnswerValue::Int(1));
    assert_eq!(
        answers.as_string("n").unwrap_err().message(),
        "Type mismatch for key 'n': expected String"
    );
    assert_eq!(answers.as_int("gone").unwrap_err().message(), "Missing key: gone");
}

#[test]
fn answers_merge_prefers_the_other() {
    let mut left = Answers::new();
    left.insert("a".to_string(), AnswerValue::Int(1));
    left.insert("b".to_string(), AnswerValue::Int(2));
    let mut right = Answers::new();
    right.insert("b".to_string(), AnswerValue::Int(20));
    right.insert("c".to_string(), AnswerValue::Int(30));
    left.merge(right);
    assert_eq!(left.len(), 3);
    assert_eq!(left.as_int("a").unwrap(), 1);
    assert_eq!(left.as_int("b").unwrap(), 20);
    assert_eq!(left.as_int("c").unwrap(), 30);
}

#[test]
fn answers_hold_every_kind_of_value() {
    let mut inner = Answers::new();
    inner.insert("x".to_string(), AnswerValue::Int(7));
    let mut answers = Answers::new();
    answers.insert("nested".to_string(), AnswerValue::Nested(Box::new(inner)));
    answers.insert("path".to_string(), AnswerValue::Path("/var/log/app.log".to_string()));
    answers.insert(
        "list".to_string(),
        AnswerValue::List(vec![AnswerValue::Int(1), text("two")]),
    );
    answers.insert("chosen".to_string(), AnswerValue::ChosenVariants(vec![0, 2]));
    assert_eq!(answers.as_nested("nested").unwrap().as_int("x").unwrap(), 7);
    assert_eq!(answers.as_path("path").unwrap(), "/var/log/app.log");
    let list = answers.as_list("list").unwrap();
    assert_eq!(list.len(), 2);
    assert!(matches!(&list[1], AnswerValue::String(s) if s == "two"));
    assert_eq!(answers.as_chosen_variants("chosen").unwrap(), &vec![0, 2]);
    let copy = answers.duplicate();
    assert_eq!(copy.len(), 4);
    assert_eq!(copy.as_nested("nested").unwrap().as_int("x").unwrap(), 7);
    assert_eq!(copy.as_chosen_variants("chosen").unwrap(), &vec![0, 2]);
    assert!(matches!(&copy.as_list("list").unwrap()[0], AnswerValue::Int(1)));
}

#[test]
fn test_backend_returns_its_answers() {
    let backend = TestBackend::new()
        .with_string("name", "Alice")
        .with_int("age", 30)
        .with_float("pi", 3.5f64.to_bits())
        .with_bool("ok", false)
        .with_value("chosen", AnswerValue::ChosenVariants(vec![1]));
    let answers = backend.execute(&Interview { sections: vec![] }, Answers::new()).unwrap();
    assert_eq!(answers.len(), 5);
    assert_eq!(answers.as_string("name").unwrap(), "Alice");
    assert_eq!(answers.as_int("age").unwrap(), 30);
    assert_eq!(f64::from_bits(answers.as_float("pi").unwrap()), 3.5);
    assert!(!answers.as_bool("ok").unwrap());
    match backend.execute_section(&Section::Empty) {
        Err(BackendError::Custom(m)) => assert_eq!(m, "execute_section not implemented"),
        other => panic!("{:?}", other),
    }
}

#[test]
fn backend_errors_have_messages() {
    let missing = BackendError::from(AnswerError::MissingKey("age".to_string()));
    assert!(matches!(missing, BackendError::Answer(AnswerError::MissingKey(_))));
    assert_eq!(missing.message(), "Answer error: Missing key: age");
    assert_eq!(
        BackendError::Answer(AnswerError::TypeMismatch { key: "a".to_string(), expected: "Bool" })
            .message(),
        "Answer error: Type mismatch for key 'a': expected Bool"
    );
    assert_eq!(BackendError::Validation("too big".to_string()).message(), "Validation error: too big");
    assert_eq!(
        BackendError::ExecutionError("cancelled".to_string()).message(),
        "Execution error: cancelled"
    );
    assert_eq!(BackendError::Io("broken pipe".to_string()).message(), "IO error: broken pipe");
    assert_eq!(BackendError::Custom("x".to_string()).message(), "Backend-specific error: x");
}

#[test]
fn test_backend_writes_into_the_store() {
    let mut store = Answers::new();
    store.insert("assumed".to_string(), AnswerValue::Int(1));
    store.insert("age".to_string(), AnswerValue::Int(99));
    let backend = TestBackend::new().with_int("age", 30);
    let answers = backend.execute(&Interview { sections: vec![] }, store).unwrap();
    assert_eq!(answers.len(), 2);
    assert_eq!(answers.as_int("assumed").unwrap(), 1);
    assert_eq!(answers.as_int("age").unwrap(), 30);
}
