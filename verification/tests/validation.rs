use derive_wizard::question::{
    BoundsOutOfOrder, FloatQuestion, IntQuestion, ListElement, ListQuestion, Question,
    QuestionKind,
};
use derive_wizard::surveys::job_application::{validate_salary, Salary, MAX_TOTAL_COMP};
use derive_wizard::surveys::masked_input::passwords_match;
use derive_wizard::surveys::simple_spooky_forest::{
    is_valid_name, is_within_starting_budget, STARTING_BUDGET,
};
use derive_wizard::surveys::validation::{validate_email, validate_password, validate_username};
use derive_wizard::surveys::SurveyValidators;
use derive_wizard::validation::{
    accept_answer, float_at_most, has_ordered_bounds, validate_answer, validate_on_key,
    NoValidators, SumAtMost, Validators,
};
use derive_wizard::question::InputQuestion;
use derive_wizard::{AnswerError, AnswerValue, Answers, BackendError, ResponsePath, Wizard};

fn text(s: &str) -> AnswerValue {
    AnswerValue::String(s.to_string())
}

fn float(v: f64) -> AnswerValue {
    AnswerValue::Float(v.to_bits())
}

fn float_question(min: Option<f64>, max: Option<f64>) -> Question {
    Question::new(
        None,
        "weight".to_string(),
        "Weight:".to_string(),
        QuestionKind::Float(FloatQuestion {
            default: None,
            min: min.map(f64::to_bits),
            max: max.map(f64::to_bits),
            validate_on_key: None,
            validate_on_submit: None,
        }),
    ).unwrap()
}

fn rejected(r: Result<(), BackendError>) -> String {
    match r {
        Err(BackendError::Validation(m)) => m,
        other => panic!("expected a validation failure, found {:?}", other),
    }
}

#[test]
fn integer_bounds_are_inclusive() {
    let q = Question::integer("age", "Age:", Some(18), Some(233), None);
    let answers = Answers::new();
    for v in [18, 233, 19, 100] {
        assert!(validate_answer(&q, "", &AnswerValue::Int(v), &answers, &NoValidators).is_ok());
    }
    assert_eq!(
        rejected(validate_answer(&q, "", &AnswerValue::Int(17), &answers, &NoValidators)),
        "Value must be at least 18"
    );
    assert_eq!(
        rejected(validate_answer(&q, "", &AnswerValue::Int(234), &answers, &NoValidators)),
        "Value must be at most 233"
    );
    let negative = Question::integer("t", "T:", Some(-50), Some(50), None);
    assert!(validate_answer(&negative, "", &AnswerValue::Int(-50), &answers, &NoValidators).is_ok());
    assert_eq!(
        rejected(validate_answer(&negative, "", &AnswerValue::Int(-51), &answers, &NoValidators)),
        "Value must be at least -50"
    );
    let open = Question::integer("n", "N:", None, None, None);
    assert!(validate_answer(&open, "", &AnswerValue::Int(i64::MIN), &answers, &NoValidators).is_ok());
    assert!(validate_answer(&open, "", &AnswerValue::Int(i64::MAX), &answers, &NoValidators).is_ok());
    let single = Question::integer("n", "N:", Some(5), Some(5), None);
    assert!(validate_answer(&single, "", &AnswerValue::Int(5), &answers, &NoValidators).is_ok());
    assert!(validate_answer(&single, "", &AnswerValue::Int(4), &answers, &NoValidators).is_err());
    assert!(validate_answer(&single, "", &AnswerValue::Int(6), &answers, &NoValidators).is_err());
}

#[test]
fn float_bounds_are_inclusive() {
    let q = float_question(Some(20.0), Some(300.0));
    let answers = Answers::new();
    for v in [20.0, 300.0, 20.5, 299.999] {
        assert!(validate_answer(&q, "", &float(v), &answers, &NoValidators).is_ok(), "{}", v);
    }
    assert_eq!(
        rejected(validate_answer(&q, "", &float(19.0), &answers, &NoValidators)),
        "Value is below the minimum"
    );
    assert_eq!(
        rejected(validate_answer(&q, "", &float(301.0), &answers, &NoValidators)),
        "Value is above the maximum"
    );
    assert!(validate_answer(&q, "", &float(19.999999), &answers, &NoValidators).is_err());
    assert!(validate_answer(&q, "", &float(f64::NAN), &answers, &NoValidators).is_err());
    assert!(validate_answer(&q, "", &float(f64::INFINITY), &answers, &NoValidators).is_err());
    assert!(validate_answer(&q, "", &float(-25.0), &answers, &NoValidators).is_err());
    let around_zero = float_question(Some(-1.5), Some(0.0));
    for v in [-1.5, -0.0, 0.0, -1.0] {
        assert!(validate_answer(&around_zero, "", &float(v), &answers, &NoValidators).is_ok());
    }
    assert!(validate_answer(&around_zero, "", &float(f64::MIN_POSITIVE), &answers, &NoValidators).is_err());
    assert!(validate_answer(&around_zero, "", &float(-1.5000001), &answers, &NoValidators).is_err());
}

#[test]
fn floats_compare_as_their_numbers_do() {
    let values = [
        f64::NEG_INFINITY, f64::MIN, -300.5, -1.0, -f64::MIN_POSITIVE, -0.0, 0.0,
        f64::MIN_POSITIVE, 1.0, 1.0000000000000002, 20.0, 300.0, f64::MAX, f64::INFINITY, f64::NAN,
        -f64::NAN,
    ];
    for a in values {
        for b in values {
            assert_eq!(float_at_most(a.to_bits(), b.to_bits()), a <= b, "{} <= {}", a, b);
        }
    }
}

#[test]
fn candidates_of_another_kind_are_mismatches() {
    let answers = Answers::new();
    let q = Question::integer("age", "Age:", None, None, None);
    match validate_answer(&q, "user", &text("x"), &answers, &NoValidators) {
        Err(BackendError::Answer(AnswerError::TypeMismatch { key, expected })) => {
            assert_eq!(key, "user.age");
            assert_eq!(expected, "Int");
        },
        other => panic!("{:?}", other),
    }
    let cases: Vec<(Question, AnswerValue, &str)> = vec![
        (Question::input("a", "A:", None), AnswerValue::Int(1), "String"),
        (Question::masked("a", "A:", None), AnswerValue::Bool(true), "String"),
        (Question::confirm("a", "A?"), text("yes"), "Bool"),
        (float_question(None, None), AnswerValue::Int(1), "Float"),
        (
            Question::multi_select("a", "A:", vec!["x".to_string()], None),
            AnswerValue::List(vec![]),
            "ChosenVariants",
        ),
    ];
    for (q, candidate, kind) in cases {
        match validate_answer(&q, "", &candidate, &answers, &NoValidators) {
            Err(BackendError::Answer(AnswerError::TypeMismatch { expected, .. })) => {
                assert_eq!(expected, kind)
            },
            other => panic!("{:?}", other),
        }
    }
    assert!(validate_answer(
        &Question::input("path", "Path:", None),
        "",
        &AnswerValue::Path("/tmp".to_string()),
        &answers,
        &NoValidators
    )
    .is_ok());
}

#[test]
fn lists_and_selections_are_checked() {
    let answers = Answers::new();
    let scores = Question::new(
        None,
        "scores".to_string(),
        "Scores:".to_string(),
        QuestionKind::List(ListQuestion {
            element: ListElement::Int,
            min: Some(0),
            max: Some(100),
            validate_on_submit: None,
        }),
    ).unwrap();
    let list = |items: &[i64]| AnswerValue::List(items.iter().map(|i| AnswerValue::Int(*i)).collect());
    assert!(validate_answer(&scores, "", &list(&[0, 50, 100]), &answers, &NoValidators).is_ok());
    assert!(validate_answer(&scores, "", &list(&[]), &answers, &NoValidators).is_ok());
    assert_eq!(
        rejected(validate_answer(&scores, "", &list(&[5, 101, -1]), &answers, &NoValidators)),
        "Value must be at most 100"
    );
    assert_eq!(
        rejected(validate_answer(&scores, "", &list(&[5, -1, 101]), &answers, &NoValidators)),
        "Value must be at least 0"
    );
    assert!(matches!(
        validate_answer(&scores, "", &AnswerValue::List(vec![text("x")]), &answers, &NoValidators),
        Err(BackendError::Answer(AnswerError::TypeMismatch { expected: "List", .. }))
    ));
    let names: Vec<String> = ["a", "b", "c", "d", "e", "f"].iter().map(|s| s.to_string()).collect();
    let pick = Question::multi_select("pick", "Pick:", names, None);
    let chosen = |c: &[usize]| AnswerValue::ChosenVariants(c.to_vec());
    assert!(validate_answer(&pick, "", &chosen(&[0, 2]), &answers, &NoValidators).is_ok());
    assert!(validate_answer(&pick, "", &chosen(&[]), &answers, &NoValidators).is_ok());
    assert!(validate_answer(&pick, "", &chosen(&[5, 4, 3, 2, 1, 0]), &answers, &NoValidators).is_ok());
    assert_eq!(
        rejected(validate_answer(&pick, "", &chosen(&[0, 6]), &answers, &NoValidators)),
        "Unknown variant selected"
    );
    assert_eq!(
        rejected(validate_answer(&pick, "", &chosen(&[2, 0, 2]), &answers, &NoValidators)),
        "A variant is selected more than once"
    );
}

#[test]
fn bounds_come_before_validators() {
    let answers = Answers::new();
    let q = Question::integer("age", "Age:", Some(13), Some(120), Some("validate_salary"));
    assert_eq!(
        rejected(validate_answer(&q, "", &AnswerValue::Int(1000), &answers, &SurveyValidators)),
        "Value must be at most 120"
    );
    let wide = Question::integer("age", "Age:", Some(13), Some(1200), Some("validate_salary"));
    assert_eq!(
        rejected(validate_answer(&wide, "", &AnswerValue::Int(1000), &answers, &SurveyValidators)),
        "Total comp $1000k exceeds $250k limit"
    );
    let email = Question::input("email", "Email:", Some("validate_email"));
    assert_eq!(
        rejected(validate_answer(&email, "", &text("nobody"), &answers, &SurveyValidators)),
        "Email must contain '@' symbol"
    );
    assert!(validate_answer(&email, "", &text("nobody"), &answers, &NoValidators).is_ok());
    let unknown = Question::input("email", "Email:", Some("no_such_validator"));
    assert!(validate_answer(&unknown, "", &text("nobody"), &answers, &SurveyValidators).is_ok());
}

#[test]
fn propagated_validator_sees_running_total() {
    let limit = 75;
    let sum = SumAtMost { limit, fields: vec!["a".to_string(), "b".to_string(), "c".to_string()] };
    let field = |name: &str| {
        let mut q = Question::integer(name, "Points:", None, None, None);
        q.set_propagated(Some("stat_total".to_string()));
        q
    };
    let mut answers = Answers::new();
    assert!(accept_answer(&mut answers, &field("a"), "stats", AnswerValue::Int(limit), &sum).is_ok());
    assert_eq!(answers.as_int("stats.a").unwrap(), limit);
    assert_eq!(
        rejected(accept_answer(&mut answers, &field("b"), "stats", AnswerValue::Int(1), &sum)),
        "Total 76 exceeds the limit of 75"
    );
    assert_eq!(answers.len(), 1);
    assert!(!answers.contains_key("stats.b"));
    assert_eq!(answers.as_int("stats.a").unwrap(), limit);
    assert!(accept_answer(&mut answers, &field("b"), "stats", AnswerValue::Int(0), &sum).is_ok());
    assert_eq!(answers.as_int("stats.b").unwrap(), 0);
    assert!(accept_answer(&mut answers, &field("c"), "stats", AnswerValue::Int(0), &sum).is_ok());
    assert!(accept_answer(&mut answers, &field("c"), "stats", AnswerValue::Int(-5), &sum).is_ok());
    assert_eq!(answers.len(), 3);
    let path = ResponsePath::from_dotted("stats.c");
    assert_eq!(sum.total(1, &answers, &path), 71);
    let elsewhere = ResponsePath::from_dotted("other.c");
    assert_eq!(sum.total(1, &answers, &elsewhere), 1);
    assert!(sum.validate("any", &text("x"), &answers, &path).is_ok());
    let wide = SumAtMost { limit: i64::MAX, fields: vec!["a".to_string(), "a".to_string()] };
    let mut big = Answers::new();
    big.insert("a".to_string(), AnswerValue::Int(i64::MAX));
    assert_eq!(
        wide.total(i64::MAX, &big, &ResponsePath::from_dotted("b")),
        3 * (i64::MAX as i128)
    );
}

#[test]
fn salary_is_limited_to_the_total_compensation() {
    assert_eq!(MAX_TOTAL_COMP, 250);
    let tree = Salary::interview();
    let questions = match &tree.sections[0] {
        derive_wizard::interview::Section::Sequence(s) => &s.sequence,
        other => panic!("{:?}", other),
    };
    let (base, bonus) = (&questions[0], &questions[1]);
    assert_eq!(base.propagated(), Some("validate_salary"));
    assert!(matches!(base.kind(), QuestionKind::Int(IntQuestion { min: Some(30), max: Some(200), .. })));
    assert!(matches!(bonus.kind(), QuestionKind::Int(IntQuestion { min: Some(0), max: Some(100), .. })));
    let mut answers = Answers::new();
    assert!(accept_answer(&mut answers, base, "", AnswerValue::Int(200), &SurveyValidators).is_ok());
    assert_eq!(
        rejected(accept_answer(&mut answers, bonus, "", AnswerValue::Int(100), &SurveyValidators)),
        "Total comp $300k exceeds $250k limit"
    );
    assert_eq!(
        rejected(accept_answer(&mut answers, bonus, "", AnswerValue::Int(51), &SurveyValidators)),
        "Total comp $251k exceeds $250k limit"
    );
    assert!(!answers.contains_key("bonus"));
    assert_eq!(answers.len(), 1);
    assert!(accept_answer(&mut answers, bonus, "", AnswerValue::Int(50), &SurveyValidators).is_ok());
    assert_eq!(answers.as_int("bonus").unwrap(), 50);
    assert_eq!(
        rejected(accept_answer(&mut answers, base, "", AnswerValue::Int(201), &SurveyValidators)),
        "Value must be at most 200"
    );
    assert_eq!(
        rejected(accept_answer(&mut answers, base, "", AnswerValue::Int(29), &SurveyValidators)),
        "Value must be at least 30"
    );
    assert_eq!(
        rejected(accept_answer(&mut answers, bonus, "", AnswerValue::Int(101), &SurveyValidators)),
        "Value must be at most 100"
    );
    let salary = Salary::from_answers(&answers).unwrap();
    assert_eq!((salary.base, salary.bonus), (200, 50));
    let mut nested = Answers::new();
    nested.insert("salary.base".to_string(), AnswerValue::Int(200));
    let path = ResponsePath::from_dotted("salary.bonus");
    assert!(validate_salary(&AnswerValue::Int(50), &nested, &path).is_ok());
    assert_eq!(
        validate_salary(&AnswerValue::Int(51), &nested, &path).unwrap_err(),
        "Total comp $251k exceeds $250k limit"
    );
    assert!(validate_salary(&text("x"), &nested, &path).is_ok());
    assert!(validate_salary(&AnswerValue::Int(250), &nested, &ResponsePath::from_dotted("bonus")).is_ok());
}

#[test]
fn passwords_have_to_match() {
    let mut answers = Answers::new();
    answers.insert("passwords.password".to_string(), text("secret"));
    let path = ResponsePath::from_dotted("passwords.password_confirm");
    assert!(passwords_match(&text("secret"), &answers, &path).is_ok());
    assert_eq!(
        passwords_match(&text("Secret"), &answers, &path).unwrap_err(),
        "Passwords do not match"
    );
    assert!(passwords_match(&AnswerValue::Int(1), &answers, &path).is_ok());
    let top = ResponsePath::from_dotted("password_confirm");
    assert!(passwords_match(&text("secret"), &answers, &top).is_err());
    assert!(passwords_match(&text(""), &answers, &top).is_ok());
    answers.insert("password".to_string(), AnswerValue::Int(3));
    assert!(passwords_match(&text(""), &answers, &top).is_ok());
    assert!(passwords_match(&text("3"), &answers, &top).is_err());
}

#[test]
fn names_and_budgets_are_validated() {
    let answers = Answers::new();
    let path = ResponsePath::root();
    assert_eq!(STARTING_BUDGET, 150);
    assert!(is_valid_name(&text("Ada"), &answers, &path).is_ok());
    assert!(is_valid_name(&text(&"x".repeat(99)), &answers, &path).is_ok());
    assert_eq!(
        is_valid_name(&text("Al"), &answers, &path).unwrap_err(),
        "Name must be between 3 and 99 characters"
    );
    assert!(is_valid_name(&text(&"x".repeat(100)), &answers, &path).is_err());
    assert!(is_valid_name(&text("é"), &answers, &path).is_err());
    assert!(is_valid_name(&text("éé"), &answers, &path).is_ok());
    assert!(is_valid_name(&AnswerValue::Bool(true), &answers, &path).is_ok());
    let chosen = |c: &[usize]| AnswerValue::ChosenVariants(c.to_vec());
    assert!(is_within_starting_budget(&chosen(&[]), &answers, &path).is_ok());
    assert!(is_within_starting_budget(&chosen(&[0, 1, 2]), &answers, &path).is_ok());
    assert!(is_within_starting_budget(&chosen(&[0, 1, 3, 4, 4, 4, 4, 4, 9]), &answers, &path).is_ok());
    assert_eq!(
        is_within_starting_budget(&chosen(&[0, 1, 2, 3]), &answers, &path).unwrap_err(),
        "Over budget! Total: 160 gold, limit: 150 gold"
    );
    assert_eq!(
        is_within_starting_budget(&chosen(&[0, 0]), &answers, &path).unwrap_err(),
        "Over budget! Total: 160 gold, limit: 150 gold"
    );
    assert_eq!(
        is_within_starting_budget(&chosen(&[0, 1, 2, 4]), &answers, &path).unwrap_err(),
        "Over budget! Total: 152 gold, limit: 150 gold"
    );
    assert!(is_within_starting_budget(&text("x"), &answers, &path).is_ok());
}

#[test]
fn accounts_are_validated() {
    let answers = Answers::new();
    let path = ResponsePath::root();
    assert!(validate_email(&text("a@b.c"), &answers, &path).is_ok());
    assert_eq!(
        validate_email(&text("a.b"), &answers, &path).unwrap_err(),
        "Email must contain '@' symbol"
    );
    assert_eq!(
        validate_email(&text("a@b"), &answers, &path).unwrap_err(),
        "Email must contain a domain"
    );
    assert!(validate_email(&AnswerValue::Int(1), &answers, &path).is_ok());
    assert!(validate_password(&text("Passw0rd"), &answers, &path).is_ok());
    assert_eq!(
        validate_password(&text("Pass0"), &answers, &path).unwrap_err(),
        "Password must be at least 8 characters"
    );
    assert_eq!(
        validate_password(&text("Password"), &answers, &path).unwrap_err(),
        "Password must contain at least one number"
    );
    assert_eq!(
        validate_password(&text("passw0rd"), &answers, &path).unwrap_err(),
        "Password must contain at least one uppercase letter"
    );
    assert!(validate_username(&text("ada_99"), &answers, &path).is_ok());
    assert_eq!(
        validate_username(&text("ab"), &answers, &path).unwrap_err(),
        "Username must be at least 3 characters"
    );
    assert_eq!(
        validate_username(&text("ada lovelace"), &answers, &path).unwrap_err(),
        "Username can only contain letters, numbers, and underscores"
    );
    assert!(validate_username(&text("adaé"), &answers, &path).is_err());
    for (name, candidate) in [
        ("validate_email", "x"),
        ("validate_password", "x"),
        ("validate_username", "x"),
        ("is_valid_name", "x"),
        ("passwords_match", "x"),
    ] {
        assert!(SurveyValidators.validate(name, &text(candidate), &answers, &path).is_err(), "{}", name);
    }
    assert!(SurveyValidators
        .validate("is_within_starting_budget", &AnswerValue::ChosenVariants(vec![0, 0]), &answers, &path)
        .is_err());
}

fn int_kind(min: Option<i64>, max: Option<i64>) -> QuestionKind {
    QuestionKind::Int(IntQuestion {
        default: None,
        min,
        max,
        validate_on_key: None,
        validate_on_submit: None,
    })
}

fn float_kind(min: Option<f64>, max: Option<f64>) -> QuestionKind {
    QuestionKind::Float(FloatQuestion {
        default: None,
        min: min.map(f64::to_bits),
        max: max.map(f64::to_bits),
        validate_on_key: None,
        validate_on_submit: None,
    })
}

#[test]
fn bounds_are_in_order_or_not() {
    assert!(has_ordered_bounds(&int_kind(Some(1), Some(1))));
    assert!(has_ordered_bounds(&int_kind(Some(1), None)));
    assert!(!has_ordered_bounds(&int_kind(Some(2), Some(1))));
    assert!(has_ordered_bounds(&float_kind(Some(-0.0), Some(0.0))));
    assert!(has_ordered_bounds(&float_kind(Some(20.0), Some(300.0))));
    assert!(!has_ordered_bounds(&float_kind(Some(300.0), Some(20.0))));
    assert!(!has_ordered_bounds(&float_kind(Some(f64::NAN), Some(20.0))));
    assert!(has_ordered_bounds(Question::confirm("a", "A?").kind()));
}

#[test]
fn questions_with_bounds_out_of_order_are_not_made() {
    let make = |kind: QuestionKind| Question::new(None, "n".to_string(), "N:".to_string(), kind);
    assert_eq!(make(int_kind(Some(2), Some(1))).err(), Some(BoundsOutOfOrder));
    assert_eq!(make(float_kind(Some(300.0), Some(20.0))).err(), Some(BoundsOutOfOrder));
    assert_eq!(make(float_kind(Some(f64::NAN), Some(f64::NAN))).err(), Some(BoundsOutOfOrder));
    let list = |min, max| {
        QuestionKind::List(ListQuestion {
            element: ListElement::Int,
            min,
            max,
            validate_on_submit: None,
        })
    };
    assert_eq!(make(list(Some(1), Some(0))).err(), Some(BoundsOutOfOrder));
    assert!(make(list(Some(0), Some(0))).is_ok());
    let mut q = make(int_kind(Some(1), Some(2))).unwrap();
    assert_eq!(q.name(), "n");
    assert_eq!(q.prompt(), "N:");
    assert_eq!(q.id(), None);
    assert!(matches!(q.kind(), QuestionKind::Int(IntQuestion { min: Some(1), max: Some(2), .. })));
    assert_eq!(q.set_kind(int_kind(Some(5), Some(4))).err(), Some(BoundsOutOfOrder));
    assert!(matches!(q.kind(), QuestionKind::Int(IntQuestion { min: Some(1), max: Some(2), .. })));
    assert!(q.set_kind(int_kind(Some(4), Some(5))).is_ok());
    assert!(matches!(q.kind(), QuestionKind::Int(IntQuestion { min: Some(4), max: Some(5), .. })));
    assert!(make(int_kind(None, Some(i64::MIN))).is_ok());
    assert!(make(float_kind(Some(1.0), Some(1.0))).is_ok());
}

#[test]
fn validators_for_each_edit_run_alone() {
    let answers = Answers::new();
    let q = Question::new(
        None,
        "email".to_string(),
        "Email:".to_string(),
        QuestionKind::Input(InputQuestion {
            default: None,
            validate_on_key: Some("validate_username".to_string()),
            validate_on_submit: Some("validate_email".to_string()),
        }),
    ).unwrap();
    assert_eq!(
        validate_on_key(&q, "", &text("a b"), &answers, &SurveyValidators).unwrap_err(),
        "Username can only contain letters, numbers, and underscores"
    );
    assert_eq!(
        validate_on_key(&q, "", &text("ab"), &answers, &SurveyValidators).unwrap_err(),
        "Username must be at least 3 characters"
    );
    assert!(validate_on_key(&q, "", &text("abc"), &answers, &SurveyValidators).is_ok());
    assert!(validate_on_key(&q, "", &text("a b"), &answers, &NoValidators).is_ok());
    assert_eq!(
        rejected(validate_answer(&q, "", &text("abc"), &answers, &SurveyValidators)),
        "Email must contain '@' symbol"
    );
    let plain = Question::input("email", "Email:", Some("validate_email"));
    assert!(validate_on_key(&plain, "", &text("x"), &answers, &SurveyValidators).is_ok());
    assert!(validate_on_key(&Question::confirm("a", "A?"), "", &text("x"), &answers, &SurveyValidators).is_ok());
}
