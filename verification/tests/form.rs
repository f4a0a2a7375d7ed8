use derive_wizard::backend::InterviewBackend;
use derive_wizard::egui_backend::{
    bool_text, int_range, shown_bool, shown_int, validate_section,
    InterviewState,
};
use derive_wizard::interview::{Alternative, Interview, Section};
use derive_wizard::reconstruct::{branch_place_of, choice_key_of, section_place_of};
use derive_wizard::validation::SumAtMost;
use derive_wizard::question::{
    FloatQuestion, IntQuestion, ListElement, ListQuestion, Question, QuestionDefault, QuestionKind,
};
use derive_wizard::surveys::enum_oneof::{Checkout, PaymentMethod};
use derive_wizard::surveys::job_application::Salary;
use derive_wizard::surveys::user_profile::UserProfile;
use derive_wizard::surveys::validation::AccountCreation;
use derive_wizard::surveys::SurveyValidators;
use derive_wizard::validation::NoValidators;
use derive_wizard::{Answers, BackendError, EguiBackend, Wizard};

fn answers_of<V: derive_wizard::validation::Validators>(form: &EguiBackend<V>) -> &Answers {
    match form.result() {
        Some(Ok(answers)) => answers,
        other => panic!("{:?}", other),
    }
}

#[test]
fn buffers_are_made_on_first_use() {
    let mut state = InterviewState::new();
    assert_eq!(state.get_or_init_buffer("name"), "");
    state.set_buffer("name", "Alice".to_string());
    assert_eq!(state.get_or_init_buffer("name"), "Alice");
    assert_eq!(state.get_or_init_buffer("other"), "");
    assert!(state.is_clean());
    assert!(!state.has_error("name"));
    assert_eq!(state.error("name"), None);
    assert_eq!(state.selected("selected_alternative", 2), 2);
    state.select("selected_alternative", 1);
    assert_eq!(state.selected("selected_alternative", 2), 1);
    assert_eq!(state.selected("section_1", 0), 0);
    assert_eq!(state.float_value("w"), None);
    state.set_float_buffer("w", "1.5".to_string(), Some(1.5f64.to_bits()));
    assert_eq!(state.float_value("w").map(f64::from_bits), Some(1.5));
    assert_eq!(state.get_or_init_buffer("w"), "1.5");
    state.set_float_buffer("w", "1.5x".to_string(), None);
    assert_eq!(state.float_value("w"), None);
    assert_eq!(state.get_or_init_buffer("w"), "1.5x");
}

#[test]
fn shown_values_follow_buffer_and_default() {
    let q = IntQuestion {
        default: Some(7),
        min: Some(1),
        max: None,
        validate_on_key: None,
        validate_on_submit: None,
    };
    assert_eq!(shown_int("", &q), 7);
    assert_eq!(shown_int("12", &q), 12);
    assert_eq!(shown_int("twelve", &q), 0);
    assert_eq!(int_range(&q), Some((1, i64::MAX)));
    let open = IntQuestion { default: None, min: None, max: None, ..q.clone() };
    assert_eq!(shown_int("", &open), 0);
    assert_eq!(int_range(&open), None);
    assert_eq!(int_range(&IntQuestion { min: None, max: Some(9), ..q.clone() }), Some((i64::MIN, 9)));
    assert_eq!(int_range(&IntQuestion { min: Some(2), max: Some(9), ..q.clone() }), Some((2, 9)));
    assert!(shown_bool("", true));
    assert!(!shown_bool("", false));
    assert!(shown_bool("true", false));
    assert!(!shown_bool("false", true));
    assert!(!shown_bool("yes", true));
    assert_eq!(bool_text(true), "true");
    assert_eq!(bool_text(false), "false");
    assert_eq!(section_place_of("", 0), "");
    assert_eq!(section_place_of("", 3), "section_3");
    assert_eq!(section_place_of("payment", 0), "payment");
    assert_eq!(section_place_of("payment", 12), "payment.section_12");
    assert_eq!(branch_place_of("", 2), "branch_2");
    assert_eq!(branch_place_of("section_1", 0), "section_1.branch_0");
    assert_eq!(choice_key_of(""), "selected_alternative");
    assert_eq!(choice_key_of("payment"), "payment.selected_alternative");
    assert_eq!(choice_key_of(&section_place_of("", 1)), "section_1.selected_alternative");
}

#[test]
fn a_filled_form_gives_its_answers() {
    let mut form = EguiBackend::new(UserProfile::interview());
    assert!(!form.is_completed());
    assert!(form.result().is_none());
    form.state_mut().set_buffer("name", "Alice".to_string());
    form.state_mut().set_buffer("age", "30".to_string());
    form.state_mut().set_buffer("email", "alice@example.com".to_string());
    form.state_mut().set_buffer("newsletter", "true".to_string());
    assert!(form.submit());
    assert!(form.is_completed());
    assert!(form.state().is_clean());
    let answers = answers_of(&form);
    assert_eq!(answers.len(), 5);
    assert_eq!(answers.as_string("bio").unwrap(), "");
    let profile = UserProfile::from_answers(answers).unwrap();
    assert_eq!(profile.name, "Alice");
    assert_eq!(profile.age, 30);
    assert!(profile.newsletter);
    assert_eq!(form.interview().sections.len(), 1);
}

#[test]
fn an_empty_form_falls_back_on_defaults() {
    let mut interview = UserProfile::interview();
    if let Section::Sequence(s) = &mut interview.sections[0] {
        assert!(s.sequence[0].set_default(QuestionDefault::String("Nobody".to_string())));
        assert!(s.sequence[1].set_default(QuestionDefault::Int(42)));
        assert!(s.sequence[4].set_default(QuestionDefault::Bool(true)));
    }
    let mut form = EguiBackend::new(interview);
    assert!(form.validate_and_save_all());
    assert!(!form.is_completed());
    let answers = answers_of(&form);
    assert_eq!(answers.as_string("name").unwrap(), "Nobody");
    assert_eq!(answers.as_int("age").unwrap(), 42);
    assert_eq!(answers.as_string("email").unwrap(), "");
    assert!(answers.as_bool("newsletter").unwrap());
    let mut plain = EguiBackend::new(UserProfile::interview());
    assert!(plain.submit());
    assert_eq!(answers_of(&plain).as_int("age").unwrap(), 0);
}

#[test]
fn a_form_with_errors_is_not_completed() {
    let mut form = EguiBackend::new(UserProfile::interview());
    form.state_mut().set_buffer("name", "Alice".to_string());
    form.state_mut().set_buffer("age", "thirty".to_string());
    assert!(!form.submit());
    assert!(!form.is_completed());
    assert!(form.result().is_none());
    assert_eq!(form.state().error("age").map(String::as_str), Some("Please enter a valid integer"));
    assert!(!form.state().has_error("name"));
    form.state_mut().set_buffer("age", "151".to_string());
    assert!(!form.submit());
    assert_eq!(form.state().error("age").map(String::as_str), Some("Value must be at most 150"));
    form.state_mut().set_buffer("age", "150".to_string());
    assert!(form.submit());
    assert!(form.is_completed());
    assert!(form.state().is_clean());
    assert_eq!(answers_of(&form).as_int("age").unwrap(), 150);
    form.state_mut().set_buffer("age", "-1".to_string());
    assert!(!form.submit());
    assert!(form.is_completed());
    assert_eq!(answers_of(&form).as_int("age").unwrap(), 150);
}

#[test]
fn a_form_runs_its_validators() {
    let fill = |form: &mut InterviewState| {
        form.set_buffer("username", "ada".to_string());
        form.set_buffer("email", "ada".to_string());
        form.set_buffer("password", "short".to_string());
        form.set_buffer("age", "36".to_string());
    };
    let mut unchecked = EguiBackend::new(AccountCreation::interview());
    fill(unchecked.state_mut());
    assert!(unchecked.submit());
    let mut form = EguiBackend::new(AccountCreation::interview()).with_validators(SurveyValidators);
    fill(form.state_mut());
    assert!(!form.submit());
    assert_eq!(form.state().error("email").map(String::as_str), Some("Email must contain '@' symbol"));
    assert_eq!(
        form.state().error("password").map(String::as_str),
        Some("Password must be at least 8 characters")
    );
    assert!(!form.state().has_error("username"));
    assert!(!form.state().has_error("age"));
    form.state_mut().set_buffer("email", "ada@example.com".to_string());
    form.state_mut().set_buffer("password", "Passw0rd".to_string());
    assert!(form.submit());
    assert_eq!(AccountCreation::from_answers(answers_of(&form)).unwrap().email, "ada@example.com");
    let mut salary = EguiBackend::new(Salary::interview()).with_validators(SurveyValidators);
    salary.state_mut().set_buffer("base", "200".to_string());
    salary.state_mut().set_buffer("bonus", "51".to_string());
    assert!(!salary.submit());
    assert_eq!(
        salary.state().error("bonus").map(String::as_str),
        Some("Total comp $251k exceeds $250k limit")
    );
    salary.state_mut().set_buffer("bonus", "50".to_string());
    assert!(salary.submit());
    assert_eq!(answers_of(&salary).as_int("bonus").unwrap(), 50);
}

#[test]
fn a_form_saves_the_chosen_branch() {
    let mut form = EguiBackend::new(PaymentMethod::interview());
    form.state_mut().set_buffer("card_number", "1234".to_string());
    form.state_mut().set_buffer("cvv", "999".to_string());
    form.state_mut().set_buffer("PayPal field 0", "a@b.c".to_string());
    assert!(form.submit());
    let card = PaymentMethod::from_answers(answers_of(&form)).unwrap();
    assert!(matches!(card, PaymentMethod::CreditCard { ref card_number, ref cvv } if card_number == "1234" && cvv == "999"));
    assert!(!answers_of(&form).contains_key("PayPal field 0"));
    form.state_mut().select("selected_alternative", 1);
    assert!(form.submit());
    let paypal = PaymentMethod::from_answers(answers_of(&form)).unwrap();
    assert!(matches!(paypal, PaymentMethod::PayPal(ref email) if email == "a@b.c"));
    assert_eq!(answers_of(&form).len(), 2);
    form.state_mut().select("selected_alternative", 2);
    assert!(form.submit());
    assert_eq!(answers_of(&form).len(), 1);
    assert_eq!(answers_of(&form).as_string("selected_alternative").unwrap(), "CashOnDelivery");
    form.state_mut().select("selected_alternative", 7);
    assert!(form.submit());
    assert_eq!(answers_of(&form).len(), 0);
}

#[test]
fn a_form_scopes_nested_choices() {
    let mut form = EguiBackend::new(Checkout::interview());
    form.state_mut().select("shipping.selected_alternative", 2);
    form.state_mut().select("payment.selected_alternative", 3);
    form.state_mut().set_buffer("payment.Other field 0", "barter".to_string());
    assert!(form.submit());
    let answers = answers_of(&form);
    assert_eq!(answers.as_string("shipping.selected_alternative").unwrap(), "Overnight");
    assert_eq!(answers.as_string("payment.selected_alternative").unwrap(), "Other");
    let checkout = Checkout::from_answers(answers).unwrap();
    assert_eq!(format!("{:?}", checkout.shipping), "Overnight");
    assert!(matches!(checkout.payment, PaymentMethod::Other(ref t) if t == "barter"));
}

#[test]
fn floats_and_lists_in_a_form() {
    let float = Question::new(
        None,
        "weight".to_string(),
        "Weight:".to_string(),
        QuestionKind::Float(FloatQuestion {
            default: Some(70.5f64.to_bits()),
            min: Some(20f64.to_bits()),
            max: Some(300f64.to_bits()),
            validate_on_key: None,
            validate_on_submit: None,
        }),
    ).unwrap();
    let mut form = EguiBackend::new(Interview::of_sequence(vec![float]));
    assert!(form.submit());
    assert_eq!(f64::from_bits(answers_of(&form).as_float("weight").unwrap()), 70.5);
    form.state_mut().set_float_buffer("weight", "abc".to_string(), None);
    assert!(!form.submit());
    assert_eq!(
        form.state().error("weight").map(String::as_str),
        Some("Please enter a valid decimal number")
    );
    form.state_mut().set_float_buffer("weight", "19.5".to_string(), Some(19.5f64.to_bits()));
    assert!(!form.submit());
    assert_eq!(form.state().error("weight").map(String::as_str), Some("Value is below the minimum"));
    form.state_mut().set_float_buffer("weight", "300".to_string(), Some(300f64.to_bits()));
    assert!(form.submit());
    assert_eq!(f64::from_bits(answers_of(&form).as_float("weight").unwrap()), 300.0);
    let list = Question::new(
        None,
        "items".to_string(),
        "Items:".to_string(),
        QuestionKind::List(ListQuestion {
            element: ListElement::Text,
            min: None,
            max: None,
            validate_on_submit: None,
        }),
    ).unwrap();
    let mut state = InterviewState::new();
    let mut answers = Answers::new();
    let section = Interview::of_sequence(vec![list, Question::confirm("ok", "OK?")]).sections.remove(0);
    assert!(!validate_section(&mut state, &section, "", "", &mut answers, &NoValidators));
    assert_eq!(state.error("items").map(String::as_str), Some("Lists cannot be entered in this form"));
    assert_eq!(answers.len(), 1);
    assert!(!answers.as_bool("ok").unwrap());
    assert!(validate_section(&mut state, &Section::Empty, "", "", &mut answers, &NoValidators));
}

#[test]
fn a_form_does_not_execute() {
    let form = EguiBackend::new(UserProfile::interview());
    match form.execute(&UserProfile::interview(), Answers::new()) {
        Err(BackendError::Custom(m)) => assert_eq!(
            m,
            "EguiBackend::execute should not be called directly. Use show() method instead."
        ),
        other => panic!("{:?}", other),
    }
    assert!(matches!(form.execute_section(&Section::Empty), Err(BackendError::Custom(_))));
}

fn choice(names: &[&str]) -> Section {
    Section::Alternatives(0, names.iter().map(|n| Alternative::unit(n)).collect())
}

#[test]
fn two_choices_keep_their_own_selections() {
    let interview = Interview {
        sections: vec![choice(&["Red", "Green"]), choice(&["Small", "Large"]), choice(&["A", "B", "C"])],
    };
    let mut form = EguiBackend::new(interview);
    form.state_mut().select("selected_alternative", 1);
    form.state_mut().select("section_2.selected_alternative", 2);
    assert!(form.submit());
    let answers = answers_of(&form);
    assert_eq!(answers.len(), 3);
    assert_eq!(answers.as_string("selected_alternative").unwrap(), "Green");
    assert_eq!(answers.as_string("section_1.selected_alternative").unwrap(), "Small");
    assert_eq!(answers.as_string("section_2.selected_alternative").unwrap(), "C");
}

#[test]
fn a_choice_in_a_branch_keeps_its_own_selection() {
    let inner = choice(&["Matte", "Glossy"]);
    let outer = Section::Alternatives(
        1,
        vec![
            Alternative::unit("Plain"),
            Alternative { name: "Painted".to_string(), section: inner },
        ],
    );
    let mut form = EguiBackend::new(Interview { sections: vec![outer, choice(&["X", "Y"])] });
    form.state_mut().select("branch_1.selected_alternative", 1);
    form.state_mut().select("section_1.selected_alternative", 1);
    assert!(form.submit());
    let answers = answers_of(&form);
    assert_eq!(answers.len(), 3);
    assert_eq!(answers.as_string("selected_alternative").unwrap(), "Painted");
    assert_eq!(answers.as_string("branch_1.selected_alternative").unwrap(), "Glossy");
    assert_eq!(answers.as_string("section_1.selected_alternative").unwrap(), "Y");
    form.state_mut().select("selected_alternative", 0);
    assert!(form.submit());
    assert_eq!(answers_of(&form).len(), 2);
    assert_eq!(answers_of(&form).as_string("selected_alternative").unwrap(), "Plain");
}

#[test]
fn an_untouched_optional_question_leaves_no_answer() {
    let interview = Interview::of_sequence(vec![
        Question::input("name", "Name:", None),
        Question::input("nick", "Nickname:", None).skippable(),
        Question::integer("level", "Level:", Some(0), Some(5), None).skippable(),
        Question::confirm("ok", "OK?").skippable(),
        Question::masked("secret", "Secret:", None).skippable(),
    ]);
    let mut form = EguiBackend::new(interview);
    assert!(form.submit());
    let answers = answers_of(&form);
    assert_eq!(answers.len(), 2);
    assert_eq!(answers.as_string("name").unwrap(), "");
    assert!(!answers.as_bool("ok").unwrap());
    assert!(!answers.contains_key("nick"));
    assert!(!answers.contains_key("level"));
    assert!(!answers.contains_key("secret"));
    let mut filled = EguiBackend::new(Interview::of_sequence(vec![
        Question::input("nick", "Nickname:", None).skippable(),
        Question::integer("level", "Level:", Some(0), Some(5), None).skippable(),
    ]));
    filled.state_mut().set_buffer("nick", "ada".to_string());
    filled.state_mut().set_buffer("level", "6".to_string());
    assert!(!filled.submit());
    assert!(filled.state().has_error("level"));
    filled.state_mut().set_buffer("level", "5".to_string());
    assert!(filled.submit());
    assert_eq!(answers_of(&filled).as_string("nick").unwrap(), "ada");
    assert_eq!(answers_of(&filled).as_int("level").unwrap(), 5);
    let mut with_default = Question::input("nick", "Nickname:", None).skippable();
    assert!(with_default.set_default(QuestionDefault::String("anon".to_string())));
    let mut defaulted = EguiBackend::new(Interview::of_sequence(vec![with_default]));
    assert!(defaulted.submit());
    assert_eq!(answers_of(&defaulted).as_string("nick").unwrap(), "anon");
}

#[test]
fn a_completed_form_is_not_submitted_again() {
    let mut form = EguiBackend::new(UserProfile::interview());
    form.state_mut().set_buffer("age", "x".to_string());
    assert!(!form.step(false));
    assert!(form.state().is_clean());
    assert!(!form.step(true));
    assert!(form.state().has_error("age"));
    form.state_mut().set_buffer("age", "30".to_string());
    assert!(form.step(true));
    assert!(form.is_completed());
    form.state_mut().set_buffer("age", "y".to_string());
    assert!(form.step(true));
    assert!(form.state().is_clean());
    assert_eq!(answers_of(&form).as_int("age").unwrap(), 30);
}

#[test]
fn a_form_starts_from_the_assumed_answers() {
    let mut assumed = Answers::new();
    assumed.insert("a".to_string(), derive_wizard::AnswerValue::Int(70));
    let field = |name: &str| {
        let mut q = Question::integer(name, "Points:", None, None, None);
        q.set_propagated(Some("total".to_string()));
        q
    };
    let sum = SumAtMost { limit: 75, fields: vec!["a".to_string(), "b".to_string()] };
    let mut form = EguiBackend::new(Interview::of_sequence(vec![field("b")]))
        .with_validators(sum)
        .with_answers(assumed);
    form.state_mut().set_buffer("b", "6".to_string());
    assert!(!form.submit());
    assert_eq!(form.state().error("b").map(String::as_str), Some("Total 76 exceeds the limit of 75"));
    form.state_mut().set_buffer("b", "5".to_string());
    assert!(form.submit());
    assert_eq!(answers_of(&form).len(), 2);
    assert_eq!(answers_of(&form).as_int("a").unwrap(), 70);
    assert_eq!(answers_of(&form).as_int("b").unwrap(), 5);
}
