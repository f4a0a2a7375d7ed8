use std::cell::Cell;
use std::rc::Rc;

use derive_wizard::backend::{InterviewBackend, TestBackend};
use derive_wizard::interview::{Interview, Section};
use derive_wizard::question::{Question, QuestionKind};
use derive_wizard::reconstruct::{choices_value, read_choices, Choice};
use derive_wizard::resolve::{keys_of, resolve};
use derive_wizard::schema::{attach_tree, flatten_field};
use derive_wizard::surveys::app_settings::AppSettings;
use derive_wizard::surveys::enum_oneof::{Checkout, PaymentMethod, ShippingMethod};
use derive_wizard::surveys::job_application::FocusArea;
use derive_wizard::surveys::masked_input::{Login, Passwords};
use derive_wizard::surveys::min_max_bounds::GameSettings;
use derive_wizard::surveys::multiline_text::BlogPost;
use derive_wizard::surveys::nested_struct::{Address, ContactInfo, UserRegistration};
use derive_wizard::surveys::order_form::{OrderForm, PaymentMethod2, ShippingAddress, ShippingSpeed};
use derive_wizard::surveys::simple_spooky_forest::SimpleRole;
use derive_wizard::surveys::user_profile::UserProfile;
use derive_wizard::surveys::validation::AccountCreation;
use derive_wizard::wizard::{wizard_builder, NoBackend};
use derive_wizard::{
    AnswerError, AnswerValue, Answers, AssumedAnswer, BackendError, Wizard, WizardBuilder,
};

fn all_keys(interview: &Interview) -> Vec<String> {
    keys_of(interview)
}

fn settings() -> AppSettings {
    AppSettings {
        app_name: "my-awesome-app".to_string(),
        port: 8080,
        max_connections: 100,
        timeout: 30,
        debug_mode: false,
        log_path: "/var/log/app.log".to_string(),
    }
}

#[test]
fn round_trip_of_a_flat_struct() {
    let profile = UserProfile {
        name: "Alice".to_string(),
        age: 30,
        email: "alice@example.com".to_string(),
        bio: "Line one\nLine two".to_string(),
        newsletter: true,
    };
    let backend = TestBackend::new()
        .with_string("name", "Alice")
        .with_int("age", 30)
        .with_string("email", "alice@example.com")
        .with_string("bio", "Line one\nLine two")
        .with_bool("newsletter", true);
    let built: UserProfile = wizard_builder().with_backend(backend).build().unwrap();
    assert_eq!(built.name, profile.name);
    assert_eq!(built.age, profile.age);
    assert_eq!(built.email, profile.email);
    assert_eq!(built.bio, profile.bio);
    assert_eq!(built.newsletter, profile.newsletter);
    let again = UserProfile::from_answers(&profile.to_answers()).unwrap();
    assert_eq!(format!("{:?}", again), format!("{:?}", profile));
    assert_eq!(
        all_keys(&UserProfile::interview()),
        vec!["name", "age", "email", "bio", "newsletter"]
    );
}

#[test]
fn round_trip_of_every_survey() {
    fn check<T: Wizard + std::fmt::Debug>(value: T) {
        let answers = value.to_answers();
        let back = T::from_answers(&answers).unwrap();
        assert_eq!(format!("{:?}", back), format!("{:?}", value));
        let replayed = WizardBuilder::<T, NoBackend>::new()
            .with_backend(Replay(answers.duplicate()))
            .build()
            .unwrap();
        assert_eq!(format!("{:?}", replayed), format!("{:?}", value));
        let built = WizardBuilder::<T, NoBackend>::new()
            .with_backend(TestBackend::with_answers(answers))
            .build()
            .unwrap();
        assert_eq!(format!("{:?}", built), format!("{:?}", value));
    }
    check(settings());
    check(GameSettings { difficulty: 10, volume: 0, brightness: -50, sensitivity: 1 });
    check(GameSettings { difficulty: u32::MAX, volume: 0, brightness: i32::MAX, sensitivity: 1 });
    check(BlogPost { title: "T".to_string(), content: "".to_string(), notes: "n".to_string() });
    check(Passwords { password: "a".to_string(), password_confirm: "b".to_string() });
    check(Login {
        username: "ada".to_string(),
        passwords: Passwords { password: "x".to_string(), password_confirm: "x".to_string() },
    });
    check(AccountCreation {
        username: "ada".to_string(),
        email: "a@b.c".to_string(),
        password: "Passw0rd".to_string(),
        age: 36,
    });
    check(Address {
        street: "1 Main St".to_string(),
        city: "Town".to_string(),
        postal_code: "12345".to_string(),
        country: "Land".to_string(),
    });
    check(ShippingAddress {
        street: "1 Main St".to_string(),
        city: "Town".to_string(),
        state: "ST".to_string(),
        postal_code: "12345".to_string(),
        country: "Land".to_string(),
    });
    check(UserRegistration {
        name: "Ada".to_string(),
        age: 36,
        contact: ContactInfo { email: "a@b.c".to_string(), phone: "555".to_string() },
        address: Address {
            street: "1 Main St".to_string(),
            city: "Town".to_string(),
            postal_code: "12345".to_string(),
            country: "Land".to_string(),
        },
    });
    check(ShippingMethod::Standard);
    check(ShippingMethod::Overnight);
    check(PaymentMethod::CashOnDelivery);
    check(PaymentMethod::PayPal("a@b.c".to_string()));
    check(PaymentMethod::Other("barter".to_string()));
    check(PaymentMethod::CreditCard { card_number: "1234".to_string(), cvv: "123".to_string() });
    check(Checkout {
        shipping: ShippingMethod::Express,
        payment: PaymentMethod::CreditCard { card_number: "1234".to_string(), cvv: "123".to_string() },
    });
    check(Checkout { shipping: ShippingMethod::Standard, payment: PaymentMethod::CashOnDelivery });
    check(ShippingSpeed::Express);
    check(SimpleRole::Mage);
    check(SimpleRole::Other("Bard".to_string()));
    check(PaymentMethod2::CashOnDelivery);
    check(PaymentMethod2::PayPal { email: "a@b.c".to_string() });
    check(PaymentMethod2::BankTransfer {
        account_number: "123".to_string(),
        routing_number: "456".to_string(),
    });
    check(order());
    check(OrderForm { payment_method: PaymentMethod2::CashOnDelivery, ..order() });
}

fn order() -> OrderForm {
    OrderForm {
        customer_name: "Ada".to_string(),
        email: "a@b.c".to_string(),
        phone: "555".to_string(),
        shipping_address: ShippingAddress {
            street: "1 Main St".to_string(),
            city: "Town".to_string(),
            state: "ST".to_string(),
            postal_code: "12345".to_string(),
            country: "Land".to_string(),
        },
        shipping_speed: ShippingSpeed::Overnight,
        payment_method: PaymentMethod2::CreditCard {
            card_number: "1234".to_string(),
            expiry: "01/30".to_string(),
            cvv: "999".to_string(),
        },
        notes: "Ring twice\nLeave at the door".to_string(),
        save_details: true,
    }
}

#[test]
fn an_order_is_spelled_under_scoped_keys() {
    let answers = order().to_answers();
    assert_eq!(answers.len(), 15);
    assert_eq!(answers.as_string("shipping_address.state").unwrap(), "ST");
    assert_eq!(answers.as_string("shipping_speed.selected_alternative").unwrap(), "Overnight");
    assert_eq!(answers.as_string("payment_method.selected_alternative").unwrap(), "CreditCard");
    assert_eq!(answers.as_string("payment_method.expiry").unwrap(), "01/30");
    assert_eq!(
        all_keys(&OrderForm::interview()),
        vec![
            "customer_name", "email", "phone", "shipping_address.street", "shipping_address.city",
            "shipping_address.state", "shipping_address.postal_code", "shipping_address.country",
            "payment_method.card_number", "payment_method.expiry", "payment_method.cvv",
            "payment_method.email", "payment_method.account_number",
            "payment_method.routing_number", "notes", "save_details"
        ]
    );
    let mut partial = order().to_answers();
    partial.insert("payment_method.selected_alternative".to_string(), AnswerValue::String("PayPal".to_string()));
    match OrderForm::from_answers(&partial) {
        Err(BackendError::Answer(AnswerError::MissingKey(key))) => assert_eq!(key, "payment_method.email"),
        other => panic!("{:?}", other),
    }
    partial.insert("shipping_speed.selected_alternative".to_string(), AnswerValue::String("Slow".to_string()));
    match OrderForm::from_answers(&partial) {
        Err(BackendError::Answer(AnswerError::TypeMismatch { key, expected })) => {
            assert_eq!(key, "shipping_speed.selected_alternative");
            assert_eq!(expected, "ShippingSpeed");
        },
        other => panic!("{:?}", other),
    }
    let role = SimpleRole::Other("Bard".to_string()).to_answers();
    assert_eq!(role.as_string("selected_alternative").unwrap(), "Other");
    assert_eq!(role.as_string("Other field 0").unwrap(), "Bard");
}

struct Replay(Answers);

impl InterviewBackend for Replay {
    fn execute(&self, _interview: &Interview, _answers: Answers) -> Result<Answers, BackendError> {
        Ok(self.0.duplicate())
    }

    fn executes_sections(&self) -> bool {
        true
    }

    fn execute_section(&self, _section: &Section) -> Result<Answers, BackendError> {
        Ok(self.0.duplicate())
    }
}

#[test]
fn surveys_spell_their_values_under_their_paths() {
    let registration = UserRegistration {
        name: "Ada".to_string(),
        age: 36,
        contact: ContactInfo { email: "a@b.c".to_string(), phone: "555".to_string() },
        address: Address {
            street: "1 Main St".to_string(),
            city: "Town".to_string(),
            postal_code: "12345".to_string(),
            country: "Land".to_string(),
        },
    };
    let answers = registration.to_answers();
    assert_eq!(answers.len(), 8);
    assert_eq!(answers.as_string("contact.email").unwrap(), "a@b.c");
    assert_eq!(answers.as_string("address.postal_code").unwrap(), "12345");
    assert_eq!(answers.as_int("age").unwrap(), 36);
    assert_eq!(
        all_keys(&UserRegistration::interview()),
        vec![
            "name", "age", "contact.email", "contact.phone", "address.street", "address.city",
            "address.postal_code", "address.country"
        ]
    );
    let checkout = Checkout {
        shipping: ShippingMethod::Express,
        payment: PaymentMethod::PayPal("a@b.c".to_string()),
    };
    let answers = checkout.to_answers();
    assert_eq!(answers.len(), 3);
    assert_eq!(answers.as_string("shipping.selected_alternative").unwrap(), "Express");
    assert_eq!(answers.as_string("payment.selected_alternative").unwrap(), "PayPal");
    assert_eq!(answers.as_string("payment.PayPal field 0").unwrap(), "a@b.c");
    assert_eq!(
        all_keys(&Checkout::interview()),
        vec!["payment.card_number", "payment.cvv", "payment.PayPal field 0", "payment.Other field 0"]
    );
    let standalone = PaymentMethod::PayPal("a@b.c".to_string()).to_answers();
    assert_eq!(standalone.as_string("selected_alternative").unwrap(), "PayPal");
    assert_eq!(standalone.as_string("PayPal field 0").unwrap(), "a@b.c");
}

#[test]
fn reconstruction_fails_on_missing_and_mismatched_answers() {
    let mut answers = settings().to_answers();
    answers.insert("port".to_string(), AnswerValue::String("8080".to_string()));
    match AppSettings::from_answers(&answers) {
        Err(BackendError::Answer(AnswerError::TypeMismatch { key, expected })) => {
            assert_eq!(key, "port");
            assert_eq!(expected, "Int");
        },
        other => panic!("{:?}", other),
    }
    let backend = TestBackend::new().with_string("app_name", "x");
    match wizard_builder::<AppSettings>().with_backend(backend).build() {
        Err(BackendError::Answer(AnswerError::MissingKey(key))) => assert_eq!(key, "port"),
        other => panic!("{:?}", other),
    }
    let mut game = GameSettings { difficulty: 1, volume: 2, brightness: 3, sensitivity: 4 }.to_answers();
    game.insert("volume".to_string(), AnswerValue::Int(-1));
    match GameSettings::from_answers(&game) {
        Err(BackendError::Answer(AnswerError::TypeMismatch { key, expected })) => {
            assert_eq!(key, "volume");
            assert_eq!(expected, "Int");
        },
        other => panic!("{:?}", other),
    }
    game.insert("volume".to_string(), AnswerValue::Int(u32::MAX as i64 + 1));
    assert!(GameSettings::from_answers(&game).is_err());
    game.insert("volume".to_string(), AnswerValue::Int(u32::MAX as i64));
    assert_eq!(GameSettings::from_answers(&game).unwrap().volume, u32::MAX);
    let mut choice = Answers::new();
    choice.insert("selected_alternative".to_string(), AnswerValue::String("Teleport".to_string()));
    match ShippingMethod::from_answers(&choice) {
        Err(BackendError::Answer(AnswerError::TypeMismatch { key, expected })) => {
            assert_eq!(key, "selected_alternative");
            assert_eq!(expected, "ShippingMethod");
        },
        other => panic!("{:?}", other),
    }
    choice.insert("selected_alternative".to_string(), AnswerValue::String("CreditCard".to_string()));
    choice.insert("card_number".to_string(), AnswerValue::String("1".to_string()));
    match PaymentMethod::from_answers(&choice) {
        Err(BackendError::Answer(AnswerError::MissingKey(key))) => assert_eq!(key, "cvv"),
        other => panic!("{:?}", other),
    }
    match Checkout::from_answers(&Answers::new()) {
        Err(BackendError::Answer(AnswerError::MissingKey(key))) => {
            assert_eq!(key, "shipping.selected_alternative")
        },
        other => panic!("{:?}", other),
    }
}

#[test]
fn a_builder_without_backend_fails() {
    match wizard_builder::<AppSettings>().build() {
        Err(BackendError::ExecutionError(m)) => assert_eq!(m, "No backend specified"),
        other => panic!("{:?}", other),
    }
}

struct Counting {
    seen: Rc<Cell<Option<usize>>>,
}

impl InterviewBackend for Counting {
    fn execute(&self, interview: &Interview, answers: Answers) -> Result<Answers, BackendError> {
        self.seen.set(Some(all_keys(interview).len()));
        Ok(answers)
    }

    fn execute_section(&self, _section: &Section) -> Result<Answers, BackendError> {
        Err(BackendError::Custom("execute_section not implemented".to_string()))
    }
}

struct Cancelled;

impl InterviewBackend for Cancelled {
    fn execute(&self, _interview: &Interview, _answers: Answers) -> Result<Answers, BackendError> {
        Err(BackendError::ExecutionError("cancelled".to_string()))
    }

    fn executes_sections(&self) -> bool {
        true
    }

    fn execute_section(&self, _section: &Section) -> Result<Answers, BackendError> {
        Err(BackendError::ExecutionError("cancelled".to_string()))
    }
}

#[test]
fn assumption_elides_presentation() {
    let none = Answers::new();
    let mut assumed = Answers::new();
    assumed.insert("app_name".to_string(), AnswerValue::String("prod".to_string()));
    assumed.insert("port".to_string(), AnswerValue::Int(443));
    let some = resolve(&AppSettings::interview(), &none, &assumed);
    assert_eq!(all_keys(&some), vec!["max_connections", "timeout", "debug_mode", "log_path"]);
    assumed.insert("max_connections".to_string(), AnswerValue::Int(5000));
    assumed.insert("timeout".to_string(), AnswerValue::Int(60));
    assumed.insert("debug_mode".to_string(), AnswerValue::Bool(false));
    assumed.insert("log_path".to_string(), AnswerValue::String("/dev/null".to_string()));
    assumed.insert("unknown".to_string(), AnswerValue::Int(1));
    let all = resolve(&AppSettings::interview(), &none, &assumed);
    assert_eq!(all_keys(&all), Vec::<String>::new());
    let seen = Rc::new(Cell::new(None));
    let built: AppSettings = wizard_builder()
        .assume_field("app_name", AssumedAnswer::from("prod".to_string()))
        .assume_field("port", AssumedAnswer::from(443i64))
        .assume_field("max_connections", AssumedAnswer::Int(5000))
        .assume_field("timeout", AssumedAnswer::Int(60))
        .assume_field("debug_mode", AssumedAnswer::from(false))
        .assume_field("log_path", AssumedAnswer::String("/dev/null".to_string()))
        .with_backend(Counting { seen: seen.clone() })
        .build()
        .unwrap();
    assert_eq!(seen.get(), Some(0));
    assert_eq!(built.app_name, "prod");
    assert_eq!(built.port, 443);
    assert_eq!(built.max_connections, 5000);
    assert_eq!(built.timeout, 60);
    assert!(!built.debug_mode);
    assert_eq!(built.log_path, "/dev/null");
    let counting = Counting { seen: Rc::new(Cell::new(None)) };
    counting.execute(&all, Answers::new()).unwrap();
    assert_eq!(counting.seen.get(), Some(0));
    counting.execute(&some, Answers::new()).unwrap();
    assert_eq!(counting.seen.get(), Some(4));
}

#[test]
fn assumptions_take_precedence_over_answers() {
    let backend = TestBackend::new()
        .with_string("app_name", "asked")
        .with_int("port", 8080)
        .with_int("max_connections", 100)
        .with_int("timeout", 30)
        .with_bool("debug_mode", true)
        .with_string("log_path", "/tmp/log");
    let built: AppSettings = wizard_builder()
        .assume_field("port", AssumedAnswer::Int(443))
        .with_backend(backend)
        .build()
        .unwrap();
    assert_eq!(built.port, 443);
    assert_eq!(built.app_name, "asked");
    assert!(built.debug_mode);
    let failed = wizard_builder::<AppSettings>()
        .assume_field("port", AssumedAnswer::Int(443))
        .with_backend(Cancelled)
        .build();
    assert!(matches!(failed, Err(BackendError::ExecutionError(m)) if m == "cancelled"));
}

#[test]
fn an_assumed_branch_takes_the_place_of_the_choice() {
    let none = Answers::new();
    let mut assumed = Answers::new();
    assumed.insert("payment.selected_alternative".to_string(), AnswerValue::String("PayPal".to_string()));
    assumed.insert("payment.cvv".to_string(), AnswerValue::String("123".to_string()));
    let tree = resolve(&Checkout::interview(), &none, &assumed);
    assert_eq!(all_keys(&tree), vec!["payment.PayPal field 0"]);
    let payment = match &tree.sections[0] {
        Section::Sequence(s) => match s.sequence[1].kind() {
            QuestionKind::Nested(n) => &n.interview,
            other => panic!("{:?}", other),
        },
        other => panic!("{:?}", other),
    };
    assert!(matches!(payment.sections[0], Section::Sequence(_)));
    let mut other = Answers::new();
    other.insert("payment.selected_alternative".to_string(), AnswerValue::String("Barter".to_string()));
    other.insert("payment.cvv".to_string(), AnswerValue::String("123".to_string()));
    let kept = resolve(&Checkout::interview(), &none, &other);
    assert_eq!(
        all_keys(&kept),
        vec!["payment.card_number", "payment.PayPal field 0", "payment.Other field 0"]
    );
}

#[test]
fn suggestion_edits_without_skipping() {
    let suggested = settings();
    let tree = suggested.interview_with_suggestions();
    assert_eq!(all_keys(&tree), all_keys(&AppSettings::interview()));
    let questions = match &tree.sections[0] {
        Section::Sequence(s) => &s.sequence,
        other => panic!("{:?}", other),
    };
    assert!(matches!(questions[0].kind(), QuestionKind::Input(q) if q.default.as_deref() == Some("my-awesome-app")));
    assert!(matches!(questions[1].kind(), QuestionKind::Int(q) if q.default == Some(8080) && q.min == Some(1024) && q.max == Some(65535)));
    assert!(matches!(questions[4].kind(), QuestionKind::Confirm(q) if !q.default));
    assert_eq!(questions[1].prompt(), "Port number:");
    let backend = TestBackend::new()
        .with_string("app_name", "another-app")
        .with_int("port", 9090)
        .with_int("max_connections", 100)
        .with_int("timeout", 31)
        .with_bool("debug_mode", true)
        .with_string("log_path", "/var/log/app.log");
    let built: AppSettings =
        wizard_builder().with_suggestions(settings()).with_backend(backend).build().unwrap();
    assert_eq!(built.app_name, "another-app");
    assert_eq!(built.port, 9090);
    assert_eq!(built.max_connections, 100);
    assert_eq!(built.timeout, 31);
    assert!(built.debug_mode);
    assert_eq!(built.log_path, "/var/log/app.log");
}

#[test]
fn a_suggested_branch_becomes_the_default() {
    let checkout = Checkout {
        shipping: ShippingMethod::Overnight,
        payment: PaymentMethod::CreditCard { card_number: "1234".to_string(), cvv: "999".to_string() },
    };
    let tree = checkout.interview_with_suggestions();
    let questions = match &tree.sections[0] {
        Section::Sequence(s) => &s.sequence,
        other => panic!("{:?}", other),
    };
    match questions[0].kind() {
        QuestionKind::Nested(n) => {
            assert!(matches!(&n.interview.sections[0], Section::Alternatives(2, alts) if alts.len() == 3))
        },
        other => panic!("{:?}", other),
    }
    match questions[1].kind() {
        QuestionKind::Nested(n) => match &n.interview.sections[0] {
            Section::Alternatives(0, alts) => {
                assert_eq!(alts.len(), 4);
                match &alts[0].section {
                    Section::Sequence(s) => {
                        assert!(matches!(s.sequence[1].kind(), QuestionKind::Input(q) if q.default.as_deref() == Some("999")))
                    },
                    other => panic!("{:?}", other),
                }
                match &alts[1].section {
                    Section::Sequence(s) => {
                        assert!(matches!(s.sequence[0].kind(), QuestionKind::Input(q) if q.default.is_none()))
                    },
                    other => panic!("{:?}", other),
                }
            },
            other => panic!("{:?}", other),
        },
        other => panic!("{:?}", other),
    }
    assert_eq!(all_keys(&tree), all_keys(&Checkout::interview()));
}

#[test]
fn multi_select_reconstructs_as_a_set() {
    let backend = TestBackend::new().with_value("inventory", AnswerValue::ChosenVariants(vec![0, 2]));
    let answers = backend.execute(&Interview { sections: vec![] }, Answers::new()).unwrap();
    let items: Vec<FocusArea> = read_choices(&answers, "inventory").unwrap();
    assert_eq!(items, vec![FocusArea::Backend, FocusArea::Fullstack]);
    assert_eq!(items.len(), 2);
    let mut more = Answers::new();
    more.insert("inventory".to_string(), choices_value(&vec![FocusArea::Data, FocusArea::Frontend]));
    assert_eq!(more.as_chosen_variants("inventory").unwrap(), &vec![5, 1]);
    assert_eq!(
        read_choices::<FocusArea>(&more, "inventory").unwrap(),
        vec![FocusArea::Data, FocusArea::Frontend]
    );
    more.insert("inventory".to_string(), AnswerValue::ChosenVariants(vec![]));
    assert_eq!(read_choices::<FocusArea>(&more, "inventory").unwrap(), vec![]);
    more.insert("inventory".to_string(), AnswerValue::ChosenVariants(vec![1, 6]));
    assert!(matches!(
        read_choices::<FocusArea>(&more, "inventory"),
        Err(BackendError::Answer(AnswerError::TypeMismatch { expected: "ChosenVariants", .. }))
    ));
    assert!(matches!(
        read_choices::<FocusArea>(&more, "gone"),
        Err(BackendError::Answer(AnswerError::MissingKey(_)))
    ));
    more.insert("speed".to_string(), AnswerValue::ChosenVariants(vec![2, 0]));
    assert_eq!(
        read_choices::<ShippingSpeed>(&more, "speed").unwrap(),
        vec![ShippingSpeed::Overnight, ShippingSpeed::Standard]
    );
    assert_eq!(ShippingSpeed::from_index(3), None);
    assert_eq!(ShippingSpeed::Express.index(), 1);
}

#[test]
fn inner_structs_are_asked_in_line() {
    let mut outer = match Interview::of_sequence(vec![
        Question::input("name", "Name:", None),
        Question::nested("contact", "Contact:", "ContactInfo", Interview { sections: vec![] }),
        Question::confirm("ok", "OK?"),
    ])
    .sections
    .remove(0)
    {
        Section::Sequence(s) => s,
        other => panic!("{:?}", other),
    };
    let inner = match ContactInfo::interview().sections.remove(0) {
        Section::Sequence(s) => s,
        other => panic!("{:?}", other),
    };
    assert!(flatten_field(&mut outer, 1, inner));
    let shown: Vec<(&str, &str, &str)> =
        outer.sequence.iter().map(|q| (q.key(), q.name(), q.prompt())).collect();
    assert_eq!(
        shown,
        vec![
            ("name", "name", "Name:"),
            ("contact.email", "email", "Email address:"),
            ("contact.phone", "phone", "Phone number:"),
            ("ok", "ok", "OK?"),
        ]
    );
    let empty = match Interview::of_sequence(vec![]).sections.remove(0) {
        Section::Sequence(s) => s,
        other => panic!("{:?}", other),
    };
    assert!(!flatten_field(&mut outer, 4, empty));
    assert_eq!(outer.sequence.len(), 4);
    assert!(!attach_tree(&mut outer, 0, ShippingMethod::interview()));
    assert!(!attach_tree(&mut outer, 9, ShippingMethod::interview()));
    outer.sequence.push(Question::nested("shipping", "Ship by:", "ShippingMethod", Interview { sections: vec![] }));
    assert!(attach_tree(&mut outer, 4, ShippingMethod::interview()));
    match outer.sequence[4].kind() {
        QuestionKind::Nested(n) => {
            assert_eq!(n.type_path, "ShippingMethod");
            assert!(matches!(&n.interview.sections[0], Section::Alternatives(0, alts) if alts.len() == 3));
        },
        other => panic!("{:?}", other),
    }
    assert_eq!(outer.sequence[4].prompt(), "Ship by:");
}
