use derive_wizard::{AnswerError, AnswerValue};
use derive_wizard::interview::{Interview, Section};
use derive_wizard::question::{ListElement, QuestionKind};
use derive_wizard::schema::{
    attach_variants, convert, int_range, implement_enum_wizard, implement_struct_wizard, implement_wizard, infer_into,
    infer_question_type, is_promptable_type, Attribute, AttributeMeta, Conversion, Data,
    DeriveInput, Field, FieldType, Fields, QuestionType, SchemaError, SchemaErrorKind, Variant,
};

fn named(name: &str) -> FieldType {
    FieldType::Path(vec![name.to_string()])
}

fn prompt(text: &str) -> Attribute {
    Attribute { name: "prompt".to_string(), meta: AttributeMeta::List(text.to_string()) }
}

fn bare(name: &str) -> Attribute {
    Attribute { name: name.to_string(), meta: AttributeMeta::Path }
}

fn field(ident: &str, ty: &str, attrs: Vec<Attribute>) -> Field {
    Field { ident: Some(ident.to_string()), attrs, ty: named(ty) }
}

fn unnamed(ty: &str, attrs: Vec<Attribute>) -> Field {
    Field { ident: None, attrs, ty: named(ty) }
}

fn struct_input(name: &str, fields: Vec<Field>) -> DeriveInput {
    DeriveInput { ident: name.to_string(), attrs: vec![], data: Data::Struct(fields) }
}

fn enum_input(name: &str, variants: Vec<Variant>) -> DeriveInput {
    DeriveInput { ident: name.to_string(), attrs: vec![], data: Data::Enum(variants) }
}

fn questions(interview: &Interview) -> Vec<(String, String, &QuestionKind)> {
    assert_eq!(interview.sections.len(), 1);
    match &interview.sections[0] {
        Section::Sequence(sequence) => sequence
            .sequence
            .iter()
            .map(|q| (q.name().to_string(), q.prompt().to_string(), q.kind()))
            .collect(),
        other => panic!("expected a sequence, found {:?}", other),
    }
}

#[test]
fn basic_struct_derives_wizard_trait() {
    let input = struct_input(
        "TestStruct",
        vec![
            field("name", "String", vec![prompt("Enter name:")]),
            field("age", "u32", vec![prompt("Enter age:")]),
            field("height", "f64", vec![prompt("Enter height:")]),
            field("agree", "bool", vec![prompt("Agree?")]),
        ],
    );
    let interview = implement_wizard(&input).unwrap();
    let qs = questions(&interview);
    assert_eq!(qs.len(), 4);
    assert_eq!((qs[0].0.as_str(), qs[0].1.as_str()), ("name", "Enter name:"));
    assert!(matches!(qs[0].2, QuestionKind::Input(_)));
    assert_eq!((qs[1].0.as_str(), qs[1].1.as_str()), ("age", "Enter age:"));
    assert!(matches!(qs[1].2, QuestionKind::Int(_)));
    assert_eq!((qs[2].0.as_str(), qs[2].1.as_str()), ("height", "Enter height:"));
    assert!(matches!(qs[2].2, QuestionKind::Float(_)));
    assert_eq!((qs[3].0.as_str(), qs[3].1.as_str()), ("agree", "Agree?"));
    assert!(matches!(qs[3].2, QuestionKind::Confirm(_)));
}

#[test]
fn enum_derives_wizard_trait() {
    let input = enum_input(
        "Color",
        vec![
            Variant { ident: "Red".to_string(), fields: Fields::Unit },
            Variant { ident: "Green".to_string(), fields: Fields::Unit },
            Variant { ident: "Blue".to_string(), fields: Fields::Unit },
            Variant {
                ident: "Custom".to_string(),
                fields: Fields::Unnamed(vec![unnamed("String", vec![prompt("Enter custom color:")])]),
            },
        ],
    );
    let interview = implement_wizard(&input).unwrap();
    assert_eq!(interview.sections.len(), 1);
    match &interview.sections[0] {
        Section::Alternatives(default, alternatives) => {
            assert_eq!(*default, 0);
            let names: Vec<&str> = alternatives.iter().map(|a| a.name.as_str()).collect();
            assert_eq!(names, vec!["Red", "Green", "Blue", "Custom"]);
            assert!(matches!(alternatives[0].section, Section::Empty));
            assert!(matches!(alternatives[2].section, Section::Empty));
            match &alternatives[3].section {
                Section::Sequence(sequence) => {
                    assert_eq!(sequence.sequence.len(), 1);
                    assert_eq!(sequence.sequence[0].name(), "Custom field 0");
                    assert_eq!(sequence.sequence[0].prompt(), "Enter custom color:");
                    assert!(matches!(sequence.sequence[0].kind(), QuestionKind::Input(_)));
                },
                other => panic!("expected a sequence, found {:?}", other),
            }
        },
        other => panic!("expected alternatives, found {:?}", other),
    }
}

#[test]
fn nested_wizard_struct() {
    let inner = struct_input("Inner", vec![field("value", "String", vec![prompt("Enter value:")])]);
    let outer = struct_input(
        "Outer",
        vec![
            field("name", "String", vec![prompt("Enter name:")]),
            field("inner", "Inner", vec![bare("prompt")]),
        ],
    );
    let inner_tree = implement_wizard(&inner).unwrap();
    let inner_qs = questions(&inner_tree);
    assert_eq!(inner_qs.len(), 1);
    assert_eq!(inner_qs[0].1, "Enter value:");
    let outer_tree = implement_wizard(&outer).unwrap();
    let outer_qs = questions(&outer_tree);
    assert_eq!(outer_qs.len(), 2);
    assert_eq!(outer_qs[0].1, "Enter name:");
    assert_eq!(outer_qs[1].0, "inner");
    match outer_qs[1].2 {
        QuestionKind::Nested(nested) => {
            assert_eq!(nested.type_path, "Inner");
            assert!(nested.interview.sections.is_empty());
        },
        other => panic!("expected a nested question, found {:?}", other),
    }
}

#[test]
fn pathbuf_support() {
    let input = struct_input(
        "FileConfig",
        vec![field("path", "PathBuf", vec![prompt("Enter file path:")])],
    );
    let interview = implement_wizard(&input).unwrap();
    let qs = questions(&interview);
    assert_eq!(qs.len(), 1);
    assert_eq!(qs[0].1, "Enter file path:");
    assert!(matches!(qs[0].2, QuestionKind::Input(_)));
    assert_eq!(infer_into(&named("PathBuf")), Some(Conversion::PathFromString));
}

#[test]
fn mask_attribute_compiles() {
    let input = struct_input(
        "LoginForm",
        vec![
            field("username", "String", vec![prompt("Username:")]),
            field("password", "String", vec![prompt("Password:"), bare("mask")]),
        ],
    );
    let interview = implement_wizard(&input).unwrap();
    let qs = questions(&interview);
    assert_eq!(qs[0].1, "Username:");
    assert!(matches!(qs[0].2, QuestionKind::Input(_)));
    assert_eq!(qs[1].1, "Password:");
    assert!(matches!(qs[1].2, QuestionKind::Masked(_)));
}

#[test]
fn editor_attribute_compiles() {
    let input = struct_input(
        "Article",
        vec![
            field("title", "String", vec![prompt("Title:")]),
            field("content", "String", vec![prompt("Content:"), bare("editor")]),
        ],
    );
    let interview = implement_wizard(&input).unwrap();
    let qs = questions(&interview);
    assert_eq!(qs[0].1, "Title:");
    assert!(matches!(qs[0].2, QuestionKind::Input(_)));
    assert_eq!(qs[1].1, "Content:");
    assert!(matches!(qs[1].2, QuestionKind::Multiline(_)));
}

#[test]
fn all_numeric_types() {
    let types = ["u8", "u16", "u32", "u64", "i8", "i16", "i32", "i64", "f32", "f64"];
    let fields: Vec<Field> = types
        .iter()
        .map(|t| field(&format!("val_{}", t), t, vec![prompt(&format!("{}:", t))]))
        .collect();
    let interview = implement_wizard(&struct_input("NumericTypes", fields)).unwrap();
    let qs = questions(&interview);
    assert_eq!(qs.len(), 10);
    for (i, t) in types.iter().enumerate() {
        assert_eq!(qs[i].0, format!("val_{}", t));
        assert_eq!(qs[i].1, format!("{}:", t));
        if t.starts_with('f') {
            assert!(matches!(qs[i].2, QuestionKind::Float(_)));
        } else {
            assert!(matches!(qs[i].2, QuestionKind::Int(_)));
        }
    }
}

#[test]
fn enum_with_named_fields() {
    let input = enum_input(
        "Payment",
        vec![
            Variant { ident: "Cash".to_string(), fields: Fields::Unit },
            Variant {
                ident: "CreditCard".to_string(),
                fields: Fields::Named(vec![
                    field("number", "String", vec![prompt("Card number:")]),
                    field("cvv", "String", vec![prompt("CVV:"), bare("mask")]),
                ]),
            },
        ],
    );
    let interview = implement_wizard(&input).unwrap();
    match &interview.sections[0] {
        Section::Alternatives(_, alternatives) => {
            assert_eq!(alternatives.len(), 2);
            assert_eq!(alternatives[0].name, "Cash");
            assert_eq!(alternatives[1].name, "CreditCard");
            match &alternatives[1].section {
                Section::Sequence(sequence) => {
                    assert_eq!(sequence.sequence[0].name(), "number");
                    assert_eq!(sequence.sequence[0].prompt(), "Card number:");
                    assert!(matches!(sequence.sequence[0].kind(), QuestionKind::Input(_)));
                    assert_eq!(sequence.sequence[1].name(), "cvv");
                    assert_eq!(sequence.sequence[1].prompt(), "CVV:");
                    assert!(matches!(sequence.sequence[1].kind(), QuestionKind::Masked(_)));
                },
                other => panic!("expected a sequence, found {:?}", other),
            }
        },
        other => panic!("expected alternatives, found {:?}", other),
    }
}

#[test]
fn deeply_nested_wizards() {
    let level3 = struct_input("Level3", vec![field("value", "String", vec![prompt("Level 3 value:")])]);
    let level2 = struct_input(
        "Level2",
        vec![
            field("value", "String", vec![prompt("Level 2 value:")]),
            field("level3", "Level3", vec![bare("prompt")]),
        ],
    );
    let level1 = struct_input(
        "Level1",
        vec![
            field("value", "String", vec![prompt("Level 1 value:")]),
            field("level2", "Level2", vec![bare("prompt")]),
        ],
    );
    let tree3 = implement_wizard(&level3).unwrap();
    let tree2 = implement_wizard(&level2).unwrap();
    let tree1 = implement_wizard(&level1).unwrap();
    assert_eq!(questions(&tree3)[0].1, "Level 3 value:");
    assert_eq!(questions(&tree2)[0].1, "Level 2 value:");
    assert_eq!(questions(&tree1)[0].1, "Level 1 value:");
    match questions(&tree1)[1].2 {
        QuestionKind::Nested(nested) => assert_eq!(nested.type_path, "Level2"),
        other => panic!("expected a nested question, found {:?}", other),
    }
    match questions(&tree2)[1].2 {
        QuestionKind::Nested(nested) => assert_eq!(nested.type_path, "Level3"),
        other => panic!("expected a nested question, found {:?}", other),
    }
}

#[test]
fn promptable_types_are_the_primitives() {
    for name in [
        "String", "bool", "u8", "u16", "u32", "u64", "u128", "usize", "i8", "i16", "i32", "i64",
        "i128", "isize", "f32", "f64", "char", "PathBuf",
    ] {
        assert!(is_promptable_type(&named(name)), "{}", name);
    }
    assert!(!is_promptable_type(&named("Inner")));
    assert!(!is_promptable_type(&named("f16")));
    assert!(!is_promptable_type(&FieldType::Other));
    assert!(!is_promptable_type(&FieldType::Path(vec![])));
    assert!(is_promptable_type(&FieldType::Path(vec![
        "std".to_string(),
        "path".to_string(),
        "PathBuf".to_string()
    ])));
}

#[test]
fn question_types_follow_marks_then_types() {
    assert_eq!(infer_question_type(&named("bool"), true, true), QuestionType::Editor);
    assert_eq!(infer_question_type(&named("bool"), true, false), QuestionType::Password);
    assert_eq!(infer_question_type(&named("bool"), false, false), QuestionType::Confirm);
    assert_eq!(infer_question_type(&named("String"), false, false), QuestionType::Input);
    assert_eq!(infer_question_type(&named("PathBuf"), false, false), QuestionType::Input);
    assert_eq!(infer_question_type(&named("i128"), false, false), QuestionType::Int);
    assert_eq!(infer_question_type(&named("f32"), false, false), QuestionType::Float);
    assert_eq!(infer_question_type(&named("ListItem"), false, false), QuestionType::Select);
    assert_eq!(infer_question_type(&named("ExpandItem"), false, false), QuestionType::Expand);
    assert_eq!(infer_question_type(&named("Vec"), false, false), QuestionType::MultiSelect);
    assert_eq!(infer_question_type(&named("Vector"), false, false), QuestionType::MultiSelect);
    assert_eq!(infer_question_type(&named("Ve"), false, false), QuestionType::Input);
    assert_eq!(infer_question_type(&FieldType::Other, false, false), QuestionType::Input);
    let path = FieldType::Path(vec!["std".to_string(), "string".to_string(), "String".to_string()]);
    assert_eq!(infer_question_type(&path, false, false), QuestionType::Input);
}

#[test]
fn conversions_follow_types() {
    assert_eq!(infer_into(&named("String")), Some(Conversion::String));
    assert_eq!(infer_into(&named("bool")), Some(Conversion::Bool));
    assert_eq!(infer_into(&named("u64")), Some(Conversion::Int { low: 0, high: i64::MAX }));
    assert_eq!(infer_into(&named("isize")), Some(Conversion::Int { low: i64::MIN, high: i64::MAX }));
    assert_eq!(infer_into(&named("u8")), Some(Conversion::Int { low: 0, high: 255 }));
    assert_eq!(infer_into(&named("i8")), Some(Conversion::Int { low: -128, high: 127 }));
    assert_eq!(infer_into(&named("i16")), Some(Conversion::Int { low: -32768, high: 32767 }));
    assert_eq!(infer_into(&named("u16")), Some(Conversion::Int { low: 0, high: 65535 }));
    assert_eq!(
        infer_into(&named("i32")),
        Some(Conversion::Int { low: i32::MIN as i64, high: i32::MAX as i64 })
    );
    assert_eq!(infer_into(&named("u32")), Some(Conversion::Int { low: 0, high: u32::MAX as i64 }));
    assert_eq!(int_range("usize"), Some((0, i64::MAX)));
    assert_eq!(int_range("i64"), Some((i64::MIN, i64::MAX)));
    assert_eq!(int_range("u128"), None);
    assert_eq!(infer_into(&named("f64")), Some(Conversion::Float));
    assert_eq!(infer_into(&named("ListItem")), Some(Conversion::ListItem));
    assert_eq!(infer_into(&named("ExpandItem")), Some(Conversion::ExpandItem));
    assert_eq!(infer_into(&named("Vec")), Some(Conversion::ListItems));
    assert_eq!(infer_into(&named("u128")), None);
    assert_eq!(infer_into(&named("char")), None);
    assert_eq!(infer_into(&FieldType::Other), None);
}

fn error(kind: SchemaErrorKind, variant: usize, field: usize) -> SchemaError {
    SchemaError { kind, variant, field }
}

#[test]
fn struct_faults_are_found_in_order() {
    let missing = vec![
        field("a", "String", vec![prompt("A:")]),
        field("b", "String", vec![bare("mask")]),
        field("c", "String", vec![bare("mask"), bare("editor")]),
    ];
    assert_eq!(
        implement_struct_wizard(&missing).unwrap_err(),
        error(SchemaErrorKind::MissingPrompt, 0, 1)
    );
    let both = vec![
        field("a", "String", vec![bare("prompt")]),
        field("b", "String", vec![prompt("B:"), bare("mask"), bare("editor")]),
    ];
    assert_eq!(
        implement_struct_wizard(&both).unwrap_err(),
        error(SchemaErrorKind::MaskAndEditor, 0, 1)
    );
    let no_text = vec![field("a", "String", vec![bare("prompt")])];
    assert_eq!(
        implement_struct_wizard(&no_text).unwrap_err(),
        error(SchemaErrorKind::ExpectedPrompt, 0, 0)
    );
    let no_name = vec![unnamed("String", vec![prompt("A:")])];
    assert_eq!(
        implement_struct_wizard(&no_name).unwrap_err(),
        error(SchemaErrorKind::UnnamedField, 0, 0)
    );
    let not_named = vec![Field {
        ident: Some("a".to_string()),
        attrs: vec![prompt("A:")],
        ty: FieldType::Other,
    }];
    assert_eq!(
        implement_struct_wizard(&not_named).unwrap_err(),
        error(SchemaErrorKind::NestedNotNamed, 0, 0)
    );
    let wide = vec![field("a", "u128", vec![prompt("A:")])];
    assert_eq!(
        implement_struct_wizard(&wide).unwrap_err(),
        error(SchemaErrorKind::NoConversion, 0, 0)
    );
}

fn bound(name: &str, text: &str) -> Attribute {
    Attribute { name: name.to_string(), meta: AttributeMeta::List(text.to_string()) }
}

#[test]
fn struct_bounds_are_read_and_checked() {
    let fields = vec![field("age", "u32", vec![prompt("Age:"), bound("min", "18"), bound("max", "233")])];
    match implement_struct_wizard(&fields).unwrap() {
        Section::Sequence(sequence) => match sequence.sequence[0].kind() {
            QuestionKind::Int(q) => {
                assert_eq!(q.min, Some(18));
                assert_eq!(q.max, Some(233));
                assert_eq!(q.default, None);
            },
            other => panic!("expected an integer question, found {:?}", other),
        },
        other => panic!("expected a sequence, found {:?}", other),
    }
    let equal = vec![field("age", "u32", vec![prompt("Age:"), bound("min", "5"), bound("max", "5")])];
    assert!(implement_struct_wizard(&equal).is_ok());
    let out_of_order = vec![field("age", "u32", vec![prompt("Age:"), bound("min", "6"), bound("max", "5")])];
    assert_eq!(
        implement_struct_wizard(&out_of_order).unwrap_err(),
        error(SchemaErrorKind::BoundsOutOfOrder, 0, 0)
    );
    let no_number = vec![field("age", "u32", vec![prompt("Age:"), bound("min", "five")])];
    assert_eq!(
        implement_struct_wizard(&no_number).unwrap_err(),
        error(SchemaErrorKind::ExpectedBound, 0, 0)
    );
    let bare_bound = vec![field("age", "u32", vec![prompt("Age:"), bare("max")])];
    assert_eq!(
        implement_struct_wizard(&bare_bound).unwrap_err(),
        error(SchemaErrorKind::ExpectedBound, 0, 0)
    );
}

#[test]
fn the_last_prompt_and_the_validator_are_taken() {
    let fields = vec![field(
        "email",
        "String",
        vec![prompt("First:"), bound("validate", "validate_email"), prompt("Second:")],
    )];
    match implement_struct_wizard(&fields).unwrap() {
        Section::Sequence(sequence) => {
            assert_eq!(sequence.sequence[0].prompt(), "Second:");
            match sequence.sequence[0].kind() {
                QuestionKind::Input(q) => {
                    assert_eq!(q.validate_on_submit.as_deref(), Some("validate_email"));
                    assert_eq!(q.validate_on_key, None);
                },
                other => panic!("expected a text question, found {:?}", other),
            }
        },
        other => panic!("expected a sequence, found {:?}", other),
    }
}

#[test]
fn variant_faults_name_variant_and_field() {
    let variant = |fields: Fields| {
        vec![
            Variant { ident: "First".to_string(), fields: Fields::Unit },
            Variant { ident: "Second".to_string(), fields },
        ]
    };
    let combined = variant(Fields::Named(vec![
        field("a", "String", vec![prompt("A:")]),
        field("b", "Inner", vec![bare("wizard"), prompt("B:")]),
    ]));
    assert_eq!(
        implement_enum_wizard(&combined).unwrap_err(),
        error(SchemaErrorKind::WizardCombined, 1, 1)
    );
    let other = variant(Fields::Unnamed(vec![Field {
        ident: None,
        attrs: vec![bare("wizard")],
        ty: FieldType::Other,
    }]));
    assert_eq!(
        implement_enum_wizard(&other).unwrap_err(),
        error(SchemaErrorKind::WizardOnUnnamedType, 1, 0)
    );
    let neither = variant(Fields::Unnamed(vec![unnamed("String", vec![bare("mask")])]));
    assert_eq!(
        implement_enum_wizard(&neither).unwrap_err(),
        error(SchemaErrorKind::MissingPromptOrWizard, 1, 0)
    );
    let both = variant(Fields::Unnamed(vec![unnamed(
        "String",
        vec![prompt("A:"), bare("mask"), bare("editor")],
    )]));
    assert_eq!(
        implement_enum_wizard(&both).unwrap_err(),
        error(SchemaErrorKind::MaskAndEditor, 1, 0)
    );
    let no_name = variant(Fields::Named(vec![unnamed("String", vec![prompt("A:")])]));
    assert_eq!(
        implement_enum_wizard(&no_name).unwrap_err(),
        error(SchemaErrorKind::UnnamedField, 1, 0)
    );
    let nested = variant(Fields::Unnamed(vec![unnamed("Inner", vec![bare("wizard")])]));
    match implement_enum_wizard(&nested).unwrap() {
        Section::Alternatives(_, alternatives) => match &alternatives[1].section {
            Section::Sequence(sequence) => {
                assert_eq!(sequence.sequence[0].name(), "Second field 0");
                assert!(matches!(sequence.sequence[0].kind(), QuestionKind::Nested(_)));
            },
            other => panic!("expected a sequence, found {:?}", other),
        },
        other => panic!("expected alternatives, found {:?}", other),
    }
}

#[test]
fn unions_have_no_wizard() {
    let input = DeriveInput { ident: "U".to_string(), attrs: vec![], data: Data::Union };
    let e = implement_wizard(&input).unwrap_err();
    assert_eq!(e, error(SchemaErrorKind::NotStructOrEnum, 0, 0));
    assert_eq!(e.kind.message(), "Wizard can only be derived for structs and enums");
    assert_eq!(
        SchemaErrorKind::MissingPrompt.message(),
        "Missing required #[prompt(\"...\")] attribute"
    );
    assert_eq!(
        SchemaErrorKind::MaskAndEditor.message(),
        "Cannot use both #[mask] and #[editor] on the same field. They are mutually exclusive."
    );
}

fn of(outer: &str, inner: FieldType) -> FieldType {
    FieldType::Of(outer.to_string(), Box::new(inner))
}

fn typed(ident: &str, ty: FieldType, attrs: Vec<Attribute>) -> Field {
    Field { ident: Some(ident.to_string()), attrs, ty }
}

#[test]
fn optional_fields_may_be_skipped() {
    let fields = vec![
        field("name", "String", vec![prompt("Project name:")]),
        typed("description", of("Option", named("String")), vec![prompt("Description:")]),
        typed(
            "log_level",
            of("Option", named("u32")),
            vec![prompt("Log level:"), bound("min", "0"), bound("max", "5")],
        ),
        typed("license", of("Option", named("License")), vec![bare("prompt")]),
    ];
    let sequence = match implement_struct_wizard(&fields).unwrap() {
        Section::Sequence(s) => s.sequence,
        other => panic!("{:?}", other),
    };
    let optional: Vec<bool> = sequence.iter().map(|q| q.is_optional()).collect();
    assert_eq!(optional, vec![false, true, true, true]);
    assert!(matches!(sequence[1].kind(), QuestionKind::Input(_)));
    assert!(matches!(sequence[2].kind(), QuestionKind::Int(q) if q.min == Some(0) && q.max == Some(5)));
    assert!(matches!(sequence[3].kind(), QuestionKind::Nested(n) if n.type_path == "License"));
    assert!(!is_promptable_type(&of("Option", named("String"))));
    assert_eq!(infer_question_type(&of("Vec", named("u32")), false, false), QuestionType::MultiSelect);
    assert_eq!(infer_into(&of("Vec", named("u32"))), Some(Conversion::ListItems));
    assert_eq!(infer_into(&of("Option", named("u32"))), None);
}

#[test]
fn lists_ask_for_items_of_their_kind() {
    let fields = vec![
        typed("items", of("Vec", named("String")), vec![prompt("Items:")]),
        typed(
            "quantities",
            of("Vec", named("u32")),
            vec![prompt("Quantities:"), bound("min", "1"), bound("max", "100")],
        ),
        typed("weights", of("Vec", named("f64")), vec![prompt("Weights:")]),
        typed(
            "inventory",
            of("Vec", named("Item")),
            vec![prompt("Pick:"), bare("multiselect"), bound("validate", "budget")],
        ),
        typed("maybe", of("Option", of("Vec", named("i64"))), vec![prompt("Maybe:")]),
    ];
    let mut sequence = match implement_struct_wizard(&fields).unwrap() {
        Section::Sequence(s) => s,
        other => panic!("{:?}", other),
    };
    match sequence.sequence[0].kind() {
        QuestionKind::List(q) => assert!(matches!(q.element, ListElement::Text)),
        other => panic!("{:?}", other),
    }
    match sequence.sequence[1].kind() {
        QuestionKind::List(q) => {
            assert!(matches!(q.element, ListElement::Int));
            assert_eq!((q.min, q.max), (Some(1), Some(100)));
        },
        other => panic!("{:?}", other),
    }
    assert!(matches!(sequence.sequence[2].kind(), QuestionKind::List(q) if matches!(q.element, ListElement::Float)));
    match sequence.sequence[3].kind() {
        QuestionKind::List(q) => {
            assert!(matches!(&q.element, ListElement::Variants(names) if names.is_empty()));
            assert_eq!(q.validate_on_submit.as_deref(), Some("budget"));
        },
        other => panic!("{:?}", other),
    }
    assert!(sequence.sequence[4].is_optional());
    assert!(matches!(sequence.sequence[4].kind(), QuestionKind::List(q) if matches!(q.element, ListElement::Int)));
    let names = vec!["Sword".to_string(), "Shield".to_string()];
    assert!(!attach_variants(&mut sequence, 0, names.clone()));
    assert!(!attach_variants(&mut sequence, 5, names.clone()));
    assert!(attach_variants(&mut sequence, 3, names.clone()));
    match sequence.sequence[3].kind() {
        QuestionKind::List(q) => {
            assert!(matches!(&q.element, ListElement::Variants(n) if *n == names));
            assert_eq!(q.validate_on_submit.as_deref(), Some("budget"));
        },
        other => panic!("{:?}", other),
    }
    assert_eq!(sequence.sequence[3].prompt(), "Pick:");
    let unknown = vec![typed("things", of("Vec", named("Thing")), vec![prompt("Things:")])];
    assert_eq!(
        implement_struct_wizard(&unknown).unwrap_err(),
        error(SchemaErrorKind::NoConversion, 0, 0)
    );
}

#[test]
fn a_struct_hands_its_validator_to_its_fields() {
    let input = DeriveInput {
        ident: "Salary".to_string(),
        attrs: vec![bound("validate_fields", "validate_salary")],
        data: Data::Struct(vec![
            field("base", "u32", vec![prompt("Base:"), bound("min", "30"), bound("max", "200")]),
            field("bonus", "u32", vec![prompt("Bonus:"), bound("validate", "own")]),
        ]),
    };
    let interview = implement_wizard(&input).unwrap();
    match &interview.sections[0] {
        Section::Sequence(sequence) => {
            assert_eq!(sequence.sequence.len(), 2);
            for q in &sequence.sequence {
                assert_eq!(q.propagated(), Some("validate_salary"));
            }
            assert_eq!(sequence.sequence[0].prompt(), "Base:");
            assert!(matches!(sequence.sequence[1].kind(), QuestionKind::Int(q) if q.validate_on_submit.as_deref() == Some("own")));
        },
        other => panic!("{:?}", other),
    }
    let plain = implement_wizard(&struct_input(
        "Plain",
        vec![field("base", "u32", vec![prompt("Base:")])],
    ))
    .unwrap();
    assert_eq!(questions(&plain).len(), 1);
    match &plain.sections[0] {
        Section::Sequence(sequence) => assert_eq!(sequence.sequence[0].propagated(), None),
        other => panic!("{:?}", other),
    }
}

#[test]
fn narrow_integers_are_never_wrapped() {
    let u8_type = infer_into(&named("u8")).unwrap();
    assert!(matches!(convert(u8_type, "n", &AnswerValue::Int(255)), Ok(AnswerValue::Int(255))));
    assert!(matches!(convert(u8_type, "n", &AnswerValue::Int(0)), Ok(AnswerValue::Int(0))));
    for out in [300, 256, -1, i64::MAX, i64::MIN] {
        match convert(u8_type, "n", &AnswerValue::Int(out)) {
            Err(AnswerError::TypeMismatch { key, expected }) => {
                assert_eq!(key, "n");
                assert_eq!(expected, "Int");
            },
            other => panic!("{:?}", other),
        }
    }
    let u32_type = infer_into(&named("u32")).unwrap();
    assert!(convert(u32_type, "n", &AnswerValue::Int(-1)).is_err());
    assert!(convert(u32_type, "n", &AnswerValue::Int(u32::MAX as i64)).is_ok());
    assert!(convert(u32_type, "n", &AnswerValue::Int(u32::MAX as i64 + 1)).is_err());
    let i32_type = infer_into(&named("i32")).unwrap();
    assert!(convert(i32_type, "n", &AnswerValue::Int(i32::MIN as i64)).is_ok());
    assert!(convert(i32_type, "n", &AnswerValue::Int(i32::MIN as i64 - 1)).is_err());
    assert!(convert(i32_type, "n", &AnswerValue::String("1".to_string())).is_err());
    let text = AnswerValue::String("x".to_string());
    assert!(matches!(convert(Conversion::String, "k", &text), Ok(AnswerValue::String(s)) if s == "x"));
    assert!(matches!(convert(Conversion::PathFromString, "k", &text), Ok(AnswerValue::Path(s)) if s == "x"));
    assert!(matches!(
        convert(Conversion::Bool, "k", &text),
        Err(AnswerError::TypeMismatch { expected: "Bool", .. })
    ));
    assert!(matches!(convert(Conversion::Bool, "k", &AnswerValue::Bool(true)), Ok(AnswerValue::Bool(true))));
    assert!(matches!(
        convert(Conversion::Float, "k", &AnswerValue::Int(1)),
        Err(AnswerError::TypeMismatch { expected: "Float", .. })
    ));
    assert!(convert(Conversion::Float, "k", &AnswerValue::Float(1.5f64.to_bits())).is_ok());
    assert!(matches!(
        convert(Conversion::ListItems, "k", &AnswerValue::ChosenVariants(vec![1])),
        Ok(AnswerValue::ChosenVariants(c)) if c == vec![1]
    ));
    assert!(convert(Conversion::ListItems, "k", &text).is_err());
    assert!(convert(Conversion::ListItem, "k", &text).is_ok());
}

#[test]
fn bounds_on_floats_are_refused() {
    let bounded = vec![field("weight", "f64", vec![prompt("Weight:"), bound("min", "20")])];
    assert_eq!(
        implement_struct_wizard(&bounded).unwrap_err(),
        error(SchemaErrorKind::BoundsOnFloat, 0, 0)
    );
    let list = vec![typed("weights", of("Vec", named("f32")), vec![prompt("W:"), bound("max", "3")])];
    assert_eq!(
        implement_struct_wizard(&list).unwrap_err(),
        error(SchemaErrorKind::BoundsOnFloat, 0, 0)
    );
    let masked = vec![field("weight", "f64", vec![prompt("Weight:"), bare("mask"), bound("min", "20")])];
    assert!(implement_struct_wizard(&masked).is_ok());
    assert_eq!(
        SchemaErrorKind::BoundsOnFloat.message(),
        "#[min(...)] and #[max(...)] cannot bound a float"
    );
}
