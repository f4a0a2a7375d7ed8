use derive_wizard::interview::{Alternative, Interview, Section};
use derive_wizard::latex::{render_question, render_section, replace_char, to_latex_form};
use derive_wizard::question::{
    ConfirmQuestion, FloatQuestion, ListElement, ListQuestion, Question, QuestionDefault,
    QuestionKind,
};
use derive_wizard::schema::starts_with;
use derive_wizard::text::{
    all_word_chars, any_digit, any_upper, byte_len, chars_of, contains_char, int_to_text,
    nat_to_text, parse_int, scoped_key, text_of, usize_to_text, wide_to_text,
};
use derive_wizard::{ResponsePath, SELECTED_ALTERNATIVE_KEY};

#[test]
fn integers_are_read_as_rust_reads_them() {
    for s in [
        "0", "7", "-7", "+7", "007", "-0", "+0", "9223372036854775807", "-9223372036854775808",
        "9223372036854775808", "-9223372036854775809", "", "-", "+", "1 ", " 1", "1_000", "--1",
        "+-1", "1.0", "12a", "99999999999999999999999999999999999999999", "٣",
    ] {
        assert_eq!(parse_int(s), s.parse::<i64>().ok(), "{:?}", s);
    }
    assert_eq!(parse_int("42"), Some(42));
    assert_eq!(parse_int("-9223372036854775808"), Some(i64::MIN));
    assert_eq!(parse_int("9223372036854775808"), None);
}

#[test]
fn integers_are_written_in_decimal() {
    for i in [0i64, 5, -5, 10, 99, 100, -1000, 250, i64::MAX, i64::MIN] {
        assert_eq!(int_to_text(i), i.to_string());
        assert_eq!(parse_int(&int_to_text(i)), Some(i));
        assert_eq!(wide_to_text(i as i128), i.to_string());
    }
    assert_eq!(int_to_text(-42), "-42");
    assert_eq!(usize_to_text(0), "0");
    assert_eq!(usize_to_text(1203), "1203");
    assert_eq!(nat_to_text(u128::MAX), u128::MAX.to_string());
    assert_eq!(wide_to_text(i128::MIN), i128::MIN.to_string());
    assert_eq!(wide_to_text(i128::MAX), i128::MAX.to_string());
}

#[test]
fn texts_are_taken_apart_and_put_together() {
    assert_eq!(chars_of("héllo"), vec!['h', 'é', 'l', 'l', 'o']);
    assert_eq!(text_of(&vec!['a', 'ß', 'c']), "aßc");
    assert_eq!(text_of(&vec![]), "");
    assert_eq!(byte_len("héllo"), 6);
    assert!(contains_char("a@b", '@'));
    assert!(!contains_char("ab", '@'));
    assert!(any_digit("abc1"));
    assert!(!any_digit("abc"));
    assert!(any_upper("abC"));
    assert!(!any_upper("abc1"));
    assert!(all_word_chars("user_name_1"));
    assert!(!all_word_chars("user name"));
    assert!(all_word_chars(""));
    assert!(starts_with("Vector", "Vec"));
    assert!(!starts_with("Ve", "Vec"));
    assert!(starts_with("Vec", ""));
}

#[test]
fn keys_are_scoped_with_a_dot() {
    assert_eq!(scoped_key("", "name"), "name");
    assert_eq!(scoped_key("payment", "cvv"), "payment.cvv");
    assert_eq!(scoped_key("a.b", "c"), "a.b.c");
    assert_eq!(scoped_key("payment", SELECTED_ALTERNATIVE_KEY), "payment.selected_alternative");
    assert_eq!(SELECTED_ALTERNATIVE_KEY, "selected_alternative");
}

#[test]
fn paths_have_parents_and_children() {
    let path = ResponsePath::from_dotted("home.village");
    assert_eq!(path.len(), 2);
    assert_eq!(path.segment(0), "home");
    assert_eq!(path.segment(1), "village");
    assert_eq!(path.last(), Some("village"));
    assert_eq!(path.join(), "home.village");
    let parent = path.parent();
    assert_eq!(parent.join(), "home");
    assert!(parent.same(&ResponsePath::new(vec!["home".to_string()])));
    assert!(!parent.same(&path));
    let root = parent.parent();
    assert!(root.is_root());
    assert_eq!(root.join(), "");
    assert!(root.parent().is_root());
    assert_eq!(root.last(), None);
    assert!(root.same(&ResponsePath::root()));
    assert_eq!(parent.child("realm").join(), "home.realm");
    assert_eq!(root.child("name").join(), "name");
    assert!(path.same(&ResponsePath::new(vec!["home".to_string(), "village".to_string()])));
    assert!(!path.same(&ResponsePath::new(vec!["home".to_string(), "realm".to_string()])));
}

#[test]
fn dotted_texts_split_at_every_dot() {
    let segments = |text: &str| -> Vec<String> {
        let path = ResponsePath::from_dotted(text);
        (0..path.len()).map(|i| path.segment(i).to_string()).collect()
    };
    assert_eq!(segments(""), Vec::<String>::new());
    assert_eq!(segments("a"), vec!["a"]);
    assert_eq!(segments("a.b.c"), vec!["a", "b", "c"]);
    assert_eq!(segments("a..b"), vec!["a", "", "b"]);
    assert_eq!(segments(".a"), vec!["", "a"]);
    assert_eq!(segments("a."), vec!["a", ""]);
    assert_eq!(segments("."), vec!["", ""]);
    for text in ["", "a", "a.b.c", "a..b", ".a", "a.", ".", "..."] {
        assert_eq!(ResponsePath::from_dotted(text).join(), text);
    }
}

#[test]
fn defaults_are_set_by_kind() {
    let mut name = Question::input("name", "Name:", None);
    assert!(name.set_default(QuestionDefault::from("Ada".to_string())));
    assert!(matches!(name.kind(), QuestionKind::Input(q) if q.default.as_deref() == Some("Ada")));
    assert!(!name.set_default(QuestionDefault::from(3i64)));
    assert!(matches!(name.kind(), QuestionKind::Input(q) if q.default.as_deref() == Some("Ada")));
    let mut age = Question::integer("age", "Age:", Some(0), Some(150), None);
    assert!(age.set_default(QuestionDefault::Int(30)));
    assert!(!age.set_default(QuestionDefault::Bool(true)));
    assert!(matches!(age.kind(), QuestionKind::Int(q) if q.default == Some(30) && q.min == Some(0) && q.max == Some(150)));
    let mut bio = Question::multiline("bio", "Bio:", None);
    assert!(bio.set_default(QuestionDefault::String("x".to_string())));
    let mut ok = Question::confirm("ok", "OK?");
    assert!(ok.set_default(QuestionDefault::from(true)));
    assert!(matches!(ok.kind(), QuestionKind::Confirm(ConfirmQuestion { default: true })));
    let mut secret = Question::masked("secret", "Secret:", None);
    assert!(!secret.set_default(QuestionDefault::String("x".to_string())));
    let mut height = Question::new(
        None,
        "height".to_string(),
        "Height:".to_string(),
        QuestionKind::Float(FloatQuestion {
            default: None,
            min: None,
            max: None,
            validate_on_key: None,
            validate_on_submit: None,
        }),
    ).unwrap();
    assert!(height.set_default(QuestionDefault::Float(1.5f64.to_bits())));
    assert!(matches!(height.kind(), QuestionKind::Float(q) if q.default.map(f64::from_bits) == Some(1.5)));
}

#[test]
fn questions_know_their_key() {
    let mut q = Question::new(
        Some("contact.email".to_string()),
        "email".to_string(),
        "Email:".to_string(),
        QuestionKind::Confirm(ConfirmQuestion { default: false }),
    ).unwrap();
    assert_eq!(q.id(), Some("contact.email"));
    assert_eq!(q.name(), "email");
    assert_eq!(q.prompt(), "Email:");
    assert_eq!(q.key(), "contact.email");
    assert!(!q.is_optional());
    assert_eq!(q.propagated(), None);
    q.set_id(None);
    assert_eq!(q.key(), "email");
    q.set_optional(true);
    assert!(q.is_optional());
    q.set_propagated(Some("validate_salary".to_string()));
    assert_eq!(q.propagated(), Some("validate_salary"));
    let before = q.set_kind(QuestionKind::Confirm(ConfirmQuestion { default: true })).unwrap();
    assert!(matches!(before, QuestionKind::Confirm(ConfirmQuestion { default: false })));
    assert!(matches!(q.kind(), QuestionKind::Confirm(ConfirmQuestion { default: true })));
}

#[test]
fn characters_are_replaced() {
    assert_eq!(replace_char("a_b_c", '_', "\\_"), "a\\_b\\_c");
    assert_eq!(replace_char("R&D", '&', "\\&"), "R\\&D");
    assert_eq!(replace_char("plain", '&', "\\&"), "plain");
    assert_eq!(replace_char("a b", ' ', "_"), "a_b");
    assert_eq!(replace_char("", ' ', "_"), "");
}

#[test]
fn questions_are_rendered_as_form_controls() {
    assert_eq!(
        render_question(&Question::input("full_name", "Name & title:", None), ""),
        "Name \\& title:\\\\\n\\TextField[name=full\\_name,width=3in]{}\n\\medskip\n\n"
    );
    assert_eq!(
        render_question(&Question::integer("age", "Age:", None, None, None), "user"),
        "Age:\\\\\n\\TextField[name=user.age,width=1in]{}\n% (integer only)\n\\medskip\n\n"
    );
    assert_eq!(
        render_question(&Question::confirm("ok", "OK?"), ""),
        "OK?\\\\\n\\CheckBox[name=ok]{} Yes\n\\medskip\n\n"
    );
    assert_eq!(
        render_question(&Question::multiline("bio", "Bio:", None), ""),
        "Bio:\\\\\n\\TextField[name=bio,multiline=true,width=3in,height=1in]{}\n\\medskip\n\n"
    );
    assert_eq!(
        render_question(&Question::masked("pw", "Password:", None), ""),
        "Password:\\\\\n\\TextField[name=pw,width=3in]{}\n\\medskip\n% (not masked in PDF)\n\\medskip\n\n"
    );
    let items = Question::multi_select(
        "inventory",
        "Pick:",
        vec!["Sword".to_string(), "Chewing Gum".to_string()],
        None,
    );
    assert_eq!(
        render_question(&items, ""),
        "Pick:\\\\\n\\CheckBox[name=inventory\\_Sword]{} Sword\n\\\\\n\\CheckBox[name=inventory\\_Chewing\\_Gum]{} Chewing Gum\n\\medskip\n\n"
    );
    let list = Question::new(
        None,
        "scores".to_string(),
        "Scores:".to_string(),
        QuestionKind::List(ListQuestion {
            element: ListElement::Int,
            min: None,
            max: None,
            validate_on_submit: None,
        }),
    ).unwrap();
    assert_eq!(
        render_question(&list, ""),
        "Scores:% [List] List input not supported in LaTeX\n\\medskip\n\n"
    );
    assert_eq!(render_section(&Section::Empty, "", ""), "% [Unit] No data to collect\n\\medskip\n");
    let choice = Section::Alternatives(
        0,
        vec![Alternative::unit("Cash"), Alternative::unit("Card"), Alternative::unit("Other")],
    );
    assert_eq!(
        render_section(&choice, "payment", "payment"),
        "\\\\\n\\ChoiceMenu[popdown,name=payment.selected\\_alternative,width=2in]{}{Cash,Card,Other}\n\\medskip\n"
    );
    assert!(render_section(&choice, "", "section_1")
        .contains("name=section\\_1.selected\\_alternative,"));
    let nested = Question::nested(
        "payment",
        "Pay by:",
        "Payment",
        Interview::of_alternatives(0, vec![Alternative::unit("Cash")]),
    );
    assert_eq!(
        render_question(&nested, ""),
        "Pay by:\\\\\n\\ChoiceMenu[popdown,name=payment.selected\\_alternative,width=2in]{}{Cash}\n\\medskip\n\n"
    );
}

#[test]
fn a_form_is_a_whole_document() {
    let interview = Interview::of_sequence(vec![
        Question::input("name", "Name:", None),
        Question::confirm("ok", "OK?"),
    ]);
    let expected = "\\documentclass{article}\n\\usepackage[pdftex,unicode]{hyperref}\n\\usepackage{geometry}\n\\hypersetup{pdfborder=0 0 0}\n\\geometry{margin=1in}\n\\begin{document}\n\nWelcome\\bigskip\n\\begin{Form}\n\nName:\\\\\n\\TextField[name=name,width=3in]{}\n\\medskip\n\n\\bigskip\nOK?\\\\\n\\CheckBox[name=ok]{} Yes\n\\medskip\n\n\\bigskip\n\\end{Form}\n\\bigskip\nBye\n\\end{document}";
    assert_eq!(to_latex_form(&interview, Some("Welcome"), Some("Bye")), expected);
    let bare = to_latex_form(&Interview { sections: vec![] }, None, None);
    assert_eq!(
        bare,
        "\\documentclass{article}\n\\usepackage[pdftex,unicode]{hyperref}\n\\usepackage{geometry}\n\\hypersetup{pdfborder=0 0 0}\n\\geometry{margin=1in}\n\\begin{document}\n\\begin{Form}\n\n\\end{Form}\n\\end{document}"
    );
}
