//! A fillable form in LaTeX for an interview: one form control per
//! question.

use vstd::prelude::*;
use crate::interview::{Alternative, AlternativeModel, Interview, Section, SectionModel, Sequence};
use crate::question::{ElementModel, KindModel, ListElement, Question, QuestionKind, QuestionModel};
use crate::reconstruct::{choice_key, choice_key_of, section_place, section_place_of};
use crate::text::{chars_of, push_char, scoped, scoped_key};
use crate::validation::answer_key;
use crate::SELECTED_ALTERNATIVE_KEY;

verus! {

/// The text `s` with `with` in the place of every `c`.
pub open spec fn replaced(s: Seq<char>, c: char, with: Seq<char>) -> Seq<char>
    decreases s.len(),
{
    if s.len() == 0 {
        Seq::empty()
    } else {
        replaced(s.drop_last(), c, with) + if s.last() == c {
            with
        } else {
            seq![s.last()]
        }
    }
}

/// Replaces every `c` of `s` by `with`.
pub fn replace_char(s: &str, c: char, with: &str) -> (r: String)
    ensures
        r@ == replaced(s@, c, with@),
{
    let chars = chars_of(s);
    let mut r = String::new();
    let mut i: usize = 0;
    while i < chars.len()
        invariant
            i <= chars@.len(),
            chars@ == s@,
            r@ == replaced(s@.take(i as int), c, with@),
        decreases chars@.len() - i,
    {
        proof {
            assert(s@.take(i + 1).drop_last() =~= s@.take(i as int));
            assert(s@.take(i + 1).last() == chars@[i as int]);
        }
        if chars[i] == c {
            r.append(with);
        } else {
            push_char(&mut r, chars[i]);
        }
        i += 1;
    }
    assert(s@.take(s@.len() as int) =~= s@);
    r
}

/// The name of a form control: the key, with its underscores escaped.
pub open spec fn control_name(key: Seq<char>) -> Seq<char> {
    replaced(key, '_', "\\_"@)
}

/// A text field named `name`, with the options `options`.
pub open spec fn text_field(name: Seq<char>, options: Seq<char>) -> Seq<char> {
    "\\\\\n\\TextField[name="@ + name + options
}

/// The check boxes of the first `n` variants of a multi-select at `key`.
pub open spec fn check_boxes(key: Seq<char>, variants: Seq<Seq<char>>, n: nat) -> Seq<char>
    decreases n,
{
    if n == 0 || n > variants.len() {
        Seq::empty()
    } else {
        check_boxes(key, variants, (n - 1) as nat) + "\\\\\n\\CheckBox[name="@ + control_name(
            key + "_"@ + replaced(variants[n - 1], ' ', "_"@),
        ) + "]{} "@ + variants[n - 1] + "\n"@
    }
}

/// The names of the first `n` branches, with commas between them.
pub open spec fn menu_options(branches: Seq<AlternativeModel>, n: nat) -> Seq<char>
    decreases n,
{
    if n == 0 || n > branches.len() {
        Seq::empty()
    } else if n == 1 {
        branches[0].name
    } else {
        menu_options(branches, (n - 1) as nat) + ","@ + branches[n - 1].name
    }
}

/// The form control of a question that holds no tree.
pub open spec fn rendered_control(q: QuestionModel, key: Seq<char>) -> Seq<char> {
    match q.kind {
        KindModel::Input { .. } => text_field(control_name(key), ",width=3in]{}\n\\medskip\n"@),
        KindModel::Int { .. } => text_field(
            control_name(key),
            ",width=1in]{}\n% (integer only)\n\\medskip\n"@,
        ),
        KindModel::Confirm { .. } => "\\\\\n\\CheckBox[name="@ + control_name(key)
            + "]{} Yes\n\\medskip\n"@,
        KindModel::Multiline { .. } => text_field(
            control_name(key),
            ",multiline=true,width=3in,height=1in]{}\n\\medskip\n"@,
        ),
        KindModel::Masked { .. } => text_field(
            control_name(key),
            ",width=3in]{}\n\\medskip\n% (not masked in PDF)\n\\medskip\n"@,
        ),
        KindModel::Float { .. } => "% [Float] Floating-point input not supported in LaTeX\n\\medskip\n"@,
        KindModel::List { element: ElementModel::Variants(variants), .. } => check_boxes(
            key,
            variants,
            variants.len(),
        ) + "\\medskip\n"@,
        KindModel::List { .. } => "% [List] List input not supported in LaTeX\n\\medskip\n"@,
        KindModel::Nested { .. } => Seq::empty(),
    }
}

/// A question in LaTeX: its prompt, with `&` escaped, then its form
/// control, or the controls of its tree where it holds one, and a newline.
pub open spec fn rendered_question(q: QuestionModel, scope: Seq<char>) -> Seq<char>
    decreases q, 0nat,
{
    replaced(q.prompt, '&', "\\&"@) + match q.kind {
        KindModel::Nested { sections, .. } => rendered_sections(
            sections,
            answer_key(scope, q),
            answer_key(scope, q),
            sections.len(),
        ),
        _ => rendered_control(q, answer_key(scope, q)),
    } + "\n"@
}

/// The first `n` questions of a sequence in LaTeX, one after the other.
pub open spec fn rendered_sequence(questions: Seq<QuestionModel>, scope: Seq<char>, n: nat) -> Seq<
    char,
>
    decreases questions, n,
{
    if n == 0 || n > questions.len() {
        Seq::empty()
    } else {
        rendered_sequence(questions, scope, (n - 1) as nat) + rendered_question(
            questions[n - 1],
            scope,
        )
    }
}

/// A section in LaTeX: a remark for an empty one, the questions of a
/// sequence, and for a choice a menu of the names of its branches.
pub open spec fn rendered_section(section: SectionModel, scope: Seq<char>, place: Seq<char>) -> Seq<char>
    decreases section, 0nat,
{
    match section {
        SectionModel::Empty => "% [Unit] No data to collect\n\\medskip\n"@,
        SectionModel::Sequence(questions) => rendered_sequence(questions, scope, questions.len()),
        SectionModel::Alternatives(_, branches) => "\\\\\n\\ChoiceMenu[popdown,name="@
            + control_name(choice_key(place)) + ",width=2in]{}{"@
            + menu_options(branches, branches.len()) + "}\n\\medskip\n"@,
    }
}

/// The first `n` sections of a tree in LaTeX, one after the other.
pub open spec fn rendered_sections(sections: Seq<SectionModel>, scope: Seq<char>, place: Seq<char>, n: nat) -> Seq<
    char,
>
    decreases sections, n,
{
    if n == 0 || n > sections.len() {
        Seq::empty()
    } else {
        rendered_sections(sections, scope, place, (n - 1) as nat) + rendered_section(
            sections[n - 1],
            scope,
            section_place(place, (n - 1) as nat),
        )
    }
}

/// The first `n` questions of a top-level sequence, each followed by a skip.
pub open spec fn form_questions(questions: Seq<QuestionModel>, n: nat) -> Seq<char>
    decreases n,
{
    if n == 0 || n > questions.len() {
        Seq::empty()
    } else {
        form_questions(questions, (n - 1) as nat) + rendered_question(
            questions[n - 1],
            Seq::empty(),
        ) + "\\bigskip\n"@
    }
}

/// The first `n` top-level sections of a form: the questions of a sequence
/// each followed by a skip, any other section as a whole followed by one.
pub open spec fn form_body(tree: Seq<SectionModel>, n: nat) -> Seq<char>
    decreases n,
{
    if n == 0 || n > tree.len() {
        Seq::empty()
    } else {
        form_body(tree, (n - 1) as nat) + match tree[n - 1] {
            SectionModel::Sequence(questions) => form_questions(questions, questions.len()),
            section => rendered_section(section, Seq::empty(), section_place(Seq::empty(), (n - 1) as nat)) + "\n\\bigskip\n"@,
        }
    }
}

/// The lines before the form.
pub open spec fn preamble() -> Seq<char> {
    "\\documentclass{article}\n\\usepackage[pdftex,unicode]{hyperref}\n\\usepackage{geometry}\n\\hypersetup{pdfborder=0 0 0}\n\\geometry{margin=1in}\n\\begin{document}\n"@
}

/// The LaTeX document of a fillable form for a tree, with the text before
/// and the text after it where they are given.
pub open spec fn latex_form(
    tree: Seq<SectionModel>,
    prelude: Option<Seq<char>>,
    epilogue: Option<Seq<char>>,
) -> Seq<char> {
    preamble() + match prelude {
        Some(text) => "\n"@ + text + "\\bigskip\n"@,
        None => Seq::empty(),
    } + "\\begin{Form}\n\n"@ + form_body(tree, tree.len()) + "\\end{Form}\n"@ + match epilogue {
        Some(text) => "\\bigskip\n"@ + text + "\n"@,
        None => Seq::empty(),
    } + "\\end{document}"@
}

fn render_check_boxes(key: &str, variants: &Vec<String>) -> (r: String)
    ensures
        r@ == check_boxes(
            key@,
            ListElement::Variants(*variants).model()->Variants_0,
            variants@.len(),
        ),
{
    let ghost names = ListElement::Variants(*variants).model()->Variants_0;
    let mut r = String::new();
    let mut i: usize = 0;
    while i < variants.len()
        invariant
            i <= variants@.len(),
            names == ListElement::Variants(*variants).model()->Variants_0,
            r@ == check_boxes(key@, names, i as nat),
        decreases variants@.len() - i,
    {
        let variant = variants[i].as_str();
        assert(names[i as int] == variant@);
        let mut name = key.to_owned();
        name.append("_");
        let flat = replace_char(variant, ' ', "_");
        name.append(flat.as_str());
        let name = replace_char(name.as_str(), '_', "\\_");
        r.append("\\\\\n\\CheckBox[name=");
        r.append(name.as_str());
        r.append("]{} ");
        r.append(variant);
        r.append("\n");
        i += 1;
    }
    r
}

fn render_menu_options(alternatives: &Vec<Alternative>, Ghost(branches): Ghost<
    Seq<AlternativeModel>,
>) -> (r: String)
    requires
        branches.len() == alternatives@.len(),
        forall|i: int| 0 <= i < alternatives@.len() ==> branches[i] == (#[trigger] alternatives@[i])@,
    ensures
        r@ == menu_options(branches, branches.len()),
{
    let mut r = String::new();
    let mut i: usize = 0;
    while i < alternatives.len()
        invariant
            i <= alternatives@.len(),
            branches.len() == alternatives@.len(),
            forall|j: int|
                0 <= j < alternatives@.len() ==> branches[j] == (#[trigger] alternatives@[j])@,
            r@ == menu_options(branches, i as nat),
        decreases alternatives@.len() - i,
    {
        assert(branches[i as int] == alternatives@[i as int]@);
        if i > 0 {
            r.append(",");
        }
        r.append(alternatives[i].name.as_str());
        proof {
            if i == 0 {
                assert(r@ =~= branches[0].name);
            }
        }
        i += 1;
    }
    r
}

fn render_control(question: &Question, key: &str) -> (r: String)
    requires
        !(question@.kind is Nested),
    ensures
        r@ == rendered_control(question@, key@),
{
    proof {
        question.lemma_kind();
    }
    let name = replace_char(key, '_', "\\_");
    let mut s = String::new();
    match question.kind() {
        QuestionKind::Input(_) => {
            s.append("\\\\\n\\TextField[name=");
            s.append(name.as_str());
            s.append(",width=3in]{}\n\\medskip\n");
        },
        QuestionKind::Int(_) => {
            s.append("\\\\\n\\TextField[name=");
            s.append(name.as_str());
            s.append(",width=1in]{}\n% (integer only)\n\\medskip\n");
        },
        QuestionKind::Confirm(_) => {
            s.append("\\\\\n\\CheckBox[name=");
            s.append(name.as_str());
            s.append("]{} Yes\n\\medskip\n");
        },
        QuestionKind::Multiline(_) => {
            s.append("\\\\\n\\TextField[name=");
            s.append(name.as_str());
            s.append(",multiline=true,width=3in,height=1in]{}\n\\medskip\n");
        },
        QuestionKind::Masked(_) => {
            s.append("\\\\\n\\TextField[name=");
            s.append(name.as_str());
            s.append(",width=3in]{}\n\\medskip\n% (not masked in PDF)\n\\medskip\n");
        },
        QuestionKind::Float(_) => {
            s.append("% [Float] Floating-point input not supported in LaTeX\n\\medskip\n");
        },
        QuestionKind::List(list) => match &list.element {
            ListElement::Variants(variants) => {
                let boxes = render_check_boxes(key, variants);
                s.append(boxes.as_str());
                s.append("\\medskip\n");
            },
            _ => {
                s.append("% [List] List input not supported in LaTeX\n\\medskip\n");
            },
        },
        QuestionKind::Nested(_) => {},
    }
    s
}

/// Renders a question asked in `scope`.
pub fn render_question(question: &Question, scope: &str) -> (r: String)
    ensures
        r@ == rendered_question(question@, scope@),
    decreases question@, 0nat,
{
    proof {
        question.lemma_kind();
    }
    let mut s = replace_char(question.prompt(), '&', "\\&");
    let key = scoped_key(scope, question.key());
    match question.kind() {
        QuestionKind::Nested(nested) => {
            assert(question@.kind->Nested_sections == nested.interview@);
            assert(decreases_to!(question@ => question@.kind));
            assert(decreases_to!(question@.kind => question@.kind->Nested_sections));
            let inner = render_sections(
                &nested.interview.sections,
                key.as_str(),
                key.as_str(),
                nested.interview.sections.len(),
                Ghost(nested.interview@),
            );
            s.append(inner.as_str());
        },
        _ => {
            let control = render_control(question, key.as_str());
            s.append(control.as_str());
        },
    }
    s.append("\n");
    s
}

fn render_sequence(sequence: &Sequence, scope: &str, n: usize) -> (r: String)
    requires
        n <= sequence.sequence@.len(),
    ensures
        r@ == rendered_sequence(sequence@, scope@, n as nat),
    decreases sequence@, n,
{
    if n == 0 {
        String::new()
    } else {
        let mut s = render_sequence(sequence, scope, n - 1);
        assert(sequence@[n - 1] == sequence.sequence@[n - 1]@);
        assert(decreases_to!(sequence@ => sequence@[n - 1]));
        let q = render_question(&sequence.sequence[n - 1], scope);
        s.append(q.as_str());
        s
    }
}

/// Renders a section in `scope`.
pub fn render_section(section: &Section, scope: &str, place: &str) -> (r: String)
    ensures
        r@ == rendered_section(section@, scope@, place@),
    decreases section@, 0nat,
{
    match section {
        Section::Empty => "% [Unit] No data to collect\n\\medskip\n".to_owned(),
        Section::Sequence(sequence) => {
            assert(decreases_to!(section@ => section@->Sequence_0));
            render_sequence(sequence, scope, sequence.sequence.len())
        },
        Section::Alternatives(_, alternatives) => {
            let mut s = "\\\\\n\\ChoiceMenu[popdown,name=".to_owned();
            let key = choice_key_of(place);
            let name = replace_char(key.as_str(), '_', "\\_");
            s.append(name.as_str());
            s.append(",width=2in]{}{");
            let options = render_menu_options(alternatives, Ghost(section@->Alternatives_1));
            s.append(options.as_str());
            s.append("}\n\\medskip\n");
            s
        },
    }
}

fn render_sections(sections: &Vec<Section>, scope: &str, place: &str, n: usize, Ghost(models): Ghost<
    Seq<SectionModel>,
>) -> (r: String)
    requires
        n <= sections@.len(),
        models.len() == sections@.len(),
        forall|i: int| 0 <= i < sections@.len() ==> models[i] == (#[trigger] sections@[i])@,
    ensures
        r@ == rendered_sections(models, scope@, place@, n as nat),
    decreases models, n,
{
    if n == 0 {
        String::new()
    } else {
        let mut s = render_sections(sections, scope, place, n - 1, Ghost(models));
        assert(models[n - 1] == sections@[n - 1]@);
        assert(decreases_to!(models => models[n - 1]));
        let section = render_section(&sections[n - 1], scope, section_place_of(place, n - 1).as_str());
        s.append(section.as_str());
        s
    }
}

fn render_form_questions(sequence: &Sequence) -> (r: String)
    ensures
        r@ == form_questions(sequence@, sequence@.len()),
{
    let root = String::new();
    let mut s = String::new();
    let mut i: usize = 0;
    while i < sequence.sequence.len()
        invariant
            i <= sequence.sequence@.len(),
            root@.len() == 0,
            s@ == form_questions(sequence@, i as nat),
        decreases sequence.sequence@.len() - i,
    {
        assert(sequence@[i as int] == sequence.sequence@[i as int]@);
        assert(root@ =~= Seq::<char>::empty());
        let q = render_question(&sequence.sequence[i], root.as_str());
        s.append(q.as_str());
        s.append("\\bigskip\n");
        i += 1;
    }
    s
}

/// Generate a LaTeX document (as a String) for a fillable form from an
/// interview, with the text before and the text after it where they are
/// given.
pub fn to_latex_form(interview: &Interview, prelude: Option<&str>, epilogue: Option<&str>) -> (r:
    String)
    ensures
        r@ == latex_form(
            interview@,
            crate::question::name_model(prelude),
            crate::question::name_model(epilogue),
        ),
{
    let root = String::new();
    let mut latex = String::new();
    latex.append("\\documentclass{article}\n\\usepackage[pdftex,unicode]{hyperref}\n\\usepackage{geometry}\n\\hypersetup{pdfborder=0 0 0}\n\\geometry{margin=1in}\n\\begin{document}\n");
    match prelude {
        Some(text) => {
            latex.append("\n");
            latex.append(text);
            latex.append("\\bigskip\n");
        },
        None => {},
    }
    latex.append("\\begin{Form}\n\n");
    let ghost head = latex@;
    let mut i: usize = 0;
    while i < interview.sections.len()
        invariant
            i <= interview.sections@.len(),
            root@.len() == 0,
            latex@ == head + form_body(interview@, i as nat),
        decreases interview.sections@.len() - i,
    {
        assert(interview@[i as int] == interview.sections@[i as int]@);
        assert(root@ =~= Seq::<char>::empty());
        match &interview.sections[i] {
            Section::Sequence(sequence) => {
                let questions = render_form_questions(sequence);
                latex.append(questions.as_str());
            },
            section => {
                let rendered = render_section(section, root.as_str(), section_place_of(root.as_str(), i).as_str());
                latex.append(rendered.as_str());
                latex.append("\n\\bigskip\n");
            },
        }
        assert(latex@ =~= head + form_body(interview@, (i + 1) as nat));
        i += 1;
    }
    latex.append("\\end{Form}\n");
    match epilogue {
        Some(text) => {
            latex.append("\\bigskip\n");
            latex.append(text);
            latex.append("\n");
        },
        None => {},
    }
    latex.append("\\end{document}");
    assert(latex@ =~= latex_form(
        interview@,
        crate::question::name_model(prelude),
        crate::question::name_model(epilogue),
    ));
    latex
}

} // verus!
