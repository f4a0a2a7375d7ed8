//! Questions and their kinds.

use vstd::prelude::*;
use crate::answer::{AnswerValue, Value};
use crate::interview::{Interview, SectionModel};

verus! {

/// One presentable prompt with its kind and constraints.
#[derive(Debug)]
pub struct Question {
    /// The unique identifier for the question.
    id: Option<String>,
    /// The field name.
    name: String,
    /// The prompt message to display.
    prompt: String,
    kind: QuestionKind,
    /// Whether the question may be skipped, leaving no answer.
    optional: bool,
    /// The validator of the enclosing struct, run for this field too.
    propagated: Option<String>,
}

/// A default value that can be set on a question.
#[derive(Debug)]
pub enum QuestionDefault {
    String(String),
    Int(i64),
    /// A 64-bit float, held as its bits.
    Float(u64),
    Bool(bool),
}

impl From<String> for QuestionDefault {
    fn from(v: String) -> (r: QuestionDefault) {
        QuestionDefault::String(v)
    }
}

impl vstd::std_specs::convert::FromSpecImpl<String> for QuestionDefault {
    open spec fn obeys_from_spec() -> bool {
        true
    }

    open spec fn from_spec(v: String) -> QuestionDefault {
        QuestionDefault::String(v)
    }
}

impl From<i64> for QuestionDefault {
    fn from(v: i64) -> (r: QuestionDefault) {
        QuestionDefault::Int(v)
    }
}

impl vstd::std_specs::convert::FromSpecImpl<i64> for QuestionDefault {
    open spec fn obeys_from_spec() -> bool {
        true
    }

    open spec fn from_spec(v: i64) -> QuestionDefault {
        QuestionDefault::Int(v)
    }
}

impl From<bool> for QuestionDefault {
    fn from(v: bool) -> (r: QuestionDefault) {
        QuestionDefault::Bool(v)
    }
}

impl vstd::std_specs::convert::FromSpecImpl<bool> for QuestionDefault {
    open spec fn obeys_from_spec() -> bool {
        true
    }

    open spec fn from_spec(v: bool) -> QuestionDefault {
        QuestionDefault::Bool(v)
    }
}

/// Possible question kinds which a wizard may ask.
#[derive(Debug)]
pub enum QuestionKind {
    /// A text input question for string values.
    Input(InputQuestion),
    /// A multi-line text input.
    Multiline(MultilineQuestion),
    /// A password/masked input question.
    Masked(MaskedQuestion),
    /// A number input question (integers).
    Int(IntQuestion),
    /// A number input question (floating point).
    Float(FloatQuestion),
    /// A yes/no confirmation question.
    Confirm(ConfirmQuestion),
    /// A list of values of one element kind, or a multi-select.
    List(ListQuestion),
    /// The interview of a subordinate type.
    Nested(NestedQuestion),
}

/// Configuration for a nested interview question.
#[derive(Debug)]
pub struct NestedQuestion {
    /// The type path of the nested wizard type.
    pub type_path: String,
    /// The subordinate type's own tree.
    pub interview: Interview,
}

/// Configuration for a text input question.
#[derive(Debug, Clone)]
pub struct InputQuestion {
    /// Optional default value.
    pub default: Option<String>,
    /// Validation function to call on each keystroke.
    pub validate_on_key: Option<String>,
    /// Validation function to call on submission.
    pub validate_on_submit: Option<String>,
}

/// Configuration for a multi-line text editor question.
#[derive(Debug, Clone)]
pub struct MultilineQuestion {
    /// Optional default value.
    pub default: Option<String>,
    /// Validation function to call on each keystroke.
    pub validate_on_key: Option<String>,
    /// Validation function to call on submission.
    pub validate_on_submit: Option<String>,
}

/// Configuration for a password/masked input question.
#[derive(Debug, Clone)]
pub struct MaskedQuestion {
    /// The masking character (default: '*').
    pub mask: Option<char>,
    /// Validation function to call on each keystroke.
    pub validate_on_key: Option<String>,
    /// Validation function to call on submission.
    pub validate_on_submit: Option<String>,
}

/// Configuration for an integer input question.
#[derive(Debug, Clone)]
pub struct IntQuestion {
    /// Optional default value
    pub default: Option<i64>,
    /// Optional minimum value
    pub min: Option<i64>,
    /// Optional maximum value
    pub max: Option<i64>,
    /// Validation function to call on each keystroke.
    pub validate_on_key: Option<String>,
    /// Validation function to call on submission.
    pub validate_on_submit: Option<String>,
}

/// Configuration for a floating-point input question. The three values are
/// the bits of 64-bit floats.
#[derive(Debug, Clone)]
pub struct FloatQuestion {
    /// Optional default value.
    pub default: Option<u64>,
    /// Optional minimum value
    pub min: Option<u64>,
    /// Optional maximum value
    pub max: Option<u64>,
    /// Validation function to call on each keystroke.
    pub validate_on_key: Option<String>,
    /// Validation function to call on submission.
    pub validate_on_submit: Option<String>,
}

/// Configuration for a yes/no confirmation question.
#[derive(Debug, Clone)]
pub struct ConfirmQuestion {
    /// Default value (true for yes, false for no)
    pub default: bool,
}

/// What the elements of a list question are.
#[derive(Debug, Clone)]
pub enum ListElement {
    Text,
    Int,
    Float,
    /// A multi-select among the named variants: the answer holds indices.
    Variants(Vec<String>),
}

/// Configuration for a list question.
#[derive(Debug, Clone)]
pub struct ListQuestion {
    /// The kind of each element.
    pub element: ListElement,
    /// Optional minimum of each integer element
    pub min: Option<i64>,
    /// Optional maximum of each integer element
    pub max: Option<i64>,
    /// Validation function to call on submission.
    pub validate_on_submit: Option<String>,
}

/// The bits of a float without its sign.
pub open spec fn float_magnitude(bits: u64) -> int {
    if bits >= 0x8000_0000_0000_0000 {
        bits - 0x8000_0000_0000_0000
    } else {
        bits as int
    }
}

/// Whether the bits are those of a float that is no number.
pub open spec fn float_is_nan(bits: u64) -> bool {
    float_magnitude(bits) > 0x7ff0_0000_0000_0000
}

/// The place of a float among the others: floats that are numbers are in
/// order exactly as their ranks are, and the two zeros share one rank.
pub open spec fn float_rank(bits: u64) -> int {
    if bits >= 0x8000_0000_0000_0000 {
        -float_magnitude(bits)
    } else {
        float_magnitude(bits)
    }
}

/// `a <= b` on floats given as their bits: both are numbers, and `a` is not
/// the greater one.
pub open spec fn float_le(a: u64, b: u64) -> bool {
    !float_is_nan(a) && !float_is_nan(b) && float_rank(a) <= float_rank(b)
}

/// Compares two floats given as their bits.
pub fn float_at_most(a: u64, b: u64) -> (r: bool)
    ensures
        r == float_le(a, b),
{
    let half: u64 = 0x8000_0000_0000_0000;
    let top: u64 = 0x7ff0_0000_0000_0000;
    let a_negative = a >= half;
    let b_negative = b >= half;
    let a_size: u64 = if a_negative {
        a - half
    } else {
        a
    };
    let b_size: u64 = if b_negative {
        b - half
    } else {
        b
    };
    if a_size > top || b_size > top {
        false
    } else if a_negative && b_negative {
        a_size >= b_size
    } else if a_negative {
        true
    } else if b_negative {
        a_size == 0 && b_size == 0
    } else {
        a_size <= b_size
    }
}

/// Whether the bounds of a kind are in order: where it has both, the
/// minimum is not above the maximum.
pub open spec fn bounds_ordered(kind: KindModel) -> bool {
    match kind {
        KindModel::Int { min: Some(min), max: Some(max), .. } => min <= max,
        KindModel::List { min: Some(min), max: Some(max), .. } => min <= max,
        KindModel::Float { min: Some(min), max: Some(max), .. } => float_le(min, max),
        _ => true,
    }
}

/// Checks that the bounds of a kind are in order.
pub fn has_ordered_bounds(kind: &QuestionKind) -> (r: bool)
    ensures
        r == bounds_ordered(kind@),
{
    match kind {
        QuestionKind::Int(q) => match (q.min, q.max) {
            (Some(min), Some(max)) => min <= max,
            _ => true,
        },
        QuestionKind::List(q) => match (q.min, q.max) {
            (Some(min), Some(max)) => min <= max,
            _ => true,
        },
        QuestionKind::Float(q) => match (q.min, q.max) {
            (Some(min), Some(max)) => float_at_most(min, max),
            _ => true,
        },
        _ => true,
    }
}

/// A suggestion changes no bound.
pub proof fn lemma_suggestion_keeps_bounds(kind: KindModel, suggestion: Option<Value>)
    ensures
        bounds_ordered(kind_with(kind, suggestion)) == bounds_ordered(kind),
{
}

/// The failure to make a question whose minimum is above its maximum.
#[derive(Debug, Clone, Copy, PartialEq, Eq, Structural)]
pub struct BoundsOutOfOrder;

/// What a question is, as mathematics.
pub ghost struct QuestionModel {
    pub id: Option<Seq<char>>,
    pub name: Seq<char>,
    pub prompt: Seq<char>,
    pub kind: KindModel,
    pub optional: bool,
    pub propagated: Option<Seq<char>>,
}

/// What a question kind is, as mathematics.
pub ghost enum KindModel {
    Input { default: Option<Seq<char>>, on_key: Option<Seq<char>>, on_submit: Option<Seq<char>> },
    Multiline { default: Option<Seq<char>>, on_key: Option<Seq<char>>, on_submit: Option<Seq<char>> },
    Masked { mask: Option<char>, on_key: Option<Seq<char>>, on_submit: Option<Seq<char>> },
    Int {
        default: Option<i64>,
        min: Option<i64>,
        max: Option<i64>,
        on_key: Option<Seq<char>>,
        on_submit: Option<Seq<char>>,
    },
    Float {
        default: Option<u64>,
        min: Option<u64>,
        max: Option<u64>,
        on_key: Option<Seq<char>>,
        on_submit: Option<Seq<char>>,
    },
    Confirm { default: bool },
    List { element: ElementModel, min: Option<i64>, max: Option<i64>, on_submit: Option<Seq<char>> },
    Nested { type_path: Seq<char>, sections: Seq<SectionModel> },
}

/// What a list's element kind is, as mathematics.
pub ghost enum ElementModel {
    Text,
    Int,
    Float,
    Variants(Seq<Seq<char>>),
}

/// The characters of an optional text.
pub open spec fn text_model(t: Option<String>) -> Option<Seq<char>> {
    match t {
        Some(s) => Some(s@),
        None => None,
    }
}

impl ListElement {
    pub open spec fn model(&self) -> ElementModel {
        match self {
            ListElement::Text => ElementModel::Text,
            ListElement::Int => ElementModel::Int,
            ListElement::Float => ElementModel::Float,
            ListElement::Variants(names) => ElementModel::Variants(
                Seq::new(names@.len(), |i: int| names@[i]@),
            ),
        }
    }
}

impl QuestionKind {
    pub open spec fn model(&self) -> KindModel
        decreases self,
    {
        match self {
            QuestionKind::Input(q) => KindModel::Input {
                default: text_model(q.default),
                on_key: text_model(q.validate_on_key),
                on_submit: text_model(q.validate_on_submit),
            },
            QuestionKind::Multiline(q) => KindModel::Multiline {
                default: text_model(q.default),
                on_key: text_model(q.validate_on_key),
                on_submit: text_model(q.validate_on_submit),
            },
            QuestionKind::Masked(q) => KindModel::Masked {
                mask: q.mask,
                on_key: text_model(q.validate_on_key),
                on_submit: text_model(q.validate_on_submit),
            },
            QuestionKind::Int(q) => KindModel::Int {
                default: q.default,
                min: q.min,
                max: q.max,
                on_key: text_model(q.validate_on_key),
                on_submit: text_model(q.validate_on_submit),
            },
            QuestionKind::Float(q) => KindModel::Float {
                default: q.default,
                min: q.min,
                max: q.max,
                on_key: text_model(q.validate_on_key),
                on_submit: text_model(q.validate_on_submit),
            },
            QuestionKind::Confirm(q) => KindModel::Confirm { default: q.default },
            QuestionKind::List(q) => KindModel::List {
                element: q.element.model(),
                min: q.min,
                max: q.max,
                on_submit: text_model(q.validate_on_submit),
            },
            QuestionKind::Nested(q) => KindModel::Nested {
                type_path: q.type_path@,
                sections: q.interview.model(),
            },
        }
    }
}

impl View for QuestionKind {
    type V = KindModel;

    open spec fn view(&self) -> KindModel {
        self.model()
    }
}

impl View for Question {
    type V = QuestionModel;

    open spec fn view(&self) -> QuestionModel {
        self.model()
    }
}

impl QuestionModel {
    /// The segment under which the question's answer is stored: its id, or
    /// its name where it has no id.
    pub open spec fn key(&self) -> Seq<char> {
        match self.id {
            Some(id) => id,
            None => self.name,
        }
    }
}

impl Question {
    pub closed spec fn model(&self) -> QuestionModel
        decreases self,
    {
        QuestionModel {
            id: text_model(self.id),
            name: self.name@,
            prompt: self.prompt@,
            kind: self.kind.model(),
            optional: self.optional,
            propagated: text_model(self.propagated),
        }
    }

    pub closed spec fn kind_model(&self) -> QuestionKind {
        self.kind
    }

    /// The kind held by a question is the one that its model shows.
    pub proof fn lemma_kind(&self)
        ensures
            self.kind_model()@ == self@.kind,
    {
    }

    /// Every question has its bounds in order.
    #[verifier::type_invariant]
    pub open spec fn well_formed(&self) -> bool {
        bounds_ordered(self@.kind)
    }

    /// Create a new question with the given id, name, prompt, and kind. A
    /// kind whose minimum is above its maximum makes no question.
    pub fn new(id: Option<String>, name: String, prompt: String, kind: QuestionKind) -> (r: Result<
        Self,
        BoundsOutOfOrder,
    >)
        ensures
            match r {
                Ok(q) => bounds_ordered(kind@) && q@ == (QuestionModel {
                    id: text_model(id),
                    name: name@,
                    prompt: prompt@,
                    kind: kind@,
                    optional: false,
                    propagated: None,
                }) && q.kind_model() == kind,
                Err(_) => !bounds_ordered(kind@),
            },
    {
        if has_ordered_bounds(&kind) {
            Ok(Self { id, name, prompt, kind, optional: false, propagated: None })
        } else {
            Err(BoundsOutOfOrder)
        }
    }

    fn make(id: Option<String>, name: String, prompt: String, kind: QuestionKind) -> (r: Self)
        requires
            bounds_ordered(kind@),
        ensures
            r@ == (QuestionModel {
                id: text_model(id),
                name: name@,
                prompt: prompt@,
                kind: kind@,
                optional: false,
                propagated: None,
            }),
            r.kind_model() == kind,
    {
        Self { id, name, prompt, kind, optional: false, propagated: None }
    }

    /// Whether the question may be skipped, leaving no answer.
    pub fn is_optional(&self) -> (r: bool)
        ensures
            r == self@.optional,
    {
        self.optional
    }

    /// Marks the question as one that may be skipped, or as one that may not.
    pub fn set_optional(&mut self, optional: bool)
        ensures
            final(self)@ == (QuestionModel { optional, ..old(self)@ }),
            final(self).kind_model() == old(self).kind_model(),
    {
        proof {
            use_type_invariant(&*self);
        }
        self.optional = optional;
    }

    /// The validator of the enclosing struct, if it has one.
    pub fn propagated(&self) -> (r: Option<&str>)
        ensures
            match r {
                Some(s) => self@.propagated == Some(s@),
                None => self@.propagated is None,
            },
    {
        match &self.propagated {
            Some(s) => Some(s.as_str()),
            None => None,
        }
    }

    /// Sets the validator of the enclosing struct.
    pub fn set_propagated(&mut self, validator: Option<String>)
        ensures
            final(self)@ == (QuestionModel { propagated: text_model(validator), ..old(self)@ }),
            final(self).kind_model() == old(self).kind_model(),
    {
        proof {
            use_type_invariant(&*self);
        }
        self.propagated = validator;
    }

    /// Sets the identifier under which the answer is stored.
    pub fn set_id(&mut self, id: Option<String>)
        ensures
            final(self)@ == (QuestionModel { id: text_model(id), ..old(self)@ }),
            final(self).kind_model() == old(self).kind_model(),
    {
        proof {
            use_type_invariant(&*self);
        }
        self.id = id;
    }

    pub fn id(&self) -> (r: Option<&str>)
        ensures
            match r {
                Some(s) => self@.id == Some(s@),
                None => self@.id is None,
            },
    {
        match &self.id {
            Some(s) => Some(s.as_str()),
            None => None,
        }
    }

    pub fn name(&self) -> (r: &str)
        ensures
            r@ == self@.name,
    {
        self.name.as_str()
    }

    pub fn prompt(&self) -> (r: &str)
        ensures
            r@ == self@.prompt,
    {
        self.prompt.as_str()
    }

    /// The kind of the question; its bounds are in order.
    pub fn kind(&self) -> (r: &QuestionKind)
        ensures
            *r == self.kind_model(),
            bounds_ordered(r@),
    {
        proof {
            use_type_invariant(self);
        }
        &self.kind
    }

    /// The segment under which the question's answer is stored.
    pub fn key(&self) -> (r: &str)
        ensures
            r@ == self@.key(),
    {
        match &self.id {
            Some(s) => s.as_str(),
            None => self.name.as_str(),
        }
    }

    /// Puts `kind` in the place of the question's kind and hands back the
    /// kind that was there. A kind whose minimum is above its maximum is not
    /// taken: the question stays as it is.
    pub fn set_kind(&mut self, kind: QuestionKind) -> (r: Result<QuestionKind, BoundsOutOfOrder>)
        ensures
            match r {
                Ok(before) => bounds_ordered(kind@) && before == old(self).kind_model()
                    && final(self).kind_model() == kind && final(self)@ == (QuestionModel {
                    kind: kind@,
                    ..old(self)@
                }),
                Err(_) => !bounds_ordered(kind@) && *final(self) == *old(self),
            },
    {
        if has_ordered_bounds(&kind) {
            let mut kind = kind;
            std::mem::swap(&mut self.kind, &mut kind);
            Ok(kind)
        } else {
            Err(BoundsOutOfOrder)
        }
    }

    /// Set the default value for this question based on its kind.
    /// Returns true if the default was set, false if the question kind doesn't support defaults.
    pub fn set_default(&mut self, value: QuestionDefault) -> (r: bool)
        ensures
            r == with_default(old(self).kind_model(), value).is_some(),
            final(self).kind_model() == match with_default(old(self).kind_model(), value) {
                Some(k) => k,
                None => old(self).kind_model(),
            },
            final(self)@ == (QuestionModel { kind: final(self).kind_model()@, ..old(self)@ }),
    {
        proof {
            use_type_invariant(&*self);
        }
        let mut kind = QuestionKind::Confirm(ConfirmQuestion { default: false });
        std::mem::swap(&mut self.kind, &mut kind);
        let r = match (&mut kind, value) {
            (QuestionKind::Input(q), QuestionDefault::String(v)) => {
                q.default = Some(v);
                true
            },
            (QuestionKind::Multiline(q), QuestionDefault::String(v)) => {
                q.default = Some(v);
                true
            },
            (QuestionKind::Int(q), QuestionDefault::Int(v)) => {
                q.default = Some(v);
                true
            },
            (QuestionKind::Float(q), QuestionDefault::Float(v)) => {
                q.default = Some(v);
                true
            },
            (QuestionKind::Confirm(q), QuestionDefault::Bool(v)) => {
                q.default = v;
                true
            },
            _ => false,
        };
        std::mem::swap(&mut self.kind, &mut kind);
        r
    }
}

/// The kind that `kind` becomes when `value` is set as its default, or `None`
/// where the kind takes no default of that type.
pub open spec fn with_default(kind: QuestionKind, value: QuestionDefault) -> Option<QuestionKind> {
    match (kind, value) {
        (QuestionKind::Input(q), QuestionDefault::String(v)) => Some(
            QuestionKind::Input(InputQuestion { default: Some(v), ..q }),
        ),
        (QuestionKind::Multiline(q), QuestionDefault::String(v)) => Some(
            QuestionKind::Multiline(MultilineQuestion { default: Some(v), ..q }),
        ),
        (QuestionKind::Int(q), QuestionDefault::Int(v)) => Some(
            QuestionKind::Int(IntQuestion { default: Some(v), ..q }),
        ),
        (QuestionKind::Float(q), QuestionDefault::Float(v)) => Some(
            QuestionKind::Float(FloatQuestion { default: Some(v), ..q }),
        ),
        (QuestionKind::Confirm(q), QuestionDefault::Bool(v)) => Some(
            QuestionKind::Confirm(ConfirmQuestion { default: v }),
        ),
        _ => None,
    }
}

impl QuestionModel {
    /// A question named `name` that asks `prompt`, of kind `kind`, with no
    /// identifier of its own, that cannot be skipped.
    pub open spec fn plain(name: Seq<char>, prompt: Seq<char>, kind: KindModel) -> QuestionModel {
        QuestionModel { id: None, name, prompt, kind, optional: false, propagated: None }
    }

    /// A text question without default.
    pub open spec fn input(name: Seq<char>, prompt: Seq<char>, on_submit: Option<Seq<char>>) -> QuestionModel {
        QuestionModel::plain(
            name,
            prompt,
            KindModel::Input { default: None, on_key: None, on_submit },
        )
    }

    /// A multi-line text question without default.
    pub open spec fn multiline(name: Seq<char>, prompt: Seq<char>, on_submit: Option<Seq<char>>) -> QuestionModel {
        QuestionModel::plain(
            name,
            prompt,
            KindModel::Multiline { default: None, on_key: None, on_submit },
        )
    }

    /// A masked text question.
    pub open spec fn masked(name: Seq<char>, prompt: Seq<char>, on_submit: Option<Seq<char>>) -> QuestionModel {
        QuestionModel::plain(name, prompt, KindModel::Masked { mask: None, on_key: None, on_submit })
    }

    /// An integer question without default.
    pub open spec fn integer(
        name: Seq<char>,
        prompt: Seq<char>,
        min: Option<i64>,
        max: Option<i64>,
        on_submit: Option<Seq<char>>,
    ) -> QuestionModel {
        QuestionModel::plain(
            name,
            prompt,
            KindModel::Int { default: None, min, max, on_key: None, on_submit },
        )
    }

    /// A float question without default, with bounds given as bits.
    pub open spec fn float(
        name: Seq<char>,
        prompt: Seq<char>,
        min: Option<u64>,
        max: Option<u64>,
        on_submit: Option<Seq<char>>,
    ) -> QuestionModel {
        QuestionModel::plain(
            name,
            prompt,
            KindModel::Float { default: None, min, max, on_key: None, on_submit },
        )
    }

    /// A list question with elements of kind `element`.
    pub open spec fn list(
        name: Seq<char>,
        prompt: Seq<char>,
        element: ElementModel,
        min: Option<i64>,
        max: Option<i64>,
        on_submit: Option<Seq<char>>,
    ) -> QuestionModel {
        QuestionModel::plain(name, prompt, KindModel::List { element, min, max, on_submit })
    }

    /// The same question, marked as one that may be skipped.
    pub open spec fn skippable(self) -> QuestionModel {
        QuestionModel { optional: true, ..self }
    }

    /// A yes/no question that defaults to no.
    pub open spec fn confirm(name: Seq<char>, prompt: Seq<char>) -> QuestionModel {
        QuestionModel::plain(name, prompt, KindModel::Confirm { default: false })
    }

    /// A multi-select among the named variants.
    pub open spec fn multi_select(
        name: Seq<char>,
        prompt: Seq<char>,
        variants: Seq<Seq<char>>,
        on_submit: Option<Seq<char>>,
    ) -> QuestionModel {
        QuestionModel::plain(
            name,
            prompt,
            KindModel::List {
                element: ElementModel::Variants(variants),
                min: None,
                max: None,
                on_submit,
            },
        )
    }

    /// A question that holds the tree of the type `type_path`.
    pub open spec fn nested(
        name: Seq<char>,
        prompt: Seq<char>,
        type_path: Seq<char>,
        sections: Seq<SectionModel>,
    ) -> QuestionModel {
        QuestionModel::plain(name, prompt, KindModel::Nested { type_path, sections })
    }
}

/// The characters of an optional name.
pub open spec fn name_model(name: Option<&str>) -> Option<Seq<char>> {
    match name {
        Some(n) => Some(n@),
        None => None,
    }
}

/// The name of a validator, owned, where one is given.
pub fn owned_name(name: Option<&str>) -> (r: Option<String>)
    ensures
        text_model(r) == name_model(name),
{
    match name {
        Some(n) => Some(n.to_owned()),
        None => None,
    }
}

impl Question {
    /// A text question without default.
    pub fn input(name: &str, prompt: &str, on_submit: Option<&str>) -> (r: Question)
        ensures
            r@ == QuestionModel::input(name@, prompt@, name_model(on_submit)),
    {
        Question::make(
            None,
            name.to_owned(),
            prompt.to_owned(),
            QuestionKind::Input(
                InputQuestion {
                    default: None,
                    validate_on_key: None,
                    validate_on_submit: owned_name(on_submit),
                },
            ),
        )
    }

    /// A multi-line text question without default.
    pub fn multiline(name: &str, prompt: &str, on_submit: Option<&str>) -> (r: Question)
        ensures
            r@ == QuestionModel::multiline(name@, prompt@, name_model(on_submit)),
    {
        Question::make(
            None,
            name.to_owned(),
            prompt.to_owned(),
            QuestionKind::Multiline(
                MultilineQuestion {
                    default: None,
                    validate_on_key: None,
                    validate_on_submit: owned_name(on_submit),
                },
            ),
        )
    }

    /// A masked text question.
    pub fn masked(name: &str, prompt: &str, on_submit: Option<&str>) -> (r: Question)
        ensures
            r@ == QuestionModel::masked(name@, prompt@, name_model(on_submit)),
    {
        Question::make(
            None,
            name.to_owned(),
            prompt.to_owned(),
            QuestionKind::Masked(
                MaskedQuestion {
                    mask: None,
                    validate_on_key: None,
                    validate_on_submit: owned_name(on_submit),
                },
            ),
        )
    }

    /// An integer question without default.
    pub fn integer(name: &str, prompt: &str, min: Option<i64>, max: Option<i64>, on_submit: Option<&str>) -> (r:
        Question)
        requires
            min is Some && max is Some ==> min->0 <= max->0,
        ensures
            r@ == QuestionModel::integer(
                name@,
                prompt@,
                min,
                max,
                name_model(on_submit),
            ),
    {
        Question::make(
            None,
            name.to_owned(),
            prompt.to_owned(),
            QuestionKind::Int(
                IntQuestion {
                    default: None,
                    min,
                    max,
                    validate_on_key: None,
                    validate_on_submit: owned_name(on_submit),
                },
            ),
        )
    }

    /// A float question without default, with bounds given as bits.
    pub fn float(name: &str, prompt: &str, min: Option<u64>, max: Option<u64>, on_submit: Option<&str>) -> (r:
        Question)
        requires
            min is Some && max is Some ==> float_le(min->0, max->0),
        ensures
            r@ == QuestionModel::float(name@, prompt@, min, max, name_model(on_submit)),
    {
        Question::make(
            None,
            name.to_owned(),
            prompt.to_owned(),
            QuestionKind::Float(
                FloatQuestion {
                    default: None,
                    min,
                    max,
                    validate_on_key: None,
                    validate_on_submit: owned_name(on_submit),
                },
            ),
        )
    }

    /// A list question with elements of kind `element`.
    pub fn list(
        name: &str,
        prompt: &str,
        element: ListElement,
        min: Option<i64>,
        max: Option<i64>,
        on_submit: Option<&str>,
    ) -> (r: Question)
        requires
            min is Some && max is Some ==> min->0 <= max->0,
        ensures
            r@ == QuestionModel::list(
                name@,
                prompt@,
                element.model(),
                min,
                max,
                name_model(on_submit),
            ),
    {
        Question::make(
            None,
            name.to_owned(),
            prompt.to_owned(),
            QuestionKind::List(
                ListQuestion { element, min, max, validate_on_submit: owned_name(on_submit) },
            ),
        )
    }

    /// The same question, marked as one that may be skipped.
    pub fn skippable(self) -> (r: Question)
        ensures
            r@ == self@.skippable(),
    {
        let mut r = self;
        r.set_optional(true);
        r
    }

    /// A yes/no question that defaults to no.
    pub fn confirm(name: &str, prompt: &str) -> (r: Question)
        ensures
            r@ == QuestionModel::confirm(name@, prompt@),
    {
        Question::make(
            None,
            name.to_owned(),
            prompt.to_owned(),
            QuestionKind::Confirm(ConfirmQuestion { default: false }),
        )
    }

    /// A multi-select among the named variants.
    pub fn multi_select(name: &str, prompt: &str, variants: Vec<String>, on_submit: Option<&str>) -> (r:
        Question)
        ensures
            r@ == QuestionModel::multi_select(
                name@,
                prompt@,
                ListElement::Variants(variants).model()->Variants_0,
                name_model(on_submit),
            ),
    {
        Question::make(
            None,
            name.to_owned(),
            prompt.to_owned(),
            QuestionKind::List(
                ListQuestion {
                    element: ListElement::Variants(variants),
                    min: None,
                    max: None,
                    validate_on_submit: owned_name(on_submit),
                },
            ),
        )
    }

    /// A question that holds the tree of the type `type_path`.
    pub fn nested(name: &str, prompt: &str, type_path: &str, interview: Interview) -> (r: Question)
        ensures
            r@ == QuestionModel::nested(name@, prompt@, type_path@, interview@),
    {
        Question::make(
            None,
            name.to_owned(),
            prompt.to_owned(),
            QuestionKind::Nested(NestedQuestion { type_path: type_path.to_owned(), interview }),
        )
    }
}

/// A copy of an optional text.
pub fn copy_text(t: &Option<String>) -> (r: Option<String>)
    ensures
        text_model(r) == text_model(*t),
{
    match t {
        Some(s) => Some(s.clone()),
        None => None,
    }
}

impl ListElement {
    /// A copy of this element kind.
    pub fn duplicate(&self) -> (r: ListElement)
        ensures
            r.model() == self.model(),
    {
        match self {
            ListElement::Text => ListElement::Text,
            ListElement::Int => ListElement::Int,
            ListElement::Float => ListElement::Float,
            ListElement::Variants(names) => {
                let mut copy: Vec<String> = Vec::new();
                let mut i: usize = 0;
                while i < names.len()
                    invariant
                        i <= names@.len(),
                        copy@.len() == i,
                        forall|j: int| 0 <= j < i ==> copy@[j]@ == names@[j]@,
                    decreases names@.len() - i,
                {
                    copy.push(names[i].clone());
                    i += 1;
                }
                let r = ListElement::Variants(copy);
                assert(r.model()->Variants_0 =~= self.model()->Variants_0);
                r
            },
        }
    }
}

/// The kind that `kind` becomes when `value` is suggested for it: the value
/// becomes the default where it is of the kind's type, else nothing changes.
pub open spec fn suggested_kind(kind: KindModel, value: Value) -> KindModel {
    match (kind, value) {
        (KindModel::Input { default, on_key, on_submit }, Value::Text(v)) => KindModel::Input {
            default: Some(v),
            on_key,
            on_submit,
        },
        (
            KindModel::Multiline { default, on_key, on_submit },
            Value::Text(v),
        ) => KindModel::Multiline { default: Some(v), on_key, on_submit },
        (KindModel::Int { default, min, max, on_key, on_submit }, Value::Int(v)) => KindModel::Int {
            default: Some(v),
            min,
            max,
            on_key,
            on_submit,
        },
        (
            KindModel::Float { default, min, max, on_key, on_submit },
            Value::Float(v),
        ) => KindModel::Float { default: Some(v), min, max, on_key, on_submit },
        (KindModel::Confirm { default }, Value::Bool(v)) => KindModel::Confirm { default: v },
        _ => kind,
    }
}

/// The kind with the suggestion, where there is one.
pub open spec fn kind_with(kind: KindModel, suggestion: Option<Value>) -> KindModel {
    match suggestion {
        Some(v) => suggested_kind(kind, v),
        None => kind,
    }
}

/// The model of an optional value.
pub open spec fn value_model(v: Option<&AnswerValue>) -> Option<Value> {
    match v {
        Some(v) => Some(v@),
        None => None,
    }
}

impl QuestionKind {
    /// A copy of this kind, with `suggestion` as its default where there is
    /// one of the kind's type. A nested kind, whose tree is not copied here,
    /// gives none.
    pub fn copy_with(&self, suggestion: Option<&AnswerValue>) -> (r: Option<QuestionKind>)
        ensures
            match r {
                Some(k) => !(self is Nested) && k@ == kind_with(self@, value_model(suggestion)),
                None => self is Nested,
            },
    {
        Some(match self {
            QuestionKind::Input(q) => QuestionKind::Input(
                InputQuestion {
                    default: match suggestion {
                        Some(AnswerValue::String(v)) => Some(v.clone()),
                        _ => copy_text(&q.default),
                    },
                    validate_on_key: copy_text(&q.validate_on_key),
                    validate_on_submit: copy_text(&q.validate_on_submit),
                },
            ),
            QuestionKind::Multiline(q) => QuestionKind::Multiline(
                MultilineQuestion {
                    default: match suggestion {
                        Some(AnswerValue::String(v)) => Some(v.clone()),
                        _ => copy_text(&q.default),
                    },
                    validate_on_key: copy_text(&q.validate_on_key),
                    validate_on_submit: copy_text(&q.validate_on_submit),
                },
            ),
            QuestionKind::Masked(q) => QuestionKind::Masked(
                MaskedQuestion {
                    mask: q.mask,
                    validate_on_key: copy_text(&q.validate_on_key),
                    validate_on_submit: copy_text(&q.validate_on_submit),
                },
            ),
            QuestionKind::Int(q) => QuestionKind::Int(
                IntQuestion {
                    default: match suggestion {
                        Some(AnswerValue::Int(v)) => Some(*v),
                        _ => q.default,
                    },
                    min: q.min,
                    max: q.max,
                    validate_on_key: copy_text(&q.validate_on_key),
                    validate_on_submit: copy_text(&q.validate_on_submit),
                },
            ),
            QuestionKind::Float(q) => QuestionKind::Float(
                FloatQuestion {
                    default: match suggestion {
                        Some(AnswerValue::Float(v)) => Some(*v),
                        _ => q.default,
                    },
                    min: q.min,
                    max: q.max,
                    validate_on_key: copy_text(&q.validate_on_key),
                    validate_on_submit: copy_text(&q.validate_on_submit),
                },
            ),
            QuestionKind::Confirm(q) => QuestionKind::Confirm(
                ConfirmQuestion {
                    default: match suggestion {
                        Some(AnswerValue::Bool(v)) => *v,
                        _ => q.default,
                    },
                },
            ),
            QuestionKind::List(q) => QuestionKind::List(
                ListQuestion {
                    element: q.element.duplicate(),
                    min: q.min,
                    max: q.max,
                    validate_on_submit: copy_text(&q.validate_on_submit),
                },
            ),
            QuestionKind::Nested(_) => {
                return None;
            },
        })
    }
}

impl Question {
    /// A copy of this question, with `kind` in place of its kind.
    pub fn with_kind(&self, kind: QuestionKind) -> (r: Question)
        requires
            bounds_ordered(kind@),
        ensures
            r@ == (QuestionModel { kind: kind@, ..self@ }),
            r.kind_model() == kind,
    {
        Question {
            id: copy_text(&self.id),
            name: self.name.clone(),
            prompt: self.prompt.clone(),
            kind,
            optional: self.optional,
            propagated: copy_text(&self.propagated),
        }
    }
}

} // verus!
