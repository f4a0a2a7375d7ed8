//! Building the interview tree of a type from a description of its
//! declaration: its fields, their attributes and their types.

use vstd::prelude::*;
use crate::answer::{AnswerError, AnswerErrorModel, AnswerValue, Value};
use crate::interview::{Alternative, AlternativeModel, Interview, Section, SectionModel, Sequence};
use crate::question::{
    ConfirmQuestion, ElementModel, FloatQuestion, InputQuestion, IntQuestion, KindModel,
    ListElement, ListQuestion, MaskedQuestion, MultilineQuestion, NestedQuestion, Question,
    QuestionKind, QuestionModel,
};
use crate::text::{
    chars_of, int_of_text, parse_int, push_char, scoped, scoped_key, str_eq, text_of_nat,
    usize_to_text,
};

verus! {

/// What stands behind an attribute's name.
#[derive(Debug)]
pub enum AttributeMeta {
    /// Nothing: `#[mask]`.
    Path,
    /// A list in parentheses, held as its text: `#[prompt("Name:")]` holds `Name:`.
    List(String),
    /// `#[name = value]`.
    NameValue,
}

/// One attribute of a field.
#[derive(Debug)]
pub struct Attribute {
    pub name: String,
    pub meta: AttributeMeta,
}

/// The type of a field, as far as the tree depends on it.
#[derive(Debug)]
pub enum FieldType {
    /// A named type: the identifiers of its path segments.
    Path(Vec<String>),
    /// A named type with one argument, such as `Option<T>` or `Vec<T>`: its
    /// identifier and the argument.
    Of(String, Box<FieldType>),
    /// Any other type: a reference, a tuple, an array.
    Other,
}

/// One field of a struct or of a variant.
#[derive(Debug)]
pub struct Field {
    pub ident: Option<String>,
    pub attrs: Vec<Attribute>,
    pub ty: FieldType,
}

/// The fields of a variant.
#[derive(Debug)]
pub enum Fields {
    Named(Vec<Field>),
    Unnamed(Vec<Field>),
    Unit,
}

/// One variant of an enum.
#[derive(Debug)]
pub struct Variant {
    pub ident: String,
    pub fields: Fields,
}

/// The body of a declaration.
#[derive(Debug)]
pub enum Data {
    Struct(Vec<Field>),
    Enum(Vec<Variant>),
    Union,
}

/// A type declaration.
#[derive(Debug)]
pub struct DeriveInput {
    pub ident: String,
    /// The attributes of the type itself.
    pub attrs: Vec<Attribute>,
    pub data: Data,
}

/// The question that is asked for a field.
#[derive(Debug, Clone, Copy, PartialEq, Eq, Structural)]
pub enum QuestionType {
    Editor,
    Password,
    Input,
    Confirm,
    Int,
    Float,
    Select,
    Expand,
    MultiSelect,
}

/// How the answer to a field's question becomes the field's value.
#[derive(Debug, Clone, Copy, PartialEq, Eq, Structural)]
pub enum Conversion {
    /// Text, taken as a filesystem path.
    PathFromString,
    String,
    Bool,
    /// An integer, narrowed to the field's integer type: it has to lie from
    /// `low` to `high`.
    Int { low: i64, high: i64 },
    /// A float, narrowed to the field's float type.
    Float,
    ListItem,
    ExpandItem,
    ListItems,
}

/// Why no tree can be built for a declaration.
#[derive(Debug, Clone, Copy, PartialEq, Eq, Structural)]
pub enum SchemaErrorKind {
    /// A field carries both `mask` and `editor`.
    MaskAndEditor,
    /// A struct field without a `prompt`.
    MissingPrompt,
    /// A `prompt` that holds no text in parentheses.
    ExpectedPrompt,
    /// `wizard` together with `prompt`, `mask` or `editor`.
    WizardCombined,
    /// `wizard` on a field whose type is not a named type.
    WizardOnUnnamedType,
    /// A variant's field with neither `prompt` nor `wizard`.
    MissingPromptOrWizard,
    /// A nested field whose type is not a named type.
    NestedNotNamed,
    /// A struct field without a name.
    UnnamedField,
    /// A prompted field of a type whose answers cannot be converted.
    NoConversion,
    /// `min` or `max` that holds no integer.
    ExpectedBound,
    /// `min` above `max`.
    BoundsOutOfOrder,
    /// `min` or `max` on a field that asks for floats: the bounds of a float
    /// are floats, and an attribute holds an integer.
    BoundsOnFloat,
    /// Neither a struct nor an enum.
    NotStructOrEnum,
}

/// A failure to build a tree, and where it was found: the position of the
/// variant (0 for a struct) and of the field in it.
#[derive(Debug, Clone, Copy, PartialEq, Eq, Structural)]
pub struct SchemaError {
    pub kind: SchemaErrorKind,
    pub variant: usize,
    pub field: usize,
}

impl SchemaErrorKind {
    /// The message shown for this failure.
    pub fn message(&self) -> (r: &'static str)
        ensures
            r@ == self.message_model(),
    {
        match self {
            SchemaErrorKind::MaskAndEditor => "Cannot use both #[mask] and #[editor] on the same field. They are mutually exclusive.",
            SchemaErrorKind::MissingPrompt => "Missing required #[prompt(\"...\")] attribute",
            SchemaErrorKind::ExpectedPrompt => "Expected #[prompt(\"...\")]",
            SchemaErrorKind::WizardCombined => "#[wizard] attribute cannot be combined with #[prompt], #[mask], or #[editor]",
            SchemaErrorKind::WizardOnUnnamedType => "#[wizard] attribute can only be used on named types",
            SchemaErrorKind::MissingPromptOrWizard => "Missing required #[prompt(\"...\")] or #[wizard] attribute",
            SchemaErrorKind::NestedNotNamed => "Nested wizard fields must be named types",
            SchemaErrorKind::UnnamedField => "Struct fields must be named",
            SchemaErrorKind::NoConversion => "No conversion from an answer to this field's type",
            SchemaErrorKind::ExpectedBound => "Expected an integer in #[min(...)] or #[max(...)]",
            SchemaErrorKind::BoundsOutOfOrder => "#[min(...)] must not be above #[max(...)]",
            SchemaErrorKind::BoundsOnFloat => "#[min(...)] and #[max(...)] cannot bound a float",
            SchemaErrorKind::NotStructOrEnum => "Wizard can only be derived for structs and enums",
        }
    }

    pub open spec fn message_model(&self) -> Seq<char> {
        match self {
            SchemaErrorKind::MaskAndEditor => "Cannot use both #[mask] and #[editor] on the same field. They are mutually exclusive."@,
            SchemaErrorKind::MissingPrompt => "Missing required #[prompt(\"...\")] attribute"@,
            SchemaErrorKind::ExpectedPrompt => "Expected #[prompt(\"...\")]"@,
            SchemaErrorKind::WizardCombined => "#[wizard] attribute cannot be combined with #[prompt], #[mask], or #[editor]"@,
            SchemaErrorKind::WizardOnUnnamedType => "#[wizard] attribute can only be used on named types"@,
            SchemaErrorKind::MissingPromptOrWizard => "Missing required #[prompt(\"...\")] or #[wizard] attribute"@,
            SchemaErrorKind::NestedNotNamed => "Nested wizard fields must be named types"@,
            SchemaErrorKind::UnnamedField => "Struct fields must be named"@,
            SchemaErrorKind::NoConversion => "No conversion from an answer to this field's type"@,
            SchemaErrorKind::ExpectedBound => "Expected an integer in #[min(...)] or #[max(...)]"@,
            SchemaErrorKind::BoundsOutOfOrder => "#[min(...)] must not be above #[max(...)]"@,
            SchemaErrorKind::BoundsOnFloat => "#[min(...)] and #[max(...)] cannot bound a float"@,
            SchemaErrorKind::NotStructOrEnum => "Wizard can only be derived for structs and enums"@,
        }
    }
}

/// The names of the two float types: `f` and a width of 32 or 64.
pub open spec fn is_float_name(s: Seq<char>) -> bool {
    s.len() == 3 && s[0] == 'f' && ((s[1] == '3' && s[2] == '2') || (s[1] == '6' && s[2] == '4'))
}

/// The range of the integer type called `s`, as far as a stored integer of
/// 64 bits with sign reaches: the pointer-sized types count as 64 bits.
pub open spec fn int_range_of(s: Seq<char>) -> Option<(i64, i64)> {
    if s == "i8"@ {
        Some((-0x80i64, 0x7fi64))
    } else if s == "i16"@ {
        Some((-0x8000i64, 0x7fffi64))
    } else if s == "i32"@ {
        Some((-0x8000_0000i64, 0x7fff_ffffi64))
    } else if s == "i64"@ || s == "isize"@ {
        Some((i64::MIN, i64::MAX))
    } else if s == "u8"@ {
        Some((0i64, 0xffi64))
    } else if s == "u16"@ {
        Some((0i64, 0xffffi64))
    } else if s == "u32"@ {
        Some((0i64, 0xffff_ffffi64))
    } else if s == "u64"@ || s == "usize"@ {
        Some((0i64, i64::MAX))
    } else {
        None
    }
}

/// The range of the integer type called `s`.
pub fn int_range(s: &str) -> (r: Option<(i64, i64)>)
    ensures
        r == int_range_of(s@),
{
    if str_eq(s, "i8") {
        Some((-0x80, 0x7f))
    } else if str_eq(s, "i16") {
        Some((-0x8000, 0x7fff))
    } else if str_eq(s, "i32") {
        Some((-0x8000_0000, 0x7fff_ffff))
    } else if str_eq(s, "i64") || str_eq(s, "isize") {
        Some((i64::MIN, i64::MAX))
    } else if str_eq(s, "u8") {
        Some((0, 0xff))
    } else if str_eq(s, "u16") {
        Some((0, 0xffff))
    } else if str_eq(s, "u32") {
        Some((0, 0xffff_ffff))
    } else if str_eq(s, "u64") || str_eq(s, "usize") {
        Some((0, i64::MAX))
    } else {
        None
    }
}

/// The names of the integer types of at most 64 bits, and of the two
/// pointer-sized ones.
pub open spec fn is_narrow_int_name(s: Seq<char>) -> bool {
    s == "i8"@ || s == "i16"@ || s == "i32"@ || s == "i64"@ || s == "isize"@ || s == "u8"@ || s
        == "u16"@ || s == "u32"@ || s == "u64"@ || s == "usize"@
}

/// The names of all integer types.
pub open spec fn is_int_name(s: Seq<char>) -> bool {
    is_narrow_int_name(s) || s == "i128"@ || s == "u128"@
}

/// The names of the types whose values an answer converts to directly.
pub open spec fn is_promptable_name(s: Seq<char>) -> bool {
    s == "String"@ || s == "bool"@ || is_int_name(s) || is_float_name(s) || s == "char"@ || s
        == "PathBuf"@
}

pub open spec fn is_prefix(prefix: Seq<char>, s: Seq<char>) -> bool {
    prefix.len() <= s.len() && s.subrange(0, prefix.len() as int) == prefix
}

fn float_name(s: &str) -> (r: bool)
    ensures
        r == is_float_name(s@),
{
    let c = chars_of(s);
    c.len() == 3 && c[0] == 'f' && ((c[1] == '3' && c[2] == '2') || (c[1] == '6' && c[2] == '4'))
}

fn narrow_int_name(s: &str) -> (r: bool)
    ensures
        r == is_narrow_int_name(s@),
{
    str_eq(s, "i8") || str_eq(s, "i16") || str_eq(s, "i32") || str_eq(s, "i64") || str_eq(
        s,
        "isize",
    ) || str_eq(s, "u8") || str_eq(s, "u16") || str_eq(s, "u32") || str_eq(s, "u64") || str_eq(
        s,
        "usize",
    )
}

fn int_name(s: &str) -> (r: bool)
    ensures
        r == is_int_name(s@),
{
    narrow_int_name(s) || str_eq(s, "i128") || str_eq(s, "u128")
}

/// Whether `s` begins with `prefix`.
pub fn starts_with(s: &str, prefix: &str) -> (r: bool)
    ensures
        r == is_prefix(prefix@, s@),
{
    let a = chars_of(s);
    let b = chars_of(prefix);
    if b.len() > a.len() {
        return false;
    }
    let mut i: usize = 0;
    while i < b.len()
        invariant
            i <= b@.len() <= a@.len(),
            a@ == s@,
            b@ == prefix@,
            forall|j: int| 0 <= j < i ==> a@[j] == b@[j],
        decreases b@.len() - i,
    {
        if a[i] != b[i] {
            assert(s@.subrange(0, prefix@.len() as int)[i as int] != prefix@[i as int]);
            return false;
        }
        i += 1;
    }
    assert(s@.subrange(0, prefix@.len() as int) =~= prefix@);
    true
}

/// The identifiers of a path, joined by `::`.
pub open spec fn joined(segments: Seq<String>) -> Seq<char>
    decreases segments.len(),
{
    if segments.len() == 0 {
        Seq::empty()
    } else if segments.len() == 1 {
        segments[0]@
    } else {
        joined(segments.drop_last()) + seq![':', ':'] + segments.last()@
    }
}

impl FieldType {
    /// The text by which the question and the conversion of a field are
    /// chosen: the joined path of a named type.
    pub open spec fn type_text(&self) -> Option<Seq<char>> {
        match self {
            FieldType::Path(segments) => Some(joined(segments@)),
            FieldType::Of(outer, _) => Some(outer@),
            FieldType::Other => None,
        }
    }

    /// The last identifier of a named type's path.
    pub open spec fn last_ident(&self) -> Option<Seq<char>> {
        match self {
            FieldType::Path(segments) => if segments@.len() > 0 {
                Some(segments@.last()@)
            } else {
                None
            },
            FieldType::Of(outer, _) => Some(outer@),
            FieldType::Other => None,
        }
    }

    /// The joined path of a named type.
    pub fn type_string(&self) -> (r: Option<String>)
        ensures
            match r {
                Some(s) => self.type_text() == Some(s@),
                None => self.type_text() is None,
            },
    {
        match self {
            FieldType::Path(segments) => {
                let mut r = String::new();
                let mut i: usize = 0;
                while i < segments.len()
                    invariant
                        i <= segments@.len(),
                        r@ == joined(segments@.take(i as int)),
                    decreases segments@.len() - i,
                {
                    if i > 0 {
                        push_char(&mut r, ':');
                        push_char(&mut r, ':');
                    }
                    r.append(segments[i].as_str());
                    proof {
                        let now = segments@.take(i + 1);
                        assert(now.drop_last() =~= segments@.take(i as int));
                        assert(now.last() == segments@[i as int]);
                        if i > 0 {
                            assert(r@ =~= joined(now.drop_last()) + seq![':', ':'] + now.last()@);
                        } else {
                            assert(r@ =~= now[0]@);
                        }
                    }
                    i += 1;
                }
                assert(segments@.take(segments@.len() as int) =~= segments@);
                Some(r)
            },
            FieldType::Of(outer, _) => Some(outer.clone()),
            FieldType::Other => None,
        }
    }
}

/// Whether answers convert directly to a value of the type: a named type
/// whose last identifier is a primitive's name, `String` or `PathBuf`.
pub fn is_promptable_type(ty: &FieldType) -> (r: bool)
    ensures
        r == match ty.last_ident() {
            Some(name) => is_promptable_name(name),
            None => false,
        },
{
    match ty {
        FieldType::Path(segments) => {
            if segments.len() == 0 {
                false
            } else {
                promptable_name(segments[segments.len() - 1].as_str())
            }
        },
        FieldType::Of(outer, _) => promptable_name(outer.as_str()),
        FieldType::Other => false,
    }
}

fn promptable_name(s: &str) -> (r: bool)
    ensures
        r == is_promptable_name(s@),
{
    str_eq(s, "String") || str_eq(s, "bool") || int_name(s) || float_name(s) || str_eq(s, "char")
        || str_eq(s, "PathBuf")
}

/// The question for a field of type `ty`: an editor or a password where the
/// field asks for one, else what the type's text calls for.
pub open spec fn question_type_of(ty: FieldType, has_mask: bool, has_editor: bool) -> QuestionType {
    if has_editor {
        QuestionType::Editor
    } else if has_mask {
        QuestionType::Password
    } else {
        match ty.type_text() {
            Some(s) => if s == "PathBuf"@ || s == "String"@ {
                QuestionType::Input
            } else if s == "bool"@ {
                QuestionType::Confirm
            } else if is_int_name(s) {
                QuestionType::Int
            } else if is_float_name(s) {
                QuestionType::Float
            } else if s == "ListItem"@ {
                QuestionType::Select
            } else if s == "ExpandItem"@ {
                QuestionType::Expand
            } else if is_prefix("Vec"@, s) {
                QuestionType::MultiSelect
            } else {
                QuestionType::Input
            },
            None => QuestionType::Input,
        }
    }
}

/// Chooses the question for a field.
pub fn infer_question_type(ty: &FieldType, has_mask: bool, has_editor: bool) -> (r: QuestionType)
    ensures
        r == question_type_of(*ty, has_mask, has_editor),
{
    if has_editor {
        return QuestionType::Editor;
    }
    if has_mask {
        return QuestionType::Password;
    }
    match ty.type_string() {
        Some(text) => {
            let s = text.as_str();
            if str_eq(s, "PathBuf") || str_eq(s, "String") {
                QuestionType::Input
            } else if str_eq(s, "bool") {
                QuestionType::Confirm
            } else if int_name(s) {
                QuestionType::Int
            } else if float_name(s) {
                QuestionType::Float
            } else if str_eq(s, "ListItem") {
                QuestionType::Select
            } else if str_eq(s, "ExpandItem") {
                QuestionType::Expand
            } else if starts_with(s, "Vec") {
                QuestionType::MultiSelect
            } else {
                QuestionType::Input
            }
        },
        None => QuestionType::Input,
    }
}

/// How an answer becomes a value of type `ty`, where it can.
pub open spec fn conversion_of(ty: FieldType) -> Option<Conversion> {
    match ty.type_text() {
        Some(s) => if s == "PathBuf"@ {
            Some(Conversion::PathFromString)
        } else if s == "String"@ {
            Some(Conversion::String)
        } else if s == "bool"@ {
            Some(Conversion::Bool)
        } else {
            match int_range_of(s) {
                Some((low, high)) => Some(Conversion::Int { low, high }),
                None => if is_float_name(s) {
                    Some(Conversion::Float)
                } else if s == "ListItem"@ {
                    Some(Conversion::ListItem)
                } else if s == "ExpandItem"@ {
                    Some(Conversion::ExpandItem)
                } else if is_prefix("Vec"@, s) {
                    Some(Conversion::ListItems)
                } else {
                    None
                },
            }
        },
        None => None,
    }
}

/// Chooses the conversion for a field, or `None` where its type has none.
pub fn infer_into(ty: &FieldType) -> (r: Option<Conversion>)
    ensures
        r == conversion_of(*ty),
{
    match ty.type_string() {
        Some(text) => {
            let s = text.as_str();
            if str_eq(s, "PathBuf") {
                Some(Conversion::PathFromString)
            } else if str_eq(s, "String") {
                Some(Conversion::String)
            } else if str_eq(s, "bool") {
                Some(Conversion::Bool)
            } else if let Some((low, high)) = int_range(s) {
                Some(Conversion::Int { low, high })
            } else if float_name(s) {
                Some(Conversion::Float)
            } else if str_eq(s, "ListItem") {
                Some(Conversion::ListItem)
            } else if str_eq(s, "ExpandItem") {
                Some(Conversion::ExpandItem)
            } else if starts_with(s, "Vec") {
                Some(Conversion::ListItems)
            } else {
                None
            }
        },
        None => None,
    }
}

/// What a conversion makes of a stored value, or what it expected where the
/// value is not one that it takes. An integer outside the range of the
/// field's type is not taken: it is never wrapped or cut.
pub open spec fn converted(conversion: Conversion, stored: Value) -> Result<Value, Seq<char>> {
    match conversion {
        Conversion::PathFromString => match stored {
            Value::Text(t) => Ok(Value::Path(t)),
            Value::Path(t) => Ok(Value::Path(t)),
            _ => Err("Path"@),
        },
        Conversion::String | Conversion::ListItem | Conversion::ExpandItem => match stored {
            Value::Text(t) => Ok(Value::Text(t)),
            _ => Err("String"@),
        },
        Conversion::Bool => match stored {
            Value::Bool(b) => Ok(Value::Bool(b)),
            _ => Err("Bool"@),
        },
        Conversion::Int { low, high } => match stored {
            Value::Int(v) => if low <= v <= high {
                Ok(Value::Int(v))
            } else {
                Err("Int"@)
            },
            _ => Err("Int"@),
        },
        Conversion::Float => match stored {
            Value::Float(b) => Ok(Value::Float(b)),
            _ => Err("Float"@),
        },
        Conversion::ListItems => match stored {
            Value::List(_) | Value::Chosen(_) => Ok(stored),
            _ => Err("List"@),
        },
    }
}

/// Converts the value stored under `key` to the value of the field, or
/// fails with a mismatch that names the key and what was expected.
pub fn convert(conversion: Conversion, key: &str, stored: &AnswerValue) -> (r: Result<
    AnswerValue,
    AnswerError,
>)
    ensures
        match r {
            Ok(v) => converted(conversion, stored@) == Ok::<Value, Seq<char>>(v@),
            Err(e) => converted(conversion, stored@) matches Err(expected) && e@
                == (AnswerErrorModel::TypeMismatch { key: key@, expected }),
        },
{
    let expected: &'static str = match conversion {
        Conversion::PathFromString => match stored {
            AnswerValue::String(t) => {
                return Ok(AnswerValue::Path(t.clone()));
            },
            AnswerValue::Path(t) => {
                return Ok(AnswerValue::Path(t.clone()));
            },
            _ => "Path",
        },
        Conversion::String | Conversion::ListItem | Conversion::ExpandItem => match stored {
            AnswerValue::String(t) => {
                return Ok(AnswerValue::String(t.clone()));
            },
            _ => "String",
        },
        Conversion::Bool => match stored {
            AnswerValue::Bool(b) => {
                return Ok(AnswerValue::Bool(*b));
            },
            _ => "Bool",
        },
        Conversion::Int { low, high } => match stored {
            AnswerValue::Int(v) => {
                if low <= *v && *v <= high {
                    return Ok(AnswerValue::Int(*v));
                }
                "Int"
            },
            _ => "Int",
        },
        Conversion::Float => match stored {
            AnswerValue::Float(b) => {
                return Ok(AnswerValue::Float(*b));
            },
            _ => "Float",
        },
        Conversion::ListItems => match stored {
            AnswerValue::List(_) | AnswerValue::ChosenVariants(_) => {
                return Ok(stored.duplicate());
            },
            _ => "List",
        },
    };
    Err(AnswerError::TypeMismatch { key: key.to_owned(), expected })
}

/// The position of the last attribute named `name`.
pub open spec fn last_named(attrs: Seq<Attribute>, name: Seq<char>) -> Option<usize>
    decreases attrs.len(),
{
    if attrs.len() == 0 {
        None
    } else if attrs.last().name@ == name {
        Some((attrs.len() - 1) as usize)
    } else {
        last_named(attrs.drop_last(), name)
    }
}

pub open spec fn has_attr(attrs: Seq<Attribute>, name: Seq<char>) -> bool {
    last_named(attrs, name) is Some
}

/// The text in the parentheses of the last attribute named `name`.
pub open spec fn attr_text(attrs: Seq<Attribute>, name: Seq<char>) -> Option<Seq<char>> {
    match last_named(attrs, name) {
        Some(i) => match attrs[i as int].meta {
            AttributeMeta::List(t) => Some(t@),
            _ => None,
        },
        None => None,
    }
}

/// The integer in the last attribute named `name`, if there is such an
/// attribute.
pub open spec fn bound_of(attrs: Seq<Attribute>, name: Seq<char>) -> Result<
    Option<i64>,
    SchemaErrorKind,
> {
    if has_attr(attrs, name) {
        match attr_text(attrs, name) {
            Some(t) => match int_of_text(t) {
                Some(v) => Ok(Some(v)),
                None => Err(SchemaErrorKind::ExpectedBound),
            },
            None => Err(SchemaErrorKind::ExpectedBound),
        }
    } else {
        Ok(None)
    }
}

/// The bounds that a field declares: `min` and `max`, in order.
pub open spec fn bounds_of(attrs: Seq<Attribute>) -> Result<
    (Option<i64>, Option<i64>),
    SchemaErrorKind,
> {
    match bound_of(attrs, "min"@) {
        Err(k) => Err(k),
        Ok(min) => match bound_of(attrs, "max"@) {
            Err(k) => Err(k),
            Ok(max) => if min is Some && max is Some && min->0 > max->0 {
                Err(SchemaErrorKind::BoundsOutOfOrder)
            } else {
                Ok((min, max))
            },
        },
    }
}

/// The kind of a fresh question of type `qt`, with the given bounds and
/// validator and no default.
pub open spec fn plain_kind(
    qt: QuestionType,
    min: Option<i64>,
    max: Option<i64>,
    on_submit: Option<Seq<char>>,
) -> KindModel {
    match qt {
        QuestionType::Editor => KindModel::Multiline { default: None, on_key: None, on_submit },
        QuestionType::Password => KindModel::Masked { mask: None, on_key: None, on_submit },
        QuestionType::Input => KindModel::Input { default: None, on_key: None, on_submit },
        QuestionType::Confirm => KindModel::Confirm { default: false },
        QuestionType::Int => KindModel::Int { default: None, min, max, on_key: None, on_submit },
        QuestionType::Float => KindModel::Float {
            default: None,
            min: None,
            max: None,
            on_key: None,
            on_submit,
        },
        QuestionType::Select | QuestionType::Expand => KindModel::List {
            element: ElementModel::Variants(Seq::empty()),
            min: None,
            max: None,
            on_submit,
        },
        QuestionType::MultiSelect => KindModel::List {
            element: ElementModel::Text,
            min,
            max,
            on_submit,
        },
    }
}

/// The type that a field asks for: the argument of an `Option`, else the
/// type itself.
pub open spec fn asked_type(ty: FieldType) -> FieldType {
    match ty {
        FieldType::Of(outer, inner) => if outer@ == "Option"@ {
            *inner
        } else {
            ty
        },
        _ => ty,
    }
}

/// Whether the question of a field may be skipped: its type is an `Option`.
pub open spec fn skippable(ty: FieldType) -> bool {
    ty matches FieldType::Of(outer, _) && outer@ == "Option"@
}

/// The type of the items of a list: the argument of a `Vec`.
pub open spec fn list_argument(ty: FieldType) -> Option<FieldType> {
    match ty {
        FieldType::Of(outer, inner) => if outer@ == "Vec"@ {
            Some(*inner)
        } else {
            None
        },
        _ => None,
    }
}

/// The kind of the items of a list of values of type `ty`: texts, integers
/// or floats.
pub open spec fn element_of(ty: FieldType) -> Option<ElementModel> {
    match ty.type_text() {
        Some(s) => if s == "String"@ || s == "PathBuf"@ {
            Some(ElementModel::Text)
        } else if is_int_name(s) {
            Some(ElementModel::Int)
        } else if is_float_name(s) {
            Some(ElementModel::Float)
        } else {
            None
        },
        None => None,
    }
}

/// The kind of the question of a prompted field of type `ty`. A list that is
/// marked as a multi-select asks for variants, which are not known yet; any
/// other list asks for items of its argument's kind, within the bounds; any
/// other type asks for a single value.
pub open spec fn asked_kind(
    ty: FieldType,
    attrs: Seq<Attribute>,
    min: Option<i64>,
    max: Option<i64>,
) -> Option<KindModel> {
    let on_submit = attr_text(attrs, "validate"@);
    match list_argument(ty) {
        Some(inner) => if has_attr(attrs, "multiselect"@) {
            Some(
                KindModel::List {
                    element: ElementModel::Variants(Seq::empty()),
                    min: None,
                    max: None,
                    on_submit,
                },
            )
        } else {
            match element_of(inner) {
                Some(element) => Some(KindModel::List { element, min, max, on_submit }),
                None => None,
            }
        },
        None => Some(
            plain_kind(
                question_type_of(ty, has_attr(attrs, "mask"@), has_attr(attrs, "editor"@)),
                min,
                max,
                on_submit,
            ),
        ),
    }
}

/// Whether the field asks for a float or for a list of floats.
pub open spec fn asks_floats(ty: FieldType, attrs: Seq<Attribute>) -> bool {
    match list_argument(ty) {
        Some(inner) => !has_attr(attrs, "multiselect"@) && element_of(inner)
            == Some(ElementModel::Float),
        None => question_type_of(ty, has_attr(attrs, "mask"@), has_attr(attrs, "editor"@))
            == QuestionType::Float,
    }
}

/// The question of a prompted field called `name`, of type `ty`: its
/// prompt's text, its bounds where they are integers in order, and the kind
/// for its type.
pub open spec fn prompted_question(name: Seq<char>, attrs: Seq<Attribute>, ty: FieldType) -> Result<
    QuestionModel,
    SchemaErrorKind,
> {
    match attr_text(attrs, "prompt"@) {
        None => Err(SchemaErrorKind::ExpectedPrompt),
        Some(prompt) => match bounds_of(attrs) {
            Err(k) => Err(k),
            Ok((min, max)) => if conversion_of(ty) is None {
                Err(SchemaErrorKind::NoConversion)
            } else if asks_floats(ty, attrs) && (min is Some || max is Some) {
                Err(SchemaErrorKind::BoundsOnFloat)
            } else {
                match asked_kind(ty, attrs, min, max) {
                    None => Err(SchemaErrorKind::NoConversion),
                    Some(kind) => Ok(
                        QuestionModel {
                            id: None,
                            name,
                            optional: false,
                            propagated: None,
                            prompt,
                            kind,
                        },
                    ),
                }
            },
        },
    }
}

/// The question of a field that holds a type with an interview of its own:
/// it names the type and holds no tree yet.
pub open spec fn nested_question(
    name: Seq<char>,
    attrs: Seq<Attribute>,
    ty: FieldType,
    unnamed: SchemaErrorKind,
) -> Result<QuestionModel, SchemaErrorKind> {
    match ty.last_ident() {
        None => Err(unnamed),
        Some(type_path) => Ok(
            QuestionModel {
                id: None,
                name,
                optional: false,
                propagated: None,
                prompt: match attr_text(attrs, "prompt"@) {
                    Some(t) => t,
                    None => Seq::empty(),
                },
                kind: KindModel::Nested { type_path, sections: Seq::empty() },
            },
        ),
    }
}

/// The question, marked as one that may be skipped where `optional` holds.
pub open spec fn marked(q: Result<QuestionModel, SchemaErrorKind>, optional: bool) -> Result<
    QuestionModel,
    SchemaErrorKind,
> {
    match q {
        Ok(q) => Ok(QuestionModel { optional, ..q }),
        Err(k) => Err(k),
    }
}

/// The first check of a struct's field: it has a prompt, and not both a mask
/// and an editor.
pub open spec fn struct_field_fault(f: Field) -> Option<SchemaErrorKind> {
    if !has_attr(f.attrs@, "prompt"@) {
        Some(SchemaErrorKind::MissingPrompt)
    } else if has_attr(f.attrs@, "mask"@) && has_attr(f.attrs@, "editor"@) {
        Some(SchemaErrorKind::MaskAndEditor)
    } else {
        None
    }
}

pub open spec fn promptable(ty: FieldType) -> bool {
    match ty.last_ident() {
        Some(name) => is_promptable_name(name),
        None => false,
    }
}

/// The question of a struct's field: a field whose type converts directly,
/// or is a list, is prompted for; any other names a type with an interview
/// of its own. The question of an `Option` is that of its argument, marked
/// as one that may be skipped.
pub open spec fn struct_question(f: Field) -> Result<QuestionModel, SchemaErrorKind> {
    let ty = asked_type(f.ty);
    match f.ident {
        None => Err(SchemaErrorKind::UnnamedField),
        Some(ident) => marked(
            if promptable(ty) || list_argument(ty) is Some {
                prompted_question(ident@, f.attrs@, ty)
            } else {
                nested_question(ident@, f.attrs@, ty, SchemaErrorKind::NestedNotNamed)
            },
            skippable(f.ty),
        ),
    }
}

/// The name of the field at position `i` of the variant `variant`: its own,
/// or the variant's name, ` field ` and the position.
pub open spec fn variant_field_name(variant: Seq<char>, f: Field, i: usize) -> Seq<char> {
    match f.ident {
        Some(ident) => ident@,
        None => variant + " field "@ + text_of_nat(i as nat),
    }
}

/// The question of the field at position `i` of a variant.
pub open spec fn variant_question(variant: Seq<char>, f: Field, i: usize, named: bool) -> Result<
    QuestionModel,
    SchemaErrorKind,
> {
    let attrs = f.attrs@;
    let name = variant_field_name(variant, f, i);
    let ty = asked_type(f.ty);
    if named && f.ident is None {
        Err(SchemaErrorKind::UnnamedField)
    } else if has_attr(attrs, "wizard"@) {
        if has_attr(attrs, "prompt"@) || has_attr(attrs, "mask"@) || has_attr(attrs, "editor"@) {
            Err(SchemaErrorKind::WizardCombined)
        } else {
            marked(
                nested_question(name, attrs, ty, SchemaErrorKind::WizardOnUnnamedType),
                skippable(f.ty),
            )
        }
    } else if has_attr(attrs, "prompt"@) {
        if has_attr(attrs, "mask"@) && has_attr(attrs, "editor"@) {
            Err(SchemaErrorKind::MaskAndEditor)
        } else {
            marked(prompted_question(name, attrs, ty), skippable(f.ty))
        }
    } else {
        Err(SchemaErrorKind::MissingPromptOrWizard)
    }
}

/// The first fault among the first `n` fields of a struct.
pub open spec fn struct_fault(fields: Seq<Field>, n: nat) -> Option<SchemaError>
    decreases n,
{
    if n == 0 {
        None
    } else {
        match struct_fault(fields, (n - 1) as nat) {
            Some(e) => Some(e),
            None => match struct_field_fault(fields[n - 1]) {
                Some(kind) => Some(SchemaError { kind, variant: 0, field: (n - 1) as usize }),
                None => None,
            },
        }
    }
}

/// The questions of the first `n` fields of a struct, or the first failure
/// among them.
pub open spec fn struct_questions(fields: Seq<Field>, n: nat) -> Result<
    Seq<QuestionModel>,
    SchemaError,
>
    decreases n,
{
    if n == 0 {
        Ok(Seq::empty())
    } else {
        match struct_questions(fields, (n - 1) as nat) {
            Err(e) => Err(e),
            Ok(qs) => match struct_question(fields[n - 1]) {
                Err(kind) => Err(SchemaError { kind, variant: 0, field: (n - 1) as usize }),
                Ok(q) => Ok(qs.push(q)),
            },
        }
    }
}

/// The section of a struct: every field is checked first, then each becomes
/// one question, in declared order.
pub open spec fn struct_section(fields: Seq<Field>) -> Result<SectionModel, SchemaError> {
    match struct_fault(fields, fields.len()) {
        Some(e) => Err(e),
        None => match struct_questions(fields, fields.len()) {
            Err(e) => Err(e),
            Ok(qs) => Ok(SectionModel::Sequence(qs)),
        },
    }
}

/// The questions of the first `n` fields of a variant, or the first failure
/// among them.
pub open spec fn variant_questions(
    variant: Seq<char>,
    at: usize,
    fields: Seq<Field>,
    named: bool,
    n: nat,
) -> Result<Seq<QuestionModel>, SchemaError>
    decreases n,
{
    if n == 0 {
        Ok(Seq::empty())
    } else {
        match variant_questions(variant, at, fields, named, (n - 1) as nat) {
            Err(e) => Err(e),
            Ok(qs) => match variant_question(variant, fields[n - 1], (n - 1) as usize, named) {
                Err(kind) => Err(SchemaError { kind, variant: at, field: (n - 1) as usize }),
                Ok(q) => Ok(qs.push(q)),
            },
        }
    }
}

/// The section of the variant at position `at`: empty for a unit variant,
/// else one question per field.
pub open spec fn variant_section(v: Variant, at: usize) -> Result<SectionModel, SchemaError> {
    match v.fields {
        Fields::Unit => Ok(SectionModel::Empty),
        Fields::Named(fields) => match variant_questions(
            v.ident@,
            at,
            fields@,
            true,
            fields@.len(),
        ) {
            Err(e) => Err(e),
            Ok(qs) => Ok(SectionModel::Sequence(qs)),
        },
        Fields::Unnamed(fields) => match variant_questions(
            v.ident@,
            at,
            fields@,
            false,
            fields@.len(),
        ) {
            Err(e) => Err(e),
            Ok(qs) => Ok(SectionModel::Sequence(qs)),
        },
    }
}

/// The branches of the first `n` variants of an enum, or the first failure
/// among them.
pub open spec fn enum_branches(variants: Seq<Variant>, n: nat) -> Result<
    Seq<AlternativeModel>,
    SchemaError,
>
    decreases n,
{
    if n == 0 {
        Ok(Seq::empty())
    } else {
        match enum_branches(variants, (n - 1) as nat) {
            Err(e) => Err(e),
            Ok(alts) => match variant_section(variants[n - 1], (n - 1) as usize) {
                Err(e) => Err(e),
                Ok(section) => Ok(
                    alts.push(AlternativeModel { name: variants[n - 1].ident@, section }),
                ),
            },
        }
    }
}

/// The section of an enum: one branch per variant, in declared order, the
/// first one the default.
pub open spec fn enum_section(variants: Seq<Variant>) -> Result<SectionModel, SchemaError> {
    match enum_branches(variants, variants.len()) {
        Err(e) => Err(e),
        Ok(alts) => Ok(SectionModel::Alternatives(0, alts)),
    }
}

/// The questions, each with `validator` as the validator of the struct that
/// holds its field.
pub open spec fn propagated_to(questions: Seq<QuestionModel>, validator: Option<Seq<char>>) -> Seq<
    QuestionModel,
> {
    Seq::new(questions.len(), |i: int| QuestionModel { propagated: validator, ..questions[i] })
}

/// The section, with the validator of the struct on each of its questions.
pub open spec fn with_propagated(section: SectionModel, validator: Option<Seq<char>>) -> SectionModel {
    match section {
        SectionModel::Sequence(questions) => SectionModel::Sequence(
            propagated_to(questions, validator),
        ),
        other => other,
    }
}

/// The tree of a declaration: one section. The validator that a struct
/// names in `validate_fields` is run for each of its fields.
pub open spec fn wizard_tree(input: DeriveInput) -> Result<Seq<SectionModel>, SchemaError> {
    match input.data {
        Data::Struct(fields) => match struct_section(fields@) {
            Err(e) => Err(e),
            Ok(section) => Ok(
                seq![with_propagated(section, attr_text(input.attrs@, "validate_fields"@))],
            ),
        },
        Data::Enum(variants) => match enum_section(variants@) {
            Err(e) => Err(e),
            Ok(section) => Ok(seq![section]),
        },
        Data::Union => Err(
            SchemaError { kind: SchemaErrorKind::NotStructOrEnum, variant: 0, field: 0 },
        ),
    }
}

/// What `r` shows of a tree or of a failure.
pub open spec fn shown<T: View>(r: Result<T, SchemaError>) -> Result<T::V, SchemaError> {
    match r {
        Ok(t) => Ok(t@),
        Err(e) => Err(e),
    }
}

proof fn lemma_last_named(attrs: Seq<Attribute>, name: Seq<char>)
    requires
        attrs.len() <= usize::MAX,
    ensures
        match last_named(attrs, name) {
            Some(i) => i < attrs.len() && attrs[i as int].name@ == name,
            None => true,
        },
    decreases attrs.len(),
{
    if attrs.len() > 0 && attrs.last().name@ != name {
        lemma_last_named(attrs.drop_last(), name);
    }
}

proof fn lemma_fault_stays(fields: Seq<Field>, k: nat, n: nat)
    requires
        k <= n <= fields.len(),
        struct_fault(fields, k) is Some,
    ensures
        struct_fault(fields, n) == struct_fault(fields, k),
    decreases n - k,
{
    if k < n {
        lemma_fault_stays(fields, k, (n - 1) as nat);
    }
}

proof fn lemma_struct_failure_stays(fields: Seq<Field>, k: nat, n: nat)
    requires
        k <= n <= fields.len(),
        struct_questions(fields, k) is Err,
    ensures
        struct_questions(fields, n) == struct_questions(fields, k),
    decreases n - k,
{
    if k < n {
        lemma_struct_failure_stays(fields, k, (n - 1) as nat);
    }
}

proof fn lemma_variant_failure_stays(
    variant: Seq<char>,
    at: usize,
    fields: Seq<Field>,
    named: bool,
    k: nat,
    n: nat,
)
    requires
        k <= n <= fields.len(),
        variant_questions(variant, at, fields, named, k) is Err,
    ensures
        variant_questions(variant, at, fields, named, n) == variant_questions(
            variant,
            at,
            fields,
            named,
            k,
        ),
    decreases n - k,
{
    if k < n {
        lemma_variant_failure_stays(variant, at, fields, named, k, (n - 1) as nat);
    }
}

proof fn lemma_branch_failure_stays(variants: Seq<Variant>, k: nat, n: nat)
    requires
        k <= n <= variants.len(),
        enum_branches(variants, k) is Err,
    ensures
        enum_branches(variants, n) == enum_branches(variants, k),
    decreases n - k,
{
    if k < n {
        lemma_branch_failure_stays(variants, k, (n - 1) as nat);
    }
}

fn find_attr(attrs: &Vec<Attribute>, name: &str) -> (r: Option<usize>)
    ensures
        r == last_named(attrs@, name@),
        r matches Some(i) ==> i < attrs@.len(),
{
    let mut i: usize = attrs.len();
    proof {
        lemma_last_named(attrs@, name@);
        assert(attrs@.take(attrs@.len() as int) =~= attrs@);
    }
    while i > 0
        invariant
            i <= attrs@.len(),
            last_named(attrs@, name@) == last_named(attrs@.take(i as int), name@),
        decreases i,
    {
        proof {
            assert(attrs@.take(i as int).drop_last() =~= attrs@.take(i - 1));
            assert(attrs@.take(i as int).last() == attrs@[i - 1]);
        }
        if str_eq(attrs[i - 1].name.as_str(), name) {
            return Some(i - 1);
        }
        i -= 1;
    }
    proof {
        assert(attrs@.take(0).len() == 0);
    }
    None
}

fn find_text(attrs: &Vec<Attribute>, name: &str) -> (r: Option<String>)
    ensures
        crate::question::text_model(r) == attr_text(attrs@, name@),
{
    match find_attr(attrs, name) {
        Some(i) => match &attrs[i].meta {
            AttributeMeta::List(t) => Some(t.clone()),
            _ => None,
        },
        None => None,
    }
}

fn find_bound(attrs: &Vec<Attribute>, name: &str) -> (r: Result<Option<i64>, SchemaErrorKind>)
    ensures
        r == bound_of(attrs@, name@),
{
    match find_attr(attrs, name) {
        Some(i) => match &attrs[i].meta {
            AttributeMeta::List(t) => match parse_int(t.as_str()) {
                Some(v) => Ok(Some(v)),
                None => Err(SchemaErrorKind::ExpectedBound),
            },
            _ => Err(SchemaErrorKind::ExpectedBound),
        },
        None => Ok(None),
    }
}

fn find_bounds(attrs: &Vec<Attribute>) -> (r: Result<(Option<i64>, Option<i64>), SchemaErrorKind>)
    ensures
        r == bounds_of(attrs@),
{
    let min = match find_bound(attrs, "min") {
        Ok(m) => m,
        Err(k) => {
            return Err(k);
        },
    };
    let max = match find_bound(attrs, "max") {
        Ok(m) => m,
        Err(k) => {
            return Err(k);
        },
    };
    match (min, max) {
        (Some(a), Some(b)) => if a > b {
            Err(SchemaErrorKind::BoundsOutOfOrder)
        } else {
            Ok((min, max))
        },
        _ => Ok((min, max)),
    }
}

fn make_kind(qt: QuestionType, min: Option<i64>, max: Option<i64>, on_submit: Option<String>) -> (r:
    QuestionKind)
    ensures
        r@ == plain_kind(qt, min, max, crate::question::text_model(on_submit)),
{
    match qt {
        QuestionType::Editor => QuestionKind::Multiline(
            MultilineQuestion { default: None, validate_on_key: None, validate_on_submit: on_submit },
        ),
        QuestionType::Password => QuestionKind::Masked(
            MaskedQuestion { mask: None, validate_on_key: None, validate_on_submit: on_submit },
        ),
        QuestionType::Input => QuestionKind::Input(
            InputQuestion { default: None, validate_on_key: None, validate_on_submit: on_submit },
        ),
        QuestionType::Confirm => QuestionKind::Confirm(ConfirmQuestion { default: false }),
        QuestionType::Int => QuestionKind::Int(
            IntQuestion {
                default: None,
                min,
                max,
                validate_on_key: None,
                validate_on_submit: on_submit,
            },
        ),
        QuestionType::Float => QuestionKind::Float(
            FloatQuestion {
                default: None,
                min: None,
                max: None,
                validate_on_key: None,
                validate_on_submit: on_submit,
            },
        ),
        QuestionType::Select | QuestionType::Expand => {
            let names: Vec<String> = Vec::new();
            let r = QuestionKind::List(
                ListQuestion {
                    element: ListElement::Variants(names),
                    min: None,
                    max: None,
                    validate_on_submit: on_submit,
                },
            );
            assert(r@->List_element->Variants_0 =~= Seq::<Seq<char>>::empty());
            r
        },
        QuestionType::MultiSelect => QuestionKind::List(
            ListQuestion { element: ListElement::Text, min, max, validate_on_submit: on_submit },
        ),
    }
}

fn asked(ty: &FieldType) -> (r: (&FieldType, bool))
    ensures
        *r.0 == asked_type(*ty),
        r.1 == skippable(*ty),
{
    match ty {
        FieldType::Of(outer, inner) => {
            if str_eq(outer.as_str(), "Option") {
                (&**inner, true)
            } else {
                (ty, false)
            }
        },
        _ => (ty, false),
    }
}

fn list_item(ty: &FieldType) -> (r: Option<&FieldType>)
    ensures
        match r {
            Some(inner) => list_argument(*ty) == Some(*inner),
            None => list_argument(*ty) is None,
        },
{
    match ty {
        FieldType::Of(outer, inner) => {
            if str_eq(outer.as_str(), "Vec") {
                Some(&**inner)
            } else {
                None
            }
        },
        _ => None,
    }
}

fn element_kind(ty: &FieldType) -> (r: Option<ListElement>)
    ensures
        match r {
            Some(e) => element_of(*ty) == Some(e.model()),
            None => element_of(*ty) is None,
        },
{
    match ty.type_string() {
        Some(text) => {
            let s = text.as_str();
            if str_eq(s, "String") || str_eq(s, "PathBuf") {
                Some(ListElement::Text)
            } else if int_name(s) {
                Some(ListElement::Int)
            } else if float_name(s) {
                Some(ListElement::Float)
            } else {
                None
            }
        },
        None => None,
    }
}

fn make_asked_kind(ty: &FieldType, attrs: &Vec<Attribute>, min: Option<i64>, max: Option<i64>) -> (r:
    Option<QuestionKind>)
    ensures
        match r {
            Some(k) => asked_kind(*ty, attrs@, min, max) == Some(k@),
            None => asked_kind(*ty, attrs@, min, max) is None,
        },
{
    let on_submit = find_text(attrs, "validate");
    match list_item(ty) {
        Some(inner) => {
            if find_attr(attrs, "multiselect").is_some() {
                Some(make_kind(QuestionType::Select, None, None, on_submit))
            } else {
                match element_kind(inner) {
                    Some(element) => Some(
                        QuestionKind::List(
                            ListQuestion { element, min, max, validate_on_submit: on_submit },
                        ),
                    ),
                    None => None,
                }
            }
        },
        None => {
            let has_mask = find_attr(attrs, "mask").is_some();
            let has_editor = find_attr(attrs, "editor").is_some();
            let qt = infer_question_type(ty, has_mask, has_editor);
            Some(make_kind(qt, min, max, on_submit))
        },
    }
}

fn floats_asked(ty: &FieldType, attrs: &Vec<Attribute>) -> (r: bool)
    ensures
        r == asks_floats(*ty, attrs@),
{
    match list_item(ty) {
        Some(inner) => {
            if find_attr(attrs, "multiselect").is_some() {
                false
            } else {
                match element_kind(inner) {
                    Some(ListElement::Float) => true,
                    _ => false,
                }
            }
        },
        None => {
            let has_mask = find_attr(attrs, "mask").is_some();
            let has_editor = find_attr(attrs, "editor").is_some();
            match infer_question_type(ty, has_mask, has_editor) {
                QuestionType::Float => true,
                _ => false,
            }
        },
    }
}

fn build_prompted(name: String, attrs: &Vec<Attribute>, ty: &FieldType) -> (r: Result<
    Question,
    SchemaErrorKind,
>)
    ensures
        match r {
            Ok(q) => prompted_question(name@, attrs@, *ty) == Ok::<QuestionModel, SchemaErrorKind>(
                q@,
            ),
            Err(k) => prompted_question(name@, attrs@, *ty) == Err::<
                QuestionModel,
                SchemaErrorKind,
            >(k),
        },
{
    let prompt = match find_text(attrs, "prompt") {
        Some(p) => p,
        None => {
            return Err(SchemaErrorKind::ExpectedPrompt);
        },
    };
    let (min, max) = match find_bounds(attrs) {
        Ok(b) => b,
        Err(k) => {
            return Err(k);
        },
    };
    if infer_into(ty).is_none() {
        return Err(SchemaErrorKind::NoConversion);
    }
    if floats_asked(ty, attrs) && (min.is_some() || max.is_some()) {
        return Err(SchemaErrorKind::BoundsOnFloat);
    }
    match make_asked_kind(ty, attrs, min, max) {
        Some(kind) => match Question::new(None, name, prompt, kind) {
            Ok(q) => Ok(q),
            Err(_) => Err(SchemaErrorKind::BoundsOutOfOrder),
        },
        None => Err(SchemaErrorKind::NoConversion),
    }
}

fn build_nested(name: String, attrs: &Vec<Attribute>, ty: &FieldType, unnamed: SchemaErrorKind) -> (r:
    Result<Question, SchemaErrorKind>)
    ensures
        match r {
            Ok(q) => nested_question(name@, attrs@, *ty, unnamed) == Ok::<
                QuestionModel,
                SchemaErrorKind,
            >(q@),
            Err(k) => nested_question(name@, attrs@, *ty, unnamed) == Err::<
                QuestionModel,
                SchemaErrorKind,
            >(k),
        },
{
    let type_path = match ty {
        FieldType::Path(segments) => {
            if segments.len() == 0 {
                return Err(unnamed);
            }
            segments[segments.len() - 1].clone()
        },
        FieldType::Of(outer, _) => outer.clone(),
        FieldType::Other => {
            return Err(unnamed);
        },
    };
    let prompt = match find_text(attrs, "prompt") {
        Some(t) => t,
        None => String::new(),
    };
    let interview = Interview { sections: Vec::new() };
    assert(interview@ =~= Seq::<SectionModel>::empty());
    match Question::new(
        None,
        name,
        prompt,
        QuestionKind::Nested(NestedQuestion { type_path, interview }),
    ) {
        Ok(q) => Ok(q),
        Err(_) => Err(unnamed),
    }
}

fn mark(q: Result<Question, SchemaErrorKind>, optional: bool) -> (r: Result<Question, SchemaErrorKind>)
    ensures
        match (q, r) {
            (Ok(a), Ok(b)) => b@ == (QuestionModel { optional, ..a@ }),
            (Err(a), Err(b)) => a == b,
            _ => false,
        },
{
    match q {
        Ok(q) => {
            let mut q = q;
            q.set_optional(optional);
            Ok(q)
        },
        Err(k) => Err(k),
    }
}

/// Builds the section of a struct from its fields.
pub fn implement_struct_wizard(fields: &Vec<Field>) -> (r: Result<Section, SchemaError>)
    ensures
        shown(r) == struct_section(fields@),
{
    let mut i: usize = 0;
    while i < fields.len()
        invariant
            i <= fields@.len(),
            struct_fault(fields@, i as nat) is None,
        decreases fields@.len() - i,
    {
        let f = &fields[i];
        if find_attr(&f.attrs, "prompt").is_none() {
            proof {
                lemma_fault_stays(fields@, (i + 1) as nat, fields@.len());
            }
            return Err(SchemaError { kind: SchemaErrorKind::MissingPrompt, variant: 0, field: i });
        }
        if find_attr(&f.attrs, "mask").is_some() && find_attr(&f.attrs, "editor").is_some() {
            proof {
                lemma_fault_stays(fields@, (i + 1) as nat, fields@.len());
            }
            return Err(SchemaError { kind: SchemaErrorKind::MaskAndEditor, variant: 0, field: i });
        }
        i += 1;
    }
    let mut questions: Vec<Question> = Vec::new();
    let mut i: usize = 0;
    while i < fields.len()
        invariant
            i <= fields@.len(),
            struct_fault(fields@, fields@.len()) is None,
            questions@.len() == i,
            struct_questions(fields@, i as nat) is Ok,
            struct_questions(fields@, i as nat)->Ok_0.len() == i,
            forall|j: int|
                0 <= j < i ==> (#[trigger] questions@[j])@ == struct_questions(
                    fields@,
                    i as nat,
                )->Ok_0[j],
        decreases fields@.len() - i,
    {
        let f = &fields[i];
        let (ty, optional) = asked(&f.ty);
        let built = match &f.ident {
            None => Err(SchemaErrorKind::UnnamedField),
            Some(ident) => mark(
                if is_promptable_type(ty) || list_item(ty).is_some() {
                    build_prompted(ident.clone(), &f.attrs, ty)
                } else {
                    build_nested(ident.clone(), &f.attrs, ty, SchemaErrorKind::NestedNotNamed)
                },
                optional,
            ),
        };
        match built {
            Err(kind) => {
                proof {
                    lemma_struct_failure_stays(fields@, (i + 1) as nat, fields@.len());
                }
                return Err(SchemaError { kind, variant: 0, field: i });
            },
            Ok(q) => {
                questions.push(q);
            },
        }
        i += 1;
    }
    let section = Section::Sequence(Sequence { sequence: questions });
    assert(section@->Sequence_0 =~= struct_questions(fields@, fields@.len())->Ok_0);
    Ok(section)
}

fn field_name(variant: &str, f: &Field, i: usize) -> (r: String)
    ensures
        r@ == variant_field_name(variant@, *f, i),
{
    match &f.ident {
        Some(ident) => ident.clone(),
        None => {
            let mut r = variant.to_owned();
            r.append(" field ");
            let digits = usize_to_text(i);
            r.append(digits.as_str());
            r
        },
    }
}

fn build_variant_question(variant: &str, f: &Field, i: usize, named: bool) -> (r: Result<
    Question,
    SchemaErrorKind,
>)
    ensures
        match r {
            Ok(q) => variant_question(variant@, *f, i, named) == Ok::<
                QuestionModel,
                SchemaErrorKind,
            >(q@),
            Err(k) => variant_question(variant@, *f, i, named) == Err::<
                QuestionModel,
                SchemaErrorKind,
            >(k),
        },
{
    if named && f.ident.is_none() {
        return Err(SchemaErrorKind::UnnamedField);
    }
    let has_prompt = find_attr(&f.attrs, "prompt").is_some();
    let has_mask = find_attr(&f.attrs, "mask").is_some();
    let has_editor = find_attr(&f.attrs, "editor").is_some();
    let has_wizard = find_attr(&f.attrs, "wizard").is_some();
    let (ty, optional) = asked(&f.ty);
    if has_wizard {
        if has_prompt || has_mask || has_editor {
            Err(SchemaErrorKind::WizardCombined)
        } else {
            mark(
                build_nested(
                    field_name(variant, f, i),
                    &f.attrs,
                    ty,
                    SchemaErrorKind::WizardOnUnnamedType,
                ),
                optional,
            )
        }
    } else if has_prompt {
        if has_mask && has_editor {
            Err(SchemaErrorKind::MaskAndEditor)
        } else {
            mark(build_prompted(field_name(variant, f, i), &f.attrs, ty), optional)
        }
    } else {
        Err(SchemaErrorKind::MissingPromptOrWizard)
    }
}

fn build_variant_fields(variant: &str, at: usize, fields: &Vec<Field>, named: bool) -> (r: Result<
    Section,
    SchemaError,
>)
    ensures
        shown(r) == match variant_questions(variant@, at, fields@, named, fields@.len()) {
            Err(e) => Err::<SectionModel, SchemaError>(e),
            Ok(qs) => Ok(SectionModel::Sequence(qs)),
        },
{
    let mut questions: Vec<Question> = Vec::new();
    let mut i: usize = 0;
    while i < fields.len()
        invariant
            i <= fields@.len(),
            questions@.len() == i,
            variant_questions(variant@, at, fields@, named, i as nat) is Ok,
            variant_questions(variant@, at, fields@, named, i as nat)->Ok_0.len() == i,
            forall|j: int|
                0 <= j < i ==> (#[trigger] questions@[j])@ == variant_questions(
                    variant@,
                    at,
                    fields@,
                    named,
                    i as nat,
                )->Ok_0[j],
        decreases fields@.len() - i,
    {
        match build_variant_question(variant, &fields[i], i, named) {
            Err(kind) => {
                proof {
                    lemma_variant_failure_stays(
                        variant@,
                        at,
                        fields@,
                        named,
                        (i + 1) as nat,
                        fields@.len(),
                    );
                }
                return Err(SchemaError { kind, variant: at, field: i });
            },
            Ok(q) => {
                questions.push(q);
            },
        }
        i += 1;
    }
    let section = Section::Sequence(Sequence { sequence: questions });
    assert(section@->Sequence_0 =~= variant_questions(
        variant@,
        at,
        fields@,
        named,
        fields@.len(),
    )->Ok_0);
    Ok(section)
}

fn build_variant(v: &Variant, at: usize) -> (r: Result<Section, SchemaError>)
    ensures
        shown(r) == variant_section(*v, at),
{
    match &v.fields {
        Fields::Unit => Ok(Section::Empty),
        Fields::Named(fields) => build_variant_fields(v.ident.as_str(), at, fields, true),
        Fields::Unnamed(fields) => build_variant_fields(v.ident.as_str(), at, fields, false),
    }
}

/// Builds the section of an enum from its variants.
pub fn implement_enum_wizard(variants: &Vec<Variant>) -> (r: Result<Section, SchemaError>)
    ensures
        shown(r) == enum_section(variants@),
{
    let mut alternatives: Vec<Alternative> = Vec::new();
    let mut i: usize = 0;
    while i < variants.len()
        invariant
            i <= variants@.len(),
            alternatives@.len() == i,
            enum_branches(variants@, i as nat) is Ok,
            enum_branches(variants@, i as nat)->Ok_0.len() == i,
            forall|j: int|
                0 <= j < i ==> (#[trigger] alternatives@[j])@ == enum_branches(
                    variants@,
                    i as nat,
                )->Ok_0[j],
        decreases variants@.len() - i,
    {
        match build_variant(&variants[i], i) {
            Err(e) => {
                proof {
                    lemma_branch_failure_stays(variants@, (i + 1) as nat, variants@.len());
                }
                return Err(e);
            },
            Ok(section) => {
                alternatives.push(Alternative { name: variants[i].ident.clone(), section });
            },
        }
        i += 1;
    }
    let section = Section::Alternatives(0, alternatives);
    assert(section@->Alternatives_1 =~= enum_branches(variants@, variants@.len())->Ok_0);
    Ok(section)
}

fn propagate(section: Section, attrs: &Vec<Attribute>) -> (r: Section)
    ensures
        r@ == with_propagated(section@, attr_text(attrs@, "validate_fields"@)),
{
    match section {
        Section::Sequence(sequence) => {
            let mut sequence = sequence;
            let ghost before = sequence@;
            let ghost validator = attr_text(attrs@, "validate_fields"@);
            let mut i: usize = 0;
            while i < sequence.sequence.len()
                invariant
                    i <= sequence.sequence@.len(),
                    sequence@.len() == before.len(),
                    validator == attr_text(attrs@, "validate_fields"@),
                    forall|j: int|
                        0 <= j < i ==> sequence@[j] == (QuestionModel {
                            propagated: validator,
                            ..before[j]
                        }),
                    forall|j: int| i <= j < before.len() ==> sequence@[j] == before[j],
                decreases sequence.sequence@.len() - i,
            {
                let ghost earlier = sequence@;
                assert(earlier[i as int] == sequence.sequence@[i as int]@);
                let ghost items = sequence.sequence@;
                let name = find_text(attrs, "validate_fields");
                sequence.sequence[i].set_propagated(name);
                assert(sequence.sequence@.len() == items.len());
                assert(sequence.sequence@[i as int]@ == (QuestionModel {
                    propagated: validator,
                    ..items[i as int]@
                }));
                assert forall|j: int| 0 <= j < sequence@.len() && j != i implies sequence@[j]
                    == earlier[j] by {
                    assert(sequence.sequence@[j] == items[j]);
                    assert(sequence@[j] == sequence.sequence@[j]@);
                    assert(earlier[j] == items[j]@);
                }
                assert(sequence@[i as int] == sequence.sequence@[i as int]@);
                assert forall|j: int| 0 <= j <= i implies sequence@[j] == (QuestionModel {
                    propagated: validator,
                    ..before[j]
                }) by {
                    if j < i {
                        assert(sequence@[j] == earlier[j]);
                    } else {
                        assert(earlier[j] == before[j]);
                    }
                }
                assert forall|j: int| i < j < before.len() implies sequence@[j] == before[j] by {
                    assert(sequence@[j] == earlier[j]);
                }
                i += 1;
            }
            let r = Section::Sequence(sequence);
            assert(r@->Sequence_0 =~= propagated_to(before, validator));
            r
        },
        other => other,
    }
}

/// Builds the tree of a declaration: the section of a struct or of an enum.
pub fn implement_wizard(input: &DeriveInput) -> (r: Result<Interview, SchemaError>)
    ensures
        shown(r) == wizard_tree(*input),
{
    let section = match &input.data {
        Data::Struct(fields) => match implement_struct_wizard(fields) {
            Ok(section) => Ok(propagate(section, &input.attrs)),
            Err(e) => Err(e),
        },
        Data::Enum(variants) => implement_enum_wizard(variants),
        Data::Union => Err(
            SchemaError { kind: SchemaErrorKind::NotStructOrEnum, variant: 0, field: 0 },
        ),
    };
    match section {
        Err(e) => Err(e),
        Ok(section) => {
            let mut sections: Vec<Section> = Vec::new();
            sections.push(section);
            let interview = Interview { sections };
            assert(interview@ =~= seq![section@]);
            Ok(interview)
        },
    }
}

/// A question of an inner struct, asked in line in the struct that holds it
/// in the field `field`: its key is the field's name, a dot, and its own key.
pub open spec fn in_line(q: QuestionModel, field: Seq<char>) -> QuestionModel {
    QuestionModel { id: Some(scoped(field, q.key())), ..q }
}

/// The questions of an inner struct, asked in line.
pub open spec fn all_in_line(inner: Seq<QuestionModel>, field: Seq<char>) -> Seq<QuestionModel> {
    Seq::new(inner.len(), |i: int| in_line(inner[i], field))
}

/// A sequence in which the questions `inner` of an inner struct take the
/// place of the question at `index`.
pub open spec fn flattened(
    questions: Seq<QuestionModel>,
    index: int,
    inner: Seq<QuestionModel>,
    field: Seq<char>,
) -> Seq<QuestionModel> {
    questions.take(index) + all_in_line(inner, field) + questions.skip(index + 1)
}

/// Puts the questions of an inner struct in the place of the question at
/// `index`, which stood for the whole struct: the fields of a struct within
/// a struct are asked in line, under the name of the field that holds them.
/// Where there is no question at `index`, nothing changes.
pub fn flatten_field(sequence: &mut Sequence, index: usize, inner: Sequence) -> (r: bool)
    ensures
        r == (index < old(sequence)@.len()),
        final(sequence)@ == if r {
            flattened(old(sequence)@, index as int, inner@, old(sequence)@[index as int].key())
        } else {
            old(sequence)@
        },
{
    if index >= sequence.sequence.len() {
        return false;
    }
    let ghost before = sequence@;
    let ghost all = inner@;
    let placeholder = sequence.sequence.remove(index);
    let field = placeholder.key().to_owned();
    let mut rest = inner.sequence;
    assert(before[index as int] == placeholder@);
    assert(placed(before, index as int, all, field@, all.len() as int) =~= before.take(
        index as int,
    ) + before.skip(index + 1));
    assert forall|i: int| 0 <= i < sequence.sequence@.len() implies (
    #[trigger] sequence.sequence@[i])@ == placed(
        before,
        index as int,
        all,
        field@,
        all.len() as int,
    )[i] by {
        if i < index {
            assert(sequence.sequence@[i]@ == before[i]);
        } else {
            assert(sequence.sequence@[i]@ == before[i + 1]);
        }
    }
    while rest.len() > 0
        invariant
            index < before.len(),
            field@ == before[index as int].key(),
            rest@.len() <= all.len(),
            forall|i: int| 0 <= i < rest@.len() ==> (#[trigger] rest@[i])@ == all[i],
            sequence.sequence@.len() == before.len() - 1 + all.len() - rest@.len(),
            forall|i: int|
                0 <= i < sequence.sequence@.len() ==> (#[trigger] sequence.sequence@[i])@ == placed(
                    before,
                    index as int,
                    all,
                    field@,
                    rest@.len() as int,
                )[i],
        decreases rest@.len(),
    {
        let ghost n = rest@.len() - 1;
        let ghost earlier = sequence.sequence@;
        let last = rest.pop();
        match last {
            Some(q) => {
                let mut q = q;
                let id = scoped_key(field.as_str(), q.key());
                q.set_id(Some(id));
                assert(q@ == in_line(all[n], field@));
                sequence.sequence.insert(index, q);
                assert forall|i: int| 0 <= i < sequence.sequence@.len() implies (
                #[trigger] sequence.sequence@[i])@ == placed(before, index as int, all, field@, n)[i] by {
                    if i < index {
                        assert(sequence.sequence@[i] == earlier[i]);
                        assert(earlier[i]@ == placed(before, index as int, all, field@, n + 1)[i]);
                    } else if i == index {
                        assert(all_in_line(all, field@).skip(n)[0] == in_line(all[n], field@));
                    } else {
                        assert(sequence.sequence@[i] == earlier[i - 1]);
                        assert(earlier[i - 1]@ == placed(before, index as int, all, field@, n + 1)[i
                            - 1]);
                    }
                }
            },
            None => {},
        }
    }
    assert(all_in_line(all, field@).skip(0) =~= all_in_line(all, field@));
    assert(sequence@ =~= flattened(before, index as int, all, field@));
    true
}

/// The sequence while the inner questions from position `from` on are in
/// place.
pub open spec fn placed(
    questions: Seq<QuestionModel>,
    index: int,
    inner: Seq<QuestionModel>,
    field: Seq<char>,
    from: int,
) -> Seq<QuestionModel> {
    questions.take(index) + all_in_line(inner, field).skip(from) + questions.skip(index + 1)
}

/// Gives the question at `index` the tree of the type that it names: a
/// field that holds a choice keeps one question, with the choice below it.
/// Where the question at `index` is not one that names a type, nothing
/// changes.
pub fn attach_tree(sequence: &mut Sequence, index: usize, tree: Interview) -> (r: bool)
    ensures
        r == (index < old(sequence)@.len() && old(sequence)@[index as int].kind is Nested),
        final(sequence)@ == if r {
            old(sequence)@.update(
                index as int,
                QuestionModel {
                    kind: KindModel::Nested {
                        type_path: old(sequence)@[index as int].kind->Nested_type_path,
                        sections: tree@,
                    },
                    ..old(sequence)@[index as int]
                },
            )
        } else {
            old(sequence)@
        },
{
    if index >= sequence.sequence.len() {
        return false;
    }
    let ghost before = sequence@;
    assert(before[index as int] == sequence.sequence@[index as int]@);
    proof {
        sequence.sequence@[index as int].lemma_kind();
    }
    let type_path = match sequence.sequence[index].kind() {
        QuestionKind::Nested(nested) => nested.type_path.clone(),
        _ => {
            return false;
        },
    };
    let question = sequence.sequence[index].with_kind(
        QuestionKind::Nested(NestedQuestion { type_path, interview: tree }),
    );
    sequence.sequence[index] = question;
    assert(sequence@ =~= before.update(index as int, question@));
    true
}

/// Gives the multi-select at `index` the names of the variants to choose
/// from. Where the question at `index` is no multi-select, nothing changes.
pub fn attach_variants(sequence: &mut Sequence, index: usize, variants: Vec<String>) -> (r: bool)
    ensures
        r == (index < old(sequence)@.len() && old(sequence)@[index as int].kind matches KindModel::List {
            element: ElementModel::Variants(_),
            ..
        }),
        final(sequence)@ == if r {
            old(sequence)@.update(
                index as int,
                QuestionModel {
                    kind: KindModel::List {
                        element: ListElement::Variants(variants).model(),
                        min: old(sequence)@[index as int].kind->List_min,
                        max: old(sequence)@[index as int].kind->List_max,
                        on_submit: old(sequence)@[index as int].kind->List_on_submit,
                    },
                    ..old(sequence)@[index as int]
                },
            )
        } else {
            old(sequence)@
        },
{
    if index >= sequence.sequence.len() {
        return false;
    }
    let ghost before = sequence@;
    assert(before[index as int] == sequence.sequence@[index as int]@);
    proof {
        sequence.sequence@[index as int].lemma_kind();
    }
    let current = &sequence.sequence[index];
    proof {
        use_type_invariant(current);
    }
    let kind = match current.kind() {
        QuestionKind::List(list) => match &list.element {
            ListElement::Variants(_) => QuestionKind::List(
                ListQuestion {
                    element: ListElement::Variants(variants),
                    min: list.min,
                    max: list.max,
                    validate_on_submit: crate::question::copy_text(&list.validate_on_submit),
                },
            ),
            _ => {
                return false;
            },
        },
        _ => {
            return false;
        },
    };
    let question = sequence.sequence[index].with_kind(kind);
    sequence.sequence[index] = question;
    assert(sequence@ =~= before.update(index as int, question@));
    true
}

} // verus!
