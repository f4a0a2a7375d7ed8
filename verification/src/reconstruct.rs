//! Reading typed values back out of the answers: each read names the key,
//! asks for the kind of value that the field expects, and narrows integers
//! to the field's range.

use vstd::prelude::*;
use crate::answer::{AnswerError, AnswerErrorModel, Answers, AnswerValue, Value};
use crate::backend::{BackendError, BackendErrorModel};
use crate::text::{scoped, scoped_key, text_of_nat, usize_to_text};
use crate::SELECTED_ALTERNATIVE_KEY;

verus! {

/// The failure of a read of `key` that expects `expected` in `m`: the key
/// is missing, or holds a value of another kind.
pub open spec fn read_failure(m: Map<Seq<char>, Value>, key: Seq<char>, expected: Seq<char>) -> BackendErrorModel {
    if m.contains_key(key) {
        BackendErrorModel::Answer(AnswerErrorModel::TypeMismatch { key, expected })
    } else {
        BackendErrorModel::Answer(AnswerErrorModel::MissingKey(key))
    }
}

/// The text under `key`.
pub open spec fn text_in(m: Map<Seq<char>, Value>, key: Seq<char>) -> Result<
    Seq<char>,
    BackendErrorModel,
> {
    if m.contains_key(key) && m[key] is Text {
        Ok(m[key]->Text_0)
    } else {
        Err(read_failure(m, key, "String"@))
    }
}

/// The text under `key`, where there is a key: a skipped question has none.
pub open spec fn optional_text_in(m: Map<Seq<char>, Value>, key: Seq<char>) -> Result<
    Option<Seq<char>>,
    BackendErrorModel,
> {
    if !m.contains_key(key) {
        Ok(None)
    } else if m[key] is Text {
        Ok(Some(m[key]->Text_0))
    } else {
        Err(read_failure(m, key, "String"@))
    }
}

/// The integer under `key`, which has to lie from `low` to `high`: an
/// integer outside that range is of the wrong kind for the field.
pub open spec fn int_in(m: Map<Seq<char>, Value>, key: Seq<char>, low: int, high: int) -> Result<
    int,
    BackendErrorModel,
> {
    if m.contains_key(key) && m[key] is Int && low <= m[key]->Int_0 <= high {
        Ok(m[key]->Int_0 as int)
    } else {
        Err(read_failure(m, key, "Int"@))
    }
}

/// The truth value under `key`.
pub open spec fn bool_in(m: Map<Seq<char>, Value>, key: Seq<char>) -> Result<
    bool,
    BackendErrorModel,
> {
    if m.contains_key(key) && m[key] is Bool {
        Ok(m[key]->Bool_0)
    } else {
        Err(read_failure(m, key, "Bool"@))
    }
}

/// The float under `key`, as its bits.
pub open spec fn float_in(m: Map<Seq<char>, Value>, key: Seq<char>) -> Result<
    u64,
    BackendErrorModel,
> {
    if m.contains_key(key) && m[key] is Float {
        Ok(m[key]->Float_0)
    } else {
        Err(read_failure(m, key, "Float"@))
    }
}

/// The chosen variants under `key`.
pub open spec fn chosen_in(m: Map<Seq<char>, Value>, key: Seq<char>) -> Result<
    Seq<usize>,
    BackendErrorModel,
> {
    if m.contains_key(key) && m[key] is Chosen {
        Ok(m[key]->Chosen_0)
    } else {
        Err(read_failure(m, key, "ChosenVariants"@))
    }
}

/// Reads the text under `key`.
pub fn read_text(answers: &Answers, key: &str) -> (r: Result<String, BackendError>)
    ensures
        match r {
            Ok(s) => text_in(answers@, key@) == Ok::<Seq<char>, BackendErrorModel>(s@),
            Err(e) => text_in(answers@, key@) == Err::<Seq<char>, BackendErrorModel>(e@),
        },
{
    match answers.as_string(key) {
        Ok(s) => Ok(s),
        Err(e) => Err(BackendError::Answer(e)),
    }
}

/// Reads the text under `key`, where there is a key.
pub fn read_optional_text(answers: &Answers, key: &str) -> (r: Result<
    Option<String>,
    BackendError,
>)
    ensures
        match r {
            Ok(Some(s)) => optional_text_in(answers@, key@) == Ok::<
                Option<Seq<char>>,
                BackendErrorModel,
            >(Some(s@)),
            Ok(None) => optional_text_in(answers@, key@) == Ok::<
                Option<Seq<char>>,
                BackendErrorModel,
            >(None),
            Err(e) => optional_text_in(answers@, key@) == Err::<
                Option<Seq<char>>,
                BackendErrorModel,
            >(e@),
        },
{
    if !answers.contains_key(key) {
        return Ok(None);
    }
    match answers.as_string(key) {
        Ok(s) => Ok(Some(s)),
        Err(e) => Err(BackendError::Answer(e)),
    }
}

/// Reads the integer under `key` and checks it against the field's range.
pub fn read_int(answers: &Answers, key: &str, low: i64, high: i64) -> (r: Result<i64, BackendError>)
    ensures
        match r {
            Ok(v) => int_in(answers@, key@, low as int, high as int) == Ok::<
                int,
                BackendErrorModel,
            >(v as int),
            Err(e) => int_in(answers@, key@, low as int, high as int) == Err::<
                int,
                BackendErrorModel,
            >(e@),
        },
{
    match answers.as_int(key) {
        Ok(v) => {
            if low <= v && v <= high {
                Ok(v)
            } else {
                Err(
                    BackendError::Answer(
                        AnswerError::TypeMismatch { key: key.to_owned(), expected: "Int" },
                    ),
                )
            }
        },
        Err(e) => Err(BackendError::Answer(e)),
    }
}

/// Reads the truth value under `key`.
pub fn read_bool(answers: &Answers, key: &str) -> (r: Result<bool, BackendError>)
    ensures
        match r {
            Ok(b) => bool_in(answers@, key@) == Ok::<bool, BackendErrorModel>(b),
            Err(e) => bool_in(answers@, key@) == Err::<bool, BackendErrorModel>(e@),
        },
{
    match answers.as_bool(key) {
        Ok(b) => Ok(b),
        Err(e) => Err(BackendError::Answer(e)),
    }
}

/// Reads the float under `key`, as its bits.
pub fn read_float(answers: &Answers, key: &str) -> (r: Result<u64, BackendError>)
    ensures
        match r {
            Ok(b) => float_in(answers@, key@) == Ok::<u64, BackendErrorModel>(b),
            Err(e) => float_in(answers@, key@) == Err::<u64, BackendErrorModel>(e@),
        },
{
    match answers.as_float(key) {
        Ok(b) => Ok(b),
        Err(e) => Err(BackendError::Answer(e)),
    }
}

/// Reads the chosen variants under `key`.
pub fn read_chosen(answers: &Answers, key: &str) -> (r: Result<Vec<usize>, BackendError>)
    ensures
        match r {
            Ok(c) => chosen_in(answers@, key@) == Ok::<Seq<usize>, BackendErrorModel>(c@),
            Err(e) => chosen_in(answers@, key@) == Err::<Seq<usize>, BackendErrorModel>(e@),
        },
{
    match answers.as_chosen_variants(key) {
        Ok(c) => {
            let mut r: Vec<usize> = Vec::new();
            let mut i: usize = 0;
            while i < c.len()
                invariant
                    i <= c@.len(),
                    r@ == c@.take(i as int),
                decreases c@.len() - i,
            {
                r.push(c[i]);
                i += 1;
            }
            assert(r@ =~= c@);
            Ok(r)
        },
        Err(e) => Err(BackendError::Answer(e)),
    }
}

/// The filesystem path under `key`, as text: a path, or a text that is taken
/// as one.
pub open spec fn path_in(m: Map<Seq<char>, Value>, key: Seq<char>) -> Result<
    Seq<char>,
    BackendErrorModel,
> {
    if m.contains_key(key) && m[key] is Path {
        Ok(m[key]->Path_0)
    } else if m.contains_key(key) && m[key] is Text {
        Ok(m[key]->Text_0)
    } else {
        Err(read_failure(m, key, "Path"@))
    }
}

/// The filesystem path under `key`, where there is a key.
pub open spec fn optional_path_in(m: Map<Seq<char>, Value>, key: Seq<char>) -> Result<
    Option<Seq<char>>,
    BackendErrorModel,
> {
    if !m.contains_key(key) {
        Ok(None)
    } else {
        match path_in(m, key) {
            Ok(p) => Ok(Some(p)),
            Err(e) => Err(e),
        }
    }
}

/// The integer under `key`, where there is a key.
pub open spec fn optional_int_in(
    m: Map<Seq<char>, Value>,
    key: Seq<char>,
    low: int,
    high: int,
) -> Result<Option<int>, BackendErrorModel> {
    if !m.contains_key(key) {
        Ok(None)
    } else {
        match int_in(m, key, low, high) {
            Ok(v) => Ok(Some(v)),
            Err(e) => Err(e),
        }
    }
}

/// The answers with a text under `key`, where there is a text.
pub open spec fn with_optional_text(
    m: Map<Seq<char>, Value>,
    key: Seq<char>,
    text: Option<Seq<char>>,
) -> Map<Seq<char>, Value> {
    match text {
        Some(t) => m.insert(key, Value::Text(t)),
        None => m,
    }
}

/// The answers with a path under `key`, where there is a path.
pub open spec fn with_optional_path(
    m: Map<Seq<char>, Value>,
    key: Seq<char>,
    path: Option<Seq<char>>,
) -> Map<Seq<char>, Value> {
    match path {
        Some(p) => m.insert(key, Value::Path(p)),
        None => m,
    }
}

/// The answers with an integer under `key`, where there is an integer.
pub open spec fn with_optional_int(m: Map<Seq<char>, Value>, key: Seq<char>, v: Option<i64>) -> Map<
    Seq<char>,
    Value,
> {
    match v {
        Some(i) => m.insert(key, Value::Int(i)),
        None => m,
    }
}

/// The characters of each text of a vector.
pub open spec fn texts_view(texts: Vec<String>) -> Seq<Seq<char>> {
    Seq::new(texts@.len(), |i: int| texts@[i]@)
}

/// The list value that holds the given texts.
pub open spec fn text_list(texts: Seq<Seq<char>>) -> Value {
    Value::List(Seq::new(texts.len(), |i: int| Value::Text(texts[i])))
}

/// The list value that holds the given numbers.
pub open spec fn number_list(numbers: Seq<u32>) -> Value {
    Value::List(Seq::new(numbers.len(), |i: int| Value::Int(numbers[i] as i64)))
}

/// The list of texts under `key`: every item has to be a text.
pub open spec fn text_list_in(m: Map<Seq<char>, Value>, key: Seq<char>) -> Result<
    Seq<Seq<char>>,
    BackendErrorModel,
> {
    if m.contains_key(key) && m[key] is List && (forall|i: int|
        0 <= i < m[key]->List_0.len() ==> (#[trigger] m[key]->List_0[i]) is Text) {
        Ok(Seq::new(m[key]->List_0.len(), |i: int| m[key]->List_0[i]->Text_0))
    } else {
        Err(read_failure(m, key, "List"@))
    }
}

/// Whether the value is an integer that fits in 32 bits without sign.
pub open spec fn is_number(v: Value) -> bool {
    v is Int && 0 <= v->Int_0 <= u32::MAX
}

/// The list of numbers under `key`: every item has to be an integer that
/// fits in 32 bits without sign.
pub open spec fn number_list_in(m: Map<Seq<char>, Value>, key: Seq<char>) -> Result<
    Seq<u32>,
    BackendErrorModel,
> {
    if m.contains_key(key) && m[key] is List && (forall|i: int|
        0 <= i < m[key]->List_0.len() ==> is_number(#[trigger] m[key]->List_0[i])) {
        Ok(Seq::new(m[key]->List_0.len(), |i: int| m[key]->List_0[i]->Int_0 as u32))
    } else {
        Err(read_failure(m, key, "List"@))
    }
}

/// A list of texts that was stored under a key is read back from it.
pub proof fn lemma_text_list_reads_back(m: Map<Seq<char>, Value>, key: Seq<char>, texts: Seq<Seq<char>>)
    requires
        m.contains_key(key),
        m[key] == text_list(texts),
    ensures
        text_list_in(m, key) == Ok::<Seq<Seq<char>>, BackendErrorModel>(texts),
{
    assert(Seq::new(m[key]->List_0.len(), |i: int| m[key]->List_0[i]->Text_0) =~= texts);
}

/// A list of numbers that was stored under a key is read back from it.
pub proof fn lemma_number_list_reads_back(m: Map<Seq<char>, Value>, key: Seq<char>, numbers: Seq<u32>)
    requires
        m.contains_key(key),
        m[key] == number_list(numbers),
    ensures
        number_list_in(m, key) == Ok::<Seq<u32>, BackendErrorModel>(numbers),
{
    assert(Seq::new(m[key]->List_0.len(), |i: int| m[key]->List_0[i]->Int_0 as u32) =~= numbers);
}

fn mismatch(key: &str, expected: &'static str) -> (r: BackendError)
    ensures
        r@ == BackendErrorModel::Answer(
            AnswerErrorModel::TypeMismatch { key: key@, expected: expected@ },
        ),
{
    BackendError::Answer(AnswerError::TypeMismatch { key: key.to_owned(), expected })
}

/// Reads the filesystem path under `key`, as text.
pub fn read_path(answers: &Answers, key: &str) -> (r: Result<String, BackendError>)
    ensures
        match r {
            Ok(s) => path_in(answers@, key@) == Ok::<Seq<char>, BackendErrorModel>(s@),
            Err(e) => path_in(answers@, key@) == Err::<Seq<char>, BackendErrorModel>(e@),
        },
{
    match answers.get(key) {
        Some(AnswerValue::Path(p)) => Ok(p.clone()),
        Some(AnswerValue::String(s)) => Ok(s.clone()),
        Some(_) => Err(mismatch(key, "Path")),
        None => Err(BackendError::Answer(AnswerError::MissingKey(key.to_owned()))),
    }
}

/// Reads the filesystem path under `key`, where there is a key.
pub fn read_optional_path(answers: &Answers, key: &str) -> (r: Result<
    Option<String>,
    BackendError,
>)
    ensures
        match r {
            Ok(p) => optional_path_in(answers@, key@) == Ok::<
                Option<Seq<char>>,
                BackendErrorModel,
            >(crate::question::text_model(p)),
            Err(e) => optional_path_in(answers@, key@) == Err::<
                Option<Seq<char>>,
                BackendErrorModel,
            >(e@),
        },
{
    if !answers.contains_key(key) {
        return Ok(None);
    }
    match read_path(answers, key) {
        Ok(p) => Ok(Some(p)),
        Err(e) => Err(e),
    }
}

/// Reads the integer under `key`, where there is a key, and checks it
/// against the field's range.
pub fn read_optional_int(answers: &Answers, key: &str, low: i64, high: i64) -> (r: Result<
    Option<i64>,
    BackendError,
>)
    ensures
        match r {
            Ok(Some(v)) => optional_int_in(answers@, key@, low as int, high as int) == Ok::<
                Option<int>,
                BackendErrorModel,
            >(Some(v as int)),
            Ok(None) => optional_int_in(answers@, key@, low as int, high as int) == Ok::<
                Option<int>,
                BackendErrorModel,
            >(None),
            Err(e) => optional_int_in(answers@, key@, low as int, high as int) == Err::<
                Option<int>,
                BackendErrorModel,
            >(e@),
        },
{
    if !answers.contains_key(key) {
        return Ok(None);
    }
    match read_int(answers, key, low, high) {
        Ok(v) => Ok(Some(v)),
        Err(e) => Err(e),
    }
}

/// Reads the list of texts under `key`.
pub fn read_text_list(answers: &Answers, key: &str) -> (r: Result<Vec<String>, BackendError>)
    ensures
        match r {
            Ok(v) => text_list_in(answers@, key@) == Ok::<Seq<Seq<char>>, BackendErrorModel>(
                texts_view(v),
            ),
            Err(e) => text_list_in(answers@, key@) == Err::<Seq<Seq<char>>, BackendErrorModel>(e@),
        },
{
    let items = match answers.as_list(key) {
        Ok(items) => items,
        Err(e) => {
            return Err(BackendError::Answer(e));
        },
    };
    let ghost models = answers@[key@]->List_0;
    let mut texts: Vec<String> = Vec::new();
    let mut i: usize = 0;
    while i < items.len()
        invariant
            i <= items@.len(),
            answers@.contains_key(key@),
            answers@[key@] == AnswerValue::List(*items)@,
            models == answers@[key@]->List_0,
            texts@.len() == i,
            forall|j: int| 0 <= j < i ==> (#[trigger] models[j]) is Text,
            forall|j: int| 0 <= j < i ==> (#[trigger] texts@[j])@ == models[j]->Text_0,
        decreases items@.len() - i,
    {
        assert(models[i as int] == items@[i as int]@);
        match &items[i] {
            AnswerValue::String(s) => {
                texts.push(s.clone());
            },
            _ => {
                assert(!(models[i as int] is Text));
                return Err(mismatch(key, "List"));
            },
        }
        i += 1;
    }
    assert(texts_view(texts) =~= Seq::new(models.len(), |i: int| models[i]->Text_0));
    Ok(texts)
}

/// Reads the list of numbers under `key`.
pub fn read_number_list(answers: &Answers, key: &str) -> (r: Result<Vec<u32>, BackendError>)
    ensures
        match r {
            Ok(v) => number_list_in(answers@, key@) == Ok::<Seq<u32>, BackendErrorModel>(v@),
            Err(e) => number_list_in(answers@, key@) == Err::<Seq<u32>, BackendErrorModel>(e@),
        },
{
    let items = match answers.as_list(key) {
        Ok(items) => items,
        Err(e) => {
            return Err(BackendError::Answer(e));
        },
    };
    let ghost models = answers@[key@]->List_0;
    let mut numbers: Vec<u32> = Vec::new();
    let mut i: usize = 0;
    while i < items.len()
        invariant
            i <= items@.len(),
            answers@.contains_key(key@),
            answers@[key@] == AnswerValue::List(*items)@,
            models == answers@[key@]->List_0,
            numbers@.len() == i,
            forall|j: int| 0 <= j < i ==> is_number(#[trigger] models[j]),
            forall|j: int| 0 <= j < i ==> (#[trigger] numbers@[j]) == models[j]->Int_0 as u32,
        decreases items@.len() - i,
    {
        assert(models[i as int] == items@[i as int]@);
        match &items[i] {
            AnswerValue::Int(v) => {
                if 0 <= *v && *v <= 0xffff_ffff {
                    numbers.push(*v as u32);
                } else {
                    assert(!is_number(models[i as int]));
                    return Err(mismatch(key, "List"));
                }
            },
            _ => {
                assert(!is_number(models[i as int]));
                return Err(mismatch(key, "List"));
            },
        }
        i += 1;
    }
    assert(numbers@ =~= Seq::new(models.len(), |i: int| models[i]->Int_0 as u32));
    Ok(numbers)
}

/// The list value that holds the given texts.
pub fn text_list_value(texts: &Vec<String>) -> (r: AnswerValue)
    ensures
        r@ == text_list(texts_view(*texts)),
{
    let mut items: Vec<AnswerValue> = Vec::new();
    let mut i: usize = 0;
    while i < texts.len()
        invariant
            i <= texts@.len(),
            items@.len() == i,
            forall|j: int| 0 <= j < i ==> (#[trigger] items@[j])@ == Value::Text(texts@[j]@),
        decreases texts@.len() - i,
    {
        items.push(AnswerValue::String(texts[i].clone()));
        i += 1;
    }
    let r = AnswerValue::List(items);
    assert(r@->List_0 =~= text_list(texts_view(*texts))->List_0);
    r
}

/// The list value that holds the given numbers.
pub fn number_list_value(numbers: &Vec<u32>) -> (r: AnswerValue)
    ensures
        r@ == number_list(numbers@),
{
    let mut items: Vec<AnswerValue> = Vec::new();
    let mut i: usize = 0;
    while i < numbers.len()
        invariant
            i <= numbers@.len(),
            items@.len() == i,
            forall|j: int|
                0 <= j < i ==> (#[trigger] items@[j])@ == Value::Int(numbers@[j] as i64),
        decreases numbers@.len() - i,
    {
        items.push(AnswerValue::Int(numbers[i] as i64));
        i += 1;
    }
    let r = AnswerValue::List(items);
    assert(r@->List_0 =~= number_list(numbers@)->List_0);
    r
}

/// The key of the choice made in `scope`.
pub open spec fn choice_key(scope: Seq<char>) -> Seq<char> {
    scoped(scope, SELECTED_ALTERNATIVE_KEY@)
}

/// The place of the section at position `index` of a tree that stands at
/// `place`: the first section stands at the tree's own place, every later
/// one at a place of its own below it.
pub open spec fn section_place(place: Seq<char>, index: nat) -> Seq<char> {
    if index == 0 {
        place
    } else {
        scoped(place, "section_"@ + text_of_nat(index))
    }
}

/// The place of the section of the branch at position `branch` of the
/// choice that stands at `place`.
pub open spec fn branch_place(place: Seq<char>, branch: nat) -> Seq<char> {
    scoped(place, "branch_"@ + text_of_nat(branch))
}

/// The place of a section of a tree.
pub fn section_place_of(place: &str, index: usize) -> (r: String)
    ensures
        r@ == section_place(place@, index as nat),
{
    if index == 0 {
        place.to_owned()
    } else {
        let mut name = "section_".to_owned();
        let digits = usize_to_text(index);
        name.append(digits.as_str());
        scoped_key(place, name.as_str())
    }
}

/// The place of the section of a branch.
pub fn branch_place_of(place: &str, branch: usize) -> (r: String)
    ensures
        r@ == branch_place(place@, branch as nat),
{
    let mut name = "branch_".to_owned();
    let digits = usize_to_text(branch);
    name.append(digits.as_str());
    scoped_key(place, name.as_str())
}

/// The key of the choice that stands at `place`.
pub fn choice_key_of(place: &str) -> (r: String)
    ensures
        r@ == choice_key(place@),
{
    scoped_key(place, SELECTED_ALTERNATIVE_KEY)
}

/// Two sections of one tree keep their choices under different keys, and a
/// choice in a branch keeps its own under another key than the choice that
/// holds the branch.
pub proof fn lemma_choices_apart(place: Seq<char>, i: nat, j: nat)
    requires
        i != j,
    ensures
        choice_key(section_place(place, i)) != choice_key(section_place(place, j)),
        choice_key(branch_place(place, i)) != choice_key(branch_place(place, j)),
        choice_key(branch_place(place, i)) != choice_key(place),
{
    reveal_strlit("section_");
    reveal_strlit("branch_");
    reveal_strlit("selected_alternative");
    let key = SELECTED_ALTERNATIVE_KEY@;
    let si = "section_"@ + text_of_nat(i);
    let sj = "section_"@ + text_of_nat(j);
    let bi = "branch_"@ + text_of_nat(i);
    let bj = "branch_"@ + text_of_nat(j);
    lemma_decimal_apart(i, j);
    assert(si != sj) by {
        if si == sj {
            assert(si.subrange(8, si.len() as int) =~= text_of_nat(i));
            assert(sj.subrange(8, sj.len() as int) =~= text_of_nat(j));
        }
    }
    assert(bi != bj) by {
        if bi == bj {
            assert(bi.subrange(7, bi.len() as int) =~= text_of_nat(i));
            assert(bj.subrange(7, bj.len() as int) =~= text_of_nat(j));
        }
    }
    lemma_under(place, si, key);
    lemma_under(place, sj, key);
    lemma_under(place, bi, key);
    lemma_under(place, bj, key);
    assert(si + seq!['.'] + key != key);
    assert(sj + seq!['.'] + key != key);
    assert(bi + seq!['.'] + key != key);
    assert(si + seq!['.'] + key != sj + seq!['.'] + key) by {
        if si + seq!['.'] + key == sj + seq!['.'] + key {
            assert(si + seq!['.'] + key =~= si + (seq!['.'] + key));
            assert(sj + seq!['.'] + key =~= sj + (seq!['.'] + key));
            lemma_tail_cancels(si, sj, seq!['.'] + key);
        }
    }
    assert(bi + seq!['.'] + key != bj + seq!['.'] + key) by {
        if bi + seq!['.'] + key == bj + seq!['.'] + key {
            assert(bi + seq!['.'] + key =~= bi + (seq!['.'] + key));
            assert(bj + seq!['.'] + key =~= bj + (seq!['.'] + key));
            lemma_tail_cancels(bi, bj, seq!['.'] + key);
        }
    }
    lemma_scoped_apart(place, si + seq!['.'] + key, key);
    lemma_scoped_apart(place, sj + seq!['.'] + key, key);
    lemma_scoped_apart(place, bi + seq!['.'] + key, key);
    lemma_scoped_apart(place, si + seq!['.'] + key, sj + seq!['.'] + key);
    lemma_scoped_apart(place, bi + seq!['.'] + key, bj + seq!['.'] + key);
}

proof fn lemma_decimal_apart(i: nat, j: nat)
    requires
        i != j,
    ensures
        text_of_nat(i) != text_of_nat(j),
{
    crate::text::lemma_digits_of_nat(i);
    crate::text::lemma_digits_of_nat(j);
}

proof fn lemma_under(place: Seq<char>, name: Seq<char>, key: Seq<char>)
    requires
        name.len() > 0,
    ensures
        scoped(scoped(place, name), key) == scoped(place, name + seq!['.'] + key),
{
    if place.len() == 0 {
        assert(scoped(scoped(place, name), key) =~= scoped(place, name + seq!['.'] + key));
    } else {
        assert(scoped(scoped(place, name), key) =~= scoped(place, name + seq!['.'] + key));
    }
}

proof fn lemma_tail_cancels(a: Seq<char>, b: Seq<char>, tail: Seq<char>)
    requires
        a + tail == b + tail,
    ensures
        a == b,
{
    assert((a + tail).len() == a.len() + tail.len());
    assert((b + tail).len() == b.len() + tail.len());
    assert(a =~= (a + tail).subrange(0, a.len() as int));
    assert(b =~= (b + tail).subrange(0, b.len() as int));
}

/// The failure of a choice that names no variant of the type `expected`.
pub open spec fn unknown_variant(scope: Seq<char>, expected: Seq<char>) -> BackendErrorModel {
    BackendErrorModel::Answer(
        AnswerErrorModel::TypeMismatch { key: choice_key(scope), expected },
    )
}

/// The failure of a choice that names no variant of the type `expected`.
pub fn unknown(scope: &str, expected: &'static str) -> (r: BackendError)
    ensures
        r@ == unknown_variant(scope@, expected@),
{
    BackendError::Answer(
        AnswerError::TypeMismatch { key: scoped_key(scope, SELECTED_ALTERNATIVE_KEY), expected },
    )
}

/// Two names in one scope have different keys.
pub proof fn lemma_scoped_apart(scope: Seq<char>, a: Seq<char>, b: Seq<char>)
    requires
        a != b,
    ensures
        scoped(scope, a) != scoped(scope, b),
{
    if scope.len() > 0 {
        let head = scope + seq!['.'];
        if scoped(scope, a) == scoped(scope, b) {
            assert((head + a).subrange(head.len() as int, (head + a).len() as int) =~= a);
            assert((head + b).subrange(head.len() as int, (head + b).len() as int) =~= b);
        }
    }
}

/// The keys of two scopes that begin with different characters are different.
pub proof fn lemma_scopes_apart(s: Seq<char>, a: Seq<char>, t: Seq<char>, b: Seq<char>)
    requires
        s.len() > 0,
        t.len() > 0,
        s[0] != t[0],
    ensures
        scoped(s, a) != scoped(t, b),
{
    assert(scoped(s, a)[0] == s[0]);
    assert(scoped(t, b)[0] == t[0]);
}

/// A key that is too short for a scope, or holds no dot behind it, is no key
/// of the scope.
pub proof fn lemma_key_outside_scope(key: Seq<char>, scope: Seq<char>, name: Seq<char>)
    requires
        scope.len() > 0,
        key.len() <= scope.len() || key[scope.len() as int] != '.',
    ensures
        key != scoped(scope, name),
{
    assert(scoped(scope, name).len() == scope.len() + 1 + name.len());
    assert(scoped(scope, name)[scope.len() as int] == '.');
}

/// A type whose values are the variants of a choice, each known by its
/// position among them.
pub trait Choice: Sized {
    /// The number of variants.
    spec fn count() -> nat;

    /// The position of this variant.
    spec fn position(&self) -> nat;

    /// The variant at position `i`.
    fn from_index(i: usize) -> (r: Option<Self>)
        ensures
            match r {
                Some(v) => i < Self::count() && v.position() == i,
                None => i >= Self::count(),
            },
    ;

    /// The position of this variant.
    fn index(&self) -> (r: usize)
        ensures
            r == self.position(),
            r < Self::count(),
    ;
}

/// Whether `variants` are exactly the variants at the chosen positions, in
/// the order in which they were chosen.
pub open spec fn chosen_exactly<E: Choice>(variants: Seq<E>, chosen: Seq<usize>) -> bool {
    variants.len() == chosen.len() && forall|i: int|
        0 <= i < chosen.len() ==> (#[trigger] variants[i]).position() == chosen[i]
}

/// Whether every chosen position is the position of a variant of `E`.
pub open spec fn all_known<E: Choice>(chosen: Seq<usize>) -> bool {
    forall|i: int| 0 <= i < chosen.len() ==> (#[trigger] chosen[i]) < E::count()
}

/// Reads the variants chosen under `key`: a multi-select reconstructs to
/// exactly the chosen variants, whatever the other variants are. A position
/// that belongs to no variant is a value of the wrong kind.
pub fn read_choices<E: Choice>(answers: &Answers, key: &str) -> (r: Result<Vec<E>, BackendError>)
    ensures
        match r {
            Ok(v) => chosen_in(answers@, key@) matches Ok(chosen) && all_known::<E>(chosen)
                && chosen_exactly(v@, chosen),
            Err(e) => match chosen_in(answers@, key@) {
                Ok(chosen) => !all_known::<E>(chosen) && e@ == BackendErrorModel::Answer(
                    AnswerErrorModel::TypeMismatch { key: key@, expected: "ChosenVariants"@ },
                ),
                Err(failure) => e@ == failure,
            },
        },
{
    let chosen = match answers.as_chosen_variants(key) {
        Ok(c) => c,
        Err(e) => {
            return Err(BackendError::Answer(e));
        },
    };
    let mut variants: Vec<E> = Vec::new();
    let mut i: usize = 0;
    while i < chosen.len()
        invariant
            i <= chosen@.len(),
            chosen_in(answers@, key@) == Ok::<Seq<usize>, BackendErrorModel>(chosen@),
            variants@.len() == i,
            forall|j: int| 0 <= j < i ==> (#[trigger] variants@[j]).position() == chosen@[j],
            forall|j: int| 0 <= j < i ==> (#[trigger] chosen@[j]) < E::count(),
        decreases chosen@.len() - i,
    {
        match E::from_index(chosen[i]) {
            Some(v) => {
                variants.push(v);
            },
            None => {
                assert(!(chosen@[i as int] < E::count()));
                return Err(
                    BackendError::Answer(
                        AnswerError::TypeMismatch {
                            key: key.to_owned(),
                            expected: "ChosenVariants",
                        },
                    ),
                );
            },
        }
        i += 1;
    }
    Ok(variants)
}

/// The positions of `variants`, to be stored as the answer of a multi-select.
pub fn choices_value<E: Choice>(variants: &Vec<E>) -> (r: AnswerValue)
    ensures
        r@ matches Value::Chosen(chosen) && all_known::<E>(chosen) && chosen_exactly(
            variants@,
            chosen,
        ),
{
    let mut chosen: Vec<usize> = Vec::new();
    let mut i: usize = 0;
    while i < variants.len()
        invariant
            i <= variants@.len(),
            chosen@.len() == i,
            forall|j: int| 0 <= j < i ==> (#[trigger] variants@[j]).position() == chosen@[j],
            forall|j: int| 0 <= j < i ==> (#[trigger] chosen@[j]) < E::count(),
        decreases variants@.len() - i,
    {
        chosen.push(variants[i].index());
        i += 1;
    }
    AnswerValue::ChosenVariants(chosen)
}

} // verus!
