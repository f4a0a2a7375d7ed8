//! Answer values and the path-keyed store that collects them.

use vstd::prelude::*;
use crate::text::str_eq;

verus! {

/// What an answer value is, as mathematics: the model that contracts speak of.
pub ghost enum Value {
    Text(Seq<char>),
    Int(i64),
    /// The bits of a 64-bit float.
    Float(u64),
    Bool(bool),
    Path(Seq<char>),
    List(Seq<Value>),
    Chosen(Seq<usize>),
    Nested(Map<Seq<char>, Value>),
}

/// A single answer value.
#[derive(Debug)]
pub enum AnswerValue {
    String(String),
    Int(i64),
    /// A 64-bit float, held as its bits.
    Float(u64),
    Bool(bool),
    /// A filesystem path, held as text.
    Path(String),
    List(Vec<AnswerValue>),
    /// The indices of the variants chosen in a multi-select.
    ChosenVariants(Vec<usize>),
    Nested(Box<Answers>),
}

/// The answers collected from an interview: a map from path text to value.
///
/// The entries stand in a vector, no key twice. A value may hold answers in
/// turn, which the hash maps of vstd refuse for their values, and answers are
/// printed, copied and merged entry by entry, which those maps do not offer.
#[derive(Debug)]
pub struct Answers {
    values: Vec<(String, AnswerValue)>,
}

impl AnswerValue {
    pub open spec fn model(&self) -> Value
        decreases self,
    {
        match self {
            AnswerValue::String(s) => Value::Text(s@),
            AnswerValue::Int(i) => Value::Int(*i),
            AnswerValue::Float(b) => Value::Float(*b),
            AnswerValue::Bool(b) => Value::Bool(*b),
            AnswerValue::Path(p) => Value::Path(p@),
            AnswerValue::List(v) => Value::List(
                Seq::new(
                    v@.len(),
                    |i: int|
                        if 0 <= i < v@.len() {
                            v@[i].model()
                        } else {
                            Value::Bool(false)
                        },
                ),
            ),
            AnswerValue::ChosenVariants(c) => Value::Chosen(c@),
            AnswerValue::Nested(a) => Value::Nested(a.model()),
        }
    }
}

impl AnswerValue {
    /// A copy of this value.
    pub fn duplicate(&self) -> (r: AnswerValue)
        ensures
            r@ == self@,
        decreases self,
    {
        match self {
            AnswerValue::String(s) => AnswerValue::String(s.clone()),
            AnswerValue::Int(i) => AnswerValue::Int(*i),
            AnswerValue::Float(b) => AnswerValue::Float(*b),
            AnswerValue::Bool(b) => AnswerValue::Bool(*b),
            AnswerValue::Path(p) => AnswerValue::Path(p.clone()),
            AnswerValue::List(v) => {
                let mut items: Vec<AnswerValue> = Vec::new();
                let mut i: usize = 0;
                while i < v.len()
                    invariant
                        *self == AnswerValue::List(*v),
                        i <= v@.len(),
                        items@.len() == i,
                        forall|j: int| 0 <= j < i ==> items@[j].model() == v@[j].model(),
                    decreases v@.len() - i,
                {
                    assert(decreases_to!(self => self->List_0));
                    items.push(v[i].duplicate());
                    i += 1;
                }
                let r = AnswerValue::List(items);
                assert(r.model()->List_0 =~= self.model()->List_0);
                r
            },
            AnswerValue::ChosenVariants(c) => {
                let mut items: Vec<usize> = Vec::new();
                let mut i: usize = 0;
                while i < c.len()
                    invariant
                        i <= c@.len(),
                        items@ == c@.take(i as int),
                    decreases c@.len() - i,
                {
                    items.push(c[i]);
                    i += 1;
                }
                assert(items@ =~= c@);
                AnswerValue::ChosenVariants(items)
            },
            AnswerValue::Nested(a) => AnswerValue::Nested(Box::new(a.duplicate())),
        }
    }
}

impl View for AnswerValue {
    type V = Value;

    open spec fn view(&self) -> Value {
        self.model()
    }
}

impl Answers {
    #[verifier::type_invariant]
    spec fn keys_distinct(&self) -> bool {
        forall|i: int, j: int|
            0 <= i < j < self.values@.len() ==> self.values@[i].0@ != self.values@[j].0@
    }

    spec fn holds_at(&self, k: Seq<char>, i: int) -> bool {
        0 <= i < self.values@.len() && self.values@[i].0@ == k
    }

    spec fn place_of(&self, k: Seq<char>) -> int {
        choose|i: int| self.holds_at(k, i)
    }

    pub closed spec fn model(&self) -> Map<Seq<char>, Value>
        decreases self,
    {
        Map::new(
            |k: Seq<char>| exists|i: int| self.holds_at(k, i),
            |k: Seq<char>|
                if exists|i: int| self.holds_at(k, i) {
                    self.values@[self.place_of(k)].1.model()
                } else {
                    Value::Bool(false)
                },
        )
    }

    proof fn lemma_place(&self, k: Seq<char>, i: int)
        requires
            self.keys_distinct(),
            self.holds_at(k, i),
        ensures
            self.place_of(k) == i,
            self.model().contains_key(k),
            self.model()[k] == self.values@[i].1.model(),
    {
        let p = self.place_of(k);
        assert(self.holds_at(k, p));
        if p < i {
            assert(self.values@[p].0@ != self.values@[i].0@);
        }
        if i < p {
            assert(self.values@[i].0@ != self.values@[p].0@);
        }
    }

    proof fn lemma_absent(&self, k: Seq<char>)
        requires
            forall|i: int| 0 <= i < self.values@.len() ==> self.values@[i].0@ != k,
        ensures
            !self.model().contains_key(k),
    {
        assert forall|i: int| !self.holds_at(k, i) by {}
    }

    proof fn lemma_present(&self, k: Seq<char>) -> (i: int)
        requires
            self.keys_distinct(),
            self.model().contains_key(k),
        ensures
            self.holds_at(k, i),
            self.model()[k] == self.values@[i].1.model(),
    {
        let i = choose|i: int| self.holds_at(k, i);
        self.lemma_place(k, i);
        i
    }

    proof fn lemma_model_is(&self, m: Map<Seq<char>, Value>)
        requires
            self.keys_distinct(),
            forall|i: int|
                0 <= i < self.values@.len() ==> m.contains_key(#[trigger] self.values@[i].0@)
                    && m[self.values@[i].0@] == self.values@[i].1.model(),
            forall|k: Seq<char>| #[trigger]
                m.contains_key(k) ==> exists|i: int| self.holds_at(k, i),
        ensures
            self.model() == m,
    {
        assert forall|k: Seq<char>| #[trigger] self.model().dom().contains(k) implies m.dom().contains(
            k,
        ) by {
            let i = self.lemma_present(k);
        }
        assert forall|k: Seq<char>| #[trigger] m.dom().contains(k) implies self.model().dom().contains(
            k,
        ) by {
            assert(m.contains_key(k));
            let i = choose|i: int| self.holds_at(k, i);
            self.lemma_place(k, i);
        }
        assert forall|k: Seq<char>| #[trigger] self.model().dom().contains(k) implies self.model()[k]
            == m[k] by {
            let i = self.lemma_present(k);
        }
        assert(self.model() =~= m);
    }

    /// An empty store.
    pub fn new() -> (r: Self)
        ensures
            r@ == Map::<Seq<char>, Value>::empty(),
    {
        let r = Answers { values: Vec::new() };
        proof {
            assert forall|k: Seq<char>| !r.model().contains_key(k) by {
                r.lemma_absent(k);
            }
            assert(r.model() =~= Map::<Seq<char>, Value>::empty());
        }
        r
    }

    fn position(&self, key: &str) -> (r: Option<usize>)
        ensures
            match r {
                Some(i) => self.holds_at(key@, i as int),
                None => forall|i: int| 0 <= i < self.values@.len() ==> self.values@[i].0@ != key@,
            },
    {
        let mut i: usize = 0;
        while i < self.values.len()
            invariant
                i <= self.values@.len(),
                forall|j: int| 0 <= j < i ==> self.values@[j].0@ != key@,
            decreases self.values@.len() - i,
        {
            if str_eq(self.values[i].0.as_str(), key) {
                return Some(i);
            }
            i += 1;
        }
        None
    }

    /// Whether a value is stored under `key`.
    pub fn contains_key(&self, key: &str) -> (r: bool)
        ensures
            r == self@.contains_key(key@),
    {
        proof {
            use_type_invariant(self);
        }
        match self.position(key) {
            Some(i) => {
                proof {
                    self.lemma_place(key@, i as int);
                }
                true
            },
            None => {
                proof {
                    self.lemma_absent(key@);
                }
                false
            },
        }
    }

    /// The number of stored values.
    pub fn len(&self) -> (r: usize)
        ensures
            r == self@.dom().len(),
            self@.dom().finite(),
    {
        proof {
            use_type_invariant(self);
            self.lemma_len(self.values@.len() as int);
            assert(self.keys_below(self.values@.len() as int) =~= self@.dom()) by {
                assert forall|k: Seq<char>| self@.dom().contains(k) implies self.keys_below(
                    self.values@.len() as int,
                ).contains(k) by {
                    let i = self.lemma_present(k);
                }
                assert forall|k: Seq<char>|
                    self.keys_below(self.values@.len() as int).contains(k) implies self@.dom().contains(
                    k,
                ) by {
                    let i = choose|i: int| 0 <= i < self.values@.len() && self.holds_at(k, i);
                    self.lemma_place(k, i);
                }
            }
        }
        self.values.len()
    }

    spec fn keys_below(&self, n: int) -> Set<Seq<char>> {
        Set::new(|k: Seq<char>| exists|i: int| 0 <= i < n && self.holds_at(k, i))
    }

    proof fn lemma_len(&self, n: int)
        requires
            self.keys_distinct(),
            0 <= n <= self.values@.len(),
        ensures
            self.keys_below(n).finite(),
            self.keys_below(n).len() == n,
        decreases n,
    {
        if n == 0 {
            assert(self.keys_below(0) =~= Set::<Seq<char>>::empty());
        } else {
            self.lemma_len(n - 1);
            let k = self.values@[n - 1].0@;
            assert(self.holds_at(k, n - 1));
            assert(!self.keys_below(n - 1).contains(k)) by {
                if self.keys_below(n - 1).contains(k) {
                    let i = choose|i: int| 0 <= i < n - 1 && self.holds_at(k, i);
                    assert(self.values@[i].0@ != self.values@[n - 1].0@);
                }
            }
            assert(self.keys_below(n) =~= self.keys_below(n - 1).insert(k)) by {
                assert forall|q: Seq<char>| self.keys_below(n).contains(q) implies self.keys_below(
                    n - 1,
                ).insert(k).contains(q) by {
                    let i = choose|i: int| 0 <= i < n && self.holds_at(q, i);
                    if i < n - 1 {
                        assert(self.holds_at(q, i));
                    }
                }
                assert forall|q: Seq<char>|
                    self.keys_below(n - 1).insert(k).contains(q) implies self.keys_below(
                    n,
                ).contains(q) by {
                    if q == k {
                        assert(self.holds_at(q, n - 1));
                    } else {
                        let i = choose|i: int| 0 <= i < n - 1 && self.holds_at(q, i);
                        assert(self.holds_at(q, i));
                    }
                }
            }
        }
    }

    /// Stores `value` under `key`, replacing what was stored there.
    pub fn insert(&mut self, key: String, value: AnswerValue)
        ensures
            final(self)@ == old(self)@.insert(key@, value@),
    {
        proof {
            use_type_invariant(&*self);
        }
        let ghost before = *self;
        let ghost target = before.model().insert(key@, value@);
        let found = self.position(key.as_str());
        let mut values: Vec<(String, AnswerValue)> = Vec::new();
        std::mem::swap(&mut self.values, &mut values);
        match found {
            Some(i) => {
                values[i] = (key, value);
            },
            None => {
                values.push((key, value));
            },
        }
        proof {
            assert forall|j: int| 0 <= j < values@.len() implies target.contains_key(
                #[trigger] values@[j].0@,
            ) && target[values@[j].0@] == values@[j].1.model() by {
                if values@[j].0@ != key@ {
                    before.lemma_place(values@[j].0@, j);
                }
            }
            assert forall|k: Seq<char>| #[trigger] target.contains_key(k) implies exists|j: int|
                0 <= j < values@.len() && values@[j].0@ == k by {
                if k == key@ {
                    let j = match found {
                        Some(i) => i as int,
                        None => values@.len() - 1,
                    };
                    assert(values@[j].0@ == k);
                } else {
                    let j = before.lemma_present(k);
                    assert(values@[j].0@ == k);
                }
            }
        }
        std::mem::swap(&mut self.values, &mut values);
        proof {
            assert forall|k: Seq<char>| #[trigger] target.contains_key(k) implies exists|j: int|
                self.holds_at(k, j) by {
                let j = choose|j: int| 0 <= j < self.values@.len() && self.values@[j].0@ == k;
                assert(self.holds_at(k, j));
            }
            self.lemma_model_is(target);
        }
    }

    /// The value stored under `key`, if any.
    pub fn get(&self, key: &str) -> (r: Option<&AnswerValue>)
        ensures
            match r {
                Some(v) => self@.contains_key(key@) && v@ == self@[key@],
                None => !self@.contains_key(key@),
            },
    {
        proof {
            use_type_invariant(self);
        }
        match self.position(key) {
            Some(i) => {
                proof {
                    self.lemma_place(key@, i as int);
                }
                Some(&self.values[i].1)
            },
            None => {
                proof {
                    self.lemma_absent(key@);
                }
                None
            },
        }
    }

    /// A copy of this store.
    pub fn duplicate(&self) -> (r: Answers)
        ensures
            r@ == self@,
        decreases self,
    {
        proof {
            use_type_invariant(self);
        }
        let mut values: Vec<(String, AnswerValue)> = Vec::new();
        let mut i: usize = 0;
        while i < self.values.len()
            invariant
                i <= self.values@.len(),
                values@.len() == i,
                forall|j: int|
                    0 <= j < i ==> values@[j].0@ == self.values@[j].0@ && values@[j].1.model()
                        == self.values@[j].1.model(),
            decreases self.values@.len() - i,
        {
            let key = self.values[i].0.clone();
            let value = self.values[i].1.duplicate();
            values.push((key, value));
            i += 1;
        }
        let r = Answers { values };
        proof {
            assert forall|j: int| 0 <= j < r.values@.len() implies self.model().contains_key(
                #[trigger] r.values@[j].0@,
            ) && self.model()[r.values@[j].0@] == r.values@[j].1.model() by {
                self.lemma_place(self.values@[j].0@, j);
            }
            assert forall|k: Seq<char>| #[trigger] self.model().contains_key(k) implies exists|
                j: int,
            | r.holds_at(k, j) by {
                let j = self.lemma_present(k);
                assert(r.holds_at(k, j));
            }
            r.lemma_model_is(self.model());
        }
        r
    }

    /// Whether nothing is stored.
    pub fn is_empty(&self) -> (r: bool)
        ensures
            r == (self@ == Map::<Seq<char>, Value>::empty()),
    {
        proof {
            use_type_invariant(self);
            if self.values@.len() > 0 {
                self.lemma_place(self.values@[0].0@, 0);
            } else {
                assert forall|k: Seq<char>| !self.model().contains_key(k) by {
                    self.lemma_absent(k);
                }
                assert(self.model() =~= Map::<Seq<char>, Value>::empty());
            }
        }
        self.values.len() == 0
    }

    /// Adds every entry of `other`; where both hold a key, `other`'s value stays.
    pub fn merge(&mut self, other: Answers)
        ensures
            final(self)@ == old(self)@.union_prefer_right(other@),
    {
        proof {
            use_type_invariant(&other);
        }
        let ghost start = self@;
        let ghost entries = other.values@;
        let mut rest = other.values;
        while rest.len() > 0
            invariant
                rest@ == entries.take(rest@.len() as int),
                rest@.len() <= entries.len(),
                forall|i: int, j: int|
                    0 <= i < j < entries.len() ==> entries[i].0@ != entries[j].0@,
                forall|k: Seq<char>| #[trigger]
                    self@.contains_key(k) <==> start.contains_key(k) || exists|i: int|
                        rest@.len() <= i < entries.len() && entries[i].0@ == k,
                forall|i: int|
                    rest@.len() <= i < entries.len() ==> self@[#[trigger] entries[i].0@]
                        == entries[i].1.model(),
                forall|k: Seq<char>| #[trigger]
                    start.contains_key(k) && !(exists|i: int|
                        rest@.len() <= i < entries.len() && entries[i].0@ == k) ==> self@[k]
                        == start[k],
            decreases rest@.len(),
        {
            let ghost before = self@;
            let ghost n = rest@.len() - 1;
            let last = rest.pop();
            match last {
                Some((key, value)) => {
                    assert(key@ == entries[n].0@ && value.model() == entries[n].1.model());
                    self.insert(key, value);
                    proof {
                        assert forall|k: Seq<char>| #[trigger]
                            self@.contains_key(k) <==> start.contains_key(k) || exists|i: int|
                                n <= i < entries.len() && entries[i].0@ == k by {
                            if before.contains_key(k) && !start.contains_key(k) {
                                let i = choose|i: int|
                                    n + 1 <= i < entries.len() && entries[i].0@ == k;
                                assert(n <= i < entries.len() && entries[i].0@ == k);
                            }
                        }
                    }
                },
                None => {},
            }
        }
        proof {
            let target = start.union_prefer_right(other@);
            assert forall|k: Seq<char>| #[trigger]
                other@.contains_key(k) <==> exists|i: int|
                    0 <= i < entries.len() && entries[i].0@ == k by {
                if other@.contains_key(k) {
                    let i = other.lemma_present(k);
                }
                if exists|i: int| 0 <= i < entries.len() && entries[i].0@ == k {
                    let i = choose|i: int| 0 <= i < entries.len() && entries[i].0@ == k;
                    other.lemma_place(k, i);
                }
            }
            assert forall|k: Seq<char>| #[trigger] self@.contains_key(k) implies self@[k]
                == target[k] by {
                if other@.contains_key(k) {
                    let i = other.lemma_present(k);
                }
            }
            assert(self@ =~= target);
        }
    }

    /// The text stored under `key`.
    pub fn as_string(&self, key: &str) -> (r: Result<String, AnswerError>)
        ensures
            match r {
                Ok(s) => self@.contains_key(key@) && self@[key@] == Value::Text(s@),
                Err(e) => !(self@.contains_key(key@) && self@[key@] is Text) && e.explains(
                    self@,
                    key@,
                    "String"@,
                ),
            },
    {
        match self.get(key) {
            Some(AnswerValue::String(s)) => Ok(s.clone()),
            Some(_) => Err(AnswerError::TypeMismatch { key: key.to_owned(), expected: "String" }),
            None => Err(AnswerError::MissingKey(key.to_owned())),
        }
    }

    /// The integer stored under `key`.
    pub fn as_int(&self, key: &str) -> (r: Result<i64, AnswerError>)
        ensures
            match r {
                Ok(i) => self@.contains_key(key@) && self@[key@] == Value::Int(i),
                Err(e) => !(self@.contains_key(key@) && self@[key@] is Int) && e.explains(
                    self@,
                    key@,
                    "Int"@,
                ),
            },
    {
        match self.get(key) {
            Some(AnswerValue::Int(i)) => Ok(*i),
            Some(_) => Err(AnswerError::TypeMismatch { key: key.to_owned(), expected: "Int" }),
            None => Err(AnswerError::MissingKey(key.to_owned())),
        }
    }

    /// The float stored under `key`, as its bits.
    pub fn as_float(&self, key: &str) -> (r: Result<u64, AnswerError>)
        ensures
            match r {
                Ok(b) => self@.contains_key(key@) && self@[key@] == Value::Float(b),
                Err(e) => !(self@.contains_key(key@) && self@[key@] is Float) && e.explains(
                    self@,
                    key@,
                    "Float"@,
                ),
            },
    {
        match self.get(key) {
            Some(AnswerValue::Float(b)) => Ok(*b),
            Some(_) => Err(AnswerError::TypeMismatch { key: key.to_owned(), expected: "Float" }),
            None => Err(AnswerError::MissingKey(key.to_owned())),
        }
    }

    /// The truth value stored under `key`.
    pub fn as_bool(&self, key: &str) -> (r: Result<bool, AnswerError>)
        ensures
            match r {
                Ok(b) => self@.contains_key(key@) && self@[key@] == Value::Bool(b),
                Err(e) => !(self@.contains_key(key@) && self@[key@] is Bool) && e.explains(
                    self@,
                    key@,
                    "Bool"@,
                ),
            },
    {
        match self.get(key) {
            Some(AnswerValue::Bool(b)) => Ok(*b),
            Some(_) => Err(AnswerError::TypeMismatch { key: key.to_owned(), expected: "Bool" }),
            None => Err(AnswerError::MissingKey(key.to_owned())),
        }
    }

    /// The filesystem path stored under `key`, as text.
    pub fn as_path(&self, key: &str) -> (r: Result<String, AnswerError>)
        ensures
            match r {
                Ok(s) => self@.contains_key(key@) && self@[key@] == Value::Path(s@),
                Err(e) => !(self@.contains_key(key@) && self@[key@] is Path) && e.explains(
                    self@,
                    key@,
                    "Path"@,
                ),
            },
    {
        match self.get(key) {
            Some(AnswerValue::Path(s)) => Ok(s.clone()),
            Some(_) => Err(AnswerError::TypeMismatch { key: key.to_owned(), expected: "Path" }),
            None => Err(AnswerError::MissingKey(key.to_owned())),
        }
    }

    /// The list stored under `key`.
    pub fn as_list(&self, key: &str) -> (r: Result<&Vec<AnswerValue>, AnswerError>)
        ensures
            match r {
                Ok(v) => self@.contains_key(key@) && self@[key@] == AnswerValue::List(*v)@,
                Err(e) => !(self@.contains_key(key@) && self@[key@] is List) && e.explains(
                    self@,
                    key@,
                    "List"@,
                ),
            },
    {
        match self.get(key) {
            Some(AnswerValue::List(v)) => Ok(v),
            Some(_) => Err(AnswerError::TypeMismatch { key: key.to_owned(), expected: "List" }),
            None => Err(AnswerError::MissingKey(key.to_owned())),
        }
    }

    /// The variant indices stored under `key`.
    pub fn as_chosen_variants(&self, key: &str) -> (r: Result<&Vec<usize>, AnswerError>)
        ensures
            match r {
                Ok(c) => self@.contains_key(key@) && self@[key@] == Value::Chosen(c@),
                Err(e) => !(self@.contains_key(key@) && self@[key@] is Chosen) && e.explains(
                    self@,
                    key@,
                    "ChosenVariants"@,
                ),
            },
    {
        match self.get(key) {
            Some(AnswerValue::ChosenVariants(c)) => Ok(c),
            Some(_) => Err(
                AnswerError::TypeMismatch { key: key.to_owned(), expected: "ChosenVariants" },
            ),
            None => Err(AnswerError::MissingKey(key.to_owned())),
        }
    }

    /// The nested store under `key`.
    pub fn as_nested(&self, key: &str) -> (r: Result<&Answers, AnswerError>)
        ensures
            match r {
                Ok(a) => self@.contains_key(key@) && self@[key@] == Value::Nested(a@),
                Err(e) => !(self@.contains_key(key@) && self@[key@] is Nested) && e.explains(
                    self@,
                    key@,
                    "Nested"@,
                ),
            },
    {
        match self.get(key) {
            Some(AnswerValue::Nested(nested)) => Ok(nested),
            Some(_) => Err(AnswerError::TypeMismatch { key: key.to_owned(), expected: "Nested" }),
            None => Err(AnswerError::MissingKey(key.to_owned())),
        }
    }
}

/// Why a typed lookup in the answers failed.
#[derive(Debug)]
pub enum AnswerError {
    /// Nothing is stored under the key.
    MissingKey(String),
    /// The value under the key is of another kind than the one asked for.
    TypeMismatch { key: String, expected: &'static str },
}

/// What a failed lookup is, as mathematics.
pub ghost enum AnswerErrorModel {
    MissingKey(Seq<char>),
    TypeMismatch { key: Seq<char>, expected: Seq<char> },
}

impl View for AnswerError {
    type V = AnswerErrorModel;

    open spec fn view(&self) -> AnswerErrorModel {
        match self {
            AnswerError::MissingKey(k) => AnswerErrorModel::MissingKey(k@),
            AnswerError::TypeMismatch { key, expected } => AnswerErrorModel::TypeMismatch {
                key: key@,
                expected: expected@,
            },
        }
    }
}

impl AnswerErrorModel {
    /// The text of this error.
    pub open spec fn message(self) -> Seq<char> {
        match self {
            AnswerErrorModel::MissingKey(k) => "Missing key: "@ + k,
            AnswerErrorModel::TypeMismatch { key, expected } => "Type mismatch for key '"@ + key
                + "': expected "@ + expected,
        }
    }
}

impl AnswerError {
    /// The text of this error.
    pub fn message(&self) -> (r: String)
        ensures
            r@ == self@.message(),
    {
        match self {
            AnswerError::MissingKey(k) => {
                let mut r = "Missing key: ".to_owned();
                r.append(k.as_str());
                r
            },
            AnswerError::TypeMismatch { key, expected } => {
                let mut r = "Type mismatch for key '".to_owned();
                r.append(key.as_str());
                r.append("': expected ");
                r.append(expected);
                r
            },
        }
    }

    /// Whether this is the error that a lookup of `key` for a value of kind
    /// `expected` gives in `m`, given that the lookup fails.
    pub open spec fn explains(&self, m: Map<Seq<char>, Value>, key: Seq<char>, expected: Seq<char>) -> bool {
        match self {
            AnswerError::MissingKey(k) => !m.contains_key(key) && k@ == key,
            AnswerError::TypeMismatch { key: k, expected: e } => m.contains_key(key) && k@ == key
                && e@ == expected,
        }
    }
}

impl View for Answers {
    type V = Map<Seq<char>, Value>;

    open spec fn view(&self) -> Map<Seq<char>, Value> {
        self.model()
    }
}

} // verus!
