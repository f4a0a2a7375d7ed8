//! Selections among the variants of a type, where a variant may carry
//! answers of its own. Of several variants chosen at once, the positions
//! stand under the key of the field; of a single one, the name stands under
//! the key of the choice. What a variant carries stands under keys in the
//! scope of the field.

use vstd::prelude::*;
use crate::answer::{AnswerError, AnswerErrorModel, AnswerValue, Answers, Value};
use crate::backend::{BackendError, BackendErrorModel};
use crate::reconstruct::{
    choice_key, choice_key_of, chosen_in, lemma_key_outside_scope, read_text, text_in, unknown, unknown_variant,
};
use crate::text::scoped;

verus! {

/// A type whose values are the variants of a selection. A variant is known
/// by its position, and may carry answers of its own.
pub trait Selectable: Sized + View {
    /// The number of variants.
    spec fn count() -> usize;

    /// The position of this variant.
    spec fn position(&self) -> usize;

    /// The answers in `base`, with those that this variant carries in `scope`.
    spec fn carried_onto(&self, base: Map<Seq<char>, Value>, scope: Seq<char>) -> Map<
        Seq<char>,
        Value,
    >;

    /// The variant at `position`, with what the answers carry for it in
    /// `scope`.
    spec fn carried_at(answers: Map<Seq<char>, Value>, scope: Seq<char>, position: usize) -> Result<
        Self::V,
        BackendErrorModel,
    >;

    /// The name of the variant at `position`.
    spec fn name_at(position: usize) -> Seq<char>;

    /// The position of the variant called `name`, if there is one.
    spec fn position_named(name: Seq<char>) -> Option<usize>;

    /// What the type is called where a name belongs to none of its variants.
    spec fn called() -> Seq<char>;

    /// The name of this variant.
    fn name(&self) -> (r: &'static str)
        ensures
            r@ == Self::name_at(self.position()),
    ;

    /// The position of the variant called `name`, if there is one.
    fn named(name: &str) -> (r: Option<usize>)
        ensures
            r == Self::position_named(name@),
            r matches Some(p) ==> p < Self::count(),
    ;

    /// What the type is called where a name belongs to none of its variants.
    fn known_as() -> (r: &'static str)
        ensures
            r@ == Self::called(),
    ;

    /// The position of this variant.
    fn index(&self) -> (r: usize)
        ensures
            r == self.position(),
            r < Self::count(),
    ;

    /// Whether a variant stands at `position`.
    fn known(position: usize) -> (r: bool)
        ensures
            r == (position < Self::count()),
    ;

    /// Adds the answers that this variant carries in `scope`.
    fn write_in(&self, answers: &mut Answers, scope: &str)
        ensures
            final(answers)@ == self.carried_onto(old(answers)@, scope@),
    ;

    /// Reads the variant at `position`, with what the answers carry for it in
    /// `scope`.
    fn read_at(answers: &Answers, scope: &str, position: usize) -> (r: Result<Self, BackendError>)
        requires
            position < Self::count(),
        ensures
            match r {
                Ok(v) => Self::carried_at(answers@, scope@, position) == Ok::<
                    Self::V,
                    BackendErrorModel,
                >(v@),
                Err(e) => Self::carried_at(answers@, scope@, position) == Err::<
                    Self::V,
                    BackendErrorModel,
                >(e@),
            },
    ;

    /// Every variant stands at a position below the number of variants.
    proof fn lemma_position_known(&self)
        ensures
            self.position() < Self::count(),
    ;

    /// What a variant wrote is read back at its position.
    proof fn lemma_reads_back(&self, base: Map<Seq<char>, Value>, scope: Seq<char>)
        ensures
            Self::carried_at(self.carried_onto(base, scope), scope, self.position()) == Ok::<
                Self::V,
                BackendErrorModel,
            >(self@),
    ;

    /// What a variant wrote changes nothing of what is read at another
    /// position.
    proof fn lemma_others_stay(&self, base: Map<Seq<char>, Value>, scope: Seq<char>, position: usize)
        requires
            position != self.position(),
        ensures
            Self::carried_at(self.carried_onto(base, scope), scope, position) == Self::carried_at(
                base,
                scope,
                position,
            ),
    ;

    /// Writing in a scope changes nothing under a key outside the scope.
    proof fn lemma_writes_in_scope(&self, base: Map<Seq<char>, Value>, scope: Seq<char>, key: Seq<char>)
        requires
            forall|name: Seq<char>| key != #[trigger] scoped(scope, name),
        ensures
            self.carried_onto(base, scope).contains_key(key) == base.contains_key(key),
            self.carried_onto(base, scope)[key] == base[key],
    ;

    /// Every variant is found again by its name.
    proof fn lemma_found_by_name(&self)
        ensures
            Self::position_named(Self::name_at(self.position())) == Some(self.position()),
    ;

    /// What is read at a position does not depend on the name of a choice.
    proof fn lemma_reads_beside_choice(
        base: Map<Seq<char>, Value>,
        scope: Seq<char>,
        position: usize,
        chosen: Value,
    )
        ensures
            Self::carried_at(base.insert(choice_key(scope), chosen), scope, position)
                == Self::carried_at(base, scope, position),
    ;

    /// What is read in a scope depends on the answers of the scope alone.
    proof fn lemma_reads_in_scope(
        a: Map<Seq<char>, Value>,
        b: Map<Seq<char>, Value>,
        scope: Seq<char>,
        position: usize,
    )
        requires
            forall|name: Seq<char>|
                a.contains_key(#[trigger] scoped(scope, name)) == b.contains_key(scoped(scope, name))
                    && a[scoped(scope, name)] == b[scoped(scope, name)],
        ensures
            Self::carried_at(a, scope, position) == Self::carried_at(b, scope, position),
    ;
}

/// The answers in `base`, with those that spell the choice of `item` in
/// `scope`: what the variant carries, then its name.
pub open spec fn chosen_onto<E: Selectable>(item: E, base: Map<Seq<char>, Value>, scope: Seq<char>) -> Map<
    Seq<char>,
    Value,
> {
    item.carried_onto(base, scope).insert(
        choice_key(scope),
        Value::Text(E::name_at(item.position())),
    )
}

/// The variant that the answers choose in `scope`, with what they carry for
/// it.
pub open spec fn chosen_from<E: Selectable>(answers: Map<Seq<char>, Value>, scope: Seq<char>) -> Result<
    E::V,
    BackendErrorModel,
> {
    match text_in(answers, choice_key(scope)) {
        Err(e) => Err(e),
        Ok(name) => match E::position_named(name) {
            Some(position) => E::carried_at(answers, scope, position),
            None => Err(unknown_variant(scope, E::called())),
        },
    }
}

/// Adds the answers that spell the choice of `item` in `scope`.
pub fn write_choice<E: Selectable>(item: &E, answers: &mut Answers, scope: &str)
    ensures
        final(answers)@ == chosen_onto(*item, old(answers)@, scope@),
{
    item.write_in(answers, scope);
    answers.insert(choice_key_of(scope), AnswerValue::String(item.name().to_owned()));
}

/// Reads the variant that the answers choose in `scope`.
pub fn read_choice<E: Selectable>(answers: &Answers, scope: &str) -> (r: Result<E, BackendError>)
    ensures
        match r {
            Ok(v) => chosen_from::<E>(answers@, scope@) == Ok::<E::V, BackendErrorModel>(v@),
            Err(e) => chosen_from::<E>(answers@, scope@) == Err::<E::V, BackendErrorModel>(e@),
        },
{
    let name = match read_text(answers, choice_key_of(scope).as_str()) {
        Ok(name) => name,
        Err(e) => {
            return Err(e);
        },
    };
    match E::named(name.as_str()) {
        Some(position) => E::read_at(answers, scope, position),
        None => Err(unknown(scope, E::known_as())),
    }
}

/// A choice reconstructs as it was made: the chosen variant, with what it
/// carried.
pub proof fn lemma_choice_reads_back<E: Selectable>(item: E, base: Map<Seq<char>, Value>, scope: Seq<char>)
    ensures
        chosen_from::<E>(chosen_onto(item, base, scope), scope) == Ok::<E::V, BackendErrorModel>(
            item@,
        ),
{
    item.lemma_found_by_name();
    E::lemma_reads_beside_choice(
        item.carried_onto(base, scope),
        scope,
        item.position(),
        Value::Text(E::name_at(item.position())),
    );
    item.lemma_reads_back(base, scope);
}

/// The positions of `items`, in their order.
pub open spec fn positions<E: Selectable>(items: Seq<E>) -> Seq<usize> {
    Seq::new(items.len(), |i: int| items[i].position())
}

/// What `items` are, as mathematics.
pub open spec fn views<E: Selectable>(items: Seq<E>) -> Seq<E::V> {
    Seq::new(items.len(), |i: int| items[i]@)
}

/// Whether no position occurs twice in `chosen`.
pub open spec fn distinct(chosen: Seq<usize>) -> bool {
    forall|i: int, j: int| 0 <= i < j < chosen.len() ==> chosen[i] != chosen[j]
}

/// Whether every chosen position is the position of a variant of `E`.
pub open spec fn all_stand<E: Selectable>(chosen: Seq<usize>) -> bool {
    forall|i: int| 0 <= i < chosen.len() ==> (#[trigger] chosen[i]) < E::count()
}

/// Whether `items` can be selected together: no variant occurs twice.
pub open spec fn selectable_together<E: Selectable>(items: Seq<E>) -> bool {
    distinct(positions(items))
}

/// The answers in `base`, with those that the first `n` of `items` carry in
/// `scope`, written in their order.
pub open spec fn carried_all<E: Selectable>(
    items: Seq<E>,
    base: Map<Seq<char>, Value>,
    scope: Seq<char>,
    n: nat,
) -> Map<Seq<char>, Value>
    decreases n,
{
    if n == 0 {
        base
    } else {
        items[n - 1].carried_onto(carried_all(items, base, scope, (n - 1) as nat), scope)
    }
}

/// The answers in `base`, with those that spell the selection `items` under
/// `key`: what each variant carries, then the positions of all of them.
pub open spec fn selected_onto<E: Selectable>(items: Seq<E>, base: Map<Seq<char>, Value>, key: Seq<char>) -> Map<
    Seq<char>,
    Value,
> {
    carried_all(items, base, key, items.len()).insert(key, Value::Chosen(positions(items)))
}

/// The variants at the first `n` chosen positions, each with what the
/// answers carry for it in `scope`; the first failure otherwise.
pub open spec fn read_all<E: Selectable>(
    answers: Map<Seq<char>, Value>,
    scope: Seq<char>,
    chosen: Seq<usize>,
    n: nat,
) -> Result<Seq<E::V>, BackendErrorModel>
    decreases n,
{
    if n == 0 {
        Ok(Seq::empty())
    } else {
        match read_all::<E>(answers, scope, chosen, (n - 1) as nat) {
            Err(e) => Err(e),
            Ok(items) => match E::carried_at(answers, scope, chosen[n - 1]) {
                Err(e) => Err(e),
                Ok(v) => Ok(items.push(v)),
            },
        }
    }
}

/// The failure of a selection that names a position twice, or one at which
/// no variant stands.
pub open spec fn improper(key: Seq<char>) -> BackendErrorModel {
    BackendErrorModel::Answer(AnswerErrorModel::TypeMismatch { key, expected: "ChosenVariants"@ })
}

/// The selection that the answers spell under `key`: exactly the variants at
/// the chosen positions, in the order in which they were chosen, whatever
/// the other variants are.
pub open spec fn selected_in<E: Selectable>(answers: Map<Seq<char>, Value>, key: Seq<char>) -> Result<
    Seq<E::V>,
    BackendErrorModel,
> {
    match chosen_in(answers, key) {
        Err(e) => Err(e),
        Ok(chosen) => if all_stand::<E>(chosen) && distinct(chosen) {
            read_all::<E>(answers, key, chosen, chosen.len())
        } else {
            Err(improper(key))
        },
    }
}

/// Whether no position occurs twice in `chosen`.
pub fn is_distinct(chosen: &Vec<usize>) -> (r: bool)
    ensures
        r == distinct(chosen@),
{
    let mut j: usize = 0;
    while j < chosen.len()
        invariant
            j <= chosen@.len(),
            forall|a: int, b: int| 0 <= a < b < j ==> chosen@[a] != chosen@[b],
        decreases chosen@.len() - j,
    {
        let mut i: usize = 0;
        while i < j
            invariant
                i <= j < chosen@.len(),
                forall|a: int| 0 <= a < i ==> chosen@[a] != chosen@[j as int],
            decreases j - i,
        {
            if chosen[i] == chosen[j] {
                return false;
            }
            i += 1;
        }
        j += 1;
    }
    true
}

/// Whether a variant of `E` stands at every chosen position.
pub fn all_known<E: Selectable>(chosen: &Vec<usize>) -> (r: bool)
    ensures
        r == all_stand::<E>(chosen@),
{
    let mut i: usize = 0;
    while i < chosen.len()
        invariant
            i <= chosen@.len(),
            forall|a: int| 0 <= a < i ==> (#[trigger] chosen@[a]) < E::count(),
        decreases chosen@.len() - i,
    {
        if !E::known(chosen[i]) {
            return false;
        }
        i += 1;
    }
    true
}

/// Whether no variant occurs twice in `items`.
pub fn can_be_selected<E: Selectable>(items: &Vec<E>) -> (r: bool)
    ensures
        r == selectable_together(items@),
{
    let mut chosen: Vec<usize> = Vec::new();
    let mut i: usize = 0;
    while i < items.len()
        invariant
            i <= items@.len(),
            chosen@ =~= positions(items@).take(i as int),
        decreases items@.len() - i,
    {
        chosen.push(items[i].index());
        i += 1;
    }
    assert(chosen@ =~= positions(items@));
    is_distinct(&chosen)
}

/// Adds the answers that spell the selection `items` under `key`.
pub fn write_selection<E: Selectable>(items: &Vec<E>, answers: &mut Answers, key: &str)
    ensures
        final(answers)@ == selected_onto(items@, old(answers)@, key@),
{
    let ghost start = answers@;
    let mut chosen: Vec<usize> = Vec::new();
    let mut i: usize = 0;
    while i < items.len()
        invariant
            i <= items@.len(),
            chosen@ =~= positions(items@).take(i as int),
            answers@ == carried_all(items@, start, key@, i as nat),
        decreases items@.len() - i,
    {
        items[i].write_in(answers, key);
        chosen.push(items[i].index());
        i += 1;
    }
    assert(chosen@ =~= positions(items@));
    answers.insert(key.to_owned(), AnswerValue::ChosenVariants(chosen));
}

/// Reads the selection under `key`: a multi-select reconstructs to exactly
/// the chosen variants. A position named twice, or one at which no variant
/// stands, is a value of the wrong kind.
pub fn read_selection<E: Selectable>(answers: &Answers, key: &str) -> (r: Result<Vec<E>, BackendError>)
    ensures
        match r {
            Ok(items) => selected_in::<E>(answers@, key@) == Ok::<Seq<E::V>, BackendErrorModel>(
                views(items@),
            ),
            Err(e) => selected_in::<E>(answers@, key@) == Err::<Seq<E::V>, BackendErrorModel>(e@),
        },
{
    let chosen = match answers.as_chosen_variants(key) {
        Ok(c) => c,
        Err(e) => {
            return Err(BackendError::Answer(e));
        },
    };
    if !all_known::<E>(chosen) || !is_distinct(chosen) {
        return Err(
            BackendError::Answer(
                AnswerError::TypeMismatch { key: key.to_owned(), expected: "ChosenVariants" },
            ),
        );
    }
    let mut items: Vec<E> = Vec::new();
    let mut i: usize = 0;
    assert(views(items@) =~= Seq::<E::V>::empty());
    while i < chosen.len()
        invariant
            i <= chosen@.len(),
            all_stand::<E>(chosen@),
            distinct(chosen@),
            chosen_in(answers@, key@) == Ok::<Seq<usize>, BackendErrorModel>(chosen@),
            read_all::<E>(answers@, key@, chosen@, i as nat) == Ok::<Seq<E::V>, BackendErrorModel>(
                views(items@),
            ),
        decreases chosen@.len() - i,
    {
        match E::read_at(answers, key, chosen[i]) {
            Ok(v) => {
                assert(views(items@).push(v@) =~= views(items@.push(v)));
                items.push(v);
            },
            Err(e) => {
                proof {
                    assert(read_all::<E>(answers@, key@, chosen@, (i + 1) as nat) == Err::<
                        Seq<E::V>,
                        BackendErrorModel,
                    >(e@));
                    lemma_failure_stays::<E>(answers@, key@, chosen@, (i + 1) as nat, chosen@.len());
                }
                return Err(e);
            },
        }
        i += 1;
    }
    Ok(items)
}

/// A failure among the first `n` positions is the failure of any more.
pub proof fn lemma_failure_stays<E: Selectable>(
    answers: Map<Seq<char>, Value>,
    scope: Seq<char>,
    chosen: Seq<usize>,
    n: nat,
    m: nat,
)
    requires
        n <= m,
        read_all::<E>(answers, scope, chosen, n) is Err,
    ensures
        read_all::<E>(answers, scope, chosen, m) == read_all::<E>(answers, scope, chosen, n),
    decreases m,
{
    if n < m {
        lemma_failure_stays::<E>(answers, scope, chosen, n, (m - 1) as nat);
    }
}

/// What the first `n` variants wrote is read back at the position of each
/// of them, where no variant occurs twice.
pub proof fn lemma_carried_reads_back<E: Selectable>(
    items: Seq<E>,
    base: Map<Seq<char>, Value>,
    scope: Seq<char>,
    n: nat,
    i: int,
)
    requires
        selectable_together(items),
        0 <= i < n <= items.len(),
    ensures
        E::carried_at(carried_all(items, base, scope, n), scope, items[i].position()) == Ok::<
            E::V,
            BackendErrorModel,
        >(items[i]@),
    decreases n,
{
    let before = carried_all(items, base, scope, (n - 1) as nat);
    if i == n - 1 {
        items[i].lemma_reads_back(before, scope);
    } else {
        assert(positions(items)[i] != positions(items)[n - 1]);
        items[n - 1].lemma_others_stay(before, scope, items[i].position());
        lemma_carried_reads_back(items, base, scope, (n - 1) as nat, i);
    }
}

/// What the first `n` variants wrote in a scope changes nothing under a key
/// outside the scope.
pub proof fn lemma_carried_in_scope<E: Selectable>(
    items: Seq<E>,
    base: Map<Seq<char>, Value>,
    scope: Seq<char>,
    n: nat,
    key: Seq<char>,
)
    requires
        n <= items.len(),
        forall|name: Seq<char>| key != #[trigger] scoped(scope, name),
    ensures
        carried_all(items, base, scope, n).contains_key(key) == base.contains_key(key),
        carried_all(items, base, scope, n)[key] == base[key],
    decreases n,
{
    if n > 0 {
        lemma_carried_in_scope(items, base, scope, (n - 1) as nat, key);
        items[n - 1].lemma_writes_in_scope(carried_all(items, base, scope, (n - 1) as nat), scope, key);
    }
}

/// Reading the first `n` positions from answers under which each reads as
/// the variant of `items` at its place gives the first `n` of `items`.
pub proof fn lemma_reads_each<E: Selectable>(
    items: Seq<E>,
    answers: Map<Seq<char>, Value>,
    scope: Seq<char>,
    n: nat,
)
    requires
        n <= items.len(),
        forall|i: int|
            0 <= i < items.len() ==> E::carried_at(answers, scope, #[trigger] items[i].position())
                == Ok::<E::V, BackendErrorModel>(items[i]@),
    ensures
        read_all::<E>(answers, scope, positions(items), n) == Ok::<Seq<E::V>, BackendErrorModel>(
            views(items).take(n as int),
        ),
    decreases n,
{
    if n == 0 {
        assert(views(items).take(0) =~= Seq::<E::V>::empty());
    } else {
        lemma_reads_each(items, answers, scope, (n - 1) as nat);
        assert(positions(items)[n - 1] == items[n - 1].position());
        assert(views(items).take(n - 1).push(items[n - 1]@) =~= views(items).take(n as int));
    }
}

/// A selection in which no variant occurs twice reconstructs as it was
/// selected: exactly the chosen variants, each with what it carried.
pub proof fn lemma_selection_reads_back<E: Selectable>(
    items: Seq<E>,
    base: Map<Seq<char>, Value>,
    key: Seq<char>,
)
    requires
        selectable_together(items),
        key.len() > 0,
    ensures
        selected_in::<E>(selected_onto(items, base, key), key) == Ok::<
            Seq<E::V>,
            BackendErrorModel,
        >(views(items)),
{
    let carried = carried_all(items, base, key, items.len());
    let full = selected_onto(items, base, key);
    let chosen = positions(items);
    assert(chosen_in(full, key) == Ok::<Seq<usize>, BackendErrorModel>(chosen));
    assert forall|i: int| 0 <= i < chosen.len() implies (#[trigger] chosen[i]) < E::count() by {
        items[i].lemma_position_known();
    }
    assert forall|i: int| 0 <= i < items.len() implies E::carried_at(
        full,
        key,
        #[trigger] items[i].position(),
    ) == Ok::<E::V, BackendErrorModel>(items[i]@) by {
        assert forall|name: Seq<char>|
            full.contains_key(#[trigger] scoped(key, name)) == carried.contains_key(scoped(key, name))
                && full[scoped(key, name)] == carried[scoped(key, name)] by {
            lemma_key_outside_scope(key, key, name);
        }
        E::lemma_reads_in_scope(full, carried, key, items[i].position());
        lemma_carried_reads_back(items, base, key, items.len(), i);
    }
    lemma_reads_each(items, full, key, items.len());
    assert(views(items).take(items.len() as int) =~= views(items));
}

/// Whether `a` and `b` hold the same under every key that begins with
/// `first`.
pub open spec fn same_from(a: Map<Seq<char>, Value>, b: Map<Seq<char>, Value>, first: char) -> bool {
    forall|k: Seq<char>|
        #![trigger a.contains_key(k)]
        #![trigger b.contains_key(k)]
        k.len() > 0 && k[0] == first ==> a.contains_key(k) == b.contains_key(k) && a[k] == b[k]
}

/// Writing a selection changes nothing under a key that begins with another
/// character than the key of the selection.
pub proof fn lemma_selection_leaves<E: Selectable>(
    items: Seq<E>,
    base: Map<Seq<char>, Value>,
    key: Seq<char>,
    other: Seq<char>,
)
    requires
        key.len() > 0,
        other.len() > 0,
        other[0] != key[0],
    ensures
        selected_onto(items, base, key).contains_key(other) == base.contains_key(other),
        selected_onto(items, base, key)[other] == base[other],
{
    assert forall|name: Seq<char>| other != #[trigger] scoped(key, name) by {
        assert(scoped(key, name)[0] == key[0]);
    }
    lemma_carried_in_scope(items, base, key, items.len(), other);
}

/// What is read of a selection depends only on the answers under keys that
/// begin with the character that the key of the selection begins with.
pub proof fn lemma_selection_reads_same<E: Selectable>(
    a: Map<Seq<char>, Value>,
    b: Map<Seq<char>, Value>,
    key: Seq<char>,
)
    requires
        key.len() > 0,
        same_from(a, b, key[0]),
    ensures
        selected_in::<E>(a, key) == selected_in::<E>(b, key),
{
    assert(a.contains_key(key) == b.contains_key(key) && a[key] == b[key]);
    if chosen_in(a, key) is Ok {
        let chosen = chosen_in(a, key)->Ok_0;
        lemma_read_all_same::<E>(a, b, key, chosen, chosen.len());
    }
}

/// What is read at the first `n` positions depends on the answers of the
/// scope alone.
pub proof fn lemma_read_all_same<E: Selectable>(
    a: Map<Seq<char>, Value>,
    b: Map<Seq<char>, Value>,
    scope: Seq<char>,
    chosen: Seq<usize>,
    n: nat,
)
    requires
        scope.len() > 0,
        same_from(a, b, scope[0]),
    ensures
        read_all::<E>(a, scope, chosen, n) == read_all::<E>(b, scope, chosen, n),
    decreases n,
{
    if n > 0 {
        lemma_read_all_same::<E>(a, b, scope, chosen, (n - 1) as nat);
        assert forall|name: Seq<char>|
            a.contains_key(#[trigger] scoped(scope, name)) == b.contains_key(scoped(scope, name))
                && a[scoped(scope, name)] == b[scoped(scope, name)] by {
            assert(scoped(scope, name)[0] == scope[0]);
        }
        E::lemma_reads_in_scope(a, b, scope, chosen[n - 1]);
    }
}

/// Reading the first `n` positions gives `n` variants where it gives any.
pub proof fn lemma_read_length<E: Selectable>(
    answers: Map<Seq<char>, Value>,
    scope: Seq<char>,
    chosen: Seq<usize>,
    n: nat,
)
    requires
        read_all::<E>(answers, scope, chosen, n) is Ok,
    ensures
        read_all::<E>(answers, scope, chosen, n)->Ok_0.len() == n,
    decreases n,
{
    if n > 0 {
        lemma_read_length::<E>(answers, scope, chosen, (n - 1) as nat);
    }
}

/// Where reading the first `n` positions gives variants, the variant at
/// place `i` is the one read at the position chosen there.
pub proof fn lemma_read_each<E: Selectable>(
    answers: Map<Seq<char>, Value>,
    scope: Seq<char>,
    chosen: Seq<usize>,
    n: nat,
    i: int,
)
    requires
        0 <= i < n,
        read_all::<E>(answers, scope, chosen, n) is Ok,
    ensures
        E::carried_at(answers, scope, chosen[i]) == Ok::<E::V, BackendErrorModel>(
            read_all::<E>(answers, scope, chosen, n)->Ok_0[i],
        ),
    decreases n,
{
    lemma_read_length::<E>(answers, scope, chosen, (n - 1) as nat);
    if i < n - 1 {
        lemma_read_each::<E>(answers, scope, chosen, (n - 1) as nat, i);
    }
}

} // verus!
