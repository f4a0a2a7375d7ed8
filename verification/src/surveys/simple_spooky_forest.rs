//! A short adventure: a name, a role, and an inventory bought on a budget.

use vstd::prelude::*;
use crate::answer::{Answers, AnswerValue, Value};
use crate::backend::{BackendError, BackendErrorModel};
use crate::interview::{Alternative, AlternativeModel, Interview, SectionModel};
use crate::path::ResponsePath;
use crate::question::{ElementModel, ListElement, Question, QuestionModel};
use crate::reconstruct::{
    choice_key, int_in, lemma_scoped_apart, read_int, read_text, text_in, unknown, unknown_variant,
};
use crate::selection::{
    can_be_selected, chosen_from, chosen_onto, improper, lemma_choice_reads_back,
    lemma_selection_leaves, lemma_selection_reads_back, read_choice, read_selection, write_choice,
    selectable_together, selected_in, selected_onto, views, write_selection, Selectable,
};
use crate::text::{byte_len, byte_length, nat_to_text, scoped, scoped_key, str_eq, text_of_nat};
use crate::validation::objection_of;
use crate::wizard::Wizard;

use crate::SELECTED_ALTERNATIVE_KEY;

verus! {

/// The gold that an adventurer starts with.
pub const STARTING_BUDGET: u32 = 150;

/// What is said of a name: more than 2 and fewer than 100 bytes.
pub open spec fn name_objection(value: Value) -> Option<Seq<char>> {
    match value {
        Value::Text(name) => if byte_length(name) > 2 && byte_length(name) < 100 {
            None
        } else {
            Some("Name must be between 3 and 99 characters"@)
        },
        _ => None,
    }
}

pub fn is_valid_name(value: &AnswerValue, _responses: &Answers, _path: &ResponsePath) -> (r: Result<
    (),
    String,
>)
    ensures
        objection_of(r) == name_objection(value@),
{
    let name = match value {
        AnswerValue::String(name) => name,
        _ => {
            return Ok(());
        },
    };
    let n = byte_len(name.as_str());
    if n > 2 && n < 100 {
        Ok(())
    } else {
        Err("Name must be between 3 and 99 characters".to_owned())
    }
}

/// The price of the item at position `variant`: sword, shield, potion,
/// scroll, chewing gum; anything else is free.
pub open spec fn item_cost(variant: usize) -> nat {
    if variant == 0 {
        80
    } else if variant == 1 {
        50
    } else if variant == 2 {
        20
    } else if variant == 3 {
        10
    } else if variant == 4 {
        2
    } else {
        0
    }
}

/// The price of the first `n` selections together.
pub open spec fn total_cost(selections: Seq<usize>, n: nat) -> nat
    decreases n,
{
    if n == 0 {
        0
    } else {
        total_cost(selections, (n - 1) as nat) + item_cost(selections[n - 1])
    }
}

/// What is said of an inventory: its price is within the starting budget.
pub open spec fn budget_objection(value: Value) -> Option<Seq<char>> {
    match value {
        Value::Chosen(selections) => if total_cost(selections, selections.len()) <= 150 {
            None
        } else {
            Some(
                "Over budget! Total: "@ + text_of_nat(total_cost(selections, selections.len()))
                    + " gold, limit: "@ + text_of_nat(150) + " gold"@,
            )
        },
        _ => None,
    }
}

pub fn is_within_starting_budget(
    value: &AnswerValue,
    _responses: &Answers,
    _path: &ResponsePath,
) -> (r: Result<(), String>)
    ensures
        objection_of(r) == budget_objection(value@),
{
    let selections = match value {
        AnswerValue::ChosenVariants(selections) => selections,
        _ => {
            return Ok(());
        },
    };
    let mut total: u128 = 0;
    let mut i: usize = 0;
    while i < selections.len()
        invariant
            i <= selections@.len(),
            total == total_cost(selections@, i as nat),
            total <= 80 * i,
        decreases selections@.len() - i,
    {
        let variant_idx = selections[i];
        let item_cost: u128 = if variant_idx == 0 {
            80
        } else if variant_idx == 1 {
            50
        } else if variant_idx == 2 {
            20
        } else if variant_idx == 3 {
            10
        } else if variant_idx == 4 {
            2
        } else {
            0
        };
        total = total + item_cost;
        i += 1;
    }
    if total <= STARTING_BUDGET as u128 {
        Ok(())
    } else {
        let mut text = "Over budget! Total: ".to_owned();
        let spent = nat_to_text(total);
        text.append(spent.as_str());
        text.append(" gold, limit: ");
        let limit = nat_to_text(STARTING_BUDGET as u128);
        text.append(limit.as_str());
        text.append(" gold");
        Err(text)
    }
}

/// The role of an adventurer.
#[derive(Debug)]
pub enum SimpleRole {
    Streetfighter,
    Mage,
    Archer,
    Thief,
    Other(String),
}

/// What a SimpleRole is, as mathematics.
pub ghost enum SimpleRoleModel {
    Streetfighter,
    Mage,
    Archer,
    Thief,
    Other(Seq<char>),
}

impl View for SimpleRole {
    type V = SimpleRoleModel;

    open spec fn view(&self) -> SimpleRoleModel {
        match self {
            SimpleRole::Streetfighter => SimpleRoleModel::Streetfighter,
            SimpleRole::Mage => SimpleRoleModel::Mage,
            SimpleRole::Archer => SimpleRoleModel::Archer,
            SimpleRole::Thief => SimpleRoleModel::Thief,
            SimpleRole::Other(text) => SimpleRoleModel::Other(text@),
        }
    }
}

impl SimpleRole {
    /// The name of the variant.
    pub open spec fn name_model(&self) -> Seq<char> {
        match self {
            SimpleRole::Streetfighter => "Streetfighter"@,
            SimpleRole::Mage => "Mage"@,
            SimpleRole::Archer => "Archer"@,
            SimpleRole::Thief => "Thief"@,
            SimpleRole::Other(_) => "Other"@,
        }
    }

    /// The branches of the choice.
    pub open spec fn branches() -> Seq<AlternativeModel> {
        seq![
            AlternativeModel { name: "Streetfighter"@, section: SectionModel::Empty },
            AlternativeModel { name: "Mage"@, section: SectionModel::Empty },
            AlternativeModel { name: "Archer"@, section: SectionModel::Empty },
            AlternativeModel { name: "Thief"@, section: SectionModel::Empty },
            AlternativeModel {
                name: "Other"@,
                section: SectionModel::Sequence(
                    seq![
                        QuestionModel::input("Other field 0"@, "What then?!"@, None),
                    ],
                ),
            },
        ]
    }

    /// The answers in `base`, with those that spell this value in `scope`:
    /// the fields of the variant, then the name of the variant.
    pub open spec fn spelled_onto(&self, base: Map<Seq<char>, Value>, scope: Seq<char>) -> Map<
        Seq<char>,
        Value,
    > {
        match self {
            SimpleRole::Streetfighter => base,
            SimpleRole::Mage => base,
            SimpleRole::Archer => base,
            SimpleRole::Thief => base,
            SimpleRole::Other(text) => base
                .insert(scoped(scope, "Other field 0"@), Value::Text(text@)),
        }.insert(choice_key(scope), Value::Text(self.name_model()))
    }

    /// The value that the answers spell in `scope`.
    pub open spec fn decoded_in(answers: Map<Seq<char>, Value>, scope: Seq<char>) -> Result<
        SimpleRoleModel,
        BackendErrorModel,
    > {
        match text_in(answers, choice_key(scope)) {
            Err(e) => Err(e),
            Ok(name) => if name == "Streetfighter"@ {
                Ok(SimpleRoleModel::Streetfighter)
            } else if name == "Mage"@ {
                Ok(SimpleRoleModel::Mage)
            } else if name == "Archer"@ {
                Ok(SimpleRoleModel::Archer)
            } else if name == "Thief"@ {
                Ok(SimpleRoleModel::Thief)
            } else if name == "Other"@ {
                match text_in(answers, scoped(scope, "Other field 0"@)) {
                    Err(e) => Err(e),
                    Ok(text) => Ok(SimpleRoleModel::Other(text)),
                }
            } else {
                Err(unknown_variant(scope, "SimpleRole"@))
            },
        }
    }

    /// The name of the variant.
    pub fn name(&self) -> (r: &'static str)
        ensures
            r@ == self.name_model(),
    {
        match self {
            SimpleRole::Streetfighter => "Streetfighter",
            SimpleRole::Mage => "Mage",
            SimpleRole::Archer => "Archer",
            SimpleRole::Thief => "Thief",
            SimpleRole::Other(_) => "Other",
        }
    }

    /// Adds the answers that spell this value in `scope`.
    pub fn write_in(&self, answers: &mut Answers, scope: &str)
        ensures
            final(answers)@ == self.spelled_onto(old(answers)@, scope@),
    {
        match self {
            SimpleRole::Streetfighter => {},
            SimpleRole::Mage => {},
            SimpleRole::Archer => {},
            SimpleRole::Thief => {},
            SimpleRole::Other(text) => {
                answers.insert(
                    scoped_key(scope, "Other field 0"),
                    AnswerValue::String(text.clone()),
                );
            },
        }
        answers.insert(
            scoped_key(scope, SELECTED_ALTERNATIVE_KEY),
            AnswerValue::String(self.name().to_owned()),
        );
    }

    /// Reads the value that the answers spell in `scope`.
    pub fn read_in(answers: &Answers, scope: &str) -> (r: Result<SimpleRole, BackendError>)
        ensures
            match r {
                Ok(v) => Self::decoded_in(answers@, scope@) == Ok::<SimpleRoleModel, BackendErrorModel>(v@),
                Err(e) => Self::decoded_in(answers@, scope@) == Err::<SimpleRoleModel, BackendErrorModel>(e@),
            },
    {
        let key = scoped_key(scope, SELECTED_ALTERNATIVE_KEY);
        let name = match read_text(answers, key.as_str()) {
            Ok(name) => name,
            Err(e) => {
                return Err(e);
            },
        };
        if str_eq(name.as_str(), "Streetfighter") {
            Ok(SimpleRole::Streetfighter)
        } else if str_eq(name.as_str(), "Mage") {
            Ok(SimpleRole::Mage)
        } else if str_eq(name.as_str(), "Archer") {
            Ok(SimpleRole::Archer)
        } else if str_eq(name.as_str(), "Thief") {
            Ok(SimpleRole::Thief)
        } else if str_eq(name.as_str(), "Other") {
            let text = match read_text(answers, scoped_key(scope, "Other field 0").as_str()) {
                Ok(v) => v,
                Err(e) => {
                    return Err(e);
                },
            };
            Ok(SimpleRole::Other(text))
        } else {
            Err(unknown(scope, "SimpleRole"))
        }
    }

    /// The names of the variants are different from each other, and so are
    /// the keys of one scope.
    pub proof fn lemma_names_apart(scope: Seq<char>)
        ensures
            "Streetfighter"@ != "Mage"@,
            "Streetfighter"@ != "Archer"@,
            "Streetfighter"@ != "Thief"@,
            "Streetfighter"@ != "Other"@,
            "Mage"@ != "Archer"@,
            "Mage"@ != "Thief"@,
            "Mage"@ != "Other"@,
            "Archer"@ != "Thief"@,
            "Archer"@ != "Other"@,
            "Thief"@ != "Other"@,
            scoped(scope, "Other field 0"@) != choice_key(scope),
    {
        reveal_strlit("Streetfighter");
        reveal_strlit("Mage");
        reveal_strlit("Archer");
        reveal_strlit("Thief");
        reveal_strlit("Other");
        reveal_strlit("Other field 0");
        reveal_strlit("selected_alternative");
        assert("Streetfighter"@.len() == 13);
        assert("Mage"@.len() == 4);
        assert("Archer"@.len() == 6);
        assert("Thief"@.len() == 5);
        assert("Other"@.len() == 5);
        assert("Other field 0"@.len() == 13);
        assert(SELECTED_ALTERNATIVE_KEY@.len() == 20);
        assert("Thief"@[0] != "Other"@[0]);
        lemma_scoped_apart(scope, "Other field 0"@, SELECTED_ALTERNATIVE_KEY@);
    }

    /// What was written in a scope is read back from it.
    pub proof fn lemma_reads_back(&self, base: Map<Seq<char>, Value>, scope: Seq<char>)
        ensures
            Self::decoded_in(self.spelled_onto(base, scope), scope) == Ok::<SimpleRoleModel, BackendErrorModel>(
                self@,
            ),
    {
        Self::lemma_names_apart(scope);
    }

    /// Writing in a scope changes nothing under a key outside the scope.
    pub proof fn lemma_writes_in_scope(&self, base: Map<Seq<char>, Value>, scope: Seq<char>, key: Seq<char>)
        requires
            forall|name: Seq<char>| key != #[trigger] scoped(scope, name),
        ensures
            self.spelled_onto(base, scope).contains_key(key) == base.contains_key(key),
            self.spelled_onto(base, scope)[key] == base[key],
    {
        assert(key != choice_key(scope));
        assert(key != scoped(scope, "Other field 0"@));
    }

    /// What is read in a scope depends on the answers of the scope alone.
    pub proof fn lemma_reads_in_scope(a: Map<Seq<char>, Value>, b: Map<Seq<char>, Value>, scope: Seq<char>)
        requires
            forall|name: Seq<char>|
                a.contains_key(#[trigger] scoped(scope, name)) == b.contains_key(scoped(scope, name))
                    && a[scoped(scope, name)] == b[scoped(scope, name)],
        ensures
            Self::decoded_in(a, scope) == Self::decoded_in(b, scope),
    {
        assert(a.contains_key(choice_key(scope)) == b.contains_key(choice_key(scope)));
        assert(a[choice_key(scope)] == b[choice_key(scope)]);
        assert(a.contains_key(scoped(scope, "Other field 0"@)) == b.contains_key(scoped(scope, "Other field 0"@)));
        assert(a[scoped(scope, "Other field 0"@)] == b[scoped(scope, "Other field 0"@)]);
    }
}

impl Wizard for SimpleRole {
    open spec fn tree() -> Seq<SectionModel> {
        seq![SectionModel::Alternatives(0, Self::branches())]
    }

    open spec fn spelled(&self) -> Map<Seq<char>, Value> {
        self.spelled_onto(Map::empty(), Seq::empty())
    }

    open spec fn decoded(answers: Map<Seq<char>, Value>) -> Result<SimpleRoleModel, BackendErrorModel> {
        Self::decoded_in(answers, Seq::empty())
    }

    fn interview() -> (r: Interview) {
        let mut alternatives: Vec<Alternative> = Vec::new();
        alternatives.push(Alternative::unit("Streetfighter"));
        alternatives.push(Alternative::unit("Mage"));
        alternatives.push(Alternative::unit("Archer"));
        alternatives.push(Alternative::unit("Thief"));
        let mut questions: Vec<Question> = Vec::new();
        questions.push(Question::input("Other field 0", "What then?!", None));
        let branch = Alternative::with_fields("Other", questions);
        assert(branch@.section->Sequence_0 =~= Self::branches()[4].section->Sequence_0);
        alternatives.push(branch);
        let r = Interview::of_alternatives(0, alternatives);
        assert(r@[0]->Alternatives_1 =~= Self::branches());
        assert(r@ =~= Self::tree());
        r
    }

    fn to_answers(&self) -> (r: Answers) {
        let mut r = Answers::new();
        let root = String::new();
        self.write_in(&mut r, root.as_str());
        r
    }

    fn from_answers(answers: &Answers) -> (r: Result<Self, BackendError>) {
        let root = String::new();
        Self::read_in(answers, root.as_str())
    }

    proof fn lemma_round_trip(&self) {
        self.lemma_reads_back(Map::empty(), Seq::empty());
    }
}

/// Something that an adventurer can buy.
#[derive(Debug)]
pub enum SimpleItem {
    Sword,
    Shield,
    Potion,
    Scroll,
    ChewingGum { flavor: String, quantity: u32 },
}

/// What a SimpleItem is, as mathematics.
pub ghost enum SimpleItemModel {
    Sword,
    Shield,
    Potion,
    Scroll,
    ChewingGum { flavor: Seq<char>, quantity: u32 },
}

impl View for SimpleItem {
    type V = SimpleItemModel;

    open spec fn view(&self) -> SimpleItemModel {
        match self {
            SimpleItem::Sword => SimpleItemModel::Sword,
            SimpleItem::Shield => SimpleItemModel::Shield,
            SimpleItem::Potion => SimpleItemModel::Potion,
            SimpleItem::Scroll => SimpleItemModel::Scroll,
            SimpleItem::ChewingGum { flavor, quantity } => SimpleItemModel::ChewingGum {
                flavor: flavor@,
                quantity: *quantity,
            },
        }
    }
}

impl SimpleItem {
    /// What the variants are called where they are offered, in their order.
    pub open spec fn labels() -> Seq<Seq<char>> {
        seq![
            "Sword (value: 80)"@,
            "Shield (value: 50)"@,
            "Potion (value: 20)"@,
            "Scroll (value: 10)"@,
            "Chewing Gum (value: 2 * quantity)"@,
        ]
    }

    /// What the variants are called where they are offered, in their order.
    pub fn options() -> (r: Vec<String>)
        ensures
            Seq::new(r@.len(), |i: int| r@[i]@) == Self::labels(),
    {
        let mut r: Vec<String> = Vec::new();
        r.push("Sword (value: 80)".to_owned());
        r.push("Shield (value: 50)".to_owned());
        r.push("Potion (value: 20)".to_owned());
        r.push("Scroll (value: 10)".to_owned());
        r.push("Chewing Gum (value: 2 * quantity)".to_owned());
        assert(Seq::new(r@.len(), |i: int| r@[i]@) =~= Self::labels());
        r
    }

    /// The two names under which chewing gum keeps what it carries have
    /// different keys in one scope.
    pub proof fn lemma_keys_apart(scope: Seq<char>)
        ensures
            scoped(scope, "flavor"@) != scoped(scope, "quantity"@),
    {
        reveal_strlit("flavor");
        reveal_strlit("quantity");
        assert("flavor"@.len() == 6);
        assert("quantity"@.len() == 8);
        lemma_scoped_apart(scope, "flavor"@, "quantity"@);
    }
}

impl Selectable for SimpleItem {
    open spec fn count() -> usize {
        5
    }

    open spec fn position(&self) -> usize {
        match self {
            SimpleItem::Sword => 0,
            SimpleItem::Shield => 1,
            SimpleItem::Potion => 2,
            SimpleItem::Scroll => 3,
            SimpleItem::ChewingGum { .. } => 4,
        }
    }

    open spec fn carried_onto(&self, base: Map<Seq<char>, Value>, scope: Seq<char>) -> Map<
        Seq<char>,
        Value,
    > {
        match self {
            SimpleItem::ChewingGum { flavor, quantity } => base.insert(
                scoped(scope, "flavor"@),
                Value::Text(flavor@),
            ).insert(scoped(scope, "quantity"@), Value::Int(*quantity as i64)),
            _ => base,
        }
    }

    open spec fn carried_at(answers: Map<Seq<char>, Value>, scope: Seq<char>, position: usize) -> Result<
        SimpleItemModel,
        BackendErrorModel,
    > {
        if position == 0 {
            Ok(SimpleItemModel::Sword)
        } else if position == 1 {
            Ok(SimpleItemModel::Shield)
        } else if position == 2 {
            Ok(SimpleItemModel::Potion)
        } else if position == 3 {
            Ok(SimpleItemModel::Scroll)
        } else if position == 4 {
            match text_in(answers, scoped(scope, "flavor"@)) {
                Err(e) => Err(e),
                Ok(flavor) => match int_in(answers, scoped(scope, "quantity"@), 0, u32::MAX as int) {
                    Err(e) => Err(e),
                    Ok(quantity) => Ok(
                        SimpleItemModel::ChewingGum { flavor, quantity: quantity as u32 },
                    ),
                },
            }
        } else {
            Err(improper(scope))
        }
    }

    open spec fn name_at(position: usize) -> Seq<char> {
        if position == 0 {
            "Sword"@
        } else if position == 1 {
            "Shield"@
        } else if position == 2 {
            "Potion"@
        } else if position == 3 {
            "Scroll"@
        } else if position == 4 {
            "ChewingGum"@
        } else {
            Seq::empty()
        }
    }

    open spec fn position_named(name: Seq<char>) -> Option<usize> {
        if name == "Sword"@ {
            Some(0)
        } else if name == "Shield"@ {
            Some(1)
        } else if name == "Potion"@ {
            Some(2)
        } else if name == "Scroll"@ {
            Some(3)
        } else if name == "ChewingGum"@ {
            Some(4)
        } else {
            None
        }
    }

    open spec fn called() -> Seq<char> {
        "SimpleItem"@
    }

    fn name(&self) -> (r: &'static str) {
        match self {
            SimpleItem::Sword => "Sword",
            SimpleItem::Shield => "Shield",
            SimpleItem::Potion => "Potion",
            SimpleItem::Scroll => "Scroll",
            SimpleItem::ChewingGum { .. } => "ChewingGum",
        }
    }

    fn named(name: &str) -> (r: Option<usize>) {
        if str_eq(name, "Sword") {
            Some(0)
        } else if str_eq(name, "Shield") {
            Some(1)
        } else if str_eq(name, "Potion") {
            Some(2)
        } else if str_eq(name, "Scroll") {
            Some(3)
        } else if str_eq(name, "ChewingGum") {
            Some(4)
        } else {
            None
        }
    }

    fn known_as() -> (r: &'static str) {
        "SimpleItem"
    }

    fn index(&self) -> (r: usize) {
        match self {
            SimpleItem::Sword => 0,
            SimpleItem::Shield => 1,
            SimpleItem::Potion => 2,
            SimpleItem::Scroll => 3,
            SimpleItem::ChewingGum { .. } => 4,
        }
    }

    fn known(position: usize) -> (r: bool) {
        position < 5
    }

    fn write_in(&self, answers: &mut Answers, scope: &str) {
        match self {
            SimpleItem::ChewingGum { flavor, quantity } => {
                answers.insert(scoped_key(scope, "flavor"), AnswerValue::String(flavor.clone()));
                answers.insert(scoped_key(scope, "quantity"), AnswerValue::Int(*quantity as i64));
            },
            _ => {},
        }
    }

    fn read_at(answers: &Answers, scope: &str, position: usize) -> (r: Result<Self, BackendError>) {
        if position == 0 {
            Ok(SimpleItem::Sword)
        } else if position == 1 {
            Ok(SimpleItem::Shield)
        } else if position == 2 {
            Ok(SimpleItem::Potion)
        } else if position == 3 {
            Ok(SimpleItem::Scroll)
        } else {
            let flavor = match read_text(answers, scoped_key(scope, "flavor").as_str()) {
                Ok(v) => v,
                Err(e) => {
                    return Err(e);
                },
            };
            let quantity = match read_int(answers, scoped_key(scope, "quantity").as_str(), 0, 0xffff_ffff) {
                Ok(v) => v,
                Err(e) => {
                    return Err(e);
                },
            };
            Ok(SimpleItem::ChewingGum { flavor, quantity: quantity as u32 })
        }
    }

    proof fn lemma_position_known(&self) {
    }

    proof fn lemma_reads_back(&self, base: Map<Seq<char>, Value>, scope: Seq<char>) {
        Self::lemma_keys_apart(scope);
    }

    proof fn lemma_others_stay(&self, base: Map<Seq<char>, Value>, scope: Seq<char>, position: usize) {
    }

    proof fn lemma_writes_in_scope(&self, base: Map<Seq<char>, Value>, scope: Seq<char>, key: Seq<char>) {
        assert(key != scoped(scope, "flavor"@));
        assert(key != scoped(scope, "quantity"@));
    }

    proof fn lemma_found_by_name(&self) {
        reveal_strlit("Sword");
        reveal_strlit("Shield");
        reveal_strlit("Potion");
        reveal_strlit("Scroll");
        reveal_strlit("ChewingGum");
        assert("Sword"@.len() == 5);
        assert("Shield"@.len() == 6);
        assert("Potion"@.len() == 6);
        assert("Scroll"@.len() == 6);
        assert("ChewingGum"@.len() == 10);
        assert("Shield"@[0] != "Potion"@[0]);
        assert("Shield"@[1] != "Scroll"@[1]);
        assert("Potion"@[0] != "Scroll"@[0]);
    }

    proof fn lemma_reads_beside_choice(
        base: Map<Seq<char>, Value>,
        scope: Seq<char>,
        position: usize,
        chosen: Value,
    ) {
        reveal_strlit("selected_alternative");
        assert(SELECTED_ALTERNATIVE_KEY@.len() == 20);
        reveal_strlit("flavor");
        assert("flavor"@.len() == 6);
        lemma_scoped_apart(scope, "flavor"@, SELECTED_ALTERNATIVE_KEY@);
        reveal_strlit("quantity");
        assert("quantity"@.len() == 8);
        lemma_scoped_apart(scope, "quantity"@, SELECTED_ALTERNATIVE_KEY@);
    }

    proof fn lemma_reads_in_scope(
        a: Map<Seq<char>, Value>,
        b: Map<Seq<char>, Value>,
        scope: Seq<char>,
        position: usize,
    ) {
        assert(a.contains_key(scoped(scope, "flavor"@)) == b.contains_key(scoped(scope, "flavor"@)));
        assert(a[scoped(scope, "flavor"@)] == b[scoped(scope, "flavor"@)]);
        assert(a.contains_key(scoped(scope, "quantity"@)) == b.contains_key(scoped(scope, "quantity"@)));
        assert(a[scoped(scope, "quantity"@)] == b[scoped(scope, "quantity"@)]);
    }
}

impl SimpleItem {
    /// The branches of the choice of one variant.
    pub open spec fn branches() -> Seq<AlternativeModel> {
        seq![
            AlternativeModel { name: "Sword"@, section: SectionModel::Empty },
            AlternativeModel { name: "Shield"@, section: SectionModel::Empty },
            AlternativeModel { name: "Potion"@, section: SectionModel::Empty },
            AlternativeModel { name: "Scroll"@, section: SectionModel::Empty },
            AlternativeModel {
                name: "ChewingGum"@,
                section: SectionModel::Sequence(
                    seq![
                        QuestionModel::input("flavor"@, "Flavor:"@, None),
                        QuestionModel::integer("quantity"@, "How many?"@, Some(1), Some(10), None),
                    ],
                ),
            },
        ]
    }
}

impl Wizard for SimpleItem {
    open spec fn tree() -> Seq<SectionModel> {
        seq![SectionModel::Alternatives(0, Self::branches())]
    }

    open spec fn spelled(&self) -> Map<Seq<char>, Value> {
        chosen_onto(*self, Map::empty(), Seq::empty())
    }

    open spec fn decoded(answers: Map<Seq<char>, Value>) -> Result<SimpleItemModel, BackendErrorModel> {
        chosen_from::<SimpleItem>(answers, Seq::empty())
    }

    fn interview() -> (r: Interview) {
        let mut alternatives: Vec<Alternative> = Vec::new();
        alternatives.push(Alternative::unit("Sword"));
        alternatives.push(Alternative::unit("Shield"));
        alternatives.push(Alternative::unit("Potion"));
        alternatives.push(Alternative::unit("Scroll"));
        let mut fields_of_chewing_gum: Vec<Question> = Vec::new();
        fields_of_chewing_gum.push(Question::input("flavor", "Flavor:", None));
        fields_of_chewing_gum.push(Question::integer("quantity", "How many?", Some(1), Some(10), None));
        let branch = Alternative::with_fields("ChewingGum", fields_of_chewing_gum);
        assert(branch@.section->Sequence_0 =~= Self::branches()[4].section->Sequence_0);
        alternatives.push(branch);
        let r = Interview::of_alternatives(0, alternatives);
        assert(r@[0]->Alternatives_1 =~= Self::branches());
        assert(r@ =~= Self::tree());
        r
    }

    fn to_answers(&self) -> (r: Answers) {
        let mut r = Answers::new();
        let root = String::new();
        write_choice(self, &mut r, root.as_str());
        r
    }

    fn from_answers(answers: &Answers) -> (r: Result<Self, BackendError>) {
        let root = String::new();
        read_choice::<SimpleItem>(answers, root.as_str())
    }

    proof fn lemma_round_trip(&self) {
        lemma_choice_reads_back(*self, Map::empty(), Seq::empty());
    }
}

/// What is said before the first question of the adventure.
pub const PRELUDE: &'static str = "A journey begins...!";

/// What is said after its last question.
pub const EPILOGUE: &'static str = "Good luck.";

/// An adventurer at the edge of the forest.
#[derive(Debug)]
pub struct SimpleSpookyForest {
    pub name: String,
    pub passphrase: String,
    pub age: u32,
    pub role: SimpleRole,
    pub inventory: Vec<SimpleItem>,
}

/// What a SimpleSpookyForest is, as mathematics.
pub ghost struct SimpleSpookyForestModel {
    pub name: Seq<char>,
    pub passphrase: Seq<char>,
    pub age: u32,
    pub role: SimpleRoleModel,
    pub inventory: Seq<SimpleItemModel>,
}

impl View for SimpleSpookyForest {
    type V = SimpleSpookyForestModel;

    open spec fn view(&self) -> SimpleSpookyForestModel {
        SimpleSpookyForestModel {
            name: self.name@,
            passphrase: self.passphrase@,
            age: self.age,
            role: self.role@,
            inventory: views(self.inventory@),
        }
    }
}

impl SimpleSpookyForest {
    /// The answers of the plain fields.
    pub open spec fn plain(&self) -> Map<Seq<char>, Value> {
        Map::empty()
            .insert("name"@, Value::Text(self.name@))
            .insert("passphrase"@, Value::Text(self.passphrase@))
            .insert("age"@, Value::Int(self.age as i64))
    }

    /// Whether answers can spell this adventurer: no item is named twice.
    pub fn is_spellable(&self) -> (r: bool)
        ensures
            r == self.spellable(),
    {
        can_be_selected(&self.inventory)
    }
}

impl Wizard for SimpleSpookyForest {
    open spec fn tree() -> Seq<SectionModel> {
        seq![
            SectionModel::Sequence(
                seq![
                    QuestionModel::input("name"@, "What is your name?"@, Some("is_valid_name"@)),
                    QuestionModel::masked("passphrase"@, "What's the secret passphrase?"@, None),
                    QuestionModel::integer("age"@, "How old are you?"@, Some(18), Some(233), None),
                    QuestionModel::nested(
                        "role"@,
                        "What is your role?"@,
                        "SimpleRole"@,
                        SimpleRole::tree(),
                    ),
                    QuestionModel::multi_select(
                        "inventory"@,
                        "Pick your inventory:"@,
                        SimpleItem::labels(),
                        Some("is_within_starting_budget"@),
                    ),
                    QuestionModel::input("inventory.flavor"@, "Flavor:"@, None).skippable(),
                    QuestionModel::integer(
                        "inventory.quantity"@,
                        "How many?"@,
                        Some(1),
                        Some(10),
                        None,
                    ).skippable(),
                ],
            ),
        ]
    }

    open spec fn spelled(&self) -> Map<Seq<char>, Value> {
        selected_onto(
            self.inventory@,
            self.role.spelled_onto(self.plain(), "role"@),
            "inventory"@,
        )
    }

    open spec fn spellable(&self) -> bool {
        selectable_together(self.inventory@)
    }

    open spec fn decoded(answers: Map<Seq<char>, Value>) -> Result<
        SimpleSpookyForestModel,
        BackendErrorModel,
    > {
        match text_in(answers, "name"@) {
            Err(e) => Err(e),
            Ok(name) => match text_in(answers, "passphrase"@) {
                Err(e) => Err(e),
                Ok(passphrase) => match int_in(answers, "age"@, 0, u32::MAX as int) {
                    Err(e) => Err(e),
                    Ok(age) => match SimpleRole::decoded_in(answers, "role"@) {
                        Err(e) => Err(e),
                        Ok(role) => match selected_in::<SimpleItem>(answers, "inventory"@) {
                            Err(e) => Err(e),
                            Ok(inventory) => Ok(
                                SimpleSpookyForestModel {
                                    name,
                                    passphrase,
                                    age: age as u32,
                                    role,
                                    inventory,
                                },
                            ),
                        },
                    },
                },
            },
        }
    }

    fn interview() -> (r: Interview) {
        let mut questions: Vec<Question> = Vec::new();
        questions.push(Question::input("name", "What is your name?", Some("is_valid_name")));
        questions.push(Question::masked("passphrase", "What's the secret passphrase?", None));
        questions.push(Question::integer("age", "How old are you?", Some(18), Some(233), None));
        questions.push(
            Question::nested("role", "What is your role?", "SimpleRole", SimpleRole::interview()),
        );
        let items = SimpleItem::options();
        assert(ListElement::Variants(items).model() == ElementModel::Variants(SimpleItem::labels()));
        questions.push(
            Question::multi_select(
                "inventory",
                "Pick your inventory:",
                items,
                Some("is_within_starting_budget"),
            ),
        );
        questions.push(Question::input("inventory.flavor", "Flavor:", None).skippable());
        questions.push(
            Question::integer("inventory.quantity", "How many?", Some(1), Some(10), None).skippable(),
        );
        let r = Interview::of_sequence(questions);
        assert(r@[0]->Sequence_0 =~= Self::tree()[0]->Sequence_0);
        assert(r@ =~= Self::tree());
        r
    }

    fn to_answers(&self) -> (r: Answers) {
        let mut r = Answers::new();
        r.insert("name".to_owned(), AnswerValue::String(self.name.clone()));
        r.insert("passphrase".to_owned(), AnswerValue::String(self.passphrase.clone()));
        r.insert("age".to_owned(), AnswerValue::Int(self.age as i64));
        self.role.write_in(&mut r, "role");
        write_selection(&self.inventory, &mut r, "inventory");
        r
    }

    fn from_answers(answers: &Answers) -> (r: Result<Self, BackendError>) {
        let name = match read_text(answers, "name") {
            Ok(v) => v,
            Err(e) => {
                return Err(e);
            },
        };
        let passphrase = match read_text(answers, "passphrase") {
            Ok(v) => v,
            Err(e) => {
                return Err(e);
            },
        };
        let age = match read_int(answers, "age", 0, 0xffff_ffff) {
            Ok(v) => v,
            Err(e) => {
                return Err(e);
            },
        };
        let role = match SimpleRole::read_in(answers, "role") {
            Ok(v) => v,
            Err(e) => {
                return Err(e);
            },
        };
        let inventory = match read_selection::<SimpleItem>(answers, "inventory") {
            Ok(v) => v,
            Err(e) => {
                return Err(e);
            },
        };
        Ok(SimpleSpookyForest { name, passphrase, age: age as u32, role, inventory })
    }

    proof fn lemma_round_trip(&self) {
        reveal_strlit("name");
        reveal_strlit("passphrase");
        reveal_strlit("age");
        reveal_strlit("role");
        reveal_strlit("inventory");
        assert("name"@.len() == 4);
        assert("passphrase"@.len() == 10);
        assert("age"@.len() == 3);
        assert("role"@.len() == 4);
        assert("inventory"@.len() == 9);
        let plain = self.plain();
        let chosen = self.role.spelled_onto(plain, "role"@);
        let all = selected_onto(self.inventory@, chosen, "inventory"@);
        assert forall|name: Seq<char>|
            "name"@ != #[trigger] scoped("role"@, name) && "passphrase"@ != scoped("role"@, name)
                && "age"@ != scoped("role"@, name) by {
            assert(scoped("role"@, name)[0] == 'r');
        }
        self.role.lemma_writes_in_scope(plain, "role"@, "name"@);
        self.role.lemma_writes_in_scope(plain, "role"@, "passphrase"@);
        self.role.lemma_writes_in_scope(plain, "role"@, "age"@);
        lemma_selection_leaves(self.inventory@, chosen, "inventory"@, "name"@);
        lemma_selection_leaves(self.inventory@, chosen, "inventory"@, "passphrase"@);
        lemma_selection_leaves(self.inventory@, chosen, "inventory"@, "age"@);
        assert forall|name: Seq<char>|
            all.contains_key(#[trigger] scoped("role"@, name)) == chosen.contains_key(
                scoped("role"@, name),
            ) && all[scoped("role"@, name)] == chosen[scoped("role"@, name)] by {
            assert(scoped("role"@, name)[0] == 'r');
            lemma_selection_leaves(self.inventory@, chosen, "inventory"@, scoped("role"@, name));
        }
        SimpleRole::lemma_reads_in_scope(all, chosen, "role"@);
        self.role.lemma_reads_back(plain, "role"@);
        lemma_selection_reads_back(self.inventory@, chosen, "inventory"@);
    }
}

} // verus!
