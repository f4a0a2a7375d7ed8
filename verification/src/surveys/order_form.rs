//! An order: where to ship it, and how fast.

use vstd::prelude::*;
use crate::answer::{Answers, AnswerValue, Value};
use crate::backend::{BackendError, BackendErrorModel};
use crate::interview::{Alternative, AlternativeModel, Interview, SectionModel};
use crate::question::{Question, QuestionModel};
use crate::reconstruct::{
    bool_in, Choice, choice_key, lemma_key_outside_scope, lemma_scoped_apart, lemma_scopes_apart,
    read_bool, read_text, text_in, unknown, unknown_variant,
};
use crate::text::{scoped, scoped_key, str_eq};
use crate::wizard::Wizard;

use crate::SELECTED_ALTERNATIVE_KEY;

verus! {

/// Shipping address.
#[derive(Debug)]
pub struct ShippingAddress {
    pub street: String,
    pub city: String,
    pub state: String,
    pub postal_code: String,
    pub country: String,
}

/// What a ShippingAddress is, as mathematics.
pub ghost struct ShippingAddressModel {
    pub street: Seq<char>,
    pub city: Seq<char>,
    pub state: Seq<char>,
    pub postal_code: Seq<char>,
    pub country: Seq<char>,
}

impl View for ShippingAddress {
    type V = ShippingAddressModel;

    open spec fn view(&self) -> ShippingAddressModel {
        ShippingAddressModel {
            street: self.street@,
            city: self.city@,
            state: self.state@,
            postal_code: self.postal_code@,
            country: self.country@,
        }
    }
}

impl Wizard for ShippingAddress {
    open spec fn tree() -> Seq<SectionModel> {
        seq![
            SectionModel::Sequence(
                seq![
                    QuestionModel::input("street"@, "Street address:"@, None),
                    QuestionModel::input("city"@, "City:"@, None),
                    QuestionModel::input("state"@, "State/Province:"@, None),
                    QuestionModel::input("postal_code"@, "Postal code:"@, None),
                    QuestionModel::input("country"@, "Country:"@, None),
                ],
            ),
        ]
    }

    open spec fn spelled(&self) -> Map<Seq<char>, Value> {
        Map::empty()
            .insert("street"@, Value::Text(self.street@))
            .insert("city"@, Value::Text(self.city@))
            .insert("state"@, Value::Text(self.state@))
            .insert("postal_code"@, Value::Text(self.postal_code@))
            .insert("country"@, Value::Text(self.country@))
    }

    open spec fn decoded(answers: Map<Seq<char>, Value>) -> Result<ShippingAddressModel, BackendErrorModel> {
        match text_in(answers, "street"@) {
            Err(e) => Err(e),
            Ok(street) => match text_in(answers, "city"@) {
                Err(e) => Err(e),
                Ok(city) => match text_in(answers, "state"@) {
                    Err(e) => Err(e),
                    Ok(state) => match text_in(answers, "postal_code"@) {
                        Err(e) => Err(e),
                        Ok(postal_code) => match text_in(answers, "country"@) {
                            Err(e) => Err(e),
                            Ok(country) => Ok(
                                ShippingAddressModel {
                                    street,
                                    city,
                                    state,
                                    postal_code,
                                    country,
                                },
                            ),
                        },
                    },
                },
            },
        }
    }

    fn interview() -> (r: Interview) {
        let mut questions: Vec<Question> = Vec::new();
        questions.push(Question::input("street", "Street address:", None));
        questions.push(Question::input("city", "City:", None));
        questions.push(Question::input("state", "State/Province:", None));
        questions.push(Question::input("postal_code", "Postal code:", None));
        questions.push(Question::input("country", "Country:", None));
        let r = Interview::of_sequence(questions);
        assert(r@[0]->Sequence_0 =~= Self::tree()[0]->Sequence_0);
        assert(r@ =~= Self::tree());
        r
    }

    fn to_answers(&self) -> (r: Answers) {
        let mut r = Answers::new();
        r.insert("street".to_owned(), AnswerValue::String(self.street.clone()));
        r.insert("city".to_owned(), AnswerValue::String(self.city.clone()));
        r.insert("state".to_owned(), AnswerValue::String(self.state.clone()));
        r.insert("postal_code".to_owned(), AnswerValue::String(self.postal_code.clone()));
        r.insert("country".to_owned(), AnswerValue::String(self.country.clone()));
        r
    }

    fn from_answers(answers: &Answers) -> (r: Result<Self, BackendError>) {
        let street = match read_text(answers, "street") {
            Ok(v) => v,
            Err(e) => {
                return Err(e);
            },
        };
        let city = match read_text(answers, "city") {
            Ok(v) => v,
            Err(e) => {
                return Err(e);
            },
        };
        let state = match read_text(answers, "state") {
            Ok(v) => v,
            Err(e) => {
                return Err(e);
            },
        };
        let postal_code = match read_text(answers, "postal_code") {
            Ok(v) => v,
            Err(e) => {
                return Err(e);
            },
        };
        let country = match read_text(answers, "country") {
            Ok(v) => v,
            Err(e) => {
                return Err(e);
            },
        };
        Ok(
            ShippingAddress {
                street,
                city,
                state,
                postal_code,
                country,
            },
        )
    }

    proof fn lemma_round_trip(&self) {
        reveal_strlit("street");
        reveal_strlit("city");
        reveal_strlit("state");
        reveal_strlit("postal_code");
        reveal_strlit("country");
        assert("street"@.len() == 6);
        assert("city"@.len() == 4);
        assert("state"@.len() == 5);
        assert("postal_code"@.len() == 11);
        assert("country"@.len() == 7);
        assert("street"@ != "city"@);
        assert("street"@ != "state"@);
        assert("street"@ != "postal_code"@);
        assert("street"@ != "country"@);
        assert("city"@ != "state"@);
        assert("city"@ != "postal_code"@);
        assert("city"@ != "country"@);
        assert("state"@ != "postal_code"@);
        assert("state"@ != "country"@);
        assert("postal_code"@ != "country"@);
    }
}

/// Shipping speed options.
#[derive(Debug, Clone, Copy, PartialEq, Eq, Structural)]
pub enum ShippingSpeed {
    Standard,
    Express,
    Overnight,
}

impl View for ShippingSpeed {
    type V = ShippingSpeed;

    open spec fn view(&self) -> ShippingSpeed {
        *self
    }
}

impl ShippingSpeed {
    /// The name of the variant.
    pub open spec fn name_model(&self) -> Seq<char> {
        match self {
            ShippingSpeed::Standard => "Standard"@,
            ShippingSpeed::Express => "Express"@,
            ShippingSpeed::Overnight => "Overnight"@,
        }
    }

    /// The branches of the choice.
    pub open spec fn branches() -> Seq<AlternativeModel> {
        seq![
            AlternativeModel { name: "Standard"@, section: SectionModel::Empty },
            AlternativeModel { name: "Express"@, section: SectionModel::Empty },
            AlternativeModel { name: "Overnight"@, section: SectionModel::Empty },
        ]
    }

    /// The answers in `base`, with those that spell this value in `scope`:
    /// the fields of the variant, then the name of the variant.
    pub open spec fn spelled_onto(&self, base: Map<Seq<char>, Value>, scope: Seq<char>) -> Map<
        Seq<char>,
        Value,
    > {
        base.insert(choice_key(scope), Value::Text(self.name_model()))
    }

    /// The value that the answers spell in `scope`.
    pub open spec fn decoded_in(answers: Map<Seq<char>, Value>, scope: Seq<char>) -> Result<
        ShippingSpeed,
        BackendErrorModel,
    > {
        match text_in(answers, choice_key(scope)) {
            Err(e) => Err(e),
            Ok(name) => if name == "Standard"@ {
                Ok(ShippingSpeed::Standard)
            } else if name == "Express"@ {
                Ok(ShippingSpeed::Express)
            } else if name == "Overnight"@ {
                Ok(ShippingSpeed::Overnight)
            } else {
                Err(unknown_variant(scope, "ShippingSpeed"@))
            },
        }
    }

    /// The name of the variant.
    pub fn name(&self) -> (r: &'static str)
        ensures
            r@ == self.name_model(),
    {
        match self {
            ShippingSpeed::Standard => "Standard",
            ShippingSpeed::Express => "Express",
            ShippingSpeed::Overnight => "Overnight",
        }
    }

    /// Adds the answers that spell this value in `scope`.
    pub fn write_in(&self, answers: &mut Answers, scope: &str)
        ensures
            final(answers)@ == self.spelled_onto(old(answers)@, scope@),
    {
        answers.insert(
            scoped_key(scope, SELECTED_ALTERNATIVE_KEY),
            AnswerValue::String(self.name().to_owned()),
        );
    }

    /// Reads the value that the answers spell in `scope`.
    pub fn read_in(answers: &Answers, scope: &str) -> (r: Result<ShippingSpeed, BackendError>)
        ensures
            match r {
                Ok(v) => Self::decoded_in(answers@, scope@) == Ok::<ShippingSpeed, BackendErrorModel>(v@),
                Err(e) => Self::decoded_in(answers@, scope@) == Err::<ShippingSpeed, BackendErrorModel>(e@),
            },
    {
        let key = scoped_key(scope, SELECTED_ALTERNATIVE_KEY);
        let name = match read_text(answers, key.as_str()) {
            Ok(name) => name,
            Err(e) => {
                return Err(e);
            },
        };
        if str_eq(name.as_str(), "Standard") {
            Ok(ShippingSpeed::Standard)
        } else if str_eq(name.as_str(), "Express") {
            Ok(ShippingSpeed::Express)
        } else if str_eq(name.as_str(), "Overnight") {
            Ok(ShippingSpeed::Overnight)
        } else {
            Err(unknown(scope, "ShippingSpeed"))
        }
    }

    /// The names of the variants are different from each other, and so are
    /// the keys of one scope.
    pub proof fn lemma_names_apart(scope: Seq<char>)
        ensures
            "Standard"@ != "Express"@,
            "Standard"@ != "Overnight"@,
            "Express"@ != "Overnight"@,
    {
        reveal_strlit("Standard");
        reveal_strlit("Express");
        reveal_strlit("Overnight");
        assert("Standard"@.len() == 8);
        assert("Express"@.len() == 7);
        assert("Overnight"@.len() == 9);
    }

    /// What was written in a scope is read back from it.
    pub proof fn lemma_reads_back(&self, base: Map<Seq<char>, Value>, scope: Seq<char>)
        ensures
            Self::decoded_in(self.spelled_onto(base, scope), scope) == Ok::<ShippingSpeed, BackendErrorModel>(
                self@,
            ),
    {
        Self::lemma_names_apart(scope);
    }

    /// Writing in a scope changes nothing under a key outside the scope.
    pub proof fn lemma_writes_in_scope(&self, base: Map<Seq<char>, Value>, scope: Seq<char>, key: Seq<char>)
        requires
            forall|name: Seq<char>| key != #[trigger] scoped(scope, name),
        ensures
            self.spelled_onto(base, scope).contains_key(key) == base.contains_key(key),
            self.spelled_onto(base, scope)[key] == base[key],
    {
        assert(key != choice_key(scope));
    }

    /// What is read in a scope depends on the answers of the scope alone.
    pub proof fn lemma_reads_in_scope(a: Map<Seq<char>, Value>, b: Map<Seq<char>, Value>, scope: Seq<char>)
        requires
            forall|name: Seq<char>|
                a.contains_key(#[trigger] scoped(scope, name)) == b.contains_key(scoped(scope, name))
                    && a[scoped(scope, name)] == b[scoped(scope, name)],
        ensures
            Self::decoded_in(a, scope) == Self::decoded_in(b, scope),
    {
        assert(a.contains_key(choice_key(scope)) == b.contains_key(choice_key(scope)));
        assert(a[choice_key(scope)] == b[choice_key(scope)]);
    }
}

impl Wizard for ShippingSpeed {
    open spec fn tree() -> Seq<SectionModel> {
        seq![SectionModel::Alternatives(0, Self::branches())]
    }

    open spec fn spelled(&self) -> Map<Seq<char>, Value> {
        self.spelled_onto(Map::empty(), Seq::empty())
    }

    open spec fn decoded(answers: Map<Seq<char>, Value>) -> Result<ShippingSpeed, BackendErrorModel> {
        Self::decoded_in(answers, Seq::empty())
    }

    fn interview() -> (r: Interview) {
        let mut alternatives: Vec<Alternative> = Vec::new();
        alternatives.push(Alternative::unit("Standard"));
        alternatives.push(Alternative::unit("Express"));
        alternatives.push(Alternative::unit("Overnight"));
        let r = Interview::of_alternatives(0, alternatives);
        assert(r@[0]->Alternatives_1 =~= Self::branches());
        assert(r@ =~= Self::tree());
        r
    }

    fn to_answers(&self) -> (r: Answers) {
        let mut r = Answers::new();
        let root = String::new();
        self.write_in(&mut r, root.as_str());
        r
    }

    fn from_answers(answers: &Answers) -> (r: Result<Self, BackendError>) {
        let root = String::new();
        Self::read_in(answers, root.as_str())
    }

    proof fn lemma_round_trip(&self) {
        self.lemma_reads_back(Map::empty(), Seq::empty());
    }
}

impl Choice for ShippingSpeed {
    open spec fn count() -> nat {
        3
    }

    open spec fn position(&self) -> nat {
        match self {
            ShippingSpeed::Standard => 0,
            ShippingSpeed::Express => 1,
            ShippingSpeed::Overnight => 2,
        }
    }

    fn from_index(i: usize) -> (r: Option<Self>) {
        if i == 0 {
            Some(ShippingSpeed::Standard)
        } else if i == 1 {
            Some(ShippingSpeed::Express)
        } else if i == 2 {
            Some(ShippingSpeed::Overnight)
        } else {
            None
        }
    }

    fn index(&self) -> (r: usize) {
        match self {
            ShippingSpeed::Standard => 0,
            ShippingSpeed::Express => 1,
            ShippingSpeed::Overnight => 2,
        }
    }
}

/// Payment method selection.
#[derive(Debug)]
pub enum PaymentMethod2 {
    CreditCard { card_number: String, expiry: String, cvv: String },
    PayPal { email: String },
    BankTransfer { account_number: String, routing_number: String },
    CashOnDelivery,
}

/// What a PaymentMethod2 is, as mathematics.
pub ghost enum PaymentMethod2Model {
    CreditCard { card_number: Seq<char>, expiry: Seq<char>, cvv: Seq<char> },
    PayPal { email: Seq<char> },
    BankTransfer { account_number: Seq<char>, routing_number: Seq<char> },
    CashOnDelivery,
}

impl View for PaymentMethod2 {
    type V = PaymentMethod2Model;

    open spec fn view(&self) -> PaymentMethod2Model {
        match self {
            PaymentMethod2::CreditCard { card_number, expiry, cvv } => PaymentMethod2Model::CreditCard { card_number: card_number@, expiry: expiry@, cvv: cvv@ },
            PaymentMethod2::PayPal { email } => PaymentMethod2Model::PayPal { email: email@ },
            PaymentMethod2::BankTransfer { account_number, routing_number } => PaymentMethod2Model::BankTransfer { account_number: account_number@, routing_number: routing_number@ },
            PaymentMethod2::CashOnDelivery => PaymentMethod2Model::CashOnDelivery,
        }
    }
}

impl PaymentMethod2 {
    /// The name of the variant.
    pub open spec fn name_model(&self) -> Seq<char> {
        match self {
            PaymentMethod2::CreditCard { .. } => "CreditCard"@,
            PaymentMethod2::PayPal { .. } => "PayPal"@,
            PaymentMethod2::BankTransfer { .. } => "BankTransfer"@,
            PaymentMethod2::CashOnDelivery => "CashOnDelivery"@,
        }
    }

    /// The branches of the choice.
    pub open spec fn branches() -> Seq<AlternativeModel> {
        seq![
            AlternativeModel {
                name: "CreditCard"@,
                section: SectionModel::Sequence(
                    seq![
                        QuestionModel::input("card_number"@, "Card number:"@, None),
                        QuestionModel::input("expiry"@, "Expiry (MM/YY):"@, None),
                        QuestionModel::masked("cvv"@, "CVV:"@, None),
                    ],
                ),
            },
            AlternativeModel {
                name: "PayPal"@,
                section: SectionModel::Sequence(
                    seq![
                        QuestionModel::input("email"@, "PayPal email:"@, None),
                    ],
                ),
            },
            AlternativeModel {
                name: "BankTransfer"@,
                section: SectionModel::Sequence(
                    seq![
                        QuestionModel::input("account_number"@, "Account number:"@, None),
                        QuestionModel::input("routing_number"@, "Routing number:"@, None),
                    ],
                ),
            },
            AlternativeModel { name: "CashOnDelivery"@, section: SectionModel::Empty },
        ]
    }

    /// The answers in `base`, with those that spell this value in `scope`:
    /// the fields of the variant, then the name of the variant.
    pub open spec fn spelled_onto(&self, base: Map<Seq<char>, Value>, scope: Seq<char>) -> Map<
        Seq<char>,
        Value,
    > {
        match self {
            PaymentMethod2::CreditCard { card_number, expiry, cvv } => base
                .insert(scoped(scope, "card_number"@), Value::Text(card_number@))
                .insert(scoped(scope, "expiry"@), Value::Text(expiry@))
                .insert(scoped(scope, "cvv"@), Value::Text(cvv@)),
            PaymentMethod2::PayPal { email } => base
                .insert(scoped(scope, "email"@), Value::Text(email@)),
            PaymentMethod2::BankTransfer { account_number, routing_number } => base
                .insert(scoped(scope, "account_number"@), Value::Text(account_number@))
                .insert(scoped(scope, "routing_number"@), Value::Text(routing_number@)),
            PaymentMethod2::CashOnDelivery => base,
        }.insert(choice_key(scope), Value::Text(self.name_model()))
    }

    /// The value that the answers spell in `scope`.
    pub open spec fn decoded_in(answers: Map<Seq<char>, Value>, scope: Seq<char>) -> Result<
        PaymentMethod2Model,
        BackendErrorModel,
    > {
        match text_in(answers, choice_key(scope)) {
            Err(e) => Err(e),
            Ok(name) => if name == "CreditCard"@ {
                match text_in(answers, scoped(scope, "card_number"@)) {
                    Err(e) => Err(e),
                    Ok(card_number) => match text_in(answers, scoped(scope, "expiry"@)) {
                        Err(e) => Err(e),
                        Ok(expiry) => match text_in(answers, scoped(scope, "cvv"@)) {
                            Err(e) => Err(e),
                            Ok(cvv) => Ok(PaymentMethod2Model::CreditCard { card_number, expiry, cvv }),
                        },
                    },
                }
            } else if name == "PayPal"@ {
                match text_in(answers, scoped(scope, "email"@)) {
                    Err(e) => Err(e),
                    Ok(email) => Ok(PaymentMethod2Model::PayPal { email }),
                }
            } else if name == "BankTransfer"@ {
                match text_in(answers, scoped(scope, "account_number"@)) {
                    Err(e) => Err(e),
                    Ok(account_number) => match text_in(answers, scoped(scope, "routing_number"@)) {
                        Err(e) => Err(e),
                        Ok(routing_number) => Ok(PaymentMethod2Model::BankTransfer { account_number, routing_number }),
                    },
                }
            } else if name == "CashOnDelivery"@ {
                Ok(PaymentMethod2Model::CashOnDelivery)
            } else {
                Err(unknown_variant(scope, "PaymentMethod2"@))
            },
        }
    }

    /// The name of the variant.
    pub fn name(&self) -> (r: &'static str)
        ensures
            r@ == self.name_model(),
    {
        match self {
            PaymentMethod2::CreditCard { .. } => "CreditCard",
            PaymentMethod2::PayPal { .. } => "PayPal",
            PaymentMethod2::BankTransfer { .. } => "BankTransfer",
            PaymentMethod2::CashOnDelivery => "CashOnDelivery",
        }
    }

    /// Adds the answers that spell this value in `scope`.
    pub fn write_in(&self, answers: &mut Answers, scope: &str)
        ensures
            final(answers)@ == self.spelled_onto(old(answers)@, scope@),
    {
        match self {
            PaymentMethod2::CreditCard { card_number, expiry, cvv } => {
                answers.insert(
                    scoped_key(scope, "card_number"),
                    AnswerValue::String(card_number.clone()),
                );
                answers.insert(
                    scoped_key(scope, "expiry"),
                    AnswerValue::String(expiry.clone()),
                );
                answers.insert(
                    scoped_key(scope, "cvv"),
                    AnswerValue::String(cvv.clone()),
                );
            },
            PaymentMethod2::PayPal { email } => {
                answers.insert(
                    scoped_key(scope, "email"),
                    AnswerValue::String(email.clone()),
                );
            },
            PaymentMethod2::BankTransfer { account_number, routing_number } => {
                answers.insert(
                    scoped_key(scope, "account_number"),
                    AnswerValue::String(account_number.clone()),
                );
                answers.insert(
                    scoped_key(scope, "routing_number"),
                    AnswerValue::String(routing_number.clone()),
                );
            },
            PaymentMethod2::CashOnDelivery => {},
        }
        answers.insert(
            scoped_key(scope, SELECTED_ALTERNATIVE_KEY),
            AnswerValue::String(self.name().to_owned()),
        );
    }

    /// Reads the value that the answers spell in `scope`.
    pub fn read_in(answers: &Answers, scope: &str) -> (r: Result<PaymentMethod2, BackendError>)
        ensures
            match r {
                Ok(v) => Self::decoded_in(answers@, scope@) == Ok::<PaymentMethod2Model, BackendErrorModel>(v@),
                Err(e) => Self::decoded_in(answers@, scope@) == Err::<PaymentMethod2Model, BackendErrorModel>(e@),
            },
    {
        let key = scoped_key(scope, SELECTED_ALTERNATIVE_KEY);
        let name = match read_text(answers, key.as_str()) {
            Ok(name) => name,
            Err(e) => {
                return Err(e);
            },
        };
        if str_eq(name.as_str(), "CreditCard") {
            let card_number = match read_text(answers, scoped_key(scope, "card_number").as_str()) {
                Ok(v) => v,
                Err(e) => {
                    return Err(e);
                },
            };
            let expiry = match read_text(answers, scoped_key(scope, "expiry").as_str()) {
                Ok(v) => v,
                Err(e) => {
                    return Err(e);
                },
            };
            let cvv = match read_text(answers, scoped_key(scope, "cvv").as_str()) {
                Ok(v) => v,
                Err(e) => {
                    return Err(e);
                },
            };
            Ok(PaymentMethod2::CreditCard { card_number, expiry, cvv })
        } else if str_eq(name.as_str(), "PayPal") {
            let email = match read_text(answers, scoped_key(scope, "email").as_str()) {
                Ok(v) => v,
                Err(e) => {
                    return Err(e);
                },
            };
            Ok(PaymentMethod2::PayPal { email })
        } else if str_eq(name.as_str(), "BankTransfer") {
            let account_number = match read_text(answers, scoped_key(scope, "account_number").as_str()) {
                Ok(v) => v,
                Err(e) => {
                    return Err(e);
                },
            };
            let routing_number = match read_text(answers, scoped_key(scope, "routing_number").as_str()) {
                Ok(v) => v,
                Err(e) => {
                    return Err(e);
                },
            };
            Ok(PaymentMethod2::BankTransfer { account_number, routing_number })
        } else if str_eq(name.as_str(), "CashOnDelivery") {
            Ok(PaymentMethod2::CashOnDelivery)
        } else {
            Err(unknown(scope, "PaymentMethod2"))
        }
    }

    /// The names of the variants are different from each other, and so are
    /// the keys of one scope.
    pub proof fn lemma_names_apart(scope: Seq<char>)
        ensures
            "CreditCard"@ != "PayPal"@,
            "CreditCard"@ != "BankTransfer"@,
            "CreditCard"@ != "CashOnDelivery"@,
            "PayPal"@ != "BankTransfer"@,
            "PayPal"@ != "CashOnDelivery"@,
            "BankTransfer"@ != "CashOnDelivery"@,
            scoped(scope, "card_number"@) != scoped(scope, "expiry"@),
            scoped(scope, "card_number"@) != scoped(scope, "cvv"@),
            scoped(scope, "card_number"@) != scoped(scope, "email"@),
            scoped(scope, "card_number"@) != scoped(scope, "account_number"@),
            scoped(scope, "card_number"@) != scoped(scope, "routing_number"@),
            scoped(scope, "expiry"@) != scoped(scope, "cvv"@),
            scoped(scope, "expiry"@) != scoped(scope, "email"@),
            scoped(scope, "expiry"@) != scoped(scope, "account_number"@),
            scoped(scope, "expiry"@) != scoped(scope, "routing_number"@),
            scoped(scope, "cvv"@) != scoped(scope, "email"@),
            scoped(scope, "cvv"@) != scoped(scope, "account_number"@),
            scoped(scope, "cvv"@) != scoped(scope, "routing_number"@),
            scoped(scope, "email"@) != scoped(scope, "account_number"@),
            scoped(scope, "email"@) != scoped(scope, "routing_number"@),
            scoped(scope, "account_number"@) != scoped(scope, "routing_number"@),
            scoped(scope, "card_number"@) != choice_key(scope),
            scoped(scope, "expiry"@) != choice_key(scope),
            scoped(scope, "cvv"@) != choice_key(scope),
            scoped(scope, "email"@) != choice_key(scope),
            scoped(scope, "account_number"@) != choice_key(scope),
            scoped(scope, "routing_number"@) != choice_key(scope),
    {
        reveal_strlit("CreditCard");
        reveal_strlit("PayPal");
        reveal_strlit("BankTransfer");
        reveal_strlit("CashOnDelivery");
        reveal_strlit("card_number");
        reveal_strlit("expiry");
        reveal_strlit("cvv");
        reveal_strlit("email");
        reveal_strlit("account_number");
        reveal_strlit("routing_number");
        reveal_strlit("selected_alternative");
        assert("CreditCard"@.len() == 10);
        assert("PayPal"@.len() == 6);
        assert("BankTransfer"@.len() == 12);
        assert("CashOnDelivery"@.len() == 14);
        assert("card_number"@.len() == 11);
        assert("expiry"@.len() == 6);
        assert("cvv"@.len() == 3);
        assert("email"@.len() == 5);
        assert("account_number"@.len() == 14);
        assert("routing_number"@.len() == 14);
        assert(SELECTED_ALTERNATIVE_KEY@.len() == 20);
        assert("account_number"@[0] != "routing_number"@[0]);
        lemma_scoped_apart(scope, "card_number"@, "expiry"@);
        lemma_scoped_apart(scope, "card_number"@, "cvv"@);
        lemma_scoped_apart(scope, "card_number"@, "email"@);
        lemma_scoped_apart(scope, "card_number"@, "account_number"@);
        lemma_scoped_apart(scope, "card_number"@, "routing_number"@);
        lemma_scoped_apart(scope, "expiry"@, "cvv"@);
        lemma_scoped_apart(scope, "expiry"@, "email"@);
        lemma_scoped_apart(scope, "expiry"@, "account_number"@);
        lemma_scoped_apart(scope, "expiry"@, "routing_number"@);
        lemma_scoped_apart(scope, "cvv"@, "email"@);
        lemma_scoped_apart(scope, "cvv"@, "account_number"@);
        lemma_scoped_apart(scope, "cvv"@, "routing_number"@);
        lemma_scoped_apart(scope, "email"@, "account_number"@);
        lemma_scoped_apart(scope, "email"@, "routing_number"@);
        lemma_scoped_apart(scope, "account_number"@, "routing_number"@);
        lemma_scoped_apart(scope, "card_number"@, SELECTED_ALTERNATIVE_KEY@);
        lemma_scoped_apart(scope, "expiry"@, SELECTED_ALTERNATIVE_KEY@);
        lemma_scoped_apart(scope, "cvv"@, SELECTED_ALTERNATIVE_KEY@);
        lemma_scoped_apart(scope, "email"@, SELECTED_ALTERNATIVE_KEY@);
        lemma_scoped_apart(scope, "account_number"@, SELECTED_ALTERNATIVE_KEY@);
        lemma_scoped_apart(scope, "routing_number"@, SELECTED_ALTERNATIVE_KEY@);
    }

    /// What was written in a scope is read back from it.
    pub proof fn lemma_reads_back(&self, base: Map<Seq<char>, Value>, scope: Seq<char>)
        ensures
            Self::decoded_in(self.spelled_onto(base, scope), scope) == Ok::<PaymentMethod2Model, BackendErrorModel>(
                self@,
            ),
    {
        Self::lemma_names_apart(scope);
    }

    /// Writing in a scope changes nothing under a key outside the scope.
    pub proof fn lemma_writes_in_scope(&self, base: Map<Seq<char>, Value>, scope: Seq<char>, key: Seq<char>)
        requires
            forall|name: Seq<char>| key != #[trigger] scoped(scope, name),
        ensures
            self.spelled_onto(base, scope).contains_key(key) == base.contains_key(key),
            self.spelled_onto(base, scope)[key] == base[key],
    {
        assert(key != choice_key(scope));
        assert(key != scoped(scope, "card_number"@));
        assert(key != scoped(scope, "expiry"@));
        assert(key != scoped(scope, "cvv"@));
        assert(key != scoped(scope, "email"@));
        assert(key != scoped(scope, "account_number"@));
        assert(key != scoped(scope, "routing_number"@));
    }

    /// What is read in a scope depends on the answers of the scope alone.
    pub proof fn lemma_reads_in_scope(a: Map<Seq<char>, Value>, b: Map<Seq<char>, Value>, scope: Seq<char>)
        requires
            forall|name: Seq<char>|
                a.contains_key(#[trigger] scoped(scope, name)) == b.contains_key(scoped(scope, name))
                    && a[scoped(scope, name)] == b[scoped(scope, name)],
        ensures
            Self::decoded_in(a, scope) == Self::decoded_in(b, scope),
    {
        assert(a.contains_key(choice_key(scope)) == b.contains_key(choice_key(scope)));
        assert(a[choice_key(scope)] == b[choice_key(scope)]);
        assert(a.contains_key(scoped(scope, "card_number"@)) == b.contains_key(scoped(scope, "card_number"@)));
        assert(a[scoped(scope, "card_number"@)] == b[scoped(scope, "card_number"@)]);
        assert(a.contains_key(scoped(scope, "expiry"@)) == b.contains_key(scoped(scope, "expiry"@)));
        assert(a[scoped(scope, "expiry"@)] == b[scoped(scope, "expiry"@)]);
        assert(a.contains_key(scoped(scope, "cvv"@)) == b.contains_key(scoped(scope, "cvv"@)));
        assert(a[scoped(scope, "cvv"@)] == b[scoped(scope, "cvv"@)]);
        assert(a.contains_key(scoped(scope, "email"@)) == b.contains_key(scoped(scope, "email"@)));
        assert(a[scoped(scope, "email"@)] == b[scoped(scope, "email"@)]);
        assert(a.contains_key(scoped(scope, "account_number"@)) == b.contains_key(scoped(scope, "account_number"@)));
        assert(a[scoped(scope, "account_number"@)] == b[scoped(scope, "account_number"@)]);
        assert(a.contains_key(scoped(scope, "routing_number"@)) == b.contains_key(scoped(scope, "routing_number"@)));
        assert(a[scoped(scope, "routing_number"@)] == b[scoped(scope, "routing_number"@)]);
    }
}

impl Wizard for PaymentMethod2 {
    open spec fn tree() -> Seq<SectionModel> {
        seq![SectionModel::Alternatives(0, Self::branches())]
    }

    open spec fn spelled(&self) -> Map<Seq<char>, Value> {
        self.spelled_onto(Map::empty(), Seq::empty())
    }

    open spec fn decoded(answers: Map<Seq<char>, Value>) -> Result<PaymentMethod2Model, BackendErrorModel> {
        Self::decoded_in(answers, Seq::empty())
    }

    fn interview() -> (r: Interview) {
        let mut alternatives: Vec<Alternative> = Vec::new();
        let mut questions: Vec<Question> = Vec::new();
        questions.push(Question::input("card_number", "Card number:", None));
        questions.push(Question::input("expiry", "Expiry (MM/YY):", None));
        questions.push(Question::masked("cvv", "CVV:", None));
        let branch = Alternative::with_fields("CreditCard", questions);
        assert(branch@.section->Sequence_0 =~= Self::branches()[0].section->Sequence_0);
        alternatives.push(branch);
        let mut questions: Vec<Question> = Vec::new();
        questions.push(Question::input("email", "PayPal email:", None));
        let branch = Alternative::with_fields("PayPal", questions);
        assert(branch@.section->Sequence_0 =~= Self::branches()[1].section->Sequence_0);
        alternatives.push(branch);
        let mut questions: Vec<Question> = Vec::new();
        questions.push(Question::input("account_number", "Account number:", None));
        questions.push(Question::input("routing_number", "Routing number:", None));
        let branch = Alternative::with_fields("BankTransfer", questions);
        assert(branch@.section->Sequence_0 =~= Self::branches()[2].section->Sequence_0);
        alternatives.push(branch);
        alternatives.push(Alternative::unit("CashOnDelivery"));
        let r = Interview::of_alternatives(0, alternatives);
        assert(r@[0]->Alternatives_1 =~= Self::branches());
        assert(r@ =~= Self::tree());
        r
    }

    fn to_answers(&self) -> (r: Answers) {
        let mut r = Answers::new();
        let root = String::new();
        self.write_in(&mut r, root.as_str());
        r
    }

    fn from_answers(answers: &Answers) -> (r: Result<Self, BackendError>) {
        let root = String::new();
        Self::read_in(answers, root.as_str())
    }

    proof fn lemma_round_trip(&self) {
        self.lemma_reads_back(Map::empty(), Seq::empty());
    }
}

/// Complete order form with nested structures: the address is asked in
/// line, the two choices each in a question of its own.
#[derive(Debug)]
pub struct OrderForm {
    pub customer_name: String,
    pub email: String,
    pub phone: String,
    pub shipping_address: ShippingAddress,
    pub shipping_speed: ShippingSpeed,
    pub payment_method: PaymentMethod2,
    pub notes: String,
    pub save_details: bool,
}

/// What an OrderForm is, as mathematics.
pub ghost struct OrderFormModel {
    pub customer_name: Seq<char>,
    pub email: Seq<char>,
    pub phone: Seq<char>,
    pub shipping_address: ShippingAddressModel,
    pub shipping_speed: ShippingSpeed,
    pub payment_method: PaymentMethod2Model,
    pub notes: Seq<char>,
    pub save_details: bool,
}

impl View for OrderForm {
    type V = OrderFormModel;

    open spec fn view(&self) -> OrderFormModel {
        OrderFormModel {
            customer_name: self.customer_name@,
            email: self.email@,
            phone: self.phone@,
            shipping_address: self.shipping_address@,
            shipping_speed: self.shipping_speed,
            payment_method: self.payment_method@,
            notes: self.notes@,
            save_details: self.save_details,
        }
    }
}

impl OrderForm {
    /// The answers that spell the fields that hold no choice.
    pub open spec fn plain_fields(&self) -> Map<Seq<char>, Value> {
        Map::empty()
            .insert("customer_name"@, Value::Text(self.customer_name@))
            .insert("email"@, Value::Text(self.email@))
            .insert("phone"@, Value::Text(self.phone@))
            .insert("shipping_address.street"@, Value::Text(self.shipping_address.street@))
            .insert("shipping_address.city"@, Value::Text(self.shipping_address.city@))
            .insert("shipping_address.state"@, Value::Text(self.shipping_address.state@))
            .insert("shipping_address.postal_code"@, Value::Text(self.shipping_address.postal_code@))
            .insert("shipping_address.country"@, Value::Text(self.shipping_address.country@))
            .insert("notes"@, Value::Text(self.notes@))
            .insert("save_details"@, Value::Bool(self.save_details))
    }

    /// No key of a plain field lies in the scope of one of the two choices.
    proof fn lemma_plain_keys_outside(key: Seq<char>, scope: Seq<char>)
        requires
            key == "customer_name"@
                || key == "email"@
                || key == "phone"@
                || key == "shipping_address.street"@
                || key == "shipping_address.city"@
                || key == "shipping_address.state"@
                || key == "shipping_address.postal_code"@
                || key == "shipping_address.country"@
                || key == "notes"@
                || key == "save_details"@,
            scope == "shipping_speed"@ || scope == "payment_method"@,
        ensures
            forall|name: Seq<char>| key != #[trigger] scoped(scope, name),
    {
        reveal_strlit("customer_name");
        reveal_strlit("email");
        reveal_strlit("phone");
        reveal_strlit("shipping_address.street");
        reveal_strlit("shipping_address.city");
        reveal_strlit("shipping_address.state");
        reveal_strlit("shipping_address.postal_code");
        reveal_strlit("shipping_address.country");
        reveal_strlit("notes");
        reveal_strlit("save_details");
        reveal_strlit("shipping_speed");
        reveal_strlit("payment_method");
        assert("customer_name"@.len() == 13);
        assert("email"@.len() == 5);
        assert("phone"@.len() == 5);
        assert("shipping_address.street"@.len() == 23);
        assert("shipping_address.city"@.len() == 21);
        assert("shipping_address.state"@.len() == 22);
        assert("shipping_address.postal_code"@.len() == 28);
        assert("shipping_address.country"@.len() == 24);
        assert("notes"@.len() == 5);
        assert("save_details"@.len() == 12);
        assert("shipping_speed"@.len() == 14);
        assert("payment_method"@.len() == 14);
        assert("shipping_address.street"@[14] == 's');
        assert("shipping_address.city"@[14] == 's');
        assert("shipping_address.state"@[14] == 's');
        assert("shipping_address.postal_code"@[14] == 's');
        assert("shipping_address.country"@[14] == 's');
        assert forall|name: Seq<char>| key != #[trigger] scoped(scope, name) by {
            lemma_key_outside_scope(key, scope, name);
        }
    }
}

impl Wizard for OrderForm {
    open spec fn tree() -> Seq<SectionModel> {
        seq![
            SectionModel::Sequence(
                seq![
                    QuestionModel::input("customer_name"@, "Your name:"@, None),
                    QuestionModel::input("email"@, "Email for order confirmation:"@, None),
                    QuestionModel::input("phone"@, "Phone number:"@, None),
                    QuestionModel::input("shipping_address.street"@, "Street address:"@, None),
                    QuestionModel::input("shipping_address.city"@, "City:"@, None),
                    QuestionModel::input("shipping_address.state"@, "State/Province:"@, None),
                    QuestionModel::input("shipping_address.postal_code"@, "Postal code:"@, None),
                    QuestionModel::input("shipping_address.country"@, "Country:"@, None),
                    QuestionModel::nested(
                        "shipping_speed"@,
                        "Shipping speed:"@,
                        "ShippingSpeed"@,
                        ShippingSpeed::tree(),
                    ),
                    QuestionModel::nested(
                        "payment_method"@,
                        "Payment method:"@,
                        "PaymentMethod2"@,
                        PaymentMethod2::tree(),
                    ),
                    QuestionModel::multiline("notes"@, "Order notes (optional):"@, None),
                    QuestionModel::confirm("save_details"@, "Save for future orders?"@),
                ],
            ),
        ]
    }

    open spec fn spelled(&self) -> Map<Seq<char>, Value> {
        self.payment_method.spelled_onto(
            self.shipping_speed.spelled_onto(self.plain_fields(), "shipping_speed"@),
            "payment_method"@,
        )
    }

    open spec fn decoded(answers: Map<Seq<char>, Value>) -> Result<OrderFormModel, BackendErrorModel> {
        match text_in(answers, "customer_name"@) {
            Err(e) => Err(e),
            Ok(customer_name) => match text_in(answers, "email"@) {
                Err(e) => Err(e),
                Ok(email) => match text_in(answers, "phone"@) {
                    Err(e) => Err(e),
                    Ok(phone) => match text_in(answers, "shipping_address.street"@) {
                        Err(e) => Err(e),
                        Ok(shipping_address_street) => match text_in(answers, "shipping_address.city"@) {
                            Err(e) => Err(e),
                            Ok(shipping_address_city) => match text_in(answers, "shipping_address.state"@) {
                                Err(e) => Err(e),
                                Ok(shipping_address_state) => match text_in(answers, "shipping_address.postal_code"@) {
                                    Err(e) => Err(e),
                                    Ok(shipping_address_postal_code) => match text_in(answers, "shipping_address.country"@) {
                                        Err(e) => Err(e),
                                        Ok(shipping_address_country) => match ShippingSpeed::decoded_in(answers, "shipping_speed"@) {
                                            Err(e) => Err(e),
                                            Ok(shipping_speed) => match PaymentMethod2::decoded_in(answers, "payment_method"@) {
                                                Err(e) => Err(e),
                                                Ok(payment_method) => match text_in(answers, "notes"@) {
                                                    Err(e) => Err(e),
                                                    Ok(notes) => match bool_in(answers, "save_details"@) {
                                                        Err(e) => Err(e),
                                                        Ok(save_details) => Ok(
                                                            OrderFormModel {
                                                                customer_name,
                                                                email,
                                                                phone,
                                                                shipping_address: ShippingAddressModel {
                                                                    street: shipping_address_street,
                                                                    city: shipping_address_city,
                                                                    state: shipping_address_state,
                                                                    postal_code: shipping_address_postal_code,
                                                                    country: shipping_address_country,
                                                                },
                                                                shipping_speed,
                                                                payment_method,
                                                                notes,
                                                                save_details,
                                                            },
                                                        ),
                                                    },
                                                },
                                            },
                                        },
                                    },
                                },
                            },
                        },
                    },
                },
            },
        }
    }

    fn interview() -> (r: Interview) {
        let mut questions: Vec<Question> = Vec::new();
        questions.push(Question::input("customer_name", "Your name:", None));
        questions.push(Question::input("email", "Email for order confirmation:", None));
        questions.push(Question::input("phone", "Phone number:", None));
        questions.push(Question::input("shipping_address.street", "Street address:", None));
        questions.push(Question::input("shipping_address.city", "City:", None));
        questions.push(Question::input("shipping_address.state", "State/Province:", None));
        questions.push(Question::input("shipping_address.postal_code", "Postal code:", None));
        questions.push(Question::input("shipping_address.country", "Country:", None));
        questions.push(
            Question::nested(
                "shipping_speed",
                "Shipping speed:",
                "ShippingSpeed",
                ShippingSpeed::interview(),
            ),
        );
        questions.push(
            Question::nested(
                "payment_method",
                "Payment method:",
                "PaymentMethod2",
                PaymentMethod2::interview(),
            ),
        );
        questions.push(Question::multiline("notes", "Order notes (optional):", None));
        questions.push(Question::confirm("save_details", "Save for future orders?"));
        let r = Interview::of_sequence(questions);
        assert(r@[0]->Sequence_0 =~= Self::tree()[0]->Sequence_0);
        assert(r@ =~= Self::tree());
        r
    }

    fn to_answers(&self) -> (r: Answers) {
        let mut r = Answers::new();
        r.insert("customer_name".to_owned(), AnswerValue::String(self.customer_name.clone()));
        r.insert("email".to_owned(), AnswerValue::String(self.email.clone()));
        r.insert("phone".to_owned(), AnswerValue::String(self.phone.clone()));
        r.insert("shipping_address.street".to_owned(), AnswerValue::String(self.shipping_address.street.clone()));
        r.insert("shipping_address.city".to_owned(), AnswerValue::String(self.shipping_address.city.clone()));
        r.insert("shipping_address.state".to_owned(), AnswerValue::String(self.shipping_address.state.clone()));
        r.insert("shipping_address.postal_code".to_owned(), AnswerValue::String(self.shipping_address.postal_code.clone()));
        r.insert("shipping_address.country".to_owned(), AnswerValue::String(self.shipping_address.country.clone()));
        r.insert("notes".to_owned(), AnswerValue::String(self.notes.clone()));
        r.insert("save_details".to_owned(), AnswerValue::Bool(self.save_details));
        self.shipping_speed.write_in(&mut r, "shipping_speed");
        self.payment_method.write_in(&mut r, "payment_method");
        r
    }

    fn from_answers(answers: &Answers) -> (r: Result<Self, BackendError>) {
        let customer_name = match read_text(answers, "customer_name") {
            Ok(v) => v,
            Err(e) => {
                return Err(e);
            },
        };
        let email = match read_text(answers, "email") {
            Ok(v) => v,
            Err(e) => {
                return Err(e);
            },
        };
        let phone = match read_text(answers, "phone") {
            Ok(v) => v,
            Err(e) => {
                return Err(e);
            },
        };
        let shipping_address_street = match read_text(answers, "shipping_address.street") {
            Ok(v) => v,
            Err(e) => {
                return Err(e);
            },
        };
        let shipping_address_city = match read_text(answers, "shipping_address.city") {
            Ok(v) => v,
            Err(e) => {
                return Err(e);
            },
        };
        let shipping_address_state = match read_text(answers, "shipping_address.state") {
            Ok(v) => v,
            Err(e) => {
                return Err(e);
            },
        };
        let shipping_address_postal_code = match read_text(answers, "shipping_address.postal_code") {
            Ok(v) => v,
            Err(e) => {
                return Err(e);
            },
        };
        let shipping_address_country = match read_text(answers, "shipping_address.country") {
            Ok(v) => v,
            Err(e) => {
                return Err(e);
            },
        };
        let shipping_speed = match ShippingSpeed::read_in(answers, "shipping_speed") {
            Ok(v) => v,
            Err(e) => {
                return Err(e);
            },
        };
        let payment_method = match PaymentMethod2::read_in(answers, "payment_method") {
            Ok(v) => v,
            Err(e) => {
                return Err(e);
            },
        };
        let notes = match read_text(answers, "notes") {
            Ok(v) => v,
            Err(e) => {
                return Err(e);
            },
        };
        let save_details = match read_bool(answers, "save_details") {
            Ok(v) => v,
            Err(e) => {
                return Err(e);
            },
        };
        Ok(
            OrderForm {
                customer_name,
                email,
                phone,
                shipping_address: ShippingAddress {
                    street: shipping_address_street,
                    city: shipping_address_city,
                    state: shipping_address_state,
                    postal_code: shipping_address_postal_code,
                    country: shipping_address_country,
                },
                shipping_speed,
                payment_method,
                notes,
                save_details,
            },
        )
    }

    proof fn lemma_round_trip(&self) {
        let plain = self.plain_fields();
        let first = self.shipping_speed.spelled_onto(plain, "shipping_speed"@);
        let all = self.spelled();
        reveal_strlit("customer_name");
        reveal_strlit("email");
        reveal_strlit("phone");
        reveal_strlit("shipping_address.street");
        reveal_strlit("shipping_address.city");
        reveal_strlit("shipping_address.state");
        reveal_strlit("shipping_address.postal_code");
        reveal_strlit("shipping_address.country");
        reveal_strlit("notes");
        reveal_strlit("save_details");
        assert("customer_name"@.len() == 13);
        assert("email"@.len() == 5);
        assert("phone"@.len() == 5);
        assert("shipping_address.street"@.len() == 23);
        assert("shipping_address.city"@.len() == 21);
        assert("shipping_address.state"@.len() == 22);
        assert("shipping_address.postal_code"@.len() == 28);
        assert("shipping_address.country"@.len() == 24);
        assert("notes"@.len() == 5);
        assert("save_details"@.len() == 12);
        assert("email"@[0] != "phone"@[0]);
        assert("email"@[0] != "notes"@[0]);
        assert("phone"@[0] != "notes"@[0]);
        assert("customer_name"@ != "email"@);
        assert("customer_name"@ != "phone"@);
        assert("customer_name"@ != "shipping_address.street"@);
        assert("customer_name"@ != "shipping_address.city"@);
        assert("customer_name"@ != "shipping_address.state"@);
        assert("customer_name"@ != "shipping_address.postal_code"@);
        assert("customer_name"@ != "shipping_address.country"@);
        assert("customer_name"@ != "notes"@);
        assert("customer_name"@ != "save_details"@);
        assert("email"@ != "phone"@);
        assert("email"@ != "shipping_address.street"@);
        assert("email"@ != "shipping_address.city"@);
        assert("email"@ != "shipping_address.state"@);
        assert("email"@ != "shipping_address.postal_code"@);
        assert("email"@ != "shipping_address.country"@);
        assert("email"@ != "notes"@);
        assert("email"@ != "save_details"@);
        assert("phone"@ != "shipping_address.street"@);
        assert("phone"@ != "shipping_address.city"@);
        assert("phone"@ != "shipping_address.state"@);
        assert("phone"@ != "shipping_address.postal_code"@);
        assert("phone"@ != "shipping_address.country"@);
        assert("phone"@ != "notes"@);
        assert("phone"@ != "save_details"@);
        assert("shipping_address.street"@ != "shipping_address.city"@);
        assert("shipping_address.street"@ != "shipping_address.state"@);
        assert("shipping_address.street"@ != "shipping_address.postal_code"@);
        assert("shipping_address.street"@ != "shipping_address.country"@);
        assert("shipping_address.street"@ != "notes"@);
        assert("shipping_address.street"@ != "save_details"@);
        assert("shipping_address.city"@ != "shipping_address.state"@);
        assert("shipping_address.city"@ != "shipping_address.postal_code"@);
        assert("shipping_address.city"@ != "shipping_address.country"@);
        assert("shipping_address.city"@ != "notes"@);
        assert("shipping_address.city"@ != "save_details"@);
        assert("shipping_address.state"@ != "shipping_address.postal_code"@);
        assert("shipping_address.state"@ != "shipping_address.country"@);
        assert("shipping_address.state"@ != "notes"@);
        assert("shipping_address.state"@ != "save_details"@);
        assert("shipping_address.postal_code"@ != "shipping_address.country"@);
        assert("shipping_address.postal_code"@ != "notes"@);
        assert("shipping_address.postal_code"@ != "save_details"@);
        assert("shipping_address.country"@ != "notes"@);
        assert("shipping_address.country"@ != "save_details"@);
        assert("notes"@ != "save_details"@);
        reveal_strlit("shipping_speed");
        reveal_strlit("payment_method");
        assert("shipping_speed"@.len() == 14);
        assert("payment_method"@.len() == 14);
        assert forall|key: Seq<char>| #[trigger]
            plain.contains_key(key) implies all.contains_key(key) && all[key] == plain[key] by {
            Self::lemma_plain_keys_outside(key, "shipping_speed"@);
            Self::lemma_plain_keys_outside(key, "payment_method"@);
            self.shipping_speed.lemma_writes_in_scope(plain, "shipping_speed"@, key);
            self.payment_method.lemma_writes_in_scope(first, "payment_method"@, key);
        }
        assert forall|name: Seq<char>|
            all.contains_key(#[trigger] scoped("shipping_speed"@, name)) == first.contains_key(
                scoped("shipping_speed"@, name),
            ) && all[scoped("shipping_speed"@, name)] == first[scoped("shipping_speed"@, name)] by {
            let key = scoped("shipping_speed"@, name);
            assert forall|other: Seq<char>| key != #[trigger] scoped("payment_method"@, other) by {
                lemma_scopes_apart("shipping_speed"@, name, "payment_method"@, other);
            }
            self.payment_method.lemma_writes_in_scope(first, "payment_method"@, key);
        }
        ShippingSpeed::lemma_reads_in_scope(all, first, "shipping_speed"@);
        self.shipping_speed.lemma_reads_back(plain, "shipping_speed"@);
        self.payment_method.lemma_reads_back(first, "payment_method"@);
        assert(plain.contains_key("customer_name"@));
        assert(plain.contains_key("email"@));
        assert(plain.contains_key("phone"@));
        assert(plain.contains_key("shipping_address.street"@));
        assert(plain.contains_key("shipping_address.city"@));
        assert(plain.contains_key("shipping_address.state"@));
        assert(plain.contains_key("shipping_address.postal_code"@));
        assert(plain.contains_key("shipping_address.country"@));
        assert(plain.contains_key("notes"@));
        assert(plain.contains_key("save_details"@));
    }
}

} // verus!
