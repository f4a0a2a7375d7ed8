//! Choices: a shipping method without further questions, a payment method
//! whose variants ask questions of their own, and a checkout that holds both.

use vstd::prelude::*;
use crate::answer::{Answers, AnswerValue, Value};
use crate::backend::{BackendError, BackendErrorModel};
use crate::interview::{Alternative, AlternativeModel, Interview, SectionModel};
use crate::question::{Question, QuestionModel};
use crate::reconstruct::{
    choice_key, lemma_scoped_apart, lemma_scopes_apart, read_text, text_in, unknown,
    unknown_variant,
};
use crate::text::{scoped, scoped_key, str_eq};
use crate::wizard::Wizard;
use crate::SELECTED_ALTERNATIVE_KEY;

verus! {

#[derive(Debug, Clone, Copy, PartialEq, Eq, Structural)]
pub enum ShippingMethod {
    Standard,
    Express,
    Overnight,
}

#[derive(Debug)]
pub enum PaymentMethod {
    CreditCard { card_number: String, cvv: String },
    PayPal(String),
    CashOnDelivery,
    Other(String),
}

#[derive(Debug)]
pub struct Checkout {
    pub shipping: ShippingMethod,
    pub payment: PaymentMethod,
}

/// What a payment method is, as mathematics.
pub ghost enum PaymentMethodModel {
    CreditCard { card_number: Seq<char>, cvv: Seq<char> },
    PayPal(Seq<char>),
    CashOnDelivery,
    Other(Seq<char>),
}

/// What a checkout is, as mathematics.
pub ghost struct CheckoutModel {
    pub shipping: ShippingMethod,
    pub payment: PaymentMethodModel,
}

impl View for ShippingMethod {
    type V = ShippingMethod;

    open spec fn view(&self) -> ShippingMethod {
        *self
    }
}

impl View for PaymentMethod {
    type V = PaymentMethodModel;

    open spec fn view(&self) -> PaymentMethodModel {
        match self {
            PaymentMethod::CreditCard { card_number, cvv } => PaymentMethodModel::CreditCard {
                card_number: card_number@,
                cvv: cvv@,
            },
            PaymentMethod::PayPal(email) => PaymentMethodModel::PayPal(email@),
            PaymentMethod::CashOnDelivery => PaymentMethodModel::CashOnDelivery,
            PaymentMethod::Other(text) => PaymentMethodModel::Other(text@),
        }
    }
}

impl View for Checkout {
    type V = CheckoutModel;

    open spec fn view(&self) -> CheckoutModel {
        CheckoutModel { shipping: self.shipping, payment: self.payment@ }
    }
}

impl ShippingMethod {
    /// The name of the variant.
    pub open spec fn name_model(self) -> Seq<char> {
        match self {
            ShippingMethod::Standard => "Standard"@,
            ShippingMethod::Express => "Express"@,
            ShippingMethod::Overnight => "Overnight"@,
        }
    }

    /// The branches of the choice.
    pub open spec fn branches() -> Seq<AlternativeModel> {
        seq![
            AlternativeModel { name: "Standard"@, section: SectionModel::Empty },
            AlternativeModel { name: "Express"@, section: SectionModel::Empty },
            AlternativeModel { name: "Overnight"@, section: SectionModel::Empty },
        ]
    }

    /// The answers in `base`, with those that spell this value in `scope`.
    pub open spec fn spelled_onto(self, base: Map<Seq<char>, Value>, scope: Seq<char>) -> Map<
        Seq<char>,
        Value,
    > {
        base.insert(choice_key(scope), Value::Text(self.name_model()))
    }

    /// The value that the answers spell in `scope`.
    pub open spec fn decoded_in(answers: Map<Seq<char>, Value>, scope: Seq<char>) -> Result<
        ShippingMethod,
        BackendErrorModel,
    > {
        match text_in(answers, choice_key(scope)) {
            Err(e) => Err(e),
            Ok(name) => if name == "Standard"@ {
                Ok(ShippingMethod::Standard)
            } else if name == "Express"@ {
                Ok(ShippingMethod::Express)
            } else if name == "Overnight"@ {
                Ok(ShippingMethod::Overnight)
            } else {
                Err(unknown_variant(scope, "ShippingMethod"@))
            },
        }
    }

    /// The name of the variant.
    pub fn name(&self) -> (r: &'static str)
        ensures
            r@ == self.name_model(),
    {
        match self {
            ShippingMethod::Standard => "Standard",
            ShippingMethod::Express => "Express",
            ShippingMethod::Overnight => "Overnight",
        }
    }

    /// Adds the answers that spell this value in `scope`.
    pub fn write_in(&self, answers: &mut Answers, scope: &str)
        ensures
            final(answers)@ == self.spelled_onto(old(answers)@, scope@),
    {
        answers.insert(
            scoped_key(scope, SELECTED_ALTERNATIVE_KEY),
            AnswerValue::String(self.name().to_owned()),
        );
    }

    /// Reads the value that the answers spell in `scope`.
    pub fn read_in(answers: &Answers, scope: &str) -> (r: Result<ShippingMethod, BackendError>)
        ensures
            match r {
                Ok(v) => Self::decoded_in(answers@, scope@) == Ok::<
                    ShippingMethod,
                    BackendErrorModel,
                >(v),
                Err(e) => Self::decoded_in(answers@, scope@) == Err::<
                    ShippingMethod,
                    BackendErrorModel,
                >(e@),
            },
    {
        let key = scoped_key(scope, SELECTED_ALTERNATIVE_KEY);
        let name = match read_text(answers, key.as_str()) {
            Ok(name) => name,
            Err(e) => {
                return Err(e);
            },
        };
        if str_eq(name.as_str(), "Standard") {
            Ok(ShippingMethod::Standard)
        } else if str_eq(name.as_str(), "Express") {
            Ok(ShippingMethod::Express)
        } else if str_eq(name.as_str(), "Overnight") {
            Ok(ShippingMethod::Overnight)
        } else {
            Err(unknown(scope, "ShippingMethod"))
        }
    }

    /// The names of the variants are different from each other.
    pub proof fn lemma_names_apart()
        ensures
            "Standard"@ != "Express"@,
            "Standard"@ != "Overnight"@,
            "Express"@ != "Overnight"@,
    {
        reveal_strlit("Standard");
        reveal_strlit("Express");
        reveal_strlit("Overnight");
        assert("Standard"@.len() == 8);
        assert("Express"@.len() == 7);
        assert("Overnight"@.len() == 9);
    }

    /// What was written in a scope is read back from it.
    pub proof fn lemma_reads_back(self, base: Map<Seq<char>, Value>, scope: Seq<char>)
        ensures
            Self::decoded_in(self.spelled_onto(base, scope), scope) == Ok::<
                ShippingMethod,
                BackendErrorModel,
            >(self),
    {
        Self::lemma_names_apart();
    }
}

impl Wizard for ShippingMethod {
    open spec fn tree() -> Seq<SectionModel> {
        seq![SectionModel::Alternatives(0, Self::branches())]
    }

    open spec fn spelled(&self) -> Map<Seq<char>, Value> {
        self.spelled_onto(Map::empty(), Seq::empty())
    }

    open spec fn decoded(answers: Map<Seq<char>, Value>) -> Result<
        ShippingMethod,
        BackendErrorModel,
    > {
        Self::decoded_in(answers, Seq::empty())
    }

    fn interview() -> (r: Interview) {
        let mut alternatives: Vec<Alternative> = Vec::new();
        alternatives.push(Alternative::unit("Standard"));
        alternatives.push(Alternative::unit("Express"));
        alternatives.push(Alternative::unit("Overnight"));
        let r = Interview::of_alternatives(0, alternatives);
        assert(r@[0]->Alternatives_1 =~= Self::branches());
        assert(r@ =~= Self::tree());
        r
    }

    fn to_answers(&self) -> (r: Answers) {
        let mut r = Answers::new();
        let root = String::new();
        self.write_in(&mut r, root.as_str());
        r
    }

    fn from_answers(answers: &Answers) -> (r: Result<Self, BackendError>) {
        let root = String::new();
        Self::read_in(answers, root.as_str())
    }

    proof fn lemma_round_trip(&self) {
        self.lemma_reads_back(Map::empty(), Seq::empty());
    }
}

impl PaymentMethod {
    /// The name of the variant.
    pub open spec fn name_model(&self) -> Seq<char> {
        match self {
            PaymentMethod::CreditCard { .. } => "CreditCard"@,
            PaymentMethod::PayPal(_) => "PayPal"@,
            PaymentMethod::CashOnDelivery => "CashOnDelivery"@,
            PaymentMethod::Other(_) => "Other"@,
        }
    }

    /// The branches of the choice.
    pub open spec fn branches() -> Seq<AlternativeModel> {
        seq![
            AlternativeModel {
                name: "CreditCard"@,
                section: SectionModel::Sequence(
                    seq![
                        QuestionModel::input("card_number"@, "Card number:"@, None),
                        QuestionModel::input("cvv"@, "CVV:"@, None),
                    ],
                ),
            },
            AlternativeModel {
                name: "PayPal"@,
                section: SectionModel::Sequence(
                    seq![QuestionModel::input("PayPal field 0"@, "Enter your PayPal email:"@, None)],
                ),
            },
            AlternativeModel { name: "CashOnDelivery"@, section: SectionModel::Empty },
            AlternativeModel {
                name: "Other"@,
                section: SectionModel::Sequence(
                    seq![QuestionModel::input("Other field 0"@, "Describe other method:"@, None)],
                ),
            },
        ]
    }

    /// The answers in `base`, with those that spell this value in `scope`:
    /// the fields of the variant, then the name of the variant.
    pub open spec fn spelled_onto(&self, base: Map<Seq<char>, Value>, scope: Seq<char>) -> Map<
        Seq<char>,
        Value,
    > {
        match self {
            PaymentMethod::CreditCard { card_number, cvv } => base.insert(
                scoped(scope, "card_number"@),
                Value::Text(card_number@),
            ).insert(scoped(scope, "cvv"@), Value::Text(cvv@)),
            PaymentMethod::PayPal(email) => base.insert(
                scoped(scope, "PayPal field 0"@),
                Value::Text(email@),
            ),
            PaymentMethod::CashOnDelivery => base,
            PaymentMethod::Other(text) => base.insert(
                scoped(scope, "Other field 0"@),
                Value::Text(text@),
            ),
        }.insert(choice_key(scope), Value::Text(self.name_model()))
    }

    /// The value that the answers spell in `scope`.
    pub open spec fn decoded_in(answers: Map<Seq<char>, Value>, scope: Seq<char>) -> Result<
        PaymentMethodModel,
        BackendErrorModel,
    > {
        match text_in(answers, choice_key(scope)) {
            Err(e) => Err(e),
            Ok(name) => if name == "CreditCard"@ {
                match text_in(answers, scoped(scope, "card_number"@)) {
                    Err(e) => Err(e),
                    Ok(card_number) => match text_in(answers, scoped(scope, "cvv"@)) {
                        Err(e) => Err(e),
                        Ok(cvv) => Ok(PaymentMethodModel::CreditCard { card_number, cvv }),
                    },
                }
            } else if name == "PayPal"@ {
                match text_in(answers, scoped(scope, "PayPal field 0"@)) {
                    Err(e) => Err(e),
                    Ok(email) => Ok(PaymentMethodModel::PayPal(email)),
                }
            } else if name == "CashOnDelivery"@ {
                Ok(PaymentMethodModel::CashOnDelivery)
            } else if name == "Other"@ {
                match text_in(answers, scoped(scope, "Other field 0"@)) {
                    Err(e) => Err(e),
                    Ok(text) => Ok(PaymentMethodModel::Other(text)),
                }
            } else {
                Err(unknown_variant(scope, "PaymentMethod"@))
            },
        }
    }

    /// The name of the variant.
    pub fn name(&self) -> (r: &'static str)
        ensures
            r@ == self.name_model(),
    {
        match self {
            PaymentMethod::CreditCard { .. } => "CreditCard",
            PaymentMethod::PayPal(_) => "PayPal",
            PaymentMethod::CashOnDelivery => "CashOnDelivery",
            PaymentMethod::Other(_) => "Other",
        }
    }

    /// Adds the answers that spell this value in `scope`.
    pub fn write_in(&self, answers: &mut Answers, scope: &str)
        ensures
            final(answers)@ == self.spelled_onto(old(answers)@, scope@),
    {
        match self {
            PaymentMethod::CreditCard { card_number, cvv } => {
                answers.insert(
                    scoped_key(scope, "card_number"),
                    AnswerValue::String(card_number.clone()),
                );
                answers.insert(scoped_key(scope, "cvv"), AnswerValue::String(cvv.clone()));
            },
            PaymentMethod::PayPal(email) => {
                answers.insert(
                    scoped_key(scope, "PayPal field 0"),
                    AnswerValue::String(email.clone()),
                );
            },
            PaymentMethod::CashOnDelivery => {},
            PaymentMethod::Other(text) => {
                answers.insert(scoped_key(scope, "Other field 0"), AnswerValue::String(text.clone()));
            },
        }
        answers.insert(
            scoped_key(scope, SELECTED_ALTERNATIVE_KEY),
            AnswerValue::String(self.name().to_owned()),
        );
    }

    /// Reads the value that the answers spell in `scope`.
    pub fn read_in(answers: &Answers, scope: &str) -> (r: Result<PaymentMethod, BackendError>)
        ensures
            match r {
                Ok(v) => Self::decoded_in(answers@, scope@) == Ok::<
                    PaymentMethodModel,
                    BackendErrorModel,
                >(v@),
                Err(e) => Self::decoded_in(answers@, scope@) == Err::<
                    PaymentMethodModel,
                    BackendErrorModel,
                >(e@),
            },
    {
        let key = scoped_key(scope, SELECTED_ALTERNATIVE_KEY);
        let name = match read_text(answers, key.as_str()) {
            Ok(name) => name,
            Err(e) => {
                return Err(e);
            },
        };
        if str_eq(name.as_str(), "CreditCard") {
            let card_number = match read_text(answers, scoped_key(scope, "card_number").as_str()) {
                Ok(v) => v,
                Err(e) => {
                    return Err(e);
                },
            };
            let cvv = match read_text(answers, scoped_key(scope, "cvv").as_str()) {
                Ok(v) => v,
                Err(e) => {
                    return Err(e);
                },
            };
            Ok(PaymentMethod::CreditCard { card_number, cvv })
        } else if str_eq(name.as_str(), "PayPal") {
            match read_text(answers, scoped_key(scope, "PayPal field 0").as_str()) {
                Ok(email) => Ok(PaymentMethod::PayPal(email)),
                Err(e) => Err(e),
            }
        } else if str_eq(name.as_str(), "CashOnDelivery") {
            Ok(PaymentMethod::CashOnDelivery)
        } else if str_eq(name.as_str(), "Other") {
            match read_text(answers, scoped_key(scope, "Other field 0").as_str()) {
                Ok(text) => Ok(PaymentMethod::Other(text)),
                Err(e) => Err(e),
            }
        } else {
            Err(unknown(scope, "PaymentMethod"))
        }
    }

    /// The names of the variants, and the keys of one scope, are different
    /// from each other.
    pub proof fn lemma_names_apart(scope: Seq<char>)
        ensures
            "CreditCard"@ != "PayPal"@,
            "CreditCard"@ != "CashOnDelivery"@,
            "CreditCard"@ != "Other"@,
            "PayPal"@ != "CashOnDelivery"@,
            "PayPal"@ != "Other"@,
            "CashOnDelivery"@ != "Other"@,
            scoped(scope, "card_number"@) != scoped(scope, "cvv"@),
            scoped(scope, "card_number"@) != choice_key(scope),
            scoped(scope, "cvv"@) != choice_key(scope),
            scoped(scope, "PayPal field 0"@) != choice_key(scope),
            scoped(scope, "Other field 0"@) != choice_key(scope),
    {
        reveal_strlit("CreditCard");
        reveal_strlit("PayPal");
        reveal_strlit("CashOnDelivery");
        reveal_strlit("Other");
        reveal_strlit("card_number");
        reveal_strlit("cvv");
        reveal_strlit("PayPal field 0");
        reveal_strlit("Other field 0");
        reveal_strlit("selected_alternative");
        assert("CreditCard"@.len() == 10);
        assert("PayPal"@.len() == 6);
        assert("CashOnDelivery"@.len() == 14);
        assert("Other"@.len() == 5);
        assert("card_number"@.len() == 11);
        assert("cvv"@.len() == 3);
        assert("PayPal field 0"@.len() == 14);
        assert("Other field 0"@.len() == 13);
        assert(SELECTED_ALTERNATIVE_KEY@.len() == 20);
        lemma_scoped_apart(scope, "card_number"@, "cvv"@);
        lemma_scoped_apart(scope, "card_number"@, SELECTED_ALTERNATIVE_KEY@);
        lemma_scoped_apart(scope, "cvv"@, SELECTED_ALTERNATIVE_KEY@);
        lemma_scoped_apart(scope, "PayPal field 0"@, SELECTED_ALTERNATIVE_KEY@);
        lemma_scoped_apart(scope, "Other field 0"@, SELECTED_ALTERNATIVE_KEY@);
    }

    /// What was written in a scope is read back from it.
    pub proof fn lemma_reads_back(&self, base: Map<Seq<char>, Value>, scope: Seq<char>)
        ensures
            Self::decoded_in(self.spelled_onto(base, scope), scope) == Ok::<
                PaymentMethodModel,
                BackendErrorModel,
            >(self@),
    {
        Self::lemma_names_apart(scope);
    }
}

impl Wizard for PaymentMethod {
    open spec fn tree() -> Seq<SectionModel> {
        seq![SectionModel::Alternatives(0, Self::branches())]
    }

    open spec fn spelled(&self) -> Map<Seq<char>, Value> {
        self.spelled_onto(Map::empty(), Seq::empty())
    }

    open spec fn decoded(answers: Map<Seq<char>, Value>) -> Result<
        PaymentMethodModel,
        BackendErrorModel,
    > {
        Self::decoded_in(answers, Seq::empty())
    }

    fn interview() -> (r: Interview) {
        let mut alternatives: Vec<Alternative> = Vec::new();
        let mut card: Vec<Question> = Vec::new();
        card.push(Question::input("card_number", "Card number:", None));
        card.push(Question::input("cvv", "CVV:", None));
        let card = Alternative::with_fields("CreditCard", card);
        assert(card@.section->Sequence_0 =~= Self::branches()[0].section->Sequence_0);
        alternatives.push(card);
        let mut paypal: Vec<Question> = Vec::new();
        paypal.push(Question::input("PayPal field 0", "Enter your PayPal email:", None));
        let paypal = Alternative::with_fields("PayPal", paypal);
        assert(paypal@.section->Sequence_0 =~= Self::branches()[1].section->Sequence_0);
        alternatives.push(paypal);
        alternatives.push(Alternative::unit("CashOnDelivery"));
        let mut other: Vec<Question> = Vec::new();
        other.push(Question::input("Other field 0", "Describe other method:", None));
        let other = Alternative::with_fields("Other", other);
        assert(other@.section->Sequence_0 =~= Self::branches()[3].section->Sequence_0);
        alternatives.push(other);
        let r = Interview::of_alternatives(0, alternatives);
        assert(r@[0]->Alternatives_1 =~= Self::branches());
        assert(r@ =~= Self::tree());
        r
    }

    fn to_answers(&self) -> (r: Answers) {
        let mut r = Answers::new();
        let root = String::new();
        self.write_in(&mut r, root.as_str());
        r
    }

    fn from_answers(answers: &Answers) -> (r: Result<Self, BackendError>) {
        let root = String::new();
        Self::read_in(answers, root.as_str())
    }

    proof fn lemma_round_trip(&self) {
        self.lemma_reads_back(Map::empty(), Seq::empty());
    }
}

impl Wizard for Checkout {
    open spec fn tree() -> Seq<SectionModel> {
        seq![
            SectionModel::Sequence(
                seq![
                    QuestionModel::nested(
                        "shipping"@,
                        "Select shipping method:"@,
                        "ShippingMethod"@,
                        ShippingMethod::tree(),
                    ),
                    QuestionModel::nested(
                        "payment"@,
                        "Select payment method:"@,
                        "PaymentMethod"@,
                        PaymentMethod::tree(),
                    ),
                ],
            ),
        ]
    }

    open spec fn spelled(&self) -> Map<Seq<char>, Value> {
        self.payment.spelled_onto(
            self.shipping.spelled_onto(Map::empty(), "shipping"@),
            "payment"@,
        )
    }

    open spec fn decoded(answers: Map<Seq<char>, Value>) -> Result<CheckoutModel, BackendErrorModel> {
        match ShippingMethod::decoded_in(answers, "shipping"@) {
            Err(e) => Err(e),
            Ok(shipping) => match PaymentMethod::decoded_in(answers, "payment"@) {
                Err(e) => Err(e),
                Ok(payment) => Ok(CheckoutModel { shipping, payment }),
            },
        }
    }

    fn interview() -> (r: Interview) {
        let mut questions: Vec<Question> = Vec::new();
        questions.push(
            Question::nested(
                "shipping",
                "Select shipping method:",
                "ShippingMethod",
                ShippingMethod::interview(),
            ),
        );
        questions.push(
            Question::nested(
                "payment",
                "Select payment method:",
                "PaymentMethod",
                PaymentMethod::interview(),
            ),
        );
        let r = Interview::of_sequence(questions);
        assert(r@[0]->Sequence_0 =~= Self::tree()[0]->Sequence_0);
        assert(r@ =~= Self::tree());
        r
    }

    fn to_answers(&self) -> (r: Answers) {
        let mut r = Answers::new();
        self.shipping.write_in(&mut r, "shipping");
        self.payment.write_in(&mut r, "payment");
        r
    }

    fn from_answers(answers: &Answers) -> (r: Result<Self, BackendError>) {
        let shipping = match ShippingMethod::read_in(answers, "shipping") {
            Ok(v) => v,
            Err(e) => {
                return Err(e);
            },
        };
        let payment = match PaymentMethod::read_in(answers, "payment") {
            Ok(v) => v,
            Err(e) => {
                return Err(e);
            },
        };
        Ok(Checkout { shipping, payment })
    }

    proof fn lemma_round_trip(&self) {
        let first = self.shipping.spelled_onto(Map::empty(), "shipping"@);
        self.shipping.lemma_reads_back(Map::empty(), "shipping"@);
        self.payment.lemma_reads_back(first, "payment"@);
        reveal_strlit("shipping");
        reveal_strlit("payment");
        assert("shipping"@.len() == 8);
        assert("payment"@.len() == 7);
        let choice = choice_key("shipping"@);
        lemma_scopes_apart("shipping"@, SELECTED_ALTERNATIVE_KEY@, "payment"@, "card_number"@);
        lemma_scopes_apart("shipping"@, SELECTED_ALTERNATIVE_KEY@, "payment"@, "cvv"@);
        lemma_scopes_apart("shipping"@, SELECTED_ALTERNATIVE_KEY@, "payment"@, "PayPal field 0"@);
        lemma_scopes_apart("shipping"@, SELECTED_ALTERNATIVE_KEY@, "payment"@, "Other field 0"@);
        lemma_scopes_apart(
            "shipping"@,
            SELECTED_ALTERNATIVE_KEY@,
            "payment"@,
            SELECTED_ALTERNATIVE_KEY@,
        );
        assert(self.spelled()[choice] == first[choice]);
    }
}

} // verus!
