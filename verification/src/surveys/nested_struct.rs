//! Structs within a struct: the inner fields are asked in line.

use vstd::prelude::*;
use crate::answer::{Answers, AnswerValue, Value};
use crate::backend::{BackendError, BackendErrorModel};
use crate::interview::{Interview, SectionModel};
use crate::question::{Question, QuestionModel};
use crate::reconstruct::{int_in, read_int, read_text, text_in};
use crate::wizard::Wizard;

verus! {

/// A postal address.
#[derive(Debug)]
pub struct Address {
    pub street: String,
    pub city: String,
    pub postal_code: String,
    pub country: String,
}

/// What an Address is, as mathematics.
pub ghost struct AddressModel {
    pub street: Seq<char>,
    pub city: Seq<char>,
    pub postal_code: Seq<char>,
    pub country: Seq<char>,
}

impl View for Address {
    type V = AddressModel;

    open spec fn view(&self) -> AddressModel {
        AddressModel {
            street: self.street@,
            city: self.city@,
            postal_code: self.postal_code@,
            country: self.country@,
        }
    }
}

impl Wizard for Address {
    open spec fn tree() -> Seq<SectionModel> {
        seq![
            SectionModel::Sequence(
                seq![
                    QuestionModel::input("street"@, "Street address:"@, None),
                    QuestionModel::input("city"@, "City:"@, None),
                    QuestionModel::input("postal_code"@, "Postal code:"@, None),
                    QuestionModel::input("country"@, "Country:"@, None),
                ],
            ),
        ]
    }

    open spec fn spelled(&self) -> Map<Seq<char>, Value> {
        Map::empty()
            .insert("street"@, Value::Text(self.street@))
            .insert("city"@, Value::Text(self.city@))
            .insert("postal_code"@, Value::Text(self.postal_code@))
            .insert("country"@, Value::Text(self.country@))
    }

    open spec fn decoded(answers: Map<Seq<char>, Value>) -> Result<AddressModel, BackendErrorModel> {
        match text_in(answers, "street"@) {
            Err(e) => Err(e),
            Ok(street) => match text_in(answers, "city"@) {
                Err(e) => Err(e),
                Ok(city) => match text_in(answers, "postal_code"@) {
                    Err(e) => Err(e),
                    Ok(postal_code) => match text_in(answers, "country"@) {
                        Err(e) => Err(e),
                        Ok(country) => Ok(
                            AddressModel {
                                street,
                                city,
                                postal_code,
                                country,
                            },
                        ),
                    },
                },
            },
        }
    }

    fn interview() -> (r: Interview) {
        let mut questions: Vec<Question> = Vec::new();
        questions.push(Question::input("street", "Street address:", None));
        questions.push(Question::input("city", "City:", None));
        questions.push(Question::input("postal_code", "Postal code:", None));
        questions.push(Question::input("country", "Country:", None));
        let r = Interview::of_sequence(questions);
        assert(r@[0]->Sequence_0 =~= Self::tree()[0]->Sequence_0);
        assert(r@ =~= Self::tree());
        r
    }

    fn to_answers(&self) -> (r: Answers) {
        let mut r = Answers::new();
        r.insert("street".to_owned(), AnswerValue::String(self.street.clone()));
        r.insert("city".to_owned(), AnswerValue::String(self.city.clone()));
        r.insert("postal_code".to_owned(), AnswerValue::String(self.postal_code.clone()));
        r.insert("country".to_owned(), AnswerValue::String(self.country.clone()));
        r
    }

    fn from_answers(answers: &Answers) -> (r: Result<Self, BackendError>) {
        let street = match read_text(answers, "street") {
            Ok(v) => v,
            Err(e) => {
                return Err(e);
            },
        };
        let city = match read_text(answers, "city") {
            Ok(v) => v,
            Err(e) => {
                return Err(e);
            },
        };
        let postal_code = match read_text(answers, "postal_code") {
            Ok(v) => v,
            Err(e) => {
                return Err(e);
            },
        };
        let country = match read_text(answers, "country") {
            Ok(v) => v,
            Err(e) => {
                return Err(e);
            },
        };
        Ok(
            Address {
                street,
                city,
                postal_code,
                country,
            },
        )
    }

    proof fn lemma_round_trip(&self) {
        reveal_strlit("street");
        reveal_strlit("city");
        reveal_strlit("postal_code");
        reveal_strlit("country");
        assert("street"@.len() == 6);
        assert("city"@.len() == 4);
        assert("postal_code"@.len() == 11);
        assert("country"@.len() == 7);
        assert("street"@ != "city"@);
        assert("street"@ != "postal_code"@);
        assert("street"@ != "country"@);
        assert("city"@ != "postal_code"@);
        assert("city"@ != "country"@);
        assert("postal_code"@ != "country"@);
    }
}

/// How to reach somebody.
#[derive(Debug)]
pub struct ContactInfo {
    pub email: String,
    pub phone: String,
}

/// What a ContactInfo is, as mathematics.
pub ghost struct ContactInfoModel {
    pub email: Seq<char>,
    pub phone: Seq<char>,
}

impl View for ContactInfo {
    type V = ContactInfoModel;

    open spec fn view(&self) -> ContactInfoModel {
        ContactInfoModel {
            email: self.email@,
            phone: self.phone@,
        }
    }
}

impl Wizard for ContactInfo {
    open spec fn tree() -> Seq<SectionModel> {
        seq![
            SectionModel::Sequence(
                seq![
                    QuestionModel::input("email"@, "Email address:"@, None),
                    QuestionModel::input("phone"@, "Phone number:"@, None),
                ],
            ),
        ]
    }

    open spec fn spelled(&self) -> Map<Seq<char>, Value> {
        Map::empty()
            .insert("email"@, Value::Text(self.email@))
            .insert("phone"@, Value::Text(self.phone@))
    }

    open spec fn decoded(answers: Map<Seq<char>, Value>) -> Result<ContactInfoModel, BackendErrorModel> {
        match text_in(answers, "email"@) {
            Err(e) => Err(e),
            Ok(email) => match text_in(answers, "phone"@) {
                Err(e) => Err(e),
                Ok(phone) => Ok(
                    ContactInfoModel {
                        email,
                        phone,
                    },
                ),
            },
        }
    }

    fn interview() -> (r: Interview) {
        let mut questions: Vec<Question> = Vec::new();
        questions.push(Question::input("email", "Email address:", None));
        questions.push(Question::input("phone", "Phone number:", None));
        let r = Interview::of_sequence(questions);
        assert(r@[0]->Sequence_0 =~= Self::tree()[0]->Sequence_0);
        assert(r@ =~= Self::tree());
        r
    }

    fn to_answers(&self) -> (r: Answers) {
        let mut r = Answers::new();
        r.insert("email".to_owned(), AnswerValue::String(self.email.clone()));
        r.insert("phone".to_owned(), AnswerValue::String(self.phone.clone()));
        r
    }

    fn from_answers(answers: &Answers) -> (r: Result<Self, BackendError>) {
        let email = match read_text(answers, "email") {
            Ok(v) => v,
            Err(e) => {
                return Err(e);
            },
        };
        let phone = match read_text(answers, "phone") {
            Ok(v) => v,
            Err(e) => {
                return Err(e);
            },
        };
        Ok(
            ContactInfo {
                email,
                phone,
            },
        )
    }

    proof fn lemma_round_trip(&self) {
        reveal_strlit("email");
        reveal_strlit("phone");
        assert("email"@.len() == 5);
        assert("phone"@.len() == 5);
        assert("email"@[0] != "phone"@[0]);
        assert("email"@ != "phone"@);
    }
}

/// A registration: the fields of the contact and of the address are asked in line, under the names of their fields.
#[derive(Debug)]
pub struct UserRegistration {
    pub name: String,
    pub age: u32,
    pub contact: ContactInfo,
    pub address: Address,
}

/// What an UserRegistration is, as mathematics.
pub ghost struct UserRegistrationModel {
    pub name: Seq<char>,
    pub age: u32,
    pub contact: ContactInfoModel,
    pub address: AddressModel,
}

impl View for UserRegistration {
    type V = UserRegistrationModel;

    open spec fn view(&self) -> UserRegistrationModel {
        UserRegistrationModel {
            name: self.name@,
            age: self.age,
            contact: self.contact@,
            address: self.address@,
        }
    }
}

impl Wizard for UserRegistration {
    open spec fn tree() -> Seq<SectionModel> {
        seq![
            SectionModel::Sequence(
                seq![
                    QuestionModel::input("name"@, "Full name:"@, None),
                    QuestionModel::integer("age"@, "Age:"@, Some(18), None, None),
                    QuestionModel::input("contact.email"@, "Email address:"@, None),
                    QuestionModel::input("contact.phone"@, "Phone number:"@, None),
                    QuestionModel::input("address.street"@, "Street address:"@, None),
                    QuestionModel::input("address.city"@, "City:"@, None),
                    QuestionModel::input("address.postal_code"@, "Postal code:"@, None),
                    QuestionModel::input("address.country"@, "Country:"@, None),
                ],
            ),
        ]
    }

    open spec fn spelled(&self) -> Map<Seq<char>, Value> {
        Map::empty()
            .insert("name"@, Value::Text(self.name@))
            .insert("age"@, Value::Int(self.age as i64))
            .insert("contact.email"@, Value::Text(self.contact.email@))
            .insert("contact.phone"@, Value::Text(self.contact.phone@))
            .insert("address.street"@, Value::Text(self.address.street@))
            .insert("address.city"@, Value::Text(self.address.city@))
            .insert("address.postal_code"@, Value::Text(self.address.postal_code@))
            .insert("address.country"@, Value::Text(self.address.country@))
    }

    open spec fn decoded(answers: Map<Seq<char>, Value>) -> Result<UserRegistrationModel, BackendErrorModel> {
        match text_in(answers, "name"@) {
            Err(e) => Err(e),
            Ok(name) => match int_in(answers, "age"@, 0, u32::MAX as int) {
                Err(e) => Err(e),
                Ok(age) => match text_in(answers, "contact.email"@) {
                    Err(e) => Err(e),
                    Ok(contact_email) => match text_in(answers, "contact.phone"@) {
                        Err(e) => Err(e),
                        Ok(contact_phone) => match text_in(answers, "address.street"@) {
                            Err(e) => Err(e),
                            Ok(address_street) => match text_in(answers, "address.city"@) {
                                Err(e) => Err(e),
                                Ok(address_city) => match text_in(answers, "address.postal_code"@) {
                                    Err(e) => Err(e),
                                    Ok(address_postal_code) => match text_in(answers, "address.country"@) {
                                        Err(e) => Err(e),
                                        Ok(address_country) => Ok(
                                            UserRegistrationModel {
                                                name,
                                                age: age as u32,
                                                contact: ContactInfoModel { email: contact_email, phone: contact_phone },
                                                address: AddressModel { street: address_street, city: address_city, postal_code: address_postal_code, country: address_country },
                                            },
                                        ),
                                    },
                                },
                            },
                        },
                    },
                },
            },
        }
    }

    fn interview() -> (r: Interview) {
        let mut questions: Vec<Question> = Vec::new();
        questions.push(Question::input("name", "Full name:", None));
        questions.push(Question::integer("age", "Age:", Some(18), None, None));
        questions.push(Question::input("contact.email", "Email address:", None));
        questions.push(Question::input("contact.phone", "Phone number:", None));
        questions.push(Question::input("address.street", "Street address:", None));
        questions.push(Question::input("address.city", "City:", None));
        questions.push(Question::input("address.postal_code", "Postal code:", None));
        questions.push(Question::input("address.country", "Country:", None));
        let r = Interview::of_sequence(questions);
        assert(r@[0]->Sequence_0 =~= Self::tree()[0]->Sequence_0);
        assert(r@ =~= Self::tree());
        r
    }

    fn to_answers(&self) -> (r: Answers) {
        let mut r = Answers::new();
        r.insert("name".to_owned(), AnswerValue::String(self.name.clone()));
        r.insert("age".to_owned(), AnswerValue::Int(self.age as i64));
        r.insert("contact.email".to_owned(), AnswerValue::String(self.contact.email.clone()));
        r.insert("contact.phone".to_owned(), AnswerValue::String(self.contact.phone.clone()));
        r.insert("address.street".to_owned(), AnswerValue::String(self.address.street.clone()));
        r.insert("address.city".to_owned(), AnswerValue::String(self.address.city.clone()));
        r.insert("address.postal_code".to_owned(), AnswerValue::String(self.address.postal_code.clone()));
        r.insert("address.country".to_owned(), AnswerValue::String(self.address.country.clone()));
        r
    }

    fn from_answers(answers: &Answers) -> (r: Result<Self, BackendError>) {
        let name = match read_text(answers, "name") {
            Ok(v) => v,
            Err(e) => {
                return Err(e);
            },
        };
        let age = match read_int(answers, "age", 0, 0xffff_ffff) {
            Ok(v) => v,
            Err(e) => {
                return Err(e);
            },
        };
        let contact_email = match read_text(answers, "contact.email") {
            Ok(v) => v,
            Err(e) => {
                return Err(e);
            },
        };
        let contact_phone = match read_text(answers, "contact.phone") {
            Ok(v) => v,
            Err(e) => {
                return Err(e);
            },
        };
        let address_street = match read_text(answers, "address.street") {
            Ok(v) => v,
            Err(e) => {
                return Err(e);
            },
        };
        let address_city = match read_text(answers, "address.city") {
            Ok(v) => v,
            Err(e) => {
                return Err(e);
            },
        };
        let address_postal_code = match read_text(answers, "address.postal_code") {
            Ok(v) => v,
            Err(e) => {
                return Err(e);
            },
        };
        let address_country = match read_text(answers, "address.country") {
            Ok(v) => v,
            Err(e) => {
                return Err(e);
            },
        };
        Ok(
            UserRegistration {
                name,
                age: age as u32,
                contact: ContactInfo { email: contact_email, phone: contact_phone },
                address: Address { street: address_street, city: address_city, postal_code: address_postal_code, country: address_country },
            },
        )
    }

    proof fn lemma_round_trip(&self) {
        reveal_strlit("name");
        reveal_strlit("age");
        reveal_strlit("contact.email");
        reveal_strlit("contact.phone");
        reveal_strlit("address.street");
        reveal_strlit("address.city");
        reveal_strlit("address.postal_code");
        reveal_strlit("address.country");
        assert("name"@.len() == 4);
        assert("age"@.len() == 3);
        assert("contact.email"@.len() == 13);
        assert("contact.phone"@.len() == 13);
        assert("address.street"@.len() == 14);
        assert("address.city"@.len() == 12);
        assert("address.postal_code"@.len() == 19);
        assert("address.country"@.len() == 15);
        assert("contact.email"@[8] != "contact.phone"@[8]);
        assert("name"@ != "age"@);
        assert("name"@ != "contact.email"@);
        assert("name"@ != "contact.phone"@);
        assert("name"@ != "address.street"@);
        assert("name"@ != "address.city"@);
        assert("name"@ != "address.postal_code"@);
        assert("name"@ != "address.country"@);
        assert("age"@ != "contact.email"@);
        assert("age"@ != "contact.phone"@);
        assert("age"@ != "address.street"@);
        assert("age"@ != "address.city"@);
        assert("age"@ != "address.postal_code"@);
        assert("age"@ != "address.country"@);
        assert("contact.email"@ != "contact.phone"@);
        assert("contact.email"@ != "address.street"@);
        assert("contact.email"@ != "address.city"@);
        assert("contact.email"@ != "address.postal_code"@);
        assert("contact.email"@ != "address.country"@);
        assert("contact.phone"@ != "address.street"@);
        assert("contact.phone"@ != "address.city"@);
        assert("contact.phone"@ != "address.postal_code"@);
        assert("contact.phone"@ != "address.country"@);
        assert("address.street"@ != "address.city"@);
        assert("address.street"@ != "address.postal_code"@);
        assert("address.street"@ != "address.country"@);
        assert("address.city"@ != "address.postal_code"@);
        assert("address.city"@ != "address.country"@);
        assert("address.postal_code"@ != "address.country"@);
    }
}

} // verus!
