//! Ready-made surveys and validators.

use vstd::prelude::*;
use crate::answer::{Answers, AnswerValue, Value};
use crate::path::ResponsePath;
use crate::text::str_eq;
use crate::validation::Validators;

pub mod app_settings;
pub mod basic_fields;
pub mod enum_oneof;
pub mod job_application;
pub mod masked_input;
pub mod min_max_bounds;
pub mod multiline_text;
pub mod multiselect;
pub mod nested_struct;
pub mod optional_fields;
pub mod order_form;
pub mod prelude_epilogue;
pub mod simple_spooky_forest;
pub mod user_profile;
pub mod validation;
pub mod vec_lists;

verus! {

/// The validators of the ready-made surveys, each under the name by which
/// the questions call it. Any other name accepts every candidate.
pub struct SurveyValidators;

impl Validators for SurveyValidators {
    open spec fn objection(
        &self,
        name: Seq<char>,
        candidate: Value,
        answers: Map<Seq<char>, Value>,
        path: Seq<Seq<char>>,
    ) -> Option<Seq<char>> {
        if name == "passwords_match"@ {
            masked_input::confirmation_objection(candidate, answers, path)
        } else if name == "is_valid_name"@ {
            simple_spooky_forest::name_objection(candidate)
        } else if name == "is_within_starting_budget"@ {
            simple_spooky_forest::budget_objection(candidate)
        } else if name == "validate_email"@ {
            validation::email_objection(candidate)
        } else if name == "validate_password"@ {
            validation::password_objection(candidate)
        } else if name == "validate_username"@ {
            validation::username_objection(candidate)
        } else if name == "validate_salary"@ {
            job_application::salary_objection(candidate, answers, path)
        } else {
            None
        }
    }

    fn validate(
        &self,
        name: &str,
        candidate: &AnswerValue,
        answers: &Answers,
        path: &ResponsePath,
    ) -> (r: Result<(), String>) {
        if str_eq(name, "passwords_match") {
            masked_input::passwords_match(candidate, answers, path)
        } else if str_eq(name, "is_valid_name") {
            simple_spooky_forest::is_valid_name(candidate, answers, path)
        } else if str_eq(name, "is_within_starting_budget") {
            simple_spooky_forest::is_within_starting_budget(candidate, answers, path)
        } else if str_eq(name, "validate_email") {
            validation::validate_email(candidate, answers, path)
        } else if str_eq(name, "validate_password") {
            validation::validate_password(candidate, answers, path)
        } else if str_eq(name, "validate_username") {
            validation::validate_username(candidate, answers, path)
        } else if str_eq(name, "validate_salary") {
            job_application::validate_salary(candidate, answers, path)
        } else {
            Ok(())
        }
    }
}

} // verus!
