//! A backend-agnostic interview model: a tree of sections and questions, a
//! path-keyed answer store, validation of candidate answers, overlays of
//! suggestions and assumptions, and reconstruction of values from answers.

use vstd::prelude::*;

pub mod answer;
pub mod backend;
pub mod default;
pub mod dialoguer_backend;
pub mod egui_backend;
pub mod interview;
pub mod latex;
pub mod path;
pub mod question;
pub mod reconstruct;
pub mod resolve;
pub mod schema;
pub mod selection;
pub mod surveys;
pub mod text;
pub mod validation;
pub mod wizard;

pub use answer::{AnswerError, AnswerValue, Answers};
pub use backend::{BackendError, InterviewBackend, TestBackend};
pub use default::{AssumedAnswer, SuggestedAnswer};
pub use egui_backend::EguiBackend;
pub use path::ResponsePath;
pub use wizard::{Wizard, WizardBuilder};

verus! {

/// The reserved last segment of the key under which the branch chosen at an
/// `Alternatives` node is recorded in the answers.
pub const SELECTED_ALTERNATIVE_KEY: &'static str = "selected_alternative";

} // verus!
