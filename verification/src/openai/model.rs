//! The backend models that a request can name.

use crate::text::{lowercase, lowercased, same_text};
use vstd::prelude::*;

verus! {

/// A backend model.
#[derive(Clone, Copy, PartialEq, Eq, Structural)]
pub enum Model {
    Gpt3_5Turbo,
}

impl Model {
    /// The name by which the backend knows the model.
    pub open spec fn wire_name(self) -> Seq<char> {
        "gpt-3.5-turbo"@
    }

    /// The model that a lower-case alias stands for.
    pub open spec fn of_alias(lowered: Seq<char>) -> Option<Model> {
        if lowered == "3.5"@ || lowered == "3.5-turbo"@ || lowered == "3_5"@ || lowered
            == "3_5_turbo"@ {
            Some(Model::Gpt3_5Turbo)
        } else {
            None
        }
    }

    /// What `from_str` answers for a text that names no model.
    pub open spec fn unknown_model_message() -> Seq<char> {
        "No such model yet supported"@
    }

    /// The name by which the backend knows the model.
    pub fn name(&self) -> (name: &'static str)
        ensures
            name@ == self.wire_name(),
    {
        match self {
            Model::Gpt3_5Turbo => "gpt-3.5-turbo",
        }
    }

    /// The short label of the model, as it is shown to a user.
    pub fn label(&self) -> (label: &'static str)
        ensures
            label@ == "3.5"@,
    {
        match self {
            Model::Gpt3_5Turbo => "3.5",
        }
    }

    /// Finds the model that a lower-case alias stands for.
    pub fn from_alias(lowered: &str) -> (found: Result<Model, &'static str>)
        ensures
            match found {
                Ok(model) => Model::of_alias(lowered@) == Some(model),
                Err(message) => Model::of_alias(lowered@) is None && message@
                    == Model::unknown_model_message(),
            },
    {
        if same_text(lowered, "3.5") || same_text(lowered, "3.5-turbo") || same_text(lowered, "3_5")
            || same_text(lowered, "3_5_turbo") {
            Ok(Model::Gpt3_5Turbo)
        } else {
            Err("No such model yet supported")
        }
    }
}

impl std::str::FromStr for Model {
    type Err = &'static str;

    /// Finds the model that a text names, whatever its case.
    fn from_str(s: &str) -> (found: Result<Model, &'static str>)
        ensures
            match found {
                Ok(model) => Model::of_alias(lowercased(s@)) == Some(model),
                Err(message) => Model::of_alias(lowercased(s@)) is None && message@
                    == Model::unknown_model_message(),
            },
    {
        let lowered = lowercase(s);
        Model::from_alias(lowered.as_str())
    }
}

} // verus!
