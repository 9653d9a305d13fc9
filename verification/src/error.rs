use vstd::prelude::*;
use vstd::string::StringExecFns;
use crate::data::AS3Data;
use crate::dec::Dec;
use crate::model::ErrorModel;
use crate::validator::AS3Validator;

verus! {

/// The first violation a validation run found. Each variant carries what is
/// needed to point at the failure: the mismatched shapes, the missing key,
/// the word and the pattern it broke, or the number and the bound it
/// undercut.
#[derive(Debug)]
pub enum AS3ValidationError {
    TypeError { expected: AS3Validator, got: AS3Data },
    MissingKey { key: String },
    RegexError { word: String, regex: String },
    Minimum { number: Dec, minimum: Dec },
}

impl AS3ValidationError {
    /// The mathematical reading of this error.
    pub open spec fn model(self) -> ErrorModel {
        match self {
            AS3ValidationError::TypeError { expected, got } => ErrorModel::TypeError {
                expected: expected.model(),
                got: got.model(),
            },
            AS3ValidationError::MissingKey { key } => ErrorModel::MissingKey { key: key@ },
            AS3ValidationError::RegexError { word, regex } => ErrorModel::RegexError {
                word: word@,
                pattern: regex@,
            },
            AS3ValidationError::Minimum { number, minimum } => ErrorModel::Minimum {
                number,
                minimum,
            },
        }
    }
}

impl View for AS3ValidationError {
    type V = ErrorModel;

    open spec fn view(&self) -> ErrorModel {
        self.model()
    }
}

impl PartialEq for AS3ValidationError {
    /// Two errors are equal when they read as the same failure.
    fn eq(&self, other: &Self) -> (r: bool) {
        match (self, other) {
            (
                AS3ValidationError::TypeError { expected: ea, got: ga },
                AS3ValidationError::TypeError { expected: eb, got: gb },
            ) => *ea == *eb && *ga == *gb,
            (
                AS3ValidationError::MissingKey { key: ka },
                AS3ValidationError::MissingKey { key: kb },
            ) => *ka == *kb,
            (
                AS3ValidationError::RegexError { word: wa, regex: ra },
                AS3ValidationError::RegexError { word: wb, regex: rb },
            ) => *wa == *wb && *ra == *rb,
            (
                AS3ValidationError::Minimum { number: na, minimum: ma },
                AS3ValidationError::Minimum { number: nb, minimum: mb },
            ) => *na == *nb && *ma == *mb,
            _ => false,
        }
    }
}

impl vstd::std_specs::cmp::PartialEqSpecImpl for AS3ValidationError {
    open spec fn obeys_eq_spec() -> bool {
        true
    }

    open spec fn eq_spec(&self, other: &Self) -> bool {
        self@ == other@
    }
}

/// Why a declarative configuration could not be turned into a validator.
/// The set is closed: every way a configuration can be malformed is one of
/// these, and [`BuildError::message`] renders each as text.
#[derive(Clone, Copy, Debug, PartialEq, Eq, Structural)]
pub enum BuildError {
    /// The top level, or a schema node, is not a mapping.
    NotAMapping,
    /// The top-level mapping has no root-marker entry.
    MissingRoot,
    /// A schema node has no type-discriminator entry.
    MissingDiscriminator,
    /// The discriminator entry's value is not text.
    DiscriminatorNotText,
    /// The discriminator names none of the known validator kinds.
    UnknownTypeName,
    /// A `regex` entry's value is not text.
    RegexNotText,
    /// A `minimum` entry for an integer validator is not a whole number.
    MinimumNotInteger,
    /// A `minimum` entry for a decimal validator is not a number.
    MinimumNotNumeric,
    /// A list node does not have exactly one item-schema entry.
    ListItemCount,
}

impl BuildError {
    /// A human-readable description of the failure.
    pub fn message(&self) -> (r: String)
        ensures
            r@ == self.spec_message(),
    {
        match self {
            BuildError::NotAMapping => String::from_str("the schema node is not a mapping"),
            BuildError::MissingRoot => String::from_str(
                "the top-level mapping has no `Root` entry",
            ),
            BuildError::MissingDiscriminator => String::from_str(
                "the schema node has no `+Type` entry",
            ),
            BuildError::DiscriminatorNotText => String::from_str(
                "the `+Type` entry is not text",
            ),
            BuildError::UnknownTypeName => String::from_str(
                "the `+Type` entry names no known validator kind",
            ),
            BuildError::RegexNotText => String::from_str("the `regex` entry is not text"),
            BuildError::MinimumNotInteger => String::from_str(
                "the `minimum` entry is not a whole number",
            ),
            BuildError::MinimumNotNumeric => String::from_str(
                "the `minimum` entry is not a number",
            ),
            BuildError::ListItemCount => String::from_str(
                "the list node does not have exactly one item schema",
            ),
        }
    }

    /// The text [`BuildError::message`] renders for each variant.
    pub open spec fn spec_message(self) -> Seq<char> {
        match self {
            BuildError::NotAMapping => "the schema node is not a mapping"@,
            BuildError::MissingRoot => "the top-level mapping has no `Root` entry"@,
            BuildError::MissingDiscriminator => "the schema node has no `+Type` entry"@,
            BuildError::DiscriminatorNotText => "the `+Type` entry is not text"@,
            BuildError::UnknownTypeName => "the `+Type` entry names no known validator kind"@,
            BuildError::RegexNotText => "the `regex` entry is not text"@,
            BuildError::MinimumNotInteger => "the `minimum` entry is not a whole number"@,
            BuildError::MinimumNotNumeric => "the `minimum` entry is not a number"@,
            BuildError::ListItemCount => "the list node does not have exactly one item schema"@,
        }
    }
}

} // verus!
