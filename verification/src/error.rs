//! Fatal generation errors.  Every error aborts generation for the whole
//! type: no partial output is produced.

use vstd::prelude::*;

verus! {

/// A fatal generation error, surfaced by the host as a compile-time
/// diagnostic at the offending declaration.
#[derive(Debug)]
pub enum DemoError {
    /// The subject type is union-shaped.
    UnsupportedShape,
    /// The subject enum has no variants.
    EmptyEnum,
    /// An enum variant carries an explicit discriminant.
    DiscriminantUnsupported,
    /// More than one configuration attribute block on one field or type.
    MultipleConfigAttributes,
    /// The configuration wrapper holds an unknown marker or key, a
    /// list-valued entry, or a non-string-literal value; carries the
    /// offending construct.
    UnrecognizedOption(String),
    /// A string payload fails to re-parse as the expected code fragment;
    /// carries the offending string.
    EmbeddedExpressionSyntaxError(String),
}

/// The mathematical value of a `DemoError`.
pub enum ErrorModel {
    UnsupportedShape,
    EmptyEnum,
    DiscriminantUnsupported,
    MultipleConfigAttributes,
    UnrecognizedOption(Seq<char>),
    EmbeddedExpressionSyntaxError(Seq<char>),
}

impl View for DemoError {
    type V = ErrorModel;

    open spec fn view(&self) -> ErrorModel {
        match self {
            DemoError::UnsupportedShape => ErrorModel::UnsupportedShape,
            DemoError::EmptyEnum => ErrorModel::EmptyEnum,
            DemoError::DiscriminantUnsupported => ErrorModel::DiscriminantUnsupported,
            DemoError::MultipleConfigAttributes => ErrorModel::MultipleConfigAttributes,
            DemoError::UnrecognizedOption(s) => ErrorModel::UnrecognizedOption(s@),
            DemoError::EmbeddedExpressionSyntaxError(s) => ErrorModel::EmbeddedExpressionSyntaxError(
                s@,
            ),
        }
    }
}

impl DemoError {
    /// A short diagnostic text for the error.
    pub fn describe(&self) -> (r: String)
        ensures
            match self@ {
                ErrorModel::UnrecognizedOption(s) => r@ == "unrecognized option: "@ + s,
                ErrorModel::EmbeddedExpressionSyntaxError(s) => r@ == "invalid code fragment: "@
                    + s,
                ErrorModel::UnsupportedShape => r@ == "unions are not supported"@,
                ErrorModel::EmptyEnum => r@ == "enums with zero variants are not supported"@,
                ErrorModel::DiscriminantUnsupported => r@
                    == "enums with discriminants are not supported"@,
                ErrorModel::MultipleConfigAttributes => r@
                    == "at most one configuration attribute is allowed"@,
            },
    {
        match self {
            DemoError::UnsupportedShape => String::from_str("unions are not supported"),
            DemoError::EmptyEnum => String::from_str("enums with zero variants are not supported"),
            DemoError::DiscriminantUnsupported => String::from_str(
                "enums with discriminants are not supported",
            ),
            DemoError::MultipleConfigAttributes => String::from_str(
                "at most one configuration attribute is allowed",
            ),
            DemoError::UnrecognizedOption(what) => String::from_str(
                "unrecognized option: ",
            ).concat(what.as_str()),
            DemoError::EmbeddedExpressionSyntaxError(what) => String::from_str(
                "invalid code fragment: ",
            ).concat(what.as_str()),
        }
    }
}

} // verus!
