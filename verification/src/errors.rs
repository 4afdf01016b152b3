//! The failure taxonomy of the bridge. Every failure is immediate and
//! call-aborting; no partial result is returned on error.

use vstd::prelude::*;

verus! {

/// An error surfaced to the caller of the bridge.
#[derive(Debug, Clone, PartialEq, Eq)]
pub enum BridgeError {
    /// A dynamic value of a shape outside the six supported ones was handed
    /// to lowering.
    UnsupportedType,
    /// A dynamic object being decoded lacks a required field; carries the
    /// field name.
    MissingField(String),
    /// A decode met a type string outside the supported variants; carries
    /// that string.
    InvalidDiffType(String),
    /// The `ignore_keys_regex` configuration value failed to compile;
    /// carries the pattern and the compiler's message.
    InvalidRegex(String, String),
    /// The output-format value did not match the fixed enumeration; carries
    /// the offending value.
    InvalidOutputFormat(String),
    /// A configuration key was present with the wrong dynamic type; carries
    /// the key.
    WrongType(String),
}

/// Mathematical model of a `BridgeError`.
pub enum ErrModel {
    UnsupportedType,
    MissingField(Seq<char>),
    InvalidDiffType(Seq<char>),
    InvalidRegex(Seq<char>, Seq<char>),
    InvalidOutputFormat(Seq<char>),
    WrongType(Seq<char>),
}

impl View for BridgeError {
    type V = ErrModel;

    open spec fn view(&self) -> ErrModel {
        match self {
            BridgeError::UnsupportedType => ErrModel::UnsupportedType,
            BridgeError::MissingField(name) => ErrModel::MissingField(name@),
            BridgeError::InvalidDiffType(name) => ErrModel::InvalidDiffType(name@),
            BridgeError::InvalidRegex(pattern, message) => ErrModel::InvalidRegex(
                pattern@,
                message@,
            ),
            BridgeError::InvalidOutputFormat(value) => ErrModel::InvalidOutputFormat(value@),
            BridgeError::WrongType(key) => ErrModel::WrongType(key@),
        }
    }
}

} // verus!
