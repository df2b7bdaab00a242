//! The error taxonomy of the facade.
//!
//! Input-validation failures, capacity failures and resource failures are
//! reported as typed values; nothing is logged and swallowed.  Native
//! contract violations (an unrecognized enumeration code) carry the raw
//! code so the mismatch stays visible.

use vstd::prelude::*;

verus! {

/// Failure to build a chat message.
#[derive(Clone, Copy, Debug, PartialEq, Eq, Structural)]
pub enum NewLlamaChatMessageError {
    /// The role or the content holds an embedded null byte and so cannot
    /// cross the native boundary as a null-terminated string.
    InvalidString,
}

/// Failure to turn text into tokens.
#[derive(Clone, Copy, Debug, PartialEq, Eq, Structural)]
pub enum StringToTokenError {
    /// The text holds an embedded null byte.
    InvalidString,
    /// The byte length of the text does not fit the native integer width.
    IntegerConversion,
}

/// Failure to turn a token into text or bytes.
#[derive(Clone, Copy, Debug, PartialEq, Eq, Structural)]
pub enum TokenToStringError {
    /// The native decode wrote nothing for a token that was expected to
    /// carry a piece.
    UnknownTokenType,
    /// The native decode still reported a missing capacity after the one
    /// permitted retry; the raw negative code is kept.
    InsufficientBufferSpace(i32),
    /// The decoded bytes are not valid UTF-8.
    Utf8Error,
}

/// Failure to read the model's built-in chat template.
#[derive(Clone, Copy, Debug, PartialEq, Eq, Structural)]
pub enum ChatTemplateError {
    /// The model carries no template under the queried metadata key; the
    /// raw negative code is kept.
    MissingTemplate(i32),
    /// The stored template is not valid UTF-8.
    Utf8Error,
}

/// Failure to format a transcript through a chat template.
#[derive(Clone, Copy, Debug, PartialEq, Eq, Structural)]
pub enum ApplyChatTemplateError {
    /// The override template holds an embedded null byte.
    InvalidTemplateString,
    /// The native formatter needs more room than the sizing heuristic
    /// granted; this is reported, not retried.
    BuffSizeError,
    /// The formatted bytes are not valid UTF-8.
    Utf8Error,
}

/// Failure to load a model.
#[derive(Clone, Copy, Debug, PartialEq, Eq, Structural)]
pub enum LlamaModelLoadError {
    /// The path is not representable as text.
    PathToStrError,
    /// The path holds an embedded null byte.
    InvalidString,
    /// The native loader returned no handle.
    NullResult,
}

/// Failure to create an inference context from a model.
#[derive(Clone, Copy, Debug, PartialEq, Eq, Structural)]
pub enum LlamaContextLoadError {
    /// The native context constructor returned no handle.
    NullReturn,
}

/// A raw native enumeration code that this crate does not recognize.
///
/// Such a code signals a version mismatch between this crate and the
/// native library, not a normal runtime condition.
#[derive(Clone, Copy, Debug, PartialEq, Eq, Structural)]
pub enum LlamaTokenTypeFromIntError {
    /// The unrecognized raw value.
    UnknownValue(i32),
}

} // verus!
