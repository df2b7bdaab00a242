//! Token classification.

use vstd::prelude::*;
use crate::error::LlamaTokenTypeFromIntError;

verus! {

/// The semantic category of a token, as the native vocabulary reports it.
///
/// The category decides the decoding policy: `Normal` and `UserDefined`
/// tokens are decoded natively, `Control` tokens other than the stream
/// markers may carry visible text, and the remaining categories decode to
/// nothing.
#[derive(Clone, Copy, Debug, PartialEq, Eq, Structural)]
pub enum LlamaTokenType {
    /// A token whose category was never assigned.
    Undefined,
    /// An ordinary vocabulary token.
    Normal,
    /// The vocabulary's unknown-input token.
    Unknown,
    /// A control token, such as a stream marker.
    Control,
    /// A token added by the user on top of the base vocabulary.
    UserDefined,
    /// A slot that the vocabulary reserves but does not use.
    Unused,
    /// A raw byte fallback token.
    Byte,
}

/// The category that the native library encodes as `value`, following
/// llama.cpp's `llama_token_type` enumeration, or `None` for a code this
/// crate does not recognize.
pub open spec fn spec_token_type_from_int(value: i32) -> Option<LlamaTokenType> {
    if value == 0 {
        Some(LlamaTokenType::Undefined)
    } else if value == 1 {
        Some(LlamaTokenType::Normal)
    } else if value == 2 {
        Some(LlamaTokenType::Unknown)
    } else if value == 3 {
        Some(LlamaTokenType::Control)
    } else if value == 4 {
        Some(LlamaTokenType::UserDefined)
    } else if value == 5 {
        Some(LlamaTokenType::Unused)
    } else if value == 6 {
        Some(LlamaTokenType::Byte)
    } else {
        None
    }
}

impl LlamaTokenType {
    /// Decode a raw native classification code.
    ///
    /// An unrecognized code signals a version mismatch with the native
    /// library; it is reported as a distinct error, never silently
    /// defaulted.
    pub fn try_from(value: i32) -> (r: Result<LlamaTokenType, LlamaTokenTypeFromIntError>)
        ensures
            match spec_token_type_from_int(value) {
                Some(t) => r == Ok::<LlamaTokenType, LlamaTokenTypeFromIntError>(t),
                None => r == Err::<LlamaTokenType, LlamaTokenTypeFromIntError>(
                    LlamaTokenTypeFromIntError::UnknownValue(value),
                ),
            },
    {
        match value {
            0 => Ok(LlamaTokenType::Undefined),
            1 => Ok(LlamaTokenType::Normal),
            2 => Ok(LlamaTokenType::Unknown),
            3 => Ok(LlamaTokenType::Control),
            4 => Ok(LlamaTokenType::UserDefined),
            5 => Ok(LlamaTokenType::Unused),
            6 => Ok(LlamaTokenType::Byte),
            _ => Err(LlamaTokenTypeFromIntError::UnknownValue(value)),
        }
    }
}

} // verus!
