//! The tokenizer: text → token-sequence conversion.
//!
//! The text is validated and the first buffer capacity estimated here;
//! the native tokenize then runs under the buffer-negotiating converter,
//! and its raw ids are wrapped back into tokens in order.

use vstd::prelude::*;
use vstd::utf8::encode_utf8;
use crate::error::StringToTokenError;
use crate::model::AddBos;
use crate::negotiate::NegotiationStatus;
use crate::text::{contains_null, str_has_null};
use crate::token::LlamaToken;

verus! {

/// A validated, sized tokenize operation, ready for the native call.
#[derive(Clone, Copy, Debug, PartialEq, Eq, Structural)]
pub struct TokenizeRequest {
    /// Element capacity for the first negotiated attempt.
    pub capacity: usize,
    /// Byte length of the text, as the native integer width carries it.
    pub text_len: i32,
    /// Whether the beginning-of-sequence marker is prepended.
    pub add_bos: bool,
    /// Special tokens are parsed as such rather than as plain text; the
    /// facade fixes this policy.
    pub parse_special: bool,
}

/// The initial capacity estimate: half the byte length, one more for a
/// prepended marker, and never below eight — sized so that short and
/// medium inputs skip the retry path.
pub open spec fn spec_token_capacity(text_bytes: int, add_bos: AddBos) -> int {
    let base = text_bytes / 2 + (if add_bos is Always {
        1int
    } else {
        0int
    });
    if base < 8 {
        8
    } else {
        base
    }
}

/// Validate text for the native tokenizer and size the first attempt.
///
/// Text with an embedded null byte is rejected; text whose byte length
/// does not fit the native integer width is rejected.
pub fn str_to_token_request(text: &str, add_bos: AddBos) -> (r: Result<
    TokenizeRequest,
    StringToTokenError,
>)
    ensures
        contains_null(encode_utf8(text@)) ==> r == Err::<TokenizeRequest, StringToTokenError>(
            StringToTokenError::InvalidString,
        ),
        !contains_null(encode_utf8(text@)) && encode_utf8(text@).len() > i32::MAX ==> r == Err::<
            TokenizeRequest,
            StringToTokenError,
        >(StringToTokenError::IntegerConversion),
        !contains_null(encode_utf8(text@)) && encode_utf8(text@).len() <= i32::MAX ==> (r matches
            Ok(q) && {
            &&& q.capacity == spec_token_capacity(encode_utf8(text@).len() as int, add_bos)
            &&& q.text_len == encode_utf8(text@).len()
            &&& q.add_bos == (add_bos is Always)
            &&& q.parse_special
        }),
{
    if str_has_null(text) {
        return Err(StringToTokenError::InvalidString);
    }
    let len: usize = text.as_bytes().len();
    if len > i32::MAX as usize {
        return Err(StringToTokenError::IntegerConversion);
    }
    let prepend = match add_bos {
        AddBos::Always => true,
        AddBos::Never => false,
    };
    let extra: usize = if prepend {
        1
    } else {
        0
    };
    let base: usize = len / 2 + extra;
    let capacity: usize = if base < 8 {
        8
    } else {
        base
    };
    Ok(TokenizeRequest { capacity, text_len: len as i32, add_bos: prepend, parse_special: true })
}

/// Wrap the raw ids of an accepted negotiation into tokens, in the order
/// the native tokenizer produced them — that order is the token stream.
///
/// A rejected negotiation is a native contract violation here: the
/// retried attempt was sized exactly as asked, so the caller treats a
/// second failure as fatal and never reaches this step.
pub fn tokens_from_native(status: NegotiationStatus, buffer: Vec<i32>) -> (r: Vec<LlamaToken>)
    requires
        status matches NegotiationStatus::Accept { len } && len <= buffer@.len(),
    ensures
        r@.len() == status->len,
        forall|i: int| 0 <= i < r@.len() ==> r@[i].0 == buffer@[i],
{
    let len: usize = match status {
        NegotiationStatus::Accept { len } => len,
        _ => {
            proof {
                assert(false);
            }
            0
        },
    };
    let mut out: Vec<LlamaToken> = Vec::new();
    let mut i: usize = 0;
    while i < len
        invariant
            len <= buffer@.len(),
            0 <= i <= len,
            out@.len() == i,
            forall|j: int| 0 <= j < i ==> out@[j].0 == buffer@[j],
        decreases len - i,
    {
        out.push(LlamaToken(buffer[i]));
        i = i + 1;
    }
    out
}

} // verus!
