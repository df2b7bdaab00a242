//! Chat-template formatting.
//!
//! The native formatter writes a transcript into a caller-sized byte
//! buffer.  The buffer is sized here — twice the combined byte length of
//! all roles and contents, headroom for template markup with no retry
//! mechanism behind it — and the raw answer is turned back into text:
//! an answer larger than the buffer is a sizing failure, anything else
//! is read from the buffer with only its strictly-positive bytes kept,
//! which discards the null padding.

use vstd::prelude::*;
use vstd::utf8::{decode_utf8, encode_utf8, valid_utf8};
use crate::error::{ApplyChatTemplateError, ChatTemplateError};
use crate::model::LlamaChatMessage;
use crate::text::{
    contains_null, lemma_ascii_valid_utf8, null_free_prefix, prefix_to_null, str_has_null,
    string_from_utf8,
};

verus! {

/// The combined byte length of every role and content of a transcript.
pub open spec fn spec_messages_len(chat: Seq<LlamaChatMessage>) -> int
    decreases chat.len(),
{
    if chat.len() == 0 {
        0
    } else {
        spec_messages_len(chat.drop_last()) + encode_utf8(chat.last().spec_role()).len()
            + encode_utf8(chat.last().spec_content()).len()
    }
}

proof fn lemma_messages_len_nonneg(chat: Seq<LlamaChatMessage>)
    ensures
        spec_messages_len(chat) >= 0,
    decreases chat.len(),
{
    if chat.len() > 0 {
        lemma_messages_len_nonneg(chat.drop_last());
    }
}

proof fn lemma_messages_len_take(chat: Seq<LlamaChatMessage>, i: int)
    requires
        0 <= i <= chat.len(),
    ensures
        0 <= spec_messages_len(chat.take(i)) <= spec_messages_len(chat),
    decreases chat.len(),
{
    lemma_messages_len_nonneg(chat.take(i));
    if i == chat.len() {
        assert(chat.take(i) =~= chat);
    } else if chat.len() > 0 {
        assert(chat.take(i) =~= chat.drop_last().take(i));
        lemma_messages_len_take(chat.drop_last(), i);
        assert(spec_messages_len(chat) == spec_messages_len(chat.drop_last()) + encode_utf8(
            chat.last().spec_role(),
        ).len() + encode_utf8(chat.last().spec_content()).len());
    }
}

/// A validated, sized formatting operation, ready for the native call.
#[derive(Clone, Copy, Debug, PartialEq, Eq, Structural)]
pub struct ChatTemplateRequest {
    /// Byte capacity of the output buffer: twice the combined message
    /// length.
    pub buffer_len: usize,
    /// Whether the assistant prefix is appended to the transcript.
    pub add_ass: bool,
}

/// Validate the override template and size the output buffer for the
/// native formatter.
///
/// `tmpl` of `None` selects the model's built-in template.  An override
/// holding an embedded null byte is rejected.
pub fn apply_chat_template_request(
    tmpl: &Option<String>,
    chat: &Vec<LlamaChatMessage>,
    add_ass: bool,
) -> (r: Result<ChatTemplateRequest, ApplyChatTemplateError>)
    requires
        2 * spec_messages_len(chat@) <= usize::MAX,
    ensures
        (tmpl matches Some(t) && contains_null(encode_utf8(t@))) ==> r == Err::<
            ChatTemplateRequest,
            ApplyChatTemplateError,
        >(ApplyChatTemplateError::InvalidTemplateString),
        (tmpl matches Some(t) ==> !contains_null(encode_utf8(t@))) ==> (r matches Ok(q) && {
            &&& q.buffer_len == 2 * spec_messages_len(chat@)
            &&& q.add_ass == add_ass
        }),
{
    match tmpl {
        Some(t) => {
            if str_has_null(t.as_str()) {
                return Err(ApplyChatTemplateError::InvalidTemplateString);
            }
        },
        None => {},
    }
    let n: usize = chat.len();
    let mut total: usize = 0;
    let mut i: usize = 0;
    while i < n
        invariant
            n == chat@.len(),
            0 <= i <= n,
            total == spec_messages_len(chat@.take(i as int)),
            2 * spec_messages_len(chat@) <= usize::MAX,
        decreases n - i,
    {
        proof {
            lemma_messages_len_take(chat@, i + 1);
            assert(chat@.take(i + 1).drop_last() =~= chat@.take(i as int));
            assert(chat@.take(i + 1).last() == chat@[i as int]);
        }
        let msg = &chat[i];
        total = total + msg.role().as_str().as_bytes().len();
        total = total + msg.content().as_str().as_bytes().len();
        i = i + 1;
    }
    proof {
        assert(chat@.take(n as int) =~= chat@);
    }
    Ok(ChatTemplateRequest { buffer_len: 2 * total, add_ass })
}

/// The kept bytes of the formatter's raw output: the strictly-positive
/// values among the first `upto` signed bytes, in order.
pub open spec fn spec_kept(buf: Seq<i8>, upto: int) -> Seq<u8>
    decreases upto,
{
    if upto <= 0 || upto > buf.len() {
        Seq::<u8>::empty()
    } else if buf[upto - 1] > 0 {
        spec_kept(buf, upto - 1).push(buf[upto - 1] as u8)
    } else {
        spec_kept(buf, upto - 1)
    }
}

proof fn lemma_kept_ascii(buf: Seq<i8>, upto: int)
    ensures
        forall|k: int|
            0 <= k < spec_kept(buf, upto).len() ==> 0 < #[trigger] spec_kept(buf, upto)[k] < 0x80,
    decreases upto,
{
    if 0 < upto <= buf.len() {
        lemma_kept_ascii(buf, upto - 1);
        let prev = spec_kept(buf, upto - 1);
        let cur = spec_kept(buf, upto);
        if buf[upto - 1] > 0 {
            assert forall|k: int| 0 <= k < cur.len() implies 0 < #[trigger] cur[k] < 0x80 by {
                if k < prev.len() {
                    assert(cur[k] == prev[k]);
                } else {
                    assert(cur[k] == buf[upto - 1] as u8);
                }
            }
        }
    }
}

/// Judge the native formatter's answer and read the transcript out of
/// its buffer.
///
/// An answer that exceeds the buffer is the sizing failure — reported,
/// not retried, since the heuristic is meant to be raised instead.  Any
/// other answer is read from the buffer itself: the strictly-positive
/// bytes are kept and decoded, which always succeeds, as what is kept is
/// plain ASCII.
pub fn apply_chat_template_from_native(res: i32, buffer: Vec<i8>) -> (r: Result<
    String,
    ApplyChatTemplateError,
>)
    requires
        buffer@.len() <= i32::MAX,
    ensures
        res > buffer@.len() ==> r == Err::<String, ApplyChatTemplateError>(
            ApplyChatTemplateError::BuffSizeError,
        ),
        res <= buffer@.len() ==> (r matches Ok(s) && s@ == decode_utf8(
            spec_kept(buffer@, buffer@.len() as int),
        )),
{
    let n: usize = buffer.len();
    if res > n as i32 {
        return Err(ApplyChatTemplateError::BuffSizeError);
    }
    let mut kept: Vec<u8> = Vec::new();
    let mut i: usize = 0;
    while i < n
        invariant
            n == buffer@.len(),
            0 <= i <= n,
            kept@ == spec_kept(buffer@, i as int),
        decreases n - i,
    {
        let b: i8 = buffer[i];
        if b > 0 {
            kept.push(b as u8);
        }
        i = i + 1;
    }
    proof {
        lemma_kept_ascii(buffer@, n as int);
        lemma_ascii_valid_utf8(kept@);
    }
    match string_from_utf8(kept) {
        Some(s) => Ok(s),
        None => {
            proof {
                assert(false);
            }
            Err(ApplyChatTemplateError::Utf8Error)
        },
    }
}

/// Turn the native metadata answer for the template key into the stored
/// template.
///
/// A negative answer means the model carries no template under the key.
/// Otherwise the template is what stands in the buffer before its null
/// terminator, UTF-8 decoded.
pub fn chat_template_from_native(ret: i32, buffer: Vec<u8>) -> (r: Result<
    String,
    ChatTemplateError,
>)
    ensures
        ret < 0 ==> r == Err::<String, ChatTemplateError>(ChatTemplateError::MissingTemplate(ret)),
        ret >= 0 && valid_utf8(null_free_prefix(buffer@)) ==> (r matches Ok(s) && s@ == decode_utf8(
            null_free_prefix(buffer@),
        )),
        ret >= 0 && !valid_utf8(null_free_prefix(buffer@)) ==> r == Err::<
            String,
            ChatTemplateError,
        >(ChatTemplateError::Utf8Error),
{
    if ret < 0 {
        return Err(ChatTemplateError::MissingTemplate(ret));
    }
    let stored = prefix_to_null(buffer);
    match string_from_utf8(stored) {
        Some(s) => Ok(s),
        None => Err(ChatTemplateError::Utf8Error),
    }
}

} // verus!
