//! The detokenizer: turning tokens back into bytes and text.
//!
//! Decoding a token is decided in order: the newline token yields its
//! byte directly (the native decode does not reliably reproduce it); the
//! token's category then either resolves the piece immediately or sends
//! it to the native decode through the buffer-negotiating converter.

use vstd::prelude::*;
use vstd::string::StringExecFns;
use vstd::utf8::{decode_utf8, encode_utf8, encode_utf8_decode_utf8, valid_utf8};
use crate::error::TokenToStringError;
use crate::model::LlamaModel;
use crate::negotiate::NegotiationStatus;
use crate::text::{lemma_decode_concat, string_from_utf8};
use crate::token::LlamaToken;
use crate::token_type::LlamaTokenType;

verus! {

/// How a single token is to be decoded.
#[derive(Debug, PartialEq, Eq)]
pub enum TokenDecode {
    /// The piece is fully determined; no native call is made.
    Resolved(Vec<u8>),
    /// The piece must be fetched natively, negotiated from a first
    /// attempt at `capacity` bytes.
    Native { capacity: usize },
}

/// The bytes a token resolves to without any native call, or `None` when
/// the native decode must run: the newline token is the newline byte;
/// the `Unknown`, `Undefined`, `Byte` and `Unused` categories and the
/// stream-marker control tokens are empty; everything else is native.
pub open spec fn spec_immediate_piece(m: LlamaModel, token: LlamaToken) -> Option<Seq<u8>> {
    if token == m.spec_nl() {
        Some(seq![10u8])
    } else {
        let t = m.spec_token_type(token);
        if t is Unknown || t is Undefined || t is Byte || t is Unused {
            Some(Seq::<u8>::empty())
        } else if t is Control && (token == m.spec_bos() || token == m.spec_eos()) {
            Some(Seq::<u8>::empty())
        } else {
            None
        }
    }
}

/// For every token equal to the model's newline token, decoding resolves
/// to exactly the single newline byte, whatever buffer size is offered —
/// the native decode path is never consulted for it.
pub proof fn lemma_newline_decodes_directly(m: LlamaModel, token: LlamaToken)
    requires
        token == m.spec_nl(),
    ensures
        spec_immediate_piece(m, token) == Some(seq![10u8]),
{
}

/// For every token classified `Unknown`, `Undefined`, `Byte` or `Unused`,
/// decoding resolves to empty bytes — the native decode path is never
/// consulted for it.
pub proof fn lemma_silent_categories_decode_empty(m: LlamaModel, token: LlamaToken)
    requires
        m.in_vocab(token),
        token != m.spec_nl(),
        m.spec_token_type(token) is Unknown || m.spec_token_type(token) is Undefined
            || m.spec_token_type(token) is Byte || m.spec_token_type(token) is Unused,
    ensures
        spec_immediate_piece(m, token) == Some(Seq::<u8>::empty()),
{
}

impl LlamaModel {
    /// Decide how `token` decodes under this vocabulary, with `buffer_size`
    /// as the first capacity offered to a native decode.
    ///
    /// The newline token resolves to the newline byte whatever
    /// `buffer_size` is; the categories that carry no visible text
    /// resolve to no bytes without touching the native path.
    pub fn token_decode_plan(&self, token: LlamaToken, buffer_size: usize) -> (r: TokenDecode)
        requires
            self.wf(),
            token == self.spec_nl() || self.in_vocab(token),
        ensures
            spec_immediate_piece(*self, token) matches Some(piece) ==> (r matches
                TokenDecode::Resolved(b) && b@ == piece),
            spec_immediate_piece(*self, token) is None ==> r == (TokenDecode::Native {
                capacity: buffer_size,
            }),
    {
        if token == self.token_nl() {
            let mut piece: Vec<u8> = Vec::new();
            piece.push(10u8);
            proof {
                assert(piece@ =~= seq![10u8]);
            }
            TokenDecode::Resolved(piece)
        } else {
            match self.token_type(token) {
                LlamaTokenType::Normal | LlamaTokenType::UserDefined => TokenDecode::Native {
                    capacity: buffer_size,
                },
                LlamaTokenType::Control => {
                    if token == self.token_bos() || token == self.token_eos() {
                        TokenDecode::Resolved(Vec::new())
                    } else {
                        TokenDecode::Native { capacity: buffer_size }
                    }
                },
                LlamaTokenType::Unknown
                | LlamaTokenType::Undefined
                | LlamaTokenType::Byte
                | LlamaTokenType::Unused => TokenDecode::Resolved(Vec::new()),
            }
        }
    }
}

/// Read the decoded piece out of a finished negotiation: the buffer's
/// leading `len` bytes on acceptance.  A zero-length piece here means the
/// native decode recognized nothing and is an error; a rejection keeps
/// the raw code.
pub fn token_bytes_from_native(status: NegotiationStatus, buffer: Vec<u8>) -> (r: Result<
    Vec<u8>,
    TokenToStringError,
>)
    requires
        !(status is Retry),
        status matches NegotiationStatus::Accept { len } ==> len <= buffer@.len(),
    ensures
        status matches NegotiationStatus::Accept { len } ==> ((len == 0 ==> r == Err::<
            Vec<u8>,
            TokenToStringError,
        >(TokenToStringError::UnknownTokenType)) && (len > 0 ==> (r matches Ok(b) && b@
            == buffer@.subrange(0, len as int)))),
        status matches NegotiationStatus::Reject { code } ==> r == Err::<
            Vec<u8>,
            TokenToStringError,
        >(TokenToStringError::InsufficientBufferSpace(code)),
{
    match status {
        NegotiationStatus::Accept { len } => {
            if len == 0 {
                Err(TokenToStringError::UnknownTokenType)
            } else {
                let mut piece = buffer;
                piece.truncate(len);
                Ok(piece)
            }
        },
        NegotiationStatus::Retry { required: _ } => {
            proof {
                assert(false);
            }
            Err(TokenToStringError::UnknownTokenType)
        },
        NegotiationStatus::Reject { code } => Err(
            TokenToStringError::InsufficientBufferSpace(code),
        ),
    }
}

/// Turn one decoded piece into text; bytes that are not valid UTF-8 are
/// reported, never replaced with placeholder text.
pub fn piece_to_str(piece: Vec<u8>) -> (r: Result<String, TokenToStringError>)
    ensures
        r is Ok <==> valid_utf8(piece@),
        r matches Ok(s) ==> s@ == decode_utf8(piece@),
        r is Err ==> r == Err::<String, TokenToStringError>(TokenToStringError::Utf8Error),
{
    match string_from_utf8(piece) {
        Some(s) => Ok(s),
        None => Err(TokenToStringError::Utf8Error),
    }
}

/// The index of the first failed piece, or `pieces.len()` when every
/// piece decoded.
pub open spec fn first_err(
    pieces: Seq<Result<String, TokenToStringError>>,
    from: int,
) -> int
    decreases pieces.len() - from,
{
    if from < 0 || from >= pieces.len() {
        pieces.len() as int
    } else if pieces[from] is Err {
        from
    } else {
        first_err(pieces, from + 1)
    }
}

/// The concatenation of the first `upto` decoded pieces, in sequence
/// order.
pub open spec fn cat_pieces(
    pieces: Seq<Result<String, TokenToStringError>>,
    upto: int,
) -> Seq<char>
    decreases upto,
{
    if upto <= 0 || upto > pieces.len() {
        Seq::<char>::empty()
    } else {
        match pieces[upto - 1] {
            Ok(s) => cat_pieces(pieces, upto - 1) + s@,
            Err(_) => cat_pieces(pieces, upto - 1),
        }
    }
}

/// The concatenation of the first `upto` byte pieces, in sequence order.
pub open spec fn cat_bytes(pieces: Seq<Seq<u8>>, upto: int) -> Seq<u8>
    decreases upto,
{
    if upto <= 0 || upto > pieces.len() {
        Seq::<u8>::empty()
    } else {
        cat_bytes(pieces, upto - 1) + pieces[upto - 1]
    }
}

proof fn lemma_cat_decode(
    pieces: Seq<Result<String, TokenToStringError>>,
    bytes: Seq<Seq<u8>>,
    upto: int,
)
    requires
        pieces.len() == bytes.len(),
        0 <= upto <= pieces.len(),
        forall|i: int|
            0 <= i < pieces.len() ==> valid_utf8(#[trigger] bytes[i]) && (pieces[i] matches Ok(s)
                && s@ == decode_utf8(bytes[i])),
    ensures
        valid_utf8(cat_bytes(bytes, upto)),
        cat_pieces(pieces, upto) == decode_utf8(cat_bytes(bytes, upto)),
    decreases upto,
{
    if upto <= 0 {
        assert(cat_bytes(bytes, upto) =~= Seq::<u8>::empty());
    } else {
        lemma_cat_decode(pieces, bytes, upto - 1);
        lemma_decode_concat(cat_bytes(bytes, upto - 1), bytes[upto - 1]);
    }
}

/// The half of the tokenize/detokenize round trip that this library
/// answers for: when every token's piece decoded, and the native pieces
/// reassemble, in token-stream order, exactly the byte encoding of
/// `text`, then joining the per-token decodes yields exactly `text`.
pub proof fn lemma_tokens_to_str_round_trip(
    pieces: Seq<Result<String, TokenToStringError>>,
    bytes: Seq<Seq<u8>>,
    text: Seq<char>,
)
    requires
        pieces.len() == bytes.len(),
        forall|i: int|
            0 <= i < pieces.len() ==> valid_utf8(#[trigger] bytes[i]) && (pieces[i] matches Ok(s)
                && s@ == decode_utf8(bytes[i])),
        cat_bytes(bytes, bytes.len() as int) == encode_utf8(text),
    ensures
        first_err(pieces, 0) == pieces.len(),
        cat_pieces(pieces, pieces.len() as int) == text,
{
    assert forall|j: int| 0 <= j < pieces.len() implies pieces[j] is Ok by {
        assert(valid_utf8(bytes[j]));
    }
    lemma_first_err_from(pieces, pieces.len() as int);
    lemma_cat_decode(pieces, bytes, pieces.len() as int);
    encode_utf8_decode_utf8(text);
}

proof fn lemma_first_err_from(pieces: Seq<Result<String, TokenToStringError>>, from: int)
    requires
        0 <= from <= pieces.len(),
        forall|j: int| 0 <= j < from ==> pieces[j] is Ok,
    ensures
        first_err(pieces, 0) == first_err(pieces, from),
    decreases from,
{
    if from > 0 {
        lemma_first_err_from(pieces, from - 1);
    }
}

/// Concatenate per-token decodes in sequence order, stopping at and
/// propagating the first error encountered.
pub fn tokens_to_str(pieces: Vec<Result<String, TokenToStringError>>) -> (r: Result<
    String,
    TokenToStringError,
>)
    ensures
        first_err(pieces@, 0) == pieces@.len() ==> (r matches Ok(s) && s@ == cat_pieces(
            pieces@,
            pieces@.len() as int,
        )),
        first_err(pieces@, 0) < pieces@.len() ==> (pieces@[first_err(pieces@, 0)] matches Err(e)
            && r == Err::<String, TokenToStringError>(e)),
{
    let n: usize = pieces.len();
    let mut out: String = String::new();
    let mut i: usize = 0;
    while i < n
        invariant
            n == pieces@.len(),
            0 <= i <= n,
            forall|j: int| 0 <= j < i ==> pieces@[j] is Ok,
            out@ == cat_pieces(pieces@, i as int),
        decreases n - i,
    {
        match &pieces[i] {
            Ok(s) => {
                out.append(s.as_str());
            },
            Err(e) => {
                proof {
                    lemma_first_err_from(pieces@, i as int);
                }
                return Err(*e);
            },
        }
        i = i + 1;
    }
    proof {
        lemma_first_err_from(pieces@, n as int);
    }
    Ok(out)
}

} // verus!
