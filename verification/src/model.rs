//! The model vocabulary view and chat messages.
//!
//! A loaded model is an opaque native resource.  Everything this crate's
//! logic reads of it — the per-token categories, the special tokens, the
//! tokenizer family and the trained context length — is held here as
//! plain values, assembled once when the model is loaded.  The owner of
//! the native handle queries those values at load time and keeps this
//! view beside the handle.

use vstd::prelude::*;
use vstd::utf8::encode_utf8;
use crate::error::{LlamaTokenTypeFromIntError, NewLlamaChatMessageError};
use crate::text::{contains_null, str_has_null};
use crate::token::LlamaToken;
use crate::token_type::LlamaTokenType;

verus! {

/// Whether a beginning-of-sequence marker is prepended during
/// tokenization.
#[derive(Clone, Copy, Debug, PartialEq, Eq, Structural)]
pub enum AddBos {
    /// Prepend the beginning-of-sequence token.
    Always,
    /// Do not prepend it.
    Never,
}

/// The tokenizer family a model was trained with; fixed per model.
#[derive(Clone, Copy, Debug, PartialEq, Eq, Structural)]
pub enum VocabType {
    /// Byte-pair encoding.
    BPE,
    /// Sentence-piece.
    SPM,
}

/// The family the native library encodes as `value`, following
/// llama.cpp's `llama_vocab_type` enumeration, or `None` for a code this
/// crate does not recognize.
pub open spec fn spec_vocab_type_from_int(value: i32) -> Option<VocabType> {
    if value == 1 {
        Some(VocabType::SPM)
    } else if value == 2 {
        Some(VocabType::BPE)
    } else {
        None
    }
}

impl VocabType {
    /// Decode a raw native vocabulary-family code.
    ///
    /// An unrecognized code signals a version mismatch with the native
    /// library; it is reported, never silently defaulted.
    pub fn try_from(value: i32) -> (r: Result<VocabType, LlamaTokenTypeFromIntError>)
        ensures
            match spec_vocab_type_from_int(value) {
                Some(v) => r == Ok::<VocabType, LlamaTokenTypeFromIntError>(v),
                None => r == Err::<VocabType, LlamaTokenTypeFromIntError>(
                    LlamaTokenTypeFromIntError::UnknownValue(value),
                ),
            },
    {
        match value {
            1 => Ok(VocabType::SPM),
            2 => Ok(VocabType::BPE),
            _ => Err(LlamaTokenTypeFromIntError::UnknownValue(value)),
        }
    }
}

/// A role and a content string, both free of embedded null bytes so that
/// each can cross the native boundary null-terminated.  Immutable once
/// built.
#[derive(Clone, Debug, PartialEq, Eq)]
pub struct LlamaChatMessage {
    role: String,
    content: String,
}

impl LlamaChatMessage {
    /// The characters of the role.
    pub closed spec fn spec_role(self) -> Seq<char> {
        self.role@
    }

    /// The characters of the content.
    pub closed spec fn spec_content(self) -> Seq<char> {
        self.content@
    }

    /// Both strings can be carried null-terminated.
    pub open spec fn wf(self) -> bool {
        &&& !contains_null(encode_utf8(self.spec_role()))
        &&& !contains_null(encode_utf8(self.spec_content()))
    }

    /// Build a message; fails when either string holds an embedded null
    /// byte.
    pub fn new(role: String, content: String) -> (r: Result<
        LlamaChatMessage,
        NewLlamaChatMessageError,
    >)
        ensures
            r is Ok <==> !contains_null(encode_utf8(role@)) && !contains_null(
                encode_utf8(content@),
            ),
            r matches Ok(m) ==> m.spec_role() == role@ && m.spec_content() == content@ && m.wf(),
            r is Err ==> r == Err::<LlamaChatMessage, NewLlamaChatMessageError>(
                NewLlamaChatMessageError::InvalidString,
            ),
    {
        if str_has_null(role.as_str()) || str_has_null(content.as_str()) {
            Err(NewLlamaChatMessageError::InvalidString)
        } else {
            Ok(LlamaChatMessage { role, content })
        }
    }

    /// The role.
    pub fn role(&self) -> (r: &String)
        ensures
            r@ == self.spec_role(),
    {
        &self.role
    }

    /// The content.
    pub fn content(&self) -> (r: &String)
        ensures
            r@ == self.spec_content(),
    {
        &self.content
    }
}

/// The plain-value vocabulary view of one loaded model.
///
/// `token_types` is indexed by token id and covers ids `0..n_vocab`.
/// Tokens are meaningful only against the model this view was read from.
pub struct LlamaModel {
    token_types: Vec<LlamaTokenType>,
    bos: LlamaToken,
    eos: LlamaToken,
    nl: LlamaToken,
    vocab: VocabType,
    n_ctx_train: u32,
    n_embd: i32,
}

impl LlamaModel {
    /// The per-token categories, indexed by token id.
    pub closed spec fn spec_token_types(self) -> Seq<LlamaTokenType> {
        self.token_types@
    }

    /// The beginning-of-sequence token.
    pub closed spec fn spec_bos(self) -> LlamaToken {
        self.bos
    }

    /// The end-of-sequence token.
    pub closed spec fn spec_eos(self) -> LlamaToken {
        self.eos
    }

    /// The newline token.
    pub closed spec fn spec_nl(self) -> LlamaToken {
        self.nl
    }

    /// The tokenizer family.
    pub closed spec fn spec_vocab_type(self) -> VocabType {
        self.vocab
    }

    /// The trained context length.
    pub closed spec fn spec_n_ctx_train(self) -> u32 {
        self.n_ctx_train
    }

    /// The embedding width.
    pub closed spec fn spec_n_embd(self) -> i32 {
        self.n_embd
    }

    /// The vocabulary size.
    pub open spec fn spec_n_vocab(self) -> int {
        self.spec_token_types().len() as int
    }

    /// Every token id of the vocabulary fits the native id width.
    pub open spec fn wf(self) -> bool {
        self.spec_token_types().len() <= i32::MAX
    }

    /// `token` is an id of this vocabulary.
    pub open spec fn in_vocab(self, token: LlamaToken) -> bool {
        0 <= token.0 < self.spec_n_vocab()
    }

    /// The category of a token of this vocabulary.
    pub open spec fn spec_token_type(self, token: LlamaToken) -> LlamaTokenType
        recommends
            self.in_vocab(token),
    {
        self.spec_token_types()[token.0 as int]
    }

    /// Assemble the vocabulary view of a loaded model from the values
    /// queried off the native handle: the category of each token id in
    /// order, the special tokens, the family, the trained context length
    /// and the embedding width.  Fails when the vocabulary is larger than
    /// a native token id can index.
    pub fn from_vocab(
        token_types: Vec<LlamaTokenType>,
        bos: LlamaToken,
        eos: LlamaToken,
        nl: LlamaToken,
        vocab: VocabType,
        n_ctx_train: u32,
        n_embd: i32,
    ) -> (r: Option<LlamaModel>)
        ensures
            r is Some <==> token_types@.len() <= i32::MAX,
            r matches Some(m) ==> {
                &&& m.wf()
                &&& m.spec_token_types() == token_types@
                &&& m.spec_bos() == bos
                &&& m.spec_eos() == eos
                &&& m.spec_nl() == nl
                &&& m.spec_vocab_type() == vocab
                &&& m.spec_n_ctx_train() == n_ctx_train
                &&& m.spec_n_embd() == n_embd
            },
    {
        if token_types.len() <= i32::MAX as usize {
            Some(LlamaModel { token_types, bos, eos, nl, vocab, n_ctx_train, n_embd })
        } else {
            None
        }
    }

    /// The vocabulary size.
    pub fn n_vocab(&self) -> (r: i32)
        requires
            self.wf(),
        ensures
            r as int == self.spec_n_vocab(),
    {
        self.token_types.len() as i32
    }

    /// The number of tokens the model was trained on.
    pub fn n_ctx_train(&self) -> (r: u32)
        ensures
            r == self.spec_n_ctx_train(),
    {
        self.n_ctx_train
    }

    /// The embedding width.
    pub fn n_embd(&self) -> (r: i32)
        ensures
            r == self.spec_n_embd(),
    {
        self.n_embd
    }

    /// The beginning-of-sequence token.
    pub fn token_bos(&self) -> (r: LlamaToken)
        ensures
            r == self.spec_bos(),
    {
        self.bos
    }

    /// The end-of-sequence token.
    pub fn token_eos(&self) -> (r: LlamaToken)
        ensures
            r == self.spec_eos(),
    {
        self.eos
    }

    /// The newline token.
    pub fn token_nl(&self) -> (r: LlamaToken)
        ensures
            r == self.spec_nl(),
    {
        self.nl
    }

    /// The tokenizer family.
    pub fn vocab_type(&self) -> (r: VocabType)
        ensures
            r == self.spec_vocab_type(),
    {
        self.vocab
    }

    /// The category of a token of this vocabulary.
    pub fn token_type(&self, token: LlamaToken) -> (r: LlamaTokenType)
        requires
            self.wf(),
            self.in_vocab(token),
        ensures
            r == self.spec_token_type(token),
    {
        self.token_types[token.0 as usize]
    }

    /// All token ids of the vocabulary, in order: a finite enumeration
    /// rebuilt from the vocabulary size on every call, not a shared
    /// cursor.
    pub fn tokens(&self) -> (r: Vec<LlamaToken>)
        requires
            self.wf(),
        ensures
            r@.len() == self.spec_n_vocab(),
            forall|i: int| 0 <= i < r@.len() ==> r@[i].0 == i,
    {
        let n: usize = self.token_types.len();
        let mut out: Vec<LlamaToken> = Vec::new();
        let mut i: usize = 0;
        while i < n
            invariant
                n == self.spec_token_types().len(),
                n <= i32::MAX,
                0 <= i <= n,
                out@.len() == i,
                forall|j: int| 0 <= j < i ==> out@[j].0 == j,
            decreases n - i,
        {
            out.push(LlamaToken(i as i32));
            i = i + 1;
        }
        out
    }
}

} // verus!
