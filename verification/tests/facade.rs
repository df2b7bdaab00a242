use llama_cpp_2::chat::{
    apply_chat_template_from_native, apply_chat_template_request, chat_template_from_native,
};
use llama_cpp_2::detokenize::{piece_to_str, token_bytes_from_native, tokens_to_str, TokenDecode};
use llama_cpp_2::error::{
    ApplyChatTemplateError, ChatTemplateError, LlamaTokenTypeFromIntError,
    NewLlamaChatMessageError, StringToTokenError, TokenToStringError,
};
use llama_cpp_2::model::{AddBos, LlamaChatMessage, LlamaModel, VocabType};
use llama_cpp_2::negotiate::{Negotiation, NegotiationStatus};
use llama_cpp_2::text::prefix_to_null;
use llama_cpp_2::token::LlamaToken;
use llama_cpp_2::token_type::LlamaTokenType;
use llama_cpp_2::tokenize::{str_to_token_request, tokens_from_native};

/// A small vocabulary: ids 0..8 with one token of each category, plus a
/// `Normal` tail.
fn small_model(n_vocab: usize) -> LlamaModel {
    let mut types = vec![
        LlamaTokenType::Unknown,     // 0
        LlamaTokenType::Control,     // 1: bos
        LlamaTokenType::Control,     // 2: eos
        LlamaTokenType::Control,     // 3: a control token with visible text
        LlamaTokenType::UserDefined, // 4
        LlamaTokenType::Byte,        // 5
        LlamaTokenType::Undefined,   // 6
        LlamaTokenType::Unused,      // 7
    ];
    while types.len() < n_vocab {
        types.push(LlamaTokenType::Normal);
    }
    LlamaModel::from_vocab(
        types,
        LlamaToken::new(1),
        LlamaToken::new(2),
        LlamaToken::new(13),
        VocabType::SPM,
        4096,
        4096,
    )
    .unwrap()
}

#[test]
fn chat_message_new_accepts_plain_strings() {
    let m = LlamaChatMessage::new("user".to_string(), "hi".to_string()).unwrap();
    assert_eq!(m.role().as_str(), "user");
    assert_eq!(m.content().as_str(), "hi");
}

#[test]
fn chat_message_new_rejects_embedded_null() {
    let r = LlamaChatMessage::new("us\0er".to_string(), "hi".to_string());
    assert_eq!(r, Err(NewLlamaChatMessageError::InvalidString));
    let r = LlamaChatMessage::new("user".to_string(), "h\0i".to_string());
    assert_eq!(r, Err(NewLlamaChatMessageError::InvalidString));
}

#[test]
fn token_type_try_from_decodes_every_known_code() {
    assert_eq!(LlamaTokenType::try_from(0), Ok(LlamaTokenType::Undefined));
    assert_eq!(LlamaTokenType::try_from(1), Ok(LlamaTokenType::Normal));
    assert_eq!(LlamaTokenType::try_from(2), Ok(LlamaTokenType::Unknown));
    assert_eq!(LlamaTokenType::try_from(3), Ok(LlamaTokenType::Control));
    assert_eq!(LlamaTokenType::try_from(4), Ok(LlamaTokenType::UserDefined));
    assert_eq!(LlamaTokenType::try_from(5), Ok(LlamaTokenType::Unused));
    assert_eq!(LlamaTokenType::try_from(6), Ok(LlamaTokenType::Byte));
    assert_eq!(
        LlamaTokenType::try_from(7),
        Err(LlamaTokenTypeFromIntError::UnknownValue(7))
    );
    assert_eq!(
        LlamaTokenType::try_from(-1),
        Err(LlamaTokenTypeFromIntError::UnknownValue(-1))
    );
}

#[test]
fn vocab_type_try_from_decodes_known_codes_only() {
    assert_eq!(VocabType::try_from(1), Ok(VocabType::SPM));
    assert_eq!(VocabType::try_from(2), Ok(VocabType::BPE));
    assert_eq!(
        VocabType::try_from(0),
        Err(LlamaTokenTypeFromIntError::UnknownValue(0))
    );
}

#[test]
fn model_view_exposes_vocabulary_metadata() {
    let m = small_model(32);
    assert_eq!(m.n_vocab(), 32);
    assert_eq!(m.token_bos(), LlamaToken::new(1));
    assert_eq!(m.token_eos(), LlamaToken::new(2));
    assert_eq!(m.token_nl(), LlamaToken::new(13));
    assert_eq!(m.vocab_type(), VocabType::SPM);
    assert_eq!(m.n_ctx_train(), 4096);
    assert_eq!(m.n_embd(), 4096);
    assert_eq!(m.token_type(LlamaToken::new(5)), LlamaTokenType::Byte);
    assert_eq!(m.token_type(LlamaToken::new(20)), LlamaTokenType::Normal);
}

#[test]
fn tokens_enumerates_every_id_in_order_and_restarts() {
    let m = small_model(16);
    let first = m.tokens();
    let second = m.tokens();
    assert_eq!(first.len(), 16);
    assert_eq!(second.len(), 16);
    for (i, t) in first.iter().enumerate() {
        assert_eq!(t.0, i as i32);
    }
    for (i, t) in second.iter().enumerate() {
        assert_eq!(t.0, i as i32);
    }
}

#[test]
fn converter_synthetic_probe_finishes_in_two_invocations() {
    // The operation needs 20 elements: any smaller buffer is answered
    // with -20, a buffer of at least 20 succeeds with 20.
    let mut invocations = 0;
    let probe = |capacity: usize| -> i32 {
        if capacity >= 20 {
            20
        } else {
            -20
        }
    };

    let mut n = Negotiation::begin(8);
    invocations += 1;
    let s1 = n.step(probe(8));
    assert_eq!(s1, NegotiationStatus::Retry { required: 20 });
    invocations += 1;
    let s2 = n.step(probe(20));
    assert_eq!(s2, NegotiationStatus::Accept { len: 20 });
    assert_eq!(invocations, 2);
}

#[test]
fn converter_accepts_first_answer_when_estimate_suffices() {
    let mut n = Negotiation::begin(32);
    let s = n.step(13);
    assert_eq!(s, NegotiationStatus::Accept { len: 13 });
}

#[test]
fn converter_rejects_a_second_shortfall() {
    let mut n = Negotiation::begin(4);
    assert_eq!(n.step(-9), NegotiationStatus::Retry { required: 9 });
    assert_eq!(n.step(-11), NegotiationStatus::Reject { code: -11 });
}

#[test]
fn newline_token_decodes_to_the_newline_byte_alone() {
    let m = small_model(32);
    let nl = m.token_nl();
    assert_eq!(m.token_decode_plan(nl, 32), TokenDecode::Resolved(vec![b'\n']));
    // The buffer size argument does not matter for the newline token.
    assert_eq!(m.token_decode_plan(nl, 0), TokenDecode::Resolved(vec![b'\n']));
    assert_eq!(m.token_decode_plan(nl, 1024), TokenDecode::Resolved(vec![b'\n']));
}

#[test]
fn silent_categories_decode_to_empty_without_native_call() {
    let m = small_model(32);
    for id in [0i32, 5, 6, 7] {
        let plan = m.token_decode_plan(LlamaToken::new(id), 32);
        assert_eq!(plan, TokenDecode::Resolved(Vec::new()));
    }
}

#[test]
fn stream_marker_controls_decode_to_empty_but_other_controls_go_native() {
    let m = small_model(32);
    assert_eq!(
        m.token_decode_plan(m.token_bos(), 32),
        TokenDecode::Resolved(Vec::new())
    );
    assert_eq!(
        m.token_decode_plan(m.token_eos(), 32),
        TokenDecode::Resolved(Vec::new())
    );
    assert_eq!(
        m.token_decode_plan(LlamaToken::new(3), 32),
        TokenDecode::Native { capacity: 32 }
    );
}

#[test]
fn normal_and_user_defined_tokens_go_native_at_the_given_size() {
    let m = small_model(32);
    assert_eq!(
        m.token_decode_plan(LlamaToken::new(20), 32),
        TokenDecode::Native { capacity: 32 }
    );
    assert_eq!(
        m.token_decode_plan(LlamaToken::new(4), 64),
        TokenDecode::Native { capacity: 64 }
    );
}

#[test]
fn native_decode_retry_path_resolves_in_two_attempts() {
    // A Normal token goes native; the first attempt at 4 bytes is
    // answered with -6, the retried attempt at exactly 6 succeeds.
    let m = small_model(32);
    let plan = m.token_decode_plan(LlamaToken::new(20), 4);
    assert_eq!(plan, TokenDecode::Native { capacity: 4 });

    let mut n = Negotiation::begin(4);
    let s = n.step(-6);
    assert_eq!(s, NegotiationStatus::Retry { required: 6 });
    let s = n.step(6);
    assert_eq!(s, NegotiationStatus::Accept { len: 6 });
    let buffer = b"abcdef".to_vec();
    let r = token_bytes_from_native(s, buffer);
    assert_eq!(r, Ok(b"abcdef".to_vec()));
}

#[test]
fn token_bytes_from_native_truncates_to_the_reported_length() {
    let buffer = vec![b'a', b'b', b'c', b'*', b'*'];
    let r = token_bytes_from_native(NegotiationStatus::Accept { len: 3 }, buffer);
    assert_eq!(r, Ok(vec![b'a', b'b', b'c']));
}

#[test]
fn token_bytes_from_native_reports_an_empty_decode() {
    let r = token_bytes_from_native(NegotiationStatus::Accept { len: 0 }, vec![b'*'; 4]);
    assert_eq!(r, Err(TokenToStringError::UnknownTokenType));
}

#[test]
fn token_bytes_from_native_keeps_the_rejection_code() {
    let r = token_bytes_from_native(NegotiationStatus::Reject { code: -7 }, vec![b'*'; 4]);
    assert_eq!(r, Err(TokenToStringError::InsufficientBufferSpace(-7)));
}

#[test]
fn piece_to_str_decodes_utf8_and_reports_invalid_bytes() {
    assert_eq!(piece_to_str(vec![b'h', b'i']).unwrap().as_str(), "hi");
    assert_eq!(piece_to_str(vec![0xff]), Err(TokenToStringError::Utf8Error));
}

#[test]
fn tokens_to_str_concatenates_in_sequence_order() {
    let pieces = vec![
        Ok("he".to_string()),
        Ok("llo".to_string()),
        Ok(" world".to_string()),
    ];
    assert_eq!(tokens_to_str(pieces).unwrap().as_str(), "hello world");
}

#[test]
fn tokens_to_str_propagates_the_first_error() {
    let pieces = vec![
        Ok("a".to_string()),
        Err(TokenToStringError::UnknownTokenType),
        Err(TokenToStringError::Utf8Error),
    ];
    assert_eq!(tokens_to_str(pieces), Err(TokenToStringError::UnknownTokenType));
}

#[test]
fn str_to_token_request_sizes_the_first_attempt() {
    let q = str_to_token_request("Hello, World!", AddBos::Always).unwrap();
    assert_eq!(q.capacity, 8); // max(8, 13 / 2 + 1)
    assert_eq!(q.text_len, 13);
    assert!(q.add_bos);
    assert!(q.parse_special);

    let q = str_to_token_request("a string of thirty characters!", AddBos::Never).unwrap();
    assert_eq!(q.capacity, 15); // max(8, 30 / 2)
    assert_eq!(q.text_len, 30);
    assert!(!q.add_bos);
}

#[test]
fn str_to_token_request_rejects_embedded_null() {
    assert_eq!(
        str_to_token_request("a\0b", AddBos::Always),
        Err(StringToTokenError::InvalidString)
    );
}

#[test]
fn tokenize_hello_world_starts_with_bos() {
    // Scenario against a 32000-token vocabulary: the native tokenizer
    // answers four ids for "Hello, World!", the first being BOS.
    let m = small_model(32000);
    assert_eq!(m.n_vocab(), 32000);
    let q = str_to_token_request("Hello, World!", AddBos::Always).unwrap();
    let mut native_ids = vec![1, 15043, 29892, 2787];
    let written = native_ids.len() as i32;
    native_ids.resize(q.capacity, 0);

    let mut n = Negotiation::begin(q.capacity);
    let s = n.step(written);
    assert_eq!(s, NegotiationStatus::Accept { len: 4 });
    let tokens = tokens_from_native(s, native_ids);
    assert!(!tokens.is_empty());
    assert_eq!(tokens[0], m.token_bos());
    assert_eq!(tokens.len(), 4);
}

#[test]
fn tokens_from_native_wraps_ids_in_stream_order() {
    let tokens = tokens_from_native(
        NegotiationStatus::Accept { len: 2 },
        vec![5, 6, 7, 8],
    );
    assert_eq!(tokens, vec![LlamaToken::new(5), LlamaToken::new(6)]);
}

#[test]
fn chat_template_request_doubles_the_message_length() {
    let chat = vec![
        LlamaChatMessage::new("user".to_string(), "hi".to_string()).unwrap(),
        LlamaChatMessage::new("assistant".to_string(), "hello!".to_string()).unwrap(),
    ];
    // 4 + 2 + 9 + 6 = 21 combined bytes.
    let q = apply_chat_template_request(&None, &chat, true).unwrap();
    assert_eq!(q.buffer_len, 42);
    assert!(q.add_ass);
}

#[test]
fn chat_template_request_rejects_null_in_override() {
    let chat = vec![LlamaChatMessage::new("user".to_string(), "hi".to_string()).unwrap()];
    let r = apply_chat_template_request(&Some("tm\0pl".to_string()), &chat, false);
    assert_eq!(r, Err(ApplyChatTemplateError::InvalidTemplateString));
}

#[test]
fn formatter_needing_more_than_the_heuristic_is_a_size_error() {
    // Combined message length 6 gives a 12-byte buffer; a native answer
    // of 13 exceeds it.
    let chat = vec![LlamaChatMessage::new("user".to_string(), "hi".to_string()).unwrap()];
    let q = apply_chat_template_request(&None, &chat, false).unwrap();
    assert_eq!(q.buffer_len, 12);
    let buffer = vec![0i8; q.buffer_len];
    let r = apply_chat_template_from_native(q.buffer_len as i32 + 1, buffer);
    assert_eq!(r, Err(ApplyChatTemplateError::BuffSizeError));
}

#[test]
fn formatter_output_keeps_only_strictly_positive_bytes() {
    let buffer = vec![72i8, 105, 0, -50, 33, 0, 0, 0];
    let r = apply_chat_template_from_native(3, buffer);
    assert_eq!(r.unwrap().as_str(), "Hi!");
}

#[test]
fn chat_template_from_native_reads_up_to_the_terminator() {
    let mut buffer = b"tmpl".to_vec();
    buffer.push(0);
    buffer.extend_from_slice(b"***");
    assert_eq!(chat_template_from_native(4, buffer).unwrap().as_str(), "tmpl");
}

#[test]
fn chat_template_from_native_keeps_the_missing_code() {
    let r = chat_template_from_native(-1, vec![b'*'; 8]);
    assert_eq!(r, Err(ChatTemplateError::MissingTemplate(-1)));
}

#[test]
fn chat_template_from_native_reports_invalid_utf8() {
    let r = chat_template_from_native(2, vec![0xc3, 0x28, 0]);
    assert_eq!(r, Err(ChatTemplateError::Utf8Error));
}

#[test]
fn prefix_to_null_cuts_at_the_first_null() {
    assert_eq!(prefix_to_null(vec![1, 2, 0, 3]), vec![1, 2]);
    assert_eq!(prefix_to_null(vec![1, 2, 3]), vec![1, 2, 3]);
    assert_eq!(prefix_to_null(vec![0, 9]), Vec::<u8>::new());
}
