use sentencepiece::SentencePieceError;
use sentencepiece::SentencePieceProcessor;

fn loaded() -> SentencePieceProcessor {
    SentencePieceProcessor::from_model(true, 0, 0, 1, 2, -1, 32000).unwrap()
}

#[test]
fn construction_without_a_handle_fails() {
    let r = SentencePieceProcessor::from_model(false, 0, 0, 0, 0, 0, 1);
    assert_eq!(r.err().unwrap(), SentencePieceError::New);
}

#[test]
fn corrupted_model_reports_proto_status() {
    let r = SentencePieceProcessor::from_model(true, 7, 0, 0, 0, 0, 1);
    assert_eq!(r.err().unwrap(), SentencePieceError::Proto(7));
}

#[test]
fn truncated_model_reports_its_own_status() {
    let r = SentencePieceProcessor::from_model(true, -3, 0, 0, 0, 0, 1);
    assert_eq!(r.err().unwrap(), SentencePieceError::Proto(-3));
}

#[test]
fn loaded_model_reports_its_metadata() {
    let p = loaded();
    assert_eq!(p.unk_id(), 0);
    assert_eq!(p.bos_id(), Some(1));
    assert_eq!(p.eos_id(), Some(2));
    assert_eq!(p.pad_id(), None);
    assert_eq!(p.num_pieces(), Some(32000));
    assert_eq!(p.vocab_len(), Some(32000));
}

#[test]
fn sixteen_bit_special_tokens_match_the_wide_ones() {
    let p = loaded();
    assert_eq!(p.unk_tok16(), 0u16);
    assert_eq!(p.bos_tok16(), Some(1u16));
    assert_eq!(p.eos_tok16(), Some(2u16));
    assert_eq!(p.pad_tok16(), None);
}

#[test]
fn unknown_classification_follows_the_engine_reply() {
    let p = loaded();
    assert!(p.is_unknown_id(5, 1));
    assert!(!p.is_unknown_id(5, 0));
}

#[test]
fn absent_vocab_size_is_reported_unavailable() {
    let p = SentencePieceProcessor::from_model(true, 0, 0, -1, -1, -1, -1).unwrap();
    assert_eq!(p.num_pieces(), None);
    assert_eq!(p.vocab_len(), None);
}

#[test]
fn empty_text_encodes_without_the_engine() {
    let p = loaded();
    let b = p.encode("", None).unwrap();
    assert_eq!(b.len(), 0);
    let b16 = p.encode16("", None).unwrap();
    assert_eq!(b16.len(), 0);
}

#[test]
fn empty_ids_decode_without_the_engine() {
    let p = loaded();
    let b = p.decode(&[], 0, None).unwrap();
    assert_eq!(b.len(), 0);
    let b16 = p.decode16(&[], 0, None).unwrap();
    assert_eq!(b16.len(), 0);
}

#[test]
fn encode_hands_back_the_engine_ids() {
    let p = loaded();
    let b = p.encode("hello", Some(vec![8, 3, 12])).unwrap();
    assert_eq!(b.as_ref(), &[8, 3, 12]);
    assert_eq!(b.len(), 3);
}

#[test]
fn encode_with_a_null_reply_fails() {
    let p = loaded();
    assert_eq!(p.encode("hello", None).err().unwrap(), SentencePieceError::Encode);
    assert_eq!(p.encode16("hello", None).err().unwrap(), SentencePieceError::Encode);
}

#[test]
fn decode_hands_back_the_engine_bytes() {
    let p = loaded();
    let b = p.decode(&[8, 3], 0, Some(b"hi there".to_vec())).unwrap();
    assert_eq!(b.as_ref(), b"hi there");
}

#[test]
fn decode_widths_judge_the_same_reply_alike() {
    let p = loaded();
    let wide = p.decode(&[8i32, 3i32], 0, Some(b"hi".to_vec())).unwrap();
    let narrow = p.decode16(&[8u16, 3u16], 0, Some(b"hi".to_vec())).unwrap();
    assert_eq!(wide.as_ref(), narrow.as_ref());
}

#[test]
fn decode_with_nonzero_status_fails_with_that_status() {
    let p = loaded();
    let r = p.decode(&[8], 5, Some(b"hi".to_vec()));
    assert_eq!(r.err().unwrap(), SentencePieceError::Decode(5));
}

#[test]
fn decode_with_a_null_reply_fails_whatever_the_status() {
    let p = loaded();
    let r = p.decode(&[8], 0, None);
    assert_eq!(r.err().unwrap(), SentencePieceError::Decode(0));
    let r16 = p.decode16(&[8u16], 9, None);
    assert_eq!(r16.err().unwrap(), SentencePieceError::Decode(9));
}

#[test]
fn sixteen_bit_encode_refuses_an_oversized_vocabulary() {
    let p = SentencePieceProcessor::from_model(true, 0, 0, -1, -1, -1, 100000).unwrap();
    let r = p.encode16("hello", Some(vec![1u16]));
    assert_eq!(r.err().unwrap(), SentencePieceError::Encode);
}

#[test]
fn sixteen_bit_encode_splices_prefix_and_suffix() {
    let p = loaded();
    let plain = p.encode16("ab", Some(vec![9u16, 9u16])).unwrap();
    assert_eq!(plain.as_ref(), &[9u16, 9u16]);
    let pre = p.encode16_with_prefix("ab", 1, Some(vec![9u16, 9u16])).unwrap();
    assert_eq!(pre.as_ref(), &[1u16, 9u16, 9u16]);
    let suf = p.encode16_with_suffix("ab", 2, Some(vec![9u16, 9u16])).unwrap();
    assert_eq!(suf.as_ref(), &[9u16, 9u16, 2u16]);
    let both = p.encode16_with_prefix_suffix("ab", 1, 2, Some(vec![9u16, 9u16])).unwrap();
    assert_eq!(both.as_ref(), &[1u16, 9u16, 9u16, 2u16]);
}

#[test]
fn spliced_encode_of_empty_text_is_the_special_tokens_alone() {
    let p = loaded();
    let both = p.encode16_with_prefix_suffix("", 1, 2, None).unwrap();
    assert_eq!(both.as_ref(), &[1u16, 2u16]);
}

#[test]
fn id_to_piece_copies_valid_utf8() {
    let p = loaded();
    let s = p.id_to_piece(8, b"hello".to_vec()).unwrap();
    assert_eq!(s.as_str(), "hello");
    let multi = p.id_to_piece(9, "\u{2581}low".as_bytes().to_vec()).unwrap();
    assert_eq!(multi.as_str(), "\u{2581}low");
}

#[test]
fn id_to_piece_rejects_invalid_utf8() {
    let p = loaded();
    let r = p.id_to_piece(8, vec![0xff, 0xfe]);
    assert_eq!(r.err().unwrap(), SentencePieceError::Utf8);
    let truncated = p.id_to_piece(8, vec![0xe2, 0x96]);
    assert_eq!(truncated.err().unwrap(), SentencePieceError::Utf8);
}

#[test]
fn get16_matches_id_to_piece() {
    let p = loaded();
    let s = p.get16(8, b"piece".to_vec()).unwrap();
    assert_eq!(s.as_str(), "piece");
}

#[test]
fn piece_to_id_relays_the_engine_answer() {
    let p = loaded();
    assert_eq!(p.piece_to_id("hello", 42), 42);
    assert_eq!(p.piece_to_id("missing", p.unk_id()), 0);
}
