use bech32::{decode, encode, Hrp};
use gitbase::coder::{
    check_decoded, decode_bech32_id, generate_bech32_id, generate_collection_id,
    generate_document_id, generate_index_id, COL_PREFIX, DOC_PREFIX, IDX_PREFIX,
};
use gitbase::error::CoderError;
use gitbase::text::decimal_string;
use sha3::Digest;

#[test]
fn test_generate_document_id() {
    let content = r#"{"title": "Hello", "body": "GitBase"}"#;
    let timestamp = 1700000000;
    let doc_id = generate_document_id(content, timestamp).unwrap();

    assert!(doc_id.starts_with(DOC_PREFIX));

    let (hrp, data) = decode(&doc_id).unwrap();
    assert_eq!(hrp, Hrp::parse(DOC_PREFIX).unwrap());
    assert_eq!(data.len(), 10);
}

#[test]
fn test_generate_collection_id() {
    let collection_name = "notes";
    let col_id = generate_collection_id(collection_name).unwrap();

    assert!(col_id.starts_with(COL_PREFIX));

    let (hrp, data) = decode(&col_id).unwrap();
    assert_eq!(hrp, Hrp::parse(COL_PREFIX).unwrap());
    assert_eq!(data.len(), 10);
}

#[test]
fn test_generate_index_id() {
    let index_name = "by_date";
    let collection_name = "notes";
    let idx_id = generate_index_id(index_name, collection_name).unwrap();

    assert!(idx_id.starts_with(IDX_PREFIX));

    let (hrp, data) = decode(&idx_id).unwrap();
    assert_eq!(hrp, Hrp::parse(IDX_PREFIX).unwrap());
    assert_eq!(data.len(), 10);
}

#[test]
fn test_decode_bech32_id() {
    let encoded = "gbdoc1p05pynsthd39yw2d6yn44l";
    let (hrp, data) = decode_bech32_id(encoded).unwrap();

    assert_eq!(hrp, DOC_PREFIX);
    assert_eq!(data.len(), 10);

    let reencoded = encode::<bech32::Bech32m>(Hrp::parse(DOC_PREFIX).unwrap(), &data).unwrap();
    assert_eq!(reencoded, encoded);
}

fn sha3_payload(text: &str) -> Vec<u8> {
    let mut hasher = sha3::Sha3_256::new();
    hasher.update(text.as_bytes());
    hasher.finalize()[..10].to_vec()
}

fn bech32m(prefix: &str, payload: &[u8]) -> String {
    encode::<bech32::Bech32m>(Hrp::parse(prefix).unwrap(), payload).unwrap()
}

#[test]
fn document_id_is_bech32m_of_sha3_of_content_and_timestamp() {
    let id = generate_document_id("{\"title\":\"Hello\"}", 1700000000).unwrap();
    let expected = bech32m("gbdoc", &sha3_payload("{\"title\":\"Hello\"}1700000000"));
    assert_eq!(id, expected);
    assert_eq!(id.len(), 28);
}

#[test]
fn document_id_of_empty_content_and_zero() {
    let id = generate_document_id("", 0).unwrap();
    assert_eq!(id, bech32m("gbdoc", &sha3_payload("0")));
}

#[test]
fn document_id_with_largest_timestamp() {
    let id = generate_document_id("x", u64::MAX).unwrap();
    assert_eq!(id, bech32m("gbdoc", &sha3_payload("x18446744073709551615")));
}

#[test]
fn collection_id_is_bech32m_of_blake3_of_name() {
    let id = generate_collection_id("notes").unwrap();
    let hash = blake3::hash(b"notes");
    assert_eq!(id, bech32m("gbcol", &hash.as_bytes()[..10]));
}

#[test]
fn index_id_is_bech32m_of_sha3_of_both_names() {
    let id = generate_index_id("by_date", "notes").unwrap();
    assert_eq!(id, bech32m("gbidx", &sha3_payload("by_datenotes")));
}

#[test]
fn collection_and_document_hashes_differ() {
    let col = generate_collection_id("notes").unwrap();
    let (_, col_payload) = decode_bech32_id(&col).unwrap();
    assert_ne!(col_payload, sha3_payload("notes"));
}

#[test]
fn generated_ids_round_trip() {
    let doc = generate_document_id("{\"a\":1}", 42).unwrap();
    let (hrp, payload) = decode_bech32_id(&doc).unwrap();
    assert_eq!(hrp, "gbdoc");
    assert_eq!(payload, sha3_payload("{\"a\":1}42"));

    let col = generate_collection_id("tasks").unwrap();
    let (hrp, payload) = decode_bech32_id(&col).unwrap();
    assert_eq!(hrp, "gbcol");
    assert_eq!(payload, blake3::hash(b"tasks").as_bytes()[..10].to_vec());

    let idx = generate_index_id("by_title", "tasks").unwrap();
    let (hrp, payload) = decode_bech32_id(&idx).unwrap();
    assert_eq!(hrp, "gbidx");
    assert_eq!(payload, sha3_payload("by_titletasks"));
}

#[test]
fn concrete_document_scenario() {
    let id = generate_document_id("{\"title\":\"Hello\"}", 1700000000).unwrap();
    assert!(id.starts_with("gbdoc"));
    assert_eq!(id, generate_document_id("{\"title\":\"Hello\"}", 1700000000).unwrap());
    let (hrp, payload) = decode_bech32_id(&id).unwrap();
    assert_eq!(hrp, "gbdoc");
    assert_eq!(payload.len(), 10);
    assert_eq!(generate_bech32_id("gbdoc", &payload).unwrap(), id);
}

#[test]
fn every_single_character_mutation_of_the_body_is_rejected() {
    let alphabet = "qpzry9x8gf2tvdw0s3jn54khce6mua7l";
    for id in [
        generate_document_id("{\"title\":\"Hello\"}", 1700000000).unwrap(),
        generate_collection_id("notes").unwrap(),
        generate_index_id("by_date", "notes").unwrap(),
    ] {
        let body_start = id.rfind('1').unwrap() + 1;
        for pos in body_start..id.len() {
            for replacement in alphabet.chars().chain("1bio BQ-".chars()) {
                let present = id[pos..].chars().next().unwrap();
                if replacement == present {
                    continue;
                }
                let mut mutated = String::new();
                mutated.push_str(&id[..pos]);
                mutated.push(replacement);
                mutated.push_str(&id[pos + 1..]);
                assert!(
                    decode_bech32_id(&mutated).is_err(),
                    "{} decoded after {} became {}",
                    mutated,
                    present,
                    replacement
                );
            }
        }
    }
}

#[test]
fn collection_ids_of_a_thousand_names_are_distinct_and_stable() {
    let mut seen = std::collections::HashSet::new();
    for i in 0..1500 {
        let name = format!("collection-{}", i);
        let id = generate_collection_id(&name).unwrap();
        assert_eq!(id, generate_collection_id(&name).unwrap());
        assert!(seen.insert(id), "collision at {}", name);
    }
    assert_eq!(seen.len(), 1500);
}

#[test]
fn malformed_prefix_is_invalid_hrp() {
    assert_eq!(generate_bech32_id("", &[1, 2, 3]), Err(CoderError::InvalidHRP));
    assert_eq!(generate_bech32_id("GbDoc", &[1, 2, 3]), Err(CoderError::InvalidHRP));
    assert_eq!(generate_bech32_id("gb doc", &[1, 2, 3]), Err(CoderError::InvalidHRP));
    assert_eq!(generate_bech32_id("gbd\u{e9}c", &[1, 2, 3]), Err(CoderError::InvalidHRP));
    let long = "a".repeat(84);
    assert_eq!(generate_bech32_id(&long, &[1, 2, 3]), Err(CoderError::InvalidHRP));
    let longest = "a".repeat(83);
    assert!(generate_bech32_id(&longest, &[1, 2, 3]).is_ok());
}

#[test]
fn upper_case_prefix_is_accepted_and_written_in_lower_case() {
    let id = generate_bech32_id("GBDOC", &[0u8; 10]).unwrap();
    assert_eq!(id, generate_bech32_id("gbdoc", &[0u8; 10]).unwrap());
}

#[test]
fn too_long_a_payload_is_an_encoding_error() {
    // 5 + 1 + ceil(8 * 632 / 5) + 6 = 1024 characters, one more than the checksum protects.
    let data = vec![7u8; 632];
    assert_eq!(
        generate_bech32_id("gbdoc", &data),
        Err(CoderError::EncodingError("encoding failed".to_string()))
    );
    // 5 + 1 + ceil(8 * 631 / 5) + 6 = 1022 characters.
    let data = vec![7u8; 631];
    let id = generate_bech32_id("gbdoc", &data).unwrap();
    assert_eq!(id.len(), 1022);
}

#[test]
fn decode_rejects_what_is_no_identifier() {
    let failed = Err(CoderError::DecodingError("decoding failed".to_string()));
    assert_eq!(decode_bech32_id(""), failed);
    assert_eq!(decode_bech32_id("gbdoc"), failed);
    assert_eq!(decode_bech32_id("gbdoc1p05pynsthd39yw2d6yn44q"), failed);
    assert_eq!(decode_bech32_id("1p05pynsthd39yw2d6yn44l"), failed);
    assert_eq!(decode_bech32_id("gbdoc1P05pynsthd39yw2d6yn44l"), failed);
}

#[test]
fn decode_rejects_a_payload_that_is_not_ten_bytes() {
    let wrong = Err(CoderError::DecodingError("payload is not 10 bytes".to_string()));
    let short = bech32m("gbdoc", &[1, 2, 3, 4, 5, 6, 7, 8, 9]);
    assert_eq!(decode_bech32_id(&short), wrong);
    let long = bech32m("gbdoc", &[1, 2, 3, 4, 5, 6, 7, 8, 9, 10, 11]);
    assert_eq!(decode_bech32_id(&long), wrong);
    let empty = bech32m("gbdoc", &[]);
    assert_eq!(decode_bech32_id(&empty), wrong);
    let exact = bech32m("gbdoc", &[1, 2, 3, 4, 5, 6, 7, 8, 9, 10]);
    assert_eq!(
        decode_bech32_id(&exact),
        Ok(("gbdoc".to_string(), vec![1, 2, 3, 4, 5, 6, 7, 8, 9, 10]))
    );
}

#[test]
fn check_decoded_keeps_ten_bytes_only() {
    assert_eq!(
        check_decoded(None),
        Err(CoderError::DecodingError("decoding failed".to_string()))
    );
    assert_eq!(
        check_decoded(Some(("gbcol".to_string(), vec![0; 10]))),
        Ok(("gbcol".to_string(), vec![0; 10]))
    );
    assert_eq!(
        check_decoded(Some(("gbcol".to_string(), vec![0; 32]))),
        Err(CoderError::DecodingError("payload is not 10 bytes".to_string()))
    );
}

#[test]
fn decimal_of_numbers() {
    assert_eq!(decimal_string(0), "0");
    assert_eq!(decimal_string(7), "7");
    assert_eq!(decimal_string(10), "10");
    assert_eq!(decimal_string(1700000000), "1700000000");
    assert_eq!(decimal_string(u64::MAX), "18446744073709551615");
    for n in [9u64, 99, 100, 101, 1234567890, 9007199254740993] {
        assert_eq!(decimal_string(n), n.to_string());
    }
}

#[test]
fn coder_error_messages() {
    assert_eq!(CoderError::InvalidHRP.to_string(), "Invalid HRP format");
    assert_eq!(
        CoderError::EncodingError("encoding failed".to_string()).to_string(),
        "Failed to encode Bech32: encoding failed"
    );
    assert_eq!(
        CoderError::DecodingError("decoding failed".to_string()).to_string(),
        "Failed to decode Bech32: decoding failed"
    );
}
