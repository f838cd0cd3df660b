use taple_sdk::base64::{decode_base64, encode_base64};
use taple_sdk::codec::{
    CanonicalId, IdCode, IdKind, TapleDigestDerivator, TapleKeyDerivator, TapleSignatureDerivator,
};
use taple_sdk::error::TapleError;

fn digest_text() -> String {
    format!("J{}", "A".repeat(43))
}

#[test]
fn base64_known_vectors() {
    assert_eq!(encode_base64(&vec![0xfb, 0xff]), "-_8");
    assert_eq!(encode_base64(&b"hello".to_vec()), "aGVsbG8");
    assert_eq!(encode_base64(&vec![]), "");
    assert_eq!(encode_base64(&vec![0, 0, 0]), "AAAA");
}

#[test]
fn base64_decodes_only_canonical_text() {
    assert_eq!(decode_base64("aGVsbG8"), Some(b"hello".to_vec()));
    assert_eq!(decode_base64("-_8"), Some(vec![0xfb, 0xff]));
    assert_eq!(decode_base64("-_9"), None);
    assert_eq!(decode_base64("A"), None);
    assert_eq!(decode_base64("aGVs=G8"), None);
    assert_eq!(decode_base64(""), Some(vec![]));
}

#[test]
fn digest_round_trip() {
    let id = CanonicalId {
        code: IdCode::Digest(TapleDigestDerivator::SHA2_512),
        payload: (0u8..64).collect(),
    };
    let text = id.encode();
    assert!(text.starts_with("0L"));
    assert_eq!(text.len(), 88);
    assert_eq!(CanonicalId::decode(IdKind::Digest, &text), Ok(id));
}

#[test]
fn key_and_signature_round_trip() {
    let key = CanonicalId {
        code: IdCode::Key(TapleKeyDerivator::Secp256k1),
        payload: vec![7u8; 33],
    };
    let text = key.encode();
    assert_eq!(text.len(), 45);
    assert_eq!(CanonicalId::decode(IdKind::Key, &text), Ok(key));

    let sig = CanonicalId {
        code: IdCode::Signature(TapleSignatureDerivator::Ed25519Sha512),
        payload: vec![255u8; 64],
    };
    let text = sig.encode();
    assert!(text.starts_with("SE"));
    assert_eq!(CanonicalId::decode(IdKind::Signature, &text), Ok(sig));
}

#[test]
fn zero_digest_text() {
    let id = CanonicalId::decode(IdKind::Digest, &digest_text()).unwrap();
    assert_eq!(id.code, IdCode::Digest(TapleDigestDerivator::Blake3_256));
    assert_eq!(id.payload, vec![0u8; 32]);
    assert_eq!(id.encode(), digest_text());
}

#[test]
fn malformed_text_is_rejected_with_the_kind_error() {
    assert_eq!(
        CanonicalId::decode(IdKind::Digest, ""),
        Err(TapleError::DigestIdentifierGenerationFailed)
    );
    assert_eq!(
        CanonicalId::decode(IdKind::Digest, "not an id"),
        Err(TapleError::DigestIdentifierGenerationFailed)
    );
    // one digit short
    assert_eq!(
        CanonicalId::decode(IdKind::Digest, &format!("J{}", "A".repeat(42))),
        Err(TapleError::DigestIdentifierGenerationFailed)
    );
    // last digit carries bits that no 32-byte payload has
    assert_eq!(
        CanonicalId::decode(IdKind::Digest, &format!("J{}B", "A".repeat(42))),
        Err(TapleError::DigestIdentifierGenerationFailed)
    );
    assert_eq!(
        CanonicalId::decode(IdKind::Key, &digest_text()),
        Err(TapleError::KeyIdentifierGenerationFailed)
    );
    assert_eq!(
        CanonicalId::decode(IdKind::Signature, &format!("E{}", "A".repeat(43))),
        Err(TapleError::SignatureIdentifierGenerationFailed)
    );
    assert_eq!(
        CanonicalId::decode(IdKind::Key, &format!("E{}é", "A".repeat(42))),
        Err(TapleError::KeyIdentifierGenerationFailed)
    );
}

#[test]
fn is_valid_matches_decode() {
    assert!(CanonicalId::is_valid(IdKind::Digest, &digest_text()));
    assert!(!CanonicalId::is_valid(IdKind::Key, &digest_text()));
    assert!(CanonicalId::is_valid(IdKind::Key, &format!("E{}", "A".repeat(43))));
}

#[test]
fn distinct_ids_have_distinct_texts() {
    let a = CanonicalId {
        code: IdCode::Digest(TapleDigestDerivator::Blake3_256),
        payload: vec![1u8; 32],
    };
    let b = CanonicalId {
        code: IdCode::Digest(TapleDigestDerivator::SHA3_256),
        payload: vec![1u8; 32],
    };
    let c = CanonicalId {
        code: IdCode::Key(TapleKeyDerivator::Ed25519),
        payload: vec![1u8; 32],
    };
    assert_ne!(a.encode(), b.encode());
    assert_ne!(a.encode(), c.encode());
    assert_eq!(a.kind(), IdKind::Digest);
    assert_eq!(c.kind(), IdKind::Key);
}
