//! Canonical text of content digests, public keys and signatures.
//!
//! An identifier is a derivation code and the raw bytes it derives. Its only
//! text form is the code's fixed prefix followed by the unpadded base64url
//! encoding of the bytes. Decoding takes the kind of identifier expected,
//! accepts exactly the texts that `encode_spec` produces for a well-formed
//! identifier of that kind, and fails with that kind's error otherwise.
use vstd::prelude::*;
use vstd::string::*;
use crate::base64::{b64_dec, b64_enc, b64_len, decode_base64, encode_base64, lemma_dec_enc};
use crate::error::TapleError;

verus! {

/// Digest algorithm of a content-addressed hash.
#[allow(non_camel_case_types)]
#[derive(Debug, Clone, Copy, PartialEq, Eq, Structural)]
pub enum TapleDigestDerivator {
    Blake3_256,
    Blake3_512,
    SHA2_256,
    SHA2_512,
    SHA3_256,
    SHA3_512,
}

/// Key scheme of a public key.
#[derive(Debug, Clone, Copy, PartialEq, Eq, Structural)]
pub enum TapleKeyDerivator {
    Ed25519,
    Secp256k1,
}

/// Scheme of a signature.
#[allow(non_camel_case_types)]
#[derive(Debug, Clone, Copy, PartialEq, Eq, Structural)]
pub enum TapleSignatureDerivator {
    Ed25519Sha512,
    ECDSAsecp256k1,
}

/// The three kinds of identifier that cross the boundary.
#[derive(Debug, Clone, Copy, PartialEq, Eq, Structural)]
pub enum IdKind {
    Digest,
    Key,
    Signature,
}

/// Derivation code of an identifier: its kind and algorithm.
#[derive(Debug, Clone, Copy, PartialEq, Eq, Structural)]
pub enum IdCode {
    Digest(TapleDigestDerivator),
    Key(TapleKeyDerivator),
    Signature(TapleSignatureDerivator),
}

pub open spec fn code_kind(c: IdCode) -> IdKind {
    match c {
        IdCode::Digest(_) => IdKind::Digest,
        IdCode::Key(_) => IdKind::Key,
        IdCode::Signature(_) => IdKind::Signature,
    }
}

/// The fixed prefix of each code.
pub open spec fn prefix(c: IdCode) -> Seq<char> {
    match c {
        IdCode::Digest(TapleDigestDerivator::Blake3_256) => seq!['J'],
        IdCode::Digest(TapleDigestDerivator::Blake3_512) => seq!['0', 'J'],
        IdCode::Digest(TapleDigestDerivator::SHA2_256) => seq!['L'],
        IdCode::Digest(TapleDigestDerivator::SHA2_512) => seq!['0', 'L'],
        IdCode::Digest(TapleDigestDerivator::SHA3_256) => seq!['M'],
        IdCode::Digest(TapleDigestDerivator::SHA3_512) => seq!['0', 'M'],
        IdCode::Key(TapleKeyDerivator::Ed25519) => seq!['E'],
        IdCode::Key(TapleKeyDerivator::Secp256k1) => seq!['S'],
        IdCode::Signature(TapleSignatureDerivator::Ed25519Sha512) => seq!['S', 'E'],
        IdCode::Signature(TapleSignatureDerivator::ECDSAsecp256k1) => seq!['S', 'S'],
    }
}

/// Number of bytes an identifier with each code carries.
pub open spec fn payload_len(c: IdCode) -> nat {
    match c {
        IdCode::Digest(TapleDigestDerivator::Blake3_256) => 32,
        IdCode::Digest(TapleDigestDerivator::SHA2_256) => 32,
        IdCode::Digest(TapleDigestDerivator::SHA3_256) => 32,
        IdCode::Digest(_) => 64,
        IdCode::Key(TapleKeyDerivator::Ed25519) => 32,
        IdCode::Key(TapleKeyDerivator::Secp256k1) => 33,
        IdCode::Signature(_) => 64,
    }
}

/// The canonical text of the identifier with code `c` and bytes `p`.
pub open spec fn encode_spec(c: IdCode, p: Seq<u8>) -> Seq<char> {
    prefix(c) + b64_enc(p)
}

/// The code of kind `k` whose prefix starts `s`, if any.
pub open spec fn code_of(k: IdKind, s: Seq<char>) -> Option<IdCode> {
    match k {
        IdKind::Digest => if s.len() >= 1 && s[0] == 'J' {
            Some(IdCode::Digest(TapleDigestDerivator::Blake3_256))
        } else if s.len() >= 1 && s[0] == 'L' {
            Some(IdCode::Digest(TapleDigestDerivator::SHA2_256))
        } else if s.len() >= 1 && s[0] == 'M' {
            Some(IdCode::Digest(TapleDigestDerivator::SHA3_256))
        } else if s.len() >= 2 && s[0] == '0' && s[1] == 'J' {
            Some(IdCode::Digest(TapleDigestDerivator::Blake3_512))
        } else if s.len() >= 2 && s[0] == '0' && s[1] == 'L' {
            Some(IdCode::Digest(TapleDigestDerivator::SHA2_512))
        } else if s.len() >= 2 && s[0] == '0' && s[1] == 'M' {
            Some(IdCode::Digest(TapleDigestDerivator::SHA3_512))
        } else {
            None
        },
        IdKind::Key => if s.len() >= 1 && s[0] == 'E' {
            Some(IdCode::Key(TapleKeyDerivator::Ed25519))
        } else if s.len() >= 1 && s[0] == 'S' {
            Some(IdCode::Key(TapleKeyDerivator::Secp256k1))
        } else {
            None
        },
        IdKind::Signature => if s.len() >= 2 && s[0] == 'S' && s[1] == 'E' {
            Some(IdCode::Signature(TapleSignatureDerivator::Ed25519Sha512))
        } else if s.len() >= 2 && s[0] == 'S' && s[1] == 'S' {
            Some(IdCode::Signature(TapleSignatureDerivator::ECDSAsecp256k1))
        } else {
            None
        },
    }
}

/// What decoding `s` as an identifier of kind `k` yields: the code and bytes
/// of the one well-formed identifier whose canonical text is `s`, if any.
pub open spec fn decode_spec(k: IdKind, s: Seq<char>) -> Option<(IdCode, Seq<u8>)> {
    match code_of(k, s) {
        None => None,
        Some(c) => {
            let rest = s.subrange(prefix(c).len() as int, s.len() as int);
            let p = b64_dec(rest);
            if b64_enc(p) == rest && p.len() == payload_len(c) {
                Some((c, p))
            } else {
                None
            }
        },
    }
}

/// The error for a text that is not a canonical identifier of kind `k`.
pub open spec fn malformed(k: IdKind) -> TapleError {
    match k {
        IdKind::Digest => TapleError::DigestIdentifierGenerationFailed,
        IdKind::Key => TapleError::KeyIdentifierGenerationFailed,
        IdKind::Signature => TapleError::SignatureIdentifierGenerationFailed,
    }
}

/// Whether `s` is the canonical text of an identifier of kind `k`.
pub open spec fn is_canonical(k: IdKind, s: Seq<char>) -> bool {
    decode_spec(k, s) is Some
}

/// A digest, public key or signature, with the code that derived it.
#[derive(Debug, Clone, PartialEq, Eq)]
pub struct CanonicalId {
    pub code: IdCode,
    pub payload: Vec<u8>,
}

impl View for CanonicalId {
    type V = (IdCode, Seq<u8>);

    open spec fn view(&self) -> (IdCode, Seq<u8>) {
        (self.code, self.payload@)
    }
}

fn prefix_text(c: IdCode) -> (r: &'static str)
    ensures
        r@ == prefix(c),
{
    match c {
        IdCode::Digest(TapleDigestDerivator::Blake3_256) => {
            proof {
                reveal_strlit("J");
            }
            "J"
        },
        IdCode::Digest(TapleDigestDerivator::Blake3_512) => {
            proof {
                reveal_strlit("0J");
            }
            "0J"
        },
        IdCode::Digest(TapleDigestDerivator::SHA2_256) => {
            proof {
                reveal_strlit("L");
            }
            "L"
        },
        IdCode::Digest(TapleDigestDerivator::SHA2_512) => {
            proof {
                reveal_strlit("0L");
            }
            "0L"
        },
        IdCode::Digest(TapleDigestDerivator::SHA3_256) => {
            proof {
                reveal_strlit("M");
            }
            "M"
        },
        IdCode::Digest(TapleDigestDerivator::SHA3_512) => {
            proof {
                reveal_strlit("0M");
            }
            "0M"
        },
        IdCode::Key(TapleKeyDerivator::Ed25519) => {
            proof {
                reveal_strlit("E");
            }
            "E"
        },
        IdCode::Key(TapleKeyDerivator::Secp256k1) => {
            proof {
                reveal_strlit("S");
            }
            "S"
        },
        IdCode::Signature(TapleSignatureDerivator::Ed25519Sha512) => {
            proof {
                reveal_strlit("SE");
            }
            "SE"
        },
        IdCode::Signature(TapleSignatureDerivator::ECDSAsecp256k1) => {
            proof {
                reveal_strlit("SS");
            }
            "SS"
        },
    }
}

fn prefix_length(c: IdCode) -> (r: usize)
    ensures
        r == prefix(c).len(),
{
    match c {
        IdCode::Digest(TapleDigestDerivator::Blake3_512) => 2,
        IdCode::Digest(TapleDigestDerivator::SHA2_512) => 2,
        IdCode::Digest(TapleDigestDerivator::SHA3_512) => 2,
        IdCode::Signature(_) => 2,
        _ => 1,
    }
}

fn payload_length(c: IdCode) -> (r: usize)
    ensures
        r == payload_len(c),
{
    match c {
        IdCode::Digest(TapleDigestDerivator::Blake3_256) => 32,
        IdCode::Digest(TapleDigestDerivator::SHA2_256) => 32,
        IdCode::Digest(TapleDigestDerivator::SHA3_256) => 32,
        IdCode::Digest(_) => 64,
        IdCode::Key(TapleKeyDerivator::Ed25519) => 32,
        IdCode::Key(TapleKeyDerivator::Secp256k1) => 33,
        IdCode::Signature(_) => 64,
    }
}

fn match_code(k: IdKind, s: &str, n: usize) -> (r: Option<IdCode>)
    requires
        n == s@.len(),
    ensures
        r == code_of(k, s@),
{
    if n == 0 {
        return None;
    }
    let c0 = s.get_char(0);
    let c1 = if n >= 2 {
        s.get_char(1)
    } else {
        ' '
    };
    match k {
        IdKind::Digest => {
            if c0 == 'J' {
                Some(IdCode::Digest(TapleDigestDerivator::Blake3_256))
            } else if c0 == 'L' {
                Some(IdCode::Digest(TapleDigestDerivator::SHA2_256))
            } else if c0 == 'M' {
                Some(IdCode::Digest(TapleDigestDerivator::SHA3_256))
            } else if n >= 2 && c0 == '0' && c1 == 'J' {
                Some(IdCode::Digest(TapleDigestDerivator::Blake3_512))
            } else if n >= 2 && c0 == '0' && c1 == 'L' {
                Some(IdCode::Digest(TapleDigestDerivator::SHA2_512))
            } else if n >= 2 && c0 == '0' && c1 == 'M' {
                Some(IdCode::Digest(TapleDigestDerivator::SHA3_512))
            } else {
                None
            }
        },
        IdKind::Key => {
            if c0 == 'E' {
                Some(IdCode::Key(TapleKeyDerivator::Ed25519))
            } else if c0 == 'S' {
                Some(IdCode::Key(TapleKeyDerivator::Secp256k1))
            } else {
                None
            }
        },
        IdKind::Signature => {
            if n >= 2 && c0 == 'S' && c1 == 'E' {
                Some(IdCode::Signature(TapleSignatureDerivator::Ed25519Sha512))
            } else if n >= 2 && c0 == 'S' && c1 == 'S' {
                Some(IdCode::Signature(TapleSignatureDerivator::ECDSAsecp256k1))
            } else {
                None
            }
        },
    }
}

impl CanonicalId {
    /// The payload has the length that its code asks for.
    pub open spec fn wf(&self) -> bool {
        self.payload@.len() == payload_len(self.code)
    }

    pub fn kind(&self) -> (r: IdKind)
        ensures
            r == code_kind(self.code),
    {
        match self.code {
            IdCode::Digest(_) => IdKind::Digest,
            IdCode::Key(_) => IdKind::Key,
            IdCode::Signature(_) => IdKind::Signature,
        }
    }

    /// The canonical text of this identifier.
    pub fn encode(&self) -> (r: String)
        ensures
            r@ == encode_spec(self.code, self.payload@),
    {
        let p = prefix_text(self.code);
        let body = encode_base64(&self.payload);
        String::from_str(p).concat(body.as_str())
    }

    /// Reads `s` as an identifier of kind `k`. Fails with `k`'s error unless
    /// `s` is the canonical text of a well-formed identifier of that kind.
    pub fn decode(k: IdKind, s: &str) -> (r: Result<CanonicalId, TapleError>)
        ensures
            match decode_spec(k, s@) {
                Some(v) => r matches Ok(id) && id@ == v,
                None => r == Err::<CanonicalId, TapleError>(malformed(k)),
            },
    {
        let n = s.unicode_len();
        let err = match k {
            IdKind::Digest => TapleError::DigestIdentifierGenerationFailed,
            IdKind::Key => TapleError::KeyIdentifierGenerationFailed,
            IdKind::Signature => TapleError::SignatureIdentifierGenerationFailed,
        };
        let code = match match_code(k, s, n) {
            Some(c) => c,
            None => return Err(err),
        };
        let plen = prefix_length(code);
        let rest = s.substring_char(plen, n);
        match decode_base64(rest) {
            Some(p) => {
                proof {
                    lemma_dec_enc(p@);
                }
                if p.len() == payload_length(code) {
                    Ok(CanonicalId { code, payload: p })
                } else {
                    Err(err)
                }
            },
            None => {
                proof {
                    if b64_enc(b64_dec(rest@)) == rest@ {
                        assert(false);
                    }
                }
                Err(err)
            },
        }
    }

    /// Whether `s` is the canonical text of an identifier of kind `k`.
    pub fn is_valid(k: IdKind, s: &str) -> (r: bool)
        ensures
            r == is_canonical(k, s@),
    {
        CanonicalId::decode(k, s).is_ok()
    }
}

/// Decoding the canonical text of a well-formed identifier gives it back.
pub proof fn lemma_round_trip(c: IdCode, p: Seq<u8>)
    requires
        p.len() == payload_len(c),
    ensures
        decode_spec(code_kind(c), encode_spec(c, p)) == Some((c, p)),
{
    let s = encode_spec(c, p);
    lemma_dec_enc(p);
    assert(s.subrange(prefix(c).len() as int, s.len() as int) =~= b64_enc(p));
    assert(code_of(code_kind(c), s) == Some(c));
}

/// Decoding accepts only canonical texts: whatever it returns encodes back to
/// the very text it was given, is well formed, and is of the kind asked for.
pub proof fn lemma_decode_canonical(k: IdKind, s: Seq<char>)
    requires
        decode_spec(k, s) is Some,
    ensures
        encode_spec(decode_spec(k, s)->Some_0.0, decode_spec(k, s)->Some_0.1) == s,
        code_kind(decode_spec(k, s)->Some_0.0) == k,
        decode_spec(k, s)->Some_0.1.len() == payload_len(decode_spec(k, s)->Some_0.0),
{
    let c = code_of(k, s)->Some_0;
    let n = prefix(c).len() as int;
    assert(s.subrange(0, n) =~= prefix(c));
    assert(s =~= s.subrange(0, n) + s.subrange(n, s.len() as int));
}

/// Two well-formed identifiers with the same text are the same identifier,
/// whatever their kinds.
pub proof fn lemma_encode_injective(c1: IdCode, bytes1: Seq<u8>, c2: IdCode, bytes2: Seq<u8>)
    requires
        bytes1.len() == payload_len(c1),
        bytes2.len() == payload_len(c2),
        encode_spec(c1, bytes1) == encode_spec(c2, bytes2),
    ensures
        c1 == c2,
        bytes1 == bytes2,
{
    let s = encode_spec(c1, bytes1);
    lemma_dec_enc(bytes1);
    lemma_dec_enc(bytes2);
    assert(s[0] == prefix(c1)[0]);
    assert(s[0] == prefix(c2)[0]);
    if prefix(c1).len() == 2 {
        assert(s[1] == prefix(c1)[1]);
    }
    if prefix(c2).len() == 2 {
        assert(s[1] == prefix(c2)[1]);
    }
    if code_kind(c1) == code_kind(c2) {
        lemma_round_trip(c1, bytes1);
        lemma_round_trip(c2, bytes2);
    } else {
        assert(b64_len(32) == 43);
        assert(b64_len(33) == 44);
        assert(b64_len(64) == 86);
        assert(s.len() == prefix(c1).len() + b64_len(bytes1.len()));
        assert(s.len() == prefix(c2).len() + b64_len(bytes2.len()));
        match c1 {
            IdCode::Digest(_) => {},
            IdCode::Key(_) => {},
            IdCode::Signature(_) => {},
        }
    }
}

} // verus!
