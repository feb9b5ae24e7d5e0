//! Secure secret store: authenticated encryption of arbitrary bytes under
//! a fixed symmetric key. A sealed blob is nonce || ciphertext; opening
//! rejects blobs shorter than a nonce outright and reports every
//! authentication failure with one generic error, never a more specific
//! one. The key is never generated here: callers load it from its
//! restricted file and it must have exactly the expected length.
use vstd::prelude::*;

verus! {

/// Exact byte length of the symmetric key.
pub const KEY_BYTES: usize = 32;

/// Byte length of the nonce prefixed to every sealed blob.
pub const NONCE_BYTES: usize = 24;

/// Byte length the authentication tag adds to the plaintext.
pub const TAG_BYTES: usize = 16;

/// The ciphertext that sealing `m` under nonce `n` and key `k` yields.
/// Sealing is deterministic in these three inputs; what the bytes are is
/// the cipher's business and is left unstated.
pub uninterp spec fn sealed_bytes(m: Seq<u8>, n: Seq<u8>, k: Seq<u8>) -> Seq<u8>;

/// Errors of the secret store.
#[derive(Debug, PartialEq, Eq, Structural)]
pub enum StoreError {
    /// The key material does not have exactly `KEY_BYTES` bytes.
    BadKeyLength,
    /// The blob is shorter than one nonce.
    TooShort,
    /// The one generic answer to every authentication failure.
    DecryptFailed,
}

/// The symmetric key, validated to its exact expected length.
pub struct SecretKey {
    bytes: Vec<u8>,
}

impl SecretKey {
    /// Key material of the exact expected length.
    pub closed spec fn wf(&self) -> bool {
        self.bytes@.len() == KEY_BYTES
    }

    /// The key's bytes.
    pub closed spec fn key_bytes(&self) -> Seq<u8> {
        self.bytes@
    }

    /// Accepts key material iff it has exactly the expected length. The
    /// store never generates or repairs a key.
    pub fn from_bytes(b: Vec<u8>) -> (r: Result<SecretKey, StoreError>)
        ensures
            b@.len() == KEY_BYTES ==> (r matches Ok(k) && k.wf() && k.key_bytes() == b@),
            b@.len() != KEY_BYTES ==> r == Err::<SecretKey, StoreError>(StoreError::BadKeyLength),
    {
        if b.len() == KEY_BYTES {
            Ok(SecretKey { bytes: b })
        } else {
            Err(StoreError::BadKeyLength)
        }
    }
}

/// `blob` is what sealing `m` under key `k` (and the nonce the blob
/// carries) produces.
pub open spec fn is_sealing_of(blob: Seq<u8>, m: Seq<u8>, k: Seq<u8>) -> bool {
    blob.len() >= NONCE_BYTES && blob.skip(NONCE_BYTES as int) == sealed_bytes(
        m,
        blob.take(NONCE_BYTES as int),
        k,
    )
}

/// Relies on sodiumoxide's secretbox::gen_nonce: a fresh random nonce.
/// Randomness admits no statement beyond its length.
#[verifier::external_body]
fn gen_nonce_bytes() -> (r: Vec<u8>)
    ensures
        r@.len() == NONCE_BYTES,
{
    let n = sodiumoxide::crypto::secretbox::gen_nonce();
    n.0.to_vec()
}

/// Relies on sodiumoxide's secretbox::seal: authenticated encryption
/// determined by message, nonce and key alone, yielding the message's
/// length plus one tag.
#[verifier::external_body]
fn secretbox_seal(m: &[u8], n: &[u8], k: &[u8]) -> (r: Vec<u8>)
    requires
        n@.len() == NONCE_BYTES,
        k@.len() == KEY_BYTES,
    ensures
        r@ == sealed_bytes(m@, n@, k@),
        r@.len() == m@.len() + TAG_BYTES,
{
    let nonce = sodiumoxide::crypto::secretbox::Nonce::from_slice(n).unwrap();
    let key = sodiumoxide::crypto::secretbox::Key::from_slice(k).unwrap();
    sodiumoxide::crypto::secretbox::seal(m, &nonce, &key)
}

/// Relies on sodiumoxide's secretbox::open: verified decryption. It
/// succeeds on a genuine sealing and returns that sealing's message (so
/// at most one message seals to a given ciphertext under one nonce and
/// key), and fails on everything else.
#[verifier::external_body]
fn secretbox_open(c: &[u8], n: &[u8], k: &[u8]) -> (r: Option<Vec<u8>>)
    requires
        n@.len() == NONCE_BYTES,
        k@.len() == KEY_BYTES,
    ensures
        match r {
            Some(p) => c@ == sealed_bytes(p@, n@, k@) && (forall|m: Seq<u8>|
                c@ == sealed_bytes(m, n@, k@) ==> m == p@),
            None => forall|m: Seq<u8>| c@ != sealed_bytes(m, n@, k@),
        },
{
    let nonce = sodiumoxide::crypto::secretbox::Nonce::from_slice(n).unwrap();
    let key = sodiumoxide::crypto::secretbox::Key::from_slice(k).unwrap();
    sodiumoxide::crypto::secretbox::open(c, &nonce, &key).ok()
}

/// Seals `plaintext` under a fresh random nonce: the blob is that nonce
/// followed by the authenticated ciphertext, and is a sealing of exactly
/// this plaintext under this key.
pub fn seal_blob(plaintext: &[u8], key: &SecretKey) -> (blob: Vec<u8>)
    requires
        key.wf(),
    ensures
        is_sealing_of(blob@, plaintext@, key.key_bytes()),
        blob@.len() == NONCE_BYTES + plaintext@.len() + TAG_BYTES,
{
    let nonce = gen_nonce_bytes();
    let cipher = secretbox_seal(plaintext, nonce.as_slice(), key.bytes.as_slice());
    let mut blob = nonce;
    let ghost nonce_view = blob@;
    let mut i: usize = 0;
    while i < cipher.len()
        invariant
            0 <= i <= cipher@.len(),
            blob@ == nonce_view + cipher@.take(i as int),
        decreases cipher@.len() - i,
    {
        proof {
            assert(cipher@.take(i + 1) =~= cipher@.take(i as int).push(cipher@[i as int]));
        }
        blob.push(cipher[i]);
        i += 1;
    }
    proof {
        assert(cipher@.take(cipher@.len() as int) =~= cipher@);
        assert(blob@.take(NONCE_BYTES as int) =~= nonce_view);
        assert(blob@.skip(NONCE_BYTES as int) =~= cipher@);
    }
    blob
}

/// Opens a sealed blob: a blob shorter than one nonce is rejected
/// outright; otherwise opening succeeds exactly on a sealing under this
/// key, returning the one plaintext sealed into it, and answers every
/// authentication failure — wrong key, truncation, tampering — with the
/// one generic error.
pub fn open_blob(blob: &[u8], key: &SecretKey) -> (r: Result<Vec<u8>, StoreError>)
    requires
        key.wf(),
    ensures
        blob@.len() < NONCE_BYTES ==> r == Err::<Vec<u8>, StoreError>(StoreError::TooShort),
        blob@.len() >= NONCE_BYTES ==> (r matches Err(e) ==> e == StoreError::DecryptFailed),
        r matches Ok(p) ==> is_sealing_of(blob@, p@, key.key_bytes()) && (forall|m: Seq<u8>|
            is_sealing_of(blob@, m, key.key_bytes()) ==> m == p@),
        (exists|m: Seq<u8>| is_sealing_of(blob@, m, key.key_bytes())) ==> r is Ok,
        r == Err::<Vec<u8>, StoreError>(StoreError::DecryptFailed) ==> blob@.len() >= NONCE_BYTES
            && (forall|m: Seq<u8>| !is_sealing_of(blob@, m, key.key_bytes())),
{
    if blob.len() < NONCE_BYTES {
        return Err(StoreError::TooShort);
    }
    let (nonce, cipher) = blob.split_at(NONCE_BYTES);
    proof {
        assert(nonce@ =~= blob@.take(NONCE_BYTES as int));
        assert(cipher@ =~= blob@.skip(NONCE_BYTES as int));
    }
    match secretbox_open(cipher, nonce, key.bytes.as_slice()) {
        Some(p) => Ok(p),
        None => Err(StoreError::DecryptFailed),
    }
}

/// Law: opening a sealed blob under the sealing key restores the original
/// bytes exactly — for any plaintext and any key of the expected length.
pub fn seal_open_round_trip(plaintext: &[u8], key: &SecretKey) -> (r: Vec<u8>)
    requires
        key.wf(),
    ensures
        r@ == plaintext@,
{
    let blob = seal_blob(plaintext, key);
    let opened = open_blob(blob.as_slice(), key);
    match opened {
        Ok(p) => {
            proof {
                assert(p@ == plaintext@);
            }
            p
        },
        Err(_) => {
            proof {
                assert(false);
            }
            unreached()
        },
    }
}

/// The wire text of a store error. Every authentication failure shares
/// the one generic message.
pub fn error_message(e: &StoreError) -> (r: String)
    ensures
        e is BadKeyLength ==> r@ == "bad key length"@,
        e is TooShort ==> r@ == "file too short"@,
        e is DecryptFailed ==> r@ == "decryption failed"@,
{
    match e {
        StoreError::BadKeyLength => String::from_str("bad key length"),
        StoreError::TooShort => String::from_str("file too short"),
        StoreError::DecryptFailed => String::from_str("decryption failed"),
    }
}

} // verus!
