use crate::errors::Error;
use crate::text::hex_chars;
use crate::text::hex_encode;
use ed25519_dalek::Signer;
use ed25519_dalek::Verifier;
use vstd::prelude::*;
use vstd::string::StringExecFns;
use vstd::string::StringSliceAdditionalSpecFns;

verus! {

/// The 32-byte verifying key that Ed25519 derives from a 32-byte secret key.
pub uninterp spec fn ed25519_public_of(secret: Seq<u8>) -> Seq<u8>;

/// The 64-byte signature that Ed25519 produces for a secret key and a message.
pub uninterp spec fn ed25519_sig_of(secret: Seq<u8>, msg: Seq<u8>) -> Seq<u8>;

/// Whether Ed25519 accepts a signature for a public key and a message.
pub uninterp spec fn ed25519_verifies(public: Seq<u8>, msg: Seq<u8>, sig: Seq<u8>) -> bool;

/// Whether 32 bytes decode to a point on the curve, i.e. form a usable
/// Ed25519 verifying key.
pub uninterp spec fn ed25519_decodable(public: Seq<u8>) -> bool;

/// Relies on ed25519_dalek's `SigningKey::from_bytes` and `verifying_key`:
/// the verifying key is a deterministic function of the secret key bytes,
/// 32 bytes long, and decodes back to a usable key.
#[verifier::external_body]
pub(crate) fn derive_verifying_key(secret: &[u8]) -> (r: Vec<u8>)
    requires
        secret@.len() == 32,
    ensures
        r@ == ed25519_public_of(secret@),
        r@.len() == 32,
        ed25519_decodable(r@),
{
    let bytes: [u8; 32] = secret.try_into().unwrap();
    let sk = ed25519_dalek::SigningKey::from_bytes(&bytes);
    sk.verifying_key().to_bytes().to_vec()
}

/// Relies on ed25519_dalek's `Signer::sign`: Ed25519 signing is deterministic
/// in the secret key bytes and the message, the signature is 64 bytes, and it
/// verifies under the verifying key derived from the same secret key.
#[verifier::external_body]
pub(crate) fn sign_bytes(secret: &[u8], msg: &[u8]) -> (r: Vec<u8>)
    requires
        secret@.len() == 32,
    ensures
        r@ == ed25519_sig_of(secret@, msg@),
        r@.len() == 64,
        ed25519_verifies(ed25519_public_of(secret@), msg@, r@),
{
    let bytes: [u8; 32] = secret.try_into().unwrap();
    let sk = ed25519_dalek::SigningKey::from_bytes(&bytes);
    sk.sign(msg).to_bytes().to_vec()
}

/// Relies on ed25519_dalek's `VerifyingKey::from_bytes` and `Verifier::verify`:
/// acceptance is a deterministic function of the public key bytes, the message
/// and the signature; public key bytes that do not decode accept nothing.
#[verifier::external_body]
pub(crate) fn verify_sig_bytes(public: &[u8], msg: &[u8], sig: &[u8]) -> (r: bool)
    requires
        public@.len() == 32,
        sig@.len() == 64,
    ensures
        r == ed25519_verifies(public@, msg@, sig@),
        r ==> ed25519_decodable(public@),
{
    let pk_bytes: [u8; 32] = public.try_into().unwrap();
    let sig_bytes: [u8; 64] = sig.try_into().unwrap();
    match ed25519_dalek::VerifyingKey::from_bytes(&pk_bytes) {
        Err(_) => false,
        Ok(vk) => vk.verify(msg, &ed25519_dalek::Signature::from_bytes(&sig_bytes)).is_ok(),
    }
}

/// Relies on ed25519_dalek's `VerifyingKey::from_bytes`: whether the bytes
/// decode is a deterministic function of the bytes alone.
#[verifier::external_body]
pub(crate) fn verifying_key_decodes(public: &[u8]) -> (r: bool)
    requires
        public@.len() == 32,
    ensures
        r == ed25519_decodable(public@),
{
    let pk_bytes: [u8; 32] = public.try_into().unwrap();
    ed25519_dalek::VerifyingKey::from_bytes(&pk_bytes).is_ok()
}

/// Relies on rand's `OsRng::try_fill_bytes`: on success the buffer holds 32
/// bytes from the operating system's generator; nothing is promised of their
/// values.
#[verifier::external_body]
fn os_random_secret() -> (r: Option<Vec<u8>>)
    ensures
        match r {
            Some(v) => v@.len() == 32,
            None => true,
        },
{
    let mut bytes = [0u8; 32];
    match rand::TryRngCore::try_fill_bytes(&mut rand::rngs::OsRng, &mut bytes) {
        Ok(()) => Some(bytes.to_vec()),
        Err(_) => None,
    }
}

/// An Ed25519 key pair held as plain bytes: a 32-byte secret key and a
/// 32-byte, decodable verifying key.
pub struct KeyPair {
    pub secret: Vec<u8>,
    pub public: Vec<u8>,
}

impl KeyPair {
    /// Both halves have their fixed lengths and the public half is usable.
    pub open spec fn wf(&self) -> bool {
        self.secret@.len() == 32 && self.public@.len() == 32 && ed25519_decodable(self.public@)
    }

    /// The public half matches the secret half.
    pub open spec fn matched(&self) -> bool {
        self.public@ == ed25519_public_of(self.secret@)
    }
}

/// Build the key pair determined by 32 secret bytes: derive the verifying
/// key and self-test the pair by signing and checking a fixed message.
///
/// The result is the well-formed, matched pair of the given secret; the
/// self-test provably cannot fail, since a signature by the secret half
/// always verifies under the key derived from it.
pub fn keypair_from_secret(secret: Vec<u8>) -> (r: KeyPair)
    requires
        secret@.len() == 32,
    ensures
        r.wf(),
        r.matched(),
        r.secret@ == secret@,
{
    let public = derive_verifying_key(secret.as_slice());
    let pair = KeyPair { secret, public };

    let test_case = "Test Message";
    let signature = sign_bytes(pair.secret.as_slice(), test_case.as_bytes());
    let accepted = verify_sig_bytes(
        pair.public.as_slice(),
        test_case.as_bytes(),
        signature.as_slice(),
    );
    assert(accepted);
    pair
}

/// Generate a new key pair from operating-system randomness.
///
/// Fails, with `CryptoError` naming the generator, exactly when the
/// operating system's generator does; on success the pair is well formed and
/// its halves match.
pub fn generate_keys() -> (r: Result<KeyPair, Error>)
    ensures
        match r {
            Ok(kp) => kp.wf() && kp.matched(),
            Err(e) => e is CryptoError && e.spec_detail()
                == "Failed to generate random key bytes"@,
        },
{
    let secret = match os_random_secret() {
        Some(s) => s,
        None => {
            return Err(
                Error::CryptoError(String::from_str("Failed to generate random key bytes")),
            );
        },
    };
    Ok(keypair_from_secret(secret))
}

/// Build a key pair from loaded bytes, checking each half's length and that
/// the public half decodes.
///
/// Succeeds exactly when both halves are 32 bytes and the public half is a
/// usable verifying key; wrong lengths fail with `InvalidInput`, an
/// undecodable key with `CryptoError`.
pub fn keypair_from_bytes(secret: Vec<u8>, public: Vec<u8>) -> (r: Result<KeyPair, Error>)
    ensures
        r is Ok <==> secret@.len() == 32 && public@.len() == 32 && ed25519_decodable(public@),
        r matches Ok(kp) ==> kp.wf() && kp.secret@ == secret@ && kp.public@ == public@,
        secret@.len() != 32 ==> (r matches Err(e) && e is InvalidInput && e.spec_detail()
            == "Invalid private key size"@),
        secret@.len() == 32 && public@.len() != 32 ==> (r matches Err(e) && e is InvalidInput
            && e.spec_detail() == "Invalid public key size"@),
        secret@.len() == 32 && public@.len() == 32 && !ed25519_decodable(public@) ==> (r matches Err(
            e,
        ) && e is CryptoError && e.spec_detail() == "Invalid public key"@),
{
    if secret.len() != 32 {
        return Err(Error::InvalidInput(String::from_str("Invalid private key size")));
    }
    if public.len() != 32 {
        return Err(Error::InvalidInput(String::from_str("Invalid public key size")));
    }
    if !verifying_key_decodes(public.as_slice()) {
        return Err(Error::CryptoError(String::from_str("Invalid public key")));
    }
    Ok(KeyPair { secret, public })
}

/// Self-test a key pair: sign a fixed message with the secret half and check
/// the signature under the public half.
///
/// Succeeds exactly when the public half accepts the secret half's signature;
/// in particular a matched pair always succeeds.
pub fn validate_keypair(secret: &Vec<u8>, public: &Vec<u8>) -> (r: Result<(), Error>)
    requires
        secret@.len() == 32,
        public@.len() == 32,
    ensures
        r is Ok <==> ed25519_verifies(
            public@,
            "rshare validation".spec_bytes(),
            ed25519_sig_of(secret@, "rshare validation".spec_bytes()),
        ),
        public@ == ed25519_public_of(secret@) ==> r is Ok,
        r is Err ==> r->Err_0 is CryptoError,
{
    let test_message = "rshare validation";
    let signature = sign_bytes(secret.as_slice(), test_message.as_bytes());
    if verify_sig_bytes(public.as_slice(), test_message.as_bytes(), signature.as_slice()) {
        Ok(())
    } else {
        Err(Error::CryptoError(String::from_str("Keypair mismatch")))
    }
}

/// The short display fingerprint of a public key: the hex rendering of its
/// first 8 bytes.
pub fn public_key_fingerprint(public: &Vec<u8>) -> (r: String)
    requires
        public@.len() >= 8,
    ensures
        r@ == hex_chars(public@.subrange(0, 8)),
{
    let mut prefix: Vec<u8> = Vec::new();
    let mut i: usize = 0;
    while i < 8
        invariant
            i <= 8,
            public@.len() >= 8,
            prefix@ =~= public@.subrange(0, i as int),
        decreases 8 - i,
    {
        prefix.push(public[i]);
        i += 1;
    }
    hex_encode(prefix.as_slice())
}

} // verus!
