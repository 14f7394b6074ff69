use crate::errors::Error;
use crate::keys::ed25519_public_of;
use crate::keys::ed25519_sig_of;
use crate::keys::ed25519_verifies;
use crate::keys::sign_bytes;
use crate::keys::verify_sig_bytes;
use crate::text::dec_chars;
use crate::text::hex_decode;
use crate::text::hex_decoded;
use crate::text::is_hex_of_len;
use crate::text::u64_to_dec;
use vstd::prelude::*;
use vstd::string::StringExecFns;
use vstd::string::StringSliceAdditionalSpecFns;
use vstd::utf8::encode_utf8;

verus! {

/// The metadata line that a sender signs: `filename|file_size`, with the size
/// rendered in decimal.
pub open spec fn metadata_message_chars(filename: Seq<char>, file_size: int) -> Seq<char> {
    filename + seq!['|'] + dec_chars(file_size)
}

/// The signed bytes: the UTF-8 encoding of the metadata line.
pub open spec fn metadata_message_bytes(filename: Seq<char>, file_size: int) -> Seq<u8> {
    encode_utf8(metadata_message_chars(filename, file_size))
}

/// Builds the metadata line `filename|file_size`.
pub fn metadata_message(filename: &str, file_size: u64) -> (r: String)
    ensures
        r@ == metadata_message_chars(filename@, file_size as int),
{
    let size = u64_to_dec(file_size);
    let r = String::from_str(filename).concat("|").concat(size.as_str());
    proof {
        reveal_strlit("|");
        assert(filename@ + "|"@ + dec_chars(file_size as int) =~= metadata_message_chars(
            filename@,
            file_size as int,
        ));
    }
    r
}

/// Sign the metadata of a transfer with the sender's secret key.
///
/// The signature is the Ed25519 signature over `filename|file_size`, and it
/// verifies under the verifying key derived from the same secret key.
pub fn sign_metadata(secret: &Vec<u8>, filename: &str, file_size: u64) -> (r: Vec<u8>)
    requires
        secret@.len() == 32,
    ensures
        r@ == ed25519_sig_of(secret@, metadata_message_bytes(filename@, file_size as int)),
        r@.len() == 64,
        ed25519_verifies(
            ed25519_public_of(secret@),
            metadata_message_bytes(filename@, file_size as int),
            r@,
        ),
{
    let message = metadata_message(filename, file_size);
    sign_bytes(secret.as_slice(), message.as_str().as_bytes())
}

/// Check a metadata signature against a sender's public key.
///
/// Returns exactly whether Ed25519 accepts the signature for
/// `filename|file_size` under that key; in particular it accepts a signature
/// that `sign_metadata` produced with the matching secret key.
pub fn verify_metadata(public: &Vec<u8>, filename: &str, file_size: u64, sig: &Vec<u8>) -> (r:
    bool)
    requires
        public@.len() == 32,
        sig@.len() == 64,
    ensures
        r == ed25519_verifies(public@, metadata_message_bytes(filename@, file_size as int), sig@),
{
    let message = metadata_message(filename, file_size);
    verify_sig_bytes(public.as_slice(), message.as_str().as_bytes(), sig.as_slice())
}

/// The receiver's defense-in-depth check on an incoming session: decode the
/// relay-reported sender key and signature from hex and verify the signature
/// over the declared `filename|file_size`.
///
/// Succeeds exactly when the key is 32 hex-encoded bytes, the signature 64,
/// and Ed25519 accepts the signature; malformed hex or a wrong length fails
/// with `InvalidInput`, a rejected signature with `CryptoError`.
pub fn verify_incoming_metadata(
    sender_fp_hex: &str,
    filename: &str,
    file_size: u64,
    signature_hex: &str,
) -> (r: Result<(), Error>)
    ensures
        r is Ok <==> is_hex_of_len(sender_fp_hex@, 32) && is_hex_of_len(signature_hex@, 64)
            && ed25519_verifies(
            hex_decoded(sender_fp_hex@),
            metadata_message_bytes(filename@, file_size as int),
            hex_decoded(signature_hex@),
        ),
        r is Err ==> r->Err_0 is InvalidInput || r->Err_0 is CryptoError,
{
    let sender_key = match hex_decode(sender_fp_hex) {
        Some(v) => v,
        None => {
            return Err(Error::InvalidInput(String::from_str("Invalid sender public key")));
        },
    };
    if sender_key.len() != 32 {
        return Err(Error::InvalidInput(String::from_str("Invalid key length")));
    }
    let signature = match hex_decode(signature_hex) {
        Some(v) => v,
        None => {
            return Err(Error::InvalidInput(String::from_str("Invalid signature hex")));
        },
    };
    if signature.len() != 64 {
        return Err(Error::InvalidInput(String::from_str("Invalid signature length")));
    }
    if verify_metadata(&sender_key, filename, file_size, &signature) {
        Ok(())
    } else {
        Err(Error::CryptoError(String::from_str("Signature verification failed")))
    }
}

} // verus!
