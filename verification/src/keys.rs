//! RSA keys and signatures, by way of the `openssl` crate. Nothing in this
//! file is proved: each item says what the library takes on trust from
//! `openssl`. That is little: a signature or a verdict that the key library
//! gives is the one that belongs to the key and the text, and nothing is
//! said of when it gives none. What the library does with a key or a verdict
//! is decided, and proved, by the callers.

use openssl::error::ErrorStack;
use openssl::hash::MessageDigest;
use openssl::pkey::{PKey, Public};
use openssl::rsa::Rsa;
use openssl::sign::{Signer, Verifier};
use vstd::prelude::*;

verus! {

/// `openssl::error::ErrorStack`: the errors that `openssl` had queued when a
/// call failed. The library looks at nothing inside it.
#[verifier::external_type_specification]
#[verifier::external_body]
pub struct ExErrorStack(ErrorStack);

/// `openssl::rsa::Rsa`: an RSA key. The library looks at nothing inside it.
#[verifier::external_type_specification]
#[verifier::external_body]
#[verifier::reject_recursive_types(T)]
pub struct ExRsa<T>(Rsa<T>);

/// `openssl::pkey::Public`: the mark of a key that has a public half only.
#[verifier::external_type_specification]
#[verifier::external_body]
pub struct ExPublic(Public);

/// The longest key text, in bytes, that `openssl` takes: it reads a key from a
/// buffer whose length it holds in a C `int`, and stops the program on a
/// longer one.
pub const MAX_PEM_LEN: usize = 0x7fff_ffff;

/// Whether `text`, written in UTF-8, is short enough to be handed to
/// `openssl` as a key.
pub open spec fn fits_pem(text: Seq<char>) -> bool {
    vstd::utf8::encode_utf8(text).len() <= MAX_PEM_LEN
}

/// Whether the key library reads `pem` as an RSA public key in PEM form.
pub uninterp spec fn reads_as_public_key(pem: Seq<u8>) -> bool;

/// Whether `text` is a public key: short enough to be handed to the key
/// library, and read by it as an RSA public key in PEM form.
pub open spec fn is_public_key(text: Seq<char>) -> bool {
    fits_pem(text) && reads_as_public_key(vstd::utf8::encode_utf8(text))
}

/// `Rsa::public_key_from_pem` reads an RSA public key in PEM form. It may be
/// called on any text that is not too long. A text from which it hands back
/// a key is one that it reads as a key. Nothing is claimed of when it hands
/// back none.
pub assume_specification[ Rsa::<Public>::public_key_from_pem ](pem: &[u8]) -> (r: Result<
    Rsa<Public>,
    ErrorStack,
>)
    requires
        pem@.len() <= MAX_PEM_LEN,
    ensures
        r is Ok ==> reads_as_public_key(pem@),
;

/// The signature that the key library makes of `data`, over MD5, with the
/// RSA private key that `private_key_pem` holds in PEM form. The padding is
/// the library's own for RSA, that of PKCS #1 version 1.5, under which a key
/// and a text have one signature; so a signature that was made is the same
/// whenever it is made.
pub uninterp spec fn md5_signature(private_key_pem: Seq<u8>, data: Seq<u8>) -> Option<Seq<u8>>;

/// Whether `signature` is a signature of `data`, over MD5, under the RSA
/// public key that `public_key_pem` holds in PEM form. A verdict that was
/// reached is the same whenever it is reached.
pub uninterp spec fn md5_confirms(
    public_key_pem: Seq<u8>,
    data: Seq<u8>,
    signature: Seq<u8>,
) -> Option<bool>;

/// `openssl::sign::Signer::sign_to_vec`, on a signer over MD5 that was fed
/// `data` and made for the key that `openssl::rsa::Rsa::private_key_from_pem`
/// read from `private_key_pem`: the signature, or the error of the step that
/// failed. A signature that comes back is the one signature of `data` under
/// that key. Nothing is claimed of when the call fails: a key that is locked
/// by a pass phrase makes the library ask for it at the terminal.
#[verifier::external_body]
pub(crate) fn sign_md5(private_key_pem: &[u8], data: &[u8]) -> (r: Result<Vec<u8>, ErrorStack>)
    requires
        private_key_pem@.len() <= MAX_PEM_LEN,
    ensures
        r matches Ok(signature) ==> md5_signature(private_key_pem@, data@) == Some(signature@),
{
    let key = PKey::from_rsa(Rsa::private_key_from_pem(private_key_pem)?)?;
    let mut signer = Signer::new(MessageDigest::md5(), &key)?;
    signer.update(data)?;
    signer.sign_to_vec()
}

/// `openssl::sign::Verifier::verify`, on a verifier over MD5 that was fed
/// `data` and made for the key that `openssl::rsa::Rsa::public_key_from_pem`
/// read from `public_key_pem`: whether `signature` is a signature of `data`
/// under that key, or the error of the step that failed. A verdict that
/// comes back is the verdict on these three. Nothing is claimed of when the
/// call fails.
#[verifier::external_body]
pub(crate) fn confirms_md5(public_key_pem: &[u8], data: &[u8], signature: &[u8]) -> (r: Result<
    bool,
    ErrorStack,
>)
    requires
        public_key_pem@.len() <= MAX_PEM_LEN,
    ensures
        r matches Ok(verdict) ==> md5_confirms(public_key_pem@, data@, signature@) == Some(
            verdict,
        ),
{
    let key = PKey::from_rsa(Rsa::public_key_from_pem(public_key_pem)?)?;
    let mut verifier = Verifier::new(MessageDigest::md5(), &key)?;
    verifier.update(data)?;
    verifier.verify(signature)
}

/// `ErrorStack`'s `Display`: the queued errors in words.
#[verifier::external_body]
pub(crate) fn error_stack_text(e: &ErrorStack) -> (text: String) {
    e.to_string()
}

} // verus!
