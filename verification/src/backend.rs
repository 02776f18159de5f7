//! The trusted boundary to the `pgp` crate: declarations of its opaque types
//! and thin wrappers around the calls the key-pair logic makes. Every
//! contract here is believed, not proved; each doc comment names the `pgp`
//! item it relies on.

use vstd::prelude::*;

use crate::armor::{
    ends_with, public_key_footer, public_key_header, secret_key_footer, secret_key_header,
    signature_footer, signature_header, starts_with,
};
use pgp::composed::Deserializable;
use pgp::types::SecretKeyTrait;

verus! {

#[verifier::external_type_specification]
#[verifier::external_body]
pub struct ExSecretKey(pgp::composed::SecretKey);

#[verifier::external_type_specification]
#[verifier::external_body]
pub struct ExSignedSecretKey(pgp::composed::SignedSecretKey);

#[verifier::external_type_specification]
#[verifier::external_body]
pub struct ExSignedPublicKey(pgp::composed::SignedPublicKey);

#[verifier::external_type_specification]
#[verifier::external_body]
pub struct ExMessage(pgp::composed::Message);

#[verifier::external_type_specification]
#[verifier::external_body]
pub struct ExStandaloneSignature(pgp::composed::StandaloneSignature);

#[verifier::external_type_specification]
#[verifier::external_body]
pub struct ExPgpError(pgp::errors::Error);

/// The public key `p` is the public half derived from the secret key `s`,
/// and it carries a certification signature made by `s`, so the binding
/// between the two halves verifies.
pub uninterp spec fn certified_by(
    p: pgp::composed::SignedPublicKey,
    s: pgp::composed::SignedSecretKey,
) -> bool;

/// The armored text of a signed public key: armoring is a pure encoding
/// (serialization, base64, checksum), so it depends on the key value alone.
pub uninterp spec fn armored_public(k: pgp::composed::SignedPublicKey) -> Seq<char>;

/// The armored text of a signed secret key, a pure encoding as for the
/// public half.
pub uninterp spec fn armored_secret(k: pgp::composed::SignedSecretKey) -> Seq<char>;

/// What an armored private-key block parses to, if anything: parsing is a
/// pure function of the input text.
pub uninterp spec fn parsed_secret(s: Seq<char>) -> Option<pgp::composed::SignedSecretKey>;

/// The key's packets have the shape from which the public half can be
/// derived: a primary user with at least one signature, and no subkey
/// without one. Freshly signed keys always have it; a parsed key need not.
pub uninterp spec fn certifiable(k: pgp::composed::SignedSecretKey) -> bool;

/// The primary user id carried by the secret key, decoded as text, if the
/// key carries any user at all.
pub uninterp spec fn user_id_of(k: pgp::composed::SignedSecretKey) -> Option<Seq<char>>;

/// The primary user id carried by the public key, decoded as text.
pub uninterp spec fn public_user_id_of(p: pgp::composed::SignedPublicKey) -> Option<Seq<char>>;

/// The fresh key `k` is a 2048-bit RSA key pair whose primary user id is
/// `user_id` and whose secret material is encrypted under `passphrase`.
pub uninterp spec fn generated_with(
    k: pgp::composed::SecretKey,
    user_id: Seq<char>,
    passphrase: Seq<char>,
) -> bool;

/// The self-signed key `k` is a 2048-bit RSA key pair whose primary user id
/// is `user_id` and whose secret material is encrypted under `passphrase`,
/// so it is never persisted or transmitted in cleartext.
pub uninterp spec fn protected_with(
    k: pgp::composed::SignedSecretKey,
    user_id: Seq<char>,
    passphrase: Seq<char>,
) -> bool;

/// The content bytes wrapped inside a literal message.
pub uninterp spec fn content_of(m: pgp::composed::Message) -> Seq<u8>;

/// `sig` is a detached signature made with the secret key `k` over exactly
/// the bytes `content`.
pub uninterp spec fn signature_by(
    sig: pgp::composed::StandaloneSignature,
    k: pgp::composed::SignedSecretKey,
    content: Seq<u8>,
) -> bool;

/// The armored text of a detached signature, a pure encoding of the
/// signature value alone.
pub uninterp spec fn armored_signature(sig: pgp::composed::StandaloneSignature) -> Seq<char>;

/// Relies on the derived `Clone` of `SignedSecretKey`: a field-for-field
/// copy of plain data, equal to the original.
pub assume_specification[ <pgp::composed::SignedSecretKey as Clone>::clone ](
    k: &pgp::composed::SignedSecretKey,
) -> (r: pgp::composed::SignedSecretKey)
    ensures
        r == *k,
;

/// Relies on the derived `Clone` of `SignedPublicKey`: a field-for-field
/// copy of plain data, equal to the original.
pub assume_specification[ <pgp::composed::SignedPublicKey as Clone>::clone ](
    k: &pgp::composed::SignedPublicKey,
) -> (r: pgp::composed::SignedPublicKey)
    ensures
        r == *k,
;

/// Relies on pgp's `SecretKeyParamsBuilder` and `SecretKeyParams::generate`:
/// the builder requests a 2048-bit RSA key with the given primary user id,
/// and `generate` encrypts the fresh secret material under the passphrase
/// (AES-256 with an iterated, salted string-to-key). The key itself is
/// random, so nothing more is promised.
#[verifier::external_body]
pub(crate) fn generate_secret_key(
    user_id: &str,
    passphrase: &str,
) -> (r: Result<pgp::composed::SecretKey, pgp::errors::Error>)
    ensures
        r matches Ok(k) ==> generated_with(k, user_id@, passphrase@),
{
    let params = pgp::composed::key::SecretKeyParamsBuilder::default()
        .key_type(pgp::composed::key::KeyType::Rsa(2048))
        .primary_user_id(user_id.to_string())
        .passphrase(Some(passphrase.to_string()))
        .build();
    match params {
        Ok(p) => p.generate(),
        Err(e) => Err(pgp::errors::Error::Message(e.to_string())),
    }
}

/// Relies on `SecretKey::sign`: self-signs the freshly generated key,
/// unlocking it with the passphrase. Signing moves the key material and the
/// user ids over unchanged, certifies the primary user first, and gives
/// every user and subkey a signature, so the result keeps the generated
/// parameters and can have its public half derived.
#[verifier::external_body]
pub(crate) fn sign_secret_key(
    key: pgp::composed::SecretKey,
    passphrase: &str,
) -> (r: Result<pgp::composed::SignedSecretKey, pgp::errors::Error>)
    ensures
        r matches Ok(sk) ==> certifiable(sk) && (forall|id: Seq<char>, pw: Seq<char>|
            #[trigger] generated_with(key, id, pw) ==> protected_with(sk, id, pw)
                && user_id_of(sk) == Some(id)),
{
    let pw = passphrase.to_string();
    key.sign(move || pw)
}

/// Relies on the `users`, `public_subkeys` and `secret_subkeys` fields of
/// `SignedSecretKey`: reports whether the key has the packet shape that
/// deriving the public half needs — exactly the conditions that
/// `SignedKeyDetails::as_unsigned` and the subkeys' `as_unsigned` otherwise
/// panic on.
#[verifier::external_body]
pub(crate) fn derivable_key_shape(key: &pgp::composed::SignedSecretKey) -> (r: bool)
    ensures
        r == certifiable(*key),
{
    let users = &key.details.users;
    let primary = users.iter().find(|u| u.is_primary()).or_else(|| users.first());
    let primary_signed = match primary {
        Some(user) => !user.signatures.is_empty(),
        None => false,
    };
    primary_signed
        && key.public_subkeys.iter().all(|s| !s.signatures.is_empty())
        && key.secret_subkeys.iter().all(|s| !s.signatures.is_empty())
}

/// Relies on `SignedSecretKey::public_key` and `PublicKey::sign`: derives
/// the public half and certifies it with the secret key, unlocked by the
/// passphrase. Every successful result is the secret key's own derived
/// public half, certified by it, and carries the same primary user id. The
/// derivation panics on keys without a signed primary user or with unsigned
/// subkeys, so those are excluded here.
#[verifier::external_body]
pub(crate) fn certify_public_key(
    secret: &pgp::composed::SignedSecretKey,
    passphrase: &str,
) -> (r: Result<pgp::composed::SignedPublicKey, pgp::errors::Error>)
    requires
        certifiable(*secret),
    ensures
        r matches Ok(p) ==> certified_by(p, *secret)
            && public_user_id_of(p) == user_id_of(*secret),
{
    let pw = passphrase.to_string();
    secret.public_key().sign(secret, move || pw)
}

/// Relies on `SignedSecretKey::from_string` (via `Deserializable`): parsing
/// is deterministic, succeeding exactly on text that decodes to a private-key
/// block.
#[verifier::external_body]
pub(crate) fn parse_secret_key(
    armored: &str,
) -> (r: Result<pgp::composed::SignedSecretKey, pgp::errors::Error>)
    ensures
        r matches Ok(k) ==> parsed_secret(armored@) == Some(k),
        r is Err ==> parsed_secret(armored@) is None,
{
    pgp::composed::SignedSecretKey::from_string(armored).map(|t| t.0)
}

/// Relies on `SignedPublicKey::to_armored_string` and `armor::write`: the
/// armored text is a pure encoding of the key, opened by the public-key
/// header line and closed by the matching footer line.
#[verifier::external_body]
pub(crate) fn armor_public(
    key: &pgp::composed::SignedPublicKey,
) -> (r: Result<String, pgp::errors::Error>)
    ensures
        r matches Ok(s) ==> s@ == armored_public(*key)
            && starts_with(s@, public_key_header())
            && ends_with(s@, public_key_footer()),
{
    key.to_armored_string(None)
}

/// Relies on `SignedSecretKey::to_armored_string`, `armor::write` and the
/// parser they mirror: the armored text is a pure encoding of the key,
/// framed by the private-key header and footer lines, and parsing it
/// recovers the very key it encodes.
#[verifier::external_body]
pub(crate) fn armor_secret(
    key: &pgp::composed::SignedSecretKey,
) -> (r: Result<String, pgp::errors::Error>)
    ensures
        r matches Ok(s) ==> s@ == armored_secret(*key)
            && parsed_secret(s@) == Some(*key)
            && starts_with(s@, secret_key_header())
            && ends_with(s@, secret_key_footer()),
{
    key.to_armored_string(None)
}

/// Relies on `Message::new_literal_bytes`: wraps exactly the given content
/// as a literal data object with an empty name field.
#[verifier::external_body]
pub(crate) fn literal_message(content: &[u8]) -> (r: pgp::composed::Message)
    ensures
        content_of(r) == content@,
{
    pgp::composed::Message::new_literal_bytes("", content)
}

/// Relies on `Message::sign` and `Message::into_signature`: signs the
/// literal content with the secret key, unlocked by the passphrase, and
/// keeps only the signature packet; the payload is discarded. `sign` always
/// returns a signed message, so `into_signature` cannot panic here. The
/// signature carries the current time, so only what it signs is promised,
/// not its value.
#[verifier::external_body]
pub(crate) fn sign_message_detached(
    message: pgp::composed::Message,
    secret: &pgp::composed::SignedSecretKey,
    passphrase: &str,
) -> (r: Result<pgp::composed::StandaloneSignature, pgp::errors::Error>)
    ensures
        r matches Ok(sig) ==> signature_by(sig, *secret, content_of(message)),
{
    let pw = passphrase.to_string();
    message
        .sign(secret, move || pw, Default::default())
        .map(|m| m.into_signature())
}

/// Relies on `StandaloneSignature::to_armored_string` and `armor::write`:
/// the armored text is a pure encoding of the signature value, opened by the
/// signature header line and closed by the matching footer line.
#[verifier::external_body]
pub(crate) fn armor_signature(
    signature: &pgp::composed::StandaloneSignature,
) -> (r: Result<String, pgp::errors::Error>)
    ensures
        r matches Ok(s) ==> s@ == armored_signature(*signature)
            && starts_with(s@, signature_header())
            && ends_with(s@, signature_footer()),
{
    signature.to_armored_string(None)
}

/// Relies on the `users` field of `SignedKeyDetails` and `UserId::id`: the
/// primary user id of the key (the user marked primary, else the first),
/// decoded as text, if the key carries any user at all.
#[verifier::external_body]
pub(crate) fn primary_user_id(secret: &pgp::composed::SignedSecretKey) -> (r: Option<String>)
    ensures
        r matches Some(s) ==> user_id_of(*secret) == Some(s@),
        r is None ==> user_id_of(*secret) is None,
{
    let users = &secret.details.users;
    users
        .iter()
        .find(|u| u.is_primary())
        .or_else(|| users.first())
        .map(|u| String::from_utf8_lossy(u.id.id()).to_string())
}

} // verus!
