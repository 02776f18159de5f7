//! The key-pair entity and its lifecycle: generation from a nickname and
//! passphrase, reconstruction from persisted armored secret material, public
//! key armoring, and detached signing.

use vstd::prelude::*;
use vstd::string::StringExecFns;

use crate::armor::{
    ends_with, public_key_footer, public_key_header, secret_key_footer, secret_key_header,
    signature_footer, signature_header, starts_with,
};
use crate::backend::{
    armor_public, armor_secret, armor_signature, armored_public, armored_secret,
    armored_signature, certifiable, certified_by, certify_public_key, content_of,
    derivable_key_shape, generate_secret_key, literal_message, parse_secret_key, parsed_secret,
    primary_user_id, protected_with, public_user_id_of, sign_message_detached, sign_secret_key,
    signature_by, user_id_of,
};
use crate::errors::KeyError;

verus! {

/// The fixed tail of every generated identity string.
pub open spec fn identity_suffix() -> Seq<char> {
    " (generated by bolt) <identities@boltchat.net>"@
}

/// The identity string generated for a nickname: the nickname verbatim,
/// followed by the fixed issuer tail.
pub open spec fn identity_of(nick: Seq<char>) -> Seq<char> {
    nick + identity_suffix()
}

/// Builds the identity string for a nickname.
fn make_identity(nick: &str) -> (r: String)
    ensures
        r@ == identity_of(nick@),
{
    let mut id = String::from_str(nick);
    id.append(" (generated by bolt) <identities@boltchat.net>");
    id
}

/// Armored text holds a loadable key: it parses as a private-key block, and
/// the parsed key has the packet shape from which a public half can be
/// derived.
pub open spec fn loadable(s: Seq<char>) -> bool {
    match parsed_secret(s) {
        Some(k) => certifiable(k),
        None => false,
    }
}

/// The identity a loaded pair carries: the key's primary user id, or empty
/// text for a key that carries no user at all.
pub open spec fn stored_identity(k: pgp::composed::SignedSecretKey) -> Seq<char> {
    match user_id_of(k) {
        Some(id) => id,
        None => Seq::<char>::empty(),
    }
}

/// The mathematical model of a key pair: the two key values and the identity
/// text. The passphrase is deliberately not part of the model; no contract
/// may depend on it.
pub struct KeyPairModel {
    pub secret_key: pgp::composed::SignedSecretKey,
    pub public_key: pgp::composed::SignedPublicKey,
    pub identity: Seq<char>,
}

/// A passphrase-protected key pair bound to a generated identity. Immutable
/// once constructed; `new` and `load_keys` are the only construction paths,
/// and both leave the public half certified by the secret half.
#[derive(Clone)]
pub struct KeyPair {
    secret_key: pgp::composed::SignedSecretKey,
    public_key: pgp::composed::SignedPublicKey,
    identity: String,
    // The secret material stays encrypted under this passphrase even in
    // memory; it is kept here so signing can unlock the key without asking
    // again, and it is never exported or persisted.
    passphrase: String,
}

impl View for KeyPair {
    type V = KeyPairModel;

    closed spec fn view(&self) -> KeyPairModel {
        KeyPairModel {
            secret_key: self.secret_key,
            public_key: self.public_key,
            identity: self.identity@,
        }
    }
}

impl KeyPair {
    /// The invariant of every constructed pair: the public half is derived
    /// from the secret half and carries a certification by it.
    pub open spec fn wf(self) -> bool {
        certified_by(self@.public_key, self@.secret_key)
    }

    /// Generates a fresh key pair: a 2048-bit RSA key whose primary user id
    /// is the identity built from `nick`, its secret material protected by
    /// `password`, self-signed, and its public half certified by the secret
    /// half, carrying the same identity. Any underlying generation or
    /// signing failure is surfaced; a partially certified pair is never
    /// returned.
    pub fn new(nick: &str, password: &str) -> (r: Result<KeyPair, KeyError>)
        ensures
            r matches Ok(kp) ==> kp.wf()
                && kp@.identity == identity_of(nick@)
                && user_id_of(kp@.secret_key) == Some(identity_of(nick@))
                && public_user_id_of(kp@.public_key) == Some(identity_of(nick@))
                && protected_with(kp@.secret_key, identity_of(nick@), password@)
                && certifiable(kp@.secret_key),
            r matches Err(e) ==> e == KeyError::CryptoFailure,
    {
        let identity = make_identity(nick);
        let unsigned = match generate_secret_key(identity.as_str(), password) {
            Ok(k) => k,
            Err(_) => return Err(KeyError::CryptoFailure),
        };
        let secret_key = match sign_secret_key(unsigned, password) {
            Ok(k) => k,
            Err(_) => return Err(KeyError::CryptoFailure),
        };
        let public_key = match certify_public_key(&secret_key, password) {
            Ok(p) => p,
            Err(_) => return Err(KeyError::CryptoFailure),
        };
        Ok(KeyPair {
            secret_key,
            public_key,
            identity,
            passphrase: String::from_str(password),
        })
    }

    /// Reconstructs a key pair from the armored text of its secret half. The
    /// public half is never taken from storage: it is re-derived and
    /// re-certified with `password`, exactly as in generation, and the
    /// pair's identity is the key's own primary user id (empty for a key
    /// that carries none). Text that does not hold a loadable key — it does
    /// not parse as a private-key block, or the parsed key is missing the
    /// signed user or subkey packets that deriving the public half needs —
    /// is rejected as `MalformedKey`, and only such text is; a loadable key
    /// that cannot be unlocked with `password` is rejected as
    /// `WrongPassphrase`.
    pub fn load_keys(armored: &str, password: &str) -> (r: Result<KeyPair, KeyError>)
        ensures
            r matches Ok(kp) ==> kp.wf()
                && parsed_secret(armored@) == Some(kp@.secret_key)
                && certifiable(kp@.secret_key)
                && kp@.identity == stored_identity(kp@.secret_key)
                && public_user_id_of(kp@.public_key) == user_id_of(kp@.secret_key),
            !loadable(armored@) <==> r == Err::<KeyPair, KeyError>(KeyError::MalformedKey),
            r matches Err(e) ==> e == KeyError::MalformedKey || e == KeyError::WrongPassphrase,
    {
        let secret_key = match parse_secret_key(armored) {
            Ok(k) => k,
            Err(_) => return Err(KeyError::MalformedKey),
        };
        if !derivable_key_shape(&secret_key) {
            return Err(KeyError::MalformedKey);
        }
        let public_key = match certify_public_key(&secret_key, password) {
            Ok(p) => p,
            Err(_) => return Err(KeyError::WrongPassphrase),
        };
        let identity = match primary_user_id(&secret_key) {
            Some(id) => id,
            None => {
                proof {
                    reveal_strlit("");
                    assert(""@ =~= Seq::<char>::empty());
                }
                String::from_str("")
            },
        };
        Ok(KeyPair {
            secret_key,
            public_key,
            identity,
            passphrase: String::from_str(password),
        })
    }

    /// The identity string carried by this pair.
    pub fn identity(&self) -> (r: &String)
        ensures
            r@ == self@.identity,
    {
        &self.identity
    }

    /// The armored text of the public half, as this pair's contract speaks
    /// of it.
    pub closed spec fn public_armor(self) -> Seq<char> {
        armored_public(self@.public_key)
    }

    /// Armors the public half: a self-delimiting text block opened by the
    /// public-key header line and closed by the matching footer line. The
    /// result is a pure encoding of the public key, so repeated calls on the
    /// same pair return byte-identical text.
    pub fn armor_public_key(&self) -> (r: Result<String, KeyError>)
        ensures
            r matches Ok(s) ==> s@ == self.public_armor()
                && starts_with(s@, public_key_header())
                && ends_with(s@, public_key_footer()),
            r matches Err(e) ==> e == KeyError::CryptoFailure,
    {
        match armor_public(&self.public_key) {
            Ok(s) => Ok(s),
            Err(_) => Err(KeyError::CryptoFailure),
        }
    }

    /// Armors the secret half for persistence: exactly the armored encoding
    /// of the secret key, framed by the private-key header and footer lines,
    /// from which parsing recovers the same key. No passphrase is taken: the
    /// secret material inside the block is already encrypted under the
    /// passphrase supplied at construction.
    pub fn armor_secret_key(&self) -> (r: Result<String, KeyError>)
        ensures
            r matches Ok(s) ==> s@ == armored_secret(self@.secret_key)
                && parsed_secret(s@) == Some(self@.secret_key)
                && starts_with(s@, secret_key_header())
                && ends_with(s@, secret_key_footer()),
            r matches Err(e) ==> e == KeyError::CryptoFailure,
    {
        match armor_secret(&self.secret_key) {
            Ok(s) => Ok(s),
            Err(_) => Err(KeyError::CryptoFailure),
        }
    }

    /// Signs `content` with the secret half: wraps it as a literal data
    /// object with an empty name, computes a detached signature over it,
    /// discards the payload, and armors the signature alone. Every
    /// successful result is the armored text of some signature made by this
    /// pair's secret key over exactly `content`, opened by the signature
    /// header line and closed by the matching footer line.
    pub fn armor_message_signature(&self, content: &[u8]) -> (r: Result<String, KeyError>)
        ensures
            r matches Ok(s) ==> (exists|sig: pgp::composed::StandaloneSignature|
                #[trigger] signature_by(sig, self@.secret_key, content@)
                    && s@ == armored_signature(sig))
                && starts_with(s@, signature_header())
                && ends_with(s@, signature_footer()),
            r matches Err(e) ==> e == KeyError::CryptoFailure,
    {
        let message = literal_message(content);
        let ghost wrapped = message;
        let signature = match sign_message_detached(message, &self.secret_key, self.passphrase.as_str()) {
            Ok(s) => s,
            Err(_) => return Err(KeyError::CryptoFailure),
        };
        proof {
            assert(signature_by(signature, self@.secret_key, content_of(wrapped)));
            assert(signature_by(signature, self@.secret_key, content@));
        }
        match armor_signature(&signature) {
            Ok(s) => Ok(s),
            Err(_) => Err(KeyError::CryptoFailure),
        }
    }
}

/// Armoring the public key is stable: the contract of `armor_public_key`
/// pins every successful result to the one armored text of the pair's public
/// half, so any two results on the same pair are byte-identical.
pub proof fn lemma_public_armor_stable(kp: KeyPair, s1: Seq<char>, s2: Seq<char>)
    requires
        s1 == kp.public_armor(),
        s2 == kp.public_armor(),
    ensures
        s1 == s2,
{
}

/// The persistence round trip preserves the pair: `armor_secret_key`
/// guarantees its output parses back to the very secret key it encodes, and
/// `load_keys` guarantees a loaded pair's secret key is what the text
/// parses to — so a pair loaded from a pair's saved secret half carries the
/// same secret key, and with it the same primary user id.
pub proof fn lemma_round_trip_preserves_keys(kp: KeyPair, s: Seq<char>, reloaded: KeyPair)
    requires
        parsed_secret(s) == Some(kp@.secret_key),
        parsed_secret(s) == Some(reloaded@.secret_key),
    ensures
        reloaded@.secret_key == kp@.secret_key,
        user_id_of(reloaded@.secret_key) == user_id_of(kp@.secret_key),
{
}

} // verus!
