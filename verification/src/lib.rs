//! Passphrase-protected OpenPGP identities for a chat client: generating a
//! key pair bound to a nickname, reloading it from its armored secret half,
//! armoring the public half, and producing detached signatures over content.

pub mod armor;
pub mod backend;
pub mod errors;
pub mod key_pair;

pub use errors::KeyError;
pub use key_pair::KeyPair;
