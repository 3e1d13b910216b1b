//! The module bus client: a module's identity, its Ed25519 signing key, and
//! the answer to the bus's authentication challenge.
use vstd::prelude::*;
use ed25519_dalek::{Signer, SigningKey};

verus! {

/// The Ed25519 signature (RFC 8032) of a message by the signing key with the
/// given 32-byte secret.
pub uninterp spec fn ed25519_signature(secret: Seq<u8>, message: Seq<u8>) -> Seq<u8>;

/// `SigningKey::from_bytes(secret).sign(message).to_bytes()`: the 64-byte
/// Ed25519 signature of the message by the key with this secret; signing with
/// a key held in memory does not fail.
#[verifier::external_body]
fn sign_with_secret(secret: &[u8; 32], message: &[u8]) -> (r: Vec<u8>)
    ensures
        r@ == ed25519_signature(secret@, message@),
        r@.len() == 64,
{
    SigningKey::from_bytes(secret).sign(message).to_bytes().to_vec()
}

/// `SigningKey::generate` with the operating system's random source, kept as
/// its secret bytes; nothing is promised of them, which depend on chance.
#[verifier::external_body]
fn generate_secret() -> [u8; 32] {
    let mut rng = rand::rngs::OsRng;
    SigningKey::generate(&mut rng).to_bytes()
}

/// Why the bus could not be used.
#[derive(Debug, Clone, PartialEq, Eq)]
pub enum BusClientError {
    Io(String),
    Grpc(String),
    AuthFailed(String),
}

impl BusClientError {
    /// The error's message.
    pub fn message(&self) -> (r: String)
        ensures
            self matches BusClientError::Io(m) ==> r@ == "IO error: "@ + m@,
            self matches BusClientError::Grpc(m) ==> r@ == "gRPC error: "@ + m@,
            self matches BusClientError::AuthFailed(m) ==> r@ == "Authentication failed: "@ + m@,
    {
        match self {
            BusClientError::Io(m) => crate::text::concat2("IO error: ", m.as_str()),
            BusClientError::Grpc(m) => crate::text::concat2("gRPC error: ", m.as_str()),
            BusClientError::AuthFailed(m) => crate::text::concat2("Authentication failed: ", m.as_str()),
        }
    }
}

/// A module's connection details to the bus: its identity, the secret of its
/// Ed25519 signing key, and the bus's socket.
pub struct BusClient {
    pub identity_id: String,
    pub signing_key: [u8; 32],
    pub socket_path: String,
}

impl BusClient {
    /// A client for a module identity with a freshly generated signing key.
    pub fn new(identity_id: &str, socket_path: &str) -> (r: Self)
        ensures
            r.identity_id@ == identity_id@,
            r.socket_path@ == socket_path@,
    {
        BusClient {
            identity_id: String::from_str(identity_id),
            signing_key: generate_secret(),
            socket_path: String::from_str(socket_path),
        }
    }

    /// The answer to the bus's challenge: the challenge signed with the
    /// client's key.
    pub fn sign_challenge(&self, challenge: &[u8]) -> (r: Vec<u8>)
        ensures
            r@ == ed25519_signature(self.signing_key@, challenge@),
            r@.len() == 64,
    {
        sign_with_secret(&self.signing_key, challenge)
    }
}

} // verus!
