//! Identities and authorizations, as plain values.

use vstd::prelude::*;

verus! {

/// Whether two 32-byte handles hold the same bytes.
pub fn same_bytes(a: &[u8; 32], b: &[u8; 32]) -> (r: bool)
    ensures
        r == (*a == *b),
{
    let mut i: usize = 0;
    while i < 32
        invariant
            i <= 32,
            forall|j: int| 0 <= j < i ==> a[j] == b[j],
        decreases 32 - i,
    {
        if a[i] != b[i] {
            return false;
        }
        i += 1;
    }
    assert(*a =~= *b);
    true
}

/// An account or a contract: whoever can own a balance and consent to a
/// transfer. The library never looks behind the 32 bytes.
#[derive(Clone, Copy, Debug, PartialEq, Eq)]
pub enum Identifier {
    /// A contract, by its id.
    Contract([u8; 32]),
    /// A bare ed25519 public key.
    Ed25519([u8; 32]),
    /// An account, by its id.
    Account([u8; 32]),
}

impl Identifier {
    /// Whether `self` and `other` are the same identity.
    pub fn same(&self, other: &Identifier) -> (r: bool)
        ensures
            r == (*self == *other),
    {
        match (self, other) {
            (Identifier::Contract(a), Identifier::Contract(b)) => same_bytes(a, b),
            (Identifier::Ed25519(a), Identifier::Ed25519(b)) => same_bytes(a, b),
            (Identifier::Account(a), Identifier::Account(b)) => same_bytes(a, b),
            _ => false,
        }
    }
}

/// One ed25519 signature with the key that made it.
#[derive(Clone, Copy, Debug, PartialEq, Eq)]
pub struct Ed25519Signature {
    pub public_key: [u8; 32],
    pub signature: [u8; 64],
}

/// The signatures of an account's signers.
#[derive(Clone, Debug, PartialEq, Eq)]
pub struct AccountSignatures {
    pub account_id: [u8; 32],
    pub signatures: Vec<Ed25519Signature>,
}

/// How a caller proves consent to the token service.
#[derive(Clone, Debug, PartialEq, Eq)]
pub enum Signature {
    /// The direct invoker of the call consents; nothing is signed.
    Invoker,
    /// A single key signed.
    Ed25519(Ed25519Signature),
    /// An account's signers signed.
    Account(AccountSignatures),
}

/// An authorization as the token service takes it: the proof of consent and
/// the nonce that guards it against replay.
#[derive(Clone, Debug, PartialEq, Eq)]
pub struct Auth {
    pub sig: Signature,
    pub nonce: i128,
}

impl Auth {
    /// The authorization of a contract that calls in its own name: the
    /// invoker's consent, nonce zero.
    pub fn invoker() -> (r: Auth)
        ensures
            r == (Auth { sig: Signature::Invoker, nonce: 0 }),
    {
        Auth { sig: Signature::Invoker, nonce: 0 }
    }
}

} // verus!
