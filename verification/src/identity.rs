//! Identities of the host ledger.
//!
//! The host addresses accounts by 32-byte public keys. The logic here only
//! ever compares identities for equality, so an identity is held as four
//! plain 64-bit words of the key; the host-side code converts between its
//! key type and this one.

use vstd::prelude::*;

verus! {

/// A 32-byte account identity, as four 64-bit words in big-endian order.
#[derive(Clone, Copy, Debug, PartialEq, Eq, Structural)]
pub struct Identity {
    pub w0: u64,
    pub w1: u64,
    pub w2: u64,
    pub w3: u64,
}

/// The DAO's fixed, well-known treasury wallet, which receives the DAO
/// share of every payment.
pub open spec fn dao_treasury_identity() -> Identity {
    Identity {
        w0: 0x8edd93d9612bcca3,
        w1: 0x867103187c865450,
        w2: 0x0a26168f6f64e65c,
        w3: 0xf967ac6416e51c8f,
    }
}

/// The treasury wallet as a runtime value.
pub fn dao_treasury_wallet() -> (r: Identity)
    ensures
        r == dao_treasury_identity(),
{
    Identity {
        w0: 0x8edd93d9612bcca3,
        w1: 0x867103187c865450,
        w2: 0x0a26168f6f64e65c,
        w3: 0xf967ac6416e51c8f,
    }
}

} // verus!
