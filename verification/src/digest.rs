//! The commitment hash of a swap: SHA-256, as the Soroban host computes it.

use soroban_sdk::{Bytes, Env};
use vstd::prelude::*;

verus! {

/// The SHA-256 digest of a byte string.
pub uninterp spec fn sha256(data: Seq<u8>) -> Seq<u8>;

/// The longest preimage that is handed to the host for hashing. The host
/// meters its work and aborts when its budget is spent; hashing this many
/// bytes stays far inside the budget that a host starts with.
pub const MAX_PREIMAGE_LEN: usize = 65536;

/// Not proved: the body calls `soroban_sdk::crypto::Crypto::sha256` on an
/// `Env` of its own, with `data` copied into a host `Bytes` and the
/// `BytesN<32>` that comes back copied out. The contract says that the 32
/// bytes are the digest that `sha256` names, a function of `data` alone. The
/// host charges the work to its budget and panics when that is spent, so
/// `data` is bounded.
#[verifier::external_body]
pub(crate) fn host_sha256(data: &Vec<u8>) -> (digest: [u8; 32])
    requires
        data@.len() <= MAX_PREIMAGE_LEN,
    ensures
        digest@ == sha256(data@),
{
    let env = Env::default();
    env.crypto().sha256(&Bytes::from_slice(&env, data.as_slice())).to_array()
}

} // verus!
