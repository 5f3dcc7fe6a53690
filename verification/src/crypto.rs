//! Address recovery for the recoverable signature scheme.
//!
//! The hashing and the ECDSA public-key recovery are outside computations;
//! their results are pure functions of their arguments, so they are given
//! names ([`eth_message_hash`], [`ecdsa_recover`]) and everything around the
//! two calls — the packed-signature layout, the recovery-id normalization —
//! is verified against [`recovered_signer`].

use vstd::prelude::*;

verus! {

/// The 32-byte keccak-256 hash of the EIP-191 envelope of a message. Written
/// by the ensures of [`hash_message`] alone.
pub uninterp spec fn eth_message_hash(message: Seq<u8>) -> Seq<u8>;

/// What ECDSA public-key recovery over secp256k1 returns for a 32-byte hash,
/// a 64-byte `r || s` signature and a recovery id: the 20-byte address of the
/// recovered public key, or `None` when the inputs are ill-formed or no key
/// can be recovered. Written by the ensures of [`recover_address`] alone.
pub uninterp spec fn ecdsa_recover(hash: Seq<u8>, signature_rs: Seq<u8>, recovery_id: u8) -> Option<
    Seq<u8>,
>;

/// Spec-level counterpart of an optional address.
pub open spec fn recovery_view(r: Option<Vec<u8>>) -> Option<Seq<u8>> {
    match r {
        Some(a) => Some(a@),
        None => None,
    }
}

/// Relies on `web3::signing::hash_message`: the keccak-256 hash of
/// `"\x19Ethereum Signed Message:\n" + message.length + message`, a pure
/// function of the message returning a 32-byte hash.
#[verifier::external_body]
fn hash_message(message: &Vec<u8>) -> (r: Vec<u8>)
    ensures
        r@ == eth_message_hash(message@),
        r@.len() == 32,
{
    web3::signing::hash_message(message).as_bytes().to_vec()
}

/// Relies on `web3::signing::recover`: ECDSA public-key recovery over
/// secp256k1, a pure function of the hash, the 64-byte `r || s` signature and
/// the recovery id. On success it returns the 20-byte address of the recovered
/// key; every failure it reports as an error, which is handed on as `None`.
#[verifier::external_body]
fn recover_address(hash: &Vec<u8>, signature_rs: &Vec<u8>, recovery_id: u8) -> (r: Option<Vec<u8>>)
    ensures
        recovery_view(r) == ecdsa_recover(hash@, signature_rs@, recovery_id),
        r matches Some(a) ==> a@.len() == 20,
{
    match web3::signing::recover(hash, signature_rs, recovery_id as i32) {
        Ok(address) => Some(address.as_bytes().to_vec()),
        Err(_) => None,
    }
}

/// A packed recoverable signature is 65 bytes: `r || s || v`.
pub const PACKED_SIGNATURE_LEN: usize = 65;

/// The recovery id of the trailing `v` byte: `v` in Electrum notation (27/28)
/// is brought back to 0/1, any other value is passed through (recovery then
/// fails unless it already is a valid recovery id).
pub open spec fn normalized_recovery_id(v: u8) -> u8 {
    if v >= 27 {
        (v - 27) as u8
    } else {
        v
    }
}

/// The signer address recovered from a message and a packed signature: `None`
/// unless the signature is 65 bytes long and recovery over the EIP-191 hash of
/// the message succeeds.
pub open spec fn recovered_signer(message: Seq<u8>, signature: Seq<u8>) -> Option<Seq<u8>> {
    if signature.len() == PACKED_SIGNATURE_LEN {
        ecdsa_recover(
            eth_message_hash(message),
            signature.subrange(0, 64),
            normalized_recovery_id(signature[64]),
        )
    } else {
        None
    }
}

/// Recovers the signer address of a packed `r || s || v` signature over the
/// EIP-191 envelope of `message`.
pub fn recover_signer(message: &Vec<u8>, signature: &Vec<u8>) -> (r: Option<Vec<u8>>)
    ensures
        recovery_view(r) == recovered_signer(message@, signature@),
        r matches Some(a) ==> a@.len() == 20,
{
    if signature.len() != PACKED_SIGNATURE_LEN {
        return None;
    }
    let hash = hash_message(message);
    let mut signature_rs: Vec<u8> = Vec::new();
    let mut i: usize = 0;
    while i < 64
        invariant
            i <= 64,
            signature@.len() == 65,
            signature_rs@ == signature@.subrange(0, i as int),
        decreases 64 - i,
    {
        signature_rs.push(signature[i]);
        i += 1;
    }
    let v = signature[64];
    let recovery_id: u8 = if v >= 27 {
        v - 27
    } else {
        v
    };
    recover_address(&hash, &signature_rs, recovery_id)
}

} // verus!
