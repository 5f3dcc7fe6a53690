//! The library's laws: properties of the verification verdict that hold for
//! all inputs, stated over the same spec functions as the executable
//! functions' contracts and proved once and for all.

use crate::chain::{key_change_authorized, OnchainAnswersV};
use crate::crypto::recovered_signer;
use crate::data::{
    BatchSignDataV, SignedTxVariantV, SignedZkSyncTxV, TxAddError, TxEthSignatureV, TxVariantV,
    TxWithSignDataV,
};
use crate::protocol::{
    key_change_query, needs_onchain_auth, verdict, verified_form,
};
use vstd::prelude::*;

verus! {

/// A single transaction whose recoverable-scheme signature recovers to its
/// declared account is accepted — provided it is not a signature-less key
/// change that the chain never authorized, and it passes the structural
/// self-check; on either of those the verdict is a rejection by the other
/// rules, whatever the signature says.
pub proof fn law_single_recoverable_match_accepted(
    tx: TxWithSignDataV,
    chain: OnchainAnswersV,
    validity: Seq<bool>,
)
    requires
        tx.eth_sign_data matches Some(sign_data) && sign_data.signature
            matches TxEthSignatureV::EthereumSignature(signature) && recovered_signer(
            sign_data.message,
            signature,
        ) == Some(tx.tx.account),
        needs_onchain_auth(tx.tx) ==> key_change_authorized(chain, key_change_query(tx.tx)),
        validity.len() == 1 && validity[0],
    ensures
        verdict(TxVariantV::Tx(tx), chain, validity) == Ok::<(), TxAddError>(()),
{
}

/// A single transaction whose recoverable-scheme signature recovers to an
/// address other than its declared account is rejected as an incorrect
/// off-chain signature — provided the key-change rule did not already reject
/// it first; the structural self-check is never reached.
pub proof fn law_single_recoverable_mismatch_rejected(
    tx: TxWithSignDataV,
    chain: OnchainAnswersV,
    validity: Seq<bool>,
)
    requires
        tx.eth_sign_data matches Some(sign_data) && sign_data.signature
            matches TxEthSignatureV::EthereumSignature(signature) && recovered_signer(
            sign_data.message,
            signature,
        ) matches Some(address) && address != tx.tx.account,
        needs_onchain_auth(tx.tx) ==> key_change_authorized(chain, key_change_query(tx.tx)),
    ensures
        verdict(TxVariantV::Tx(tx), chain, validity) == Err::<(), TxAddError>(
            TxAddError::IncorrectEthSignature,
        ),
{
}

/// A key change carrying no off-chain signature at all is accepted exactly
/// when the chain reports the change as authorized by a prior on-chain action
/// (and the transaction passes the structural self-check); when the chain does
/// not, the verdict is `ChangePkNotAuthorized`, whatever the self-check says.
pub proof fn law_key_change_onchain_authorization(
    tx: TxWithSignDataV,
    chain: OnchainAnswersV,
    validity: Seq<bool>,
)
    requires
        needs_onchain_auth(tx.tx),
        tx.eth_sign_data is None,
        validity.len() == 1 && validity[0],
    ensures
        verdict(TxVariantV::Tx(tx), chain, validity) == Ok::<(), TxAddError>(())
            <==> key_change_authorized(chain, key_change_query(tx.tx)),
        !key_change_authorized(chain, key_change_query(tx.tx)) ==> verdict(
            TxVariantV::Tx(tx),
            chain,
            validity,
        ) == Err::<(), TxAddError>(TxAddError::ChangePkNotAuthorized),
{
}

/// A batch whose recoverable-scheme batch signature recovers to an address
/// that some item's declared account does not share is rejected as an
/// incorrect off-chain signature, whatever the items' own signatures, the
/// chain's answers or the structural self-checks say.
pub proof fn law_batch_signer_mismatch_rejected(
    txs: Seq<TxWithSignDataV>,
    batch: BatchSignDataV,
    chain: OnchainAnswersV,
    validity: Seq<bool>,
)
    requires
        batch.0.signature matches TxEthSignatureV::EthereumSignature(signature)
            && recovered_signer(batch.0.message, signature) matches Some(address) && exists|i: int|
            0 <= i < txs.len() && (#[trigger] txs[i]).tx.account != address,
    ensures
        verdict(TxVariantV::Batch(txs, batch), chain, validity) == Err::<(), TxAddError>(
            TxAddError::IncorrectEthSignature,
        ),
{
}

/// Round trip, single case: the verified form of a single transaction keeps
/// the transaction and its authorization data unchanged.
pub proof fn law_round_trip_single(tx: TxWithSignDataV)
    ensures
        verified_form(TxVariantV::Tx(tx)) == SignedTxVariantV::Tx(
            SignedZkSyncTxV { tx: tx.tx, eth_sign_data: tx.eth_sign_data },
        ),
{
}

/// Round trip, batch case: the verified form of a batch keeps every
/// transaction's contents unchanged, in order, and carries the batch-level
/// signature; the per-item signatures are discarded.
pub proof fn law_round_trip_batch(txs: Seq<TxWithSignDataV>, batch: BatchSignDataV)
    ensures
        verified_form(TxVariantV::Batch(txs, batch)) matches SignedTxVariantV::Batch(
            items,
            signature,
        ) && signature == batch.0.signature && items.len() == txs.len() && (forall|i: int|
            0 <= i < txs.len() ==> (#[trigger] items[i]).tx == txs[i].tx && items[i].eth_sign_data
                is None),
{
}

} // verus!
