//! The verification protocol and the verified-value wrapper.
//!
//! [`verdict`] is the full specification: the authorization check (batch-level
//! signature first, then every item, in order, each with its key-change and
//! off-chain-signature rules), then the structural correctness gate. The
//! executable checkers return exactly that verdict, and [`VerifiedTx`] can only
//! be produced when it is `Ok`.

use crate::chain::{
    contract_signature_valid, key_change_authorized, ContractSigQuery, ContractSigQueryV,
    KeyChangeQuery, KeyChangeQueryV, OnchainAnswers, OnchainAnswersV, OnchainRequest,
    OnchainRequestV,
};
use crate::crypto::{recover_signer, recovered_signer};
use crate::data::{
    bytes_eq, clone_bytes, clone_opt_sign_data, clone_signature, clone_tx, EthSignData,
    EthSignDataV,
    SignedTxVariant, SignedTxVariantV, SignedZkSyncTx, SignedZkSyncTxV, TxAddError, TxData,
    TxDataV, TxEthSignature, TxEthSignatureV, TxV, TxVariant, TxVariantV, TxWithSignData,
    TxWithSignDataV,
};
use vstd::prelude::*;

verus! {

/// Spec-level counterpart of a sequence of unverified transactions.
pub open spec fn txs_view(txs: Seq<TxWithSignData>) -> Seq<TxWithSignDataV> {
    txs.map_values(|t: TxWithSignData| t@)
}

/// Spec-level counterpart of a sequence of verified transactions.
pub open spec fn signed_txs_view(txs: Seq<SignedZkSyncTx>) -> Seq<SignedZkSyncTxV> {
    txs.map_values(|t: SignedZkSyncTx| t@)
}

/// A key change that carries no off-chain signature of its own must have been
/// authorized by a prior on-chain action.
pub open spec fn needs_onchain_auth(tx: TxV) -> bool {
    match tx.data {
        TxDataV::ChangePubKey(c) => !c.has_eth_signature,
        TxDataV::Other => false,
    }
}

/// The on-chain authorization query a key change is checked against.
pub open spec fn key_change_query(tx: TxV) -> KeyChangeQueryV {
    KeyChangeQueryV {
        account: tx.account,
        nonce: tx.data->ChangePubKey_0.nonce,
        new_pk_hash: tx.data->ChangePubKey_0.new_pk_hash,
    }
}

/// The verdict on one transaction: an unauthorized key change is rejected
/// first; then, if an off-chain authorization is present, a recoverable
/// signature must recover to the declared account and a contract-validated
/// signature must be accepted by the chain.
pub open spec fn single_tx_verdict(tx: TxWithSignDataV, chain: OnchainAnswersV) -> Result<
    (),
    TxAddError,
> {
    if needs_onchain_auth(tx.tx) && !key_change_authorized(chain, key_change_query(tx.tx)) {
        Err(TxAddError::ChangePkNotAuthorized)
    } else {
        match tx.eth_sign_data {
            None => Ok(()),
            Some(sign_data) => match sign_data.signature {
                TxEthSignatureV::EthereumSignature(signature) => match recovered_signer(
                    sign_data.message,
                    signature,
                ) {
                    Some(address) => if address == tx.tx.account {
                        Ok(())
                    } else {
                        Err(TxAddError::IncorrectEthSignature)
                    },
                    None => Err(TxAddError::IncorrectEthSignature),
                },
                TxEthSignatureV::EIP1271Signature(signature) => if contract_signature_valid(
                    chain,
                    ContractSigQueryV {
                        account: tx.tx.account,
                        message: sign_data.message,
                        signature,
                    },
                ) {
                    Ok(())
                } else {
                    Err(TxAddError::IncorrectTx)
                },
            },
        }
    }
}

/// The verdict on the batch-level authorization alone: a recoverable batch
/// signature must recover to an address shared by every item's account; a
/// contract-validated batch signature must be accepted by the chain for every
/// item's account, against the one batch message.
pub open spec fn batch_signature_verdict(
    txs: Seq<TxWithSignDataV>,
    batch: EthSignDataV,
    chain: OnchainAnswersV,
) -> Result<(), TxAddError> {
    match batch.signature {
        TxEthSignatureV::EthereumSignature(signature) => match recovered_signer(
            batch.message,
            signature,
        ) {
            Some(address) => if forall|i: int|
                0 <= i < txs.len() ==> (#[trigger] txs[i]).tx.account == address {
                Ok(())
            } else {
                Err(TxAddError::IncorrectEthSignature)
            },
            None => Err(TxAddError::IncorrectEthSignature),
        },
        TxEthSignatureV::EIP1271Signature(signature) => if forall|i: int|
            0 <= i < txs.len() ==> contract_signature_valid(
                chain,
                ContractSigQueryV {
                    account: (#[trigger] txs[i]).tx.account,
                    message: batch.message,
                    signature,
                },
            ) {
            Ok(())
        } else {
            Err(TxAddError::IncorrectTx)
        },
    }
}

/// The verdict on the items of a batch, in sequence order: the first failing
/// item's rejection, or `Ok` when every item passes.
pub open spec fn batch_items_verdict(txs: Seq<TxWithSignDataV>, chain: OnchainAnswersV) -> Result<
    (),
    TxAddError,
>
    decreases txs.len(),
{
    if txs.len() == 0 {
        Ok(())
    } else {
        match single_tx_verdict(txs[0], chain) {
            Err(e) => Err(e),
            Ok(()) => batch_items_verdict(txs.drop_first(), chain),
        }
    }
}

/// The verdict of the whole authorization check: one transaction is checked on
/// its own; a batch is checked at batch level first, then item by item.
pub open spec fn authorization_verdict(payload: TxVariantV, chain: OnchainAnswersV) -> Result<
    (),
    TxAddError,
> {
    match payload {
        TxVariantV::Tx(tx) => single_tx_verdict(tx, chain),
        TxVariantV::Batch(txs, batch) => match batch_signature_verdict(txs, batch.0, chain) {
            Err(e) => Err(e),
            Ok(()) => batch_items_verdict(txs, chain),
        },
    }
}

/// How many structural self-check answers a payload needs: one per
/// transaction.
pub open spec fn payload_len(payload: TxVariantV) -> nat {
    match payload {
        TxVariantV::Tx(_) => 1,
        TxVariantV::Batch(txs, _) => txs.len(),
    }
}

/// The number of transactions in a payload: how many structural self-check
/// answers [`VerifiedTx::verify`] asks for.
pub fn payload_item_count(payload: &TxVariant) -> (r: usize)
    ensures
        r == payload_len(payload@),
{
    match payload {
        TxVariant::Tx(_) => 1,
        TxVariant::Batch(txs, _) => txs.len(),
    }
}

/// The verdict of the correctness gate: every transaction must have passed the
/// structural self-check, any failure rejects the whole request.
pub open spec fn correctness_verdict(validity: Seq<bool>) -> Result<(), TxAddError> {
    if forall|i: int| 0 <= i < validity.len() ==> validity[i] {
        Ok(())
    } else {
        Err(TxAddError::IncorrectTx)
    }
}

/// The full verdict on a payload: the authorization check, then the
/// correctness gate; the first failure short-circuits the rest.
pub open spec fn verdict(
    payload: TxVariantV,
    chain: OnchainAnswersV,
    validity: Seq<bool>,
) -> Result<(), TxAddError> {
    match authorization_verdict(payload, chain) {
        Err(e) => Err(e),
        Ok(()) => correctness_verdict(validity),
    }
}

/// The verified form of one item of a verified batch: the transaction alone,
/// its per-item signature discarded.
pub open spec fn batch_verified_item(tx: TxWithSignDataV) -> SignedZkSyncTxV {
    SignedZkSyncTxV { tx: tx.tx, eth_sign_data: None }
}

/// The verified form of a payload. A single transaction keeps its own
/// authorization data; every batch item is stamped with the batch-level
/// signature instead of whatever per-item signature it carried.
pub open spec fn verified_form(payload: TxVariantV) -> SignedTxVariantV {
    match payload {
        TxVariantV::Tx(tx) => SignedTxVariantV::Tx(
            SignedZkSyncTxV { tx: tx.tx, eth_sign_data: tx.eth_sign_data },
        ),
        TxVariantV::Batch(txs, batch) => SignedTxVariantV::Batch(
            txs.map_values(|t: TxWithSignDataV| batch_verified_item(t)),
            batch.0.signature,
        ),
    }
}

/// Spec-level counterpart of a sequence of on-chain queries.
pub open spec fn requests_view(requests: Seq<OnchainRequest>) -> Seq<OnchainRequestV> {
    requests.map_values(|r: OnchainRequest| r@)
}

/// The on-chain queries one transaction needs: its key-change authorization,
/// if the key-change rule applies, then its contract-validated signature, if it
/// carries one.
pub open spec fn tx_requests(tx: TxWithSignDataV) -> Seq<OnchainRequestV> {
    (if needs_onchain_auth(tx.tx) {
        seq![OnchainRequestV::KeyChangeAuthorized(key_change_query(tx.tx))]
    } else {
        Seq::empty()
    }) + (match tx.eth_sign_data {
        Some(sign_data) => match sign_data.signature {
            TxEthSignatureV::EthereumSignature(_) => Seq::empty(),
            TxEthSignatureV::EIP1271Signature(signature) => seq![
                OnchainRequestV::ContractSignatureValid(
                    ContractSigQueryV {
                        account: tx.tx.account,
                        message: sign_data.message,
                        signature,
                    },
                ),
            ],
        },
        None => Seq::empty(),
    })
}

/// The on-chain queries the batch-level check needs: none for a recoverable
/// batch signature, one per item's account for a contract-validated one.
pub open spec fn batch_level_requests(txs: Seq<TxWithSignDataV>, batch: EthSignDataV) -> Seq<
    OnchainRequestV,
> {
    match batch.signature {
        TxEthSignatureV::EthereumSignature(_) => Seq::empty(),
        TxEthSignatureV::EIP1271Signature(signature) => txs.map_values(
            |t: TxWithSignDataV| OnchainRequestV::ContractSignatureValid(
                ContractSigQueryV { account: t.tx.account, message: batch.message, signature },
            ),
        ),
    }
}

/// The per-item on-chain queries of a batch, in sequence order.
pub open spec fn item_requests(txs: Seq<TxWithSignDataV>) -> Seq<OnchainRequestV>
    decreases txs.len(),
{
    if txs.len() == 0 {
        Seq::empty()
    } else {
        tx_requests(txs[0]) + item_requests(txs.drop_first())
    }
}

/// Every on-chain query whose answer the verdict on a payload consults: the
/// batch-level queries first, then the per-item ones, in sequence order.
pub open spec fn required_onchain_requests(payload: TxVariantV) -> Seq<OnchainRequestV> {
    match payload {
        TxVariantV::Tx(tx) => tx_requests(tx),
        TxVariantV::Batch(txs, batch) => batch_level_requests(txs, batch.0) + item_requests(txs),
    }
}

/// Appends one contract-validated signature query.
fn push_contract_sig_request(
    out: &mut Vec<OnchainRequest>,
    account: &Vec<u8>,
    message: &Vec<u8>,
    signature: &Vec<u8>,
)
    ensures
        requests_view(final(out)@) == requests_view(old(out)@) + seq![
            OnchainRequestV::ContractSignatureValid(
                ContractSigQueryV {
                    account: account@,
                    message: message@,
                    signature: signature@,
                },
            ),
        ],
{
    out.push(
        OnchainRequest::ContractSignatureValid(
            ContractSigQuery {
                account: clone_bytes(account),
                message: clone_bytes(message),
                signature: clone_bytes(signature),
            },
        ),
    );
    proof {
        assert(requests_view(out@) =~= requests_view(old(out)@) + seq![
            OnchainRequestV::ContractSignatureValid(
                ContractSigQueryV {
                    account: account@,
                    message: message@,
                    signature: signature@,
                },
            ),
        ]);
    }
}

/// Appends the on-chain queries of one transaction.
fn push_tx_requests(out: &mut Vec<OnchainRequest>, tx: &TxWithSignData)
    ensures
        requests_view(final(out)@) == requests_view(old(out)@) + tx_requests(tx@),
{
    if let TxData::ChangePubKey(change_pk) = &tx.tx.data {
        if !change_pk.has_eth_signature {
            out.push(
                OnchainRequest::KeyChangeAuthorized(
                    KeyChangeQuery {
                        account: clone_bytes(&tx.tx.account),
                        nonce: change_pk.nonce,
                        new_pk_hash: clone_bytes(&change_pk.new_pk_hash),
                    },
                ),
            );
        }
    }
    if let Some(sign_data) = &tx.eth_sign_data {
        if let TxEthSignature::EIP1271Signature(signature) = &sign_data.signature {
            out.push(
                OnchainRequest::ContractSignatureValid(
                    ContractSigQuery {
                        account: clone_bytes(&tx.tx.account),
                        message: clone_bytes(&sign_data.message),
                        signature: clone_bytes(signature),
                    },
                ),
            );
        }
    }
    proof {
        assert(requests_view(out@) =~= requests_view(old(out)@) + tx_requests(tx@));
    }
}

/// Lists the on-chain queries the surrounding process must answer before it
/// can verify this payload, in the order the protocol consults them.
pub fn onchain_requests(request: &TxVariant) -> (r: Vec<OnchainRequest>)
    ensures
        requests_view(r@) == required_onchain_requests(request@),
{
    let mut out: Vec<OnchainRequest> = Vec::new();
    match request {
        TxVariant::Tx(tx) => {
            push_tx_requests(&mut out, tx);
            proof {
                assert(requests_view(out@) =~= required_onchain_requests(request@));
            }
        },
        TxVariant::Batch(txs, batch_sign_data) => {
            if let TxEthSignature::EIP1271Signature(signature) = &batch_sign_data.0.signature {
                let mut i: usize = 0;
                while i < txs.len()
                    invariant
                        i <= txs.len(),
                        batch_sign_data@.0.signature == TxEthSignatureV::EIP1271Signature(
                            signature@,
                        ),
                        requests_view(out@) == batch_level_requests(
                            txs_view(txs@),
                            batch_sign_data@.0,
                        ).subrange(0, i as int),
                    decreases txs.len() - i,
                {
                    push_contract_sig_request(
                        &mut out,
                        &txs[i].tx.account,
                        &batch_sign_data.0.message,
                        signature,
                    );
                    proof {
                        let blr = batch_level_requests(txs_view(txs@), batch_sign_data@.0);
                        assert(txs_view(txs@)[i as int] == txs@[i as int]@);
                        assert(blr[i as int] == OnchainRequestV::ContractSignatureValid(
                            ContractSigQueryV {
                                account: txs_view(txs@)[i as int].tx.account,
                                message: batch_sign_data@.0.message,
                                signature: signature@,
                            },
                        ));
                        assert(blr.subrange(0, i + 1) =~= blr.subrange(0, i as int) + seq![
                            blr[i as int],
                        ]);
                    }
                    i += 1;
                }
            }
            proof {
                assert(batch_level_requests(txs_view(txs@), batch_sign_data@.0).subrange(
                    0,
                    batch_level_requests(txs_view(txs@), batch_sign_data@.0).len() as int,
                ) =~= batch_level_requests(txs_view(txs@), batch_sign_data@.0));
                assert(requests_view(out@) == batch_level_requests(
                    txs_view(txs@),
                    batch_sign_data@.0,
                ));
                assert(txs_view(txs@).skip(0) =~= txs_view(txs@));
            }
            let mut i: usize = 0;
            while i < txs.len()
                invariant
                    i <= txs.len(),
                    request@ == TxVariantV::Batch(txs_view(txs@), batch_sign_data@),
                    requests_view(out@) + item_requests(txs_view(txs@).skip(i as int))
                        == required_onchain_requests(request@),
                decreases txs.len() - i,
            {
                let ghost before = requests_view(out@);
                push_tx_requests(&mut out, &txs[i]);
                proof {
                    let rest = txs_view(txs@).skip(i as int);
                    assert(rest[0] == txs@[i as int]@);
                    assert(rest.drop_first() =~= txs_view(txs@).skip(i + 1));
                    assert((before + tx_requests(txs@[i as int]@)) + item_requests(
                        txs_view(txs@).skip(i + 1),
                    ) =~= before + (tx_requests(txs@[i as int]@) + item_requests(
                        txs_view(txs@).skip(i + 1),
                    )));
                }
                i += 1;
            }
            proof {
                assert(txs_view(txs@).skip(txs@.len() as int).len() == 0);
                assert(requests_view(out@) + item_requests(
                    txs_view(txs@).skip(txs@.len() as int),
                ) =~= requests_view(out@));
            }
        },
    }
    out
}

/// Checks one transaction: the key-change authorization rule, then the
/// off-chain signature, if one is present.
pub fn verify_eth_signature_single_tx(tx: &TxWithSignData, chain: &OnchainAnswers) -> (r: Result<
    (),
    TxAddError,
>)
    ensures
        r == single_tx_verdict(tx@, chain@),
{
    if let TxData::ChangePubKey(change_pk) = &tx.tx.data {
        if !change_pk.has_eth_signature {
            let authorized = chain.is_key_change_authorized(
                &tx.tx.account,
                change_pk.nonce,
                &change_pk.new_pk_hash,
            );
            if !authorized {
                return Err(TxAddError::ChangePkNotAuthorized);
            }
        }
    }
    if let Some(sign_data) = &tx.eth_sign_data {
        match &sign_data.signature {
            TxEthSignature::EthereumSignature(signature) => {
                match recover_signer(&sign_data.message, signature) {
                    Some(address) => {
                        if !bytes_eq(&address, &tx.tx.account) {
                            return Err(TxAddError::IncorrectEthSignature);
                        }
                    },
                    None => {
                        return Err(TxAddError::IncorrectEthSignature);
                    },
                }
            },
            TxEthSignature::EIP1271Signature(signature) => {
                let valid = chain.is_contract_signature_valid(
                    &tx.tx.account,
                    &sign_data.message,
                    signature,
                );
                if !valid {
                    return Err(TxAddError::IncorrectTx);
                }
            },
        }
    }
    Ok(())
}

/// Checks the batch-level authorization against every item's account.
pub fn verify_eth_signature_txs_batch(
    txs: &Vec<TxWithSignData>,
    batch_sign_data: &EthSignData,
    chain: &OnchainAnswers,
) -> (r: Result<(), TxAddError>)
    ensures
        r == batch_signature_verdict(txs_view(txs@), batch_sign_data@, chain@),
{
    match &batch_sign_data.signature {
        TxEthSignature::EthereumSignature(signature) => {
            match recover_signer(&batch_sign_data.message, signature) {
                None => Err(TxAddError::IncorrectEthSignature),
                Some(address) => {
                    let mut i: usize = 0;
                    while i < txs.len()
                        invariant
                            i <= txs.len(),
                            batch_sign_data@.signature == TxEthSignatureV::EthereumSignature(
                                signature@,
                            ),
                            recovered_signer(batch_sign_data@.message, signature@) == Some(
                                address@,
                            ),
                            forall|j: int|
                                0 <= j < i ==> (#[trigger] txs_view(txs@)[j]).tx.account
                                    == address@,
                        decreases txs.len() - i,
                    {
                        let same = bytes_eq(&txs[i].tx.account, &address);
                        proof {
                            assert(txs_view(txs@)[i as int] == txs@[i as int]@);
                        }
                        if !same {
                            proof {
                                assert(txs_view(txs@)[i as int].tx.account != address@);
                            }
                            return Err(TxAddError::IncorrectEthSignature);
                        }
                        i += 1;
                    }
                    Ok(())
                },
            }
        },
        TxEthSignature::EIP1271Signature(signature) => {
            let mut i: usize = 0;
            while i < txs.len()
                invariant
                    i <= txs.len(),
                    batch_sign_data@.signature == TxEthSignatureV::EIP1271Signature(signature@),
                    forall|j: int|
                        0 <= j < i ==> contract_signature_valid(
                            chain@,
                            ContractSigQueryV {
                                account: (#[trigger] txs_view(txs@)[j]).tx.account,
                                message: batch_sign_data@.message,
                                signature: signature@,
                            },
                        ),
                decreases txs.len() - i,
            {
                let valid = chain.is_contract_signature_valid(
                    &txs[i].tx.account,
                    &batch_sign_data.message,
                    signature,
                );
                proof {
                    assert(txs_view(txs@)[i as int] == txs@[i as int]@);
                }
                if !valid {
                    proof {
                        assert(!contract_signature_valid(
                            chain@,
                            ContractSigQueryV {
                                account: txs_view(txs@)[i as int].tx.account,
                                message: batch_sign_data@.message,
                                signature: signature@,
                            },
                        ));
                    }
                    return Err(TxAddError::IncorrectTx);
                }
                i += 1;
            }
            Ok(())
        },
    }
}

/// Checks the authorization of a whole payload: a single transaction on its
/// own; a batch at batch level first, then item by item in sequence order,
/// stopping at the first failure.
pub fn verify_eth_signature(request: &TxVariant, chain: &OnchainAnswers) -> (r: Result<
    (),
    TxAddError,
>)
    ensures
        r == authorization_verdict(request@, chain@),
{
    match request {
        TxVariant::Tx(tx) => verify_eth_signature_single_tx(tx, chain),
        TxVariant::Batch(txs, batch_sign_data) => {
            match verify_eth_signature_txs_batch(txs, &batch_sign_data.0, chain) {
                Err(e) => Err(e),
                Ok(()) => {
                    proof {
                        assert(txs_view(txs@).skip(0) =~= txs_view(txs@));
                    }
                    let mut i: usize = 0;
                    while i < txs.len()
                        invariant
                            i <= txs.len(),
                            request@ == TxVariantV::Batch(txs_view(txs@), batch_sign_data@),
                            batch_signature_verdict(txs_view(txs@), batch_sign_data@.0, chain@)
                                == Ok::<(), TxAddError>(()),
                            batch_items_verdict(txs_view(txs@).skip(i as int), chain@)
                                == batch_items_verdict(txs_view(txs@), chain@),
                        decreases txs.len() - i,
                    {
                        let item = verify_eth_signature_single_tx(&txs[i], chain);
                        proof {
                            let rest = txs_view(txs@).skip(i as int);
                            assert(rest[0] == txs@[i as int]@);
                            assert(rest.drop_first() =~= txs_view(txs@).skip(i + 1));
                        }
                        match item {
                            Err(e) => {
                                return Err(e);
                            },
                            Ok(()) => {},
                        }
                        i += 1;
                    }
                    proof {
                        assert(txs_view(txs@).skip(txs@.len() as int).len() == 0);
                    }
                    Ok(())
                },
            }
        },
    }
}

/// The correctness gate: checks the structural self-check answers, one per
/// transaction, and rejects the whole request on any failure.
pub fn verify_tx_correctness(validity: &Vec<bool>) -> (r: Result<(), TxAddError>)
    ensures
        r == correctness_verdict(validity@),
{
    let mut i: usize = 0;
    while i < validity.len()
        invariant
            i <= validity.len(),
            forall|j: int| 0 <= j < i ==> validity@[j],
        decreases validity.len() - i,
    {
        if !validity[i] {
            return Err(TxAddError::IncorrectTx);
        }
        i += 1;
    }
    Ok(())
}

/// A payload that passed verification: the only way to produce one is
/// [`VerifiedTx::verify`], so holding a `VerifiedTx` guarantees that the
/// verdict on its payload was `Ok`.
pub struct VerifiedTx(SignedTxVariant);

impl View for VerifiedTx {
    type V = SignedTxVariantV;

    closed spec fn view(&self) -> SignedTxVariantV {
        self.0@
    }
}

impl VerifiedTx {
    /// Runs the authorization check, then the correctness gate, and on success
    /// rebuilds the payload into its verified form. Returns `Ok` exactly when
    /// the [`verdict`] is `Ok`, and the verdict's rejection otherwise.
    pub fn verify(request: &TxVariant, chain: &OnchainAnswers, validity: &Vec<bool>) -> (r: Result<
        VerifiedTx,
        TxAddError,
    >)
        requires
            validity@.len() == payload_len(request@),
        ensures
            match r {
                Ok(verified) => verdict(request@, chain@, validity@) == Ok::<(), TxAddError>(())
                    && verified@ == verified_form(request@),
                Err(e) => verdict(request@, chain@, validity@) == Err::<(), TxAddError>(e),
            },
    {
        match verify_eth_signature(request, chain) {
            Err(e) => {
                return Err(e);
            },
            Ok(()) => {},
        }
        match verify_tx_correctness(validity) {
            Err(e) => {
                return Err(e);
            },
            Ok(()) => {},
        }
        match request {
            TxVariant::Tx(tx) => Ok(
                VerifiedTx(
                    SignedTxVariant::Tx(
                        SignedZkSyncTx {
                            tx: clone_tx(&tx.tx),
                            eth_sign_data: clone_opt_sign_data(&tx.eth_sign_data),
                        },
                    ),
                ),
            ),
            TxVariant::Batch(txs, batch_sign_data) => {
                let mut items: Vec<SignedZkSyncTx> = Vec::new();
                let mut i: usize = 0;
                while i < txs.len()
                    invariant
                        i <= txs.len(),
                        items@.len() == i,
                        forall|j: int|
                            0 <= j < i ==> (#[trigger] items@[j])@ == batch_verified_item(
                                txs_view(txs@)[j],
                            ),
                    decreases txs.len() - i,
                {
                    let item = SignedZkSyncTx { tx: clone_tx(&txs[i].tx), eth_sign_data: None };
                    proof {
                        assert(txs_view(txs@)[i as int] == txs@[i as int]@);
                    }
                    items.push(item);
                    i += 1;
                }
                let signature = clone_signature(&batch_sign_data.0.signature);
                proof {
                    assert(signed_txs_view(items@) =~= txs_view(txs@).map_values(
                        |t: TxWithSignDataV| batch_verified_item(t),
                    ));
                }
                Ok(VerifiedTx(SignedTxVariant::Batch(items, signature)))
            },
        }
    }

    /// Takes the single verified transaction out of the wrapper. The caller
    /// must know it submitted a single transaction: calling this on a verified
    /// batch is a contract violation, not a run-time case.
    pub fn unwrap_tx(self) -> (r: SignedZkSyncTx)
        requires
            self@ is Tx,
        ensures
            self@ == SignedTxVariantV::Tx(r@),
    {
        match self.0 {
            SignedTxVariant::Tx(tx) => tx,
            SignedTxVariant::Batch(_, _) => {
                proof {
                    assert(false);
                }
                unreached()
            },
        }
    }

    /// Takes the verified transactions and the batch-level signature out of
    /// the wrapper. The caller must know it submitted a batch: calling this on
    /// a verified single transaction is a contract violation, not a run-time
    /// case.
    pub fn unwrap_batch(self) -> (r: (Vec<SignedZkSyncTx>, TxEthSignature))
        requires
            self@ is Batch,
        ensures
            self@ == SignedTxVariantV::Batch(signed_txs_view(r.0@), r.1@),
    {
        match self.0 {
            SignedTxVariant::Batch(txs, signature) => (txs, signature),
            SignedTxVariant::Tx(_) => {
                proof {
                    assert(false);
                }
                unreached()
            },
        }
    }
}

} // verus!
