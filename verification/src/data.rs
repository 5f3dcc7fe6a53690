//! The transaction data model: what the verification protocol reads of a
//! transaction, its optional off-chain authorization, and the verified forms.
//!
//! Every executable type has a spec-level counterpart (suffixed `V`) over
//! `Seq<u8>`, reached through [`View`]; all contracts are stated over those.

use vstd::prelude::*;

verus! {

/// An off-chain authorization: either an address-recoverable (ECDSA-style)
/// packed signature, or a contract-validated (EIP-1271-style) signature whose
/// validity only on-chain logic can decide.
pub enum TxEthSignature {
    EthereumSignature(Vec<u8>),
    EIP1271Signature(Vec<u8>),
}

/// Spec-level counterpart of [`TxEthSignature`].
#[verifier::ext_equal]
pub enum TxEthSignatureV {
    EthereumSignature(Seq<u8>),
    EIP1271Signature(Seq<u8>),
}

impl View for TxEthSignature {
    type V = TxEthSignatureV;

    open spec fn view(&self) -> TxEthSignatureV {
        match self {
            TxEthSignature::EthereumSignature(s) => TxEthSignatureV::EthereumSignature(s@),
            TxEthSignature::EIP1271Signature(s) => TxEthSignatureV::EIP1271Signature(s@),
        }
    }
}

/// A signature together with the message the user was asked to sign.
pub struct EthSignData {
    pub signature: TxEthSignature,
    pub message: Vec<u8>,
}

/// Spec-level counterpart of [`EthSignData`].
#[verifier::ext_equal]
pub struct EthSignDataV {
    pub signature: TxEthSignatureV,
    pub message: Seq<u8>,
}

impl View for EthSignData {
    type V = EthSignDataV;

    open spec fn view(&self) -> EthSignDataV {
        EthSignDataV { signature: self.signature@, message: self.message@ }
    }
}

/// Spec-level counterpart of `Option<EthSignData>`.
pub open spec fn sign_data_view(sign_data: Option<EthSignData>) -> Option<EthSignDataV> {
    match sign_data {
        Some(s) => Some(s@),
        None => None,
    }
}

/// What a key-change operation carries besides its account: the account nonce,
/// the hash of the new signing key, and whether the operation embeds its own
/// on-chain-relevant signature (when it does not, a prior on-chain action must
/// have authorized the change).
pub struct ChangePubKeyData {
    pub nonce: u64,
    pub new_pk_hash: Vec<u8>,
    pub has_eth_signature: bool,
}

/// Spec-level counterpart of [`ChangePubKeyData`].
#[verifier::ext_equal]
pub struct ChangePubKeyDataV {
    pub nonce: u64,
    pub new_pk_hash: Seq<u8>,
    pub has_eth_signature: bool,
}

impl View for ChangePubKeyData {
    type V = ChangePubKeyDataV;

    open spec fn view(&self) -> ChangePubKeyDataV {
        ChangePubKeyDataV {
            nonce: self.nonce,
            new_pk_hash: self.new_pk_hash@,
            has_eth_signature: self.has_eth_signature,
        }
    }
}

/// The part of a transaction the protocol inspects: key-change operations are
/// singled out, every other operation only contributes its account.
pub enum TxData {
    ChangePubKey(ChangePubKeyData),
    Other,
}

/// Spec-level counterpart of [`TxData`].
#[verifier::ext_equal]
pub enum TxDataV {
    ChangePubKey(ChangePubKeyDataV),
    Other,
}

impl View for TxData {
    type V = TxDataV;

    open spec fn view(&self) -> TxDataV {
        match self {
            TxData::ChangePubKey(c) => TxDataV::ChangePubKey(c@),
            TxData::Other => TxDataV::Other,
        }
    }
}

/// A transaction: its declared account address (raw bytes) and the operation
/// data the protocol reads.
pub struct Tx {
    pub account: Vec<u8>,
    pub data: TxData,
}

/// Spec-level counterpart of [`Tx`].
#[verifier::ext_equal]
pub struct TxV {
    pub account: Seq<u8>,
    pub data: TxDataV,
}

impl View for Tx {
    type V = TxV;

    open spec fn view(&self) -> TxV {
        TxV { account: self.account@, data: self.data@ }
    }
}

/// A yet unverified transaction with its optional off-chain authorization:
/// the signature and the message the user should have signed. `None` when no
/// off-chain signature is required.
pub struct TxWithSignData {
    pub tx: Tx,
    pub eth_sign_data: Option<EthSignData>,
}

/// Spec-level counterpart of [`TxWithSignData`].
#[verifier::ext_equal]
pub struct TxWithSignDataV {
    pub tx: TxV,
    pub eth_sign_data: Option<EthSignDataV>,
}

impl View for TxWithSignData {
    type V = TxWithSignDataV;

    open spec fn view(&self) -> TxWithSignDataV {
        TxWithSignDataV { tx: self.tx@, eth_sign_data: sign_data_view(self.eth_sign_data) }
    }
}

/// The authorization claimed to cover a whole batch as one unit: one signature
/// over one batch message.
pub struct BatchSignData(pub EthSignData);

/// Spec-level counterpart of [`BatchSignData`].
#[verifier::ext_equal]
pub struct BatchSignDataV(pub EthSignDataV);

impl View for BatchSignData {
    type V = BatchSignDataV;

    open spec fn view(&self) -> BatchSignDataV {
        BatchSignDataV(self.0@)
    }
}

/// A verification request's payload: either a single transaction, or an
/// ordered batch of transactions under one batch-level authorization.
pub enum TxVariant {
    Tx(TxWithSignData),
    Batch(Vec<TxWithSignData>, BatchSignData),
}

/// Spec-level counterpart of [`TxVariant`].
#[verifier::ext_equal]
pub enum TxVariantV {
    Tx(TxWithSignDataV),
    Batch(Seq<TxWithSignDataV>, BatchSignDataV),
}

impl View for TxVariant {
    type V = TxVariantV;

    open spec fn view(&self) -> TxVariantV {
        match self {
            TxVariant::Tx(tx) => TxVariantV::Tx(tx@),
            TxVariant::Batch(txs, batch) => TxVariantV::Batch(
                txs@.map_values(|t: TxWithSignData| t@),
                batch@,
            ),
        }
    }
}

/// A transaction that passed verification, with the authorization data it is
/// associated with from then on.
pub struct SignedZkSyncTx {
    pub tx: Tx,
    pub eth_sign_data: Option<EthSignData>,
}

/// Spec-level counterpart of [`SignedZkSyncTx`].
#[verifier::ext_equal]
pub struct SignedZkSyncTxV {
    pub tx: TxV,
    pub eth_sign_data: Option<EthSignDataV>,
}

impl View for SignedZkSyncTx {
    type V = SignedZkSyncTxV;

    open spec fn view(&self) -> SignedZkSyncTxV {
        SignedZkSyncTxV { tx: self.tx@, eth_sign_data: sign_data_view(self.eth_sign_data) }
    }
}

/// The verified form of a payload. A verified batch keeps only the batch-level
/// signature: the per-item signatures served their purpose during verification
/// and are discarded.
pub enum SignedTxVariant {
    Tx(SignedZkSyncTx),
    Batch(Vec<SignedZkSyncTx>, TxEthSignature),
}

/// Spec-level counterpart of [`SignedTxVariant`].
#[verifier::ext_equal]
pub enum SignedTxVariantV {
    Tx(SignedZkSyncTxV),
    Batch(Seq<SignedZkSyncTxV>, TxEthSignatureV),
}

impl View for SignedTxVariant {
    type V = SignedTxVariantV;

    open spec fn view(&self) -> SignedTxVariantV {
        match self {
            SignedTxVariant::Tx(tx) => SignedTxVariantV::Tx(tx@),
            SignedTxVariant::Batch(txs, signature) => SignedTxVariantV::Batch(
                txs@.map_values(|t: SignedZkSyncTx| t@),
                signature@,
            ),
        }
    }
}

/// The rejections the verification protocol can produce. A key change without
/// an off-chain signature that no prior on-chain action authorized is
/// `ChangePkNotAuthorized`; a recoverable signature that does not recover to
/// the declared account is `IncorrectEthSignature`; a failed contract-validated
/// signature check or a failed structural self-check is `IncorrectTx`.
#[derive(Clone, Copy, Debug, PartialEq, Eq, Structural)]
pub enum TxAddError {
    ChangePkNotAuthorized,
    IncorrectEthSignature,
    IncorrectTx,
}

/// Compares two byte vectors by contents.
pub fn bytes_eq(a: &Vec<u8>, b: &Vec<u8>) -> (r: bool)
    ensures
        r == (a@ == b@),
{
    if a.len() != b.len() {
        proof {
            assert(a@ != b@);
        }
        return false;
    }
    let mut i: usize = 0;
    while i < a.len()
        invariant
            i <= a.len(),
            a@.len() == b@.len(),
            forall|j: int| 0 <= j < i ==> a@[j] == b@[j],
        decreases a.len() - i,
    {
        if a[i] != b[i] {
            return false;
        }
        i += 1;
    }
    proof {
        assert(a@ =~= b@);
    }
    true
}

/// Copies a byte vector.
pub fn clone_bytes(v: &Vec<u8>) -> (r: Vec<u8>)
    ensures
        r@ == v@,
{
    let mut r: Vec<u8> = Vec::new();
    let mut i: usize = 0;
    while i < v.len()
        invariant
            i <= v.len(),
            r@ == v@.subrange(0, i as int),
        decreases v.len() - i,
    {
        r.push(v[i]);
        i += 1;
    }
    proof {
        assert(v@.subrange(0, v@.len() as int) =~= v@);
    }
    r
}

/// Copies a transaction.
pub fn clone_tx(tx: &Tx) -> (r: Tx)
    ensures
        r@ == tx@,
{
    let data = match &tx.data {
        TxData::ChangePubKey(c) => TxData::ChangePubKey(ChangePubKeyData {
            nonce: c.nonce,
            new_pk_hash: clone_bytes(&c.new_pk_hash),
            has_eth_signature: c.has_eth_signature,
        }),
        TxData::Other => TxData::Other,
    };
    Tx { account: clone_bytes(&tx.account), data }
}

/// Copies an off-chain authorization.
pub fn clone_signature(signature: &TxEthSignature) -> (r: TxEthSignature)
    ensures
        r@ == signature@,
{
    match signature {
        TxEthSignature::EthereumSignature(s) => TxEthSignature::EthereumSignature(clone_bytes(s)),
        TxEthSignature::EIP1271Signature(s) => TxEthSignature::EIP1271Signature(clone_bytes(s)),
    }
}

/// Copies a signature together with its signed message.
pub fn clone_sign_data(sign_data: &EthSignData) -> (r: EthSignData)
    ensures
        r@ == sign_data@,
{
    EthSignData {
        signature: clone_signature(&sign_data.signature),
        message: clone_bytes(&sign_data.message),
    }
}

/// Copies an optional signature-with-message.
pub fn clone_opt_sign_data(sign_data: &Option<EthSignData>) -> (r: Option<EthSignData>)
    ensures
        sign_data_view(r) == sign_data_view(*sign_data),
{
    match sign_data {
        Some(s) => Some(clone_sign_data(s)),
        None => None,
    }
}

} // verus!
