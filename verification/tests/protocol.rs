use signature_checker::chain::{ContractSigQuery, KeyChangeQuery, OnchainAnswers, OnchainRequest};
use signature_checker::data::{
    BatchSignData, ChangePubKeyData, EthSignData, Tx, TxAddError, TxData, TxEthSignature,
    TxVariant, TxWithSignData,
};
use signature_checker::protocol::{onchain_requests, VerifiedTx};
use web3::signing::{Key, SecretKey, SecretKeyRef};

fn secret_key(byte: u8) -> SecretKey {
    SecretKey::from_slice(&[byte; 32]).expect("valid key bytes")
}

fn key_address(key: &SecretKey) -> Vec<u8> {
    SecretKeyRef::new(key).address().as_bytes().to_vec()
}

/// A packed 65-byte `r || s || v` signature over the EIP-191 envelope of the
/// message, as a user wallet would produce it.
fn sign_packed(key: &SecretKey, message: &[u8]) -> Vec<u8> {
    let hash = web3::signing::hash_message(message);
    let signature = SecretKeyRef::new(key).sign(hash.as_bytes(), None).expect("signing works");
    let mut packed = Vec::new();
    packed.extend_from_slice(signature.r.as_bytes());
    packed.extend_from_slice(signature.s.as_bytes());
    packed.push(signature.v as u8);
    packed
}

fn plain_tx(account: Vec<u8>) -> TxWithSignData {
    TxWithSignData { tx: Tx { account, data: TxData::Other }, eth_sign_data: None }
}

fn recoverable_tx(account: Vec<u8>, message: Vec<u8>, packed: Vec<u8>) -> TxWithSignData {
    TxWithSignData {
        tx: Tx { account, data: TxData::Other },
        eth_sign_data: Some(EthSignData {
            signature: TxEthSignature::EthereumSignature(packed),
            message,
        }),
    }
}

fn assert_same_tx(left: &Tx, right: &Tx) {
    assert_eq!(left.account, right.account);
    match (&left.data, &right.data) {
        (TxData::Other, TxData::Other) => {}
        (TxData::ChangePubKey(a), TxData::ChangePubKey(b)) => {
            assert_eq!(a.nonce, b.nonce);
            assert_eq!(a.new_pk_hash, b.new_pk_hash);
            assert_eq!(a.has_eth_signature, b.has_eth_signature);
        }
        _ => panic!("transaction kinds differ"),
    }
}

#[test]
fn single_recoverable_signature_matching_account_is_accepted() {
    let key = secret_key(0x11);
    let account = key_address(&key);
    let message = b"confirm transfer 7".to_vec();
    let packed = sign_packed(&key, &message);
    let payload = TxVariant::Tx(recoverable_tx(account.clone(), message, packed));
    let chain = OnchainAnswers::new();

    let verified = VerifiedTx::verify(&payload, &chain, &vec![true]).expect("valid signature");
    let signed = verified.unwrap_tx();
    assert_eq!(signed.tx.account, account);
    assert!(signed.eth_sign_data.is_some());
}

#[test]
fn single_recoverable_signature_wrong_account_is_rejected() {
    let key = secret_key(0x11);
    let message = b"confirm transfer 7".to_vec();
    let packed = sign_packed(&key, &message);
    let other_account = vec![0xab; 20];
    assert_ne!(other_account, key_address(&key));
    let payload = TxVariant::Tx(recoverable_tx(other_account, message, packed));
    let chain = OnchainAnswers::new();

    let outcome = VerifiedTx::verify(&payload, &chain, &vec![true]);
    assert!(matches!(outcome, Err(TxAddError::IncorrectEthSignature)));
}

#[test]
fn single_recoverable_signature_tampered_message_is_rejected() {
    let key = secret_key(0x11);
    let account = key_address(&key);
    let packed = sign_packed(&key, b"what was signed");
    let payload = TxVariant::Tx(recoverable_tx(account, b"what is claimed".to_vec(), packed));
    let chain = OnchainAnswers::new();

    let outcome = VerifiedTx::verify(&payload, &chain, &vec![true]);
    assert!(matches!(outcome, Err(TxAddError::IncorrectEthSignature)));
}

#[test]
fn single_malformed_signature_is_rejected() {
    let payload = TxVariant::Tx(recoverable_tx(vec![0x22; 20], b"msg".to_vec(), vec![0u8; 64]));
    let chain = OnchainAnswers::new();

    let outcome = VerifiedTx::verify(&payload, &chain, &vec![true]);
    assert!(matches!(outcome, Err(TxAddError::IncorrectEthSignature)));
}

fn key_change_tx(account: Vec<u8>, nonce: u64, new_pk_hash: Vec<u8>) -> TxWithSignData {
    TxWithSignData {
        tx: Tx {
            account,
            data: TxData::ChangePubKey(ChangePubKeyData {
                nonce,
                new_pk_hash,
                has_eth_signature: false,
            }),
        },
        eth_sign_data: None,
    }
}

#[test]
fn key_change_without_signature_accepted_when_chain_authorized_it() {
    let account = vec![0x33; 20];
    let new_pk_hash = vec![0x44; 20];
    let payload = TxVariant::Tx(key_change_tx(account.clone(), 5, new_pk_hash.clone()));
    let mut chain = OnchainAnswers::new();
    chain.authorized_key_changes.push(KeyChangeQuery { account, nonce: 5, new_pk_hash });

    let verified = VerifiedTx::verify(&payload, &chain, &vec![true]).expect("authorized on-chain");
    let signed = verified.unwrap_tx();
    assert!(signed.eth_sign_data.is_none());
}

#[test]
fn key_change_without_signature_rejected_when_chain_did_not_authorize_it() {
    let payload = TxVariant::Tx(key_change_tx(vec![0x33; 20], 5, vec![0x44; 20]));
    let mut chain = OnchainAnswers::new();
    // A different nonce was authorized: the query the item needs is absent.
    chain.authorized_key_changes.push(KeyChangeQuery {
        account: vec![0x33; 20],
        nonce: 6,
        new_pk_hash: vec![0x44; 20],
    });

    let outcome = VerifiedTx::verify(&payload, &chain, &vec![true]);
    assert!(matches!(outcome, Err(TxAddError::ChangePkNotAuthorized)));
}

#[test]
fn contract_validated_signature_accepted_when_chain_accepts_it() {
    let account = vec![0x55; 20];
    let message = b"contract account message".to_vec();
    let signature = vec![0x66; 12];
    let payload = TxVariant::Tx(TxWithSignData {
        tx: Tx { account: account.clone(), data: TxData::Other },
        eth_sign_data: Some(EthSignData {
            signature: TxEthSignature::EIP1271Signature(signature.clone()),
            message: message.clone(),
        }),
    });
    let mut chain = OnchainAnswers::new();
    chain.valid_contract_signatures.push(ContractSigQuery { account, message, signature });

    assert!(VerifiedTx::verify(&payload, &chain, &vec![true]).is_ok());
}

#[test]
fn contract_validated_signature_rejected_as_incorrect_tx() {
    // The taxonomy is asymmetric on purpose: a failed contract-validated check
    // is IncorrectTx, not IncorrectEthSignature.
    let payload = TxVariant::Tx(TxWithSignData {
        tx: Tx { account: vec![0x55; 20], data: TxData::Other },
        eth_sign_data: Some(EthSignData {
            signature: TxEthSignature::EIP1271Signature(vec![0x66; 12]),
            message: b"contract account message".to_vec(),
        }),
    });
    let chain = OnchainAnswers::new();

    let outcome = VerifiedTx::verify(&payload, &chain, &vec![true]);
    assert!(matches!(outcome, Err(TxAddError::IncorrectTx)));
}

#[test]
fn structurally_invalid_single_tx_is_rejected() {
    let payload = TxVariant::Tx(plain_tx(vec![0x77; 20]));
    let chain = OnchainAnswers::new();

    let outcome = VerifiedTx::verify(&payload, &chain, &vec![false]);
    assert!(matches!(outcome, Err(TxAddError::IncorrectTx)));
}

fn recoverable_batch(key: &SecretKey, accounts: Vec<Vec<u8>>) -> (TxVariant, usize) {
    let txs: Vec<TxWithSignData> = accounts.into_iter().map(plain_tx).collect();
    let n = txs.len();
    let message = b"batch of transfers".to_vec();
    let packed = sign_packed(key, &message);
    let batch = BatchSignData(EthSignData {
        signature: TxEthSignature::EthereumSignature(packed),
        message,
    });
    (TxVariant::Batch(txs, batch), n)
}

#[test]
fn batch_signer_shared_by_all_items_is_accepted() {
    let key = secret_key(0x21);
    let account = key_address(&key);
    let (payload, n) = recoverable_batch(&key, vec![account.clone(), account.clone()]);
    let chain = OnchainAnswers::new();

    let verified = VerifiedTx::verify(&payload, &chain, &vec![true; n]).expect("batch verifies");
    let (items, signature) = verified.unwrap_batch();
    assert_eq!(items.len(), 2);
    for item in &items {
        assert_eq!(item.tx.account, account);
        // The per-item signature slot is discarded in a verified batch.
        assert!(item.eth_sign_data.is_none());
    }
    assert!(matches!(signature, TxEthSignature::EthereumSignature(_)));
}

#[test]
fn batch_signer_not_shared_by_all_items_is_rejected() {
    let key = secret_key(0x21);
    let account = key_address(&key);
    let (payload, n) = recoverable_batch(&key, vec![account, vec![0x99; 20]]);
    let chain = OnchainAnswers::new();

    let outcome = VerifiedTx::verify(&payload, &chain, &vec![true; n]);
    assert!(matches!(outcome, Err(TxAddError::IncorrectEthSignature)));
}

#[test]
fn batch_with_one_structurally_invalid_item_is_rejected() {
    let key = secret_key(0x21);
    let account = key_address(&key);
    let (payload, n) = recoverable_batch(&key, vec![account; 5]);
    let chain = OnchainAnswers::new();
    // The batch-level check passes, but item 3 of 5 fails the self-check.
    let validity = vec![true, true, false, true, true];
    assert_eq!(validity.len(), n);

    let outcome = VerifiedTx::verify(&payload, &chain, &validity);
    assert!(matches!(outcome, Err(TxAddError::IncorrectTx)));
}

#[test]
fn batch_item_with_own_bad_signature_fails_after_batch_level_check() {
    let key = secret_key(0x21);
    let account = key_address(&key);
    let message = b"batch of transfers".to_vec();
    let packed = sign_packed(&key, &message);
    // Item 2 carries its own recoverable signature made by a different key.
    let stranger = secret_key(0x22);
    let item_message = b"item two".to_vec();
    let item_packed = sign_packed(&stranger, &item_message);
    let txs = vec![
        plain_tx(account.clone()),
        recoverable_tx(account.clone(), item_message, item_packed),
    ];
    let batch = BatchSignData(EthSignData {
        signature: TxEthSignature::EthereumSignature(packed),
        message,
    });
    let payload = TxVariant::Batch(txs, batch);
    let chain = OnchainAnswers::new();

    let outcome = VerifiedTx::verify(&payload, &chain, &vec![true, true]);
    assert!(matches!(outcome, Err(TxAddError::IncorrectEthSignature)));
}

fn contract_validated_batch(accounts: &[Vec<u8>]) -> (TxVariant, Vec<u8>, Vec<u8>) {
    let txs: Vec<TxWithSignData> = accounts.iter().cloned().map(plain_tx).collect();
    let message = b"contract batch".to_vec();
    let signature = vec![0xf0; 10];
    let batch = BatchSignData(EthSignData {
        signature: TxEthSignature::EIP1271Signature(signature.clone()),
        message: message.clone(),
    });
    (TxVariant::Batch(txs, batch), message, signature)
}

#[test]
fn contract_validated_batch_accepted_when_chain_accepts_every_account() {
    let accounts = vec![vec![0x61; 20], vec![0x62; 20]];
    let (payload, message, signature) = contract_validated_batch(&accounts);
    let mut chain = OnchainAnswers::new();
    for account in &accounts {
        chain.valid_contract_signatures.push(ContractSigQuery {
            account: account.clone(),
            message: message.clone(),
            signature: signature.clone(),
        });
    }

    assert!(VerifiedTx::verify(&payload, &chain, &vec![true, true]).is_ok());
}

#[test]
fn contract_validated_batch_rejected_when_one_account_is_refused() {
    let accounts = vec![vec![0x61; 20], vec![0x62; 20]];
    let (payload, message, signature) = contract_validated_batch(&accounts);
    let mut chain = OnchainAnswers::new();
    // Only the first account's contract accepts the batch signature.
    chain.valid_contract_signatures.push(ContractSigQuery {
        account: accounts[0].clone(),
        message,
        signature,
    });

    let outcome = VerifiedTx::verify(&payload, &chain, &vec![true, true]);
    assert!(matches!(outcome, Err(TxAddError::IncorrectTx)));
}

#[test]
fn round_trip_single_keeps_transaction_contents() {
    let key = secret_key(0x31);
    let account = key_address(&key);
    let message = b"round trip".to_vec();
    let packed = sign_packed(&key, &message);
    let input = recoverable_tx(account, message.clone(), packed.clone());
    let payload = TxVariant::Tx(TxWithSignData {
        tx: Tx { account: input.tx.account.clone(), data: TxData::Other },
        eth_sign_data: Some(EthSignData {
            signature: TxEthSignature::EthereumSignature(packed.clone()),
            message: message.clone(),
        }),
    });
    let chain = OnchainAnswers::new();

    let verified = VerifiedTx::verify(&payload, &chain, &vec![true]).expect("verifies");
    let signed = verified.unwrap_tx();
    assert_same_tx(&signed.tx, &input.tx);
    let sign_data = signed.eth_sign_data.expect("single keeps its authorization data");
    assert_eq!(sign_data.message, message);
    match sign_data.signature {
        TxEthSignature::EthereumSignature(bytes) => assert_eq!(bytes, packed),
        TxEthSignature::EIP1271Signature(_) => panic!("signature scheme changed"),
    }
}

#[test]
fn onchain_requests_lists_batch_level_queries_then_item_queries() {
    let account_a = vec![0xa1; 20];
    let account_b = vec![0xb2; 20];
    let batch_message = b"batch message".to_vec();
    let batch_signature = vec![0xc3; 12];
    let txs = vec![
        key_change_tx(account_a.clone(), 9, vec![0xd4; 20]),
        TxWithSignData {
            tx: Tx { account: account_b.clone(), data: TxData::Other },
            eth_sign_data: Some(EthSignData {
                signature: TxEthSignature::EIP1271Signature(vec![0xe5; 8]),
                message: b"item message".to_vec(),
            }),
        },
    ];
    let batch = BatchSignData(EthSignData {
        signature: TxEthSignature::EIP1271Signature(batch_signature.clone()),
        message: batch_message.clone(),
    });
    let payload = TxVariant::Batch(txs, batch);

    let requests = onchain_requests(&payload);
    assert_eq!(requests.len(), 4);
    match &requests[0] {
        OnchainRequest::ContractSignatureValid(q) => {
            assert_eq!(q.account, account_a);
            assert_eq!(q.message, batch_message);
            assert_eq!(q.signature, batch_signature);
        }
        OnchainRequest::KeyChangeAuthorized(_) => panic!("batch-level query expected first"),
    }
    match &requests[1] {
        OnchainRequest::ContractSignatureValid(q) => assert_eq!(q.account, account_b),
        OnchainRequest::KeyChangeAuthorized(_) => panic!("batch-level query expected first"),
    }
    match &requests[2] {
        OnchainRequest::KeyChangeAuthorized(q) => {
            assert_eq!(q.account, account_a);
            assert_eq!(q.nonce, 9);
        }
        OnchainRequest::ContractSignatureValid(_) => panic!("key-change query expected"),
    }
    match &requests[3] {
        OnchainRequest::ContractSignatureValid(q) => {
            assert_eq!(q.account, account_b);
            assert_eq!(q.message, b"item message".to_vec());
        }
        OnchainRequest::KeyChangeAuthorized(_) => panic!("item query expected"),
    }
}

#[test]
fn recover_signer_finds_the_signing_address() {
    let key = secret_key(0x41);
    let message = b"prove it".to_vec();
    let packed = sign_packed(&key, &message);

    let recovered = signature_checker::crypto::recover_signer(&message, &packed);
    assert_eq!(recovered, Some(key_address(&key)));

    let mut tampered = packed.clone();
    tampered[0] ^= 0x01;
    let other = signature_checker::crypto::recover_signer(&message, &tampered);
    assert_ne!(other, Some(key_address(&key)));

    assert_eq!(signature_checker::crypto::recover_signer(&message, &vec![0u8; 65]), None);
    assert_eq!(signature_checker::crypto::recover_signer(&message, &packed[..64].to_vec()), None);
}
