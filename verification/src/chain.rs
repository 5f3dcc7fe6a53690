//! The on-chain query capability, modelled by its answers.
//!
//! The chain is reached over the network, so the library never queries it
//! directly: the surrounding process asks exactly the queries that
//! [`crate::protocol::onchain_requests`] lists for a payload and records the
//! positive answers in an [`OnchainAnswers`]. A query absent from the record
//! counts as answered negatively. The two lookup functions below are the
//! verified counterparts of the capability's `is_key_change_authorized` and
//! `is_contract_signature_valid`.

use crate::data::bytes_eq;
use vstd::prelude::*;

verus! {

/// A key-change authorization query: was this change of the signing key of
/// `account` at `nonce` to `new_pk_hash` authorized by a prior on-chain
/// action?
pub struct KeyChangeQuery {
    pub account: Vec<u8>,
    pub nonce: u64,
    pub new_pk_hash: Vec<u8>,
}

/// Spec-level counterpart of [`KeyChangeQuery`].
#[verifier::ext_equal]
pub struct KeyChangeQueryV {
    pub account: Seq<u8>,
    pub nonce: u64,
    pub new_pk_hash: Seq<u8>,
}

impl View for KeyChangeQuery {
    type V = KeyChangeQueryV;

    open spec fn view(&self) -> KeyChangeQueryV {
        KeyChangeQueryV {
            account: self.account@,
            nonce: self.nonce,
            new_pk_hash: self.new_pk_hash@,
        }
    }
}

/// A contract-validated signature query: does the on-chain logic of `account`
/// accept `signature` for `message`?
pub struct ContractSigQuery {
    pub account: Vec<u8>,
    pub message: Vec<u8>,
    pub signature: Vec<u8>,
}

/// Spec-level counterpart of [`ContractSigQuery`].
#[verifier::ext_equal]
pub struct ContractSigQueryV {
    pub account: Seq<u8>,
    pub message: Seq<u8>,
    pub signature: Seq<u8>,
}

impl View for ContractSigQuery {
    type V = ContractSigQueryV;

    open spec fn view(&self) -> ContractSigQueryV {
        ContractSigQueryV {
            account: self.account@,
            message: self.message@,
            signature: self.signature@,
        }
    }
}

/// One query that must be put to the on-chain capability before a payload can
/// be verified.
pub enum OnchainRequest {
    KeyChangeAuthorized(KeyChangeQuery),
    ContractSignatureValid(ContractSigQuery),
}

/// Spec-level counterpart of [`OnchainRequest`].
#[verifier::ext_equal]
pub enum OnchainRequestV {
    KeyChangeAuthorized(KeyChangeQueryV),
    ContractSignatureValid(ContractSigQueryV),
}

impl View for OnchainRequest {
    type V = OnchainRequestV;

    open spec fn view(&self) -> OnchainRequestV {
        match self {
            OnchainRequest::KeyChangeAuthorized(q) => OnchainRequestV::KeyChangeAuthorized(q@),
            OnchainRequest::ContractSignatureValid(q) => OnchainRequestV::ContractSignatureValid(
                q@,
            ),
        }
    }
}

/// The positive answers gathered from the on-chain query capability for one
/// payload: the key-change authorizations and the contract-validated
/// signatures that the chain reported as good.
pub struct OnchainAnswers {
    pub authorized_key_changes: Vec<KeyChangeQuery>,
    pub valid_contract_signatures: Vec<ContractSigQuery>,
}

/// Spec-level counterpart of [`OnchainAnswers`].
#[verifier::ext_equal]
pub struct OnchainAnswersV {
    pub authorized_key_changes: Seq<KeyChangeQueryV>,
    pub valid_contract_signatures: Seq<ContractSigQueryV>,
}

impl View for OnchainAnswers {
    type V = OnchainAnswersV;

    open spec fn view(&self) -> OnchainAnswersV {
        OnchainAnswersV {
            authorized_key_changes: self.authorized_key_changes@.map_values(
                |q: KeyChangeQuery| q@,
            ),
            valid_contract_signatures: self.valid_contract_signatures@.map_values(
                |q: ContractSigQuery| q@,
            ),
        }
    }
}

/// Whether the chain reported this key change as authorized.
pub open spec fn key_change_authorized(chain: OnchainAnswersV, query: KeyChangeQueryV) -> bool {
    chain.authorized_key_changes.contains(query)
}

/// Whether the chain reported this contract-validated signature as good.
pub open spec fn contract_signature_valid(chain: OnchainAnswersV, query: ContractSigQueryV) -> bool {
    chain.valid_contract_signatures.contains(query)
}

impl OnchainAnswers {
    /// An empty record: every query counts as answered negatively.
    pub fn new() -> (r: OnchainAnswers)
        ensures
            r@.authorized_key_changes.len() == 0,
            r@.valid_contract_signatures.len() == 0,
    {
        OnchainAnswers { authorized_key_changes: Vec::new(), valid_contract_signatures: Vec::new() }
    }

    /// The verified counterpart of `is_key_change_authorized(account, nonce,
    /// new_key_hash)`: looks the query up among the recorded positive answers.
    pub fn is_key_change_authorized(&self, account: &Vec<u8>, nonce: u64, new_pk_hash: &Vec<u8>) -> (r:
        bool)
        ensures
            r == key_change_authorized(
                self@,
                KeyChangeQueryV { account: account@, nonce, new_pk_hash: new_pk_hash@ },
            ),
    {
        let ghost query = KeyChangeQueryV { account: account@, nonce, new_pk_hash: new_pk_hash@ };
        let mut i: usize = 0;
        while i < self.authorized_key_changes.len()
            invariant
                i <= self.authorized_key_changes.len(),
                query == (KeyChangeQueryV { account: account@, nonce, new_pk_hash: new_pk_hash@ }),
                forall|j: int|
                    0 <= j < i ==> self@.authorized_key_changes[j] != query,
                self@.authorized_key_changes == self.authorized_key_changes@.map_values(
                    |q: KeyChangeQuery| q@,
                ),
            decreases self.authorized_key_changes.len() - i,
        {
            let entry = &self.authorized_key_changes[i];
            let nonce_eq = entry.nonce == nonce;
            let account_eq = bytes_eq(&entry.account, account);
            let hash_eq = bytes_eq(&entry.new_pk_hash, new_pk_hash);
            proof {
                assert(self@.authorized_key_changes[i as int] == entry@);
                if nonce_eq && account_eq && hash_eq {
                    assert(entry@ =~= query);
                } else {
                    assert(entry@ != query);
                }
            }
            if nonce_eq && account_eq && hash_eq {
                proof {
                    assert(self@.authorized_key_changes.contains(query)) by {
                        assert(self@.authorized_key_changes[i as int] == query);
                    }
                }
                return true;
            }
            i += 1;
        }
        proof {
            assert(!self@.authorized_key_changes.contains(query));
        }
        false
    }

    /// The verified counterpart of `is_contract_signature_valid(account,
    /// message, signature)`: looks the query up among the recorded positive
    /// answers.
    pub fn is_contract_signature_valid(
        &self,
        account: &Vec<u8>,
        message: &Vec<u8>,
        signature: &Vec<u8>,
    ) -> (r: bool)
        ensures
            r == contract_signature_valid(
                self@,
                ContractSigQueryV { account: account@, message: message@, signature: signature@ },
            ),
    {
        let ghost query = ContractSigQueryV {
            account: account@,
            message: message@,
            signature: signature@,
        };
        let mut i: usize = 0;
        while i < self.valid_contract_signatures.len()
            invariant
                i <= self.valid_contract_signatures.len(),
                query == (ContractSigQueryV {
                    account: account@,
                    message: message@,
                    signature: signature@,
                }),
                forall|j: int|
                    0 <= j < i ==> self@.valid_contract_signatures[j] != query,
                self@.valid_contract_signatures == self.valid_contract_signatures@.map_values(
                    |q: ContractSigQuery| q@,
                ),
            decreases self.valid_contract_signatures.len() - i,
        {
            let entry = &self.valid_contract_signatures[i];
            let account_eq = bytes_eq(&entry.account, account);
            let message_eq = bytes_eq(&entry.message, message);
            let signature_eq = bytes_eq(&entry.signature, signature);
            proof {
                assert(self@.valid_contract_signatures[i as int] == entry@);
                if account_eq && message_eq && signature_eq {
                    assert(entry@ =~= query);
                } else {
                    assert(entry@ != query);
                }
            }
            if account_eq && message_eq && signature_eq {
                proof {
                    assert(self@.valid_contract_signatures.contains(query)) by {
                        assert(self@.valid_contract_signatures[i as int] == query);
                    }
                }
                return true;
            }
            i += 1;
        }
        proof {
            assert(!self@.valid_contract_signatures.contains(query));
        }
        false
    }
}

} // verus!
