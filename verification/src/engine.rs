//! The request envelope of the dispatch engine.
//!
//! A [`VerifyTxSignatureRequest`] pairs a payload with a single-use reply
//! channel. The engine's worker loop itself is asynchronous plumbing and lives
//! outside the library; per request it gathers the on-chain answers and the
//! structural self-check answers, and then calls [`respond`], which runs the
//! verified protocol and sends the outcome back.

use crate::chain::OnchainAnswers;
use crate::data::{TxAddError, TxVariant};
use crate::protocol::{payload_len, VerifiedTx};
use vstd::prelude::*;

verus! {

/// Relies on `futures::channel::oneshot::Sender`, the sending half of a
/// single-use reply channel; the library only carries such a value through and
/// hands it to [`send_response`].
#[verifier::external_type_specification]
#[verifier::external_body]
#[verifier::reject_recursive_types(T)]
pub struct ExOneshotSender<T>(futures::channel::oneshot::Sender<T>);

/// A request for the signature check: the payload, and the channel on which
/// the one and only reply is sent.
pub struct VerifyTxSignatureRequest {
    pub tx: TxVariant,
    pub response: futures::channel::oneshot::Sender<Result<VerifiedTx, TxAddError>>,
}

/// Relies on `futures::channel::oneshot::Sender::send`: it hands the value to
/// the receiver if that end still exists and otherwise discards it, never
/// panicking and never blocking; the error case only returns the unsent value.
#[verifier::external_body]
fn send_response(
    response: futures::channel::oneshot::Sender<Result<VerifiedTx, TxAddError>>,
    outcome: Result<VerifiedTx, TxAddError>,
) {
    let _ = response.send(outcome);
}

/// Verifies a request's payload against the gathered on-chain and structural
/// answers and sends the outcome — the exact [`crate::protocol::verdict`], by
/// [`VerifiedTx::verify`]'s contract — on the request's reply channel. If the
/// requester has dropped its end in the meantime, the outcome is discarded.
pub fn respond(request: VerifyTxSignatureRequest, chain: &OnchainAnswers, validity: &Vec<bool>)
    requires
        validity@.len() == payload_len(request.tx@),
{
    let outcome = VerifiedTx::verify(&request.tx, chain, validity);
    send_response(request.response, outcome);
}

} // verus!
