//! Authorization of the input that is being spent.
//!
//! The party that presents an input signs a message that names the spent
//! output by its position and by the transaction that created it, so that a
//! signature made for one output is of no use for another. The steps here
//! fix what a verifier is asked and what its answer means; the verifier
//! itself is handed in, and the ledger's own is `signature::check_sig`.

use vstd::prelude::*;
use crate::conservation::{dangling, views};
use crate::error::ValidationError;
use crate::model::{PrevOut, PrevOutView, SignatureMessage, SignatureMessageView};

verus! {

/// What a verifier is asked to check a signature against.
#[derive(Clone, Copy, Debug, PartialEq, Eq)]
pub struct AuthorizationRequest<'a> {
    /// The locking script of the output that is being spent.
    pub credential: &'a Vec<u8>,
    /// The message that the signature must cover.
    pub message: SignatureMessage,
}

/// What an [`AuthorizationRequest`] holds.
pub ghost struct AuthorizationRequestView {
    pub credential: Seq<u8>,
    pub message: SignatureMessageView,
}

impl<'a> View for AuthorizationRequest<'a> {
    type V = AuthorizationRequestView;

    open spec fn view(&self) -> AuthorizationRequestView {
        AuthorizationRequestView { credential: self.credential@, message: self.message@ }
    }
}

/// The input at a position among the active inputs, if there is one.
pub open spec fn current_outcome(active: Seq<PrevOutView>, idx: nat) -> Result<
    PrevOutView,
    ValidationError,
> {
    if idx < active.len() {
        Ok(active[idx as int])
    } else {
        Err(ValidationError::IndexOutOfRange)
    }
}

/// The locking script of the output that an input spends, if the input
/// addresses one.
pub open spec fn credential_outcome(current: PrevOutView) -> Result<Seq<u8>, ValidationError> {
    if dangling(current) {
        Err(ValidationError::DanglingReference)
    } else {
        Ok(current.state[current.idx as int].script_pub_key)
    }
}

/// The message that binds a signature to the output that an input spends:
/// the output's position and the transaction that created it. There is
/// none for an input without a transaction identifier.
pub open spec fn message_outcome(current: PrevOutView) -> Result<
    SignatureMessageView,
    ValidationError,
> {
    match current.txid {
        Some(txid) => Ok(SignatureMessageView { prev_out_idx: current.idx, prev_out_tx_id: txid }),
        None => Err(ValidationError::MissingTxId),
    }
}

/// What a verifier's answer means for the transition.
pub open spec fn verdict_outcome(accepted: bool) -> Result<(), ValidationError> {
    if accepted {
        Ok(())
    } else {
        Err(ValidationError::AuthorizationFailed)
    }
}

/// Finds the input that is being authorized among the active inputs.
pub fn locate_current<'a>(active: &Vec<&'a PrevOut>, current_input_idx: usize) -> (result: Result<
    &'a PrevOut,
    ValidationError,
>)
    ensures
        match result {
            Ok(current) => current_outcome(views(active@), current_input_idx as nat) == Ok::<
                PrevOutView,
                ValidationError,
            >(current@) && *current == *active@[current_input_idx as int],
            Err(e) => current_outcome(views(active@), current_input_idx as nat) == Err::<
                PrevOutView,
                ValidationError,
            >(e),
        },
{
    if current_input_idx < active.len() {
        Ok(active[current_input_idx])
    } else {
        Err(ValidationError::IndexOutOfRange)
    }
}

/// Resolves the credential that gates an input: the locking script of the
/// output that it spends.
pub fn resolve_credential<'a>(current: &'a PrevOut) -> (result: Result<&'a Vec<u8>, ValidationError>)
    ensures
        match result {
            Ok(credential) => credential_outcome(current@) == Ok::<Seq<u8>, ValidationError>(
                credential@,
            ),
            Err(e) => credential_outcome(current@) == Err::<Seq<u8>, ValidationError>(e),
        },
{
    if current.idx < current.state.outs.len() {
        Ok(&current.state.outs[current.idx].script_pub_key)
    } else {
        Err(ValidationError::DanglingReference)
    }
}

/// Builds the message that a signature for an input must cover.
pub fn binding_message(current: &PrevOut) -> (result: Result<SignatureMessage, ValidationError>)
    ensures
        match result {
            Ok(message) => message_outcome(current@) == Ok::<SignatureMessageView, ValidationError>(
                message@,
            ),
            Err(e) => message_outcome(current@) == Err::<SignatureMessageView, ValidationError>(e),
        },
{
    match current.txid {
        Some(txid) => Ok(SignatureMessage { prev_out_idx: current.idx, prev_out_tx_id: txid }),
        None => Err(ValidationError::MissingTxId),
    }
}

/// Turns a verifier's answer into the result of the validation.
pub fn conclude(accepted: bool) -> (result: Result<(), ValidationError>)
    ensures
        result == verdict_outcome(accepted),
{
    if accepted {
        Ok(())
    } else {
        Err(ValidationError::AuthorizationFailed)
    }
}

/// Asks the verifier whether the signature authorizes the request. The
/// verifier is called once, with the request's credential and message and
/// the signature as presented, and its answer decides.
pub fn authorize<F: Fn(&Vec<u8>, &SignatureMessage, &Vec<u8>) -> bool>(
    request: &AuthorizationRequest,
    signature: &Vec<u8>,
    verify: F,
) -> (result: Result<(), ValidationError>)
    requires
        call_requires(verify, (request.credential, &request.message, signature)),
    ensures
        exists|accepted: bool|
            #![trigger verdict_outcome(accepted)]
            call_ensures(verify, (request.credential, &request.message, signature), accepted)
                && result == verdict_outcome(accepted),
{
    let accepted = verify(request.credential, &request.message, signature);
    conclude(accepted)
}

} // verus!
