//! The transition validator: one deterministic pass over a transition, on
//! behalf of one of its inputs.
//!
//! The pass collects the populated inputs, checks that value is conserved,
//! finds the input that is being authorized, resolves the credential of the
//! output it spends, builds the message that binds a signature to that
//! output, and asks a verifier. The first check that fails ends the pass.
//! A transition is valid once the pass succeeds for each of its inputs.

use vstd::prelude::*;
use crate::authorization::{
    AuthorizationRequest,
    AuthorizationRequestView,
    authorize,
    binding_message,
    credential_outcome,
    current_outcome,
    locate_current,
    message_outcome,
    resolve_credential,
    verdict_outcome,
};
use crate::conservation::{active_inputs, active_view, check_conservation, conservation_outcome};
use crate::error::ValidationError;
use crate::signature::{authorizes, check_sig};
use crate::model::{PayloadState, PrevOutView, PrevOutsType, SignatureMessage, TokenOutputView};

verus! {

/// What the pass arrives at before a verifier is asked: the first failure
/// among conservation, the position of the current input, its reference and
/// its transaction identifier, or else what the verifier is to be asked.
/// Transaction identifiers of the other inputs play no part.
pub open spec fn request_outcome(
    active: Seq<PrevOutView>,
    idx: nat,
    outs: Seq<TokenOutputView>,
) -> Result<AuthorizationRequestView, ValidationError> {
    match conservation_outcome(active, outs) {
        Err(e) => Err(e),
        Ok(_) => match current_outcome(active, idx) {
            Err(e) => Err(e),
            Ok(current) => match credential_outcome(current) {
                Err(e) => Err(e),
                Ok(credential) => match message_outcome(current) {
                    Err(e) => Err(e),
                    Ok(message) => Ok(AuthorizationRequestView { credential, message }),
                },
            },
        },
    }
}

/// The result of the whole pass, given the verifier's answer.
pub open spec fn validation_outcome(
    active: Seq<PrevOutView>,
    idx: nat,
    outs: Seq<TokenOutputView>,
    accepted: bool,
) -> Result<(), ValidationError> {
    match request_outcome(active, idx, outs) {
        Err(e) => Err(e),
        Ok(_) => verdict_outcome(accepted),
    }
}

/// The result of the whole pass under the ledger's own signature scheme:
/// the first failure of the earlier checks, or else acceptance exactly if
/// the signature authorizes the binding message under the credential of the
/// spent output.
pub open spec fn signed_outcome(
    active: Seq<PrevOutView>,
    idx: nat,
    outs: Seq<TokenOutputView>,
    signature: Seq<u8>,
) -> Result<(), ValidationError> {
    match request_outcome(active, idx, outs) {
        Err(e) => Err(e),
        Ok(request) => verdict_outcome(authorizes(request.credential, request.message, signature)),
    }
}

/// Runs every check that needs no verifier and returns what the verifier is
/// to be asked for the current input.
pub fn authorization_request<'a>(
    prev_outs: &'a PrevOutsType,
    current_input_idx: usize,
    next_state: &PayloadState,
) -> (result: Result<AuthorizationRequest<'a>, ValidationError>)
    ensures
        match result {
            Ok(request) => request_outcome(
                active_view(*prev_outs),
                current_input_idx as nat,
                next_state@,
            ) == Ok::<AuthorizationRequestView, ValidationError>(request@),
            Err(e) => request_outcome(
                active_view(*prev_outs),
                current_input_idx as nat,
                next_state@,
            ) == Err::<AuthorizationRequestView, ValidationError>(e),
        },
{
    let active = active_inputs(prev_outs);
    match check_conservation(&active, next_state) {
        Ok(_) => {},
        Err(e) => {
            return Err(e);
        },
    }
    let current = match locate_current(&active, current_input_idx) {
        Ok(current) => current,
        Err(e) => {
            return Err(e);
        },
    };
    let credential = match resolve_credential(current) {
        Ok(credential) => credential,
        Err(e) => {
            return Err(e);
        },
    };
    let message = match binding_message(current) {
        Ok(message) => message,
        Err(e) => {
            return Err(e);
        },
    };
    Ok(AuthorizationRequest { credential, message })
}

/// Validates a transition on behalf of its input at `current_input_idx`.
///
/// Every check up to the signature is decided by the arguments alone. When
/// they pass, the verifier is called once, with the credential of the spent
/// output, the binding message and the signature as presented, and the
/// transition is accepted exactly if the verifier accepts. The verifier
/// must be callable on what it is handed.
pub fn validate<F: Fn(&Vec<u8>, &SignatureMessage, &Vec<u8>) -> bool>(
    prev_outs: &PrevOutsType,
    current_input_idx: usize,
    current_input_sig: &Vec<u8>,
    next_state: &PayloadState,
    verify: F,
) -> (result: Result<(), ValidationError>)
    requires
        forall|credential: &Vec<u8>, message: &SignatureMessage|
            request_outcome(active_view(*prev_outs), current_input_idx as nat, next_state@)
                == Ok::<AuthorizationRequestView, ValidationError>(
                AuthorizationRequestView { credential: credential@, message: message@ },
            ) ==> #[trigger] call_requires(verify, (credential, message, current_input_sig)),
    ensures
        match request_outcome(active_view(*prev_outs), current_input_idx as nat, next_state@) {
            Err(e) => result == Err::<(), ValidationError>(e),
            Ok(request) => exists|
                credential: &Vec<u8>,
                message: &SignatureMessage,
                accepted: bool,
            |
                credential@ == request.credential && message@ == request.message
                    && #[trigger] call_ensures(
                    verify,
                    (credential, message, current_input_sig),
                    accepted,
                ) && result == validation_outcome(
                    active_view(*prev_outs),
                    current_input_idx as nat,
                    next_state@,
                    accepted,
                ),
        },
{
    match authorization_request(prev_outs, current_input_idx, next_state) {
        Ok(request) => authorize(&request, current_input_sig, verify),
        Err(e) => Err(e),
    }
}

/// Validates a transition on behalf of its input at `current_input_idx`,
/// with the ledger's own signature scheme as the verifier.
pub fn validate_signed(
    prev_outs: &PrevOutsType,
    current_input_idx: usize,
    current_input_sig: &Vec<u8>,
    next_state: &PayloadState,
) -> (result: Result<(), ValidationError>)
    ensures
        result == signed_outcome(
            active_view(*prev_outs),
            current_input_idx as nat,
            next_state@,
            current_input_sig@,
        ),
{
    validate(prev_outs, current_input_idx, current_input_sig, next_state, check_sig)
}

} // verus!
