//! State-transition validation for a UTXO-style token ledger.
//!
//! A transition spends previously created outputs and creates new ones. It is
//! valid for one input when value is conserved across the transition and the
//! party presenting that input proves ownership of the output it spends.

pub mod authorization;
pub mod conservation;
pub mod error;
pub mod laws;
pub mod model;
pub mod signature;
pub mod validator;

pub use crate::authorization::AuthorizationRequest;
pub use crate::error::ValidationError;
pub use crate::model::{
    Output, OutputsType, PayloadState, PrevOut, PrevOutsType, SignatureMessage, TokenOutput, TxId,
    MAX_INPUTS, MAX_OUTPUTS,
};
pub use crate::signature::check_sig;
pub use crate::validator::{authorization_request, validate, validate_signed};
