//! Why a transition is rejected.

use vstd::prelude::*;

verus! {

/// The check that a transition failed. Every failure ends the validation:
/// there are no warnings and nothing is retried.
#[derive(Clone, Copy, Debug, PartialEq, Eq, Hash, Structural)]
pub enum ValidationError {
    /// The value spent differs from the value created.
    UnbalancedTransition,
    /// The current input index addresses no populated input.
    IndexOutOfRange,
    /// An input's position addresses no output of the state it refers to.
    DanglingReference,
    /// The input being authorized carries no transaction identifier.
    MissingTxId,
    /// The signature was not accepted for the spent output's credential.
    AuthorizationFailed,
    /// A total of amounts does not fit in 64 bits.
    ArithmeticOverflow,
}

} // verus!
