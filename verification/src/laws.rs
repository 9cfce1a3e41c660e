//! What holds of the validator on every transition.

use vstd::prelude::*;
use crate::authorization::{current_outcome, message_outcome};
use crate::conservation::{
    any_dangling,
    conservation_outcome,
    dangling,
    input_amounts,
    input_total,
    output_amounts,
    output_total,
    sum,
};
use crate::error::ValidationError;
use crate::model::{PrevOutView, SignatureMessageView, TokenOutputView};
use crate::signature::{authorizes, lemma_authorizes_binds};
use crate::validator::{request_outcome, signed_outcome, validation_outcome};

verus! {

/// Taking one amount out of a sequence lowers the sum by that amount.
pub proof fn lemma_sum_remove(amounts: Seq<nat>, i: int)
    requires
        0 <= i < amounts.len(),
    ensures
        sum(amounts) == sum(amounts.remove(i)) + amounts[i],
    decreases amounts.len(),
{
    if i == amounts.len() - 1 {
        assert(amounts.remove(i) =~= amounts.drop_last());
    } else {
        lemma_sum_remove(amounts.drop_last(), i);
        assert(amounts.remove(i).drop_last() =~= amounts.drop_last().remove(i));
    }
}

/// A sum depends on the multiset of its amounts only, not on their order.
pub proof fn lemma_sum_of_multiset(a: Seq<nat>, b: Seq<nat>)
    requires
        a.to_multiset() == b.to_multiset(),
    ensures
        sum(a) == sum(b),
    decreases a.len(),
{
    a.to_multiset_ensures();
    b.to_multiset_ensures();
    if a.len() > 0 {
        let last = a.last();
        assert(a[a.len() - 1] == last);
        assert(a.contains(last));
        assert(a.to_multiset().count(last) > 0);
        assert(b.to_multiset().count(last) > 0);
        assert(b.contains(last));
        let j = choose|j: int| 0 <= j < b.len() && b[j] == last;
        assert(a.drop_last() =~= a.remove(a.len() - 1));
        lemma_sum_of_multiset(a.drop_last(), b.remove(j));
        lemma_sum_remove(b, j);
    }
}

/// Conservation is exact. Where every input addresses an output and both
/// totals fit in 64 bits, the check passes if the inputs spend what the
/// outputs hold, and fails as unbalanced on any difference, be it of one
/// unit.
pub proof fn lemma_conservation_exact(active: Seq<PrevOutView>, outs: Seq<TokenOutputView>)
    requires
        !any_dangling(active),
        input_total(active) <= u64::MAX,
        output_total(outs) <= u64::MAX,
    ensures
        input_total(active) == output_total(outs) ==> conservation_outcome(active, outs) == Ok::<
            (),
            ValidationError,
        >(()),
        input_total(active) != output_total(outs) ==> conservation_outcome(active, outs) == Err::<
            (),
            ValidationError,
        >(ValidationError::UnbalancedTransition),
{
}

/// Conservation looks at amounts only: two transitions whose inputs spend
/// the same multiset of amounts and whose outputs hold the same multiset of
/// amounts fare alike.
pub proof fn lemma_conservation_by_amounts(
    active_a: Seq<PrevOutView>,
    outs_a: Seq<TokenOutputView>,
    active_b: Seq<PrevOutView>,
    outs_b: Seq<TokenOutputView>,
)
    requires
        !any_dangling(active_a),
        !any_dangling(active_b),
        input_amounts(active_a).to_multiset() == input_amounts(active_b).to_multiset(),
        output_amounts(outs_a).to_multiset() == output_amounts(outs_b).to_multiset(),
    ensures
        conservation_outcome(active_a, outs_a) == conservation_outcome(active_b, outs_b),
{
    lemma_sum_of_multiset(input_amounts(active_a), input_amounts(active_b));
    lemma_sum_of_multiset(output_amounts(outs_a), output_amounts(outs_b));
}

/// A total beyond 64 bits is reported as an overflow, whatever else holds
/// of the amounts: no total wraps around.
pub proof fn lemma_overflow_detected(
    active: Seq<PrevOutView>,
    idx: nat,
    outs: Seq<TokenOutputView>,
    accepted: bool,
)
    requires
        !any_dangling(active),
        input_total(active) > u64::MAX || output_total(outs) > u64::MAX,
    ensures
        conservation_outcome(active, outs) == Err::<(), ValidationError>(
            ValidationError::ArithmeticOverflow,
        ),
        validation_outcome(active, idx, outs, accepted) == Err::<(), ValidationError>(
            ValidationError::ArithmeticOverflow,
        ),
{
}

/// The current input index must address an active input. With conservation
/// established, an index at or beyond the number of active inputs is out of
/// range, and the last valid index is accepted once its input carries a
/// transaction identifier and the verifier accepts.
pub proof fn lemma_index_validity(
    active: Seq<PrevOutView>,
    idx: nat,
    outs: Seq<TokenOutputView>,
    accepted: bool,
)
    requires
        conservation_outcome(active, outs) is Ok,
    ensures
        idx >= active.len() ==> validation_outcome(active, idx, outs, accepted) == Err::<
            (),
            ValidationError,
        >(ValidationError::IndexOutOfRange),
        idx + 1 == active.len() && active[idx as int].txid is Some ==> validation_outcome(
            active,
            idx,
            outs,
            true,
        ) == Ok::<(), ValidationError>(()),
{
    if idx < active.len() {
        assert(!dangling(active[idx as int]));
    }
}

/// The input that is being authorized must carry a transaction identifier:
/// with conservation established and the index in range, an input without
/// one is rejected before any verifier is asked.
pub proof fn lemma_missing_txid(
    active: Seq<PrevOutView>,
    idx: nat,
    outs: Seq<TokenOutputView>,
    accepted: bool,
)
    requires
        conservation_outcome(active, outs) is Ok,
        idx < active.len(),
        active[idx as int].txid is None,
    ensures
        validation_outcome(active, idx, outs, accepted) == Err::<(), ValidationError>(
            ValidationError::MissingTxId,
        ),
{
    assert(!dangling(active[idx as int]));
}

/// Transaction identifiers of the other inputs are ignored: giving one to,
/// or taking it from, an input that is not being authorized changes nothing
/// of the result.
pub proof fn lemma_other_txids_ignored(
    active: Seq<PrevOutView>,
    idx: nat,
    outs: Seq<TokenOutputView>,
    accepted: bool,
    other: int,
    txid: Option<Seq<u8>>,
)
    requires
        0 <= other < active.len(),
        other != idx,
    ensures
        validation_outcome(
            active.update(other, PrevOutView { txid, ..active[other] }),
            idx,
            outs,
            accepted,
        ) == validation_outcome(active, idx, outs, accepted),
{
    let changed = active.update(other, PrevOutView { txid, ..active[other] });
    assert(input_amounts(changed) =~= input_amounts(active));
    if any_dangling(active) {
        let i = choose|i: int| 0 <= i < active.len() && dangling(#[trigger] active[i]);
        assert(dangling(changed[i]));
    }
    if any_dangling(changed) {
        let i = choose|i: int| 0 <= i < changed.len() && dangling(#[trigger] changed[i]);
        assert(dangling(active[i]));
    }
    assert(current_outcome(changed, idx) == current_outcome(active, idx));
}

/// A signature is bound to the output it was made for: two inputs ask for
/// the same message only if they spend the same position of a state created
/// by the same transaction.
pub proof fn lemma_binding_distinguishes(a: PrevOutView, b: PrevOutView)
    requires
        a.txid is Some,
        b.txid is Some,
    ensures
        message_outcome(a) == message_outcome(b) <==> a.idx == b.idx && a.txid == b.txid,
{
}

/// An authorization is not transferable. Take a verifier that binds a
/// signature to one message: what it accepts for a message, it accepts for
/// no other. Then a signature that it accepts for one input is rejected when
/// presented for an input that spends another position or a state of
/// another transaction, though both outputs have the same credential and
/// the same amount.
pub proof fn lemma_authorization_binding(
    active_a: Seq<PrevOutView>,
    idx_a: nat,
    outs_a: Seq<TokenOutputView>,
    active_b: Seq<PrevOutView>,
    idx_b: nat,
    outs_b: Seq<TokenOutputView>,
    accepts: spec_fn(Seq<u8>, SignatureMessageView, Seq<u8>) -> bool,
    signature: Seq<u8>,
)
    requires
        request_outcome(active_a, idx_a, outs_a) is Ok,
        request_outcome(active_b, idx_b, outs_b) is Ok,
        active_a[idx_a as int].idx != active_b[idx_b as int].idx || active_a[idx_a as int].txid
            != active_b[idx_b as int].txid,
        request_outcome(active_a, idx_a, outs_a)->Ok_0.credential == request_outcome(
            active_b,
            idx_b,
            outs_b,
        )->Ok_0.credential,
        forall|credential: Seq<u8>, m1: SignatureMessageView, m2: SignatureMessageView, s: Seq<u8>|
            #[trigger] accepts(credential, m1, s) && #[trigger] accepts(credential, m2, s) ==> m1
                == m2,
        accepts(
            request_outcome(active_a, idx_a, outs_a)->Ok_0.credential,
            request_outcome(active_a, idx_a, outs_a)->Ok_0.message,
            signature,
        ),
    ensures
        validation_outcome(
            active_b,
            idx_b,
            outs_b,
            accepts(
                request_outcome(active_b, idx_b, outs_b)->Ok_0.credential,
                request_outcome(active_b, idx_b, outs_b)->Ok_0.message,
                signature,
            ),
        ) == Err::<(), ValidationError>(ValidationError::AuthorizationFailed),
{
    let a = active_a[idx_a as int];
    let b = active_b[idx_b as int];
    lemma_binding_distinguishes(a, b);
    let request_a = request_outcome(active_a, idx_a, outs_a)->Ok_0;
    let request_b = request_outcome(active_b, idx_b, outs_b)->Ok_0;
    assert(request_a.message == message_outcome(a)->Ok_0);
    assert(request_b.message == message_outcome(b)->Ok_0);
    assert(request_a.message != request_b.message);
    if accepts(request_b.credential, request_b.message, signature) {
        assert(accepts(request_a.credential, request_a.message, signature));
        assert(false);
    }
}

/// Under the ledger's own signature scheme an authorization is not
/// transferable: a signature with which one input is accepted is rejected
/// when presented for an input that spends another position or a state of
/// another transaction, though both outputs have the same credential and
/// the same amount.
pub proof fn lemma_signature_not_transferable(
    active_a: Seq<PrevOutView>,
    idx_a: nat,
    outs_a: Seq<TokenOutputView>,
    active_b: Seq<PrevOutView>,
    idx_b: nat,
    outs_b: Seq<TokenOutputView>,
    signature: Seq<u8>,
)
    requires
        signed_outcome(active_a, idx_a, outs_a, signature) == Ok::<(), ValidationError>(()),
        request_outcome(active_b, idx_b, outs_b) is Ok,
        active_a[idx_a as int].idx != active_b[idx_b as int].idx || active_a[idx_a as int].txid
            != active_b[idx_b as int].txid,
        request_outcome(active_a, idx_a, outs_a)->Ok_0.credential == request_outcome(
            active_b,
            idx_b,
            outs_b,
        )->Ok_0.credential,
    ensures
        signed_outcome(active_b, idx_b, outs_b, signature) == Err::<(), ValidationError>(
            ValidationError::AuthorizationFailed,
        ),
{
    let accepts = |credential: Seq<u8>, message: SignatureMessageView, s: Seq<u8>|
        authorizes(credential, message, s);
    assert forall|credential: Seq<u8>, m1: SignatureMessageView, m2: SignatureMessageView, s: Seq<u8>|
        #[trigger] accepts(credential, m1, s) && #[trigger] accepts(credential, m2, s) implies m1
        == m2 by {
        lemma_authorizes_binds(credential, m1, m2, s);
    }
    lemma_authorization_binding(
        active_a,
        idx_a,
        outs_a,
        active_b,
        idx_b,
        outs_b,
        accepts,
        signature,
    );
}

/// Under the ledger's own signature scheme a transition is accepted for an
/// input exactly if value is conserved, the index addresses an active input
/// that carries a transaction identifier, and the signature authorizes the
/// message made of that input's position and transaction identifier under
/// the credential of the output it spends.
pub proof fn lemma_acceptance(
    active: Seq<PrevOutView>,
    idx: nat,
    outs: Seq<TokenOutputView>,
    signature: Seq<u8>,
)
    ensures
        signed_outcome(active, idx, outs, signature) == Ok::<(), ValidationError>(()) <==> {
            &&& conservation_outcome(active, outs) is Ok
            &&& idx < active.len()
            &&& active[idx as int].txid is Some
            &&& authorizes(
                active[idx as int].state[active[idx as int].idx as int].script_pub_key,
                SignatureMessageView {
                    prev_out_idx: active[idx as int].idx,
                    prev_out_tx_id: active[idx as int].txid->0,
                },
                signature,
            )
        },
{
    if conservation_outcome(active, outs) is Ok && idx < active.len() {
        assert(!dangling(active[idx as int]));
    }
}

} // verus!
