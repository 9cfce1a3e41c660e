//! Conservation of value: what a transition spends equals what it creates.
//!
//! The amounts are summed as natural numbers in the contracts and with
//! overflow-checked 64-bit additions in the code; a total that does not fit
//! is a failure of its own, never a wrapped value.

use vstd::prelude::*;
use crate::error::ValidationError;
use crate::model::{
    PayloadState,
    PrevOut,
    PrevOutView,
    PrevOutsType,
    TokenOutputView,
    MAX_INPUTS,
    slots_view,
};

verus! {

/// The populated slots, in slot order.
pub open spec fn populated<T>(slots: Seq<Option<T>>) -> Seq<T> {
    slots.filter_map(|slot: Option<T>| slot)
}

/// The active inputs of a transition: what its populated slots hold, in
/// slot order.
pub open spec fn active_view(prev_outs: PrevOutsType) -> Seq<PrevOutView> {
    populated(slots_view(prev_outs))
}

/// The views of borrowed inputs, in order.
pub open spec fn views(inputs: Seq<&PrevOut>) -> Seq<PrevOutView> {
    inputs.map_values(|prev: &PrevOut| prev@)
}

/// The sum of a sequence of amounts.
pub open spec fn sum(amounts: Seq<nat>) -> nat
    decreases amounts.len(),
{
    if amounts.len() == 0 {
        0
    } else {
        sum(amounts.drop_last()) + amounts.last()
    }
}

/// The input's position addresses no output of the state it refers to.
pub open spec fn dangling(prev: PrevOutView) -> bool {
    prev.idx >= prev.state.len()
}

/// Some input of the sequence is dangling.
pub open spec fn any_dangling(active: Seq<PrevOutView>) -> bool {
    exists|i: int| 0 <= i < active.len() && dangling(#[trigger] active[i])
}

/// The amount of the output that the input spends.
pub open spec fn spent_amount(prev: PrevOutView) -> nat
    recommends
        !dangling(prev),
{
    prev.state[prev.idx as int].amount
}

/// The amounts that the inputs spend, input by input.
pub open spec fn input_amounts(active: Seq<PrevOutView>) -> Seq<nat> {
    active.map_values(|prev: PrevOutView| spent_amount(prev))
}

/// The amounts of the outputs, output by output.
pub open spec fn output_amounts(outs: Seq<TokenOutputView>) -> Seq<nat> {
    outs.map_values(|out: TokenOutputView| out.amount)
}

/// The value that the inputs spend.
pub open spec fn input_total(active: Seq<PrevOutView>) -> nat {
    sum(input_amounts(active))
}

/// The value that the outputs hold.
pub open spec fn output_total(outs: Seq<TokenOutputView>) -> nat {
    sum(output_amounts(outs))
}

/// What summing the inputs yields: a dangling input anywhere is reported
/// first, then a total beyond 64 bits, and otherwise the total.
pub open spec fn input_total_outcome(active: Seq<PrevOutView>) -> Result<u64, ValidationError> {
    if any_dangling(active) {
        Err(ValidationError::DanglingReference)
    } else if input_total(active) > u64::MAX {
        Err(ValidationError::ArithmeticOverflow)
    } else {
        Ok(input_total(active) as u64)
    }
}

/// What summing the outputs yields: the total, unless it exceeds 64 bits.
pub open spec fn output_total_outcome(outs: Seq<TokenOutputView>) -> Result<u64, ValidationError> {
    if output_total(outs) > u64::MAX {
        Err(ValidationError::ArithmeticOverflow)
    } else {
        Ok(output_total(outs) as u64)
    }
}

/// The verdict of the conservation check. A failure to sum the inputs is
/// reported before one to sum the outputs, and both before a mismatch.
pub open spec fn conservation_outcome(
    active: Seq<PrevOutView>,
    outs: Seq<TokenOutputView>,
) -> Result<(), ValidationError> {
    match input_total_outcome(active) {
        Err(e) => Err(e),
        Ok(total_in) => match output_total_outcome(outs) {
            Err(e) => Err(e),
            Ok(total_out) => if total_in == total_out {
                Ok(())
            } else {
                Err(ValidationError::UnbalancedTransition)
            },
        },
    }
}

/// Appending an amount adds it to the sum.
pub proof fn lemma_sum_push(amounts: Seq<nat>, amount: nat)
    ensures
        sum(amounts.push(amount)) == sum(amounts) + amount,
{
    assert(amounts.push(amount).drop_last() =~= amounts);
}

/// A sum is at least the sum of any of its prefixes.
pub proof fn lemma_sum_prefix(amounts: Seq<nat>, n: int)
    requires
        0 <= n <= amounts.len(),
    ensures
        sum(amounts.take(n)) <= sum(amounts),
    decreases amounts.len(),
{
    if n == amounts.len() {
        assert(amounts.take(n) =~= amounts);
    } else {
        lemma_sum_prefix(amounts.drop_last(), n);
        assert(amounts.drop_last().take(n) =~= amounts.take(n));
    }
}

/// A further slot adds its input to the populated ones, if it holds one.
pub proof fn lemma_populated_push<T>(slots: Seq<Option<T>>, slot: Option<T>)
    ensures
        populated(slots.push(slot)) == match slot {
            Some(value) => populated(slots).push(value),
            None => populated(slots),
        },
{
    assert(slots.push(slot).drop_last() =~= slots);
    if let Some(value) = slot {
        assert(populated(slots) + seq![value] =~= populated(slots).push(value));
    }
}

/// There are at most as many populated slots as slots.
pub proof fn lemma_populated_len<T>(slots: Seq<Option<T>>)
    ensures
        populated(slots).len() <= slots.len(),
    decreases slots.len(),
{
    if slots.len() > 0 {
        lemma_populated_len(slots.drop_last());
        lemma_populated_push(slots.drop_last(), slots.last());
        assert(slots.drop_last().push(slots.last()) =~= slots);
    }
}

/// Collects the populated input slots, keeping their order.
pub fn active_inputs(prev_outs: &PrevOutsType) -> (active: Vec<&PrevOut>)
    ensures
        views(active@) == active_view(*prev_outs),
        active@.len() <= MAX_INPUTS,
{
    let ghost slots = slots_view(*prev_outs);
    let mut active: Vec<&PrevOut> = Vec::new();
    let mut i: usize = 0;
    assert(views(active@) =~= populated(slots.take(0)));
    while i < MAX_INPUTS
        invariant
            i <= MAX_INPUTS,
            slots == slots_view(*prev_outs),
            views(active@) == populated(slots.take(i as int)),
        decreases MAX_INPUTS - i,
    {
        proof {
            lemma_populated_push(slots.take(i as int), slots[i as int]);
            assert(slots.take(i as int).push(slots[i as int]) =~= slots.take(i + 1));
        }
        let ghost before = active@;
        match &prev_outs[i] {
            Some(prev) => {
                active.push(prev);
                assert(views(active@) =~= views(before).push(prev@));
            },
            None => {},
        }
        i += 1;
    }
    proof {
        assert(slots.take(MAX_INPUTS as int) =~= slots);
        lemma_populated_len(slots);
    }
    active
}

/// Sums what the inputs spend, with overflow-checked additions.
pub fn total_in(active: &Vec<&PrevOut>) -> (total: Result<u64, ValidationError>)
    ensures
        total == input_total_outcome(views(active@)),
{
    let ghost inputs = views(active@);
    let ghost amounts = input_amounts(inputs);
    // `None` once the running total has left the 64-bit range.
    let mut running: Option<u64> = Some(0);
    let mut i: usize = 0;
    while i < active.len()
        invariant
            i <= active.len(),
            inputs == views(active@),
            amounts == input_amounts(inputs),
            forall|j: int| 0 <= j < i ==> !dangling(#[trigger] inputs[j]),
            match running {
                Some(value) => value == sum(amounts.take(i as int)),
                None => sum(amounts.take(i as int)) > u64::MAX,
            },
        decreases active.len() - i,
    {
        let prev = active[i];
        assert(prev@ == inputs[i as int]);
        if prev.idx >= prev.state.outs.len() {
            return Err(ValidationError::DanglingReference);
        }
        let amount = prev.state.outs[prev.idx].amount;
        proof {
            assert(amounts.take(i as int).push(amounts[i as int]) =~= amounts.take(i + 1));
            lemma_sum_push(amounts.take(i as int), amounts[i as int]);
        }
        running = match running {
            Some(value) => value.checked_add(amount),
            None => None,
        };
        i += 1;
    }
    assert(amounts.take(i as int) =~= amounts);
    match running {
        Some(value) => Ok(value),
        None => Err(ValidationError::ArithmeticOverflow),
    }
}

/// Sums what the outputs of a state hold, with overflow-checked additions.
pub fn total_out(next_state: &PayloadState) -> (total: Result<u64, ValidationError>)
    ensures
        total == output_total_outcome(next_state@),
{
    let ghost amounts = output_amounts(next_state@);
    let mut running: u64 = 0;
    let mut i: usize = 0;
    while i < next_state.outs.len()
        invariant
            i <= next_state.outs.len(),
            amounts == output_amounts(next_state@),
            running == sum(amounts.take(i as int)),
        decreases next_state.outs.len() - i,
    {
        proof {
            assert(amounts.take(i as int).push(amounts[i as int]) =~= amounts.take(i + 1));
            lemma_sum_push(amounts.take(i as int), amounts[i as int]);
            lemma_sum_prefix(amounts, i + 1);
        }
        match running.checked_add(next_state.outs[i].amount) {
            Some(value) => {
                running = value;
            },
            None => {
                return Err(ValidationError::ArithmeticOverflow);
            },
        }
        i += 1;
    }
    assert(amounts.take(i as int) =~= amounts);
    Ok(running)
}

/// Checks that the inputs spend exactly what the next state holds.
pub fn check_conservation(active: &Vec<&PrevOut>, next_state: &PayloadState) -> (result: Result<
    (),
    ValidationError,
>)
    ensures
        result == conservation_outcome(views(active@), next_state@),
{
    let spent = match total_in(active) {
        Ok(total) => total,
        Err(e) => {
            return Err(e);
        },
    };
    let created = match total_out(next_state) {
        Ok(total) => total,
        Err(e) => {
            return Err(e);
        },
    };
    if spent == created {
        Ok(())
    } else {
        Err(ValidationError::UnbalancedTransition)
    }
}

} // verus!
