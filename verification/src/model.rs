//! The ledger's value types and their mathematical views.
//!
//! Every type here is a plain value: the validator borrows them and never
//! changes them. Contracts speak of the views, which hold byte strings as
//! `Seq<u8>` and positions and amounts as `nat`.

use vstd::prelude::*;

verus! {

/// Identifier of the transaction that created an output.
pub type TxId = [u8; 32];

/// Most inputs one transition may spend.
pub const MAX_INPUTS: usize = 6;

/// Most outputs one transition may create.
pub const MAX_OUTPUTS: usize = 6;

/// The input slots of one transition; an empty slot is `None`.
pub type PrevOutsType = [Option<PrevOut>; MAX_INPUTS];

/// The output slots of one transition; an empty slot is `None`.
pub type OutputsType = [Option<Output>; MAX_OUTPUTS];

/// A unit of value, spendable by whoever satisfies its locking script.
#[derive(Clone, Debug, PartialEq, Eq, Hash)]
pub struct TokenOutput {
    pub script_pub_key: Vec<u8>,
    pub amount: u64,
}

/// The complete, ordered set of outputs that one transition produced.
/// Outputs are addressed by their position.
#[derive(Clone, Debug, PartialEq, Eq)]
pub struct PayloadState {
    pub outs: Vec<TokenOutput>,
}

/// A reference to one output of an earlier state, claimed as an input.
#[derive(Clone, Debug, PartialEq, Eq)]
pub struct PrevOut {
    /// Position of the spent output in `state.outs`.
    pub idx: usize,
    /// Identifier of the transaction that created `state`. Only the input
    /// that is being authorized needs one.
    pub txid: Option<TxId>,
    pub script_pub_key: Vec<u8>,
    pub state: PayloadState,
}

/// The locking condition of an output that is being created.
#[derive(Clone, Debug, PartialEq, Eq)]
pub struct Output {
    pub script_pub_key: Vec<u8>,
}

/// What an authorization signs: the position of the spent output and the
/// transaction that created it.
#[derive(Clone, Copy, Debug, PartialEq, Eq)]
pub struct SignatureMessage {
    pub prev_out_idx: usize,
    pub prev_out_tx_id: TxId,
}

/// What a [`TokenOutput`] holds.
pub ghost struct TokenOutputView {
    pub script_pub_key: Seq<u8>,
    pub amount: nat,
}

/// What a [`PrevOut`] holds.
pub ghost struct PrevOutView {
    pub idx: nat,
    pub txid: Option<Seq<u8>>,
    pub script_pub_key: Seq<u8>,
    pub state: Seq<TokenOutputView>,
}

/// What a [`SignatureMessage`] holds.
pub ghost struct SignatureMessageView {
    pub prev_out_idx: nat,
    pub prev_out_tx_id: Seq<u8>,
}

impl View for TokenOutput {
    type V = TokenOutputView;

    open spec fn view(&self) -> TokenOutputView {
        TokenOutputView { script_pub_key: self.script_pub_key@, amount: self.amount as nat }
    }
}

impl View for PayloadState {
    type V = Seq<TokenOutputView>;

    open spec fn view(&self) -> Seq<TokenOutputView> {
        self.outs@.map_values(|o: TokenOutput| o@)
    }
}

impl View for PrevOut {
    type V = PrevOutView;

    open spec fn view(&self) -> PrevOutView {
        PrevOutView {
            idx: self.idx as nat,
            txid: match self.txid {
                Some(txid) => Some(txid@),
                None => None,
            },
            script_pub_key: self.script_pub_key@,
            state: self.state@,
        }
    }
}

impl View for Output {
    type V = Seq<u8>;

    open spec fn view(&self) -> Seq<u8> {
        self.script_pub_key@
    }
}

impl View for SignatureMessage {
    type V = SignatureMessageView;

    open spec fn view(&self) -> SignatureMessageView {
        SignatureMessageView {
            prev_out_idx: self.prev_out_idx as nat,
            prev_out_tx_id: self.prev_out_tx_id@,
        }
    }
}

/// The input slots as plain values, slot by slot.
pub open spec fn slots_view(prev_outs: PrevOutsType) -> Seq<Option<PrevOutView>> {
    prev_outs@.map_values(
        |slot: Option<PrevOut>|
            match slot {
                Some(prev) => Some(prev@),
                None => None,
            },
    )
}

} // verus!
