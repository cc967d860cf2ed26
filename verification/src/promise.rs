//! What a call asks the host to do after it returns: transfers to dispatch
//! and the continuation to run once a transfer is resolved.

use vstd::prelude::*;

verus! {

/// The gas given to a fungible-token transfer and to the continuation of a
/// refund, whatever the amount that moves.
pub const TRANSFER_GAS: u64 = 10_000_000_000_000;

/// The deposit that the fungible-token standard asks a transfer call to carry.
pub const FT_TRANSFER_DEPOSIT: u128 = 1;

/// The memo on a refund made in fungible tokens.
pub open spec fn refund_memo() -> Seq<char> {
    "Refund order from payment contract"@
}

/// One asynchronous transfer.
#[derive(Debug, PartialEq, Eq)]
pub enum Transfer {
    /// A transfer of native currency, straight on the ledger.
    Near { receiver_id: String, amount: u128 },
    /// A call of the token contract's transfer operation.
    FungibleToken {
        contract_id: String,
        receiver_id: String,
        amount: u128,
        memo: String,
        deposit: u128,
        gas: u64,
    },
}

/// A [`Transfer`] for specifications.
pub enum TransferView {
    Near { receiver_id: Seq<char>, amount: u128 },
    FungibleToken {
        contract_id: Seq<char>,
        receiver_id: Seq<char>,
        amount: u128,
        memo: Seq<char>,
        deposit: u128,
        gas: u64,
    },
}

impl View for Transfer {
    type V = TransferView;

    open spec fn view(&self) -> TransferView {
        match *self {
            Transfer::Near { receiver_id, amount } => TransferView::Near {
                receiver_id: receiver_id@,
                amount,
            },
            Transfer::FungibleToken { contract_id, receiver_id, amount, memo, deposit, gas } => {
                TransferView::FungibleToken {
                    contract_id: contract_id@,
                    receiver_id: receiver_id@,
                    amount,
                    memo: memo@,
                    deposit,
                    gas,
                }
            },
        }
    }
}

/// The continuation of a refund: a call of this contract's own
/// `pay_order_callbacks`, made by the host once the transfer is resolved.
#[derive(Debug, PartialEq, Eq)]
pub struct Callback {
    /// The account to call: this contract.
    pub contract_id: String,
    /// The order whose refund is to be reconciled.
    pub order_id: String,
    /// The deposit the call carries: none.
    pub deposit: u128,
    /// The gas the call may use.
    pub gas: u64,
}

/// A [`Callback`] for specifications.
pub struct CallbackView {
    pub contract_id: Seq<char>,
    pub order_id: Seq<char>,
    pub deposit: u128,
    pub gas: u64,
}

impl View for Callback {
    type V = CallbackView;

    open spec fn view(&self) -> CallbackView {
        CallbackView {
            contract_id: self.contract_id@,
            order_id: self.order_id@,
            deposit: self.deposit,
            gas: self.gas,
        }
    }
}

/// What a native payment leaves to do.
#[derive(Debug, PartialEq, Eq)]
pub struct Receipt {
    /// What was attached beyond the order's amount.
    pub change: u128,
    /// The transfer that gives the change back to the payer, where there is
    /// any. Nothing follows it: its outcome is not tracked.
    pub transfer: Option<Transfer>,
}

/// A [`Receipt`] for specifications.
pub struct ReceiptView {
    pub change: u128,
    pub transfer: Option<TransferView>,
}

impl View for Receipt {
    type V = ReceiptView;

    open spec fn view(&self) -> ReceiptView {
        ReceiptView {
            change: self.change,
            transfer: match self.transfer {
                Some(transfer) => Some(transfer@),
                None => None,
            },
        }
    }
}

/// What an accepted refund request leaves to do.
#[derive(Debug, PartialEq, Eq)]
pub enum RefundStep {
    /// The order's amount is zero: there is nothing to move, and the refund
    /// stands as it is.
    Settled,
    /// One transfer to dispatch, and the continuation to chain to it.
    Dispatch { transfer: Transfer, callback: Callback },
}

/// A [`RefundStep`] for specifications.
pub enum RefundStepView {
    Settled,
    Dispatch { transfer: TransferView, callback: CallbackView },
}

impl View for RefundStep {
    type V = RefundStepView;

    open spec fn view(&self) -> RefundStepView {
        match *self {
            RefundStep::Settled => RefundStepView::Settled,
            RefundStep::Dispatch { transfer, callback } => RefundStepView::Dispatch {
                transfer: transfer@,
                callback: callback@,
            },
        }
    }
}

} // verus!
