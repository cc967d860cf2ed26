//! The contract as a state machine over mathematical values: for each entry
//! point, the result it gives and the state it leaves. The executable
//! contract is specified as computing exactly these.

use crate::context::{ContextView, PromiseResult};
use crate::error::PaymentError;
use crate::ft_contract::FtMessageView;
use crate::order::{OrderView, PaymentMethod};
use crate::promise::{
    refund_memo, CallbackView, ReceiptView, RefundStepView, TransferView, FT_TRANSFER_DEPOSIT,
    TRANSFER_GAS,
};
use vstd::prelude::*;

verus! {

/// The persisted state: who owns the contract, which token contract it
/// accepts, and the orders on record.
pub struct ContractView {
    pub owner_id: Seq<char>,
    pub ft_contract_id: Seq<char>,
    pub orders: Map<Seq<char>, OrderView>,
}

impl ContractView {
    /// This state with `order` recorded under `order_id`.
    pub open spec fn record(self, order_id: Seq<char>, order: OrderView) -> ContractView {
        ContractView { orders: self.orders.insert(order_id, order), ..self }
    }

    /// Every order on record carries the id it is stored under, is completed,
    /// and captured at least the amount it was placed for.
    pub open spec fn consistent(self) -> bool {
        forall|id: Seq<char>| #[trigger]
            self.orders.contains_key(id) ==> {
                &&& self.orders[id].order_id == id
                &&& self.orders[id].is_completed
                &&& self.orders[id].received_amount >= self.orders[id].amount
            }
    }
}

/// The order that intake records: completed, not refunded.
pub open spec fn new_order(
    order_id: Seq<char>,
    payer_id: Seq<char>,
    payment_method: PaymentMethod,
    amount: u128,
    received_amount: u128,
    created_at: u64,
) -> OrderView {
    OrderView {
        order_id,
        payer_id,
        payment_method,
        amount,
        received_amount,
        is_completed: true,
        is_refund: false,
        created_at,
    }
}

/// What is left of `received` once `amount` is taken from it.
pub open spec fn surplus(received: u128, amount: u128) -> u128 {
    if received >= amount {
        (received - amount) as u128
    } else {
        0
    }
}

/// Whether a completed order is on record under `order_id`. Intake never
/// writes over such an order.
pub open spec fn completed_order(state: ContractView, order_id: Seq<char>) -> bool {
    state.orders.contains_key(order_id) && state.orders[order_id].is_completed
}

/// The result of a native payment: the change, and the transfer that takes
/// it back to the signer where there is any. A deposit below the declared
/// amount is judged first, then an order already completed under this id.
pub open spec fn pay_order_result(
    state: ContractView,
    env: ContextView,
    order_id: Seq<char>,
    order_amount: u128,
) -> Result<ReceiptView, PaymentError> {
    if env.attached_deposit < order_amount {
        Err(PaymentError::InsufficientDeposit)
    } else if completed_order(state, order_id) {
        Err(PaymentError::DuplicateOrder)
    } else {
        let change = surplus(env.attached_deposit, order_amount);
        Ok(
            ReceiptView {
                change,
                transfer: if change > 0 {
                    Some(TransferView::Near { receiver_id: env.signer_account_id, amount: change })
                } else {
                    None
                },
            },
        )
    }
}

/// The state after a native payment: an accepted payment records the order,
/// a rejected one changes nothing.
pub open spec fn pay_order_next(
    state: ContractView,
    env: ContextView,
    order_id: Seq<char>,
    order_amount: u128,
) -> ContractView {
    if pay_order_result(state, env, order_id, order_amount) is Ok {
        state.record(
            order_id,
            new_order(
                order_id,
                env.signer_account_id,
                PaymentMethod::Near,
                order_amount,
                env.attached_deposit,
                env.block_timestamp,
            ),
        )
    } else {
        state
    }
}

/// The result of a transfer notification whose payload held `message`
/// (`None`: it held none): the part of the transfer that the order does not
/// take, which the token contract gives back to the sender.
pub open spec fn ft_on_transfer_result(
    state: ContractView,
    env: ContextView,
    amount: u128,
    message: Option<FtMessageView>,
) -> Result<u128, PaymentError> {
    if env.predecessor_account_id != state.ft_contract_id {
        Err(PaymentError::Unauthorized)
    } else {
        match message {
            None => Err(PaymentError::InvalidMessage),
            Some(message) => if amount < message.order_amount {
                Err(PaymentError::InsufficientAmount)
            } else if completed_order(state, message.order_id) {
                Err(PaymentError::DuplicateOrder)
            } else {
                Ok(surplus(amount, message.order_amount))
            },
        }
    }
}

/// The state after a transfer notification.
pub open spec fn ft_on_transfer_next(
    state: ContractView,
    env: ContextView,
    sender_id: Seq<char>,
    amount: u128,
    message: Option<FtMessageView>,
) -> ContractView {
    match message {
        Some(message) if ft_on_transfer_result(state, env, amount, Some(message)) is Ok => {
            state.record(
                message.order_id,
                new_order(
                    message.order_id,
                    sender_id,
                    PaymentMethod::FungibleToken,
                    message.order_amount,
                    amount,
                    env.block_timestamp,
                ),
            )
        },
        _ => state,
    }
}

/// The transfer that takes an order's amount back to its payer, on the rail
/// the order was paid on.
pub open spec fn refund_transfer(state: ContractView, order: OrderView) -> TransferView {
    match order.payment_method {
        PaymentMethod::Near => TransferView::Near {
            receiver_id: order.payer_id,
            amount: order.amount,
        },
        PaymentMethod::FungibleToken => TransferView::FungibleToken {
            contract_id: state.ft_contract_id,
            receiver_id: order.payer_id,
            amount: order.amount,
            memo: refund_memo(),
            deposit: FT_TRANSFER_DEPOSIT,
            gas: TRANSFER_GAS,
        },
    }
}

/// The continuation that reconciles the refund of `order_id`.
pub open spec fn refund_callback(env: ContextView, order_id: Seq<char>) -> CallbackView {
    CallbackView { contract_id: env.current_account_id, order_id, deposit: 0, gas: TRANSFER_GAS }
}

/// The result of a refund request.
pub open spec fn refund_result(state: ContractView, env: ContextView, order_id: Seq<char>) -> Result<
    RefundStepView,
    PaymentError,
> {
    if env.predecessor_account_id != state.owner_id {
        Err(PaymentError::Unauthorized)
    } else if !state.orders.contains_key(order_id) {
        Err(PaymentError::NotFound)
    } else if !state.orders[order_id].refundable() {
        Err(PaymentError::InvalidState)
    } else if state.orders[order_id].amount == 0 {
        Ok(RefundStepView::Settled)
    } else {
        Ok(
            RefundStepView::Dispatch {
                transfer: refund_transfer(state, state.orders[order_id]),
                callback: refund_callback(env, order_id),
            },
        )
    }
}

/// The state after a refund request: an accepted request sets the order's
/// refund flag, whatever becomes of the transfer.
pub open spec fn refund_next(state: ContractView, env: ContextView, order_id: Seq<char>) -> ContractView {
    if refund_result(state, env, order_id) is Ok {
        state.record(order_id, state.orders[order_id].with_refund(true))
    } else {
        state
    }
}

/// Whether `results` is what the host may show to a continuation: where
/// there is exactly one result, it is resolved.
pub open spec fn resolved(results: Seq<PromiseResult>) -> bool {
    results.len() == 1 ==> results[0] != PromiseResult::NotReady
}

/// Whether the call comes from the contract itself, as the continuation
/// that the host runs on the contract's behalf does.
pub open spec fn called_by_itself(env: ContextView) -> bool {
    env.predecessor_account_id == env.current_account_id
}

/// The result of the refund's continuation. Only the contract itself may
/// run it: any other caller is `Unauthorized`, before anything else is
/// judged. Then: zero after a successful transfer, the order's amount after
/// a failed one. Nothing is said of an unresolved result.
pub open spec fn callback_result(
    state: ContractView,
    env: ContextView,
    results: Seq<PromiseResult>,
    order_id: Seq<char>,
) -> Result<u128, PaymentError> {
    if !called_by_itself(env) {
        Err(PaymentError::Unauthorized)
    } else if results.len() != 1 {
        Err(PaymentError::TooManyResults)
    } else {
        match results[0] {
            PromiseResult::Successful => Ok(0),
            PromiseResult::Failed => if state.orders.contains_key(order_id) {
                Ok(state.orders[order_id].amount)
            } else {
                Err(PaymentError::NotFound)
            },
            PromiseResult::NotReady => arbitrary(),
        }
    }
}

/// The state after the refund's continuation: run by the contract itself on
/// a failed transfer it clears the order's refund flag, anything else
/// changes nothing.
pub open spec fn callback_next(
    state: ContractView,
    env: ContextView,
    results: Seq<PromiseResult>,
    order_id: Seq<char>,
) -> ContractView {
    if called_by_itself(env) && results.len() == 1 && results[0] == PromiseResult::Failed
        && state.orders.contains_key(order_id) {
        state.record(order_id, state.orders[order_id].with_refund(false))
    } else {
        state
    }
}

} // verus!
