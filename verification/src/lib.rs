//! Order payments settled on a ledger: intake on two rails, and owner-initiated
//! refunds that are reconciled once the ledger has resolved the transfer.
//!
//! The contract owns its state and never reaches for the host. A caller
//! hands each entry point the [`Context`] of the call; an entry point hands
//! back what the host is to do next: the transfer to dispatch and the
//! continuation to chain. What each entry point returns and leaves behind is
//! the corresponding function of [`model`].

pub mod amount;
pub mod context;
pub mod error;
pub mod ft_contract;
pub mod json;
pub mod laws;
pub mod model;
pub mod order;
pub mod promise;
pub mod store;

use crate::context::{Context, PromiseResult};
use crate::error::PaymentError;
use crate::model::{
    callback_next, callback_result, pay_order_next, pay_order_result, refund_next, refund_result,
    resolved, ContractView,
};
use crate::order::{Order, OrderView, PaymentMethod};
use crate::promise::{
    Callback, Receipt, ReceiptView, RefundStep, RefundStepView, Transfer, FT_TRANSFER_DEPOSIT,
    TRANSFER_GAS,
};
use crate::store::OrderStore;
use vstd::prelude::*;

verus! {

/// The identifier of an order, chosen by the merchant.
pub type OrderId = String;

/// The payment contract: its owner, the token contract it accepts payments
/// from, and the orders it has recorded.
pub struct EcommerceContract {
    pub owner_id: String,
    pub ft_contract_id: String,
    pub orders: OrderStore,
}

impl View for EcommerceContract {
    type V = ContractView;

    open spec fn view(&self) -> ContractView {
        ContractView {
            owner_id: self.owner_id@,
            ft_contract_id: self.ft_contract_id@,
            orders: self.orders@,
        }
    }
}

/// The entry point that the host calls on this contract's behalf.
pub trait ExtEcommerceContract {
    /// The continuation of a refund, run once the transfer is resolved.
    /// `results` are the results the host holds for this continuation.
    fn pay_order_callbacks(
        &mut self,
        env: &Context,
        results: &[PromiseResult],
        order_id: OrderId,
    ) -> (outcome: Result<u128, PaymentError>)
        requires
            resolved(results@),
    ;
}

impl ExtEcommerceContract for EcommerceContract {
    /// Reconciles the refund of `order_id` with what became of its transfer.
    ///
    /// The continuation is internal: only the contract itself may run it,
    /// and a call from any other account is `Unauthorized` and changes
    /// nothing. Exactly one result is expected; any other number is
    /// `TooManyResults`. After a successful transfer the refund stands and
    /// the call reports zero. After a failed one the order's refund flag is
    /// cleared, so that the owner can ask again, and the call reports the
    /// amount that did not move; `NotFound` where no such order is on record.
    fn pay_order_callbacks(
        &mut self,
        env: &Context,
        results: &[PromiseResult],
        order_id: OrderId,
    ) -> (outcome: Result<u128, PaymentError>)
        ensures
            final(self)@ == callback_next(old(self)@, env@, results@, order_id@),
            outcome == callback_result(old(self)@, env@, results@, order_id@),
    {
        if !(env.predecessor_account_id == env.current_account_id) {
            return Err(PaymentError::Unauthorized);
        }
        if results.len() != 1 {
            return Err(PaymentError::TooManyResults);
        }
        match results[0] {
            PromiseResult::Failed => {
                let mut order = match self.get_order(order_id.clone()) {
                    Ok(order) => order,
                    Err(error) => {
                        return Err(error);
                    },
                };
                order.is_refund = false;
                let amount = order.amount;
                self.orders.upsert(order_id, order);
                Ok(amount)
            },
            _ => Ok(0),
        }
    }
}

impl EcommerceContract {
    /// A contract owned by `owner_id` that accepts token payments through
    /// `ft_contract_id`, with no order on record.
    pub fn new(owner_id: String, ft_contract_id: String) -> (contract: Self)
        ensures
            contract@ == (ContractView {
                owner_id: owner_id@,
                ft_contract_id: ft_contract_id@,
                orders: Map::<Seq<char>, OrderView>::empty(),
            }),
    {
        EcommerceContract { owner_id, ft_contract_id, orders: OrderStore::new() }
    }

    /// Records a payment in native currency for `order_id`.
    ///
    /// The deposit attached to the call must cover `order_amount`, else the
    /// call is rejected with `InsufficientDeposit`. No completed order may
    /// be on record under `order_id`, else the call is rejected with
    /// `DuplicateOrder`: a completed order is never written over. A rejected
    /// call records nothing. The order is recorded for the signer, with the
    /// whole deposit as the amount received. What the deposit holds beyond
    /// `order_amount` is reported as change, along with the transfer that
    /// gives it back to the signer.
    pub fn pay_order(&mut self, env: &Context, order_id: OrderId, order_amount: u128) -> (outcome:
        Result<Receipt, PaymentError>)
        ensures
            final(self)@ == pay_order_next(old(self)@, env@, order_id@, order_amount),
            match outcome {
                Ok(receipt) => pay_order_result(old(self)@, env@, order_id@, order_amount) == Ok::<
                    ReceiptView,
                    PaymentError,
                >(receipt@),
                Err(error) => pay_order_result(old(self)@, env@, order_id@, order_amount) == Err::<
                    ReceiptView,
                    PaymentError,
                >(error),
            },
    {
        if env.attached_deposit < order_amount {
            return Err(PaymentError::InsufficientDeposit);
        }
        match self.orders.get(order_id.as_str()) {
            Ok(order) => {
                if order.is_completed {
                    return Err(PaymentError::DuplicateOrder);
                }
            },
            Err(_) => {},
        }
        let order = Order {
            order_id: order_id.clone(),
            payer_id: env.signer_account_id.clone(),
            payment_method: PaymentMethod::Near,
            amount: order_amount,
            received_amount: env.attached_deposit,
            is_completed: true,
            is_refund: false,
            created_at: env.block_timestamp,
        };
        self.orders.upsert(order_id, order);
        if env.attached_deposit > order_amount {
            let change = env.attached_deposit - order_amount;
            let transfer = Transfer::Near {
                receiver_id: env.signer_account_id.clone(),
                amount: change,
            };
            Ok(Receipt { change, transfer: Some(transfer) })
        } else {
            Ok(Receipt { change: 0, transfer: None })
        }
    }

    /// Starts the refund of `order_id`.
    ///
    /// Only the owner may ask: any other caller is `Unauthorized`. The order
    /// must be on record (`NotFound`), completed and with no refund pending
    /// or confirmed (`InvalidState`). An accepted request sets the order's
    /// refund flag at once. For an order of amount zero that is all. For any
    /// other the call hands back the one transfer that returns the order's
    /// amount to its payer on the rail it was paid on, and the continuation
    /// that the host is to run when the transfer is resolved.
    pub fn refund(&mut self, env: &Context, order_id: OrderId) -> (outcome: Result<
        RefundStep,
        PaymentError,
    >)
        ensures
            final(self)@ == refund_next(old(self)@, env@, order_id@),
            match outcome {
                Ok(step) => refund_result(old(self)@, env@, order_id@) == Ok::<
                    RefundStepView,
                    PaymentError,
                >(step@),
                Err(error) => refund_result(old(self)@, env@, order_id@) == Err::<
                    RefundStepView,
                    PaymentError,
                >(error),
            },
    {
        if !(env.predecessor_account_id == self.owner_id) {
            return Err(PaymentError::Unauthorized);
        }
        let mut order = match self.get_order(order_id.clone()) {
            Ok(order) => order,
            Err(error) => {
                return Err(error);
            },
        };
        if !(order.is_completed && !order.is_refund) {
            return Err(PaymentError::InvalidState);
        }
        order.is_refund = true;
        let amount = order.amount;
        let payment_method = order.payment_method;
        let payer_id = order.payer_id.clone();
        self.orders.upsert(order_id.clone(), order);
        if amount > 0 {
            let transfer = match payment_method {
                PaymentMethod::Near => Transfer::Near { receiver_id: payer_id, amount },
                PaymentMethod::FungibleToken => Transfer::FungibleToken {
                    contract_id: self.ft_contract_id.clone(),
                    receiver_id: payer_id,
                    amount,
                    memo: "Refund order from payment contract".to_owned(),
                    deposit: FT_TRANSFER_DEPOSIT,
                    gas: TRANSFER_GAS,
                },
            };
            let callback = Callback {
                contract_id: env.current_account_id.clone(),
                order_id,
                deposit: 0,
                gas: TRANSFER_GAS,
            };
            Ok(RefundStep::Dispatch { transfer, callback })
        } else {
            Ok(RefundStep::Settled)
        }
    }

    /// The order on record under `order_id`; `NotFound` where there is none.
    pub fn get_order(&self, order_id: OrderId) -> (outcome: Result<Order, PaymentError>)
        ensures
            self@.orders.contains_key(order_id@) ==> (outcome matches Ok(order) && order@
                == self@.orders[order_id@]),
            !self@.orders.contains_key(order_id@) ==> outcome == Err::<Order, PaymentError>(
                PaymentError::NotFound,
            ),
    {
        self.orders.get(order_id.as_str())
    }
}

} // verus!
