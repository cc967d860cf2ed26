//! The order record and its mathematical view.

use vstd::prelude::*;

verus! {

/// The rail on which an order was paid, and on which a refund goes back.
#[derive(Clone, Copy, Debug, PartialEq, Eq, Structural)]
pub enum PaymentMethod {
    /// The ledger's native currency, attached to the call as a deposit.
    Near,
    /// A token issued by the configured fungible-token contract.
    FungibleToken,
}

/// A payment record, stored under its `order_id`.
#[derive(Debug, PartialEq, Eq)]
pub struct Order {
    /// The merchant-chosen identifier of the order.
    pub order_id: String,
    /// The account that paid.
    pub payer_id: String,
    /// The rail the payment came in on.
    pub payment_method: PaymentMethod,
    /// The requested settlement amount; a refund returns exactly this.
    pub amount: u128,
    /// The amount captured at intake; never less than `amount`.
    pub received_amount: u128,
    /// Set once intake has recorded the order.
    pub is_completed: bool,
    /// Set while a refund is pending or confirmed.
    pub is_refund: bool,
    /// The block timestamp at intake.
    pub created_at: u64,
}

/// What an [`Order`] is to a specification: its fields, with texts as
/// sequences of characters.
pub struct OrderView {
    pub order_id: Seq<char>,
    pub payer_id: Seq<char>,
    pub payment_method: PaymentMethod,
    pub amount: u128,
    pub received_amount: u128,
    pub is_completed: bool,
    pub is_refund: bool,
    pub created_at: u64,
}

impl View for Order {
    type V = OrderView;

    open spec fn view(&self) -> OrderView {
        OrderView {
            order_id: self.order_id@,
            payer_id: self.payer_id@,
            payment_method: self.payment_method,
            amount: self.amount,
            received_amount: self.received_amount,
            is_completed: self.is_completed,
            is_refund: self.is_refund,
            created_at: self.created_at,
        }
    }
}

impl OrderView {
    /// Whether a refund may be requested for this order.
    pub open spec fn refundable(self) -> bool {
        self.is_completed && !self.is_refund
    }

    /// This order with its refund flag set to `flag` and nothing else changed.
    pub open spec fn with_refund(self, flag: bool) -> OrderView {
        OrderView { is_refund: flag, ..self }
    }
}

impl Clone for Order {
    fn clone(&self) -> (copy: Self)
        ensures
            copy@ == self@,
    {
        Order {
            order_id: self.order_id.clone(),
            payer_id: self.payer_id.clone(),
            payment_method: self.payment_method,
            amount: self.amount,
            received_amount: self.received_amount,
            is_completed: self.is_completed,
            is_refund: self.is_refund,
            created_at: self.created_at,
        }
    }
}

} // verus!
