//! The receiving side of the fungible-token standard: the message that a
//! payer sends along with a transfer, and the hook that the token contract
//! calls when tokens have arrived.

use crate::amount::{amount_of, parse_amount};
use crate::context::Context;
use crate::error::PaymentError;
use crate::json::{first_text, json_object, JsonObject};
use crate::model::{ft_on_transfer_next, ft_on_transfer_result};
use crate::order::{Order, PaymentMethod};
use crate::EcommerceContract;
use vstd::prelude::*;

verus! {

/// The payload of a transfer notification: which order is paid, and how much
/// of the transfer is meant for it.
#[derive(Debug, PartialEq, Eq)]
pub struct FtMessage {
    pub order_id: String,
    pub order_amount: u128,
}

/// An [`FtMessage`] for specifications.
pub struct FtMessageView {
    pub order_id: Seq<char>,
    pub order_amount: u128,
}

impl View for FtMessage {
    type V = FtMessageView;

    open spec fn view(&self) -> FtMessageView {
        FtMessageView { order_id: self.order_id@, order_amount: self.order_amount }
    }
}

/// The name of the member that holds the order's id.
pub open spec fn order_id_key() -> Seq<char> {
    "order_id"@
}

/// The name of the member that holds the order's amount.
pub open spec fn order_amount_key() -> Seq<char> {
    "order_amount"@
}

impl FtMessage {
    /// The message that the members of a JSON object hold: a string member
    /// `order_id`, and a string member `order_amount` that writes an amount
    /// in decimal. Other members are ignored. Of members of one name, which
    /// a parsed object never has, the first counts.
    pub open spec fn spec_from_members(members: Seq<(String, Option<String>)>) -> Option<
        FtMessageView,
    > {
        match (first_text(members, order_id_key()), first_text(members, order_amount_key())) {
            (Some(order_id), Some(amount)) => match amount_of(amount) {
                Some(order_amount) => Some(FtMessageView { order_id, order_amount }),
                None => None,
            },
            _ => None,
        }
    }

    /// The message that a payload holds, where it is a JSON object that
    /// holds one.
    pub open spec fn spec_parse(msg: Seq<char>) -> Option<FtMessageView> {
        match json_object(msg) {
            Some(members) => Self::spec_from_members(members),
            None => None,
        }
    }

    /// Reads a message out of a parsed JSON object.
    pub fn from_json(object: &JsonObject) -> (message: Option<FtMessage>)
        ensures
            match Self::spec_from_members(object.members@) {
                Some(view) => message matches Some(m) && m@ == view,
                None => message is None,
            },
    {
        match (object.text_member("order_id"), object.text_member("order_amount")) {
            (Some(order_id), Some(amount)) => match parse_amount(amount.as_str()) {
                Some(order_amount) => Some(FtMessage { order_id: order_id.clone(), order_amount }),
                None => None,
            },
            _ => None,
        }
    }

    /// Reads a message out of a notification's payload. A payload that is
    /// not a JSON object, or whose object holds no message, is an invalid
    /// message. A payload that gives `order_id` or `order_amount` more than
    /// once is read, not rejected: of a repeated name the value given last
    /// counts.
    pub fn parse(msg: &str) -> (outcome: Result<FtMessage, PaymentError>)
        ensures
            match Self::spec_parse(msg@) {
                Some(view) => outcome matches Ok(m) && m@ == view,
                None => outcome == Err::<FtMessage, PaymentError>(PaymentError::InvalidMessage),
            },
    {
        match JsonObject::parse(msg) {
            Ok(object) => match Self::from_json(&object) {
                Some(message) => Ok(message),
                None => Err(PaymentError::InvalidMessage),
            },
            Err(error) => Err(error),
        }
    }
}

/// The hook of the fungible-token standard on the receiving contract.
pub trait FungibleTokenReceiver {
    /// Called by the token contract after it has moved `amount` from
    /// `sender_id` to this contract, with the payload the sender gave.
    /// Returns the part of `amount` that is not used and goes back.
    fn ft_on_transfer(&mut self, env: &Context, sender_id: String, amount: u128, msg: String) -> (outcome:
        Result<u128, PaymentError>);
}

impl FungibleTokenReceiver for EcommerceContract {
    /// Records a payment in fungible tokens for the order that `msg` names.
    ///
    /// What `receive_transfer` does, on the message that `msg` holds.
    fn ft_on_transfer(&mut self, env: &Context, sender_id: String, amount: u128, msg: String) -> (outcome:
        Result<u128, PaymentError>)
        ensures
            final(self)@ == ft_on_transfer_next(
                old(self)@,
                env@,
                sender_id@,
                amount,
                FtMessage::spec_parse(msg@),
            ),
            outcome == ft_on_transfer_result(old(self)@, env@, amount, FtMessage::spec_parse(msg@)),
    {
        let message = match FtMessage::parse(msg.as_str()) {
            Ok(message) => Some(message),
            Err(_) => None,
        };
        self.receive_transfer(env, sender_id, amount, message)
    }
}

impl EcommerceContract {
    /// Records a payment in fungible tokens, given the message that the
    /// notification's payload held (`None`: it held none).
    ///
    /// Only the configured token contract may call: any other caller is
    /// `Unauthorized`, whatever the payload. A payload without a message is
    /// `InvalidMessage`. The transfer must cover the order's amount
    /// (`InsufficientAmount`), and no completed order may be on record under
    /// the order's id (`DuplicateOrder`). A rejected call records nothing.
    /// The order is recorded for `sender_id` with the whole transfer as the
    /// amount received; what the transfer holds beyond the order's amount is
    /// returned.
    pub fn receive_transfer(
        &mut self,
        env: &Context,
        sender_id: String,
        amount: u128,
        message: Option<FtMessage>,
    ) -> (outcome: Result<u128, PaymentError>)
        ensures
            final(self)@ == ft_on_transfer_next(
                old(self)@,
                env@,
                sender_id@,
                amount,
                match message {
                    Some(m) => Some(m@),
                    None => None,
                },
            ),
            outcome == ft_on_transfer_result(
                old(self)@,
                env@,
                amount,
                match message {
                    Some(m) => Some(m@),
                    None => None,
                },
            ),
    {
        if !(env.predecessor_account_id == self.ft_contract_id) {
            return Err(PaymentError::Unauthorized);
        }
        let message = match message {
            Some(message) => message,
            None => {
                return Err(PaymentError::InvalidMessage);
            },
        };
        if amount < message.order_amount {
            return Err(PaymentError::InsufficientAmount);
        }
        match self.orders.get(message.order_id.as_str()) {
            Ok(order) => {
                if order.is_completed {
                    return Err(PaymentError::DuplicateOrder);
                }
            },
            Err(_) => {},
        }
        let order = Order {
            order_id: message.order_id.clone(),
            payer_id: sender_id,
            payment_method: PaymentMethod::FungibleToken,
            amount: message.order_amount,
            received_amount: amount,
            is_completed: true,
            is_refund: false,
            created_at: env.block_timestamp,
        };
        self.orders.upsert(message.order_id, order);
        Ok(amount - message.order_amount)
    }
}

} // verus!
