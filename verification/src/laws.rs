//! What holds of the contract across calls, proved of the state machine in
//! [`crate::model`] that the entry points are specified to compute.

use crate::context::{ContextView, PromiseResult};
use crate::error::PaymentError;
use crate::ft_contract::FtMessageView;
use crate::model::{
    callback_next, callback_result, called_by_itself, completed_order, ft_on_transfer_next,
    ft_on_transfer_result, pay_order_next, pay_order_result, refund_callback, refund_next,
    refund_result, ContractView,
};
use crate::order::OrderView;
use crate::promise::{ReceiptView, RefundStepView, TransferView};
use vstd::prelude::*;

verus! {

/// Between `before` and `after` the configuration is the same and the order
/// under `order_id` is on record unchanged.
pub open spec fn untouched(before: ContractView, after: ContractView, order_id: Seq<char>) -> bool {
    &&& after.owner_id == before.owner_id
    &&& after.ft_contract_id == before.ft_contract_id
    &&& after.orders.contains_key(order_id)
    &&& after.orders[order_id] == before.orders[order_id]
}

/// A payment whose deposit does not cover the declared amount is rejected
/// with `InsufficientDeposit`, and nothing is recorded.
pub proof fn law_underpaid_order_is_rejected(
    state: ContractView,
    env: ContextView,
    order_id: Seq<char>,
    order_amount: u128,
)
    requires
        env.attached_deposit < order_amount,
    ensures
        pay_order_result(state, env, order_id, order_amount) == Err::<ReceiptView, PaymentError>(
            PaymentError::InsufficientDeposit,
        ),
        pay_order_next(state, env, order_id, order_amount) == state,
{
}

/// A payment whose deposit covers the declared amount, for an id under which
/// no completed order is on record, is accepted: the order on record
/// afterwards holds the declared amount and the whole deposit, is completed
/// and not refunded, and the change is the difference.
pub proof fn law_covered_order_is_recorded(
    state: ContractView,
    env: ContextView,
    order_id: Seq<char>,
    order_amount: u128,
)
    requires
        env.attached_deposit >= order_amount,
        !completed_order(state, order_id),
    ensures
        pay_order_result(state, env, order_id, order_amount) matches Ok(receipt) && receipt.change
            == env.attached_deposit - order_amount && (receipt.transfer is Some <==> receipt.change
            > 0),
        ({
            let after = pay_order_next(state, env, order_id, order_amount);
            &&& after.orders.contains_key(order_id)
            &&& after.orders[order_id].amount == order_amount
            &&& after.orders[order_id].received_amount == env.attached_deposit
            &&& after.orders[order_id].payer_id == env.signer_account_id
            &&& after.orders[order_id].is_completed
            &&& !after.orders[order_id].is_refund
        }),
{
}

/// A transfer notification from any caller but the configured token contract
/// is rejected with `Unauthorized`, whatever its payload holds, and nothing
/// is recorded.
pub proof fn law_foreign_notification_is_unauthorized(
    state: ContractView,
    env: ContextView,
    sender_id: Seq<char>,
    amount: u128,
    message: Option<FtMessageView>,
)
    requires
        env.predecessor_account_id != state.ft_contract_id,
    ensures
        ft_on_transfer_result(state, env, amount, message) == Err::<u128, PaymentError>(
            PaymentError::Unauthorized,
        ),
        ft_on_transfer_next(state, env, sender_id, amount, message) == state,
{
}

/// An accepted transfer notification splits the transfer in two: the order
/// on record holds the declared amount, and what is returned is the rest.
pub proof fn law_notification_returns_the_residual(
    state: ContractView,
    env: ContextView,
    sender_id: Seq<char>,
    amount: u128,
    message: FtMessageView,
)
    requires
        ft_on_transfer_result(state, env, amount, Some(message)) is Ok,
    ensures
        ft_on_transfer_result(state, env, amount, Some(message))->Ok_0 + message.order_amount
            == amount,
        ({
            let after = ft_on_transfer_next(state, env, sender_id, amount, Some(message));
            &&& after.orders.contains_key(message.order_id)
            &&& after.orders[message.order_id].amount == message.order_amount
            &&& after.orders[message.order_id].received_amount == amount
            &&& after.orders[message.order_id].payer_id == sender_id
            &&& after.orders[message.order_id].refundable()
        }),
{
}

/// Intake never writes over a completed order: a payment in native currency
/// whose deposit covers its amount, and a notification from the token
/// contract whose transfer covers its message's amount, are rejected with
/// `DuplicateOrder` where a completed order is on record under the id, and
/// no payment on either rail, accepted or not, changes that order.
pub proof fn law_completed_order_is_never_overwritten(
    state: ContractView,
    env: ContextView,
    order_id: Seq<char>,
    order_amount: u128,
    sender_id: Seq<char>,
    amount: u128,
    message: Option<FtMessageView>,
)
    requires
        completed_order(state, order_id),
    ensures
        env.attached_deposit >= order_amount ==> pay_order_result(
            state,
            env,
            order_id,
            order_amount,
        ) == Err::<ReceiptView, PaymentError>(PaymentError::DuplicateOrder),
        pay_order_next(state, env, order_id, order_amount) == state,
        (message matches Some(m) && m.order_id == order_id && amount >= m.order_amount
            && env.predecessor_account_id == state.ft_contract_id) ==> ft_on_transfer_result(
            state,
            env,
            amount,
            message,
        ) == Err::<u128, PaymentError>(PaymentError::DuplicateOrder),
        untouched(state, ft_on_transfer_next(state, env, sender_id, amount, message), order_id),
{
}

/// In a consistent contract intake only adds orders: no payment on either
/// rail, accepted or not, changes or removes an order that is on record.
/// What changes an order is a refund request and its continuation.
pub proof fn law_intake_only_adds_orders(
    state: ContractView,
    env: ContextView,
    order_id: Seq<char>,
    order_amount: u128,
    sender_id: Seq<char>,
    amount: u128,
    message: Option<FtMessageView>,
    kept: Seq<char>,
)
    requires
        state.consistent(),
        state.orders.contains_key(kept),
    ensures
        untouched(state, pay_order_next(state, env, order_id, order_amount), kept),
        untouched(state, ft_on_transfer_next(state, env, sender_id, amount, message), kept),
{
}

/// An order is paid once: after a payment on either rail has been accepted,
/// the order it recorded is completed, so that every further payment for
/// its id falls under `law_completed_order_is_never_overwritten`.
pub proof fn law_accepted_payment_completes_the_order(
    state: ContractView,
    env: ContextView,
    order_id: Seq<char>,
    order_amount: u128,
    sender_id: Seq<char>,
    amount: u128,
    message: FtMessageView,
)
    ensures
        pay_order_result(state, env, order_id, order_amount) is Ok ==> completed_order(
            pay_order_next(state, env, order_id, order_amount),
            order_id,
        ),
        ft_on_transfer_result(state, env, amount, Some(message)) is Ok ==> completed_order(
            ft_on_transfer_next(state, env, sender_id, amount, Some(message)),
            message.order_id,
        ),
{
}

/// A refund asked for by anyone but the owner is rejected with
/// `Unauthorized`; one that the owner asks for an order that is not on
/// record is rejected with `NotFound`. Neither changes anything.
pub proof fn law_refund_needs_owner_and_order(
    state: ContractView,
    env: ContextView,
    order_id: Seq<char>,
)
    ensures
        env.predecessor_account_id != state.owner_id ==> refund_result(state, env, order_id)
            == Err::<RefundStepView, PaymentError>(PaymentError::Unauthorized),
        env.predecessor_account_id == state.owner_id && !state.orders.contains_key(order_id)
            ==> refund_result(state, env, order_id) == Err::<RefundStepView, PaymentError>(
            PaymentError::NotFound,
        ),
        refund_result(state, env, order_id) is Err ==> refund_next(state, env, order_id) == state,
{
}

/// The owner's refund request for a refundable order is accepted, and it
/// moves the amount the order was placed for, not the amount received, to
/// the order's payer.
pub proof fn law_refund_returns_the_order_amount(
    state: ContractView,
    env: ContextView,
    order_id: Seq<char>,
)
    requires
        env.predecessor_account_id == state.owner_id,
        state.orders.contains_key(order_id),
        state.orders[order_id].refundable(),
    ensures
        refund_result(state, env, order_id) is Ok,
        refund_next(state, env, order_id).orders[order_id].is_refund,
        state.orders[order_id].amount > 0 ==> (refund_result(state, env, order_id) matches Ok(
            RefundStepView::Dispatch { transfer, callback },
        ) && callback == refund_callback(env, order_id) && callback.order_id == order_id && (
        transfer matches TransferView::Near { receiver_id, amount } ==> receiver_id
            == state.orders[order_id].payer_id && amount == state.orders[order_id].amount) && (
        transfer matches TransferView::FungibleToken { contract_id, receiver_id, amount, .. }
            ==> contract_id == state.ft_contract_id && receiver_id
            == state.orders[order_id].payer_id && amount == state.orders[order_id].amount)),
{
}

/// Once a refund request has been accepted, a further request for the same
/// order is rejected with `InvalidState`: while the transfer is pending, and
/// for good once the continuation has seen the transfer succeed.
pub proof fn law_refund_is_accepted_once(
    state: ContractView,
    env: ContextView,
    order_id: Seq<char>,
    host: ContextView,
    again: ContextView,
)
    requires
        refund_result(state, env, order_id) is Ok,
        called_by_itself(host),
        again.predecessor_account_id == state.owner_id,
    ensures
        ({
            let pending = refund_next(state, env, order_id);
            let done = seq![PromiseResult::Successful];
            let refunded = callback_next(pending, host, done, order_id);
            &&& refund_result(pending, again, order_id) == Err::<RefundStepView, PaymentError>(
                PaymentError::InvalidState,
            )
            &&& callback_result(pending, host, done, order_id) == Ok::<u128, PaymentError>(0)
            &&& refunded == pending
            &&& refund_result(refunded, again, order_id) == Err::<RefundStepView, PaymentError>(
                PaymentError::InvalidState,
            )
        }),
{
}

/// When the continuation sees that the transfer of an accepted refund has
/// failed, it reports the order's amount and puts the contract back as it
/// was before the request: the order's refund flag is clear, and the owner's
/// next request for it is accepted.
pub proof fn law_failed_transfer_is_compensated(
    state: ContractView,
    env: ContextView,
    order_id: Seq<char>,
    host: ContextView,
    again: ContextView,
)
    requires
        refund_result(state, env, order_id) is Ok,
        called_by_itself(host),
        again.predecessor_account_id == state.owner_id,
    ensures
        ({
            let pending = refund_next(state, env, order_id);
            let failed = seq![PromiseResult::Failed];
            let restored = callback_next(pending, host, failed, order_id);
            &&& callback_result(pending, host, failed, order_id) == Ok::<u128, PaymentError>(
                state.orders[order_id].amount,
            )
            &&& !restored.orders[order_id].is_refund
            &&& restored == state
            &&& refund_result(restored, again, order_id) is Ok
        }),
{
    let pending = refund_next(state, env, order_id);
    let restored = callback_next(pending, host, seq![PromiseResult::Failed], order_id);
    assert(restored.orders =~= state.orders);
}

/// The continuation is internal: run by any account but the contract
/// itself it is rejected with `Unauthorized`, whatever the results, and
/// changes nothing. No outside account can clear an order's refund flag.
pub proof fn law_continuation_is_internal(
    state: ContractView,
    env: ContextView,
    results: Seq<PromiseResult>,
    order_id: Seq<char>,
)
    requires
        env.predecessor_account_id != env.current_account_id,
    ensures
        callback_result(state, env, results, order_id) == Err::<u128, PaymentError>(
            PaymentError::Unauthorized,
        ),
        callback_next(state, env, results, order_id) == state,
{
}

/// A continuation that does not find exactly one result is rejected with
/// `TooManyResults` and changes nothing.
pub proof fn law_continuation_takes_one_result(
    state: ContractView,
    env: ContextView,
    results: Seq<PromiseResult>,
    order_id: Seq<char>,
)
    requires
        called_by_itself(env),
        results.len() != 1,
    ensures
        callback_result(state, env, results, order_id) == Err::<u128, PaymentError>(
            PaymentError::TooManyResults,
        ),
        callback_next(state, env, results, order_id) == state,
{
}

/// The refund of an order of amount zero is settled by the request itself:
/// no transfer is dispatched, and the order is left as it was but for its
/// refund flag.
pub proof fn law_empty_refund_moves_nothing(
    state: ContractView,
    env: ContextView,
    order_id: Seq<char>,
)
    requires
        refund_result(state, env, order_id) is Ok,
        state.orders[order_id].amount == 0,
    ensures
        refund_result(state, env, order_id) == Ok::<RefundStepView, PaymentError>(
            RefundStepView::Settled,
        ),
        refund_next(state, env, order_id).orders[order_id] == state.orders[order_id].with_refund(
            true,
        ),
{
}

/// A contract with no order on record is consistent.
pub proof fn law_new_contract_is_consistent(owner_id: Seq<char>, ft_contract_id: Seq<char>)
    ensures
        (ContractView {
            owner_id,
            ft_contract_id,
            orders: Map::<Seq<char>, OrderView>::empty(),
        }).consistent(),
{
}

/// No call makes a consistent contract inconsistent: whatever is on record
/// stays under its own id, completed, and with no less received than asked.
pub proof fn law_calls_keep_consistency(
    state: ContractView,
    env: ContextView,
    order_id: Seq<char>,
    sender_id: Seq<char>,
    amount: u128,
    message: Option<FtMessageView>,
    results: Seq<PromiseResult>,
)
    requires
        state.consistent(),
    ensures
        pay_order_next(state, env, order_id, amount).consistent(),
        ft_on_transfer_next(state, env, sender_id, amount, message).consistent(),
        refund_next(state, env, order_id).consistent(),
        callback_next(state, env, results, order_id).consistent(),
{
}

/// No call changes the owner or the token contract, removes an order, or
/// touches an order other than the one it is about.
pub proof fn law_calls_touch_one_order(
    state: ContractView,
    env: ContextView,
    order_id: Seq<char>,
    sender_id: Seq<char>,
    amount: u128,
    message: FtMessageView,
    results: Seq<PromiseResult>,
    other: Seq<char>,
)
    requires
        state.orders.contains_key(other),
        other != order_id,
        other != message.order_id,
    ensures
        untouched(state, pay_order_next(state, env, order_id, amount), other),
        untouched(state, ft_on_transfer_next(state, env, sender_id, amount, Some(message)), other),
        untouched(state, refund_next(state, env, order_id), other),
        untouched(state, callback_next(state, env, results, order_id), other),
{
}

} // verus!
