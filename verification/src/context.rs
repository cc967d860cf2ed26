//! What the host tells a call about itself: who calls, what is attached, when.

use vstd::prelude::*;

verus! {

/// The circumstances of one call, as the host reports them.
#[derive(Debug, PartialEq, Eq)]
pub struct Context {
    /// The account this contract runs under.
    pub current_account_id: String,
    /// The account that signed the transaction.
    pub signer_account_id: String,
    /// The account that made this call directly.
    pub predecessor_account_id: String,
    /// The native currency attached to the call.
    pub attached_deposit: u128,
    /// The timestamp of the block the call runs in.
    pub block_timestamp: u64,
}

/// A [`Context`] for specifications.
pub struct ContextView {
    pub current_account_id: Seq<char>,
    pub signer_account_id: Seq<char>,
    pub predecessor_account_id: Seq<char>,
    pub attached_deposit: u128,
    pub block_timestamp: u64,
}

impl View for Context {
    type V = ContextView;

    open spec fn view(&self) -> ContextView {
        ContextView {
            current_account_id: self.current_account_id@,
            signer_account_id: self.signer_account_id@,
            predecessor_account_id: self.predecessor_account_id@,
            attached_deposit: self.attached_deposit,
            block_timestamp: self.block_timestamp,
        }
    }
}

/// How an asynchronous transfer ended, as a continuation finds it.
#[derive(Clone, Copy, Debug, PartialEq, Eq, Structural)]
pub enum PromiseResult {
    /// The transfer has not been resolved. The host never shows this to a
    /// continuation.
    NotReady,
    /// The transfer went through.
    Successful,
    /// The transfer failed; no funds moved.
    Failed,
}

} // verus!
