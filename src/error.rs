use vstd::prelude::*;

verus! {

/// Everything that can go wrong in the orchestration core.
#[derive(Debug, Clone, PartialEq, Eq)]
pub enum WalletError {
    /// A requested or paid amount was zero.
    InvoiceAmountZero,
    /// The description of a receivable invoice is not acceptable.
    DescriptionInvalid,
    /// The settlement stream reported a cancellation; the reason is forwarded as is.
    InvoiceCanceled(String),
    /// The spendable balance is below the amount an invoice asks for.
    InsufficientBalance,
    /// The gateway directory was empty after a refresh.
    NoGatewaysFound,
    /// The operation id is not known to the client.
    OperationNotFound,
    /// The settlement stream ended without a terminal state.
    NoUpdatesReceived,
    /// No local identity exists and no invite code was supplied.
    ConfigurationMissing,
    /// A failure of a lower layer, carried without reinterpretation.
    Other(String),
}

} // verus!
