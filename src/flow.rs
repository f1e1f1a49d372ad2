use vstd::prelude::*;

use lightning_invoice::Bolt11Invoice;

use crate::error::WalletError;
use crate::gateway::{best_gateway_index, is_first_longest_lived, GatewayAnnouncement};

verus! {

/// An issued invoice: the id of the operation that tracks its settlement, and
/// the encoded payment request.
#[derive(Debug, Clone, PartialEq, Eq)]
pub struct InvoiceInfo {
    pub operation_id: [u8; 32],
    pub invoice: String,
}

/// The next thing the caller of an invoice or payment flow has to do.
#[derive(Debug, Clone, PartialEq, Eq)]
pub enum Step {
    /// Refresh the gateway directory, list it, and hand the announcements back.
    ListGateways,
    /// Read the spendable balance and hand it back.
    FetchBalance,
    /// Submit through the gateway at this index of the listed announcements.
    Submit(usize),
    /// Stop with this error; nothing further is sent.
    Fail(WalletError),
}

/// What follows once the gateway directory has been listed.
pub open spec fn gateway_choice(gs: Seq<GatewayAnnouncement>) -> Step {
    if gs.len() == 0 {
        Step::Fail(WalletError::NoGatewaysFound)
    } else {
        Step::Submit(choose|i: usize| is_first_longest_lived(gs, i as int))
    }
}

/// First step of issuing an invoice, before any network access.
pub open spec fn invoice_start(amount_msat: u64, description_ok: bool) -> Step {
    if amount_msat == 0 {
        Step::Fail(WalletError::InvoiceAmountZero)
    } else if !description_ok {
        Step::Fail(WalletError::DescriptionInvalid)
    } else {
        Step::ListGateways
    }
}

/// First step of paying an invoice that encodes `amount` (if any).
pub open spec fn payment_start(amount: Option<u64>) -> Step {
    match amount {
        Some(a) => if a == 0 {
            Step::Fail(WalletError::InvoiceAmountZero)
        } else {
            Step::FetchBalance
        },
        None => Step::ListGateways,
    }
}

/// What follows once the balance is known, for an invoice of `amount_msat`.
pub open spec fn payment_funds(amount_msat: u64, balance_msat: u64) -> Step {
    if balance_msat < amount_msat {
        Step::Fail(WalletError::InsufficientBalance)
    } else {
        Step::ListGateways
    }
}

/// The steps an invoice flow takes when the directory lists `gs`.
pub open spec fn invoice_trace(amount_msat: u64, description_ok: bool, gs: Seq<GatewayAnnouncement>) -> Seq<Step> {
    let first = invoice_start(amount_msat, description_ok);
    if first is Fail {
        seq![first]
    } else {
        seq![first, gateway_choice(gs)]
    }
}

/// The steps a payment flow takes for an invoice encoding `amount`, with
/// spendable balance `balance_msat`, when the directory lists `gs`.
pub open spec fn payment_trace(amount: Option<u64>, balance_msat: u64, gs: Seq<GatewayAnnouncement>) -> Seq<Step> {
    let first = payment_start(amount);
    match first {
        Step::Fail(_) => seq![first],
        Step::FetchBalance => {
            let funds = payment_funds(amount.unwrap(), balance_msat);
            if funds is Fail {
                seq![first, funds]
            } else {
                seq![first, funds, gateway_choice(gs)]
            }
        },
        _ => seq![first, gateway_choice(gs)],
    }
}

/// Picks the gateway to submit through, once the directory has been listed.
pub fn gateway_step(gateways: &Vec<GatewayAnnouncement>) -> (r: Step)
    ensures
        r == gateway_choice(gateways@),
{
    match best_gateway_index(gateways) {
        Ok(i) => {
            proof {
                let c = choose|j: usize| is_first_longest_lived(gateways@, j as int);
                crate::gateway::lemma_best_gateway_unique(gateways@, i as int, c as int);
            }
            Step::Submit(i)
        },
        Err(e) => Step::Fail(e),
    }
}

/// Validates a request for a receivable invoice before any network access.
pub fn begin_invoice(amount_msat: u64, description: &String) -> (r: Step)
    ensures
        r == invoice_start(amount_msat, crate::lightning::description_fits(description@)),
{
    if amount_msat == 0 {
        return Step::Fail(WalletError::InvoiceAmountZero);
    }
    if !crate::lightning::description_is_valid(description) {
        return Step::Fail(WalletError::DescriptionInvalid);
    }
    Step::ListGateways
}

/// First step of paying an invoice that encodes `amount_msat` (if any).
pub fn begin_payment(amount_msat: Option<u64>) -> (r: Step)
    ensures
        r == payment_start(amount_msat),
{
    match amount_msat {
        Some(a) => if a == 0 {
            Step::Fail(WalletError::InvoiceAmountZero)
        } else {
            Step::FetchBalance
        },
        None => Step::ListGateways,
    }
}

/// Checks the balance against the invoice's amount, before any submission.
pub fn payment_balance_step(amount_msat: u64, balance_msat: u64) -> (r: Step)
    ensures
        r == payment_funds(amount_msat, balance_msat),
{
    if balance_msat < amount_msat {
        Step::Fail(WalletError::InsufficientBalance)
    } else {
        Step::ListGateways
    }
}

/// First step of paying a parsed invoice: reads the amount it encodes and
/// decides on it. Returns that amount together with the step.
pub fn begin_invoice_payment(invoice: &Bolt11Invoice) -> (r: (Option<u64>, Step))
    ensures
        r.0 == crate::lightning::encoded_amount(*invoice),
        r.1 == payment_start(r.0),
{
    let amount = invoice.amount_milli_satoshis();
    (amount, begin_payment(amount))
}


/// A zero amount fails an invoice request at its first step, whatever the
/// description and whatever gateways are available.
pub proof fn lemma_zero_invoice_amount_fails(description_ok: bool, gs: Seq<GatewayAnnouncement>)
    ensures
        invoice_trace(0, description_ok, gs) == seq![Step::Fail(WalletError::InvoiceAmountZero)],
{
}

/// An invoice encoding a positive amount above the balance fails with
/// `InsufficientBalance`, and nothing is submitted.
pub proof fn lemma_insufficient_balance_fails(amount_msat: u64, balance_msat: u64, gs: Seq<GatewayAnnouncement>)
    requires
        0 < amount_msat,
        balance_msat < amount_msat,
    ensures
        payment_trace(Some(amount_msat), balance_msat, gs).last()
            == Step::Fail(WalletError::InsufficientBalance),
        forall|i: int| 0 <= i < payment_trace(Some(amount_msat), balance_msat, gs).len()
            ==> !(#[trigger] payment_trace(Some(amount_msat), balance_msat, gs)[i] is Submit),
{
    let t = payment_trace(Some(amount_msat), balance_msat, gs);
    assert(t =~= seq![Step::FetchBalance, Step::Fail(WalletError::InsufficientBalance)]);
}

/// An invoice encoding an amount of zero fails at once with
/// `InvoiceAmountZero`, whatever the balance and the gateways.
pub proof fn lemma_zero_payment_amount_fails(balance_msat: u64, gs: Seq<GatewayAnnouncement>)
    ensures
        payment_trace(Some(0), balance_msat, gs) == seq![Step::Fail(WalletError::InvoiceAmountZero)],
{
}

/// With no gateway listed, a valid invoice request and a payment that passes
/// its checks both end with `NoGatewaysFound` right after the listing, and
/// nothing is submitted.
pub proof fn lemma_no_gateways_fails(
    invoice_amount_msat: u64,
    payment_amount: Option<u64>,
    balance_msat: u64,
)
    requires
        invoice_amount_msat > 0,
        payment_amount != Some(0u64),
        payment_amount matches Some(a) ==> a <= balance_msat,
    ensures
        invoice_trace(invoice_amount_msat, true, Seq::empty()) == seq![
            Step::ListGateways,
            Step::Fail(WalletError::NoGatewaysFound),
        ],
        payment_trace(payment_amount, balance_msat, Seq::empty()).last()
            == Step::Fail(WalletError::NoGatewaysFound),
        forall|i: int| 0 <= i < payment_trace(payment_amount, balance_msat, Seq::empty()).len()
            ==> !(#[trigger] payment_trace(payment_amount, balance_msat, Seq::empty())[i] is Submit),
{
    let t = payment_trace(payment_amount, balance_msat, Seq::empty());
    match payment_amount {
        Some(a) => {
            assert(t =~= seq![Step::FetchBalance, Step::ListGateways, Step::Fail(WalletError::NoGatewaysFound)]);
        },
        None => {
            assert(t =~= seq![Step::ListGateways, Step::Fail(WalletError::NoGatewaysFound)]);
        },
    }
}

} // verus!
