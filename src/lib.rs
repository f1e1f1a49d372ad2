//! Orchestration core of a federated e-cash / Lightning wallet.
//!
//! The network, the federation client and the persistent store are driven by
//! the surrounding program. This library holds the decisions: which gateway
//! routes a payment, which monetary preconditions an invoice or a payment must
//! meet before anything is submitted, how a client is brought up, and how a
//! stream of settlement updates resolves to a final outcome.

use vstd::prelude::*;

pub mod bootstrap;
pub mod error;
pub mod flow;
pub mod gateway;
pub mod lightning;
pub mod monitor;

pub use bootstrap::{choose_bootstrap_path, BootstrapPath};
pub use error::WalletError;
pub use flow::{begin_invoice, begin_invoice_payment, begin_payment, gateway_step, payment_balance_step, InvoiceInfo, Step};
pub use gateway::{best_gateway_index, select_best, GatewayAnnouncement};
pub use monitor::{classify_update, settlement_outcome, ReceiveState, SettlementMonitor};
