use std::str::FromStr;

use lightning_invoice::Bolt11Invoice;
use simple_fedimint_wallet::{
    begin_invoice, begin_invoice_payment, begin_payment, gateway_step, payment_balance_step, Step,
    WalletError,
};

const PRICED_INVOICE: &str = "lnbc2500u1pvjluezsp5zyg3zyg3zyg3zyg3zyg3zyg3zyg3zyg3zyg3zyg3zyg3zyg3zygspp5qqqsyqcyq5rqwzqfqqqsyqcyq5rqwzqfqqqsyqcyq5rqwzqfqypqdq5xysxxatsyp3k7enxv4jsxqzpu9qrsgquk0rl77nj30yxdy8j9vdx85fkpmdla2087ne0xh8nhedh8w27kyke0lp53ut353s06fv3qfegext0eh0ymjpf39tuven09sam30g4vgpfna3rh";

const OPEN_INVOICE: &str = "lnbc1pvjluezsp5zyg3zyg3zyg3zyg3zyg3zyg3zyg3zyg3zyg3zyg3zyg3zyg3zygspp5qqqsyqcyq5rqwzqfqqqsyqcyq5rqwzqfqqqsyqcyq5rqwzqfqypqdpl2pkx2ctnv5sxxmmwwd5kgetjypeh2ursdae8g6twvus8g6rfwvs8qun0dfjkxaq9qrsgq357wnc5r2ueh7ck6q93dj32dlqnls087fxdwk8qakdyafkq3yap9us6v52vjjsrvywa6rt52cm9r9zqt8r2t7mlcwspyetp5h2tztugp9lfyql";

#[test]
fn invoice_zero_amount_fails() {
    assert_eq!(begin_invoice(0, &"test".to_string()), Step::Fail(WalletError::InvoiceAmountZero));
    let long = "x".repeat(1000);
    assert_eq!(begin_invoice(0, &long), Step::Fail(WalletError::InvoiceAmountZero));
}

#[test]
fn invoice_valid_request_lists_gateways() {
    assert_eq!(begin_invoice(1000, &"test".to_string()), Step::ListGateways);
    assert_eq!(begin_invoice(1, &String::new()), Step::ListGateways);
}

#[test]
fn invoice_description_length_limit_in_bytes() {
    assert_eq!(begin_invoice(1000, &"a".repeat(639)), Step::ListGateways);
    assert_eq!(begin_invoice(1000, &"a".repeat(640)), Step::Fail(WalletError::DescriptionInvalid));
    // Two bytes per character in UTF-8.
    assert_eq!(begin_invoice(1000, &"\u{e9}".repeat(320)), Step::Fail(WalletError::DescriptionInvalid));
    let fits = format!("{}a", "\u{e9}".repeat(319));
    assert_eq!(begin_invoice(1000, &fits), Step::ListGateways);
}

#[test]
fn invoice_no_gateways_fails() {
    assert_eq!(begin_invoice(1000, &"test".to_string()), Step::ListGateways);
    assert_eq!(gateway_step(&Vec::new()), Step::Fail(WalletError::NoGatewaysFound));
}

#[test]
fn payment_zero_amount_fails() {
    assert_eq!(begin_payment(Some(0)), Step::Fail(WalletError::InvoiceAmountZero));
}

#[test]
fn payment_with_amount_checks_balance_first() {
    assert_eq!(begin_payment(Some(5000)), Step::FetchBalance);
    assert_eq!(payment_balance_step(5000, 4999), Step::Fail(WalletError::InsufficientBalance));
    assert_eq!(payment_balance_step(5000, 0), Step::Fail(WalletError::InsufficientBalance));
    assert_eq!(payment_balance_step(5000, 5000), Step::ListGateways);
    assert_eq!(payment_balance_step(5000, u64::MAX), Step::ListGateways);
}

#[test]
fn payment_without_amount_skips_balance() {
    assert_eq!(begin_payment(None), Step::ListGateways);
}

#[test]
fn payment_of_parsed_invoice_with_amount() {
    let invoice = Bolt11Invoice::from_str(PRICED_INVOICE).unwrap();
    let (amount, step) = begin_invoice_payment(&invoice);
    assert_eq!(amount, Some(250_000_000));
    assert_eq!(step, Step::FetchBalance);
    assert_eq!(payment_balance_step(250_000_000, 1000), Step::Fail(WalletError::InsufficientBalance));
}

#[test]
fn payment_of_parsed_invoice_without_amount() {
    let invoice = Bolt11Invoice::from_str(OPEN_INVOICE).unwrap();
    assert_eq!(begin_invoice_payment(&invoice), (None, Step::ListGateways));
}
