use simple_fedimint_wallet::{
    begin_invoice, choose_bootstrap_path, classify_update, gateway_step, settlement_outcome,
    BootstrapPath, GatewayAnnouncement, ReceiveState, SettlementMonitor, Step, WalletError,
};

#[test]
fn classify_each_state() {
    assert_eq!(classify_update(&ReceiveState::Funded), Some(Ok(())));
    assert_eq!(
        classify_update(&ReceiveState::Canceled { reason: "timeout".to_string() }),
        Some(Err(WalletError::InvoiceCanceled("timeout".to_string())))
    );
    assert_eq!(classify_update(&ReceiveState::Created), None);
    assert_eq!(classify_update(&ReceiveState::WaitingForPayment), None);
    assert_eq!(classify_update(&ReceiveState::AwaitingFunds), None);
    assert_eq!(classify_update(&ReceiveState::Claimed), None);
}

#[test]
fn funded_after_intermediate_states_succeeds() {
    let updates = vec![ReceiveState::Created, ReceiveState::WaitingForPayment, ReceiveState::Funded];
    assert_eq!(settlement_outcome(true, &updates), Ok(()));
}

#[test]
fn first_terminal_state_decides() {
    let updates = vec![
        ReceiveState::Created,
        ReceiveState::Canceled { reason: "expired".to_string() },
        ReceiveState::Funded,
    ];
    assert_eq!(
        settlement_outcome(true, &updates),
        Err(WalletError::InvoiceCanceled("expired".to_string()))
    );
    let updates = vec![ReceiveState::Funded, ReceiveState::Canceled { reason: "late".to_string() }];
    assert_eq!(settlement_outcome(true, &updates), Ok(()));
}

#[test]
fn stream_without_terminal_state_fails() {
    let updates = vec![ReceiveState::Created, ReceiveState::WaitingForPayment, ReceiveState::Claimed];
    assert_eq!(settlement_outcome(true, &updates), Err(WalletError::NoUpdatesReceived));
    assert_eq!(settlement_outcome(true, &Vec::new()), Err(WalletError::NoUpdatesReceived));
}

#[test]
fn unknown_operation_fails_before_subscribing() {
    assert_eq!(SettlementMonitor::start(false).err(), Some(WalletError::OperationNotFound));
    let updates = vec![ReceiveState::Funded];
    assert_eq!(settlement_outcome(false, &updates), Err(WalletError::OperationNotFound));
}

#[test]
fn monitor_stops_at_terminal_update() {
    let mut monitor = SettlementMonitor::start(true).unwrap();
    assert_eq!(monitor.observe(&ReceiveState::Created), None);
    assert_eq!(monitor.observe(&ReceiveState::AwaitingFunds), None);
    assert_eq!(monitor.observe(&ReceiveState::Funded), Some(Ok(())));
}

#[test]
fn monitor_close_without_terminal_update() {
    let mut monitor = SettlementMonitor::start(true).unwrap();
    assert_eq!(monitor.observe(&ReceiveState::WaitingForPayment), None);
    assert_eq!(monitor.close(), Err(WalletError::NoUpdatesReceived));
}

#[test]
fn end_to_end_invoice_then_funded() {
    assert_eq!(begin_invoice(1000, &"test".to_string()), Step::ListGateways);
    let gs = vec![GatewayAnnouncement {
        gateway_id: "gw".to_string(),
        ttl_nanos: 600_000_000_000,
        route_hint_count: 1,
        lightning_alias: "alias".to_string(),
        api: "https://gw.example".to_string(),
        node_pub_key: "key".to_string(),
        supports_private_payments: true,
    }];
    assert_eq!(gateway_step(&gs), Step::Submit(0));
    let mut monitor = SettlementMonitor::start(true).unwrap();
    assert_eq!(monitor.observe(&ReceiveState::Created), None);
    assert_eq!(monitor.observe(&ReceiveState::Funded), Some(Ok(())));
}

#[test]
fn bootstrap_paths() {
    assert_eq!(choose_bootstrap_path(false, true), Ok(BootstrapPath::Join));
    assert_eq!(choose_bootstrap_path(true, false), Ok(BootstrapPath::Open));
    assert_eq!(choose_bootstrap_path(true, true), Ok(BootstrapPath::Open));
}

#[test]
fn bootstrap_fresh_store_without_invite_fails() {
    assert_eq!(choose_bootstrap_path(false, false), Err(WalletError::ConfigurationMissing));
}
