//! The wallet workflow driven end to end: clicks, real hand-off channels, and
//! the per-frame pollers.

use metamask_panel::channel::{
    apply_address_message, apply_signature_message, poll_address_response,
    poll_signature_response, MetamaskChannel,
};
use metamask_panel::state::{
    first_account, initial_state, sign_request_message, Address, AppData, AppState, TransportError,
};
use metamask_panel::ui::{dispatch, visible_controls, Control, DispatchAction, UiEvent};

fn demo_address() -> Address {
    let mut bytes = [0u8; 20];
    bytes[0] = 0xAB;
    bytes[1] = 0xC0;
    Address::new(bytes)
}

#[test]
fn startup_with_provider() {
    let data = AppData::startup(true);
    assert!(!data.wallet_unavailable);
    assert_eq!(data.wallet_address, None);
    assert_eq!(data.signed_message, None);
    assert_eq!(data.last_error, None);
    assert_eq!(data, AppData::default());
}

#[test]
fn provider_absent_shows_only_no_metamask_label() {
    let data = AppData::startup(false);
    let state = initial_state();
    assert!(data.wallet_unavailable);
    let controls = visible_controls(&state, &data);
    assert_eq!(controls, vec![Control::NoWalletLabel]);
}

#[test]
fn provider_absent_disables_dispatch() {
    let data = AppData::startup(false);
    let mut state = initial_state();
    let action = dispatch(&mut state, &data, UiEvent::ConnectClicked);
    assert_eq!(action, DispatchAction::NoDispatch);
    assert_eq!(state, AppState::Ready);
}

#[test]
fn connect_click_then_address_arrives() {
    let ch = MetamaskChannel::new();
    let mut data = AppData::startup(true);
    let mut state = initial_state();

    let action = dispatch(&mut state, &data, UiEvent::ConnectClicked);
    assert_eq!(action, DispatchAction::RequestAddress);
    assert_eq!(state, AppState::AwaitingAddress);

    // The adapter resolves one tick later.
    let a = demo_address();
    ch.addr_sender().try_send(Ok(a)).unwrap();

    poll_address_response(&ch, &mut state, &mut data);
    assert_eq!(state, AppState::Ready);
    assert_eq!(data.wallet_address, Some(a));
    assert_eq!(data.last_error, None);

    let controls = visible_controls(&state, &data);
    assert!(controls.contains(&Control::AddressLabel));
    assert!(controls.contains(&Control::SignButton));
}

#[test]
fn empty_poll_changes_nothing() {
    let ch = MetamaskChannel::new();
    let mut data = AppData::startup(true);
    let mut state = initial_state();
    dispatch(&mut state, &data, UiEvent::ConnectClicked);

    // Nothing was sent yet: the poll is a no-op, retried next frame.
    poll_address_response(&ch, &mut state, &mut data);
    assert_eq!(state, AppState::AwaitingAddress);
    assert_eq!(data, AppData::startup(true));

    poll_address_response(&ch, &mut state, &mut data);
    assert_eq!(state, AppState::AwaitingAddress);
    assert_eq!(data, AppData::startup(true));
}

#[test]
fn click_while_awaiting_has_no_effect() {
    let mut data = AppData::startup(true);
    let mut state = initial_state();
    dispatch(&mut state, &data, UiEvent::ConnectClicked);
    assert_eq!(state, AppState::AwaitingAddress);

    // The trigger controls are gone, and a click dispatches nothing.
    let controls = visible_controls(&state, &data);
    assert!(!controls.contains(&Control::ConnectButton));
    assert!(!controls.contains(&Control::SignButton));
    let action = dispatch(&mut state, &data, UiEvent::ConnectClicked);
    assert_eq!(action, DispatchAction::NoDispatch);
    assert_eq!(state, AppState::AwaitingAddress);

    data.wallet_address = Some(demo_address());
    let action = dispatch(&mut state, &data, UiEvent::SignClicked);
    assert_eq!(action, DispatchAction::NoDispatch);
    assert_eq!(state, AppState::AwaitingAddress);
}

#[test]
fn sign_click_needs_known_address() {
    let data = AppData::startup(true);
    let mut state = initial_state();
    let controls = visible_controls(&state, &data);
    assert!(!controls.contains(&Control::SignButton));
    let action = dispatch(&mut state, &data, UiEvent::SignClicked);
    assert_eq!(action, DispatchAction::NoDispatch);
    assert_eq!(state, AppState::Ready);
}

#[test]
fn sign_click_then_signature_arrives() {
    let ch = MetamaskChannel::new();
    let mut data = AppData::startup(true);
    let mut state = initial_state();
    let a = demo_address();
    data.wallet_address = Some(a);

    let action = dispatch(&mut state, &data, UiEvent::SignClicked);
    assert_eq!(action, DispatchAction::RequestSignature(a));
    assert_eq!(state, AppState::AwaitingSignature);

    ch.sign_sender()
        .try_send(Ok("0xdeadbeef".to_string()))
        .unwrap();

    poll_signature_response(&ch, &mut state, &mut data);
    assert_eq!(state, AppState::Ready);
    assert_eq!(data.signed_message, Some("0xdeadbeef".to_string()));
    assert_eq!(data.wallet_address, Some(a));

    let controls = visible_controls(&state, &data);
    assert!(controls.contains(&Control::SignatureLabel));
}

#[test]
fn address_failure_recovers_to_ready_with_error() {
    let ch = MetamaskChannel::new();
    let mut data = AppData::startup(true);
    let mut state = initial_state();
    dispatch(&mut state, &data, UiEvent::ConnectClicked);

    ch.addr_sender()
        .try_send(Err(TransportError::Failed("user rejected".to_string())))
        .unwrap();

    poll_address_response(&ch, &mut state, &mut data);
    assert_eq!(state, AppState::Ready);
    assert_eq!(data.wallet_address, None);
    assert_eq!(
        data.last_error,
        Some(TransportError::Failed("user rejected".to_string()))
    );

    // The error renders and the connect button is offered again for a retry.
    let controls = visible_controls(&state, &data);
    assert!(controls.contains(&Control::ErrorLabel));
    assert!(controls.contains(&Control::ConnectButton));
}

#[test]
fn signature_failure_recovers_to_ready_with_error() {
    let mut data = AppData::startup(true);
    let mut state = AppState::AwaitingSignature;
    data.wallet_address = Some(demo_address());

    apply_signature_message(
        &mut state,
        &mut data,
        Some(Err(TransportError::Failed("extension fault".to_string()))),
    );
    assert_eq!(state, AppState::Ready);
    assert_eq!(data.signed_message, None);
    assert_eq!(
        data.last_error,
        Some(TransportError::Failed("extension fault".to_string()))
    );
}

#[test]
fn later_success_clears_recorded_error() {
    let mut data = AppData::startup(true);
    let mut state = AppState::AwaitingAddress;
    data.last_error = Some(TransportError::NoAccounts);

    let a = demo_address();
    apply_address_message(&mut state, &mut data, Some(Ok(a)));
    assert_eq!(state, AppState::Ready);
    assert_eq!(data.wallet_address, Some(a));
    assert_eq!(data.last_error, None);
}

#[test]
fn full_record_renders_every_control_in_order() {
    let mut data = AppData::startup(true);
    data.wallet_address = Some(demo_address());
    data.signed_message = Some("0xdeadbeef".to_string());
    data.last_error = Some(TransportError::NoAccounts);
    let state = initial_state();
    let controls = visible_controls(&state, &data);
    assert_eq!(
        controls,
        vec![
            Control::ConnectButton,
            Control::AddressLabel,
            Control::SignButton,
            Control::SignatureLabel,
            Control::ErrorLabel,
        ]
    );
}

#[test]
fn first_account_takes_the_first_entry() {
    let a = demo_address();
    let b = Address::new([9u8; 20]);
    let accounts = vec![a, b];
    assert_eq!(first_account(&accounts), Ok(a));
}

#[test]
fn first_account_of_empty_list_is_no_accounts() {
    let accounts: Vec<Address> = Vec::new();
    assert_eq!(first_account(&accounts), Err(TransportError::NoAccounts));
}

#[test]
fn sign_request_message_is_the_fixed_literal() {
    assert_eq!(sign_request_message(), b"Sign me".to_vec());
}
