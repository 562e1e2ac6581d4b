//! The per-frame decision logic: which controls the panel shows for a given
//! state, and which transition and dispatch a click causes. Rendering itself
//! is left to the host; these functions are pure.

use vstd::prelude::*;
use crate::state::{Address, AppData, AppState, state_inv};

verus! {

/// A user interaction the panel can report on a frame.
#[derive(Clone, Copy, PartialEq, Eq, Debug, Structural)]
pub enum UiEvent {
    ConnectClicked,
    SignClicked,
}

/// What the frame loop must do after a click: nothing, or spawn one
/// asynchronous request through the wallet transport.
#[derive(Clone, Copy, PartialEq, Eq, Debug)]
pub enum DispatchAction {
    NoDispatch,
    RequestAddress,
    RequestSignature(Address),
}

/// A control the panel renders; the payloads (address, signature, error text)
/// are read from `AppData` by the host.
#[derive(Clone, Copy, PartialEq, Eq, Debug, Structural)]
pub enum Control {
    NoWalletLabel,
    ConnectButton,
    AddressLabel,
    SignButton,
    SignatureLabel,
    ErrorLabel,
}

/// The connect button is offered only when no request is outstanding and a
/// provider was detected.
pub open spec fn connect_visible(state: AppState, data: AppData) -> bool {
    !data.wallet_unavailable && state is Ready
}

/// The sign button is offered only when no request is outstanding, a provider
/// was detected, and an address is already known.
pub open spec fn sign_visible(state: AppState, data: AppData) -> bool {
    !data.wallet_unavailable && state is Ready && data.wallet_address is Some
}

/// The controls the panel shows, in render order: with no provider, only the
/// "no metamask" label; otherwise the connect button, the known address, the
/// sign button, the signature, and the last error, each when applicable.
pub open spec fn spec_controls(state: AppState, data: AppData) -> Seq<Control> {
    if data.wallet_unavailable {
        Seq::empty().push(Control::NoWalletLabel)
    } else {
        let s = Seq::<Control>::empty();
        let s = if connect_visible(state, data) {
            s.push(Control::ConnectButton)
        } else {
            s
        };
        let s = if data.wallet_address is Some {
            s.push(Control::AddressLabel)
        } else {
            s
        };
        let s = if sign_visible(state, data) {
            s.push(Control::SignButton)
        } else {
            s
        };
        let s = if data.signed_message is Some {
            s.push(Control::SignatureLabel)
        } else {
            s
        };
        let s = if data.last_error is Some {
            s.push(Control::ErrorLabel)
        } else {
            s
        };
        s
    }
}

/// The controls to render this frame.
pub fn visible_controls(state: &AppState, data: &AppData) -> (r: Vec<Control>)
    ensures
        r@ == spec_controls(*state, *data),
{
    let mut r: Vec<Control> = Vec::new();
    if data.wallet_unavailable {
        r.push(Control::NoWalletLabel);
    } else {
        let ready = match *state {
            AppState::Ready => true,
            _ => false,
        };
        if ready {
            r.push(Control::ConnectButton);
        }
        if data.wallet_address.is_some() {
            r.push(Control::AddressLabel);
        }
        if ready && data.wallet_address.is_some() {
            r.push(Control::SignButton);
        }
        if data.signed_message.is_some() {
            r.push(Control::SignatureLabel);
        }
        if data.last_error.is_some() {
            r.push(Control::ErrorLabel);
        }
    }
    proof {
        assert(r@ =~= spec_controls(*state, *data));
    }
    r
}

/// The transition and dispatch a click causes: a visible connect button moves
/// the machine to `AwaitingAddress` and asks for an address request; a visible
/// sign button moves it to `AwaitingSignature` and asks for a signature
/// request over the known address; a click with the control absent does
/// nothing.
pub open spec fn spec_dispatch(state: AppState, data: AppData, event: UiEvent) -> (AppState, DispatchAction) {
    match event {
        UiEvent::ConnectClicked => {
            if connect_visible(state, data) {
                (AppState::AwaitingAddress, DispatchAction::RequestAddress)
            } else {
                (state, DispatchAction::NoDispatch)
            }
        }
        UiEvent::SignClicked => {
            match data.wallet_address {
                Some(a) => {
                    if sign_visible(state, data) {
                        (AppState::AwaitingSignature, DispatchAction::RequestSignature(a))
                    } else {
                        (state, DispatchAction::NoDispatch)
                    }
                }
                None => (state, DispatchAction::NoDispatch),
            }
        }
    }
}

/// Applies a click to the state tag and says what the frame loop must spawn.
pub fn dispatch(state: &mut AppState, data: &AppData, event: UiEvent) -> (action: DispatchAction)
    ensures
        (*final(state), action) == spec_dispatch(*old(state), *data, event),
        state_inv(*old(state), *data) ==> state_inv(*final(state), *data),
{
    let ready = match *state {
        AppState::Ready => true,
        _ => false,
    };
    match event {
        UiEvent::ConnectClicked => {
            if !data.wallet_unavailable && ready {
                *state = AppState::AwaitingAddress;
                DispatchAction::RequestAddress
            } else {
                DispatchAction::NoDispatch
            }
        }
        UiEvent::SignClicked => {
            match &data.wallet_address {
                Some(a) => {
                    if !data.wallet_unavailable && ready {
                        *state = AppState::AwaitingSignature;
                        DispatchAction::RequestSignature(*a)
                    } else {
                        DispatchAction::NoDispatch
                    }
                }
                None => DispatchAction::NoDispatch,
            }
        }
    }
}

} // verus!
