//! The guarantees the state machine gives across whole runs: what one frame
//! can do to the machine, and what therefore holds after any sequence of
//! frames from startup.

use vstd::prelude::*;
use crate::state::{Address, AppData, AppState, TransportError, state_inv, spec_startup};
use crate::ui::{Control, DispatchAction, UiEvent, connect_visible, sign_visible, spec_controls, spec_dispatch};
use crate::channel::{spec_apply_addr, spec_apply_sign};

verus! {

/// Everything one frame can feed the state machine: a click, or the outcome
/// of the one channel poll that frame (each poller runs only while its
/// awaiting state holds, which the scheduling below mirrors).
pub enum FrameInput {
    Ui(UiEvent),
    AddressPoll(Option<Result<Address, TransportError>>),
    SignaturePoll(Option<Result<String, TransportError>>),
}

/// What one frame does to the machine: a click goes through `spec_dispatch`;
/// a poll outcome is applied only in the matching awaiting state, since the
/// poller is scheduled only there.
pub open spec fn spec_frame(state: AppState, data: AppData, input: FrameInput) -> (AppState, AppData) {
    match input {
        FrameInput::Ui(ev) => {
            let sa = spec_dispatch(state, data, ev);
            (sa.0, data)
        }
        FrameInput::AddressPoll(msg) => {
            if state is AwaitingAddress {
                spec_apply_addr(state, data, msg)
            } else {
                (state, data)
            }
        }
        FrameInput::SignaturePoll(msg) => {
            if state is AwaitingSignature {
                spec_apply_sign(state, data, msg)
            } else {
                (state, data)
            }
        }
    }
}

/// The machine after a sequence of frames, starting `Ready` with the given
/// startup record.
pub open spec fn spec_run(data0: AppData, inputs: Seq<FrameInput>) -> (AppState, AppData)
    decreases inputs.len(),
{
    if inputs.len() == 0 {
        (AppState::Ready, data0)
    } else {
        let prev = spec_run(data0, inputs.drop_last());
        spec_frame(prev.0, prev.1, inputs.last())
    }
}

/// Law: one frame preserves the state machine's invariant — it never moves
/// into `AwaitingSignature` without a known wallet address.
pub proof fn lemma_frame_preserves_inv(state: AppState, data: AppData, input: FrameInput)
    requires
        state_inv(state, data),
    ensures
        ({
            let next = spec_frame(state, data, input);
            state_inv(next.0, next.1)
        }),
{
}

/// Law: after any sequence of frame inputs from startup, the machine holds
/// `AwaitingSignature` only if `wallet_address` is populated.
pub proof fn lemma_awaiting_signature_needs_address(provider_present: bool, inputs: Seq<FrameInput>)
    ensures
        ({
            let run = spec_run(spec_startup(provider_present), inputs);
            state_inv(run.0, run.1)
        }),
    decreases inputs.len(),
{
    if inputs.len() > 0 {
        lemma_awaiting_signature_needs_address(provider_present, inputs.drop_last());
        let prev = spec_run(spec_startup(provider_present), inputs.drop_last());
        lemma_frame_preserves_inv(prev.0, prev.1, inputs.last());
    }
}

/// Law: no frame ever clears what the wallet has told us — once an address or
/// a signature is recorded it stays recorded (a later address request may
/// replace the address, never remove it), and the startup provider flag never
/// changes.
pub proof fn lemma_frame_never_clears(state: AppState, data: AppData, input: FrameInput)
    ensures
        ({
            let next = spec_frame(state, data, input);
            &&& data.wallet_address is Some ==> next.1.wallet_address is Some
            &&& data.signed_message is Some ==> next.1.signed_message is Some
            &&& next.1.wallet_unavailable == data.wallet_unavailable
        }),
{
}

/// Law: while a request is in flight (either awaiting state), a click
/// dispatches nothing and changes nothing, because the trigger controls are
/// absent; so at most one request of a kind is ever in flight.
pub proof fn lemma_no_second_request(state: AppState, data: AppData, event: UiEvent)
    requires
        state !is Ready,
    ensures
        spec_dispatch(state, data, event) == (state, DispatchAction::NoDispatch),
        !spec_controls(state, data).contains(Control::ConnectButton),
        !spec_controls(state, data).contains(Control::SignButton),
{
    broadcast use vstd::seq_lib::lemma_seq_contains_after_push;
    broadcast use vstd::seq_lib::lemma_seq_empty_contains_nothing;

}

/// Law: a control is offered exactly when its condition holds — the "no
/// metamask" label stands alone when no provider was found, and the trigger
/// buttons appear only in `Ready`.
pub proof fn lemma_control_visibility(state: AppState, data: AppData)
    ensures
        spec_controls(state, data).contains(Control::NoWalletLabel) <==> data.wallet_unavailable,
        spec_controls(state, data).contains(Control::ConnectButton) <==> connect_visible(state, data),
        spec_controls(state, data).contains(Control::SignButton) <==> sign_visible(state, data),
        spec_controls(state, data).contains(Control::AddressLabel) <==> (!data.wallet_unavailable
            && data.wallet_address is Some),
        spec_controls(state, data).contains(Control::SignatureLabel) <==> (!data.wallet_unavailable
            && data.signed_message is Some),
        spec_controls(state, data).contains(Control::ErrorLabel) <==> (!data.wallet_unavailable
            && data.last_error is Some),
        data.wallet_unavailable ==> spec_controls(state, data) =~= Seq::empty().push(
            Control::NoWalletLabel,
        ),
{
    broadcast use vstd::seq_lib::lemma_seq_contains_after_push;
    broadcast use vstd::seq_lib::lemma_seq_empty_contains_nothing;

}

/// Law: round trip of an address request — from `Ready` with a provider, a
/// connect click dispatches an address request and moves to `AwaitingAddress`;
/// polling the adapter's answer `a` returns the machine to `Ready` with
/// `wallet_address == Some(a)` and no recorded error.
pub proof fn lemma_address_round_trip(data: AppData, a: Address)
    requires
        !data.wallet_unavailable,
    ensures
        ({
            let clicked = spec_dispatch(AppState::Ready, data, UiEvent::ConnectClicked);
            &&& clicked.0 is AwaitingAddress
            &&& clicked.1 == DispatchAction::RequestAddress
            &&& spec_apply_addr(clicked.0, data, Some(Ok(a))) == (
                AppState::Ready,
                AppData { wallet_address: Some(a), last_error: None, ..data },
            )
        }),
{
}

/// Law: round trip of a signature request — from `Ready` with a provider and
/// a known address, a sign click dispatches a signature request over that
/// address and moves to `AwaitingSignature`; polling the adapter's answer `s`
/// returns the machine to `Ready` with `signed_message == Some(s)`.
pub proof fn lemma_signature_round_trip(data: AppData, a: Address, s: String)
    requires
        !data.wallet_unavailable,
        data.wallet_address == Some(a),
    ensures
        ({
            let clicked = spec_dispatch(AppState::Ready, data, UiEvent::SignClicked);
            &&& clicked.0 is AwaitingSignature
            &&& clicked.1 == DispatchAction::RequestSignature(a)
            &&& spec_apply_sign(clicked.0, data, Some(Ok(s))) == (
                AppState::Ready,
                AppData { signed_message: Some(s), last_error: None, ..data },
            )
        }),
{
}

/// Law: polling a channel with no pending value changes neither the state nor
/// the record.
pub proof fn lemma_empty_poll_is_idempotent(state: AppState, data: AppData)
    ensures
        spec_apply_addr(state, data, None) == (state, data),
        spec_apply_sign(state, data, None) == (state, data),
{
}

/// Law: a transport failure recovers — polling a failure outcome returns the
/// machine to `Ready` with the error recorded and everything else unchanged,
/// instead of leaving it stuck in the awaiting state.
pub proof fn lemma_failure_recovers(state: AppState, data: AppData, e: TransportError)
    ensures
        spec_apply_addr(state, data, Some(Err(e))) == (
            AppState::Ready,
            AppData { last_error: Some(e), ..data },
        ),
        spec_apply_sign(state, data, Some(Err(e))) == (
            AppState::Ready,
            AppData { last_error: Some(e), ..data },
        ),
{
}

} // verus!
