//! The hand-off channel pair and the response pollers. Each channel is a
//! single-slot asynchronous queue of `async_channel`; a detached task pushes
//! one result into it, and the poller drains it with one non-blocking receive
//! per frame. What a receive yields depends on what a task has sent meanwhile,
//! so the trusted wrappers promise nothing of it; everything the poll does
//! with the received value is verified in `apply_address_message` and
//! `apply_signature_message`.

use vstd::prelude::*;
use crate::state::{Address, AppData, AppState, TransportError, state_inv};

verus! {

#[verifier::external_type_specification]
#[verifier::external_body]
#[verifier::reject_recursive_types(T)]
pub struct ExSender<T>(async_channel::Sender<T>);

#[verifier::external_type_specification]
#[verifier::external_body]
#[verifier::reject_recursive_types(T)]
pub struct ExReceiver<T>(async_channel::Receiver<T>);

/// The two hand-off channels: one carries the outcome of an address request,
/// the other the outcome of a signature request. The receiving halves are
/// polled only here; a sending half is handed to each spawned request task.
pub struct MetamaskChannel {
    addr_tx: async_channel::Sender<Result<Address, TransportError>>,
    addr_rx: async_channel::Receiver<Result<Address, TransportError>>,
    sign_tx: async_channel::Sender<Result<String, TransportError>>,
    sign_rx: async_channel::Receiver<Result<String, TransportError>>,
}

impl MetamaskChannel {
    /// Relies on async_channel::bounded: creates a queue that holds at most
    /// the given number of messages, with its sending and receiving halves.
    /// Each channel gets one slot; the state machine keeps at most one request
    /// of each kind in flight, so the slot is never contended.
    #[verifier::external_body]
    pub fn new() -> (ch: MetamaskChannel) {
        let (addr_tx, addr_rx) = async_channel::bounded(1);
        let (sign_tx, sign_rx) = async_channel::bounded(1);
        MetamaskChannel { addr_tx, addr_rx, sign_tx, sign_rx }
    }

    /// Relies on async_channel::Receiver::try_recv: non-blocking; yields the
    /// pending message if a task has sent one, and an error (empty or closed)
    /// otherwise. Which of the two comes back depends on what ran since the
    /// last frame, so nothing is promised of the result.
    #[verifier::external_body]
    pub fn try_recv_addr(&self) -> (msg: Option<Result<Address, TransportError>>) {
        match self.addr_rx.try_recv() {
            Ok(v) => Some(v),
            Err(_) => None,
        }
    }

    /// Relies on async_channel::Receiver::try_recv, as `try_recv_addr` does.
    #[verifier::external_body]
    pub fn try_recv_sign(&self) -> (msg: Option<Result<String, TransportError>>) {
        match self.sign_rx.try_recv() {
            Ok(v) => Some(v),
            Err(_) => None,
        }
    }

    /// Relies on the Clone impl of async_channel::Sender: the clone is a
    /// sending handle to the same queue. It is what a spawned address-request
    /// task carries.
    #[verifier::external_body]
    pub fn addr_sender(&self) -> (tx: async_channel::Sender<Result<Address, TransportError>>) {
        self.addr_tx.clone()
    }

    /// Relies on the Clone impl of async_channel::Sender, as `addr_sender`
    /// does; for the signature-request task.
    #[verifier::external_body]
    pub fn sign_sender(&self) -> (tx: async_channel::Sender<Result<String, TransportError>>) {
        self.sign_tx.clone()
    }
}

/// What one poll of the address channel does to the machine, given what the
/// channel yielded: nothing when no value was pending; on an address, record
/// it, clear any earlier error and return to `Ready`; on a transport failure,
/// record the error and return to `Ready`.
pub open spec fn spec_apply_addr(
    state: AppState,
    data: AppData,
    msg: Option<Result<Address, TransportError>>,
) -> (AppState, AppData) {
    match msg {
        None => (state, data),
        Some(Ok(a)) => (
            AppState::Ready,
            AppData { wallet_address: Some(a), last_error: None, ..data },
        ),
        Some(Err(e)) => (AppState::Ready, AppData { last_error: Some(e), ..data }),
    }
}

/// What one poll of the signature channel does to the machine; as
/// `spec_apply_addr`, with the signature text recorded instead.
pub open spec fn spec_apply_sign(
    state: AppState,
    data: AppData,
    msg: Option<Result<String, TransportError>>,
) -> (AppState, AppData) {
    match msg {
        None => (state, data),
        Some(Ok(s)) => (
            AppState::Ready,
            AppData { signed_message: Some(s), last_error: None, ..data },
        ),
        Some(Err(e)) => (AppState::Ready, AppData { last_error: Some(e), ..data }),
    }
}

/// Applies the outcome of one address-channel poll to the state and record.
pub fn apply_address_message(
    state: &mut AppState,
    data: &mut AppData,
    msg: Option<Result<Address, TransportError>>,
)
    ensures
        (*final(state), *final(data)) == spec_apply_addr(*old(state), *old(data), msg),
{
    match msg {
        None => {}
        Some(Ok(a)) => {
            data.wallet_address = Some(a);
            data.last_error = None;
            *state = AppState::Ready;
        }
        Some(Err(e)) => {
            data.last_error = Some(e);
            *state = AppState::Ready;
        }
    }
}

/// Applies the outcome of one signature-channel poll to the state and record.
pub fn apply_signature_message(
    state: &mut AppState,
    data: &mut AppData,
    msg: Option<Result<String, TransportError>>,
)
    ensures
        (*final(state), *final(data)) == spec_apply_sign(*old(state), *old(data), msg),
{
    match msg {
        None => {}
        Some(Ok(s)) => {
            data.signed_message = Some(s);
            data.last_error = None;
            *state = AppState::Ready;
        }
        Some(Err(e)) => {
            data.last_error = Some(e);
            *state = AppState::Ready;
        }
    }
}

/// One per-frame poll of the address channel, run only while an address
/// request is pending. Whatever the channel yielded, the machine afterwards
/// is `spec_apply_addr` of it: either unchanged, or `Ready` with the address
/// or the failure recorded.
pub fn poll_address_response(ch: &MetamaskChannel, state: &mut AppState, data: &mut AppData)
    requires
        *old(state) is AwaitingAddress,
    ensures
        exists|msg: Option<Result<Address, TransportError>>|
            (*final(state), *final(data)) == spec_apply_addr(*old(state), *old(data), msg),
        *final(state) is Ready || (*final(state) == *old(state) && *final(data) == *old(data)),
        final(data).wallet_unavailable == old(data).wallet_unavailable,
        final(data).signed_message == old(data).signed_message,
        old(data).wallet_address is Some ==> final(data).wallet_address is Some,
        state_inv(*final(state), *final(data)),
{
    let msg = ch.try_recv_addr();
    apply_address_message(state, data, msg);
}

/// One per-frame poll of the signature channel, run only while a signature
/// request is pending.
pub fn poll_signature_response(ch: &MetamaskChannel, state: &mut AppState, data: &mut AppData)
    requires
        *old(state) is AwaitingSignature,
        state_inv(*old(state), *old(data)),
    ensures
        exists|msg: Option<Result<String, TransportError>>|
            (*final(state), *final(data)) == spec_apply_sign(*old(state), *old(data), msg),
        *final(state) is Ready || (*final(state) == *old(state) && *final(data) == *old(data)),
        final(data).wallet_unavailable == old(data).wallet_unavailable,
        final(data).wallet_address == old(data).wallet_address,
        old(data).signed_message is Some ==> final(data).signed_message is Some,
        state_inv(*final(state), *final(data)),
{
    let msg = ch.try_recv_sign();
    apply_signature_message(state, data, msg);
}

} // verus!
