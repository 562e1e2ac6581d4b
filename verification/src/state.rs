//! Application state: the state tag of the wallet workflow and the record of
//! what the wallet has told us so far.

use vstd::prelude::*;

verus! {

/// A wallet account address: a 160-bit account identifier, held as its 20 raw
/// bytes.
#[derive(Clone, Copy, PartialEq, Eq, Debug)]
pub struct Address {
    pub bytes: [u8; 20],
}

impl Address {
    pub fn new(bytes: [u8; 20]) -> (r: Address)
        ensures
            r.bytes == bytes,
    {
        Address { bytes }
    }
}

/// Why a wallet request failed: the provider returned no accounts, or the
/// transport reported an error (user rejected the prompt, extension fault),
/// carried as displayable text.
#[derive(PartialEq, Eq, Debug)]
pub enum TransportError {
    NoAccounts,
    Failed(String),
}

/// The workflow's state tag. `Ready` means no request is outstanding; each
/// awaiting state means one request of that kind has been dispatched and its
/// result is pending.
#[derive(Clone, Copy, PartialEq, Eq, Hash, Debug, Structural)]
pub enum AppState {
    Ready,
    AwaitingAddress,
    AwaitingSignature,
}

/// What the wallet has told us so far. `wallet_address` and `signed_message`
/// are set by the response pollers and never cleared; `wallet_unavailable` is
/// fixed at startup; `last_error` records the most recent transport failure
/// and is cleared when a later request of either kind succeeds.
#[derive(PartialEq, Eq, Debug)]
pub struct AppData {
    pub wallet_address: Option<Address>,
    pub signed_message: Option<String>,
    pub wallet_unavailable: bool,
    pub last_error: Option<TransportError>,
}

/// The state machine's invariant: a signature request is only ever pending
/// once an address is known.
pub open spec fn state_inv(state: AppState, data: AppData) -> bool {
    state is AwaitingSignature ==> data.wallet_address is Some
}

/// The record at startup: nothing known yet, `wallet_unavailable` set exactly
/// when no provider was detected.
pub open spec fn spec_startup(provider_present: bool) -> AppData {
    AppData {
        wallet_address: None,
        signed_message: None,
        wallet_unavailable: !provider_present,
        last_error: None,
    }
}

impl AppData {
    /// The record at startup, given whether a wallet provider was detected in
    /// the hosting environment.
    pub fn startup(provider_present: bool) -> (d: AppData)
        ensures
            d == spec_startup(provider_present),
            d.wallet_address is None,
            d.signed_message is None,
            d.last_error is None,
            d.wallet_unavailable == !provider_present,
    {
        AppData {
            wallet_address: None,
            signed_message: None,
            wallet_unavailable: !provider_present,
            last_error: None,
        }
    }
}

impl Default for AppData {
    /// The empty record: nothing known, provider assumed present.
    fn default() -> (d: AppData)
        ensures
            d.wallet_address is None,
            d.signed_message is None,
            d.last_error is None,
            !d.wallet_unavailable,
    {
        AppData {
            wallet_address: None,
            signed_message: None,
            wallet_unavailable: false,
            last_error: None,
        }
    }
}

/// The workflow's initial state.
pub fn initial_state() -> (s: AppState)
    ensures
        s is Ready,
{
    AppState::Ready
}

/// The fixed literal that every signature request is made over.
pub open spec fn spec_sign_message() -> Seq<u8> {
    seq![83u8, 105u8, 103u8, 110u8, 32u8, 109u8, 101u8]
}

/// The bytes of the fixed message, `"Sign me"`, handed to the transport when
/// a signature is requested.
pub fn sign_request_message() -> (m: Vec<u8>)
    ensures
        m@ == spec_sign_message(),
{
    let mut m: Vec<u8> = Vec::new();
    m.push(83u8);
    m.push(105u8);
    m.push(103u8);
    m.push(110u8);
    m.push(32u8);
    m.push(109u8);
    m.push(101u8);
    proof {
        assert(m@ =~= spec_sign_message());
    }
    m
}

/// What an address request yields once the provider has answered with its
/// account list: the first account, or `NoAccounts` when the list is empty.
pub fn first_account(accounts: &Vec<Address>) -> (r: Result<Address, TransportError>)
    ensures
        accounts@.len() > 0 ==> r == Ok::<Address, TransportError>(accounts@[0]),
        accounts@.len() == 0 ==> r == Err::<Address, TransportError>(TransportError::NoAccounts),
{
    if accounts.len() > 0 {
        Ok(accounts[0])
    } else {
        Err(TransportError::NoAccounts)
    }
}

} // verus!
