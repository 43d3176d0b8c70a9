//! What the bridged dollar decides: how much is burnt for an outbound
//! transfer, and what an inbound message mints.

use vstd::prelude::*;
use crate::address::{key_of_text, text_of_key, AccountKey};
use crate::balanced_dollar::errors::BalancedDollarError;
use crate::balanced_dollar::helpers::{
    decode_cross_transfer, decode_cross_transfer_revert, decode_method,
};
use crate::balanced_dollar::states::{CrossTransferAccounts, CrossTransferCall, Mint, State};
use crate::balanced_dollar::structs::cross_transfer::{
    CrossTransferMsg, CrossTransferMsgView, CROSS_TRANSFER,
};
use crate::balanced_dollar::structs::cross_transfer_revert::{
    CrossTransferRevert, CrossTransferRevertView, CROSS_TRANSFER_REVERT,
};
use crate::message::text_of_list;
use crate::network_address::{account_of, account_part};
use crate::response::{HandleCallMessageResponse, ResponseView, SUCCESS};
use crate::views::{decoded, texts};
use crate::wire_len::MAX_WIRE_LEN;
use crate::xcall_manager::instructions::{inbound_verified, verify_inbound};
use crate::xcall_manager::states::XmState;

verus! {

/// Units of the remote token in one unit of the local token: the remote token
/// has nine decimals more.
pub const DECIMALS_FACTOR: u64 = 1_000_000_000;

/// The account of a network address, or the failure for an address that does
/// not consist of a chain and an account.
pub fn account_from_network_address(string_network_address: String) -> (r: Result<
    String,
    BalancedDollarError,
>)
    ensures
        decoded(r) == account_of(string_network_address@),
        r matches Err(e) ==> e == BalancedDollarError::InvalidNetworkAddress,
{
    match account_part(string_network_address.as_str()) {
        Some(account) => Ok(account),
        None => Err(BalancedDollarError::InvalidNetworkAddress),
    }
}

/// A local amount in units of the remote token.
pub fn translate_outgoing_amount(amount: u64) -> (r: u128)
    ensures
        r == amount * 1_000_000_000,
{
    assert(amount * 1_000_000_000 <= u64::MAX * 1_000_000_000) by (nonlinear_arith)
        requires
            0 <= amount <= u64::MAX,
    ;
    (amount as u128) * (DECIMALS_FACTOR as u128)
}

/// What a remote amount is in whole units of the local token, kept to 64 bits.
pub open spec fn incoming_amount(amount: u128) -> u64 {
    ((amount / 1_000_000_000) % 0x1_0000_0000_0000_0000) as u64
}

/// A remote amount in whole units of the local token: the rest is dropped, and
/// so is what does not fit 64 bits.
pub fn translate_incoming_amount(amount: u128) -> (r: u64)
    ensures
        r == incoming_amount(amount),
        amount / 1_000_000_000 <= u64::MAX ==> r == amount / 1_000_000_000,
{
    let whole: u128 = amount / (DECIMALS_FACTOR as u128);
    let low: u128 = whole & 0xffff_ffff_ffff_ffff;
    assert(low == whole % 0x1_0000_0000_0000_0000) by (bit_vector)
        requires
            low == whole & 0xffff_ffff_ffff_ffff,
    ;
    low as u64
}

/// The local units that cover a remote amount: its whole units, one more for a
/// rest. An amount whose cover does not fit 64 bits has none: no account
/// holds that much.
pub open spec fn burn_for(value: u128) -> Option<u64> {
    let whole: int = value as int / 1_000_000_000;
    let cover: int = if value % 1_000_000_000 == 0 { whole } else { whole + 1 };
    if cover <= u64::MAX {
        Some(cover as u64)
    } else {
        None
    }
}

/// The whole local units of a remote amount, where they fit 64 bits.
pub open spec fn whole_units(value: u128) -> Option<u64> {
    if value / 1_000_000_000 <= u64::MAX {
        Some((value / 1_000_000_000) as u64)
    } else {
        None
    }
}

/// The transfer from `sender` as it travels.
pub open spec fn transfer_notice(sender: Seq<u8>, to: Seq<char>, value: u128, data: Option<Vec<u8>>)
    -> CrossTransferMsgView {
    CrossTransferMsgView {
        from: text_of_key(sender),
        to,
        value,
        data: match data {
            Some(bytes) => bytes@,
            None => Seq::empty(),
        },
    }
}

/// The rollback of a transfer from `sender`.
pub open spec fn transfer_rollback(sender: Seq<u8>, value: u128) -> CrossTransferRevertView {
    CrossTransferRevertView { account: text_of_key(sender), amount: value }
}

/// What a transfer hands to the relay, where both messages fit the writer.
pub open spec fn transfer_call(sender: Seq<u8>, to: Seq<char>, value: u128, data: Option<Vec<u8>>)
    -> Option<(Seq<u8>, Seq<u8>)> {
    let notice = transfer_notice(sender, to, value, data).wire();
    let rollback = transfer_rollback(sender, value).wire();
    if notice.len() <= MAX_WIRE_LEN && rollback.len() <= MAX_WIRE_LEN {
        Some((notice, rollback))
    } else {
        None
    }
}

/// Makes the notification of a transfer and its rollback; nothing where a
/// message is too long for the writer.
pub fn send_message(sender: &AccountKey, to: String, value: u128, data: Option<Vec<u8>>) -> (r:
    Option<(Vec<u8>, Vec<u8>)>)
    ensures
        match r {
            Some(call) => transfer_call(sender@, to@, value, data) == Some((call.0@, call.1@)),
            None => transfer_call(sender@, to@, value, data) is None,
        },
{
    let from = sender.to_base58();
    let payload = match data {
        Some(bytes) => bytes,
        None => Vec::new(),
    };
    let rollback = CrossTransferRevert::create(from.clone(), value);
    let notice = CrossTransferMsg::create(from, to, value, payload);
    match (notice.try_encode(), rollback.try_encode()) {
        (Some(data), Some(rollback)) => Some((data, rollback)),
        _ => None,
    }
}

/// What an outbound transfer comes to, as contracts read it.
pub struct CrossTransferCallView {
    pub burn: u64,
    pub data: Seq<u8>,
    pub rollback: Seq<u8>,
}

impl View for CrossTransferCall {
    type V = CrossTransferCallView;

    open spec fn view(&self) -> CrossTransferCallView {
        CrossTransferCallView { burn: self.burn, data: self.data@, rollback: self.rollback@ }
    }
}

/// What an outbound transfer comes to: what is burnt and the messages for the
/// relay, or the failure of the first check that fails.
pub open spec fn cross_transfer_outcome(
    state: State,
    accounts: CrossTransferAccounts,
    to: Seq<char>,
    value: u128,
    data: Option<Vec<u8>>,
) -> Result<CrossTransferCallView, BalancedDollarError> {
    if value == 0 {
        Err(BalancedDollarError::InvalidAmount)
    } else if burn_for(value) is None || accounts.from_balance < burn_for(value)->0 {
        Err(BalancedDollarError::InsufficientBalance)
    } else if state.bn_usd_token@ != accounts.mint@ {
        Err(BalancedDollarError::NotBalancedDollar)
    } else {
        match transfer_call(accounts.from_authority@, to, value, data) {
            None => Err(BalancedDollarError::InvalidAmount),
            Some(call) => Ok(
                CrossTransferCallView { burn: burn_for(value)->0, data: call.0, rollback: call.1 },
            ),
        }
    }
}

/// What a result holds, as contracts read it.
pub open spec fn outcome_of<T: View>(r: Result<T, BalancedDollarError>) -> Result<
    T::V,
    BalancedDollarError,
> {
    match r {
        Ok(value) => Ok(value@),
        Err(error) => Err(error),
    }
}

/// Admits an outbound transfer of a remote amount: the sender must hold the
/// local units that cover it. The caller burns them and hands the messages to
/// the relay.
pub fn cross_transfer(
    state: &State,
    accounts: &CrossTransferAccounts,
    to: String,
    icon_bnusd_value: u128,
    data: Option<Vec<u8>>,
) -> (r: Result<CrossTransferCall, BalancedDollarError>)
    ensures
        outcome_of(r) == cross_transfer_outcome(*state, *accounts, to@, icon_bnusd_value, data),
{
    if icon_bnusd_value == 0 {
        return Err(BalancedDollarError::InvalidAmount);
    }
    let whole: u128 = icon_bnusd_value / (DECIMALS_FACTOR as u128);
    let cover: u128 = if icon_bnusd_value % (DECIMALS_FACTOR as u128) > 0 {
        whole + 1
    } else {
        whole
    };
    if cover > u64::MAX as u128 {
        return Err(BalancedDollarError::InsufficientBalance);
    }
    let value: u64 = cover as u64;
    if accounts.from_balance < value {
        return Err(BalancedDollarError::InsufficientBalance);
    }
    if !state.bn_usd_token.same_as(&accounts.mint) {
        return Err(BalancedDollarError::NotBalancedDollar);
    }
    match send_message(&accounts.from_authority, to, icon_bnusd_value, data) {
        Some((data, rollback)) => Ok(CrossTransferCall { burn: value, data, rollback }),
        None => Err(BalancedDollarError::InvalidAmount),
    }
}

/// What a `Mint` says.
pub struct MintView {
    pub recipient: Seq<u8>,
    pub amount: u64,
}

impl View for Mint {
    type V = MintView;

    open spec fn view(&self) -> MintView {
        MintView { recipient: self.recipient@, amount: self.amount }
    }
}

/// The tokens minted for `recipient`, who must be a key, and the designated
/// one: the whole local units of the remote amount. An amount whose whole
/// units do not fit 64 bits is invalid; it is never cut down.
pub open spec fn designated_mint(to_authority: Seq<u8>, recipient: Option<Seq<u8>>, value: u128)
    -> Result<MintView, BalancedDollarError> {
    if recipient is None {
        Err(BalancedDollarError::NotAnAddress)
    } else if recipient->0 != to_authority {
        Err(BalancedDollarError::InvalidToAddress)
    } else {
        match whole_units(value) {
            Some(amount) => Ok(MintView { recipient: recipient->0, amount }),
            None => Err(BalancedDollarError::InvalidAmount),
        }
    }
}

/// What an inbound message mints once the relay is known to be the caller; the
/// failure of the first check that fails otherwise.
///
/// The attesting protocols must be accepted. A transfer must come from the
/// remote dollar contract and name the designated recipient as the account of
/// a network address. A rollback must come back from the relay itself and name
/// the designated recipient.
pub open spec fn call_outcome(
    state: State,
    protocols_accepted: bool,
    to_authority: Seq<u8>,
    from: Seq<char>,
    data: Seq<u8>,
) -> Result<MintView, BalancedDollarError> {
    if !protocols_accepted {
        Err(BalancedDollarError::InvalidProtocols)
    } else {
        match text_of_list(data, 0) {
            None => Err(BalancedDollarError::DecoderError),
            Some(method) => if method == CROSS_TRANSFER@ {
                if from != state.icon_bn_usd@ {
                    Err(BalancedDollarError::InvalidSender)
                } else {
                    match CrossTransferMsgView::of_wire(data) {
                        None => Err(BalancedDollarError::DecoderError),
                        Some(message) => match account_of(message.to) {
                            None => Err(BalancedDollarError::InvalidNetworkAddress),
                            Some(account) => designated_mint(
                                to_authority,
                                key_of_text(account),
                                message.value,
                            ),
                        },
                    }
                }
            } else if method == CROSS_TRANSFER_REVERT@ {
                if account_of(from) != Some(text_of_key(state.xcall@)) {
                    Err(BalancedDollarError::InvalidSender)
                } else {
                    match CrossTransferRevertView::of_wire(data) {
                        None => Err(BalancedDollarError::DecoderError),
                        Some(message) => designated_mint(
                            to_authority,
                            key_of_text(message.account),
                            message.amount,
                        ),
                    }
                }
            } else {
                Err(BalancedDollarError::UnknownMessageType)
            },
        }
    }
}

/// What the handling of an inbound message came to.
#[derive(Debug, Clone, Copy)]
pub enum CallOutcome {
    /// The message took effect: these tokens are to be minted.
    Minted(Mint),
    /// The message was refused.
    Refused(BalancedDollarError),
}

impl CallOutcome {
    /// The outcome as contracts read it.
    pub open spec fn result(self) -> Result<MintView, BalancedDollarError> {
        match self {
            CallOutcome::Minted(mint) => Ok(mint@),
            CallOutcome::Refused(error) => Err(error),
        }
    }

    /// The response that reports the outcome to the relay.
    pub fn response(&self) -> (r: HandleCallMessageResponse)
        ensures
            r@ == (match self {
                CallOutcome::Minted(_) => ResponseView { success: true, message: SUCCESS@ },
                CallOutcome::Refused(error) => ResponseView {
                    success: false,
                    message: error.message_text(),
                },
            }),
    {
        match self {
            CallOutcome::Minted(_) => HandleCallMessageResponse::succeeded(),
            CallOutcome::Refused(error) => HandleCallMessageResponse::failed(error.message()),
        }
    }
}

/// Checks the recipient of a message against the designated one, and takes
/// the whole local units of its amount.
fn mint_for(to_authority: &AccountKey, recipient: &str, value: u128) -> (r: Result<
    Mint,
    BalancedDollarError,
>)
    ensures
        outcome_of(r) == designated_mint(to_authority@, key_of_text(recipient@), value),
{
    match AccountKey::parse(recipient) {
        None => Err(BalancedDollarError::NotAnAddress),
        Some(key) => {
            if !key.same_as(to_authority) {
                return Err(BalancedDollarError::InvalidToAddress);
            }
            if value / (DECIMALS_FACTOR as u128) > u64::MAX as u128 {
                return Err(BalancedDollarError::InvalidAmount);
            }
            Ok(Mint { recipient: key, amount: translate_incoming_amount(value) })
        },
    }
}

/// Decides on an inbound message whose caller is the relay.
fn dispatch(
    state: &State,
    xm_state: &XmState,
    to_authority: &AccountKey,
    from: &String,
    data: &[u8],
    protocols: &Vec<String>,
) -> (r: Result<Mint, BalancedDollarError>)
    ensures
        outcome_of(r) == call_outcome(
            *state,
            inbound_verified(xm_state@, texts(protocols@)),
            to_authority@,
            from@,
            data@,
        ),
{
    if !verify_inbound(xm_state, protocols) {
        return Err(BalancedDollarError::InvalidProtocols);
    }
    let method = decode_method(data)?;
    if method == CROSS_TRANSFER.to_owned() {
        if *from != state.icon_bn_usd {
            return Err(BalancedDollarError::InvalidSender);
        }
        let message = decode_cross_transfer(data)?;
        let value = message.value;
        let account = account_from_network_address(message.to)?;
        mint_for(to_authority, account.as_str(), value)
    } else if method == CROSS_TRANSFER_REVERT.to_owned() {
        let relayed = match account_part(from.as_str()) {
            Some(account) => account == state.xcall.to_base58(),
            None => false,
        };
        if !relayed {
            return Err(BalancedDollarError::InvalidSender);
        }
        let message = decode_cross_transfer_revert(data)?;
        mint_for(to_authority, message.account.as_str(), message.amount)
    } else {
        Err(BalancedDollarError::UnknownMessageType)
    }
}

/// Handles an inbound message.
///
/// A caller other than the relay is an error. Every other refusal is reported
/// in the outcome. Where tokens are minted, they are for the caller to mint.
pub fn handle_call_message(
    state: &State,
    xm_state: &XmState,
    relay: &AccountKey,
    to_authority: &AccountKey,
    from: &String,
    data: &[u8],
    protocols: &Vec<String>,
) -> (r: Result<CallOutcome, BalancedDollarError>)
    ensures
        relay@ != state.xcall@ ==> r == Err::<CallOutcome, BalancedDollarError>(
            BalancedDollarError::OnlyXcall,
        ),
        relay@ == state.xcall@ ==> r is Ok && r->Ok_0.result() == call_outcome(
            *state,
            inbound_verified(xm_state@, texts(protocols@)),
            to_authority@,
            from@,
            data@,
        ),
{
    if !relay.same_as(&state.xcall) {
        return Err(BalancedDollarError::OnlyXcall);
    }
    match dispatch(state, xm_state, to_authority, from, data, protocols) {
        Ok(mint) => Ok(CallOutcome::Minted(mint)),
        Err(error) => Ok(CallOutcome::Refused(error)),
    }
}

/// Sets up the bridged dollar.
pub fn initialize(
    state: &mut State,
    admin: AccountKey,
    xcall: AccountKey,
    icon_bn_usd: String,
    xcall_manager: AccountKey,
    bn_usd_token: AccountKey,
    xcall_manager_state: AccountKey,
)
    ensures
        *final(state) == (State {
            xcall,
            admin,
            icon_bn_usd,
            xcall_manager,
            bn_usd_token,
            xcall_manager_state,
        }),
{
    state.xcall = xcall;
    state.icon_bn_usd = icon_bn_usd;
    state.xcall_manager = xcall_manager;
    state.xcall_manager_state = xcall_manager_state;
    state.bn_usd_token = bn_usd_token;
    state.admin = admin;
}

/// Hands the administration to another key.
pub fn set_admin(state: &mut State, admin: AccountKey)
    ensures
        *final(state) == (State { admin, ..*old(state) }),
{
    state.admin = admin;
}

} // verus!
