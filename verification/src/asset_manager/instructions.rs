//! What the asset manager decides: the withdrawal limit, what a deposit sends,
//! and what an inbound message may move.

use vstd::prelude::*;
use crate::address::{key_of_text, text_of_key, AccountKey, _NATIVE_ADDRESS};
use crate::asset_manager::errors::AssetManagerError;
use crate::asset_manager::helpers::{
    decode_deposit_revert_msg, decode_method, decode_token_address, decode_withdraw_to_msg,
};
use crate::asset_manager::states::{
    CallMessageWithRollback, DepositAccounts, NativeCallAccounts, State, TokenAccountCreationFee,
    TokenCallAccounts, TokenState, Withdrawal, POINTS,
};
use crate::asset_manager::structs::deposit_message::{DepositMessage, DepositMessageView};
use crate::asset_manager::structs::deposit_revert::{
    DepositRevert, DepositRevertView, DEPOSIT_REVERT,
};
use crate::asset_manager::structs::withdraw_message::{
    WithdrawToView, WITHDRAW_TO, WITHDRAW_TO_NATIVE,
};
use crate::message::{lemma_tags_differ, text_of_list};
use crate::network_address::{account_of, account_part};
use crate::response::{HandleCallMessageResponse, ResponseView, SUCCESS};
use crate::views::texts;
use crate::wire_len::MAX_WIRE_LEN;
use crate::xcall_manager::instructions::{
    inbound_verified, lemma_inbound_needs_the_sources, verify_inbound,
};
use crate::xcall_manager::states::{XmState, XmStateView};

verus! {

/// The part of `balance` that `percentage` basis points keep in the vault.
pub open spec fn reserve_of(balance: int, percentage: int) -> int {
    balance * percentage / 10000
}

/// The seconds counted between `last_update` and `now`.
///
/// Where the clock went on, this is the difference. A clock that ran backwards
/// counts as a very long wait: the difference, no less than `i64::MIN`, is read
/// as an unsigned 64-bit number.
pub open spec fn seconds_since(last_update: i64, now: i64) -> int {
    let diff = now - last_update;
    if diff >= 0 {
        diff
    } else if diff < i64::MIN {
        i64::MIN + 0x1_0000_0000_0000_0000
    } else {
        diff + 0x1_0000_0000_0000_0000
    }
}

/// The balance that must remain in the vault after a withdrawal at `now`.
///
/// With a period of zero there is no floor. Otherwise the watermark decays
/// linearly over one period by the part of the balance above the reserve, and
/// the floor is the decayed watermark, capped by the balance and never below
/// the reserve.
pub open spec fn withdraw_floor(state: TokenState, balance: u64, now: i64) -> int {
    if state.period == 0 {
        0
    } else {
        let reserve = reserve_of(balance as int, state.percentage as int);
        let releasable = if balance >= reserve { balance - reserve } else { 0 };
        let waited = seconds_since(state.last_update, now);
        let elapsed = if waited <= state.period { waited } else { state.period as int };
        let released = releasable * elapsed / (state.period as int);
        let decayed = if state.current_limit >= released { state.current_limit - released } else { 0 };
        let capped = if balance <= decayed { balance as int } else { decayed };
        if capped >= reserve { capped } else { reserve }
    }
}

proof fn lemma_reserve_bounds(balance: int, percentage: int)
    requires
        0 <= balance,
        0 <= percentage <= 10000,
    ensures
        0 <= reserve_of(balance, percentage) <= balance,
{
    assert(0 <= balance * percentage <= balance * 10000) by (nonlinear_arith)
        requires 0 <= balance, 0 <= percentage <= 10000;
}

proof fn lemma_release_bounds(releasable: int, elapsed: int, period: int)
    requires
        0 <= releasable,
        0 <= elapsed <= period,
        0 < period,
    ensures
        0 <= releasable * elapsed / period <= releasable,
        elapsed == period ==> releasable * elapsed / period == releasable,
{
    assert(0 <= releasable * elapsed <= releasable * period) by (nonlinear_arith)
        requires 0 <= releasable, 0 <= elapsed <= period;
    assert(releasable * elapsed / period <= releasable) by (nonlinear_arith)
        requires 0 <= releasable * elapsed <= releasable * period, 0 < period;
    assert(0 <= releasable * elapsed / period) by (nonlinear_arith)
        requires 0 <= releasable * elapsed, 0 < period;
    assert(releasable * period / period == releasable) by (nonlinear_arith)
        requires 0 < period;
}

/// Reads the clock difference the way `seconds_since` states it.
fn elapsed_seconds(last_update: i64, now: i64) -> (waited: u64)
    ensures
        waited == seconds_since(last_update, now),
{
    let diff: i128 = now as i128 - last_update as i128;
    if diff >= 0 {
        diff as u64
    } else {
        let clamped: i64 = if diff < i64::MIN as i128 {
            i64::MIN
        } else {
            diff as i64
        };
        let below: u64 = (-(clamped + 1)) as u64;
        u64::MAX - below
    }
}

/// Computes the balance that must remain in the vault after a withdrawal at `now`.
pub fn calculate_limit(token_state: &TokenState, balance: u64, now: i64) -> (limit: u64)
    requires
        token_state.wf(),
    ensures
        limit == withdraw_floor(*token_state, balance, now),
        token_state.period == 0 ==> limit == 0,
        token_state.period > 0 ==> reserve_of(balance as int, token_state.percentage as int)
            <= limit <= balance,
{
    let period = token_state.period;
    let percentage = token_state.percentage;
    if period == 0 {
        return 0;
    }
    proof {
        lemma_reserve_bounds(balance as int, percentage as int);
        assert(balance * percentage <= u64::MAX * 10000) by (nonlinear_arith)
            requires 0 <= balance <= u64::MAX, 0 <= percentage <= 10000;
    }
    let max_limit: u64 = ((balance as u128 * percentage as u128) / 10000) as u64;
    let max_withdraw: u64 = balance - max_limit;
    let waited = elapsed_seconds(token_state.last_update, now);
    let min_time_diff: u64 = if waited <= period { waited } else { period };
    proof {
        lemma_release_bounds(max_withdraw as int, min_time_diff as int, period as int);
        assert(max_withdraw * min_time_diff <= u64::MAX * u64::MAX) by (nonlinear_arith)
            requires 0 <= max_withdraw <= u64::MAX, 0 <= min_time_diff <= u64::MAX;
    }
    let added_allowed_withdrawal: u64 =
        ((max_withdraw as u128 * min_time_diff as u128) / (period as u128)) as u64;
    let limit: u64 = if token_state.current_limit >= added_allowed_withdrawal {
        token_state.current_limit - added_allowed_withdrawal
    } else {
        0
    };
    let min_limit: u64 = if balance <= limit { balance } else { limit };
    if min_limit >= max_limit { min_limit } else { max_limit }
}

/// Admits or refuses a withdrawal of `amount` from a vault holding `balance`.
///
/// The withdrawal is admitted when what remains is at least the floor at `now`.
/// Then the watermark becomes that floor and the update time becomes `now`. A
/// refused withdrawal leaves the state as it was.
pub fn verify_withdraw(token_state: &mut TokenState, amount: u64, balance: u64, now: i64) -> (r:
    Result<(), AssetManagerError>)
    requires
        old(token_state).wf(),
    ensures
        r is Err <==> balance - amount < withdraw_floor(*old(token_state), balance, now),
        r is Err ==> r == Err::<(), AssetManagerError>(AssetManagerError::ExceedsWithdrawLimit)
            && *final(token_state) == *old(token_state),
        r is Ok ==> *final(token_state) == (TokenState {
            current_limit: withdraw_floor(*old(token_state), balance, now) as u64,
            last_update: now,
            ..*old(token_state)
        }),
        final(token_state).wf(),
{
    let limit = calculate_limit(token_state, balance, now);
    if amount > balance || balance - amount < limit {
        return Err(AssetManagerError::ExceedsWithdrawLimit);
    }
    token_state.current_limit = limit;
    token_state.last_update = now;
    Ok(())
}

/// Sets the rate limit of an asset: the watermark starts at zero, at `now`.
pub fn configure_rate_limit(
    token_state: &mut TokenState,
    token: AccountKey,
    period: u64,
    percentage: u64,
    now: i64,
) -> (r: Result<(), AssetManagerError>)
    ensures
        r is Err <==> percentage > POINTS,
        r is Err ==> r == Err::<(), AssetManagerError>(AssetManagerError::PercentageTooHigh)
            && *final(token_state) == *old(token_state),
        r is Ok ==> *final(token_state) == (TokenState {
            token,
            period,
            percentage,
            last_update: now,
            current_limit: 0,
        }) && final(token_state).wf(),
{
    if percentage > POINTS {
        return Err(AssetManagerError::PercentageTooHigh);
    }
    *token_state = TokenState { token, period, percentage, last_update: now, current_limit: 0 };
    Ok(())
}

/// A floor computed for a limited asset lies between the reserve and the balance.
pub proof fn lemma_floor_between_reserve_and_balance(state: TokenState, balance: u64, now: i64)
    requires
        state.wf(),
        state.period > 0,
    ensures
        reserve_of(balance as int, state.percentage as int) <= withdraw_floor(state, balance, now)
            <= balance,
{
    lemma_reserve_bounds(balance as int, state.percentage as int);
}

/// Once a full period has passed without a withdrawal, the floor of the same
/// balance is the reserve, however much longer the wait.
///
/// The watermark must not exceed the balance, as it cannot after a floor was
/// computed for that balance; a balance that is wholly reserved is its own floor
/// in any case.
pub proof fn lemma_full_decay_reaches_reserve(state: TokenState, balance: u64, now: i64)
    requires
        state.wf(),
        state.period > 0,
        now - state.last_update >= state.period,
        state.current_limit <= balance || reserve_of(balance as int, state.percentage as int)
            == balance,
    ensures
        withdraw_floor(state, balance, now) == reserve_of(balance as int, state.percentage as int),
{
    let reserve = reserve_of(balance as int, state.percentage as int);
    lemma_reserve_bounds(balance as int, state.percentage as int);
    lemma_release_bounds(balance - reserve, state.period as int, state.period as int);
}

/// The text of an optional text: empty where there is none.
pub open spec fn text_or_empty(text: Option<String>) -> Seq<char> {
    match text {
        Some(t) => t@,
        None => Seq::empty(),
    }
}

/// The bytes of optional bytes: empty where there are none.
pub open spec fn bytes_or_empty(bytes: Option<Vec<u8>>) -> Seq<u8> {
    match bytes {
        Some(b) => b@,
        None => Seq::empty(),
    }
}

/// The notification of a deposit by `from`.
pub open spec fn deposit_notice(
    token_address: Seq<char>,
    from: Seq<u8>,
    amount: u64,
    to: Option<String>,
    data: Option<Vec<u8>>,
) -> DepositMessageView {
    DepositMessageView {
        token_address,
        from: text_of_key(from),
        to: text_or_empty(to),
        amount,
        data: bytes_or_empty(data),
    }
}

/// The rollback of a deposit by `from`.
pub open spec fn deposit_rollback(token_address: Seq<char>, from: Seq<u8>, amount: u64)
    -> DepositRevertView {
    DepositRevertView { token_address, account: text_of_key(from), amount }
}

/// What a deposit hands to the relay, where both messages fit the writer.
pub open spec fn deposit_call(
    token_address: Seq<char>,
    from: Seq<u8>,
    amount: u64,
    to: Option<String>,
    data: Option<Vec<u8>>,
) -> Option<(Seq<u8>, Seq<u8>)> {
    let notice = deposit_notice(token_address, from, amount, to, data).wire();
    let rollback = deposit_rollback(token_address, from, amount).wire();
    if notice.len() <= MAX_WIRE_LEN && rollback.len() <= MAX_WIRE_LEN {
        Some((notice, rollback))
    } else {
        None
    }
}

/// What was made for the relay, as contracts read it.
pub open spec fn call_of(r: Result<CallMessageWithRollback, AssetManagerError>) -> Result<
    (Seq<u8>, Seq<u8>),
    AssetManagerError,
> {
    match r {
        Ok(call) => Ok((call.data@, call.rollback@)),
        Err(error) => Err(error),
    }
}

/// Makes the notification of a deposit and its rollback. A message too long
/// for the writer is an invalid instruction.
pub fn send_deposit_message(
    token_address: String,
    from: &AccountKey,
    amount: u64,
    to: Option<String>,
    data: Option<Vec<u8>>,
) -> (r: Result<CallMessageWithRollback, AssetManagerError>)
    ensures
        call_of(r) == (match deposit_call(token_address@, from@, amount, to, data) {
            Some(call) => Ok::<(Seq<u8>, Seq<u8>), AssetManagerError>(call),
            None => Err::<(Seq<u8>, Seq<u8>), AssetManagerError>(
                AssetManagerError::InvalidInstruction,
            ),
        }),
{
    let sender = from.to_base58();
    let recipient = match to {
        Some(text) => text,
        None => String::new(),
    };
    let payload = match data {
        Some(bytes) => bytes,
        None => Vec::new(),
    };
    let rollback = DepositRevert::create(token_address.clone(), sender.clone(), amount);
    let notice = DepositMessage::create(token_address, sender, recipient, amount, payload);
    match (notice.try_encode(), rollback.try_encode()) {
        (Some(data), Some(rollback)) => Ok(CallMessageWithRollback { data, rollback }),
        _ => Err(AssetManagerError::InvalidInstruction),
    }
}

/// What a deposit of a token comes to: the messages for the relay, or the
/// failure of the first check that fails.
pub open spec fn token_deposit_outcome(
    accounts: DepositAccounts,
    amount: u64,
    to: Option<String>,
    data: Option<Vec<u8>>,
) -> Result<(Seq<u8>, Seq<u8>), AssetManagerError> {
    if amount == 0 {
        Err(AssetManagerError::InvalidAmount)
    } else if accounts.from is None {
        Err(AssetManagerError::InvalidFromAddress)
    } else if !accounts.vault_token_account {
        Err(AssetManagerError::ValultTokenAccountIsRequired)
    } else if !accounts.token_program {
        Err(AssetManagerError::InvalidProgram)
    } else {
        match deposit_call(
            text_of_key(accounts.from->0.mint@),
            accounts.from->0.key@,
            amount,
            to,
            data,
        ) {
            Some(call) => Ok(call),
            None => Err(AssetManagerError::InvalidInstruction),
        }
    }
}

/// Admits a deposit of a token and makes its messages. The caller moves
/// `amount` into the vault and hands the messages to the relay.
pub fn deposit_token(
    accounts: &DepositAccounts,
    amount: u64,
    to: Option<String>,
    data: Option<Vec<u8>>,
) -> (r: Result<CallMessageWithRollback, AssetManagerError>)
    ensures
        call_of(r) == token_deposit_outcome(*accounts, amount, to, data),
{
    if amount == 0 {
        return Err(AssetManagerError::InvalidAmount);
    }
    let from = match accounts.from {
        Some(account) => account,
        None => {
            return Err(AssetManagerError::InvalidFromAddress);
        },
    };
    if !accounts.vault_token_account {
        return Err(AssetManagerError::ValultTokenAccountIsRequired);
    }
    if !accounts.token_program {
        return Err(AssetManagerError::InvalidProgram);
    }
    send_deposit_message(from.mint.to_base58(), &from.key, amount, to, data)
}

/// What a deposit of the native asset comes to: the messages for the relay,
/// or the failure of the first check that fails.
pub open spec fn native_deposit_outcome(
    accounts: DepositAccounts,
    amount: u64,
    to: Option<String>,
    data: Option<Vec<u8>>,
) -> Result<(Seq<u8>, Seq<u8>), AssetManagerError> {
    if amount == 0 {
        Err(AssetManagerError::InvalidAmount)
    } else if !accounts.vault_native_account {
        Err(AssetManagerError::ValultTokenAccountIsRequired)
    } else {
        match deposit_call(_NATIVE_ADDRESS@, accounts.from_authority@, amount, to, data) {
            Some(call) => Ok(call),
            None => Err(AssetManagerError::InvalidInstruction),
        }
    }
}

/// Admits a deposit of the native asset and makes its messages. The caller
/// moves `amount` into the vault and hands the messages to the relay.
pub fn deposit_native(
    accounts: &DepositAccounts,
    amount: u64,
    to: Option<String>,
    data: Option<Vec<u8>>,
) -> (r: Result<CallMessageWithRollback, AssetManagerError>)
    ensures
        call_of(r) == native_deposit_outcome(*accounts, amount, to, data),
{
    if amount == 0 {
        return Err(AssetManagerError::InvalidAmount);
    }
    if !accounts.vault_native_account {
        return Err(AssetManagerError::ValultTokenAccountIsRequired);
    }
    send_deposit_message(_NATIVE_ADDRESS.to_owned(), &accounts.from_authority, amount, to, data)
}

/// Sets up the asset manager.
pub fn initialize(
    state: &mut State,
    admin: AccountKey,
    xcall: AccountKey,
    icon_asset_manager: String,
    xcall_manager: AccountKey,
    xcall_manager_state: AccountKey,
)
    ensures
        *final(state) == (State {
            xcall,
            icon_asset_manager,
            xcall_manager,
            xcall_manager_state,
            admin,
        }),
{
    state.xcall = xcall;
    state.icon_asset_manager = icon_asset_manager;
    state.xcall_manager = xcall_manager;
    state.xcall_manager_state = xcall_manager_state;
    state.admin = admin;
}

/// Hands the administration to another key.
pub fn set_admin(state: &mut State, admin: AccountKey)
    ensures
        *final(state) == (State { admin, ..*old(state) }),
{
    state.admin = admin;
}

/// Records what creating a recipient's token account costs.
pub fn set_token_account_creation_fee(
    record: &mut TokenAccountCreationFee,
    token: AccountKey,
    token_account_creation_fee: u64,
)
    ensures
        *final(record) == (TokenAccountCreationFee { token, token_account_creation_fee }),
{
    record.token = token;
    record.token_account_creation_fee = token_account_creation_fee;
}

/// The balance that must remain in a vault of `balance` at `now`.
pub fn get_withdraw_limit(token_state: &TokenState, balance: u64, now: i64) -> (limit: u64)
    requires
        token_state.wf(),
    ensures
        limit == withdraw_floor(*token_state, balance, now),
{
    calculate_limit(token_state, balance, now)
}

/// What a `Withdrawal` says.
pub struct WithdrawalView {
    pub asset: Option<Seq<u8>>,
    pub recipient: Seq<u8>,
    pub amount: u64,
}

impl View for Withdrawal {
    type V = WithdrawalView;

    open spec fn view(&self) -> WithdrawalView {
        WithdrawalView {
            asset: match self.asset {
                Some(key) => Some(key@),
                None => None,
            },
            recipient: self.recipient@,
            amount: self.amount,
        }
    }
}

/// Whether a message comes back from the relay itself: the account of its
/// origin is the relay program.
pub open spec fn from_relay(state: State, from: Seq<char>) -> bool {
    account_of(from) == Some(text_of_key(state.xcall@))
}

/// The funds a message for a token asks for, once the message, its origin and
/// the designated accounts are checked; the failure of the first check that
/// fails otherwise.
pub open spec fn token_request(
    state: State,
    accounts: TokenCallAccounts,
    from: Seq<char>,
    data: Seq<u8>,
) -> Result<WithdrawalView, AssetManagerError> {
    match text_of_list(data, 0) {
        None => Err(AssetManagerError::DecoderError),
        Some(method) => {
            if accounts.to is None {
                Err(AssetManagerError::InvalidToAddress)
            } else if accounts.mint is None {
                Err(AssetManagerError::MintIsRequired)
            } else if !accounts.token_program {
                Err(AssetManagerError::TokenProgramIsRequired)
            } else if accounts.vault_token_balance is None {
                Err(AssetManagerError::ValultTokenAccountIsRequired)
            } else if !accounts.vault_authority {
                Err(AssetManagerError::ValultAuthorityIsRequired)
            } else if method == WITHDRAW_TO@ {
                if from != state.icon_asset_manager@ {
                    Err(AssetManagerError::NotIconAssetManager)
                } else {
                    match WithdrawToView::of_wire(data) {
                        None => Err(AssetManagerError::DecoderError),
                        Some(message) => designated_token_funds(
                            accounts,
                            key_of_text(message.token_address),
                            key_of_text(message.user_address),
                            message.amount,
                        ),
                    }
                }
            } else if method == DEPOSIT_REVERT@ {
                if !from_relay(state, from) {
                    Err(AssetManagerError::UnauthorizedCaller)
                } else {
                    match DepositRevertView::of_wire(data) {
                        None => Err(AssetManagerError::DecoderError),
                        Some(message) => designated_token_refund(
                            accounts,
                            key_of_text(message.token_address),
                            key_of_text(message.account),
                            message.amount as u128,
                        ),
                    }
                }
            } else {
                Err(AssetManagerError::UnknownMessage)
            }
        },
    }
}

/// The amount of a message as funds for `recipient`. A vault holds at most
/// `u64::MAX`, so a greater amount is more than any balance and is refused as
/// such; it is never cut down.
pub open spec fn funds_within_reach(asset: Option<Seq<u8>>, recipient: Seq<u8>, amount: u128)
    -> Result<WithdrawalView, AssetManagerError> {
    if amount > u64::MAX {
        Err(AssetManagerError::InsufficientBalance)
    } else {
        Ok(WithdrawalView { asset, recipient, amount: amount as u64 })
    }
}

/// The funds of a token that go to the designated recipient: the asset and the
/// recipient of the message must be keys, and the designated ones, and the
/// amount must be within reach.
pub open spec fn designated_token_funds(
    accounts: TokenCallAccounts,
    asset: Option<Seq<u8>>,
    recipient: Option<Seq<u8>>,
    amount: u128,
) -> Result<WithdrawalView, AssetManagerError> {
    if asset is None || recipient is None {
        Err(AssetManagerError::NotAnAddress)
    } else if accounts.to is None || accounts.mint is None || recipient->0 != accounts.to->0@
        || asset->0 != accounts.mint->0@ {
        Err(AssetManagerError::InvalidToAddress)
    } else {
        funds_within_reach(Some(asset->0), recipient->0, amount)
    }
}

/// The funds of a token that go back to the designated recipient: the
/// recipient of the message must be a key, and the designated one, and then
/// the asset of the message must be a key, and the designated one; the amount
/// must be within reach.
pub open spec fn designated_token_refund(
    accounts: TokenCallAccounts,
    asset: Option<Seq<u8>>,
    recipient: Option<Seq<u8>>,
    amount: u128,
) -> Result<WithdrawalView, AssetManagerError> {
    if recipient is None {
        Err(AssetManagerError::NotAnAddress)
    } else if accounts.to is None || recipient->0 != accounts.to->0@ {
        Err(AssetManagerError::InvalidToAddress)
    } else if asset is None {
        Err(AssetManagerError::NotAnAddress)
    } else if accounts.mint is None || asset->0 != accounts.mint->0@ {
        Err(AssetManagerError::InvalidToAddress)
    } else {
        funds_within_reach(Some(asset->0), recipient->0, amount)
    }
}

/// The native funds that go to the designated recipient: the recipient of the
/// message must be a key, and the designated one, and the asset of the message
/// must be the native one; the amount must be within reach.
pub open spec fn designated_native_funds(
    accounts: NativeCallAccounts,
    asset: Seq<char>,
    recipient: Option<Seq<u8>>,
    amount: u128,
) -> Result<WithdrawalView, AssetManagerError> {
    if recipient is None {
        Err(AssetManagerError::NotAnAddress)
    } else if accounts.to_native is None || recipient->0 != accounts.to_native->0@ || asset
        != _NATIVE_ADDRESS@ {
        Err(AssetManagerError::InvalidToAddress)
    } else {
        funds_within_reach(None, recipient->0, amount)
    }
}

/// The funds a message for the native asset asks for, once the message, its
/// origin and the designated accounts are checked; the failure of the first
/// check that fails otherwise.
pub open spec fn native_request(
    state: State,
    accounts: NativeCallAccounts,
    from: Seq<char>,
    data: Seq<u8>,
) -> Result<WithdrawalView, AssetManagerError> {
    match text_of_list(data, 0) {
        None => Err(AssetManagerError::DecoderError),
        Some(method) => {
            if accounts.to_native is None {
                Err(AssetManagerError::InvalidToAddress)
            } else if accounts.vault_native_balance is None {
                Err(AssetManagerError::ValultTokenAccountIsRequired)
            } else if method == WITHDRAW_TO_NATIVE@ {
                if from != state.icon_asset_manager@ {
                    Err(AssetManagerError::NotIconAssetManager)
                } else {
                    match WithdrawToView::of_wire(data) {
                        None => Err(AssetManagerError::DecoderError),
                        Some(message) => designated_native_funds(
                            accounts,
                            message.token_address,
                            key_of_text(message.user_address),
                            message.amount,
                        ),
                    }
                }
            } else if method == DEPOSIT_REVERT@ {
                if !from_relay(state, from) {
                    Err(AssetManagerError::NotIconAssetManager)
                } else {
                    match DepositRevertView::of_wire(data) {
                        None => Err(AssetManagerError::DecoderError),
                        Some(message) => designated_native_funds(
                            accounts,
                            message.token_address,
                            key_of_text(message.account),
                            message.amount as u128,
                        ),
                    }
                }
            } else {
                Err(AssetManagerError::UnknownMessage)
            }
        },
    }
}

/// Why funds asked for may not leave a vault of `balance`, if they may not:
/// the vault holds less, or less than the floor would remain.
pub open spec fn release_refusal(token_state: TokenState, amount: u64, balance: u64, now: i64)
    -> Option<AssetManagerError> {
    if balance < amount {
        Some(AssetManagerError::InsufficientBalance)
    } else if balance - amount < withdraw_floor(token_state, balance, now) {
        Some(AssetManagerError::ExceedsWithdrawLimit)
    } else {
        None
    }
}

/// The limit of an asset after a withdrawal at `now` from a vault of `balance`.
pub open spec fn after_release(token_state: TokenState, balance: u64, now: i64) -> TokenState {
    TokenState {
        current_limit: withdraw_floor(token_state, balance, now) as u64,
        last_update: now,
        ..token_state
    }
}

/// Lets `amount` leave a vault of `balance`, if the vault holds it and the
/// limit admits it. The limit advances when it does, and only then.
pub fn release(token_state: &mut TokenState, amount: u64, balance: u64, now: i64) -> (r: Result<
    (),
    AssetManagerError,
>)
    requires
        old(token_state).wf(),
    ensures
        final(token_state).wf(),
        match release_refusal(*old(token_state), amount, balance, now) {
            Some(error) => r == Err::<(), AssetManagerError>(error) && *final(token_state) == *old(
                token_state,
            ),
            None => r is Ok && *final(token_state) == after_release(
                *old(token_state),
                balance,
                now,
            ),
        },
{
    if balance < amount {
        return Err(AssetManagerError::InsufficientBalance);
    }
    verify_withdraw(token_state, amount, balance, now)
}

/// Whether the account of the origin of a message is the relay program.
fn comes_from_relay(state: &State, from: &String) -> (yes: bool)
    ensures
        yes == from_relay(*state, from@),
{
    match account_part(from.as_str()) {
        None => false,
        Some(account) => account == state.xcall.to_base58(),
    }
}

/// Takes the amount of a message as funds, unless it is out of reach.
fn within_reach(asset: Option<AccountKey>, recipient: AccountKey, amount: u128) -> (r: Result<
    Withdrawal,
    AssetManagerError,
>)
    ensures
        funds_of(r) == funds_within_reach(crate::views::view_opt(asset), recipient@, amount),
{
    if amount > u64::MAX as u128 {
        return Err(AssetManagerError::InsufficientBalance);
    }
    Ok(Withdrawal { asset, recipient, amount: amount as u64 })
}

/// Checks the asset and the recipient of a message for a token against the
/// designated accounts.
fn token_funds(accounts: &TokenCallAccounts, asset: &String, recipient: &String, amount: u128) -> (r:
    Result<Withdrawal, AssetManagerError>)
    requires
        accounts.to is Some,
        accounts.mint is Some,
    ensures
        funds_of(r) == designated_token_funds(
            *accounts,
            key_of_text(asset@),
            key_of_text(recipient@),
            amount,
        ),
{
    let token = match AccountKey::parse(asset.as_str()) {
        Some(key) => key,
        None => {
            return Err(AssetManagerError::NotAnAddress);
        },
    };
    let user = match AccountKey::parse(recipient.as_str()) {
        Some(key) => key,
        None => {
            return Err(AssetManagerError::NotAnAddress);
        },
    };
    match (accounts.to, accounts.mint) {
        (Some(to), Some(mint)) => {
            if !user.same_as(&to) || !token.same_as(&mint) {
                return Err(AssetManagerError::InvalidToAddress);
            }
            within_reach(Some(token), user, amount)
        },
        _ => Err(AssetManagerError::InvalidToAddress),
    }
}

/// Checks the recipient and then the asset of a rollback for a token against
/// the designated accounts.
fn token_refund(accounts: &TokenCallAccounts, asset: &String, recipient: &String, amount: u128) -> (r:
    Result<Withdrawal, AssetManagerError>)
    requires
        accounts.to is Some,
        accounts.mint is Some,
    ensures
        funds_of(r) == designated_token_refund(
            *accounts,
            key_of_text(asset@),
            key_of_text(recipient@),
            amount,
        ),
{
    let user = match AccountKey::parse(recipient.as_str()) {
        Some(key) => key,
        None => {
            return Err(AssetManagerError::NotAnAddress);
        },
    };
    match (accounts.to, accounts.mint) {
        (Some(to), Some(mint)) => {
            if !user.same_as(&to) {
                return Err(AssetManagerError::InvalidToAddress);
            }
            let token = match AccountKey::parse(asset.as_str()) {
                Some(key) => key,
                None => {
                    return Err(AssetManagerError::NotAnAddress);
                },
            };
            if !token.same_as(&mint) {
                return Err(AssetManagerError::InvalidToAddress);
            }
            within_reach(Some(token), user, amount)
        },
        _ => Err(AssetManagerError::InvalidToAddress),
    }
}

/// Checks the asset and the recipient of a message for the native asset
/// against the designated account.
fn native_funds(accounts: &NativeCallAccounts, asset: &String, recipient: &String, amount: u128) -> (r:
    Result<Withdrawal, AssetManagerError>)
    requires
        accounts.to_native is Some,
    ensures
        funds_of(r) == designated_native_funds(*accounts, asset@, key_of_text(recipient@), amount),
{
    let user = match AccountKey::parse(recipient.as_str()) {
        Some(key) => key,
        None => {
            return Err(AssetManagerError::NotAnAddress);
        },
    };
    match accounts.to_native {
        Some(to) => {
            if !user.same_as(&to) || *asset != _NATIVE_ADDRESS.to_owned() {
                return Err(AssetManagerError::InvalidToAddress);
            }
            within_reach(None, user, amount)
        },
        None => Err(AssetManagerError::InvalidToAddress),
    }
}

/// The funds a message for a token releases, and the limit after it; the
/// failure of the first check that fails otherwise.
pub open spec fn token_call_outcome(
    state: State,
    token_state: TokenState,
    accounts: TokenCallAccounts,
    from: Seq<char>,
    data: Seq<u8>,
    now: i64,
) -> Result<WithdrawalView, AssetManagerError> {
    match token_request(state, accounts, from, data) {
        Err(error) => Err(error),
        Ok(funds) => match release_refusal(
            token_state,
            funds.amount,
            accounts.vault_token_balance->0,
            now,
        ) {
            Some(error) => Err(error),
            None => Ok(funds),
        },
    }
}

/// The funds a message for the native asset releases; the failure of the
/// first check that fails otherwise.
pub open spec fn native_call_outcome(
    state: State,
    token_state: TokenState,
    accounts: NativeCallAccounts,
    from: Seq<char>,
    data: Seq<u8>,
    now: i64,
) -> Result<WithdrawalView, AssetManagerError> {
    match native_request(state, accounts, from, data) {
        Err(error) => Err(error),
        Ok(funds) => match release_refusal(
            token_state,
            funds.amount,
            accounts.vault_native_balance->0,
            now,
        ) {
            Some(error) => Err(error),
            None => Ok(funds),
        },
    }
}

/// What an inbound call came to, as contracts read it.
pub open spec fn funds_of(r: Result<Withdrawal, AssetManagerError>) -> Result<
    WithdrawalView,
    AssetManagerError,
> {
    match r {
        Ok(funds) => Ok(funds@),
        Err(error) => Err(error),
    }
}

/// Handles an inbound message for a token: a withdrawal asked for by the
/// remote asset manager, or a deposit that the relay rolls back.
///
/// On success the funds in the result are to leave the vault, and the limit
/// has advanced. On failure nothing has changed.
pub fn handle_token_call_message(
    state: &State,
    token_state: &mut TokenState,
    accounts: &TokenCallAccounts,
    from: &String,
    data: &[u8],
    now: i64,
) -> (r: Result<Withdrawal, AssetManagerError>)
    requires
        old(token_state).wf(),
    ensures
        final(token_state).wf(),
        funds_of(r) == token_call_outcome(*state, *old(token_state), *accounts, from@, data@, now),
        r is Err ==> *final(token_state) == *old(token_state),
        r is Ok ==> *final(token_state) == after_release(
            *old(token_state),
            accounts.vault_token_balance->0,
            now,
        ),
{
    let method = decode_method(data)?;
    if accounts.to.is_none() {
        return Err(AssetManagerError::InvalidToAddress);
    }
    if accounts.mint.is_none() {
        return Err(AssetManagerError::MintIsRequired);
    }
    if !accounts.token_program {
        return Err(AssetManagerError::TokenProgramIsRequired);
    }
    let vault_balance = match accounts.vault_token_balance {
        Some(balance) => balance,
        None => {
            return Err(AssetManagerError::ValultTokenAccountIsRequired);
        },
    };
    if !accounts.vault_authority {
        return Err(AssetManagerError::ValultAuthorityIsRequired);
    }
    let funds = if method == WITHDRAW_TO.to_owned() {
        if *from != state.icon_asset_manager {
            return Err(AssetManagerError::NotIconAssetManager);
        }
        let message = decode_withdraw_to_msg(data)?;
        token_funds(
            accounts,
            &message.token_address,
            &message.user_address,
            message.amount,
        )?
    } else if method == DEPOSIT_REVERT.to_owned() {
        if !comes_from_relay(state, from) {
            return Err(AssetManagerError::UnauthorizedCaller);
        }
        let message = decode_deposit_revert_msg(data)?;
        token_refund(
            accounts,
            &message.token_address,
            &message.account,
            message.amount as u128,
        )?
    } else {
        return Err(AssetManagerError::UnknownMessage);
    };
    release(token_state, funds.amount, vault_balance, now)?;
    Ok(funds)
}

/// Handles an inbound message for the native asset: a withdrawal asked for by
/// the remote asset manager, or a deposit that the relay rolls back.
///
/// On success the funds in the result are to leave the vault, and the limit
/// has advanced. On failure nothing has changed.
pub fn handle_native_call_message(
    state: &State,
    token_state: &mut TokenState,
    accounts: &NativeCallAccounts,
    from: &String,
    data: &[u8],
    now: i64,
) -> (r: Result<Withdrawal, AssetManagerError>)
    requires
        old(token_state).wf(),
    ensures
        final(token_state).wf(),
        funds_of(r) == native_call_outcome(*state, *old(token_state), *accounts, from@, data@, now),
        r is Err ==> *final(token_state) == *old(token_state),
        r is Ok ==> *final(token_state) == after_release(
            *old(token_state),
            accounts.vault_native_balance->0,
            now,
        ),
{
    let method = decode_method(data)?;
    if accounts.to_native.is_none() {
        return Err(AssetManagerError::InvalidToAddress);
    }
    let vault_balance = match accounts.vault_native_balance {
        Some(balance) => balance,
        None => {
            return Err(AssetManagerError::ValultTokenAccountIsRequired);
        },
    };
    let funds = if method == WITHDRAW_TO_NATIVE.to_owned() {
        if *from != state.icon_asset_manager {
            return Err(AssetManagerError::NotIconAssetManager);
        }
        let message = decode_withdraw_to_msg(data)?;
        native_funds(
            accounts,
            &message.token_address,
            &message.user_address,
            message.amount,
        )?
    } else if method == DEPOSIT_REVERT.to_owned() {
        if !comes_from_relay(state, from) {
            return Err(AssetManagerError::NotIconAssetManager);
        }
        let message = decode_deposit_revert_msg(data)?;
        native_funds(
            accounts,
            &message.token_address,
            &message.account,
            message.amount as u128,
        )?
    } else {
        return Err(AssetManagerError::UnknownMessage);
    };
    release(token_state, funds.amount, vault_balance, now)?;
    Ok(funds)
}

/// What the handling of an inbound message came to.
#[derive(Debug, Clone, Copy)]
pub enum CallOutcome {
    /// The message took effect: these funds are to leave the vault.
    Released(Withdrawal),
    /// The message was refused, and nothing has changed.
    Refused(AssetManagerError),
}

impl CallOutcome {
    /// The outcome as contracts read it.
    pub open spec fn result(self) -> Result<WithdrawalView, AssetManagerError> {
        match self {
            CallOutcome::Released(funds) => Ok(funds@),
            CallOutcome::Refused(error) => Err(error),
        }
    }

    /// The response that reports the outcome to the relay.
    pub fn response(&self) -> (r: HandleCallMessageResponse)
        ensures
            r@ == (match self {
                CallOutcome::Released(_) => ResponseView { success: true, message: SUCCESS@ },
                CallOutcome::Refused(error) => ResponseView {
                    success: false,
                    message: error.message_text(),
                },
            }),
    {
        match self {
            CallOutcome::Released(_) => HandleCallMessageResponse::succeeded(),
            CallOutcome::Refused(error) => HandleCallMessageResponse::failed(error.message()),
        }
    }
}

/// What an inbound message comes to once the relay is known to be the caller:
/// the attesting protocols must be accepted, the message must name its asset,
/// and the rest is the matter of the token or of the native asset.
pub open spec fn call_outcome(
    state: State,
    protocols_accepted: bool,
    token_state: TokenState,
    token_accounts: TokenCallAccounts,
    native_accounts: NativeCallAccounts,
    from: Seq<char>,
    data: Seq<u8>,
    now: i64,
) -> Result<WithdrawalView, AssetManagerError> {
    if !protocols_accepted {
        Err(AssetManagerError::ProtocolMismatch)
    } else {
        match text_of_list(data, 1) {
            None => Err(AssetManagerError::DecoderError),
            Some(asset) => if asset != _NATIVE_ADDRESS@ {
                token_call_outcome(state, token_state, token_accounts, from, data, now)
            } else {
                native_call_outcome(state, token_state, native_accounts, from, data, now)
            },
        }
    }
}

/// The balance of the vault that an inbound message draws on.
pub open spec fn vault_balance_for(
    token_accounts: TokenCallAccounts,
    native_accounts: NativeCallAccounts,
    data: Seq<u8>,
) -> u64 {
    if text_of_list(data, 1) != Some(_NATIVE_ADDRESS@) {
        token_accounts.vault_token_balance->0
    } else {
        native_accounts.vault_native_balance->0
    }
}

/// Handles an inbound message.
///
/// A caller other than the relay is an error. Every other refusal is reported
/// in the outcome and leaves the limit as it was. Where funds are released,
/// the limit has advanced, and the funds are for the caller to move.
pub fn handle_call_message(
    state: &State,
    xm_state: &XmState,
    token_state: &mut TokenState,
    relay: &AccountKey,
    token_accounts: &TokenCallAccounts,
    native_accounts: &NativeCallAccounts,
    from: &String,
    data: &[u8],
    protocols: &Vec<String>,
    now: i64,
) -> (r: Result<CallOutcome, AssetManagerError>)
    requires
        old(token_state).wf(),
    ensures
        final(token_state).wf(),
        relay@ != state.xcall@ ==> r == Err::<CallOutcome, AssetManagerError>(
            AssetManagerError::OnlyXcall,
        ),
        relay@ == state.xcall@ ==> r is Ok && r->Ok_0.result() == call_outcome(
            *state,
            inbound_verified(xm_state@, texts(protocols@)),
            *old(token_state),
            *token_accounts,
            *native_accounts,
            from@,
            data@,
            now,
        ),
        r matches Ok(CallOutcome::Released(_)) ==> *final(token_state) == after_release(
            *old(token_state),
            vault_balance_for(*token_accounts, *native_accounts, data@),
            now,
        ),
        !(r matches Ok(CallOutcome::Released(_))) ==> *final(token_state) == *old(token_state),
{
    if !relay.same_as(&state.xcall) {
        return Err(AssetManagerError::OnlyXcall);
    }
    if !verify_inbound(xm_state, protocols) {
        return Ok(CallOutcome::Refused(AssetManagerError::ProtocolMismatch));
    }
    let token_address = match decode_token_address(data) {
        Ok(asset) => asset,
        Err(error) => {
            return Ok(CallOutcome::Refused(error));
        },
    };
    let result = if token_address != _NATIVE_ADDRESS.to_owned() {
        handle_token_call_message(state, token_state, token_accounts, from, data, now)
    } else {
        handle_native_call_message(state, token_state, native_accounts, from, data, now)
    };
    match result {
        Ok(funds) => Ok(CallOutcome::Released(funds)),
        Err(error) => Ok(CallOutcome::Refused(error)),
    }
}

/// Whether the text of a message names the designated account.
pub open spec fn names_designated(text: Seq<char>, designated: Option<AccountKey>) -> bool {
    designated matches Some(account) && key_of_text(text) == Some(account@)
}

/// Whether everything that a withdrawal of a token is asked before its
/// recipient holds: the accounts of the call are there, the message comes
/// from the remote asset manager, and its asset and recipient are keys.
pub open spec fn token_withdrawal_reaches_recipient(
    state: State,
    accounts: TokenCallAccounts,
    from: Seq<char>,
    message: WithdrawToView,
) -> bool {
    &&& accounts.to is Some
    &&& accounts.mint is Some
    &&& accounts.token_program
    &&& accounts.vault_token_balance is Some
    &&& accounts.vault_authority
    &&& from == state.icon_asset_manager@
    &&& key_of_text(message.token_address) is Some
    &&& key_of_text(message.user_address) is Some
}

/// A withdrawal of a token whose recipient is not the designated one
/// releases nothing, whatever else holds of the call. Where nothing that is
/// asked before the recipient fails, the failure is `InvalidToAddress`.
pub proof fn lemma_other_recipient_of_token_is_refused(
    state: State,
    token_state: TokenState,
    accounts: TokenCallAccounts,
    from: Seq<char>,
    data: Seq<u8>,
    now: i64,
)
    requires
        text_of_list(data, 0) == Some(WITHDRAW_TO@),
        WithdrawToView::of_wire(data) is Some,
        !names_designated(WithdrawToView::of_wire(data)->0.user_address, accounts.to),
    ensures
        token_call_outcome(state, token_state, accounts, from, data, now) is Err,
        token_withdrawal_reaches_recipient(
            state,
            accounts,
            from,
            WithdrawToView::of_wire(data)->0,
        ) ==> token_call_outcome(state, token_state, accounts, from, data, now) == Err::<
            WithdrawalView,
            AssetManagerError,
        >(AssetManagerError::InvalidToAddress),
{
}

/// Whether everything that a withdrawal of the native asset is asked before
/// its recipient holds: the accounts of the call are there, the message comes
/// from the remote asset manager, and its recipient is a key.
pub open spec fn native_withdrawal_reaches_recipient(
    state: State,
    accounts: NativeCallAccounts,
    from: Seq<char>,
    message: WithdrawToView,
) -> bool {
    &&& accounts.to_native is Some
    &&& accounts.vault_native_balance is Some
    &&& from == state.icon_asset_manager@
    &&& key_of_text(message.user_address) is Some
}

/// A withdrawal of the native asset whose recipient is not the designated
/// one, or whose asset is not the native one, releases nothing, whatever else
/// holds of the call. Where nothing that is asked before the recipient fails,
/// the failure is `InvalidToAddress`.
pub proof fn lemma_other_recipient_of_native_is_refused(
    state: State,
    token_state: TokenState,
    accounts: NativeCallAccounts,
    from: Seq<char>,
    data: Seq<u8>,
    now: i64,
)
    requires
        text_of_list(data, 0) == Some(WITHDRAW_TO_NATIVE@),
        WithdrawToView::of_wire(data) is Some,
        !names_designated(WithdrawToView::of_wire(data)->0.user_address, accounts.to_native)
            || WithdrawToView::of_wire(data)->0.token_address != _NATIVE_ADDRESS@,
    ensures
        native_call_outcome(state, token_state, accounts, from, data, now) is Err,
        native_withdrawal_reaches_recipient(
            state,
            accounts,
            from,
            WithdrawToView::of_wire(data)->0,
        ) ==> native_call_outcome(state, token_state, accounts, from, data, now) == Err::<
            WithdrawalView,
            AssetManagerError,
        >(AssetManagerError::InvalidToAddress),
{
}

/// An inbound withdrawal of a token whose recipient is not the designated one
/// releases nothing, whatever the protocols, the accounts and the limit:
/// every outcome is a refusal. Where the protocols are accepted, the asset is
/// not the native one and nothing that is asked before the recipient fails,
/// the refusal is `InvalidToAddress`.
pub proof fn lemma_substituted_recipient_is_refused(
    state: State,
    protocols_accepted: bool,
    token_state: TokenState,
    token_accounts: TokenCallAccounts,
    native_accounts: NativeCallAccounts,
    from: Seq<char>,
    data: Seq<u8>,
    now: i64,
)
    requires
        text_of_list(data, 0) == Some(WITHDRAW_TO@),
        WithdrawToView::of_wire(data) is Some,
        !names_designated(WithdrawToView::of_wire(data)->0.user_address, token_accounts.to),
    ensures
        call_outcome(
            state,
            protocols_accepted,
            token_state,
            token_accounts,
            native_accounts,
            from,
            data,
            now,
        ) is Err,
        protocols_accepted && WithdrawToView::of_wire(data)->0.token_address != _NATIVE_ADDRESS@
            && token_withdrawal_reaches_recipient(
            state,
            token_accounts,
            from,
            WithdrawToView::of_wire(data)->0,
        ) ==> call_outcome(
            state,
            protocols_accepted,
            token_state,
            token_accounts,
            native_accounts,
            from,
            data,
            now,
        ) == Err::<WithdrawalView, AssetManagerError>(AssetManagerError::InvalidToAddress),
{
    lemma_tags_differ();
    lemma_other_recipient_of_token_is_refused(state, token_state, token_accounts, from, data, now);
}

/// While no removal is proposed, a message whose attesting protocols are not
/// as many as the sources, or do not name the same set, is refused with
/// `ProtocolMismatch`, whatever it holds.
pub proof fn lemma_unattested_message_is_refused(
    state: State,
    protocols: XmStateView,
    attesting: Seq<Seq<char>>,
    token_state: TokenState,
    token_accounts: TokenCallAccounts,
    native_accounts: NativeCallAccounts,
    from: Seq<char>,
    data: Seq<u8>,
    now: i64,
)
    requires
        protocols.proposed_protocol_to_remove.len() == 0,
        protocols.sources.len() != attesting.len() || protocols.sources.to_set()
            != attesting.to_set(),
    ensures
        call_outcome(
            state,
            inbound_verified(protocols, attesting),
            token_state,
            token_accounts,
            native_accounts,
            from,
            data,
            now,
        ) == Err::<WithdrawalView, AssetManagerError>(AssetManagerError::ProtocolMismatch),
{
    lemma_inbound_needs_the_sources(protocols, attesting);
}

} // verus!
