use anchor_spl::associated_token::get_associated_token_address as spl_associated_token_address;
use balanced_bridge::address::{AccountKey, _NATIVE_ADDRESS};
use balanced_bridge::asset_manager::errors::AssetManagerError;
use balanced_bridge::asset_manager::param_accounts as asset_accounts;
use balanced_bridge::asset_manager::states::State as AssetState;
use balanced_bridge::asset_manager::structs::deposit_revert::DepositRevert;
use balanced_bridge::asset_manager::structs::withdraw_message::WithdrawTo;
use balanced_bridge::balanced_dollar::errors::BalancedDollarError;
use balanced_bridge::balanced_dollar::param_accounts as dollar_accounts;
use balanced_bridge::balanced_dollar::states::State as DollarState;
use balanced_bridge::balanced_dollar::structs::cross_transfer::CrossTransferMsg;
use balanced_bridge::balanced_dollar::structs::cross_transfer_revert::CrossTransferRevert;
use balanced_bridge::param_accounts::{
    associated_token_program_id, find_seeded_address, get_associated_token_address,
    system_program_id, token_program_id, ParamAccountProps, ParamsContext,
};
use balanced_bridge::spoke_token::param_accounts as spoke_accounts;
use balanced_bridge::spoke_token::states::State as SpokeState;
use balanced_bridge::xcall_manager::configure_protocols::ConfigureProtocols;
use balanced_bridge::xcall_manager::param_accounts as manager_accounts;
use balanced_bridge::xcall_manager::states::XmState;
use solana_program::pubkey::Pubkey;

fn key(byte: u8) -> AccountKey {
    AccountKey { bytes: [byte; 32] }
}

fn pk(key: &AccountKey) -> Pubkey {
    Pubkey::new_from_array(key.bytes)
}

fn ctx() -> ParamsContext {
    ParamsContext { program_id: key(50), state_key: key(51) }
}

fn asset_state() -> AssetState {
    AssetState {
        xcall: key(2),
        icon_asset_manager: "0x1.icon/cx".to_string(),
        xcall_manager: key(3),
        xcall_manager_state: key(4),
        admin: key(1),
    }
}

fn pda(seeds: &[&[u8]], program: &AccountKey) -> [u8; 32] {
    Pubkey::find_program_address(seeds, &pk(program)).0.to_bytes()
}

fn ata(wallet: &[u8; 32], mint: &AccountKey) -> [u8; 32] {
    spl_associated_token_address(&Pubkey::new_from_array(*wallet), &pk(mint)).to_bytes()
}

fn shape(accounts: &[ParamAccountProps]) -> Vec<([u8; 32], bool, bool)> {
    accounts.iter().map(|a| (a.pubkey.bytes, a.is_writable, a.is_signer)).collect()
}

#[test]
fn the_well_known_programs_have_their_addresses() {
    assert_eq!(token_program_id().bytes, anchor_spl::token::ID.to_bytes());
    assert_eq!(associated_token_program_id().bytes, anchor_spl::associated_token::ID.to_bytes());
    assert_eq!(system_program_id().bytes, solana_program::system_program::ID.to_bytes());
    assert_eq!(system_program_id().to_base58(), _NATIVE_ADDRESS);
}

#[test]
fn addresses_derive_as_the_chain_derives_them() {
    let (vault, bump) = find_seeded_address("vault", Some(&key(20)), &key(50)).unwrap();
    let expected = Pubkey::find_program_address(&[b"vault", &[20u8; 32]], &pk(&key(50)));
    assert_eq!((vault.bytes, bump), (expected.0.to_bytes(), expected.1));
    let (native, bump) = find_seeded_address("vault_native", None, &key(50)).unwrap();
    let expected = Pubkey::find_program_address(&[b"vault_native"], &pk(&key(50)));
    assert_eq!((native.bytes, bump), (expected.0.to_bytes(), expected.1));
    let token_account = get_associated_token_address(&key(10), &key(20)).unwrap();
    assert_eq!(token_account.bytes, ata(&[10; 32], &key(20)));
    assert!(find_seeded_address(&"x".repeat(33), None, &key(50)).is_none());
}

#[test]
fn the_asset_manager_derives_its_addresses() {
    let program = key(50);
    let (vault, _) = asset_accounts::get_vault_pda(&program, key(20)).unwrap();
    assert_eq!(vault.bytes, pda(&[b"vault", &[20u8; 32]], &program));
    let (native, _) = asset_accounts::get_native_vault_pda(&program).unwrap();
    assert_eq!(native.bytes, pda(&[b"vault_native"], &program));
    let (limit, _) = asset_accounts::get_token_state_pda(&program, key(20)).unwrap();
    assert_eq!(limit.bytes, pda(&[b"token_state", &[20u8; 32]], &program));
}

#[test]
fn a_withdrawal_of_a_token_lists_its_accounts() {
    let data = WithdrawTo::create(key(20).to_base58(), key(10).to_base58(), 1).encode();
    let list =
        asset_accounts::get_spl_token_withdraw_to_accounts(&ctx(), &asset_state(), &data).unwrap();
    let program = key(50);
    let vault_authority = pda(&[b"vault", &[20u8; 32]], &program);
    let expected = vec![
        (ata(&[10; 32], &key(20)), true, false),
        ([10; 32], true, false),
        ([51; 32], false, false),
        (pda(&[b"token_state", &[20u8; 32]], &program), true, false),
        (ata(&vault_authority, &key(20)), true, false),
        ([50; 32], false, false),
        ([20; 32], true, false),
        (vault_authority, true, false),
        (anchor_spl::token::ID.to_bytes(), true, false),
        (anchor_spl::associated_token::ID.to_bytes(), false, false),
        ([3; 32], false, false),
        ([4; 32], false, false),
        ([0; 32], true, false),
        (ata(&[1; 32], &key(20)), true, false),
        (pda(&[b"token_creation", &[20u8; 32]], &program), true, false),
    ];
    assert_eq!(shape(&list), expected);
    let listed =
        asset_accounts::get_handle_call_message_accounts(&ctx(), &asset_state(), &data).unwrap();
    assert_eq!(shape(&listed.accounts), expected);
    let before = asset_accounts::get_withdraw_to_token_param(&ctx(), &asset_state(), &data).unwrap();
    assert_eq!(
        shape(&before),
        vec![
            ([2; 32], false, false),
            ([3; 32], false, false),
            ([4; 32], false, false),
            ([10; 32], true, false),
            ([20; 32], true, false),
            (vault_authority, true, false),
        ]
    );
}

#[test]
fn a_rollback_of_a_token_lists_its_accounts() {
    let data = DepositRevert::create(key(20).to_base58(), key(10).to_base58(), 1).encode();
    let listed =
        asset_accounts::get_handle_call_message_accounts(&ctx(), &asset_state(), &data).unwrap();
    let list = shape(&listed.accounts);
    assert_eq!(list.len(), 15);
    assert_eq!(list[0], (ata(&[10; 32], &key(20)), true, false));
    assert_eq!(list[13], ([50; 32], true, false));
    assert_eq!(list[14], ([50; 32], false, false));
    assert_eq!(
        shape(
            &asset_accounts::get_spl_token_deposit_revert_accounts(&ctx(), &asset_state(), &data)
                .unwrap()
        ),
        list
    );
}

#[test]
fn messages_for_the_native_asset_list_their_accounts() {
    let program = key(50);
    let withdrawal =
        WithdrawTo::create(_NATIVE_ADDRESS.to_string(), key(10).to_base58(), 1).encode_native();
    let listed =
        asset_accounts::get_handle_call_message_accounts(&ctx(), &asset_state(), &withdrawal)
            .unwrap();
    let list = shape(&listed.accounts);
    let expected = vec![
        ([50; 32], true, false),
        ([10; 32], true, false),
        ([51; 32], false, false),
        (pda(&[b"token_state", &[0u8; 32]], &program), true, false),
        ([50; 32], false, false),
        (pda(&[b"vault_native"], &program), true, false),
        ([50; 32], false, false),
        ([50; 32], false, false),
        ([50; 32], false, false),
        ([50; 32], false, false),
        ([3; 32], false, false),
        ([4; 32], false, false),
        ([0; 32], true, false),
        ([50; 32], true, false),
        ([50; 32], false, false),
    ];
    assert_eq!(list, expected);
    let rollback = DepositRevert::create(_NATIVE_ADDRESS.to_string(), key(10).to_base58(), 1).encode();
    let listed =
        asset_accounts::get_handle_call_message_accounts(&ctx(), &asset_state(), &rollback).unwrap();
    let mut expected = expected;
    expected[0] = ([50; 32], false, false);
    assert_eq!(shape(&listed.accounts), expected);
    assert_eq!(
        shape(
            &asset_accounts::get_native_token_deposit_revert_accounts(
                &ctx(),
                &asset_state(),
                &rollback
            )
            .unwrap()
        ),
        expected
    );
    assert_eq!(
        asset_accounts::get_native_token_withdraw_to_accounts(&ctx(), &asset_state(), &withdrawal)
            .unwrap()
            .len(),
        15
    );
}

#[test]
fn messages_that_move_no_funds_list_no_accounts() {
    let crossed = WithdrawTo::create(_NATIVE_ADDRESS.to_string(), key(10).to_base58(), 1).encode();
    let listed =
        asset_accounts::get_handle_call_message_accounts(&ctx(), &asset_state(), &crossed).unwrap();
    assert!(listed.accounts.is_empty());
    let other = CrossTransferRevert::create(key(10).to_base58(), 1).encode();
    let listed =
        asset_accounts::get_handle_call_message_accounts(&ctx(), &asset_state(), &other).unwrap();
    assert!(listed.accounts.is_empty());
}

#[test]
fn account_lists_need_keys_and_messages() {
    let bad_user = WithdrawTo::create(key(20).to_base58(), "nokey".to_string(), 1).encode();
    assert_eq!(
        asset_accounts::get_handle_call_message_accounts(&ctx(), &asset_state(), &bad_user).err(),
        Some(AssetManagerError::NotAnAddress)
    );
    let bad_mint = DepositRevert::create("cx".to_string(), key(10).to_base58(), 1).encode();
    assert_eq!(
        asset_accounts::get_handle_call_message_accounts(&ctx(), &asset_state(), &bad_mint).err(),
        Some(AssetManagerError::NotAnAddress)
    );
    assert_eq!(
        asset_accounts::get_handle_call_message_accounts(&ctx(), &asset_state(), &[0x80]).err(),
        Some(AssetManagerError::DecoderError)
    );
    let revert = DepositRevert::create(key(20).to_base58(), key(10).to_base58(), 1).encode();
    assert_eq!(
        asset_accounts::get_spl_token_withdraw_to_accounts(&ctx(), &asset_state(), &revert).err(),
        Some(AssetManagerError::DecoderError)
    );
}

#[test]
fn the_dollar_lists_the_accounts_of_a_mint() {
    let state = DollarState {
        xcall: key(2),
        admin: key(1),
        icon_bn_usd: "0x1.icon/cx".to_string(),
        xcall_manager: key(3),
        bn_usd_token: key(20),
        xcall_manager_state: key(4),
    };
    let program = key(50);
    let (authority, bump) = dollar_accounts::mint_authority(&program).unwrap();
    let expected_authority = Pubkey::find_program_address(&[b"bnusd_authority"], &pk(&program));
    assert_eq!((authority.bytes, bump), (expected_authority.0.to_bytes(), expected_authority.1));
    let expected = vec![
        ([51; 32], true, false),
        (ata(&[10; 32], &key(20)), true, false),
        ([10; 32], false, false),
        ([20; 32], true, false),
        (authority.bytes, true, false),
        (anchor_spl::token::ID.to_bytes(), true, false),
        (anchor_spl::associated_token::ID.to_bytes(), false, false),
        ([3; 32], false, false),
        ([2; 32], false, false),
        ([4; 32], true, false),
        ([0; 32], false, false),
    ];
    let to = format!("solana/{}", key(10).to_base58());
    let transfer = CrossTransferMsg::create("a/b".to_string(), to, 1, vec![]).encode();
    let listed = dollar_accounts::get_handle_call_message_accounts(&ctx(), &state, &transfer).unwrap();
    assert_eq!(shape(&listed.accounts), expected);
    let revert = CrossTransferRevert::create(key(10).to_base58(), 1).encode();
    let listed = dollar_accounts::get_handle_call_message_accounts(&ctx(), &state, &revert).unwrap();
    assert_eq!(shape(&listed.accounts), expected);
    let direct = dollar_accounts::get_accounts(
        &ctx(),
        &state,
        key(10),
        AccountKey { bytes: ata(&[10; 32], &key(20)) },
    )
    .unwrap();
    assert_eq!(shape(&direct), expected);
    let other = ConfigureProtocols::null().encode();
    assert!(dollar_accounts::get_handle_call_message_accounts(&ctx(), &state, &other)
        .unwrap()
        .accounts
        .is_empty());
    let no_address = CrossTransferMsg::create("a/b".to_string(), "nothing".to_string(), 1, vec![]);
    assert_eq!(
        dollar_accounts::get_handle_call_message_accounts(&ctx(), &state, &no_address.encode()).err(),
        Some(BalancedDollarError::InvalidNetworkAddress)
    );
    let no_key = CrossTransferMsg::create("a/b".to_string(), "a/b".to_string(), 1, vec![]);
    assert_eq!(
        dollar_accounts::get_handle_call_message_accounts(&ctx(), &state, &no_key.encode()).err(),
        Some(BalancedDollarError::NotAnAddress)
    );
    assert_eq!(
        dollar_accounts::get_handle_call_message_accounts(&ctx(), &state, &[]).err(),
        Some(BalancedDollarError::DecoderError)
    );
}

#[test]
fn a_spoke_token_lists_the_accounts_of_a_mint() {
    let state = SpokeState {
        xcall: key(2),
        admin: key(1),
        icon_hub_addr: "0x1.icon/cx".to_string(),
        xcall_manager: key(3),
        spoke_token_addr: key(20),
        xcall_manager_state: key(4),
    };
    let program = key(50);
    let list = spoke_accounts::get_accounts(&ctx(), &state, key(10), key(11)).unwrap();
    let (authority, _) = spoke_accounts::mint_authority(&program).unwrap();
    assert_eq!(authority.bytes, pda(&[b"bnusd_authority"], &program));
    assert_eq!(
        shape(&list),
        vec![
            ([51; 32], true, false),
            ([11; 32], true, false),
            ([10; 32], false, false),
            ([20; 32], true, false),
            (authority.bytes, true, false),
            (anchor_spl::token::ID.to_bytes(), true, false),
            (anchor_spl::associated_token::ID.to_bytes(), false, false),
            ([3; 32], false, false),
            ([2; 32], false, false),
            ([4; 32], true, false),
            ([0; 32], false, false),
            ([1; 32], true, false),
            (pda(&[b"token_creation"], &program), true, false),
        ]
    );
}

#[test]
fn the_protocol_manager_lists_its_state_and_the_relay() {
    let listed = manager_accounts::get_handle_call_message_accounts(&ctx());
    assert_eq!(shape(&listed.accounts), vec![([51; 32], true, false)]);
    let state = XmState {
        admin: key(1),
        xcall: key(2),
        icon_governance: String::new(),
        sources: vec![],
        destinations: vec![],
        whitelisted_actions: vec![],
        proposed_protocol_to_remove: String::new(),
    };
    let named = manager_accounts::get_configure_protocols_param(&state);
    assert_eq!(shape(&named), vec![([2; 32], false, false)]);
    let rw = ParamAccountProps::new(key(7), true);
    assert!(rw.is_writable && rw.is_signer);
    let ro = ParamAccountProps::new_readonly(key(7), false);
    assert!(!ro.is_writable && !ro.is_signer);
}
