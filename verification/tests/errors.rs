use balanced_bridge::asset_manager::errors::AssetManagerError;
use balanced_bridge::balanced_dollar::errors::BalancedDollarError;
use balanced_bridge::response::HandleCallMessageResponse;
use balanced_bridge::spoke_token::errors::ContractError;
use balanced_bridge::spoke_token::helpers::{
    decode_cross_transfer, decode_cross_transfer_revert, decode_method,
};
use balanced_bridge::balanced_dollar::structs::cross_transfer::CrossTransferMsg;
use balanced_bridge::balanced_dollar::structs::cross_transfer_revert::CrossTransferRevert;
use balanced_bridge::xcall_manager::errors::XCallManagerError;

#[test]
fn failures_have_their_texts() {
    assert_eq!(AssetManagerError::ExceedsWithdrawLimit.message(), "Exceeds withdraw limit");
    assert_eq!(AssetManagerError::InvalidToAddress.message(), "invalid to address");
    assert_eq!(AssetManagerError::DecoderError.message(), "Method Decode Error");
    assert_eq!(BalancedDollarError::InvalidProtocols.message(), "Invalid protocols");
    assert_eq!(BalancedDollarError::InvalidNetworkAddress.message(), "Invalid Network Address");
    assert_eq!(ContractError::NotSpokeToken.message(), "Not Spoke Token");
    assert_eq!(
        XCallManagerError::NoProposalForRemovalExists.message(),
        "No proposal for removal exists"
    );
    assert_eq!(XCallManagerError::ActionNotWhitelisted.message(), "Action not whitelisted");
}

#[test]
fn failures_are_numbered_from_6000() {
    assert_eq!(AssetManagerError::AmountLessThanMinimum.code(), 6000);
    assert_eq!(AssetManagerError::ExceedsWithdrawLimit.code(), 6001);
    assert_eq!(AssetManagerError::InvalidValutNativeAuthority.code(), 6029);
    assert_eq!(BalancedDollarError::InvalidToAddress.code(), 6013);
    assert_eq!(ContractError::MintAmountLessThanTokenCreationFee.code(), 6015);
    assert_eq!(XCallManagerError::ExecutionFailed.code(), 6000);
    assert_eq!(XCallManagerError::InvalidProgram.code(), 6012);
}

#[test]
fn every_decoder_failure_becomes_the_decoder_error() {
    let errors = [
        rlp::DecoderError::RlpIsTooShort,
        rlp::DecoderError::RlpExpectedToBeList,
        rlp::DecoderError::RlpInvalidLength,
        rlp::DecoderError::Custom("x"),
    ];
    for e in errors {
        assert_eq!(AssetManagerError::from(e.clone()), AssetManagerError::DecoderError);
        assert_eq!(BalancedDollarError::from(e.clone()), BalancedDollarError::DecoderError);
        assert_eq!(ContractError::from(e.clone()), ContractError::DecoderError);
        assert_eq!(XCallManagerError::from(e), XCallManagerError::DecoderError);
    }
}

#[test]
fn responses_report_success_or_the_reason() {
    let ok = HandleCallMessageResponse::succeeded();
    assert!(ok.success);
    assert_eq!(ok.message, "Success");
    let no = HandleCallMessageResponse::failed("why".to_string());
    assert!(!no.success);
    assert_eq!(no.message, "why");
}

#[test]
fn spoke_token_helpers_decode_the_transfer_messages() {
    let transfer =
        CrossTransferMsg::create("a".to_string(), "n/b".to_string(), 1 << 100, vec![9, 9]);
    let bytes = transfer.encode();
    assert_eq!(decode_method(&bytes).unwrap(), "xCrossTransfer");
    let back = decode_cross_transfer(&bytes).unwrap();
    assert_eq!(back.from, "a");
    assert_eq!(back.to, "n/b");
    assert_eq!(back.value, 1 << 100);
    assert_eq!(back.data, vec![9, 9]);
    assert_eq!(decode_cross_transfer_revert(&bytes).err(), Some(ContractError::DecoderError));
    let revert = CrossTransferRevert::create("acct".to_string(), u128::MAX);
    let bytes = revert.encode();
    let back = decode_cross_transfer_revert(&bytes).unwrap();
    assert_eq!(back.account, "acct");
    assert_eq!(back.amount, u128::MAX);
    assert_eq!(decode_cross_transfer(&bytes).err(), Some(ContractError::DecoderError));
    assert_eq!(decode_method(&[0x05]).err(), Some(ContractError::DecoderError));
}
