use its_app::error::{Abort, ContractError};

const ALL: [ContractError; 18] = [
    ContractError::TrustedChainAlreadySet,
    ContractError::TrustedChainNotSet,
    ContractError::InvalidMessageType,
    ContractError::UntrustedChain,
    ContractError::InvalidAmount,
    ContractError::InvalidDestinationAddress,
    ContractError::NotHubChain,
    ContractError::NotHubAddress,
    ContractError::InvalidTokenId,
    ContractError::TokenAlreadyRegistered,
    ContractError::FlowLimitExceeded,
    ContractError::InvalidDestinationChain,
    ContractError::InvalidData,
    ContractError::InvalidTokenName,
    ContractError::InvalidTokenSymbol,
    ContractError::InvalidTokenDecimals,
    ContractError::InvalidInitialSupply,
    ContractError::InvalidTokenConfig,
];

#[test]
fn codes_follow_the_order_of_declaration() {
    for (index, error) in ALL.iter().enumerate() {
        assert_eq!(error.code(), index as u32 + 1);
    }
}

#[test]
fn some_codes_by_name() {
    assert_eq!(ContractError::TrustedChainAlreadySet.code(), 1);
    assert_eq!(ContractError::UntrustedChain.code(), 4);
    assert_eq!(ContractError::InvalidAmount.code(), 5);
    assert_eq!(ContractError::InvalidDestinationAddress.code(), 6);
    assert_eq!(ContractError::InvalidTokenId.code(), 9);
    assert_eq!(ContractError::TokenAlreadyRegistered.code(), 10);
    assert_eq!(ContractError::FlowLimitExceeded.code(), 11);
    assert_eq!(ContractError::InvalidTokenConfig.code(), 18);
}

#[test]
fn an_error_is_found_again_from_its_code() {
    for error in ALL.iter() {
        assert_eq!(ContractError::from_code(error.code()), Some(*error));
    }
}

#[test]
fn codes_outside_the_taxonomy_stand_for_nothing() {
    assert_eq!(ContractError::from_code(0), None);
    assert_eq!(ContractError::from_code(19), None);
    assert_eq!(ContractError::from_code(u32::MAX), None);
}

#[test]
fn every_code_in_range_stands_for_an_error_with_that_code() {
    for code in 1..=18u32 {
        let error = ContractError::from_code(code);
        assert!(error.is_some());
        assert_eq!(error.unwrap().code(), code);
    }
}

#[test]
fn abort_messages() {
    assert_eq!(Abort::Unauthorized.message(), "Unauthorized");
    assert_eq!(Abort::NotInitialized.message(), "Not initialized");
    assert_eq!(Abort::InvalidAmount.message(), "Invalid amount");
    assert_eq!(Abort::InvalidDestinationAddress.message(), "Invalid destination address");
}
