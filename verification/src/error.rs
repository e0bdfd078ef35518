//! The error taxonomy of the calling convention, and the reasons for which the
//! facade itself gives an operation up.

use vstd::prelude::*;

verus! {

/// The errors of the interchain token calling convention.
///
/// Nearly all of them are raised by the service, not by the facade. Each has a
/// code, from 1 to 18 in the order of declaration, by which it crosses the
/// contract boundary.
#[derive(Clone, Copy, Debug, PartialEq, Eq, Structural)]
pub enum ContractError {
    TrustedChainAlreadySet,
    TrustedChainNotSet,
    InvalidMessageType,
    UntrustedChain,
    InvalidAmount,
    InvalidDestinationAddress,
    NotHubChain,
    NotHubAddress,
    InvalidTokenId,
    TokenAlreadyRegistered,
    FlowLimitExceeded,
    InvalidDestinationChain,
    InvalidData,
    InvalidTokenName,
    InvalidTokenSymbol,
    InvalidTokenDecimals,
    InvalidInitialSupply,
    InvalidTokenConfig,
}

impl ContractError {
    /// The code of an error.
    pub open spec fn spec_code(self) -> u32 {
        match self {
            ContractError::TrustedChainAlreadySet => 1,
            ContractError::TrustedChainNotSet => 2,
            ContractError::InvalidMessageType => 3,
            ContractError::UntrustedChain => 4,
            ContractError::InvalidAmount => 5,
            ContractError::InvalidDestinationAddress => 6,
            ContractError::NotHubChain => 7,
            ContractError::NotHubAddress => 8,
            ContractError::InvalidTokenId => 9,
            ContractError::TokenAlreadyRegistered => 10,
            ContractError::FlowLimitExceeded => 11,
            ContractError::InvalidDestinationChain => 12,
            ContractError::InvalidData => 13,
            ContractError::InvalidTokenName => 14,
            ContractError::InvalidTokenSymbol => 15,
            ContractError::InvalidTokenDecimals => 16,
            ContractError::InvalidInitialSupply => 17,
            ContractError::InvalidTokenConfig => 18,
        }
    }

    /// The error that a code stands for, if it stands for one.
    pub open spec fn spec_from_code(code: u32) -> Option<ContractError> {
        if code == 1 {
            Some(ContractError::TrustedChainAlreadySet)
        } else if code == 2 {
            Some(ContractError::TrustedChainNotSet)
        } else if code == 3 {
            Some(ContractError::InvalidMessageType)
        } else if code == 4 {
            Some(ContractError::UntrustedChain)
        } else if code == 5 {
            Some(ContractError::InvalidAmount)
        } else if code == 6 {
            Some(ContractError::InvalidDestinationAddress)
        } else if code == 7 {
            Some(ContractError::NotHubChain)
        } else if code == 8 {
            Some(ContractError::NotHubAddress)
        } else if code == 9 {
            Some(ContractError::InvalidTokenId)
        } else if code == 10 {
            Some(ContractError::TokenAlreadyRegistered)
        } else if code == 11 {
            Some(ContractError::FlowLimitExceeded)
        } else if code == 12 {
            Some(ContractError::InvalidDestinationChain)
        } else if code == 13 {
            Some(ContractError::InvalidData)
        } else if code == 14 {
            Some(ContractError::InvalidTokenName)
        } else if code == 15 {
            Some(ContractError::InvalidTokenSymbol)
        } else if code == 16 {
            Some(ContractError::InvalidTokenDecimals)
        } else if code == 17 {
            Some(ContractError::InvalidInitialSupply)
        } else if code == 18 {
            Some(ContractError::InvalidTokenConfig)
        } else {
            None
        }
    }

    /// Returns the code of the error.
    pub fn code(&self) -> (code: u32)
        ensures
            code == self.spec_code(),
    {
        match self {
            ContractError::TrustedChainAlreadySet => 1,
            ContractError::TrustedChainNotSet => 2,
            ContractError::InvalidMessageType => 3,
            ContractError::UntrustedChain => 4,
            ContractError::InvalidAmount => 5,
            ContractError::InvalidDestinationAddress => 6,
            ContractError::NotHubChain => 7,
            ContractError::NotHubAddress => 8,
            ContractError::InvalidTokenId => 9,
            ContractError::TokenAlreadyRegistered => 10,
            ContractError::FlowLimitExceeded => 11,
            ContractError::InvalidDestinationChain => 12,
            ContractError::InvalidData => 13,
            ContractError::InvalidTokenName => 14,
            ContractError::InvalidTokenSymbol => 15,
            ContractError::InvalidTokenDecimals => 16,
            ContractError::InvalidInitialSupply => 17,
            ContractError::InvalidTokenConfig => 18,
        }
    }

    /// Returns the error that `code` stands for, and `None` for a code
    /// outside 1 to 18.
    pub fn from_code(code: u32) -> (error: Option<ContractError>)
        ensures
            error == Self::spec_from_code(code),
    {
        match code {
            1 => Some(ContractError::TrustedChainAlreadySet),
            2 => Some(ContractError::TrustedChainNotSet),
            3 => Some(ContractError::InvalidMessageType),
            4 => Some(ContractError::UntrustedChain),
            5 => Some(ContractError::InvalidAmount),
            6 => Some(ContractError::InvalidDestinationAddress),
            7 => Some(ContractError::NotHubChain),
            8 => Some(ContractError::NotHubAddress),
            9 => Some(ContractError::InvalidTokenId),
            10 => Some(ContractError::TokenAlreadyRegistered),
            11 => Some(ContractError::FlowLimitExceeded),
            12 => Some(ContractError::InvalidDestinationChain),
            13 => Some(ContractError::InvalidData),
            14 => Some(ContractError::InvalidTokenName),
            15 => Some(ContractError::InvalidTokenSymbol),
            16 => Some(ContractError::InvalidTokenDecimals),
            17 => Some(ContractError::InvalidInitialSupply),
            18 => Some(ContractError::InvalidTokenConfig),
            _ => None,
        }
    }
}

/// Every error has a code from 1 to 18 and is found again from it, so no two
/// errors share a code; a code stands for an error exactly where it lies
/// from 1 to 18.
pub proof fn lemma_codes_identify_errors(error: ContractError, code: u32)
    ensures
        1 <= error.spec_code() <= 18,
        ContractError::spec_from_code(error.spec_code()) == Some(error),
        ContractError::spec_from_code(code) is Some <==> 1 <= code <= 18,
        ContractError::spec_from_code(code) matches Some(found) ==> found.spec_code() == code,
{
}

/// Why the facade gives an operation up before anything is asked of the
/// service.
///
/// The conditions are tested in the order of declaration, and the first that
/// is unmet is the one reported.
#[derive(Clone, Copy, Debug, PartialEq, Eq, Structural)]
pub enum Abort {
    /// The caller's authorization is required and was not given.
    Unauthorized,
    /// No service address is stored yet.
    NotInitialized,
    /// The amount of a transfer is zero or negative.
    InvalidAmount,
    /// The destination address of a transfer is empty.
    InvalidDestinationAddress,
}

impl Abort {
    /// The words with which an operation is given up.
    pub open spec fn spec_message(self) -> Seq<char> {
        match self {
            Abort::Unauthorized => "Unauthorized"@,
            Abort::NotInitialized => "Not initialized"@,
            Abort::InvalidAmount => "Invalid amount"@,
            Abort::InvalidDestinationAddress => "Invalid destination address"@,
        }
    }

    /// Returns the words with which the operation is given up.
    pub fn message(&self) -> (message: &'static str)
        ensures
            message@ == self.spec_message(),
    {
        match self {
            Abort::Unauthorized => "Unauthorized",
            Abort::NotInitialized => "Not initialized",
            Abort::InvalidAmount => "Invalid amount",
            Abort::InvalidDestinationAddress => "Invalid destination address",
        }
    }
}

} // verus!
