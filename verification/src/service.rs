//! What the facade asks of the interchain token service.
//!
//! One type for each operation of the service that the facade uses. A value
//! names the service to call and holds the arguments of the call, in the
//! order in which the service takes them.

use vstd::prelude::*;
use crate::types::{
    view_address, view_bytes, view_token, Address, Salt, Token, TokenId, TokenMetadata,
    TokenMetadataView, TokenView,
};

verus! {

/// Asks whether the service trusts a chain.
#[derive(Debug, PartialEq, Eq)]
pub struct IsTrustedChain {
    pub service: Address,
    pub chain: Vec<u8>,
}

/// What an [`IsTrustedChain`] holds.
pub struct IsTrustedChainView {
    pub service: Seq<u8>,
    pub chain: Seq<u8>,
}

impl View for IsTrustedChain {
    type V = IsTrustedChainView;

    open spec fn view(&self) -> IsTrustedChainView {
        IsTrustedChainView { service: self.service@, chain: self.chain@ }
    }
}

/// Asks the service to deploy a new interchain token on this chain.
#[derive(Debug, PartialEq, Eq)]
pub struct DeployInterchainToken {
    pub service: Address,
    pub deployer: Address,
    pub salt: Salt,
    pub token_metadata: TokenMetadata,
    pub initial_supply: i128,
    pub minter: Option<Address>,
}

/// What a [`DeployInterchainToken`] holds.
pub struct DeployInterchainTokenView {
    pub service: Seq<u8>,
    pub deployer: Seq<u8>,
    pub salt: Seq<u8>,
    pub token_metadata: TokenMetadataView,
    pub initial_supply: i128,
    pub minter: Option<Seq<u8>>,
}

impl View for DeployInterchainToken {
    type V = DeployInterchainTokenView;

    open spec fn view(&self) -> DeployInterchainTokenView {
        DeployInterchainTokenView {
            service: self.service@,
            deployer: self.deployer@,
            salt: self.salt@,
            token_metadata: self.token_metadata@,
            initial_supply: self.initial_supply,
            minter: view_address(self.minter),
        }
    }
}

/// Asks the service to deploy an interchain token of this chain on another
/// chain.
#[derive(Debug, PartialEq, Eq)]
pub struct DeployRemoteInterchainToken {
    pub service: Address,
    pub caller: Address,
    pub salt: Salt,
    pub destination_chain: Vec<u8>,
    pub gas_token: Option<Token>,
}

/// What a [`DeployRemoteInterchainToken`] holds.
pub struct DeployRemoteInterchainTokenView {
    pub service: Seq<u8>,
    pub caller: Seq<u8>,
    pub salt: Seq<u8>,
    pub destination_chain: Seq<u8>,
    pub gas_token: Option<TokenView>,
}

impl View for DeployRemoteInterchainToken {
    type V = DeployRemoteInterchainTokenView;

    open spec fn view(&self) -> DeployRemoteInterchainTokenView {
        DeployRemoteInterchainTokenView {
            service: self.service@,
            caller: self.caller@,
            salt: self.salt@,
            destination_chain: self.destination_chain@,
            gas_token: view_token(self.gas_token),
        }
    }
}

/// Asks the service to send tokens to an address on another chain.
#[derive(Debug, PartialEq, Eq)]
pub struct InterchainTransfer {
    pub service: Address,
    pub caller: Address,
    pub token_id: TokenId,
    pub destination_chain: Vec<u8>,
    pub destination_address: Vec<u8>,
    pub amount: i128,
    pub metadata: Option<Vec<u8>>,
    pub gas_token: Option<Token>,
}

/// What an [`InterchainTransfer`] holds.
pub struct InterchainTransferView {
    pub service: Seq<u8>,
    pub caller: Seq<u8>,
    pub token_id: Seq<u8>,
    pub destination_chain: Seq<u8>,
    pub destination_address: Seq<u8>,
    pub amount: i128,
    pub metadata: Option<Seq<u8>>,
    pub gas_token: Option<TokenView>,
}

impl View for InterchainTransfer {
    type V = InterchainTransferView;

    open spec fn view(&self) -> InterchainTransferView {
        InterchainTransferView {
            service: self.service@,
            caller: self.caller@,
            token_id: self.token_id@,
            destination_chain: self.destination_chain@,
            destination_address: self.destination_address@,
            amount: self.amount,
            metadata: view_bytes(self.metadata),
            gas_token: view_token(self.gas_token),
        }
    }
}

/// Asks the service to register an existing token of this chain as the
/// canonical interchain token.
#[derive(Debug, PartialEq, Eq)]
pub struct RegisterCanonicalToken {
    pub service: Address,
    pub token_address: Address,
}

/// What a [`RegisterCanonicalToken`] holds.
pub struct RegisterCanonicalTokenView {
    pub service: Seq<u8>,
    pub token_address: Seq<u8>,
}

impl View for RegisterCanonicalToken {
    type V = RegisterCanonicalTokenView;

    open spec fn view(&self) -> RegisterCanonicalTokenView {
        RegisterCanonicalTokenView { service: self.service@, token_address: self.token_address@ }
    }
}

} // verus!
