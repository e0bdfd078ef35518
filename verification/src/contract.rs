//! The facade: what it stores, and its operations.

use vstd::prelude::*;
use crate::error::Abort;
use crate::model::{view_result, ItsAppView};
use crate::service::{
    DeployInterchainToken, DeployRemoteInterchainToken, InterchainTransfer, IsTrustedChain,
    RegisterCanonicalToken,
};
use crate::types::{
    view_address, view_bytes32, zero_salt, Address, Salt, Token, TokenId, TokenMetadata,
};

verus! {

/// What the facade has stored: the address of the service, and the
/// identifiers of the most recent deployment or registration.
///
/// An operation that needs the service returns the request to make, or the
/// reason for which the operation is given up. The embedding contract makes
/// the request. Where the answer is to be kept, it hands the answer to the
/// function that records it.
#[derive(Debug, PartialEq, Eq)]
pub struct ItsApp {
    pub its_address: Option<Address>,
    pub token_id: Option<TokenId>,
    pub salt: Option<Salt>,
}

impl View for ItsApp {
    type V = ItsAppView;

    open spec fn view(&self) -> ItsAppView {
        ItsAppView {
            its_address: view_address(self.its_address),
            token_id: view_bytes32(self.token_id),
            salt: view_bytes32(self.salt),
        }
    }
}

impl ItsApp {
    /// Makes the facade before its initialization: nothing is stored.
    pub fn new() -> (app: Self)
        ensures
            app@ == ItsAppView::empty(),
    {
        ItsApp { its_address: None, token_id: None, salt: None }
    }

    /// Stores `its_address` as the address of the service. An address stored
    /// before is replaced; the stored identifiers stay.
    pub fn initialize(&mut self, its_address: Address)
        ensures
            final(self)@ == old(self)@.initialize(its_address@),
    {
        self.its_address = Some(its_address);
    }

    /// Returns the address of the service, and
    /// [`Abort::NotInitialized`] where none is stored.
    pub fn its_client(&self) -> (service: Result<Address, Abort>)
        ensures
            view_result(service) == self@.its_client(),
    {
        match &self.its_address {
            Some(address) => Ok(address.clone()),
            None => Err(Abort::NotInitialized),
        }
    }

    /// Returns the address of the service for an operation that requires the
    /// caller's authorization.
    fn its_client_for(&self, authorized: bool) -> (service: Result<Address, Abort>)
        ensures
            view_result(service) == self@.its_client_for(authorized),
    {
        if !authorized {
            return Err(Abort::Unauthorized);
        }
        self.its_client()
    }

    /// Decides the question whether the service trusts `chain`.
    ///
    /// The question is given up where no service address is stored.
    /// Otherwise the request for the service is returned; the answer of the
    /// service is the answer of the facade.
    pub fn is_trusted_chain(&self, chain: Vec<u8>) -> (request: Result<IsTrustedChain, Abort>)
        ensures
            view_result(request) == self@.is_trusted_chain(chain@),
    {
        let service = match self.its_client() {
            Ok(service) => service,
            Err(abort) => {
                return Err(abort);
            },
        };
        Ok(IsTrustedChain { service, chain })
    }

    /// Decides the deployment of a new interchain token on this chain, for
    /// `caller` and under `salt`.
    ///
    /// `authorized` says whether the host found the caller's authorization.
    /// The deployment is given up where it is missing, and where no service
    /// address is stored. Otherwise the request for the service is returned:
    /// it names `caller` as the deployer, describes the token by `name`,
    /// `symbol` and `decimals`, and names no minter. What the service answers
    /// is recorded by [`ItsApp::token_deployed`].
    pub fn deploy_token(
        &self,
        authorized: bool,
        caller: Address,
        salt: Salt,
        name: Vec<u8>,
        symbol: Vec<u8>,
        decimals: u32,
        initial_supply: i128,
    ) -> (request: Result<DeployInterchainToken, Abort>)
        ensures
            view_result(request) == self@.deploy_token(
                authorized,
                caller@,
                salt@,
                name@,
                symbol@,
                decimals,
                initial_supply,
            ),
    {
        let service = match self.its_client_for(authorized) {
            Ok(service) => service,
            Err(abort) => {
                return Err(abort);
            },
        };
        let token_metadata = TokenMetadata { name, symbol, decimal: decimals };
        Ok(
            DeployInterchainToken {
                service,
                deployer: caller,
                salt,
                token_metadata,
                initial_supply,
                minter: None,
            },
        )
    }

    /// Records that the service answered the deployment `request` with
    /// `token_id`, and returns the identifier.
    ///
    /// The identifier and the salt of the request take the place of those
    /// stored before. Where no service address is stored nothing is recorded.
    pub fn token_deployed(&mut self, request: &DeployInterchainToken, token_id: TokenId) -> (stored:
        Result<TokenId, Abort>)
        ensures
            match old(self)@.token_deployed(request@.salt, token_id@) {
                Ok(next) => stored == Ok::<TokenId, Abort>(token_id) && final(self)@ == next,
                Err(abort) => stored == Err::<TokenId, Abort>(abort) && final(self)@ == old(self)@,
            },
    {
        if self.its_address.is_none() {
            return Err(Abort::NotInitialized);
        }
        self.token_id = Some(token_id);
        self.salt = Some(request.salt);
        Ok(token_id)
    }

    /// Decides the deployment, on `destination_chain`, of the token that was
    /// most recently deployed here.
    ///
    /// `authorized` says whether the host found the caller's authorization.
    /// The deployment is given up where it is missing, and where no service
    /// address is stored. Otherwise the request for the service is returned.
    /// Its salt is the one of the most recent deployment, and 32 zero bytes
    /// where nothing was deployed yet. The gas is paid in `gas_amount` of the
    /// token at `gas_token_address`.
    pub fn deploy_remote_token(
        &self,
        authorized: bool,
        caller: Address,
        destination_chain: Vec<u8>,
        gas_token_address: Address,
        gas_amount: i128,
    ) -> (request: Result<DeployRemoteInterchainToken, Abort>)
        ensures
            view_result(request) == self@.deploy_remote_token(
                authorized,
                caller@,
                destination_chain@,
                gas_token_address@,
                gas_amount,
            ),
    {
        let service = match self.its_client_for(authorized) {
            Ok(service) => service,
            Err(abort) => {
                return Err(abort);
            },
        };
        let salt: Salt = match self.salt {
            Some(salt) => salt,
            None => {
                let zero: Salt = [0u8; 32];
                assert(zero@ =~= zero_salt());
                zero
            },
        };
        let gas_token = Some(Token { address: gas_token_address, amount: gas_amount });
        Ok(DeployRemoteInterchainToken { service, caller, salt, destination_chain, gas_token })
    }

    /// Decides a transfer of `amount` of the token `token_id` from `caller`
    /// to `destination_address` on `destination_chain`.
    ///
    /// `authorized` says whether the host found the caller's authorization.
    /// The transfer is given up where it is missing, where no service address
    /// is stored, where `amount` is not positive and where
    /// `destination_address` is empty, in this order. Otherwise the request
    /// for the service is returned: it hands on the arguments unchanged,
    /// carries no data for the destination, and pays the gas in `gas_amount`
    /// of the token at `gas_token_address`.
    pub fn transfer_tokens(
        &self,
        authorized: bool,
        caller: Address,
        token_id: TokenId,
        destination_chain: Vec<u8>,
        destination_address: Vec<u8>,
        amount: i128,
        gas_token_address: Address,
        gas_amount: i128,
    ) -> (request: Result<InterchainTransfer, Abort>)
        ensures
            view_result(request) == self@.transfer_tokens(
                authorized,
                caller@,
                token_id@,
                destination_chain@,
                destination_address@,
                amount,
                gas_token_address@,
                gas_amount,
            ),
    {
        let service = match self.its_client_for(authorized) {
            Ok(service) => service,
            Err(abort) => {
                return Err(abort);
            },
        };
        if amount <= 0 {
            return Err(Abort::InvalidAmount);
        }
        if destination_address.len() == 0 {
            return Err(Abort::InvalidDestinationAddress);
        }
        let gas_token = Some(Token { address: gas_token_address, amount: gas_amount });
        Ok(
            InterchainTransfer {
                service,
                caller,
                token_id,
                destination_chain,
                destination_address,
                amount,
                metadata: None,
                gas_token,
            },
        )
    }

    /// Decides the registration of the existing token at `token_address` as
    /// a canonical interchain token.
    ///
    /// `authorized` says whether the host found the caller's authorization.
    /// The registration is given up where it is missing, and where no
    /// service address is stored. Otherwise the request for the service is
    /// returned. What the service answers is recorded by
    /// [`ItsApp::token_registered`].
    pub fn register_existing_token(&self, authorized: bool, token_address: Address) -> (request:
        Result<RegisterCanonicalToken, Abort>)
        ensures
            view_result(request) == self@.register_existing_token(authorized, token_address@),
    {
        let service = match self.its_client_for(authorized) {
            Ok(service) => service,
            Err(abort) => {
                return Err(abort);
            },
        };
        Ok(RegisterCanonicalToken { service, token_address })
    }

    /// Records that the service answered a registration with `token_id`, and
    /// returns the identifier.
    ///
    /// The identifier takes the place of the one stored before; the stored
    /// salt stays. Where no service address is stored nothing is recorded.
    pub fn token_registered(&mut self, token_id: TokenId) -> (stored: Result<TokenId, Abort>)
        ensures
            match old(self)@.token_registered(token_id@) {
                Ok(next) => stored == Ok::<TokenId, Abort>(token_id) && final(self)@ == next,
                Err(abort) => stored == Err::<TokenId, Abort>(abort) && final(self)@ == old(self)@,
            },
    {
        if self.its_address.is_none() {
            return Err(Abort::NotInitialized);
        }
        self.token_id = Some(token_id);
        Ok(token_id)
    }

    /// Returns the identifier that the most recent deployment or
    /// registration produced, and `None` where there was none.
    pub fn get_token_id(&self) -> (token_id: Option<TokenId>)
        ensures
            view_bytes32(token_id) == self@.get_token_id(),
    {
        self.token_id
    }
}

} // verus!
