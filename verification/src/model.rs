//! The facade as a mathematical object: what it has stored, and what each
//! operation makes of it.
//!
//! An operation that needs the service is a function from the stored state
//! and the arguments to either a reason to give up or the question to put to
//! the service. What the service answers is recorded by a second function,
//! from the state and the answer to the next state.

use vstd::prelude::*;
use crate::error::Abort;
use crate::service::{
    DeployInterchainTokenView, DeployRemoteInterchainTokenView, InterchainTransferView,
    IsTrustedChainView, RegisterCanonicalTokenView,
};
use crate::types::{zero_salt, TokenMetadataView, TokenView};

verus! {

/// What the facade has stored.
pub struct ItsAppView {
    /// The address of the service, once the facade is initialized.
    pub its_address: Option<Seq<u8>>,
    /// The identifier that the most recent deployment or registration
    /// produced.
    pub token_id: Option<Seq<u8>>,
    /// The salt of the most recent deployment.
    pub salt: Option<Seq<u8>>,
}

/// The view of a result whose error is a reason to give up.
pub open spec fn view_result<T: View>(result: Result<T, Abort>) -> Result<T::V, Abort> {
    match result {
        Ok(value) => Ok(value@),
        Err(abort) => Err(abort),
    }
}

impl ItsAppView {
    /// The state in which nothing is stored.
    pub open spec fn empty() -> ItsAppView {
        ItsAppView { its_address: None, token_id: None, salt: None }
    }

    /// Holds of every state that the operations reach from the empty one: an
    /// identifier is stored only once a service address is, and a salt only
    /// together with an identifier.
    pub open spec fn wf(self) -> bool {
        &&& self.token_id is Some ==> self.its_address is Some
        &&& self.salt is Some ==> self.token_id is Some
    }

    /// The state after the service address was stored. An address stored
    /// before is replaced.
    pub open spec fn initialize(self, its_address: Seq<u8>) -> ItsAppView {
        ItsAppView { its_address: Some(its_address), ..self }
    }

    /// The address of the service, where one is stored.
    pub open spec fn its_client(self) -> Result<Seq<u8>, Abort> {
        match self.its_address {
            Some(service) => Ok(service),
            None => Err(Abort::NotInitialized),
        }
    }

    /// The address of the service for an operation that requires the
    /// caller's authorization.
    pub open spec fn its_client_for(self, authorized: bool) -> Result<Seq<u8>, Abort> {
        if authorized {
            self.its_client()
        } else {
            Err(Abort::Unauthorized)
        }
    }

    /// The question whether `chain` is trusted.
    pub open spec fn is_trusted_chain(self, chain: Seq<u8>) -> Result<IsTrustedChainView, Abort> {
        match self.its_client() {
            Ok(service) => Ok(IsTrustedChainView { service, chain }),
            Err(abort) => Err(abort),
        }
    }

    /// The request to deploy a token, with no minter beside the deployer.
    pub open spec fn deploy_token(
        self,
        authorized: bool,
        caller: Seq<u8>,
        salt: Seq<u8>,
        name: Seq<u8>,
        symbol: Seq<u8>,
        decimals: u32,
        initial_supply: i128,
    ) -> Result<DeployInterchainTokenView, Abort> {
        match self.its_client_for(authorized) {
            Ok(service) => Ok(
                DeployInterchainTokenView {
                    service,
                    deployer: caller,
                    salt,
                    token_metadata: TokenMetadataView { name, symbol, decimal: decimals },
                    initial_supply,
                    minter: None,
                },
            ),
            Err(abort) => Err(abort),
        }
    }

    /// The state after the service answered a deployment with `token_id`: the
    /// identifier and the salt of the deployment take the place of those
    /// stored before.
    pub open spec fn token_deployed(self, salt: Seq<u8>, token_id: Seq<u8>) -> Result<
        ItsAppView,
        Abort,
    > {
        match self.its_client() {
            Ok(_) => Ok(ItsAppView { token_id: Some(token_id), salt: Some(salt), ..self }),
            Err(abort) => Err(abort),
        }
    }

    /// The salt of a remote deployment: that of the most recent deployment,
    /// and the all-zero salt where there was none.
    pub open spec fn remote_salt(self) -> Seq<u8> {
        match self.salt {
            Some(salt) => salt,
            None => zero_salt(),
        }
    }

    /// The request to deploy the most recently deployed token on
    /// `destination_chain`, the gas paid in `gas_amount` of the token at
    /// `gas_token_address`.
    pub open spec fn deploy_remote_token(
        self,
        authorized: bool,
        caller: Seq<u8>,
        destination_chain: Seq<u8>,
        gas_token_address: Seq<u8>,
        gas_amount: i128,
    ) -> Result<DeployRemoteInterchainTokenView, Abort> {
        match self.its_client_for(authorized) {
            Ok(service) => Ok(
                DeployRemoteInterchainTokenView {
                    service,
                    caller,
                    salt: self.remote_salt(),
                    destination_chain,
                    gas_token: Some(TokenView { address: gas_token_address, amount: gas_amount }),
                },
            ),
            Err(abort) => Err(abort),
        }
    }

    /// The request to transfer `amount` of a token to `destination_address`
    /// on `destination_chain`, with no data for the destination. The amount
    /// must be positive and the destination address must not be empty.
    pub open spec fn transfer_tokens(
        self,
        authorized: bool,
        caller: Seq<u8>,
        token_id: Seq<u8>,
        destination_chain: Seq<u8>,
        destination_address: Seq<u8>,
        amount: i128,
        gas_token_address: Seq<u8>,
        gas_amount: i128,
    ) -> Result<InterchainTransferView, Abort> {
        match self.its_client_for(authorized) {
            Ok(service) => if amount <= 0 {
                Err(Abort::InvalidAmount)
            } else if destination_address.len() == 0 {
                Err(Abort::InvalidDestinationAddress)
            } else {
                Ok(
                    InterchainTransferView {
                        service,
                        caller,
                        token_id,
                        destination_chain,
                        destination_address,
                        amount,
                        metadata: None,
                        gas_token: Some(
                            TokenView { address: gas_token_address, amount: gas_amount },
                        ),
                    },
                )
            },
            Err(abort) => Err(abort),
        }
    }

    /// The request to register the token at `token_address`.
    pub open spec fn register_existing_token(
        self,
        authorized: bool,
        token_address: Seq<u8>,
    ) -> Result<RegisterCanonicalTokenView, Abort> {
        match self.its_client_for(authorized) {
            Ok(service) => Ok(RegisterCanonicalTokenView { service, token_address }),
            Err(abort) => Err(abort),
        }
    }

    /// The state after the service answered a registration with `token_id`:
    /// the identifier takes the place of the one stored before, and the salt
    /// stays.
    pub open spec fn token_registered(self, token_id: Seq<u8>) -> Result<ItsAppView, Abort> {
        match self.its_client() {
            Ok(_) => Ok(ItsAppView { token_id: Some(token_id), ..self }),
            Err(abort) => Err(abort),
        }
    }

    /// The stored identifier, where one is stored.
    pub open spec fn get_token_id(self) -> Option<Seq<u8>> {
        self.token_id
    }
}

/// The empty state is well formed, and every step that changes the state
/// keeps it so.
pub proof fn lemma_steps_keep_wf(
    state: ItsAppView,
    its_address: Seq<u8>,
    salt: Seq<u8>,
    token_id: Seq<u8>,
)
    requires
        state.wf(),
    ensures
        ItsAppView::empty().wf(),
        state.initialize(its_address).wf(),
        state.token_deployed(salt, token_id) matches Ok(next) ==> next.wf(),
        state.token_registered(token_id) matches Ok(next) ==> next.wf(),
{
}

/// Before a service address is stored, every operation fails: no request is
/// made, nothing is recorded, and no identifier is found.
pub proof fn lemma_fails_before_initialization(
    state: ItsAppView,
    authorized: bool,
    caller: Seq<u8>,
    chain: Seq<u8>,
    salt: Seq<u8>,
    name: Seq<u8>,
    symbol: Seq<u8>,
    decimals: u32,
    initial_supply: i128,
    token_id: Seq<u8>,
    destination_address: Seq<u8>,
    amount: i128,
    gas_token_address: Seq<u8>,
    gas_amount: i128,
    token_address: Seq<u8>,
)
    requires
        state.wf(),
        state.its_address is None,
    ensures
        state.its_client() is Err,
        state.is_trusted_chain(chain) is Err,
        state.deploy_token(authorized, caller, salt, name, symbol, decimals, initial_supply) is Err,
        state.token_deployed(salt, token_id) is Err,
        state.deploy_remote_token(authorized, caller, chain, gas_token_address, gas_amount) is Err,
        state.transfer_tokens(
            authorized,
            caller,
            token_id,
            chain,
            destination_address,
            amount,
            gas_token_address,
            gas_amount,
        ) is Err,
        state.register_existing_token(authorized, token_address) is Err,
        state.token_registered(token_id) is Err,
        state.get_token_id() is None,
{
}

/// A transfer is requested exactly where the caller is authorized, a service
/// address is stored, the amount is positive and the destination address is
/// not empty. So an amount of zero or less is rejected, and so is an empty
/// destination address, whatever the state and the other arguments.
pub proof fn lemma_transfer_validation(
    state: ItsAppView,
    authorized: bool,
    caller: Seq<u8>,
    token_id: Seq<u8>,
    destination_chain: Seq<u8>,
    destination_address: Seq<u8>,
    amount: i128,
    gas_token_address: Seq<u8>,
    gas_amount: i128,
)
    ensures
        state.transfer_tokens(
            authorized,
            caller,
            token_id,
            destination_chain,
            destination_address,
            amount,
            gas_token_address,
            gas_amount,
        ) is Ok <==> authorized && state.its_address is Some && amount > 0
            && destination_address.len() > 0,
        amount <= 0 || destination_address.len() == 0 ==> state.transfer_tokens(
            authorized,
            caller,
            token_id,
            destination_chain,
            destination_address,
            amount,
            gas_token_address,
            gas_amount,
        ) is Err,
{
}

/// The identifier that is found is the one that the most recent deployment
/// or registration produced: recording an answer of the service makes its
/// identifier the stored one, whatever was stored before, and storing a
/// service address leaves the stored identifier alone.
pub proof fn lemma_token_id_is_latest(
    state: ItsAppView,
    its_address: Seq<u8>,
    salt: Seq<u8>,
    token_id: Seq<u8>,
)
    requires
        state.its_address is Some,
    ensures
        state.token_deployed(salt, token_id) matches Ok(next) && next.get_token_id() == Some(
            token_id,
        ),
        state.token_registered(token_id) matches Ok(next) && next.get_token_id() == Some(
            token_id,
        ),
        state.initialize(its_address).get_token_id() == state.get_token_id(),
{
}

/// A remote deployment uses the salt of the most recent deployment, and the
/// all-zero salt where no deployment occurred: recording a deployment makes
/// its salt the one of the next remote deployment, while a registration and
/// the storing of a service address leave that salt alone.
pub proof fn lemma_remote_deployment_salt(
    state: ItsAppView,
    caller: Seq<u8>,
    destination_chain: Seq<u8>,
    gas_token_address: Seq<u8>,
    gas_amount: i128,
    its_address: Seq<u8>,
    salt: Seq<u8>,
    token_id: Seq<u8>,
)
    requires
        state.its_address is Some,
    ensures
        state.deploy_remote_token(true, caller, destination_chain, gas_token_address, gas_amount)
            matches Ok(request) && request.salt == state.remote_salt(),
        state.salt is None ==> state.remote_salt().len() == 32 && forall|i: int|
            0 <= i < 32 ==> state.remote_salt()[i] == 0,
        state.token_deployed(salt, token_id) matches Ok(next) && next.remote_salt() == salt,
        state.token_registered(token_id) matches Ok(next) && next.remote_salt()
            == state.remote_salt(),
        state.initialize(its_address).remote_salt() == state.remote_salt(),
{
}

} // verus!
