use its_app::contract::ItsApp;
use its_app::error::Abort;
use its_app::service::{
    DeployInterchainToken, DeployRemoteInterchainToken, InterchainTransfer, IsTrustedChain,
    RegisterCanonicalToken,
};
use its_app::types::{Address, Token, TokenMetadata};

fn address(text: &str) -> Address {
    Address::new(text.as_bytes().to_vec())
}

fn bytes(text: &str) -> Vec<u8> {
    text.as_bytes().to_vec()
}

fn initialized() -> ItsApp {
    let mut app = ItsApp::new();
    app.initialize(address("CSERVICE"));
    app
}

#[test]
fn a_new_facade_stores_nothing() {
    let app = ItsApp::new();
    assert_eq!(app.its_address, None);
    assert_eq!(app.token_id, None);
    assert_eq!(app.salt, None);
    assert_eq!(app.get_token_id(), None);
    assert_eq!(app.its_client(), Err(Abort::NotInitialized));
}

#[test]
fn initialize_stores_the_service_address() {
    let app = initialized();
    assert_eq!(app.its_address, Some(address("CSERVICE")));
    assert_eq!(app.its_client(), Ok(address("CSERVICE")));
    assert_eq!(app.token_id, None);
    assert_eq!(app.salt, None);
}

#[test]
fn initialize_again_replaces_the_address_and_keeps_the_identifiers() {
    let mut app = initialized();
    let request = app
        .deploy_token(true, address("GCALLER"), [1u8; 32], bytes("Token"), bytes("TKN"), 7, 0)
        .unwrap();
    app.token_deployed(&request, [2u8; 32]).unwrap();
    app.initialize(address("COTHER"));
    assert_eq!(app.its_client(), Ok(address("COTHER")));
    assert_eq!(app.get_token_id(), Some([2u8; 32]));
    assert_eq!(app.salt, Some([1u8; 32]));
}

#[test]
fn every_operation_fails_before_initialization() {
    let mut app = ItsApp::new();
    assert_eq!(app.its_client(), Err(Abort::NotInitialized));
    assert_eq!(app.is_trusted_chain(bytes("ethereum")), Err(Abort::NotInitialized));
    assert_eq!(
        app.deploy_token(true, address("GCALLER"), [1u8; 32], bytes("Token"), bytes("TKN"), 7, 10),
        Err(Abort::NotInitialized)
    );
    assert_eq!(
        app.deploy_remote_token(true, address("GCALLER"), bytes("ethereum"), address("CGAS"), 1),
        Err(Abort::NotInitialized)
    );
    assert_eq!(
        app.transfer_tokens(
            true,
            address("GCALLER"),
            [3u8; 32],
            bytes("ethereum"),
            bytes("0xabc"),
            5,
            address("CGAS"),
            1
        ),
        Err(Abort::NotInitialized)
    );
    assert_eq!(
        app.register_existing_token(true, address("CTOKEN")),
        Err(Abort::NotInitialized)
    );
    assert_eq!(app.token_registered([4u8; 32]), Err(Abort::NotInitialized));
    assert_eq!(app.get_token_id(), None);
    assert_eq!(app, ItsApp::new());
}

#[test]
fn a_deployment_is_not_recorded_before_initialization() {
    let source = initialized();
    let request = source
        .deploy_token(true, address("GCALLER"), [1u8; 32], bytes("Token"), bytes("TKN"), 7, 10)
        .unwrap();
    let mut app = ItsApp::new();
    assert_eq!(app.token_deployed(&request, [2u8; 32]), Err(Abort::NotInitialized));
    assert_eq!(app, ItsApp::new());
}

#[test]
fn a_missing_authorization_is_reported_first() {
    let blank = ItsApp::new();
    assert_eq!(
        blank.deploy_token(false, address("GCALLER"), [1u8; 32], bytes("Token"), bytes("TKN"), 7, 10),
        Err(Abort::Unauthorized)
    );
    let app = initialized();
    assert_eq!(
        app.deploy_token(false, address("GCALLER"), [1u8; 32], bytes("Token"), bytes("TKN"), 7, 10),
        Err(Abort::Unauthorized)
    );
    assert_eq!(
        app.deploy_remote_token(false, address("GCALLER"), bytes("ethereum"), address("CGAS"), 1),
        Err(Abort::Unauthorized)
    );
    assert_eq!(
        app.transfer_tokens(
            false,
            address("GCALLER"),
            [3u8; 32],
            bytes("ethereum"),
            Vec::new(),
            0,
            address("CGAS"),
            1
        ),
        Err(Abort::Unauthorized)
    );
    assert_eq!(app.register_existing_token(false, address("CTOKEN")), Err(Abort::Unauthorized));
}

#[test]
fn is_trusted_chain_asks_the_stored_service() {
    let app = initialized();
    assert_eq!(
        app.is_trusted_chain(bytes("ethereum")),
        Ok(IsTrustedChain { service: address("CSERVICE"), chain: bytes("ethereum") })
    );
}

#[test]
fn deploy_token_hands_the_arguments_on() {
    let app = initialized();
    let request = app.deploy_token(
        true,
        address("GCALLER"),
        [9u8; 32],
        bytes("My Token"),
        bytes("MTK"),
        6,
        1_000_000,
    );
    assert_eq!(
        request,
        Ok(DeployInterchainToken {
            service: address("CSERVICE"),
            deployer: address("GCALLER"),
            salt: [9u8; 32],
            token_metadata: TokenMetadata { name: bytes("My Token"), symbol: bytes("MTK"), decimal: 6 },
            initial_supply: 1_000_000,
            minter: None,
        })
    );
    assert_eq!(app, initialized());
}

#[test]
fn deploy_token_does_not_judge_the_supply() {
    let app = initialized();
    let request = app
        .deploy_token(true, address("GCALLER"), [0u8; 32], Vec::new(), Vec::new(), 0, -1)
        .unwrap();
    assert_eq!(request.initial_supply, -1);
    assert_eq!(request.token_metadata.decimal, 0);
}

#[test]
fn token_deployed_stores_identifier_and_salt() {
    let mut app = initialized();
    let request = app
        .deploy_token(true, address("GCALLER"), [9u8; 32], bytes("My Token"), bytes("MTK"), 6, 0)
        .unwrap();
    assert_eq!(app.token_deployed(&request, [5u8; 32]), Ok([5u8; 32]));
    assert_eq!(app.get_token_id(), Some([5u8; 32]));
    assert_eq!(app.token_id, Some([5u8; 32]));
    assert_eq!(app.salt, Some([9u8; 32]));
    assert_eq!(app.its_address, Some(address("CSERVICE")));
}

#[test]
fn get_token_id_returns_the_most_recent_identifier() {
    let mut app = initialized();
    assert_eq!(app.get_token_id(), None);
    let first = app
        .deploy_token(true, address("GCALLER"), [1u8; 32], bytes("One"), bytes("ONE"), 7, 0)
        .unwrap();
    app.token_deployed(&first, [11u8; 32]).unwrap();
    assert_eq!(app.get_token_id(), Some([11u8; 32]));
    assert_eq!(app.token_registered([22u8; 32]), Ok([22u8; 32]));
    assert_eq!(app.get_token_id(), Some([22u8; 32]));
    let second = app
        .deploy_token(true, address("GCALLER"), [2u8; 32], bytes("Two"), bytes("TWO"), 7, 0)
        .unwrap();
    app.token_deployed(&second, [33u8; 32]).unwrap();
    assert_eq!(app.get_token_id(), Some([33u8; 32]));
}

#[test]
fn register_existing_token_asks_for_the_token() {
    let app = initialized();
    assert_eq!(
        app.register_existing_token(true, address("CTOKEN")),
        Ok(RegisterCanonicalToken { service: address("CSERVICE"), token_address: address("CTOKEN") })
    );
}

#[test]
fn token_registered_stores_the_identifier_and_keeps_the_salt() {
    let mut app = initialized();
    assert_eq!(app.token_registered([4u8; 32]), Ok([4u8; 32]));
    assert_eq!(app.token_id, Some([4u8; 32]));
    assert_eq!(app.salt, None);
    let request = app
        .deploy_token(true, address("GCALLER"), [9u8; 32], bytes("My Token"), bytes("MTK"), 6, 0)
        .unwrap();
    app.token_deployed(&request, [5u8; 32]).unwrap();
    assert_eq!(app.token_registered([6u8; 32]), Ok([6u8; 32]));
    assert_eq!(app.token_id, Some([6u8; 32]));
    assert_eq!(app.salt, Some([9u8; 32]));
}

#[test]
fn deploy_remote_token_defaults_to_the_zero_salt() {
    let app = initialized();
    assert_eq!(
        app.deploy_remote_token(true, address("GCALLER"), bytes("ethereum"), address("CGAS"), 100),
        Ok(DeployRemoteInterchainToken {
            service: address("CSERVICE"),
            caller: address("GCALLER"),
            salt: [0u8; 32],
            destination_chain: bytes("ethereum"),
            gas_token: Some(Token { address: address("CGAS"), amount: 100 }),
        })
    );
}

#[test]
fn deploy_remote_token_keeps_the_zero_salt_after_a_registration() {
    let mut app = initialized();
    app.token_registered([4u8; 32]).unwrap();
    let request = app
        .deploy_remote_token(true, address("GCALLER"), bytes("ethereum"), address("CGAS"), 100)
        .unwrap();
    assert_eq!(request.salt, [0u8; 32]);
}

#[test]
fn deploy_remote_token_uses_the_salt_of_the_most_recent_deployment() {
    let mut app = initialized();
    let mut salt = [0u8; 32];
    salt[0] = 0xde;
    salt[31] = 0xad;
    let first = app
        .deploy_token(true, address("GCALLER"), [1u8; 32], bytes("One"), bytes("ONE"), 7, 0)
        .unwrap();
    app.token_deployed(&first, [11u8; 32]).unwrap();
    let second =
        app.deploy_token(true, address("GCALLER"), salt, bytes("Two"), bytes("TWO"), 7, 0).unwrap();
    app.token_deployed(&second, [22u8; 32]).unwrap();
    assert_eq!(
        app.deploy_remote_token(true, address("GCALLER"), bytes("avalanche"), address("CGAS"), -1),
        Ok(DeployRemoteInterchainToken {
            service: address("CSERVICE"),
            caller: address("GCALLER"),
            salt,
            destination_chain: bytes("avalanche"),
            gas_token: Some(Token { address: address("CGAS"), amount: -1 }),
        })
    );
    assert_eq!(app.salt, Some(salt));
}

#[test]
fn transfer_tokens_hands_the_arguments_on() {
    let app = initialized();
    assert_eq!(
        app.transfer_tokens(
            true,
            address("GCALLER"),
            [3u8; 32],
            bytes("ethereum"),
            bytes("0xabc"),
            1,
            address("CGAS"),
            0
        ),
        Ok(InterchainTransfer {
            service: address("CSERVICE"),
            caller: address("GCALLER"),
            token_id: [3u8; 32],
            destination_chain: bytes("ethereum"),
            destination_address: bytes("0xabc"),
            amount: 1,
            metadata: None,
            gas_token: Some(Token { address: address("CGAS"), amount: 0 }),
        })
    );
    assert_eq!(app, initialized());
}

#[test]
fn transfer_tokens_accepts_the_largest_amount_and_one_byte() {
    let app = initialized();
    let request = app
        .transfer_tokens(
            true,
            address("GCALLER"),
            [3u8; 32],
            Vec::new(),
            vec![0u8],
            i128::MAX,
            address("CGAS"),
            i128::MIN,
        )
        .unwrap();
    assert_eq!(request.amount, i128::MAX);
    assert_eq!(request.destination_address, vec![0u8]);
    assert_eq!(request.gas_token, Some(Token { address: address("CGAS"), amount: i128::MIN }));
}

#[test]
fn transfer_tokens_rejects_an_amount_that_is_not_positive() {
    let app = initialized();
    for amount in [0i128, -1, -1_000_000, i128::MIN] {
        assert_eq!(
            app.transfer_tokens(
                true,
                address("GCALLER"),
                [3u8; 32],
                bytes("ethereum"),
                bytes("0xabc"),
                amount,
                address("CGAS"),
                1
            ),
            Err(Abort::InvalidAmount)
        );
    }
}

#[test]
fn transfer_tokens_rejects_an_empty_destination_address() {
    let app = initialized();
    for amount in [1i128, 42, i128::MAX] {
        assert_eq!(
            app.transfer_tokens(
                true,
                address("GCALLER"),
                [3u8; 32],
                bytes("ethereum"),
                Vec::new(),
                amount,
                address("CGAS"),
                1
            ),
            Err(Abort::InvalidDestinationAddress)
        );
    }
}

#[test]
fn transfer_tokens_judges_the_amount_before_the_destination() {
    let app = initialized();
    assert_eq!(
        app.transfer_tokens(
            true,
            address("GCALLER"),
            [3u8; 32],
            bytes("ethereum"),
            Vec::new(),
            0,
            address("CGAS"),
            1
        ),
        Err(Abort::InvalidAmount)
    );
}

#[test]
fn transfer_tokens_looks_for_the_service_before_the_amount() {
    let app = ItsApp::new();
    assert_eq!(
        app.transfer_tokens(
            true,
            address("GCALLER"),
            [3u8; 32],
            bytes("ethereum"),
            Vec::new(),
            0,
            address("CGAS"),
            1
        ),
        Err(Abort::NotInitialized)
    );
}

#[test]
fn a_cloned_address_is_equal() {
    let first = address("GCALLER");
    assert_eq!(first.clone(), first);
    assert_eq!(first.strkey, bytes("GCALLER"));
}
