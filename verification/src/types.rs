//! The plain values that pass through the facade.

use vstd::prelude::*;

verus! {

/// The identifier that the service gives to a deployed or registered token.
pub type TokenId = [u8; 32];

/// The salt from which the service derives the identifier of a deployment.
pub type Salt = [u8; 32];

/// The salt of a remote deployment that no local deployment preceded: 32
/// bytes, all zero.
pub open spec fn zero_salt() -> Seq<u8> {
    Seq::new(32, |i: int| 0u8)
}

/// The view of a byte string that may be absent.
pub open spec fn view_bytes(value: Option<Vec<u8>>) -> Option<Seq<u8>> {
    match value {
        Some(bytes) => Some(bytes@),
        None => None,
    }
}

/// The view of an identifier that may be absent.
pub open spec fn view_bytes32(value: Option<[u8; 32]>) -> Option<Seq<u8>> {
    match value {
        Some(bytes) => Some(bytes@),
        None => None,
    }
}

/// An account or a contract, held as the bytes of its textual key.
///
/// The facade never looks inside an address: it stores one and hands others
/// on.
#[derive(Debug, PartialEq, Eq)]
pub struct Address {
    pub strkey: Vec<u8>,
}

impl View for Address {
    type V = Seq<u8>;

    open spec fn view(&self) -> Seq<u8> {
        self.strkey@
    }
}

impl Clone for Address {
    fn clone(&self) -> (copy: Self)
        ensures
            copy@ == self@,
    {
        Address { strkey: self.strkey.clone() }
    }
}

impl Address {
    /// Makes the address whose textual key is `strkey`.
    pub fn new(strkey: Vec<u8>) -> (address: Self)
        ensures
            address@ == strkey@,
    {
        Address { strkey }
    }
}

/// The view of an address that may be absent.
pub open spec fn view_address(value: Option<Address>) -> Option<Seq<u8>> {
    match value {
        Some(address) => Some(address@),
        None => None,
    }
}

/// An amount of a token, named by the token's contract.
#[derive(Debug, PartialEq, Eq)]
pub struct Token {
    pub address: Address,
    pub amount: i128,
}

/// What a [`Token`] holds.
pub struct TokenView {
    pub address: Seq<u8>,
    pub amount: i128,
}

impl View for Token {
    type V = TokenView;

    open spec fn view(&self) -> TokenView {
        TokenView { address: self.address@, amount: self.amount }
    }
}

/// The view of a token that may be absent.
pub open spec fn view_token(value: Option<Token>) -> Option<TokenView> {
    match value {
        Some(token) => Some(token@),
        None => None,
    }
}

/// The name, symbol and number of decimals of a token to deploy.
#[derive(Debug, PartialEq, Eq)]
pub struct TokenMetadata {
    pub name: Vec<u8>,
    pub symbol: Vec<u8>,
    pub decimal: u32,
}

/// What a [`TokenMetadata`] holds.
pub struct TokenMetadataView {
    pub name: Seq<u8>,
    pub symbol: Seq<u8>,
    pub decimal: u32,
}

impl View for TokenMetadata {
    type V = TokenMetadataView;

    open spec fn view(&self) -> TokenMetadataView {
        TokenMetadataView { name: self.name@, symbol: self.symbol@, decimal: self.decimal }
    }
}

} // verus!
