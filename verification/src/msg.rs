//! The plain request and response values exchanged with the surrounding
//! message-routing layer: the instantiation request, the royalty query
//! surface, and the structured success record every mutating operation
//! returns for audit-log emission.

use vstd::prelude::*;

verus! {

/// The instantiation request: collection identity, the minter (who doubles
/// as administrator), and the optional collection-level royalty
/// configuration.
#[derive(Clone, Debug, PartialEq, Eq)]
pub struct InstantiateMsg {
    /// Name of the collection.
    pub name: String,
    /// Symbol of the collection.
    pub symbol: String,
    /// The minter is the only address that can create new tokens, and the
    /// one that reclaims expired ones.
    pub minter: String,
    pub royalty_percentage: Option<u64>,
    pub royalty_payment_address: Option<String>,
    pub creator: Option<String>,
}

/// The royalty query surface: either the fee owed on one sale of one token,
/// or whether the collection is royalty-aware at all.
#[derive(Clone, Debug, PartialEq, Eq)]
pub enum Cw2981QueryMsg {
    /// Should be called on sale to see what royalty is owed and to whom.
    /// The sale price and the returned amount are in the same denomination.
    RoyaltyInfo { token_id: String, sale_price: u128 },
    /// Whether tokens of this collection carry royalty information at all.
    /// A `true` answer still requires a per-token `RoyaltyInfo` check, since
    /// the per-token amount may be zero.
    CheckRoyalties,
}

impl Default for Cw2981QueryMsg {
    fn default() -> (r: Self)
        ensures
            r == Cw2981QueryMsg::CheckRoyalties,
    {
        Cw2981QueryMsg::CheckRoyalties
    }
}

/// The fee owed on one sale: the beneficiary (empty where none is
/// configured) and the amount, in the denomination of the sale price.
#[derive(Clone, Debug, PartialEq, Eq)]
pub struct RoyaltiesInfoResponse {
    pub address: String,
    pub royalty_amount: u128,
}

/// Whether the collection implements royalties; marketplaces should pay
/// them where it does.
#[derive(Clone, Copy, Debug, PartialEq, Eq, Structural)]
pub struct CheckRoyaltiesResponse {
    pub royalty_payments: bool,
}

/// The collection identity, with the creator alongside name and symbol.
#[derive(Clone, Debug, PartialEq, Eq)]
pub struct ContractInfoResponse {
    pub name: String,
    pub symbol: String,
    pub creator: Option<String>,
}

/// What one token looks like to a viewer: its resource link and its
/// metadata.
#[derive(Clone, Debug, PartialEq, Eq)]
pub struct NftInfoResponse {
    pub token_uri: Option<String>,
    pub extension: Option<crate::state::Metadata>,
}

/// Who holds one token, and the delegate approvals recorded on it.
#[derive(Clone, Debug, PartialEq, Eq)]
pub struct OwnerOfResponse {
    pub owner: String,
    pub approvals: Vec<crate::state::Approval>,
}

/// One audit attribute of a success record.
#[derive(Clone, Debug, PartialEq, Eq)]
pub struct Attribute {
    pub key: String,
    pub value: String,
}

/// The payload a send-to-contract operation hands to the receiving
/// contract.
#[derive(Clone, Debug, PartialEq, Eq)]
pub struct ReceiveMsg {
    pub sender: String,
    pub token_id: String,
    pub msg: Vec<u8>,
}

/// The structured success record of a mutating operation: audit attributes
/// (action name, acting address and the relevant identifiers), and, for a
/// send, the payload to forward.
#[derive(Clone, Debug, PartialEq, Eq)]
pub struct Response {
    pub attributes: Vec<Attribute>,
    pub messages: Vec<ReceiveMsg>,
}

} // verus!
