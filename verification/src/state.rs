//! The data model: tokens with their approvals and optional metadata,
//! per-owner operator grants, the collection configuration, and the whole
//! collection state with its well-formedness invariant.

use vstd::prelude::*;

use crate::expiration::Expiration;

verus! {

/// One display attribute of a token's metadata.
#[derive(Clone, Debug, PartialEq, Eq)]
pub struct Trait {
    pub display_type: Option<String>,
    pub trait_type: String,
    pub value: String,
}

/// Optional structured metadata attached to a token. The royalty fields are
/// inherited from the collection configuration at mint time and immutable
/// thereafter; `expires` is the token's lease expiration.
#[derive(Clone, Debug, PartialEq, Eq)]
pub struct Metadata {
    pub image: Option<String>,
    pub image_data: Option<String>,
    pub external_url: Option<String>,
    pub description: Option<String>,
    pub name: Option<String>,
    pub attributes: Option<Vec<Trait>>,
    pub background_color: Option<String>,
    pub animation_url: Option<String>,
    pub youtube_url: Option<String>,
    /// How much the minter takes as a cut when sold, as a percentage in
    /// [0, 100]. Royalties are owed on this token iff it is present.
    pub royalty_percentage: Option<u64>,
    /// The royalty beneficiary; may differ from the minter address.
    pub royalty_payment_address: Option<String>,
    /// The lease expiration of the token. Absent means the token never
    /// enters the reclaim state.
    pub expires: Option<Expiration>,
}

impl Default for Metadata {
    /// A metadata record with every field absent.
    fn default() -> (r: Self)
        ensures
            r.image is None,
            r.image_data is None,
            r.external_url is None,
            r.description is None,
            r.name is None,
            r.attributes is None,
            r.background_color is None,
            r.animation_url is None,
            r.youtube_url is None,
            r.royalty_percentage is None,
            r.royalty_payment_address is None,
            r.expires is None,
    {
        Metadata {
            image: None,
            image_data: None,
            external_url: None,
            description: None,
            name: None,
            attributes: None,
            background_color: None,
            animation_url: None,
            youtube_url: None,
            royalty_percentage: None,
            royalty_payment_address: None,
            expires: None,
        }
    }
}

/// The collection-level royalty configuration, set at instantiation.
#[derive(Clone, Debug, PartialEq, Eq)]
pub struct Config {
    pub royalty_percentage: Option<u64>,
    pub royalty_payment_address: Option<String>,
}

impl Default for Config {
    /// A configuration with no royalty.
    fn default() -> (r: Self)
        ensures
            r.royalty_percentage is None,
            r.royalty_payment_address is None,
    {
        Config { royalty_percentage: None, royalty_payment_address: None }
    }
}

/// A per-token, time-bounded grant of send-class rights to one delegate.
#[derive(Clone, Debug, PartialEq, Eq)]
pub struct Approval {
    pub spender: String,
    pub expires: Expiration,
}

/// A per-owner, time-bounded blanket grant of rights to one operator across
/// all of that owner's tokens.
#[derive(Clone, Debug, PartialEq, Eq)]
pub struct OperatorGrant {
    pub owner: String,
    pub operator: String,
    pub expires: Expiration,
}

/// One uniquely identified token: its current holder, its delegate
/// approvals, and its optional metadata.
#[derive(Clone, Debug, PartialEq, Eq)]
pub struct Token {
    pub id: String,
    pub owner: String,
    pub approvals: Vec<Approval>,
    pub token_uri: Option<String>,
    pub extension: Option<Metadata>,
}

/// The whole collection: identity, administrator (the minter), royalty
/// configuration, the token records and the operator grants.
#[derive(Clone, Debug, PartialEq, Eq)]
pub struct ContractState {
    pub name: String,
    pub symbol: String,
    /// The minter doubles as the administrator: the single address that
    /// retains reclaim rights once a token's lease expires.
    pub minter: String,
    pub creator: Option<String>,
    pub config: Config,
    pub tokens: Vec<Token>,
    pub operators: Vec<OperatorGrant>,
    pub token_count: u64,
}

/// No two tokens share an id.
pub open spec fn unique_token_ids(tokens: Seq<Token>) -> bool {
    forall|i: int, j: int|
        0 <= i < j < tokens.len() ==> (#[trigger] tokens[i]).id@ != (#[trigger] tokens[j]).id@
}

/// At most one approval per delegate (enforced by remove-then-insert).
pub open spec fn unique_spenders(approvals: Seq<Approval>) -> bool {
    forall|i: int, j: int|
        0 <= i < j < approvals.len() ==> (#[trigger] approvals[i]).spender@ != (
        #[trigger] approvals[j]).spender@
}

/// At most one grant per (owner, operator) pair (new grants overwrite).
pub open spec fn unique_operator_pairs(grants: Seq<OperatorGrant>) -> bool {
    forall|i: int, j: int|
        0 <= i < j < grants.len() ==> !((#[trigger] grants[i]).owner@ == (
        #[trigger] grants[j]).owner@ && grants[i].operator@ == grants[j].operator@)
}

/// The royalty percentage, where present, stays in [0, 100].
pub open spec fn percentage_ok(p: Option<u64>) -> bool {
    match p {
        Some(v) => v <= 100,
        None => true,
    }
}

/// Well-formedness of one token record.
pub open spec fn token_wf(token: Token) -> bool {
    &&& unique_spenders(token.approvals@)
    &&& match token.extension {
        Some(m) => percentage_ok(m.royalty_percentage),
        None => true,
    }
}

impl ContractState {
    /// The internal invariant: the supply counter matches the record count,
    /// ids and grant pairs are unique, and every configured or inherited
    /// royalty percentage is in [0, 100]. Constructors establish it and
    /// every operation preserves it.
    pub open spec fn wf(self) -> bool {
        &&& self.token_count == self.tokens@.len()
        &&& unique_token_ids(self.tokens@)
        &&& unique_operator_pairs(self.operators@)
        &&& percentage_ok(self.config.royalty_percentage)
        &&& forall|i: int| 0 <= i < self.tokens@.len() ==> token_wf(#[trigger] self.tokens@[i])
    }

    /// Whether some token record carries `id`.
    pub open spec fn spec_has_token(self, id: Seq<char>) -> bool {
        exists|i: int| 0 <= i < self.tokens@.len() && (#[trigger] self.tokens@[i]).id@ == id
    }

    /// The index of the token record carrying `id`; meaningful only where
    /// `spec_has_token` holds (under `wf` that index is unique).
    pub open spec fn spec_token_index(self, id: Seq<char>) -> int {
        choose|i: int| 0 <= i < self.tokens@.len() && (#[trigger] self.tokens@[i]).id@ == id
    }

    /// Position of the token record carrying `token_id`, if any.
    pub fn token_position(&self, token_id: &String) -> (r: Option<usize>)
        ensures
            match r {
                Some(i) => {
                    &&& i < self.tokens@.len()
                    &&& self.tokens@[i as int].id@ == token_id@
                    &&& forall|k: int| 0 <= k < i ==> (#[trigger] self.tokens@[k]).id@ != token_id@
                },
                None => !self.spec_has_token(token_id@),
            },
            r is Some <==> self.spec_has_token(token_id@),
            r is Some ==> r->0 == self.spec_token_index(token_id@) || !unique_token_ids(
                self.tokens@,
            ),
    {
        let n = self.tokens.len();
        for i in 0..n
            invariant
                n == self.tokens@.len(),
                forall|k: int| 0 <= k < i ==> (#[trigger] self.tokens@[k]).id@ != token_id@,
        {
            if self.tokens[i].id == *token_id {
                proof {
                    let j = self.spec_token_index(token_id@);
                    if unique_token_ids(self.tokens@) {
                        assert(0 <= j < self.tokens@.len() && self.tokens@[j].id@ == token_id@);
                    }
                }
                return Some(i);
            }
        }
        None
    }
}

/// Clones an optional string value.
pub fn clone_opt_string(o: &Option<String>) -> (r: Option<String>)
    ensures
        r == *o,
{
    match o {
        Some(s) => Some(s.clone()),
        None => None,
    }
}

/// The fields no mutating operation beyond configuration ever touches.
pub open spec fn identity_fixed(pre: ContractState, post: ContractState) -> bool {
    &&& post.name == pre.name
    &&& post.symbol == pre.symbol
    &&& post.minter == pre.minter
    &&& post.creator == pre.creator
    &&& post.config == pre.config
}

} // verus!
