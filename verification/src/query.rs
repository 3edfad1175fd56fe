//! The read-only surface: the royalty calculator, the royalty-awareness
//! flag, the collection identity and the per-token views.

use vstd::prelude::*;

use vstd::arithmetic::div_mod::{
    lemma_div_is_ordered, lemma_div_multiples_vanish, lemma_div_pos_is_pos,
    lemma_fundamental_div_mod, lemma_fundamental_div_mod_converse, lemma_mod_bound,
};

use crate::error::ContractError;
use crate::msg::{
    CheckRoyaltiesResponse, ContractInfoResponse, NftInfoResponse, OwnerOfResponse,
    RoyaltiesInfoResponse,
};
use crate::state::{clone_opt_string, Approval, ContractState, Metadata, Token, Trait};

verus! {

/// The percentage applied on a sale of this token: the inherited royalty
/// percentage, or zero where the token carries none.
pub open spec fn token_royalty_percentage(token: Token) -> u64 {
    match token.extension {
        Some(m) => match m.royalty_percentage {
            Some(p) => p,
            None => 0,
        },
        None => 0,
    }
}

/// The configured beneficiary of this token's royalties, if any.
pub open spec fn token_royalty_address(token: Token) -> Option<String> {
    match token.extension {
        Some(m) => m.royalty_payment_address,
        None => None,
    }
}

/// The fee owed on a sale: the price times the percentage, divided by 100
/// and truncated — never rounded up.
pub open spec fn royalty_amount(sale_price: u128, percentage: u64) -> int {
    (sale_price * percentage) / 100
}

/// Splitting the price at 100 computes the truncated percentage fee without
/// widening: `floor(sp*p/100) == (sp/100)*p + ((sp%100)*p)/100`, and the
/// fee never exceeds the price.
proof fn lemma_royalty_floor(sp: int, p: int)
    requires
        0 <= sp,
        0 <= p <= 100,
    ensures
        (sp / 100) * p + ((sp % 100) * p) / 100 == (sp * p) / 100,
        (sp * p) / 100 <= sp,
        0 <= ((sp % 100) * p) / 100,
{
    let q = sp / 100;
    let rem = sp % 100;
    lemma_fundamental_div_mod(sp, 100);
    let a = rem * p;
    assert(0 <= a && a <= 9900) by (nonlinear_arith)
        requires
            a == rem * p,
            0 <= rem < 100,
            0 <= p <= 100,
    ;
    lemma_fundamental_div_mod(a, 100);
    lemma_mod_bound(a, 100);
    lemma_div_pos_is_pos(a, 100);
    let q2 = a / 100;
    let r2 = a % 100;
    assert(sp * p == 100 * (q * p + q2) + r2) by (nonlinear_arith)
        requires
            sp == 100 * q + rem,
            a == rem * p,
            a == 100 * q2 + r2,
    ;
    lemma_fundamental_div_mod_converse(sp * p, 100, q * p + q2, r2);
    assert(sp * p <= sp * 100) by (nonlinear_arith)
        requires
            0 <= sp,
            p <= 100,
    ;
    lemma_div_is_ordered(sp * p, sp * 100, 100);
    lemma_div_multiples_vanish(sp, 100);
    assert(sp * 100 == 100 * sp);
}

/// The fee owed on one sale of one token and to whom: the truncated
/// percentage of the sale price, paid to the configured beneficiary (the
/// empty string where none is configured). Pure: never mutates anything.
pub fn query_royalties_info(state: &ContractState, token_id: &String, sale_price: u128) -> (r:
    Result<RoyaltiesInfoResponse, ContractError>)
    requires
        state.wf(),
    ensures
        r is Err <==> !state.spec_has_token(token_id@),
        r is Err ==> r == Err::<RoyaltiesInfoResponse, ContractError>(ContractError::NotFound),
        r matches Ok(resp) ==> ({
            let tok = state.tokens@[state.spec_token_index(token_id@)];
            &&& resp.royalty_amount == royalty_amount(sale_price, token_royalty_percentage(tok))
            &&& match token_royalty_address(tok) {
                Some(a) => resp.address == a,
                None => resp.address@ == Seq::<char>::empty(),
            }
        }),
{
    let pos = state.token_position(token_id);
    let i = match pos {
        None => {
            return Err(ContractError::NotFound);
        },
        Some(i) => i,
    };
    proof {
        assert(i == state.spec_token_index(token_id@));
    }
    let tok = &state.tokens[i];
    let pct: u64 = match &tok.extension {
        Some(m) => match m.royalty_percentage {
            Some(p) => p,
            None => 0,
        },
        None => 0,
    };
    let p = pct as u128;
    let q = sale_price / 100;
    let rem = sale_price % 100;
    proof {
        lemma_royalty_floor(sale_price as int, p as int);
        assert(rem * p <= 9900) by (nonlinear_arith)
            requires
                0 <= rem < 100,
                0 <= p <= 100,
        ;
    }
    let amount = q * p + (rem * p) / 100;
    let address = match &tok.extension {
        Some(m) => match &m.royalty_payment_address {
            Some(a) => a.clone(),
            None => String::new(),
        },
        None => String::new(),
    };
    Ok(RoyaltiesInfoResponse { address, royalty_amount: amount })
}

/// Every token managed by this collection is royalty-aware, so a sale of
/// any of them should be checked with `query_royalties_info` — whose
/// per-token amount may still be zero.
pub fn check_royalties() -> (r: CheckRoyaltiesResponse)
    ensures
        r.royalty_payments == true,
{
    CheckRoyaltiesResponse { royalty_payments: true }
}

/// The collection identity: name and symbol, with the creator alongside.
pub fn contract_info(state: &ContractState) -> (r: ContractInfoResponse)
    ensures
        r.name == state.name,
        r.symbol == state.symbol,
        r.creator == state.creator,
{
    ContractInfoResponse {
        name: state.name.clone(),
        symbol: state.symbol.clone(),
        creator: clone_opt_string(&state.creator),
    }
}

/// `b` carries the same metadata as `a`, comparing the attribute list by
/// its contents.
pub open spec fn metadata_like(a: Metadata, b: Metadata) -> bool {
    &&& a.image == b.image
    &&& a.image_data == b.image_data
    &&& a.external_url == b.external_url
    &&& a.description == b.description
    &&& a.name == b.name
    &&& match (a.attributes, b.attributes) {
        (Some(x), Some(y)) => x@ == y@,
        (None, None) => true,
        _ => false,
    }
    &&& a.background_color == b.background_color
    &&& a.animation_url == b.animation_url
    &&& a.youtube_url == b.youtube_url
    &&& a.royalty_percentage == b.royalty_percentage
    &&& a.royalty_payment_address == b.royalty_payment_address
    &&& a.expires == b.expires
}

/// Copies an approval list.
fn clone_approvals(approvals: &Vec<Approval>) -> (r: Vec<Approval>)
    ensures
        r@ == approvals@,
{
    let mut out: Vec<Approval> = Vec::new();
    let n = approvals.len();
    for i in 0..n
        invariant
            n == approvals@.len(),
            out@.len() == i,
            forall|k: int| 0 <= k < i ==> out@[k] == approvals@[k],
    {
        let a = &approvals[i];
        out.push(Approval { spender: a.spender.clone(), expires: a.expires });
    }
    proof {
        assert(out@ =~= approvals@);
    }
    out
}

/// Copies an attribute list.
fn clone_traits(traits: &Vec<Trait>) -> (r: Vec<Trait>)
    ensures
        r@ == traits@,
{
    let mut out: Vec<Trait> = Vec::new();
    let n = traits.len();
    for i in 0..n
        invariant
            n == traits@.len(),
            out@.len() == i,
            forall|k: int| 0 <= k < i ==> out@[k] == traits@[k],
    {
        let t = &traits[i];
        out.push(
            Trait {
                display_type: clone_opt_string(&t.display_type),
                trait_type: t.trait_type.clone(),
                value: t.value.clone(),
            },
        );
    }
    proof {
        assert(out@ =~= traits@);
    }
    out
}

/// Copies a metadata record.
fn clone_metadata(m: &Metadata) -> (r: Metadata)
    ensures
        metadata_like(r, *m),
{
    Metadata {
        image: clone_opt_string(&m.image),
        image_data: clone_opt_string(&m.image_data),
        external_url: clone_opt_string(&m.external_url),
        description: clone_opt_string(&m.description),
        name: clone_opt_string(&m.name),
        attributes: match &m.attributes {
            Some(ts) => Some(clone_traits(ts)),
            None => None,
        },
        background_color: clone_opt_string(&m.background_color),
        animation_url: clone_opt_string(&m.animation_url),
        youtube_url: clone_opt_string(&m.youtube_url),
        royalty_percentage: m.royalty_percentage,
        royalty_payment_address: clone_opt_string(&m.royalty_payment_address),
        expires: m.expires,
    }
}

/// What the token looks like: its resource link and its metadata.
pub fn nft_info(state: &ContractState, token_id: &String) -> (r: Result<
    NftInfoResponse,
    ContractError,
>)
    requires
        state.wf(),
    ensures
        r is Err <==> !state.spec_has_token(token_id@),
        r is Err ==> r == Err::<NftInfoResponse, ContractError>(ContractError::NotFound),
        r matches Ok(resp) ==> ({
            let tok = state.tokens@[state.spec_token_index(token_id@)];
            &&& resp.token_uri == tok.token_uri
            &&& match (resp.extension, tok.extension) {
                (Some(x), Some(y)) => metadata_like(x, y),
                (None, None) => true,
                _ => false,
            }
        }),
{
    let pos = state.token_position(token_id);
    let i = match pos {
        None => {
            return Err(ContractError::NotFound);
        },
        Some(i) => i,
    };
    proof {
        assert(i == state.spec_token_index(token_id@));
    }
    let tok = &state.tokens[i];
    Ok(
        NftInfoResponse {
            token_uri: clone_opt_string(&tok.token_uri),
            extension: match &tok.extension {
                Some(m) => Some(clone_metadata(m)),
                None => None,
            },
        },
    )
}

/// Who holds the token, and the delegate approvals recorded on it.
pub fn owner_of(state: &ContractState, token_id: &String) -> (r: Result<
    OwnerOfResponse,
    ContractError,
>)
    requires
        state.wf(),
    ensures
        r is Err <==> !state.spec_has_token(token_id@),
        r is Err ==> r == Err::<OwnerOfResponse, ContractError>(ContractError::NotFound),
        r matches Ok(resp) ==> ({
            let tok = state.tokens@[state.spec_token_index(token_id@)];
            &&& resp.owner == tok.owner
            &&& resp.approvals@ == tok.approvals@
        }),
{
    let pos = state.token_position(token_id);
    let i = match pos {
        None => {
            return Err(ContractError::NotFound);
        },
        Some(i) => i,
    };
    proof {
        assert(i == state.spec_token_index(token_id@));
    }
    let tok = &state.tokens[i];
    Ok(OwnerOfResponse { owner: tok.owner.clone(), approvals: clone_approvals(&tok.approvals) })
}

} // verus!
