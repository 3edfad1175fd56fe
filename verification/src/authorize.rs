//! The authorization oracle: the pure decision, for each of the two
//! permission classes, of whether an acting address may operate on a token
//! at a given logical time. Expiration is a hard gate: once a token's lease
//! has expired, authority over it passes atomically to the administrator.

use vstd::prelude::*;

use crate::error::ContractError;
use crate::expiration::{spec_is_expired, BlockInfo, Expiration};
use crate::state::{Approval, ContractState, OperatorGrant, Token};

verus! {

/// The token's effective lease expiration. A token with no metadata, or
/// whose metadata carries no expiration, never enters the reclaim state:
/// both collapse to `Never`.
pub open spec fn token_expiration(token: Token) -> Expiration {
    match token.extension {
        Some(m) => match m.expires {
            Some(e) => e,
            None => Expiration::Never,
        },
        None => Expiration::Never,
    }
}

/// Whether the token's lease has expired at `block`.
pub open spec fn spec_token_expired(token: Token, block: BlockInfo) -> bool {
    spec_is_expired(token_expiration(token), block)
}

/// Whether `grants` holds a grant from `owner` to `operator` that is not
/// yet expired at `block`. Under the state invariant at most one grant per
/// pair exists, so this is exactly "the pair's grant is present and live".
pub open spec fn live_operator(
    grants: Seq<OperatorGrant>,
    owner: Seq<char>,
    operator: Seq<char>,
    block: BlockInfo,
) -> bool {
    exists|i: int|
        0 <= i < grants.len() && (#[trigger] grants[i]).owner@ == owner && grants[i].operator@
            == operator && !spec_is_expired(grants[i].expires, block)
}

/// Whether `approvals` holds an approval for `spender` that is not yet
/// expired at `block`.
pub open spec fn live_approval(approvals: Seq<Approval>, spender: Seq<char>, block: BlockInfo) -> bool {
    exists|i: int|
        0 <= i < approvals.len() && (#[trigger] approvals[i]).spender@ == spender
            && !spec_is_expired(approvals[i].expires, block)
}

/// The approve-class decision: may `sender` create or remove approvals on
/// this token at `block`? Once the lease has expired only the administrator
/// may act; otherwise the owner may, and failing that a live blanket
/// operator of the owner. Per-token delegate approvals do not grant
/// approve-class rights.
pub open spec fn approve_allowed(
    state: ContractState,
    block: BlockInfo,
    sender: Seq<char>,
    token: Token,
) -> bool {
    if spec_token_expired(token, block) {
        sender == state.minter@
    } else if token.owner@ == sender {
        true
    } else {
        live_operator(state.operators@, token.owner@, sender, block)
    }
}

/// The send-class decision: may `sender` transfer, send or burn this token
/// at `block`? Once the lease has expired only the administrator may act —
/// even the recorded owner loses send rights. Otherwise the owner may, and
/// failing that a live delegate approval on the token or a live blanket
/// operator of the owner.
pub open spec fn send_allowed(
    state: ContractState,
    block: BlockInfo,
    sender: Seq<char>,
    token: Token,
) -> bool {
    if spec_token_expired(token, block) {
        sender == state.minter@
    } else if token.owner@ == sender {
        true
    } else {
        live_approval(token.approvals@, sender, block) || live_operator(
            state.operators@,
            token.owner@,
            sender,
            block,
        )
    }
}

/// Whether the token's lease has expired at `block` (executable form).
pub fn token_expired(token: &Token, block: &BlockInfo) -> (r: bool)
    ensures
        r == spec_token_expired(*token, *block),
{
    match &token.extension {
        Some(m) => match &m.expires {
            Some(e) => e.is_expired(block),
            None => false,
        },
        None => false,
    }
}

/// Whether a live grant from `owner` to `operator` exists in `grants`.
fn has_live_operator(
    grants: &Vec<OperatorGrant>,
    owner: &String,
    operator: &String,
    block: &BlockInfo,
) -> (r: bool)
    ensures
        r == live_operator(grants@, owner@, operator@, *block),
{
    let n = grants.len();
    for i in 0..n
        invariant
            n == grants@.len(),
            forall|k: int|
                0 <= k < i ==> !((#[trigger] grants@[k]).owner@ == owner@ && grants@[k].operator@
                    == operator@ && !spec_is_expired(grants@[k].expires, *block)),
    {
        let g = &grants[i];
        if g.owner == *owner && g.operator == *operator && !g.expires.is_expired(block) {
            return true;
        }
    }
    false
}

/// Whether a live approval for `spender` exists in `approvals`.
fn has_live_approval(approvals: &Vec<Approval>, spender: &String, block: &BlockInfo) -> (r: bool)
    ensures
        r == live_approval(approvals@, spender@, *block),
{
    let n = approvals.len();
    for i in 0..n
        invariant
            n == approvals@.len(),
            forall|k: int|
                0 <= k < i ==> !((#[trigger] approvals@[k]).spender@ == spender@
                    && !spec_is_expired(approvals@[k].expires, *block)),
    {
        let a = &approvals[i];
        if a.spender == *spender && !a.expires.is_expired(block) {
            return true;
        }
    }
    false
}

/// Decides the approve-class for `sender` on `token` at `block`, denying
/// with `Unauthorized` and without detail on every deny path.
pub fn check_can_approve(
    state: &ContractState,
    block: &BlockInfo,
    sender: &String,
    token: &Token,
) -> (r: Result<(), ContractError>)
    ensures
        r is Ok <==> approve_allowed(*state, *block, sender@, *token),
        r is Err ==> r == Err::<(), ContractError>(ContractError::Unauthorized),
{
    if token_expired(token, block) {
        if *sender == state.minter {
            Ok(())
        } else {
            Err(ContractError::Unauthorized)
        }
    } else if token.owner == *sender {
        Ok(())
    } else if has_live_operator(&state.operators, &token.owner, sender, block) {
        Ok(())
    } else {
        Err(ContractError::Unauthorized)
    }
}

/// Decides the send-class for `sender` on `token` at `block`, denying with
/// `Unauthorized` and without detail on every deny path.
pub fn check_can_send(
    state: &ContractState,
    block: &BlockInfo,
    sender: &String,
    token: &Token,
) -> (r: Result<(), ContractError>)
    ensures
        r is Ok <==> send_allowed(*state, *block, sender@, *token),
        r is Err ==> r == Err::<(), ContractError>(ContractError::Unauthorized),
{
    if token_expired(token, block) {
        if *sender == state.minter {
            Ok(())
        } else {
            Err(ContractError::Unauthorized)
        }
    } else if token.owner == *sender {
        Ok(())
    } else if has_live_approval(&token.approvals, sender, block) {
        Ok(())
    } else if has_live_operator(&state.operators, &token.owner, sender, block) {
        Ok(())
    } else {
        Err(ContractError::Unauthorized)
    }
}

/// Law: for a token with no effective expiration, both permission classes
/// reduce exactly to ownership and delegation — the administrator and the
/// reclaim gate never engage. The approve-class admits the owner or a live
/// operator; the send-class additionally admits a live delegate approval.
pub proof fn lemma_unexpired_forever_reduces_to_ownership(
    state: ContractState,
    block: BlockInfo,
    sender: Seq<char>,
    token: Token,
)
    requires
        token_expiration(token) == Expiration::Never,
    ensures
        approve_allowed(state, block, sender, token) == (token.owner@ == sender || live_operator(
            state.operators@,
            token.owner@,
            sender,
            block,
        )),
        send_allowed(state, block, sender, token) == (token.owner@ == sender || live_approval(
            token.approvals@,
            sender,
            block,
        ) || live_operator(state.operators@, token.owner@, sender, block)),
{
}

/// Law: once a token's lease has expired, every approve-class and
/// send-class check denies every address except the current administrator,
/// regardless of the recorded owner and of any prior approvals or operator
/// grants — and the administrator is allowed.
pub proof fn lemma_expired_admin_only(
    state: ContractState,
    block: BlockInfo,
    sender: Seq<char>,
    token: Token,
)
    requires
        spec_token_expired(token, block),
    ensures
        approve_allowed(state, block, sender, token) <==> sender == state.minter@,
        send_allowed(state, block, sender, token) <==> sender == state.minter@,
{
}

} // verus!
