//! The reclaim/transition logic: the mutating operations that consult the
//! authorization oracle before touching the approval registry, the operator
//! map or a token's owner field. Every deny or validation failure is
//! terminal and leaves the state unchanged.

use vstd::prelude::*;

use crate::authorize::{approve_allowed, check_can_approve, check_can_send, send_allowed};
use crate::error::ContractError;
use crate::expiration::{spec_is_expired, BlockInfo, Expiration};
use crate::msg::{Attribute, InstantiateMsg, ReceiveMsg, Response};
use crate::state::{
    clone_opt_string, identity_fixed, percentage_ok, unique_operator_pairs, unique_spenders,
    unique_token_ids, Approval, Config, ContractState, Metadata, OperatorGrant, Token,
};

verus! {

/// A caller-supplied optional expiration defaults to `Never`.
pub open spec fn effective_expiration(expires: Option<Expiration>) -> Expiration {
    match expires {
        Some(e) => e,
        None => Expiration::Never,
    }
}

/// Whether `approvals` holds an entry for `spender` (live or not).
pub open spec fn has_spender(approvals: Seq<Approval>, spender: Seq<char>) -> bool {
    exists|j: int| 0 <= j < approvals.len() && (#[trigger] approvals[j]).spender@ == spender
}

/// `post` is `pre` with the (under the invariant unique) entry for
/// `spender` removed, or `pre` itself where none was present.
pub open spec fn spender_removed(pre: Seq<Approval>, post: Seq<Approval>, spender: Seq<char>) -> bool {
    if has_spender(pre, spender) {
        exists|j: int|
            0 <= j < pre.len() && (#[trigger] pre[j]).spender@ == spender && post == pre.remove(j)
    } else {
        post == pre
    }
}

/// `post` is `pre` with any entry for the new approval's spender removed
/// and the new approval appended.
pub open spec fn approval_upserted(pre: Seq<Approval>, post: Seq<Approval>, ap: Approval) -> bool {
    if has_spender(pre, ap.spender@) {
        exists|j: int|
            0 <= j < pre.len() && (#[trigger] pre[j]).spender@ == ap.spender@ && post == pre.remove(
                j,
            ).push(ap)
    } else {
        post == pre.push(ap)
    }
}

/// Whether `grants` holds a grant for the (owner, operator) pair.
pub open spec fn has_grant(grants: Seq<OperatorGrant>, owner: Seq<char>, operator: Seq<char>) -> bool {
    exists|j: int|
        0 <= j < grants.len() && (#[trigger] grants[j]).owner@ == owner && grants[j].operator@
            == operator
}

/// `post` is `pre` with the (under the invariant unique) grant for the pair
/// removed, or `pre` itself where none was present.
pub open spec fn grant_removed(
    pre: Seq<OperatorGrant>,
    post: Seq<OperatorGrant>,
    owner: Seq<char>,
    operator: Seq<char>,
) -> bool {
    if has_grant(pre, owner, operator) {
        exists|j: int|
            0 <= j < pre.len() && (#[trigger] pre[j]).owner@ == owner && pre[j].operator@
                == operator && post == pre.remove(j)
    } else {
        post == pre
    }
}

/// `post` is `pre` with any grant for the new grant's pair removed and the
/// new grant appended.
pub open spec fn grant_upserted(pre: Seq<OperatorGrant>, post: Seq<OperatorGrant>, g: OperatorGrant) -> bool {
    if has_grant(pre, g.owner@, g.operator@) {
        exists|j: int|
            0 <= j < pre.len() && (#[trigger] pre[j]).owner@ == g.owner@ && pre[j].operator@
                == g.operator@ && post == pre.remove(j).push(g)
    } else {
        post == pre.push(g)
    }
}

/// `post` differs from `pre` at most in the approval list of the token at
/// index `i`: every other token, the operator map, the counter and the
/// collection identity are untouched.
pub open spec fn only_approvals_changed(pre: ContractState, post: ContractState, i: int) -> bool {
    &&& post.tokens@.len() == pre.tokens@.len()
    &&& post.tokens@[i].id == pre.tokens@[i].id
    &&& post.tokens@[i].owner == pre.tokens@[i].owner
    &&& post.tokens@[i].token_uri == pre.tokens@[i].token_uri
    &&& post.tokens@[i].extension == pre.tokens@[i].extension
    &&& forall|j: int| 0 <= j < pre.tokens@.len() && j != i ==> post.tokens@[j] == pre.tokens@[j]
    &&& post.operators == pre.operators
    &&& post.token_count == pre.token_count
    &&& identity_fixed(pre, post)
}

/// Indexing facts for removing one element of a sequence.
proof fn lemma_seq_remove_index<A>(s: Seq<A>, j: int)
    requires
        0 <= j < s.len(),
    ensures
        s.remove(j).len() == s.len() - 1,
        forall|k: int| 0 <= k < j ==> s.remove(j)[k] == s[k],
        forall|k: int| j <= k < s.len() - 1 ==> s.remove(j)[k] == s[k + 1],
{
}

/// Removing an entry keeps spenders unique, and removes every occurrence of
/// the removed entry's spender (there is only one).
proof fn lemma_remove_keeps_unique_spenders(s: Seq<Approval>, j: int)
    requires
        unique_spenders(s),
        0 <= j < s.len(),
    ensures
        unique_spenders(s.remove(j)),
        forall|k: int| 0 <= k < s.len() - 1 ==> (#[trigger] s.remove(j)[k]).spender@ != s[j].spender@,
{
    lemma_seq_remove_index(s, j);
}

/// Appending an approval for a spender no existing entry names keeps
/// spenders unique.
proof fn lemma_push_unique_spenders(s: Seq<Approval>, a: Approval)
    requires
        unique_spenders(s),
        forall|k: int| 0 <= k < s.len() ==> (#[trigger] s[k]).spender@ != a.spender@,
    ensures
        unique_spenders(s.push(a)),
{
}

/// Removing a grant keeps pairs unique, and removes every occurrence of the
/// removed grant's pair (there is only one).
proof fn lemma_remove_keeps_unique_pairs(s: Seq<OperatorGrant>, j: int)
    requires
        unique_operator_pairs(s),
        0 <= j < s.len(),
    ensures
        unique_operator_pairs(s.remove(j)),
        forall|k: int|
            0 <= k < s.len() - 1 ==> !((#[trigger] s.remove(j)[k]).owner@ == s[j].owner@ && s.remove(
                j,
            )[k].operator@ == s[j].operator@),
{
    lemma_seq_remove_index(s, j);
}

/// Appending a grant for a pair no existing grant names keeps pairs unique.
proof fn lemma_push_unique_pairs(s: Seq<OperatorGrant>, g: OperatorGrant)
    requires
        unique_operator_pairs(s),
        forall|k: int|
            0 <= k < s.len() ==> !((#[trigger] s[k]).owner@ == g.owner@ && s[k].operator@
                == g.operator@),
    ensures
        unique_operator_pairs(s.push(g)),
{
}

/// Position of the first approval for `spender`, if any.
fn find_approval_position(approvals: &Vec<Approval>, spender: &String) -> (r: Option<usize>)
    ensures
        match r {
            Some(j) => {
                &&& j < approvals@.len()
                &&& approvals@[j as int].spender@ == spender@
                &&& forall|k: int| 0 <= k < j ==> (#[trigger] approvals@[k]).spender@ != spender@
            },
            None => !has_spender(approvals@, spender@),
        },
        r is Some <==> has_spender(approvals@, spender@),
{
    let n = approvals.len();
    for j in 0..n
        invariant
            n == approvals@.len(),
            forall|k: int| 0 <= k < j ==> (#[trigger] approvals@[k]).spender@ != spender@,
    {
        if approvals[j].spender == *spender {
            return Some(j);
        }
    }
    None
}

/// Position of the grant for the (owner, operator) pair, if any.
fn find_grant_position(grants: &Vec<OperatorGrant>, owner: &String, operator: &String) -> (r:
    Option<usize>)
    ensures
        match r {
            Some(j) => {
                &&& j < grants@.len()
                &&& grants@[j as int].owner@ == owner@
                &&& grants@[j as int].operator@ == operator@
                &&& forall|k: int|
                    0 <= k < j ==> !((#[trigger] grants@[k]).owner@ == owner@ && grants@[k].operator@
                        == operator@)
            },
            None => !has_grant(grants@, owner@, operator@),
        },
        r is Some <==> has_grant(grants@, owner@, operator@),
{
    let n = grants.len();
    for j in 0..n
        invariant
            n == grants@.len(),
            forall|k: int|
                0 <= k < j ==> !((#[trigger] grants@[k]).owner@ == owner@ && grants@[k].operator@
                    == operator@),
    {
        let g = &grants[j];
        if g.owner == *owner && g.operator == *operator {
            return Some(j);
        }
    }
    None
}

/// Loads the token, runs the approve-class oracle, then removes any
/// existing approval for `spender` and, when `add` is set, inserts the new
/// one — rejecting an already-expired supplied expiration. Removal of an
/// absent entry is an authorized no-op.
pub fn _update_approvals(
    state: &mut ContractState,
    block: &BlockInfo,
    sender: &String,
    spender: &String,
    token_id: &String,
    add: bool,
    expires: Option<Expiration>,
) -> (r: Result<(), ContractError>)
    requires
        old(state).wf(),
    ensures
        final(state).wf(),
        r is Err ==> *final(state) == *old(state),
        r == Err::<(), ContractError>(ContractError::NotFound) <==> !old(state).spec_has_token(
            token_id@,
        ),
        old(state).spec_has_token(token_id@) ==> ({
            let i = old(state).spec_token_index(token_id@);
            let tok = old(state).tokens@[i];
            let allowed = approve_allowed(*old(state), *block, sender@, tok);
            let bad_input = add && spec_is_expired(effective_expiration(expires), *block);
            &&& (r == Err::<(), ContractError>(ContractError::Unauthorized) <==> !allowed)
            &&& (r == Err::<(), ContractError>(ContractError::Expired) <==> allowed && bad_input)
            &&& (r is Ok <==> allowed && !bad_input)
            &&& (r is Ok ==> {
                &&& only_approvals_changed(*old(state), *final(state), i)
                &&& (if add {
                    approval_upserted(
                        tok.approvals@,
                        final(state).tokens@[i].approvals@,
                        (Approval { spender: *spender, expires: effective_expiration(expires) }),
                    )
                } else {
                    spender_removed(tok.approvals@, final(state).tokens@[i].approvals@, spender@)
                })
                &&& (!add && !has_spender(tok.approvals@, spender@) ==> *final(state) == *old(
                    state,
                ))
            })
        }),
{
    let pos = state.token_position(token_id);
    let i = match pos {
        None => {
            return Err(ContractError::NotFound);
        },
        Some(i) => i,
    };
    proof {
        assert(i == state.spec_token_index(token_id@));
    }
    match check_can_approve(state, block, sender, &state.tokens[i]) {
        Err(e) => {
            return Err(e);
        },
        Ok(()) => {},
    }
    let apos = find_approval_position(&state.tokens[i].approvals, spender);
    if add {
        let e = match expires {
            Some(e) => e,
            None => Expiration::Never,
        };
        if e.is_expired(block) {
            return Err(ContractError::Expired);
        }
        let ghost pre = *state;
        let ghost a0 = state.tokens@[i as int].approvals@;
        let mut tok = state.tokens.remove(i);
        match apos {
            Some(j) => {
                tok.approvals.remove(j);
                proof {
                    lemma_remove_keeps_unique_spenders(a0, j as int);
                }
            },
            None => {},
        }
        tok.approvals.push(Approval { spender: spender.clone(), expires: e });
        state.tokens.insert(i, tok);
        proof {
            lemma_seq_remove_index(pre.tokens@, i as int);
            assert(state.tokens@ =~= pre.tokens@.update(
                i as int,
                state.tokens@[i as int],
            ));
            match apos {
                Some(j) => {
                    lemma_push_unique_spenders(
                        a0.remove(j as int),
                        (Approval { spender: *spender, expires: e }),
                    );
                    assert(approval_upserted(
                        a0,
                        state.tokens@[i as int].approvals@,
                        (Approval { spender: *spender, expires: e }),
                    ));
                },
                None => {
                    lemma_push_unique_spenders(a0, (Approval { spender: *spender, expires: e }));
                },
            }
            assert(state.wf());
        }
        Ok(())
    } else {
        match apos {
            None => Ok(()),
            Some(j) => {
                let ghost pre = *state;
                let ghost a0 = state.tokens@[i as int].approvals@;
                let mut tok = state.tokens.remove(i);
                tok.approvals.remove(j);
                state.tokens.insert(i, tok);
                proof {
                    lemma_seq_remove_index(pre.tokens@, i as int);
                    lemma_remove_keeps_unique_spenders(a0, j as int);
                    assert(state.tokens@ =~= pre.tokens@.update(
                        i as int,
                        state.tokens@[i as int],
                    ));
                    assert(state.wf());
                }
                Ok(())
            },
        }
    }
}

/// Grants `spender` a send-class approval on the token, replacing any
/// existing approval for the same spender. The acting address must pass the
/// approve-class oracle, and the supplied expiration must not already be
/// expired.
pub fn approve(
    state: &mut ContractState,
    block: &BlockInfo,
    sender: String,
    spender: String,
    token_id: String,
    expires: Option<Expiration>,
) -> (r: Result<Response, ContractError>)
    requires
        old(state).wf(),
    ensures
        final(state).wf(),
        r is Err ==> *final(state) == *old(state),
        r == Err::<Response, ContractError>(ContractError::NotFound) <==> !old(
            state,
        ).spec_has_token(token_id@),
        old(state).spec_has_token(token_id@) ==> ({
            let i = old(state).spec_token_index(token_id@);
            let tok = old(state).tokens@[i];
            let allowed = approve_allowed(*old(state), *block, sender@, tok);
            let bad_input = spec_is_expired(effective_expiration(expires), *block);
            &&& (r == Err::<Response, ContractError>(ContractError::Unauthorized) <==> !allowed)
            &&& (r == Err::<Response, ContractError>(ContractError::Expired) <==> allowed
                && bad_input)
            &&& (r is Ok <==> allowed && !bad_input)
            &&& (r is Ok ==> {
                &&& only_approvals_changed(*old(state), *final(state), i)
                &&& approval_upserted(
                    tok.approvals@,
                    final(state).tokens@[i].approvals@,
                    (Approval { spender: spender, expires: effective_expiration(expires) }),
                )
            })
        }),
        r matches Ok(resp) ==> {
            &&& resp.messages@.len() == 0
            &&& resp.attributes@.len() == 4
            &&& resp.attributes@[0].key@ == "action"@ && resp.attributes@[0].value@ == "approve"@
            &&& resp.attributes@[1].key@ == "sender"@ && resp.attributes@[1].value == sender
            &&& resp.attributes@[2].key@ == "spender"@ && resp.attributes@[2].value == spender
            &&& resp.attributes@[3].key@ == "token_id"@ && resp.attributes@[3].value == token_id
        },
{
    match _update_approvals(state, block, &sender, &spender, &token_id, true, expires) {
        Err(e) => {
            return Err(e);
        },
        Ok(()) => {},
    }
    let mut attributes: Vec<Attribute> = Vec::new();
    attributes.push(Attribute { key: String::from_str("action"), value: String::from_str("approve") });
    attributes.push(Attribute { key: String::from_str("sender"), value: sender });
    attributes.push(Attribute { key: String::from_str("spender"), value: spender });
    attributes.push(Attribute { key: String::from_str("token_id"), value: token_id });
    Ok(Response { attributes, messages: Vec::new() })
}

/// Removes `spender`'s approval on the token, if any: removal of an absent
/// entry is an authorized no-op that changes no state. The acting address
/// must pass the approve-class oracle.
pub fn revoke(
    state: &mut ContractState,
    block: &BlockInfo,
    sender: String,
    spender: String,
    token_id: String,
) -> (r: Result<Response, ContractError>)
    requires
        old(state).wf(),
    ensures
        final(state).wf(),
        r is Err ==> *final(state) == *old(state),
        r == Err::<Response, ContractError>(ContractError::NotFound) <==> !old(
            state,
        ).spec_has_token(token_id@),
        old(state).spec_has_token(token_id@) ==> ({
            let i = old(state).spec_token_index(token_id@);
            let tok = old(state).tokens@[i];
            let allowed = approve_allowed(*old(state), *block, sender@, tok);
            &&& (r == Err::<Response, ContractError>(ContractError::Unauthorized) <==> !allowed)
            &&& (r is Ok <==> allowed)
            &&& (r is Ok ==> {
                &&& only_approvals_changed(*old(state), *final(state), i)
                &&& spender_removed(tok.approvals@, final(state).tokens@[i].approvals@, spender@)
                &&& (!has_spender(tok.approvals@, spender@) ==> *final(state) == *old(state))
            })
        }),
        r matches Ok(resp) ==> {
            &&& resp.messages@.len() == 0
            &&& resp.attributes@.len() == 4
            &&& resp.attributes@[0].key@ == "action"@ && resp.attributes@[0].value@ == "revoke"@
            &&& resp.attributes@[1].key@ == "sender"@ && resp.attributes@[1].value == sender
            &&& resp.attributes@[2].key@ == "spender"@ && resp.attributes@[2].value == spender
            &&& resp.attributes@[3].key@ == "token_id"@ && resp.attributes@[3].value == token_id
        },
{
    match _update_approvals(state, block, &sender, &spender, &token_id, false, None) {
        Err(e) => {
            return Err(e);
        },
        Ok(()) => {},
    }
    let mut attributes: Vec<Attribute> = Vec::new();
    attributes.push(Attribute { key: String::from_str("action"), value: String::from_str("revoke") });
    attributes.push(Attribute { key: String::from_str("sender"), value: sender });
    attributes.push(Attribute { key: String::from_str("spender"), value: spender });
    attributes.push(Attribute { key: String::from_str("token_id"), value: token_id });
    Ok(Response { attributes, messages: Vec::new() })
}

/// Grants `operator` a blanket grant over all of the sender's tokens,
/// replacing any existing grant for the pair. The supplied expiration must
/// not already be expired; no oracle runs, since the sender grants on their
/// own behalf.
pub fn approve_all(
    state: &mut ContractState,
    block: &BlockInfo,
    sender: String,
    operator: String,
    expires: Option<Expiration>,
) -> (r: Result<Response, ContractError>)
    requires
        old(state).wf(),
    ensures
        final(state).wf(),
        r is Err ==> *final(state) == *old(state),
        r is Err <==> spec_is_expired(effective_expiration(expires), *block),
        r is Err ==> r == Err::<Response, ContractError>(ContractError::Expired),
        r is Ok ==> {
            &&& grant_upserted(
                old(state).operators@,
                final(state).operators@,
                (OperatorGrant {
                    owner: sender,
                    operator: operator,
                    expires: effective_expiration(expires),
                }),
            )
            &&& final(state).tokens == old(state).tokens
            &&& final(state).token_count == old(state).token_count
            &&& identity_fixed(*old(state), *final(state))
        },
        r matches Ok(resp) ==> {
            &&& resp.messages@.len() == 0
            &&& resp.attributes@.len() == 3
            &&& resp.attributes@[0].key@ == "action"@ && resp.attributes@[0].value@
                == "approve_all"@
            &&& resp.attributes@[1].key@ == "sender"@ && resp.attributes@[1].value == sender
            &&& resp.attributes@[2].key@ == "operator"@ && resp.attributes@[2].value == operator
        },
{
    let e = match expires {
        Some(e) => e,
        None => Expiration::Never,
    };
    if e.is_expired(block) {
        return Err(ContractError::Expired);
    }
    let ghost pre = *state;
    let gpos = find_grant_position(&state.operators, &sender, &operator);
    match gpos {
        Some(j) => {
            state.operators.remove(j);
            proof {
                lemma_remove_keeps_unique_pairs(pre.operators@, j as int);
            }
        },
        None => {},
    }
    state.operators.push(
        OperatorGrant { owner: sender.clone(), operator: operator.clone(), expires: e },
    );
    proof {
        match gpos {
            Some(j) => {
                lemma_push_unique_pairs(
                    pre.operators@.remove(j as int),
                    (OperatorGrant { owner: sender, operator: operator, expires: e }),
                );
            },
            None => {
                lemma_push_unique_pairs(
                    pre.operators@,
                    (OperatorGrant { owner: sender, operator: operator, expires: e }),
                );
            },
        }
        assert(state.wf());
    }
    let mut attributes: Vec<Attribute> = Vec::new();
    attributes.push(
        Attribute { key: String::from_str("action"), value: String::from_str("approve_all") },
    );
    attributes.push(Attribute { key: String::from_str("sender"), value: sender });
    attributes.push(Attribute { key: String::from_str("operator"), value: operator });
    Ok(Response { attributes, messages: Vec::new() })
}

/// Withdraws the sender's blanket grant to `operator`, if any: removal of
/// an absent grant succeeds and changes no state.
pub fn revoke_all(state: &mut ContractState, sender: String, operator: String) -> (r: Result<
    Response,
    ContractError,
>)
    requires
        old(state).wf(),
    ensures
        final(state).wf(),
        r is Ok,
        grant_removed(old(state).operators@, final(state).operators@, sender@, operator@),
        !has_grant(old(state).operators@, sender@, operator@) ==> *final(state) == *old(state),
        final(state).tokens == old(state).tokens,
        final(state).token_count == old(state).token_count,
        identity_fixed(*old(state), *final(state)),
        r matches Ok(resp) ==> {
            &&& resp.messages@.len() == 0
            &&& resp.attributes@.len() == 3
            &&& resp.attributes@[0].key@ == "action"@ && resp.attributes@[0].value@ == "revoke_all"@
            &&& resp.attributes@[1].key@ == "sender"@ && resp.attributes@[1].value == sender
            &&& resp.attributes@[2].key@ == "operator"@ && resp.attributes@[2].value == operator
        },
{
    let ghost pre = *state;
    let gpos = find_grant_position(&state.operators, &sender, &operator);
    match gpos {
        Some(j) => {
            state.operators.remove(j);
            proof {
                lemma_remove_keeps_unique_pairs(pre.operators@, j as int);
                assert(state.wf());
            }
        },
        None => {},
    }
    let mut attributes: Vec<Attribute> = Vec::new();
    attributes.push(
        Attribute { key: String::from_str("action"), value: String::from_str("revoke_all") },
    );
    attributes.push(Attribute { key: String::from_str("sender"), value: sender });
    attributes.push(Attribute { key: String::from_str("operator"), value: operator });
    Ok(Response { attributes, messages: Vec::new() })
}

/// `post` is `pre` with the token at index `i` handed to `recipient` and
/// its approval list cleared; nothing else changes.
pub open spec fn transfer_applied(
    pre: ContractState,
    post: ContractState,
    i: int,
    recipient: String,
) -> bool {
    &&& post.tokens@.len() == pre.tokens@.len()
    &&& post.tokens@[i].id == pre.tokens@[i].id
    &&& post.tokens@[i].owner == recipient
    &&& post.tokens@[i].approvals@ == Seq::<Approval>::empty()
    &&& post.tokens@[i].token_uri == pre.tokens@[i].token_uri
    &&& post.tokens@[i].extension == pre.tokens@[i].extension
    &&& forall|j: int| 0 <= j < pre.tokens@.len() && j != i ==> post.tokens@[j] == pre.tokens@[j]
    &&& post.operators == pre.operators
    &&& post.token_count == pre.token_count
    &&& identity_fixed(pre, post)
}

/// Removing a token keeps ids unique.
proof fn lemma_remove_keeps_unique_token_ids(s: Seq<Token>, j: int)
    requires
        unique_token_ids(s),
        0 <= j < s.len(),
    ensures
        unique_token_ids(s.remove(j)),
{
    lemma_seq_remove_index(s, j);
}

/// Loads the token, runs the send-class oracle, then hands the token to
/// `recipient` and clears its approval list unconditionally: a new owner
/// starts with no inherited delegates.
pub fn _transfer_nft(
    state: &mut ContractState,
    block: &BlockInfo,
    sender: &String,
    recipient: &String,
    token_id: &String,
) -> (r: Result<(), ContractError>)
    requires
        old(state).wf(),
    ensures
        final(state).wf(),
        r is Err ==> *final(state) == *old(state),
        r == Err::<(), ContractError>(ContractError::NotFound) <==> !old(state).spec_has_token(
            token_id@,
        ),
        old(state).spec_has_token(token_id@) ==> ({
            let i = old(state).spec_token_index(token_id@);
            let tok = old(state).tokens@[i];
            let allowed = send_allowed(*old(state), *block, sender@, tok);
            &&& (r == Err::<(), ContractError>(ContractError::Unauthorized) <==> !allowed)
            &&& (r is Ok <==> allowed)
            &&& (r is Ok ==> transfer_applied(*old(state), *final(state), i, *recipient))
        }),
{
    let pos = state.token_position(token_id);
    let i = match pos {
        None => {
            return Err(ContractError::NotFound);
        },
        Some(i) => i,
    };
    proof {
        assert(i == state.spec_token_index(token_id@));
    }
    match check_can_send(state, block, sender, &state.tokens[i]) {
        Err(e) => {
            return Err(e);
        },
        Ok(()) => {},
    }
    let ghost pre = *state;
    let mut tok = state.tokens.remove(i);
    tok.owner = recipient.clone();
    tok.approvals = Vec::new();
    state.tokens.insert(i, tok);
    proof {
        lemma_seq_remove_index(pre.tokens@, i as int);
        assert(state.tokens@ =~= pre.tokens@.update(i as int, state.tokens@[i as int]));
        assert(state.wf());
    }
    Ok(())
}

/// Moves the token to `recipient` after a send-class check; on success the
/// token's approval list is empty.
pub fn transfer_nft(
    state: &mut ContractState,
    block: &BlockInfo,
    sender: String,
    recipient: String,
    token_id: String,
) -> (r: Result<Response, ContractError>)
    requires
        old(state).wf(),
    ensures
        final(state).wf(),
        r is Err ==> *final(state) == *old(state),
        r == Err::<Response, ContractError>(ContractError::NotFound) <==> !old(
            state,
        ).spec_has_token(token_id@),
        old(state).spec_has_token(token_id@) ==> ({
            let i = old(state).spec_token_index(token_id@);
            let tok = old(state).tokens@[i];
            let allowed = send_allowed(*old(state), *block, sender@, tok);
            &&& (r == Err::<Response, ContractError>(ContractError::Unauthorized) <==> !allowed)
            &&& (r is Ok <==> allowed)
            &&& (r is Ok ==> transfer_applied(*old(state), *final(state), i, recipient))
        }),
        r matches Ok(resp) ==> {
            &&& resp.messages@.len() == 0
            &&& resp.attributes@.len() == 4
            &&& resp.attributes@[0].key@ == "action"@ && resp.attributes@[0].value@
                == "transfer_nft"@
            &&& resp.attributes@[1].key@ == "sender"@ && resp.attributes@[1].value == sender
            &&& resp.attributes@[2].key@ == "recipient"@ && resp.attributes@[2].value == recipient
            &&& resp.attributes@[3].key@ == "token_id"@ && resp.attributes@[3].value == token_id
        },
{
    match _transfer_nft(state, block, &sender, &recipient, &token_id) {
        Err(e) => {
            return Err(e);
        },
        Ok(()) => {},
    }
    let mut attributes: Vec<Attribute> = Vec::new();
    attributes.push(
        Attribute { key: String::from_str("action"), value: String::from_str("transfer_nft") },
    );
    attributes.push(Attribute { key: String::from_str("sender"), value: sender });
    attributes.push(Attribute { key: String::from_str("recipient"), value: recipient });
    attributes.push(Attribute { key: String::from_str("token_id"), value: token_id });
    Ok(Response { attributes, messages: Vec::new() })
}

/// Moves the token to the receiving contract after a send-class check, and
/// carries the payload to forward to that contract in the success record.
pub fn send_nft(
    state: &mut ContractState,
    block: &BlockInfo,
    sender: String,
    contract: String,
    token_id: String,
    msg: Vec<u8>,
) -> (r: Result<Response, ContractError>)
    requires
        old(state).wf(),
    ensures
        final(state).wf(),
        r is Err ==> *final(state) == *old(state),
        r == Err::<Response, ContractError>(ContractError::NotFound) <==> !old(
            state,
        ).spec_has_token(token_id@),
        old(state).spec_has_token(token_id@) ==> ({
            let i = old(state).spec_token_index(token_id@);
            let tok = old(state).tokens@[i];
            let allowed = send_allowed(*old(state), *block, sender@, tok);
            &&& (r == Err::<Response, ContractError>(ContractError::Unauthorized) <==> !allowed)
            &&& (r is Ok <==> allowed)
            &&& (r is Ok ==> transfer_applied(*old(state), *final(state), i, contract))
        }),
        r matches Ok(resp) ==> {
            &&& resp.messages@.len() == 1
            &&& resp.messages@[0].sender == sender
            &&& resp.messages@[0].token_id == token_id
            &&& resp.messages@[0].msg == msg
            &&& resp.attributes@.len() == 4
            &&& resp.attributes@[0].key@ == "action"@ && resp.attributes@[0].value@ == "send_nft"@
            &&& resp.attributes@[1].key@ == "sender"@ && resp.attributes@[1].value == sender
            &&& resp.attributes@[2].key@ == "recipient"@ && resp.attributes@[2].value == contract
            &&& resp.attributes@[3].key@ == "token_id"@ && resp.attributes@[3].value == token_id
        },
{
    match _transfer_nft(state, block, &sender, &contract, &token_id) {
        Err(e) => {
            return Err(e);
        },
        Ok(()) => {},
    }
    let mut messages: Vec<ReceiveMsg> = Vec::new();
    messages.push(ReceiveMsg { sender: sender.clone(), token_id: token_id.clone(), msg });
    let mut attributes: Vec<Attribute> = Vec::new();
    attributes.push(
        Attribute { key: String::from_str("action"), value: String::from_str("send_nft") },
    );
    attributes.push(Attribute { key: String::from_str("sender"), value: sender });
    attributes.push(Attribute { key: String::from_str("recipient"), value: contract });
    attributes.push(Attribute { key: String::from_str("token_id"), value: token_id });
    Ok(Response { attributes, messages })
}

/// Removes the token after a send-class check and decrements the supply
/// counter; post-burn, no operation may reference the id until it is
/// re-minted with a fresh record.
pub fn burn(state: &mut ContractState, block: &BlockInfo, sender: String, token_id: String) -> (r:
    Result<Response, ContractError>)
    requires
        old(state).wf(),
    ensures
        final(state).wf(),
        r is Err ==> *final(state) == *old(state),
        r == Err::<Response, ContractError>(ContractError::NotFound) <==> !old(
            state,
        ).spec_has_token(token_id@),
        old(state).spec_has_token(token_id@) ==> ({
            let i = old(state).spec_token_index(token_id@);
            let tok = old(state).tokens@[i];
            let allowed = send_allowed(*old(state), *block, sender@, tok);
            &&& (r == Err::<Response, ContractError>(ContractError::Unauthorized) <==> !allowed)
            &&& (r is Ok <==> allowed)
            &&& (r is Ok ==> {
                &&& final(state).tokens@ == old(state).tokens@.remove(i)
                &&& !final(state).spec_has_token(token_id@)
                &&& final(state).token_count == old(state).token_count - 1
                &&& final(state).operators == old(state).operators
                &&& identity_fixed(*old(state), *final(state))
            })
        }),
        r matches Ok(resp) ==> {
            &&& resp.messages@.len() == 0
            &&& resp.attributes@.len() == 3
            &&& resp.attributes@[0].key@ == "action"@ && resp.attributes@[0].value@ == "burn"@
            &&& resp.attributes@[1].key@ == "sender"@ && resp.attributes@[1].value == sender
            &&& resp.attributes@[2].key@ == "token_id"@ && resp.attributes@[2].value == token_id
        },
{
    let pos = state.token_position(&token_id);
    let i = match pos {
        None => {
            return Err(ContractError::NotFound);
        },
        Some(i) => i,
    };
    proof {
        assert(i == state.spec_token_index(token_id@));
    }
    match check_can_send(state, block, &sender, &state.tokens[i]) {
        Err(e) => {
            return Err(e);
        },
        Ok(()) => {},
    }
    let ghost pre = *state;
    state.tokens.remove(i);
    state.token_count = state.token_count - 1;
    proof {
        lemma_seq_remove_index(pre.tokens@, i as int);
        lemma_remove_keeps_unique_token_ids(pre.tokens@, i as int);
        assert forall|k: int| 0 <= k < state.tokens@.len() implies (#[trigger] state.tokens@[k]).id@
            != token_id@ by {
            if k < i {
                assert(state.tokens@[k] == pre.tokens@[k]);
            } else {
                assert(state.tokens@[k] == pre.tokens@[k + 1]);
            }
        }
        assert(state.wf());
    }
    let mut attributes: Vec<Attribute> = Vec::new();
    attributes.push(Attribute { key: String::from_str("action"), value: String::from_str("burn") });
    attributes.push(Attribute { key: String::from_str("sender"), value: sender });
    attributes.push(Attribute { key: String::from_str("token_id"), value: token_id });
    Ok(Response { attributes, messages: Vec::new() })
}

/// Whether a mint request supplies its own royalty fields, which is
/// rejected: tokens inherit the collection-level configuration instead.
pub open spec fn supplies_royalty(extension: Option<Metadata>) -> bool {
    match extension {
        Some(m) => m.royalty_percentage is Some || m.royalty_payment_address is Some,
        None => false,
    }
}

/// The non-royalty metadata fields of `m` are all absent.
pub open spec fn non_royalty_fields_default(m: Metadata) -> bool {
    &&& m.image is None
    &&& m.image_data is None
    &&& m.external_url is None
    &&& m.description is None
    &&& m.name is None
    &&& m.attributes is None
    &&& m.background_color is None
    &&& m.animation_url is None
    &&& m.youtube_url is None
    &&& m.expires is None
}

/// The non-royalty metadata fields of `m` equal those of `p`.
pub open spec fn non_royalty_fields_match(m: Metadata, p: Metadata) -> bool {
    &&& m.image == p.image
    &&& m.image_data == p.image_data
    &&& m.external_url == p.external_url
    &&& m.description == p.description
    &&& m.name == p.name
    &&& m.attributes == p.attributes
    &&& m.background_color == p.background_color
    &&& m.animation_url == p.animation_url
    &&& m.youtube_url == p.youtube_url
    &&& m.expires == p.expires
}

/// The stored metadata of a fresh token: the supplied fields (or all
/// absent), with the royalty fields taken from the collection
/// configuration atomically at mint time.
pub open spec fn inherited_metadata(m: Metadata, provided: Option<Metadata>, config: Config) -> bool {
    &&& m.royalty_percentage == config.royalty_percentage
    &&& m.royalty_payment_address == config.royalty_payment_address
    &&& match provided {
        Some(p) => non_royalty_fields_match(m, p),
        None => non_royalty_fields_default(m),
    }
}

/// Creates a fresh token owned by `owner`. Only the minter may mint; a
/// request that supplies its own royalty fields is rejected before
/// persistence, and the stored token inherits the collection-level royalty
/// configuration instead.
pub fn mint(
    state: &mut ContractState,
    sender: String,
    token_id: String,
    owner: String,
    token_uri: Option<String>,
    extension: Option<Metadata>,
) -> (r: Result<Response, ContractError>)
    requires
        old(state).wf(),
        old(state).token_count < u64::MAX,
    ensures
        final(state).wf(),
        r is Err ==> *final(state) == *old(state),
        r == Err::<Response, ContractError>(ContractError::InvalidConfiguration) <==>
            supplies_royalty(extension),
        !supplies_royalty(extension) ==> (r == Err::<Response, ContractError>(
            ContractError::Unauthorized,
        ) <==> sender@ != old(state).minter@),
        !supplies_royalty(extension) && sender@ == old(state).minter@ ==> (r == Err::<
            Response,
            ContractError,
        >(ContractError::Claimed) <==> old(state).spec_has_token(token_id@)),
        r is Ok <==> (!supplies_royalty(extension) && sender@ == old(state).minter@ && !old(
            state,
        ).spec_has_token(token_id@)),
        r is Ok ==> ({
            let n = old(state).tokens@.len() as int;
            &&& final(state).tokens@.len() == n + 1
            &&& forall|j: int| 0 <= j < n ==> final(state).tokens@[j] == old(state).tokens@[j]
            &&& final(state).tokens@[n].id == token_id
            &&& final(state).tokens@[n].owner == owner
            &&& final(state).tokens@[n].approvals@ == Seq::<Approval>::empty()
            &&& final(state).tokens@[n].token_uri == token_uri
            &&& (final(state).tokens@[n].extension matches Some(m) && inherited_metadata(
                m,
                extension,
                old(state).config,
            ))
            &&& final(state).token_count == old(state).token_count + 1
            &&& final(state).operators == old(state).operators
            &&& identity_fixed(*old(state), *final(state))
        }),
        r matches Ok(resp) ==> {
            &&& resp.messages@.len() == 0
            &&& resp.attributes@.len() == 4
            &&& resp.attributes@[0].key@ == "action"@ && resp.attributes@[0].value@ == "mint"@
            &&& resp.attributes@[1].key@ == "minter"@ && resp.attributes@[1].value == sender
            &&& resp.attributes@[2].key@ == "owner"@ && resp.attributes@[2].value == owner
            &&& resp.attributes@[3].key@ == "token_id"@ && resp.attributes@[3].value == token_id
        },
{
    match &extension {
        Some(m) => {
            if m.royalty_percentage.is_some() || m.royalty_payment_address.is_some() {
                return Err(ContractError::InvalidConfiguration);
            }
        },
        None => {},
    }
    if sender != state.minter {
        return Err(ContractError::Unauthorized);
    }
    match state.token_position(&token_id) {
        Some(_) => {
            return Err(ContractError::Claimed);
        },
        None => {},
    }
    let ghost pre = *state;
    let mut meta = match extension {
        Some(m) => m,
        None => Metadata::default(),
    };
    meta.royalty_percentage = state.config.royalty_percentage;
    meta.royalty_payment_address = clone_opt_string(&state.config.royalty_payment_address);
    let token = Token {
        id: token_id.clone(),
        owner: owner.clone(),
        approvals: Vec::new(),
        token_uri,
        extension: Some(meta),
    };
    state.tokens.push(token);
    state.token_count = state.token_count + 1;
    proof {
        assert forall|i: int, j: int| 0 <= i < j < state.tokens@.len() implies (
        #[trigger] state.tokens@[i]).id@ != (#[trigger] state.tokens@[j]).id@ by {
            if j == state.tokens@.len() - 1 {
                assert(state.tokens@[i] == pre.tokens@[i]);
            }
        }
        assert(state.wf());
    }
    let mut attributes: Vec<Attribute> = Vec::new();
    attributes.push(Attribute { key: String::from_str("action"), value: String::from_str("mint") });
    attributes.push(Attribute { key: String::from_str("minter"), value: sender });
    attributes.push(Attribute { key: String::from_str("owner"), value: owner });
    attributes.push(Attribute { key: String::from_str("token_id"), value: token_id });
    Ok(Response { attributes, messages: Vec::new() })
}

/// Builds the initial collection state. A configured royalty percentage
/// above 100 is rejected outright; the collection starts with no tokens
/// and no operator grants.
pub fn instantiate(msg: InstantiateMsg) -> (r: Result<ContractState, ContractError>)
    ensures
        r is Err <==> !percentage_ok(msg.royalty_percentage),
        r is Err ==> r == Err::<ContractState, ContractError>(ContractError::InvalidConfiguration),
        r matches Ok(s) ==> {
            &&& s.wf()
            &&& s.name == msg.name
            &&& s.symbol == msg.symbol
            &&& s.minter == msg.minter
            &&& s.creator == msg.creator
            &&& s.config.royalty_percentage == msg.royalty_percentage
            &&& s.config.royalty_payment_address == msg.royalty_payment_address
            &&& s.tokens@.len() == 0
            &&& s.operators@.len() == 0
            &&& s.token_count == 0
        },
{
    match msg.royalty_percentage {
        Some(p) => {
            if p > 100 {
                return Err(ContractError::InvalidConfiguration);
            }
        },
        None => {},
    }
    Ok(
        ContractState {
            name: msg.name,
            symbol: msg.symbol,
            minter: msg.minter,
            creator: msg.creator,
            config: Config {
                royalty_percentage: msg.royalty_percentage,
                royalty_payment_address: msg.royalty_payment_address,
            },
            tokens: Vec::new(),
            operators: Vec::new(),
            token_count: 0,
        },
    )
}

} // verus!
