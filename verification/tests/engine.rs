use cw721_time_limited::error::ContractError;
use cw721_time_limited::execute::{
    approve, approve_all, burn, instantiate, mint, revoke, revoke_all, transfer_nft,
};
use cw721_time_limited::expiration::{BlockInfo, Expiration};
use cw721_time_limited::msg::InstantiateMsg;
use cw721_time_limited::query::{nft_info, owner_of, query_royalties_info};
use cw721_time_limited::state::{ContractState, Metadata};

const ADMIN: &str = "admin";

fn block_at(height: u64) -> BlockInfo {
    BlockInfo {
        height,
        time: 1571797419879305533,
    }
}

fn fresh_state(royalty_percentage: Option<u64>) -> ContractState {
    instantiate(InstantiateMsg {
        name: "Leases".to_string(),
        symbol: "LEASE".to_string(),
        minter: ADMIN.to_string(),
        royalty_percentage,
        royalty_payment_address: royalty_percentage.map(|_| "vault".to_string()),
        creator: None,
    })
    .unwrap()
}

fn mint_token(state: &mut ContractState, id: &str, owner: &str, expires: Option<Expiration>) {
    mint(
        state,
        ADMIN.to_string(),
        id.to_string(),
        owner.to_string(),
        None,
        Some(Metadata {
            expires,
            ..Metadata::default()
        }),
    )
    .unwrap();
}

#[test]
fn no_expiration_reduces_to_ownership() {
    // With no expiration metadata the reclaim gate never engages: the owner
    // can act at any height, a stranger cannot, and the administrator gets
    // no special power.
    let mut state = fresh_state(None);
    mint_token(&mut state, "plain", "alice", None);

    // a stranger is denied, even the administrator
    let res = transfer_nft(
        &mut state,
        &block_at(u64::MAX),
        ADMIN.to_string(),
        "mallory".to_string(),
        "plain".to_string(),
    );
    assert_eq!(res.unwrap_err(), ContractError::Unauthorized);

    // the recorded owner may transfer, however late the clock runs
    transfer_nft(
        &mut state,
        &block_at(u64::MAX),
        "alice".to_string(),
        "bob".to_string(),
        "plain".to_string(),
    )
    .unwrap();
    assert_eq!(owner_of(&state, &"plain".to_string()).unwrap().owner, "bob");
}

#[test]
fn expired_lease_locks_out_everyone_but_admin() {
    // Past the lease height every class denies the owner, a delegate and an
    // operator alike; only the administrator may act.
    let mut state = fresh_state(None);
    mint_token(&mut state, "lease", "alice", Some(Expiration::AtHeight(200)));

    // while live, set up a delegate and an operator
    approve(
        &mut state,
        &block_at(100),
        "alice".to_string(),
        "dave".to_string(),
        "lease".to_string(),
        None,
    )
    .unwrap();
    approve_all(
        &mut state,
        &block_at(100),
        "alice".to_string(),
        "oscar".to_string(),
        None,
    )
    .unwrap();

    let late = block_at(200); // expiration is inclusive: height >= 200 is expired
    for sender in ["alice", "dave", "oscar"] {
        let res = transfer_nft(
            &mut state,
            &late,
            sender.to_string(),
            "bob".to_string(),
            "lease".to_string(),
        );
        assert_eq!(res.unwrap_err(), ContractError::Unauthorized);
        let res = approve(
            &mut state,
            &late,
            sender.to_string(),
            "eve".to_string(),
            "lease".to_string(),
            None,
        );
        assert_eq!(res.unwrap_err(), ContractError::Unauthorized);
    }

    // the administrator may even manage approvals on the expired token
    approve(
        &mut state,
        &late,
        ADMIN.to_string(),
        "agent".to_string(),
        "lease".to_string(),
        None,
    )
    .unwrap();

    // the administrator reclaims
    transfer_nft(
        &mut state,
        &late,
        ADMIN.to_string(),
        "carol".to_string(),
        "lease".to_string(),
    )
    .unwrap();
    assert_eq!(owner_of(&state, &"lease".to_string()).unwrap().owner, "carol");
}

#[test]
fn remove_absent_delegate_is_idempotent() {
    let mut state = fresh_state(None);
    mint_token(&mut state, "t", "alice", None);
    let before = state.clone();

    let res = revoke(
        &mut state,
        &block_at(1),
        "alice".to_string(),
        "nobody".to_string(),
        "t".to_string(),
    );
    assert!(res.is_ok());
    assert_eq!(state, before);
}

#[test]
fn remove_absent_operator_is_idempotent() {
    let mut state = fresh_state(None);
    let before = state.clone();

    let res = revoke_all(&mut state, "alice".to_string(), "nobody".to_string());
    assert!(res.is_ok());
    assert_eq!(state, before);
}

#[test]
fn royalty_rounding_truncates() {
    let mut state = fresh_state(Some(10));
    mint_token(&mut state, "t", "alice", None);

    let r = query_royalties_info(&state, &"t".to_string(), 100).unwrap();
    assert_eq!(r.address, "vault");
    assert_eq!(r.royalty_amount, 10);

    // 43 * 10% = 4.3: floor, not round
    let r = query_royalties_info(&state, &"t".to_string(), 43).unwrap();
    assert_eq!(r.royalty_amount, 4);

    // 9 * 10% = 0.9: truncated to zero
    let r = query_royalties_info(&state, &"t".to_string(), 9).unwrap();
    assert_eq!(r.royalty_amount, 0);

    // a price near the top of the range must not overflow
    let r = query_royalties_info(&state, &"t".to_string(), u128::MAX).unwrap();
    assert_eq!(r.royalty_amount, u128::MAX / 10);
}

#[test]
fn full_percentage_takes_whole_price() {
    // percentage 100 is accepted at configuration and takes the whole price
    let mut state = fresh_state(Some(100));
    mint_token(&mut state, "t", "alice", None);
    let r = query_royalties_info(&state, &"t".to_string(), 77).unwrap();
    assert_eq!(r.royalty_amount, 77);
}

#[test]
fn mint_rejects_supplied_royalty_fields() {
    let mut state = fresh_state(Some(50));
    let before = state.clone();

    // a supplied percentage alone is rejected
    let res = mint(
        &mut state,
        ADMIN.to_string(),
        "t".to_string(),
        "alice".to_string(),
        None,
        Some(Metadata {
            royalty_percentage: Some(1),
            ..Metadata::default()
        }),
    );
    assert_eq!(res.unwrap_err(), ContractError::InvalidConfiguration);
    assert_eq!(state, before);

    // a supplied payment address alone is rejected too
    let res = mint(
        &mut state,
        ADMIN.to_string(),
        "t".to_string(),
        "alice".to_string(),
        None,
        Some(Metadata {
            royalty_payment_address: Some("me".to_string()),
            ..Metadata::default()
        }),
    );
    assert_eq!(res.unwrap_err(), ContractError::InvalidConfiguration);
    assert_eq!(state, before);

    // the token inherits the collection configuration instead
    mint_token(&mut state, "t", "alice", None);
    let ext = nft_info(&state, &"t".to_string()).unwrap().extension.unwrap();
    assert_eq!(ext.royalty_percentage, Some(50));
    assert_eq!(ext.royalty_payment_address, Some("vault".to_string()));
}

#[test]
fn configuration_validation_bounds() {
    let msg = |p: u64| InstantiateMsg {
        name: "Leases".to_string(),
        symbol: "LEASE".to_string(),
        minter: ADMIN.to_string(),
        royalty_percentage: Some(p),
        royalty_payment_address: Some("vault".to_string()),
        creator: None,
    };
    assert_eq!(
        instantiate(msg(101)).unwrap_err(),
        ContractError::InvalidConfiguration
    );
    assert!(instantiate(msg(100)).is_ok());
}

#[test]
fn transfer_clears_approvals() {
    let mut state = fresh_state(None);
    mint_token(&mut state, "t", "alice", None);
    approve(
        &mut state,
        &block_at(1),
        "alice".to_string(),
        "dave".to_string(),
        "t".to_string(),
        None,
    )
    .unwrap();
    assert_eq!(owner_of(&state, &"t".to_string()).unwrap().approvals.len(), 1);

    transfer_nft(
        &mut state,
        &block_at(1),
        "alice".to_string(),
        "bob".to_string(),
        "t".to_string(),
    )
    .unwrap();

    let res = owner_of(&state, &"t".to_string()).unwrap();
    assert_eq!(res.owner, "bob");
    assert!(res.approvals.is_empty());
}

#[test]
fn delegate_approval_grants_send_but_not_approve() {
    let mut state = fresh_state(None);
    mint_token(&mut state, "t", "alice", None);
    approve(
        &mut state,
        &block_at(1),
        "alice".to_string(),
        "dave".to_string(),
        "t".to_string(),
        None,
    )
    .unwrap();

    // a delegate cannot re-delegate: per-token approvals carry no
    // approve-class rights
    let res = approve(
        &mut state,
        &block_at(1),
        "dave".to_string(),
        "eve".to_string(),
        "t".to_string(),
        None,
    );
    assert_eq!(res.unwrap_err(), ContractError::Unauthorized);

    // but the delegate can transfer
    transfer_nft(
        &mut state,
        &block_at(1),
        "dave".to_string(),
        "dave".to_string(),
        "t".to_string(),
    )
    .unwrap();
    assert_eq!(owner_of(&state, &"t".to_string()).unwrap().owner, "dave");
}

#[test]
fn operator_grant_covers_all_tokens_until_revoked() {
    let mut state = fresh_state(None);
    mint_token(&mut state, "t1", "alice", None);
    mint_token(&mut state, "t2", "alice", None);
    approve_all(
        &mut state,
        &block_at(1),
        "alice".to_string(),
        "oscar".to_string(),
        None,
    )
    .unwrap();

    // the operator may approve on any of alice's tokens, and transfer
    approve(
        &mut state,
        &block_at(1),
        "oscar".to_string(),
        "eve".to_string(),
        "t1".to_string(),
        None,
    )
    .unwrap();
    transfer_nft(
        &mut state,
        &block_at(1),
        "oscar".to_string(),
        "bob".to_string(),
        "t2".to_string(),
    )
    .unwrap();

    // once revoked, the operator is a stranger again
    revoke_all(&mut state, "alice".to_string(), "oscar".to_string()).unwrap();
    let res = transfer_nft(
        &mut state,
        &block_at(1),
        "oscar".to_string(),
        "bob".to_string(),
        "t1".to_string(),
    );
    assert_eq!(res.unwrap_err(), ContractError::Unauthorized);
}

#[test]
fn stale_grants_do_not_authorize() {
    let mut state = fresh_state(None);
    mint_token(&mut state, "t", "alice", None);

    // a delegate approval that has lapsed no longer grants send rights
    approve(
        &mut state,
        &block_at(1),
        "alice".to_string(),
        "dave".to_string(),
        "t".to_string(),
        Some(Expiration::AtHeight(50)),
    )
    .unwrap();
    let res = transfer_nft(
        &mut state,
        &block_at(50),
        "dave".to_string(),
        "dave".to_string(),
        "t".to_string(),
    );
    assert_eq!(res.unwrap_err(), ContractError::Unauthorized);

    // an operator grant that has lapsed no longer authorizes either
    approve_all(
        &mut state,
        &block_at(1),
        "alice".to_string(),
        "oscar".to_string(),
        Some(Expiration::AtTime(block_at(1).time + 7)),
    )
    .unwrap();
    let late = BlockInfo {
        height: 1,
        time: block_at(1).time + 7,
    };
    let res = transfer_nft(
        &mut state,
        &late,
        "oscar".to_string(),
        "oscar".to_string(),
        "t".to_string(),
    );
    assert_eq!(res.unwrap_err(), ContractError::Unauthorized);
}

#[test]
fn supplying_expired_grants_is_rejected() {
    let mut state = fresh_state(None);
    mint_token(&mut state, "t", "alice", None);
    let before = state.clone();

    let res = approve(
        &mut state,
        &block_at(100),
        "alice".to_string(),
        "dave".to_string(),
        "t".to_string(),
        Some(Expiration::AtHeight(100)),
    );
    assert_eq!(res.unwrap_err(), ContractError::Expired);
    assert_eq!(state, before);

    let res = approve_all(
        &mut state,
        &block_at(100),
        "alice".to_string(),
        "oscar".to_string(),
        Some(Expiration::AtTime(1)),
    );
    assert_eq!(res.unwrap_err(), ContractError::Expired);
    assert_eq!(state, before);
}

#[test]
fn approve_replaces_existing_entry() {
    let mut state = fresh_state(None);
    mint_token(&mut state, "t", "alice", None);

    approve(
        &mut state,
        &block_at(1),
        "alice".to_string(),
        "dave".to_string(),
        "t".to_string(),
        Some(Expiration::AtHeight(10)),
    )
    .unwrap();
    approve(
        &mut state,
        &block_at(1),
        "alice".to_string(),
        "dave".to_string(),
        "t".to_string(),
        Some(Expiration::AtHeight(99)),
    )
    .unwrap();

    let approvals = owner_of(&state, &"t".to_string()).unwrap().approvals;
    assert_eq!(approvals.len(), 1);
    assert_eq!(approvals[0].spender, "dave");
    assert_eq!(approvals[0].expires, Expiration::AtHeight(99));
}

#[test]
fn unknown_token_is_not_found() {
    let mut state = fresh_state(None);
    let res = transfer_nft(
        &mut state,
        &block_at(1),
        "alice".to_string(),
        "bob".to_string(),
        "ghost-ship".to_string(),
    );
    assert_eq!(res.unwrap_err(), ContractError::NotFound);
    assert_eq!(
        query_royalties_info(&state, &"ghost-ship".to_string(), 100).unwrap_err(),
        ContractError::NotFound
    );
}

#[test]
fn only_minter_mints_and_ids_are_claimed_once() {
    let mut state = fresh_state(None);
    let res = mint(
        &mut state,
        "alice".to_string(),
        "t".to_string(),
        "alice".to_string(),
        None,
        None,
    );
    assert_eq!(res.unwrap_err(), ContractError::Unauthorized);

    mint_token(&mut state, "t", "alice", None);
    let res = mint(
        &mut state,
        ADMIN.to_string(),
        "t".to_string(),
        "bob".to_string(),
        None,
        None,
    );
    assert_eq!(res.unwrap_err(), ContractError::Claimed);
}

#[test]
fn burn_removes_the_record() {
    let mut state = fresh_state(None);
    mint_token(&mut state, "t", "alice", None);
    assert_eq!(state.token_count, 1);

    burn(
        &mut state,
        &block_at(1),
        "alice".to_string(),
        "t".to_string(),
    )
    .unwrap();
    assert_eq!(state.token_count, 0);
    assert_eq!(
        nft_info(&state, &"t".to_string()).unwrap_err(),
        ContractError::NotFound
    );
}

#[test]
fn success_records_carry_audit_attributes() {
    let mut state = fresh_state(None);
    mint_token(&mut state, "t", "alice", None);
    let resp = transfer_nft(
        &mut state,
        &block_at(1),
        "alice".to_string(),
        "bob".to_string(),
        "t".to_string(),
    )
    .unwrap();

    let pairs: Vec<(String, String)> = resp
        .attributes
        .iter()
        .map(|a| (a.key.clone(), a.value.clone()))
        .collect();
    assert_eq!(
        pairs,
        vec![
            ("action".to_string(), "transfer_nft".to_string()),
            ("sender".to_string(), "alice".to_string()),
            ("recipient".to_string(), "bob".to_string()),
            ("token_id".to_string(), "t".to_string()),
        ]
    );
}

#[test]
fn lease_boundary_is_inclusive() {
    // at exactly the expiration height the lease counts as expired
    let mut state = fresh_state(None);
    mint_token(&mut state, "t", "alice", Some(Expiration::AtHeight(100)));

    let res = transfer_nft(
        &mut state,
        &block_at(100),
        "alice".to_string(),
        "bob".to_string(),
        "t".to_string(),
    );
    assert_eq!(res.unwrap_err(), ContractError::Unauthorized);

    // one short of the boundary the owner still holds every right
    transfer_nft(
        &mut state,
        &block_at(99),
        "alice".to_string(),
        "bob".to_string(),
        "t".to_string(),
    )
    .unwrap();
}
