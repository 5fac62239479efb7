use wyvern_proxy_registry::authenticated_proxy::{AuthenticatedProxy, Error};
use wyvern_proxy_registry::call::HowToCall;
use wyvern_proxy_registry::identity::{AccountId, CodeHash};
use wyvern_proxy_registry::wyvern_proxy_registry::WyvernProxyRegistry;

fn le8(v: u64) -> Vec<u8> {
    v.to_le_bytes().to_vec()
}

fn le16(v: u128) -> Vec<u8> {
    v.to_le_bytes().to_vec()
}

/// A registry with one approved operator, for gating tests.
fn registry_with_operator(owner: AccountId, operator: AccountId) -> WyvernProxyRegistry {
    let mut reg = WyvernProxyRegistry::new(owner);
    reg.grant_initial_authentication(owner, operator).unwrap();
    reg
}

#[test]
fn initialize_exactly_once() {
    let mut p = AuthenticatedProxy::new();
    assert!(!p.initialized);
    assert!(p.initialize(AccountId(7), AccountId(2)).is_ok());
    assert!(p.initialized);
    assert_eq!(p.user, AccountId(7));
    assert_eq!(p.registry, AccountId(2));
    assert_eq!(
        p.initialize(AccountId(8), AccountId(3)),
        Err(Error::TransactionFailed)
    );
    assert_eq!(p.user, AccountId(7));
    assert_eq!(p.registry, AccountId(2));
}

#[test]
fn set_revoke_user_only() {
    let user = AccountId(7);
    let mut p = AuthenticatedProxy::new();
    p.initialize(user, AccountId(2)).unwrap();
    assert_eq!(
        p.set_revoke(AccountId(8), true),
        Err(Error::TransactionFailed)
    );
    assert!(!p.revoked);
    let ev = p.set_revoke(user, true).unwrap();
    assert!(ev.revoked);
    assert!(p.revoked);
    let ev2 = p.set_revoke(user, false).unwrap();
    assert!(!ev2.revoked);
    assert!(!p.revoked);
}

#[test]
fn proxy_admission_combinations() {
    // Admission: caller == user, or access not revoked and the caller is a
    // registry-approved operator; every other caller aborts.
    let owner = AccountId(1);
    let user = AccountId(7);
    let operator = AccountId(5);
    let stranger = AccountId(6);
    let reg = registry_with_operator(owner, operator);
    let mut p = AuthenticatedProxy::new();
    p.initialize(user, AccountId(2)).unwrap();

    let calldata = vec![1, 2, 3, 4];
    assert!(p
        .proxy(&reg, user, AccountId(11), HowToCall::Call, calldata.clone(), true)
        .is_ok());
    assert!(p
        .proxy(&reg, operator, AccountId(11), HowToCall::Call, calldata.clone(), true)
        .is_ok());
    assert!(p
        .proxy(&reg, stranger, AccountId(11), HowToCall::Call, calldata.clone(), true)
        .is_err());

    // Once the user revokes, the operator is shut out but the user is not.
    p.set_revoke(user, true).unwrap();
    assert!(p
        .proxy(&reg, operator, AccountId(11), HowToCall::Call, calldata.clone(), true)
        .is_err());
    assert!(p
        .proxy(&reg, user, AccountId(11), HowToCall::Call, calldata.clone(), true)
        .is_ok());
}

#[test]
fn registry_revocation_applies_immediately() {
    // After revoke_authentication, a proxy call gated on the operator's
    // approval fails with no delay.
    let owner = AccountId(1);
    let user = AccountId(7);
    let operator = AccountId(5);
    let mut reg = registry_with_operator(owner, operator);
    let mut p = AuthenticatedProxy::new();
    p.initialize(user, AccountId(2)).unwrap();

    let calldata = vec![1, 2, 3, 4];
    assert!(p
        .proxy(&reg, operator, AccountId(11), HowToCall::Call, calldata.clone(), true)
        .is_ok());
    reg.revoke_authentication(owner, operator).unwrap();
    assert_eq!(
        p.proxy(&reg, operator, AccountId(11), HowToCall::Call, calldata, true),
        Err(Error::TransactionFailed)
    );
}

#[test]
fn proxy_splits_calldata() {
    let user = AccountId(7);
    let reg = WyvernProxyRegistry::new(AccountId(1));
    let mut p = AuthenticatedProxy::new();
    p.initialize(user, AccountId(2)).unwrap();
    let calldata = vec![0xaa, 0xbb, 0xcc, 0xdd, 1, 2, 3];
    let (succeeded, d) = p
        .proxy(&reg, user, AccountId(11), HowToCall::DelegateCall, calldata, true)
        .unwrap();
    assert!(succeeded);
    assert_eq!(d.target, AccountId(11));
    assert_eq!(d.kind, HowToCall::DelegateCall);
    assert_eq!(d.selector, [0xaa, 0xbb, 0xcc, 0xdd]);
    assert_eq!(d.payload, vec![1, 2, 3]);
    assert_eq!(d.value, 0);
    // Calldata shorter than a selector aborts.
    assert_eq!(
        p.proxy(&reg, user, AccountId(11), HowToCall::Call, vec![1, 2, 3], true),
        Err(Error::TransactionFailed)
    );
}

#[test]
fn proxy_reports_nested_failure_without_aborting() {
    let user = AccountId(7);
    let reg = WyvernProxyRegistry::new(AccountId(1));
    let mut p = AuthenticatedProxy::new();
    p.initialize(user, AccountId(2)).unwrap();
    let (succeeded, _) = p
        .proxy(&reg, user, AccountId(11), HowToCall::Call, vec![1, 2, 3, 4], false)
        .unwrap();
    assert!(!succeeded);
}

#[test]
fn proxy_assert_promotes_failure() {
    let user = AccountId(7);
    let reg = WyvernProxyRegistry::new(AccountId(1));
    let mut p = AuthenticatedProxy::new();
    p.initialize(user, AccountId(2)).unwrap();
    assert!(p
        .proxy_assert(&reg, user, AccountId(11), HowToCall::Call, vec![1, 2, 3, 4], true)
        .is_ok());
    assert_eq!(
        p.proxy_assert(&reg, user, AccountId(11), HowToCall::Call, vec![1, 2, 3, 4], false),
        Err(Error::TransactionFailed)
    );
}

#[test]
fn receive_approval_pulls_tokens() {
    let p = AuthenticatedProxy::new();
    let self_id = AccountId(0x0304);
    let from = AccountId(0x0102);
    let token = AccountId(12);
    let (d, ev) = p
        .receive_approval(self_id, from, 500, token, vec![9, 9], true)
        .unwrap();
    assert_eq!(d.target, token);
    assert_eq!(d.selector, [0x0b, 0x39, 0x6f, 0x18]);
    let mut expected = le8(0x0102);
    expected.extend(le8(0x0304));
    expected.extend(le16(500));
    assert_eq!(d.payload, expected);
    assert_eq!(d.value, 0);
    assert_eq!(ev.from, from);
    assert_eq!(ev.value, 500);
    assert_eq!(ev.token, token);
    assert_eq!(ev.extra_data, vec![9, 9]);
    // A failed pull aborts the whole operation.
    assert!(p
        .receive_approval(self_id, from, 500, token, vec![9, 9], false)
        .is_err());
}

#[test]
fn was_it_ten_requires_ten() {
    let p = AuthenticatedProxy::new();
    let ev = p.was_it_ten(AccountId(4), 10).unwrap();
    assert_eq!(ev.sender, AccountId(4));
    assert_eq!(ev.amount, 10);
    assert_eq!(p.was_it_ten(AccountId(4), 9), Err(Error::TransactionFailed));
    assert_eq!(p.was_it_ten(AccountId(4), 11), Err(Error::TransactionFailed));
}

#[test]
fn proxy_upgradeability_storage() {
    let mut p = AuthenticatedProxy::new();
    assert_eq!(p.upgradeability_owner(), AccountId(0));
    assert_eq!(p.implementation(), CodeHash(0));
    p.set_upgradeability_owner(AccountId(3));
    assert_eq!(p.upgradeability_owner(), AccountId(3));
    assert_eq!(p.proxy_type(), 2);
}
