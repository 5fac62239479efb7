use wyvern_proxy_registry::identity::{AccountId, CodeHash};
use wyvern_proxy_registry::ownable_delegate_proxy::{Error, OwnableDelegateProxy};

#[test]
fn upgrade_to_rejects_no_op() {
    // Upgrading to the current code always aborts; upgrading to new code
    // makes implementation() return that code.
    let owner = AccountId(1);
    let mut d = OwnableDelegateProxy::new(owner, CodeHash(10));
    assert_eq!(d.upgrade_to(owner, CodeHash(10)), Err(Error::TransactionFailed));
    assert_eq!(d.implementation(), CodeHash(10));
    let ev = d.upgrade_to(owner, CodeHash(11)).unwrap();
    assert_eq!(ev.implementation, CodeHash(11));
    assert_eq!(d.implementation(), CodeHash(11));
}

#[test]
fn upgrade_to_owner_only() {
    let mut d = OwnableDelegateProxy::new(AccountId(1), CodeHash(10));
    assert_eq!(
        d.upgrade_to(AccountId(2), CodeHash(11)),
        Err(Error::TransactionFailed)
    );
    assert_eq!(d.implementation(), CodeHash(10));
}

#[test]
fn change_delegate_code_owner_only() {
    let owner = AccountId(1);
    let mut d = OwnableDelegateProxy::new(owner, CodeHash(10));
    assert_eq!(
        d.change_delegate_code(AccountId(2), CodeHash(11)),
        Err(Error::TransactionFailed)
    );
    assert!(d.change_delegate_code(owner, CodeHash(11)).is_ok());
    assert_eq!(d.implementation(), CodeHash(11));
    // Unlike upgrade_to, re-installing the same code is allowed here.
    assert!(d.change_delegate_code(owner, CodeHash(11)).is_ok());
}

#[test]
fn transfer_proxy_ownership_rules() {
    let owner = AccountId(1);
    let mut d = OwnableDelegateProxy::new(owner, CodeHash(10));
    assert_eq!(
        d.transfer_proxy_ownership(owner, AccountId(0)),
        Err(Error::TransactionFailed)
    );
    assert_eq!(
        d.transfer_proxy_ownership(AccountId(2), AccountId(3)),
        Err(Error::TransactionFailed)
    );
    let ev = d.transfer_proxy_ownership(owner, AccountId(3)).unwrap();
    assert_eq!(ev.previous_owner, owner);
    assert_eq!(ev.new_owner, AccountId(3));
    assert_eq!(d.proxy_owner(), AccountId(3));
    // The old owner lost its powers.
    assert_eq!(
        d.upgrade_to(owner, CodeHash(11)),
        Err(Error::TransactionFailed)
    );
    assert!(d.upgrade_to(AccountId(3), CodeHash(11)).is_ok());
}

#[test]
fn upgrade_to_and_call_is_atomic() {
    let owner = AccountId(1);
    let self_id = AccountId(20);
    let mut d = OwnableDelegateProxy::new(owner, CodeHash(10));
    let (ev, call) = d
        .upgrade_to_and_call(owner, self_id, CodeHash(11), vec![1, 2, 3, 4, 5], true)
        .unwrap();
    assert_eq!(ev.implementation, CodeHash(11));
    assert_eq!(call.target, self_id);
    assert_eq!(call.selector, [1, 2, 3, 4]);
    assert_eq!(call.payload, vec![5]);
    assert_eq!(d.implementation(), CodeHash(11));
}

#[test]
fn upgrade_to_and_call_rolls_back() {
    // When the nested initialization call fails, the upgrade must also be
    // rolled back.
    let owner = AccountId(1);
    let self_id = AccountId(20);
    let mut d = OwnableDelegateProxy::new(owner, CodeHash(10));
    assert_eq!(
        d.upgrade_to_and_call(owner, self_id, CodeHash(11), vec![1, 2, 3, 4], false),
        Err(Error::TransactionFailed)
    );
    assert_eq!(d.implementation(), CodeHash(10));
    // Calldata without a full selector aborts too, changing nothing.
    assert_eq!(
        d.upgrade_to_and_call(owner, self_id, CodeHash(11), vec![1, 2], true),
        Err(Error::TransactionFailed)
    );
    assert_eq!(d.implementation(), CodeHash(10));
}

#[test]
fn forward_delegates_to_implementation() {
    let d = OwnableDelegateProxy::new(AccountId(1), CodeHash(10));
    let t = d.forward(vec![7, 8, 9], 55);
    assert_eq!(t.code, CodeHash(10));
    assert_eq!(t.input, vec![7, 8, 9]);
    assert_eq!(t.value, 55);
}

#[test]
fn owner_queries() {
    let d = OwnableDelegateProxy::new(AccountId(1), CodeHash(10));
    assert_eq!(d.upgradeability_owner(), AccountId(1));
    assert_eq!(d.proxy_owner(), AccountId(1));
    assert_eq!(d.proxy_type(), 2);
    assert!(d.only_proxy_owner(AccountId(1)).is_ok());
    assert_eq!(d.only_proxy_owner(AccountId(2)), Err(Error::TransactionFailed));
}

#[test]
fn upgrade_inner_skips_owner_check() {
    let mut d = OwnableDelegateProxy::new(AccountId(1), CodeHash(10));
    let ev = d._upgrade_to_inner(CodeHash(12)).unwrap();
    assert_eq!(ev.implementation, CodeHash(12));
    assert_eq!(
        d._upgrade_to_inner(CodeHash(12)),
        Err(Error::TransactionFailed)
    );
    d.set_upgradeability_owner(AccountId(9));
    assert_eq!(d.upgradeability_owner(), AccountId(9));
    assert_eq!(d.implementation(), CodeHash(12));
}
