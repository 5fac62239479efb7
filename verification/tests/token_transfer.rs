use wyvern_proxy_registry::identity::AccountId;
use wyvern_proxy_registry::wyvern_proxy_registry::WyvernProxyRegistry;
use wyvern_proxy_registry::wyvern_token_transfer_proxy::{Error, WyvernTokenTransferProxy};

fn le8(v: u64) -> Vec<u8> {
    v.to_le_bytes().to_vec()
}

fn le16(v: u128) -> Vec<u8> {
    v.to_le_bytes().to_vec()
}

#[test]
fn transfer_from_requires_authentication() {
    let owner = AccountId(1);
    let operator = AccountId(5);
    let stranger = AccountId(6);
    let registry_id = AccountId(2);
    let mut reg = WyvernProxyRegistry::new(owner);
    reg.grant_initial_authentication(owner, operator).unwrap();
    let mut tp = WyvernTokenTransferProxy::new(registry_id);
    assert_eq!(tp.registry, registry_id);

    let d = tp
        .transfer_from(&reg, operator, AccountId(12), AccountId(7), AccountId(8), 300, true)
        .unwrap();
    assert_eq!(d.target, AccountId(12));
    assert_eq!(d.selector, [0x0b, 0x39, 0x6f, 0x18]);
    let mut expected = le8(7);
    expected.extend(le8(8));
    expected.extend(le16(300));
    assert_eq!(d.payload, expected);
    assert_eq!(d.value, 0);

    assert_eq!(
        tp.transfer_from(&reg, stranger, AccountId(12), AccountId(7), AccountId(8), 300, true),
        Err(Error::TransactionFailed)
    );
}

#[test]
fn transfer_from_aborts_on_failed_transfer() {
    let owner = AccountId(1);
    let operator = AccountId(5);
    let mut reg = WyvernProxyRegistry::new(owner);
    reg.grant_initial_authentication(owner, operator).unwrap();
    let mut tp = WyvernTokenTransferProxy::new(AccountId(2));
    assert_eq!(
        tp.transfer_from(&reg, operator, AccountId(12), AccountId(7), AccountId(8), 300, false),
        Err(Error::TransactionFailed)
    );
}

#[test]
fn transfer_from_honours_revocation() {
    let owner = AccountId(1);
    let operator = AccountId(5);
    let mut reg = WyvernProxyRegistry::new(owner);
    reg.grant_initial_authentication(owner, operator).unwrap();
    reg.revoke_authentication(owner, operator).unwrap();
    let mut tp = WyvernTokenTransferProxy::new(AccountId(2));
    assert_eq!(
        tp.transfer_from(&reg, operator, AccountId(12), AccountId(7), AccountId(8), 300, true),
        Err(Error::TransactionFailed)
    );
}
