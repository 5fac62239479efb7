use wyvern_proxy_registry::identity::AccountId;
use wyvern_proxy_registry::wyvern_atomicizer::{Error, WyvernAtomicizer};

fn le8(v: u64) -> Vec<u8> {
    v.to_le_bytes().to_vec()
}

fn le16(v: u128) -> Vec<u8> {
    v.to_le_bytes().to_vec()
}

fn leg_payload(from: u64, to: u64, value: u128) -> Vec<u8> {
    let mut p = le8(from);
    p.extend(le8(to));
    p.extend(le16(value));
    p
}

#[test]
fn fire_and_continue_mixed_outcomes() {
    // Targets [A, B] with A succeeding and B failing: the operation
    // reports overall success, with one record per leg in input order.
    let a = AccountId(31);
    let b = AccountId(32);
    let mut at = WyvernAtomicizer::new();
    let (descriptors, executions, conf) = at
        .atomicize(
            [9, 9, 9, 9],
            vec![a, b],
            AccountId(1),
            AccountId(2),
            vec![100, 200],
            vec![true, false],
        )
        .unwrap();
    assert_eq!(descriptors.len(), 2);
    assert_eq!(descriptors[0].target, a);
    assert_eq!(descriptors[1].target, b);
    assert_eq!(descriptors[0].selector, [9, 9, 9, 9]);
    assert_eq!(descriptors[0].payload, leg_payload(1, 2, 100));
    assert_eq!(descriptors[1].payload, leg_payload(1, 2, 200));
    assert_eq!(executions.len(), 2);
    assert_eq!(executions[0].callee, a);
    assert_eq!(executions[0].value, 100);
    assert_eq!(executions[0].result, Ok(None));
    assert_eq!(executions[1].callee, b);
    assert_eq!(executions[1].value, 200);
    assert_eq!(executions[1].result, Err(Error::TransactionFailed));
    assert_eq!(conf.selector, [9, 9, 9, 9]);
    assert_eq!(conf.from, AccountId(1));
    assert_eq!(conf.to, AccountId(2));
}

#[test]
fn mismatched_lengths_abort_before_any_leg() {
    let mut at = WyvernAtomicizer::new();
    let r = at.atomicize(
        [9, 9, 9, 9],
        vec![AccountId(31), AccountId(32)],
        AccountId(1),
        AccountId(2),
        vec![100],
        vec![true, false],
    );
    assert_eq!(r.unwrap_err(), Error::TransactionFailed);
    let r2 = at.atomicize(
        [9, 9, 9, 9],
        vec![AccountId(31)],
        AccountId(1),
        AccountId(2),
        vec![100],
        vec![],
    );
    assert!(r2.is_err());
}

#[test]
fn eval_atomicize_captures_payloads() {
    let mut at = WyvernAtomicizer::new();
    let (descriptors, executions, _) = at
        .eval_atomicize(
            [9, 9, 9, 9],
            vec![AccountId(31), AccountId(32)],
            AccountId(1),
            AccountId(2),
            vec![100, 200],
            vec![Some(vec![0xee, 0xff]), None],
        )
        .unwrap();
    assert_eq!(descriptors.len(), 2);
    assert_eq!(executions[0].result, Ok(Some(vec![0xee, 0xff])));
    assert_eq!(executions[1].result, Err(Error::TransactionFailed));
}

#[test]
fn eval_atomicize_checks_lengths() {
    let mut at = WyvernAtomicizer::new();
    let r = at.eval_atomicize(
        [9, 9, 9, 9],
        vec![AccountId(31)],
        AccountId(1),
        AccountId(2),
        vec![100, 200],
        vec![None],
    );
    assert_eq!(r.unwrap_err(), Error::TransactionFailed);
}

#[test]
fn empty_batch_still_confirms() {
    let mut at = WyvernAtomicizer::new();
    let (descriptors, executions, conf) = at
        .atomicize([1, 2, 3, 4], vec![], AccountId(1), AccountId(2), vec![], vec![])
        .unwrap();
    assert!(descriptors.is_empty());
    assert!(executions.is_empty());
    assert_eq!(conf.from, AccountId(1));
}
