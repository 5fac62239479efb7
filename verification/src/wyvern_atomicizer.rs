//! The batch atomicizer: it fires a same-shaped call against a list of
//! independent targets as one logical operation.  Legs run strictly in
//! input order; a length mismatch between the input lists is a hard abort
//! before any leg runs.  This is the fire-and-continue policy: every leg
//! runs whatever the earlier legs' outcomes, one execution record reports
//! each leg's outcome, and the wrapper reports success even when
//! individual legs failed.

use vstd::prelude::*;

use crate::call::{CallDescriptor, HowToCall};
use crate::codec::{account_bytes, balance_bytes, encode_account, encode_balance};
use crate::identity::{AccountId, Balance};

verus! {

/// Errors that can occur upon calling this contract.
#[derive(Clone, Copy, PartialEq, Eq, Structural, Debug)]
pub enum Error {
    /// Returned if the call failed.
    TransactionFailed,
}

/// Record emitted once after all legs of a batch have run.
#[derive(Clone, Copy, Debug)]
pub struct Confirmation {
    /// The selector the batch was fired against.
    pub selector: [u8; 4],
    pub from: AccountId,
    pub to: AccountId,
}

/// Record emitted for one executed leg.  `result` is `Err` when the leg
/// failed; on success it holds the leg's raw return payload when the
/// batch was run through `eval_atomicize`, and `None` otherwise.
#[derive(PartialEq, Eq, Debug)]
pub struct Execution {
    pub callee: AccountId,
    pub value: Balance,
    pub result: Result<Option<Vec<u8>>, Error>,
}

/// The atomicizer holds no state of its own.
pub struct WyvernAtomicizer {}

/// The encoded argument payload of one leg: the `from` and `to` accounts
/// followed by the leg's amount.
pub open spec fn leg_payload(from: AccountId, to: AccountId, value: Balance) -> Seq<u8> {
    account_bytes(from) + account_bytes(to) + balance_bytes(value)
}

impl WyvernAtomicizer {
    /// Deploy the atomicizer.
    pub fn new() -> (r: Self) {
        WyvernAtomicizer {  }
    }

    /// Fire the call named by `selector` at each callee in input order,
    /// with the matching value from `values` and the environment-reported
    /// outcome from `outcomes`.  Mismatched input lengths abort before any
    /// leg is described.  On success: the descriptors to perform, one
    /// execution record per leg, and the trailing confirmation record.
    pub fn atomicize(
        &mut self,
        selector: [u8; 4],
        callees: Vec<AccountId>,
        from: AccountId,
        to: AccountId,
        values: Vec<Balance>,
        outcomes: Vec<bool>,
    ) -> (r: Result<(Vec<CallDescriptor>, Vec<Execution>, Confirmation), Error>)
        ensures
            r is Ok <==> callees@.len() == values@.len() && callees@.len() == outcomes@.len(),
            r matches Ok((ds, evs, conf)) ==> {
                &&& ds@.len() == callees@.len()
                &&& evs@.len() == callees@.len()
                &&& forall|j: int|
                    0 <= j < callees@.len() ==> {
                        &&& (#[trigger] ds@[j]).target == callees@[j]
                        &&& ds@[j].kind == HowToCall::Call
                        &&& ds@[j].selector@ == selector@
                        &&& ds@[j].payload@ == leg_payload(from, to, values@[j])
                        &&& ds@[j].value == 0
                    }
                &&& forall|j: int|
                    0 <= j < callees@.len() ==> {
                        &&& (#[trigger] evs@[j]).callee == callees@[j]
                        &&& evs@[j].value == values@[j]
                        &&& evs@[j].result == (if outcomes@[j] {
                            Ok::<Option<Vec<u8>>, Error>(None)
                        } else {
                            Err::<Option<Vec<u8>>, Error>(Error::TransactionFailed)
                        })
                    }
                &&& conf == (Confirmation { selector, from, to })
            },
    {
        if callees.len() != values.len() || callees.len() != outcomes.len() {
            return Err(Error::TransactionFailed);
        }
        let mut descriptors: Vec<CallDescriptor> = Vec::new();
        let mut executions: Vec<Execution> = Vec::new();
        let mut i: usize = 0;
        while i < callees.len()
            invariant
                i <= callees@.len(),
                callees@.len() == values@.len(),
                callees@.len() == outcomes@.len(),
                descriptors@.len() == i,
                executions@.len() == i,
                forall|j: int|
                    0 <= j < i ==> {
                        &&& (#[trigger] descriptors@[j]).target == callees@[j]
                        &&& descriptors@[j].kind == HowToCall::Call
                        &&& descriptors@[j].selector@ == selector@
                        &&& descriptors@[j].payload@ == leg_payload(from, to, values@[j])
                        &&& descriptors@[j].value == 0
                    },
                forall|j: int|
                    0 <= j < i ==> {
                        &&& (#[trigger] executions@[j]).callee == callees@[j]
                        &&& executions@[j].value == values@[j]
                        &&& executions@[j].result == (if outcomes@[j] {
                            Ok::<Option<Vec<u8>>, Error>(None)
                        } else {
                            Err::<Option<Vec<u8>>, Error>(Error::TransactionFailed)
                        })
                    },
            decreases callees@.len() - i,
        {
            let mut payload: Vec<u8> = Vec::new();
            encode_account(from, &mut payload);
            encode_account(to, &mut payload);
            encode_balance(values[i], &mut payload);
            descriptors.push(
                CallDescriptor {
                    target: callees[i],
                    kind: HowToCall::Call,
                    selector,
                    payload,
                    value: 0,
                },
            );
            let result: Result<Option<Vec<u8>>, Error> = if outcomes[i] {
                Ok(None)
            } else {
                Err(Error::TransactionFailed)
            };
            executions.push(Execution { callee: callees[i], value: values[i], result });
            i = i + 1;
        }
        Ok((descriptors, executions, Confirmation { selector, from, to }))
    }

    /// The same leg semantics as `atomicize`, but each leg's raw return
    /// payload — `Some` bytes when the leg succeeded, `None` when it
    /// failed — is captured in its execution record.
    pub fn eval_atomicize(
        &mut self,
        selector: [u8; 4],
        callees: Vec<AccountId>,
        from: AccountId,
        to: AccountId,
        values: Vec<Balance>,
        outcomes: Vec<Option<Vec<u8>>>,
    ) -> (r: Result<(Vec<CallDescriptor>, Vec<Execution>, Confirmation), Error>)
        ensures
            r is Ok <==> callees@.len() == values@.len() && callees@.len() == outcomes@.len(),
            r matches Ok((ds, evs, conf)) ==> {
                &&& ds@.len() == callees@.len()
                &&& evs@.len() == callees@.len()
                &&& forall|j: int|
                    0 <= j < callees@.len() ==> {
                        &&& (#[trigger] ds@[j]).target == callees@[j]
                        &&& ds@[j].kind == HowToCall::Call
                        &&& ds@[j].selector@ == selector@
                        &&& ds@[j].payload@ == leg_payload(from, to, values@[j])
                        &&& ds@[j].value == 0
                    }
                &&& forall|j: int|
                    0 <= j < callees@.len() ==> {
                        &&& (#[trigger] evs@[j]).callee == callees@[j]
                        &&& evs@[j].value == values@[j]
                        &&& evs@[j].result == (match outcomes@[j] {
                            Some(out) => Ok::<Option<Vec<u8>>, Error>(Some(out)),
                            None => Err::<Option<Vec<u8>>, Error>(Error::TransactionFailed),
                        })
                    }
                &&& conf == (Confirmation { selector, from, to })
            },
    {
        if callees.len() != values.len() || callees.len() != outcomes.len() {
            return Err(Error::TransactionFailed);
        }
        let ghost all_outcomes = outcomes@;
        let mut outcomes = outcomes;
        let mut descriptors: Vec<CallDescriptor> = Vec::new();
        let mut executions: Vec<Execution> = Vec::new();
        let mut i: usize = 0;
        while i < callees.len()
            invariant
                i <= callees@.len(),
                callees@.len() == values@.len(),
                callees@.len() == all_outcomes.len(),
                outcomes@ == all_outcomes.skip(i as int),
                descriptors@.len() == i,
                executions@.len() == i,
                forall|j: int|
                    0 <= j < i ==> {
                        &&& (#[trigger] descriptors@[j]).target == callees@[j]
                        &&& descriptors@[j].kind == HowToCall::Call
                        &&& descriptors@[j].selector@ == selector@
                        &&& descriptors@[j].payload@ == leg_payload(from, to, values@[j])
                        &&& descriptors@[j].value == 0
                    },
                forall|j: int|
                    0 <= j < i ==> {
                        &&& (#[trigger] executions@[j]).callee == callees@[j]
                        &&& executions@[j].value == values@[j]
                        &&& executions@[j].result == (match all_outcomes[j] {
                            Some(out) => Ok::<Option<Vec<u8>>, Error>(Some(out)),
                            None => Err::<Option<Vec<u8>>, Error>(Error::TransactionFailed),
                        })
                    },
            decreases callees@.len() - i,
        {
            let mut payload: Vec<u8> = Vec::new();
            encode_account(from, &mut payload);
            encode_account(to, &mut payload);
            encode_balance(values[i], &mut payload);
            descriptors.push(
                CallDescriptor {
                    target: callees[i],
                    kind: HowToCall::Call,
                    selector,
                    payload,
                    value: 0,
                },
            );
            proof {
                assert(all_outcomes.skip(i as int)[0] == all_outcomes[i as int]);
            }
            let outcome = outcomes.remove(0);
            proof {
                assert(all_outcomes.skip(i as int).remove(0) =~= all_outcomes.skip(i + 1));
            }
            let result: Result<Option<Vec<u8>>, Error> = match outcome {
                Some(out) => Ok(Some(out)),
                None => Err(Error::TransactionFailed),
            };
            executions.push(Execution { callee: callees[i], value: values[i], result });
            i = i + 1;
        }
        Ok((descriptors, executions, Confirmation { selector, from, to }))
    }
}

} // verus!
