//! The upgradeable forwarding proxy: a generic shell whose implementation
//! code is replaceable by its owner while its own persisted state
//! survives, and whose catch-all entry forwards any unrecognized call to
//! the current implementation by a tail-positioned delegated call.

use vstd::prelude::*;

use crate::call::{CallDescriptor, HowToCall, TailForward};
use crate::identity::{AccountId, Balance, CodeHash};

verus! {

/// Errors that can occur upon calling this contract.
#[derive(Clone, Copy, PartialEq, Eq, Structural, Debug)]
pub enum Error {
    /// Returned if the call failed.
    TransactionFailed,
}

/// Record emitted when the proxy's ownership changes hands.
#[derive(Clone, Copy, PartialEq, Eq, Structural, Debug)]
pub struct ProxyOwnershipTransferred {
    pub previous_owner: AccountId,
    pub new_owner: AccountId,
}

/// Record emitted every time the implementation gets upgraded.
#[derive(Clone, Copy, PartialEq, Eq, Structural, Debug)]
pub struct Upgraded {
    pub implementation: CodeHash,
}

/// The proxy's own data, kept apart from everything else the contract
/// touches: these fields live in a fixed, implementation-reserved storage
/// region, disjoint from whatever region the forwarded-to code uses, so
/// that an upgrade can never clobber them.
#[derive(Clone, Copy, PartialEq, Eq, Structural, Debug)]
pub struct ProxyFields {
    /// The code any call that matches no selector of this contract is
    /// delegated to.
    pub _implementation: CodeHash,
    /// The privileged account that can replace the implementation.
    pub _upgradeability_owner: AccountId,
}

/// The forwarding proxy's persisted state.
#[derive(Clone, Copy, PartialEq, Eq, Structural, Debug)]
pub struct OwnableDelegateProxy {
    pub proxy: ProxyFields,
}

impl OwnableDelegateProxy {
    /// The transition of `upgrade_to`: owner-gated, and a no-op upgrade —
    /// new code equal to the current code — always aborts.
    pub open spec fn upgrade_rel(
        pre: Self,
        caller: AccountId,
        implementation: CodeHash,
        post: Self,
    ) -> bool {
        let ok = caller == pre.proxy._upgradeability_owner && implementation
            != pre.proxy._implementation;
        if ok {
            post == (OwnableDelegateProxy {
                proxy: ProxyFields {
                    _implementation: implementation,
                    _upgradeability_owner: pre.proxy._upgradeability_owner,
                },
            })
        } else {
            post == pre
        }
    }

    /// Deploy the proxy with its owner and initial implementation.
    pub fn new(_owner: AccountId, _initial_implementation: CodeHash) -> (r: Self)
        ensures
            r.proxy._upgradeability_owner == _owner,
            r.proxy._implementation == _initial_implementation,
    {
        OwnableDelegateProxy {
            proxy: ProxyFields {
                _upgradeability_owner: _owner,
                _implementation: _initial_implementation,
            },
        }
    }

    /// Change the code any unmatched call is delegated to.  Owner-gated;
    /// unlike `upgrade_to` this places no other condition on the new code.
    pub fn change_delegate_code(&mut self, caller: AccountId, new_code_hash: CodeHash) -> (r:
        Result<(), Error>)
        ensures
            r is Ok <==> caller == old(self).proxy._upgradeability_owner,
            r is Ok ==> *final(self) == (OwnableDelegateProxy {
                proxy: ProxyFields {
                    _implementation: new_code_hash,
                    _upgradeability_owner: old(self).proxy._upgradeability_owner,
                },
            }),
            r is Err ==> *final(self) == *old(self),
    {
        if caller != self.proxy._upgradeability_owner {
            return Err(Error::TransactionFailed);
        }
        self.proxy._implementation = new_code_hash;
        Ok(())
    }

    /// The catch-all entry for any invocation matching no management
    /// selector: delegate to the current implementation, forwarding all
    /// input and any attached value.  The returned descriptor is tail
    /// positioned — control never returns to this contract, and the
    /// operation's outcome is entirely the nested call's outcome.
    pub fn forward(&self, input: Vec<u8>, value: Balance) -> (t: TailForward)
        ensures
            t.code == self.proxy._implementation,
            t.input@ == input@,
            t.value == value,
    {
        TailForward { code: self.proxy._implementation, input, value }
    }

    /// Set the owner of the upgradeability interface.
    pub fn set_upgradeability_owner(&mut self, new_upgradeability_owner: AccountId)
        ensures
            *final(self) == (OwnableDelegateProxy {
                proxy: ProxyFields {
                    _implementation: old(self).proxy._implementation,
                    _upgradeability_owner: new_upgradeability_owner,
                },
            }),
    {
        self.proxy._upgradeability_owner = new_upgradeability_owner;
    }

    /// Replace the implementation, refusing a no-op upgrade, and return
    /// the record to emit.  This inner step performs no owner check.
    pub fn _upgrade_to_inner(&mut self, implementation: CodeHash) -> (r: Result<Upgraded, Error>)
        ensures
            r is Ok <==> implementation != old(self).proxy._implementation,
            r is Ok ==> *final(self) == (OwnableDelegateProxy {
                proxy: ProxyFields {
                    _implementation: implementation,
                    _upgradeability_owner: old(self).proxy._upgradeability_owner,
                },
            }),
            r matches Ok(ev) ==> ev == (Upgraded { implementation }),
            r is Err ==> *final(self) == *old(self),
    {
        if self.proxy._implementation == implementation {
            return Err(Error::TransactionFailed);
        }
        self.proxy._implementation = implementation;
        Ok(Upgraded { implementation })
    }

    /// Succeeds exactly when `caller` is the proxy owner.
    pub fn only_proxy_owner(&self, caller: AccountId) -> (r: Result<(), Error>)
        ensures
            r is Ok <==> caller == self.proxy._upgradeability_owner,
    {
        if caller != self.proxy._upgradeability_owner {
            return Err(Error::TransactionFailed);
        }
        Ok(())
    }

    /// The owner of the upgradeability interface.
    pub fn upgradeability_owner(&self) -> (r: AccountId)
        ensures
            r == self.proxy._upgradeability_owner,
    {
        self.proxy._upgradeability_owner
    }

    /// The current implementation code.
    pub fn implementation(&self) -> (r: CodeHash)
        ensures
            r == self.proxy._implementation,
    {
        self.proxy._implementation
    }

    /// The proxy type tag: `2` for a forwarding proxy.
    pub fn proxy_type(&self) -> (r: u32)
        ensures
            r == 2,
    {
        2
    }

    /// The proxy owner — the owner of the upgradeability interface.
    pub fn proxy_owner(&self) -> (r: AccountId)
        ensures
            r == self.proxy._upgradeability_owner,
    {
        self.upgradeability_owner()
    }

    /// Transfer control of the proxy to a new owner.  Owner-gated; the
    /// zero identity is rejected.  The record to emit is returned.
    pub fn transfer_proxy_ownership(&mut self, caller: AccountId, new_owner: AccountId) -> (r:
        Result<ProxyOwnershipTransferred, Error>)
        ensures
            r is Ok <==> caller == old(self).proxy._upgradeability_owner && !new_owner.is_zero(),
            r is Ok ==> *final(self) == (OwnableDelegateProxy {
                proxy: ProxyFields {
                    _implementation: old(self).proxy._implementation,
                    _upgradeability_owner: new_owner,
                },
            }),
            r matches Ok(ev) ==> ev == (ProxyOwnershipTransferred {
                previous_owner: old(self).proxy._upgradeability_owner,
                new_owner,
            }),
            r is Err ==> *final(self) == *old(self),
    {
        if self.only_proxy_owner(caller).is_err() {
            return Err(Error::TransactionFailed);
        }
        if new_owner.0 == 0 {
            return Err(Error::TransactionFailed);
        }
        let previous_owner = self.proxy_owner();
        self.set_upgradeability_owner(new_owner);
        Ok(ProxyOwnershipTransferred { previous_owner, new_owner })
    }

    /// Upgrade the current implementation of the proxy.  Owner-gated, and
    /// an upgrade to the current code always aborts.
    pub fn upgrade_to(&mut self, caller: AccountId, implementation: CodeHash) -> (r: Result<
        Upgraded,
        Error,
    >)
        ensures
            Self::upgrade_rel(*old(self), caller, implementation, *final(self)),
            r is Ok <==> caller == old(self).proxy._upgradeability_owner && implementation != old(
                self,
            ).proxy._implementation,
            r matches Ok(ev) ==> ev == (Upgraded { implementation }),
    {
        if self.only_proxy_owner(caller).is_err() {
            return Err(Error::TransactionFailed);
        }
        self._upgrade_to_inner(implementation)
    }

    /// Upgrade the implementation and immediately self-invoke (the proxy's
    /// own account is `self_id`) with the given calldata, as one atomic
    /// operation: if the nested initialization call fails — or the
    /// calldata holds no selector — the upgrade is rolled back and nothing
    /// changes.
    pub fn upgrade_to_and_call(
        &mut self,
        caller: AccountId,
        self_id: AccountId,
        implementation: CodeHash,
        data: Vec<u8>,
        call_ok: bool,
    ) -> (r: Result<(Upgraded, CallDescriptor), Error>)
        ensures
            r is Ok <==> caller == old(self).proxy._upgradeability_owner && implementation != old(
                self,
            ).proxy._implementation && data@.len() >= 4 && call_ok,
            r is Ok ==> *final(self) == (OwnableDelegateProxy {
                proxy: ProxyFields {
                    _implementation: implementation,
                    _upgradeability_owner: old(self).proxy._upgradeability_owner,
                },
            }),
            r matches Ok((ev, d)) ==> {
                &&& ev == (Upgraded { implementation })
                &&& d.target == self_id
                &&& d.kind == HowToCall::Call
                &&& d.selector@ == data@.take(4)
                &&& d.payload@ == data@.skip(4)
                &&& d.value == 0
            },
            r is Err ==> *final(self) == *old(self),
    {
        if self.only_proxy_owner(caller).is_err() {
            return Err(Error::TransactionFailed);
        }
        if self.proxy._implementation == implementation {
            return Err(Error::TransactionFailed);
        }
        let descriptor = match CallDescriptor::from_calldata(self_id, HowToCall::Call, 0, &data) {
            Some(d) => d,
            None => {
                return Err(Error::TransactionFailed);
            },
        };
        if !call_ok {
            return Err(Error::TransactionFailed);
        }
        self.proxy._implementation = implementation;
        Ok((Upgraded { implementation }, descriptor))
    }
}

/// Law: a no-op upgrade always aborts and leaves the proxy untouched,
/// while an owner's upgrade to different code installs exactly that code
/// as the implementation.
pub proof fn lemma_upgrade_effect(
    pre: OwnableDelegateProxy,
    caller: AccountId,
    implementation: CodeHash,
    post: OwnableDelegateProxy,
)
    requires
        OwnableDelegateProxy::upgrade_rel(pre, caller, implementation, post),
    ensures
        implementation == pre.proxy._implementation ==> post == pre,
        caller == pre.proxy._upgradeability_owner && implementation != pre.proxy._implementation
            ==> post.proxy._implementation == implementation,
{
}

} // verus!
