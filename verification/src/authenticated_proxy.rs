//! The per-user authenticated proxy: an execution agent bound to exactly
//! one user, driven either by the user directly or — while the user has
//! not revoked access — by an operator contract approved in the
//! authorization registry.

use vstd::prelude::*;

use crate::call::{transfer_from_selector, CallDescriptor, HowToCall};
use crate::codec::{account_bytes, balance_bytes, encode_account, encode_balance};
use crate::identity::{AccountId, Balance, CodeHash};
use crate::wyvern_proxy_registry::WyvernProxyRegistry;

verus! {

/// Errors that can occur upon calling this contract.
#[derive(Clone, Copy, PartialEq, Eq, Structural, Debug)]
pub enum Error {
    /// Returned if the call failed.
    TransactionFailed,
}

/// Record emitted when the proxy receives native value.
#[derive(Clone, Copy, PartialEq, Eq, Structural, Debug)]
pub struct ReceivedEther {
    pub sender: AccountId,
    pub amount: Balance,
}

/// Record emitted when the proxy pulls approved tokens into its control.
pub struct ReceivedTokens {
    pub from: AccountId,
    pub value: Balance,
    pub token: AccountId,
    pub extra_data: Vec<u8>,
}

/// Record emitted when the proxy's registry access is revoked or restored.
#[derive(Clone, Copy, PartialEq, Eq, Structural, Debug)]
pub struct Revoked {
    pub revoked: bool,
}

/// The proxy's persisted state.
pub struct AuthenticatedProxy {
    /// Current implementation code, kept for the upgradeability interface.
    pub _implementation: CodeHash,
    /// Owner of the upgradeability interface.
    pub _upgradeability_owner: AccountId,
    /// Whether the one-shot initialization has happened.
    pub initialized: bool,
    /// The user on whose behalf this proxy acts.
    pub user: AccountId,
    /// The registry holding the operator authentication state.
    pub registry: AccountId,
    /// Whether the user has revoked registry-granted access.
    pub revoked: bool,
}

impl AuthenticatedProxy {
    /// The admission rule for delegated execution: the user may always
    /// act; an approved operator may act only while access is not revoked.
    pub open spec fn proxy_allowed(
        self,
        registry: WyvernProxyRegistry,
        caller: AccountId,
    ) -> bool {
        caller == self.user || (!self.revoked && registry.approved(caller))
    }

    /// Deploy an uninitialized proxy.
    pub fn new() -> (r: Self)
        ensures
            !r.initialized,
            !r.revoked,
            r.user.0 == 0,
            r.registry.0 == 0,
            r._implementation.0 == 0,
            r._upgradeability_owner.0 == 0,
    {
        AuthenticatedProxy {
            _implementation: CodeHash::default(),
            _upgradeability_owner: AccountId::default(),
            initialized: false,
            user: AccountId::default(),
            registry: AccountId::default(),
            revoked: false,
        }
    }

    /// Bind the proxy to its user and registry.  Succeeds exactly once:
    /// a second initialization is refused and changes nothing.
    pub fn initialize(&mut self, addr_user: AccountId, addr_registry: AccountId) -> (r: Result<
        (),
        Error,
    >)
        ensures
            r is Ok <==> !old(self).initialized,
            r is Ok ==> *final(self) == (AuthenticatedProxy {
                initialized: true,
                user: addr_user,
                registry: addr_registry,
                ..*old(self)
            }),
            r is Err ==> *final(self) == *old(self),
    {
        if self.initialized {
            return Err(Error::TransactionFailed);
        }
        self.initialized = true;
        self.user = addr_user;
        self.registry = addr_registry;
        Ok(())
    }

    /// Set the revoked flag; only the user may do so.  The record to emit
    /// is returned on success.
    pub fn set_revoke(&mut self, caller: AccountId, revoke: bool) -> (r: Result<Revoked, Error>)
        ensures
            r is Ok <==> caller == old(self).user,
            r is Ok ==> *final(self) == (AuthenticatedProxy { revoked: revoke, ..*old(self) }),
            r matches Ok(ev) ==> ev.revoked == revoke,
            r is Err ==> *final(self) == *old(self),
    {
        if caller != self.user {
            return Err(Error::TransactionFailed);
        }
        self.revoked = revoke;
        Ok(Revoked { revoked: revoke })
    }

    /// Execute a message call from the proxy contract.  Permitted for the
    /// user, or for a registry-approved operator while access is not
    /// revoked; every other caller aborts.  On success the descriptor for
    /// the environment to perform is returned together with the nested
    /// call's outcome `call_ok`, which does not abort this operation.
    pub fn proxy(
        &self,
        registry: &WyvernProxyRegistry,
        caller: AccountId,
        dest: AccountId,
        how_to_call: HowToCall,
        calldata: Vec<u8>,
        call_ok: bool,
    ) -> (r: Result<(bool, CallDescriptor), Error>)
        ensures
            r is Ok <==> self.proxy_allowed(*registry, caller) && calldata@.len() >= 4,
            r matches Ok((succeeded, d)) ==> {
                &&& succeeded == call_ok
                &&& d.target == dest
                &&& d.kind == how_to_call
                &&& d.selector@ == calldata@.take(4)
                &&& d.payload@ == calldata@.skip(4)
                &&& d.value == 0
            },
    {
        let allowed = caller == self.user || (!self.revoked && registry.contracts_contains(caller));
        if !allowed {
            return Err(Error::TransactionFailed);
        }
        match CallDescriptor::from_calldata(dest, how_to_call, 0, &calldata) {
            Some(d) => Ok((call_ok, d)),
            None => Err(Error::TransactionFailed),
        }
    }

    /// Execute a message call and require its success: same admission rule as
    /// `proxy`, but a failed nested call aborts the whole operation.
    pub fn proxy_assert(
        &self,
        registry: &WyvernProxyRegistry,
        caller: AccountId,
        dest: AccountId,
        how_to_call: HowToCall,
        calldata: Vec<u8>,
        call_ok: bool,
    ) -> (r: Result<CallDescriptor, Error>)
        ensures
            r is Ok <==> self.proxy_allowed(*registry, caller) && calldata@.len() >= 4 && call_ok,
            r matches Ok(d) ==> {
                &&& d.target == dest
                &&& d.kind == how_to_call
                &&& d.selector@ == calldata@.take(4)
                &&& d.payload@ == calldata@.skip(4)
                &&& d.value == 0
            },
    {
        match self.proxy(registry, caller, dest, how_to_call, calldata, call_ok) {
            Ok((succeeded, d)) => {
                if !succeeded {
                    return Err(Error::TransactionFailed);
                }
                Ok(d)
            },
            Err(e) => Err(e),
        }
    }

    /// Receive an approved-token notification: immediately pull the
    /// approved amount into the proxy's control (named by `self_id`) via a
    /// nested `transfer_from` call, aborting unless that call succeeded,
    /// then return the record to emit.
    pub fn receive_approval(
        &self,
        self_id: AccountId,
        from: AccountId,
        value: Balance,
        token: AccountId,
        extra_data: Vec<u8>,
        call_ok: bool,
    ) -> (r: Result<(CallDescriptor, ReceivedTokens), Error>)
        ensures
            r is Ok <==> call_ok,
            r matches Ok((d, ev)) ==> {
                &&& d.target == token
                &&& d.kind == HowToCall::Call
                &&& d.selector@ == seq![0x0bu8, 0x39u8, 0x6fu8, 0x18u8]
                &&& d.payload@ == account_bytes(from) + account_bytes(self_id) + balance_bytes(
                    value,
                )
                &&& d.value == 0
                &&& ev.from == from
                &&& ev.value == value
                &&& ev.token == token
                &&& ev.extra_data@ == extra_data@
            },
    {
        let mut payload: Vec<u8> = Vec::new();
        encode_account(from, &mut payload);
        encode_account(self_id, &mut payload);
        encode_balance(value, &mut payload);
        let descriptor = CallDescriptor {
            target: token,
            kind: HowToCall::Call,
            selector: transfer_from_selector(),
            payload,
            value: 0,
        };
        if !call_ok {
            return Err(Error::TransactionFailed);
        }
        Ok((descriptor, ReceivedTokens { from, value, token, extra_data }))
    }

    /// Accept a payment of exactly ten units of native value, returning
    /// the record to emit; any other amount aborts.
    pub fn was_it_ten(&self, caller: AccountId, transferred_value: Balance) -> (r: Result<
        ReceivedEther,
        Error,
    >)
        ensures
            r is Ok <==> transferred_value == 10,
            r matches Ok(ev) ==> ev == (ReceivedEther { sender: caller, amount: transferred_value }),
    {
        if transferred_value != 10 {
            return Err(Error::TransactionFailed);
        }
        Ok(ReceivedEther { sender: caller, amount: transferred_value })
    }

    /// The owner of the upgradeability interface.
    pub fn upgradeability_owner(&self) -> (r: AccountId)
        ensures
            r == self._upgradeability_owner,
    {
        self._upgradeability_owner
    }

    /// Set the owner of the upgradeability interface.
    pub fn set_upgradeability_owner(&mut self, new_upgradeability_owner: AccountId)
        ensures
            *final(self) == (AuthenticatedProxy {
                _upgradeability_owner: new_upgradeability_owner,
                ..*old(self)
            }),
    {
        self._upgradeability_owner = new_upgradeability_owner;
    }

    /// The current implementation code.
    pub fn implementation(&self) -> (r: CodeHash)
        ensures
            r == self._implementation,
    {
        self._implementation
    }

    /// The proxy type tag: `2` for a forwarding proxy.
    pub fn proxy_type(&self) -> (r: u32)
        ensures
            r == 2,
    {
        2
    }
}

/// Law: revocation takes effect with no delay.  After the registry owner
/// revokes an operator's authentication, a `proxy` call gated on that
/// operator's approval is refused — whatever the proxy's revoked flag —
/// unless the operator happens to be the proxy's own user.
pub proof fn lemma_revocation_immediate(
    pre: WyvernProxyRegistry,
    caller: AccountId,
    addr: AccountId,
    post: WyvernProxyRegistry,
    p: AuthenticatedProxy,
)
    requires
        WyvernProxyRegistry::revoke_rel(pre, caller, addr, post),
        caller == pre._owner,
        addr != p.user,
    ensures
        !p.proxy_allowed(post, addr),
{
}

} // verus!
