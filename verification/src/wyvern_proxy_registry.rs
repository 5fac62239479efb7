//! The central authorization registry: it owns the approved-operator set,
//! the time-delayed pending grant requests, and the per-user proxy
//! registrations.
//!
//! The delay between requesting and finalizing an operator approval bounds
//! a governance-capture attack: even if an attacker gains control of the
//! registry owner, affected users have the whole delay window to revoke
//! trust in their own proxy before the new operator can act.

use vstd::prelude::*;

use crate::call::{initialize_selector, CallDescriptor, HowToCall};
use crate::codec::{account_bytes, encode_account};
use crate::identity::{AccountId, Timestamp};
use crate::mapping::Mapping;

verus! {

/// The mandatory wait between `start_grant_authentication` and a successful
/// `end_grant_authentication` for the same operator.
pub const DELAY_PERIOD: Timestamp = 2;

/// Errors that can occur upon calling this contract.
#[derive(Clone, Copy, PartialEq, Eq, Structural, Debug)]
pub enum Error {
    /// Returned if the call failed.
    TransactionFailed,
}

/// Record emitted when the registry's ownership changes hands.
#[derive(Clone, Copy, PartialEq, Eq, Structural, Debug)]
pub struct OwnershipTransferred {
    pub previous_owner: AccountId,
    pub new_owner: AccountId,
}

/// The registry's persisted state.
pub struct WyvernProxyRegistry {
    /// Whether the one-shot initial authentication grant has been used.
    pub initial_address_set: bool,
    /// The registry owner; only the owner drives the grant process.
    pub _owner: AccountId,
    /// Authenticated proxies by user.
    pub proxies: Mapping<AccountId>,
    /// Operator contracts pending access, by grant-request time.
    pub pending: Mapping<Timestamp>,
    /// Operator contracts allowed to drive the registered proxies.
    pub contracts: Mapping<bool>,
}

impl WyvernProxyRegistry {
    /// Whether operator `a` is currently approved.
    pub open spec fn approved(self, a: AccountId) -> bool {
        self.contracts.spec_get(a) == Some(true)
    }

    /// The pending grant request for operator `a`, if one is open.
    pub open spec fn pending_request(self, a: AccountId) -> Option<Timestamp> {
        self.pending.spec_get(a)
    }

    /// The proxy registered for user `a`, if any.
    pub open spec fn proxy_of(self, a: AccountId) -> Option<AccountId> {
        self.proxies.spec_get(a)
    }

    /// Whether an open grant request for `a` may be finalized at time
    /// `now`: the operator is not yet approved, a request is open, and the
    /// delay period has fully elapsed (the boundary itself succeeds).
    pub open spec fn grant_ready(self, a: AccountId, now: Timestamp) -> bool {
        &&& !self.approved(a)
        &&& self.pending_request(a) matches Some(t) && now - t >= DELAY_PERIOD
    }

    /// Ownership fields unchanged between two states.
    pub open spec fn same_owner(pre: Self, post: Self) -> bool {
        post._owner == pre._owner && post.initial_address_set == pre.initial_address_set
    }

    /// Proxy registrations unchanged between two states.
    pub open spec fn same_proxies(pre: Self, post: Self) -> bool {
        forall|a: AccountId| #[trigger] post.proxy_of(a) == pre.proxy_of(a)
    }

    /// Approved-operator set unchanged between two states.
    pub open spec fn same_approved(pre: Self, post: Self) -> bool {
        forall|a: AccountId| #[trigger] post.approved(a) == pre.approved(a)
    }

    /// Pending grant requests unchanged between two states.
    pub open spec fn same_pending(pre: Self, post: Self) -> bool {
        forall|a: AccountId| #[trigger] post.pending_request(a) == pre.pending_request(a)
    }

    /// The transition of `grant_initial_authentication`: owner-only, usable
    /// exactly once, approves the operator immediately with no delay.
    pub open spec fn grant_initial_rel(
        pre: Self,
        caller: AccountId,
        auth_address: AccountId,
        post: Self,
    ) -> bool {
        let ok = caller == pre._owner && !pre.initial_address_set;
        if ok {
            &&& post._owner == pre._owner
            &&& post.initial_address_set
            &&& post.approved(auth_address)
            &&& forall|b: AccountId|
                b != auth_address ==> #[trigger] post.approved(b) == pre.approved(b)
            &&& Self::same_pending(pre, post)
            &&& Self::same_proxies(pre, post)
        } else {
            post == pre
        }
    }

    /// The transition of `start_grant_authentication`: owner-only, refused
    /// while the operator is approved or already pending, records the
    /// request time.
    pub open spec fn start_grant_rel(
        pre: Self,
        caller: AccountId,
        now: Timestamp,
        addr: AccountId,
        post: Self,
    ) -> bool {
        let ok = caller == pre._owner && !pre.approved(addr) && pre.pending_request(addr) is None;
        if ok {
            &&& Self::same_owner(pre, post)
            &&& Self::same_approved(pre, post)
            &&& Self::same_proxies(pre, post)
            &&& post.pending_request(addr) == Some(now)
            &&& forall|b: AccountId|
                b != addr ==> #[trigger] post.pending_request(b) == pre.pending_request(b)
        } else {
            post == pre
        }
    }

    /// The transition of `end_grant_authentication`: owner-only, succeeds
    /// exactly when the grant is ready, promotes the operator to approved
    /// and clears the pending request.
    pub open spec fn end_grant_rel(
        pre: Self,
        caller: AccountId,
        now: Timestamp,
        addr: AccountId,
        post: Self,
    ) -> bool {
        let ok = caller == pre._owner && pre.grant_ready(addr, now);
        if ok {
            &&& Self::same_owner(pre, post)
            &&& Self::same_proxies(pre, post)
            &&& post.approved(addr)
            &&& forall|b: AccountId| b != addr ==> #[trigger] post.approved(b) == pre.approved(b)
            &&& post.pending_request(addr) is None
            &&& forall|b: AccountId|
                b != addr ==> #[trigger] post.pending_request(b) == pre.pending_request(b)
        } else {
            post == pre
        }
    }

    /// The transition of `revoke_authentication`: owner-only, instant,
    /// clears the operator's approval and leaves its pending state alone.
    pub open spec fn revoke_rel(
        pre: Self,
        caller: AccountId,
        addr: AccountId,
        post: Self,
    ) -> bool {
        let ok = caller == pre._owner;
        if ok {
            &&& Self::same_owner(pre, post)
            &&& Self::same_pending(pre, post)
            &&& Self::same_proxies(pre, post)
            &&& !post.approved(addr)
            &&& forall|b: AccountId| b != addr ==> #[trigger] post.approved(b) == pre.approved(b)
        } else {
            post == pre
        }
    }

    /// The transition of `register_proxy`: caller-scoped, refused once a
    /// proxy is registered for the caller, records the binding.
    pub open spec fn register_rel(
        pre: Self,
        caller: AccountId,
        proxy_address: AccountId,
        post: Self,
    ) -> bool {
        let ok = pre.proxy_of(caller) is None;
        if ok {
            &&& Self::same_owner(pre, post)
            &&& Self::same_approved(pre, post)
            &&& Self::same_pending(pre, post)
            &&& post.proxy_of(caller) == Some(proxy_address)
            &&& forall|b: AccountId| b != caller ==> #[trigger] post.proxy_of(b) == pre.proxy_of(b)
        } else {
            post == pre
        }
    }

    /// The transition of `transfer_ownership`: owner-only, rejects the zero
    /// identity.
    pub open spec fn transfer_ownership_rel(
        pre: Self,
        caller: AccountId,
        new_owner: AccountId,
        post: Self,
    ) -> bool {
        let ok = caller == pre._owner && !new_owner.is_zero();
        if ok {
            &&& post._owner == new_owner
            &&& post.initial_address_set == pre.initial_address_set
            &&& Self::same_approved(pre, post)
            &&& Self::same_pending(pre, post)
            &&& Self::same_proxies(pre, post)
        } else {
            post == pre
        }
    }

    /// The transition of `renounce_ownership`: owner-only, leaves the
    /// registry with the zero owner.
    pub open spec fn renounce_ownership_rel(pre: Self, caller: AccountId, post: Self) -> bool {
        let ok = caller == pre._owner;
        if ok {
            &&& post._owner.is_zero()
            &&& post.initial_address_set == pre.initial_address_set
            &&& Self::same_approved(pre, post)
            &&& Self::same_pending(pre, post)
            &&& Self::same_proxies(pre, post)
        } else {
            post == pre
        }
    }

    /// Deploy the registry; the deployer becomes the owner.
    pub fn new(caller: AccountId) -> (r: Self)
        ensures
            r._owner == caller,
            !r.initial_address_set,
            forall|a: AccountId| !(#[trigger] r.approved(a)),
            forall|a: AccountId| #[trigger] r.pending_request(a) is None,
            forall|a: AccountId| #[trigger] r.proxy_of(a) is None,
    {
        WyvernProxyRegistry {
            initial_address_set: false,
            _owner: caller,
            proxies: Mapping::new(),
            pending: Mapping::new(),
            contracts: Mapping::new(),
        }
    }

    /// Whether `caller` is the registry owner.
    fn only_owner(&self, caller: AccountId) -> (r: bool)
        ensures
            r == (caller == self._owner),
    {
        caller == self._owner
    }

    /// Grant authentication to the initial operator contract: no delay,
    /// usable only once — afterwards the standard delayed process must be
    /// used.
    pub fn grant_initial_authentication(&mut self, caller: AccountId, auth_address: AccountId) -> (
        r: Result<(), Error>
    )
        ensures
            Self::grant_initial_rel(*old(self), caller, auth_address, *final(self)),
            r is Ok <==> caller == old(self)._owner && !old(self).initial_address_set,
    {
        if !self.only_owner(caller) {
            return Err(Error::TransactionFailed);
        }
        if self.initial_address_set {
            return Err(Error::TransactionFailed);
        }
        self.initial_address_set = true;
        self.contracts.insert(auth_address, true);
        Ok(())
    }

    /// Whether the given operator contract is currently approved.
    pub fn contracts_contains(&self, auth_address: AccountId) -> (r: bool)
        ensures
            r == self.approved(auth_address),
    {
        match self.contracts.get(auth_address) {
            Some(b) => b,
            None => false,
        }
    }

    /// The grant-request time pending for the given operator, `0` if none
    /// is open.
    pub fn pending_contains(&self, auth_address: AccountId) -> (r: Timestamp)
        ensures
            r == (match self.pending_request(auth_address) {
                Some(t) => t,
                None => 0,
            }),
    {
        match self.pending.get(auth_address) {
            Some(t) => t,
            None => 0,
        }
    }

    /// The proxy registered for the given user, the zero account if none.
    pub fn get_proxy(&self, auth_address: AccountId) -> (r: AccountId)
        ensures
            r == (match self.proxy_of(auth_address) {
                Some(p) => p,
                None => (AccountId(0)),
            }),
    {
        match self.proxies.get(auth_address) {
            Some(p) => p,
            None => AccountId::default(),
        }
    }

    /// Record an ownership change and return the record to emit.
    fn _set_owner(&mut self, new_owner: AccountId) -> (ev: OwnershipTransferred)
        ensures
            final(self)._owner == new_owner,
            final(self).initial_address_set == old(self).initial_address_set,
            final(self).proxies == old(self).proxies,
            final(self).pending == old(self).pending,
            final(self).contracts == old(self).contracts,
            ev == (OwnershipTransferred { previous_owner: old(self)._owner, new_owner }),
    {
        let old_owner = self._owner;
        self._owner = new_owner;
        OwnershipTransferred { previous_owner: old_owner, new_owner }
    }

    /// Start the delayed process that enables access for the given
    /// operator contract.  Owner-only; refused while the operator is
    /// approved or a request is already open.
    pub fn start_grant_authentication(
        &mut self,
        caller: AccountId,
        now: Timestamp,
        addr: AccountId,
    ) -> (r: Result<(), Error>)
        ensures
            Self::start_grant_rel(*old(self), caller, now, addr, *final(self)),
            r is Ok <==> caller == old(self)._owner && !old(self).approved(addr) && old(
                self,
            ).pending_request(addr) is None,
    {
        if !self.only_owner(caller) {
            return Err(Error::TransactionFailed);
        }
        if self.contracts_contains(addr) {
            return Err(Error::TransactionFailed);
        }
        let already_pending = match self.pending.get(addr) {
            Some(_) => true,
            None => false,
        };
        if already_pending {
            return Err(Error::TransactionFailed);
        }
        self.pending.insert(addr, now);
        Ok(())
    }

    /// Finalize access for the given operator contract once the delay
    /// period has passed.  Owner-only; succeeds exactly at the boundary
    /// `now - request_time == DELAY_PERIOD` and beyond.
    pub fn end_grant_authentication(
        &mut self,
        caller: AccountId,
        now: Timestamp,
        addr: AccountId,
    ) -> (r: Result<(), Error>)
        ensures
            Self::end_grant_rel(*old(self), caller, now, addr, *final(self)),
            r is Ok <==> caller == old(self)._owner && old(self).grant_ready(addr, now),
    {
        if !self.only_owner(caller) {
            return Err(Error::TransactionFailed);
        }
        if self.contracts_contains(addr) {
            return Err(Error::TransactionFailed);
        }
        let ready = match self.pending.get(addr) {
            Some(t) => now >= t && now - t >= DELAY_PERIOD,
            None => false,
        };
        if !ready {
            return Err(Error::TransactionFailed);
        }
        self.pending.remove(addr);
        self.contracts.insert(addr, true);
        Ok(())
    }

    /// Revoke access for the given operator contract, instantly.
    /// Owner-only; the operator's pending state is left untouched.
    pub fn revoke_authentication(&mut self, caller: AccountId, addr: AccountId) -> (r: Result<
        (),
        Error,
    >)
        ensures
            Self::revoke_rel(*old(self), caller, addr, *final(self)),
            r is Ok <==> caller == old(self)._owner,
    {
        if !self.only_owner(caller) {
            return Err(Error::TransactionFailed);
        }
        self.contracts.insert(addr, false);
        Ok(())
    }

    /// Register a proxy contract for the calling user.  Fails on a
    /// duplicate registration; on success the returned descriptor asks the
    /// environment to initialize the proxy, binding it to the caller and
    /// to this registry (named by `self_id`).
    pub fn register_proxy(
        &mut self,
        caller: AccountId,
        self_id: AccountId,
        ownable_delegate_proxy_address: AccountId,
    ) -> (r: Result<CallDescriptor, Error>)
        ensures
            Self::register_rel(*old(self), caller, ownable_delegate_proxy_address, *final(self)),
            r is Ok <==> old(self).proxy_of(caller) is None,
            r matches Ok(d) ==> {
                &&& d.target == ownable_delegate_proxy_address
                &&& d.kind == HowToCall::Call
                &&& d.selector@ == seq![0xf2u8, 0xf6u8, 0xdbu8, 0xa3u8]
                &&& d.payload@ == account_bytes(caller) + account_bytes(self_id)
                &&& d.value == 0
            },
    {
        let registered = match self.proxies.get(caller) {
            Some(_) => true,
            None => false,
        };
        if registered {
            return Err(Error::TransactionFailed);
        }
        self.proxies.insert(caller, ownable_delegate_proxy_address);
        let mut payload: Vec<u8> = Vec::new();
        encode_account(caller, &mut payload);
        encode_account(self_id, &mut payload);
        Ok(
            CallDescriptor {
                target: ownable_delegate_proxy_address,
                kind: HowToCall::Call,
                selector: initialize_selector(),
                payload,
                value: 0,
            },
        )
    }

    /// The current registry owner.
    pub fn owner(&self) -> (r: AccountId)
        ensures
            r == self._owner,
    {
        self._owner
    }

    /// Leave the registry without an owner.  Owner-only; afterwards no
    /// owner-gated operation can succeed any more.
    pub fn renounce_ownership(&mut self, caller: AccountId) -> (r: Result<
        OwnershipTransferred,
        Error,
    >)
        ensures
            Self::renounce_ownership_rel(*old(self), caller, *final(self)),
            r is Ok <==> caller == old(self)._owner,
            r matches Ok(ev) ==> ev == (OwnershipTransferred {
                previous_owner: old(self)._owner,
                new_owner: AccountId(0),
            }),
    {
        if !self.only_owner(caller) {
            return Err(Error::TransactionFailed);
        }
        Ok(self._set_owner(AccountId::default()))
    }

    /// Transfer registry ownership to a new account.  Owner-only; the zero
    /// identity is rejected.
    pub fn transfer_ownership(&mut self, caller: AccountId, new_owner: AccountId) -> (r: Result<
        OwnershipTransferred,
        Error,
    >)
        ensures
            Self::transfer_ownership_rel(*old(self), caller, new_owner, *final(self)),
            r is Ok <==> caller == old(self)._owner && !new_owner.is_zero(),
            r matches Ok(ev) ==> ev == (OwnershipTransferred {
                previous_owner: old(self)._owner,
                new_owner,
            }),
    {
        if !self.only_owner(caller) {
            return Err(Error::TransactionFailed);
        }
        if new_owner.0 == 0 {
            return Err(Error::TransactionFailed);
        }
        Ok(self._set_owner(new_owner))
    }
}

/// One registry operation together with its environment-supplied inputs,
/// for stating laws that range over every operation.
pub enum RegistryOp {
    GrantInitialAuthentication { caller: AccountId, auth_address: AccountId },
    StartGrantAuthentication { caller: AccountId, now: Timestamp, addr: AccountId },
    EndGrantAuthentication { caller: AccountId, now: Timestamp, addr: AccountId },
    RevokeAuthentication { caller: AccountId, addr: AccountId },
    RegisterProxy { caller: AccountId, proxy_address: AccountId },
    TransferOwnership { caller: AccountId, new_owner: AccountId },
    RenounceOwnership { caller: AccountId },
}

/// Whether `post` is the state the registry reaches from `pre` under the
/// operation `op` — whether the operation succeeds or aborts.
pub open spec fn registry_step(pre: WyvernProxyRegistry, op: RegistryOp, post: WyvernProxyRegistry) -> bool {
    match op {
        RegistryOp::GrantInitialAuthentication { caller, auth_address } =>
            WyvernProxyRegistry::grant_initial_rel(pre, caller, auth_address, post),
        RegistryOp::StartGrantAuthentication { caller, now, addr } =>
            WyvernProxyRegistry::start_grant_rel(pre, caller, now, addr, post),
        RegistryOp::EndGrantAuthentication { caller, now, addr } =>
            WyvernProxyRegistry::end_grant_rel(pre, caller, now, addr, post),
        RegistryOp::RevokeAuthentication { caller, addr } =>
            WyvernProxyRegistry::revoke_rel(pre, caller, addr, post),
        RegistryOp::RegisterProxy { caller, proxy_address } =>
            WyvernProxyRegistry::register_rel(pre, caller, proxy_address, post),
        RegistryOp::TransferOwnership { caller, new_owner } =>
            WyvernProxyRegistry::transfer_ownership_rel(pre, caller, new_owner, post),
        RegistryOp::RenounceOwnership { caller } =>
            WyvernProxyRegistry::renounce_ownership_rel(pre, caller, post),
    }
}

/// No operator is at once approved and pending: promotion and revocation
/// keep the two states apart.
pub open spec fn pending_approved_exclusive(s: WyvernProxyRegistry) -> bool {
    forall|a: AccountId| #[trigger] s.approved(a) ==> s.pending_request(a) is None
}

/// Law: every registry operation preserves the exclusivity of the
/// approved and pending states, provided the one-shot bootstrap grant is
/// not aimed at an operator that already has an open request — the only
/// operation that skips the pending bookkeeping.
pub proof fn lemma_pending_approved_exclusive(
    pre: WyvernProxyRegistry,
    op: RegistryOp,
    post: WyvernProxyRegistry,
)
    requires
        registry_step(pre, op, post),
        pending_approved_exclusive(pre),
        op matches RegistryOp::GrantInitialAuthentication { auth_address, .. } ==> pre
            .pending_request(auth_address) is None,
    ensures
        pending_approved_exclusive(post),
{
    match op {
        RegistryOp::GrantInitialAuthentication { auth_address, .. } => {
            assert forall|a: AccountId| #[trigger] post.approved(a) implies post.pending_request(
                a,
            ) is None by {
                if a != auth_address {
                    assert(pre.approved(a) == post.approved(a));
                }
            }
        },
        RegistryOp::StartGrantAuthentication { .. } => {
            assert forall|a: AccountId| #[trigger] post.approved(a) implies post.pending_request(
                a,
            ) is None by {
                assert(pre.approved(a) == post.approved(a));
            }
        },
        RegistryOp::EndGrantAuthentication { addr, .. } => {
            assert forall|a: AccountId| #[trigger] post.approved(a) implies post.pending_request(
                a,
            ) is None by {
                if a != addr {
                    assert(pre.approved(a) == post.approved(a));
                }
            }
        },
        RegistryOp::RevokeAuthentication { addr, .. } => {
            assert forall|a: AccountId| #[trigger] post.approved(a) implies post.pending_request(
                a,
            ) is None by {
                if a != addr {
                    assert(pre.approved(a) == post.approved(a));
                }
            }
        },
        RegistryOp::RegisterProxy { .. } => {},
        RegistryOp::TransferOwnership { .. } => {},
        RegistryOp::RenounceOwnership { .. } => {},
    }
}

/// Law: once a user's proxy registration is set, no registry operation —
/// successful or not — ever changes or clears it.
pub proof fn lemma_proxy_binding_stable(
    pre: WyvernProxyRegistry,
    op: RegistryOp,
    post: WyvernProxyRegistry,
    p: AccountId,
)
    requires
        registry_step(pre, op, post),
        pre.proxy_of(p) is Some,
    ensures
        post.proxy_of(p) == pre.proxy_of(p),
{
    match op {
        RegistryOp::RegisterProxy { caller, proxy_address } => {
            if pre.proxy_of(caller) is None {
                assert(caller != p);
            }
        },
        _ => {},
    }
}

} // verus!
