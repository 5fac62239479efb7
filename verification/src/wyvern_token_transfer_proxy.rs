//! The token transfer proxy: it lends the registry's operator
//! authentication table to token `transfer_from` calls, so users only
//! need to authorize this one contract for every protocol version.

use vstd::prelude::*;

use crate::call::{transfer_from_selector, CallDescriptor, HowToCall};
use crate::codec::{account_bytes, balance_bytes, encode_account, encode_balance};
use crate::identity::{AccountId, Balance};
use crate::wyvern_proxy_registry::WyvernProxyRegistry;

verus! {

/// Errors that can occur upon calling this contract.
#[derive(Clone, Copy, PartialEq, Eq, Structural, Debug)]
pub enum Error {
    /// Returned if the call failed.
    TransactionFailed,
}

/// The transfer proxy's persisted state: the identity of the
/// authentication registry it consults.
#[derive(Clone, Copy, PartialEq, Eq, Structural, Debug)]
pub struct WyvernTokenTransferProxy {
    pub registry: AccountId,
}

impl WyvernTokenTransferProxy {
    /// Deploy the transfer proxy against its authentication registry.
    pub fn new(registry: AccountId) -> (r: Self)
        ensures
            r.registry == registry,
    {
        WyvernTokenTransferProxy { registry }
    }

    /// Call the token's `transfer_from` on behalf of an authenticated
    /// operator.  The caller must be approved in the registry (whose
    /// current state, named by `self.registry`, the environment hands in),
    /// and a failed nested transfer aborts the operation.
    pub fn transfer_from(
        &mut self,
        registry: &WyvernProxyRegistry,
        caller: AccountId,
        token: AccountId,
        from: AccountId,
        to: AccountId,
        amount: Balance,
        call_ok: bool,
    ) -> (r: Result<CallDescriptor, Error>)
        ensures
            r is Ok <==> registry.approved(caller) && call_ok,
            r matches Ok(d) ==> {
                &&& d.target == token
                &&& d.kind == HowToCall::Call
                &&& d.selector@ == seq![0x0bu8, 0x39u8, 0x6fu8, 0x18u8]
                &&& d.payload@ == account_bytes(from) + account_bytes(to) + balance_bytes(amount)
                &&& d.value == 0
            },
            *final(self) == *old(self),
    {
        if !registry.contracts_contains(caller) {
            return Err(Error::TransactionFailed);
        }
        if !call_ok {
            return Err(Error::TransactionFailed);
        }
        let mut payload: Vec<u8> = Vec::new();
        encode_account(from, &mut payload);
        encode_account(to, &mut payload);
        encode_balance(amount, &mut payload);
        Ok(
            CallDescriptor {
                target: token,
                kind: HowToCall::Call,
                selector: transfer_from_selector(),
                payload,
                value: 0,
            },
        )
    }
}

} // verus!
