//! Descriptors for the calls a contract asks the execution environment to
//! perform on its behalf.

use vstd::prelude::*;

use crate::identity::{AccountId, Balance, CodeHash};

verus! {

/// The two nested-call disciplines.  `Call` runs the callee's logic against
/// the callee's own state with this contract as caller; `DelegateCall` runs
/// the callee's code against this contract's own storage.  The kind is
/// always an explicit tag supplied by the caller, never inferred.
#[derive(Clone, Copy, PartialEq, Eq, Structural, Debug)]
pub enum HowToCall {
    Call,
    DelegateCall,
}

/// One synchronous invocation for the environment to perform: the callee,
/// the call discipline, the 4-byte message selector, the encoded argument
/// payload, and the attached value.
#[derive(PartialEq, Eq, Debug)]
pub struct CallDescriptor {
    pub target: AccountId,
    pub kind: HowToCall,
    pub selector: [u8; 4],
    pub payload: Vec<u8>,
    pub value: Balance,
}

impl CallDescriptor {
    /// Build a descriptor from raw calldata whose first four bytes are the
    /// selector and whose remainder is the argument payload.  Calldata
    /// shorter than a selector describes no call.
    pub fn from_calldata(target: AccountId, kind: HowToCall, value: Balance, calldata: &Vec<
        u8,
    >) -> (r: Option<CallDescriptor>)
        ensures
            r is Some <==> calldata@.len() >= 4,
            r matches Some(d) ==> {
                &&& d.target == target
                &&& d.kind == kind
                &&& d.value == value
                &&& d.selector@ == calldata@.take(4)
                &&& d.payload@ == calldata@.skip(4)
            },
    {
        if calldata.len() < 4 {
            return None;
        }
        let selector: [u8; 4] = [calldata[0], calldata[1], calldata[2], calldata[3]];
        let mut payload: Vec<u8> = Vec::new();
        let mut i: usize = 4;
        while i < calldata.len()
            invariant
                4 <= i <= calldata@.len(),
                payload@ == calldata@.subrange(4, i as int),
            decreases calldata@.len() - i,
        {
            payload.push(calldata[i]);
            i = i + 1;
            proof {
                assert(payload@ =~= calldata@.subrange(4, i as int));
            }
        }
        proof {
            assert(selector@ =~= calldata@.take(4));
        }
        Some(CallDescriptor { target, kind, selector, payload, value })
    }
}

/// A tail-positioned delegated call: the named code runs against this
/// contract's storage with all input and attached value forwarded, and
/// control never returns to the forwarding contract — the operation's
/// outcome is entirely the nested call's outcome.
pub struct TailForward {
    pub code: CodeHash,
    pub input: Vec<u8>,
    pub value: Balance,
}

/// The message selector of a token's `transfer_from` entry point.
pub fn transfer_from_selector() -> (r: [u8; 4])
    ensures
        r@ == seq![0x0bu8, 0x39u8, 0x6fu8, 0x18u8],
{
    let r: [u8; 4] = [0x0b, 0x39, 0x6f, 0x18];
    proof {
        assert(r@ =~= seq![0x0bu8, 0x39u8, 0x6fu8, 0x18u8]);
    }
    r
}

/// The message selector of an authenticated proxy's `initialize` entry
/// point.
pub fn initialize_selector() -> (r: [u8; 4])
    ensures
        r@ == seq![0xf2u8, 0xf6u8, 0xdbu8, 0xa3u8],
{
    let r: [u8; 4] = [0xf2, 0xf6, 0xdb, 0xa3];
    proof {
        assert(r@ =~= seq![0xf2u8, 0xf6u8, 0xdbu8, 0xa3u8]);
    }
    r
}

} // verus!
