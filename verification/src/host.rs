use vstd::prelude::*;

verus! {

/// The correlation token carried by every spawn request this module issues.
/// All creations share this one well-known value: the host delivers at most
/// one outstanding continuation per invocation, so the token only has to
/// distinguish this module's spawns from anything else.
pub const REPLY_ID: u64 = 78024480;

/// The fixed key under which a successful registration attaches the new
/// instance's human-readable address to the invocation's output.
pub const INSTANCE_ADDR_ATTR: &'static str = "fadroma_instance_address";

/// A quantity of some token denomination, forwarded untouched to the
/// spawned child.
#[derive(Debug)]
pub struct Coin {
    pub denom: String,
    pub amount: u128,
}

/// What the factory reads from the host's invocation environment: the
/// current block time, in seconds. It is embedded in spawn labels, which
/// the host requires to be unique.
#[derive(Clone, Copy, Debug)]
pub struct Env {
    pub block_time: u64,
}

/// Who invoked the module, and with which attached funds.
#[derive(Debug)]
pub struct MessageInfo {
    pub sender: String,
    pub funds: Vec<Coin>,
}

/// A plaintext key/value pair attached to an invocation's output, visible
/// to off-chain observers.
#[derive(Debug)]
pub struct Attribute {
    pub key: String,
    pub value: String,
}

/// An asynchronous request to the host to create one new child instance
/// from the given code, and to deliver a continuation tagged `reply_id`
/// once the child has reported back.
#[derive(Debug)]
pub struct SpawnRequest<MSG> {
    pub code_id: u64,
    pub code_hash: String,
    pub msg: MSG,
    pub funds: Vec<Coin>,
    pub label: String,
    pub reply_id: u64,
}

/// What an invocation hands back to the host: spawn requests to perform
/// after the invocation commits, and observable output attributes.
#[derive(Debug)]
pub struct Response<MSG> {
    pub messages: Vec<SpawnRequest<MSG>>,
    pub attributes: Vec<Attribute>,
}

impl<MSG> Response<MSG> {
    /// No side effects beyond the state the invocation already wrote.
    pub open spec fn is_empty(self) -> bool {
        self.messages@.len() == 0 && self.attributes@.len() == 0
    }

    /// A response with no spawn requests and no attributes.
    pub fn empty() -> (r: Response<MSG>)
        ensures
            r.is_empty(),
    {
        Response { messages: Vec::new(), attributes: Vec::new() }
    }
}

} // verus!
