use vstd::prelude::*;
use crate::host::Coin;
use crate::registry::{ContractCode, Instance};

verus! {

/// Caller-defined extra metadata stored alongside each instance record.
///
/// The registry keeps the stored value and the query surface hands out
/// copies, so an implementation must be able to produce an exact copy of
/// itself.
pub trait ExtraData: Sized {
    /// An exact copy of the metadata.
    fn clone_extra(&self) -> (r: Self)
        ensures
            r == *self,
    ;
}

/// The default extra metadata: none.
#[derive(Clone, Copy, Debug, PartialEq, Eq, Structural)]
pub struct Empty {}

impl ExtraData for Empty {
    fn clone_extra(&self) -> (r: Self)
        ensures
            r == *self,
    {
        Empty {  }
    }
}

impl ExtraData for String {
    fn clone_extra(&self) -> (r: Self)
        ensures
            r == *self,
    {
        self.clone()
    }
}

/// The initialization message: the optional admin (defaulting to the
/// instantiating caller) and the first child template.
#[derive(Debug)]
pub struct InstantiateMsg {
    pub admin: Option<String>,
    pub code: ContractCode,
}

/// What a caller supplies for one creation: the message forwarded to the
/// child being instantiated, and the funds attached to it.
#[derive(Debug)]
pub struct InstanceConfig<MSG> {
    pub msg: MSG,
    pub funds: Vec<Coin>,
}

/// Operations on the access-control gate.
#[derive(Debug)]
pub enum AdminExecuteMsg {
    /// Transfer ownership to another identity.
    ChangeAdmin { address: String },
}

/// Operations on the operational gate.
#[derive(Debug)]
pub enum KillswitchExecuteMsg {
    /// Suspend (`false`) or resume (`true`) non-administrative operations.
    SetStatus { operational: bool },
}

/// Every state-mutating entry point of the module.
#[derive(Debug)]
pub enum ExecuteMsg<MSG> {
    CreateInstance(InstanceConfig<MSG>),
    ChangeContractCode(ContractCode),
    Admin(AdminExecuteMsg),
    Killswitch(KillswitchExecuteMsg),
}

/// Queries on the access-control gate.
#[derive(Debug)]
pub enum AdminQueryMsg {
    Admin {},
}

/// Queries on the operational gate.
#[derive(Debug)]
pub enum KillswitchQueryMsg {
    Status {},
}

/// Every read-only entry point of the module.
#[derive(Debug)]
pub enum QueryMsg {
    ListInstances { pagination: Pagination },
    InstanceByAddr { addr: String },
    Admin(AdminQueryMsg),
    Killswitch(KillswitchQueryMsg),
}

/// A pagination cursor: skip `start` records, then yield at most `limit`
/// (clamped to `Pagination::MAX_LIMIT`).
#[derive(Clone, Copy, Debug, PartialEq, Eq, Structural)]
pub struct Pagination {
    pub start: u64,
    pub limit: u8,
}

impl Pagination {
    /// The largest page a single query will return.
    pub const MAX_LIMIT: u8 = 30;

    pub fn new(start: u64, limit: u8) -> (r: Self)
        ensures
            r == (Pagination { start, limit }),
    {
        Pagination { start, limit }
    }
}

/// One page of query results, together with the total number of records.
#[derive(Debug)]
pub struct PaginatedResponse<T> {
    pub entries: Vec<T>,
    pub total: u64,
}

/// What a spawned child reports back through the host: its own address and
/// the extra metadata destined for its registry record.
#[derive(Debug)]
pub struct InstantiateReplyData<EXTRA> {
    pub(crate) address: String,
    pub(crate) extra: EXTRA,
}

impl<EXTRA> InstantiateReplyData<EXTRA> {
    /// The reported address, as a character sequence.
    pub closed spec fn addr_view(self) -> Seq<char> {
        self.address@
    }

    /// The reported extra metadata.
    pub closed spec fn extra_val(self) -> EXTRA {
        self.extra
    }

    /// The two projections are exactly the two fields.
    pub(crate) proof fn lemma_parts(self)
        ensures
            self.addr_view() == self.address@,
            self.extra_val() == self.extra,
    {
    }

    pub fn with_extra(address: String, extra: EXTRA) -> (r: Self)
        ensures
            r.addr_view() == address@,
            r.extra_val() == extra,
    {
        InstantiateReplyData { address, extra }
    }
}

impl InstantiateReplyData<Empty> {
    pub fn new(address: String) -> (r: Self)
        ensures
            r.addr_view() == address@,
            r.extra_val() == (Empty {  }),
    {
        InstantiateReplyData { address, extra: Empty {  } }
    }
}

/// The decode attempt on a continuation's payload bytes. The wire format
/// belongs to the host; the module only sees whether the bytes matched the
/// expected shape.
#[derive(Debug)]
pub enum ReplyPayload<EXTRA> {
    /// The payload decoded to the expected shape.
    Data(InstantiateReplyData<EXTRA>),
    /// The payload did not match the expected shape.
    Malformed,
}

/// A successful continuation: the spawned child's response, carrying an
/// optional payload.
#[derive(Debug)]
pub struct SubMsgResponse<EXTRA> {
    pub data: Option<ReplyPayload<EXTRA>>,
}

/// The outcome a continuation reports for a spawn request.
#[derive(Debug)]
pub enum SubMsgResult<EXTRA> {
    /// The child was instantiated; its response is attached.
    Success(SubMsgResponse<EXTRA>),
    /// The spawn failed; the host's diagnostic is attached.
    Failure(String),
}

/// The continuation the host delivers after a spawn request: the
/// correlation token it was tagged with, and the spawn's outcome.
#[derive(Debug)]
pub struct Reply<EXTRA> {
    pub id: u64,
    pub result: SubMsgResult<EXTRA>,
}

/// The structured answer to a query, serialized by the host boundary.
#[derive(Debug)]
pub enum QueryAnswer<EXTRA> {
    Instances(PaginatedResponse<Instance<String, EXTRA>>),
    Instance(Option<Instance<String, EXTRA>>),
    Admin(String),
    Status(bool),
}

} // verus!
