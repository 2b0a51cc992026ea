use core::marker::PhantomData;
use vstd::prelude::*;
use crate::addr::{valid_addr, CanonAddr};
use crate::error::Error;
use crate::host::{Attribute, Env, MessageInfo, Response, SpawnRequest, INSTANCE_ADDR_ATTR, REPLY_ID};
use crate::label::{creation_label, spec_label};
use crate::msg::{
    AdminExecuteMsg, AdminQueryMsg, ExecuteMsg, ExtraData, InstanceConfig, InstantiateMsg,
    InstantiateReplyData, KillswitchExecuteMsg, KillswitchQueryMsg, PaginatedResponse, Pagination,
    QueryAnswer, QueryMsg, Reply, ReplyPayload, SubMsgResponse, SubMsgResult,
};
use crate::registry::{
    has_key, lookup, ContractCode, ContractLink, Instance, InstanceRegistry,
};

verus! {

/// The abstract content of the configuration store: which child program
/// future spawns will instantiate.
pub struct TemplateView {
    pub id: u64,
    pub code_hash: Seq<char>,
}

/// The abstract content of one instance record: the child's canonical
/// identity, the content hash recorded for it, and the caller-supplied
/// extra metadata.
pub struct InstanceView<EXTRA> {
    pub address: Seq<char>,
    pub code_hash: Seq<char>,
    pub extra: EXTRA,
}

/// The abstract state of the whole module: the access and operational
/// gates, the configuration store, and the instance registry in
/// registration order.
pub struct FactoryView<EXTRA> {
    pub admin: Seq<char>,
    pub auth: bool,
    pub operational: bool,
    pub template: Option<TemplateView>,
    pub instances: Seq<InstanceView<EXTRA>>,
}

/// The abstraction of one stored record.
pub open spec fn inst_view<EXTRA>(inst: Instance<CanonAddr, EXTRA>) -> InstanceView<EXTRA> {
    InstanceView {
        address: inst.contract.address@,
        code_hash: inst.contract.code_hash@,
        extra: inst.extra,
    }
}

/// The abstraction of the registry's contents, in registration order.
pub open spec fn views_of<EXTRA>(s: Seq<Instance<CanonAddr, EXTRA>>) -> Seq<InstanceView<EXTRA>> {
    s.map_values(|inst: Instance<CanonAddr, EXTRA>| inst_view(inst))
}

/// Some record in `s` is keyed by canonical identity `a`.
pub open spec fn view_has_addr<EXTRA>(s: Seq<InstanceView<EXTRA>>, a: Seq<char>) -> bool {
    exists|i: int| 0 <= i < s.len() && s[i].address == a
}

/// The first record in `s` keyed by canonical identity `a`, if any.
pub open spec fn view_lookup<EXTRA>(
    s: Seq<InstanceView<EXTRA>>,
    a: Seq<char>,
) -> Option<InstanceView<EXTRA>>
    decreases s.len(),
{
    if s.len() == 0 {
        None
    } else if s[0].address == a {
        Some(s[0])
    } else {
        view_lookup(s.drop_first(), a)
    }
}

/// A record is found under `a` exactly when one is keyed by `a`. This is
/// why a lookup on a well-formed but never-registered address answers
/// "no record" rather than an error.
pub proof fn lemma_view_lookup_absent<EXTRA>(s: Seq<InstanceView<EXTRA>>, a: Seq<char>)
    ensures
        (view_lookup(s, a) is None) <==> !view_has_addr(s, a),
    decreases s.len(),
{
    if s.len() == 0 {
    } else if s[0].address == a {
        assert(view_has_addr(s, a));
    } else {
        let tail = s.drop_first();
        lemma_view_lookup_absent(tail, a);
        if view_has_addr(s, a) {
            let i = choose|i: int| 0 <= i < s.len() && s[i].address == a;
            assert(tail[i - 1] == s[i]);
            assert(view_has_addr(tail, a));
        }
        if view_has_addr(tail, a) {
            let i = choose|i: int| 0 <= i < tail.len() && tail[i].address == a;
            assert(s[i + 1] == tail[i]);
            assert(view_has_addr(s, a));
        }
    }
}

/// `view_lookup` on the abstraction agrees with `lookup` on the stored
/// records.
pub proof fn lemma_lookup_views<EXTRA>(s: Seq<Instance<CanonAddr, EXTRA>>, k: Seq<char>)
    ensures
        view_lookup(views_of(s), k) == match lookup(s, k) {
            Option::None => Option::<InstanceView<EXTRA>>::None,
            Option::Some(inst) => Option::Some(inst_view(inst)),
        },
    decreases s.len(),
{
    if s.len() == 0 {
    } else {
        assert(views_of(s)[0] == inst_view(s[0]));
        if s[0].contract.address@ == k {
        } else {
            lemma_lookup_views(s.drop_first(), k);
            assert(views_of(s).drop_first() =~= views_of(s.drop_first()));
        }
    }
}

/// `view_has_addr` on the abstraction agrees with `has_key` on the stored
/// records.
pub proof fn lemma_has_addr_views<EXTRA>(s: Seq<Instance<CanonAddr, EXTRA>>, k: Seq<char>)
    ensures
        view_has_addr(views_of(s), k) <==> has_key(s, k),
{
    let vs = views_of(s);
    if view_has_addr(vs, k) {
        let i = choose|i: int| 0 <= i < vs.len() && vs[i].address == k;
        assert(vs[i] == inst_view(s[i]));
        assert(crate::registry::key_at(s, i) == k);
        assert(has_key(s, k));
    }
    if has_key(s, k) {
        let i = choose|i: int| 0 <= i < s.len() && crate::registry::key_at(s, i) == k;
        assert(vs[i] == inst_view(s[i]));
        assert(view_has_addr(vs, k));
    }
}

/// Why a creation request is denied, if it is: the access gate first, then
/// the configuration store.
pub open spec fn create_denied<EXTRA>(v: FactoryView<EXTRA>, sender: Seq<char>) -> Option<Error> {
    if v.auth && sender != v.admin {
        Some(Error::Unauthorized)
    } else if v.template is None {
        Some(Error::NotConfigured)
    } else {
        None
    }
}

/// The spawn request a creation at block time `time` must carry: the
/// template in effect now, the caller's message and funds, the generated
/// label and the well-known correlation token.
pub open spec fn spawn_matches<MSG>(
    m: SpawnRequest<MSG>,
    t: TemplateView,
    time: u64,
    cfg: InstanceConfig<MSG>,
) -> bool {
    &&& m.code_id == t.id
    &&& m.code_hash@ == t.code_hash
    &&& m.msg == cfg.msg
    &&& m.funds == cfg.funds
    &&& m.label@ == spec_label(time as nat)
    &&& m.reply_id == REPLY_ID
}

/// The full contract of a creation request: denied exactly as
/// `create_denied` says, otherwise a response carrying exactly one spawn
/// request and nothing else. Creation never mutates state by itself;
/// registration happens only when the continuation arrives.
pub open spec fn create_instance_post<MSG, EXTRA>(
    v: FactoryView<EXTRA>,
    time: u64,
    sender: Seq<char>,
    cfg: InstanceConfig<MSG>,
    r: Result<Response<MSG>, Error>,
) -> bool {
    match create_denied(v, sender) {
        Some(e) => r matches Err(err) && err == e,
        None => r matches Ok(resp) && {
            &&& resp.attributes@.len() == 0
            &&& resp.messages@.len() == 1
            &&& spawn_matches(resp.messages@[0], v.template.unwrap(), time, cfg)
        },
    }
}

/// Why a successful continuation fails to register, if it does: a missing
/// payload, a payload of the wrong shape, an unconfigured store, a
/// malformed reported address, or a canonical identity already on file.
pub open spec fn register_denied<EXTRA>(
    v: FactoryView<EXTRA>,
    resp: SubMsgResponse<EXTRA>,
) -> Option<Error> {
    match resp.data {
        None => Some(Error::MalformedCompletion),
        Some(ReplyPayload::Malformed) => Some(Error::DeserializationError),
        Some(ReplyPayload::Data(d)) => {
            if v.template is None {
                Some(Error::NotConfigured)
            } else if !valid_addr(d.addr_view()) {
                Some(Error::InvalidAddress)
            } else if view_has_addr(v.instances, d.addr_view()) {
                Some(Error::DuplicateKey)
            } else {
                None
            }
        },
    }
}

/// The payload of a continuation known to carry decoded data.
pub open spec fn payload_of<EXTRA>(resp: SubMsgResponse<EXTRA>) -> InstantiateReplyData<EXTRA> {
    match resp.data {
        Some(ReplyPayload::Data(d)) => d,
        _ => vstd::pervasive::arbitrary(),
    }
}

/// The record a successful continuation files: keyed by the reported
/// address, stamped with the content hash of the template in effect *now*
/// (at registration time, which may differ from spawn time by design), and
/// carrying the reported extra metadata.
pub open spec fn registered_instance<EXTRA>(
    v: FactoryView<EXTRA>,
    d: InstantiateReplyData<EXTRA>,
) -> InstanceView<EXTRA> {
    InstanceView {
        address: d.addr_view(),
        code_hash: v.template.unwrap().code_hash,
        extra: d.extra_val(),
    }
}

/// The full contract of processing a successful continuation: denied
/// exactly as `register_denied` says with the state unchanged, otherwise
/// exactly one new record is appended and the reported human-readable
/// address is returned.
pub open spec fn handle_reply_post<EXTRA>(
    v0: FactoryView<EXTRA>,
    v1: FactoryView<EXTRA>,
    resp: SubMsgResponse<EXTRA>,
    r: Result<String, Error>,
) -> bool {
    match register_denied(v0, resp) {
        Some(e) => {
            &&& v1 == v0
            &&& r matches Err(err) && err == e
        },
        None => {
            let d = payload_of(resp);
            &&& v1 == (FactoryView { instances: v0.instances.push(registered_instance(v0, d)), ..v0 })
            &&& r matches Ok(a) && a@ == d.addr_view()
        },
    }
}

/// The full contract of the continuation entry point. A continuation with
/// a foreign token is rejected outright. One that reports spawn failure is
/// accepted with no registration and no output: callers rely on "no record
/// means the spawn did not complete". One that reports success registers
/// the child and exposes its address as an output attribute.
pub open spec fn reply_post<MSG, EXTRA>(
    v0: FactoryView<EXTRA>,
    v1: FactoryView<EXTRA>,
    reply: Reply<EXTRA>,
    r: Result<Response<MSG>, Error>,
) -> bool {
    if reply.id != REPLY_ID {
        &&& v1 == v0
        &&& r matches Err(e) && e == Error::UnexpectedToken
    } else {
        match reply.result {
            SubMsgResult::Failure(_) => {
                &&& v1 == v0
                &&& r matches Ok(resp) && resp.is_empty()
            },
            SubMsgResult::Success(sub) => match register_denied(v0, sub) {
                Some(e) => {
                    &&& v1 == v0
                    &&& r matches Err(err) && err == e
                },
                None => {
                    let d = payload_of(sub);
                    &&& v1 == (FactoryView {
                        instances: v0.instances.push(registered_instance(v0, d)),
                        ..v0
                    })
                    &&& r matches Ok(resp) && {
                        &&& resp.messages@.len() == 0
                        &&& resp.attributes@.len() == 1
                        &&& resp.attributes@[0].key@ == INSTANCE_ADDR_ATTR@
                        &&& resp.attributes@[0].value@ == d.addr_view()
                    }
                },
            },
        }
    }
}

/// The full contract of replacing the template: the admin is demanded
/// unconditionally — the authorization toggle plays no part here — and on
/// success only the configuration store changes.
pub open spec fn change_code_post<MSG, EXTRA>(
    v0: FactoryView<EXTRA>,
    v1: FactoryView<EXTRA>,
    sender: Seq<char>,
    code: ContractCode,
    r: Result<Response<MSG>, Error>,
) -> bool {
    if sender != v0.admin {
        &&& v1 == v0
        &&& r matches Err(e) && e == Error::Unauthorized
    } else {
        &&& v1 == (FactoryView {
            template: Some(TemplateView { id: code.id, code_hash: code.code_hash@ }),
            ..v0
        })
        &&& r matches Ok(resp) && resp.is_empty()
    }
}

/// The full contract of transferring ownership of the access gate.
pub open spec fn change_admin_post<MSG, EXTRA>(
    v0: FactoryView<EXTRA>,
    v1: FactoryView<EXTRA>,
    sender: Seq<char>,
    address: Seq<char>,
    r: Result<Response<MSG>, Error>,
) -> bool {
    if sender != v0.admin {
        &&& v1 == v0
        &&& r matches Err(e) && e == Error::Unauthorized
    } else if !valid_addr(address) {
        &&& v1 == v0
        &&& r matches Err(e) && e == Error::InvalidAddress
    } else {
        &&& v1 == (FactoryView { admin: address, ..v0 })
        &&& r matches Ok(resp) && resp.is_empty()
    }
}

/// The full contract of toggling the operational gate.
pub open spec fn set_status_post<MSG, EXTRA>(
    v0: FactoryView<EXTRA>,
    v1: FactoryView<EXTRA>,
    sender: Seq<char>,
    operational: bool,
    r: Result<Response<MSG>, Error>,
) -> bool {
    if sender != v0.admin {
        &&& v1 == v0
        &&& r matches Err(e) && e == Error::Unauthorized
    } else {
        &&& v1 == (FactoryView { operational: operational, ..v0 })
        &&& r matches Ok(resp) && resp.is_empty()
    }
}

/// The full contract of the mutating entry point: while operations are
/// suspended everything but the suspension switch itself is refused;
/// otherwise the message is dispatched to its handler.
pub open spec fn execute_post<MSG, EXTRA>(
    v0: FactoryView<EXTRA>,
    v1: FactoryView<EXTRA>,
    time: u64,
    sender: Seq<char>,
    msg: ExecuteMsg<MSG>,
    r: Result<Response<MSG>, Error>,
) -> bool {
    if !(msg is Killswitch) && !v0.operational {
        &&& v1 == v0
        &&& r matches Err(e) && e == Error::NotOperational
    } else {
        match msg {
            ExecuteMsg::CreateInstance(cfg) => v1 == v0 && create_instance_post(
                v0,
                time,
                sender,
                cfg,
                r,
            ),
            ExecuteMsg::ChangeContractCode(code) => change_code_post(v0, v1, sender, code, r),
            ExecuteMsg::Admin(AdminExecuteMsg::ChangeAdmin { address }) => change_admin_post(
                v0,
                v1,
                sender,
                address@,
                r,
            ),
            ExecuteMsg::Killswitch(KillswitchExecuteMsg::SetStatus { operational }) => set_status_post(
                v0,
                v1,
                sender,
                operational,
                r,
            ),
        }
    }
}

/// The page the query surface owes for cursor (`start`, `limit`) over
/// `total` records: nothing when the cursor starts past the end, the full
/// `limit` when that many records remain, the remainder otherwise.
pub open spec fn page_len(total: int, start: int, limit: int) -> int {
    if start >= total {
        0
    } else if start + limit <= total {
        limit
    } else {
        total - start
    }
}

/// The requested page size, clamped to `Pagination::MAX_LIMIT`.
pub open spec fn clamped_limit(l: u8) -> int {
    if l <= Pagination::MAX_LIMIT {
        l as int
    } else {
        Pagination::MAX_LIMIT as int
    }
}

/// A handed-out record equals a stored record, with the canonical identity
/// translated back to its human-readable form.
pub open spec fn instance_matches_view<EXTRA>(
    e: Instance<String, EXTRA>,
    iv: InstanceView<EXTRA>,
) -> bool {
    &&& e.contract.address@ == iv.address
    &&& e.contract.code_hash@ == iv.code_hash
    &&& e.extra == iv.extra
}

/// The full contract of a listing: the correct total, and exactly the
/// records of the requested page, in registration order.
pub open spec fn list_ok<EXTRA>(
    v: FactoryView<EXTRA>,
    p: Pagination,
    resp: PaginatedResponse<Instance<String, EXTRA>>,
) -> bool {
    &&& resp.total == v.instances.len()
    &&& resp.entries@.len() == page_len(
        v.instances.len() as int,
        p.start as int,
        clamped_limit(p.limit),
    )
    &&& forall|i: int|
        0 <= i < resp.entries@.len() ==> instance_matches_view(
            #[trigger] resp.entries@[i],
            v.instances[p.start + i],
        )
}

/// The full contract of a single lookup: `None` exactly for a well-formed
/// address under which nothing is registered.
pub open spec fn lookup_ok<EXTRA>(
    v: FactoryView<EXTRA>,
    addr: Seq<char>,
    o: Option<Instance<String, EXTRA>>,
) -> bool {
    match view_lookup(v.instances, addr) {
        None => o is None,
        Some(iv) => o matches Some(e) && instance_matches_view(e, iv),
    }
}

/// The full contract of the read-only entry point.
pub open spec fn query_post<EXTRA>(
    v: FactoryView<EXTRA>,
    msg: QueryMsg,
    r: Result<QueryAnswer<EXTRA>, Error>,
) -> bool {
    match msg {
        QueryMsg::ListInstances { pagination } => {
            &&& r matches Ok(a)
            &&& a matches QueryAnswer::Instances(p)
            &&& list_ok(v, pagination, p)
        },
        QueryMsg::InstanceByAddr { addr } => {
            if !valid_addr(addr@) {
                r matches Err(e) && e == Error::InvalidAddress
            } else {
                &&& r matches Ok(a)
                &&& a matches QueryAnswer::Instance(o)
                &&& lookup_ok(v, addr@, o)
            }
        },
        QueryMsg::Admin(AdminQueryMsg::Admin {  }) => {
            &&& r matches Ok(a)
            &&& a matches QueryAnswer::Admin(s)
            &&& s@ == v.admin
        },
        QueryMsg::Killswitch(KillswitchQueryMsg::Status {  }) => {
            &&& r matches Ok(a)
            &&& a matches QueryAnswer::Status(b)
            &&& b == v.operational
        },
    }
}

/// The generic factory module. `MSG` is the (opaque) initialization
/// message forwarded to every spawned child; `EXTRA` is the caller-defined
/// metadata stored with each record.
#[derive(Debug)]
pub struct GenericFactory<MSG, EXTRA> {
    admin: String,
    auth: bool,
    operational: bool,
    template: Option<ContractCode>,
    registry: InstanceRegistry<EXTRA>,
    msg_marker: PhantomData<MSG>,
}

impl<MSG, EXTRA> View for GenericFactory<MSG, EXTRA> {
    type V = FactoryView<EXTRA>;

    closed spec fn view(&self) -> FactoryView<EXTRA> {
        FactoryView {
            admin: self.admin@,
            auth: self.auth,
            operational: self.operational,
            template: match self.template {
                None => None,
                Some(c) => Some(TemplateView { id: c.id, code_hash: c.code_hash@ }),
            },
            instances: views_of(self.registry@),
        }
    }
}

impl<MSG, EXTRA: ExtraData> GenericFactory<MSG, EXTRA> {
    /// The registry files records under pairwise distinct identities.
    pub closed spec fn wf(&self) -> bool {
        self.registry.wf()
    }

    /// Initialize the module: the access gate's admin is the given identity
    /// (the instantiating caller when none is given), the operational gate
    /// is open, the configuration store holds the given template, and the
    /// registry is empty. `auth` fixes, for the module's whole lifetime,
    /// whether creation demands the admin.
    pub fn instantiate(info: &MessageInfo, msg: InstantiateMsg, auth: bool) -> (r: Result<
        Self,
        Error,
    >)
        ensures
            ({
                let chosen = match msg.admin {
                    Some(a) => a@,
                    None => info.sender@,
                };
                if valid_addr(chosen) {
                    r matches Ok(f) && f.wf() && f@ == (FactoryView {
                        admin: chosen,
                        auth: auth,
                        operational: true,
                        template: Some(
                            TemplateView { id: msg.code.id, code_hash: msg.code.code_hash@ },
                        ),
                        instances: Seq::<InstanceView<EXTRA>>::empty(),
                    })
                } else {
                    r matches Err(e) && e == Error::InvalidAddress
                }
            }),
    {
        let admin = match msg.admin {
            Some(a) => a,
            None => info.sender.clone(),
        };
        if admin.as_str().is_empty() {
            return Err(Error::InvalidAddress);
        }
        let f = GenericFactory {
            admin,
            auth,
            operational: true,
            template: Some(msg.code),
            registry: InstanceRegistry::new(),
            msg_marker: PhantomData,
        };
        proof {
            assert(views_of(f.registry@) =~= Seq::<InstanceView<EXTRA>>::empty());
        }
        Ok(f)
    }

    /// Ask the access gate whether `sender` holds the admin privilege.
    fn is_admin(&self, sender: &String) -> (r: bool)
        ensures
            r == (sender@ == self@.admin),
    {
        *sender == self.admin
    }

    /// Validate authorization and the configuration store, then emit the
    /// single spawn request for one new child instance. The invocation
    /// succeeds at this point even though registration has not happened
    /// yet: that is the module's deliberate asynchronous boundary.
    pub fn create_instance(&self, env: &Env, info: &MessageInfo, config: InstanceConfig<MSG>) -> (r:
        Result<Response<MSG>, Error>)
        ensures
            create_instance_post(self@, env.block_time, info.sender@, config, r),
    {
        if self.auth && !self.is_admin(&info.sender) {
            return Err(Error::Unauthorized);
        }
        let template = match &self.template {
            None => { return Err(Error::NotConfigured); },
            Some(t) => t,
        };
        let label = creation_label(env.block_time);
        let request = SpawnRequest {
            code_id: template.id,
            code_hash: template.code_hash.clone(),
            msg: config.msg,
            funds: config.funds,
            label,
            reply_id: REPLY_ID,
        };
        let mut messages = Vec::new();
        messages.push(request);
        Ok(Response { messages, attributes: Vec::new() })
    }

    /// Replace the stored template. Demands the admin unconditionally,
    /// whatever the authorization toggle says. Records already registered
    /// keep the content hash they were stamped with.
    pub fn change_contract_code(&mut self, info: &MessageInfo, code: ContractCode) -> (r: Result<
        Response<MSG>,
        Error,
    >)
        requires
            old(self).wf(),
        ensures
            final(self).wf(),
            change_code_post(old(self)@, final(self)@, info.sender@, code, r),
    {
        if !self.is_admin(&info.sender) {
            return Err(Error::Unauthorized);
        }
        self.template = Some(code);
        Ok(Response::empty())
    }

    /// Process a successful continuation: decode outcome in hand, re-read
    /// the configuration store, canonicalize the reported address and file
    /// the new record under it. Returns the human-readable address of the
    /// new instance.
    pub fn handle_reply(&mut self, resp: SubMsgResponse<EXTRA>) -> (r: Result<String, Error>)
        requires
            old(self).wf(),
        ensures
            final(self).wf(),
            handle_reply_post(old(self)@, final(self)@, resp, r),
    {
        let data = match resp.data {
            None => { return Err(Error::MalformedCompletion); },
            Some(ReplyPayload::Malformed) => { return Err(Error::DeserializationError); },
            Some(ReplyPayload::Data(d)) => d,
        };
        let code_hash = match &self.template {
            None => { return Err(Error::NotConfigured); },
            Some(t) => t.code_hash.clone(),
        };
        proof {
            data.lemma_parts();
        }
        let InstantiateReplyData { address, extra } = data;
        let canonical = match CanonAddr::canonize(address.as_str()) {
            Err(e) => { return Err(e); },
            Ok(c) => c,
        };
        proof {
            lemma_has_addr_views(self.registry@, canonical@);
        }
        let inst = Instance {
            contract: ContractLink { address: canonical, code_hash },
            extra,
        };
        match self.registry.insert(inst) {
            Err(e) => Err(e),
            Ok(()) => {
                proof {
                    assert(views_of(self.registry@) =~= views_of(old(self).registry@).push(
                        inst_view(inst),
                    ));
                }
                Ok(address)
            },
        }
    }

    /// The continuation entry point the host calls when a spawned child
    /// reports back. Rejects foreign correlation tokens; swallows reported
    /// spawn failures (no record, no error — the host's atomicity already
    /// rolled the creation back); registers the child otherwise and
    /// attaches its address as an observable output attribute.
    pub fn reply(&mut self, reply: Reply<EXTRA>) -> (r: Result<Response<MSG>, Error>)
        requires
            old(self).wf(),
        ensures
            final(self).wf(),
            reply_post(old(self)@, final(self)@, reply, r),
    {
        let Reply { id, result } = reply;
        if id != REPLY_ID {
            return Err(Error::UnexpectedToken);
        }
        match result {
            SubMsgResult::Failure(_) => Ok(Response::empty()),
            SubMsgResult::Success(sub) => match self.handle_reply(sub) {
                Err(e) => Err(e),
                Ok(address) => {
                    let mut attributes = Vec::new();
                    attributes.push(
                        Attribute { key: INSTANCE_ADDR_ATTR.to_owned(), value: address },
                    );
                    Ok(Response { messages: Vec::new(), attributes })
                },
            },
        }
    }

    /// The mutating entry point: refuse everything while operations are
    /// suspended (the suspension switch itself excepted), then dispatch.
    pub fn execute(&mut self, env: &Env, info: &MessageInfo, msg: ExecuteMsg<MSG>) -> (r: Result<
        Response<MSG>,
        Error,
    >)
        requires
            old(self).wf(),
        ensures
            final(self).wf(),
            execute_post(old(self)@, final(self)@, env.block_time, info.sender@, msg, r),
    {
        let targets_gate = match &msg {
            ExecuteMsg::Killswitch(_) => true,
            _ => false,
        };
        if !targets_gate && !self.operational {
            return Err(Error::NotOperational);
        }
        match msg {
            ExecuteMsg::CreateInstance(config) => self.create_instance(env, info, config),
            ExecuteMsg::ChangeContractCode(code) => self.change_contract_code(info, code),
            ExecuteMsg::Admin(AdminExecuteMsg::ChangeAdmin { address }) => {
                if !self.is_admin(&info.sender) {
                    return Err(Error::Unauthorized);
                }
                if address.as_str().is_empty() {
                    return Err(Error::InvalidAddress);
                }
                self.admin = address;
                Ok(Response::empty())
            },
            ExecuteMsg::Killswitch(KillswitchExecuteMsg::SetStatus { operational }) => {
                if !self.is_admin(&info.sender) {
                    return Err(Error::Unauthorized);
                }
                self.operational = operational;
                Ok(Response::empty())
            },
        }
    }

    /// List one page of the registry, `start`/`limit` as the cursor says,
    /// in registration order, with each canonical identity translated back
    /// to its human-readable form.
    pub fn list_instances(&self, pagination: Pagination) -> (r: Result<
        PaginatedResponse<Instance<String, EXTRA>>,
        Error,
    >)
        ensures
            r matches Ok(resp) && list_ok(self@, pagination, resp),
    {
        let limit_u8 = if pagination.limit < Pagination::MAX_LIMIT {
            pagination.limit
        } else {
            Pagination::MAX_LIMIT
        };
        let limit = limit_u8 as usize;
        let total = self.registry.len();
        let mut entries: Vec<Instance<String, EXTRA>> = Vec::new();
        if pagination.start < total as u64 {
            let start = pagination.start as usize;
            let end = if total - start < limit {
                total
            } else {
                start + limit
            };
            let mut i = start;
            while i < end
                invariant
                    start <= i <= end <= total,
                    total == self.registry@.len(),
                    end == if total - start < limit {
                        total as int
                    } else {
                        start as int + limit as int
                    },
                    entries@.len() == i - start,
                    forall|j: int|
                        0 <= j < entries@.len() ==> instance_matches_view(
                            #[trigger] entries@[j],
                            views_of(self.registry@)[start + j],
                        ),
                decreases end - i,
            {
                let inst = self.registry.entry_at(i);
                let human = inst.contract.address.humanize();
                let record = Instance {
                    contract: ContractLink {
                        address: human,
                        code_hash: inst.contract.code_hash.clone(),
                    },
                    extra: inst.extra.clone_extra(),
                };
                proof {
                    assert(views_of(self.registry@)[i as int] == inst_view(self.registry@[i as int]));
                }
                entries.push(record);
                i += 1;
            }
        }
        Ok(PaginatedResponse { entries, total: self.registry.count() })
    }

    /// Look one address up: canonicalize it (a malformed address is an
    /// error), then answer with the record registered under it, if any. A
    /// well-formed address that was never registered answers `None`, not
    /// an error.
    pub fn instance_by_addr(&self, addr: String) -> (r: Result<
        Option<Instance<String, EXTRA>>,
        Error,
    >)
        requires
            self.wf(),
        ensures
            !valid_addr(addr@) ==> (r matches Err(e) && e == Error::InvalidAddress),
            valid_addr(addr@) ==> ({
                &&& r matches Ok(o)
                &&& lookup_ok(self@, addr@, o)
            }),
    {
        let canonical = match CanonAddr::canonize(addr.as_str()) {
            Err(e) => { return Err(e); },
            Ok(c) => c,
        };
        proof {
            lemma_lookup_views(self.registry@, canonical@);
        }
        match self.registry.get(&canonical) {
            None => {
                proof {
                    crate::registry::lemma_lookup_has_key(self.registry@, canonical@);
                }
                Ok(None)
            },
            Some(inst) => Ok(
                Some(
                    Instance {
                        contract: ContractLink {
                            address: inst.contract.address.humanize(),
                            code_hash: inst.contract.code_hash.clone(),
                        },
                        extra: inst.extra.clone_extra(),
                    },
                ),
            ),
        }
    }

    /// The read-only entry point: dispatch a query and wrap its answer.
    pub fn query(&self, msg: QueryMsg) -> (r: Result<QueryAnswer<EXTRA>, Error>)
        requires
            self.wf(),
        ensures
            query_post(self@, msg, r),
    {
        match msg {
            QueryMsg::ListInstances { pagination } => match self.list_instances(pagination) {
                Err(e) => Err(e),
                Ok(p) => Ok(QueryAnswer::Instances(p)),
            },
            QueryMsg::InstanceByAddr { addr } => match self.instance_by_addr(addr) {
                Err(e) => Err(e),
                Ok(o) => Ok(QueryAnswer::Instance(o)),
            },
            QueryMsg::Admin(AdminQueryMsg::Admin {  }) => Ok(QueryAnswer::Admin(self.admin.clone())),
            QueryMsg::Killswitch(KillswitchQueryMsg::Status {  }) => Ok(
                QueryAnswer::Status(self.operational),
            ),
        }
    }

    /// A well-formed factory files its records under pairwise distinct
    /// canonical identities: each spawned instance has its own record.
    pub proof fn lemma_distinct_identities(&self)
        requires
            self.wf(),
        ensures
            forall|i: int, j: int|
                0 <= i < j < self@.instances.len() ==> self@.instances[i].address != self@.instances[j].address,
    {
        let s = self.registry@;
        assert forall|i: int, j: int|
            0 <= i < j < self@.instances.len() implies self@.instances[i].address
            != self@.instances[j].address by {
            assert(self@.instances[i] == inst_view(s[i]));
            assert(self@.instances[j] == inst_view(s[j]));
            assert(crate::registry::key_at(s, i) != crate::registry::key_at(s, j));
        }
    }
}

/// LAW (authorization toggle): with the toggle enabled, creation by any
/// caller other than the admin is denied as unauthorized; with it
/// disabled, creation is never denied for authorization reasons — and
/// once a template is configured it is not denied at all, whoever calls.
pub proof fn law_create_authorization<EXTRA>(v: FactoryView<EXTRA>, sender: Seq<char>)
    ensures
        v.auth && sender != v.admin ==> create_denied(v, sender) == Some(Error::Unauthorized),
        !v.auth ==> create_denied(v, sender) != Some(Error::Unauthorized),
        !v.auth && v.template is Some ==> create_denied(v, sender) is None,
{
}

/// LAW (failed spawn): a continuation that reports spawn failure leaves
/// the whole state — the registry included — unchanged, and the
/// invocation still completes successfully.
pub proof fn law_failed_spawn<MSG, EXTRA>(
    v0: FactoryView<EXTRA>,
    v1: FactoryView<EXTRA>,
    reply: Reply<EXTRA>,
    r: Result<Response<MSG>, Error>,
)
    requires
        reply.id == REPLY_ID,
        reply.result is Failure,
        reply_post(v0, v1, reply, r),
    ensures
        v1 == v0,
        r is Ok,
{
}

/// LAW (exactly-once registration): a successfully processed continuation
/// appends exactly one record, keyed by a canonical identity not
/// previously present, and leaves every earlier record and the rest of
/// the state unchanged.
pub proof fn law_registration_appends_one<EXTRA>(
    v0: FactoryView<EXTRA>,
    v1: FactoryView<EXTRA>,
    resp: SubMsgResponse<EXTRA>,
    r: Result<String, Error>,
)
    requires
        handle_reply_post(v0, v1, resp, r),
        r is Ok,
    ensures
        v1.instances.len() == v0.instances.len() + 1,
        v1.instances.subrange(0, v0.instances.len() as int) == v0.instances,
        !view_has_addr(v0.instances, v1.instances.last().address),
        v1.admin == v0.admin,
        v1.auth == v0.auth,
        v1.operational == v0.operational,
        v1.template == v0.template,
{
    assert(register_denied(v0, resp) is None);
    let d = payload_of(resp);
    assert(v1.instances == v0.instances.push(registered_instance(v0, d)));
    assert(v1.instances.subrange(0, v0.instances.len() as int) =~= v0.instances);
}

/// LAW (registration order): records are appended in completion order and
/// never reordered: registering A and then B extends the registry with
/// exactly A's record and then B's record, at the end, in that order.
pub proof fn law_registration_order<EXTRA>(
    v0: FactoryView<EXTRA>,
    v1: FactoryView<EXTRA>,
    v2: FactoryView<EXTRA>,
    resp_a: SubMsgResponse<EXTRA>,
    r_a: Result<String, Error>,
    resp_b: SubMsgResponse<EXTRA>,
    r_b: Result<String, Error>,
)
    requires
        handle_reply_post(v0, v1, resp_a, r_a),
        r_a is Ok,
        handle_reply_post(v1, v2, resp_b, r_b),
        r_b is Ok,
    ensures
        v2.instances == v0.instances.push(registered_instance(v0, payload_of(resp_a))).push(
            registered_instance(v1, payload_of(resp_b)),
        ),
{
}

/// LAW (listing follows registration): after registering A and then B
/// into a previously empty registry, a listing of the first two positions
/// yields A's record and then B's record, in that order.
pub proof fn law_list_after_two_registrations<EXTRA>(
    v0: FactoryView<EXTRA>,
    v1: FactoryView<EXTRA>,
    v2: FactoryView<EXTRA>,
    resp_a: SubMsgResponse<EXTRA>,
    r_a: Result<String, Error>,
    resp_b: SubMsgResponse<EXTRA>,
    r_b: Result<String, Error>,
    p: Pagination,
    page: PaginatedResponse<Instance<String, EXTRA>>,
)
    requires
        v0.instances.len() == 0,
        handle_reply_post(v0, v1, resp_a, r_a),
        r_a is Ok,
        handle_reply_post(v1, v2, resp_b, r_b),
        r_b is Ok,
        p.start == 0,
        p.limit == 2,
        list_ok(v2, p, page),
    ensures
        page.total == 2,
        page.entries@.len() == 2,
        instance_matches_view(page.entries@[0], registered_instance(v0, payload_of(resp_a))),
        instance_matches_view(page.entries@[1], registered_instance(v1, payload_of(resp_b))),
{
    assert(v2.instances.len() == 2);
    assert(v2.instances[0] == registered_instance(v0, payload_of(resp_a)));
    assert(v2.instances[1] == registered_instance(v1, payload_of(resp_b)));
    assert(instance_matches_view(page.entries@[0], v2.instances[0]));
    assert(instance_matches_view(page.entries@[1], v2.instances[1]));
}

/// LAW (pagination): a listing always reports the registry's true size; a
/// cursor starting at or past the end yields no entries (with the total
/// still correct); and any limit above `Pagination::MAX_LIMIT` yields
/// exactly the page that `MAX_LIMIT` itself yields.
pub proof fn law_pagination<EXTRA>(
    v: FactoryView<EXTRA>,
    p: Pagination,
    resp: PaginatedResponse<Instance<String, EXTRA>>,
)
    requires
        list_ok(v, p, resp),
    ensures
        resp.total == v.instances.len(),
        p.start >= v.instances.len() ==> resp.entries@.len() == 0,
        p.limit >= Pagination::MAX_LIMIT ==> list_ok(
            v,
            Pagination { start: p.start, limit: Pagination::MAX_LIMIT },
            resp,
        ),
{
}

/// LAW (template change): replacing the template demands the admin,
/// whether or not the authorization toggle is enabled; and a registration
/// completing after a successful replacement stamps the *new* content
/// hash into the record it files.
pub proof fn law_template_change<MSG, EXTRA>(
    v0: FactoryView<EXTRA>,
    v1: FactoryView<EXTRA>,
    sender: Seq<char>,
    code: ContractCode,
    r: Result<Response<MSG>, Error>,
    v2: FactoryView<EXTRA>,
    resp: SubMsgResponse<EXTRA>,
    r2: Result<String, Error>,
)
    requires
        change_code_post(v0, v1, sender, code, r),
        handle_reply_post(v1, v2, resp, r2),
        r2 is Ok,
    ensures
        sender != v0.admin ==> (r matches Err(e) && e == Error::Unauthorized),
        sender == v0.admin ==> v2.instances.last().code_hash == code.code_hash@,
{
    if sender == v0.admin {
        assert(register_denied(v1, resp) is None);
        let d = payload_of(resp);
        assert(v2.instances.last() == registered_instance(v1, d));
    }
}

} // verus!
