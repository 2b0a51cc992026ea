//! The factory exercised end to end: a small host stand-in performs each
//! spawn request and delivers the continuation, the way the host's mock
//! environment does — the child's address is the (lowercased) spawn label,
//! and the child echoes its initialization text as its extra metadata.

use factory::{
    ContractCode, Env, Error, ExecuteMsg, GenericFactory, Instance, InstanceConfig,
    InstantiateMsg, InstantiateReplyData, MessageInfo, PaginatedResponse, Pagination, QueryAnswer,
    QueryMsg, Reply, ReplyPayload, SubMsgResponse, SubMsgResult, INSTANCE_ADDR_ATTR, REPLY_ID,
};

type Factory = GenericFactory<String, String>;

const ADMIN: &str = "admin";

fn info(sender: &str) -> MessageInfo {
    MessageInfo { sender: sender.to_string(), funds: Vec::new() }
}

fn env(time: u64) -> Env {
    Env { block_time: time }
}

fn new_factory(auth: bool) -> Factory {
    GenericFactory::instantiate(
        &info(ADMIN),
        InstantiateMsg {
            admin: None,
            code: ContractCode { id: 1, code_hash: "test_contract_0".to_string() },
        },
        auth,
    )
    .unwrap()
}

fn config(text: &str) -> InstanceConfig<String> {
    InstanceConfig { msg: text.to_string(), funds: Vec::new() }
}

/// One full creation round: the caller's execute, then the host performing
/// the spawn and delivering the continuation. Returns the new instance's
/// address as exposed through the output attribute.
fn create(f: &mut Factory, sender: &str, time: u64, text: &str) -> Result<String, Error> {
    let resp = f.execute(&env(time), &info(sender), ExecuteMsg::CreateInstance(config(text)))?;
    assert_eq!(resp.messages.len(), 1);
    let req = &resp.messages[0];
    assert_eq!(req.reply_id, REPLY_ID);
    // the host derives the child's address from the unique label
    let address = req.label.to_lowercase();
    // the child echoes its initialization text as its extra metadata
    let payload = InstantiateReplyData::with_extra(address, req.msg.clone());
    let reply = Reply {
        id: REPLY_ID,
        result: SubMsgResult::Success(SubMsgResponse { data: Some(ReplyPayload::Data(payload)) }),
    };
    let out = f.reply(reply)?;
    let attr = out
        .attributes
        .iter()
        .find(|a| a.key == INSTANCE_ADDR_ATTR)
        .expect("no instance address attribute");
    Ok(attr.value.clone())
}

fn query_instance(f: &Factory, addr: &str) -> Result<Option<Instance<String, String>>, Error> {
    match f.query(QueryMsg::InstanceByAddr { addr: addr.to_string() })? {
        QueryAnswer::Instance(found) => Ok(found),
        _ => panic!("wrong query answer variant"),
    }
}

fn query_page(f: &Factory, start: u64, limit: u8) -> PaginatedResponse<Instance<String, String>> {
    match f.query(QueryMsg::ListInstances { pagination: Pagination::new(start, limit) }).unwrap() {
        QueryAnswer::Instances(page) => page,
        _ => panic!("wrong query answer variant"),
    }
}

#[test]
fn only_admin_can_instantiate_when_auth_param_is_true() {
    let mut f = new_factory(true);

    let err = f
        .execute(&env(1), &info("not admin"), ExecuteMsg::CreateInstance(config("flaming swords")))
        .unwrap_err();
    assert_eq!(err, Error::Unauthorized);

    create(&mut f, ADMIN, 2, "flaming swords").unwrap();
}

#[test]
fn only_admin_can_instantiate_when_auth_param_is_false() {
    let mut f = new_factory(false);

    create(&mut f, "not admin", 1, "flaming swords").unwrap();
    create(&mut f, ADMIN, 2, "flaming swords").unwrap();
}

#[test]
fn instances_are_stored_with_extra_data() {
    let mut f = new_factory(false);

    let addr = create(&mut f, "not admin", 1, "flaming swords").unwrap();

    let instance = query_instance(&f, &addr).unwrap().unwrap();
    assert!(instance.contract.address.starts_with("fadroma factory child instance"));
    assert_eq!(instance.contract.code_hash, "test_contract_0");
    assert_eq!(instance.extra, "flaming swords");

    let instance = query_instance(&f, "wrong addr").unwrap();
    assert!(instance.is_none());
}

#[test]
fn list_instances() {
    let mut f = new_factory(true);

    let num_instances: u8 = 10;
    for i in 0..num_instances {
        create(&mut f, ADMIN, i as u64, &format!("extra data {i}")).unwrap();
    }

    let instances = query_page(&f, 0, num_instances / 2);
    assert_eq!(instances.total, num_instances as u64);
    assert_eq!(instances.entries.len(), (num_instances / 2) as usize);
    for (i, instance) in instances.entries.iter().enumerate() {
        assert!(instance.contract.address.starts_with("fadroma factory child instance"));
        assert_eq!(instance.contract.code_hash, "test_contract_0");
        assert_eq!(instance.extra, format!("extra data {i}"));
    }

    let instances = query_page(&f, (num_instances / 2) as u64, num_instances);
    assert_eq!(instances.total, num_instances as u64);
    assert_eq!(instances.entries.len(), (num_instances / 2) as usize);
    for (i, instance) in instances.entries.iter().enumerate() {
        assert!(instance.contract.address.starts_with("fadroma factory child instance"));
        assert_eq!(instance.contract.code_hash, "test_contract_0");
        assert_eq!(instance.extra, format!("extra data {}", i as u8 + (num_instances / 2)));
    }
}

#[test]
fn only_admin_can_change_contract_code() {
    let mut f = new_factory(false);

    let err = f
        .execute(
            &env(1),
            &info("not admin"),
            ExecuteMsg::ChangeContractCode(ContractCode {
                id: 2,
                code_hash: "code_hash".to_string(),
            }),
        )
        .unwrap_err();
    assert_eq!(err, Error::Unauthorized);

    f.execute(
        &env(2),
        &info(ADMIN),
        ExecuteMsg::ChangeContractCode(ContractCode { id: 2, code_hash: "code_hash".to_string() }),
    )
    .unwrap();
}
