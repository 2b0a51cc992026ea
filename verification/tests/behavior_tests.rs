//! Edge cases and protocol-level behavior: pagination bounds and clamping,
//! continuation failures, each error kind, gate handling, and the template
//! change taking effect in later registrations.

use factory::{
    AdminExecuteMsg, AdminQueryMsg, ContractCode, Empty, Env, Error, ExecuteMsg, GenericFactory,
    Instance, InstanceConfig, InstantiateMsg, InstantiateReplyData, KillswitchExecuteMsg,
    KillswitchQueryMsg, MessageInfo, PaginatedResponse, Pagination, QueryAnswer, QueryMsg, Reply,
    ReplyPayload, SubMsgResponse, SubMsgResult, INSTANCE_ADDR_ATTR, REPLY_ID,
};

type Factory = GenericFactory<String, String>;

const ADMIN: &str = "admin";

fn info(sender: &str) -> MessageInfo {
    MessageInfo { sender: sender.to_string(), funds: Vec::new() }
}

fn env(time: u64) -> Env {
    Env { block_time: time }
}

fn new_factory_with(auth: bool, code: ContractCode) -> Factory {
    GenericFactory::instantiate(&info(ADMIN), InstantiateMsg { admin: None, code }, auth).unwrap()
}

fn new_factory(auth: bool) -> Factory {
    new_factory_with(auth, ContractCode { id: 1, code_hash: "h0".to_string() })
}

fn config(text: &str) -> InstanceConfig<String> {
    InstanceConfig { msg: text.to_string(), funds: Vec::new() }
}

fn create(f: &mut Factory, sender: &str, time: u64, text: &str) -> Result<String, Error> {
    let resp = f.execute(&env(time), &info(sender), ExecuteMsg::CreateInstance(config(text)))?;
    let req = &resp.messages[0];
    let address = req.label.to_lowercase();
    let payload = InstantiateReplyData::with_extra(address, req.msg.clone());
    let reply = Reply {
        id: REPLY_ID,
        result: SubMsgResult::Success(SubMsgResponse { data: Some(ReplyPayload::Data(payload)) }),
    };
    let out = f.reply(reply)?;
    let attr = out
        .attributes
        .iter()
        .find(|a| a.key == INSTANCE_ADDR_ATTR)
        .expect("no instance address attribute");
    Ok(attr.value.clone())
}

fn query_page(f: &Factory, start: u64, limit: u8) -> PaginatedResponse<Instance<String, String>> {
    match f.query(QueryMsg::ListInstances { pagination: Pagination::new(start, limit) }).unwrap() {
        QueryAnswer::Instances(page) => page,
        _ => panic!("wrong query answer variant"),
    }
}

/// The concrete end-to-end scenario: ten instances, then two pages.
#[test]
fn scenario_ten_instances_two_pages() {
    let mut f = new_factory(false);

    for i in 0..10u64 {
        create(&mut f, ADMIN, i, &format!("extra data {i}")).unwrap();
    }

    let page = query_page(&f, 0, 5);
    assert_eq!(page.total, 10);
    assert_eq!(page.entries.len(), 5);
    for (i, instance) in page.entries.iter().enumerate() {
        assert_eq!(instance.extra, format!("extra data {i}"));
        assert_eq!(instance.contract.code_hash, "h0");
    }

    let page = query_page(&f, 5, 10);
    assert_eq!(page.total, 10);
    assert_eq!(page.entries.len(), 5);
    for (i, instance) in page.entries.iter().enumerate() {
        assert_eq!(instance.extra, format!("extra data {}", i + 5));
    }
}

#[test]
fn listing_past_the_end_is_empty_with_correct_total() {
    let mut f = new_factory(false);
    for i in 0..3u64 {
        create(&mut f, ADMIN, i, "x").unwrap();
    }

    let page = query_page(&f, 3, 5);
    assert_eq!(page.total, 3);
    assert!(page.entries.is_empty());

    let page = query_page(&f, 1000, 5);
    assert_eq!(page.total, 3);
    assert!(page.entries.is_empty());
}

#[test]
fn limit_above_maximum_behaves_like_maximum() {
    let mut f = new_factory(false);
    for i in 0..32u64 {
        create(&mut f, ADMIN, i, &format!("n{i}")).unwrap();
    }

    let clamped = query_page(&f, 0, 255);
    let exact = query_page(&f, 0, 30);
    assert_eq!(clamped.total, 32);
    assert_eq!(clamped.entries.len(), 30);
    assert_eq!(exact.entries.len(), 30);
    for (a, b) in clamped.entries.iter().zip(exact.entries.iter()) {
        assert_eq!(a.contract.address, b.contract.address);
        assert_eq!(a.extra, b.extra);
    }
}

#[test]
fn listing_keeps_registration_order() {
    let mut f = new_factory(false);
    let addr_a = create(&mut f, ADMIN, 1, "first").unwrap();
    let addr_b = create(&mut f, ADMIN, 2, "second").unwrap();

    let page = query_page(&f, 0, 2);
    assert_eq!(page.total, 2);
    assert_eq!(page.entries.len(), 2);
    assert_eq!(page.entries[0].contract.address, addr_a);
    assert_eq!(page.entries[0].extra, "first");
    assert_eq!(page.entries[1].contract.address, addr_b);
    assert_eq!(page.entries[1].extra, "second");
}

#[test]
fn failed_spawn_leaves_registry_unchanged() {
    let mut f = new_factory(false);
    create(&mut f, ADMIN, 1, "kept").unwrap();

    f.execute(&env(2), &info(ADMIN), ExecuteMsg::CreateInstance(config("lost"))).unwrap();
    // the host reports that the spawn failed: processed successfully,
    // nothing registered, nothing exposed
    let reply = Reply {
        id: REPLY_ID,
        result: SubMsgResult::Failure("child rejected initialization".to_string()),
    };
    let out = f.reply(reply).unwrap();
    assert!(out.attributes.is_empty());
    assert!(out.messages.is_empty());

    let page = query_page(&f, 0, 30);
    assert_eq!(page.total, 1);
    assert_eq!(page.entries[0].extra, "kept");
}

#[test]
fn spawn_label_embeds_the_block_time() {
    let f = new_factory(false);
    let resp = f
        .create_instance(&env(1234567890), &info(ADMIN), config("x"))
        .unwrap();
    assert_eq!(
        resp.messages[0].label,
        "Fadroma factory child instance created at: 1234567890"
    );
    assert_eq!(resp.messages[0].code_id, 1);
    assert_eq!(resp.messages[0].code_hash, "h0");
    assert_eq!(resp.messages[0].msg, "x");
    assert!(resp.messages[0].funds.is_empty());
}

#[test]
fn handle_reply_returns_the_new_address() {
    let mut f = new_factory(false);
    let payload = InstantiateReplyData::with_extra("some child".to_string(), "meta".to_string());
    let addr = f
        .handle_reply(SubMsgResponse { data: Some(ReplyPayload::Data(payload)) })
        .unwrap();
    assert_eq!(addr, "some child");

    let page = query_page(&f, 0, 30);
    assert_eq!(page.total, 1);
    assert_eq!(page.entries[0].contract.address, "some child");
    assert_eq!(page.entries[0].extra, "meta");
}

#[test]
fn spawn_label_at_time_zero() {
    let f = new_factory(false);
    let resp = f.create_instance(&env(0), &info(ADMIN), config("x")).unwrap();
    assert_eq!(resp.messages[0].label, "Fadroma factory child instance created at: 0");
}

#[test]
fn reply_with_foreign_token_is_rejected() {
    let mut f = new_factory(false);
    let reply = Reply::<String> {
        id: 1,
        result: SubMsgResult::Success(SubMsgResponse { data: None }),
    };
    assert_eq!(f.reply(reply).unwrap_err(), Error::UnexpectedToken);
}

#[test]
fn reply_without_payload_is_malformed() {
    let mut f = new_factory(false);
    let reply = Reply::<String> {
        id: REPLY_ID,
        result: SubMsgResult::Success(SubMsgResponse { data: None }),
    };
    assert_eq!(f.reply(reply).unwrap_err(), Error::MalformedCompletion);
}

#[test]
fn reply_with_undecodable_payload_is_an_error() {
    let mut f = new_factory(false);
    let reply = Reply::<String> {
        id: REPLY_ID,
        result: SubMsgResult::Success(SubMsgResponse {
            data: Some(ReplyPayload::Malformed),
        }),
    };
    assert_eq!(f.reply(reply).unwrap_err(), Error::DeserializationError);
}

#[test]
fn reply_with_known_address_is_a_duplicate() {
    let mut f = new_factory(false);
    let addr = create(&mut f, ADMIN, 1, "one").unwrap();

    let payload = InstantiateReplyData::with_extra(addr, "two".to_string());
    let reply = Reply {
        id: REPLY_ID,
        result: SubMsgResult::Success(SubMsgResponse { data: Some(ReplyPayload::Data(payload)) }),
    };
    assert_eq!(f.reply(reply).unwrap_err(), Error::DuplicateKey);

    let page = query_page(&f, 0, 30);
    assert_eq!(page.total, 1);
    assert_eq!(page.entries[0].extra, "one");
}

#[test]
fn reply_with_empty_address_is_invalid() {
    let mut f = new_factory(false);
    let payload = InstantiateReplyData::with_extra(String::new(), "x".to_string());
    let reply = Reply {
        id: REPLY_ID,
        result: SubMsgResult::Success(SubMsgResponse { data: Some(ReplyPayload::Data(payload)) }),
    };
    assert_eq!(f.reply(reply).unwrap_err(), Error::InvalidAddress);
}

#[test]
fn lookup_of_invalid_address_is_an_error() {
    let f = new_factory(false);
    let err = f.query(QueryMsg::InstanceByAddr { addr: String::new() }).unwrap_err();
    assert_eq!(err, Error::InvalidAddress);
}

#[test]
fn instantiate_with_empty_admin_is_invalid() {
    let r: Result<Factory, Error> = GenericFactory::instantiate(
        &info(ADMIN),
        InstantiateMsg {
            admin: Some(String::new()),
            code: ContractCode { id: 1, code_hash: "h0".to_string() },
        },
        true,
    );
    assert_eq!(r.unwrap_err(), Error::InvalidAddress);
}

#[test]
fn explicit_admin_takes_precedence_over_sender() {
    let mut f: Factory = GenericFactory::instantiate(
        &info("deployer"),
        InstantiateMsg {
            admin: Some("owner".to_string()),
            code: ContractCode { id: 1, code_hash: "h0".to_string() },
        },
        true,
    )
    .unwrap();

    assert_eq!(
        f.execute(&env(1), &info("deployer"), ExecuteMsg::CreateInstance(config("x")))
            .unwrap_err(),
        Error::Unauthorized
    );
    create(&mut f, "owner", 2, "x").unwrap();

    match f.query(QueryMsg::Admin(AdminQueryMsg::Admin {})).unwrap() {
        QueryAnswer::Admin(admin) => assert_eq!(admin, "owner"),
        _ => panic!("wrong query answer variant"),
    }
}

#[test]
fn suspended_module_refuses_operations() {
    let mut f = new_factory(false);

    // only the admin may flip the switch
    assert_eq!(
        f.execute(
            &env(1),
            &info("not admin"),
            ExecuteMsg::Killswitch(KillswitchExecuteMsg::SetStatus { operational: false }),
        )
        .unwrap_err(),
        Error::Unauthorized
    );

    f.execute(
        &env(2),
        &info(ADMIN),
        ExecuteMsg::Killswitch(KillswitchExecuteMsg::SetStatus { operational: false }),
    )
    .unwrap();

    match f.query(QueryMsg::Killswitch(KillswitchQueryMsg::Status {})).unwrap() {
        QueryAnswer::Status(operational) => assert!(!operational),
        _ => panic!("wrong query answer variant"),
    }

    // every non-gate operation is refused while suspended
    assert_eq!(
        f.execute(&env(3), &info(ADMIN), ExecuteMsg::CreateInstance(config("x"))).unwrap_err(),
        Error::NotOperational
    );
    assert_eq!(
        f.execute(
            &env(4),
            &info(ADMIN),
            ExecuteMsg::ChangeContractCode(ContractCode { id: 9, code_hash: "h9".to_string() }),
        )
        .unwrap_err(),
        Error::NotOperational
    );

    // the switch itself stays reachable: the admin reopens the module
    f.execute(
        &env(5),
        &info(ADMIN),
        ExecuteMsg::Killswitch(KillswitchExecuteMsg::SetStatus { operational: true }),
    )
    .unwrap();
    create(&mut f, ADMIN, 6, "works again").unwrap();
}

#[test]
fn changed_admin_takes_over() {
    let mut f = new_factory(true);

    f.execute(
        &env(1),
        &info(ADMIN),
        ExecuteMsg::Admin(AdminExecuteMsg::ChangeAdmin { address: "successor".to_string() }),
    )
    .unwrap();

    assert_eq!(
        f.execute(&env(2), &info(ADMIN), ExecuteMsg::CreateInstance(config("x"))).unwrap_err(),
        Error::Unauthorized
    );
    create(&mut f, "successor", 3, "x").unwrap();
}

#[test]
fn registration_after_template_change_uses_new_hash() {
    let mut f = new_factory(false);
    create(&mut f, ADMIN, 1, "old template").unwrap();

    f.execute(
        &env(2),
        &info(ADMIN),
        ExecuteMsg::ChangeContractCode(ContractCode { id: 2, code_hash: "h1".to_string() }),
    )
    .unwrap();
    let addr = create(&mut f, ADMIN, 3, "new template").unwrap();

    let page = query_page(&f, 0, 30);
    assert_eq!(page.entries[0].contract.code_hash, "h0");
    assert_eq!(page.entries[1].contract.code_hash, "h1");
    assert_eq!(page.entries[1].contract.address, addr);
}

#[test]
fn pagination_cursor_holds_its_fields() {
    let p = Pagination::new(17, 9);
    assert_eq!(p.start, 17);
    assert_eq!(p.limit, 9);
    assert_eq!(Pagination::MAX_LIMIT, 30);
}

#[test]
fn reply_data_constructors_carry_their_arguments() {
    let d = InstantiateReplyData::new("someone".to_string());
    let reply = Reply::<Empty> {
        id: REPLY_ID,
        result: SubMsgResult::Success(SubMsgResponse { data: Some(ReplyPayload::Data(d)) }),
    };
    let mut f: GenericFactory<String, Empty> = GenericFactory::instantiate(
        &info(ADMIN),
        InstantiateMsg { admin: None, code: ContractCode { id: 1, code_hash: "h0".to_string() } },
        false,
    )
    .unwrap();
    let out = f.reply(reply).unwrap();
    assert_eq!(out.attributes[0].key, "fadroma_instance_address");
    assert_eq!(out.attributes[0].value, "someone");
}
