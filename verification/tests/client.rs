use cosm_orc::client::chain_res::{
    AbciQuery, ChainResponse, Code, DeserializeError, Event, Tag, TxCommitResponse, TxResult,
};
use cosm_orc::client::cosmos::{
    abci_query, account, account_request, commit_result, find_attribute, find_event, gas_fee,
    send_tx, simulation_error, tx_step, Account, AnyMsg, BuiltTx, TxAction, TxEvent, TxState,
};
use cosm_orc::client::cosmwasm::{event_attribute, AccessConfig, AccessType, CosmWasmClient};
use cosm_orc::client::error::ClientError;
use cosm_orc::config::cfg::{ChainCfg, Coin};
use cosm_orc::config::key::{mnemonic_to_signing_key, PrivateKey};
use cosm_orc::util::decimal::Decimal;
use cosmrs::proto::cosmos::auth::v1beta1::{BaseAccount, QueryAccountRequest, QueryAccountResponse};
use cosmrs::proto::cosmwasm::wasm::v1::{
    MsgExecuteContract, MsgInstantiateContract, MsgMigrateContract, MsgStoreCode,
    QuerySmartContractStateRequest, QuerySmartContractStateResponse,
};
use cosmrs::proto::traits::{Message, MessageExt};
use cosmrs::proto::Any;

const MNEMONIC: &str = "abandon abandon abandon abandon abandon abandon abandon abandon abandon abandon abandon abandon abandon abandon abandon abandon abandon abandon abandon abandon abandon abandon abandon art";

const CONTRACT: &str = "juno1ft5zfffrgtm2u72cup9e2ecfxjwz8ztc929cgj";

fn cfg(gas_adjustment: &str, gas_prices: &str) -> ChainCfg {
    ChainCfg {
        denom: "ujuno".to_string(),
        prefix: "juno".to_string(),
        chain_id: "testing".to_string(),
        rpc_endpoint: "http://localhost:26657".to_string(),
        grpc_endpoint: "http://localhost:9090".to_string(),
        gas_prices: Decimal::parse(gas_prices).unwrap(),
        gas_adjustment: Decimal::parse(gas_adjustment).unwrap(),
    }
}

fn key() -> PrivateKey {
    mnemonic_to_signing_key(MNEMONIC).unwrap()
}

fn tx_result(code: Code, log: &str, events: Vec<Event>) -> TxResult {
    TxResult {
        code,
        data: Some(vec![1, 2]),
        log: log.to_string(),
        gas_wanted: 7,
        gas_used: 5,
        events,
    }
}

fn event(type_str: &str, attributes: &[(&str, &str)]) -> Event {
    Event {
        type_str: type_str.to_string(),
        attributes: attributes
            .iter()
            .map(|(key, value)| Tag {
                key: key.to_string(),
                value: value.to_string(),
            })
            .collect(),
    }
}

fn commit(check: Code, deliver: Code, events: Vec<Event>) -> TxCommitResponse {
    TxCommitResponse {
        check_tx: tx_result(check, "check", vec![]),
        deliver_tx: tx_result(deliver, "deliver", events),
        hash: "HASH".to_string(),
        height: 99,
    }
}

#[test]
fn code_of_a_number() {
    assert_eq!(Code::from_value(0), Code::Success);
    assert_eq!(Code::from_value(5), Code::Error(5));
    assert_eq!(Code::Success.value(), 0);
    assert_eq!(Code::Error(5).value(), 5);
    assert!(Code::Success.is_ok());
    assert!(!Code::Success.is_err());
    assert!(Code::Error(1).is_err());
    assert_eq!(Code::default(), Code::Success);
}

#[test]
fn chain_response_data() {
    let empty = ChainResponse::default();
    assert_eq!(empty.code, Code::Success);
    assert_eq!(empty.log, "");
    assert_eq!((empty.gas_wanted, empty.gas_used), (0, 0));
    assert_eq!(empty.data().unwrap_err(), DeserializeError::EmptyResponse);
    let full = ChainResponse::from_contract_state(vec![1, 2, 3]);
    assert_eq!(full.data().unwrap(), &vec![1, 2, 3]);
    assert_eq!(full.code, Code::Success);
    let res = ChainResponse::from_tx_result(tx_result(Code::Error(3), "log", vec![]));
    assert_eq!(res.code, Code::Error(3));
    assert_eq!(res.data, Some(vec![1, 2]));
    assert_eq!(res.log, "log");
    assert_eq!((res.gas_wanted, res.gas_used), (7, 5));
    let res = ChainResponse::from_abci_query(AbciQuery {
        code: Code::Error(2),
        value: vec![9],
        log: "no".to_string(),
    });
    assert_eq!(res.code, Code::Error(2));
    assert_eq!(res.data, Some(vec![9]));
    assert_eq!(res.log, "no");
    assert_eq!((res.gas_wanted, res.gas_used), (0, 0));
}

#[test]
fn fee_is_rounded_up() {
    let fee = gas_fee(100000, &cfg("1.5", "0.025"));
    assert_eq!(fee.gas_limit, 150000);
    assert_eq!(fee.amount, 3750);
    assert_eq!(fee.denom, "ujuno");

    let fee = gas_fee(100001, &cfg("1.5", "0.025"));
    assert_eq!(fee.gas_limit, 150002);
    assert_eq!(fee.amount, 3751);

    let fee = gas_fee(0, &cfg("1.5", "0.025"));
    assert_eq!((fee.gas_limit, fee.amount), (0, 0));

    let fee = gas_fee(u64::MAX, &cfg("1.5", "2"));
    assert_eq!((fee.gas_limit, fee.amount), (u64::MAX, u64::MAX));
}

#[test]
fn gas_limit_covers_the_gas_used() {
    for gas_used in [0, 1, 7, 100001, u64::MAX / 2, u64::MAX] {
        for adjustment in ["1", "1.0", "1.000000000000000001", "1.3", "2", "18446744073709551615"] {
            assert!(gas_fee(gas_used, &cfg(adjustment, "0.025")).gas_limit >= gas_used);
        }
    }
    assert_eq!(gas_fee(100001, &cfg("1", "0")).gas_limit, 100001);
    assert_eq!(gas_fee(100001, &cfg("1.000000000000000001", "0")).gas_limit, 100002);
    assert_eq!(gas_fee(100000, &cfg("0.5", "0")).gas_limit, 50000);
}

#[test]
fn resolved_fee_is_the_gas_fee() {
    let account = Account {
        address: "juno1".to_string(),
        account_number: 3,
        sequence: 8,
    };
    let msg = AnyMsg {
        type_url: "/x".to_string(),
        value: vec![1],
    };
    let tx = BuiltTx::new(msg.clone(), account.clone());
    let tx = tx.resolve_fee(100000, &cfg("1.5", "0.025"));
    assert_eq!(tx.msg, msg);
    assert_eq!(tx.account, account);
    assert_eq!(tx.fee.gas_limit, 150000);
    assert_eq!(tx.fee.amount, 3750);
    assert_eq!(tx.fee.denom, "ujuno");
}

#[test]
fn abci_query_rejects_error_codes() {
    let ok = AbciQuery {
        code: Code::Success,
        value: vec![1],
        log: "fine".to_string(),
    };
    assert_eq!(abci_query(ok.clone()), Ok(ok));
    let bad = AbciQuery {
        code: Code::Error(18),
        value: vec![1],
        log: "bad".to_string(),
    };
    assert_eq!(
        abci_query(bad),
        Err(ClientError::CosmosSdk {
            res: ChainResponse {
                code: Code::Error(18),
                data: Some(vec![1]),
                log: "bad".to_string(),
                gas_wanted: 0,
                gas_used: 0,
            }
        })
    );
}

#[test]
fn account_request_encodes_the_address() {
    let req = account_request("juno1abc").unwrap();
    assert_eq!(req.path, "/cosmos.auth.v1beta1.Query/Account");
    let decoded = QueryAccountRequest::decode(req.data.as_slice()).unwrap();
    assert_eq!(decoded.address, "juno1abc");
    assert_ne!(req.data, b"juno1abc".to_vec());
}

fn account_answer(account: Option<Any>) -> AbciQuery {
    AbciQuery {
        code: Code::Success,
        value: QueryAccountResponse { account }.to_bytes().unwrap(),
        log: "".to_string(),
    }
}

#[test]
fn account_is_read_from_the_answer() {
    let base = BaseAccount {
        address: "juno1abc".to_string(),
        pub_key: None,
        account_number: 1221,
        sequence: 4,
    };
    let answer = account_answer(Some(Any {
        type_url: "/cosmos.auth.v1beta1.BaseAccount".to_string(),
        value: base.to_bytes().unwrap(),
    }));
    assert_eq!(
        account(&answer, "juno1abc"),
        Ok(Account {
            address: "juno1abc".to_string(),
            account_number: 1221,
            sequence: 4,
        })
    );
}

#[test]
fn account_errors() {
    assert_eq!(
        account(&account_answer(None), "juno1abc"),
        Err(ClientError::AccountId {
            id: "juno1abc".to_string()
        })
    );
    let garbage = AbciQuery {
        code: Code::Success,
        value: vec![0xff, 0xff, 0xff],
        log: "".to_string(),
    };
    assert!(matches!(
        account(&garbage, "juno1abc"),
        Err(ClientError::ProtoDecoding { message }) if !message.is_empty()
    ));
    let inner_garbage = account_answer(Some(Any {
        type_url: "/cosmos.auth.v1beta1.BaseAccount".to_string(),
        value: vec![0xff, 0xff, 0xff],
    }));
    assert!(matches!(
        account(&inner_garbage, "juno1abc"),
        Err(ClientError::ProtoDecoding { .. })
    ));
}

#[test]
fn simulation_error_carries_the_status() {
    assert_eq!(
        simulation_error(3, "invalid".to_string()),
        ClientError::CosmosSdk {
            res: ChainResponse {
                code: Code::Error(3),
                data: None,
                log: "invalid".to_string(),
                gas_wanted: 0,
                gas_used: 0,
            }
        }
    );
}

fn built() -> BuiltTx {
    BuiltTx::new(
        AnyMsg {
            type_url: "/cosmwasm.wasm.v1.MsgExecuteContract".to_string(),
            value: vec![1, 2, 3],
        },
        Account {
            address: "juno1abc".to_string(),
            account_number: 1,
            sequence: 2,
        },
    )
}

#[test]
fn signing_checks_the_denomination_first() {
    let mut c = cfg("1.5", "0.025");
    c.denom = "u".to_string();
    c.chain_id = "".to_string();
    assert_eq!(
        built().simulation_tx(&key(), &c),
        Err(ClientError::Denom {
            name: "u".to_string()
        })
    );
    assert_eq!(
        built().resolve_fee(10, &c).sign(&key(), &c).unwrap_err(),
        ClientError::Denom {
            name: "u".to_string()
        }
    );
    for denom in ["ab", "u juno", "ujunö", &"a".repeat(129)] {
        c.denom = denom.to_string();
        assert!(matches!(
            built().simulation_tx(&key(), &c),
            Err(ClientError::Denom { .. })
        ));
    }
    for denom in ["abc", "ibc/9F53D255", "a.b:c_d-e", &"a".repeat(128)] {
        c.denom = denom.to_string();
        assert!(matches!(
            built().simulation_tx(&key(), &c),
            Err(ClientError::ChainId { .. })
        ));
    }
}

#[test]
fn signing_checks_the_chain_id() {
    let mut c = cfg("1.5", "0.025");
    for chain_id in ["", "test 1", "tést", "a/b", &"a".repeat(51)] {
        c.chain_id = chain_id.to_string();
        assert_eq!(
            built().simulation_tx(&key(), &c),
            Err(ClientError::ChainId {
                chain_id: chain_id.to_string()
            })
        );
    }
    for chain_id in ["a", "juno-1", "test_net.2", &"a".repeat(50)] {
        c.chain_id = chain_id.to_string();
        assert!(built().simulation_tx(&key(), &c).is_ok());
    }
}

#[test]
fn signing_needs_a_private_key() {
    let c = cfg("1.5", "0.025");
    let no_key = PrivateKey { bytes: vec![0; 32] };
    assert!(matches!(
        built().simulation_tx(&no_key, &c),
        Err(ClientError::Crypto { message }) if !message.is_empty()
    ));
    let short_key = PrivateKey { bytes: vec![1; 5] };
    assert!(matches!(
        built().simulation_tx(&short_key, &c),
        Err(ClientError::Crypto { .. })
    ));
}

#[test]
fn signed_transaction_holds_body_fee_and_sequence() {
    let c = cfg("1.5", "0.025");
    let tx = built().resolve_fee(100000, &c).sign(&key(), &c).unwrap();
    assert_eq!(tx.fee.gas_limit, 150000);
    assert_eq!(tx.account.sequence, 2);
    let raw = cosmrs::tx::Raw::from_bytes(&tx.tx_bytes).unwrap();
    let parsed = cosmrs::Tx::from_bytes(&raw.to_bytes().unwrap()).unwrap();
    assert_eq!(parsed.body.memo, "MEMO");
    assert_eq!(parsed.body.timeout_height.value(), 0);
    assert_eq!(parsed.body.messages.len(), 1);
    assert_eq!(
        parsed.body.messages[0].type_url,
        "/cosmwasm.wasm.v1.MsgExecuteContract"
    );
    assert_eq!(parsed.body.messages[0].value, vec![1, 2, 3]);
    assert_eq!(parsed.auth_info.fee.gas_limit, 150000);
    assert_eq!(parsed.auth_info.fee.amount.len(), 1);
    assert_eq!(parsed.auth_info.fee.amount[0].amount, 3750);
    assert_eq!(parsed.auth_info.fee.amount[0].denom.as_ref(), "ujuno");
    assert_eq!(parsed.auth_info.signer_infos.len(), 1);
    assert_eq!(parsed.auth_info.signer_infos[0].sequence, 2);
    assert_eq!(parsed.signatures.len(), 1);

    let simulation = built().simulation_tx(&key(), &c).unwrap();
    let parsed = cosmrs::Tx::from_bytes(&simulation).unwrap();
    assert_eq!(parsed.auth_info.fee.gas_limit, 0);
    assert_eq!(parsed.auth_info.fee.amount[0].amount, 0);
    assert_eq!(parsed.auth_info.signer_infos[0].sequence, 2);
    assert_eq!(parsed.body.memo, "MEMO");
}

#[test]
fn commit_result_checks_both_phases_in_order() {
    let ok = commit(Code::Success, Code::Success, vec![]);
    assert_eq!(commit_result(ok.clone()), Ok(ok));

    let res = commit_result(commit(Code::Error(4), Code::Error(5), vec![]));
    match res.unwrap_err() {
        ClientError::CosmosSdk { res } => {
            assert_eq!(res.code, Code::Error(4));
            assert_eq!(res.log, "check");
            assert_eq!((res.gas_wanted, res.gas_used), (7, 5));
            assert_eq!(res.data, Some(vec![1, 2]));
        }
        e => panic!("unexpected error: {:?}", e),
    }

    let res = commit_result(commit(Code::Success, Code::Error(5), vec![]));
    match res.unwrap_err() {
        ClientError::CosmosSdk { res } => {
            assert_eq!(res.code, Code::Error(5));
            assert_eq!(res.log, "deliver");
        }
        e => panic!("unexpected error: {:?}", e),
    }
}

#[test]
fn find_event_returns_the_first_match() {
    let res = commit(
        Code::Success,
        Code::Success,
        vec![
            event("message", &[("action", "store")]),
            event("store_code", &[("code_id", "1")]),
            event("store_code", &[("code_id", "2")]),
        ],
    );
    let found = find_event(&res, "store_code").unwrap();
    assert_eq!(found.attributes[0].value, "1");
    assert_eq!(find_event(&res, "message").unwrap().attributes[0].value, "store");
    assert!(find_event(&res, "instantiate").is_none());
    assert!(find_event(&res, "store").is_none());
    assert!(find_event(&commit(Code::Success, Code::Success, vec![]), "x").is_none());
}

#[test]
fn find_event_looks_at_the_delivery_only() {
    let mut res = commit(Code::Success, Code::Success, vec![]);
    res.check_tx.events = vec![event("store_code", &[("code_id", "1")])];
    assert!(find_event(&res, "store_code").is_none());
}

#[test]
fn find_attribute_returns_the_first_match() {
    let e = event("e", &[("a", "1"), ("b", "2"), ("a", "3")]);
    assert_eq!(find_attribute(&e, "a").unwrap(), "1");
    assert_eq!(find_attribute(&e, "b").unwrap(), "2");
    assert!(find_attribute(&e, "c").is_none());
    assert!(find_attribute(&event("e", &[]), "a").is_none());
}

#[test]
fn event_attribute_looks_in_the_first_event_only() {
    let res = commit(
        Code::Success,
        Code::Success,
        vec![
            event("store_code", &[("other", "1")]),
            event("store_code", &[("code_id", "2")]),
        ],
    );
    assert!(event_attribute(&res, "store_code", "code_id").is_none());
    assert_eq!(event_attribute(&res, "store_code", "other").unwrap(), "1");
    assert!(event_attribute(&res, "instantiate", "other").is_none());
}

#[test]
fn store_response_reads_the_code_id() {
    let res = commit(
        Code::Success,
        Code::Success,
        vec![event("store_code", &[("code_id", "42")])],
    );
    let res = CosmWasmClient::store_response(res).unwrap();
    assert_eq!(res.code_id, 42);
    assert_eq!(res.tx_hash, "HASH");
    assert_eq!(res.height, 99);
    assert_eq!(res.res.log, "deliver");
    assert_eq!(res.res.gas_used, 5);
    assert_eq!(res.data().unwrap(), &vec![1, 2]);
}

#[test]
fn store_response_without_code_id() {
    for events in [
        vec![],
        vec![event("instantiate", &[("code_id", "42")])],
        vec![event("store_code", &[("id", "42")])],
        vec![event("store_code", &[("code_id", "forty-two")])],
        vec![event("store_code", &[("code_id", "")])],
        vec![event("store_code", &[("code_id", "18446744073709551616")])],
    ] {
        assert!(CosmWasmClient::store_response(commit(Code::Success, Code::Success, events)).is_none());
    }
}

#[test]
fn instantiate_response_reads_the_address() {
    let res = commit(
        Code::Success,
        Code::Success,
        vec![
            event("message", &[]),
            event("instantiate", &[("code_id", "1"), ("_contract_address", "cosmos1abc")]),
        ],
    );
    let res = CosmWasmClient::instantiate_response(res).unwrap();
    assert_eq!(res.address, "cosmos1abc");
    assert_eq!(res.tx_hash, "HASH");
    assert_eq!(res.height, 99);
    assert_eq!(res.res.gas_wanted, 7);
    assert!(CosmWasmClient::instantiate_response(commit(
        Code::Success,
        Code::Success,
        vec![event("instantiate", &[("code_id", "1")])]
    ))
    .is_none());
}

#[test]
fn execute_and_migrate_responses() {
    let res = CosmWasmClient::execute_response(commit(Code::Success, Code::Success, vec![]));
    assert_eq!((res.tx_hash.as_str(), res.height, res.res.gas_used), ("HASH", 99, 5));
    let res = CosmWasmClient::migrate_response(commit(Code::Success, Code::Success, vec![]));
    assert_eq!((res.tx_hash.as_str(), res.height, res.res.gas_used), ("HASH", 99, 5));
    assert_eq!(res.res.log, "deliver");
}

fn client() -> CosmWasmClient {
    CosmWasmClient::new(cfg("1.5", "0.025"))
}

fn sender() -> String {
    cosm_orc::config::key::account_address(&key(), "juno").unwrap()
}

#[test]
fn store_message() {
    let perms = AccessConfig {
        permission: AccessType::AnyOfAddresses,
        addresses: vec![CONTRACT.to_string()],
    };
    let msg = client().store(vec![0, 97, 115, 109], &key(), Some(perms)).unwrap();
    assert_eq!(msg.type_url, "/cosmwasm.wasm.v1.MsgStoreCode");
    let decoded = MsgStoreCode::decode(msg.value.as_slice()).unwrap();
    assert_eq!(decoded.sender, sender());
    assert_eq!(decoded.wasm_byte_code, vec![0, 97, 115, 109]);
    let permission = decoded.instantiate_permission.unwrap();
    assert_eq!(permission.permission, 4);
    assert_eq!(permission.addresses, vec![CONTRACT.to_string()]);

    let msg = client().store(vec![1], &key(), None).unwrap();
    let decoded = MsgStoreCode::decode(msg.value.as_slice()).unwrap();
    assert!(decoded.instantiate_permission.is_none());

    for (permission, number) in [
        (AccessType::Unspecified, 0),
        (AccessType::Nobody, 1),
        (AccessType::Everybody, 3),
    ] {
        let perms = AccessConfig {
            permission,
            addresses: vec![],
        };
        let msg = client().store(vec![1], &key(), Some(perms)).unwrap();
        let decoded = MsgStoreCode::decode(msg.value.as_slice()).unwrap();
        assert_eq!(decoded.instantiate_permission.unwrap().permission, number);
    }
}

#[test]
fn store_message_with_bad_permissions() {
    let perms = AccessConfig {
        permission: AccessType::AnyOfAddresses,
        addresses: vec![CONTRACT.to_string(), "nobody".to_string()],
    };
    assert!(matches!(
        client().store(vec![1], &key(), Some(perms)),
        Err(ClientError::InstantiatePerms { message }) if !message.is_empty()
    ));
}

#[test]
fn instantiate_message() {
    let funds = vec![Coin {
        denom: "ujuno".to_string(),
        amount: 5,
    }];
    let msg = client()
        .instantiate(7, b"{}".to_vec(), &key(), Some(CONTRACT.to_string()), funds)
        .unwrap();
    assert_eq!(msg.type_url, "/cosmwasm.wasm.v1.MsgInstantiateContract");
    let decoded = MsgInstantiateContract::decode(msg.value.as_slice()).unwrap();
    assert_eq!(decoded.sender, sender());
    assert_eq!(decoded.admin, CONTRACT);
    assert_eq!(decoded.code_id, 7);
    assert_eq!(decoded.label, "cosm-orc");
    assert_eq!(decoded.msg, b"{}".to_vec());
    assert_eq!(decoded.funds.len(), 1);
    assert_eq!(decoded.funds[0].denom, "ujuno");
    assert_eq!(decoded.funds[0].amount, "5");
}

#[test]
fn instantiate_message_errors() {
    let bad_funds = vec![
        Coin {
            denom: "ujuno".to_string(),
            amount: 5,
        },
        Coin {
            denom: "x".to_string(),
            amount: 5,
        },
        Coin {
            denom: "y".to_string(),
            amount: 5,
        },
    ];
    assert_eq!(
        client().instantiate(7, vec![], &key(), Some("bad".to_string()), bad_funds),
        Err(ClientError::Denom {
            name: "x".to_string()
        })
    );
    assert_eq!(
        client().instantiate(7, vec![], &key(), Some("bad".to_string()), vec![]),
        Err(ClientError::AdminAddress)
    );
    let mut other = client();
    other.cfg.prefix = "UPPER".to_string();
    assert!(matches!(
        other.instantiate(7, vec![], &key(), None, vec![]),
        Err(ClientError::Crypto { .. })
    ));
}

#[test]
fn execute_message() {
    let funds = vec![Coin {
        denom: "ujuno".to_string(),
        amount: 9,
    }];
    let msg = client()
        .execute(CONTRACT.to_string(), b"{\"a\":1}".to_vec(), &key(), funds)
        .unwrap();
    assert_eq!(msg.type_url, "/cosmwasm.wasm.v1.MsgExecuteContract");
    let decoded = MsgExecuteContract::decode(msg.value.as_slice()).unwrap();
    assert_eq!(decoded.sender, sender());
    assert_eq!(decoded.contract, CONTRACT);
    assert_eq!(decoded.msg, b"{\"a\":1}".to_vec());
    assert_eq!(decoded.funds[0].amount, "9");

    assert_eq!(
        client().execute("juno1nope".to_string(), vec![], &key(), vec![]),
        Err(ClientError::AccountId {
            id: "juno1nope".to_string()
        })
    );
    assert_eq!(
        client().execute(
            "juno1nope".to_string(),
            vec![],
            &key(),
            vec![Coin {
                denom: "?".to_string(),
                amount: 1
            }]
        ),
        Err(ClientError::Denom {
            name: "?".to_string()
        })
    );
}

#[test]
fn migrate_message() {
    let msg = client()
        .migrate(CONTRACT.to_string(), 1338, b"{}".to_vec(), &key())
        .unwrap();
    assert_eq!(msg.type_url, "/cosmwasm.wasm.v1.MsgMigrateContract");
    let decoded = MsgMigrateContract::decode(msg.value.as_slice()).unwrap();
    assert_eq!(decoded.sender, sender());
    assert_eq!(decoded.contract, CONTRACT);
    assert_eq!(decoded.code_id, 1338);
    assert_eq!(decoded.msg, b"{}".to_vec());

    assert_eq!(
        client().migrate("".to_string(), 1338, vec![], &key()),
        Err(ClientError::AccountId { id: "".to_string() })
    );
}

#[test]
fn query_request_and_response() {
    let req = client().query(CONTRACT.to_string(), b"{\"q\":{}}".to_vec()).unwrap();
    assert_eq!(req.path, "/cosmwasm.wasm.v1.Query/SmartContractState");
    let decoded = QuerySmartContractStateRequest::decode(req.data.as_slice()).unwrap();
    assert_eq!(decoded.address, CONTRACT);
    assert_eq!(decoded.query_data, b"{\"q\":{}}".to_vec());

    let answer = AbciQuery {
        code: Code::Success,
        value: QuerySmartContractStateResponse {
            data: b"{\"n\":1}".to_vec(),
        }
        .to_bytes()
        .unwrap(),
        log: "ignored".to_string(),
    };
    let res = CosmWasmClient::query_response(&answer).unwrap();
    assert_eq!(res.res.code, Code::Success);
    assert_eq!(res.data().unwrap(), &b"{\"n\":1}".to_vec());
    assert_eq!(res.res.log, "");
    assert_ne!(res.res.data, Some(answer.value.clone()));

    let garbage = AbciQuery {
        code: Code::Success,
        value: vec![0xff, 0xff],
        log: "".to_string(),
    };
    assert!(matches!(
        CosmWasmClient::query_response(&garbage),
        Err(ClientError::ProtoDecoding { .. })
    ));
}

fn base_account_answer(sequence: u64) -> AbciQuery {
    let base = BaseAccount {
        address: "juno1abc".to_string(),
        pub_key: None,
        account_number: 9,
        sequence,
    };
    account_answer(Some(Any {
        type_url: "/cosmos.auth.v1beta1.BaseAccount".to_string(),
        value: base.to_bytes().unwrap(),
    }))
}

fn any_msg() -> AnyMsg {
    AnyMsg {
        type_url: "/cosmwasm.wasm.v1.MsgExecuteContract".to_string(),
        value: vec![1, 2, 3],
    }
}

fn rpc_down() -> ClientError {
    ClientError::RPC {
        message: "connection refused".to_string(),
    }
}

#[test]
fn send_tx_asks_for_the_account_first() {
    let (state, action) = send_tx(any_msg(), "juno1abc".to_string());
    assert!(matches!(
        &state,
        TxState::Built { msg, account_id } if *msg == any_msg() && account_id == "juno1abc"
    ));
    match action {
        TxAction::QueryAccount(request) => {
            assert_eq!(request, account_request("juno1abc").unwrap());
        }
        action => panic!("unexpected action: {:?}", action),
    }
}

#[test]
fn tx_steps_run_from_account_to_commit() {
    let c = cfg("1.5", "0.025");
    let (state, _) = send_tx(any_msg(), "juno1abc".to_string());

    let (state, action) = tx_step(state, TxEvent::Account(Ok(base_account_answer(4))), &key(), &c);
    let simulation = match action {
        TxAction::Simulate { tx_bytes } => tx_bytes,
        action => panic!("unexpected action: {:?}", action),
    };
    assert!(matches!(
        &state,
        TxState::Simulating { built } if built.account.sequence == 4 && built.msg == any_msg()
    ));
    let parsed = cosmrs::Tx::from_bytes(&simulation).unwrap();
    assert_eq!(parsed.auth_info.fee.gas_limit, 0);
    assert_eq!(parsed.auth_info.signer_infos[0].sequence, 4);

    let (state, action) = tx_step(state, TxEvent::Simulated(Ok(100000)), &key(), &c);
    let broadcast = match action {
        TxAction::Broadcast { tx_bytes } => tx_bytes,
        action => panic!("unexpected action: {:?}", action),
    };
    assert!(matches!(
        &state,
        TxState::Broadcast { signed } if signed.fee.gas_limit == 150000
            && signed.fee.amount == 3750 && signed.account.sequence == 4
            && signed.tx_bytes == broadcast
    ));
    let parsed = cosmrs::Tx::from_bytes(&broadcast).unwrap();
    assert_eq!(parsed.auth_info.fee.gas_limit, 150000);
    assert_eq!(parsed.auth_info.fee.amount[0].amount, 3750);
    assert_eq!(parsed.auth_info.signer_infos[0].sequence, 4);
    assert_eq!(parsed.body.messages[0].value, vec![1, 2, 3]);

    let committed = commit(Code::Success, Code::Success, vec![]);
    let (state, action) = tx_step(state, TxEvent::Commit(Ok(committed.clone())), &key(), &c);
    assert!(matches!(state, TxState::Committed));
    assert!(matches!(action, TxAction::Return(Ok(res)) if res == committed));

    let (state, action) = tx_step(state, TxEvent::Simulated(Ok(1)), &key(), &c);
    assert!(matches!(state, TxState::Committed));
    assert!(matches!(action, TxAction::Nothing));
}

#[test]
fn tx_fails_with_the_failure_of_a_round_trip() {
    let c = cfg("1.5", "0.025");
    let (state, _) = send_tx(any_msg(), "juno1abc".to_string());
    let (state, action) = tx_step(state, TxEvent::Account(Err(rpc_down())), &key(), &c);
    assert!(matches!(state, TxState::Failed));
    assert!(matches!(action, TxAction::Return(Err(e)) if e == rpc_down()));

    let (state, _) = send_tx(any_msg(), "juno1abc".to_string());
    let (state, _) = tx_step(state, TxEvent::Account(Ok(base_account_answer(4))), &key(), &c);
    let (state, action) = tx_step(state, TxEvent::Simulated(Err(rpc_down())), &key(), &c);
    assert!(matches!(state, TxState::Failed));
    assert!(matches!(action, TxAction::Return(Err(e)) if e == rpc_down()));

    let (state, _) = send_tx(any_msg(), "juno1abc".to_string());
    let (state, _) = tx_step(state, TxEvent::Account(Ok(base_account_answer(4))), &key(), &c);
    let (state, _) = tx_step(state, TxEvent::Simulated(Ok(7)), &key(), &c);
    let (state, action) = tx_step(state, TxEvent::Commit(Err(rpc_down())), &key(), &c);
    assert!(matches!(state, TxState::Failed));
    assert!(matches!(action, TxAction::Return(Err(e)) if e == rpc_down()));

    let (state, action) = tx_step(state, TxEvent::Commit(Err(rpc_down())), &key(), &c);
    assert!(matches!(state, TxState::Failed));
    assert!(matches!(action, TxAction::Nothing));
}

#[test]
fn tx_fails_on_a_rejected_or_empty_account_answer() {
    let c = cfg("1.5", "0.025");
    let rejected = AbciQuery {
        code: Code::Error(22),
        value: vec![],
        log: "unknown address".to_string(),
    };
    let (state, _) = send_tx(any_msg(), "juno1abc".to_string());
    let (state, action) = tx_step(state, TxEvent::Account(Ok(rejected)), &key(), &c);
    assert!(matches!(state, TxState::Failed));
    assert!(matches!(
        action,
        TxAction::Return(Err(ClientError::CosmosSdk { res })) if res.code == Code::Error(22)
            && res.log == "unknown address"
    ));

    let (state, _) = send_tx(any_msg(), "juno1abc".to_string());
    let (_, action) = tx_step(state, TxEvent::Account(Ok(account_answer(None))), &key(), &c);
    assert!(matches!(
        action,
        TxAction::Return(Err(ClientError::AccountId { id })) if id == "juno1abc"
    ));
}

#[test]
fn tx_fails_where_it_cannot_be_signed() {
    let mut c = cfg("1.5", "0.025");
    c.chain_id = "bad id".to_string();
    let (state, _) = send_tx(any_msg(), "juno1abc".to_string());
    let (state, action) = tx_step(state, TxEvent::Account(Ok(base_account_answer(4))), &key(), &c);
    assert!(matches!(state, TxState::Failed));
    assert!(matches!(
        action,
        TxAction::Return(Err(ClientError::ChainId { chain_id })) if chain_id == "bad id"
    ));
}

#[test]
fn tx_fails_on_a_rejection_in_either_phase() {
    let c = cfg("1.5", "0.025");
    for (check, deliver, code) in [
        (Code::Error(4), Code::Success, Code::Error(4)),
        (Code::Success, Code::Error(5), Code::Error(5)),
        (Code::Error(4), Code::Error(5), Code::Error(4)),
    ] {
        let (state, _) = send_tx(any_msg(), "juno1abc".to_string());
        let (state, _) = tx_step(state, TxEvent::Account(Ok(base_account_answer(4))), &key(), &c);
        let (state, _) = tx_step(state, TxEvent::Simulated(Ok(7)), &key(), &c);
        let res = commit(check, deliver, vec![]);
        let (state, action) = tx_step(state, TxEvent::Commit(Ok(res)), &key(), &c);
        assert!(matches!(state, TxState::Failed));
        assert!(matches!(
            action,
            TxAction::Return(Err(ClientError::CosmosSdk { res })) if res.code == code
        ));
    }
}

#[test]
fn tx_passes_over_an_event_that_it_does_not_wait_for() {
    let c = cfg("1.5", "0.025");
    let (state, _) = send_tx(any_msg(), "juno1abc".to_string());
    let (state, action) = tx_step(state, TxEvent::Simulated(Ok(7)), &key(), &c);
    assert!(matches!(&state, TxState::Built { account_id, .. } if account_id == "juno1abc"));
    assert!(matches!(action, TxAction::Nothing));
    let (state, action) = tx_step(
        state,
        TxEvent::Commit(Ok(commit(Code::Success, Code::Success, vec![]))),
        &key(),
        &c,
    );
    assert!(matches!(state, TxState::Built { .. }));
    assert!(matches!(action, TxAction::Nothing));
}
