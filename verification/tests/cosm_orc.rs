use cosm_orc::client::chain_res::{
    AbciQuery, Code, Event, ExecResponse, InstantiateResponse, MigrateResponse, QueryResponse,
    Tag, TxCommitResponse, TxResult,
};
use cosm_orc::client::cosmos::{self, abci_query, tx_step, AnyMsg, TxAction, TxEvent, TxState};
use cosm_orc::client::cosmwasm::CosmWasmClient;
use cosm_orc::client::error::ClientError;
use cosm_orc::config::cfg::ChainCfg;
use cosm_orc::config::key::{account_address, mnemonic_to_signing_key, PrivateKey};
use cosm_orc::orchestrator::cosm_orc::CosmOrc;
use cosm_orc::orchestrator::deploy::DeployInfo;
use cosm_orc::orchestrator::error::{ContractMapError, ProcessError};
use cosm_orc::orchestrator::gas_profiler::CallLoc;
use cosm_orc::util::decimal::Decimal;
use cosmrs::proto::cosmos::auth::v1beta1::{BaseAccount, QueryAccountResponse};
use cosmrs::proto::cosmwasm::wasm::v1::QuerySmartContractStateResponse;
use cosmrs::proto::traits::MessageExt;
use cosmrs::proto::Any;

const MNEMONIC: &str = "abandon abandon abandon abandon abandon abandon abandon abandon abandon abandon abandon abandon abandon abandon abandon abandon abandon abandon abandon abandon abandon abandon abandon art";

const CONTRACT: &str = "juno1ft5zfffrgtm2u72cup9e2ecfxjwz8ztc929cgj";

fn test_cfg() -> ChainCfg {
    ChainCfg {
        denom: "utest".to_string(),
        prefix: "test".to_string(),
        chain_id: "test-1".to_string(),
        rpc_endpoint: "".to_string(),
        grpc_endpoint: "localhost:12690".to_string(),
        gas_prices: Decimal::parse("0.1").unwrap(),
        gas_adjustment: Decimal::parse("1.5").unwrap(),
    }
}

fn test_key() -> PrivateKey {
    mnemonic_to_signing_key(MNEMONIC).unwrap()
}

fn here() -> CallLoc {
    CallLoc {
        file_name: "tests/cosm_orc.rs".to_string(),
        line_number: 7,
    }
}

/// The answers of a chain that is no chain: what the account query, the gas
/// simulation and the broadcast are answered with, and how many of them
/// were asked.
struct MockChain {
    account: Option<AbciQuery>,
    gas_used: Option<u64>,
    commit: Option<TxCommitResponse>,
    calls: usize,
}

impl MockChain {
    fn silent() -> MockChain {
        MockChain {
            account: None,
            gas_used: None,
            commit: None,
            calls: 0,
        }
    }

    fn answering(log: &str, data: Option<Vec<u8>>) -> MockChain {
        MockChain {
            account: Some(account_answer()),
            gas_used: Some(100),
            commit: Some(commit_answer(log, data)),
            calls: 0,
        }
    }

    fn rejecting_account() -> MockChain {
        MockChain {
            account: Some(AbciQuery {
                code: Code::Error(1),
                value: vec![],
                log: "error".to_string(),
            }),
            gas_used: None,
            commit: None,
            calls: 0,
        }
    }
}

fn account_answer() -> AbciQuery {
    let account = BaseAccount {
        address: "juno10j9gpw9t4jsz47qgnkvl5n3zlm2fz72k67rxsg".to_string(),
        pub_key: None,
        account_number: 1221,
        sequence: 1,
    };
    let res = QueryAccountResponse {
        account: Some(Any {
            type_url: "/cosmos.auth.v1beta1.BaseAccount".to_string(),
            value: account.to_bytes().unwrap(),
        }),
    };
    AbciQuery {
        code: Code::Success,
        value: res.to_bytes().unwrap(),
        log: "".to_string(),
    }
}

fn commit_answer(log: &str, data: Option<Vec<u8>>) -> TxCommitResponse {
    TxCommitResponse {
        check_tx: TxResult {
            code: Code::Success,
            data: None,
            log: "".to_string(),
            gas_wanted: 0,
            gas_used: 0,
            events: vec![],
        },
        deliver_tx: TxResult {
            code: Code::Success,
            data,
            log: log.to_string(),
            gas_wanted: 101,
            gas_used: 100,
            events: vec![Event {
                type_str: "instantiate".to_string(),
                attributes: vec![Tag {
                    key: "_contract_address".to_string(),
                    value: CONTRACT.to_string(),
                }],
            }],
        },
        hash: "TX_HASH_0".to_string(),
        height: 1234,
    }
}

/// Sends a message through the transaction pipeline, with the mock chain in
/// the place of the round trips.
fn send_tx(
    chain: &mut MockChain,
    msg: AnyMsg,
    key: &PrivateKey,
    cfg: &ChainCfg,
) -> Result<TxCommitResponse, ClientError> {
    let sender = account_address(key, &cfg.prefix)?;
    let (mut state, mut action) = cosmos::send_tx(msg, sender);
    let mut simulation = vec![];
    loop {
        let event = match action {
            TxAction::QueryAccount(request) => {
                assert_eq!(request.path, "/cosmos.auth.v1beta1.Query/Account");
                chain.calls += 1;
                TxEvent::Account(Ok(chain.account.take().unwrap()))
            }
            TxAction::Simulate { tx_bytes } => {
                assert!(!tx_bytes.is_empty());
                simulation = tx_bytes;
                chain.calls += 1;
                TxEvent::Simulated(Ok(chain.gas_used.take().unwrap()))
            }
            TxAction::Broadcast { tx_bytes } => {
                assert!(!tx_bytes.is_empty());
                assert_ne!(tx_bytes, simulation);
                match &state {
                    TxState::Broadcast { signed } => {
                        assert_eq!(signed.tx_bytes, tx_bytes);
                        assert_eq!(signed.account.account_number, 1221);
                        assert_eq!(signed.account.sequence, 1);
                        assert_eq!(signed.fee.gas_limit, 150);
                        assert_eq!(signed.fee.amount, 15);
                    }
                    state => panic!("unexpected state: {:?}", state),
                }
                chain.calls += 1;
                TxEvent::Commit(Ok(chain.commit.take().unwrap()))
            }
            TxAction::Return(result) => return result,
            TxAction::Nothing => panic!("the pipeline waits for another event"),
        };
        (state, action) = tx_step(state, event, key, cfg);
    }
}

fn run_instantiate(
    orc: &mut CosmOrc,
    chain: &mut MockChain,
    contract_name: &str,
    op_name: &str,
) -> Result<InstantiateResponse, ProcessError> {
    let cfg = test_cfg();
    let key = test_key();
    let client = CosmWasmClient::new(cfg.clone());
    let code_id = orc.instantiate(contract_name)?;
    let outcome = client
        .instantiate(code_id, b"{}".to_vec(), &key, None, vec![])
        .and_then(|msg| send_tx(chain, msg, &key, &cfg))
        .map(|tx_res| CosmWasmClient::instantiate_response(tx_res).unwrap());
    orc.instantiated(
        contract_name.to_string(),
        op_name.to_string(),
        outcome,
        &here(),
    )
}

fn run_execute(
    orc: &mut CosmOrc,
    chain: &mut MockChain,
    contract_name: &str,
    op_name: &str,
) -> Result<ExecResponse, ProcessError> {
    let cfg = test_cfg();
    let key = test_key();
    let client = CosmWasmClient::new(cfg.clone());
    let address = orc.execute(contract_name)?;
    let outcome = client
        .execute(address, b"{}".to_vec(), &key, vec![])
        .and_then(|msg| send_tx(chain, msg, &key, &cfg))
        .map(CosmWasmClient::execute_response);
    orc.executed(
        contract_name.to_string(),
        op_name.to_string(),
        outcome,
        &here(),
    )
}

fn run_query(
    orc: &CosmOrc,
    chain: &mut MockChain,
    contract_name: &str,
    answer: AbciQuery,
) -> Result<QueryResponse, ProcessError> {
    let client = CosmWasmClient::new(test_cfg());
    let address = orc.query(contract_name)?;
    let outcome = client.query(address, b"{}".to_vec()).and_then(|request| {
        assert_eq!(request.path, "/cosmwasm.wasm.v1.Query/SmartContractState");
        chain.calls += 1;
        let answer = abci_query(answer)?;
        CosmWasmClient::query_response(&answer)
    });
    orc.queried(outcome)
}

fn run_migrate(
    orc: &mut CosmOrc,
    chain: &mut MockChain,
    contract_name: &str,
    new_code_id: u64,
    op_name: &str,
) -> Result<MigrateResponse, ProcessError> {
    let cfg = test_cfg();
    let key = test_key();
    let client = CosmWasmClient::new(cfg.clone());
    let address = orc.migrate(contract_name)?;
    let outcome = client
        .migrate(address, new_code_id, b"{}".to_vec(), &key)
        .and_then(|msg| send_tx(chain, msg, &key, &cfg))
        .map(CosmWasmClient::migrate_response);
    orc.migrated(
        contract_name.to_string(),
        new_code_id,
        op_name.to_string(),
        outcome,
        &here(),
    )
}

fn stored_cw_test() -> Vec<(String, DeployInfo)> {
    vec![(
        "cw_test".to_string(),
        DeployInfo {
            code_id: Some(1337),
            address: None,
        },
    )]
}

#[test]
fn instantiate_not_stored() {
    let mut chain = MockChain::silent();
    let mut cosm_orc = CosmOrc::new(Vec::new(), false);

    let res = run_instantiate(&mut cosm_orc, &mut chain, "cw_not_stored", "i_test");

    assert!(matches!(
        res.unwrap_err(),
        ProcessError::ContractMapError(e) if e == ContractMapError::NotStored{name: "cw_not_stored".to_string()}
    ));

    assert_eq!(
        cosm_orc.contract_map.address("cw_not_stored").unwrap_err(),
        ContractMapError::NotStored {
            name: "cw_not_stored".to_string()
        }
    );

    assert!(cosm_orc.gas_profiler_report().is_none());
    assert_eq!(chain.calls, 0);
}

#[test]
fn instantiate_cosmossdk_error() {
    let mut chain = MockChain::rejecting_account();
    let mut cosm_orc = CosmOrc::new(stored_cw_test(), false);

    let res = run_instantiate(&mut cosm_orc, &mut chain, "cw_test", "i_test");

    assert!(matches!(
        res.unwrap_err(),
        ProcessError::ClientError(ClientError::CosmosSdk { .. })
    ));

    assert_eq!(
        cosm_orc.contract_map.address("cw_test").unwrap_err(),
        ContractMapError::NotDeployed {
            name: "cw_test".to_string()
        }
    );

    assert!(cosm_orc.gas_profiler_report().is_none());
    assert_eq!(chain.calls, 1);
}

#[test]
fn instantiate() {
    let mut chain = MockChain::answering("log log log", None);
    let mut cosm_orc = CosmOrc::new(stored_cw_test(), false);

    assert_eq!(
        cosm_orc.contract_map.address("cw_test").unwrap_err(),
        ContractMapError::NotDeployed {
            name: "cw_test".to_string()
        }
    );

    let res = run_instantiate(&mut cosm_orc, &mut chain, "cw_test", "i_test").unwrap();

    assert_eq!(res.res.code, Code::Success);
    assert_eq!(res.res.data, None);
    assert_eq!(res.res.log, "log log log".to_string());
    assert_eq!(res.height, 1234);
    assert_eq!(res.tx_hash, "TX_HASH_0".to_string());
    assert_eq!(res.res.gas_used, 100);
    assert_eq!(res.res.gas_wanted, 101);

    assert_eq!(
        cosm_orc.contract_map.address("cw_test").unwrap(),
        "juno1ft5zfffrgtm2u72cup9e2ecfxjwz8ztc929cgj".to_string()
    );

    assert!(cosm_orc.gas_profiler_report().is_none());
    assert_eq!(chain.calls, 3);
}

#[test]
fn instantiate_with_profiler() {
    let mut chain = MockChain::answering("", None);
    let mut cosm_orc = CosmOrc::new(stored_cw_test(), true);

    assert_eq!(
        cosm_orc.contract_map.address("cw_test").unwrap_err(),
        ContractMapError::NotDeployed {
            name: "cw_test".to_string()
        }
    );

    let res = run_instantiate(&mut cosm_orc, &mut chain, "cw_test", "i_test").unwrap();

    assert_eq!(res.res.code, Code::Success);
    assert_eq!(res.res.data, None);
    assert_eq!(res.res.log, "".to_string());
    assert_eq!(res.res.gas_used, 100);
    assert_eq!(res.res.gas_wanted, 101);
    assert_eq!(res.height, 1234);
    assert_eq!(res.tx_hash, "TX_HASH_0".to_string());

    assert_eq!(
        cosm_orc.contract_map.address("cw_test").unwrap(),
        "juno1ft5zfffrgtm2u72cup9e2ecfxjwz8ztc929cgj".to_string()
    );

    let report = cosm_orc.gas_profiler_report().unwrap();
    assert_eq!(report.len(), 1);
    assert_eq!(report.get("cw_test").unwrap().len(), 1);

    let r = report
        .get("cw_test")
        .unwrap()
        .get("Instantiate__i_test")
        .unwrap();
    assert_eq!(r.gas_used, 100);
    assert_eq!(r.gas_wanted, 101);
}

#[test]
fn execute_not_stored() {
    let mut chain = MockChain::silent();
    let mut cosm_orc = CosmOrc::new(Vec::new(), false);

    let res = run_execute(&mut cosm_orc, &mut chain, "cw_not_stored", "e_test");

    assert!(matches!(
        res.unwrap_err(),
        ProcessError::ContractMapError(e) if e == ContractMapError::NotStored{name: "cw_not_stored".to_string()}
    ));

    assert_eq!(
        cosm_orc.contract_map.address("cw_not_stored").unwrap_err(),
        ContractMapError::NotStored {
            name: "cw_not_stored".to_string()
        }
    );

    assert!(cosm_orc.gas_profiler_report().is_none());
    assert_eq!(chain.calls, 0);
}

#[test]
fn execute_not_initialized() {
    let mut chain = MockChain::silent();
    let mut cosm_orc = CosmOrc::new(
        vec![(
            "cw_not_init".to_string(),
            DeployInfo {
                code_id: Some(1337),
                address: None,
            },
        )],
        false,
    );

    assert_eq!(
        cosm_orc.contract_map.address("cw_not_init").unwrap_err(),
        ContractMapError::NotDeployed {
            name: "cw_not_init".to_string()
        }
    );

    let res = run_execute(&mut cosm_orc, &mut chain, "cw_not_init", "e_test");

    assert!(matches!(
        res.unwrap_err(),
        ProcessError::ContractMapError(e) if e == ContractMapError::NotDeployed{name: "cw_not_init".to_string()}
    ));

    assert_eq!(
        cosm_orc.contract_map.address("cw_not_init").unwrap_err(),
        ContractMapError::NotDeployed {
            name: "cw_not_init".to_string()
        }
    );

    assert!(cosm_orc.gas_profiler_report().is_none());
    assert_eq!(chain.calls, 0);
}

#[test]
fn execute_cosmossdk_error() {
    let mut chain = MockChain::answering("", Some(vec![]));
    let mut cosm_orc = CosmOrc::new(stored_cw_test(), false);

    assert_eq!(
        cosm_orc.contract_map.address("cw_test").unwrap_err(),
        ContractMapError::NotDeployed {
            name: "cw_test".to_string()
        }
    );

    let res = run_instantiate(&mut cosm_orc, &mut chain, "cw_test", "i_test").unwrap();

    assert_eq!(res.res.code, Code::Success);
    assert_eq!(res.res.data, Some(vec![]));
    assert_eq!(res.res.log, "".to_string());
    assert_eq!(res.res.gas_used, 100);
    assert_eq!(res.res.gas_wanted, 101);

    assert_eq!(
        cosm_orc.contract_map.address("cw_test").unwrap(),
        "juno1ft5zfffrgtm2u72cup9e2ecfxjwz8ztc929cgj".to_string()
    );

    let mut chain = MockChain::rejecting_account();

    let res = run_execute(&mut cosm_orc, &mut chain, "cw_test", "e_test");

    assert!(matches!(
        res.unwrap_err(),
        ProcessError::ClientError(ClientError::CosmosSdk { .. })
    ));

    assert!(cosm_orc.gas_profiler_report().is_none());
}

#[test]
fn execute() {
    let mut chain = MockChain::answering("", Some(vec![]));
    let mut cosm_orc = CosmOrc::new(stored_cw_test(), false);

    assert_eq!(
        cosm_orc.contract_map.address("cw_test").unwrap_err(),
        ContractMapError::NotDeployed {
            name: "cw_test".to_string()
        }
    );

    let res = run_instantiate(&mut cosm_orc, &mut chain, "cw_test", "i_test").unwrap();

    assert_eq!(res.res.code, Code::Success);
    assert_eq!(res.res.data, Some(vec![]));
    assert_eq!(res.res.log, "".to_string());
    assert_eq!(res.res.gas_used, 100);
    assert_eq!(res.res.gas_wanted, 101);

    assert_eq!(
        cosm_orc.contract_map.address("cw_test").unwrap(),
        "juno1ft5zfffrgtm2u72cup9e2ecfxjwz8ztc929cgj".to_string()
    );

    let mut chain = MockChain::answering("", Some(vec![]));
    let res = run_execute(&mut cosm_orc, &mut chain, "cw_test", "e_test").unwrap();

    assert_eq!(res.res.code, Code::Success);
    assert_eq!(res.res.data, Some(vec![]));
    assert_eq!(res.res.log, "".to_string());
    assert_eq!(res.res.gas_used, 100);
    assert_eq!(res.res.gas_wanted, 101);

    assert!(cosm_orc.gas_profiler_report().is_none());
    assert_eq!(chain.calls, 3);
}

#[test]
fn execute_with_profiler() {
    let mut chain = MockChain::answering("", Some(vec![]));
    let mut cosm_orc = CosmOrc::new(stored_cw_test(), true);

    assert_eq!(
        cosm_orc.contract_map.address("cw_test").unwrap_err(),
        ContractMapError::NotDeployed {
            name: "cw_test".to_string()
        }
    );

    let res = run_instantiate(&mut cosm_orc, &mut chain, "cw_test", "i_test").unwrap();

    assert_eq!(res.res.code, Code::Success);
    assert_eq!(res.res.data, Some(vec![]));
    assert_eq!(res.res.log, "".to_string());
    assert_eq!(res.res.gas_used, 100);
    assert_eq!(res.res.gas_wanted, 101);

    assert_eq!(
        cosm_orc.contract_map.address("cw_test").unwrap(),
        "juno1ft5zfffrgtm2u72cup9e2ecfxjwz8ztc929cgj".to_string()
    );

    let report = cosm_orc.gas_profiler_report().unwrap();
    assert_eq!(report.len(), 1);
    assert_eq!(report.get("cw_test").unwrap().len(), 1);

    let r = report
        .get("cw_test")
        .unwrap()
        .get("Instantiate__i_test")
        .unwrap();
    assert_eq!(r.gas_used, 100);
    assert_eq!(r.gas_wanted, 101);

    let mut chain = MockChain::answering("", Some(vec![]));
    let res = run_execute(&mut cosm_orc, &mut chain, "cw_test", "e_test").unwrap();
    assert_eq!(res.res.code, Code::Success);
    assert_eq!(res.res.data, Some(vec![]));
    assert_eq!(res.res.log, "".to_string());
    assert_eq!(res.res.gas_used, 100);
    assert_eq!(res.res.gas_wanted, 101);

    let report = cosm_orc.gas_profiler_report().unwrap();
    assert_eq!(report.len(), 1);
    assert_eq!(report.get("cw_test").unwrap().len(), 2);

    let r = report
        .get("cw_test")
        .unwrap()
        .get("Execute__e_test")
        .unwrap();
    assert_eq!(r.gas_used, 100);
    assert_eq!(r.gas_wanted, 101);
}

fn contract_answer() -> AbciQuery {
    AbciQuery {
        code: Code::Success,
        value: QuerySmartContractStateResponse { data: vec![] }
            .to_bytes()
            .unwrap(),
        log: "".to_string(),
    }
}

#[test]
fn query_not_stored() {
    let mut chain = MockChain::silent();
    let cosm_orc = CosmOrc::new(Vec::new(), false);

    let res = run_query(&cosm_orc, &mut chain, "cw_not_stored", contract_answer());

    assert!(matches!(
        res.unwrap_err(),
        ProcessError::ContractMapError(e) if e == ContractMapError::NotStored{name: "cw_not_stored".to_string()}
    ));

    assert_eq!(
        cosm_orc.contract_map.address("cw_not_stored").unwrap_err(),
        ContractMapError::NotStored {
            name: "cw_not_stored".to_string()
        }
    );

    assert!(cosm_orc.gas_profiler_report().is_none());
    assert_eq!(chain.calls, 0);
}

#[test]
fn query_not_initialized() {
    let mut chain = MockChain::silent();
    let cosm_orc = CosmOrc::new(
        vec![(
            "cw_not_init".to_string(),
            DeployInfo {
                code_id: Some(1337),
                address: None,
            },
        )],
        false,
    );

    assert_eq!(
        cosm_orc.contract_map.address("cw_not_init").unwrap_err(),
        ContractMapError::NotDeployed {
            name: "cw_not_init".to_string()
        }
    );

    let res = run_query(&cosm_orc, &mut chain, "cw_not_init", contract_answer());

    assert!(matches!(
        res.unwrap_err(),
        ProcessError::ContractMapError(e) if e == ContractMapError::NotDeployed{name: "cw_not_init".to_string()}
    ));

    assert_eq!(
        cosm_orc.contract_map.address("cw_not_init").unwrap_err(),
        ContractMapError::NotDeployed {
            name: "cw_not_init".to_string()
        }
    );

    assert!(cosm_orc.gas_profiler_report().is_none());
    assert_eq!(chain.calls, 0);
}

#[test]
fn query_cosmossdk_error() {
    let mut chain = MockChain::answering("", Some(vec![]));
    let mut cosm_orc = CosmOrc::new(stored_cw_test(), false);

    assert_eq!(
        cosm_orc.contract_map.address("cw_test").unwrap_err(),
        ContractMapError::NotDeployed {
            name: "cw_test".to_string()
        }
    );

    let res = run_instantiate(&mut cosm_orc, &mut chain, "cw_test", "i_test").unwrap();

    assert_eq!(res.res.code, Code::Success);
    assert_eq!(res.res.data, Some(vec![]));
    assert_eq!(res.res.log, "".to_string());
    assert_eq!(res.res.gas_used, 100);
    assert_eq!(res.res.gas_wanted, 101);

    assert_eq!(
        cosm_orc.contract_map.address("cw_test").unwrap(),
        "juno1ft5zfffrgtm2u72cup9e2ecfxjwz8ztc929cgj".to_string()
    );

    let rejection = AbciQuery {
        code: Code::Error(1),
        value: vec![],
        log: "error".to_string(),
    };
    let res = run_query(&cosm_orc, &mut chain, "cw_test", rejection);

    assert!(matches!(res.unwrap_err(), ProcessError::ClientError(..)));

    assert!(cosm_orc.gas_profiler_report().is_none());
}

#[test]
fn query() {
    let mut chain = MockChain::answering("", Some(vec![]));
    let mut cosm_orc = CosmOrc::new(stored_cw_test(), false);

    assert_eq!(
        cosm_orc.contract_map.address("cw_test").unwrap_err(),
        ContractMapError::NotDeployed {
            name: "cw_test".to_string()
        }
    );

    let res = run_instantiate(&mut cosm_orc, &mut chain, "cw_test", "i_test").unwrap();

    assert_eq!(res.res.code, Code::Success);
    assert_eq!(res.res.data, Some(vec![]));
    assert_eq!(res.res.log, "".to_string());
    assert_eq!(res.res.gas_used, 100);
    assert_eq!(res.res.gas_wanted, 101);

    assert_eq!(
        cosm_orc.contract_map.address("cw_test").unwrap(),
        "juno1ft5zfffrgtm2u72cup9e2ecfxjwz8ztc929cgj".to_string()
    );
    assert!(cosm_orc.gas_profiler_report().is_none());

    let res = run_query(&cosm_orc, &mut chain, "cw_test", contract_answer()).unwrap();
    assert_eq!(res.res.code, Code::Success);
    assert_eq!(res.res.data, Some(vec![]));
    assert_eq!(res.res.log, "".to_string());

    assert!(cosm_orc.gas_profiler_report().is_none());
}

#[test]
fn migrate() {
    let mut chain = MockChain::answering("", Some(vec![]));
    let mut cosm_orc = CosmOrc::new(
        vec![(
            "cw_test".to_string(),
            DeployInfo {
                code_id: Some(1337),
                address: Some("juno1ft5zfffrgtm2u72cup9e2ecfxjwz8ztc929cgj".to_string()),
            },
        )],
        false,
    );

    let new_code_id = 1338;

    let res = run_migrate(&mut cosm_orc, &mut chain, "cw_test", new_code_id, "migrate_op")
        .unwrap();

    assert_eq!(res.res.code, Code::Success);
    assert_eq!(res.res.data, Some(vec![]));
    assert_eq!(res.res.log, "".to_string());
    assert_eq!(res.res.gas_used, 100);
    assert_eq!(res.res.gas_wanted, 101);

    assert_eq!(
        cosm_orc.contract_map.address("cw_test").unwrap(),
        "juno1ft5zfffrgtm2u72cup9e2ecfxjwz8ztc929cgj".to_string()
    );

    // code_id is the newly migrated id:
    assert_eq!(cosm_orc.contract_map.code_id("cw_test").unwrap(), 1338);

    assert!(cosm_orc.gas_profiler_report().is_none());
}

#[test]
fn delivery_rejection_leaves_the_tracker_unmodified() {
    let mut chain = MockChain::answering("", None);
    let mut commit = commit_answer("out of gas", None);
    commit.deliver_tx.code = Code::Error(11);
    chain.commit = Some(commit);
    let mut cosm_orc = CosmOrc::new(stored_cw_test(), true);

    let res = run_instantiate(&mut cosm_orc, &mut chain, "cw_test", "i_test");

    match res.unwrap_err() {
        ProcessError::ClientError(ClientError::CosmosSdk { res }) => {
            assert_eq!(res.code, Code::Error(11));
            assert_eq!(res.log, "out of gas");
            assert_eq!(res.gas_used, 100);
            assert_eq!(res.gas_wanted, 101);
        }
        e => panic!("unexpected error: {:?}", e),
    }
    assert_eq!(chain.calls, 3);
    assert_eq!(cosm_orc.contract_map.code_id("cw_test").unwrap(), 1337);
    assert_eq!(
        cosm_orc.contract_map.address("cw_test").unwrap_err(),
        ContractMapError::NotDeployed {
            name: "cw_test".to_string()
        }
    );
    assert_eq!(cosm_orc.gas_profiler_report().unwrap().len(), 0);
}

#[test]
fn store_registers_the_reported_code_id() {
    let mut commit = commit_answer("", None);
    commit.deliver_tx.events = vec![
        Event {
            type_str: "message".to_string(),
            attributes: vec![],
        },
        Event {
            type_str: "store_code".to_string(),
            attributes: vec![Tag {
                key: "code_id".to_string(),
                value: "42".to_string(),
            }],
        },
    ];
    let res = CosmWasmClient::store_response(commit).unwrap();
    assert_eq!(res.code_id, 42);

    let mut cosm_orc = CosmOrc::new(Vec::new(), true);
    let res = cosm_orc
        .store_contracts("my_contract-aarch64", "aarch64", Ok(res), &here())
        .unwrap();
    assert_eq!(res.code_id, 42);
    assert_eq!(cosm_orc.contract_map.code_id("my_contract").unwrap(), 42);
    let report = cosm_orc.gas_profiler_report().unwrap();
    let r = report.get("my_contract").unwrap().get("Store__Store").unwrap();
    assert_eq!(r.gas_used, 100);
    assert_eq!(r.gas_wanted, 101);
    assert_eq!(r.file_name, "tests/cosm_orc.rs");
    assert_eq!(r.line_number, 7);
}

#[test]
fn failed_store_registers_nothing() {
    let mut cosm_orc = CosmOrc::new(Vec::new(), true);
    let failure = ClientError::Crypto {
        message: "no key".to_string(),
    };
    let res = cosm_orc.store_contracts("my_contract", "x86_64", Err(failure), &here());
    assert!(matches!(
        res.unwrap_err(),
        cosm_orc::orchestrator::error::StoreError::ClientError(ClientError::Crypto { message })
            if message == "no key"
    ));
    assert!(cosm_orc.contract_map.deploy_info().is_empty());
    assert_eq!(cosm_orc.gas_profiler_report().unwrap().len(), 0);
}
