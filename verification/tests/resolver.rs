use cosmwasm_std::StdError;
use icns::resolver::contract::execute;
use icns::resolver::contract::execute_set_primary;
use icns::resolver::contract::execute_set_record;
use icns::resolver::contract::instantiate;
use icns::resolver::contract::is_admin;
use icns::resolver::contract::is_owner;
use icns::resolver::contract::query_address;
use icns::resolver::contract::query_addresses;
use icns::resolver::contract::query_admin;
use icns::resolver::contract::query_primary_name;
use icns::resolver::contract::set_record_decoded;
use icns::resolver::contract::Answers;
use icns::resolver::contract::ChainEnv;
use icns::resolver::crypto::adr36_digest;
use icns::resolver::crypto::SignatureCheck;
use icns::resolver::contract::query;
use icns::resolver::contract::QueryAnswer;
use icns::resolver::msg::QueryMsg;
use icns::resolver::error::ContractError;
use icns::resolver::msg::AddressHash;
use icns::resolver::msg::Adr36Info;
use icns::resolver::msg::ExecuteMsg;
use icns::resolver::msg::InstantiateMsg;
use icns::resolver::state::ResolverState;
use icns::response::Attribute;

const OSMO_ADDR: &str = "osmo1qqqsyqcyq5rqwzqfpg9scrgwpugpzysntdz28t";
const COSMOS_ADDR: &str = "cosmos1qqqsyqcyq5rqwzqfpg9scrgwpugpzysnrk363e";
const JUNO_ADDR: &str = "juno1qypqxpq9qcrsszg2pvxq6rs0zqg3yyc5fs09pq";

fn s(x: &str) -> String {
    x.to_string()
}

fn fresh() -> ResolverState {
    let (state, response) = instantiate(InstantiateMsg { name_address: s("names") }, Ok(())).unwrap();
    assert!(response.attributes.is_empty());
    state
}

fn info(address: &str, signature: &[u8]) -> Adr36Info {
    Adr36Info {
        bech32_address: s(address),
        address_hash: AddressHash::SHA256,
        pub_key: vec![2, 3],
        signature: signature.to_vec(),
    }
}

const SALT: u128 = 42;

fn env() -> ChainEnv {
    ChainEnv { chain_id: s("osmosis-1"), contract_address: s("resolver") }
}

fn check(user_name: &str, prefix: &str, i: &Adr36Info, verified: Result<bool, StdError>) -> SignatureCheck {
    let e = env();
    SignatureCheck {
        digest: adr36_digest(user_name, prefix, &i.bech32_address, &e.chain_id, &e.contract_address, SALT),
        signature: i.signature.clone(),
        pub_key: i.pub_key.clone(),
        verified,
    }
}

fn answers(owner: Option<&str>, user_name: &str, prefix: &str, i: &Adr36Info) -> Answers {
    Answers {
        admins: Ok(vec![s("admin")]),
        owner: owner.map(s),
        signature_check: check(user_name, prefix, i, Ok(true)),
        address_validation: Ok(()),
    }
}

/// Sets a record as the admin, with a valid signature.
fn set(state: &mut ResolverState, sender: &str, user_name: &str, prefix: &str, i: Adr36Info) -> Result<icns::response::Response, ContractError> {
    let a = answers(None, user_name, prefix, &i);
    execute_set_record(state, &s(sender), s(user_name), s(prefix), i, SALT, &env(), a)
}

/// Saves a record with the given decoded prefix and a valid signature.
fn decoded(state: &mut ResolverState, user_name: &str, prefix: &str, i: Adr36Info, hrp: Option<&str>) -> Result<icns::response::Response, ContractError> {
    let c = check(user_name, prefix, &i, Ok(true));
    set_record_decoded(state, s(user_name), s(prefix), i, &env(), SALT, hrp.map(s), c, Ok(()))
}

#[test]
fn instantiate_keeps_name_address() {
    let state = fresh();
    assert_eq!(state.name_address(), "names");
    assert!(state.records().is_empty());
    assert!(state.primary_names().is_empty());
    assert!(state.signatures().is_empty());
}

#[test]
fn instantiate_refuses_invalid_name_address() {
    let res = instantiate(InstantiateMsg { name_address: s("bad") }, Err(StdError::generic_err("invalid")));
    assert!(matches!(res, Err(ContractError::Std(_))));
}

#[test]
fn admin_sets_record_and_it_reads_back() {
    let mut state = fresh();
    let res = set(&mut state, "admin", "alice", "osmo", info(OSMO_ADDR, &[1, 2, 3]));
    assert!(res.unwrap().attributes.is_empty());
    let got = query_address(&state, &s("alice"), &s("osmo")).unwrap();
    assert_eq!(got.address, OSMO_ADDR);
    assert_eq!(query_primary_name(&state, &s(OSMO_ADDR)).unwrap().name, "alice");
    assert!(state.has_signature(&vec![1, 2, 3]));
    assert!(!state.has_signature(&vec![1, 2]));
    assert!(query_address(&state, &s("alice"), &s("cosmos")).is_none());
    assert!(query_address(&state, &s("bob"), &s("osmo")).is_none());
}

#[test]
fn owner_sets_record() {
    let mut state = fresh();
    let i = info(OSMO_ADDR, &[9]);
    let a = answers(Some("alice-owner"), "alice", "osmo", &i);
    let res = execute_set_record(&mut state, &s("alice-owner"), s("alice"), s("osmo"), i, SALT, &env(), a);
    assert!(res.is_ok());
    assert_eq!(query_address(&state, &s("alice"), &s("osmo")).unwrap().address, OSMO_ADDR);
}

#[test]
fn stranger_is_unauthorized() {
    let mut state = fresh();
    let i = info(OSMO_ADDR, &[9]);
    let a = answers(Some("alice-owner"), "alice", "osmo", &i);
    let res = execute_set_record(&mut state, &s("mallory"), s("alice"), s("osmo"), i, SALT, &env(), a);
    assert_eq!(res, Err(ContractError::Unauthorized {}));
    assert!(state.records().is_empty());
    assert!(state.signatures().is_empty());
}

#[test]
fn failed_admin_query_is_an_error() {
    let mut state = fresh();
    let i = info(OSMO_ADDR, &[9]);
    let mut a = answers(Some("alice-owner"), "alice", "osmo", &i);
    a.admins = Err(StdError::generic_err("query failed"));
    let res = execute_set_record(&mut state, &s("alice-owner"), s("alice"), s("osmo"), i, SALT, &env(), a);
    assert!(matches!(res, Err(ContractError::Std(_))));
    assert!(state.records().is_empty());
}

#[test]
fn other_hash_method_is_refused() {
    let mut state = fresh();
    let mut i = info(OSMO_ADDR, &[9]);
    i.address_hash = AddressHash::Keccak256;
    let res = set(&mut state, "admin", "alice", "osmo", i);
    assert_eq!(res, Err(ContractError::HashMethodNotSupported {}));
}

#[test]
fn undecodable_address_is_refused() {
    let mut state = fresh();
    let res = set(&mut state, "admin", "alice", "osmo", info("osmo1notbech32", &[9]));
    assert_eq!(res, Err(ContractError::Bech32DecodingErr { addr: s("osmo1notbech32") }));
    assert!(state.records().is_empty());
}

#[test]
fn prefix_mismatch_is_refused() {
    let mut state = fresh();
    let res = set(&mut state, "admin", "alice", "cosmos", info(OSMO_ADDR, &[9]));
    assert_eq!(res, Err(ContractError::Bech32PrefixMismatch { prefix: s("cosmos"), addr: s(OSMO_ADDR) }));
    assert!(state.records().is_empty());
}

#[test]
fn invalid_signature_is_refused() {
    let mut state = fresh();
    let i = info(OSMO_ADDR, &[9]);
    let mut a = answers(None, "alice", "osmo", &i);
    a.signature_check.verified = Ok(false);
    let res = execute_set_record(&mut state, &s("admin"), s("alice"), s("osmo"), i, SALT, &env(), a);
    assert_eq!(res, Err(ContractError::SignatureMisMatch {}));
    assert!(state.records().is_empty());
}

#[test]
fn failed_signature_verification_is_an_error() {
    let mut state = fresh();
    let i = info(OSMO_ADDR, &[9]);
    let mut a = answers(None, "alice", "osmo", &i);
    a.signature_check.verified = Err(StdError::generic_err("bad key"));
    let res = execute_set_record(&mut state, &s("admin"), s("alice"), s("osmo"), i, SALT, &env(), a);
    assert_eq!(res, Err(ContractError::Std(StdError::generic_err("bad key"))));
    assert!(state.records().is_empty());
}

#[test]
fn signature_over_another_record_is_refused() {
    let mut state = fresh();
    let i = info(OSMO_ADDR, &[9]);
    // a valid signature over the record of another name, another salt, another chain
    for c in [
        check("bob", "osmo", &i, Ok(true)),
        SignatureCheck {
            digest: adr36_digest("alice", "osmo", OSMO_ADDR, "osmosis-1", "resolver", SALT + 1),
            ..check("alice", "osmo", &i, Ok(true))
        },
        SignatureCheck {
            digest: adr36_digest("alice", "osmo", OSMO_ADDR, "juno-1", "resolver", SALT),
            ..check("alice", "osmo", &i, Ok(true))
        },
        SignatureCheck { pub_key: vec![7], ..check("alice", "osmo", &i, Ok(true)) },
        SignatureCheck { signature: vec![8], ..check("alice", "osmo", &i, Ok(true)) },
    ] {
        let mut a = answers(None, "alice", "osmo", &i);
        a.signature_check = c;
        let res = execute_set_record(&mut state, &s("admin"), s("alice"), s("osmo"), i.clone(), SALT, &env(), a);
        assert_eq!(res, Err(ContractError::SignatureMisMatch {}));
    }
    assert!(state.records().is_empty());
}

#[test]
fn invalid_address_is_refused() {
    let mut state = fresh();
    let i = info(OSMO_ADDR, &[9]);
    let mut a = answers(None, "alice", "osmo", &i);
    a.address_validation = Err(StdError::generic_err("bad address"));
    let res = execute_set_record(&mut state, &s("admin"), s("alice"), s("osmo"), i, SALT, &env(), a);
    assert_eq!(res, Err(ContractError::Std(StdError::generic_err("bad address"))));
    assert!(state.records().is_empty());
}

#[test]
fn decoded_prefix_is_checked_after_decoding() {
    let mut state = fresh();
    let res = decoded(&mut state, "alice", "osmo", info(OSMO_ADDR, &[1]), Some("juno"));
    assert_eq!(res, Err(ContractError::Bech32PrefixMismatch { prefix: s("osmo"), addr: s(OSMO_ADDR) }));
    let res = decoded(&mut state, "alice", "osmo", info(OSMO_ADDR, &[1]), None);
    assert_eq!(res, Err(ContractError::Bech32DecodingErr { addr: s(OSMO_ADDR) }));
    let res = decoded(&mut state, "alice", "osmo", info(OSMO_ADDR, &[1]), Some("osmo"));
    assert!(res.is_ok());
    assert_eq!(query_address(&state, &s("alice"), &s("osmo")).unwrap().address, OSMO_ADDR);
}

#[test]
fn first_record_keeps_primary_name() {
    let mut state = fresh();
    set(&mut state, "admin", "alice", "osmo", info(OSMO_ADDR, &[1])).unwrap();
    set(&mut state, "admin", "bob", "osmo", info(OSMO_ADDR, &[2])).unwrap();
    assert_eq!(query_primary_name(&state, &s(OSMO_ADDR)).unwrap().name, "alice");
    assert_eq!(query_address(&state, &s("bob"), &s("osmo")).unwrap().address, OSMO_ADDR);
    assert_eq!(state.signatures().len(), 2);
}

#[test]
fn record_is_overwritten() {
    let mut state = fresh();
    set(&mut state, "admin", "alice", "osmo", info(OSMO_ADDR, &[1])).unwrap();
    let other = "osmo1qypqxpq9qcrsszg2pvxq6rs0zqg3yyc5helwsw";
    let res = decoded(&mut state, "alice", "osmo", info(other, &[2]), Some("osmo"));
    assert!(res.is_ok());
    assert_eq!(query_address(&state, &s("alice"), &s("osmo")).unwrap().address, other);
    assert_eq!(state.records().len(), 1);
}

#[test]
fn signature_is_not_replayed() {
    let mut state = fresh();
    set(&mut state, "admin", "alice", "osmo", info(OSMO_ADDR, &[7])).unwrap();
    let res = set(&mut state, "admin", "bob", "osmo", info(OSMO_ADDR, &[7]));
    assert_eq!(res, Err(ContractError::SignatureAlreadyExists {}));
    assert_eq!(state.signatures().len(), 1);
    assert_eq!(state.records().len(), 1);
    assert!(query_address(&state, &s("bob"), &s("osmo")).is_none());
}

#[test]
fn addresses_come_in_prefix_order() {
    let mut state = fresh();
    set(&mut state, "admin", "alice", "osmo", info(OSMO_ADDR, &[1])).unwrap();
    set(&mut state, "admin", "bob", "juno", info(JUNO_ADDR, &[2])).unwrap();
    set(&mut state, "admin", "alice", "cosmos", info(COSMOS_ADDR, &[3])).unwrap();
    set(&mut state, "admin", "alice", "juno", info(JUNO_ADDR, &[4])).unwrap();
    let listing = query_addresses(&state, &s("alice")).addresses;
    assert_eq!(
        listing,
        vec![(s("cosmos"), s(COSMOS_ADDR)), (s("juno"), s(JUNO_ADDR)), (s("osmo"), s(OSMO_ADDR))]
    );
    assert_eq!(query_addresses(&state, &s("bob")).addresses, vec![(s("juno"), s(JUNO_ADDR))]);
    assert!(query_addresses(&state, &s("carol")).addresses.is_empty());
}

#[test]
fn owner_sets_primary_name() {
    let mut state = fresh();
    set(&mut state, "admin", "alice", "osmo", info(OSMO_ADDR, &[1])).unwrap();
    let res = execute_set_primary(&mut state, s(OSMO_ADDR), s("bob"), Some(s(OSMO_ADDR))).unwrap();
    assert_eq!(
        res.attributes,
        vec![
            Attribute { key: s("method"), value: s("set_primary") },
            Attribute { key: s("name"), value: s("bob") },
        ]
    );
    assert_eq!(query_primary_name(&state, &s(OSMO_ADDR)).unwrap().name, "bob");
}

#[test]
fn non_owner_cannot_set_primary_name() {
    let mut state = fresh();
    let res = execute_set_primary(&mut state, s(OSMO_ADDR), s("bob"), Some(s("someone-else")));
    assert_eq!(res, Err(ContractError::Unauthorized {}));
    let res = execute_set_primary(&mut state, s(OSMO_ADDR), s("bob"), None);
    assert_eq!(res, Err(ContractError::Unauthorized {}));
    assert!(query_primary_name(&state, &s(OSMO_ADDR)).is_none());
}

#[test]
fn execute_dispatches_messages() {
    let mut state = fresh();
    let i = info(JUNO_ADDR, &[5]);
    let a = answers(None, "alice", "juno", &i);
    let msg = ExecuteMsg::SetRecord {
        user_name: s("alice"),
        bech32_prefix: s("juno"),
        adr36_info: i.clone(),
        signature_salt: SALT,
    };
    assert!(execute(&mut state, s("admin"), msg, &env(), a).is_ok());
    assert_eq!(query_address(&state, &s("alice"), &s("juno")).unwrap().address, JUNO_ADDR);
    // the salt is part of what is signed
    let i2 = info(JUNO_ADDR, &[6]);
    let a2 = answers(None, "alice", "juno", &i2);
    let msg = ExecuteMsg::SetRecord {
        user_name: s("alice"),
        bech32_prefix: s("juno"),
        adr36_info: i2,
        signature_salt: SALT + 1,
    };
    assert_eq!(execute(&mut state, s("admin"), msg, &env(), a2), Err(ContractError::SignatureMisMatch {}));
    let msg = ExecuteMsg::SetPrimary { name: s("alice") };
    let a = answers(Some(JUNO_ADDR), "alice", "juno", &i);
    assert!(execute(&mut state, s(JUNO_ADDR), msg, &env(), a).is_ok());
    let msg = ExecuteMsg::SetPrimary { name: s("alice") };
    let a = answers(None, "alice", "juno", &i);
    assert_eq!(execute(&mut state, s("x"), msg, &env(), a), Err(ContractError::Unauthorized {}));
}

#[test]
fn admin_query_falls_back_to_one_empty_name() {
    assert_eq!(query_admin(Ok(vec![s("a"), s("b")])).admins, vec![s("a"), s("b")]);
    assert_eq!(query_admin(Err(StdError::generic_err("down"))).admins, vec![s("")]);
}

#[test]
fn admin_and_owner_checks() {
    let admins = vec![s("a"), s("b")];
    assert!(is_admin(&admins, &s("b")));
    assert!(!is_admin(&admins, &s("c")));
    assert!(!is_admin(&vec![], &s("a")));
    assert!(is_owner(&Some(s("o")), &s("o")));
    assert!(!is_owner(&Some(s("o")), &s("p")));
    assert!(!is_owner(&None, &s("o")));
}

#[test]
fn query_answers_each_message() {
    let mut state = fresh();
    set(&mut state, "admin", "alice", "osmo", info(OSMO_ADDR, &[1])).unwrap();
    match query(&state, QueryMsg::Config {}, Ok(vec![]), Ok(())) {
        Ok(QueryAnswer::Config(c)) => assert_eq!(c.name_address, "names"),
        _ => panic!("wrong answer"),
    }
    match query(&state, QueryMsg::GetAddress { user_name: s("alice"), bech32_prefix: s("osmo") }, Ok(vec![]), Ok(())) {
        Ok(QueryAnswer::Address(Some(r))) => assert_eq!(r.address, OSMO_ADDR),
        _ => panic!("wrong answer"),
    }
    match query(&state, QueryMsg::GetAddress { user_name: s("alice"), bech32_prefix: s("juno") }, Ok(vec![]), Ok(())) {
        Ok(QueryAnswer::Address(None)) => {},
        _ => panic!("wrong answer"),
    }
    match query(&state, QueryMsg::GetAddresses { user_name: s("alice") }, Ok(vec![]), Ok(())) {
        Ok(QueryAnswer::Addresses(r)) => assert_eq!(r.addresses, vec![(s("osmo"), s(OSMO_ADDR))]),
        _ => panic!("wrong answer"),
    }
    match query(&state, QueryMsg::Admin {}, Err(StdError::generic_err("down")), Ok(())) {
        Ok(QueryAnswer::Admin(r)) => assert_eq!(r.admins, vec![s("")]),
        _ => panic!("wrong answer"),
    }
    match query(&state, QueryMsg::PrimaryName { address: s(OSMO_ADDR) }, Ok(vec![]), Ok(())) {
        Ok(QueryAnswer::PrimaryName(Some(r))) => assert_eq!(r.name, "alice"),
        _ => panic!("wrong answer"),
    }
    let res = query(&state, QueryMsg::PrimaryName { address: s("bad") }, Ok(vec![]), Err(StdError::generic_err("invalid")));
    assert!(matches!(res, Err(StdError::GenericErr { .. })));
}

#[test]
fn query_dispatch_answers_as_single_queries() {
    let mut state = fresh();
    set(&mut state, "admin", "alice", "osmo", info(OSMO_ADDR, &[1])).unwrap();
    set(&mut state, "admin", "alice", "cosmos", info(COSMOS_ADDR, &[2])).unwrap();
    match query(&state, QueryMsg::GetAddresses { user_name: s("alice") }, Ok(vec![]), Ok(())) {
        Ok(QueryAnswer::Addresses(r)) => assert_eq!(r, query_addresses(&state, &s("alice"))),
        _ => panic!("wrong answer"),
    }
    match query(&state, QueryMsg::GetAddress { user_name: s("alice"), bech32_prefix: s("cosmos") }, Ok(vec![]), Ok(())) {
        Ok(QueryAnswer::Address(a)) => assert_eq!(a, query_address(&state, &s("alice"), &s("cosmos"))),
        _ => panic!("wrong answer"),
    }
    match query(&state, QueryMsg::Admin {}, Ok(vec![s("x")]), Ok(())) {
        Ok(QueryAnswer::Admin(r)) => assert_eq!(r, query_admin(Ok(vec![s("x")]))),
        _ => panic!("wrong answer"),
    }
    match query(&state, QueryMsg::PrimaryName { address: s(COSMOS_ADDR) }, Ok(vec![]), Ok(())) {
        Ok(QueryAnswer::PrimaryName(p)) => assert_eq!(p, query_primary_name(&state, &s(COSMOS_ADDR))),
        _ => panic!("wrong answer"),
    }
}
