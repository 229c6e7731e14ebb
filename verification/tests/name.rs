use cosmwasm_std::StdError;
use icns::name::contract::execute;
use icns::name::contract::instantiate;
use icns::name::contract::query;
use icns::name::contract::Action;
use icns::name::contract::QueryAnswer;
use icns::name::msg::Config;
use icns::name::msg::ContractError;
use icns::name::msg::Cw721BaseInstantiateMsg;
use icns::name::msg::ExecuteMsg;
use icns::name::msg::ICNSNameExecuteMsg;
use icns::name::msg::InstantiateMsg;
use icns::name::msg::QueryMsg;
use icns::response::Attribute;

fn s(x: &str) -> String {
    x.to_string()
}

fn config(transferable: bool) -> Config {
    Config { admin: s("admin"), transferable }
}

fn attr(k: &str, v: &str) -> Attribute {
    Attribute { key: s(k), value: s(v) }
}

#[test]
fn instantiate_sets_config_and_token_message() {
    let msg = InstantiateMsg {
        name: s("icns"),
        symbol: s("ICNS"),
        minter: s("registrar"),
        admin: s("admin"),
        transferable: false,
    };
    let done = instantiate(msg, Ok(()), "0.1.0").unwrap();
    assert_eq!(done.config, config(false));
    assert_eq!(
        done.base_msg,
        Cw721BaseInstantiateMsg { name: s("icns"), symbol: s("ICNS"), minter: s("registrar") }
    );
    assert_eq!(
        done.response.attributes,
        vec![
            attr("contract_name", "crates.io:icns-name-ownership"),
            attr("contract_version", "0.1.0"),
        ]
    );
}

#[test]
fn instantiate_refuses_invalid_admin() {
    let msg = InstantiateMsg {
        name: s("icns"),
        symbol: s("ICNS"),
        minter: s("registrar"),
        admin: s("??"),
        transferable: true,
    };
    let res = instantiate(msg, Err(StdError::generic_err("invalid")), "v");
    assert!(matches!(res, Err(ContractError::Std(_))));
}

#[test]
fn token_messages_go_on_for_admin_minter_or_when_transferable() {
    for sender in ["admin", "registrar"] {
        let res = execute(config(false), &s("registrar"), &s(sender), ExecuteMsg::CW721Base(7u32), Ok(()));
        assert!(matches!(res, Ok(Action::Base(7))));
    }
    let res = execute(config(true), &s("registrar"), &s("holder"), ExecuteMsg::CW721Base(7u32), Ok(()));
    assert!(matches!(res, Ok(Action::Base(7))));
    let res = execute(config(false), &s("registrar"), &s("holder"), ExecuteMsg::CW721Base(7u32), Ok(()));
    assert!(matches!(res, Err(ContractError::Unauthorized {})));
}

#[test]
fn admin_hands_over() {
    let msg = ExecuteMsg::<u32>::ICNSName(ICNSNameExecuteMsg::SetAdmin { admin: s("new") });
    match execute(config(true), &s("registrar"), &s("admin"), msg, Ok(())) {
        Ok(Action::Update { config: c, response }) => {
            assert_eq!(c, Config { admin: s("new"), transferable: true });
            assert_eq!(response.attributes, vec![attr("method", "set_admin"), attr("admin", "new")]);
        },
        _ => panic!("the admin may hand over"),
    }
}

#[test]
fn only_admin_hands_over() {
    let msg = ExecuteMsg::<u32>::ICNSName(ICNSNameExecuteMsg::SetAdmin { admin: s("me") });
    let res = execute(config(true), &s("registrar"), &s("registrar"), msg, Ok(()));
    assert!(matches!(res, Err(ContractError::Unauthorized {})));
}

#[test]
fn new_admin_must_be_valid() {
    let msg = ExecuteMsg::<u32>::ICNSName(ICNSNameExecuteMsg::SetAdmin { admin: s("??") });
    let res = execute(config(true), &s("registrar"), &s("admin"), msg, Err(StdError::generic_err("bad")));
    assert!(matches!(res, Err(ContractError::Std(_))));
}

#[test]
fn admin_sets_transferrable() {
    for (flag, text) in [(true, "true"), (false, "false")] {
        let msg = ExecuteMsg::<u32>::ICNSName(ICNSNameExecuteMsg::SetTransferrable { transferrable: flag });
        match execute(config(!flag), &s("registrar"), &s("admin"), msg, Ok(())) {
            Ok(Action::Update { config: c, response }) => {
                assert_eq!(c, config(flag));
                assert_eq!(
                    response.attributes,
                    vec![attr("method", "set_transferrable"), attr("transferrable", text)]
                );
                match query(&c, QueryMsg::<u32>::Transferrable {}) {
                    QueryAnswer::Transferrable(t) => assert_eq!(t.transferrable, flag),
                    _ => panic!("wrong answer"),
                }
            },
            _ => panic!("the admin may set it"),
        }
    }
}

#[test]
fn only_admin_sets_transferrable() {
    let msg = ExecuteMsg::<u32>::ICNSName(ICNSNameExecuteMsg::SetTransferrable { transferrable: true });
    let res = execute(config(false), &s("registrar"), &s("holder"), msg, Ok(()));
    assert!(matches!(res, Err(ContractError::Unauthorized {})));
}

#[test]
fn queries_answer_from_config() {
    match query(&config(false), QueryMsg::<u32>::Admin {}) {
        QueryAnswer::Admin(a) => assert_eq!(a.admins, vec![s("admin")]),
        _ => panic!("wrong answer"),
    }
    assert!(matches!(query(&config(false), QueryMsg::CW721Base(3u32)), QueryAnswer::Base(3)));
}
