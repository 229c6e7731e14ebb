//! The decisions of the name ownership contract. Its host loads the
//! configuration, asks the chain whether an address is valid and runs the
//! underlying token contract; what it learned comes in as arguments, and what
//! the contract decides comes out as an action for the host to carry out.

use vstd::prelude::*;
use cosmwasm_std::StdError;
use crate::response::Response;
use crate::response::attributes_of;
use crate::name::msg::AdminResponse;
use crate::name::msg::Config;
use crate::name::msg::ContractError;
use crate::name::msg::Cw721BaseInstantiateMsg;
use crate::name::msg::ExecuteMsg;
use crate::name::msg::ICNSNameExecuteMsg;
use crate::name::msg::InstantiateMsg;
use crate::name::msg::QueryMsg;
use crate::name::msg::TransferrableResponse;

verus! {

/// What instantiation stores and hands on to the token contract.
pub struct Instantiated {
    pub config: Config,
    pub base_msg: Cw721BaseInstantiateMsg,
    pub response: Response,
}

/// What the host carries out for an accepted message.
pub enum Action<B> {
    /// Run the message on the underlying token contract.
    Base(B),
    /// Store the new configuration and answer with the response.
    Update { config: Config, response: Response },
}

/// What the host answers to a query.
pub enum QueryAnswer<Q> {
    Admin(AdminResponse),
    Transferrable(TransferrableResponse),
    /// Ask the underlying token contract.
    Base(Q),
}

/// Whether `sender` may run messages of the underlying token contract: the
/// admin and the minter always may, others only while names are transferable.
pub open spec fn may_run_base(config: Config, minter: Seq<char>, sender: Seq<char>) -> bool {
    config.admin@ == sender || minter == sender || config.transferable
}

/// The text of a boolean.
pub open spec fn bool_text(b: bool) -> Seq<char> {
    if b {
        "true"@
    } else {
        "false"@
    }
}

fn bool_to_string(b: bool) -> (res: String)
    ensures
        res@ == bool_text(b),
{
    if b {
        "true".to_owned()
    } else {
        "false".to_owned()
    }
}

/// Sets up the contract: the admin, whether names are transferable, and the
/// token contract's message, answering with the contract's name and
/// `contract_version`. `admin_validation` is what the chain said of the
/// admin's address.
pub fn instantiate(
    msg: InstantiateMsg,
    admin_validation: Result<(), StdError>,
    contract_version: &str,
) -> (res: Result<Instantiated, ContractError>)
    ensures
        match admin_validation {
            Err(e) => res == Err::<Instantiated, _>(ContractError::Std(e)),
            Ok(_) => res matches Ok(i) && i.config == (Config {
                admin: msg.admin,
                transferable: msg.transferable,
            }) && i.base_msg == (Cw721BaseInstantiateMsg {
                name: msg.name,
                symbol: msg.symbol,
                minter: msg.minter,
            }) && attributes_of(i.response) == seq![
                ("contract_name"@, "crates.io:icns-name-ownership"@),
                ("contract_version"@, contract_version@),
            ],
        },
{
    if let Err(e) = admin_validation {
        return Err(ContractError::Std(e));
    }
    let config = Config { admin: msg.admin, transferable: msg.transferable };
    let base_msg = Cw721BaseInstantiateMsg { name: msg.name, symbol: msg.symbol, minter: msg.minter };
    let response = Response::new().add_attribute("contract_name", "crates.io:icns-name-ownership".to_owned()).add_attribute(
        "contract_version",
        contract_version.to_owned(),
    );
    assert(attributes_of(response) =~= seq![
        ("contract_name"@, "crates.io:icns-name-ownership"@),
        ("contract_version"@, contract_version@),
    ]);
    Ok(Instantiated { config, base_msg, response })
}

/// Decides a message. Messages of the token contract go on to it when
/// `may_run_base`; the contract's own messages are the admin's alone.
/// `admin_validation` is what the chain said of the address of a new admin;
/// other messages do not read it.
pub fn execute<B>(
    config: Config,
    minter: &String,
    sender: &String,
    msg: ExecuteMsg<B>,
    admin_validation: Result<(), StdError>,
) -> (res: Result<Action<B>, ContractError>)
    ensures
        res matches Ok(Action::Update { .. }) ==> sender@ == config.admin@,
        match msg {
            ExecuteMsg::CW721Base(b) => if may_run_base(config, minter@, sender@) {
                res == Ok::<Action<B>, ContractError>(Action::Base(b))
            } else {
                res == Err::<Action<B>, _>(ContractError::Unauthorized {})
            },
            ExecuteMsg::ICNSName(ICNSNameExecuteMsg::SetAdmin { admin }) => if config.admin@ != sender@ {
                res == Err::<Action<B>, _>(ContractError::Unauthorized {})
            } else {
                match admin_validation {
                    Err(e) => res == Err::<Action<B>, _>(ContractError::Std(e)),
                    Ok(_) => res matches Ok(Action::Update { config: c, response: r }) && c == (Config {
                        admin,
                        ..config
                    }) && attributes_of(r) == seq![("method"@, "set_admin"@), ("admin"@, admin@)],
                }
            },
            ExecuteMsg::ICNSName(ICNSNameExecuteMsg::SetTransferrable { transferrable }) => if config.admin@
                != sender@ {
                res == Err::<Action<B>, _>(ContractError::Unauthorized {})
            } else {
                res matches Ok(Action::Update { config: c, response: r }) && c == (Config {
                    transferable: transferrable,
                    ..config
                }) && attributes_of(r) == seq![
                    ("method"@, "set_transferrable"@),
                    ("transferrable"@, bool_text(transferrable)),
                ]
            },
        },
{
    match msg {
        ExecuteMsg::CW721Base(b) => {
            if config.admin == *sender || *minter == *sender || config.transferable {
                Ok(Action::Base(b))
            } else {
                Err(ContractError::Unauthorized {})
            }
        },
        ExecuteMsg::ICNSName(ICNSNameExecuteMsg::SetAdmin { admin }) => {
            if config.admin == *sender {
                if let Err(e) = admin_validation {
                    return Err(ContractError::Std(e));
                }
                let response = Response::new().add_attribute("method", "set_admin".to_owned()).add_attribute(
                    "admin",
                    admin.clone(),
                );
                assert(attributes_of(response) =~= seq![("method"@, "set_admin"@), ("admin"@, admin@)]);
                Ok(Action::Update { config: Config { admin, ..config }, response })
            } else {
                Err(ContractError::Unauthorized {})
            }
        },
        ExecuteMsg::ICNSName(ICNSNameExecuteMsg::SetTransferrable { transferrable }) => {
            if config.admin == *sender {
                let response = Response::new().add_attribute(
                    "method",
                    "set_transferrable".to_owned(),
                ).add_attribute("transferrable", bool_to_string(transferrable));
                assert(attributes_of(response) =~= seq![
                    ("method"@, "set_transferrable"@),
                    ("transferrable"@, bool_text(transferrable)),
                ]);
                Ok(Action::Update { config: Config { transferable: transferrable, ..config }, response })
            } else {
                Err(ContractError::Unauthorized {})
            }
        },
    }
}

/// The admins of the contract: its one admin.
pub fn admin(config: &Config) -> (res: AdminResponse)
    ensures
        res.admins@.len() == 1,
        res.admins@[0] == config.admin,
{
    AdminResponse { admins: vec![config.admin.clone()] }
}

/// Whether names are transferable.
pub fn transferable(config: &Config) -> (res: TransferrableResponse)
    ensures
        res.transferrable == config.transferable,
{
    TransferrableResponse { transferrable: config.transferable }
}

/// Answers a query: the contract's own from the configuration, the others by
/// the underlying token contract.
pub fn query<Q>(config: &Config, msg: QueryMsg<Q>) -> (res: QueryAnswer<Q>)
    ensures
        match msg {
            QueryMsg::Admin {} => res matches QueryAnswer::Admin(a) && a.admins@ == seq![config.admin],
            QueryMsg::Transferrable {} => res matches QueryAnswer::Transferrable(t) && t.transferrable
                == config.transferable,
            QueryMsg::CW721Base(q) => res == QueryAnswer::Base(q),
        },
{
    match msg {
        QueryMsg::Admin {} => {
            let a = admin(config);
            assert(a.admins@ =~= seq![config.admin]);
            QueryAnswer::Admin(a)
        },
        QueryMsg::Transferrable {} => QueryAnswer::Transferrable(transferable(config)),
        QueryMsg::CW721Base(q) => QueryAnswer::Base(q),
    }
}

} // verus!
