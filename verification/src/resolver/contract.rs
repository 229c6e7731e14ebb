//! The decisions of the resolver contract. The contract's host asks the name
//! ownership contract and the chain's address rules; what they answered comes
//! in as arguments, and what the resolver decides comes out as the new state
//! and the response.

use vstd::prelude::*;
use cosmwasm_std::StdError;
use crate::outside::bech32_decode;
use crate::outside::bech32_decoding;
use crate::byte_order::bytes_equal;
use crate::resolver::crypto::SignatureCheck;
use crate::resolver::crypto::adr36_digest;
use crate::resolver::crypto::adr36_digest_of;
use crate::resolver::crypto::adr36_outcome;
use crate::resolver::crypto::signature_refusal;
use crate::response::Response;
use crate::response::attributes_of;
use crate::resolver::error::ContractError;
use crate::resolver::msg::AddressHash;
use crate::resolver::msg::Adr36Info;
use crate::resolver::msg::AdminResponse;
use crate::resolver::msg::ExecuteMsg;
use crate::resolver::msg::GetAddressResponse;
use crate::resolver::msg::GetAddressesResponse;
use crate::resolver::msg::InstantiateMsg;
use crate::resolver::msg::PrimaryNameResponse;
use crate::resolver::msg::QueryMsg;
use crate::resolver::state::Config;
use crate::resolver::state::ResolverState;
use crate::resolver::state::ResolverView;
use crate::resolver::state::is_listing_of;
use crate::resolver::state::pairs_view;

verus! {

/// The names in a list of strings, as character sequences.
pub open spec fn names_of(v: Seq<String>) -> Seq<Seq<char>> {
    v.map_values(|s: String| s@)
}

/// The human readable part that the Bech32 decoder finds in an address.
pub open spec fn decoded_prefix(encoded: Seq<char>) -> Option<Seq<char>> {
    match bech32_decoding(encoded) {
        Some(d) => Some(d.0),
        None => None,
    }
}

/// Whether the answer to the owner query names `sender`.
pub open spec fn owner_is(owner: Option<String>, sender: Seq<char>) -> bool {
    owner matches Some(o) && o@ == sender
}

/// The chain and the contract that a message is carried out on.
pub struct ChainEnv {
    pub chain_id: String,
    pub contract_address: String,
}

/// What the contract learned from outside before deciding a message.
pub struct Answers {
    /// The answer of the name ownership contract to the query for its admins.
    pub admins: Result<Vec<String>, StdError>,
    /// The answer of the name ownership contract to the query for the owner of
    /// the message's name; `None` where that query failed.
    pub owner: Option<String>,
    /// The host's verification of the ADR-36 signature of a record.
    pub signature_check: SignatureCheck,
    /// The outcome of validating the address of a record.
    pub address_validation: Result<(), StdError>,
}

/// Why a record whose address decoded to `decoded` is refused, after the
/// sender's authority and the hash method were accepted; `None` where it is
/// saved. `used` are the signatures already used.
pub open spec fn record_refusal(
    used: Set<Seq<u8>>,
    decoded: Option<Seq<char>>,
    user_name: Seq<char>,
    bech32_prefix: String,
    adr36_info: Adr36Info,
    env: ChainEnv,
    signature_salt: u128,
    signature_check: SignatureCheck,
    address_validation: Result<(), StdError>,
) -> Option<ContractError> {
    match decoded {
        None => Some(ContractError::Bech32DecodingErr { addr: adr36_info.bech32_address }),
        Some(hrp) => if hrp != bech32_prefix@ {
            Some(
                ContractError::Bech32PrefixMismatch {
                    prefix: bech32_prefix,
                    addr: adr36_info.bech32_address,
                },
            )
        } else if used.contains(adr36_info.signature@) {
            Some(ContractError::SignatureAlreadyExists {})
        } else {
            match signature_refusal(
                signature_check,
                adr36_digest_of(
                    user_name,
                    bech32_prefix@,
                    adr36_info.bech32_address@,
                    env.chain_id@,
                    env.contract_address@,
                    signature_salt,
                ),
                adr36_info.signature@,
                adr36_info.pub_key@,
            ) {
                Some(e) => Some(e),
                None => match address_validation {
                    Err(e) => Some(ContractError::Std(e)),
                    Ok(_) => None,
                },
            }
        },
    }
}

/// Why a set-record request is refused; `None` where it is carried out.
/// `used` are the signatures already used.
pub open spec fn set_record_refusal(
    used: Set<Seq<u8>>,
    admins: Result<Vec<String>, StdError>,
    owner: Option<String>,
    sender: Seq<char>,
    user_name: Seq<char>,
    bech32_prefix: String,
    adr36_info: Adr36Info,
    env: ChainEnv,
    signature_salt: u128,
    signature_check: SignatureCheck,
    address_validation: Result<(), StdError>,
) -> Option<ContractError> {
    match admins {
        Err(e) => Some(ContractError::Std(e)),
        Ok(a) => if !names_of(a@).contains(sender) && !owner_is(owner, sender) {
            Some(ContractError::Unauthorized {})
        } else if adr36_info.address_hash != AddressHash::SHA256 {
            Some(ContractError::HashMethodNotSupported {})
        } else {
            record_refusal(
                used,
                decoded_prefix(adr36_info.bech32_address@),
                user_name,
                bech32_prefix,
                adr36_info,
                env,
                signature_salt,
                signature_check,
                address_validation,
            )
        },
    }
}

/// The state after a record of `address` for (name, prefix) is saved with
/// `signature`: the record is set, the address gets the name as its primary
/// name unless it has one, and the signature counts as used.
pub open spec fn with_record(
    s: ResolverView,
    user_name: Seq<char>,
    bech32_prefix: Seq<char>,
    address: Seq<char>,
    signature: Seq<u8>,
) -> ResolverView {
    ResolverView {
        name_address: s.name_address,
        records: s.records.insert((user_name, bech32_prefix), address),
        primary_names: if s.primary_names.contains_key(address) {
            s.primary_names
        } else {
            s.primary_names.insert(address, user_name)
        },
        signatures: s.signatures.insert(signature),
    }
}

/// Sets up the resolver with the address of the name ownership contract;
/// `name_address_validation` is what the chain said of that address.
pub fn instantiate(msg: InstantiateMsg, name_address_validation: Result<(), StdError>) -> (res: Result<
    (ResolverState, Response),
    ContractError,
>)
    ensures
        match name_address_validation {
            Err(e) => res == Err::<(ResolverState, Response), _>(ContractError::Std(e)),
            Ok(_) => res matches Ok((s, r)) && s.wf() && s@.name_address == msg.name_address@
                && s@.records.is_empty() && s@.primary_names.is_empty() && s@.signatures.is_empty()
                && attributes_of(r).len() == 0,
        },
{
    match name_address_validation {
        Err(e) => Err(ContractError::Std(e)),
        Ok(_) => {
            let s = ResolverState::new(Config { name_address: msg.name_address });
            Ok((s, Response::new()))
        },
    }
}

/// Whether `address` is one of the admins.
pub fn is_admin(admins: &Vec<String>, address: &String) -> (res: bool)
    ensures
        res == names_of(admins@).contains(address@),
{
    let mut i: usize = 0;
    while i < admins.len()
        invariant
            i <= admins@.len(),
            forall|k: int| 0 <= k < i ==> #[trigger] admins@[k]@ != address@,
        decreases admins@.len() - i,
    {
        if admins[i] == *address {
            assert(names_of(admins@)[i as int] == address@);
            return true;
        }
        i = i + 1;
    }
    assert forall|k: int| 0 <= k < names_of(admins@).len() implies #[trigger] names_of(admins@)[k] != address@ by {
        assert(names_of(admins@)[k] == admins@[k]@);
    }
    false
}

/// Whether the owner query named `sender`; a failed query names nobody.
pub fn is_owner(owner: &Option<String>, sender: &String) -> (res: bool)
    ensures
        res == owner_is(*owner, sender@),
{
    match owner {
        Some(o) => *o == *sender,
        None => false,
    }
}

/// `r` is the admin answer for the answer `admins` of the name ownership
/// contract: its admins, or one empty name where asking it failed.
pub open spec fn is_admin_answer(admins: Result<Vec<String>, StdError>, r: AdminResponse) -> bool {
    match admins {
        Ok(a) => r.admins@ == a@,
        Err(_) => names_of(r.admins@) == seq![Seq::<char>::empty()],
    }
}

/// `a` is the answer for the address of (name, prefix) in `s`: the recorded
/// address, or `None` where none is recorded.
pub open spec fn is_address_answer(
    s: ResolverView,
    user_name: Seq<char>,
    bech32_prefix: Seq<char>,
    a: Option<GetAddressResponse>,
) -> bool {
    &&& (a is Some <==> s.records.contains_key((user_name, bech32_prefix)))
    &&& (a matches Some(r) ==> r.address@ == s.records[(user_name, bech32_prefix)])
}

/// `a` is the answer for the primary name of `address` in `s`: that name, or
/// `None` where it has none.
pub open spec fn is_primary_answer(s: ResolverView, address: Seq<char>, a: Option<PrimaryNameResponse>) -> bool {
    &&& (a is Some <==> s.primary_names.contains_key(address))
    &&& (a matches Some(r) ==> r.name@ == s.primary_names[address])
}

/// `r` is the answer for the addresses of `user_name` in `s`: its (prefix,
/// address) pairs in ascending byte order of the prefixes.
pub open spec fn is_addresses_answer(s: ResolverView, user_name: Seq<char>, r: GetAddressesResponse) -> bool {
    is_listing_of(pairs_view(r.addresses@), s.records, user_name)
}

/// The admins to answer with: those of the name ownership contract, or one
/// empty name where asking it failed.
pub fn query_admin(admins: Result<Vec<String>, StdError>) -> (res: AdminResponse)
    ensures
        is_admin_answer(admins, res),
{
    match admins {
        Ok(a) => AdminResponse { admins: a },
        Err(_) => {
            let res = AdminResponse { admins: vec![String::new()] };
            assert(names_of(res.admins@) =~= seq![Seq::<char>::empty()]);
            res
        },
    }
}

/// Saves a record whose address decoded to `decoded`, once the sender's
/// authority and the hash method have been accepted.
pub fn set_record_decoded(
    state: &mut ResolverState,
    user_name: String,
    bech32_prefix: String,
    adr36_info: Adr36Info,
    env: &ChainEnv,
    signature_salt: u128,
    decoded: Option<String>,
    signature_check: SignatureCheck,
    address_validation: Result<(), StdError>,
) -> (res: Result<Response, ContractError>)
    requires
        old(state).wf(),
    ensures
        final(state).wf(),
        match record_refusal(
            old(state)@.signatures,
            match decoded {
                Some(h) => Some(h@),
                None => None,
            },
            user_name@,
            bech32_prefix,
            adr36_info,
            *env,
            signature_salt,
            signature_check,
            address_validation,
        ) {
            Some(e) => res == Err::<Response, _>(e) && *final(state) == *old(state),
            None => res matches Ok(r) && attributes_of(r).len() == 0 && final(state)@ == with_record(
                old(state)@,
                user_name@,
                bech32_prefix@,
                adr36_info.bech32_address@,
                adr36_info.signature@,
            ),
        },
{
    let hrp = match decoded {
        Some(h) => h,
        None => {
            return Err(ContractError::Bech32DecodingErr { addr: adr36_info.bech32_address.clone() });
        },
    };
    if !(bech32_prefix == hrp) {
        return Err(
            ContractError::Bech32PrefixMismatch {
                prefix: bech32_prefix,
                addr: adr36_info.bech32_address,
            },
        );
    }
    if state.has_signature(&adr36_info.signature) {
        return Err(ContractError::SignatureAlreadyExists {});
    }
    let expected = adr36_digest(
        user_name.as_str(),
        bech32_prefix.as_str(),
        adr36_info.bech32_address.as_str(),
        env.chain_id.as_str(),
        env.contract_address.as_str(),
        signature_salt,
    );
    let SignatureCheck { digest, signature, pub_key, verified } = signature_check;
    if !bytes_equal(digest.as_slice(), expected.as_slice()) || !bytes_equal(
        signature.as_slice(),
        adr36_info.signature.as_slice(),
    ) || !bytes_equal(pub_key.as_slice(), adr36_info.pub_key.as_slice()) {
        return Err(ContractError::SignatureMisMatch {});
    }
    if let Err(e) = adr36_outcome(verified) {
        return Err(e);
    }
    if let Err(e) = address_validation {
        return Err(ContractError::Std(e));
    }
    let address = adr36_info.bech32_address;
    state.set_record(user_name.clone(), bech32_prefix, address.clone());
    let has_primary = state.primary_name(&address).is_some();
    if !has_primary {
        state.set_primary_name(address, user_name);
    }
    state.save_signature(adr36_info.signature);
    Ok(Response::new())
}

/// Records the address of `adr36_info` for (name, prefix). The sender must be
/// an admin of the name ownership contract or the owner of the name, the
/// address must be hashed by SHA-256, its Bech32 prefix must be the one given,
/// its signature must not have been used before, the host must have found it
/// a valid signature by the record's public key over the ADR-36 digest of the
/// record (its name, prefix, address, chain, contract and salt), and the
/// address must be valid. The address
/// gets the name as its primary name unless it has one, and the signature
/// counts as used.
pub fn execute_set_record(
    state: &mut ResolverState,
    sender: &String,
    user_name: String,
    bech32_prefix: String,
    adr36_info: Adr36Info,
    signature_salt: u128,
    env: &ChainEnv,
    answers: Answers,
) -> (res: Result<Response, ContractError>)
    requires
        old(state).wf(),
    ensures
        final(state).wf(),
        match set_record_refusal(
            old(state)@.signatures,
            answers.admins,
            answers.owner,
            sender@,
            user_name@,
            bech32_prefix,
            adr36_info,
            *env,
            signature_salt,
            answers.signature_check,
            answers.address_validation,
        ) {
            Some(e) => res == Err::<Response, _>(e) && *final(state) == *old(state),
            None => res matches Ok(r) && attributes_of(r).len() == 0 && final(state)@ == with_record(
                old(state)@,
                user_name@,
                bech32_prefix@,
                adr36_info.bech32_address@,
                adr36_info.signature@,
            ),
        },
{
    let Answers { admins, owner, signature_check, address_validation } = answers;
    let admin = match admins {
        Ok(a) => is_admin(&a, sender),
        Err(e) => {
            return Err(ContractError::Std(e));
        },
    };
    let owner_nft = is_owner(&owner, sender);
    if !admin && !owner_nft {
        return Err(ContractError::Unauthorized {});
    }
    if adr36_info.address_hash != AddressHash::SHA256 {
        return Err(ContractError::HashMethodNotSupported {});
    }
    let decoded = match bech32_decode(&adr36_info.bech32_address) {
        Ok((hrp, _)) => Some(hrp),
        Err(_) => None,
    };
    set_record_decoded(
        state,
        user_name,
        bech32_prefix,
        adr36_info,
        env,
        signature_salt,
        decoded,
        signature_check,
        address_validation,
    )
}

/// Makes `name` the primary name of the sender, who must own it.
pub fn execute_set_primary(
    state: &mut ResolverState,
    sender: String,
    name: String,
    owner: Option<String>,
) -> (res: Result<Response, ContractError>)
    requires
        old(state).wf(),
    ensures
        final(state).wf(),
        !owner_is(owner, sender@) ==> res == Err::<Response, _>(ContractError::Unauthorized {})
            && *final(state) == *old(state),
        owner_is(owner, sender@) ==> (res matches Ok(r) && attributes_of(r) == seq![
            ("method"@, "set_primary"@),
            ("name"@, name@),
        ] && final(state)@ == (ResolverView {
            primary_names: old(state)@.primary_names.insert(sender@, name@),
            ..old(state)@
        })),
{
    if !is_owner(&owner, &sender) {
        return Err(ContractError::Unauthorized {});
    }
    state.set_primary_name(sender, name.clone());
    let r = Response::new().add_attribute("method", "set_primary".to_owned()).add_attribute(
        "name",
        name,
    );
    assert(attributes_of(r) =~= seq![("method"@, "set_primary"@), ("name"@, name@)]);
    Ok(r)
}

/// Carries out a message of the resolver.
pub fn execute(
    state: &mut ResolverState,
    sender: String,
    msg: ExecuteMsg,
    env: &ChainEnv,
    answers: Answers,
) -> (res: Result<Response, ContractError>)
    requires
        old(state).wf(),
    ensures
        final(state).wf(),
        match msg {
            ExecuteMsg::SetRecord { user_name, bech32_prefix, adr36_info, signature_salt } => match set_record_refusal(
                old(state)@.signatures,
                answers.admins,
                answers.owner,
                sender@,
                user_name@,
                bech32_prefix,
                adr36_info,
                *env,
                signature_salt,
                answers.signature_check,
                answers.address_validation,
            ) {
                Some(e) => res == Err::<Response, _>(e) && *final(state) == *old(state),
                None => res matches Ok(r) && attributes_of(r).len() == 0 && final(state)@ == with_record(
                    old(state)@,
                    user_name@,
                    bech32_prefix@,
                    adr36_info.bech32_address@,
                    adr36_info.signature@,
                ),
            },
            ExecuteMsg::SetPrimary { name } => if owner_is(answers.owner, sender@) {
                res matches Ok(r) && attributes_of(r) == seq![
                    ("method"@, "set_primary"@),
                    ("name"@, name@),
                ] && final(state)@ == (ResolverView {
                    primary_names: old(state)@.primary_names.insert(sender@, name@),
                    ..old(state)@
                })
            } else {
                res == Err::<Response, _>(ContractError::Unauthorized {}) && *final(state) == *old(state)
            },
        },
{
    match msg {
        ExecuteMsg::SetRecord { user_name, bech32_prefix, adr36_info, signature_salt } => {
            execute_set_record(
                state,
                &sender,
                user_name,
                bech32_prefix,
                adr36_info,
                signature_salt,
                env,
                answers,
            )
        },
        ExecuteMsg::SetPrimary { name } => execute_set_primary(state, sender, name, answers.owner),
    }
}

/// The primary name of an address, if it has one.
pub fn query_primary_name(state: &ResolverState, address: &String) -> (res: Option<PrimaryNameResponse>)
    requires
        state.wf(),
    ensures
        is_primary_answer(state@, address@, res),
{
    match state.primary_name(address) {
        Some(name) => Some(PrimaryNameResponse { name }),
        None => None,
    }
}

/// The (prefix, address) pairs of a name, in ascending byte order of the prefixes.
pub fn query_addresses(state: &ResolverState, user_name: &String) -> (res: GetAddressesResponse)
    requires
        state.wf(),
    ensures
        is_addresses_answer(state@, user_name@, res),
{
    GetAddressesResponse { addresses: state.addresses_of(user_name) }
}

/// The address of a name on the chain of a prefix, if one is recorded.
pub fn query_address(state: &ResolverState, user_name: &String, bech32_prefix: &String) -> (res: Option<
    GetAddressResponse,
>)
    requires
        state.wf(),
    ensures
        is_address_answer(state@, user_name@, bech32_prefix@, res),
{
    match state.get_address(user_name, bech32_prefix) {
        Some(address) => Some(GetAddressResponse { address }),
        None => None,
    }
}

/// The answer to a query.
pub enum QueryAnswer {
    Config(Config),
    Addresses(GetAddressesResponse),
    /// The address of a name on a chain; `None` where none is recorded.
    Address(Option<GetAddressResponse>),
    Admin(AdminResponse),
    /// The primary name of an address; `None` where it has none.
    PrimaryName(Option<PrimaryNameResponse>),
}

/// What the query dispatcher answers in `s`: the configuration, or what the
/// query of the message's own kind answers, after the address of a primary
/// name query has been accepted.
pub open spec fn is_query_answer(
    s: ResolverView,
    msg: QueryMsg,
    admins: Result<Vec<String>, StdError>,
    address_validation: Result<(), StdError>,
    res: Result<QueryAnswer, StdError>,
) -> bool {
    match msg {
        QueryMsg::Config {} => res matches Ok(QueryAnswer::Config(c)) && c.name_address@ == s.name_address,
        QueryMsg::GetAddresses { user_name } => res matches Ok(QueryAnswer::Addresses(r))
            && is_addresses_answer(s, user_name@, r),
        QueryMsg::GetAddress { user_name, bech32_prefix } => res matches Ok(QueryAnswer::Address(a))
            && is_address_answer(s, user_name@, bech32_prefix@, a),
        QueryMsg::Admin {} => res matches Ok(QueryAnswer::Admin(r)) && is_admin_answer(admins, r),
        QueryMsg::PrimaryName { address } => match address_validation {
            Err(e) => res == Err::<QueryAnswer, StdError>(e),
            Ok(_) => res matches Ok(QueryAnswer::PrimaryName(a)) && is_primary_answer(s, address@, a),
        },
    }
}

/// Answers a query. `admins` is the answer of the name ownership contract
/// to the query for its admins, which only the admin query reads;
/// `address_validation` is what the chain said of the address of a primary
/// name query, which only that query reads.
pub fn query(
    state: &ResolverState,
    msg: QueryMsg,
    admins: Result<Vec<String>, StdError>,
    address_validation: Result<(), StdError>,
) -> (res: Result<QueryAnswer, StdError>)
    requires
        state.wf(),
    ensures
        is_query_answer(state@, msg, admins, address_validation, res),
{
    match msg {
        QueryMsg::Config {} => Ok(QueryAnswer::Config(Config { name_address: state.name_address().clone() })),
        QueryMsg::GetAddresses { user_name } => Ok(QueryAnswer::Addresses(query_addresses(state, &user_name))),
        QueryMsg::GetAddress { user_name, bech32_prefix } => Ok(
            QueryAnswer::Address(query_address(state, &user_name, &bech32_prefix)),
        ),
        QueryMsg::Admin {} => Ok(QueryAnswer::Admin(query_admin(admins))),
        QueryMsg::PrimaryName { address } => {
            if let Err(e) = address_validation {
                return Err(e);
            }
            Ok(QueryAnswer::PrimaryName(query_primary_name(state, &address)))
        },
    }
}

} // verus!
