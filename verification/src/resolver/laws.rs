//! What holds of the resolver across its operations.

use vstd::prelude::*;
use vstd::utf8::encode_utf8;
use cosmwasm_std::StdError;
use crate::byte_order::bytes_lt;
use crate::byte_order::lemma_bytes_lt_irreflexive;
use crate::byte_order::lemma_bytes_lt_asymmetric;
use crate::resolver::contract::decoded_prefix;
use crate::resolver::contract::names_of;
use crate::resolver::contract::owner_is;
use crate::resolver::contract::set_record_refusal;
use crate::resolver::contract::with_record;
use crate::resolver::contract::is_addresses_answer;
use crate::resolver::contract::is_address_answer;
use crate::resolver::contract::is_admin_answer;
use crate::resolver::contract::is_primary_answer;
use crate::resolver::contract::is_query_answer;
use crate::resolver::contract::QueryAnswer;
use crate::resolver::contract::ChainEnv;
use crate::resolver::crypto::SignatureCheck;
use crate::resolver::crypto::adr36_digest_of;
use crate::resolver::msg::AdminResponse;
use crate::resolver::msg::GetAddressResponse;
use crate::resolver::msg::GetAddressesResponse;
use crate::resolver::msg::PrimaryNameResponse;
use crate::resolver::msg::QueryMsg;
use crate::resolver::state::pairs_view;
use crate::resolver::error::ContractError;
use crate::resolver::msg::AddressHash;
use crate::resolver::msg::Adr36Info;
use crate::resolver::state::ResolverView;
use crate::resolver::state::is_listing_of;

verus! {

/// A saved record is read back: after a record of `address` for (name,
/// prefix) is saved, that key gives `address`, and every other key gives what
/// it gave before.
pub proof fn law_record_read_back(
    s: ResolverView,
    user_name: Seq<char>,
    bech32_prefix: Seq<char>,
    address: Seq<char>,
    signature: Seq<u8>,
)
    ensures
        with_record(s, user_name, bech32_prefix, address, signature).records.contains_key(
            (user_name, bech32_prefix),
        ),
        with_record(s, user_name, bech32_prefix, address, signature).records[(user_name, bech32_prefix)]
            == address,
        forall|k: (Seq<char>, Seq<char>)|
            k != (user_name, bech32_prefix) ==> (#[trigger] with_record(
                s,
                user_name,
                bech32_prefix,
                address,
                signature,
            ).records.contains_key(k) == s.records.contains_key(k) && with_record(
                s,
                user_name,
                bech32_prefix,
                address,
                signature,
            ).records[k] == s.records[k]),
{
}

/// An address gets its first recorded name as its primary name, and keeps a
/// primary name it already has; the primary names of other addresses stay.
pub proof fn law_first_record_sets_primary(
    s: ResolverView,
    user_name: Seq<char>,
    bech32_prefix: Seq<char>,
    address: Seq<char>,
    signature: Seq<u8>,
)
    ensures
        with_record(s, user_name, bech32_prefix, address, signature).primary_names.contains_key(address),
        with_record(s, user_name, bech32_prefix, address, signature).primary_names[address] == if s.primary_names.contains_key(address) {
            s.primary_names[address]
        } else {
            user_name
        },
        forall|a: Seq<char>|
            a != address ==> (#[trigger] with_record(
                s,
                user_name,
                bech32_prefix,
                address,
                signature,
            ).primary_names.contains_key(a) == s.primary_names.contains_key(a) && with_record(
                s,
                user_name,
                bech32_prefix,
                address,
                signature,
            ).primary_names[a] == s.primary_names[a]),
{
}

/// Once a record is saved with a signature, the signature stays used, as
/// does every signature used before.
pub proof fn law_signature_used(
    s: ResolverView,
    user_name: Seq<char>,
    bech32_prefix: Seq<char>,
    address: Seq<char>,
    signature: Seq<u8>,
)
    ensures
        with_record(s, user_name, bech32_prefix, address, signature).signatures.contains(signature),
        s.signatures.subset_of(with_record(s, user_name, bech32_prefix, address, signature).signatures),
{
}

/// Saving the same record twice leaves what saving it once left.
pub proof fn law_record_idempotent(
    s: ResolverView,
    user_name: Seq<char>,
    bech32_prefix: Seq<char>,
    address: Seq<char>,
    signature: Seq<u8>,
)
    ensures
        with_record(
            with_record(s, user_name, bech32_prefix, address, signature),
            user_name,
            bech32_prefix,
            address,
            signature,
        ) == with_record(s, user_name, bech32_prefix, address, signature),
{
    let once = with_record(s, user_name, bech32_prefix, address, signature);
    let twice = with_record(once, user_name, bech32_prefix, address, signature);
    assert(twice.records =~= once.records);
    assert(twice.primary_names =~= once.primary_names);
    assert(twice.signatures =~= once.signatures);
}

/// A record that is saved has been asked for by an admin or by the owner of
/// the name, names an address hashed by SHA-256 whose Bech32 prefix is the
/// record's prefix, carries a signature not used before that the host found
/// valid, by the record's public key, over the ADR-36 digest of this very
/// record (its name, prefix, address, chain, contract and salt), and has a
/// valid address.
pub proof fn law_saved_record_was_checked(
    used: Set<Seq<u8>>,
    admins: Result<Vec<String>, StdError>,
    owner: Option<String>,
    sender: Seq<char>,
    user_name: Seq<char>,
    bech32_prefix: String,
    adr36_info: Adr36Info,
    env: ChainEnv,
    signature_salt: u128,
    signature_check: SignatureCheck,
    address_validation: Result<(), StdError>,
)
    requires
        set_record_refusal(
            used,
            admins,
            owner,
            sender,
            user_name,
            bech32_prefix,
            adr36_info,
            env,
            signature_salt,
            signature_check,
            address_validation,
        ) is None,
    ensures
        admins matches Ok(a) && (names_of(a@).contains(sender) || owner_is(owner, sender)),
        adr36_info.address_hash == AddressHash::SHA256,
        decoded_prefix(adr36_info.bech32_address@) == Some(bech32_prefix@),
        !used.contains(adr36_info.signature@),
        signature_check.digest@ == adr36_digest_of(
            user_name,
            bech32_prefix@,
            adr36_info.bech32_address@,
            env.chain_id@,
            env.contract_address@,
            signature_salt,
        ),
        signature_check.signature@ == adr36_info.signature@,
        signature_check.pub_key@ == adr36_info.pub_key@,
        signature_check.verified == Ok::<bool, StdError>(true),
        address_validation is Ok,
{
}

/// A request from a sender who is neither an admin nor the owner of the name
/// is refused as unauthorized, whatever else it holds.
pub proof fn law_stranger_refused(
    used: Set<Seq<u8>>,
    admins: Vec<String>,
    owner: Option<String>,
    sender: Seq<char>,
    user_name: Seq<char>,
    bech32_prefix: String,
    adr36_info: Adr36Info,
    env: ChainEnv,
    signature_salt: u128,
    signature_check: SignatureCheck,
    address_validation: Result<(), StdError>,
)
    requires
        !names_of(admins@).contains(sender),
        !owner_is(owner, sender),
    ensures
        set_record_refusal(
            used,
            Ok(admins),
            owner,
            sender,
            user_name,
            bech32_prefix,
            adr36_info,
            env,
            signature_salt,
            signature_check,
            address_validation,
        ) == Some(ContractError::Unauthorized {}),
{
}

/// The sender's authority is all that decides whether a set-record request
/// is refused as unauthorized: an admin of the name ownership contract is
/// never refused so, whoever owns the name, nor is the owner of the name,
/// whoever the admins are; and a request is refused so exactly when the admins
/// were answered and the sender is neither one of them nor the owner.
pub proof fn law_admin_or_owner_authorized(
    used: Set<Seq<u8>>,
    admins: Result<Vec<String>, StdError>,
    owner: Option<String>,
    sender: Seq<char>,
    user_name: Seq<char>,
    bech32_prefix: String,
    adr36_info: Adr36Info,
    env: ChainEnv,
    signature_salt: u128,
    signature_check: SignatureCheck,
    address_validation: Result<(), StdError>,
)
    ensures
        (admins matches Ok(a) && names_of(a@).contains(sender)) ==> set_record_refusal(
            used,
            admins,
            owner,
            sender,
            user_name,
            bech32_prefix,
            adr36_info,
            env,
            signature_salt,
            signature_check,
            address_validation,
        ) != Some(ContractError::Unauthorized {}),
        owner_is(owner, sender) ==> set_record_refusal(
            used,
            admins,
            owner,
            sender,
            user_name,
            bech32_prefix,
            adr36_info,
            env,
            signature_salt,
            signature_check,
            address_validation,
        ) != Some(ContractError::Unauthorized {}),
        set_record_refusal(
            used,
            admins,
            owner,
            sender,
            user_name,
            bech32_prefix,
            adr36_info,
            env,
            signature_salt,
            signature_check,
            address_validation,
        ) == Some(ContractError::Unauthorized {}) <==> (admins matches Ok(a) && !names_of(a@).contains(
            sender,
        ) && !owner_is(owner, sender)),
{
}

/// Saving a record of one name leaves the address listing of every other
/// name as it was.
pub proof fn law_listing_of_other_name(
    s: ResolverView,
    user_name: Seq<char>,
    bech32_prefix: Seq<char>,
    address: Seq<char>,
    signature: Seq<u8>,
    other: Seq<char>,
    listing: Seq<(Seq<char>, Seq<char>)>,
)
    requires
        other != user_name,
        is_listing_of(listing, s.records, other),
    ensures
        is_listing_of(
            listing,
            with_record(s, user_name, bech32_prefix, address, signature).records,
            other,
        ),
{
    let m = with_record(s, user_name, bech32_prefix, address, signature).records;
    assert forall|p: Seq<char>| #[trigger] m.contains_key((other, p)) implies exists|i: int|
        0 <= i < listing.len() && #[trigger] listing[i].0 == p by {
        assert(s.records.contains_key((other, p)));
    }
}

/// The first `i` prefixes of two listings of one name agree.
proof fn lemma_listings_agree_upto(
    l1: Seq<(Seq<char>, Seq<char>)>,
    l2: Seq<(Seq<char>, Seq<char>)>,
    records: Map<(Seq<char>, Seq<char>), Seq<char>>,
    user_name: Seq<char>,
    i: int,
)
    requires
        is_listing_of(l1, records, user_name),
        is_listing_of(l2, records, user_name),
        0 <= i <= l1.len(),
        i <= l2.len(),
    ensures
        forall|k: int| 0 <= k < i ==> #[trigger] l1[k].0 == l2[k].0,
    decreases i,
{
    if i > 0 {
        let n = i - 1;
        lemma_listings_agree_upto(l1, l2, records, user_name, n);
        let a = l1[n].0;
        let b = l2[n].0;
        if a != b {
            // each one's prefix appears in the other listing
            assert(records.contains_key((user_name, a)));
            assert(records.contains_key((user_name, b)));
            let ja = choose|j: int| 0 <= j < l2.len() && #[trigger] l2[j].0 == a;
            let jb = choose|j: int| 0 <= j < l1.len() && #[trigger] l1[j].0 == b;
            if ja < n {
                assert(l1[ja].0 == l2[ja].0);
                assert(bytes_lt(encode_utf8(l1[ja].0), encode_utf8(l1[n].0)));
                lemma_bytes_lt_irreflexive(encode_utf8(a));
            } else if jb < n {
                assert(l1[jb].0 == l2[jb].0);
                assert(bytes_lt(encode_utf8(l2[jb].0), encode_utf8(l2[n].0)));
                lemma_bytes_lt_irreflexive(encode_utf8(b));
            } else {
                // ja > n and jb > n: a comes after b in l2 and b after a in l1
                assert(bytes_lt(encode_utf8(l2[n].0), encode_utf8(l2[ja].0)));
                assert(bytes_lt(encode_utf8(l1[n].0), encode_utf8(l1[jb].0)));
                lemma_bytes_lt_asymmetric(encode_utf8(b), encode_utf8(a));
            }
        }
    }
}

/// A listing of a name is determined by the records: two listings of one
/// name are the same sequence.
pub proof fn law_listing_unique(
    l1: Seq<(Seq<char>, Seq<char>)>,
    l2: Seq<(Seq<char>, Seq<char>)>,
    records: Map<(Seq<char>, Seq<char>), Seq<char>>,
    user_name: Seq<char>,
)
    requires
        is_listing_of(l1, records, user_name),
        is_listing_of(l2, records, user_name),
    ensures
        l1 == l2,
{
    if l1.len() < l2.len() {
        lemma_listings_agree_upto(l1, l2, records, user_name, l1.len() as int);
        let p = l2[l1.len() as int].0;
        assert(records.contains_key((user_name, p)));
        let j = choose|j: int| 0 <= j < l1.len() && #[trigger] l1[j].0 == p;
        assert(l2[j].0 == p);
        assert(bytes_lt(encode_utf8(l2[j].0), encode_utf8(l2[l1.len() as int].0)));
        lemma_bytes_lt_irreflexive(encode_utf8(p));
    } else if l2.len() < l1.len() {
        lemma_listings_agree_upto(l2, l1, records, user_name, l2.len() as int);
        let p = l1[l2.len() as int].0;
        assert(records.contains_key((user_name, p)));
        let j = choose|j: int| 0 <= j < l2.len() && #[trigger] l2[j].0 == p;
        assert(l1[j].0 == p);
        assert(bytes_lt(encode_utf8(l1[j].0), encode_utf8(l1[l2.len() as int].0)));
        lemma_bytes_lt_irreflexive(encode_utf8(p));
    } else {
        lemma_listings_agree_upto(l1, l2, records, user_name, l1.len() as int);
        assert forall|k: int| 0 <= k < l1.len() implies l1[k] == l2[k] by {
            assert(l1[k].0 == l2[k].0);
            assert(records[(user_name, l1[k].0)] == l1[k].1);
            assert(records[(user_name, l2[k].0)] == l2[k].1);
        }
        assert(l1 =~= l2);
    }
}

/// A signature serves once: after a record is saved with it, any request that
/// carries it again is refused, whoever sends it.
pub proof fn law_no_replay(
    s: ResolverView,
    user_name: Seq<char>,
    bech32_prefix: Seq<char>,
    address: Seq<char>,
    admins: Result<Vec<String>, StdError>,
    owner: Option<String>,
    sender: Seq<char>,
    next_name: Seq<char>,
    next_prefix: String,
    next_info: Adr36Info,
    env: ChainEnv,
    signature_salt: u128,
    signature_check: SignatureCheck,
    address_validation: Result<(), StdError>,
)
    ensures
        set_record_refusal(
            with_record(s, user_name, bech32_prefix, address, next_info.signature@).signatures,
            admins,
            owner,
            sender,
            next_name,
            next_prefix,
            next_info,
            env,
            signature_salt,
            signature_check,
            address_validation,
        ) is Some,
{
}

/// The query dispatcher answers a listing, address, admin or primary name
/// query as the query of that kind answers it on its own (the primary name
/// query once its address has been accepted, and the dispatcher refuses it
/// where the address is refused): whatever answers of the single queries
/// `listing`, `address_answer`, `admin_answer` and `primary_answer` are, the
/// dispatcher's answer holds the same values.
pub proof fn law_query_dispatch(
    s: ResolverView,
    msg: QueryMsg,
    admins: Result<Vec<String>, StdError>,
    address_validation: Result<(), StdError>,
    res: Result<QueryAnswer, StdError>,
    listing: GetAddressesResponse,
    address_answer: Option<GetAddressResponse>,
    admin_answer: AdminResponse,
    primary_answer: Option<PrimaryNameResponse>,
)
    requires
        is_query_answer(s, msg, admins, address_validation, res),
    ensures
        match msg {
            QueryMsg::GetAddresses { user_name } => is_addresses_answer(s, user_name@, listing) ==> (res matches Ok(
                QueryAnswer::Addresses(r),
            ) && pairs_view(r.addresses@) == pairs_view(listing.addresses@)),
            QueryMsg::GetAddress { user_name, bech32_prefix } => is_address_answer(
                s,
                user_name@,
                bech32_prefix@,
                address_answer,
            ) ==> (res matches Ok(QueryAnswer::Address(a)) && (a is Some <==> address_answer is Some) && (a matches Some(
                r,
            ) ==> r.address@ == address_answer->0.address@)),
            QueryMsg::Admin {} => is_admin_answer(admins, admin_answer) ==> (res matches Ok(QueryAnswer::Admin(r))
                && r.admins@.map_values(|x: String| x@) == admin_answer.admins@.map_values(|x: String| x@)),
            QueryMsg::PrimaryName { address } => match address_validation {
                Err(e) => res == Err::<QueryAnswer, StdError>(e),
                Ok(_) => is_primary_answer(s, address@, primary_answer) ==> (res matches Ok(
                    QueryAnswer::PrimaryName(a),
                ) && (a is Some <==> primary_answer is Some) && (a matches Some(r) ==> r.name@
                    == primary_answer->0.name@)),
            },
            QueryMsg::Config {} => res matches Ok(QueryAnswer::Config(c)) && c.name_address@ == s.name_address,
        },
{
    match msg {
        QueryMsg::GetAddresses { user_name } => {
            if is_addresses_answer(s, user_name@, listing) {
                if let Ok(QueryAnswer::Addresses(r)) = res {
                    law_listing_unique(pairs_view(r.addresses@), pairs_view(listing.addresses@), s.records, user_name@);
                }
            }
        },
        QueryMsg::Admin {} => {
            if is_admin_answer(admins, admin_answer) {
                if let Ok(QueryAnswer::Admin(r)) = res {
                    if let Ok(a) = admins {
                        assert(r.admins@ == admin_answer.admins@);
                    }
                }
            }
        },
        _ => {},
    }
}

/// A set-record request reads of the state only whether its signature was
/// used, and what it leaves at its own key, at the primary name of its address
/// and for its signature depends only on what was there: two states that
/// agree on those entries refuse the same requests and agree on them after.
/// Together with `law_record_read_back`, `law_first_record_sets_primary` and
/// `law_signature_used`, which leave every other entry as it was, a request
/// decided on those entries alone leaves the store as one decided on all of it.
pub proof fn law_set_record_reads_its_slice(
    s1: ResolverView,
    s2: ResolverView,
    admins: Result<Vec<String>, StdError>,
    owner: Option<String>,
    sender: Seq<char>,
    user_name: String,
    bech32_prefix: String,
    adr36_info: Adr36Info,
    env: ChainEnv,
    signature_salt: u128,
    signature_check: SignatureCheck,
    address_validation: Result<(), StdError>,
)
    requires
        s1.signatures.contains(adr36_info.signature@) == s2.signatures.contains(adr36_info.signature@),
        s1.primary_names.contains_key(adr36_info.bech32_address@) == s2.primary_names.contains_key(
            adr36_info.bech32_address@,
        ),
        s1.primary_names.contains_key(adr36_info.bech32_address@) ==> s1.primary_names[adr36_info.bech32_address@]
            == s2.primary_names[adr36_info.bech32_address@],
    ensures
        set_record_refusal(
            s1.signatures,
            admins,
            owner,
            sender,
            user_name@,
            bech32_prefix,
            adr36_info,
            env,
            signature_salt,
            signature_check,
            address_validation,
        ) == set_record_refusal(
            s2.signatures,
            admins,
            owner,
            sender,
            user_name@,
            bech32_prefix,
            adr36_info,
            env,
            signature_salt,
            signature_check,
            address_validation,
        ),
        with_record(s1, user_name@, bech32_prefix@, adr36_info.bech32_address@, adr36_info.signature@).records[(
            user_name@,
            bech32_prefix@,
        )] == with_record(
            s2,
            user_name@,
            bech32_prefix@,
            adr36_info.bech32_address@,
            adr36_info.signature@,
        ).records[(user_name@, bech32_prefix@)],
        with_record(
            s1,
            user_name@,
            bech32_prefix@,
            adr36_info.bech32_address@,
            adr36_info.signature@,
        ).primary_names[adr36_info.bech32_address@] == with_record(
            s2,
            user_name@,
            bech32_prefix@,
            adr36_info.bech32_address@,
            adr36_info.signature@,
        ).primary_names[adr36_info.bech32_address@],
{
}

/// The address listing of a name reads only that name's records: where two
/// record maps agree on the keys of the name, a listing of one is a listing of
/// the other.
pub proof fn law_listing_reads_its_name(
    m1: Map<(Seq<char>, Seq<char>), Seq<char>>,
    m2: Map<(Seq<char>, Seq<char>), Seq<char>>,
    user_name: Seq<char>,
    listing: Seq<(Seq<char>, Seq<char>)>,
)
    requires
        forall|p: Seq<char>|
            #[trigger] m1.contains_key((user_name, p)) == m2.contains_key((user_name, p)),
        forall|p: Seq<char>|
            #[trigger] m1.contains_key((user_name, p)) ==> m1[(user_name, p)] == m2[(user_name, p)],
        is_listing_of(listing, m1, user_name),
    ensures
        is_listing_of(listing, m2, user_name),
{
    assert forall|p: Seq<char>| #[trigger] m2.contains_key((user_name, p)) implies exists|i: int|
        0 <= i < listing.len() && #[trigger] listing[i].0 == p by {
        assert(m1.contains_key((user_name, p)));
    }
    assert forall|i: int| 0 <= i < listing.len() implies m2.contains_key((user_name, #[trigger] listing[i].0))
        && m2[(user_name, listing[i].0)] == listing[i].1 by {
        assert(m1.contains_key((user_name, listing[i].0)));
    }
}

} // verus!
