//! The resolver's stored state: its configuration, the address records of
//! each name, the primary name of each address and the signatures already used.

use vstd::prelude::*;
use vstd::utf8::encode_utf8;
use crate::assoc::assoc_map;
use crate::assoc::unique_keys;
use crate::assoc::lemma_assoc_map;
use crate::assoc::lemma_assoc_insert;
use crate::assoc::lemma_assoc_update;
use crate::byte_order::bytes_lt;
use crate::byte_order::bytes_less;
use crate::byte_order::bytes_equal;
use crate::byte_order::lemma_bytes_lt_transitive;
use crate::byte_order::lemma_bytes_lt_total;
use crate::byte_order::lemma_encode_utf8_injective;

verus! {

/// The resolver's configuration: the address of the name ownership contract.
#[derive(Clone, Debug, PartialEq)]
pub struct Config {
    pub name_address: String,
}

/// The address that a name has on the chain of one Bech32 prefix.
#[derive(Clone, Debug, PartialEq)]
pub struct Record {
    pub user_name: String,
    pub bech32_prefix: String,
    pub address: String,
}

/// The name that an address has chosen as its primary name.
#[derive(Clone, Debug, PartialEq)]
pub struct PrimaryName {
    pub address: String,
    pub name: String,
}

/// The key and value of a record, as character sequences.
pub open spec fn record_entry(r: Record) -> ((Seq<char>, Seq<char>), Seq<char>) {
    ((r.user_name@, r.bech32_prefix@), r.address@)
}

/// The key and value of each record.
pub open spec fn record_entries(recs: Seq<Record>) -> Seq<((Seq<char>, Seq<char>), Seq<char>)> {
    recs.map_values(|r: Record| record_entry(r))
}

/// The key and value of each primary name.
pub open spec fn primary_entries(ps: Seq<PrimaryName>) -> Seq<(Seq<char>, Seq<char>)> {
    ps.map_values(|p: PrimaryName| (p.address@, p.name@))
}

/// The bytes of a record's prefix, by which the store orders the records of one name.
pub open spec fn prefix_bytes(r: Record) -> Seq<u8> {
    encode_utf8(r.bech32_prefix@)
}

/// Among the records of one name, the prefixes come in ascending byte order.
pub open spec fn prefixes_sorted(recs: Seq<Record>) -> bool {
    forall|i: int, j: int|
        0 <= i < j < recs.len() && #[trigger] recs[i].user_name@ == #[trigger] recs[j].user_name@
            ==> bytes_lt(prefix_bytes(recs[i]), prefix_bytes(recs[j]))
}

/// `listing` holds exactly the (prefix, address) pairs that `records` holds
/// for `user_name`, in ascending byte order of the prefixes.
pub open spec fn is_listing_of(
    listing: Seq<(Seq<char>, Seq<char>)>,
    records: Map<(Seq<char>, Seq<char>), Seq<char>>,
    user_name: Seq<char>,
) -> bool {
    &&& forall|i: int|
        0 <= i < listing.len() ==> records.contains_key((user_name, #[trigger] listing[i].0))
            && records[(user_name, listing[i].0)] == listing[i].1
    &&& forall|p: Seq<char>|
        #[trigger] records.contains_key((user_name, p)) ==> exists|i: int|
            0 <= i < listing.len() && #[trigger] listing[i].0 == p
    &&& forall|i: int, j: int|
        0 <= i < j < listing.len() ==> bytes_lt(
            encode_utf8(#[trigger] listing[i].0),
            encode_utf8(#[trigger] listing[j].0),
        )
}

/// The (prefix, address) pairs as character sequences.
pub open spec fn pairs_view(v: Seq<(String, String)>) -> Seq<(Seq<char>, Seq<char>)> {
    v.map_values(|p: (String, String)| (p.0@, p.1@))
}

/// The abstract state of the resolver.
pub struct ResolverView {
    /// The address of the name ownership contract.
    pub name_address: Seq<char>,
    /// The address of each (name, Bech32 prefix).
    pub records: Map<(Seq<char>, Seq<char>), Seq<char>>,
    /// The primary name of each address.
    pub primary_names: Map<Seq<char>, Seq<char>>,
    /// The signatures already used.
    pub signatures: Set<Seq<u8>>,
}

/// The resolver's state.
pub struct ResolverState {
    config: Config,
    records: Vec<Record>,
    primary_names: Vec<PrimaryName>,
    signatures: Vec<Vec<u8>>,
}

impl View for ResolverState {
    type V = ResolverView;

    closed spec fn view(&self) -> ResolverView {
        ResolverView {
            name_address: self.config.name_address@,
            records: self.records_map(),
            primary_names: self.primary_map(),
            signatures: self.signature_set(),
        }
    }
}

impl ResolverState {
    /// The records as a map from (name, prefix) to address.
    pub closed spec fn records_map(&self) -> Map<(Seq<char>, Seq<char>), Seq<char>> {
        assoc_map(record_entries(self.records@))
    }

    /// The primary names as a map from address to name.
    pub closed spec fn primary_map(&self) -> Map<Seq<char>, Seq<char>> {
        assoc_map(primary_entries(self.primary_names@))
    }

    /// The signatures already used.
    pub closed spec fn signature_set(&self) -> Set<Seq<u8>> {
        self.signatures@.map_values(|v: Vec<u8>| v@).to_set()
    }

    /// The state's invariant: each key occurs once, and the records of each
    /// name are kept in ascending byte order of their prefixes.
    pub closed spec fn wf(&self) -> bool {
        &&& unique_keys(record_entries(self.records@))
        &&& prefixes_sorted(self.records@)
        &&& unique_keys(primary_entries(self.primary_names@))
        &&& self.signatures@.map_values(|v: Vec<u8>| v@).no_duplicates()
    }

    /// A state with the given configuration and nothing stored.
    pub fn new(config: Config) -> (s: ResolverState)
        ensures
            s.wf(),
            s@.name_address == config.name_address@,
            s@.records == Map::<(Seq<char>, Seq<char>), Seq<char>>::empty(),
            s@.primary_names == Map::<Seq<char>, Seq<char>>::empty(),
            s@.signatures == Set::<Seq<u8>>::empty(),
    {
        let s = ResolverState {
            config,
            records: Vec::new(),
            primary_names: Vec::new(),
            signatures: Vec::new(),
        };
        assert(record_entries(s.records@) =~= Seq::empty());
        assert(primary_entries(s.primary_names@) =~= Seq::empty());
        assert(s.signatures@.map_values(|v: Vec<u8>| v@) =~= Seq::empty());
        assert(s.signature_set() =~= Set::empty());
        s
    }

    /// The address of the name ownership contract.
    pub fn name_address(&self) -> (res: &String)
        ensures
            res@ == self@.name_address,
    {
        &self.config.name_address
    }

    /// The index of the record of (name, prefix), if there is one.
    fn find_record(&self, user_name: &String, bech32_prefix: &String) -> (res: Option<usize>)
        requires
            self.wf(),
        ensures
            match res {
                Some(i) => i < self.records@.len() && self.records@[i as int].user_name@ == user_name@
                    && self.records@[i as int].bech32_prefix@ == bech32_prefix@,
                None => forall|i: int| 0 <= i < self.records@.len() ==> #[trigger] record_entry(
                    self.records@[i],
                ).0 != (user_name@, bech32_prefix@),
            },
    {
        let mut i: usize = 0;
        while i < self.records.len()
            invariant
                i <= self.records@.len(),
                forall|k: int| 0 <= k < i ==> #[trigger] record_entry(self.records@[k]).0 != (
                    user_name@,
                    bech32_prefix@,
                ),
            decreases self.records@.len() - i,
        {
            let r = &self.records[i];
            if r.user_name == *user_name && r.bech32_prefix == *bech32_prefix {
                return Some(i);
            }
            i = i + 1;
        }
        None
    }

    /// The address recorded for a name on the chain of a prefix.
    pub fn get_address(&self, user_name: &String, bech32_prefix: &String) -> (res: Option<String>)
        requires
            self.wf(),
        ensures
            res is Some <==> self@.records.contains_key((user_name@, bech32_prefix@)),
            res matches Some(a) ==> a@ == self@.records[(user_name@, bech32_prefix@)],
    {
        proof {
            lemma_assoc_map(record_entries(self.records@));
        }
        match self.find_record(user_name, bech32_prefix) {
            Some(i) => {
                let ghost e = record_entries(self.records@);
                assert(e[i as int] == record_entry(self.records@[i as int]));
                assert(assoc_map(e)[e[i as int].0] == e[i as int].1);
                assert(assoc_map(e).contains_key(e[i as int].0));
                Some(self.records[i].address.clone())
            },
            None => {
                assert forall|k: int| 0 <= k < record_entries(self.records@).len() implies
                    #[trigger] record_entries(self.records@)[k].0 != (user_name@, bech32_prefix@) by {
                    assert(record_entries(self.records@)[k] == record_entry(self.records@[k]));
                }
                None
            },
        }
    }

    /// Where a new record of a name goes: before the first record of that name
    /// whose prefix is greater, or at the end.
    fn insert_position(&self, user_name: &String, bech32_prefix: &String) -> (res: usize)
        requires
            self.wf(),
        ensures
            res <= self.records@.len(),
            forall|k: int|
                0 <= k < res && #[trigger] self.records@[k].user_name@ == user_name@
                    ==> !bytes_lt(encode_utf8(bech32_prefix@), prefix_bytes(self.records@[k])),
            res < self.records@.len() ==> self.records@[res as int].user_name@ == user_name@
                && bytes_lt(encode_utf8(bech32_prefix@), prefix_bytes(self.records@[res as int])),
    {
        let prefix = bech32_prefix.as_str().as_bytes();
        let mut i: usize = 0;
        while i < self.records.len()
            invariant
                i <= self.records@.len(),
                prefix@ == encode_utf8(bech32_prefix@),
                forall|k: int|
                    0 <= k < i && #[trigger] self.records@[k].user_name@ == user_name@
                        ==> !bytes_lt(encode_utf8(bech32_prefix@), prefix_bytes(self.records@[k])),
            decreases self.records@.len() - i,
        {
            let r = &self.records[i];
            if r.user_name == *user_name && bytes_less(prefix, r.bech32_prefix.as_str().as_bytes()) {
                return i;
            }
            i = i + 1;
        }
        i
    }

    /// Records `address` for the name on the chain of the prefix, in place of
    /// any address recorded for them before.
    pub fn set_record(&mut self, user_name: String, bech32_prefix: String, address: String)
        requires
            old(self).wf(),
        ensures
            final(self).wf(),
            final(self)@.records == old(self)@.records.insert((user_name@, bech32_prefix@), address@),
            final(self)@.name_address == old(self)@.name_address,
            final(self)@.primary_names == old(self)@.primary_names,
            final(self)@.signatures == old(self)@.signatures,
    {
        let ghost old_recs = self.records@;
        let r = Record { user_name, bech32_prefix, address };
        match self.find_record(&r.user_name, &r.bech32_prefix) {
            Some(i) => {
                proof {
                    assert(record_entries(old_recs)[i as int] == record_entry(old_recs[i as int]));
                    lemma_assoc_update(record_entries(old_recs), i as int, record_entry(r));
                    assert(record_entries(old_recs.update(i as int, r)) =~= record_entries(
                        old_recs,
                    ).update(i as int, record_entry(r)));
                    assert(prefix_bytes(r) == prefix_bytes(old_recs[i as int]));
                }
                self.records.set(i, r);
                proof {
                    let t = self.records@;
                    assert(t == old_recs.update(i as int, r));
                    assert forall|a: int, b: int|
                        0 <= a < b < t.len() && #[trigger] t[a].user_name@ == #[trigger] t[b].user_name@
                        implies bytes_lt(prefix_bytes(t[a]), prefix_bytes(t[b])) by {
                        assert(old_recs[a].user_name@ == old_recs[b].user_name@);
                    }
                }
            },
            None => {
                let p = self.insert_position(&r.user_name, &r.bech32_prefix);
                proof {
                    let e = record_entries(old_recs);
                    assert forall|k: int| 0 <= k < e.len() implies #[trigger] e[k].0 != record_entry(r).0 by {
                        assert(e[k] == record_entry(old_recs[k]));
                    }
                    lemma_assoc_insert(e, p as int, record_entry(r));
                    assert(record_entries(old_recs.insert(p as int, r)) =~= e.insert(p as int, record_entry(r)));
                }
                self.records.insert(p, r);
                proof {
                    let t = self.records@;
                    assert(t == old_recs.insert(p as int, r));
                    assert forall|a: int, b: int|
                        0 <= a < b < t.len() && #[trigger] t[a].user_name@ == #[trigger] t[b].user_name@
                        implies bytes_lt(prefix_bytes(t[a]), prefix_bytes(t[b])) by {
                        if a < p && b > p {
                            assert(t[b] == old_recs[b - 1]);
                            assert(old_recs[a].user_name@ == old_recs[b - 1].user_name@);
                        } else if a > p {
                            assert(t[a] == old_recs[a - 1]);
                            assert(t[b] == old_recs[b - 1]);
                        } else if a == p {
                            // the new record comes before every greater record of its name
                            assert(t[b] == old_recs[b - 1]);
                            assert(p < old_recs.len());
                            if b - 1 > p {
                                assert(old_recs[p as int].user_name@ == old_recs[b - 1].user_name@);
                                lemma_bytes_lt_transitive(
                                    prefix_bytes(r),
                                    prefix_bytes(old_recs[p as int]),
                                    prefix_bytes(old_recs[b - 1]),
                                );
                            }
                        } else if b == p {
                            // every earlier record of its name has a smaller prefix
                            assert(t[a] == old_recs[a]);
                            assert(!bytes_lt(prefix_bytes(r), prefix_bytes(old_recs[a])));
                            if prefix_bytes(r) == prefix_bytes(old_recs[a]) {
                                lemma_encode_utf8_injective(r.bech32_prefix@, old_recs[a].bech32_prefix@);
                                assert(record_entry(old_recs[a]).0 == record_entry(r).0);
                            }
                            lemma_bytes_lt_total(prefix_bytes(r), prefix_bytes(old_recs[a]));
                        }
                    }
                }
            },
        }
    }

    /// The index of the primary name of an address, if it has one.
    fn find_primary(&self, address: &String) -> (res: Option<usize>)
        ensures
            match res {
                Some(i) => i < self.primary_names@.len() && self.primary_names@[i as int].address@
                    == address@,
                None => forall|i: int|
                    0 <= i < self.primary_names@.len() ==> #[trigger] self.primary_names@[i].address@
                        != address@,
            },
    {
        let mut i: usize = 0;
        while i < self.primary_names.len()
            invariant
                i <= self.primary_names@.len(),
                forall|k: int| 0 <= k < i ==> #[trigger] self.primary_names@[k].address@ != address@,
            decreases self.primary_names@.len() - i,
        {
            if self.primary_names[i].address == *address {
                return Some(i);
            }
            i = i + 1;
        }
        None
    }

    /// The primary name of an address.
    pub fn primary_name(&self, address: &String) -> (res: Option<String>)
        requires
            self.wf(),
        ensures
            res is Some <==> self@.primary_names.contains_key(address@),
            res matches Some(n) ==> n@ == self@.primary_names[address@],
    {
        let ghost e = primary_entries(self.primary_names@);
        proof {
            lemma_assoc_map(e);
        }
        match self.find_primary(address) {
            Some(i) => {
                assert(e[i as int] == (self.primary_names@[i as int].address@, self.primary_names@[i as int].name@));
                assert(assoc_map(e)[e[i as int].0] == e[i as int].1);
                assert(assoc_map(e).contains_key(e[i as int].0));
                Some(self.primary_names[i].name.clone())
            },
            None => {
                assert forall|k: int| 0 <= k < e.len() implies #[trigger] e[k].0 != address@ by {
                    assert(e[k].0 == self.primary_names@[k].address@);
                }
                None
            },
        }
    }

    /// Makes `name` the primary name of `address`.
    pub fn set_primary_name(&mut self, address: String, name: String)
        requires
            old(self).wf(),
        ensures
            final(self).wf(),
            final(self)@.primary_names == old(self)@.primary_names.insert(address@, name@),
            final(self)@.name_address == old(self)@.name_address,
            final(self)@.records == old(self)@.records,
            final(self)@.signatures == old(self)@.signatures,
    {
        let ghost old_ps = self.primary_names@;
        let ghost e = primary_entries(old_ps);
        let p = PrimaryName { address, name };
        match self.find_primary(&p.address) {
            Some(i) => {
                proof {
                    lemma_assoc_update(e, i as int, (p.address@, p.name@));
                    assert(primary_entries(old_ps.update(i as int, p)) =~= e.update(i as int, (p.address@, p.name@)));
                }
                self.primary_names.set(i, p);
                assert(self.primary_names@ == old_ps.update(i as int, p));
            },
            None => {
                proof {
                    assert forall|k: int| 0 <= k < e.len() implies #[trigger] e[k].0 != p.address@ by {
                        assert(e[k].0 == old_ps[k].address@);
                    }
                    lemma_assoc_insert(e, e.len() as int, (p.address@, p.name@));
                    assert(primary_entries(old_ps.push(p)) =~= e.insert(e.len() as int, (p.address@, p.name@)));
                }
                self.primary_names.push(p);
                assert(self.primary_names@ == old_ps.push(p));
            },
        }
    }

    /// Whether a signature has been used.
    pub fn has_signature(&self, signature: &Vec<u8>) -> (res: bool)
        ensures
            res == self@.signatures.contains(signature@),
    {
        let ghost sv = self.signatures@.map_values(|v: Vec<u8>| v@);
        let mut i: usize = 0;
        while i < self.signatures.len()
            invariant
                i <= self.signatures@.len(),
                sv == self.signatures@.map_values(|v: Vec<u8>| v@),
                forall|k: int| 0 <= k < i ==> #[trigger] sv[k] != signature@,
            decreases self.signatures@.len() - i,
        {
            if bytes_equal(self.signatures[i].as_slice(), signature.as_slice()) {
                assert(sv[i as int] == signature@);
                assert(sv.contains(signature@));
                return true;
            }
            i = i + 1;
        }
        assert(!sv.contains(signature@));
        false
    }

    /// Marks a signature as used.
    pub fn save_signature(&mut self, signature: Vec<u8>)
        requires
            old(self).wf(),
        ensures
            final(self).wf(),
            final(self)@.signatures == old(self)@.signatures.insert(signature@),
            final(self)@.name_address == old(self)@.name_address,
            final(self)@.records == old(self)@.records,
            final(self)@.primary_names == old(self)@.primary_names,
    {
        if self.has_signature(&signature) {
            assert(self@.signatures.insert(signature@) =~= self@.signatures);
            return;
        }
        let ghost old_sv = self.signatures@.map_values(|v: Vec<u8>| v@);
        let ghost sig = signature@;
        self.signatures.push(signature);
        proof {
            let sv = self.signatures@.map_values(|v: Vec<u8>| v@);
            assert(sv =~= old_sv.push(sig));
            assert(!old_sv.contains(sig));
            assert(sv.no_duplicates()) by {
                assert forall|a: int, b: int| 0 <= a < sv.len() && 0 <= b < sv.len() && a != b implies sv[a] != sv[b] by {
                    if a == old_sv.len() {
                        assert(old_sv[b] == sv[b]);
                    } else if b == old_sv.len() {
                        assert(old_sv[a] == sv[a]);
                    }
                }
            }
            assert forall|x: Seq<u8>| #[trigger] sv.to_set().contains(x) <==> old_sv.to_set().insert(sig).contains(x) by {
                if sv.contains(x) && x != sig {
                    let k = choose|k: int| 0 <= k < sv.len() && sv[k] == x;
                    assert(old_sv[k] == x);
                }
                if old_sv.contains(x) {
                    let k = choose|k: int| 0 <= k < old_sv.len() && old_sv[k] == x;
                    assert(sv[k] == x);
                }
                if x == sig {
                    assert(sv[old_sv.len() as int] == x);
                }
            }
            assert(sv.to_set() =~= old_sv.to_set().insert(sig));
        }
    }

    /// The (prefix, address) pairs recorded for a name, in ascending byte order
    /// of the prefixes.
    pub fn addresses_of(&self, user_name: &String) -> (res: Vec<(String, String)>)
        requires
            self.wf(),
        ensures
            is_listing_of(pairs_view(res@), self@.records, user_name@),
    {
        let ghost recs = self.records@;
        let ghost e = record_entries(recs);
        let mut res: Vec<(String, String)> = Vec::new();
        let ghost mut idx: Seq<int> = Seq::empty();
        let mut i: usize = 0;
        while i < self.records.len()
            invariant
                recs == self.records@,
                i <= recs.len(),
                res@.len() == idx.len(),
                forall|k: int|
                    0 <= k < idx.len() ==> 0 <= #[trigger] idx[k] < i && recs[idx[k]].user_name@
                        == user_name@ && res@[k].0@ == recs[idx[k]].bech32_prefix@ && res@[k].1@
                        == recs[idx[k]].address@,
                forall|k: int, l: int| 0 <= k < l < idx.len() ==> #[trigger] idx[k] < #[trigger] idx[l],
                forall|j: int|
                    0 <= j < i && #[trigger] recs[j].user_name@ == user_name@ ==> exists|k: int|
                        0 <= k < idx.len() && #[trigger] idx[k] == j,
            decreases recs.len() - i,
        {
            let r = &self.records[i];
            if r.user_name == *user_name {
                res.push((r.bech32_prefix.clone(), r.address.clone()));
                proof {
                    let old_idx = idx;
                    idx = idx.push(i as int);
                    assert forall|j: int|
                        0 <= j < i + 1 && #[trigger] recs[j].user_name@ == user_name@ implies exists|k: int|
                        0 <= k < idx.len() && #[trigger] idx[k] == j by {
                        if j == i {
                            assert(idx[old_idx.len() as int] == j);
                        } else {
                            let k = choose|k: int| 0 <= k < old_idx.len() && #[trigger] old_idx[k] == j;
                            assert(idx[k] == j);
                        }
                    }
                }
            }
            i = i + 1;
        }
        proof {
            lemma_assoc_map(e);
            let l = pairs_view(res@);
            assert forall|k: int| 0 <= k < l.len() implies self@.records.contains_key((user_name@, #[trigger] l[k].0))
                && self@.records[(user_name@, l[k].0)] == l[k].1 by {
                let j = idx[k];
                assert(e[j] == record_entry(recs[j]));
                assert(e[j].0 == (user_name@, l[k].0));
            }
            assert forall|p: Seq<char>| #[trigger] self@.records.contains_key((user_name@, p)) implies exists|k: int|
                0 <= k < l.len() && #[trigger] l[k].0 == p by {
                let j = choose|j: int| 0 <= j < e.len() && #[trigger] e[j].0 == (user_name@, p);
                assert(e[j] == record_entry(recs[j]));
                assert(recs[j].user_name@ == user_name@);
                let k = choose|k: int| 0 <= k < idx.len() && #[trigger] idx[k] == j;
                assert(l[k].0 == p);
            }
            assert forall|a: int, b: int| 0 <= a < b < l.len() implies bytes_lt(
                encode_utf8(#[trigger] l[a].0),
                encode_utf8(#[trigger] l[b].0),
            ) by {
                assert(idx[a] < idx[b]);
                assert(recs[idx[a]].user_name@ == recs[idx[b]].user_name@);
            }
        }
        res
    }

    /// The records, each (name, prefix) once.
    pub fn records(&self) -> (res: &Vec<Record>)
        requires
            self.wf(),
        ensures
            unique_keys(record_entries(res@)),
            assoc_map(record_entries(res@)) == self@.records,
    {
        &self.records
    }

    /// The primary names, each address once.
    pub fn primary_names(&self) -> (res: &Vec<PrimaryName>)
        requires
            self.wf(),
        ensures
            unique_keys(primary_entries(res@)),
            assoc_map(primary_entries(res@)) == self@.primary_names,
    {
        &self.primary_names
    }

    /// The signatures already used, each once.
    pub fn signatures(&self) -> (res: &Vec<Vec<u8>>)
        requires
            self.wf(),
        ensures
            res@.map_values(|v: Vec<u8>| v@).no_duplicates(),
            res@.map_values(|v: Vec<u8>| v@).to_set() == self@.signatures,
    {
        &self.signatures
    }
}

} // verus!
