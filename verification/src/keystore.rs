//! The in-memory key store: a mapping from encoded public key bytes to key
//! records, with insert-or-replace, lookup, snapshot listing, locking
//! (stripping private material in place) and atomic batch replacement.
//!
//! The store is modelled as a `Map` from the public key bytes to a record
//! model; two records with the same public key bytes cannot coexist, so
//! inserting replaces.

use vstd::prelude::*;
use vstd::std_specs::cmp::PartialEqSpec;

use crate::keys::PrivateKeyEntry;
use crate::openssh::{canon, parse_openssh, parse_result, public_bytes_of, public_key_bytes, SshKeyHandle};

verus! {

/// One stored key: the encoded public key (the store's lookup key), the
/// private key while unlocked, a display name, and the vault entry the
/// record correlates to.
pub struct KeyRecord {
    pub public_key_bytes: Vec<u8>,
    pub private_key: Option<SshKeyHandle>,
    pub name: String,
    pub credential_id: String,
}

/// The mathematical content of a record: the private key's canonical text
/// while present, and the two labels.
pub struct RecordModel {
    pub private_key: Option<Seq<char>>,
    pub name: Seq<char>,
    pub credential_id: Seq<char>,
}

impl View for KeyRecord {
    type V = RecordModel;

    open spec fn view(&self) -> RecordModel {
        RecordModel {
            private_key: match self.private_key {
                Some(k) => Some(canon(k)),
                None => None,
            },
            name: self.name@,
            credential_id: self.credential_id@,
        }
    }
}

/// A record with its private material stripped and everything else intact.
pub open spec fn locked_model(r: RecordModel) -> RecordModel {
    RecordModel { private_key: None, name: r.name, credential_id: r.credential_id }
}

/// Whether a batch entry parses: its text must parse as a private key and
/// the public part must encode to bytes.
pub open spec fn entry_ok(e: PrivateKeyEntry) -> bool {
    &&& parse_result(e.private_key@) is Some
    &&& public_bytes_of(parse_result(e.private_key@)->0) is Some
}

/// The store key a parsed batch entry is filed under.
pub open spec fn entry_key(e: PrivateKeyEntry) -> Seq<u8> {
    public_bytes_of(parse_result(e.private_key@)->0)->0
}

/// The record a parsed batch entry becomes.
pub open spec fn entry_record(e: PrivateKeyEntry) -> RecordModel {
    RecordModel {
        private_key: Some(parse_result(e.private_key@)->0),
        name: e.name@,
        credential_id: e.uuid@,
    }
}

/// The store contents after a batch replacement: each entry that parses is
/// inserted in order (a later entry overwrites an earlier one with the same
/// public key), each that fails to parse is skipped.
pub open spec fn replace_model(entries: Seq<PrivateKeyEntry>) -> Map<Seq<u8>, RecordModel>
    decreases entries.len(),
{
    if entries.len() == 0 {
        Map::empty()
    } else if entry_ok(entries.last()) {
        replace_model(entries.drop_last()).insert(
            entry_key(entries.last()),
            entry_record(entries.last()),
        )
    } else {
        replace_model(entries.drop_last())
    }
}

/// Compare two byte strings by content.
fn bytes_eq(a: &Vec<u8>, b: &Vec<u8>) -> (r: bool)
    ensures
        r == (a@ == b@),
{
    let r = a.eq(b);
    proof {
        if r {
            assert(a@ =~= b@);
        } else {
            if a@ == b@ {
                assert(a.eq_spec(b));
            }
        }
    }
    r
}

/// The key store. Its view is the mapping from public key bytes to record
/// models; internally the records sit in a vector with pairwise distinct
/// keys.
pub struct KeyStore {
    records: Vec<KeyRecord>,
}

impl KeyStore {
    /// Pairwise distinct public key bytes among the stored records.
    pub closed spec fn wf(self) -> bool {
        forall|i: int, j: int|
            0 <= i < j < self.records@.len() ==> self.records@[i].public_key_bytes@
                != self.records@[j].public_key_bytes@
    }

    pub closed spec fn view(&self) -> Map<Seq<u8>, RecordModel> {
        Self::map_of(self.records@)
    }

    /// The mapping a record sequence denotes, later records overwriting
    /// earlier ones with the same key.
    pub closed spec fn map_of(s: Seq<KeyRecord>) -> Map<Seq<u8>, RecordModel>
        decreases s.len(),
    {
        if s.len() == 0 {
            Map::empty()
        } else {
            Self::map_of(s.drop_last()).insert(s.last().public_key_bytes@, s.last()@)
        }
    }

    proof fn lemma_map_of_contains(s: Seq<KeyRecord>, k: Seq<u8>)
        ensures
            Self::map_of(s).contains_key(k) <==> exists|i: int|
                0 <= i < s.len() && s[i].public_key_bytes@ == k,
        decreases s.len(),
    {
        if s.len() > 0 {
            Self::lemma_map_of_contains(s.drop_last(), k);
            if s.last().public_key_bytes@ == k {
                assert(s[s.len() - 1].public_key_bytes@ == k);
            } else if Self::map_of(s).contains_key(k) {
                let i = choose|i: int| 0 <= i < s.drop_last().len() && s.drop_last()[i].public_key_bytes@ == k;
                assert(s[i].public_key_bytes@ == k);
            } else {
                assert forall|i: int| 0 <= i < s.len() implies s[i].public_key_bytes@ != k by {
                    if i < s.len() - 1 {
                        assert(s.drop_last()[i] == s[i]);
                    }
                }
            }
        }
    }

    proof fn lemma_map_of_index(s: Seq<KeyRecord>, i: int)
        requires
            0 <= i < s.len(),
            forall|j: int| i < j < s.len() ==> s[j].public_key_bytes@ != s[i].public_key_bytes@,
        ensures
            Self::map_of(s).contains_key(s[i].public_key_bytes@),
            Self::map_of(s)[s[i].public_key_bytes@] == s[i]@,
        decreases s.len(),
    {
        if i == s.len() - 1 {
        } else {
            assert forall|j: int| i < j < s.drop_last().len() implies s.drop_last()[j].public_key_bytes@
                != s.drop_last()[i].public_key_bytes@ by {
                assert(s.drop_last()[j] == s[j]);
            }
            Self::lemma_map_of_index(s.drop_last(), i);
            assert(s.last().public_key_bytes@ != s[i].public_key_bytes@);
        }
    }

    /// A store with pairwise distinct keys has exactly as many records as
    /// its map has keys.
    proof fn lemma_map_of_len(s: Seq<KeyRecord>)
        requires
            forall|i: int, j: int|
                0 <= i < j < s.len() ==> s[i].public_key_bytes@ != s[j].public_key_bytes@,
        ensures
            Self::map_of(s).dom().finite(),
            Self::map_of(s).dom().len() == s.len(),
        decreases s.len(),
    {
        if s.len() == 0 {
            assert(Self::map_of(s).dom() =~= Set::<Seq<u8>>::empty());
        } else {
            assert forall|i: int, j: int|
                0 <= i < j < s.drop_last().len() implies s.drop_last()[i].public_key_bytes@
                != s.drop_last()[j].public_key_bytes@ by {
                assert(s.drop_last()[i] == s[i] && s.drop_last()[j] == s[j]);
            }
            Self::lemma_map_of_len(s.drop_last());
            Self::lemma_map_of_contains(s.drop_last(), s.last().public_key_bytes@);
            assert forall|i: int| 0 <= i < s.drop_last().len() implies s.drop_last()[i].public_key_bytes@
                != s.last().public_key_bytes@ by {
                assert(s.drop_last()[i] == s[i]);
            }
            assert(!Self::map_of(s.drop_last()).contains_key(s.last().public_key_bytes@));
            assert(Self::map_of(s).dom() =~= Self::map_of(s.drop_last()).dom().insert(
                s.last().public_key_bytes@,
            ));
        }
    }

    /// Create an empty store.
    pub fn new() -> (r: KeyStore)
        ensures
            r.wf(),
            r@ == Map::<Seq<u8>, RecordModel>::empty(),
    {
        KeyStore { records: Vec::new() }
    }

    /// Insert a record, replacing any record that shares its public key
    /// bytes.
    pub fn insert_or_replace(&mut self, record: KeyRecord)
        requires
            old(self).wf(),
        ensures
            final(self).wf(),
            final(self)@ == old(self)@.insert(record.public_key_bytes@, record@),
    {
        let ghost s0 = self.records@;
        let n = self.records.len();
        for i in 0..n
            invariant
                n == self.records@.len(),
                self.records@ == s0,
                old(self).records@ == s0,
                self.wf(),
                forall|j: int| 0 <= j < i ==> s0[j].public_key_bytes@ != record.public_key_bytes@,
        {
            if bytes_eq(&self.records[i].public_key_bytes, &record.public_key_bytes) {
                proof {
                    Self::lemma_map_of_update(s0, i as int, record);
                }
                self.records[i] = record;
                return ;
            }
        }
        proof {
            assert(s0.push(record).drop_last() =~= s0);
            Self::lemma_map_of_contains(s0, record.public_key_bytes@);
        }
        self.records.push(record);
    }

    proof fn lemma_map_of_update(s: Seq<KeyRecord>, i: int, r: KeyRecord)
        requires
            0 <= i < s.len(),
            s[i].public_key_bytes@ == r.public_key_bytes@,
            forall|a: int, b: int|
                0 <= a < b < s.len() ==> s[a].public_key_bytes@ != s[b].public_key_bytes@,
        ensures
            Self::map_of(s.update(i, r)) == Self::map_of(s).insert(r.public_key_bytes@, r@),
        decreases s.len(),
    {
        let t = s.update(i, r);
        if i == s.len() - 1 {
            assert(t.drop_last() =~= s.drop_last());
            assert(t.last() == r);
            assert(Self::map_of(s).insert(r.public_key_bytes@, r@) =~= Self::map_of(
                s.drop_last(),
            ).insert(s.last().public_key_bytes@, s.last()@).insert(r.public_key_bytes@, r@));
            assert(Self::map_of(s.drop_last()).insert(s.last().public_key_bytes@, s.last()@).insert(
                r.public_key_bytes@,
                r@,
            ) =~= Self::map_of(s.drop_last()).insert(r.public_key_bytes@, r@));
        } else {
            assert(t.drop_last() =~= s.drop_last().update(i, r));
            assert(t.last() == s.last());
            assert forall|a: int, b: int|
                0 <= a < b < s.drop_last().len() implies s.drop_last()[a].public_key_bytes@
                != s.drop_last()[b].public_key_bytes@ by {
                assert(s.drop_last()[a] == s[a] && s.drop_last()[b] == s[b]);
            }
            assert(s.drop_last()[i] == s[i]);
            Self::lemma_map_of_update(s.drop_last(), i, r);
            assert(s.last().public_key_bytes@ != r.public_key_bytes@);
            assert(Self::map_of(s.drop_last()).insert(r.public_key_bytes@, r@).insert(
                s.last().public_key_bytes@,
                s.last()@,
            ) =~= Self::map_of(s.drop_last()).insert(s.last().public_key_bytes@, s.last()@).insert(
                r.public_key_bytes@,
                r@,
            ));
        }
    }

    /// Look up the record filed under the given public key bytes. Absence
    /// is not an error: the caller reports it as an unknown identity.
    pub fn find(&self, public_key: &Vec<u8>) -> (r: Option<&KeyRecord>)
        requires
            self.wf(),
        ensures
            r is Some <==> self@.contains_key(public_key@),
            r matches Some(rec) ==> rec.public_key_bytes@ == public_key@ && rec@
                == self@[public_key@],
    {
        let n = self.records.len();
        for i in 0..n
            invariant
                n == self.records@.len(),
                self.wf(),
                forall|j: int| 0 <= j < i ==> self.records@[j].public_key_bytes@ != public_key@,
        {
            if bytes_eq(&self.records[i].public_key_bytes, public_key) {
                proof {
                    Self::lemma_map_of_index(self.records@, i as int);
                }
                return Some(&self.records[i]);
            }
        }
        proof {
            Self::lemma_map_of_contains(self.records@, public_key@);
        }
        None
    }

    /// A snapshot of the current records, one per stored identity, for
    /// identity listing. The order carries no meaning.
    pub fn list(&self) -> (r: &Vec<KeyRecord>)
        requires
            self.wf(),
        ensures
            r@.len() == self@.dom().len(),
            forall|i: int|
                0 <= i < r@.len() ==> #[trigger] self@.contains_key(r@[i].public_key_bytes@)
                    && self@[r@[i].public_key_bytes@] == r@[i]@,
            forall|k: Seq<u8>|
                self@.contains_key(k) ==> exists|i: int|
                    0 <= i < r@.len() && #[trigger] r@[i].public_key_bytes@ == k,
            forall|i: int, j: int|
                0 <= i < j < r@.len() ==> r@[i].public_key_bytes@ != r@[j].public_key_bytes@,
    {
        proof {
            Self::lemma_map_of_len(self.records@);
            assert forall|i: int|
                0 <= i < self.records@.len() implies #[trigger] self@.contains_key(
                self.records@[i].public_key_bytes@,
            ) && self@[self.records@[i].public_key_bytes@] == self.records@[i]@ by {
                Self::lemma_map_of_index(self.records@, i);
            }
            assert forall|k: Seq<u8>| self@.contains_key(k) implies exists|i: int|
                0 <= i < self.records@.len() && #[trigger] self.records@[i].public_key_bytes@
                    == k by {
                Self::lemma_map_of_contains(self.records@, k);
            }
        }
        &self.records
    }

    /// Strip every record's private material in place, leaving names,
    /// credential ids and public key bytes intact: identities stay listable
    /// but unusable for signing.
    pub fn lock(&mut self)
        requires
            old(self).wf(),
        ensures
            final(self).wf(),
            final(self)@.dom() == old(self)@.dom(),
            forall|k: Seq<u8>|
                old(self)@.contains_key(k) ==> final(self)@[k] == locked_model(old(self)@[k]),
    {
        let ghost s0 = self.records@;
        let n = self.records.len();
        for i in 0..n
            invariant
                n == self.records@.len(),
                s0.len() == self.records@.len(),
                old(self).records@ == s0,
                forall|j: int| i <= j < n ==> self.records@[j] == s0[j],
                forall|j: int|
                    0 <= j < i ==> self.records@[j].public_key_bytes@ == s0[j].public_key_bytes@
                        && self.records@[j]@ == locked_model(s0[j]@),
        {
            self.records[i].private_key = None;
        }
        proof {
            Self::lemma_map_of_locked(s0, self.records@);
        }
    }

    proof fn lemma_map_of_locked(s: Seq<KeyRecord>, t: Seq<KeyRecord>)
        requires
            s.len() == t.len(),
            forall|j: int|
                0 <= j < s.len() ==> t[j].public_key_bytes@ == s[j].public_key_bytes@ && t[j]@
                    == locked_model(s[j]@),
        ensures
            Self::map_of(t).dom() == Self::map_of(s).dom(),
            forall|k: Seq<u8>|
                Self::map_of(s).contains_key(k) ==> Self::map_of(t)[k] == locked_model(
                    Self::map_of(s)[k],
                ),
        decreases s.len(),
    {
        if s.len() == 0 {
        } else {
            assert forall|j: int|
                0 <= j < s.drop_last().len() implies t.drop_last()[j].public_key_bytes@
                == s.drop_last()[j].public_key_bytes@ && t.drop_last()[j]@ == locked_model(
                s.drop_last()[j]@,
            ) by {
                assert(s.drop_last()[j] == s[j] && t.drop_last()[j] == t[j]);
            }
            Self::lemma_map_of_locked(s.drop_last(), t.drop_last());
            assert(t.last()@ == locked_model(s.last()@));
            assert(Self::map_of(t).dom() =~= Self::map_of(s).dom());
        }
    }

    /// Remove every record.
    pub fn clear(&mut self)
        ensures
            final(self).wf(),
            final(self)@ == Map::<Seq<u8>, RecordModel>::empty(),
    {
        self.records.clear();
    }

    /// Atomically replace the whole contents from raw entries: prior
    /// contents are cleared first (even when every entry fails to parse),
    /// then each entry that parses is inserted in order; entries that fail
    /// to parse are skipped, and the skipped count is returned for
    /// reporting.
    pub fn replace_all(&mut self, new_keys: &Vec<PrivateKeyEntry>) -> (skipped: usize)
        requires
            old(self).wf(),
        ensures
            final(self).wf(),
            final(self)@ == replace_model(new_keys@),
            skipped <= new_keys@.len(),
    {
        self.clear();
        let n = new_keys.len();
        let mut skipped: usize = 0;
        for i in 0..n
            invariant
                n == new_keys@.len(),
                self.wf(),
                self@ == replace_model(new_keys@.take(i as int)),
                skipped <= i,
        {
            proof {
                assert(new_keys@.take(i + 1).drop_last() =~= new_keys@.take(i as int));
                assert(new_keys@.take(i + 1).last() == new_keys@[i as int]);
            }
            let entry = &new_keys[i];
            let mut ok = false;
            match parse_openssh(entry.private_key.as_str()) {
                Some(key) => {
                    match public_key_bytes(&key) {
                        Some(bytes) => {
                            self.insert_or_replace(
                                KeyRecord {
                                    public_key_bytes: bytes,
                                    private_key: Some(key),
                                    name: entry.name.clone(),
                                    credential_id: entry.uuid.clone(),
                                },
                            );
                            ok = true;
                        },
                        None => {},
                    }
                },
                None => {},
            }
            if !ok {
                skipped = skipped + 1;
            }
        }
        proof {
            assert(new_keys@.take(n as int) =~= new_keys@);
        }
        skipped
    }
}

/// After a batch replacement the store holds exactly the entries that
/// parsed: a key is present if and only if some entry that parses is filed
/// under it, and its record is that of such an entry.
pub proof fn lemma_replace_all_exact(entries: Seq<PrivateKeyEntry>)
    ensures
        forall|k: Seq<u8>|
            #[trigger] replace_model(entries).contains_key(k) <==> exists|i: int|
                0 <= i < entries.len() && #[trigger] entry_ok(entries[i]) && entry_key(entries[i])
                    == k,
        forall|k: Seq<u8>|
            #[trigger] replace_model(entries).contains_key(k) ==> exists|i: int|
                0 <= i < entries.len() && #[trigger] entry_ok(entries[i]) && entry_key(entries[i])
                    == k && replace_model(entries)[k] == entry_record(entries[i]),
    decreases entries.len(),
{
    if entries.len() > 0 {
        lemma_replace_all_exact(entries.drop_last());
        assert forall|k: Seq<u8>| #[trigger] replace_model(entries).contains_key(k) implies exists|i: int|
            0 <= i < entries.len() && #[trigger] entry_ok(entries[i]) && entry_key(entries[i]) == k
            && replace_model(entries)[k] == entry_record(entries[i]) by {
            if entry_ok(entries.last()) && entry_key(entries.last()) == k {
                assert(entry_ok(entries[entries.len() - 1]) && entry_key(
                    entries[entries.len() - 1],
                ) == k && replace_model(entries)[k] == entry_record(entries[entries.len() - 1]));
            } else {
                assert(replace_model(entries.drop_last()).contains_key(k));
                let i = choose|i: int|
                    0 <= i < entries.drop_last().len() && #[trigger] entry_ok(
                        entries.drop_last()[i],
                    ) && entry_key(entries.drop_last()[i]) == k && replace_model(
                        entries.drop_last(),
                    )[k] == entry_record(entries.drop_last()[i]);
                assert(entries.drop_last()[i] == entries[i]);
            }
        }
        assert forall|k: Seq<u8>|
            (exists|i: int|
                0 <= i < entries.len() && #[trigger] entry_ok(entries[i]) && entry_key(entries[i])
                    == k) implies #[trigger] replace_model(entries).contains_key(k) by {
            let i = choose|i: int|
                0 <= i < entries.len() && #[trigger] entry_ok(entries[i]) && entry_key(entries[i])
                    == k;
            if i < entries.len() - 1 {
                assert(entries.drop_last()[i] == entries[i]);
                assert(replace_model(entries.drop_last()).contains_key(k));
            }
        }
    }
}

/// After locking, every record has lost its private material and kept its
/// name, credential id and place: the two stores share their keys — so an
/// identity listing has the same length — and differ only in the private
/// field.
pub proof fn lemma_lock_keeps_identities(
    before: Map<Seq<u8>, RecordModel>,
    after: Map<Seq<u8>, RecordModel>,
)
    requires
        after.dom() == before.dom(),
        forall|k: Seq<u8>| before.contains_key(k) ==> after[k] == locked_model(before[k]),
    ensures
        before.dom().finite() ==> after.dom().len() == before.dom().len(),
        forall|k: Seq<u8>|
            after.contains_key(k) ==> after[k].private_key is None && after[k].name
                == before[k].name && after[k].credential_id == before[k].credential_id,
{
}

/// After inserting a record, looking its key up finds exactly that record,
/// and every other key is untouched: `find` returns the most recently
/// inserted record for each key.
pub proof fn lemma_find_most_recent(
    m: Map<Seq<u8>, RecordModel>,
    k: Seq<u8>,
    v: RecordModel,
    other: Seq<u8>,
)
    ensures
        m.insert(k, v).contains_key(k),
        m.insert(k, v)[k] == v,
        other != k ==> (m.insert(k, v).contains_key(other) <==> m.contains_key(other)),
        other != k && m.contains_key(other) ==> m.insert(k, v)[other] == m[other],
{
}

} // verus!

