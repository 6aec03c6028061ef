//! The records that are forwarded, and the fields that say where each came
//! from.

use crate::text::str_eq;
use vstd::prelude::*;
use vstd::string::StringExecFns;

verus! {

/// The key of entry `i`.
pub open spec fn key_at(entries: Seq<(String, String)>, i: int) -> Seq<char> {
    entries[i].0@
}

/// Whether some entry has key `k`.
pub open spec fn has_key(entries: Seq<(String, String)>, k: Seq<char>) -> bool {
    exists|i: int| 0 <= i < entries.len() && #[trigger] key_at(entries, i) == k
}

/// The place of an entry with key `k`.
pub open spec fn index_of(entries: Seq<(String, String)>, k: Seq<char>) -> int {
    choose|i: int| 0 <= i < entries.len() && #[trigger] key_at(entries, i) == k
}

/// No key occurs twice.
pub open spec fn distinct_keys(entries: Seq<(String, String)>) -> bool {
    forall|i: int, j: int|
        0 <= i < j < entries.len() ==> #[trigger] key_at(entries, i) != #[trigger] key_at(
            entries,
            j,
        )
}

/// The mapping that a list of entries with distinct keys stands for.
pub open spec fn as_map(entries: Seq<(String, String)>) -> Map<Seq<char>, Seq<char>> {
    Map::new(|k: Seq<char>| has_key(entries, k), |k: Seq<char>| entries[index_of(entries, k)].1@)
}

/// A mapping from field names to values. Each name occurs once; setting a
/// name that is present replaces its value.
#[derive(Debug)]
pub struct Fields {
    entries: Vec<(String, String)>,
}

impl View for Fields {
    type V = Map<Seq<char>, Seq<char>>;

    closed spec fn view(&self) -> Map<Seq<char>, Seq<char>> {
        as_map(self.entries@)
    }
}

impl Fields {
    /// What holds of every field mapping: no name occurs twice.
    pub closed spec fn wf(&self) -> bool {
        distinct_keys(self.entries@)
    }

    /// The entries as they are stored.
    pub closed spec fn entries(&self) -> Seq<(String, String)> {
        self.entries@
    }

    /// An empty mapping: it holds no entry, so no name has a value.
    pub fn new() -> (fields: Self)
        ensures
            fields.wf(),
            fields.entries() == Seq::<(String, String)>::empty(),
            fields@ == Map::<Seq<char>, Seq<char>>::empty(),
    {
        let fields = Fields { entries: Vec::new() };
        assert(fields@ =~= Map::<Seq<char>, Seq<char>>::empty());
        fields
    }

    /// The stored entries are the mapping: every name of the mapping stands
    /// at exactly one place, with its value.
    pub proof fn lemma_entries_are_the_mapping(&self)
        requires
            self.wf(),
        ensures
            forall|k: Seq<char>| self@.contains_key(k) <==> has_key(self.entries(), k),
            forall|i: int|
                0 <= i < self.entries().len() ==> {
                    &&& self@.contains_key(#[trigger] key_at(self.entries(), i))
                    &&& self@[key_at(self.entries(), i)] == self.entries()[i].1@
                },
            distinct_keys(self.entries()),
    {
        assert forall|i: int| 0 <= i < self.entries().len() implies {
            &&& self@.contains_key(#[trigger] key_at(self.entries(), i))
            &&& self@[key_at(self.entries(), i)] == self.entries()[i].1@
        } by {
            let k = key_at(self.entries(), i);
            assert(has_key(self.entries(), k));
            let j = index_of(self.entries(), k);
            if i < j {
                assert(key_at(self.entries(), i) != key_at(self.entries(), j));
            }
            if j < i {
                assert(key_at(self.entries(), j) != key_at(self.entries(), i));
            }
        }
    }

    /// The number of names.
    pub fn len(&self) -> (n: usize)
        ensures
            n == self.entries().len(),
    {
        self.entries.len()
    }

    /// The name and the value at place `i`.
    pub fn entry(&self, i: usize) -> (e: (&str, &str))
        requires
            self.wf(),
            i < self.entries().len(),
        ensures
            self@.contains_key(e.0@),
            self@[e.0@] == e.1@,
            e.0@ == self.entries()[i as int].0@,
            e.1@ == self.entries()[i as int].1@,
    {
        proof {
            let k = key_at(self.entries@, i as int);
            assert(has_key(self.entries@, k));
        }
        (self.entries[i].0.as_str(), self.entries[i].1.as_str())
    }

    /// The place of `key`, if it is present.
    fn find(&self, key: &str) -> (at: Option<usize>)
        requires
            self.wf(),
        ensures
            match at {
                Some(i) => i < self.entries@.len() && key_at(self.entries@, i as int) == key@,
                None => !has_key(self.entries@, key@),
            },
    {
        let n: usize = self.entries.len();
        let mut i: usize = 0;
        while i < n
            invariant
                i <= n,
                n == self.entries@.len(),
                forall|j: int| 0 <= j < i ==> key_at(self.entries@, j) != key@,
            decreases n - i,
        {
            if str_eq(self.entries[i].0.as_str(), key) {
                return Some(i);
            }
            i = i + 1;
        }
        None
    }

    /// The value of `key`, if it is present.
    pub fn get(&self, key: &str) -> (value: Option<&str>)
        requires
            self.wf(),
        ensures
            match value {
                Some(v) => self@.contains_key(key@) && self@[key@] == v@,
                None => !self@.contains_key(key@),
            },
    {
        match self.find(key) {
            Some(i) => {
                assert(has_key(self.entries@, key@));
                Some(self.entries[i].1.as_str())
            },
            None => None,
        }
    }

    /// Sets `key` to `value`, whether or not it was present.
    pub fn insert(&mut self, key: String, value: String)
        requires
            old(self).wf(),
        ensures
            final(self).wf(),
            final(self)@ == old(self)@.insert(key@, value@),
    {
        let ghost before = self.entries@;
        match self.find(key.as_str()) {
            Some(i) => {
                self.entries[i] = (key, value);
                proof {
                    let after = self.entries@;
                    assert forall|j: int| 0 <= j < after.len() implies key_at(after, j) == key_at(
                        before,
                        j,
                    ) by {}
                    lemma_same_keys(before, after);
                    assert forall|k: Seq<char>| has_key(after, k) implies #[trigger] as_map(
                        after,
                    )[k] == as_map(before).insert(key@, value@)[k] by {
                        let a = index_of(after, k);
                        let b = index_of(before, k);
                        assert(key_at(before, a) == k);
                        assert(a == b);
                    }
                    assert(as_map(after) =~= as_map(before).insert(key@, value@));
                }
            },
            None => {
                self.entries.push((key, value));
                proof {
                    let after = self.entries@;
                    let last = before.len() as int;
                    assert(key_at(after, last) == key@);
                    assert forall|j: int| 0 <= j < before.len() implies key_at(after, j) == key_at(
                        before,
                        j,
                    ) by {}
                    assert forall|k: Seq<char>| has_key(after, k) == (has_key(before, k) || k
                        == key@) by {
                        if has_key(after, k) {
                            let a = index_of(after, k);
                            if a < last {
                                assert(key_at(before, a) == k);
                            }
                        }
                        if has_key(before, k) {
                            let b = index_of(before, k);
                            assert(key_at(after, b) == k);
                        }
                    }
                    assert forall|k: Seq<char>| has_key(after, k) implies #[trigger] as_map(
                        after,
                    )[k] == as_map(before).insert(key@, value@)[k] by {
                        let a = index_of(after, k);
                        if k != key@ {
                            let b = index_of(before, k);
                            assert(key_at(after, b) == k);
                            assert(a == b);
                        } else {
                            if a < last {
                                assert(key_at(before, a) == k);
                            }
                        }
                    }
                    assert(as_map(after) =~= as_map(before).insert(key@, value@));
                }
            },
        }
    }
}

/// Lists with the same keys at the same places have the same names.
proof fn lemma_same_keys(a: Seq<(String, String)>, b: Seq<(String, String)>)
    requires
        a.len() == b.len(),
        forall|j: int| 0 <= j < a.len() ==> key_at(a, j) == key_at(b, j),
    ensures
        forall|k: Seq<char>| has_key(a, k) == has_key(b, k),
        distinct_keys(a) == distinct_keys(b),
{
    assert forall|k: Seq<char>| has_key(a, k) == has_key(b, k) by {
        if has_key(a, k) {
            let i = index_of(a, k);
            assert(key_at(b, i) == k);
        }
        if has_key(b, k) {
            let i = index_of(b, k);
            assert(key_at(a, i) == k);
        }
    }
    if distinct_keys(a) {
        assert forall|i: int, j: int| 0 <= i < j < b.len() implies key_at(b, i) != key_at(
            b,
            j,
        ) by {
            assert(key_at(a, i) != key_at(a, j));
        }
    }
    if distinct_keys(b) {
        assert forall|i: int, j: int| 0 <= i < j < a.len() implies key_at(a, i) != key_at(
            a,
            j,
        ) by {
            assert(key_at(b, i) != key_at(b, j));
        }
    }
}

/// The three fields that every record carries.
pub open spec fn base_fields(bucket: Seq<char>, object: Seq<char>, region: Seq<char>) -> Map<
    Seq<char>,
    Seq<char>,
> {
    Map::<Seq<char>, Seq<char>>::empty().insert("bucket"@, bucket).insert("object"@, object).insert(
        "region"@,
        region,
    )
}

/// `fields` after each pair of `metadata` has been set in turn, so that a
/// later pair replaces an earlier one of the same name.
pub open spec fn with_metadata(
    fields: Map<Seq<char>, Seq<char>>,
    metadata: Seq<(String, String)>,
) -> Map<Seq<char>, Seq<char>>
    decreases metadata.len(),
{
    if metadata.len() == 0 {
        fields
    } else {
        with_metadata(fields, metadata.drop_last()).insert(
            metadata.last().0@,
            metadata.last().1@,
        )
    }
}

/// The pairs of an object's user metadata; none where it has no metadata.
pub open spec fn metadata_pairs(metadata: Option<Vec<(String, String)>>) -> Seq<(String, String)> {
    match metadata {
        Some(pairs) => pairs@,
        None => Seq::empty(),
    }
}

/// Setting metadata removes no name, and leaves alone the names that it does
/// not mention.
pub proof fn lemma_with_metadata_keeps(
    fields: Map<Seq<char>, Seq<char>>,
    metadata: Seq<(String, String)>,
    name: Seq<char>,
)
    requires
        fields.contains_key(name),
    ensures
        with_metadata(fields, metadata).contains_key(name),
        !has_key(metadata, name) ==> with_metadata(fields, metadata)[name] == fields[name],
    decreases metadata.len(),
{
    if metadata.len() > 0 {
        let front = metadata.drop_last();
        lemma_with_metadata_keeps(fields, front, name);
        if !has_key(metadata, name) {
            assert(key_at(metadata, metadata.len() - 1) != name);
            if has_key(front, name) {
                let i = index_of(front, name);
                assert(key_at(metadata, i) == name);
            }
        }
    }
}

/// Where the lines of one object come from: what is attached to each record
/// made of them.
#[derive(Clone, Debug, PartialEq, Eq)]
pub struct Origin {
    pub bucket: String,
    pub object: String,
    pub region: String,
    pub metadata: Option<Vec<(String, String)>>,
}

/// One logical record on its way to the sink.
#[derive(Debug)]
pub struct Record {
    pub message: Vec<u8>,
    pub fields: Fields,
}

impl Origin {
    /// The fields of every record from this origin.
    pub open spec fn fields(&self) -> Map<Seq<char>, Seq<char>> {
        with_metadata(
            base_fields(self.bucket@, self.object@, self.region@),
            metadata_pairs(self.metadata),
        )
    }

    /// Makes a record of one message: the message with `bucket`, `object`
    /// and `region` attached, and then every pair of the user metadata.
    pub fn enrich(&self, message: Vec<u8>) -> (record: Record)
        ensures
            record.message == message,
            record.fields.wf(),
            record.fields@ == self.fields(),
            record.fields@.contains_key("bucket"@),
            record.fields@.contains_key("object"@),
            record.fields@.contains_key("region"@),
    {
        let mut fields = Fields::new();
        fields.insert(String::from_str("bucket"), self.bucket.clone());
        fields.insert(String::from_str("object"), self.object.clone());
        fields.insert(String::from_str("region"), self.region.clone());
        let ghost base = base_fields(self.bucket@, self.object@, self.region@);
        let ghost pairs = metadata_pairs(self.metadata);
        assert(fields@ == base);
        match &self.metadata {
            Some(metadata) => {
                let n: usize = metadata.len();
                let mut i: usize = 0;
                while i < n
                    invariant
                        i <= n,
                        n == metadata@.len(),
                        fields.wf(),
                        fields@ == with_metadata(base, metadata@.take(i as int)),
                    decreases n - i,
                {
                    proof {
                        assert(metadata@.take(i + 1).drop_last() =~= metadata@.take(i as int));
                    }
                    fields.insert(metadata[i].0.clone(), metadata[i].1.clone());
                    i = i + 1;
                }
                assert(metadata@.take(n as int) =~= metadata@);
            },
            None => {},
        }
        proof {
            lemma_with_metadata_keeps(base, pairs, "bucket"@);
            lemma_with_metadata_keeps(base, pairs, "object"@);
            lemma_with_metadata_keeps(base, pairs, "region"@);
        }
        Record { message, fields }
    }
}

} // verus!
