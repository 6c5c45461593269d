//! The JSON document model that service configurations and check details are
//! read from and written to. Numbers keep the three shapes a JSON number can
//! take: a non-negative integer, a negative integer, or a floating-point value
//! that this crate carries as its IEEE-754 bit pattern without interpreting it.
use vstd::prelude::*;

verus! {

/// A JSON number.
#[derive(Clone, Copy, Debug)]
pub enum JsonNumber {
    /// A non-negative integer.
    PosInt(u64),
    /// A negative integer.
    NegInt(i64),
    /// A floating-point number, held as the bits of an `f64`.
    Float(u64),
}

/// A JSON value.
#[derive(Debug)]
pub enum JsonValue {
    Null,
    Bool(bool),
    Number(JsonNumber),
    String(String),
    Array(Vec<JsonValue>),
    Object(JsonObject),
}

/// A JSON object: string keys, each present at most once, mapped to values.
#[derive(Debug)]
pub struct JsonObject {
    entries: Vec<(String, JsonValue)>,
}

/// The keys of `es` are pairwise distinct.
pub open spec fn keys_distinct(es: Seq<(String, JsonValue)>) -> bool {
    forall|i: int, j: int| 0 <= i < j < es.len() ==> es[i].0@ != es[j].0@
}

/// The map that a list of distinct-keyed entries denotes.
pub open spec fn entries_map(es: Seq<(String, JsonValue)>) -> Map<Seq<char>, JsonValue> {
    Map::new(
        |k: Seq<char>| exists|i: int| 0 <= i < es.len() && es[i].0@ == k,
        |k: Seq<char>| es[choose|i: int| 0 <= i < es.len() && es[i].0@ == k].1,
    )
}

impl JsonObject {
    #[verifier::type_invariant]
    spec fn distinct_keys(self) -> bool {
        keys_distinct(self.entries@)
    }

    /// The entries in insertion order.
    pub closed spec fn entry_seq(self) -> Seq<(String, JsonValue)> {
        self.entries@
    }

    /// The object as a map from key characters to values.
    pub closed spec fn view(self) -> Map<Seq<char>, JsonValue> {
        entries_map(self.entries@)
    }

    proof fn lemma_view_at(self, i: int)
        requires
            keys_distinct(self.entries@),
            0 <= i < self.entries@.len(),
        ensures
            self.view().dom().contains(self.entries@[i].0@),
            self.view()[self.entries@[i].0@] == self.entries@[i].1,
    {
        let es = self.entries@;
        let k = es[i].0@;
        assert(0 <= i < es.len() && es[i].0@ == k);
        let c = choose|j: int| 0 <= j < es.len() && es[j].0@ == k;
        assert(c == i);
    }

    /// An empty object.
    pub fn new() -> (r: JsonObject)
        ensures
            r.view() == Map::<Seq<char>, JsonValue>::empty(),
            r.entry_seq().len() == 0,
    {
        let r = JsonObject { entries: Vec::new() };
        assert(r.view() =~= Map::<Seq<char>, JsonValue>::empty());
        r
    }

    /// Number of keys. The insertion-ordered entries have distinct keys and
    /// denote exactly the object's map.
    pub fn len(&self) -> (n: usize)
        ensures
            n == self.entry_seq().len(),
            keys_distinct(self.entry_seq()),
            self.view() == entries_map(self.entry_seq()),
    {
        proof {
            use_type_invariant(self);
        }
        self.entries.len()
    }

    fn find(&self, key: &str) -> (r: Option<usize>)
        ensures
            match r {
                Some(i) => i < self.entries@.len() && self.entries@[i as int].0@ == key@,
                None => forall|j: int| 0 <= j < self.entries@.len() ==> self.entries@[j].0@ != key@,
            },
    {
        let n = self.entries.len();
        let k = String::from_str(key);
        let mut i: usize = 0;
        while i < n
            invariant
                n == self.entries@.len(),
                k@ == key@,
                i <= n,
                forall|j: int| 0 <= j < i ==> self.entries@[j].0@ != key@,
            decreases n - i,
        {
            if self.entries[i].0 == k {
                return Some(i);
            }
            i = i + 1;
        }
        None
    }

    /// The value stored under `key`, if any (as indexing a JSON object by a
    /// key that may be absent).
    pub fn get(&self, key: &str) -> (r: Option<&JsonValue>)
        ensures
            r == (if self.view().dom().contains(key@) {
                Some(&self.view()[key@])
            } else {
                None::<&JsonValue>
            }),
    {
        proof {
            use_type_invariant(self);
        }
        match self.find(key) {
            Some(i) => {
                proof {
                    self.lemma_view_at(i as int);
                }
                Some(&self.entries[i].1)
            },
            None => {
                assert(!self.view().dom().contains(key@));
                None
            },
        }
    }

    /// Stores `value` under `key`, replacing any earlier value for that key
    /// (which keeps its position); a new key goes last.
    pub fn insert(&mut self, key: String, value: JsonValue)
        ensures
            final(self).view() == old(self).view().insert(key@, value),
    {
        proof {
            use_type_invariant(&*self);
        }
        let ghost k = key@;
        let ghost v = value;
        match self.find(key.as_str()) {
            Some(i) => {
                let ghost old_es = self.entries@;
                let mut entries: Vec<(String, JsonValue)> = Vec::new();
                std::mem::swap(&mut entries, &mut self.entries);
                entries.set(i, (key, value));
                assert(entries@ == old_es.update(i as int, (entries@[i as int].0, v)));
                assert(keys_distinct(entries@));
                proof {
                    assert forall|kk: Seq<char>| #[trigger] entries_map(entries@).dom().contains(kk)
                        == entries_map(old_es).insert(k, v).dom().contains(kk) by {
                        if kk != k {
                            if exists|j: int| 0 <= j < old_es.len() && old_es[j].0@ == kk {
                                let j = choose|j: int| 0 <= j < old_es.len() && old_es[j].0@ == kk;
                                assert(entries@[j].0@ == kk);
                            }
                        } else {
                            assert(entries@[i as int].0@ == kk);
                        }
                    }
                    assert forall|kk: Seq<char>| #[trigger] entries_map(entries@).dom().contains(kk)
                        implies entries_map(entries@)[kk] == entries_map(old_es).insert(k, v)[kk] by {
                        let j = choose|j: int| 0 <= j < entries@.len() && entries@[j].0@ == kk;
                        if kk == k {
                            assert(j == i);
                        } else {
                            let j2 = choose|j2: int| 0 <= j2 < old_es.len() && old_es[j2].0@ == kk;
                            assert(old_es[j].0@ == kk);
                            assert(j2 == j);
                        }
                    }
                    assert(entries_map(entries@) =~= entries_map(old_es).insert(k, v));
                }
                self.entries = entries;
            },
            None => {
                let ghost old_es = self.entries@;
                let mut entries: Vec<(String, JsonValue)> = Vec::new();
                std::mem::swap(&mut entries, &mut self.entries);
                entries.push((key, value));
                assert(entries@ == old_es.push(entries@[old_es.len() as int]));
                assert(keys_distinct(entries@));
                proof {
                    let n = old_es.len() as int;
                    assert forall|kk: Seq<char>| #[trigger] entries_map(entries@).dom().contains(kk)
                        == entries_map(old_es).insert(k, v).dom().contains(kk) by {
                        if kk != k {
                            if exists|j: int| 0 <= j < old_es.len() && old_es[j].0@ == kk {
                                let j = choose|j: int| 0 <= j < old_es.len() && old_es[j].0@ == kk;
                                assert(entries@[j].0@ == kk);
                            }
                        } else {
                            assert(entries@[n].0@ == kk);
                        }
                    }
                    assert forall|kk: Seq<char>| #[trigger] entries_map(entries@).dom().contains(kk)
                        implies entries_map(entries@)[kk] == entries_map(old_es).insert(k, v)[kk] by {
                        let j = choose|j: int| 0 <= j < entries@.len() && entries@[j].0@ == kk;
                        if kk == k {
                            assert(j == n);
                        } else {
                            let j2 = choose|j2: int| 0 <= j2 < old_es.len() && old_es[j2].0@ == kk;
                            assert(old_es[j].0@ == kk);
                            assert(j2 == j);
                        }
                    }
                    assert(entries_map(entries@) =~= entries_map(old_es).insert(k, v));
                }
                self.entries = entries;
            },
        }
    }

    /// The key and value at position `i` in insertion order.
    pub fn entry_at(&self, i: usize) -> (r: (&String, &JsonValue))
        requires
            i < self.entry_seq().len(),
        ensures
            *r.0 == self.entry_seq()[i as int].0,
            *r.1 == self.entry_seq()[i as int].1,
            self.view().dom().contains(r.0@),
            self.view()[r.0@] == *r.1,
    {
        proof {
            use_type_invariant(self);
            self.lemma_view_at(i as int);
        }
        (&self.entries[i].0, &self.entries[i].1)
    }
}

/// The member `key` of `v` when `v` is an object holding that key
/// (indexing any other value, or an absent key, yields nothing).
pub open spec fn member(v: JsonValue, key: Seq<char>) -> Option<JsonValue> {
    match v {
        JsonValue::Object(o) => if o.view().dom().contains(key) {
            Some(o.view()[key])
        } else {
            None
        },
        _ => None,
    }
}

/// Law: after `insert(key, value)` on an object, reading `key` gives `value`
/// and every other key reads as it did before.
pub proof fn lemma_object_read_after_write(
    before: JsonObject,
    after: JsonObject,
    key: Seq<char>,
    value: JsonValue,
)
    requires
        after.view() == before.view().insert(key, value),
    ensures
        member(JsonValue::Object(after), key) == Some(value),
        forall|other: Seq<char>|
            other != key ==> #[trigger] member(JsonValue::Object(after), other) == member(
                JsonValue::Object(before),
                other,
            ),
{
}

/// The characters of `v` when it is a JSON string.
pub open spec fn string_of_value(v: Option<JsonValue>) -> Option<Seq<char>> {
    match v {
        Some(JsonValue::String(s)) => Some(s@),
        _ => None,
    }
}

/// `v` as a non-negative integer, when it is one.
pub open spec fn u64_of_value(v: Option<JsonValue>) -> Option<u64> {
    match v {
        Some(JsonValue::Number(JsonNumber::PosInt(n))) => Some(n),
        _ => None,
    }
}

/// `v` as a number, when it is one.
pub open spec fn number_of_value(v: Option<JsonValue>) -> Option<JsonNumber> {
    match v {
        Some(JsonValue::Number(n)) => Some(n),
        _ => None,
    }
}

impl JsonValue {
    /// The member `key` of this value, when it is an object that has it.
    pub fn get(&self, key: &str) -> (r: Option<&JsonValue>)
        ensures
            match r {
                Some(x) => member(*self, key@) == Some(*x),
                None => member(*self, key@) is None,
            },
    {
        match self {
            JsonValue::Object(o) => o.get(key),
            _ => None,
        }
    }

    /// The member `key` as a string (`config["key"].as_str()`).
    pub fn get_str(&self, key: &str) -> (r: Option<&str>)
        ensures
            match r {
                Some(s) => string_of_value(member(*self, key@)) == Some(s@),
                None => string_of_value(member(*self, key@)) is None,
            },
    {
        match self.get(key) {
            Some(JsonValue::String(s)) => Some(s.as_str()),
            _ => None,
        }
    }

    /// The member `key` as an unsigned integer (`config["key"].as_u64()`).
    pub fn get_u64(&self, key: &str) -> (r: Option<u64>)
        ensures
            r == u64_of_value(member(*self, key@)),
    {
        match self.get(key) {
            Some(JsonValue::Number(JsonNumber::PosInt(n))) => Some(*n),
            _ => None,
        }
    }

    /// The member `key` as a number of any shape (`config["key"].as_f64()`
    /// succeeds exactly on these).
    pub fn get_number(&self, key: &str) -> (r: Option<JsonNumber>)
        ensures
            r == number_of_value(member(*self, key@)),
    {
        match self.get(key) {
            Some(JsonValue::Number(n)) => Some(*n),
            _ => None,
        }
    }

    /// Whether this value is `null`.
    pub fn is_null(&self) -> (r: bool)
        ensures
            r == (*self is Null),
    {
        match self {
            JsonValue::Null => true,
            _ => false,
        }
    }
}

} // verus!
