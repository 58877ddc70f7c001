//! A map from strings to strings, kept as a list of entries with distinct
//! keys. It stands for the string-keyed hash maps that hold environment
//! variables and resource metadata.

use vstd::prelude::*;
use vstd::string::*;
use vstd::utf8::{valid_utf8, decode_utf8};
use crate::text::{str_eq, utf8_text};

verus! {

broadcast use vstd::string::group_string_axioms;

/// No key occurs twice among the entries.
pub open spec fn keys_distinct(s: Seq<(String, String)>) -> bool {
    forall|i: int, j: int| 0 <= i < j < s.len() ==> s[i].0@ != s[j].0@
}

/// The map that a list of entries spells out; a later entry wins over an
/// earlier one with the same key.
pub open spec fn entries_map(s: Seq<(String, String)>) -> Map<Seq<char>, Seq<char>>
    decreases s.len(),
{
    if s.len() == 0 {
        Map::empty()
    } else {
        entries_map(s.drop_last()).insert(s.last().0@, s.last().1@)
    }
}

/// With distinct keys, a key is in the map exactly when an entry holds it,
/// and it maps to that entry's value.
proof fn lemma_entries_map(s: Seq<(String, String)>, k: Seq<char>)
    requires
        keys_distinct(s),
    ensures
        entries_map(s).contains_key(k) <==> exists|i: int| 0 <= i < s.len() && s[i].0@ == k,
        forall|i: int| 0 <= i < s.len() && s[i].0@ == k ==> entries_map(s)[k] == s[i].1@,
    decreases s.len(),
{
    if s.len() > 0 {
        let t = s.drop_last();
        assert(keys_distinct(t));
        lemma_entries_map(t, k);
        if s.last().0@ == k {
            assert(s[s.len() - 1].0@ == k);
            assert forall|i: int| 0 <= i < s.len() && s[i].0@ == k implies i == s.len() - 1 by {
                if i < s.len() - 1 {
                    assert(s[i].0@ != s[s.len() - 1].0@);
                }
            }
        } else {
            if exists|i: int| 0 <= i < s.len() && s[i].0@ == k {
                let i = choose|i: int| 0 <= i < s.len() && s[i].0@ == k;
                assert(i < s.len() - 1);
                assert(t[i] == s[i]);
            }
            if entries_map(t).contains_key(k) {
                let i = choose|i: int| 0 <= i < t.len() && t[i].0@ == k;
                assert(s[i] == t[i]);
            }
            assert forall|i: int| 0 <= i < s.len() && s[i].0@ == k implies entries_map(s)[k] == s[i].1@ by {
                assert(i < s.len() - 1);
                assert(s[i] == t[i]);
            }
        }
    }
}

/// The position of the entry holding `key`, if any.
fn find(entries: &Vec<(String, String)>, key: &str) -> (r: Option<usize>)
    ensures
        r matches Some(i) ==> i < entries@.len() && entries@[i as int].0@ == key@,
        r is None ==> forall|i: int| 0 <= i < entries@.len() ==> entries@[i].0@ != key@,
{
    let n = entries.len();
    let mut i: usize = 0;
    while i < n
        invariant
            n == entries@.len(),
            i <= n,
            forall|j: int| 0 <= j < i ==> entries@[j].0@ != key@,
        decreases n - i,
    {
        if str_eq(entries[i].0.as_str(), key) {
            return Some(i);
        }
        i = i + 1;
    }
    None
}

/// A map from strings to strings.
#[derive(Debug)]
pub struct StringMap {
    entries: Vec<(String, String)>,
}

impl View for StringMap {
    type V = Map<Seq<char>, Seq<char>>;

    closed spec fn view(&self) -> Map<Seq<char>, Seq<char>> {
        entries_map(self.entries@)
    }
}

impl StringMap {
    /// The map's own invariant: no key is held twice.
    #[verifier::type_invariant]
    spec fn inv(self) -> bool {
        keys_distinct(self.entries@)
    }

    /// An empty map.
    pub fn new() -> (m: StringMap)
        ensures
            m@ == Map::<Seq<char>, Seq<char>>::empty(),
    {
        StringMap { entries: Vec::new() }
    }


    /// The value stored under `key`, if any.
    pub fn get(&self, key: &str) -> (r: Option<String>)
        ensures
            r is Some <==> self@.contains_key(key@),
            r matches Some(v) ==> v@ == self@[key@],
    {
        proof {
            use_type_invariant(self);
            lemma_entries_map(self.entries@, key@);
        }
        match find(&self.entries, key) {
            Some(i) => Some(self.entries[i].1.clone()),
            None => None,
        }
    }

    /// Stores `value` under `key`, replacing what was stored there.
    pub fn insert(&mut self, key: String, value: String)
        ensures
            final(self)@ == old(self)@.insert(key@, value@),
    {
        proof {
            use_type_invariant(&*self);
        }
        let mut entries: Vec<(String, String)> = Vec::new();
        std::mem::swap(&mut entries, &mut self.entries);
        let ghost old_entries = entries@;
        match find(&entries, key.as_str()) {
            Some(i) => {
                let ghost k = key@;
                let ghost v = value@;
                entries.set(i, (key, value));
                let ghost new_entries = entries@;
                assert(keys_distinct(new_entries)) by {
                    assert forall|a: int, b: int| 0 <= a < b < new_entries.len() implies
                        new_entries[a].0@ != new_entries[b].0@ by {
                        if a != i && b != i {
                            assert(new_entries[a] == old_entries[a]);
                            assert(new_entries[b] == old_entries[b]);
                        } else if a == i {
                            assert(new_entries[b] == old_entries[b]);
                        } else {
                            assert(new_entries[a] == old_entries[a]);
                        }
                    }
                }
                let ghost lhs = entries_map(new_entries);
                let ghost rhs = entries_map(old_entries).insert(k, v);
                assert forall|x: Seq<char>| #[trigger] lhs.contains_key(x) == rhs.contains_key(x)
                    && (lhs.contains_key(x) ==> lhs[x] == rhs[x]) by {
                    lemma_entries_map(old_entries, x);
                    lemma_entries_map(new_entries, x);
                    if x == k {
                        assert(new_entries[i as int].0@ == k);
                    } else {
                        if entries_map(old_entries).contains_key(x) {
                            let j = choose|j: int| 0 <= j < old_entries.len() && old_entries[j].0@ == x;
                            assert(new_entries[j] == old_entries[j]);
                        }
                        if lhs.contains_key(x) {
                            let j = choose|j: int| 0 <= j < new_entries.len() && new_entries[j].0@ == x;
                            assert(new_entries[j] == old_entries[j]);
                        }
                    }
                }
                assert(lhs.dom() =~= rhs.dom());
                assert(lhs =~= rhs);
            },
            None => {
                entries.push((key, value));
                assert(entries@.drop_last() =~= old_entries);
            },
        }
        self.entries = entries;
    }

    /// The keys of the map, each once.
    pub fn keys(&self) -> (r: Vec<String>)
        ensures
            r@.len() == self@.dom().len(),
            forall|i: int| 0 <= i < r@.len() ==> self@.contains_key(#[trigger] r@[i]@),
            forall|k: Seq<char>| self@.contains_key(k) ==> exists|i: int| 0 <= i < r@.len() && r@[i]@ == k,
            forall|i: int, j: int| 0 <= i < j < r@.len() ==> r@[i]@ != r@[j]@,
    {
        proof {
            use_type_invariant(self);
        }
        let n = self.entries.len();
        let mut out: Vec<String> = Vec::new();
        for i in 0..n
            invariant
                n == self.entries@.len(),
                keys_distinct(self.entries@),
                out@.len() == i,
                forall|j: int| 0 <= j < i ==> out@[j]@ == self.entries@[j].0@,
        {
            out.push(self.entries[i].0.clone());
        }
        proof {
            assert forall|i: int| 0 <= i < out@.len() implies self@.contains_key(#[trigger] out@[i]@) by {
                lemma_entries_map(self.entries@, out@[i]@);
            }
            assert forall|k: Seq<char>| self@.contains_key(k) implies exists|i: int| 0 <= i < out@.len() && out@[i]@ == k by {
                lemma_entries_map(self.entries@, k);
                let j = choose|j: int| 0 <= j < self.entries@.len() && self.entries@[j].0@ == k;
                assert(out@[j]@ == k);
            }
            lemma_dom_len(self.entries@);
        }
        out
    }

    /// A copy of the map.
    pub fn copy(&self) -> (r: StringMap)
        ensures
            r@ == self@,
    {
        proof {
            use_type_invariant(self);
        }
        let n = self.entries.len();
        let mut out: Vec<(String, String)> = Vec::new();
        for i in 0..n
            invariant
                n == self.entries@.len(),
                out@.len() == i,
                forall|j: int| 0 <= j < i ==> out@[j].0@ == self.entries@[j].0@ && out@[j].1@ == self.entries@[j].1@,
        {
            out.push((self.entries[i].0.clone(), self.entries[i].1.clone()));
        }
        proof {
            lemma_same_views(out@, self.entries@);
        }
        StringMap { entries: out }
    }

    /// The map with `prefix` written before every key.
    pub fn with_key_prefix(&self, prefix: &str) -> (r: StringMap)
        ensures
            r@ == prefixed_map(self@, prefix@),
    {
        proof {
            use_type_invariant(self);
        }
        let n = self.entries.len();
        let mut out = StringMap::new();
        assert(prefixed_map(entries_map(self.entries@.take(0)), prefix@) =~= Map::<Seq<char>, Seq<char>>::empty());
        for i in 0..n
            invariant
                n == self.entries@.len(),
                out@ == prefixed_map(entries_map(self.entries@.take(i as int)), prefix@),
        {
            let ghost before = entries_map(self.entries@.take(i as int));
            assert(self.entries@.take(i + 1).drop_last() =~= self.entries@.take(i as int));
            let mut key = prefix.to_string();
            key.append(self.entries[i].0.as_str());
            proof {
                lemma_prefixed_insert(before, prefix@, self.entries@[i as int].0@, self.entries@[i as int].1@);
            }
            out.insert(key, self.entries[i].1.clone());
        }
        assert(self.entries@.take(n as int) =~= self.entries@);
        out
    }

    /// The number of keys.
    pub fn len(&self) -> (r: usize)
        ensures
            r == self@.dom().len(),
    {
        proof {
            use_type_invariant(self);
            lemma_dom_len(self.entries@);
        }
        self.entries.len()
    }
}

/// Two entry lists with the same keys and values spell out the same map.
proof fn lemma_same_views(a: Seq<(String, String)>, b: Seq<(String, String)>)
    requires
        a.len() == b.len(),
        forall|j: int| 0 <= j < a.len() ==> a[j].0@ == b[j].0@ && a[j].1@ == b[j].1@,
    ensures
        entries_map(a) == entries_map(b),
        keys_distinct(a) == keys_distinct(b),
    decreases a.len(),
{
    if a.len() > 0 {
        lemma_same_views(a.drop_last(), b.drop_last());
        assert(a[a.len() - 1].0@ == b[b.len() - 1].0@);
    }
}

/// With distinct keys, the map has as many keys as there are entries.
proof fn lemma_dom_len(s: Seq<(String, String)>)
    requires
        keys_distinct(s),
    ensures
        entries_map(s).dom().finite(),
        entries_map(s).dom().len() == s.len(),
    decreases s.len(),
{
    if s.len() > 0 {
        let t = s.drop_last();
        assert(keys_distinct(t));
        lemma_dom_len(t);
        lemma_entries_map(t, s.last().0@);
        if entries_map(t).contains_key(s.last().0@) {
            let i = choose|i: int| 0 <= i < t.len() && t[i].0@ == s.last().0@;
            assert(s[i] == t[i]);
            assert(false);
        }
    }
}

/// The map `m` with `prefix` written before every key.
pub open spec fn prefixed_map(m: Map<Seq<char>, Seq<char>>, prefix: Seq<char>) -> Map<Seq<char>, Seq<char>> {
    Map::new(
        |k: Seq<char>| prefix.is_prefix_of(k) && m.contains_key(k.skip(prefix.len() as int)),
        |k: Seq<char>| m[k.skip(prefix.len() as int)],
    )
}

/// Writing a prefix before a key and taking it away again gives the key back.
pub proof fn lemma_prefix_skip(prefix: Seq<char>, k: Seq<char>)
    ensures
        prefix.is_prefix_of(prefix + k),
        (prefix + k).skip(prefix.len() as int) == k,
{
    assert((prefix + k).skip(prefix.len() as int) =~= k);
    assert((prefix + k).take(prefix.len() as int) =~= prefix);
}

/// A key that starts with the prefix is the prefix followed by the rest.
proof fn lemma_prefix_split(prefix: Seq<char>, k: Seq<char>)
    requires
        prefix.is_prefix_of(k),
    ensures
        k == prefix + k.skip(prefix.len() as int),
{
    assert(k =~= prefix + k.skip(prefix.len() as int));
}

/// Adding an entry and then writing the prefix before every key is the same
/// as writing the prefix first and then adding the prefixed entry.
proof fn lemma_prefixed_insert(m: Map<Seq<char>, Seq<char>>, prefix: Seq<char>, k: Seq<char>, v: Seq<char>)
    ensures
        prefixed_map(m.insert(k, v), prefix) == prefixed_map(m, prefix).insert(prefix + k, v),
{
    lemma_prefix_skip(prefix, k);
    let lhs = prefixed_map(m.insert(k, v), prefix);
    let rhs = prefixed_map(m, prefix).insert(prefix + k, v);
    assert forall|x: Seq<char>| #[trigger] lhs.contains_key(x) == rhs.contains_key(x)
        && (lhs.contains_key(x) ==> lhs[x] == rhs[x]) by {
        if prefix.is_prefix_of(x) {
            lemma_prefix_split(prefix, x);
        }
    }
    assert(lhs.dom() =~= rhs.dom());
    assert(lhs =~= rhs);
}

/// A key-value pair as a C host passes it: the bytes of each string, or
/// nothing where the host passes a null pointer.
pub type RawPair = (Option<Vec<u8>>, Option<Vec<u8>>);

/// Why the pairs a C host passes cannot be collected: the key, or the
/// value, of the entry at the given position is not valid UTF-8.
#[derive(Debug, Clone, Copy, PartialEq, Eq, Structural)]
pub enum EnvDecodeError {
    InvalidKey(usize),
    InvalidValue(usize),
}

/// What is wrong with the entry at position `i`, if anything: an entry
/// with both strings present fails on its key first, then on its value; an
/// entry with a string missing is skipped and never fails.
pub open spec fn pair_error(p: RawPair, i: usize) -> Option<EnvDecodeError> {
    match p {
        (Some(k), Some(v)) =>
            if !valid_utf8(k@) {
                Some(EnvDecodeError::InvalidKey(i))
            } else if !valid_utf8(v@) {
                Some(EnvDecodeError::InvalidValue(i))
            } else {
                None
            },
        _ => None,
    }
}

/// No entry among the first `n` fails.
pub open spec fn pairs_decode_upto(s: Seq<RawPair>, n: int) -> bool {
    forall|j: int| 0 <= j < n ==> pair_error(#[trigger] s[j], j as usize) is None
}

/// The map that key-value pairs from a C host spell out: a pair whose key
/// or value is missing is skipped, the others are decoded from UTF-8, and a
/// later pair wins over an earlier one with the same key.
pub open spec fn c_pairs_map(s: Seq<RawPair>) -> Map<Seq<char>, Seq<char>>
    decreases s.len(),
{
    if s.len() == 0 {
        Map::empty()
    } else {
        let m = c_pairs_map(s.drop_last());
        match s.last() {
            (Some(k), Some(v)) => m.insert(decode_utf8(k@), decode_utf8(v@)),
            _ => m,
        }
    }
}

/// Collects the environment variables a C host passes as key-value pairs.
/// It fails at the first entry, in order, whose key or value is not valid
/// UTF-8, and names that entry; otherwise every entry with both strings is
/// kept, a later one winning over an earlier one with the same key.
pub fn envvars_to_hashmap(pairs: &Vec<RawPair>) -> (r: Result<StringMap, EnvDecodeError>)
    ensures
        r is Ok <==> pairs_decode_upto(pairs@, pairs@.len() as int),
        r matches Ok(m) ==> m@ == c_pairs_map(pairs@),
        r matches Err(e) ==> exists|i: int| 0 <= i < pairs@.len() && pairs_decode_upto(pairs@, i)
            && pair_error(pairs@[i], i as usize) == Some(e),
{
    let mut m = StringMap::new();
    let n = pairs.len();
    for i in 0..n
        invariant
            n == pairs@.len(),
            m@ == c_pairs_map(pairs@.take(i as int)),
            pairs_decode_upto(pairs@, i as int),
    {
        assert(pairs@.take(i + 1).drop_last() =~= pairs@.take(i as int));
        assert(pairs@.take(i + 1).last() == pairs@[i as int]);
        match (&pairs[i].0, &pairs[i].1) {
            (Some(k), Some(v)) => {
                let key = match utf8_text(k.as_slice()) {
                    Some(key) => key,
                    None => return Err(EnvDecodeError::InvalidKey(i)),
                };
                let value = match utf8_text(v.as_slice()) {
                    Some(value) => value,
                    None => return Err(EnvDecodeError::InvalidValue(i)),
                };
                m.insert(key, value);
            },
            _ => {},
        }
        assert(pair_error(pairs@[i as int], i) is None);
    }
    assert(pairs@.take(n as int) =~= pairs@);
    Ok(m)
}

/// Reading a key back after storing a value under it gives that value, and
/// storing under one key leaves every other key as it was.
pub proof fn string_map_read_after_write(m: Map<Seq<char>, Seq<char>>, k: Seq<char>, v: Seq<char>, other: Seq<char>)
    requires
        other != k,
    ensures
        m.insert(k, v)[k] == v,
        m.insert(k, v).contains_key(other) == m.contains_key(other),
        m.contains_key(other) ==> m.insert(k, v)[other] == m[other],
{
}

/// Adding a pair with both strings to the ones a C host passes maps its
/// decoded key to its decoded value, over any earlier value, and leaves
/// every other key as it was; a pair with a string missing changes nothing.
pub proof fn c_pairs_later_pair_wins(s: Seq<RawPair>, p: RawPair, other: Seq<char>)
    ensures
        p matches (Some(k), Some(v)) ==> c_pairs_map(s.push(p)).contains_key(decode_utf8(k@))
            && c_pairs_map(s.push(p))[decode_utf8(k@)] == decode_utf8(v@),
        p matches (Some(k), Some(v)) ==> (other != decode_utf8(k@) ==> (
            c_pairs_map(s.push(p)).contains_key(other) == c_pairs_map(s).contains_key(other)
            && (c_pairs_map(s).contains_key(other) ==> c_pairs_map(s.push(p))[other] == c_pairs_map(s)[other]))),
        (p.0 is None || p.1 is None) ==> c_pairs_map(s.push(p)) == c_pairs_map(s),
{
    assert(s.push(p).drop_last() =~= s);
    assert(s.push(p).last() == p);
}

} // verus!
