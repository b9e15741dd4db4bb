//! Names, and tables keyed by name.

use vstd::prelude::*;
use vstd::utf8::encode_utf8;

verus! {

/// Whether two names are the same.
pub fn same_name(a: &str, b: &str) -> (same: bool)
    ensures
        same == (a@ == b@),
{
    let x = a.as_bytes();
    let y = b.as_bytes();
    proof {
        vstd::utf8::encode_utf8_decode_utf8(a@);
        vstd::utf8::encode_utf8_decode_utf8(b@);
    }
    if x.len() != y.len() {
        return false;
    }
    let mut i: usize = 0;
    while i < x.len()
        invariant
            i <= x@.len(),
            x@.len() == y@.len(),
            x@ == encode_utf8(a@),
            y@ == encode_utf8(b@),
            forall|k: int| 0 <= k < i ==> x@[k] == y@[k],
        decreases x@.len() - i,
    {
        if x[i] != y[i] {
            assert(x@[i as int] != y@[i as int]);
            return false;
        }
        i = i + 1;
    }
    assert(x@ =~= y@);
    true
}

/// The two byte strings agree before place `k`, where the first ends or has the smaller byte.
pub open spec fn differ_at(a: Seq<u8>, b: Seq<u8>, k: int) -> bool {
    &&& 0 <= k <= a.len()
    &&& k < b.len()
    &&& forall|j: int| 0 <= j < k ==> a[j] == b[j]
    &&& k == a.len() || a[k] < b[k]
}

/// The order of byte strings: by the first byte in which they differ, and a proper prefix first.
pub open spec fn bytes_before(a: Seq<u8>, b: Seq<u8>) -> bool {
    exists|k: int| differ_at(a, b, k)
}

/// The order of names: that of their UTF-8 bytes.
pub open spec fn name_before(a: Seq<char>, b: Seq<char>) -> bool {
    bytes_before(encode_utf8(a), encode_utf8(b))
}

/// Whether the first name comes before the second.
pub fn comes_before(a: &str, b: &str) -> (before: bool)
    ensures
        before == name_before(a@, b@),
{
    let x = a.as_bytes();
    let y = b.as_bytes();
    let mut i: usize = 0;
    while i < x.len() && i < y.len() && x[i] == y[i]
        invariant
            i <= x@.len(),
            i <= y@.len(),
            forall|k: int| 0 <= k < i ==> x@[k] == y@[k],
        decreases x@.len() - i,
    {
        i = i + 1;
    }
    if i == y.len() {
        false
    } else if i == x.len() {
        assert(differ_at(x@, y@, i as int));
        true
    } else {
        if x[i] < y[i] {
            assert(differ_at(x@, y@, i as int));
            true
        } else {
            false
        }
    }
}

/// No name comes before itself, two different names are ordered one way, and the order is
/// transitive.
pub proof fn law_names_totally_ordered(a: Seq<char>, b: Seq<char>, c: Seq<char>)
    ensures
        !name_before(a, a),
        a != b ==> (name_before(a, b) <==> !name_before(b, a)),
        name_before(a, b) && name_before(b, c) ==> name_before(a, c),
{
    let (x, y, z) = (encode_utf8(a), encode_utf8(b), encode_utf8(c));
    vstd::utf8::encode_utf8_decode_utf8(a);
    vstd::utf8::encode_utf8_decode_utf8(b);
    if a != b {
        lemma_bytes_differ(x, y, 0);
    }
    if bytes_before(x, y) && bytes_before(y, z) {
        let i = choose|k: int| differ_at(x, y, k);
        let j = choose|k: int| differ_at(y, z, k);
        assert(differ_at(x, z, if i < j { i } else { j }));
    }
}

/// Two different byte strings are ordered one way or the other.
proof fn lemma_bytes_differ(x: Seq<u8>, y: Seq<u8>, from: int)
    requires
        x != y,
        0 <= from <= x.len(),
        from <= y.len(),
        forall|j: int| 0 <= j < from ==> x[j] == y[j],
    ensures
        bytes_before(x, y) || bytes_before(y, x),
    decreases x.len() - from,
{
    if from == x.len() || from == y.len() {
        if x.len() == y.len() {
            assert(x =~= y);
        }
        assert(differ_at(x, y, from) || differ_at(y, x, from));
    } else if x[from] != y[from] {
        assert(differ_at(x, y, from) || differ_at(y, x, from));
    } else {
        lemma_bytes_differ(x, y, from + 1);
    }
}

/// A table from names to values; no name occurs twice.
///
/// The view of a table is the map it stands for. Entries keep the order in which their names
/// first came.
#[derive(Debug)]
pub struct NameMap<V> {
    entries: Vec<(String, V)>,
}

/// The names of a list of entries.
spec fn entry_names<V>(entries: Seq<(String, V)>) -> Seq<Seq<char>> {
    Seq::new(entries.len(), |i: int| entries[i].0@)
}

/// The map that a list of entries with distinct names stands for.
spec fn entry_map<V>(entries: Seq<(String, V)>) -> Map<Seq<char>, V> {
    Map::new(
        |n: Seq<char>| entry_names(entries).contains(n),
        |n: Seq<char>| entries[entry_names(entries).index_of(n)].1,
    )
}

impl<V> View for NameMap<V> {
    type V = Map<Seq<char>, V>;

    closed spec fn view(&self) -> Map<Seq<char>, V> {
        entry_map(self.entries@)
    }
}

impl<V> NameMap<V> {
    #[verifier::type_invariant]
    spec fn inv(self) -> bool {
        entry_names(self.entries@).no_duplicates()
    }

    /// The names, in table order.
    pub closed spec fn names(self) -> Seq<Seq<char>> {
        entry_names(self.entries@)
    }

    /// The names are distinct, and they are the keys of the map.
    pub open spec fn keyed(self) -> bool {
        &&& self.names().no_duplicates()
        &&& forall|n: Seq<char>| #[trigger] self@.contains_key(n) <==> self.names().contains(n)
    }

    /// The empty table.
    pub fn new() -> (t: Self)
        ensures
            t@ == Map::<Seq<char>, V>::empty(),
            t.names() == Seq::<Seq<char>>::empty(),
            t.keyed(),
    {
        NameMap { entries: Vec::new() }
    }

    /// The number of entries.
    pub fn len(&self) -> (n: usize)
        ensures
            n == self.names().len(),
            self.keyed(),
    {
        proof {
            use_type_invariant(self);
        }
        self.entries.len()
    }

    /// The place of a name in the table.
    fn find(&self, name: &str) -> (place: Option<usize>)
        ensures
            match place {
                Some(i) => i < self.entries@.len() && self.entries@[i as int].0@ == name@,
                None => !self.names().contains(name@),
            },
    {
        let mut i: usize = 0;
        while i < self.entries.len()
            invariant
                i <= self.entries@.len(),
                forall|k: int| 0 <= k < i ==> self.entries@[k].0@ != name@,
            decreases self.entries@.len() - i,
        {
            if same_name(self.entries[i].0.as_str(), name) {
                return Some(i);
            }
            i = i + 1;
        }
        None
    }

    /// Whether the table has an entry for the name.
    pub fn contains_key(&self, name: &str) -> (found: bool)
        ensures
            found == self@.contains_key(name@),
            self.keyed(),
    {
        proof {
            use_type_invariant(self);
        }
        match self.find(name) {
            Some(i) => {
                assert(self.names()[i as int] == name@);
                true
            },
            None => false,
        }
    }

    /// The value of a name.
    pub fn get(&self, name: &str) -> (found: Option<&V>)
        ensures
            match found {
                Some(v) => self@.contains_key(name@) && *v == self@[name@],
                None => !self@.contains_key(name@),
            },
            self.keyed(),
    {
        proof {
            use_type_invariant(self);
        }
        match self.find(name) {
            Some(i) => {
                assert(self.names()[i as int] == name@);
                assert(self.names().index_of(name@) == i);
                Some(&self.entries[i].1)
            },
            None => None,
        }
    }

    /// The name at a place of the table.
    pub fn name_at(&self, i: usize) -> (name: &String)
        requires
            i < self.names().len(),
        ensures
            name@ == self.names()[i as int],
    {
        &self.entries[i].0
    }

    /// The value at a place of the table.
    pub fn value_at(&self, i: usize) -> (v: &V)
        requires
            i < self.names().len(),
        ensures
            self@.contains_key(self.names()[i as int]),
            *v == self@[self.names()[i as int]],
    {
        proof {
            use_type_invariant(self);
            let n = self.names()[i as int];
            assert(self.names().contains(n));
            assert(self.names().index_of(n) == i);
        }
        &self.entries[i].1
    }

    /// Gives a name a value, in place of the one it had.
    pub fn insert(&mut self, name: String, value: V)
        ensures
            final(self)@ == old(self)@.insert(name@, value),
            final(self).names() == if old(self)@.contains_key(name@) {
                old(self).names()
            } else {
                old(self).names().push(name@)
            },
            final(self).keyed(),
    {
        proof {
            use_type_invariant(&*self);
        }
        let place = self.find(name.as_str());
        let ghost before = self.entries@;
        let mut entries: Vec<(String, V)> = Vec::new();
        std::mem::swap(&mut entries, &mut self.entries);
        match place {
            Some(i) => {
                entries.set(i, (name, value));
                proof {
                    lemma_replaced(before, entries@, i as int);
                }
            },
            None => {
                entries.push((name, value));
                proof {
                    lemma_pushed(before, entries@);
                }
            },
        }
        self.entries = entries;
    }

    /// Exchanges the value of a name with another value, if the table has the name.
    pub fn swap(&mut self, name: &str, value: &mut V) -> (found: bool)
        ensures
            found == old(self)@.contains_key(name@),
            found ==> {
                &&& final(self)@ == old(self)@.insert(name@, *old(value))
                &&& *final(value) == old(self)@[name@]
            },
            !found ==> final(self)@ == old(self)@ && *final(value) == *old(value),
            final(self).names() == old(self).names(),
            final(self).keyed(),
    {
        proof {
            use_type_invariant(&*self);
        }
        match self.find(name) {
            Some(i) => {
                let ghost before = self.entries@;
                let mut entries: Vec<(String, V)> = Vec::new();
                std::mem::swap(&mut entries, &mut self.entries);
                std::mem::swap(&mut entries[i].1, value);
                proof {
                    lemma_replaced(before, entries@, i as int);
                }
                self.entries = entries;
                true
            },
            None => false,
        }
    }
}

impl<V: Clone> Clone for NameMap<V> {
    /// A table with the same names in the same order, and with clones of the values.
    fn clone(&self) -> (copy: Self)
        ensures
            copy.names() == self.names(),
            copy@.dom() == self@.dom(),
            forall|n: Seq<char>| #[trigger]
                self@.contains_key(n) ==> cloned::<V>(self@[n], copy@[n]),
            copy.keyed(),
    {
        proof {
            use_type_invariant(self);
        }
        let ghost source = self.entries@;
        let mut entries: Vec<(String, V)> = Vec::new();
        let mut i: usize = 0;
        while i < self.entries.len()
            invariant
                source == self.entries@,
                i <= source.len(),
                entries@.len() == i,
                forall|j: int| 0 <= j < i ==> (#[trigger] entries@[j]).0@ == source[j].0@,
                forall|j: int| 0 <= j < i ==> cloned::<V>(source[j].1, #[trigger] entries@[j].1),
            decreases source.len() - i,
        {
            let name = self.entries[i].0.clone();
            let value = self.entries[i].1.clone();
            entries.push((name, value));
            i = i + 1;
        }
        let ghost target = entries@;
        proof {
            assert(entry_names(target) =~= entry_names(source));
            assert(entry_map(target).dom() =~= entry_map(source).dom());
        }
        let copy = NameMap { entries };
        proof {
            assert forall|n: Seq<char>| #[trigger] self@.contains_key(n) implies cloned::<V>(
                self@[n],
                copy@[n],
            ) by {
                let j = entry_names(source).index_of(n);
                assert(entry_names(source).contains(n));
                assert(0 <= j < source.len());
                assert(cloned::<V>(source[j].1, target[j].1));
            }
        }
        copy
    }
}

/// A new value at one place of a list of entries replaces the value of that place's name.
proof fn lemma_replaced<V>(before: Seq<(String, V)>, after: Seq<(String, V)>, i: int)
    requires
        entry_names(before).no_duplicates(),
        0 <= i < before.len(),
        after.len() == before.len(),
        after[i].0@ == before[i].0@,
        forall|j: int| 0 <= j < before.len() && j != i ==> after[j] == before[j],
    ensures
        entry_names(after) == entry_names(before),
        entry_names(before).contains(before[i].0@),
        entry_map(before)[before[i].0@] == before[i].1,
        entry_map(after) == entry_map(before).insert(before[i].0@, after[i].1),
{
    let names = entry_names(before);
    let key = before[i].0@;
    assert(names[i] == key);
    assert(entry_names(after) =~= names);
    assert forall|n: Seq<char>| names.contains(n) implies {
        let j = names.index_of(n);
        &&& 0 <= j < before.len()
        &&& names[j] == n
        &&& (j == i <==> n == key)
    } by {}
    assert(names.index_of(key) == i);
    assert(entry_map(after) =~= entry_map(before).insert(key, after[i].1));
}

/// A new name at the end of a list of entries adds its value to the map.
proof fn lemma_pushed<V>(before: Seq<(String, V)>, after: Seq<(String, V)>)
    requires
        entry_names(before).no_duplicates(),
        after.len() == before.len() + 1,
        forall|i: int| 0 <= i < before.len() ==> after[i] == before[i],
        !entry_names(before).contains(after.last().0@),
    ensures
        entry_names(after) == entry_names(before).push(after.last().0@),
        entry_names(after).no_duplicates(),
        entry_map(after) == entry_map(before).insert(after.last().0@, after.last().1),
{
    let key = after.last().0@;
    let old_names = entry_names(before);
    let new_names = entry_names(after);
    assert(new_names =~= old_names.push(key));
    assert forall|i: int, j: int| 0 <= i < new_names.len() && 0 <= j < new_names.len() && i != j
        implies new_names[i] != new_names[j] by {
        if i < before.len() {
            assert(old_names.contains(old_names[i]));
        }
        if j < before.len() {
            assert(old_names.contains(old_names[j]));
        }
    }
    assert(new_names[before.len() as int] == key);
    assert forall|n: Seq<char>| new_names.contains(n) <==> (old_names.contains(n) || n == key) by {
        if old_names.contains(n) {
            assert(new_names[old_names.index_of(n)] == n);
        }
    }
    assert forall|n: Seq<char>| old_names.contains(n) implies new_names.index_of(n)
        == old_names.index_of(n) by {
        assert(new_names[old_names.index_of(n)] == n);
    }
    assert(new_names.index_of(key) == before.len());
    assert(entry_map(after) =~= entry_map(before).insert(key, after.last().1));
}

/// The first byte in which two names differ decides their order, the smaller byte first, and a name
/// comes before every longer one that begins with it.
pub proof fn law_first_difference_decides(a: Seq<char>, b: Seq<char>, k: int)
    requires
        0 <= k < encode_utf8(b).len(),
        k <= encode_utf8(a).len(),
        encode_utf8(a).take(k) == encode_utf8(b).take(k),
    ensures
        k < encode_utf8(a).len() && encode_utf8(a)[k] < encode_utf8(b)[k] ==> name_before(a, b)
            && !name_before(b, a),
        k < encode_utf8(a).len() && encode_utf8(a)[k] > encode_utf8(b)[k] ==> !name_before(a, b)
            && name_before(b, a),
        k == encode_utf8(a).len() ==> name_before(a, b) && !name_before(b, a),
{
    let (x, y) = (encode_utf8(a), encode_utf8(b));
    assert forall|j: int| 0 <= j < k implies x[j] == y[j] by {
        assert(x.take(k)[j] == y.take(k)[j]);
    }
    if k == x.len() || x[k] < y[k] {
        assert(differ_at(x, y, k));
    } else if x[k] > y[k] {
        assert(differ_at(y, x, k));
    }
}

} // verus!
