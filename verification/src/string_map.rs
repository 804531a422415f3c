//! A map from strings to values that keeps its entries in ascending key order.
use vstd::prelude::*;
use vstd::string::*;
use vstd::utf8::*;

verus! {

/// How the first of two keys stands to the second.
#[derive(Clone, Copy, Debug, PartialEq, Eq, Structural)]
pub enum KeyOrder {
    Less,
    Equal,
    Greater,
}

/// `a` and `b` agree before position `i`, and at `i` either `a` has ended and
/// `b` has not, or the byte of `a` is the smaller one.
pub open spec fn smaller_at(a: Seq<u8>, b: Seq<u8>, i: int) -> bool {
    &&& 0 <= i <= a.len()
    &&& i < b.len()
    &&& forall|j: int| 0 <= j < i ==> #[trigger] a[j] == b[j]
    &&& i < a.len() ==> a[i] < b[i]
}

/// The lexicographic order of byte sequences.
pub open spec fn bytes_less(a: Seq<u8>, b: Seq<u8>) -> bool {
    exists|i: int| #[trigger] smaller_at(a, b, i)
}

/// The order of keys: that of their UTF-8 encodings.
pub open spec fn key_less(a: Seq<char>, b: Seq<char>) -> bool {
    bytes_less(encode_utf8(a), encode_utf8(b))
}

/// No key is smaller than itself.
pub proof fn lemma_key_less_irreflexive(a: Seq<char>)
    ensures
        !key_less(a, a),
{
}

/// The key order is transitive.
pub proof fn lemma_key_less_transitive(a: Seq<char>, b: Seq<char>, c: Seq<char>)
    requires
        key_less(a, b),
        key_less(b, c),
    ensures
        key_less(a, c),
{
    let (x, y, z) = (encode_utf8(a), encode_utf8(b), encode_utf8(c));
    let i = choose|i: int| #[trigger] smaller_at(x, y, i);
    let k = choose|k: int| #[trigger] smaller_at(y, z, k);
    let m = if i < k { i } else { k };
    assert forall|j: int| 0 <= j < m implies #[trigger] x[j] == z[j] by {
        assert(x[j] == y[j]);
        assert(y[j] == z[j]);
    }
    if i < k {
        assert(y[i] == z[i]);
    } else if k < i {
        assert(x[k] == y[k]);
    }
    assert(smaller_at(x, z, m));
}

/// Of two keys that begin with different ASCII characters the one with the
/// smaller character is the smaller.
pub proof fn lemma_first_char_decides(a: Seq<char>, b: Seq<char>)
    requires
        a.len() > 0,
        b.len() > 0,
        (a[0] as int) < (b[0] as int) < 128,
    ensures
        key_less(a, b),
{
    lemma_ascii_first(a);
    lemma_ascii_first(b);
    assert(smaller_at(encode_utf8(a), encode_utf8(b), 0));
}

/// The encoding of a key that begins with an ASCII character.
proof fn lemma_ascii_first(a: Seq<char>)
    requires
        a.len() > 0,
        (a[0] as int) < 128,
    ensures
        encode_utf8(a).len() > 0,
        encode_utf8(a)[0] == a[0] as int,
{
    lemma_ascii_scalar(a[0]);
    assert(encode_utf8(a)[0] == encode_scalar(a[0] as u32)[0]);
}

/// The encoding of an ASCII character.
proof fn lemma_ascii_scalar(c: char)
    requires
        (c as int) < 128,
    ensures
        encode_scalar(c as u32).len() == 1,
        encode_scalar(c as u32)[0] == c as int,
{
    let scalar: u32 = c as u32;
    assert(scalar <= 0x7f ==> (scalar & 0x7f) as u8 == scalar) by (bit_vector);
}

/// The keys of a map, the smaller ones first.
pub open spec fn in_key_order<V>(keys: Seq<Seq<char>>, map: Map<Seq<char>, V>) -> bool {
    &&& forall|k: Seq<char>| #[trigger]
        map.contains_key(k) <==> exists|i: int| 0 <= i < keys.len() && #[trigger] keys[i] == k
    &&& forall|i: int, j: int|
        0 <= i < j < keys.len() ==> key_less(#[trigger] keys[i], #[trigger] keys[j])
}

/// The keys of a map have one order only.
pub proof fn lemma_key_order_unique<V>(
    one: Seq<Seq<char>>,
    other: Seq<Seq<char>>,
    map: Map<Seq<char>, V>,
)
    requires
        in_key_order(one, map),
        in_key_order(other, map),
    ensures
        one == other,
    decreases one.len(),
{
    if one.len() == 0 {
        if other.len() > 0 {
            assert(other[0] == other[0]);
            assert(map.contains_key(other[0]));
        }
        assert(one =~= other);
    } else {
        assert(one[0] == one[0]);
        assert(map.contains_key(one[0]));
        assert(other.len() > 0);
        let n = one.len() - 1;
        let m = other.len() - 1;
        let (x, y) = (one[n], other[m]);
        assert(map.contains_key(x));
        assert(map.contains_key(y));
        let j = choose|j: int| 0 <= j < other.len() && #[trigger] other[j] == x;
        let i = choose|i: int| 0 <= i < one.len() && #[trigger] one[i] == y;
        if x != y {
            assert(key_less(other[j], other[m]));
            assert(key_less(one[i], one[n]));
            lemma_key_less_transitive(x, y, x);
            lemma_key_less_irreflexive(x);
        }
        lemma_without_last(one, map);
        lemma_without_last(other, map);
        lemma_key_order_unique(one.drop_last(), other.drop_last(), map.remove(x));
        assert(one =~= one.drop_last().push(x));
        assert(other =~= other.drop_last().push(x));
    }
}

/// The keys of a map without its greatest key.
proof fn lemma_without_last<V>(keys: Seq<Seq<char>>, map: Map<Seq<char>, V>)
    requires
        in_key_order(keys, map),
        keys.len() > 0,
    ensures
        in_key_order(keys.drop_last(), map.remove(keys.last())),
{
    let rest = keys.drop_last();
    let without = map.remove(keys.last());
    assert forall|k: Seq<char>| #[trigger] without.contains_key(k) implies exists|i: int|
        0 <= i < rest.len() && #[trigger] rest[i] == k by {
        assert(map.contains_key(k));
        let i = choose|i: int| 0 <= i < keys.len() && #[trigger] keys[i] == k;
        assert(rest[i] == k);
    }
    assert forall|k: Seq<char>|
        (exists|i: int| 0 <= i < rest.len() && #[trigger] rest[i] == k) implies #[trigger] without.contains_key(
        k,
    ) by {
        let i = choose|i: int| 0 <= i < rest.len() && #[trigger] rest[i] == k;
        assert(keys[i] == k);
        assert(map.contains_key(k));
        assert(key_less(keys[i], keys[keys.len() - 1]));
        lemma_key_less_irreflexive(k);
    }
}

/// Two keys with the same encoding are the same key.
proof fn lemma_same_encoding(a: Seq<char>, b: Seq<char>)
    requires
        encode_utf8(a) == encode_utf8(b),
    ensures
        a == b,
{
    encode_utf8_decode_utf8(a);
    encode_utf8_decode_utf8(b);
}

/// Compares two keys.
pub fn key_order(a: &str, b: &str) -> (r: KeyOrder)
    ensures
        r is Less <==> key_less(a@, b@),
        r is Equal <==> a@ == b@,
        r is Greater <==> key_less(b@, a@),
{
    let x = a.as_bytes();
    let y = b.as_bytes();
    let mut i: usize = 0;
    while i < x.len() && i < y.len() && x[i] == y[i]
        invariant
            i <= x@.len(),
            i <= y@.len(),
            forall|j: int| 0 <= j < i ==> #[trigger] x@[j] == y@[j],
        decreases x@.len() - i,
    {
        i = i + 1;
    }
    proof {
        lemma_key_less_irreflexive(a@);
        if key_less(a@, b@) && key_less(b@, a@) {
            lemma_key_less_transitive(a@, b@, a@);
        }
    }
    if i < x.len() {
        if i < y.len() {
            if x[i] < y[i] {
                assert(smaller_at(x@, y@, i as int));
                KeyOrder::Less
            } else {
                assert(smaller_at(y@, x@, i as int));
                KeyOrder::Greater
            }
        } else {
            assert(smaller_at(y@, x@, i as int));
            KeyOrder::Greater
        }
    } else if i < y.len() {
        assert(smaller_at(x@, y@, i as int));
        KeyOrder::Less
    } else {
        proof {
            assert(x@ =~= y@);
            lemma_same_encoding(a@, b@);
        }
        KeyOrder::Equal
    }
}

/// A map from strings to values, walked in ascending key order.
///
/// vstd says what the ordered map of std holds only where it knows the order of
/// the keys, and it knows that of integers but not that of strings.
pub struct StringMap<V> {
    entries: Vec<(String, V)>,
}

impl<V> View for StringMap<V> {
    type V = Map<Seq<char>, V>;

    closed spec fn view(&self) -> Map<Seq<char>, V> {
        Map::new(
            |k: Seq<char>| exists|i: int| 0 <= i < self.entries@.len() && #[trigger] self.entries@[i].0@ == k,
            |k: Seq<char>| self.entries@[choose|i: int| 0 <= i < self.entries@.len() && #[trigger] self.entries@[i].0@ == k].1,
        )
    }
}

spec fn ascending_entries<V>(entries: Seq<(String, V)>) -> bool {
    forall|i: int, j: int|
        0 <= i < j < entries.len() ==> key_less(#[trigger] entries[i].0@, #[trigger] entries[j].0@)
}

/// Where entries ascend, a key stands at one position only, and the map holds
/// the value of that position.
proof fn lemma_entry<V>(map: StringMap<V>, i: int)
    requires
        ascending_entries(map.entries@),
        0 <= i < map.entries@.len(),
    ensures
        map@.contains_key(map.entries@[i].0@),
        map@[map.entries@[i].0@] == map.entries@[i].1,
        forall|j: int|
            0 <= j < map.entries@.len() && #[trigger] map.entries@[j].0@ == map.entries@[i].0@ ==> j
                == i,
{
    let k = map.entries@[i].0@;
    lemma_key_less_irreflexive(k);
    let c = choose|j: int| 0 <= j < map.entries@.len() && #[trigger] map.entries@[j].0@ == k;
    assert(c == i);
}

/// `after` is `before` with `entry` put at position `i`, in place of the entry
/// that stands there or before it.
spec fn put_at<V>(
    before: Seq<(String, V)>,
    i: int,
    entry: (String, V),
    replace: bool,
    after: Seq<(String, V)>,
) -> bool {
    &&& 0 <= i <= before.len()
    &&& forall|j: int| 0 <= j < i ==> key_less(#[trigger] before[j].0@, entry.0@)
    &&& if replace {
        i < before.len() && before[i].0@ == entry.0@ && after == before.update(i, entry)
    } else {
        (i < before.len() ==> key_less(entry.0@, before[i].0@)) && after == before.insert(i, entry)
    }
}

proof fn lemma_insert<V>(
    before: Seq<(String, V)>,
    i: int,
    entry: (String, V),
    replace: bool,
    after: Seq<(String, V)>,
)
    requires
        ascending_entries(before),
        put_at(before, i, entry, replace, after),
    ensures
        ascending_entries(after),
{
    assert forall|x: int, y: int| 0 <= x < y < after.len() implies key_less(
        #[trigger] after[x].0@,
        #[trigger] after[y].0@,
    ) by {
        if !replace {
            let bx = if x < i { x } else { x - 1 };
            let by_ = if y < i { y } else { y - 1 };
            if x == i {
                if by_ > i {
                    lemma_key_less_transitive(entry.0@, before[i].0@, before[by_].0@);
                }
            } else if y != i {
                assert(key_less(before[bx].0@, before[by_].0@));
            }
        } else {
            assert(key_less(before[x].0@, before[y].0@));
        }
    }
}

proof fn lemma_view_insert<V>(
    m: StringMap<V>,
    r: StringMap<V>,
    i: int,
    entry: (String, V),
    replace: bool,
)
    requires
        ascending_entries(m.entries@),
        ascending_entries(r.entries@),
        put_at(m.entries@, i, entry, replace, r.entries@),
    ensures
        r@ == m@.insert(entry.0@, entry.1),
{
    let (before, after) = (m.entries@, r.entries@);
    let want = m@.insert(entry.0@, entry.1);
    assert(after[i] == entry);
    lemma_entry(r, i);
    assert forall|k: Seq<char>| #[trigger] r@.contains_key(k) implies want.contains_key(k) && r@[k]
        == want[k] by {
        let j = choose|j: int| 0 <= j < after.len() && #[trigger] after[j].0@ == k;
        lemma_entry(r, j);
        if j != i {
            let b = if replace || j < i { j } else { j - 1 };
            assert(before[b] == after[j]);
            lemma_entry(m, b);
        }
    }
    assert forall|k: Seq<char>| #[trigger] want.contains_key(k) implies r@.contains_key(k) by {
        if k != entry.0@ {
            let b = choose|b: int| 0 <= b < before.len() && #[trigger] before[b].0@ == k;
            let j = if replace || b < i { b } else { b + 1 };
            assert(after[j] == before[b]);
            lemma_entry(r, j);
        }
    }
    assert(r@ =~= want);
}

impl<V> StringMap<V> {
    /// The entries stand in strictly ascending key order.
    #[verifier::type_invariant]
    closed spec fn ascending(self) -> bool {
        ascending_entries(self.entries@)
    }

    /// The keys in the order in which they are walked.
    pub closed spec fn keys(&self) -> Seq<Seq<char>> {
        Seq::new(self.entries@.len(), |i: int| self.entries@[i].0@)
    }

    /// An empty map.
    pub fn new() -> (r: Self)
        ensures
            r@ == Map::<Seq<char>, V>::empty(),
            r.keys() == Seq::<Seq<char>>::empty(),
    {
        let r = StringMap { entries: Vec::new() };
        assert(r@ =~= Map::<Seq<char>, V>::empty());
        assert(r.keys() =~= Seq::<Seq<char>>::empty());
        r
    }

    /// The number of entries. Every key is walked exactly once, the smaller
    /// ones first.
    pub fn len(&self) -> (r: usize)
        ensures
            r == self.keys().len(),
            in_key_order(self.keys(), self@),
            forall|i: int, j: int|
                0 <= i < j < self.keys().len() ==> #[trigger] self.keys()[i]
                    != #[trigger] self.keys()[j],
    {
        proof {
            use_type_invariant(self);
            assert forall|k: Seq<char>| #[trigger] self@.contains_key(k) implies exists|i: int|
                0 <= i < self.keys().len() && #[trigger] self.keys()[i] == k by {
                let i = choose|i: int|
                    0 <= i < self.entries@.len() && #[trigger] self.entries@[i].0@ == k;
                assert(self.keys()[i] == k);
            }
            assert forall|i: int, j: int| 0 <= i < j < self.keys().len() implies #[trigger] self.keys()[i]
                != #[trigger] self.keys()[j] by {
                lemma_entry(*self, i);
            }
        }
        self.entries.len()
    }

    /// The key at a position of the walk.
    pub fn key_at(&self, i: usize) -> (r: &String)
        requires
            i < self.keys().len(),
        ensures
            r@ == self.keys()[i as int],
            self@.contains_key(r@),
    {
        proof {
            use_type_invariant(self);
            lemma_entry(*self, i as int);
        }
        &self.entries[i].0
    }

    /// The value at a position of the walk.
    pub fn value_at(&self, i: usize) -> (r: &V)
        requires
            i < self.keys().len(),
        ensures
            *r == self@[self.keys()[i as int]],
    {
        proof {
            use_type_invariant(self);
            lemma_entry(*self, i as int);
        }
        &self.entries[i].1
    }

    /// The value of a key, if there is one.
    pub fn get(&self, key: &str) -> (r: Option<&V>)
        ensures
            r is Some <==> self@.contains_key(key@),
            r matches Some(v) ==> *v == self@[key@],
    {
        proof {
            use_type_invariant(self);
        }
        let mut i: usize = 0;
        while i < self.entries.len()
            invariant
                ascending_entries(self.entries@),
                i <= self.entries@.len(),
                forall|j: int| 0 <= j < i ==> #[trigger] self.entries@[j].0@ != key@,
            decreases self.entries@.len() - i,
        {
            match key_order(self.entries[i].0.as_str(), key) {
                KeyOrder::Equal => {
                    proof {
                        lemma_entry(*self, i as int);
                    }
                    return Some(&self.entries[i].1);
                },
                _ => {},
            }
            i = i + 1;
        }
        None
    }

    /// The value of the smallest key, if the map is not empty.
    pub fn first(&self) -> (r: Option<&V>)
        ensures
            r is None <==> self.keys().len() == 0,
            r is None <==> self@ == Map::<Seq<char>, V>::empty(),
            r matches Some(v) ==> {
                &&& self@.contains_key(self.keys()[0])
                &&& *v == self@[self.keys()[0]]
                &&& forall|k: Seq<char>| #[trigger]
                    self@.contains_key(k) && k != self.keys()[0] ==> key_less(self.keys()[0], k)
            },
    {
        proof {
            use_type_invariant(self);
        }
        if self.entries.len() == 0 {
            assert(self@ =~= Map::<Seq<char>, V>::empty());
            None
        } else {
            proof {
                lemma_entry(*self, 0);
                assert(self@.contains_key(self.keys()[0]));
                assert forall|k: Seq<char>| #[trigger]
                    self@.contains_key(k) && k != self.keys()[0] implies key_less(
                    self.keys()[0],
                    k,
                ) by {
                    let i = choose|i: int|
                        0 <= i < self.entries@.len() && #[trigger] self.entries@[i].0@ == k;
                    assert(key_less(self.entries@[0].0@, self.entries@[i].0@));
                }
            }
            Some(&self.entries[0].1)
        }
    }

    /// Sets the value of a key, in place of the value that it may have had.
    pub fn insert(&mut self, key: String, value: V)
        ensures
            final(self)@ == old(self)@.insert(key@, value),
    {
        proof {
            use_type_invariant(&*self);
        }
        let mut entries: Vec<(String, V)> = Vec::new();
        std::mem::swap(&mut entries, &mut self.entries);
        let ghost before = entries@;
        let mut i: usize = 0;
        let mut found: bool = false;
        while i < entries.len() && !found
            invariant
                entries@ == before,
                ascending_entries(before),
                i <= before.len(),
                forall|j: int| 0 <= j < i ==> key_less(#[trigger] before[j].0@, key@),
                found ==> i < before.len() && (before[i as int].0@ == key@ || key_less(
                    key@,
                    before[i as int].0@,
                )),
            decreases before.len() - i + (if found { 0int } else { 1int }),
        {
            match key_order(entries[i].0.as_str(), key.as_str()) {
                KeyOrder::Less => {
                    i = i + 1;
                },
                _ => {
                    found = true;
                },
            }
        }
        let ghost entry = (key, value);
        let replace: bool = found && entries[i].0 == key;
        if replace {
            entries.set(i, (key, value));
        } else {
            entries.insert(i, (key, value));
        }
        proof {
            lemma_insert(before, i as int, entry, replace, entries@);
        }
        self.entries = entries;
        proof {
            lemma_view_insert(*old(self), *self, i as int, entry, replace);
        }
    }
}

} // verus!
