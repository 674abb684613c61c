//! A map that keeps its entries in the order of their keys.
use vstd::prelude::*;
use vstd::string::*;
use vstd::utf8::*;

use crate::text::lemma_encode_injective;

verus! {

/// How one key stands to another.
#[derive(Clone, Copy, Debug, PartialEq, Eq, Structural)]
pub enum KeyOrder {
    Before,
    Same,
    After,
}

/// A key with a total order on its model.
pub trait OrderedKey: Sized {
    type Model;

    spec fn model(&self) -> Self::Model;

    spec fn before(a: Self::Model, b: Self::Model) -> bool;

    proof fn order_is_total(a: Self::Model, b: Self::Model)
        ensures
            Self::before(a, b) || a == b || Self::before(b, a),
            !(Self::before(a, b) && Self::before(b, a)),
            !Self::before(a, a),
    ;

    proof fn order_is_transitive(a: Self::Model, b: Self::Model, c: Self::Model)
        requires
            Self::before(a, b),
            Self::before(b, c),
        ensures
            Self::before(a, c),
    ;

    fn order(&self, other: &Self) -> (r: KeyOrder)
        ensures
            r == KeyOrder::Before <==> Self::before(self.model(), other.model()),
            r == KeyOrder::Same <==> self.model() == other.model(),
            r == KeyOrder::After <==> Self::before(other.model(), self.model()),
    ;

    fn copy_key(&self) -> (r: Self)
        ensures
            r.model() == self.model(),
    ;
}

impl OrderedKey for usize {
    type Model = usize;

    open spec fn model(&self) -> usize {
        *self
    }

    open spec fn before(a: usize, b: usize) -> bool {
        a < b
    }

    proof fn order_is_total(a: usize, b: usize) {
    }

    proof fn order_is_transitive(a: usize, b: usize, c: usize) {
    }

    fn order(&self, other: &usize) -> (r: KeyOrder) {
        if *self < *other {
            KeyOrder::Before
        } else if *self == *other {
            KeyOrder::Same
        } else {
            KeyOrder::After
        }
    }

    fn copy_key(&self) -> (r: usize) {
        *self
    }
}

/// Lexicographic order of two byte sequences.
pub open spec fn bytes_before(a: Seq<u8>, b: Seq<u8>) -> bool
    decreases a.len(),
{
    if b.len() == 0 {
        false
    } else if a.len() == 0 {
        true
    } else if a[0] != b[0] {
        a[0] < b[0]
    } else {
        bytes_before(a.drop_first(), b.drop_first())
    }
}

/// The order of texts: byte by byte over their encodings.
pub open spec fn text_before(a: Seq<char>, b: Seq<char>) -> bool {
    bytes_before(encode_utf8(a), encode_utf8(b))
}

proof fn lemma_bytes_total(a: Seq<u8>, b: Seq<u8>)
    ensures
        bytes_before(a, b) || a == b || bytes_before(b, a),
        !(bytes_before(a, b) && bytes_before(b, a)),
        a == b ==> !bytes_before(a, b),
    decreases a.len(),
{
    if a.len() == 0 || b.len() == 0 {
        if a.len() == 0 && b.len() == 0 {
            assert(a =~= b);
        }
    } else if a[0] == b[0] {
        lemma_bytes_total(a.drop_first(), b.drop_first());
        if a.drop_first() == b.drop_first() {
            assert(a =~= seq![a[0]] + a.drop_first());
            assert(b =~= seq![b[0]] + b.drop_first());
        }
    }
}

proof fn lemma_bytes_transitive(a: Seq<u8>, b: Seq<u8>, c: Seq<u8>)
    requires
        bytes_before(a, b),
        bytes_before(b, c),
    ensures
        bytes_before(a, c),
    decreases a.len(),
{
    if a.len() > 0 && b.len() > 0 && c.len() > 0 {
        if a[0] == b[0] && b[0] == c[0] {
            lemma_bytes_transitive(a.drop_first(), b.drop_first(), c.drop_first());
        }
    }
}

proof fn lemma_bytes_at(a: Seq<u8>, b: Seq<u8>, i: int)
    requires
        0 <= i <= a.len(),
        i <= b.len(),
        forall|k: int| 0 <= k < i ==> a[k] == b[k],
    ensures
        bytes_before(a, b) == bytes_before(a.skip(i), b.skip(i)),
    decreases i,
{
    if i == 0 {
        assert(a.skip(0) =~= a);
        assert(b.skip(0) =~= b);
    } else {
        let x = a.drop_first();
        let y = b.drop_first();
        assert forall|k: int| 0 <= k < i - 1 implies x[k] == y[k] by {
            assert(a[k + 1] == b[k + 1]);
        }
        assert(a[0] == b[0]);
        lemma_bytes_at(x, y, i - 1);
        assert(x.skip(i - 1) =~= a.skip(i));
        assert(y.skip(i - 1) =~= b.skip(i));
    }
}

/// Compares two texts byte by byte.
pub fn order_text(a: &str, b: &str) -> (r: KeyOrder)
    ensures
        r == KeyOrder::Before <==> text_before(a@, b@),
        r == KeyOrder::Same <==> a@ == b@,
        r == KeyOrder::After <==> text_before(b@, a@),
{
    let left = a.as_bytes();
    let right = b.as_bytes();
    proof {
        lemma_bytes_total(left@, right@);
        if left@ == right@ {
            lemma_encode_injective(a@, b@);
        }
    }
    let mut i: usize = 0;
    while i < left.len() && i < right.len() && left[i] == right[i]
        invariant
            i <= left.len(),
            i <= right.len(),
            forall|k: int| 0 <= k < i ==> left@[k] == right@[k],
        decreases left.len() - i,
    {
        i += 1;
    }
    proof {
        lemma_bytes_at(left@, right@, i as int);
        lemma_bytes_at(right@, left@, i as int);
    }
    if i < left.len() {
        if i < right.len() && left[i] < right[i] {
            KeyOrder::Before
        } else {
            KeyOrder::After
        }
    } else if i < right.len() {
        KeyOrder::Before
    } else {
        assert(left@ =~= right@);
        KeyOrder::Same
    }
}

impl OrderedKey for String {
    type Model = Seq<char>;

    open spec fn model(&self) -> Seq<char> {
        self@
    }

    open spec fn before(a: Seq<char>, b: Seq<char>) -> bool {
        text_before(a, b)
    }

    proof fn order_is_total(a: Seq<char>, b: Seq<char>) {
        lemma_bytes_total(encode_utf8(a), encode_utf8(b));
        if encode_utf8(a) == encode_utf8(b) {
            lemma_encode_injective(a, b);
        }
        lemma_bytes_total(encode_utf8(a), encode_utf8(a));
    }

    proof fn order_is_transitive(a: Seq<char>, b: Seq<char>, c: Seq<char>) {
        lemma_bytes_transitive(encode_utf8(a), encode_utf8(b), encode_utf8(c));
    }

    fn order(&self, other: &String) -> (r: KeyOrder) {
        order_text(self.as_str(), other.as_str())
    }

    fn copy_key(&self) -> (r: String) {
        self.clone()
    }
}

/// Where a key is in a [`KeyMap`], or where it would go.
#[derive(Clone, Copy, Debug, PartialEq, Eq, Structural)]
pub enum Slot {
    Found(usize),
    Vacant(usize),
}

/// A map whose entries stand in the order of their keys, one per key.
#[derive(Debug, PartialEq, Eq)]
pub struct KeyMap<K: OrderedKey, V> {
    entries: Vec<(K, V)>,
}

impl<K: OrderedKey, V: View> View for KeyMap<K, V> {
    type V = Map<K::Model, V::V>;

    closed spec fn view(&self) -> Map<K::Model, V::V> {
        Map::new(
            |key: K::Model| self.key_models().contains(key),
            |key: K::Model| self.entries@[self.key_models().index_of(key)].1@,
        )
    }
}

impl<K: OrderedKey, V> KeyMap<K, V> {
    /// The keys in order.
    pub closed spec fn key_models(&self) -> Seq<K::Model> {
        self.entries@.map_values(|entry: (K, V)| entry.0.model())
    }

    #[verifier::type_invariant]
    pub closed spec fn wf(&self) -> bool {
        strictly_ordered::<K>(self.key_models())
    }
}

impl<K: OrderedKey, V: View> KeyMap<K, V> {
    proof fn lemma_lookup(&self, i: int)
        requires
            self.wf(),
            0 <= i < self.entries@.len(),
        ensures
            self.key_models()[i] == self.entries@[i].0.model(),
            self.key_models().contains(self.entries@[i].0.model()),
            self.key_models().index_of(self.entries@[i].0.model()) == i,
            self@.contains_key(self.entries@[i].0.model()),
            self@[self.entries@[i].0.model()] == self.entries@[i].1@,
    {
        let models = self.key_models();
        assert(models[i] == self.entries@[i].0.model());
        let j = models.index_of(models[i]);
        assert(models.contains(models[i]));
        assert(0 <= j < models.len() && models[j] == models[i]);
        if j != i {
            K::order_is_total(models[i], models[j]);
            if j < i {
                assert(K::before(models[j], models[i]));
            } else {
                assert(K::before(models[i], models[j]));
            }
        }
    }

    pub fn new() -> (r: Self)
        ensures
            r@ == Map::<K::Model, V::V>::empty(),
            r.key_models().len() == 0,
    {
        let r = KeyMap { entries: Vec::new() };
        assert(r@ =~= Map::<K::Model, V::V>::empty());
        r
    }

    pub fn len(&self) -> (n: usize)
        ensures
            n == self@.dom().len(),
            n == self.key_models().len(),
            self@.dom().finite(),
            self@.dom() == self.key_models().to_set(),
            strictly_ordered::<K>(self.key_models()),
    {
        proof {
            use_type_invariant(self);
        }
        proof {
            self.lemma_size();
        }
        self.entries.len()
    }

    pub fn is_empty(&self) -> (r: bool)
        ensures
            r == (self@.dom().len() == 0),
            r == (self@ == Map::<K::Model, V::V>::empty()),
    {
        proof {
            use_type_invariant(self);
        }
        proof {
            self.lemma_size();
            if self.key_models().len() == 0 {
                assert(self@ =~= Map::<K::Model, V::V>::empty());
            } else {
                self.lemma_lookup(0);
            }
        }
        self.entries.len() == 0
    }

    proof fn lemma_size(&self)
        requires
            self.wf(),
        ensures
            self@.dom().finite(),
            self@.dom().len() == self.key_models().len(),
            self@.dom() == self.key_models().to_set(),
            strictly_ordered::<K>(self.key_models()),
    {
        let models = self.key_models();
        assert(models.no_duplicates()) by {
            assert forall|i: int, j: int|
                0 <= i < models.len() && 0 <= j < models.len() && i != j implies models[i]
                != models[j] by {
                if i < j {
                    assert(K::before(models[i], models[j]));
                } else {
                    assert(K::before(models[j], models[i]));
                }
                K::order_is_total(models[i], models[j]);
            }
        }
        models.unique_seq_to_set();
        assert(self@.dom() =~= models.to_set());
    }

    /// Finds `key`, or the place that keeps the order.
    fn find(&self, key: &K) -> (r: Slot)
        ensures
            match r {
                Slot::Found(i) => i < self.entries@.len() && self.entries@[i as int].0.model()
                    == key.model() && self@.contains_key(key.model()) && self@[key.model()]
                    == self.entries@[i as int].1@,
                Slot::Vacant(i) => i <= self.entries@.len() && !self@.contains_key(key.model()) && (
                forall|k: int|
                    0 <= k < i ==> K::before(self.key_models()[k], key.model())) && (forall|k: int|
                    i <= k < self.entries@.len() ==> K::before(key.model(), self.key_models()[k])),
            },
    {
        proof {
            use_type_invariant(self);
        }
        let mut i: usize = 0;
        while i < self.entries.len()
            invariant
                self.wf(),
                i <= self.entries@.len(),
                forall|k: int| 0 <= k < i ==> K::before(self.key_models()[k], key.model()),
            decreases self.entries@.len() - i,
        {
            match self.entries[i].0.order(key) {
                KeyOrder::Before => {
                    i += 1;
                },
                KeyOrder::Same => {
                    proof {
                        self.lemma_lookup(i as int);
                    }
                    return Slot::Found(i);
                },
                KeyOrder::After => {
                    proof {
                        let models = self.key_models();
                        assert(models[i as int] == self.entries@[i as int].0.model());
                        assert forall|k: int| i <= k < models.len() implies K::before(
                            key.model(),
                            models[k],
                        ) by {
                            if k > i {
                                assert(K::before(models[i as int], models[k]));
                                K::order_is_transitive(key.model(), models[i as int], models[k]);
                            }
                        }
                        self.lemma_absent(key.model(), i as int);
                    }
                    return Slot::Vacant(i);
                },
            }
        }
        proof {
            self.lemma_absent(key.model(), i as int);
        }
        Slot::Vacant(i)
    }

    proof fn lemma_absent(&self, key: K::Model, i: int)
        requires
            self.wf(),
            0 <= i <= self.entries@.len(),
            forall|k: int| 0 <= k < i ==> K::before(self.key_models()[k], key),
            forall|k: int| i <= k < self.entries@.len() ==> K::before(key, self.key_models()[k]),
        ensures
            !self@.contains_key(key),
    {
        if self.key_models().contains(key) {
            let k = self.key_models().index_of(key);
            K::order_is_total(key, key);
            assert(self.key_models()[k] == key);
        }
    }

    pub fn contains_key(&self, key: &K) -> (r: bool)
        ensures
            r == self@.contains_key(key.model()),
    {
        proof {
            use_type_invariant(self);
        }
        match self.find(key) {
            Slot::Found(_) => true,
            Slot::Vacant(_) => false,
        }
    }

    pub fn get(&self, key: &K) -> (r: Option<&V>)
        ensures
            match r {
                Some(value) => self@.contains_key(key.model()) && value@ == self@[key.model()],
                None => !self@.contains_key(key.model()),
            },
    {
        proof {
            use_type_invariant(self);
        }
        match self.find(key) {
            Slot::Found(i) => Some(&self.entries[i].1),
            Slot::Vacant(_) => None,
        }
    }

    /// The key at position `i` of the order.
    pub fn key_at(&self, i: usize) -> (r: &K)
        requires
            i < self.key_models().len(),
        ensures
            r.model() == self.key_models()[i as int],
            self@.contains_key(r.model()),
    {
        proof {
            use_type_invariant(self);
        }
        proof {
            self.lemma_lookup(i as int);
        }
        &self.entries[i].0
    }

    /// The value at position `i` of the order.
    pub fn value_at(&self, i: usize) -> (r: &V)
        requires
            i < self.key_models().len(),
        ensures
            self@.contains_key(self.key_models()[i as int]),
            r@ == self@[self.key_models()[i as int]],
    {
        proof {
            use_type_invariant(self);
        }
        proof {
            self.lemma_lookup(i as int);
        }
        &self.entries[i].1
    }

    proof fn lemma_inserted(before: &Self, after: &Self, key: K, value: V, at: int)
        requires
            before.wf(),
            0 <= at <= before.entries@.len(),
            !before@.contains_key(key.model()),
            forall|k: int| 0 <= k < at ==> K::before(before.key_models()[k], key.model()),
            forall|k: int|
                at <= k < before.entries@.len() ==> K::before(key.model(), before.key_models()[k]),
            after.entries@ == before.entries@.insert(at, (key, value)),
        ensures
            after.wf(),
            after@ == before@.insert(key.model(), value@),
            after.key_models() == before.key_models().insert(at, key.model()),
    {
        let models = after.key_models();
        assert(models =~= before.key_models().insert(at, key.model()));
        assert forall|i: int, j: int| 0 <= i < j < models.len() implies K::before(
            models[i],
            models[j],
        ) by {
            let old_models = before.key_models();
            if j < at {
                assert(K::before(old_models[i], old_models[j]));
            } else if i == at {
                assert(models[j] == old_models[j - 1]);
            } else if j == at {
                assert(models[i] == old_models[i]);
            } else if i < at {
                assert(K::before(old_models[i], old_models[j - 1]));
            } else {
                assert(K::before(old_models[i - 1], old_models[j - 1]));
            }
        }
        assert forall|model: K::Model| #[trigger] after@.contains_key(model) implies before@.insert(
            key.model(),
            value@,
        ).contains_key(model) && after@[model] == before@.insert(key.model(), value@)[model] by {
            let i = models.index_of(model);
            assert(models[i] == model);
            after.lemma_lookup(i);
            if i == at {
            } else if i < at {
                assert(after.entries@[i].0 == before.entries@[i].0);
                before.lemma_lookup(i);
            } else {
                assert(after.entries@[i].0 == before.entries@[i - 1].0);
                before.lemma_lookup(i - 1);
            }
        }
        assert forall|model: K::Model|
            #[trigger] before@.insert(key.model(), value@).contains_key(model) implies after@.contains_key(
            model,
        ) by {
            if model == key.model() {
                after.lemma_lookup(at);
            } else {
                let i = before.key_models().index_of(model);
                assert(before.key_models()[i] == model);
                if i < at {
                    after.lemma_lookup(i);
                } else {
                    assert(after.entries@[i + 1].0 == before.entries@[i].0);
                    after.lemma_lookup(i + 1);
                }
            }
        }
        assert(after@ =~= before@.insert(key.model(), value@));
    }

    proof fn lemma_updated(before: &Self, after: &Self, key: K, value: V, at: int)
        requires
            before.wf(),
            0 <= at < before.entries@.len(),
            after.entries@ == before.entries@.update(at, (key, value)),
            key.model() == before.key_models()[at],
        ensures
            after.wf(),
            after@ == before@.insert(key.model(), value@),
            after.key_models() == before.key_models(),
    {
        before.lemma_lookup(at);
        assert(after.key_models() =~= before.key_models());
        assert forall|model: K::Model| #[trigger] after@.contains_key(model) implies after@[model]
            == before@.insert(key.model(), value@)[model] by {
            let i = after.key_models().index_of(model);
            assert(after.key_models()[i] == model);
            after.lemma_lookup(i);
            before.lemma_lookup(i);
            if i != at {
                assert(model != key.model());
            }
        }
        assert(after@ =~= before@.insert(key.model(), value@));
    }

    proof fn lemma_removed(before: &Self, after: &Self, at: int)
        requires
            before.wf(),
            0 <= at < before.entries@.len(),
            after.entries@ == before.entries@.remove(at),
        ensures
            after.wf(),
            after@ == before@.remove(before.key_models()[at]),
            after.key_models() == before.key_models().remove(at),
    {
        let key = before.key_models()[at];
        let models = after.key_models();
        let old_models = before.key_models();
        assert(models =~= old_models.remove(at));
        assert forall|i: int, j: int| 0 <= i < j < models.len() implies K::before(
            models[i],
            models[j],
        ) by {
            let x = if i < at { i } else { i + 1 };
            let y = if j < at { j } else { j + 1 };
            assert(K::before(old_models[x], old_models[y]));
        }
        before.lemma_lookup(at);
        assert forall|model: K::Model| #[trigger] after@.contains_key(model) implies before@.remove(
            key,
        ).contains_key(model) && after@[model] == before@.remove(key)[model] by {
            let i = models.index_of(model);
            assert(models[i] == model);
            after.lemma_lookup(i);
            let x = if i < at { i } else { i + 1 };
            assert(before.entries@[x].0 == after.entries@[i].0);
            before.lemma_lookup(x);
        }
        assert forall|model: K::Model|
            #[trigger] before@.remove(key).contains_key(model) implies after@.contains_key(model) by {
            let x = old_models.index_of(model);
            assert(old_models[x] == model);
            assert(x != at);
            let i = if x < at { x } else { x - 1 };
            assert(after.entries@[i].0 == before.entries@[x].0);
            after.lemma_lookup(i);
        }
        assert(after@ =~= before@.remove(key));
    }

    /// Puts `value` under `key`, in place of what was there.
    pub fn insert(&mut self, key: K, value: V)
        ensures
            final(self)@ == old(self)@.insert(key.model(), value@),
    {
        proof {
            use_type_invariant(&*self);
        }
        let slot = self.find(&key);
        let ghost before = *self;
        let mut entries = Vec::new();
        core::mem::swap(&mut entries, &mut self.entries);
        match slot {
            Slot::Found(i) => {
                entries.set(i, (key, value));
                proof {
                    Self::lemma_updated(&before, &KeyMap { entries }, key, value, i as int);
                }
            },
            Slot::Vacant(i) => {
                entries.insert(i, (key, value));
                proof {
                    Self::lemma_inserted(&before, &KeyMap { entries }, key, value, i as int);
                }
            },
        }
        self.entries = entries;
    }

    /// Takes out what is under `key`.
    pub fn remove(&mut self, key: &K) -> (r: Option<V>)
        ensures
            final(self)@ == old(self)@.remove(key.model()),
            match r {
                Some(value) => old(self)@.contains_key(key.model()) && value@
                    == old(self)@[key.model()],
                None => !old(self)@.contains_key(key.model()),
            },
    {
        proof {
            use_type_invariant(&*self);
        }
        match self.find(key) {
            Slot::Found(i) => {
                let ghost before = *self;
                let mut entries = Vec::new();
                core::mem::swap(&mut entries, &mut self.entries);
                let removed = entries.remove(i);
                proof {
                    assert(before.key_models()[i as int] == key.model());
                    Self::lemma_removed(&before, &KeyMap { entries }, i as int);
                }
                self.entries = entries;
                Some(removed.1)
            },
            Slot::Vacant(_) => {
                assert(self@.remove(key.model()) =~= self@);
                None
            },
        }
    }

    pub fn clear(&mut self)
        ensures
            final(self)@ == Map::<K::Model, V::V>::empty(),
    {
        self.entries = Vec::new();
        assert(self@ =~= Map::<K::Model, V::V>::empty());
    }
}

/// Each key comes before all that follow it.
pub open spec fn strictly_ordered<K: OrderedKey>(keys: Seq<K::Model>) -> bool {
    forall|i: int, j: int| 0 <= i < j < keys.len() ==> K::before(#[trigger] keys[i], #[trigger] keys[j])
}

} // verus!
