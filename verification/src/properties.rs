//! The properties of an event: a map from keys to JSON values, held as a list
//! in rising order of the keys, each key once.

use serde_json::Value;
use vstd::prelude::*;
use vstd::utf8::{encode_utf8, encode_utf8_decode_utf8};

verus! {

/// A JSON value of `serde_json`, carried through as it is: nothing is said of
/// what it holds.
#[verifier::external_type_specification]
#[verifier::external_body]
pub struct ExValue(Value);

/// The bytes that a key is stored as, by which keys are ordered.
pub open spec fn key_bytes(key: Seq<char>) -> Seq<u8> {
    encode_utf8(key)
}

/// Whether `a` comes before `b` in the order of the dictionary: at the first
/// place where they differ `a` has the smaller byte, or `a` ends there and `b`
/// goes on.
pub open spec fn bytes_before(a: Seq<u8>, b: Seq<u8>) -> bool
    decreases a.len(),
{
    if b.len() == 0 {
        false
    } else if a.len() == 0 {
        true
    } else if a[0] != b[0] {
        a[0] < b[0]
    } else {
        bytes_before(a.skip(1), b.skip(1))
    }
}

/// Whether the keys of `props` stand in rising order, so that none stands
/// twice.
pub open spec fn keys_rising(props: Seq<(String, Value)>) -> bool {
    forall|i: int, j: int|
        0 <= i < j < props.len() ==> bytes_before(
            key_bytes(#[trigger] props[i].0@),
            key_bytes(#[trigger] props[j].0@),
        )
}

/// Whether `key` stands in `props`.
pub open spec fn has_key(props: Seq<(String, Value)>, key: Seq<char>) -> bool {
    exists|i: int| 0 <= i < props.len() && #[trigger] props[i].0@ == key
}

/// A place in `props` where `key` stands, if it stands there at all.
pub open spec fn key_index(props: Seq<(String, Value)>, key: Seq<char>) -> int {
    choose|i: int| 0 <= i < props.len() && #[trigger] props[i].0@ == key
}

/// The map from each key of `props` to its value.
pub open spec fn props_map(props: Seq<(String, Value)>) -> Map<Seq<char>, Value> {
    Map::new(
        |key: Seq<char>| has_key(props, key),
        |key: Seq<char>| props[key_index(props, key)].1,
    )
}

/// Nothing comes before itself.
pub proof fn lemma_before_irreflexive(a: Seq<u8>)
    ensures
        !bytes_before(a, a),
    decreases a.len(),
{
    if a.len() > 0 {
        lemma_before_irreflexive(a.skip(1));
    }
}

/// What comes before something that comes before a third comes before the
/// third.
pub proof fn lemma_before_transitive(a: Seq<u8>, b: Seq<u8>, c: Seq<u8>)
    requires
        bytes_before(a, b),
        bytes_before(b, c),
    ensures
        bytes_before(a, c),
    decreases a.len(),
{
    if a.len() > 0 && a[0] == b[0] && b[0] == c[0] {
        lemma_before_transitive(a.skip(1), b.skip(1), c.skip(1));
    }
}

/// Keys in rising order are all different.
pub proof fn lemma_rising_keys_differ(props: Seq<(String, Value)>, i: int, j: int)
    requires
        keys_rising(props),
        0 <= i < props.len(),
        0 <= j < props.len(),
        props[i].0@ == props[j].0@,
    ensures
        i == j,
{
    lemma_before_irreflexive(key_bytes(props[i].0@));
}

/// Among keys in rising order, the map gives under each key the value that
/// stands beside it.
pub proof fn lemma_map_gives_value_beside_key(props: Seq<(String, Value)>, i: int)
    requires
        keys_rising(props),
        0 <= i < props.len(),
    ensures
        has_key(props, props[i].0@),
        props_map(props)[props[i].0@] == props[i].1,
{
    let key = props[i].0@;
    assert(has_key(props, key));
    lemma_rising_keys_differ(props, key_index(props, key), i);
}

/// How two keys stand to each other.
#[derive(Clone, Copy, Debug, PartialEq, Eq, Structural)]
pub enum KeyOrder {
    Before,
    Same,
    After,
}

/// How the key `a` stands to the key `b`.
pub fn key_order(a: &str, b: &str) -> (order: KeyOrder)
    ensures
        match order {
            KeyOrder::Before => bytes_before(key_bytes(a@), key_bytes(b@)),
            KeyOrder::Same => a@ == b@,
            KeyOrder::After => bytes_before(key_bytes(b@), key_bytes(a@)),
        },
{
    let x = a.as_bytes();
    let y = b.as_bytes();
    let mut i: usize = 0;
    proof {
        assert(x@.skip(0) =~= x@);
        assert(y@.skip(0) =~= y@);
    }
    while i < x.len() && i < y.len()
        invariant
            i <= x.len(),
            i <= y.len(),
            x@ == key_bytes(a@),
            y@ == key_bytes(b@),
            x@.subrange(0, i as int) == y@.subrange(0, i as int),
            bytes_before(x@, y@) == bytes_before(x@.skip(i as int), y@.skip(i as int)),
            bytes_before(y@, x@) == bytes_before(y@.skip(i as int), x@.skip(i as int)),
        decreases x.len() - i,
    {
        if x[i] < y[i] {
            return KeyOrder::Before;
        }
        if x[i] > y[i] {
            return KeyOrder::After;
        }
        proof {
            assert(x@.skip(i as int).skip(1) =~= x@.skip(i + 1));
            assert(y@.skip(i as int).skip(1) =~= y@.skip(i + 1));
            assert(x@.subrange(0, i + 1) =~= x@.subrange(0, i as int).push(x@[i as int]));
            assert(y@.subrange(0, i + 1) =~= y@.subrange(0, i as int).push(y@[i as int]));
        }
        i += 1;
    }
    if i < y.len() {
        KeyOrder::Before
    } else if i < x.len() {
        KeyOrder::After
    } else {
        proof {
            assert(x@ =~= x@.subrange(0, i as int));
            assert(y@ =~= y@.subrange(0, i as int));
            encode_utf8_decode_utf8(a@);
            encode_utf8_decode_utf8(b@);
        }
        KeyOrder::Same
    }
}

/// The properties of an event: whom it is about, and what else is known of
/// it, each such thing under a key of its own.
#[derive(Debug, PartialEq, Eq)]
pub struct Properties {
    distinct_id: String,
    props: Vec<(String, Value)>,
}

/// Properties as mathematics.
pub struct PropertiesView {
    pub distinct_id: Seq<char>,
    pub props: Map<Seq<char>, Value>,
}

impl View for Properties {
    type V = PropertiesView;

    closed spec fn view(&self) -> PropertiesView {
        PropertiesView { distinct_id: self.distinct_id@, props: props_map(self.props@) }
    }
}

/// Putting a key that stood at `at` in again changes its value and nothing
/// else.
proof fn lemma_set_is_insert(
    before: Seq<(String, Value)>,
    after: Seq<(String, Value)>,
    at: int,
    key: String,
    value: Value,
)
    requires
        keys_rising(before),
        0 <= at < before.len(),
        before[at].0@ == key@,
        after == before.update(at, (key, value)),
    ensures
        keys_rising(after),
        props_map(after) == props_map(before).insert(key@, value),
{
    assert forall|i: int| 0 <= i < after.len() implies (#[trigger] after[i]).0@ == before[i].0@ by {}
    assert(keys_rising(after));
    assert forall|k: Seq<char>| has_key(after, k) == (has_key(before, k) || k == key@) by {
        if has_key(after, k) {
            let j = choose|j: int| 0 <= j < after.len() && after[j].0@ == k;
            assert(before[j].0@ == k);
        }
        if has_key(before, k) {
            let j = choose|j: int| 0 <= j < before.len() && before[j].0@ == k;
            assert(after[j].0@ == k);
        }
        if k == key@ {
            assert(after[at].0@ == k);
        }
    }
    assert forall|k: Seq<char>| has_key(after, k) implies props_map(after)[k] == props_map(
        before,
    ).insert(key@, value)[k] by {
        let j = choose|j: int| 0 <= j < after.len() && after[j].0@ == k;
        lemma_map_gives_value_beside_key(after, j);
        if k == key@ {
            lemma_rising_keys_differ(after, j, at);
        } else {
            lemma_map_gives_value_beside_key(before, j);
        }
    }
    assert(props_map(after) =~= props_map(before).insert(key@, value));
}

/// Putting a new key in at its place in the order adds it and changes nothing
/// else.
proof fn lemma_place_is_insert(
    before: Seq<(String, Value)>,
    after: Seq<(String, Value)>,
    at: int,
    key: String,
    value: Value,
)
    requires
        keys_rising(before),
        0 <= at <= before.len(),
        forall|j: int| 0 <= j < at ==> bytes_before(key_bytes(before[j].0@), key_bytes(key@)),
        at < before.len() ==> bytes_before(key_bytes(key@), key_bytes(before[at].0@)),
        after == before.insert(at, (key, value)),
    ensures
        keys_rising(after),
        props_map(after) == props_map(before).insert(key@, value),
{
    assert forall|j: int| at <= j < before.len() implies bytes_before(
        key_bytes(key@),
        key_bytes(before[j].0@),
    ) by {
        if j > at {
            lemma_before_transitive(
                key_bytes(key@),
                key_bytes(before[at].0@),
                key_bytes(before[j].0@),
            );
        }
    }
    assert forall|i: int, j: int| 0 <= i < j < after.len() implies bytes_before(
        key_bytes(#[trigger] after[i].0@),
        key_bytes(#[trigger] after[j].0@),
    ) by {
        let i0 = if i < at { i } else { i - 1 };
        let j0 = if j < at { j } else { j - 1 };
        if i != at && j != at {
            assert(after[i] == before[i0]);
            assert(after[j] == before[j0]);
        } else if i == at {
            assert(after[j] == before[j0]);
        } else {
            assert(after[i] == before[i0]);
        }
    }
    assert forall|k: Seq<char>| has_key(after, k) == (has_key(before, k) || k == key@) by {
        if has_key(after, k) {
            let j = choose|j: int| 0 <= j < after.len() && after[j].0@ == k;
            if j < at {
                assert(before[j].0@ == k);
            } else if j > at {
                assert(before[j - 1].0@ == k);
            }
        }
        if has_key(before, k) {
            let j = choose|j: int| 0 <= j < before.len() && before[j].0@ == k;
            if j < at {
                assert(after[j].0@ == k);
            } else {
                assert(after[j + 1].0@ == k);
            }
        }
        if k == key@ {
            assert(after[at].0@ == k);
        }
    }
    assert forall|k: Seq<char>| has_key(after, k) implies props_map(after)[k] == props_map(
        before,
    ).insert(key@, value)[k] by {
        let j = choose|j: int| 0 <= j < after.len() && after[j].0@ == k;
        lemma_map_gives_value_beside_key(after, j);
        if k == key@ {
            lemma_rising_keys_differ(after, j, at);
        } else {
            let j0 = if j < at { j } else { j - 1 };
            assert(after[j] == before[j0]);
            lemma_map_gives_value_beside_key(before, j0);
        }
    }
    assert(props_map(after) =~= props_map(before).insert(key@, value));
}

impl Properties {
    #[verifier::type_invariant]
    spec fn well_formed(self) -> bool {
        keys_rising(self.props@)
    }

    /// The properties of an event about `distinct_id`, with nothing else known.
    pub fn new(distinct_id: &str) -> (properties: Self)
        ensures
            properties@ == (PropertiesView {
                distinct_id: distinct_id@,
                props: Map::<Seq<char>, Value>::empty(),
            }),
    {
        let properties = Properties { distinct_id: distinct_id.to_owned(), props: Vec::new() };
        assert(properties@.props =~= Map::<Seq<char>, Value>::empty());
        properties
    }

    /// Puts `value` under `key`, in place of what stood there.
    pub fn insert(&mut self, key: String, value: Value)
        ensures
            final(self)@ == (PropertiesView {
                props: old(self)@.props.insert(key@, value),
                ..old(self)@
            }),
    {
        proof {
            use_type_invariant(&*self);
        }
        let ghost before = self.props@;
        let mut props: Vec<(String, Value)> = Vec::new();
        std::mem::swap(&mut self.props, &mut props);
        let mut at: usize = 0;
        while at < props.len()
            invariant
                at <= props.len(),
                props@ == before,
                before == old(self).props@,
                self.distinct_id == old(self).distinct_id,
                self.props@.len() == 0,
                keys_rising(before),
                forall|j: int| 0 <= j < at ==> bytes_before(key_bytes(before[j].0@), key_bytes(key@)),
            decreases props.len() - at,
        {
            match key_order(props[at].0.as_str(), key.as_str()) {
                KeyOrder::Before => {
                    at += 1;
                },
                KeyOrder::Same => {
                    props.set(at, (key, value));
                    proof {
                        lemma_set_is_insert(before, props@, at as int, key, value);
                    }
                    self.props = props;
                    return ;
                },
                KeyOrder::After => {
                    props.insert(at, (key, value));
                    proof {
                        lemma_place_is_insert(before, props@, at as int, key, value);
                    }
                    self.props = props;
                    return ;
                },
            }
        }
        props.insert(at, (key, value));
        proof {
            lemma_place_is_insert(before, props@, at as int, key, value);
        }
        self.props = props;
    }

    /// Whom the event is about.
    pub fn distinct_id(&self) -> (id: &str)
        ensures
            id@ == self@.distinct_id,
    {
        self.distinct_id.as_str()
    }

    /// The keys with their values, each key once, in rising order of the keys.
    pub fn entries(&self) -> (entries: &Vec<(String, Value)>)
        ensures
            keys_rising(entries@),
            props_map(entries@) == self@.props,
    {
        proof {
            use_type_invariant(self);
        }
        &self.props
    }
}

} // verus!
