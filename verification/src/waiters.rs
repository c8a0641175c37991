//! The requests of a turn that wait for an answer, each under its key.

use vstd::prelude::*;

verus! {

/// What a waiting request is found under: two keys are the same exactly if their views are.
pub trait WaiterKey: View + Sized {
    /// Tells whether two keys are the same.
    fn same(&self, other: &Self) -> (r: bool)
        ensures
            r == (self@ == other@),
    ;
}

impl WaiterKey for String {
    fn same(&self, other: &Self) -> (r: bool) {
        *self == *other
    }
}

/// An identifier that a server gave to a request of its own.
#[derive(Debug, PartialEq, Eq)]
pub enum RequestId {
    Number(i64),
    String(String),
}

/// The model of a [`RequestId`].
pub enum RequestIdModel {
    Number(i64),
    String(Seq<char>),
}

impl View for RequestId {
    type V = RequestIdModel;

    open spec fn view(&self) -> RequestIdModel {
        match *self {
            RequestId::Number(number) => RequestIdModel::Number(number),
            RequestId::String(text) => RequestIdModel::String(text@),
        }
    }
}

impl Clone for RequestId {
    fn clone(&self) -> (r: Self)
        ensures
            r@ == self@,
            r == *self,
    {
        match self {
            RequestId::Number(number) => RequestId::Number(*number),
            RequestId::String(text) => RequestId::String(text.clone()),
        }
    }
}

/// What an elicitation is found under: the server that asks, and its request.
#[derive(Debug, PartialEq, Eq)]
pub struct ElicitationKey {
    pub server_name: String,
    pub request_id: RequestId,
}

impl View for ElicitationKey {
    type V = (Seq<char>, RequestIdModel);

    open spec fn view(&self) -> (Seq<char>, RequestIdModel) {
        (self.server_name@, self.request_id@)
    }
}

impl WaiterKey for ElicitationKey {
    fn same(&self, other: &Self) -> (r: bool) {
        let same_id = match (&self.request_id, &other.request_id) {
            (RequestId::Number(a), RequestId::Number(b)) => *a == *b,
            (RequestId::String(a), RequestId::String(b)) => *a == *b,
            _ => false,
        };
        self.server_name == other.server_name && same_id
    }
}

/// The values that wait, at most one under each key.
pub struct WaiterMap<K: WaiterKey, V> {
    entries: Vec<(K, V)>,
}

/// Whether no two of the entries have the same key.
spec fn distinct_keys<K: WaiterKey, V>(entries: Seq<(K, V)>) -> bool {
    forall|i: int, j: int|
        0 <= i < j < entries.len() ==> (#[trigger] entries[i]).0@ != (#[trigger] entries[j]).0@
}

/// Whether there is an entry under `key` at `i`.
spec fn entry_at<K: WaiterKey, V>(entries: Seq<(K, V)>, key: K::V, i: int) -> bool {
    0 <= i < entries.len() && entries[i].0@ == key
}

/// The map that the entries make up.
spec fn entry_map<K: WaiterKey, V>(entries: Seq<(K, V)>) -> Map<K::V, V> {
    Map::new(
        |key: K::V| exists|i: int| entry_at(entries, key, i),
        |key: K::V| entries[choose|i: int| entry_at(entries, key, i)].1,
    )
}

proof fn lemma_lookup<K: WaiterKey, V>(entries: Seq<(K, V)>, i: int)
    requires
        distinct_keys(entries),
        0 <= i < entries.len(),
    ensures
        entry_map(entries).contains_pair(entries[i].0@, entries[i].1),
{
    assert(entry_at(entries, entries[i].0@, i));
}

/// Every key of the map is that of an entry.
proof fn lemma_keys_come_from_entries<K: WaiterKey, V>(entries: Seq<(K, V)>, key: K::V)
    ensures
        entry_map(entries).contains_key(key) <==> exists|i: int|
            0 <= i < entries.len() && (#[trigger] entries[i]).0@ == key,
{
    assert(forall|i: int|
        0 <= i < entries.len() && (#[trigger] entries[i]).0@ == key ==> entry_at(entries, key, i));
}

proof fn lemma_push<K: WaiterKey, V>(entries: Seq<(K, V)>, key: K, value: V)
    requires
        distinct_keys(entries),
        !entry_map(entries).contains_key(key@),
    ensures
        distinct_keys(entries.push((key, value))),
        entry_map(entries.push((key, value))) == entry_map(entries).insert(key@, value),
{
    let pushed = entries.push((key, value));
    assert forall|i: int| 0 <= i < entries.len() implies (#[trigger] entries[i]).0@ != key@ by {
        assert(!entry_at(entries, key@, i));
    }
    lemma_lookup(pushed, entries.len() as int);
    let expected = entry_map(entries).insert(key@, value);
    assert forall|k: K::V|
        #![trigger entry_map(pushed).dom().contains(k)]
        #![trigger expected.dom().contains(k)]
        #![trigger entry_map(pushed)[k]]
        #![trigger expected[k]]
        entry_map(pushed).dom().contains(k) == expected.dom().contains(k) && (expected.dom().contains(
            k,
        ) ==> entry_map(pushed)[k] == expected[k]) by {
        if entry_map(entries).contains_key(k) {
            let i = choose|i: int| entry_at(entries, k, i);
            lemma_lookup(entries, i);
            lemma_lookup(pushed, i);
        } else if entry_map(pushed).contains_key(k) {
            let i = choose|i: int| entry_at(pushed, k, i);
            assert(!entry_at(entries, k, i));
        }
    }
    assert(entry_map(pushed) =~= expected);
}

proof fn lemma_swap_remove<K: WaiterKey, V>(entries: Seq<(K, V)>, at: int)
    requires
        distinct_keys(entries),
        0 <= at < entries.len(),
    ensures
        distinct_keys(entries.update(at, entries.last()).drop_last()),
        entry_map(entries.update(at, entries.last()).drop_last()) == entry_map(entries).remove(
            entries[at].0@,
        ),
{
    let left = entries.update(at, entries.last()).drop_last();
    let key = entries[at].0@;
    let last = entries.len() - 1;
    let expected = entry_map(entries).remove(key);
    assert forall|k: K::V|
        #![trigger entry_map(left).dom().contains(k)]
        #![trigger expected.dom().contains(k)]
        #![trigger entry_map(left)[k]]
        #![trigger expected[k]]
        entry_map(left).dom().contains(k) == expected.dom().contains(k) && (expected.dom().contains(
            k,
        ) ==> entry_map(left)[k] == expected[k]) by {
        if entry_map(left).contains_key(k) {
            let i = choose|i: int| entry_at(left, k, i);
            lemma_lookup(left, i);
            lemma_lookup(
                entries,
                if i == at {
                    last
                } else {
                    i
                },
            );
        } else if expected.contains_key(k) {
            let i = choose|i: int| entry_at(entries, k, i);
            lemma_lookup(
                left,
                if i == last {
                    at
                } else {
                    i
                },
            );
        }
    }
    assert(entry_map(left) =~= expected);
}

impl<K: WaiterKey, V> View for WaiterMap<K, V> {
    type V = Map<K::V, V>;

    closed spec fn view(&self) -> Map<K::V, V> {
        entry_map(self.entries@)
    }
}

impl<K: WaiterKey, V> WaiterMap<K, V> {
    #[verifier::type_invariant]
    spec fn invariant_holds(self) -> bool {
        distinct_keys(self.entries@)
    }

    /// A map without entries.
    pub fn new() -> (r: Self)
        ensures
            r@ == Map::<K::V, V>::empty(),
    {
        let r = WaiterMap { entries: Vec::new() };
        assert(r@ =~= Map::<K::V, V>::empty());
        r
    }

    /// Puts `value` under `key`, and hands back what was there.
    pub fn insert(&mut self, key: K, value: V) -> (r: Option<V>)
        ensures
            final(self)@ == old(self)@.insert(key@, value),
            r == old(self)@.get(key@),
    {
        let r = self.remove(&key);
        proof {
            use_type_invariant(&*self);
        }
        let mut entries: Vec<(K, V)> = Vec::new();
        std::mem::swap(&mut entries, &mut self.entries);
        proof {
            lemma_push(entries@, key, value);
        }
        entries.push((key, value));
        self.entries = entries;
        assert(old(self)@.remove(key@).insert(key@, value) =~= old(self)@.insert(key@, value));
        r
    }

    /// Takes away what is under `key`, and hands it back.
    pub fn remove(&mut self, key: &K) -> (r: Option<V>)
        ensures
            final(self)@ == old(self)@.remove(key@),
            r == old(self)@.get(key@),
    {
        proof {
            use_type_invariant(&*self);
        }
        let mut i: usize = 0;
        while i < self.entries.len()
            invariant
                self.entries@ == old(self).entries@,
                distinct_keys(self.entries@),
                i <= self.entries@.len(),
                forall|j: int| 0 <= j < i ==> (#[trigger] self.entries@[j]).0@ != key@,
            decreases self.entries@.len() - i,
        {
            if self.entries[i].0.same(key) {
                proof {
                    lemma_lookup(self.entries@, i as int);
                    lemma_swap_remove(self.entries@, i as int);
                }
                let mut entries: Vec<(K, V)> = Vec::new();
                std::mem::swap(&mut entries, &mut self.entries);
                let (_, value) = entries.swap_remove(i);
                self.entries = entries;
                return Some(value);
            }
            i = i + 1;
        }
        assert(forall|j: int| !entry_at(self.entries@, key@, j));
        assert(self@.remove(key@) =~= self@);
        None
    }

    /// Drops every entry.
    pub fn clear(&mut self)
        ensures
            final(self)@ == Map::<K::V, V>::empty(),
    {
        self.entries = Vec::new();
        assert(self@ =~= Map::<K::V, V>::empty());
    }
}

/// Law: what was put under a key is handed back when it is taken away, and only once; what waits
/// under other keys is not touched by either.
pub proof fn waiter_is_handed_back_once<K, V>(waiters: Map<K, V>, key: K, value: V, other: K)
    ensures
        waiters.insert(key, value).get(key) == Some(value),
        waiters.insert(key, value).remove(key).get(key) is None,
        other != key ==> waiters.insert(key, value).get(other) == waiters.get(other),
        other != key ==> waiters.remove(key).get(other) == waiters.get(other),
{
}

/// Law: taking away what was put under a free key leaves everything as it was, and of two values
/// put under one key the second counts.
pub proof fn removal_undoes_insertion<K, V>(waiters: Map<K, V>, key: K, first: V, second: V)
    ensures
        !waiters.contains_key(key) ==> waiters.insert(key, first).remove(key) == waiters,
        waiters.insert(key, first).insert(key, second) == waiters.insert(key, second),
{
    assert(waiters.insert(key, first).insert(key, second) =~= waiters.insert(key, second));
    if !waiters.contains_key(key) {
        assert(waiters.insert(key, first).remove(key) =~= waiters);
    }
}

/// Law: once everything is cleared, nothing waits under any key.
pub proof fn nothing_waits_after_clearing<K, V>(key: K)
    ensures
        Map::<K, V>::empty().get(key) is None,
{
}

/// Law: two elicitations are found under the same key exactly if the server is the same and the
/// request is; a number and a text are never the same request.
pub proof fn elicitations_differ_by_server_and_request(
    first: ElicitationKey,
    second: ElicitationKey,
)
    ensures
        first@ == second@ <==> first.server_name@ == second.server_name@ && match (
            first.request_id,
            second.request_id,
        ) {
            (RequestId::Number(a), RequestId::Number(b)) => a == b,
            (RequestId::String(a), RequestId::String(b)) => a@ == b@,
            _ => false,
        },
        first@.0 == first.server_name@,
        first@.1 == first.request_id@,
{
}

/// Law: the model of a request is its number or the characters of its text.
pub proof fn request_models_show_what_is_written(number: i64, text: String)
    ensures
        (RequestId::Number(number))@ == RequestIdModel::Number(number),
        (RequestId::String(text))@ == RequestIdModel::String(text@),
{
}

} // verus!
