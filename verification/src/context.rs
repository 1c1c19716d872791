use vstd::prelude::*;

use crate::permissions::Connection;
use crate::permissions::User;
use std::sync::Arc;

verus! {

/// The shapes of request-scoped data the store can carry: the runtime
/// type tag a retrieval is checked against.
#[derive(Debug, Clone, Copy, PartialEq, Eq, Structural)]
pub enum DataKind {
    User,
    Text,
    Int,
    Flag,
}

/// A runtime-type-tagged box for one request-scoped value.
#[derive(Debug)]
pub enum DataValue {
    User(User),
    Text(String),
    Int(i64),
    Flag(bool),
}

impl DataValue {
    /// The tag a retrieval of this value is checked against.
    pub open spec fn spec_kind(&self) -> DataKind {
        match self {
            DataValue::User(_) => DataKind::User,
            DataValue::Text(_) => DataKind::Text,
            DataValue::Int(_) => DataKind::Int,
            DataValue::Flag(_) => DataKind::Flag,
        }
    }

    #[verifier::when_used_as_spec(spec_kind)]
    pub fn kind(&self) -> (k: DataKind)
        ensures
            k == self.spec_kind(),
    {
        match self {
            DataValue::User(_) => DataKind::User,
            DataValue::Text(_) => DataKind::Text,
            DataValue::Int(_) => DataKind::Int,
            DataValue::Flag(_) => DataKind::Flag,
        }
    }
}

/// What a context store is mathematically: two string-keyed partial maps,
/// one of shared connection handles, one of owned data values.
pub ghost struct ContextView {
    pub connections: Map<Seq<char>, Connection>,
    pub data: Map<Seq<char>, DataValue>,
}

/// The map an association list denotes; a later entry shadows an earlier
/// one under the same key.
spec fn data_map_of(entries: Seq<(String, DataValue)>) -> Map<Seq<char>, DataValue>
    decreases entries.len(),
{
    if entries.len() == 0 {
        Map::empty()
    } else {
        data_map_of(entries.drop_last()).insert(entries.last().0@, entries.last().1)
    }
}

spec fn conn_map_of(entries: Seq<(String, Arc<Connection>)>) -> Map<Seq<char>, Connection>
    decreases entries.len(),
{
    if entries.len() == 0 {
        Map::empty()
    } else {
        conn_map_of(entries.drop_last()).insert(entries.last().0@, *entries.last().1)
    }
}

/// Entries at or after position `i` that never match `key` do not affect
/// what the association list says about `key`.
proof fn lemma_data_map_beyond(entries: Seq<(String, DataValue)>, key: Seq<char>, i: int)
    requires
        0 <= i <= entries.len(),
        forall|j: int| i <= j < entries.len() ==> entries[j].0@ != key,
    ensures
        data_map_of(entries).contains_key(key) == data_map_of(entries.take(i)).contains_key(key),
        data_map_of(entries).contains_key(key) ==> data_map_of(entries)[key] == data_map_of(
            entries.take(i),
        )[key],
    decreases entries.len() - i,
{
    if i == entries.len() {
        assert(entries.take(i) =~= entries);
    } else {
        lemma_data_map_beyond(entries, key, i + 1);
        assert(entries.take(i + 1).drop_last() =~= entries.take(i));
        assert(entries.take(i + 1).last() == entries[i]);
    }
}

proof fn lemma_conn_map_beyond(entries: Seq<(String, Arc<Connection>)>, key: Seq<char>, i: int)
    requires
        0 <= i <= entries.len(),
        forall|j: int| i <= j < entries.len() ==> entries[j].0@ != key,
    ensures
        conn_map_of(entries).contains_key(key) == conn_map_of(entries.take(i)).contains_key(key),
        conn_map_of(entries).contains_key(key) ==> conn_map_of(entries)[key] == conn_map_of(
            entries.take(i),
        )[key],
    decreases entries.len() - i,
{
    if i == entries.len() {
        assert(entries.take(i) =~= entries);
    } else {
        lemma_conn_map_beyond(entries, key, i + 1);
        assert(entries.take(i + 1).drop_last() =~= entries.take(i));
        assert(entries.take(i + 1).last() == entries[i]);
    }
}

/// What retrieval of data answers over the store's model: the value under
/// `key`, if one is there and carries the tag `kind`.
pub open spec fn data_lookup(
    data: Map<Seq<char>, DataValue>,
    key: Seq<char>,
    kind: DataKind,
) -> Option<DataValue> {
    if data.contains_key(key) && data[key].spec_kind() == kind {
        Some(data[key])
    } else {
        None
    }
}

/// What retrieval of a connection answers over the store's model: the
/// handle under `name`, if one is there.
pub open spec fn connection_lookup(
    connections: Map<Seq<char>, Connection>,
    name: Seq<char>,
) -> Option<Connection> {
    if connections.contains_key(name) {
        Some(connections[name])
    } else {
        None
    }
}

/// Law (data round trip): after storing `value` under `key`, retrieval
/// by `key` answers exactly `value` when asked with the stored value's
/// tag and nothing when asked with any other tag, and retrieval under
/// any other key is untouched by the store.
pub proof fn lemma_store_round_trip(
    data: Map<Seq<char>, DataValue>,
    key: Seq<char>,
    value: DataValue,
    kind: DataKind,
    other: Seq<char>,
)
    ensures
        data_lookup(data.insert(key, value), key, kind) == (if kind == value.spec_kind() {
            Some(value)
        } else {
            None::<DataValue>
        }),
        other != key ==> data_lookup(data.insert(key, value), other, kind) == data_lookup(
            data,
            other,
            kind,
        ),
{
}

/// Law (connection round trip): after storing a handle under `name`,
/// retrieval by `name` answers a handle to exactly that connection, and
/// retrieval under any other name is untouched by the store.
pub proof fn lemma_connection_round_trip(
    connections: Map<Seq<char>, Connection>,
    name: Seq<char>,
    connection: Connection,
    other: Seq<char>,
)
    ensures
        connection_lookup(connections.insert(name, connection), name) == Some(connection),
        other != name ==> connection_lookup(connections.insert(name, connection), other)
            == connection_lookup(connections, other),
{
}

/// Relies on std's `Arc::clone`: the returned handle refers to the same
/// value as the argument.
#[verifier::external_body]
fn arc_clone<T>(handle: &Arc<T>) -> (r: Arc<T>)
    ensures
        r == *handle,
{
    Arc::clone(handle)
}

/// The per-request, string-keyed store of request-scoped values and
/// shared resource handles. It is populated before dispatch, read during
/// authorization checks, and discarded with the operation.
pub struct Context {
    connections: Vec<(String, Arc<Connection>)>,
    data: Vec<(String, DataValue)>,
}

impl View for Context {
    type V = ContextView;

    closed spec fn view(&self) -> ContextView {
        ContextView {
            connections: conn_map_of(self.connections@),
            data: data_map_of(self.data@),
        }
    }
}

impl Context {
    /// An empty store: no connections, no data.
    pub fn new() -> (ctx: Self)
        ensures
            ctx@.connections == Map::<Seq<char>, Connection>::empty(),
            ctx@.data == Map::<Seq<char>, DataValue>::empty(),
    {
        Context { connections: Vec::new(), data: Vec::new() }
    }

    /// Stores a shared handle under `name`, shadowing any prior handle
    /// there; clones already handed out are unaffected.
    pub fn add_connection(&mut self, name: &str, connection: Connection)
        ensures
            final(self)@.connections == old(self)@.connections.insert(name@, connection),
            final(self)@.data == old(self)@.data,
    {
        let owned: String = name.to_string();
        self.connections.push((owned, Arc::new(connection)));
        proof {
            assert(self.connections@.drop_last() =~= old(self).connections@);
        }
    }

    /// The shared handle under `name`, if one is there; absence is a
    /// normal, checkable outcome, never a panic.
    pub fn get_connection(&self, name: &str) -> (r: Option<Arc<Connection>>)
        ensures
            match r {
                Some(c) => connection_lookup(self@.connections, name@) == Some(*c),
                None => connection_lookup(self@.connections, name@) is None,
            },
    {
        let ghost entries = self.connections@;
        let mut i: usize = self.connections.len();
        while i > 0
            invariant
                i <= entries.len(),
                entries == self.connections@,
                forall|j: int| i <= j < entries.len() ==> entries[j].0@ != name@,
            decreases i,
        {
            i = i - 1;
            if crate::str_eq(self.connections[i].0.as_str(), name) {
                proof {
                    lemma_conn_map_beyond(entries, name@, i as int + 1);
                    assert(entries.take(i as int + 1).drop_last() =~= entries.take(i as int));
                    assert(entries.take(i as int + 1).last() == entries[i as int]);
                }
                return Some(arc_clone(&self.connections[i].1));
            }
        }
        proof {
            lemma_conn_map_beyond(entries, name@, 0);
            assert(entries.take(0) =~= Seq::<(String, Arc<Connection>)>::empty());
        }
        None
    }

    /// Stores an owned value under `key`, shadowing any prior value there.
    pub fn insert(&mut self, key: &str, value: DataValue)
        ensures
            final(self)@.data == old(self)@.data.insert(key@, value),
            final(self)@.connections == old(self)@.connections,
    {
        let owned: String = key.to_string();
        self.data.push((owned, value));
        proof {
            assert(self.data@.drop_last() =~= old(self).data@);
        }
    }

    /// A reference to the value under `key`, if one is there and its tag
    /// matches `kind`; absence and mismatch both come back as `None`.
    pub fn get(&self, key: &str, kind: DataKind) -> (r: Option<&DataValue>)
        ensures
            match r {
                Some(v) => data_lookup(self@.data, key@, kind) == Some(*v),
                None => data_lookup(self@.data, key@, kind) is None,
            },
    {
        let ghost entries = self.data@;
        let mut i: usize = self.data.len();
        while i > 0
            invariant
                i <= entries.len(),
                entries == self.data@,
                forall|j: int| i <= j < entries.len() ==> entries[j].0@ != key@,
            decreases i,
        {
            i = i - 1;
            if crate::str_eq(self.data[i].0.as_str(), key) {
                proof {
                    lemma_data_map_beyond(entries, key@, i as int + 1);
                    assert(entries.take(i as int + 1).drop_last() =~= entries.take(i as int));
                    assert(entries.take(i as int + 1).last() == entries[i as int]);
                }
                let v = &self.data[i].1;
                if v.kind() == kind {
                    return Some(v);
                } else {
                    return None;
                }
            }
        }
        proof {
            lemma_data_map_beyond(entries, key@, 0);
            assert(entries.take(0) =~= Seq::<(String, DataValue)>::empty());
        }
        None
    }
}

} // verus!
