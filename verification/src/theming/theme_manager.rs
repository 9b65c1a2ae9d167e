//! The store of themed properties.

use vstd::prelude::*;
use vstd::string::StringExecFns;

verus! {

/// The key under which the property named `name` of the theme key `key` is stored.
pub open spec fn storage_key(key: Seq<char>, name: Seq<char>) -> Seq<char> {
    key + seq![':'] + name
}

/// A store's content when nothing was set.
pub open spec fn no_entries() -> Map<Seq<char>, u64> {
    Map::empty()
}

/// Whether `s` holds no colon.
pub open spec fn colon_free(s: Seq<char>) -> bool {
    forall|i: int| 0 <= i < s.len() ==> s[i] != ':'
}

/// Two properties share a storage key only if they are the same property of
/// the same theme key, as long as property names hold no colon.
pub proof fn lemma_storage_key_injective(k1: Seq<char>, n1: Seq<char>, k2: Seq<char>, n2: Seq<char>)
    requires
        colon_free(n1),
        colon_free(n2),
        storage_key(k1, n1) == storage_key(k2, n2),
    ensures
        k1 == k2,
        n1 == n2,
{
    let s1 = storage_key(k1, n1);
    let s2 = storage_key(k2, n2);
    assert(s1.len() == k1.len() + 1 + n1.len());
    assert(s2.len() == k2.len() + 1 + n2.len());
    assert(s1[k1.len() as int] == ':');
    assert(s2[k2.len() as int] == ':');
    if k1.len() < k2.len() {
        assert(s1[k2.len() as int] == n1[k2.len() - k1.len() - 1]);
        assert(false);
    }
    if k2.len() < k1.len() {
        assert(s2[k1.len() as int] == n2[k1.len() - k2.len() - 1]);
        assert(false);
    }
    assert forall|i: int| 0 <= i < k1.len() implies k1[i] == k2[i] by {
        assert(s1[i] == k1[i]);
        assert(s2[i] == k2[i]);
    }
    assert(k1 =~= k2);
    assert forall|i: int| 0 <= i < n1.len() implies n1[i] == n2[i] by {
        assert(s1[k1.len() + 1 + i] == n1[i]);
        assert(s2[k2.len() + 1 + i] == n2[i]);
    }
    assert(n1 =~= n2);
}

/// Builds the key under which a property is stored.
pub fn make_storage_key(key: &str, property_name: &str) -> (stored: String)
    ensures
        stored@ == storage_key(key@, property_name@),
{
    let mut stored = String::from_str(key);
    stored.append(":");
    stored.append(property_name);
    proof {
        reveal_strlit(":");
        assert(":"@ =~= seq![':']);
    }
    stored
}

/// The hash map that holds the handles of the stored properties.
///
/// Trusted: a `bevy_utils::HashMap`, which is hashbrown's `HashMap` with a
/// hasher of its own. Verus does not look inside it; what it holds is known
/// only through `store_entries` and the three wrappers below.
#[verifier::external_body]
pub struct PropertyStore {
    map: bevy_utils::HashMap<String, u64>,
}

/// What a store holds: the handle stored under each storage key. It does not
/// depend on how the map hashes or orders its keys.
pub uninterp spec fn store_entries(store: PropertyStore) -> Map<Seq<char>, u64>;

/// Makes an empty store.
///
/// Trusted: calls `HashMap::default` of hashbrown, which makes a map without entries.
#[verifier::external_body]
fn store_new() -> (store: PropertyStore)
    ensures
        store_entries(store) == no_entries(),
{
    PropertyStore { map: bevy_utils::HashMap::default() }
}

/// Looks up a storage key.
///
/// Trusted: calls `HashMap::get` of hashbrown, which gives the value stored
/// under a key that is equal to `stored`, and nothing where there is none.
#[verifier::external_body]
fn store_get(store: &PropertyStore, stored: &str) -> (handle: Option<u64>)
    ensures
        handle == if store_entries(*store).contains_key(stored@) {
            Some(store_entries(*store)[stored@])
        } else {
            None
        },
{
    store.map.get(stored).copied()
}

/// Stores a handle under a storage key.
///
/// Trusted: calls `HashMap::insert` of hashbrown, which puts the value under
/// the key, in place of the one that an equal key had, and gives that one back.
#[verifier::external_body]
fn store_insert(store: &mut PropertyStore, stored: String, handle: u64) -> (previous: Option<u64>)
    ensures
        store_entries(*final(store)) == store_entries(*old(store)).insert(stored@, handle),
        previous == if store_entries(*old(store)).contains_key(stored@) {
            Some(store_entries(*old(store))[stored@])
        } else {
            None
        },
{
    store.map.insert(stored, handle)
}

/// Holds the themed properties, each under its theme key and its property name.
///
/// A property's value is known to the manager by a handle that the host gives it.
pub struct ThemeManager {
    property_store: PropertyStore,
}

impl View for ThemeManager {
    type V = Map<Seq<char>, u64>;

    /// The handle stored under each storage key.
    closed spec fn view(&self) -> Map<Seq<char>, u64> {
        store_entries(self.property_store)
    }
}

impl ThemeManager {
    /// The handle of the property `name` of theme key `key`, if one is set.
    pub open spec fn property(self, key: Seq<char>, name: Seq<char>) -> Option<u64> {
        if self@.contains_key(storage_key(key, name)) {
            Some(self@[storage_key(key, name)])
        } else {
            None
        }
    }

    /// A manager without properties.
    pub fn new() -> (theme: ThemeManager)
        ensures
            theme@ == no_entries(),
    {
        ThemeManager { property_store: store_new() }
    }

    /// The handle of the property `property_name` of theme key `key`, if one is set.
    pub fn get_property(&self, key: &str, property_name: &str) -> (handle: Option<u64>)
        ensures
            handle == self.property(key@, property_name@),
    {
        let stored = make_storage_key(key, property_name);
        store_get(&self.property_store, stored.as_str())
    }

    /// Sets the property `property_name` of theme key `key` to `handle`, in
    /// place of the handle that it had, if any.
    pub fn set_property(&mut self, key: &str, property_name: &str, handle: u64) -> (theme: &mut Self)
        ensures
            theme@ == old(self)@.insert(storage_key(key@, property_name@), handle),
            *final(self) == *final(theme),
    {
        let stored = make_storage_key(key, property_name);
        store_insert(&mut self.property_store, stored, handle);
        self
    }
}

/// A property that was set is found again, and setting it leaves every other
/// property of every theme key as it was.
pub proof fn lemma_set_then_get(
    before: ThemeManager,
    after: ThemeManager,
    key: Seq<char>,
    name: Seq<char>,
    handle: u64,
    other_key: Seq<char>,
    other_name: Seq<char>,
)
    requires
        after@ == before@.insert(storage_key(key, name), handle),
        colon_free(name),
        colon_free(other_name),
    ensures
        after.property(key, name) == Some(handle),
        other_key != key || other_name != name ==> after.property(other_key, other_name) == before.property(
            other_key,
            other_name,
        ),
{
    if other_key != key || other_name != name {
        if storage_key(other_key, other_name) == storage_key(key, name) {
            lemma_storage_key_injective(other_key, other_name, key, name);
        }
    }
}

} // verus!
