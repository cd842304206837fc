//! The key-value store: a map from key text to value text, read with a
//! sentinel for absent keys.
use vstd::prelude::*;
use vstd::hash_map::StringHashMap;
use vstd::string::StringExecFns;

verus! {

/// The text that [`get`] returns for a key with no binding.
pub const NIL: &'static str = "NIL";

/// A map from key text to value text; each key has at most one value.
pub struct Store {
    map: StringHashMap<String>,
}

impl View for Store {
    type V = Map<Seq<char>, Seq<char>>;

    closed spec fn view(&self) -> Map<Seq<char>, Seq<char>> {
        self.map@.map_values(|v: String| v@)
    }
}

impl Store {
    /// An empty store.
    pub fn new() -> (r: Store)
        ensures
            r@ == Map::<Seq<char>, Seq<char>>::empty(),
    {
        let r = Store { map: StringHashMap::new() };
        assert(r@ =~= Map::<Seq<char>, Seq<char>>::empty());
        r
    }
}

/// What a read of `k` yields: its value, or the sentinel where it has none.
pub open spec fn lookup(m: Map<Seq<char>, Seq<char>>, k: Seq<char>) -> Seq<char> {
    if m.contains_key(k) {
        m[k]
    } else {
        NIL@
    }
}

/// Binds `k` to `v`, replacing any earlier value of `k`.
pub fn set(store: &mut Store, k: &str, v: &str)
    ensures
        final(store)@ == old(store)@.insert(k@, v@),
{
    store.map.insert(String::from_str(k), String::from_str(v));
    assert(final(store)@ =~= old(store)@.insert(k@, v@));
}

/// The value bound to `k`, or [`NIL`] where `k` has none.
pub fn get<'a>(store: &'a Store, k: &str) -> (r: &'a str)
    ensures
        r@ == lookup(store@, k@),
{
    match store.map.get(k) {
        Some(v) => v.as_str(),
        None => NIL,
    }
}


/// After `k` is bound to `v`, reading `k` yields `v`.
pub proof fn law_get_after_set(m: Map<Seq<char>, Seq<char>>, k: Seq<char>, v: Seq<char>)
    ensures
        lookup(m.insert(k, v), k) == v,
{
}

/// In a fresh store every key reads as the sentinel.
pub proof fn law_fresh_store_reads_nil(k: Seq<char>)
    ensures
        lookup(Map::empty(), k) == NIL@,
{
}

/// Of two writes to one key, the later one is what a read yields.
pub proof fn law_last_write_wins(
    m: Map<Seq<char>, Seq<char>>,
    k: Seq<char>,
    v1: Seq<char>,
    v2: Seq<char>,
)
    ensures
        lookup(m.insert(k, v1).insert(k, v2), k) == v2,
{
}

} // verus!
