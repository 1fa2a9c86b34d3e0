//! Interning of header names: each distinct name is promoted once to a
//! string that lives for the rest of the process, and later requests for an
//! equal name get that same string back.
use vstd::prelude::*;

verus! {

/// Relies on `str`'s `==`: two string slices are equal exactly when they hold
/// the same characters.
pub assume_specification[ <str as PartialEq>::eq ](a: &str, b: &str) -> (r: bool)
    ensures
        r == (a@ == b@),
;

/// Relies on `String::leak`: the returned slice holds the string's characters
/// and is never freed.
#[verifier::external_body]
fn leak_key(key: String) -> (r: &'static str)
    ensures
        r@ == key@,
{
    key.leak()
}

/// The names after `key` is interned into a cache that holds `keys`.
pub open spec fn interned(keys: Seq<Seq<char>>, key: Seq<char>) -> Seq<Seq<char>> {
    if keys.contains(key) {
        keys
    } else {
        keys.push(key)
    }
}

/// The canonical strings handed out so far, one per distinct name, in the
/// order in which the names were first seen.
pub struct HeaderKeyCache {
    keys: Vec<&'static str>,
}

impl View for HeaderKeyCache {
    type V = Seq<Seq<char>>;

    closed spec fn view(&self) -> Seq<Seq<char>> {
        self.keys@.map_values(|k: &'static str| k@)
    }
}

impl HeaderKeyCache {
    /// The canonical strings themselves, by position.
    pub closed spec fn slots(&self) -> Seq<&'static str> {
        self.keys@
    }

    /// No name is held twice, and each slot holds its name.
    pub open spec fn wf(&self) -> bool {
        &&& self@.no_duplicates()
        &&& self.slots().len() == self@.len()
        &&& forall|i: int| 0 <= i < self@.len() ==> #[trigger] self.slots()[i]@ == self@[i]
    }

    /// An empty cache.
    pub fn new() -> (r: Self)
        ensures
            r@ == Seq::<Seq<char>>::empty(),
            r.wf(),
    {
        HeaderKeyCache { keys: Vec::new() }
    }

    /// How many distinct names are held.
    pub fn len(&self) -> (r: usize)
        ensures
            r == self@.len(),
    {
        self.keys.len()
    }

    proof fn lemma_view(&self)
        ensures
            self.slots().len() == self@.len(),
            forall|i: int| 0 <= i < self@.len() ==> #[trigger] self.slots()[i]@ == self@[i],
    {
    }
}

/// Returns the canonical string for `key`: the one already held where an
/// equal name was interned before, in which case the cache is unchanged, or
/// else `key` itself, promoted to live for the rest of the process and added
/// in a new slot. Slots that were there before are never changed.
pub fn intern_header_key(cache: &mut HeaderKeyCache, key: String) -> (r: &'static str)
    requires
        old(cache).wf(),
    ensures
        final(cache).wf(),
        r@ == key@,
        final(cache)@ == interned(old(cache)@, key@),
        r == final(cache).slots()[final(cache)@.index_of(key@)],
        old(cache)@.contains(key@) ==> *final(cache) == *old(cache),
        !old(cache)@.contains(key@) ==> final(cache).slots() == old(cache).slots().push(r),
{
    proof {
        cache.lemma_view();
    }
    let n = cache.keys.len();
    let mut i: usize = 0;
    while i < n
        invariant
            n == cache.keys@.len(),
            i <= n,
            cache.wf(),
            forall|j: int| 0 <= j < i ==> #[trigger] cache@[j] != key@,
        decreases n - i,
    {
        let existing: &'static str = cache.keys[i];
        if existing.eq(key.as_str()) {
            proof {
                assert(cache@[i as int] == key@);
                assert(cache@.contains(key@));
                cache@.index_of_first_ensures(key@);
                lemma_index_of_unique(cache@, i as int);
            }
            return existing;
        }
        i = i + 1;
    }
    let ghost before = cache@;
    let leaked = leak_key(key);
    cache.keys.push(leaked);
    proof {
        assert(!before.contains(leaked@)) by {
            if before.contains(leaked@) {
                let j = choose|j: int| 0 <= j < before.len() && before[j] == leaked@;
                assert(before[j] != leaked@);
            }
        }
        assert(cache@ =~= before.push(leaked@));
        cache.lemma_view();
        assert forall|a: int, b: int| 0 <= a < b < cache@.len() implies cache@[a] != cache@[b] by {
            if b < before.len() {
                assert(before.no_duplicates());
            } else {
                assert(before[a] == cache@[a]);
            }
        }
        assert(cache@[before.len() as int] == leaked@);
        cache@.index_of_first_ensures(leaked@);
        lemma_index_of_unique(cache@, before.len() as int);
    }
    leaked
}

/// Interning `a` and then `b`: interning `a` a second time changes nothing,
/// `a` keeps the slot it got first, and where `a` and `b` differ they occupy
/// distinct slots. Since `intern_header_key` returns the string in the slot of
/// its name and never changes an existing slot, interning an equal name twice
/// returns the very same string, and two distinct names get distinct strings.
pub proof fn lemma_intern_identity(keys: Seq<Seq<char>>, a: Seq<char>, b: Seq<char>)
    requires
        keys.no_duplicates(),
    ensures
        interned(interned(keys, a), a) == interned(keys, a),
        interned(interned(keys, a), b).index_of(a) == interned(keys, a).index_of(a),
        a != b ==> interned(interned(keys, a), b).index_of(a) != interned(
            interned(keys, a),
            b,
        ).index_of(b),
{
    let k1 = interned(keys, a);
    let k2 = interned(k1, b);
    lemma_interned_no_duplicates(keys, a);
    lemma_interned_no_duplicates(k1, b);
    assert(k1.contains(a)) by {
        if !keys.contains(a) {
            assert(k1[keys.len() as int] == a);
        }
    }
    assert(k2.contains(a)) by {
        let j = choose|j: int| 0 <= j < k1.len() && k1[j] == a;
        if !k1.contains(b) {
            assert(k2[j] == a);
        }
    }
    assert(k2.contains(b)) by {
        if !k1.contains(b) {
            assert(k2[k1.len() as int] == b);
        }
    }
    k1.index_of_first_ensures(a);
    k2.index_of_first_ensures(a);
    k2.index_of_first_ensures(b);
    let i1 = k1.index_of(a);
    let i2 = k2.index_of(a);
    assert(k2[i1] == a);
    lemma_index_of_unique(k2, i1);
}

proof fn lemma_interned_no_duplicates(keys: Seq<Seq<char>>, key: Seq<char>)
    requires
        keys.no_duplicates(),
    ensures
        interned(keys, key).no_duplicates(),
{
    if !keys.contains(key) {
        let k = keys.push(key);
        assert forall|a: int, b: int| 0 <= a < b < k.len() implies k[a] != k[b] by {
            if b == keys.len() {
                assert(keys[a] == k[a]);
            }
        }
    }
}

/// In a sequence without duplicates, the position of an element is the one
/// that `index_of` reports.
pub proof fn lemma_index_of_unique(s: Seq<Seq<char>>, i: int)
    requires
        s.no_duplicates(),
        0 <= i < s.len(),
    ensures
        s.index_of(s[i]) == i,
{
    s.index_of_first_ensures(s[i]);
    let k = s.index_of(s[i]);
    assert(s.contains(s[i]));
    if k != i {
        assert(s[k] == s[i]);
    }
}

} // verus!
