//! The adapter that lets a synchronous foreign callback supply the headers of
//! each request: a single-slot guard rejects overlapping calls, and the
//! headers the callback returns are keyed by interned names.
use crate::intern::{intern_header_key, lemma_index_of_unique, HeaderKeyCache};
use crate::outcome::IngestError;
use std::sync::atomic::{AtomicBool, Ordering};
use vstd::prelude::*;

verus! {

/// One header as the callback hands it over; a null key or value is `None`.
#[derive(Debug)]
pub struct CHeader {
    pub key: Option<String>,
    pub value: Option<String>,
}

/// What one call of the callback returned: headers, or an error message.
#[derive(Debug)]
pub struct CHeaders {
    pub headers: Vec<CHeader>,
    pub error_message: Option<String>,
}

/// The headers that `raw` yields: an entry without a key or without a value
/// is skipped, and a later entry for a name replaces an earlier one.
pub open spec fn header_map(raw: Seq<CHeader>) -> Map<Seq<char>, Seq<char>>
    decreases raw.len(),
{
    if raw.len() == 0 {
        Map::empty()
    } else {
        let m = header_map(raw.drop_last());
        match (raw.last().key, raw.last().value) {
            (Some(k), Some(v)) => m.insert(k@, v@),
            _ => m,
        }
    }
}

/// `out` lists the entries of `m`, each name once.
pub open spec fn lists_map(out: Seq<(&'static str, String)>, m: Map<Seq<char>, Seq<char>>) -> bool {
    &&& forall|a: int, b: int| 0 <= a < b < out.len() ==> out[a].0@ != out[b].0@
    &&& forall|j: int|
        0 <= j < out.len() ==> m.contains_key(#[trigger] out[j].0@) && m[out[j].0@] == out[j].1@
    &&& forall|k: Seq<char>| #[trigger]
        m.contains_key(k) ==> exists|j: int| 0 <= j < out.len() && out[j].0@ == k
}

/// Each name in `out` is the canonical string that `cache` holds for it.
pub open spec fn interned_in(out: Seq<(&'static str, String)>, cache: HeaderKeyCache) -> bool {
    forall|j: int|
        0 <= j < out.len() ==> cache@.contains(#[trigger] out[j].0@) && out[j].0 == cache.slots()[cache@.index_of(
            out[j].0@,
        )]
}

/// `after` holds every slot of `before`, unchanged.
pub open spec fn keeps_slots(before: HeaderKeyCache, after: HeaderKeyCache) -> bool {
    &&& before.slots().len() <= after.slots().len()
    &&& forall|i: int| 0 <= i < before.slots().len() ==> after.slots()[i] == before.slots()[i]
}

/// What the guard decides, given whether it was already held when a call
/// tried to take it: a held guard rejects the call.
pub open spec fn guard_decision(was_held: bool) -> Result<(), IngestError> {
    if was_held {
        Err(IngestError::ConcurrentCallbackInvocation)
    } else {
        Ok(())
    }
}

/// Decides whether a call may go ahead, given whether the guard was already
/// held when the call took it.
pub fn guard_entry(was_held: bool) -> (r: Result<(), IngestError>)
    ensures
        r == guard_decision(was_held),
{
    if was_held {
        Err(IngestError::ConcurrentCallbackInvocation)
    } else {
        Ok(())
    }
}

/// A call goes ahead exactly when it finds the guard free. So two calls one
/// after the other both go ahead, since the first releases the guard before
/// the second takes it; and a call that begins while another still holds the
/// guard is rejected as a concurrent invocation.
pub proof fn lemma_guard_sequential_and_overlapping()
    ensures
        guard_decision(false) is Ok,
        guard_decision(true) == Err::<(), IngestError>(IngestError::ConcurrentCallbackInvocation),
{
}

/// The outcome of one callback result: its error message as an error, or
/// its headers.
pub fn headers_or_error(raw: CHeaders) -> (r: Result<Vec<CHeader>, IngestError>)
    ensures
        match raw.error_message {
            Some(m) => r == Err::<Vec<CHeader>, IngestError>(IngestError::HeadersProvider(m)),
            None => r == Ok::<Vec<CHeader>, IngestError>(raw.headers),
        },
{
    match raw.error_message {
        Some(m) => Err(IngestError::HeadersProvider(m)),
        None => Ok(raw.headers),
    }
}

/// Sets the value of `key` in `out`: replaces the value of the entry with an
/// equal name, if there is one, and otherwise appends a new entry.
fn upsert(out: &mut Vec<(&'static str, String)>, key: &'static str, value: String) -> (r: Option<
    usize,
>)
    ensures
        match r {
            Some(j) => j < old(out)@.len() && old(out)@[j as int].0@ == key@ && final(out)@
                == old(out)@.update(j as int, (old(out)@[j as int].0, value)),
            None => (forall|j: int| 0 <= j < old(out)@.len() ==> old(out)@[j].0@ != key@)
                && final(out)@ == old(out)@.push((key, value)),
        },
{
    let n = out.len();
    let mut i: usize = 0;
    while i < n
        invariant
            n == out@.len(),
            i <= n,
            *out == *old(out),
            forall|j: int| 0 <= j < i ==> out@[j].0@ != key@,
        decreases n - i,
    {
        if out[i].0.eq(key) {
            out[i].1 = value;
            return Some(i);
        }
        i = i + 1;
    }
    out.push((key, value));
    None
}

/// The headers that `raw` yields, each under the canonical string that
/// `cache` holds for its name (interning names not seen before).
pub fn collect_headers(cache: &mut HeaderKeyCache, raw: &Vec<CHeader>) -> (out: Vec<
    (&'static str, String),
>)
    requires
        old(cache).wf(),
    ensures
        final(cache).wf(),
        keeps_slots(*old(cache), *final(cache)),
        lists_map(out@, header_map(raw@)),
        interned_in(out@, *final(cache)),
{
    let mut out: Vec<(&'static str, String)> = Vec::new();
    let n = raw.len();
    let mut i: usize = 0;
    while i < n
        invariant
            n == raw@.len(),
            i <= n,
            cache.wf(),
            keeps_slots(*old(cache), *cache),
            lists_map(out@, header_map(raw@.take(i as int))),
            interned_in(out@, *cache),
        decreases n - i,
    {
        let ghost before = out@;
        let ghost m = header_map(raw@.take(i as int));
        assert(raw@.take(i + 1).drop_last() =~= raw@.take(i as int));
        assert(raw@.take(i + 1).last() == raw@[i as int]);
        match (&raw[i].key, &raw[i].value) {
            (Some(k), Some(v)) => {
                let ghost cache_before = *cache;
                let name = intern_header_key(cache, k.clone());
                proof {
                    // names already listed keep their slots
                    assert forall|j: int| 0 <= j < before.len() implies cache@.contains(
                        #[trigger] before[j].0@,
                    ) && before[j].0 == cache.slots()[cache@.index_of(before[j].0@)] by {
                        let p = cache_before@.index_of(before[j].0@);
                        cache_before@.index_of_first_ensures(before[j].0@);
                        assert(cache@[p] == cache_before@[p]) by {
                            assert(cache.slots()[p] == cache_before.slots()[p]);
                        }
                        assert(cache@.contains(before[j].0@));
                        lemma_index_of_unique(cache@, p);
                    }
                    cache@.index_of_first_ensures(name@);
                    assert(cache@.contains(name@)) by {
                        if !cache_before@.contains(k@) {
                            assert(cache@[cache_before@.len() as int] == k@);
                        }
                    }
                }
                let slot = upsert(&mut out, name, v.clone());
                proof {
                    let m2 = m.insert(k@, v@);
                    assert(header_map(raw@.take(i + 1)) == m2);
                    match slot {
                        Some(s) => {
                            assert forall|a: int, b: int| 0 <= a < b < out@.len() implies out@[a].0@
                                != out@[b].0@ by {
                                assert(out@[a].0 == before[a].0 && out@[b].0 == before[b].0);
                            }
                            assert forall|j: int| 0 <= j < out@.len() implies m2.contains_key(
                                #[trigger] out@[j].0@,
                            ) && m2[out@[j].0@] == out@[j].1@ by {
                                if j != s {
                                    assert(out@[j] == before[j]);
                                    assert(m.contains_key(before[j].0@));
                                }
                            }
                            assert forall|key: Seq<char>| #[trigger]
                                m2.contains_key(key) implies exists|j: int|
                                0 <= j < out@.len() && out@[j].0@ == key by {
                                if key != k@ {
                                    let j = choose|j: int| 0 <= j < before.len() && before[j].0@ == key;
                                    assert(out@[j].0 == before[j].0);
                                } else {
                                    assert(out@[s as int].0@ == key);
                                }
                            }
                            assert forall|j: int| 0 <= j < out@.len() implies cache@.contains(
                                #[trigger] out@[j].0@,
                            ) && out@[j].0 == cache.slots()[cache@.index_of(out@[j].0@)] by {
                                assert(out@[j].0 == before[j].0);
                            }
                        },
                        None => {
                            assert forall|a: int, b: int| 0 <= a < b < out@.len() implies out@[a].0@
                                != out@[b].0@ by {
                                assert(out@[a] == before[a]);
                                if b < before.len() {
                                    assert(out@[b] == before[b]);
                                }
                            }
                            assert forall|j: int| 0 <= j < out@.len() implies m2.contains_key(
                                #[trigger] out@[j].0@,
                            ) && m2[out@[j].0@] == out@[j].1@ by {
                                if j < before.len() {
                                    assert(out@[j] == before[j]);
                                    assert(m.contains_key(before[j].0@));
                                }
                            }
                            assert forall|key: Seq<char>| #[trigger]
                                m2.contains_key(key) implies exists|j: int|
                                0 <= j < out@.len() && out@[j].0@ == key by {
                                if key != k@ {
                                    let j = choose|j: int| 0 <= j < before.len() && before[j].0@ == key;
                                    assert(out@[j] == before[j]);
                                } else {
                                    assert(out@[before.len() as int].0@ == key);
                                }
                            }
                            assert forall|j: int| 0 <= j < out@.len() implies cache@.contains(
                                #[trigger] out@[j].0@,
                            ) && out@[j].0 == cache.slots()[cache@.index_of(out@[j].0@)] by {
                                if j < before.len() {
                                    assert(out@[j] == before[j]);
                                } else {
                                    assert(out@[j].0 == name);
                                }
                            }
                        },
                    }
                }
            },
            _ => {
                proof {
                    assert(header_map(raw@.take(i + 1)) == m);
                }
            },
        }
        i = i + 1;
    }
    assert(raw@.take(n as int) =~= raw@);
    out
}

/// Wraps a synchronous callback that supplies headers, and guards it against
/// overlapping calls.
pub struct CallbackHeadersProvider<F: Fn() -> CHeaders> {
    callback: F,
    in_use: AtomicBool,
}

impl<F: Fn() -> CHeaders> CallbackHeadersProvider<F> {
    /// Whether the callback may be called at any time.
    pub closed spec fn callable(&self) -> bool {
        self.callback.requires(())
    }

    /// The callback may return `raw`.
    pub closed spec fn may_return(&self, raw: CHeaders) -> bool {
        self.callback.ensures((), raw)
    }

    /// An adapter around `callback`, with the guard free.
    pub fn new(callback: F) -> (r: Self)
        requires
            callback.requires(()),
        ensures
            r.callable(),
            forall|raw: CHeaders| r.may_return(raw) <==> callback.ensures((), raw),
    {
        CallbackHeadersProvider { callback, in_use: AtomicBool::new(false) }
    }

    /// Calls the callback, unless another call holds the guard, in which case
    /// it fails at once with the rejection of `guard_decision`
    /// (`ConcurrentCallbackInvocation`), without calling the callback. The guard is
    /// released as soon as the callback returns; an error message from the
    /// callback becomes a `HeadersProvider` error.
    pub fn invoke(&self) -> (r: Result<Vec<CHeader>, IngestError>)
        requires
            self.callable(),
        ensures
            (r matches Err(e) && guard_decision(true) == Err::<(), IngestError>(e)) || exists|
                raw: CHeaders,
            | self.may_return(raw) && r == match raw.error_message {
                Some(m) => Err::<Vec<CHeader>, IngestError>(IngestError::HeadersProvider(m)),
                None => Ok::<Vec<CHeader>, IngestError>(raw.headers),
            },
    {
        let was_held = self.in_use.swap(true, Ordering::SeqCst);
        if let Err(e) = guard_entry(was_held) {
            return Err(e);
        }
        let raw = (self.callback)();
        self.in_use.store(false, Ordering::SeqCst);
        let ghost returned = raw;
        let r = headers_or_error(raw);
        assert(self.may_return(returned));
        r
    }

    /// The headers for one request: the callback's headers, keyed by the
    /// canonical strings of `cache`, or the error of `invoke`.
    pub fn get_headers(&self, cache: &mut HeaderKeyCache) -> (r: Result<
        Vec<(&'static str, String)>,
        IngestError,
    >)
        requires
            self.callable(),
            old(cache).wf(),
        ensures
            final(cache).wf(),
            keeps_slots(*old(cache), *final(cache)),
            (r matches Err(e) && guard_decision(true) == Err::<(), IngestError>(e)) || exists|
                raw: CHeaders,
            |
                self.may_return(raw) && match raw.error_message {
                    Some(m) => r == Err::<Vec<(&'static str, String)>, IngestError>(
                        IngestError::HeadersProvider(m),
                    ),
                    None => r is Ok && lists_map(r->Ok_0@, header_map(raw.headers@)) && interned_in(
                        r->Ok_0@,
                        *final(cache),
                    ),
                },
    {
        match self.invoke() {
            Err(e) => Err(e),
            Ok(raw) => Ok(collect_headers(cache, &raw)),
        }
    }
}

} // verus!
