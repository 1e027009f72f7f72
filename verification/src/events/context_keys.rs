//! Remembers which contexts were seen lately, so that the full context is
//! sent once and not with every event.

use vstd::prelude::*;

verus! {

/// A context that was seen: its kind and key, and when it was last seen
/// (milliseconds).
pub struct Seen {
    pub kind: Seq<char>,
    pub key: Seq<char>,
    pub seen: u64,
}

/// Whether a context last seen at `seen` still counts as known at `now`: less
/// than `interval` milliseconds have passed.
pub open spec fn fresh(seen: u64, now: u64, interval: u64) -> bool {
    now < seen + interval
}

/// The test that picks the contexts that still count as known at `now`.
pub open spec fn fresh_test(now: u64, interval: u64) -> spec_fn(Seen) -> bool {
    |entry: Seen| fresh(entry.seen, now, interval)
}

/// A cache as plain mathematical values: its limit, and the contexts it holds
/// from the one seen longest ago to the one seen last.
pub struct CacheView {
    pub capacity: nat,
    pub entries: Seq<Seen>,
}

impl CacheView {
    /// Whether the cache holds the context of the given kind and key.
    pub open spec fn holds(self, kind: Seq<char>, key: Seq<char>) -> bool {
        exists|i: int|
            0 <= i < self.entries.len() && (#[trigger] self.entries[i]).kind == kind
                && self.entries[i].key == key
    }

    /// The place of the context of the given kind and key.
    pub open spec fn place_of(self, kind: Seq<char>, key: Seq<char>) -> int {
        choose|i: int|
            0 <= i < self.entries.len() && (#[trigger] self.entries[i]).kind == kind
                && self.entries[i].key == key
    }

    /// The cache keeps within its limit, which is at least one, and holds no
    /// context twice.
    pub open spec fn well_formed(self) -> bool {
        &&& self.capacity >= 1
        &&& self.entries.len() <= self.capacity
        &&& forall|i: int, j: int|
            0 <= i < j < self.entries.len() ==> !((#[trigger] self.entries[i]).kind == (
            #[trigger] self.entries[j]).kind && self.entries[i].key == self.entries[j].key)
    }

    /// The cache after the context of the given kind and key is seen at `now`,
    /// and whether the context must be sent in full.
    ///
    /// A context that the cache holds moves to the end with `now` as the time
    /// it was last seen, and must be sent if it was not fresh. A context that
    /// the cache does not hold is added at the end and must be sent; if the
    /// cache was full, the context seen longest ago leaves.
    pub open spec fn notice(self, kind: Seq<char>, key: Seq<char>, now: u64, interval: u64) -> (
        CacheView,
        bool,
    ) {
        let entry = Seen { kind, key, seen: now };
        if self.holds(kind, key) {
            let place = self.place_of(kind, key);
            (
                CacheView {
                    capacity: self.capacity,
                    entries: self.entries.remove(place).push(entry),
                },
                !fresh(self.entries[place].seen, now, interval),
            )
        } else if self.entries.len() >= self.capacity && self.entries.len() > 0 {
            (CacheView { capacity: self.capacity, entries: self.entries.skip(1).push(entry) }, true)
        } else {
            (CacheView { capacity: self.capacity, entries: self.entries.push(entry) }, true)
        }
    }

    /// The cache without the contexts that are no longer fresh at `now`.
    pub open spec fn purge(self, now: u64, interval: u64) -> CacheView {
        CacheView {
            capacity: self.capacity,
            entries: self.entries.filter(fresh_test(now, interval)),
        }
    }
}

/// A context that the cache holds.
pub struct SeenContext {
    pub kind: String,
    pub key: String,
    pub seen: u64,
}

impl View for SeenContext {
    type V = Seen;

    open spec fn view(&self) -> Seen {
        Seen { kind: self.kind@, key: self.key@, seen: self.seen }
    }
}

/// What a list of cache entries holds.
pub open spec fn entries_view(entries: Seq<SeenContext>) -> Seq<Seen> {
    entries.map_values(|entry: SeenContext| entry@)
}

/// A bounded cache of the contexts seen lately. When it is full, the context
/// seen longest ago makes room for a new one.
pub struct ContextKeysCache {
    capacity: usize,
    entries: Vec<SeenContext>,
}

impl View for ContextKeysCache {
    type V = CacheView;

    closed spec fn view(&self) -> CacheView {
        CacheView { capacity: self.capacity as nat, entries: entries_view(self.entries@) }
    }
}

/// In a well-formed cache, each context stands at the place found for it.
pub proof fn lemma_place_of_held(cache: CacheView, i: int)
    requires
        cache.well_formed(),
        0 <= i < cache.entries.len(),
    ensures
        cache.holds(cache.entries[i].kind, cache.entries[i].key),
        cache.place_of(cache.entries[i].kind, cache.entries[i].key) == i,
{
    let found = cache.place_of(cache.entries[i].kind, cache.entries[i].key);
    assert(0 <= found < cache.entries.len() && cache.entries[found].kind == cache.entries[i].kind
        && cache.entries[found].key == cache.entries[i].key);
    if found < i {
        assert(!(cache.entries[found].kind == cache.entries[i].kind && cache.entries[found].key
            == cache.entries[i].key));
    } else if i < found {
        assert(!(cache.entries[i].kind == cache.entries[found].kind && cache.entries[i].key
            == cache.entries[found].key));
    }
}

/// Seeing a context keeps a well-formed cache well-formed, and leaves the
/// context at the end of it with the time it was seen.
pub proof fn lemma_notice_keeps_well_formed(
    cache: CacheView,
    kind: Seq<char>,
    key: Seq<char>,
    now: u64,
    interval: u64,
)
    requires
        cache.well_formed(),
    ensures
        cache.notice(kind, key, now, interval).0.well_formed(),
        cache.notice(kind, key, now, interval).0.entries.len() > 0,
        cache.notice(kind, key, now, interval).0.entries.last() == (Seen { kind, key, seen: now }),
        cache.notice(kind, key, now, interval).1 == (!cache.holds(kind, key) || !fresh(
            cache.entries[cache.place_of(kind, key)].seen,
            now,
            interval,
        )),
{
    let after = cache.notice(kind, key, now, interval).0;
    let entry = Seen { kind, key, seen: now };
    if cache.holds(kind, key) {
        let place = cache.place_of(kind, key);
        let rest = cache.entries.remove(place);
        assert forall|i: int, j: int| 0 <= i < j < after.entries.len() implies !((
        #[trigger] after.entries[i]).kind == (#[trigger] after.entries[j]).kind
            && after.entries[i].key == after.entries[j].key) by {
            let from_i = if i < place {
                i
            } else {
                i + 1
            };
            assert(after.entries[i] == cache.entries[from_i]);
            if j < rest.len() {
                let from_j = if j < place {
                    j
                } else {
                    j + 1
                };
                assert(after.entries[j] == cache.entries[from_j]);
                assert(!(cache.entries[from_i].kind == cache.entries[from_j].kind
                    && cache.entries[from_i].key == cache.entries[from_j].key));
            } else {
                assert(after.entries[j] == entry);
                if from_i < place {
                    assert(!(cache.entries[from_i].kind == cache.entries[place].kind
                        && cache.entries[from_i].key == cache.entries[place].key));
                } else {
                    assert(!(cache.entries[place].kind == cache.entries[from_i].kind
                        && cache.entries[place].key == cache.entries[from_i].key));
                }
            }
        }
    } else {
        let rest = if cache.entries.len() >= cache.capacity && cache.entries.len() > 0 {
            cache.entries.skip(1)
        } else {
            cache.entries
        };
        let shift: int = if cache.entries.len() >= cache.capacity && cache.entries.len() > 0 {
            1
        } else {
            0
        };
        assert forall|i: int, j: int| 0 <= i < j < after.entries.len() implies !((
        #[trigger] after.entries[i]).kind == (#[trigger] after.entries[j]).kind
            && after.entries[i].key == after.entries[j].key) by {
            assert(after.entries[i] == cache.entries[i + shift]);
            if j < rest.len() {
                assert(after.entries[j] == cache.entries[j + shift]);
                assert(!(cache.entries[i + shift].kind == cache.entries[j + shift].kind
                    && cache.entries[i + shift].key == cache.entries[j + shift].key));
            } else {
                assert(after.entries[j] == entry);
                assert(!(cache.entries[i + shift].kind == kind && cache.entries[i + shift].key
                    == key));
            }
        }
    }
}

impl ContextKeysCache {
    #[verifier::type_invariant]
    spec fn valid(self) -> bool {
        self@.well_formed()
    }

    /// An empty cache that holds up to `capacity` contexts, and one context
    /// where `capacity` is zero.
    pub fn new(capacity: usize) -> (cache: Self)
        ensures
            cache@.well_formed(),
            cache@.entries == Seq::<Seen>::empty(),
            cache@.capacity == if capacity == 0 {
                1
            } else {
                capacity as nat
            },
    {
        let cache = ContextKeysCache {
            capacity: if capacity == 0 {
                1
            } else {
                capacity
            },
            entries: Vec::new(),
        };
        assert(cache@.entries =~= Seq::<Seen>::empty());
        cache
    }

    /// How many contexts the cache holds.
    pub fn len(&self) -> (len: usize)
        ensures
            len == self@.entries.len(),
            len <= self@.capacity,
            self@.well_formed(),
    {
        proof {
            use_type_invariant(self);
        }
        self.entries.len()
    }

    /// Where the context of the given kind and key stands among `entries`, if
    /// it is there.
    fn find(entries: &Vec<SeenContext>, kind: &String, key: &String) -> (place: Option<usize>)
        ensures
            match place {
                Some(i) => i < entries@.len() && entries@[i as int].kind@ == kind@
                    && entries@[i as int].key@ == key@,
                None => forall|j: int|
                    0 <= j < entries@.len() ==> !((#[trigger] entries@[j]).kind@ == kind@
                        && entries@[j].key@ == key@),
            },
    {
        let mut i: usize = 0;
        while i < entries.len()
            invariant
                i <= entries.len(),
                forall|j: int|
                    0 <= j < i ==> !((#[trigger] entries@[j]).kind@ == kind@ && entries@[j].key@
                        == key@),
            decreases entries.len() - i,
        {
            if entries[i].kind == *kind && entries[i].key == *key {
                return Some(i);
            }
            i += 1;
        }
        None
    }

    /// Records that the context of the given kind and key is seen at `now`,
    /// and says whether it must be sent in full: it was not in the cache, or
    /// it was last seen `interval` milliseconds ago or longer.
    pub fn notice(&mut self, kind: &String, key: &String, now: u64, interval: u64) -> (send: bool)
        ensures
            (final(self)@, send) == old(self)@.notice(kind@, key@, now, interval),
            final(self)@.well_formed(),
    {
        proof {
            use_type_invariant(&*self);
            lemma_notice_keeps_well_formed(old(self)@, kind@, key@, now, interval);
        }
        let ghost before = self@;
        let ghost goal = before.notice(kind@, key@, now, interval);
        let capacity = self.capacity;
        let mut entries: Vec<SeenContext> = Vec::new();
        std::mem::swap(&mut self.entries, &mut entries);
        assert(entries_view(entries@) == before.entries);
        let send = match Self::find(&entries, kind, key) {
            Some(i) => {
                proof {
                    assert(before.entries[i as int] == entries@[i as int]@);
                    lemma_place_of_held(before, i as int);
                }
                let known = entries.remove(i);
                let expired = !(now < known.seen || now - known.seen < interval);
                assert(entries_view(entries@) =~= before.entries.remove(i as int));
                expired
            },
            None => {
                proof {
                    if before.holds(kind@, key@) {
                        let w = before.place_of(kind@, key@);
                        assert(before.entries[w] == entries@[w]@);
                    }
                }
                if entries.len() >= capacity && entries.len() > 0 {
                    entries.remove(0);
                    assert(entries_view(entries@) =~= before.entries.skip(1));
                }
                true
            },
        };
        let ghost rest = entries_view(entries@);
        entries.push(SeenContext { kind: kind.clone(), key: key.clone(), seen: now });
        assert(entries_view(entries@) =~= rest.push(Seen { kind: kind@, key: key@, seen: now }));
        assert(entries_view(entries@) == goal.0.entries);
        self.entries = entries;
        send
    }

    /// Forgets the contexts that were last seen `interval` milliseconds before
    /// `now` or longer ago.
    pub fn purge(&mut self, now: u64, interval: u64)
        ensures
            final(self)@ == old(self)@.purge(now, interval),
            final(self)@.well_formed(),
    {
        proof {
            use_type_invariant(&*self);
            lemma_purge_keeps_well_formed(old(self)@, now, interval);
        }
        let ghost before = self@;
        let ghost test = fresh_test(now, interval);
        let mut entries: Vec<SeenContext> = Vec::new();
        std::mem::swap(&mut self.entries, &mut entries);
        let mut kept: Vec<SeenContext> = Vec::new();
        let mut i: usize = 0;
        assert(before.entries.take(0).filter(test) =~= Seq::empty()) by {
            reveal(Seq::filter);
        }
        while i < entries.len()
            invariant
                i <= entries.len(),
                test == fresh_test(now, interval),
                entries_view(entries@) == before.entries,
                entries_view(kept@) =~= before.entries.take(i as int).filter(test),
            decreases entries.len() - i,
        {
            let entry = &entries[i];
            proof {
                assert(before.entries.take(i as int + 1) =~= before.entries.take(i as int).push(
                    entry@,
                ));
                before.entries.take(i as int).lemma_filter_push(entry@, test);
            }
            if now < entry.seen || now - entry.seen < interval {
                let ghost so_far = entries_view(kept@);
                kept.push(
                    SeenContext { kind: entry.kind.clone(), key: entry.key.clone(), seen: entry.seen },
                );
                assert(entries_view(kept@) =~= so_far.push(entry@));
            }
            i += 1;
        }
        assert(before.entries.take(i as int) =~= before.entries);
        self.entries = kept;
    }
}

/// Forgetting contexts keeps a well-formed cache well-formed, and forgets no
/// context that is still fresh.
pub proof fn lemma_purge_keeps_well_formed(cache: CacheView, now: u64, interval: u64)
    requires
        cache.well_formed(),
    ensures
        cache.purge(now, interval).well_formed(),
        forall|i: int|
            0 <= i < cache.entries.len() && fresh((#[trigger] cache.entries[i]).seen, now, interval)
                ==> cache.purge(now, interval).entries.contains(cache.entries[i]),
    decreases cache.entries.len(),
{
    let test = fresh_test(now, interval);
    let after = cache.purge(now, interval);
    cache.entries.lemma_filter_len(test);
    assert forall|i: int|
        0 <= i < cache.entries.len() && fresh(
            (#[trigger] cache.entries[i]).seen,
            now,
            interval,
        ) implies after.entries.contains(cache.entries[i]) by {
        cache.entries.lemma_filter_contains(test, i);
    }
    if cache.entries.len() > 0 {
        let shorter = CacheView { capacity: cache.capacity, entries: cache.entries.drop_last() };
        let last = cache.entries.last();
        assert(shorter.well_formed()) by {
            assert forall|i: int, j: int| 0 <= i < j < shorter.entries.len() implies !((
            #[trigger] shorter.entries[i]).kind == (#[trigger] shorter.entries[j]).kind
                && shorter.entries[i].key == shorter.entries[j].key) by {
                assert(shorter.entries[i] == cache.entries[i]);
                assert(shorter.entries[j] == cache.entries[j]);
            }
        }
        lemma_purge_keeps_well_formed(shorter, now, interval);
        assert(shorter.entries.push(last) =~= cache.entries);
        shorter.entries.lemma_filter_push(last, test);
        let kept = shorter.entries.filter(test);
        if test(last) {
            assert forall|i: int, j: int| 0 <= i < j < after.entries.len() implies !((
            #[trigger] after.entries[i]).kind == (#[trigger] after.entries[j]).kind
                && after.entries[i].key == after.entries[j].key) by {
                assert(after.entries[i] == kept[i]);
                if j < kept.len() {
                    assert(after.entries[j] == kept[j]);
                } else {
                    assert(kept.contains(kept[i]));
                    shorter.entries.lemma_filter_contains_rev(test, kept[i]);
                    let w = choose|w: int|
                        0 <= w < shorter.entries.len() && shorter.entries[w] == kept[i];
                    assert(cache.entries[w] == kept[i]);
                    assert(!((#[trigger] cache.entries[w]).kind == (
                    #[trigger] cache.entries[cache.entries.len() - 1]).kind && cache.entries[w].key
                        == cache.entries[cache.entries.len() - 1].key));
                }
            }
        }
    }
}

/// A context seen twice is sent in full the second time exactly when
/// `interval` milliseconds or more lie between the two times, whether or not
/// the cache was purged in between; and a context that the cache does not hold
/// is sent in full the first time. So within the interval a context is sent
/// once, and after it once more.
pub proof fn lemma_sent_once_per_interval(
    cache: CacheView,
    kind: Seq<char>,
    key: Seq<char>,
    first: u64,
    between: u64,
    second: u64,
    interval: u64,
)
    requires
        cache.well_formed(),
        first <= between <= second,
    ensures
        !cache.holds(kind, key) ==> cache.notice(kind, key, first, interval).1,
        cache.notice(kind, key, first, interval).0.notice(kind, key, second, interval).1 == (second
            - first >= interval),
        cache.notice(kind, key, first, interval).0.purge(between, interval).notice(
            kind,
            key,
            second,
            interval,
        ).1 == (second - first >= interval),
{
    let entry = Seen { kind, key, seen: first };
    let once = cache.notice(kind, key, first, interval).0;
    lemma_notice_keeps_well_formed(cache, kind, key, first, interval);
    let end = once.entries.len() - 1;
    assert(once.entries[end] == entry);
    lemma_place_of_held(once, end);
    lemma_notice_keeps_well_formed(once, kind, key, second, interval);

    let purged = once.purge(between, interval);
    lemma_purge_keeps_well_formed(once, between, interval);
    lemma_notice_keeps_well_formed(purged, kind, key, second, interval);
    if purged.holds(kind, key) {
        let place = purged.place_of(kind, key);
        let held = purged.entries[place];
        assert(purged.entries.contains(held));
        once.entries.lemma_filter_contains_rev(fresh_test(between, interval), held);
        let w = choose|w: int| 0 <= w < once.entries.len() && once.entries[w] == held;
        lemma_place_of_held(once, w);
        assert(held == entry);
        once.entries.lemma_filter_pred(fresh_test(between, interval), place);
    } else {
        if fresh(first, between, interval) {
            assert(purged.entries.contains(once.entries[end]));
            let w = choose|w: int| 0 <= w < purged.entries.len() && purged.entries[w] == entry;
            assert(purged.entries[w].kind == kind && purged.entries[w].key == key);
        }
    }
}

} // verus!
