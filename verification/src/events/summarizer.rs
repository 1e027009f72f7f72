//! Counts flag evaluations over the time between two flushes.

use vstd::prelude::*;

verus! {

/// What a counter counts: the evaluations of one flag that gave one variation
/// (or none), either as the flag's own result or as the caller's default.
pub struct CounterKey {
    pub flag_key: Seq<char>,
    pub variation: Option<u64>,
    pub is_default: bool,
}

/// What a counter holds: how often its key was recorded, and the value and
/// flag version of the first recording.
pub struct CounterValue {
    pub count: nat,
    pub value: Seq<char>,
    pub version: Option<u64>,
}

/// A summary as plain mathematical values. `window` is the first and the last
/// time recorded, and is `None` when nothing was recorded.
pub struct SummaryView {
    pub window: Option<(u64, u64)>,
    pub counters: Map<CounterKey, CounterValue>,
}

/// One counter of a summary.
pub struct Counter {
    pub flag_key: String,
    pub variation: Option<u64>,
    pub is_default: bool,
    pub count: u64,
    /// The value that the evaluations gave, as JSON text.
    pub value: String,
    pub version: Option<u64>,
}

impl Counter {
    /// What this counter counts.
    pub open spec fn key(self) -> CounterKey {
        CounterKey {
            flag_key: self.flag_key@,
            variation: self.variation,
            is_default: self.is_default,
        }
    }

    /// What this counter holds.
    pub open spec fn value(self) -> CounterValue {
        CounterValue { count: self.count as nat, value: self.value@, version: self.version }
    }
}

/// Whether one of `counters` counts `key`.
pub open spec fn has_key(counters: Seq<Counter>, key: CounterKey) -> bool {
    exists|i: int| 0 <= i < counters.len() && (#[trigger] counters[i]).key() == key
}

/// The place of a counter for `key` among `counters`.
pub open spec fn place_of(counters: Seq<Counter>, key: CounterKey) -> int {
    choose|i: int| 0 <= i < counters.len() && (#[trigger] counters[i]).key() == key
}

/// No two of `counters` count the same thing.
pub open spec fn distinct_keys(counters: Seq<Counter>) -> bool {
    forall|i: int, j: int|
        0 <= i < j < counters.len() ==> (#[trigger] counters[i]).key() != (
        #[trigger] counters[j]).key()
}

/// The counters as a map from what is counted to what is held.
pub open spec fn counters_map(counters: Seq<Counter>) -> Map<CounterKey, CounterValue> {
    Map::new(
        |key: CounterKey| has_key(counters, key),
        |key: CounterKey| counters[place_of(counters, key)].value(),
    )
}

/// One more than `count`, as far as a counter can count.
pub open spec fn bumped(count: nat) -> nat {
    if count < u64::MAX {
        count + 1
    } else {
        count
    }
}

impl SummaryView {
    /// The summary of nothing.
    pub open spec fn empty() -> SummaryView {
        SummaryView { window: None, counters: Map::empty() }
    }

    /// The summary after one more evaluation is recorded: the counter for
    /// `key` is one higher, or starts at one with `value` and `version`; the
    /// window reaches out to `time`.
    pub open spec fn record(
        self,
        key: CounterKey,
        value: Seq<char>,
        version: Option<u64>,
        time: u64,
    ) -> SummaryView {
        SummaryView {
            window: match self.window {
                None => Some((time, time)),
                Some((first, last)) => Some(
                    (
                        if time < first {
                            time
                        } else {
                            first
                        },
                        if time > last {
                            time
                        } else {
                            last
                        },
                    ),
                ),
            },
            counters: self.counters.insert(
                key,
                if self.counters.contains_key(key) {
                    CounterValue {
                        count: bumped(self.counters[key].count),
                        value: self.counters[key].value,
                        version: self.counters[key].version,
                    }
                } else {
                    CounterValue { count: 1, value, version }
                },
            ),
        }
    }

    /// How often `key` was recorded, zero if never.
    pub open spec fn count(self, key: CounterKey) -> nat {
        if self.counters.contains_key(key) {
            self.counters[key].count
        } else {
            0
        }
    }

    /// Whether `time` lies between the first and the last time recorded.
    pub open spec fn spans(self, time: u64) -> bool {
        match self.window {
            None => false,
            Some((first, last)) => first <= time <= last,
        }
    }
}

/// The evaluations recorded since the last flush: one counter for each flag,
/// variation and kind of result, and the first and last time recorded.
pub struct EventSummary {
    start_date: u64,
    end_date: u64,
    counters: Vec<Counter>,
}

impl View for EventSummary {
    type V = SummaryView;

    closed spec fn view(&self) -> SummaryView {
        SummaryView {
            window: if self.counters@.len() == 0 {
                None
            } else {
                Some((self.start_date, self.end_date))
            },
            counters: counters_map(self.counters@),
        }
    }
}

/// In a list of counters with distinct keys, each counter is the one found for
/// its key.
proof fn lemma_place_of_own_key(counters: Seq<Counter>, i: int)
    requires
        distinct_keys(counters),
        0 <= i < counters.len(),
    ensures
        has_key(counters, counters[i].key()),
        place_of(counters, counters[i].key()) == i,
{
    let found = place_of(counters, counters[i].key());
    assert(0 <= found < counters.len() && counters[found].key() == counters[i].key());
    if found < i {
        assert(counters[found].key() != counters[i].key());
    } else if i < found {
        assert(counters[i].key() != counters[found].key());
    }
}

impl EventSummary {
    #[verifier::type_invariant]
    spec fn well_formed(self) -> bool {
        distinct_keys(self.counters@)
    }

    /// A summary of nothing.
    pub fn new() -> (summary: Self)
        ensures
            summary@ == SummaryView::empty(),
    {
        let summary = EventSummary { start_date: 0, end_date: 0, counters: Vec::new() };
        assert(summary@.counters =~= Map::empty());
        summary
    }

    /// Whether nothing was recorded.
    pub fn is_empty(&self) -> (empty: bool)
        ensures
            empty == (self@.window is None),
            empty == (self@.counters == Map::<CounterKey, CounterValue>::empty()),
    {
        proof {
            if self.counters@.len() == 0 {
                assert(self@.counters =~= Map::empty());
            } else {
                assert(has_key(self.counters@, self.counters@[0].key()));
                assert(self@.counters.contains_key(self.counters@[0].key()));
            }
        }
        self.counters.len() == 0
    }

    /// The first time recorded, if anything was.
    pub fn start_date(&self) -> (date: Option<u64>)
        ensures
            date == match self@.window {
                Some((first, _)) => Some(first),
                None => None,
            },
    {
        if self.counters.len() == 0 {
            None
        } else {
            Some(self.start_date)
        }
    }

    /// The last time recorded, if anything was.
    pub fn end_date(&self) -> (date: Option<u64>)
        ensures
            date == match self@.window {
                Some((_, last)) => Some(last),
                None => None,
            },
    {
        if self.counters.len() == 0 {
            None
        } else {
            Some(self.end_date)
        }
    }

    /// The counters, no two of them for the same key.
    pub fn counters(&self) -> (counters: &Vec<Counter>)
        ensures
            distinct_keys(counters@),
            counters_map(counters@) == self@.counters,
    {
        proof {
            use_type_invariant(self);
        }
        &self.counters
    }

    /// Where the counter for the given key stands among `counters`, if there
    /// is one.
    fn find(
        counters: &Vec<Counter>,
        flag_key: &String,
        variation: Option<u64>,
        is_default: bool,
    ) -> (place: Option<usize>)
        ensures
            match place {
                Some(i) => i < counters@.len() && counters@[i as int].key() == (CounterKey {
                    flag_key: flag_key@,
                    variation,
                    is_default,
                }),
                None => !has_key(
                    counters@,
                    CounterKey { flag_key: flag_key@, variation, is_default },
                ),
            },
    {
        let ghost key = CounterKey { flag_key: flag_key@, variation, is_default };
        let mut i: usize = 0;
        while i < counters.len()
            invariant
                i <= counters.len(),
                key == (CounterKey { flag_key: flag_key@, variation, is_default }),
                forall|j: int| 0 <= j < i ==> (#[trigger] counters@[j]).key() != key,
            decreases counters.len() - i,
        {
            let counter = &counters[i];
            let same_variation = match (counter.variation, variation) {
                (Some(a), Some(b)) => a == b,
                (None, None) => true,
                _ => false,
            };
            if same_variation && counter.is_default == is_default && counter.flag_key
                == *flag_key {
                return Some(i);
            }
            i += 1;
        }
        None
    }

    /// Records one evaluation of the flag `flag_key` at `time`: the matching
    /// counter is incremented, and created with a count of one if there was
    /// none. A counter that has reached the largest count stays there.
    pub fn accumulate(
        &mut self,
        flag_key: &String,
        variation: Option<u64>,
        value: &String,
        is_default: bool,
        version: Option<u64>,
        time: u64,
    )
        ensures
            final(self)@ == old(self)@.record(
                CounterKey { flag_key: flag_key@, variation, is_default },
                value@,
                version,
                time,
            ),
    {
        proof {
            use_type_invariant(&*self);
        }
        let ghost key = CounterKey { flag_key: flag_key@, variation, is_default };
        let ghost before = self.counters@;
        let ghost goal = old(self)@.record(key, value@, version, time);
        if self.counters.len() == 0 {
            self.start_date = time;
            self.end_date = time;
        } else {
            if time < self.start_date {
                self.start_date = time;
            }
            if time > self.end_date {
                self.end_date = time;
            }
        }
        let mut counters: Vec<Counter> = Vec::new();
        std::mem::swap(&mut self.counters, &mut counters);
        match Self::find(&counters, flag_key, variation, is_default) {
            Some(i) => {
                let count = counters[i].count;
                counters[i].count = count.saturating_add(1);
                proof {
                    let after = counters@;
                    assert forall|j: int| 0 <= j < after.len() implies (#[trigger] after[j]).key()
                        == before[j].key() by {}
                    assert(distinct_keys(after)) by {
                        assert forall|a: int, b: int| 0 <= a < b < after.len() implies (
                        #[trigger] after[a]).key() != (#[trigger] after[b]).key() by {
                            assert(before[a].key() != before[b].key());
                        }
                    }
                    assert forall|k: CounterKey| has_key(after, k) == has_key(before, k) by {
                        if has_key(before, k) {
                            let w = place_of(before, k);
                            assert(after[w].key() == k);
                        }
                        if has_key(after, k) {
                            let w = place_of(after, k);
                            assert(before[w].key() == k);
                        }
                    }
                    lemma_place_of_own_key(before, i as int);
                    lemma_place_of_own_key(after, i as int);
                    assert forall|k: CounterKey| has_key(after, k) implies #[trigger] counters_map(
                        after,
                    )[k] == goal.counters[k] by {
                        let w = place_of(after, k);
                        lemma_place_of_own_key(after, w);
                        lemma_place_of_own_key(before, w);
                    }
                    assert(counters_map(after) =~= goal.counters);
                }
            },
            None => {
                counters.push(
                    Counter {
                        flag_key: flag_key.clone(),
                        variation,
                        is_default,
                        count: 1,
                        value: value.clone(),
                        version,
                    },
                );
                proof {
                    let after = counters@;
                    let last = after.len() - 1;
                    assert(after[last].key() == key);
                    assert(distinct_keys(after)) by {
                        assert forall|a: int, b: int| 0 <= a < b < after.len() implies (
                        #[trigger] after[a]).key() != (#[trigger] after[b]).key() by {
                            if b == last {
                                assert(before[a].key() != key);
                            } else {
                                assert(before[a].key() != before[b].key());
                            }
                        }
                    }
                    assert forall|k: CounterKey| has_key(after, k) == (has_key(before, k) || k
                        == key) by {
                        if has_key(before, k) {
                            let w = place_of(before, k);
                            assert(after[w].key() == k);
                        }
                        if has_key(after, k) {
                            let w = place_of(after, k);
                            if w != last {
                                assert(before[w].key() == k);
                            }
                        }
                    }
                    assert forall|k: CounterKey| has_key(after, k) implies #[trigger] counters_map(
                        after,
                    )[k] == goal.counters[k] by {
                        let w = place_of(after, k);
                        lemma_place_of_own_key(after, w);
                        if w != last {
                            lemma_place_of_own_key(before, w);
                        }
                    }
                    assert(counters_map(after) =~= goal.counters);
                }
            },
        }
        self.counters = counters;
    }

    /// Takes out what was recorded and starts over: the summary that was held
    /// if anything was recorded, `None` if nothing was.
    pub fn take(&mut self) -> (taken: Option<EventSummary>)
        ensures
            final(self)@ == SummaryView::empty(),
            match taken {
                Some(summary) => old(self)@.window is Some && summary@ == old(self)@,
                None => old(self)@.window is None,
            },
    {
        proof {
            use_type_invariant(&*self);
        }
        if self.counters.len() == 0 {
            assert(self@.counters =~= Map::empty());
            return None;
        }
        let mut counters: Vec<Counter> = Vec::new();
        std::mem::swap(&mut self.counters, &mut counters);
        let taken = EventSummary {
            start_date: self.start_date,
            end_date: self.end_date,
            counters,
        };
        assert(self@.counters =~= Map::empty());
        Some(taken)
    }
}

/// One evaluation to record: what is counted, the value and flag version that
/// the evaluation gave, and when it was made.
pub struct Recording {
    pub key: CounterKey,
    pub value: Seq<char>,
    pub version: Option<u64>,
    pub time: u64,
}

/// The summary after `recordings` are recorded one after the other, the first
/// of them into `start`.
pub open spec fn record_all(start: SummaryView, recordings: Seq<Recording>) -> SummaryView
    decreases recordings.len(),
{
    if recordings.len() == 0 {
        start
    } else {
        record_all(start, recordings.drop_last()).record(
            recordings.last().key,
            recordings.last().value,
            recordings.last().version,
            recordings.last().time,
        )
    }
}

/// The test that picks the recordings of `key`.
pub open spec fn counts_toward(key: CounterKey) -> spec_fn(Recording) -> bool {
    |recording: Recording| recording.key == key
}

/// How many of `recordings` are of `key`.
pub open spec fn times_recorded(recordings: Seq<Recording>, key: CounterKey) -> nat {
    recordings.filter(counts_toward(key)).len()
}

/// `count`, as far as a counter can count.
pub open spec fn capped(count: nat) -> nat {
    if count <= u64::MAX {
        count
    } else {
        u64::MAX as nat
    }
}

/// After any recordings into an empty summary, each counter holds the number
/// of recordings of its key (as far as a counter can count), and the window
/// spans the time of every recording.
pub proof fn lemma_counters_count_recordings(recordings: Seq<Recording>, key: CounterKey)
    ensures
        record_all(SummaryView::empty(), recordings).count(key) == capped(
            times_recorded(recordings, key),
        ),
        forall|i: int|
            0 <= i < recordings.len() ==> record_all(SummaryView::empty(), recordings).spans(
                (#[trigger] recordings[i]).time,
            ),
        recordings.len() > 0 ==> record_all(SummaryView::empty(), recordings).window is Some,
    decreases recordings.len(),
{
    if recordings.len() == 0 {
        assert(recordings.filter(counts_toward(key)).len() == 0) by {
            reveal(Seq::filter);
        }
    } else {
        let earlier = recordings.drop_last();
        let last = recordings.last();
        let before = record_all(SummaryView::empty(), earlier);
        let after = record_all(SummaryView::empty(), recordings);
        lemma_counters_count_recordings(earlier, key);
        assert(earlier.push(last) =~= recordings);
        earlier.lemma_filter_push(last, counts_toward(key));
        assert forall|i: int| 0 <= i < recordings.len() implies after.spans(
            (#[trigger] recordings[i]).time,
        ) by {
            if i < earlier.len() {
                assert(before.spans(earlier[i].time));
            }
        }
    }
}

/// After `n` recordings of the same key into an empty summary, the counter for
/// that key holds `n` (as far as a counter can count), and the window spans the
/// time of every recording.
pub proof fn lemma_same_key_counts_calls(recordings: Seq<Recording>, key: CounterKey)
    requires
        forall|i: int| 0 <= i < recordings.len() ==> (#[trigger] recordings[i]).key == key,
    ensures
        record_all(SummaryView::empty(), recordings).count(key) == capped(recordings.len()),
        forall|i: int|
            0 <= i < recordings.len() ==> record_all(SummaryView::empty(), recordings).spans(
                (#[trigger] recordings[i]).time,
            ),
{
    lemma_counters_count_recordings(recordings, key);
    crate::seq_lemmas::lemma_filter_keeps_all(recordings, counts_toward(key));
}

} // verus!
