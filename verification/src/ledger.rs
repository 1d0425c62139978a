//! The activity ledger: one record per window title, kept in the order in
//! which the titles were first seen.

use vstd::prelude::*;

verus! {

/// What is known about one window title.
#[derive(Debug, PartialEq, Eq)]
pub struct ActivityRecord {
    /// The window title; the key of the record.
    pub title: String,
    /// Epoch seconds at which the title was first observed.
    pub first_seen: u64,
    /// Number of sampling ticks in which the title had focus.
    pub accumulated_seconds: u64,
}

/// The mathematical value of an [`ActivityRecord`].
pub ghost struct RecordView {
    pub title: Seq<char>,
    pub first_seen: u64,
    pub accumulated_seconds: u64,
}

impl View for ActivityRecord {
    type V = RecordView;

    open spec fn view(&self) -> RecordView {
        RecordView {
            title: self.title@,
            first_seen: self.first_seen,
            accumulated_seconds: self.accumulated_seconds,
        }
    }
}

/// No two records carry the same title.
pub open spec fn titles_distinct(records: Seq<RecordView>) -> bool {
    forall|i: int, j: int|
        0 <= i < j < records.len() ==> records[i].title != records[j].title
}

/// Some record carries `title`.
pub open spec fn holds(records: Seq<RecordView>, title: Seq<char>) -> bool {
    exists|i: int| 0 <= i < records.len() && #[trigger] records[i].title == title
}

/// The place of a record that carries `title`, where there is one.
pub open spec fn slot(records: Seq<RecordView>, title: Seq<char>) -> int {
    choose|i: int| 0 <= i < records.len() && #[trigger] records[i].title == title
}

/// The ticks counted for `title`: zero for a title never seen.
pub open spec fn seconds(records: Seq<RecordView>, title: Seq<char>) -> nat {
    if holds(records, title) {
        records[slot(records, title)].accumulated_seconds as nat
    } else {
        0
    }
}

/// When `title` was first observed, if it ever was.
pub open spec fn first_seen(records: Seq<RecordView>, title: Seq<char>) -> Option<u64> {
    if holds(records, title) {
        Some(records[slot(records, title)].first_seen)
    } else {
        None
    }
}

/// The records after one tick in which `title` had focus at time `now`:
/// a known title gains one second, a new one enters at the end with one
/// second and `now` as its first observation.
pub open spec fn ticked(records: Seq<RecordView>, title: Seq<char>, now: u64) -> Seq<RecordView> {
    if holds(records, title) {
        let at = slot(records, title);
        records.update(
            at,
            RecordView {
                title: title,
                first_seen: records[at].first_seen,
                accumulated_seconds: (records[at].accumulated_seconds + 1) as u64,
            },
        )
    } else {
        records.push(RecordView { title: title, first_seen: now, accumulated_seconds: 1 })
    }
}

/// The ledger of a tracking session. Its records are private: every ledger
/// that exists holds each title at most once.
#[derive(Debug)]
pub struct ActivityLedger {
    records: Vec<ActivityRecord>,
}

impl View for ActivityLedger {
    type V = Seq<RecordView>;

    closed spec fn view(&self) -> Seq<RecordView> {
        Seq::new(self.records@.len(), |i: int| self.records@[i]@)
    }
}

impl ActivityLedger {
    /// What holds of every ledger: no title occurs twice.
    #[verifier::type_invariant]
    pub open spec fn well_formed(&self) -> bool {
        titles_distinct(self@)
    }

    /// The empty ledger.
    pub fn new() -> (ledger: ActivityLedger)
        ensures
            ledger@ == Seq::<RecordView>::empty(),
    {
        let ledger = ActivityLedger { records: Vec::new() };
        assert(ledger@ =~= Seq::<RecordView>::empty());
        ledger
    }

    /// The number of titles in the ledger; no title occurs twice among them.
    pub fn len(&self) -> (n: usize)
        ensures
            n == self@.len(),
            titles_distinct(self@),
    {
        proof {
            use_type_invariant(self);
        }
        self.records.len()
    }

    /// The record at place `index`, in order of first observation; `None`
    /// where the ledger has no such place.
    pub fn record_at(&self, index: usize) -> (record: Option<&ActivityRecord>)
        ensures
            record.is_some() == (index < self@.len()),
            record matches Some(r) ==> r@ == self@[index as int],
    {
        if index < self.records.len() {
            Some(&self.records[index])
        } else {
            None
        }
    }

    /// The place of the record for `title`, if the ledger has one.
    pub fn find(&self, title: &str) -> (found: Option<usize>)
        ensures
            found.is_some() == holds(self@, title@),
            found matches Some(at) ==> at == slot(self@, title@) && at < self@.len(),
    {
        proof {
            use_type_invariant(self);
        }
        let key = String::from_str(title);
        let mut i: usize = 0;
        while i < self.records.len()
            invariant
                i <= self.records@.len(),
                key@ == title@,
                titles_distinct(self@),
                forall|k: int| 0 <= k < i ==> (#[trigger] self@[k]).title != title@,
            decreases self.records@.len() - i,
        {
            if self.records[i].title == key {
                assert(self@[i as int].title == title@);
                return Some(i);
            }
            i += 1;
        }
        None
    }

    /// The ticks counted for `title`, if the ledger has it.
    pub fn seconds_for(&self, title: &str) -> (counted: Option<u64>)
        ensures
            counted.is_some() == holds(self@, title@),
            counted matches Some(n) ==> n == seconds(self@, title@),
    {
        match self.find(title) {
            Some(at) => Some(self.records[at].accumulated_seconds),
            None => None,
        }
    }

    /// When `title` was first observed, if the ledger has it.
    pub fn first_seen_for(&self, title: &str) -> (seen: Option<u64>)
        ensures
            seen == first_seen(self@, title@),
    {
        match self.find(title) {
            Some(at) => Some(self.records[at].first_seen),
            None => None,
        }
    }

    /// Adds `record` at the end unless the ledger already has its title;
    /// says whether it was added.
    pub fn insert_new(&mut self, record: ActivityRecord) -> (inserted: bool)
        ensures
            inserted == !holds(old(self)@, record@.title),
            inserted ==> final(self)@ == old(self)@.push(record@),
            !inserted ==> final(self)@ == old(self)@,
            titles_distinct(final(self)@),
    {
        proof {
            use_type_invariant(&*self);
        }
        if self.find(record.title.as_str()).is_some() {
            return false;
        }
        let mut taken = ActivityLedger::new();
        std::mem::swap(self, &mut taken);
        let mut records = taken.records;
        records.push(record);
        let ghost after = Seq::new(records@.len(), |i: int| records@[i]@);
        proof {
            assert(after =~= old(self)@.push(record@));
            assert forall|i: int, j: int| 0 <= i < j < after.len() implies after[i].title
                != after[j].title by {
                if j == after.len() - 1 {
                    assert(old(self)@[i].title != record@.title);
                }
            }
        }
        *self = ActivityLedger { records };
        true
    }

    /// Counts one sampling tick for `title`, observed at time `now`.
    ///
    /// A title never seen before enters with one second and `now` as its
    /// first observation; a known title gains one second and keeps the rest.
    /// The counter of a known title must have room for one more tick.
    pub fn record_tick(&mut self, title: &str, now: u64)
        requires
            seconds(old(self)@, title@) < u64::MAX,
        ensures
            final(self)@ == ticked(old(self)@, title@, now),
            titles_distinct(final(self)@),
            !holds(old(self)@, title@) ==> final(self)@.last() == (RecordView {
                title: title@,
                first_seen: now,
                accumulated_seconds: 1,
            }),
            seconds(final(self)@, title@) == seconds(old(self)@, title@) + 1,
    {
        proof {
            use_type_invariant(&*self);
        }
        let found = self.find(title);
        let mut taken = ActivityLedger::new();
        std::mem::swap(self, &mut taken);
        let mut records = taken.records;
        match found {
            Some(at) => {
                let bumped = ActivityRecord {
                    title: records[at].title.clone(),
                    first_seen: records[at].first_seen,
                    accumulated_seconds: records[at].accumulated_seconds + 1,
                };
                records.set(at, bumped);
            },
            None => {
                let fresh = ActivityRecord {
                    title: String::from_str(title),
                    first_seen: now,
                    accumulated_seconds: 1,
                };
                records.push(fresh);
            },
        }
        let ghost after = Seq::new(records@.len(), |i: int| records@[i]@);
        proof {
            assert(after =~= ticked(old(self)@, title@, now));
        }
        *self = ActivityLedger { records };
        proof {
            lemma_ticked(old(self)@, title@, now);
        }
    }
}

/// One tick keeps the titles distinct, adds one second to the title that had
/// focus, never moves a first observation, and leaves every other title as
/// it was. A new title starts at one second, first observed at `now`.
pub proof fn lemma_ticked(records: Seq<RecordView>, title: Seq<char>, now: u64)
    requires
        titles_distinct(records),
    ensures
        titles_distinct(ticked(records, title, now)),
        holds(ticked(records, title, now), title),
        seconds(records, title) < u64::MAX ==> seconds(ticked(records, title, now), title)
            == seconds(records, title) + 1,
        holds(records, title) ==> first_seen(ticked(records, title, now), title) == first_seen(
            records,
            title,
        ),
        !holds(records, title) ==> first_seen(ticked(records, title, now), title) == Some(now)
            && seconds(ticked(records, title, now), title) == 1,
        forall|other: Seq<char>|
            other != title ==> seconds(#[trigger] ticked(records, title, now), other) == seconds(
                records,
                other,
            ) && holds(ticked(records, title, now), other) == holds(records, other)
                && first_seen(ticked(records, title, now), other) == first_seen(records, other),
{
    let after = ticked(records, title, now);
    if holds(records, title) {
        let at = slot(records, title);
        assert(after[at].title == title);
        assert forall|other: Seq<char>| other != title implies seconds(after, other) == seconds(
            records,
            other,
        ) && holds(after, other) == holds(records, other) && first_seen(after, other)
            == first_seen(records, other) by {
            lemma_same_titles(records, after, other);
        }
        lemma_same_titles(records, after, title);
    } else {
        let at = records.len() as int;
        assert(after[at].title == title);
        assert forall|other: Seq<char>| other != title implies seconds(after, other) == seconds(
            records,
            other,
        ) && holds(after, other) == holds(records, other) && first_seen(after, other)
            == first_seen(records, other) by {
            if holds(records, other) {
                let k = slot(records, other);
                assert(after[k].title == other);
                let m = slot(after, other);
                assert(m < records.len());
                assert(records[m].title == other);
            } else if holds(after, other) {
                let m = slot(after, other);
                assert(records[m].title == other);
            }
        }
        assert(slot(after, title) == at);
    }
}

/// Where two ledgers agree on the titles place by place, they hold the same
/// titles at the same places.
proof fn lemma_same_titles(before: Seq<RecordView>, after: Seq<RecordView>, title: Seq<char>)
    requires
        titles_distinct(before),
        before.len() == after.len(),
        forall|i: int| 0 <= i < before.len() ==> (#[trigger] before[i]).title == after[i].title,
    ensures
        titles_distinct(after),
        holds(after, title) == holds(before, title),
        holds(before, title) ==> slot(after, title) == slot(before, title),
{
    assert forall|i: int, j: int| 0 <= i < j < after.len() implies after[i].title
        != after[j].title by {
        assert(before[i].title == after[i].title);
        assert(before[j].title == after[j].title);
    }
    if holds(before, title) {
        let k = slot(before, title);
        assert(before[k].title == after[k].title);
        assert(after[k].title == title);
        let m = slot(after, title);
        assert(before[m].title == after[m].title);
    } else if holds(after, title) {
        let m = slot(after, title);
        assert(before[m].title == after[m].title);
    }
}

/// One observation of the focus: the title that had it, and when.
pub type Sample = (Seq<char>, u64);

/// The records after the ticks of `samples`, applied in order.
pub open spec fn after_ticks(records: Seq<RecordView>, samples: Seq<Sample>) -> Seq<RecordView>
    decreases samples.len(),
{
    if samples.len() == 0 {
        records
    } else {
        ticked(after_ticks(records, samples.drop_last()), samples.last().0, samples.last().1)
    }
}

/// In how many of `samples` the focus was on `title`.
pub open spec fn times_sampled(samples: Seq<Sample>, title: Seq<char>) -> nat
    decreases samples.len(),
{
    if samples.len() == 0 {
        0
    } else {
        times_sampled(samples.drop_last(), title) + if samples.last().0 == title {
            1nat
        } else {
            0nat
        }
    }
}

/// The count of a title grows by exactly the number of ticks in which it was
/// sampled, whatever else was sampled in between, as long as the count stays
/// within sixty-four bits. The titles stay distinct throughout.
pub proof fn lemma_tick_count(records: Seq<RecordView>, samples: Seq<Sample>, title: Seq<char>)
    requires
        titles_distinct(records),
        seconds(records, title) + times_sampled(samples, title) <= u64::MAX,
    ensures
        titles_distinct(after_ticks(records, samples)),
        seconds(after_ticks(records, samples), title) == seconds(records, title) + times_sampled(
            samples,
            title,
        ),
    decreases samples.len(),
{
    if samples.len() > 0 {
        let earlier = samples.drop_last();
        lemma_tick_count(records, earlier, title);
        lemma_ticked(after_ticks(records, earlier), samples.last().0, samples.last().1);
    }
}

/// A first observation, once made, is never changed by later ticks.
pub proof fn lemma_first_seen_kept(records: Seq<RecordView>, samples: Seq<Sample>, title: Seq<char>)
    requires
        titles_distinct(records),
        holds(records, title),
    ensures
        titles_distinct(after_ticks(records, samples)),
        holds(after_ticks(records, samples), title),
        first_seen(after_ticks(records, samples), title) == first_seen(records, title),
    decreases samples.len(),
{
    if samples.len() > 0 {
        let earlier = samples.drop_last();
        lemma_first_seen_kept(records, earlier, title);
        lemma_ticked(after_ticks(records, earlier), samples.last().0, samples.last().1);
    }
}

} // verus!
