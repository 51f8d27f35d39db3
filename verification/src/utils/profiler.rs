//! Profiling statistics: for each named section the total time, number of
//! calls, shortest and longest call, and the profiler that keeps one entry
//! per section name.

use vstd::prelude::*;
use std::time::Duration;

verus! {

/// The length of a duration in nanoseconds, as `Duration::as_nanos` reports it.
pub uninterp spec fn duration_nanos(d: Duration) -> nat;

/// The length of `Duration::MAX` in nanoseconds: `u64::MAX` whole seconds
/// and 999,999,999 nanoseconds.
pub open spec fn max_duration_nanos() -> nat {
    18446744073709551615nat * 1000000000nat + 999999999nat
}

/// `Duration::ZERO`: the empty duration, 0 ns long.
#[verifier::external_body]
fn duration_zero() -> (d: Duration)
    ensures
        duration_nanos(d) == 0,
{
    Duration::ZERO
}

/// `Duration::MAX`: the longest duration, `max_duration_nanos()` ns long.
#[verifier::external_body]
fn duration_max() -> (d: Duration)
    ensures
        duration_nanos(d) == max_duration_nanos(),
{
    Duration::MAX
}

/// `Duration + Duration`: the sum of the two lengths. std panics when the sum
/// is longer than `Duration::MAX`, which the precondition rules out.
#[verifier::external_body]
fn duration_add(a: Duration, b: Duration) -> (d: Duration)
    requires
        duration_nanos(a) + duration_nanos(b) <= max_duration_nanos(),
    ensures
        duration_nanos(d) == duration_nanos(a) + duration_nanos(b),
{
    a + b
}

/// `Duration < Duration`: durations are ordered by their length.
#[verifier::external_body]
fn duration_lt(a: &Duration, b: &Duration) -> (r: bool)
    ensures
        r == (duration_nanos(*a) < duration_nanos(*b)),
{
    *a < *b
}

/// `Duration::as_nanos`: the whole nanoseconds in `d`. A duration holds a
/// `u64` count of whole seconds and fewer than 10^9 further nanoseconds,
/// so it is never longer than `Duration::MAX`.
#[verifier::external_body]
fn duration_as_nanos(d: &Duration) -> (n: u128)
    ensures
        n == duration_nanos(*d),
        n <= max_duration_nanos(),
{
    d.as_nanos()
}

/// `Duration::new(secs, nanos)` with fewer than 10^9 nanoseconds (so no
/// carry into the seconds, and no panic): a duration of
/// `secs * 10^9 + nanos` nanoseconds.
#[verifier::external_body]
fn duration_new(secs: u64, nanos: u32) -> (d: Duration)
    requires
        nanos < 1_000_000_000,
    ensures
        duration_nanos(d) == secs * 1_000_000_000 + nanos,
{
    Duration::new(secs, nanos)
}

/// The statistics of a profile entry in nanoseconds and calls.
pub struct ProfileStats {
    pub total: nat,
    pub count: nat,
    pub min: nat,
    pub max: nat,
}

/// The statistics of an entry that has recorded nothing yet.
pub open spec fn empty_stats() -> ProfileStats {
    ProfileStats { total: 0, count: 0, min: max_duration_nanos(), max: 0 }
}

/// The statistics after recording one more call that took `d` ns.
pub open spec fn recorded(s: ProfileStats, d: nat) -> ProfileStats {
    ProfileStats {
        total: s.total + d,
        count: s.count + 1,
        min: if d < s.min {
            d
        } else {
            s.min
        },
        max: if d > s.max {
            d
        } else {
            s.max
        },
    }
}

/// Statistics that some sequence of recorded calls can produce: none yet, or
/// a shortest and a longest call that bound every call, so that the total
/// lies between `count * min` and `count * max`.
pub open spec fn consistent_stats(s: ProfileStats) -> bool {
    if s.count == 0 {
        s == empty_stats()
    } else {
        &&& s.min <= s.max
        &&& s.max <= max_duration_nanos()
        &&& s.count * s.min <= s.total
        &&& s.total <= s.count * s.max
    }
}

/// The average that `average` reports for statistics `s`: zero before any
/// call, else the total divided by the call count, rounded down to whole
/// nanoseconds.
pub open spec fn average_nanos(s: ProfileStats) -> nat {
    if s.count == 0 {
        0
    } else {
        s.total / s.count
    }
}

/// Profile entry for a single measurement
#[derive(Debug)]
pub struct ProfileEntry {
    /// Name of the profiled section
    pub name: String,
    /// Total time spent
    pub total_time: Duration,
    /// Number of calls
    pub call_count: u64,
    /// Minimum time
    pub min_time: Duration,
    /// Maximum time
    pub max_time: Duration,
}

impl View for ProfileEntry {
    type V = ProfileStats;

    open spec fn view(&self) -> ProfileStats {
        ProfileStats {
            total: duration_nanos(self.total_time),
            count: self.call_count as nat,
            min: duration_nanos(self.min_time),
            max: duration_nanos(self.max_time),
        }
    }
}

impl Clone for ProfileEntry {
    /// A copy of the entry: the same name and the same statistics.
    fn clone(&self) -> (c: Self)
        ensures
            c.name@ == self.name@,
            c@ == self@,
    {
        ProfileEntry {
            name: self.name.clone(),
            total_time: self.total_time,
            call_count: self.call_count,
            min_time: self.min_time,
            max_time: self.max_time,
        }
    }
}

impl ProfileEntry {
    /// An entry for the section `name` that has recorded no call: zero total,
    /// no calls, minimum `Duration::MAX`, maximum zero.
    pub fn new(name: String) -> (entry: Self)
        ensures
            entry.name == name,
            entry@ == empty_stats(),
    {
        ProfileEntry {
            name,
            total_time: duration_zero(),
            call_count: 0,
            min_time: duration_max(),
            max_time: duration_zero(),
        }
    }

    /// Record a new measurement. std panics when the total would pass
    /// `Duration::MAX` or the call count would pass `u64::MAX`; the
    /// precondition rules both out.
    pub fn record(&mut self, duration: Duration)
        requires
            old(self)@.total + duration_nanos(duration) <= max_duration_nanos(),
            old(self).call_count < u64::MAX,
        ensures
            final(self).name == old(self).name,
            final(self)@ == recorded(old(self)@, duration_nanos(duration)),
    {
        self.total_time = duration_add(self.total_time, duration);
        self.call_count += 1;
        if duration_lt(&duration, &self.min_time) {
            self.min_time = duration;
        }
        if duration_lt(&self.max_time, &duration) {
            self.max_time = duration;
        }
    }

    /// Record a measurement if the entry can take it: when the total would
    /// pass `Duration::MAX` or the call count would pass `u64::MAX`, the
    /// entry stays as it was and the result is `false`.
    pub fn try_record(&mut self, duration: Duration) -> (recorded_ok: bool)
        ensures
            recorded_ok == (old(self)@.total + duration_nanos(duration) <= max_duration_nanos()
                && old(self).call_count < u64::MAX),
            final(self).name == old(self).name,
            recorded_ok ==> final(self)@ == recorded(old(self)@, duration_nanos(duration)),
            !recorded_ok ==> final(self)@ == old(self)@,
    {
        let total: u128 = duration_as_nanos(&self.total_time);
        let d: u128 = duration_as_nanos(&duration);
        if total + d <= 18446744073709551615999999999u128 && self.call_count < u64::MAX {
            self.record(duration);
            true
        } else {
            false
        }
    }

    /// Get average time: zero before any call, else the total time divided
    /// by the number of calls, rounded down to whole nanoseconds.
    pub fn average(&self) -> (avg: Duration)
        ensures
            duration_nanos(avg) == average_nanos(self@),
    {
        if self.call_count == 0 {
            return duration_zero();
        }
        let total: u128 = duration_as_nanos(&self.total_time);
        let calls: u128 = self.call_count as u128;
        let q: u128 = total / calls;
        assert(q <= total) by (nonlinear_arith)
            requires
                q == total / calls,
                calls >= 1,
        ;
        let secs: u128 = q / 1_000_000_000;
        let nanos: u128 = q % 1_000_000_000;
        assert(secs <= u64::MAX) by (nonlinear_arith)
            requires
                secs == q / 1_000_000_000,
                q <= 18446744073709551615u128 * 1000000000u128 + 999999999u128,
        ;
        let avg = duration_new(secs as u64, nanos as u32);
        assert(secs * 1_000_000_000 + nanos == q) by (nonlinear_arith)
            requires
                secs == q / 1_000_000_000,
                nanos == q % 1_000_000_000,
        ;
        avg
    }
}

/// Whether no two of `rows` share a name.
pub open spec fn names_distinct(rows: Seq<ProfileEntry>) -> bool {
    forall|i: int, j: int|
        0 <= i < rows.len() && 0 <= j < rows.len() && i != j ==> #[trigger] rows[i].name@
            != #[trigger] rows[j].name@
}

/// Whether one of `rows` is named `name`.
pub open spec fn has_name(rows: Seq<ProfileEntry>, name: Seq<char>) -> bool {
    exists|i: int| 0 <= i < rows.len() && #[trigger] rows[i].name@ == name
}

/// The index of the row named `name` (meaningful when there is one).
pub open spec fn index_of_name(rows: Seq<ProfileEntry>, name: Seq<char>) -> int {
    choose|i: int| 0 <= i < rows.len() && #[trigger] rows[i].name@ == name
}

/// The statistics recorded for `name`: those of its row, or none yet.
pub open spec fn stats_of(rows: Seq<ProfileEntry>, name: Seq<char>) -> ProfileStats {
    if has_name(rows, name) {
        rows[index_of_name(rows, name)]@
    } else {
        empty_stats()
    }
}

/// `new` is `old` with the row named `name` given the statistics `stats`:
/// that row keeps its place and name, or, when there was none, a new row of
/// that name is added last. Every other row stays as it was.
pub open spec fn row_set(old: Seq<ProfileEntry>, new: Seq<ProfileEntry>, name: Seq<char>, stats: ProfileStats) -> bool {
    if has_name(old, name) {
        let i = index_of_name(old, name);
        &&& new.len() == old.len()
        &&& forall|j: int| 0 <= j < old.len() && j != i ==> new[j] == old[j]
        &&& new[i].name == old[i].name
        &&& new[i]@ == stats
    } else {
        &&& new.len() == old.len() + 1
        &&& forall|j: int| 0 <= j < old.len() ==> new[j] == old[j]
        &&& new[old.len() as int].name@ == name
        &&& new[old.len() as int]@ == stats
    }
}

/// Reading back after a write: once the row named `name` was given the
/// statistics `stats` (as `record` and `reset_entry` do), the statistics of
/// `name` are `stats`, those of every other name are as before, and no two
/// rows share a name.
pub proof fn lemma_row_set_reads_back(
    old: Seq<ProfileEntry>,
    new: Seq<ProfileEntry>,
    name: Seq<char>,
    stats: ProfileStats,
    other: Seq<char>,
)
    requires
        names_distinct(old),
        row_set(old, new, name, stats),
    ensures
        names_distinct(new),
        has_name(new, name),
        stats_of(new, name) == stats,
        other != name ==> has_name(new, other) == has_name(old, other),
        other != name ==> stats_of(new, other) == stats_of(old, other),
{
    let k: int = if has_name(old, name) {
        index_of_name(old, name)
    } else {
        old.len() as int
    };
    assert(new[k].name@ == name);
    assert forall|a: int, b: int|
        0 <= a < new.len() && 0 <= b < new.len() && a != b implies #[trigger] new[a].name@
        != #[trigger] new[b].name@ by {
        if a != k && b != k {
            assert(new[a] == old[a] && new[b] == old[b]);
        } else if a == k {
            assert(new[b] == old[b]);
            if has_name(old, name) {
                assert(new[a].name == old[a].name);
            }
        } else {
            assert(new[a] == old[a]);
            if has_name(old, name) {
                assert(new[b].name == old[b].name);
            }
        }
    }
    assert(has_name(new, name));
    let c = index_of_name(new, name);
    assert(c == k);
    if other != name {
        if has_name(old, other) {
            let o = index_of_name(old, other);
            assert(o != k);
            assert(new[o] == old[o]);
            assert(has_name(new, other));
            assert(index_of_name(new, other) == o);
        }
        if has_name(new, other) {
            let o = index_of_name(new, other);
            assert(o != k);
            assert(new[o] == old[o]);
            assert(has_name(old, other));
        }
    }
}

/// Profiler manager: one profile entry per section name, in the order the
/// sections were first recorded, and whether profiling is enabled.
pub struct Profiler {
    entries: Vec<ProfileEntry>,
    enabled: bool,
}

impl Profiler {
    #[verifier::type_invariant]
    spec fn names_unique(self) -> bool {
        names_distinct(self.entries@)
    }

    /// The entries, one per section name, in the order they were first recorded.
    pub closed spec fn rows(self) -> Seq<ProfileEntry> {
        self.entries@
    }

    /// Whether profiling is enabled.
    pub closed spec fn on(self) -> bool {
        self.enabled
    }

    /// Create new profiler: enabled, with no entries.
    pub fn new() -> (p: Self)
        ensures
            p.rows() == Seq::<ProfileEntry>::empty(),
            p.on(),
    {
        Profiler { entries: Vec::new(), enabled: true }
    }

    /// Enable/disable profiling
    pub fn set_enabled(&mut self, enabled: bool)
        ensures
            final(self).on() == enabled,
            final(self).rows() == old(self).rows(),
    {
        proof {
            use_type_invariant(&*self);
        }
        self.enabled = enabled;
    }

    /// Check if profiling is enabled
    pub fn is_enabled(&self) -> (enabled: bool)
        ensures
            enabled == self.on(),
    {
        self.enabled
    }

    /// The entries, one per section name, in the order they were first recorded.
    pub fn entries(&self) -> (rows: &[ProfileEntry])
        ensures
            rows@ == self.rows(),
            names_distinct(rows@),
    {
        proof {
            use_type_invariant(&*self);
        }
        self.entries.as_slice()
    }

    /// The index of the entry named `key`, if there is one.
    fn find(&self, key: &String) -> (found: Option<usize>)
        ensures
            match found {
                Some(i) => has_name(self.rows(), key@) && i == index_of_name(self.rows(), key@),
                None => !has_name(self.rows(), key@),
            },
    {
        proof {
            use_type_invariant(&*self);
        }
        let mut k: usize = 0;
        while k < self.entries.len()
            invariant
                k <= self.entries@.len(),
                names_distinct(self.entries@),
                forall|j: int| 0 <= j < k ==> #[trigger] self.entries@[j].name@ != key@,
            decreases self.entries@.len() - k,
        {
            let same: bool = self.entries[k].name == *key;
            assert(same == (self.entries@[k as int].name@ == key@));
            if same {
                proof {
                    let rows = self.entries@;
                    assert(rows[k as int].name@ == key@);
                    assert(has_name(rows, key@));
                    let c = index_of_name(rows, key@);
                    assert(0 <= c < rows.len() && rows[c].name@ == key@);
                    assert(c == k);
                }
                return Some(k);
            }
            k = k + 1;
        }
        None
    }

    /// Internal method to record a measurement: the entry named `name`
    /// (made when there is none yet) records `duration`. Recording panics in
    /// std when the entry's total would pass `Duration::MAX` or its call
    /// count `u64::MAX`; the precondition rules both out.
    pub fn record(&mut self, name: String, duration: Duration)
        requires
            stats_of(old(self).rows(), name@).total + duration_nanos(duration)
                <= max_duration_nanos(),
            stats_of(old(self).rows(), name@).count < u64::MAX,
        ensures
            row_set(
                old(self).rows(),
                final(self).rows(),
                name@,
                recorded(stats_of(old(self).rows(), name@), duration_nanos(duration)),
            ),
            final(self).on() == old(self).on(),
    {
        proof {
            use_type_invariant(&*self);
        }
        let found = self.find(&name);
        let ghost rows0 = self.entries@;
        let mut rows: Vec<ProfileEntry> = Vec::new();
        std::mem::swap(&mut rows, &mut self.entries);
        match found {
            Some(i) => {
                let mut entry = rows.remove(i);
                entry.record(duration);
                rows.insert(i, entry);
                proof {
                    assert forall|a: int, b: int|
                        0 <= a < rows@.len() && 0 <= b < rows@.len() && a != b implies #[trigger] rows@[a].name@
                        != #[trigger] rows@[b].name@ by {
                        if a != i {
                            assert(rows@[a] == rows0[a]);
                        }
                        if b != i {
                            assert(rows@[b] == rows0[b]);
                        }
                    }
                }
            },
            None => {
                let mut entry = ProfileEntry::new(name);
                entry.record(duration);
                rows.push(entry);
                proof {
                    assert forall|a: int, b: int|
                        0 <= a < rows@.len() && 0 <= b < rows@.len() && a != b implies #[trigger] rows@[a].name@
                        != #[trigger] rows@[b].name@ by {
                        if a < rows0.len() {
                            assert(rows@[a] == rows0[a]);
                        }
                        if b < rows0.len() {
                            assert(rows@[b] == rows0[b]);
                        }
                    }
                }
            },
        }
        self.entries = rows;
    }

    /// Record a measurement if the entry named `name` can take it; when the
    /// total would pass `Duration::MAX` or the call count `u64::MAX`,
    /// nothing changes and the result is `false`.
    pub fn try_record(&mut self, name: String, duration: Duration) -> (recorded_ok: bool)
        ensures
            recorded_ok == (stats_of(old(self).rows(), name@).total + duration_nanos(duration)
                <= max_duration_nanos() && stats_of(old(self).rows(), name@).count < u64::MAX),
            recorded_ok ==> row_set(
                old(self).rows(),
                final(self).rows(),
                name@,
                recorded(stats_of(old(self).rows(), name@), duration_nanos(duration)),
            ),
            !recorded_ok ==> final(self).rows() == old(self).rows(),
            final(self).on() == old(self).on(),
    {
        let found = self.find(&name);
        let (total, calls) = match found {
            Some(i) => (duration_as_nanos(&self.entries[i].total_time), self.entries[i].call_count),
            None => (0u128, 0u64),
        };
        let d: u128 = duration_as_nanos(&duration);
        if total + d <= 18446744073709551615999999999u128 && calls < u64::MAX {
            self.record(name, duration);
            true
        } else {
            false
        }
    }

    /// Get entry by name
    pub fn get_entry(&self, name: &str) -> (entry: Option<&ProfileEntry>)
        ensures
            has_name(self.rows(), name@) ==> (entry matches Some(e) && *e == self.rows()[index_of_name(
                self.rows(),
                name@,
            )]),
            !has_name(self.rows(), name@) ==> entry is None,
    {
        let key = String::from_str(name);
        match self.find(&key) {
            Some(i) => Some(&self.entries[i]),
            None => None,
        }
    }

    /// Reset all statistics: no entries remain.
    pub fn reset(&mut self)
        ensures
            final(self).rows() == Seq::<ProfileEntry>::empty(),
            final(self).on() == old(self).on(),
    {
        self.entries = Vec::new();
    }

    /// Reset specific entry: the entry named `name`, if there is one, keeps
    /// its name and place and returns to having recorded nothing.
    pub fn reset_entry(&mut self, name: &str)
        ensures
            has_name(old(self).rows(), name@) ==> row_set(
                old(self).rows(),
                final(self).rows(),
                name@,
                empty_stats(),
            ),
            !has_name(old(self).rows(), name@) ==> final(self).rows() == old(self).rows(),
            final(self).on() == old(self).on(),
    {
        proof {
            use_type_invariant(&*self);
        }
        let key = String::from_str(name);
        match self.find(&key) {
            Some(i) => {
                let ghost rows0 = self.entries@;
                let mut rows: Vec<ProfileEntry> = Vec::new();
                std::mem::swap(&mut rows, &mut self.entries);
                let old_entry = rows.remove(i);
                let fresh = ProfileEntry::new(old_entry.name);
                rows.insert(i, fresh);
                proof {
                    assert forall|a: int, b: int|
                        0 <= a < rows@.len() && 0 <= b < rows@.len() && a != b implies #[trigger] rows@[a].name@
                        != #[trigger] rows@[b].name@ by {
                        if a != i {
                            assert(rows@[a] == rows0[a]);
                        }
                        if b != i {
                            assert(rows@[b] == rows0[b]);
                        }
                    }
                }
                self.entries = rows;
            },
            None => {},
        }
    }
}

impl Default for Profiler {
    fn default() -> (p: Self)
        ensures
            p.rows() == Seq::<ProfileEntry>::empty(),
            p.on(),
    {
        Self::new()
    }
}

/// A new entry is consistent, and recording a call keeps an entry
/// consistent (while the total stays within `Duration::MAX`).
pub proof fn lemma_record_keeps_consistent(s: ProfileStats, d: nat)
    requires
        consistent_stats(s),
        s.total + d <= max_duration_nanos(),
    ensures
        consistent_stats(empty_stats()),
        consistent_stats(recorded(s, d)),
{
    let r = recorded(s, d);
    if s.count == 0 {
        assert(r.min == d && r.max == d && r.total == d && r.count == 1);
        assert(r.count * r.min == d && r.count * r.max == d) by (nonlinear_arith)
            requires
                r.count == 1,
                r.min == d,
                r.max == d,
        ;
    } else {
        assert(s.count * r.min <= s.count * s.min) by (nonlinear_arith)
            requires
                r.min <= s.min,
        ;
        assert(s.count * s.max <= s.count * r.max) by (nonlinear_arith)
            requires
                s.max <= r.max,
        ;
        assert(r.count * r.min == s.count * r.min + r.min) by (nonlinear_arith)
            requires
                r.count == s.count + 1,
        ;
        assert(r.count * r.max == s.count * r.max + r.max) by (nonlinear_arith)
            requires
                r.count == s.count + 1,
        ;
    }
}

/// Recording calls keeps count and total exact: after recording `d`, the
/// count grows by one and the total by `d`, and `d` lies between the new
/// shortest and longest call.
pub proof fn lemma_record_bounds_call(s: ProfileStats, d: nat)
    ensures
        recorded(s, d).count == s.count + 1,
        recorded(s, d).total == s.total + d,
        recorded(s, d).min <= d <= recorded(s, d).max,
        recorded(s, d).min <= s.min,
        recorded(s, d).max >= s.max,
{
}

/// The statistics after recording the calls `ds` (in nanoseconds), in
/// order, into a new entry.
pub open spec fn stats_after(ds: Seq<nat>) -> ProfileStats
    decreases ds.len(),
{
    if ds.len() == 0 {
        empty_stats()
    } else {
        recorded(stats_after(ds.drop_last()), ds.last())
    }
}

/// The sum of `ds`.
pub open spec fn seq_sum(ds: Seq<nat>) -> nat
    decreases ds.len(),
{
    if ds.len() == 0 {
        0
    } else {
        seq_sum(ds.drop_last()) + ds.last()
    }
}

/// Recording calls into a new entry gives the running statistics: the
/// count of calls, their total, and as shortest and longest call the
/// smallest and the largest of them (before any call, `Duration::MAX` and
/// zero).
pub proof fn lemma_records_give_running_stats(ds: Seq<nat>)
    requires
        forall|i: int| 0 <= i < ds.len() ==> ds[i] <= max_duration_nanos(),
    ensures
        stats_after(ds).count == ds.len(),
        stats_after(ds).total == seq_sum(ds),
        ds.len() == 0 ==> stats_after(ds) == empty_stats(),
        forall|i: int|
            0 <= i < ds.len() ==> stats_after(ds).min <= #[trigger] ds[i] <= stats_after(ds).max,
        ds.len() > 0 ==> exists|i: int| 0 <= i < ds.len() && stats_after(ds).min == #[trigger] ds[i],
        ds.len() > 0 ==> exists|j: int| 0 <= j < ds.len() && stats_after(ds).max == #[trigger] ds[j],
    decreases ds.len(),
{
    if ds.len() > 0 {
        let t = ds.drop_last();
        assert forall|i: int| 0 <= i < t.len() implies t[i] <= max_duration_nanos() by {
            assert(t[i] == ds[i]);
        }
        lemma_records_give_running_stats(t);
        let s0 = stats_after(t);
        let l = ds.last();
        assert forall|i: int| 0 <= i < ds.len() implies stats_after(ds).min <= #[trigger] ds[i]
            <= stats_after(ds).max by {
            if i < t.len() {
                assert(ds[i] == t[i]);
            }
        }
        if t.len() == 0 {
            assert(stats_after(ds).min == ds[0]);
            assert(stats_after(ds).max == ds[0]);
        } else {
            if l < s0.min {
                assert(stats_after(ds).min == ds[ds.len() - 1]);
            } else {
                let i = choose|i: int| 0 <= i < t.len() && s0.min == #[trigger] t[i];
                assert(stats_after(ds).min == ds[i]);
            }
            if l > s0.max {
                assert(stats_after(ds).max == ds[ds.len() - 1]);
            } else {
                let j = choose|j: int| 0 <= j < t.len() && s0.max == #[trigger] t[j];
                assert(stats_after(ds).max == ds[j]);
            }
        }
    }
}

/// For consistent statistics with at least one call, the average lies
/// between the shortest and the longest call.
pub proof fn lemma_average_between_min_and_max(s: ProfileStats)
    requires
        consistent_stats(s),
        0 < s.count,
    ensures
        s.min <= average_nanos(s) <= s.max,
{
    let c = s.count;
    let q = s.total / c;
    vstd::arithmetic::div_mod::lemma_fundamental_div_mod(s.total as int, c as int);
    assert(s.min <= q) by (nonlinear_arith)
        requires
            c * s.min <= s.total,
            q == s.total / c,
            c > 0,
    ;
    assert(q <= s.max) by (nonlinear_arith)
        requires
            s.total <= c * s.max,
            q == s.total / c,
            c > 0,
    ;
}

/// The average rounds down to whole nanoseconds: with at least one call,
/// the average times the count is at most the total, and one nanosecond
/// more per call would pass it.
pub proof fn lemma_average_rounds_down(s: ProfileStats)
    requires
        s.count > 0,
    ensures
        average_nanos(s) * s.count <= s.total < (average_nanos(s) + 1) * s.count,
{
    let q = s.total / s.count;
    vstd::arithmetic::div_mod::lemma_fundamental_div_mod(s.total as int, s.count as int);
    assert(q * s.count <= s.total < (q + 1) * s.count) by (nonlinear_arith)
        requires
            s.total == s.count * q + s.total % s.count,
            0 <= s.total % s.count < s.count,
    ;
}

} // verus!
