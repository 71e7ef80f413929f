//! Navigation metrics: counters of hints, focus switches and errors, and
//! bounded timing samples with their statistics (count, sum, minimum,
//! maximum and percentiles; the mean is the sum over the count).
use vstd::prelude::*;

verus! {

broadcast use vstd::seq_lib::to_multiset_insert, vstd::seq_lib::to_multiset_build;

/// Most timing samples kept; older ones are overwritten in turn.
pub const MAX_TIMING_SAMPLES: usize = 100;

/// Default reporting interval in seconds.
pub const DEFAULT_REPORT_INTERVAL_SECS: u64 = 60;

/// A bounded ring of timing samples.
#[derive(Debug, Clone)]
pub struct TimingSamples {
    samples: Vec<u64>,
    next_index: usize,
}

/// `t` is `s` in non-decreasing order.
pub open spec fn sorted_copy(s: Seq<u64>, t: Seq<u64>) -> bool {
    &&& t.to_multiset() == s.to_multiset()
    &&& forall|a: int, b: int| 0 <= a < b < t.len() ==> t[a] <= t[b]
}

/// The sum of a sequence of samples.
pub open spec fn sum_of(s: Seq<u64>) -> int
    decreases s.len(),
{
    if s.len() == 0 {
        0
    } else {
        sum_of(s.drop_last()) + s.last()
    }
}

/// Statistics of a set of samples.
#[derive(Debug, Clone, Copy, PartialEq, Eq, Structural)]
pub struct SampleStats {
    pub count: usize,
    pub sum: u128,
    pub min: u64,
    pub max: u64,
    pub p50: u64,
    pub p95: u64,
    pub p99: u64,
}

/// Statistics of no samples.
pub open spec fn empty_stats() -> SampleStats {
    SampleStats { count: 0, sum: 0, min: 0, max: 0, p50: 0, p95: 0, p99: 0 }
}

/// `st` are the statistics of the samples `s`: zero for none; else their
/// count, sum, minimum, maximum, and the values at the middle, 95th and 99th
/// percentile positions of the sorted samples.
pub open spec fn stats_of(s: Seq<u64>, st: SampleStats) -> bool {
    let n = s.len();
    if n == 0 {
        st == empty_stats()
    } else {
        &&& st.count == n
        &&& st.sum == sum_of(s)
        &&& s.contains(st.min) && forall|i: int| 0 <= i < n ==> st.min <= s[i]
        &&& s.contains(st.max) && forall|i: int| 0 <= i < n ==> s[i] <= st.max
        &&& exists|t: Seq<u64>|
            sorted_copy(s, t) && st.p50 == t[(n / 2) as int] && st.p95 == t[((n * 95) / 100) as int] && st.p99
                == t[((n * 99) / 100) as int]
    }
}

/// `after` is `before` with the sample `v` added: appended while there is
/// room; once the ring is full, written over the oldest sample, at the next
/// slot, which then moves on by one around the ring.
pub open spec fn sample_added(before: TimingSamples, after: TimingSamples, v: u64) -> bool {
    if before.spec_samples().len() < MAX_TIMING_SAMPLES {
        &&& after.spec_samples() == before.spec_samples().push(v)
        &&& after.spec_next() == before.spec_next()
    } else {
        &&& after.spec_samples() == before.spec_samples().update(before.spec_next() as int, v)
        &&& after.spec_next() == (before.spec_next() + 1) % (MAX_TIMING_SAMPLES as nat)
    }
}

/// The samples and next slot of a ring that started empty and had the
/// values `vs` added in order.
pub open spec fn ring_after(vs: Seq<u64>) -> (Seq<u64>, nat)
    decreases vs.len(),
{
    if vs.len() == 0 {
        (seq![], 0)
    } else {
        let (s, n) = ring_after(vs.drop_last());
        if s.len() < MAX_TIMING_SAMPLES {
            (s.push(vs.last()), n)
        } else {
            (s.update(n as int, vs.last()), (n + 1) % (MAX_TIMING_SAMPLES as nat))
        }
    }
}

/// How many of `n` added values a ring keeps.
pub open spec fn kept_count(n: nat) -> nat {
    if n < MAX_TIMING_SAMPLES {
        n
    } else {
        MAX_TIMING_SAMPLES as nat
    }
}

/// Read from its next slot around, the ring holds the values last added, in
/// the order they came.
proof fn lemma_ring_rotation(vs: Seq<u64>)
    ensures
        ring_after(vs).0.len() == kept_count(vs.len()),
        ring_after(vs).1 < MAX_TIMING_SAMPLES,
        vs.len() < MAX_TIMING_SAMPLES ==> ring_after(vs).0 == vs && ring_after(vs).1 == 0,
        vs.len() >= MAX_TIMING_SAMPLES ==> ({
            let (s, n) = ring_after(vs);
            s.skip(n as int) + s.take(n as int) == vs.skip(vs.len() - MAX_TIMING_SAMPLES)
        }),
    decreases vs.len(),
{
    if vs.len() > 0 {
        let prev = vs.drop_last();
        let v = vs.last();
        lemma_ring_rotation(prev);
        let (s, n) = ring_after(prev);
        let m = MAX_TIMING_SAMPLES as int;
        if s.len() < MAX_TIMING_SAMPLES {
            assert(prev.push(v) =~= vs);
            if vs.len() >= MAX_TIMING_SAMPLES {
                let s2 = s.push(v);
                assert(s2.skip(0) + s2.take(0) =~= s2);
                assert(vs.skip(vs.len() - m) =~= vs);
            }
        } else {
            let s2 = s.update(n as int, v);
            let r = s.skip(n as int) + s.take(n as int);
            assert(r == prev.skip(prev.len() - m));
            assert(vs.skip(vs.len() - m) =~= r.drop_first().push(v));
            if n + 1 < m {
                assert((n + 1) % (MAX_TIMING_SAMPLES as nat) == n + 1);
                assert(s2.skip(n + 1int) + s2.take(n + 1int) =~= r.drop_first().push(v));
            } else {
                assert((n + 1) % (MAX_TIMING_SAMPLES as nat) == 0);
                assert(s2.skip(0) + s2.take(0) =~= r.drop_first().push(v));
            }
        }
    }
}

/// Whatever values are added in order to an empty ring, it keeps the last
/// `MAX_TIMING_SAMPLES` of them (all of them while there are fewer): as
/// many samples, and the same samples counted with multiplicity.
pub proof fn lemma_ring_keeps_last_samples(vs: Seq<u64>)
    ensures
        ring_after(vs).0.len() == kept_count(vs.len()),
        ring_after(vs).0.to_multiset() == vs.skip(vs.len() - kept_count(vs.len())).to_multiset(),
{
    lemma_ring_rotation(vs);
    let (s, n) = ring_after(vs);
    if vs.len() < MAX_TIMING_SAMPLES {
        assert(vs.skip(0) =~= vs);
    } else {
        vstd::seq_lib::lemma_multiset_commutative(s.skip(n as int), s.take(n as int));
        vstd::seq_lib::lemma_multiset_commutative(s.take(n as int), s.skip(n as int));
        assert(s.take(n as int) + s.skip(n as int) =~= s);
    }
}

/// Adding a sample to a ring in the state `ring_after(vs)` leads to the
/// state `ring_after(vs.push(v))`; a new ring is in the state of no values.
pub proof fn lemma_add_sample_follows_ring(before: TimingSamples, after: TimingSamples, vs: Seq<u64>, v: u64)
    requires
        before.wf(),
        (before.spec_samples(), before.spec_next()) == ring_after(vs),
        sample_added(before, after, v),
    ensures
        (after.spec_samples(), after.spec_next()) == ring_after(vs.push(v)),
{
    assert(vs.push(v).drop_last() =~= vs);
}

impl TimingSamples {
    /// The samples kept, in ring order.
    pub closed spec fn spec_samples(&self) -> Seq<u64> {
        self.samples@
    }

    /// The slot the next sample overwrites once the ring is full.
    pub closed spec fn spec_next(&self) -> nat {
        self.next_index as nat
    }

    /// At most the bounded number of samples; the next slot is within the
    /// ring, and the first one until the ring is full.
    pub open spec fn wf(&self) -> bool {
        &&& self.spec_samples().len() <= MAX_TIMING_SAMPLES
        &&& self.spec_next() < MAX_TIMING_SAMPLES
        &&& self.spec_samples().len() < MAX_TIMING_SAMPLES ==> self.spec_next() == 0
    }

    /// No samples.
    pub fn new() -> (t: Self)
        ensures
            t.wf(),
            t.spec_samples() == Seq::<u64>::empty(),
            (t.spec_samples(), t.spec_next()) == ring_after(Seq::<u64>::empty()),
    {
        TimingSamples { samples: Vec::new(), next_index: 0 }
    }

    /// Add a sample: appended while there is room, else overwriting the
    /// oldest.
    pub fn add_sample(&mut self, value: u64)
        requires
            old(self).wf(),
        ensures
            final(self).wf(),
            sample_added(*old(self), *final(self), value),
            forall|vs: Seq<u64>|
                (old(self).spec_samples(), old(self).spec_next()) == #[trigger] ring_after(vs) ==> (
                final(self).spec_samples(),
                final(self).spec_next(),
            ) == ring_after(vs.push(value)),
    {
        if self.samples.len() < MAX_TIMING_SAMPLES {
            self.samples.push(value);
        } else {
            self.samples.set(self.next_index, value);
            self.next_index = (self.next_index + 1) % MAX_TIMING_SAMPLES;
        }
        proof {
            assert forall|vs: Seq<u64>|
                (old(self).spec_samples(), old(self).spec_next()) == #[trigger] ring_after(vs) implies (
                self.spec_samples(),
                self.spec_next(),
            ) == ring_after(vs.push(value)) by {
                lemma_add_sample_follows_ring(*old(self), *self, vs, value);
            }
        }
    }

    /// Remove every sample.
    pub fn clear(&mut self)
        ensures
            final(self).wf(),
            final(self).spec_samples() == Seq::<u64>::empty(),
    {
        self.samples.clear();
        self.next_index = 0;
    }

    /// Statistics of the samples: zero for none; else their count, sum,
    /// minimum, maximum, and the values at the middle, 95th and 99th
    /// percentile positions of the sorted samples.
    pub fn compute_stats(&self) -> (st: SampleStats)
        requires
            self.wf(),
        ensures
            stats_of(self.spec_samples(), st),
    {
        let n = self.samples.len();
        if n == 0 {
            return SampleStats { count: 0, sum: 0, min: 0, max: 0, p50: 0, p95: 0, p99: 0 };
        }
        let mut sum: u128 = 0;
        let mut min = self.samples[0];
        let mut max = self.samples[0];
        let mut i: usize = 0;
        while i < n
            invariant
                n == self.samples@.len(),
                n <= MAX_TIMING_SAMPLES,
                0 < n,
                i <= n,
                sum == sum_of(self.samples@.take(i as int)),
                sum <= i * 0xFFFF_FFFF_FFFF_FFFFu64,
                self.samples@.contains(min) && self.samples@.contains(max),
                forall|j: int| 0 <= j < i ==> min <= self.samples@[j] && self.samples@[j] <= max,
            decreases n - i,
        {
            let v = self.samples[i];
            proof {
                assert(self.samples@.take(i + 1).drop_last() =~= self.samples@.take(i as int));
            }
            sum = sum + v as u128;
            if v < min {
                min = v;
            }
            if v > max {
                max = v;
            }
            i = i + 1;
        }
        proof {
            assert(self.samples@.take(n as int) =~= self.samples@);
        }
        let sorted = sorted_samples(&self.samples);
        proof {
            assert((n * 95) / 100 < n) by (nonlinear_arith) requires n > 0;
            assert((n * 99) / 100 < n) by (nonlinear_arith) requires n > 0;
            assert(sorted@.len() == n) by {
                vstd::seq_lib::to_multiset_len(sorted@);
                vstd::seq_lib::to_multiset_len(self.samples@);
            }
        }
        SampleStats {
            count: n,
            sum,
            min,
            max,
            p50: sorted[n / 2],
            p95: sorted[(n * 95) / 100],
            p99: sorted[(n * 99) / 100],
        }
    }
}

/// The samples in non-decreasing order, by insertion.
fn sorted_samples(s: &Vec<u64>) -> (t: Vec<u64>)
    ensures
        sorted_copy(s@, t@),
{
    let mut t: Vec<u64> = Vec::new();
    let mut i: usize = 0;
    proof {
        assert(s@.take(0) =~= t@);
    }
    while i < s.len()
        invariant
            i <= s@.len(),
            t@.to_multiset() == s@.take(i as int).to_multiset(),
            forall|a: int, b: int| 0 <= a < b < t@.len() ==> t@[a] <= t@[b],
        decreases s.len() - i,
    {
        let v = s[i];
        let mut k: usize = 0;
        while k < t.len() && t[k] <= v
            invariant
                k <= t@.len(),
                forall|m: int| 0 <= m < k ==> t@[m] <= v,
            decreases t.len() - k,
        {
            k = k + 1;
        }
        let ghost before = t@;
        t.insert(k, v);
        proof {
            assert(s@.take(i + 1) =~= s@.take(i as int).push(v));
            assert forall|a: int, b: int| 0 <= a < b < t@.len() implies t@[a] <= t@[b] by {
                if b < k {
                    assert(t@[a] == before[a] && t@[b] == before[b]);
                } else if b == k {
                    assert(t@[a] == before[a]);
                } else if a == k {
                    assert(t@[b] == before[b - 1]);
                    if k < before.len() {
                        assert(before[k as int] > v);
                        if b - 1 > k {
                            assert(before[k as int] <= before[b - 1]);
                        }
                    }
                } else if a < k {
                    assert(t@[a] == before[a] && t@[b] == before[b - 1]);
                } else {
                    assert(t@[a] == before[a - 1] && t@[b] == before[b - 1]);
                }
            }
        }
        i = i + 1;
    }
    proof {
        assert(s@.take(s@.len() as int) =~= s@);
    }
    t
}

// ==================== Counters ====================

/// Navigation metrics: counters (wrapping like atomic counters do) and
/// timing samples of hint generation (milliseconds) and input latency
/// (microseconds).
#[derive(Debug, Clone)]
pub struct NavMetrics {
    pub hints_generated: u64,
    pub focus_switches: u64,
    pub nav_errors: u64,
    pub hint_gen_times: TimingSamples,
    pub nav_input_latency: TimingSamples,
    pub report_interval_secs: u64,
}

/// A report of the navigation metrics.
#[derive(Debug, Clone, Copy, PartialEq, Eq, Structural)]
pub struct NavMetricsReport {
    pub hints_generated: u64,
    pub focus_switches: u64,
    pub nav_errors: u64,
    /// Hint generation timing (milliseconds)
    pub hint_generation_ms: SampleStats,
    /// Navigation input latency (microseconds)
    pub input_latency_us: SampleStats,
}

impl NavMetrics {
    /// The hint generation samples.
    pub closed spec fn hint_samples(&self) -> Seq<u64> {
        self.hint_gen_times.spec_samples()
    }

    /// The input latency samples.
    pub closed spec fn latency_samples(&self) -> Seq<u64> {
        self.nav_input_latency.spec_samples()
    }

    /// Both sample rings are well formed.
    pub closed spec fn wf(&self) -> bool {
        self.hint_gen_times.wf() && self.nav_input_latency.wf()
    }

    /// Zeroed metrics reporting every `report_interval_secs` seconds.
    pub fn new(report_interval_secs: u64) -> (m: Self)
        ensures
            m.wf(),
            m.hints_generated == 0 && m.focus_switches == 0 && m.nav_errors == 0,
            m.hint_samples().len() == 0 && m.latency_samples().len() == 0,
            m.report_interval_secs == report_interval_secs,
    {
        NavMetrics {
            hints_generated: 0,
            focus_switches: 0,
            nav_errors: 0,
            hint_gen_times: TimingSamples::new(),
            nav_input_latency: TimingSamples::new(),
            report_interval_secs,
        }
    }

    /// Zeroed metrics with the default reporting interval.
    pub fn default() -> (m: Self)
        ensures
            m.wf(),
            m.hints_generated == 0 && m.focus_switches == 0 && m.nav_errors == 0,
            m.hint_samples().len() == 0 && m.latency_samples().len() == 0,
            m.report_interval_secs == DEFAULT_REPORT_INTERVAL_SECS,
    {
        Self::new(DEFAULT_REPORT_INTERVAL_SECS)
    }

    /// Record `count` generated hints, and the time it took when known.
    pub fn record_hint_generation(&mut self, count: u64, millis: Option<u64>)
        requires
            old(self).wf(),
        ensures
            final(self).wf(),
            final(self).hints_generated == (old(self).hints_generated + count) % 0x1_0000_0000_0000_0000,
            final(self).focus_switches == old(self).focus_switches,
            final(self).nav_errors == old(self).nav_errors,
            final(self).latency_samples() == old(self).latency_samples(),
            millis is None ==> final(self).hint_gen_times == old(self).hint_gen_times,
            millis matches Some(ms) ==> sample_added(old(self).hint_gen_times, final(self).hint_gen_times, ms),
            millis matches Some(ms) ==> final(self).hint_samples().contains(ms),
    {
        self.hints_generated = self.hints_generated.wrapping_add(count);
        if let Some(ms) = millis {
            self.hint_gen_times.add_sample(ms);
            proof {
                let s = self.hint_gen_times.spec_samples();
                if old(self).hint_gen_times.spec_samples().len() < MAX_TIMING_SAMPLES {
                    assert(s[s.len() - 1] == ms);
                } else {
                    assert(s[old(self).hint_gen_times.spec_next() as int] == ms);
                }
            }
        }
    }

    /// Record a focus switch.
    pub fn record_focus_switch(&mut self)
        ensures
            final(self).focus_switches == (old(self).focus_switches + 1) % 0x1_0000_0000_0000_0000,
            final(self).hints_generated == old(self).hints_generated,
            final(self).nav_errors == old(self).nav_errors,
            final(self).hint_samples() == old(self).hint_samples(),
            final(self).latency_samples() == old(self).latency_samples(),
            old(self).wf() ==> final(self).wf(),
    {
        self.focus_switches = self.focus_switches.wrapping_add(1);
    }

    /// Record an input latency, in microseconds.
    pub fn record_nav_input_latency(&mut self, micros: u64)
        requires
            old(self).wf(),
        ensures
            final(self).wf(),
            sample_added(old(self).nav_input_latency, final(self).nav_input_latency, micros),
            final(self).latency_samples().contains(micros),
            final(self).hints_generated == old(self).hints_generated,
            final(self).focus_switches == old(self).focus_switches,
            final(self).nav_errors == old(self).nav_errors,
            final(self).hint_samples() == old(self).hint_samples(),
    {
        self.nav_input_latency.add_sample(micros);
        proof {
            let s = self.nav_input_latency.spec_samples();
            if old(self).nav_input_latency.spec_samples().len() < MAX_TIMING_SAMPLES {
                assert(s[s.len() - 1] == micros);
            } else {
                assert(s[old(self).nav_input_latency.spec_next() as int] == micros);
            }
        }
    }

    /// Record a navigation error.
    pub fn record_error(&mut self)
        ensures
            final(self).nav_errors == (old(self).nav_errors + 1) % 0x1_0000_0000_0000_0000,
            final(self).hints_generated == old(self).hints_generated,
            final(self).focus_switches == old(self).focus_switches,
            final(self).hint_samples() == old(self).hint_samples(),
            final(self).latency_samples() == old(self).latency_samples(),
            old(self).wf() ==> final(self).wf(),
    {
        self.nav_errors = self.nav_errors.wrapping_add(1);
    }

    /// Whether a report is due `elapsed_secs` seconds after the last one.
    pub fn should_report(&self, elapsed_secs: u64) -> (r: bool)
        ensures
            r == (elapsed_secs >= self.report_interval_secs),
    {
        elapsed_secs >= self.report_interval_secs
    }

    /// The current metrics.
    pub fn report(&self) -> (r: NavMetricsReport)
        requires
            self.wf(),
        ensures
            r.hints_generated == self.hints_generated,
            r.focus_switches == self.focus_switches,
            r.nav_errors == self.nav_errors,
            stats_of(self.hint_samples(), r.hint_generation_ms),
            stats_of(self.latency_samples(), r.input_latency_us),
    {
        NavMetricsReport {
            hints_generated: self.hints_generated,
            focus_switches: self.focus_switches,
            nav_errors: self.nav_errors,
            hint_generation_ms: self.hint_gen_times.compute_stats(),
            input_latency_us: self.nav_input_latency.compute_stats(),
        }
    }

    /// Reset the counters and samples to zero.
    pub fn reset(&mut self)
        ensures
            final(self).wf(),
            final(self).hints_generated == 0 && final(self).focus_switches == 0 && final(self).nav_errors == 0,
            final(self).hint_samples().len() == 0 && final(self).latency_samples().len() == 0,
            final(self).report_interval_secs == old(self).report_interval_secs,
    {
        self.hints_generated = 0;
        self.focus_switches = 0;
        self.nav_errors = 0;
        self.hint_gen_times.clear();
        self.nav_input_latency.clear();
    }
}

/// How often the metrics are reported: every `report_interval_secs`
/// seconds, never when zero.
#[derive(Debug, Clone, Copy, PartialEq, Eq, Structural)]
pub struct NavMetricsPlugin {
    pub report_interval_secs: u64,
}

impl NavMetricsPlugin {
    /// Reporting at the default interval.
    pub fn default() -> (p: Self)
        ensures
            p.report_interval_secs == DEFAULT_REPORT_INTERVAL_SECS,
    {
        NavMetricsPlugin { report_interval_secs: DEFAULT_REPORT_INTERVAL_SECS }
    }

    /// Reporting every `secs` seconds.
    pub fn with_interval(secs: u64) -> (p: Self)
        ensures
            p.report_interval_secs == secs,
    {
        NavMetricsPlugin { report_interval_secs: secs }
    }

    /// Never reporting.
    pub fn disabled() -> (p: Self)
        ensures
            p.report_interval_secs == 0,
    {
        NavMetricsPlugin { report_interval_secs: 0 }
    }
}

} // verus!
