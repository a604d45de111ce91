//! Sampling geometry of one coherent processing interval.
//!
//! A pulse repetition interval holds `n_fast` fast-time samples, the
//! transmitted pulse is `pulse_len` samples long and `num_pulses` pulses are
//! sent. Everything that the signal chain indexes by follows from these
//! three counts: which samples an echo falls on, which samples the matched
//! filter sums for a range bin, where the centre of a range bin lies, and how
//! many range and Doppler bins the products have.

use vstd::prelude::*;
use vstd::math::{abs, max, min};
use vstd::set_lib::{lemma_int_range, set_int_range};

verus! {

/// Number of pulses of a run that does not ask for another.
pub const DEFAULT_NUM_PULSES: usize = 32;

/// A half-open run `[start, end)` of fast-time sample indices. A run whose
/// `end` is not above its `start` holds no index.
#[derive(Clone, Copy, Debug, PartialEq, Eq)]
pub struct Span {
    pub start: usize,
    pub end: usize,
}

impl View for Span {
    type V = Set<int>;

    /// The indices of the run.
    open spec fn view(&self) -> Set<int> {
        set_int_range(self.start as int, self.end as int)
    }
}

/// The run `[lo, hi)` met with the run `[lo2, hi2)` is the run between the
/// larger of the two starts and the smaller of the two ends.
pub proof fn lemma_runs_meet(lo: int, hi: int, lo2: int, hi2: int)
    ensures
        set_int_range(lo, hi).intersect(set_int_range(lo2, hi2)) == set_int_range(
            max(lo, lo2),
            min(hi, hi2),
        ),
{
    assert(set_int_range(lo, hi).intersect(set_int_range(lo2, hi2)) =~= set_int_range(
        max(lo, lo2),
        min(hi, hi2),
    ));
}

/// A run holds `hi - lo` indices, and none where `hi` is not above `lo`.
pub proof fn lemma_run_len(lo: int, hi: int)
    ensures
        set_int_range(lo, hi).finite(),
        set_int_range(lo, hi).len() == if lo <= hi { hi - lo } else { 0 },
{
    if lo <= hi {
        lemma_int_range(lo, hi);
    } else {
        assert(set_int_range(lo, hi) =~= Set::<int>::empty());
    }
}

impl Span {
    /// The run `[start, end)`.
    pub fn new(start: usize, end: usize) -> (span: Span)
        ensures
            span.start == start,
            span.end == end,
    {
        Span { start, end }
    }

    /// How many indices the run holds.
    pub fn len(&self) -> (n: usize)
        ensures
            n == self@.len(),
            n == if self.start <= self.end { self.end - self.start } else { 0 },
    {
        proof {
            lemma_run_len(self.start as int, self.end as int);
        }
        if self.start <= self.end {
            self.end - self.start
        } else {
            0
        }
    }

    /// Whether the run holds no index.
    pub fn is_empty(&self) -> (empty: bool)
        ensures
            empty <==> self@ == Set::<int>::empty(),
            empty <==> self.end <= self.start,
    {
        proof {
            if self.start < self.end {
                assert(self@.contains(self.start as int));
            } else {
                assert(self@ =~= Set::<int>::empty());
            }
        }
        self.end <= self.start
    }

    /// Whether `index` lies in the run.
    pub fn contains(&self, index: usize) -> (inside: bool)
        ensures
            inside <==> self@.contains(index as int),
    {
        self.start <= index && index < self.end
    }

    /// The indices that lie in both runs, again as a run. The result of
    /// meeting two runs with nothing in common starts and ends at the larger
    /// of the two starts.
    pub fn intersect(&self, other: &Span) -> (both: Span)
        ensures
            both@ == self@.intersect(other@),
            both.start == max(self.start as int, other.start as int),
            both.end == max(both.start as int, min(self.end as int, other.end as int)),
    {
        let start: usize = if self.start >= other.start { self.start } else { other.start };
        let upper: usize = if self.end <= other.end { self.end } else { other.end };
        let end: usize = if upper >= start { upper } else { start };
        let both = Span { start, end };
        proof {
            lemma_runs_meet(
                self.start as int,
                self.end as int,
                other.start as int,
                other.end as int,
            );
            assert(both@ =~= set_int_range(start as int, upper as int));
        }
        both
    }
}

/// The three counts of a geometry as natural numbers.
pub struct GeometryModel {
    /// Fast-time samples in one pulse repetition interval.
    pub n_fast: nat,
    /// Samples that the transmitted pulse lasts.
    pub pulse_len: nat,
    /// Pulses sent.
    pub num_pulses: nat,
}

impl GeometryModel {
    /// A pulse lasts one sample at least.
    pub open spec fn valid(self) -> bool {
        self.pulse_len >= 1
    }

    /// The pulse fits into the receive window.
    pub open spec fn regular(self) -> bool {
        self.pulse_len <= self.n_fast
    }

    /// Count of range bins: one for each place at which the whole pulse fits
    /// into the receive window, and one where it fits nowhere.
    pub open spec fn range_bins(self) -> nat {
        max(1, self.n_fast - self.pulse_len + 1) as nat
    }

    /// Count of Doppler bins: one for each pulse.
    pub open spec fn doppler_bins(self) -> nat {
        self.num_pulses
    }

    /// The samples `first, first + 1, ..` of a pulse that starts at `first`,
    /// as far as they lie in the receive window.
    pub open spec fn pulse_window(self, first: nat) -> Set<int> {
        set_int_range(first as int, (first + self.pulse_len) as int).intersect(
            set_int_range(0, self.n_fast as int),
        )
    }

    /// The samples on which the echo of a target falls whose round trip
    /// takes `delay` samples.
    pub open spec fn echo_window(self, delay: nat) -> Set<int> {
        self.pulse_window(delay)
    }

    /// The samples that the matched filter sums for range bin `bin`.
    pub open spec fn filter_window(self, bin: nat) -> Set<int> {
        self.pulse_window(bin)
    }

    /// The sample at the centre of range bin `bin`, if the receive window
    /// holds it.
    pub open spec fn doppler_center(self, bin: nat) -> Option<nat> {
        let center: nat = bin + self.pulse_len / 2;
        if center < self.n_fast {
            Some(center)
        } else {
            None
        }
    }

    /// How many samples of the echo of a target at `delay` the matched
    /// filter sums for range bin `bin`.
    pub open spec fn echo_overlap(self, bin: nat, delay: nat) -> nat {
        self.filter_window(bin).intersect(self.echo_window(delay)).len()
    }
}

/// However the pulse and the receive window compare, there is a range bin:
/// as many as there are places for the whole pulse where it fits, and one
/// where it is longer than the window.
pub proof fn lemma_range_bins_never_vanish(geometry: GeometryModel)
    requires
        geometry.valid(),
    ensures
        geometry.range_bins() >= 1,
        geometry.regular() ==> geometry.range_bins() == geometry.n_fast - geometry.pulse_len + 1,
        !geometry.regular() ==> geometry.range_bins() == 1,
        geometry.range_bins() <= max(1, geometry.n_fast as int),
{
}

/// The count of Doppler bins is the count of pulses, whatever the receive
/// window and the pulse are.
pub proof fn lemma_doppler_bins_follow_pulses(one: GeometryModel, other: GeometryModel)
    requires
        one.num_pulses == other.num_pulses,
    ensures
        one.doppler_bins() == other.doppler_bins(),
        one.doppler_bins() == one.num_pulses,
{
}

/// An echo falls on samples of the receive window only, none of them before
/// its delay and none a pulse length or more after it; an echo whose delay
/// is the length of the window or more falls on no sample at all.
pub proof fn lemma_echo_stays_in_window(geometry: GeometryModel, delay: nat)
    ensures
        forall|i: int| #[trigger]
            geometry.echo_window(delay).contains(i) ==> delay <= i < geometry.n_fast && i < delay
                + geometry.pulse_len,
        geometry.echo_window(delay).finite(),
        geometry.echo_window(delay).len() <= geometry.pulse_len,
        delay >= geometry.n_fast ==> geometry.echo_window(delay) == Set::<int>::empty(),
{
    lemma_runs_meet(delay as int, (delay + geometry.pulse_len) as int, 0, geometry.n_fast as int);
    lemma_run_len(max(delay as int, 0), min((delay + geometry.pulse_len) as int, geometry.n_fast as int));
    if delay >= geometry.n_fast {
        assert(geometry.echo_window(delay) =~= Set::<int>::empty());
    }
}

/// In a regular geometry the matched filter sums a whole pulse length of
/// samples for every range bin, and the centre of every range bin lies in
/// the receive window.
pub proof fn lemma_regular_bins_are_whole(geometry: GeometryModel, bin: nat)
    requires
        geometry.valid(),
        geometry.regular(),
        bin < geometry.range_bins(),
    ensures
        geometry.filter_window(bin) == set_int_range(bin as int, (bin + geometry.pulse_len) as int),
        geometry.filter_window(bin).len() == geometry.pulse_len,
        geometry.doppler_center(bin) == Some(bin + geometry.pulse_len / 2),
{
    lemma_runs_meet(bin as int, (bin + geometry.pulse_len) as int, 0, geometry.n_fast as int);
    lemma_run_len(bin as int, (bin + geometry.pulse_len) as int);
}

/// The matched filter's share of an echo that lies wholly in the receive
/// window is a triangle over the range bins: the whole pulse at the bin whose
/// number is the delay, one sample less with every bin of distance from it,
/// and nothing from a pulse length on. So the bin at the delay is the only
/// one that sums the whole echo.
pub proof fn lemma_overlap_peaks_at_delay(geometry: GeometryModel, bin: nat, delay: nat)
    requires
        geometry.valid(),
        delay + geometry.pulse_len <= geometry.n_fast,
        bin < geometry.range_bins(),
    ensures
        delay < geometry.range_bins(),
        geometry.echo_overlap(bin, delay) == max(0, geometry.pulse_len - abs(bin - delay)),
        geometry.echo_overlap(delay, delay) == geometry.pulse_len,
        geometry.echo_overlap(bin, delay) <= geometry.pulse_len,
        bin != delay ==> geometry.echo_overlap(bin, delay) < geometry.pulse_len,
{
    let len: int = geometry.pulse_len as int;
    let limit: int = geometry.n_fast as int;
    lemma_runs_meet(bin as int, bin + len, 0, limit);
    lemma_runs_meet(delay as int, delay + len, 0, limit);
    lemma_runs_meet(bin as int, bin + len, delay as int, delay + len);
    lemma_run_len(max(bin as int, delay as int), min(bin + len, delay + len));
    lemma_runs_meet(delay as int, delay + len, delay as int, delay + len);
    lemma_run_len(delay as int, delay + len);
}

/// The sampling geometry of a run. Its pulse is one sample long at least.
#[derive(Clone, Copy, Debug, PartialEq, Eq)]
pub struct Geometry {
    n_fast: usize,
    pulse_len: usize,
    num_pulses: usize,
}

impl View for Geometry {
    type V = GeometryModel;

    closed spec fn view(&self) -> GeometryModel {
        GeometryModel {
            n_fast: self.n_fast as nat,
            pulse_len: self.pulse_len as nat,
            num_pulses: self.num_pulses as nat,
        }
    }
}

impl Geometry {
    #[verifier::type_invariant]
    spec fn pulse_is_not_empty(self) -> bool {
        self.pulse_len >= 1
    }

    /// The geometry of `num_pulses` pulse repetition intervals of `n_fast`
    /// samples each, for a pulse that lasts `pulse_samples` samples. A pulse
    /// shorter than one sample is taken as one sample long. A run without a
    /// pulse is taken as it is: it has its range bins and no Doppler bin.
    pub fn new(n_fast: usize, pulse_samples: usize, num_pulses: usize) -> (geometry: Geometry)
        ensures
            geometry@.n_fast == n_fast,
            geometry@.pulse_len == max(1, pulse_samples as int),
            geometry@.num_pulses == num_pulses,
            geometry@.valid(),
    {
        let pulse_len: usize = if pulse_samples >= 1 { pulse_samples } else { 1 };
        Geometry { n_fast, pulse_len, num_pulses }
    }

    /// Fast-time samples in one pulse repetition interval.
    pub fn n_fast(&self) -> (n: usize)
        ensures
            n == self@.n_fast,
    {
        self.n_fast
    }

    /// Samples that the transmitted pulse lasts.
    pub fn pulse_len(&self) -> (n: usize)
        ensures
            n == self@.pulse_len,
            self@.valid(),
    {
        proof {
            use_type_invariant(self);
        }
        self.pulse_len
    }

    /// Pulses sent.
    pub fn num_pulses(&self) -> (n: usize)
        ensures
            n == self@.num_pulses,
    {
        self.num_pulses
    }

    /// Whether the pulse fits into the receive window.
    pub fn is_regular(&self) -> (regular: bool)
        ensures
            regular == self@.regular(),
    {
        self.pulse_len <= self.n_fast
    }

    /// Count of range bins. It is never zero: where the pulse is longer than
    /// the receive window there is one bin.
    pub fn n_range_bins(&self) -> (bins: usize)
        ensures
            bins == self@.range_bins(),
            bins >= 1,
    {
        proof {
            use_type_invariant(self);
        }
        if self.n_fast >= self.pulse_len {
            self.n_fast - self.pulse_len + 1
        } else {
            1
        }
    }

    /// Count of Doppler bins, which is the count of pulses: none for a run
    /// without a pulse.
    pub fn n_doppler_bins(&self) -> (bins: usize)
        ensures
            bins == self@.doppler_bins(),
            bins == self@.num_pulses,
    {
        self.num_pulses
    }

    /// The run of `pulse_len` samples from `first` on, cut off at the end of
    /// the receive window.
    fn pulse_span(&self, first: usize) -> (span: Span)
        ensures
            span@ == self@.pulse_window(first as nat),
            span.start == if first <= self@.n_fast { first as nat } else { self@.n_fast },
            span.end == if first + self@.pulse_len <= self@.n_fast {
                first + self@.pulse_len
            } else {
                self@.n_fast as int
            },
    {
        let start: usize = if first <= self.n_fast { first } else { self.n_fast };
        let room: usize = self.n_fast - start;
        let end: usize = if self.pulse_len <= room { start + self.pulse_len } else { self.n_fast };
        let span = Span { start, end };
        proof {
            lemma_runs_meet(first as int, first + self.pulse_len, 0, self.n_fast as int);
            assert(span@ =~= self@.pulse_window(first as nat));
        }
        span
    }

    /// The samples on which the echo of a target falls whose round trip
    /// takes `delay` samples: `delay`, `delay + 1` and so on for the length
    /// of the pulse, as far as the receive window reaches. An echo that
    /// starts at or after the end of the window falls on no sample.
    pub fn echo_span(&self, delay: usize) -> (span: Span)
        ensures
            span@ == self@.echo_window(delay as nat),
            span.start == if delay <= self@.n_fast { delay as nat } else { self@.n_fast },
            span.end == if delay + self@.pulse_len <= self@.n_fast {
                delay + self@.pulse_len
            } else {
                self@.n_fast as int
            },
            span.start <= span.end <= self@.n_fast,
            delay >= self@.n_fast ==> span.start == span.end,
    {
        proof {
            use_type_invariant(self);
        }
        self.pulse_span(delay)
    }

    /// The samples that the matched filter sums for range bin `bin`: the
    /// `pulse_len` samples from `bin` on, as far as the receive window
    /// reaches. For a bin of a regular geometry none is cut off.
    pub fn filter_span(&self, bin: usize) -> (span: Span)
        ensures
            span@ == self@.filter_window(bin as nat),
            span.start == if bin <= self@.n_fast { bin as nat } else { self@.n_fast },
            span.end == if bin + self@.pulse_len <= self@.n_fast {
                bin + self@.pulse_len
            } else {
                self@.n_fast as int
            },
            span.start <= span.end <= self@.n_fast,
            self@.regular() && bin < self@.range_bins() ==> span.end - span.start
                == self@.pulse_len,
    {
        proof {
            use_type_invariant(self);
        }
        self.pulse_span(bin)
    }

    /// The sample at the centre of range bin `bin`, half a pulse after the
    /// bin's first sample, or `None` where the receive window ends before
    /// it. Every bin of a regular geometry has its centre in the window.
    ///
    /// The slow-time sequence of a range bin takes the phase of every target
    /// at this sample, whether or not the echo of the target falls into the
    /// bin: the centre depends on the bin alone.
    pub fn doppler_center(&self, bin: usize) -> (center: Option<usize>)
        ensures
            center matches Some(c) ==> self@.doppler_center(bin as nat) == Some(c as nat),
            center is None ==> self@.doppler_center(bin as nat) is None,
            self@.regular() && bin < self@.range_bins() ==> center is Some,
    {
        proof {
            use_type_invariant(self);
        }
        match bin.checked_add(self.pulse_len / 2) {
            Some(c) => if c < self.n_fast {
                Some(c)
            } else {
                None
            },
            None => None,
        }
    }

    /// How many samples of the echo of a target at `delay` the matched
    /// filter sums for range bin `bin`.
    pub fn echo_overlap(&self, bin: usize, delay: usize) -> (count: usize)
        ensures
            count == self@.echo_overlap(bin as nat, delay as nat),
            count <= self@.pulse_len,
    {
        let window = self.filter_span(bin);
        let echo = self.echo_span(delay);
        let both = window.intersect(&echo);
        both.len()
    }
}

/// The count of pulses of a run: the one asked for, or the default.
pub fn resolve_num_pulses(requested: Option<usize>) -> (num_pulses: usize)
    ensures
        num_pulses == match requested {
            Some(n) => n,
            None => DEFAULT_NUM_PULSES,
        },
{
    match requested {
        Some(n) => n,
        None => DEFAULT_NUM_PULSES,
    }
}

/// The round-trip delay of a target in whole samples, from the rounded
/// product of round-trip time and sampling rate: a negative one counts as
/// no delay.
pub fn delay_from_rounded(rounded: isize) -> (delay: usize)
    ensures
        delay == max(0, rounded as int),
{
    if rounded < 0 {
        0
    } else {
        rounded as usize
    }
}

/// The round-trip delays of all targets, in the order of the targets.
pub fn delays_from_rounded(rounded: &Vec<isize>) -> (delays: Vec<usize>)
    ensures
        delays@.len() == rounded@.len(),
        forall|t: int| 0 <= t < rounded@.len() ==> delays@[t] == max(0, rounded@[t] as int),
{
    let mut delays: Vec<usize> = Vec::new();
    let mut t: usize = 0;
    while t < rounded.len()
        invariant
            t <= rounded@.len(),
            delays@.len() == t,
            forall|u: int| 0 <= u < t ==> delays@[u] == max(0, rounded@[u] as int),
        decreases rounded@.len() - t,
    {
        delays.push(delay_from_rounded(rounded[t]));
        t += 1;
    }
    delays
}

} // verus!
