use radar_sim::geometry::{
    delay_from_rounded, delays_from_rounded, resolve_num_pulses, Geometry, Span,
    DEFAULT_NUM_PULSES,
};

#[test]
fn default_geometry_has_1951_range_bins() {
    let geometry = Geometry::new(2000, 50, 32);
    assert_eq!(geometry.n_fast(), 2000);
    assert_eq!(geometry.pulse_len(), 50);
    assert_eq!(geometry.num_pulses(), 32);
    assert_eq!(geometry.n_range_bins(), 1951);
    assert_eq!(geometry.n_doppler_bins(), 32);
    assert!(geometry.is_regular());
}

#[test]
fn pulse_of_no_sample_counts_as_one_sample() {
    let geometry = Geometry::new(2000, 0, 32);
    assert_eq!(geometry.pulse_len(), 1);
    assert_eq!(geometry.n_range_bins(), 2000);
}

#[test]
fn pulse_as_long_as_the_window_gives_one_bin() {
    let geometry = Geometry::new(50, 50, 4);
    assert!(geometry.is_regular());
    assert_eq!(geometry.n_range_bins(), 1);
    assert_eq!(geometry.filter_span(0), Span { start: 0, end: 50 });
}

#[test]
fn pulse_longer_than_the_window_gives_one_bin() {
    let geometry = Geometry::new(10, 50, 4);
    assert!(!geometry.is_regular());
    assert_eq!(geometry.n_range_bins(), 1);
    // The one bin sums what the window holds.
    assert_eq!(geometry.filter_span(0), Span { start: 0, end: 10 });
    assert_eq!(geometry.echo_span(3), Span { start: 3, end: 10 });
    // Its centre, sample 25, lies beyond the window.
    assert_eq!(geometry.doppler_center(0), None);
}

#[test]
fn empty_window_still_has_one_bin() {
    let geometry = Geometry::new(0, 7, 3);
    assert_eq!(geometry.n_range_bins(), 1);
    assert!(geometry.filter_span(0).is_empty());
    assert!(geometry.echo_span(0).is_empty());
    assert_eq!(geometry.doppler_center(0), None);
    assert_eq!(geometry.echo_overlap(0, 0), 0);
}

#[test]
fn largest_window_does_not_overflow() {
    let geometry = Geometry::new(usize::MAX, 1, 1);
    assert_eq!(geometry.n_range_bins(), usize::MAX);
    assert_eq!(geometry.echo_span(usize::MAX - 1), Span { start: usize::MAX - 1, end: usize::MAX });
    assert!(geometry.echo_span(usize::MAX).is_empty());

    let long_pulse = Geometry::new(100, usize::MAX, 1);
    assert_eq!(long_pulse.n_range_bins(), 1);
    assert_eq!(long_pulse.echo_span(40), Span { start: 40, end: 100 });
    assert_eq!(long_pulse.echo_span(usize::MAX), Span { start: 100, end: 100 });
    assert_eq!(long_pulse.doppler_center(usize::MAX), None);
    assert_eq!(long_pulse.doppler_center(0), None);
}

#[test]
fn doppler_bins_follow_the_pulses_only() {
    for n_fast in [0usize, 1, 10, 2000] {
        for pulse in [0usize, 1, 50, 5000] {
            assert_eq!(Geometry::new(n_fast, pulse, 64).n_doppler_bins(), 64);
            assert_eq!(Geometry::new(n_fast, pulse, 0).n_doppler_bins(), 0);
        }
    }
}

#[test]
fn range_bins_are_never_zero() {
    for n_fast in [0usize, 1, 2, 49, 50, 51, 2000] {
        for pulse in [0usize, 1, 2, 50, 51, 4000] {
            let geometry = Geometry::new(n_fast, pulse, 8);
            let len = geometry.pulse_len();
            let expected = if n_fast >= len { n_fast - len + 1 } else { 1 };
            assert_eq!(geometry.n_range_bins(), expected);
            assert!(geometry.n_range_bins() >= 1);
        }
    }
}

#[test]
fn echo_falls_on_a_pulse_length_from_its_delay() {
    let geometry = Geometry::new(2000, 50, 32);
    assert_eq!(geometry.echo_span(0), Span { start: 0, end: 50 });
    assert_eq!(geometry.echo_span(67), Span { start: 67, end: 117 });
    assert_eq!(geometry.echo_span(1950), Span { start: 1950, end: 2000 });
}

#[test]
fn echo_at_the_end_of_the_window_is_cut_off() {
    let geometry = Geometry::new(2000, 50, 32);
    assert_eq!(geometry.echo_span(1951), Span { start: 1951, end: 2000 });
    assert_eq!(geometry.echo_span(1999), Span { start: 1999, end: 2000 });
    assert_eq!(geometry.echo_span(1999).len(), 1);
}

#[test]
fn echo_beyond_the_window_falls_on_nothing() {
    let geometry = Geometry::new(2000, 50, 32);
    for delay in [2000usize, 2001, 6671, usize::MAX - 10, usize::MAX] {
        let span = geometry.echo_span(delay);
        assert!(span.is_empty());
        assert_eq!(span.len(), 0);
        assert_eq!(span, Span { start: 2000, end: 2000 });
        for bin in [0usize, 1000, 1950] {
            assert_eq!(geometry.echo_overlap(bin, delay), 0);
        }
    }
}

#[test]
fn filter_window_of_a_regular_bin_is_a_whole_pulse() {
    let geometry = Geometry::new(2000, 50, 32);
    for bin in [0usize, 1, 975, 1950] {
        let window = geometry.filter_span(bin);
        assert_eq!(window, Span { start: bin, end: bin + 50 });
        assert_eq!(window.len(), 50);
    }
    // Past the last bin the window is cut off.
    assert_eq!(geometry.filter_span(1960), Span { start: 1960, end: 2000 });
    assert!(geometry.filter_span(2000).is_empty());
}

#[test]
fn doppler_center_is_half_a_pulse_into_the_bin() {
    let geometry = Geometry::new(2000, 50, 32);
    assert_eq!(geometry.doppler_center(0), Some(25));
    assert_eq!(geometry.doppler_center(10), Some(35));
    assert_eq!(geometry.doppler_center(1950), Some(1975));
    assert_eq!(geometry.doppler_center(1974), Some(1999));
    assert_eq!(geometry.doppler_center(1975), None);

    let odd = Geometry::new(100, 7, 1);
    assert_eq!(odd.doppler_center(0), Some(3));
    let single = Geometry::new(100, 1, 1);
    assert_eq!(single.doppler_center(99), Some(99));
}

#[test]
fn every_regular_bin_has_its_center_in_the_window() {
    for (n_fast, pulse) in [(2000usize, 50usize), (50, 50), (10, 1), (7, 6), (9, 2)] {
        let geometry = Geometry::new(n_fast, pulse, 1);
        for bin in 0..geometry.n_range_bins() {
            let center = geometry.doppler_center(bin).expect("center in the window");
            assert_eq!(center, bin + pulse / 2);
            assert!(center < n_fast);
        }
    }
}

#[test]
fn overlap_is_a_triangle_around_the_delay() {
    let geometry = Geometry::new(2000, 50, 32);
    let delay = 100usize;
    for bin in 0..geometry.n_range_bins() {
        let distance = if bin > delay { bin - delay } else { delay - bin };
        let expected = if distance < 50 { 50 - distance } else { 0 };
        assert_eq!(geometry.echo_overlap(bin, delay), expected, "bin {bin}");
    }
    assert_eq!(geometry.echo_overlap(100, 100), 50);
    assert_eq!(geometry.echo_overlap(99, 100), 49);
    assert_eq!(geometry.echo_overlap(101, 100), 49);
    assert_eq!(geometry.echo_overlap(51, 100), 1);
    assert_eq!(geometry.echo_overlap(50, 100), 0);
    assert_eq!(geometry.echo_overlap(150, 100), 0);
}

#[test]
fn overlap_peaks_only_at_the_delay() {
    let geometry = Geometry::new(300, 20, 1);
    for delay in [0usize, 1, 140, 279, 280] {
        for bin in 0..geometry.n_range_bins() {
            let overlap = geometry.echo_overlap(bin, delay);
            if bin == delay {
                assert_eq!(overlap, 20);
            } else {
                assert!(overlap < 20);
            }
        }
    }
}

#[test]
fn overlap_of_a_cut_off_echo() {
    let geometry = Geometry::new(2000, 50, 32);
    // The echo holds samples 1980..2000; the last bin sums 1950..2000.
    assert_eq!(geometry.echo_overlap(1950, 1980), 20);
    assert_eq!(geometry.echo_overlap(1931, 1980), 1);
    assert_eq!(geometry.echo_overlap(1930, 1980), 0);
}

#[test]
fn span_len_contains_and_is_empty() {
    let span = Span::new(3, 8);
    assert_eq!(span, Span { start: 3, end: 8 });
    assert_eq!(span.len(), 5);
    assert!(!span.is_empty());
    assert!(!span.contains(2));
    assert!(span.contains(3));
    assert!(span.contains(7));
    assert!(!span.contains(8));

    let point = Span::new(4, 4);
    assert_eq!(point.len(), 0);
    assert!(point.is_empty());
    assert!(!point.contains(4));

    let backwards = Span::new(9, 2);
    assert_eq!(backwards.len(), 0);
    assert!(backwards.is_empty());
    assert!(!backwards.contains(5));
}

#[test]
fn span_intersect() {
    let a = Span::new(10, 20);
    assert_eq!(a.intersect(&Span::new(15, 30)), Span { start: 15, end: 20 });
    assert_eq!(a.intersect(&Span::new(0, 12)), Span { start: 10, end: 12 });
    assert_eq!(a.intersect(&Span::new(12, 14)), Span { start: 12, end: 14 });
    assert_eq!(a.intersect(&Span::new(0, 100)), a);
    assert_eq!(a.intersect(&a), a);
    // Nothing in common: the result is empty.
    assert!(a.intersect(&Span::new(20, 30)).is_empty());
    assert!(a.intersect(&Span::new(0, 10)).is_empty());
    assert_eq!(a.intersect(&Span::new(40, 50)), Span { start: 40, end: 40 });
    assert!(a.intersect(&Span::new(30, 5)).is_empty());
}

#[test]
fn num_pulses_takes_the_default_where_unset() {
    assert_eq!(DEFAULT_NUM_PULSES, 32);
    assert_eq!(resolve_num_pulses(None), 32);
    assert_eq!(resolve_num_pulses(Some(64)), 64);
    assert_eq!(resolve_num_pulses(Some(0)), 0);
    assert_eq!(resolve_num_pulses(Some(usize::MAX)), usize::MAX);
}

#[test]
fn negative_delay_counts_as_none() {
    assert_eq!(delay_from_rounded(67), 67);
    assert_eq!(delay_from_rounded(0), 0);
    assert_eq!(delay_from_rounded(-1), 0);
    assert_eq!(delay_from_rounded(isize::MIN), 0);
    assert_eq!(delay_from_rounded(isize::MAX), isize::MAX as usize);
}

#[test]
fn delays_keep_the_order_of_the_targets() {
    assert_eq!(delays_from_rounded(&vec![]), Vec::<usize>::new());
    assert_eq!(delays_from_rounded(&vec![67, -20, 0, 100, isize::MIN]), vec![67, 0, 0, 100, 0]);
}
