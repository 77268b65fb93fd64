use slide_stainer::timing::{
    generate_note_times, generate_wait_times, generate_wait_times_two, BAND_LENGTH,
    NANOS_PER_SECOND,
};

#[test]
fn empty_move_has_no_delays() {
    assert_eq!(generate_wait_times_two(0, 400, 17000), Vec::<u64>::new());
    assert_eq!(generate_wait_times(0, 1, 5, 17000), Vec::<u64>::new());
}

#[test]
fn one_delay_for_each_pulse() {
    for size in [1u64, 2, 3, 7, 800, 801, 1601, 5000] {
        assert_eq!(generate_wait_times_two(size, 400, 17000).len() as u64, size);
        assert_eq!(generate_wait_times(size, 1, 5, 17000).len() as u64, size);
    }
}

#[test]
fn banded_ramp_exact_delays() {
    let times = generate_wait_times_two(4000, 400, 17000);
    // 400 Hz for the first band, 800 Hz for the second, 1200 Hz for the third.
    assert_eq!(times[0], 2_500_000);
    assert_eq!(times[799], 2_500_000);
    assert_eq!(times[800], 1_250_000);
    assert_eq!(times[1599], 1_250_000);
    assert_eq!(times[1600], 833_333);
    assert_eq!(times[1999], 833_333);
    assert_eq!(times[2000], 833_333);
    assert_eq!(times[3999], 2_500_000);
    assert_eq!(times[3200], 2_500_000);
    assert_eq!(times[3199], 1_250_000);
}

#[test]
fn banded_ramp_stops_at_the_highest_frequency() {
    let size: u64 = 2 * 43 * BAND_LENGTH;
    let times = generate_wait_times_two(size, 400, 17000);
    // Band 42 would be 16800 Hz, band 43 would be 17200 Hz and is held at 17000 Hz.
    assert_eq!(times[41 * 800], NANOS_PER_SECOND / 16800);
    assert_eq!(times[42 * 800], NANOS_PER_SECOND / 17000);
    assert_eq!(times[(size / 2) as usize], NANOS_PER_SECOND / 17000);
    let shortest: u64 = NANOS_PER_SECOND / 17000;
    assert!(times.iter().all(|t| *t >= shortest));
}

#[test]
fn linear_ramp_exact_delays() {
    let times = generate_wait_times(5, 1, 5, 17000);
    assert_eq!(times, vec![1_000_000_000, 166_666_666, 90_909_090, 166_666_666, 1_000_000_000]);
    let even = generate_wait_times(4, 10, 10, 25);
    assert_eq!(even, vec![100_000_000, 50_000_000, 50_000_000, 100_000_000]);
    let held = generate_wait_times(6, 10, 10, 25);
    assert_eq!(
        held,
        vec![100_000_000, 50_000_000, 40_000_000, 40_000_000, 50_000_000, 100_000_000]
    );
}

#[test]
fn linear_ramp_with_a_slope_too_large_for_a_product() {
    let times = generate_wait_times(5, 1, u64::MAX, 1000);
    assert_eq!(times, vec![1_000_000_000, 1_000_000, 1_000_000, 1_000_000, 1_000_000_000]);
}

#[test]
fn ramps_read_the_same_from_both_ends() {
    for size in [1usize, 2, 3, 4, 5, 1599, 1600, 1601, 4001] {
        let banded = generate_wait_times_two(size as u64, 400, 17000);
        let linear = generate_wait_times(size as u64, 3, 7, 17000);
        for i in 0..size {
            assert_eq!(banded[i], banded[size - 1 - i]);
            assert_eq!(linear[i], linear[size - 1 - i]);
        }
        let half: usize = size / 2;
        let mut first: Vec<u64> = banded[..half].to_vec();
        first.reverse();
        assert_eq!(first, banded[size - half..].to_vec());
    }
}

#[test]
fn no_delay_is_shorter_than_that_of_the_highest_frequency() {
    for max_hz in [1u64, 399, 400, 401, 17000, 2_000_000_000] {
        let shortest: u64 = NANOS_PER_SECOND / max_hz;
        for t in generate_wait_times_two(3000, 400, max_hz) {
            assert!(t >= shortest);
        }
        for t in generate_wait_times(3000, 1, 5, max_hz) {
            assert!(t >= shortest);
        }
    }
}

#[test]
fn note_has_one_frequency() {
    let times = generate_note_times(440, 1000, None);
    assert_eq!(times.len(), 440);
    assert!(times.iter().all(|t| *t == 2_272_727));
    assert_eq!(generate_note_times(440, 500, None).len(), 220);
    assert_eq!(generate_note_times(440, 1, None).len(), 0);
}

#[test]
fn note_with_a_number_of_steps() {
    assert_eq!(generate_note_times(1000, 0, Some(3)), vec![1_000_000, 1_000_000, 1_000_000]);
    assert_eq!(generate_note_times(0, 1000, None), Vec::<u64>::new());
    assert_eq!(generate_note_times(0, 1000, Some(0)), Vec::<u64>::new());
}
