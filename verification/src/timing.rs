//! Pulse timing: the delay of each pulse of a move.
//!
//! A move of `size` pulses is driven with one delay per pulse. The delay is a
//! half-period: the driver raises the pulse line, waits the delay, lowers the
//! line and waits the delay again. A stepper cannot start or stop at full
//! speed, so the stepping frequency climbs from the first pulse to the middle
//! of the move and falls again to the last pulse, the second half being the
//! first half in reverse. Two shapes of the climb are offered, a linear one
//! and a banded one; moves use the banded one.

use vstd::prelude::*;
use vstd::arithmetic::div_mod::lemma_div_is_ordered_by_denominator;

verus! {

/// Nanoseconds in a second: a frequency of `hz` has a delay of `NANOS_PER_SECOND / hz`.
pub const NANOS_PER_SECOND: u64 = 1_000_000_000;

/// The number of pulses that the banded ramp holds one frequency for.
pub const BAND_LENGTH: u64 = 800;

/// How many pulses lie between pulse `i` and the nearer end of a move of
/// `size` pulses.
pub open spec fn ramp_position(size: int, i: int) -> int {
    if i <= size - 1 - i {
        i
    } else {
        size - 1 - i
    }
}

/// The delay, in nanoseconds, that stands for a frequency.
pub open spec fn half_period_ns(hz: int) -> int {
    NANOS_PER_SECOND as int / hz
}

/// The frequency of the linear ramp `k` pulses from the nearer end: it starts
/// at `start_hz`, gains `slope` with each pulse and stops at `max_hz`.
pub open spec fn linear_ramp_hz(k: int, start_hz: int, slope: int, max_hz: int) -> int {
    if start_hz + slope * k < max_hz {
        start_hz + slope * k
    } else {
        max_hz
    }
}

/// The frequency of the banded ramp `k` pulses from the nearer end: it gains
/// `band_inc` every `BAND_LENGTH` pulses and stops at `max_hz`.
pub open spec fn banded_ramp_hz(k: int, band_inc: int, max_hz: int) -> int {
    if (k / (BAND_LENGTH as int) + 1) * band_inc < max_hz {
        (k / (BAND_LENGTH as int) + 1) * band_inc
    } else {
        max_hz
    }
}

/// The delays of a move of `size` pulses on the linear ramp.
pub open spec fn wait_times(size: int, start_hz: int, slope: int, max_hz: int) -> Seq<u64> {
    Seq::new(
        size as nat,
        |i: int| half_period_ns(linear_ramp_hz(ramp_position(size, i), start_hz, slope, max_hz)) as u64,
    )
}

/// The delays of a move of `size` pulses on the banded ramp.
pub open spec fn wait_times_two(size: int, band_inc: int, max_hz: int) -> Seq<u64> {
    Seq::new(
        size as nat,
        |i: int| half_period_ns(banded_ramp_hz(ramp_position(size, i), band_inc, max_hz)) as u64,
    )
}

/// The number of pulses of a note: the override where there is one, else as
/// many as the frequency gives in the duration.
pub open spec fn note_size(note_hz: int, duration_ms: int, step_override: Option<u64>) -> int {
    match step_override {
        Some(s) => s as int,
        None => note_hz * duration_ms / 1000,
    }
}

/// The delays of a note: every pulse at the note's frequency.
pub open spec fn note_times(note_hz: int, duration_ms: int, step_override: Option<u64>) -> Seq<u64> {
    Seq::new(
        note_size(note_hz, duration_ms, step_override) as nat,
        |i: int| half_period_ns(note_hz) as u64,
    )
}

/// A sequence reads the same from both ends.
pub open spec fn mirrored(s: Seq<u64>) -> bool {
    forall|i: int| 0 <= i < s.len() ==> s[i] == #[trigger] s[s.len() - 1 - i]
}

/// No delay of the sequence is shorter than the delay of `max_hz`, so no
/// pulse is faster than `max_hz`.
pub open spec fn within_frequency(s: Seq<u64>, max_hz: int) -> bool {
    forall|i: int| 0 <= i < s.len() ==> half_period_ns(max_hz) <= #[trigger] s[i]
}

/// The position within the ramp is the same for a pulse and for the pulse
/// that is as far from the other end.
pub proof fn lemma_ramp_position_mirrors(size: int, i: int)
    requires
        0 <= i < size,
    ensures
        ramp_position(size, i) == ramp_position(size, size - 1 - i),
        0 <= ramp_position(size, i) <= i,
        2 * ramp_position(size, i) < size,
{
}

/// A frequency of the linear ramp lies between 1 and `max_hz`.
pub proof fn lemma_linear_ramp_hz_bounds(k: int, start_hz: int, slope: int, max_hz: int)
    requires
        0 <= k,
        0 < start_hz,
        0 <= slope,
        0 < max_hz,
    ensures
        1 <= linear_ramp_hz(k, start_hz, slope, max_hz) <= max_hz,
{
    assert(0 <= slope * k) by (nonlinear_arith)
        requires
            0 <= slope,
            0 <= k,
    ;
}

/// A frequency of the banded ramp lies between 1 and `max_hz`.
pub proof fn lemma_banded_ramp_hz_bounds(k: int, band_inc: int, max_hz: int)
    requires
        0 <= k,
        0 < band_inc,
        0 < max_hz,
    ensures
        1 <= banded_ramp_hz(k, band_inc, max_hz) <= max_hz,
{
    let band = k / (BAND_LENGTH as int) + 1;
    assert(1 <= band);
    assert(1 <= band * band_inc) by (nonlinear_arith)
        requires
            1 <= band,
            1 <= band_inc,
    ;
}

/// The delay of a frequency between 1 and `max_hz` fits in 64 bits and is no
/// shorter than the delay of `max_hz`.
pub proof fn lemma_half_period_bounds(hz: int, max_hz: int)
    requires
        1 <= hz <= max_hz,
    ensures
        half_period_ns(max_hz) <= half_period_ns(hz) <= NANOS_PER_SECOND,
        0 <= half_period_ns(max_hz),
{
    lemma_div_is_ordered_by_denominator(NANOS_PER_SECOND as int, hz, max_hz);
    lemma_div_is_ordered_by_denominator(NANOS_PER_SECOND as int, 1, hz);
    lemma_div_is_ordered_by_denominator(NANOS_PER_SECOND as int, 1, max_hz);
    assert(NANOS_PER_SECOND as int / max_hz >= 0) by (nonlinear_arith)
        requires
            max_hz >= 1,
    ;
}

/// The linear ramp gives one delay for each pulse and none for an empty move.
pub proof fn lemma_wait_times_len(size: int, start_hz: int, slope: int, max_hz: int)
    requires
        0 <= size,
    ensures
        wait_times(size, start_hz, slope, max_hz).len() == size,
        size == 0 ==> wait_times(size, start_hz, slope, max_hz) == Seq::<u64>::empty(),
{
    assert(size == 0 ==> wait_times(size, start_hz, slope, max_hz) =~= Seq::<u64>::empty());
}

/// The banded ramp gives one delay for each pulse and none for an empty move.
pub proof fn lemma_wait_times_two_len(size: int, band_inc: int, max_hz: int)
    requires
        0 <= size,
    ensures
        wait_times_two(size, band_inc, max_hz).len() == size,
        size == 0 ==> wait_times_two(size, band_inc, max_hz) == Seq::<u64>::empty(),
{
    assert(size == 0 ==> wait_times_two(size, band_inc, max_hz) =~= Seq::<u64>::empty());
}

/// A sequence that reads the same from both ends has a second half that is
/// its first half in reverse; with an odd length the middle delay belongs to
/// neither half.
pub proof fn lemma_mirrored_halves(s: Seq<u64>)
    requires
        mirrored(s),
    ensures
        s.subrange(0, s.len() as int / 2).reverse() == s.subrange(
            s.len() - s.len() as int / 2,
            s.len() as int,
        ),
{
    let n = s.len() as int;
    let h = n / 2;
    let first = s.subrange(0, h).reverse();
    let second = s.subrange(n - h, n);
    assert(first.len() == second.len());
    assert forall|j: int| 0 <= j < first.len() implies first[j] == second[j] by {
        assert(first[j] == s[h - 1 - j]);
        assert(second[j] == s[n - h + j]);
        assert(s[h - 1 - j] == s[n - 1 - (h - 1 - j)]);
    }
    assert(first =~= second);
}

/// The linear ramp falls as it climbed: its delays read the same from both ends.
pub proof fn lemma_wait_times_mirrored(size: int, start_hz: int, slope: int, max_hz: int)
    requires
        0 <= size,
    ensures
        mirrored(wait_times(size, start_hz, slope, max_hz)),
{
    let s = wait_times(size, start_hz, slope, max_hz);
    assert forall|i: int| 0 <= i < s.len() implies s[i] == #[trigger] s[s.len() - 1 - i] by {
        lemma_ramp_position_mirrors(size, i);
    }
}

/// The banded ramp falls as it climbed: its delays read the same from both ends.
pub proof fn lemma_wait_times_two_mirrored(size: int, band_inc: int, max_hz: int)
    requires
        0 <= size,
    ensures
        mirrored(wait_times_two(size, band_inc, max_hz)),
{
    let s = wait_times_two(size, band_inc, max_hz);
    assert forall|i: int| 0 <= i < s.len() implies s[i] == #[trigger] s[s.len() - 1 - i] by {
        lemma_ramp_position_mirrors(size, i);
    }
}

/// No pulse of the linear ramp is faster than `max_hz`: each delay is at
/// least the delay of `max_hz`, which is the shortest pulse width of the ramp.
pub proof fn lemma_wait_times_within_frequency(size: int, start_hz: int, slope: int, max_hz: int)
    requires
        0 <= size,
        0 < start_hz,
        0 <= slope,
        0 < max_hz,
    ensures
        within_frequency(wait_times(size, start_hz, slope, max_hz), max_hz),
{
    let s = wait_times(size, start_hz, slope, max_hz);
    assert forall|i: int| 0 <= i < s.len() implies half_period_ns(max_hz) <= #[trigger] s[i] by {
        lemma_ramp_position_mirrors(size, i);
        let hz = linear_ramp_hz(ramp_position(size, i), start_hz, slope, max_hz);
        lemma_linear_ramp_hz_bounds(ramp_position(size, i), start_hz, slope, max_hz);
        lemma_half_period_bounds(hz, max_hz);
    }
}

/// No pulse of the banded ramp is faster than `max_hz`: each delay is at
/// least the delay of `max_hz`, which is the shortest pulse width of the ramp.
pub proof fn lemma_wait_times_two_within_frequency(size: int, band_inc: int, max_hz: int)
    requires
        0 <= size,
        0 < band_inc,
        0 < max_hz,
    ensures
        within_frequency(wait_times_two(size, band_inc, max_hz), max_hz),
{
    let s = wait_times_two(size, band_inc, max_hz);
    assert forall|i: int| 0 <= i < s.len() implies half_period_ns(max_hz) <= #[trigger] s[i] by {
        lemma_ramp_position_mirrors(size, i);
        let hz = banded_ramp_hz(ramp_position(size, i), band_inc, max_hz);
        lemma_banded_ramp_hz_bounds(ramp_position(size, i), band_inc, max_hz);
        lemma_half_period_bounds(hz, max_hz);
    }
}

/// The delay of a frequency.
pub fn half_period(hz: u64) -> (ns: u64)
    requires
        hz > 0,
    ensures
        ns == half_period_ns(hz as int),
{
    NANOS_PER_SECOND / hz
}

/// The frequency of the linear ramp `k` pulses from the nearer end.
pub fn linear_hz(k: u64, start_hz: u64, slope: u64, max_hz: u64) -> (hz: u64)
    ensures
        hz == linear_ramp_hz(k as int, start_hz as int, slope as int, max_hz as int),
{
    proof {
        assert(0 <= slope * k) by (nonlinear_arith)
            requires
                0 <= slope,
                0 <= k,
        ;
    }
    match slope.checked_mul(k) {
        Some(gain) => match start_hz.checked_add(gain) {
            Some(hz) => if hz < max_hz {
                hz
            } else {
                max_hz
            },
            None => max_hz,
        },
        None => max_hz,
    }
}

/// The frequency of the banded ramp `k` pulses from the nearer end.
pub fn banded_hz(k: u64, band_inc: u64, max_hz: u64) -> (hz: u64)
    ensures
        hz == banded_ramp_hz(k as int, band_inc as int, max_hz as int),
{
    let band: u64 = k / BAND_LENGTH + 1;
    match band.checked_mul(band_inc) {
        Some(hz) => if hz < max_hz {
            hz
        } else {
            max_hz
        },
        None => max_hz,
    }
}

/// Copies the first half of `times` onto the second half in reverse, as the
/// ramps do once the climb is written.
fn mirror_second_half(times: &mut Vec<u64>, Ghost(climb): Ghost<spec_fn(int) -> u64>)
    requires
        old(times).len() > 0,
        forall|j: int| 0 <= j <= old(times).len() / 2 ==> old(times)@[j] == climb(j),
    ensures
        final(times).len() == old(times).len(),
        forall|j: int|
            0 <= j < final(times).len() ==> final(times)@[j] == climb(
                ramp_position(old(times).len() as int, j),
            ),
{
    let size: usize = times.len();
    let halfway: usize = size / 2;
    let mut i: usize = halfway;
    while i < size
        invariant
            size == times.len(),
            size > 0,
            halfway == size / 2,
            halfway <= i <= size,
            forall|j: int| 0 <= j < halfway ==> times@[j] == climb(j),
            i == halfway ==> times@[halfway as int] == climb(halfway as int),
            forall|j: int| halfway <= j < i ==> times@[j] == climb(size - 1 - j),
        decreases size - i,
    {
        let earlier: u64 = times[size - i - 1];
        times.set(i, earlier);
        i = i + 1;
    }
}

/// The delays of a move of `size` pulses on the linear ramp: the frequency
/// starts at `start_hz`, gains `slope` with each pulse up to `max_hz` and, from
/// the middle of the move on, falls again the way it climbed.
pub fn generate_wait_times(size: u64, start_hz: u64, slope: u64, max_hz: u64) -> (times: Vec<u64>)
    requires
        size <= usize::MAX,
        start_hz > 0,
        max_hz > 0,
    ensures
        times@ == wait_times(size as int, start_hz as int, slope as int, max_hz as int),
        times.len() == size,
        mirrored(times@),
        within_frequency(times@, max_hz as int),
{
    let mut times: Vec<u64> = vec![0u64; size as usize];
    proof {
        lemma_wait_times_mirrored(size as int, start_hz as int, slope as int, max_hz as int);
        lemma_wait_times_within_frequency(size as int, start_hz as int, slope as int, max_hz as int);
    }
    if size == 0 {
        assert(times@ =~= wait_times(size as int, start_hz as int, slope as int, max_hz as int));
        return times;
    }
    let ghost climb = |j: int|
        half_period_ns(linear_ramp_hz(j, start_hz as int, slope as int, max_hz as int)) as u64;
    let halfway: u64 = size / 2;
    let mut i: u64 = 0;
    while i < halfway + 1
        invariant
            times.len() == size,
            0 < size <= usize::MAX,
            halfway == size / 2,
            i <= halfway + 1,
            start_hz > 0,
            max_hz > 0,
            climb == |j: int|
                half_period_ns(linear_ramp_hz(j, start_hz as int, slope as int, max_hz as int)) as u64,
            forall|j: int| 0 <= j < i ==> times@[j] == climb(j),
        decreases halfway + 1 - i,
    {
        let hz: u64 = linear_hz(i, start_hz, slope, max_hz);
        proof {
            lemma_linear_ramp_hz_bounds(i as int, start_hz as int, slope as int, max_hz as int);
        }
        times.set(i as usize, half_period(hz));
        i = i + 1;
    }
    mirror_second_half(&mut times, Ghost(climb));
    assert(times@ =~= wait_times(size as int, start_hz as int, slope as int, max_hz as int));
    times
}

/// The delays of a move of `size` pulses on the banded ramp: the frequency
/// starts at `band_inc`, gains `band_inc` every `BAND_LENGTH` pulses up to
/// `max_hz` and, from the middle of the move on, falls again the way it climbed.
pub fn generate_wait_times_two(size: u64, band_inc: u64, max_hz: u64) -> (times: Vec<u64>)
    requires
        size <= usize::MAX,
        band_inc > 0,
        max_hz > 0,
    ensures
        times@ == wait_times_two(size as int, band_inc as int, max_hz as int),
        times.len() == size,
        mirrored(times@),
        within_frequency(times@, max_hz as int),
{
    let mut times: Vec<u64> = vec![0u64; size as usize];
    proof {
        lemma_wait_times_two_mirrored(size as int, band_inc as int, max_hz as int);
        lemma_wait_times_two_within_frequency(size as int, band_inc as int, max_hz as int);
    }
    if size == 0 {
        assert(times@ =~= wait_times_two(size as int, band_inc as int, max_hz as int));
        return times;
    }
    let ghost climb = |j: int|
        half_period_ns(banded_ramp_hz(j, band_inc as int, max_hz as int)) as u64;
    let halfway: u64 = size / 2;
    let mut i: u64 = 0;
    while i < halfway + 1
        invariant
            times.len() == size,
            0 < size <= usize::MAX,
            halfway == size / 2,
            i <= halfway + 1,
            band_inc > 0,
            max_hz > 0,
            climb == |j: int|
                half_period_ns(banded_ramp_hz(j, band_inc as int, max_hz as int)) as u64,
            forall|j: int| 0 <= j < i ==> times@[j] == climb(j),
        decreases halfway + 1 - i,
    {
        let hz: u64 = banded_hz(i, band_inc, max_hz);
        proof {
            lemma_banded_ramp_hz_bounds(i as int, band_inc as int, max_hz as int);
        }
        times.set(i as usize, half_period(hz));
        i = i + 1;
    }
    mirror_second_half(&mut times, Ghost(climb));
    assert(times@ =~= wait_times_two(size as int, band_inc as int, max_hz as int));
    times
}

/// The delays of a note: `step_override` pulses where it is given, else as
/// many as `note_hz` gives in `duration_ms`, each at the note's frequency.
pub fn generate_note_times(note_hz: u64, duration_ms: u64, step_override: Option<u64>) -> (times: Vec<u64>)
    requires
        note_size(note_hz as int, duration_ms as int, step_override) <= usize::MAX,
        note_size(note_hz as int, duration_ms as int, step_override) > 0 ==> note_hz > 0,
    ensures
        times@ == note_times(note_hz as int, duration_ms as int, step_override),
        times.len() == note_size(note_hz as int, duration_ms as int, step_override),
{
    proof {
        assert(0 <= note_hz * duration_ms) by (nonlinear_arith)
            requires
                0 <= note_hz,
                0 <= duration_ms,
        ;
        assert(note_hz * duration_ms <= 0xffff_ffff_ffff_ffff * 0xffff_ffff_ffff_ffff)
            by (nonlinear_arith)
            requires
                0 <= note_hz <= 0xffff_ffff_ffff_ffff,
                0 <= duration_ms <= 0xffff_ffff_ffff_ffff,
        ;
    }
    let size: usize = match step_override {
        Some(s) => s as usize,
        None => ((note_hz as u128) * (duration_ms as u128) / 1000) as usize,
    };
    if size == 0 {
        let times: Vec<u64> = Vec::new();
        assert(times@ =~= note_times(note_hz as int, duration_ms as int, step_override));
        return times;
    }
    let times: Vec<u64> = vec![half_period(note_hz); size];
    assert(times@ =~= note_times(note_hz as int, duration_ms as int, step_override));
    times
}

} // verus!
