//! Exact conversions between a stream's native timestamp unit and
//! milliseconds: durations and presentation timestamps scale by the stream
//! time base (a rational number of seconds per unit), rounded as the playback
//! engine expects.

use vstd::prelude::*;

use crate::frac::Frac;
use crate::frame::{DEFAULT_DELAY_DEN, DEFAULT_DELAY_NUM};

verus! {

/// `x / d` rounded half-up, for non-negative `x` and positive `d`.
pub open spec fn spec_round_div(x: int, d: int) -> int {
    (2 * x + d) / (2 * d)
}

/// The total duration in milliseconds: the stream duration scaled by its time
/// base when the stream reports one, else the container duration (given in
/// microseconds) rounded to milliseconds, else zero; saturating at the
/// largest representable value.
pub open spec fn spec_duration_ms(
    stream_duration: int,
    tb_num: int,
    tb_den: int,
    container_duration_us: int,
) -> int {
    if stream_duration >= 0 {
        let exact = spec_round_div(stream_duration * tb_num * 1000, tb_den);
        if exact > u64::MAX {
            u64::MAX as int
        } else {
            exact
        }
    } else if container_duration_us >= 0 {
        spec_round_div(container_duration_us, 1000)
    } else {
        0
    }
}

/// Computes the playback duration in milliseconds from what the demuxer
/// reports: the video stream's duration in time-base units, the time base
/// itself, and the container-level duration in microseconds as a fallback.
pub fn duration_ms(
    stream_duration: i64,
    tb_num: u32,
    tb_den: u32,
    container_duration_us: i64,
) -> (r: u64)
    requires
        tb_den > 0,
    ensures
        r == spec_duration_ms(
            stream_duration as int,
            tb_num as int,
            tb_den as int,
            container_duration_us as int,
        ),
{
    if stream_duration >= 0 {
        proof {
            assert((stream_duration as u128) * (tb_num as u128) <= u128::MAX && 2 * ((
            stream_duration as u128) * (tb_num as u128) * 1000) + (tb_den as u128) <= u128::MAX)
                by (nonlinear_arith)
                requires
                    stream_duration as u128 <= i64::MAX as u128,
                    tb_num as u128 <= u32::MAX as u128,
                    tb_den as u128 <= u32::MAX as u128,
            ;
        }
        let x: u128 = (stream_duration as u128) * (tb_num as u128) * 1000;
        let exact: u128 = (2 * x + tb_den as u128) / (2 * (tb_den as u128));
        if exact > u64::MAX as u128 {
            u64::MAX
        } else {
            exact as u64
        }
    } else if container_duration_us >= 0 {
        let c = container_duration_us as u64;
        let r = ((2 * (c as u128) + 1000) / 2000) as u64;
        proof {
            assert(spec_round_div(c as int, 1000) <= c);
        }
        r
    } else {
        0
    }
}

/// A presentation timestamp in milliseconds: non-positive timestamps clamp to
/// zero and the scaled value clamps to the session duration.
pub open spec fn spec_pts_to_ms(pts: int, tb_num: int, tb_den: int, duration: int) -> int {
    if pts < 0 {
        0
    } else {
        let exact = spec_round_div(pts * tb_num * 1000, tb_den);
        if exact > duration {
            duration
        } else {
            exact
        }
    }
}

/// Converts a packet's presentation timestamp to clamped milliseconds.
pub fn pts_to_ms(pts: i64, tb_num: u32, tb_den: u32, duration: u64) -> (r: u64)
    requires
        tb_den > 0,
    ensures
        r == spec_pts_to_ms(pts as int, tb_num as int, tb_den as int, duration as int),
{
    if pts < 0 {
        return 0;
    }
    proof {
        assert((pts as u128) * (tb_num as u128) <= u128::MAX && 2 * ((pts as u128) * (tb_num
            as u128) * 1000) + (tb_den as u128) <= u128::MAX) by (nonlinear_arith)
            requires
                pts as u128 <= i64::MAX as u128,
                tb_num as u128 <= u32::MAX as u128,
                tb_den as u128 <= u32::MAX as u128,
        ;
    }
    let x: u128 = (pts as u128) * (tb_num as u128) * 1000;
    let exact: u128 = (2 * x + tb_den as u128) / (2 * (tb_den as u128));
    if exact > duration as u128 {
        duration
    } else {
        exact as u64
    }
}

/// A millisecond position in the stream's native timestamp unit, truncated;
/// saturating at the largest representable timestamp.
pub open spec fn spec_ms_to_pts(time_ms: int, tb_num: int, tb_den: int) -> int {
    let exact = (time_ms * tb_den) / (tb_num * 1000);
    if exact > i64::MAX {
        i64::MAX as int
    } else {
        exact
    }
}

/// Converts a clamped millisecond target back to the stream's native
/// timestamp unit for the demuxer seek.
pub fn ms_to_pts(time_ms: u64, tb_num: u32, tb_den: u32) -> (r: i64)
    requires
        tb_num > 0,
        tb_den > 0,
    ensures
        r == spec_ms_to_pts(time_ms as int, tb_num as int, tb_den as int),
{
    proof {
        assert((time_ms as u128) * (tb_den as u128) <= u128::MAX) by (nonlinear_arith)
            requires
                time_ms as u128 <= u64::MAX as u128,
                tb_den as u128 <= u32::MAX as u128,
        ;
    }
    let x: u128 = (time_ms as u128) * (tb_den as u128);
    let exact: u128 = x / ((tb_num as u128) * 1000);
    if exact > i64::MAX as u128 {
        i64::MAX
    } else {
        exact as i64
    }
}

/// The display delay between two consecutive presentation timestamps, in
/// rational milliseconds: `delta` time-base units scale to
/// `delta * tb_num * 1000 / tb_den` ms. A non-positive or unrepresentable
/// spacing falls back to the default delay.
pub open spec fn spec_frame_delay(delta: int, tb_num: int, tb_den: int) -> Frac {
    if delta <= 0 || tb_num == 0 || delta * tb_num * 1000 > u64::MAX {
        Frac { num: DEFAULT_DELAY_NUM, den: DEFAULT_DELAY_DEN }
    } else {
        Frac { num: (delta * tb_num * 1000) as u64, den: tb_den as u64 }
    }
}

/// The per-frame delays for a sequence of presentation timestamps: each frame
/// stays visible until its successor's timestamp, and the last frame repeats
/// its predecessor's delay (the default when there is no predecessor).
pub open spec fn spec_delays_of_pts(pts: Seq<i64>, tb_num: int, tb_den: int) -> Seq<Frac> {
    Seq::new(
        pts.len(),
        |i: int|
            if i + 1 < pts.len() {
                spec_frame_delay(pts[i + 1] - pts[i], tb_num, tb_den)
            } else if pts.len() >= 2 {
                spec_frame_delay(pts[i] - pts[i - 1], tb_num, tb_den)
            } else {
                Frac { num: DEFAULT_DELAY_NUM, den: DEFAULT_DELAY_DEN }
            },
    )
}

fn frame_delay(delta: i128, tb_num: u32, tb_den: u32) -> (r: Frac)
    requires
        tb_den > 0,
        delta <= u64::MAX,
    ensures
        r == spec_frame_delay(delta as int, tb_num as int, tb_den as int),
        r.wf(),
        r.is_positive(),
{
    if delta <= 0 || tb_num == 0 {
        return Frac { num: DEFAULT_DELAY_NUM, den: DEFAULT_DELAY_DEN };
    }
    proof {
        assert((delta as u128) * (tb_num as u128) <= u128::MAX && (delta as u128) * (tb_num
            as u128) * 1000 <= u128::MAX) by (nonlinear_arith)
            requires
                0 <= delta as u128 <= u64::MAX as u128,
                tb_num as u128 <= u32::MAX as u128,
        ;
        assert((delta as u128) * (tb_num as u128) * 1000 > 0) by (nonlinear_arith)
            requires
                delta as u128 >= 1,
                tb_num as u128 >= 1,
        ;
    }
    let x: u128 = (delta as u128) * (tb_num as u128) * 1000;
    if x > u64::MAX as u128 {
        Frac { num: DEFAULT_DELAY_NUM, den: DEFAULT_DELAY_DEN }
    } else {
        Frac { num: x as u64, den: tb_den as u64 }
    }
}

/// Computes the display delay of every extracted video frame from the
/// sequence of packet presentation timestamps and the stream time base.
pub fn delays_of_pts(pts: &Vec<i64>, tb_num: u32, tb_den: u32) -> (r: Vec<Frac>)
    requires
        tb_den > 0,
    ensures
        r@ == spec_delays_of_pts(pts@, tb_num as int, tb_den as int),
        forall|i: int| 0 <= i < r@.len() ==> (#[trigger] r@[i]).wf() && r@[i].is_positive(),
{
    let ghost gspec = spec_delays_of_pts(pts@, tb_num as int, tb_den as int);
    let n = pts.len();
    let mut out: Vec<Frac> = Vec::new();
    let mut i: usize = 0;
    while i < n
        invariant
            n == pts@.len(),
            i <= n,
            tb_den > 0,
            gspec == spec_delays_of_pts(pts@, tb_num as int, tb_den as int),
            out@.len() == i,
            forall|k: int| 0 <= k < i ==> out@[k] == gspec[k],
            forall|k: int| 0 <= k < i ==> (#[trigger] out@[k]).wf() && out@[k].is_positive(),
        decreases n - i,
    {
        let delay: Frac = if i + 1 < n {
            let delta: i128 = pts[i + 1] as i128 - pts[i] as i128;
            frame_delay(delta, tb_num, tb_den)
        } else if n >= 2 {
            let delta: i128 = pts[i] as i128 - pts[i - 1] as i128;
            frame_delay(delta, tb_num, tb_den)
        } else {
            Frac { num: DEFAULT_DELAY_NUM, den: DEFAULT_DELAY_DEN }
        };
        out.push(delay);
        i = i + 1;
    }
    proof {
        assert(out@ =~= gspec);
    }
    out
}

} // verus!
