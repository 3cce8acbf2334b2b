//! The capture retry loop, as decisions over capture signals.
//!
//! Asking the capture source for a frame has three outcomes: a frame, a
//! transient "not ready" signal, or a failure. The sampler waits one
//! frame interval and asks again on "not ready", treats any other
//! failure as fatal, and reads the cursor's pixel out of a delivered
//! frame. The surrounding program performs the waiting, the asking and
//! the aborting; this module decides which of those to do.

use crate::frame::{coords_in_frame, frame_pixel, pixel_at, Rgb};
use vstd::prelude::*;

verus! {

/// Nanoseconds the sampler waits before asking again after a transient
/// signal: one sixtieth of a second, rounded down to whole nanoseconds.
pub const FRAME_INTERVAL_NANOS: u64 = 1_000_000_000 / 60;

/// What one request to the capture source produced.
pub enum CaptureSignal {
    /// One captured screen image, tightly packed, four bytes per pixel.
    Frame(Vec<u8>),
    /// No frame was ready yet; a transient condition, not an error.
    NotReady,
    /// Any other capture failure.
    Failed,
}

/// What the sampler does in response to one capture signal.
#[derive(Clone, Copy, Debug, PartialEq, Eq, Structural)]
pub enum SampleStep {
    /// Wait one frame interval, then ask the capture source again.
    Retry,
    /// Abort the process: the capture source failed for good.
    Abort,
    /// Refuse the sample: the cursor lies outside the captured frame.
    OutOfRange,
    /// The color found beneath the cursor.
    Sample(Rgb),
}

/// The step the sampler takes on one signal, for a frame of height `h`
/// and a cursor at `(x, y)`.
pub open spec fn step_of_signal(signal: CaptureSignal, h: nat, x: int, y: int) -> SampleStep
    recommends
        h > 0,
{
    match signal {
        CaptureSignal::NotReady => SampleStep::Retry,
        CaptureSignal::Failed => SampleStep::Abort,
        CaptureSignal::Frame(buf) => if coords_in_frame(buf@.len(), h, x, y) {
            SampleStep::Sample(frame_pixel(buf@, h, x, y))
        } else {
            SampleStep::OutOfRange
        },
    }
}

/// The step the retry loop ends on over a series of signals: transient
/// signals are skipped, the first decisive signal settles the step, and
/// a series of transient signals alone settles nothing.
pub open spec fn loop_step(signals: Seq<CaptureSignal>, h: nat, x: int, y: int) -> Option<
    SampleStep,
>
    recommends
        h > 0,
    decreases signals.len(),
{
    if signals.len() == 0 {
        None
    } else if signals[0] is NotReady {
        loop_step(signals.skip(1), h, x, y)
    } else {
        Some(step_of_signal(signals[0], h, x, y))
    }
}

/// Decides what to do with one capture signal.
pub fn sample_step(signal: &CaptureSignal, h: usize, x: i32, y: i32) -> (step: SampleStep)
    requires
        h > 0,
    ensures
        step == step_of_signal(*signal, h as nat, x as int, y as int),
{
    match signal {
        CaptureSignal::NotReady => SampleStep::Retry,
        CaptureSignal::Failed => SampleStep::Abort,
        CaptureSignal::Frame(buf) => match pixel_at(buf, h, x, y) {
            Ok(px) => SampleStep::Sample(px),
            Err(_) => SampleStep::OutOfRange,
        },
    }
}

/// Runs the retry loop over a finite series of capture signals: skips
/// every transient signal and returns the step of the first decisive
/// one, or `None` when every signal was transient.
pub fn run_sampler(signals: &Vec<CaptureSignal>, h: usize, x: i32, y: i32) -> (out: Option<
    SampleStep,
>)
    requires
        h > 0,
    ensures
        out == loop_step(signals@, h as nat, x as int, y as int),
{
    let ghost full = signals@;
    proof {
        assert(full.skip(0) =~= full);
    }
    let mut i: usize = 0;
    while i < signals.len()
        invariant
            h > 0,
            i <= signals.len(),
            full == signals@,
            loop_step(full, h as nat, x as int, y as int) == loop_step(
                full.skip(i as int),
                h as nat,
                x as int,
                y as int,
            ),
        decreases signals.len() - i,
    {
        let step = sample_step(&signals[i], h, x, y);
        proof {
            assert(full.skip(i as int)[0] == full[i as int]);
            assert(full.skip(i as int).skip(1) =~= full.skip(i as int + 1));
        }
        if !matches!(step, SampleStep::Retry) {
            return Some(step);
        }
        i = i + 1;
    }
    proof {
        assert(full.skip(i as int) =~= Seq::<CaptureSignal>::empty());
    }
    None
}

/// Law: transient signals never settle the outcome — whatever run of
/// "not ready" signals comes first, the loop ends on the step of the
/// first decisive signal. In particular, transient signals followed by
/// a frame yield that frame's pixel, and followed by a failure yield an
/// abort with no sample emitted.
pub proof fn lemma_transient_signals_skipped(
    prefix: Seq<CaptureSignal>,
    rest: Seq<CaptureSignal>,
    h: nat,
    x: int,
    y: int,
)
    requires
        forall|i: int| 0 <= i < prefix.len() ==> prefix[i] is NotReady,
    ensures
        loop_step(prefix + rest, h, x, y) == loop_step(rest, h, x, y),
        rest.len() > 0 && !(rest[0] is NotReady) ==> loop_step(prefix + rest, h, x, y) == Some(
            step_of_signal(rest[0], h, x, y),
        ),
    decreases prefix.len(),
{
    if prefix.len() == 0 {
        assert(prefix + rest =~= rest);
    } else {
        assert((prefix + rest)[0] == prefix[0]);
        assert((prefix + rest).skip(1) =~= prefix.skip(1) + rest);
        lemma_transient_signals_skipped(prefix.skip(1), rest, h, x, y);
    }
}

} // verus!
