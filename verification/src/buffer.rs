//! The decoded audio buffer and the sample-production step of the real-time
//! callback.
//!
//! Amplitudes are fixed-point: `SAMPLE_UNIT` units stand for a source
//! amplitude of `1.0`.  The read cursor is fractional with a granularity of
//! one half sample — playback advances it by one half step per output sample,
//! a deliberate constant-rate policy (each source sample is emitted twice) —
//! so it is held exactly as a whole index plus a half-step flag and measured
//! in half steps by [`AudioData::cursor_steps`].

use vstd::prelude::*;

verus! {

/// Fixed-point units per `1.0` of source amplitude.
pub const SAMPLE_UNIT: i32 = 1000;

/// Volume units per gain of `1.0`; values above it are an explicit gain boost.
pub const VOLUME_SCALE: u32 = 1000;

/// An immutable-after-construction container of decoded samples plus format
/// metadata, together with the engine's read cursor into it.
///
/// A scaled output value produced from it is the exact product
/// `sample * volume`, in units of `1 / (SAMPLE_UNIT * VOLUME_SCALE)`.
#[derive(Clone, Debug)]
#[verifier::ext_equal]
pub struct AudioData {
    /// Samples of the single streamed channel, in playback order, fixed-point.
    pub data: Vec<i32>,
    /// Samples per second of the source material.
    pub sample_rate: u32,
    /// Channel count reported by the decoder (informational).
    pub channels: u16,
    /// Whole part of the read cursor: index of the source sample read next.
    pub position_whole: usize,
    /// True when the cursor sits half a step past `position_whole`.
    pub position_half: bool,
}

impl AudioData {
    /// The read cursor measured in half-sample steps: a cursor of `k` half
    /// steps stands for the fractional position `k / 2`.
    pub open spec fn cursor_steps(self) -> int {
        2 * self.position_whole + (if self.position_half { 1int } else { 0int })
    }

    /// The buffer yields no further source samples: the cursor has reached or
    /// passed the end of `data`.
    pub open spec fn exhausted(self) -> bool {
        self.cursor_steps() >= 2 * self.data@.len()
    }

    /// Format metadata is usable: positive sample rate and channel count.
    pub open spec fn wf(self) -> bool {
        self.sample_rate >= 1 && self.channels >= 1
    }
}

/// The value of output slot `i` of a fill that starts with the cursor at
/// `start` half steps: the source sample under the cursor scaled linearly by
/// `volume`, or exact silence (`0`) once the cursor has reached the end.
pub open spec fn slot_value(data: Seq<i32>, start: int, volume: u32, i: int) -> int {
    if start + i < 2 * data.len() {
        data[(start + i) / 2] * volume
    } else {
        0
    }
}

/// The cursor, in half steps, after `n` output samples have been requested
/// starting from `start`: it advances by exactly one half step per requested
/// sample while in bounds and then stays put.
pub open spec fn cursor_after(data: Seq<i32>, start: int, n: int) -> int {
    if start < 2 * data.len() {
        if start + n <= 2 * data.len() {
            start + n
        } else {
            2 * (data.len() as int)
        }
    } else {
        start
    }
}

impl AudioData {
    /// One buffer-fill request of the real-time callback: produce `n` output
    /// samples in order.  Each in-bounds slot is the source sample under the
    /// cursor times `volume` — exact linear scaling — and advances the cursor
    /// by one half step; each out-of-bounds slot is silence and leaves the
    /// cursor unchanged.  The samples and metadata themselves never change,
    /// and the cursor never decreases.
    pub fn fill_into(&mut self, volume: u32, n: usize) -> (out: Vec<i64>)
        ensures
            out@.len() == n,
            forall|i: int| 0 <= i < n ==> #[trigger] out@[i] as int
                == slot_value(old(self).data@, old(self).cursor_steps(), volume, i),
            final(self).data == old(self).data,
            final(self).sample_rate == old(self).sample_rate,
            final(self).channels == old(self).channels,
            final(self).cursor_steps()
                == cursor_after(old(self).data@, old(self).cursor_steps(), n as int),
            final(self).cursor_steps() >= old(self).cursor_steps(),
            old(self).exhausted() ==> *final(self) == *old(self),
    {
        let ghost init: AudioData = *self;
        let mut out: Vec<i64> = Vec::new();
        let mut k: usize = 0;
        while k < n
            invariant
                k <= n,
                out@.len() == k,
                forall|i: int| 0 <= i < k ==> #[trigger] out@[i] as int
                    == slot_value(init.data@, init.cursor_steps(), volume, i),
                self.data == init.data,
                self.sample_rate == init.sample_rate,
                self.channels == init.channels,
                self.cursor_steps() == cursor_after(init.data@, init.cursor_steps(), k as int),
            decreases n - k,
        {
            if self.position_whole < self.data.len() {
                let s: i32 = self.data[self.position_whole];
                proof {
                    assert(i64::MIN <= (s as int) * (volume as int) <= i64::MAX)
                        by (nonlinear_arith)
                        requires
                            -0x8000_0000 <= (s as int) <= 0x7fff_ffff,
                            0 <= (volume as int) < 0x1_0000_0000,
                    ;
                }
                let scaled: i64 = (s as i64) * (volume as i64);
                out.push(scaled);
                if self.position_half {
                    self.position_whole = self.position_whole + 1;
                    self.position_half = false;
                } else {
                    self.position_half = true;
                }
            } else {
                out.push(0i64);
            }
            k = k + 1;
        }
        out
    }
}

/// Exhaustion law: once the cursor has reached or passed the end of the
/// buffer, every requested output sample is exact silence, indefinitely, and
/// the cursor stays where it is — no request moves it and none fails.
pub proof fn lemma_exhausted_silence(data: Seq<i32>, start: int, volume: u32, i: int, n: int)
    requires
        start >= 2 * data.len(),
        0 <= i,
        0 <= n,
    ensures
        slot_value(data, start, volume, i) == 0,
        cursor_after(data, start, n) == start,
{
}

impl Default for AudioData {
    /// An empty buffer with customary CD-adjacent metadata and the cursor at
    /// the start; it is exhausted from the outset and yields only silence.
    fn default() -> (d: AudioData)
        ensures
            d.data@ == Seq::<i32>::empty(),
            d.sample_rate == 44100,
            d.channels == 2,
            d.cursor_steps() == 0,
            d.wf(),
    {
        AudioData {
            data: Vec::new(),
            sample_rate: 44100,
            channels: 2,
            position_whole: 0,
            position_half: false,
        }
    }
}

} // verus!
