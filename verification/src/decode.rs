//! Assembly of a decoded audio buffer from a decoder's packet stream.
//!
//! The decoder itself is an external collaborator: it hands over, packet by
//! packet, the first channel's samples (already in the library's fixed-point
//! amplitude units) together with the stream's format metadata, and finally
//! reports either a normal end of stream or a failure.  This module holds the
//! decisions of that loop: accumulate packets in order, let the last packet's
//! metadata win, stop normally at end of stream, fail fast on an error, and
//! reject a stream that never yielded usable format metadata.

use vstd::prelude::*;

use crate::buffer::AudioData;

verus! {

/// Why a byte stream yielded no playable buffer.
#[derive(Clone, Copy, Debug, PartialEq, Eq, Structural)]
pub enum DecodeError {
    /// The input bytes are of no container or codec the decoder knows.
    UnsupportedInput,
    /// The input bytes are recognised but malformed.
    MalformedInput,
    /// The stream held no usable audio track.
    NoUsableTrack,
}

/// One observation the decode loop makes of the decoder.
#[derive(Clone, Debug)]
pub enum DecodeEvent {
    /// A decoded packet: the streamed channel's samples in fixed-point units,
    /// and the format metadata the decoder reported alongside them.
    Packet { samples: Vec<i32>, sample_rate: u32, channels: u16 },
    /// The source ran out: a normal termination, not an error.
    EndOfStream,
    /// The decoder failed; decoding stops with this error.
    Failed(DecodeError),
}

/// What a finished accumulation yields: the buffer, if the stream ever
/// reported usable metadata (a positive sample rate and channel count), and
/// `NoUsableTrack` otherwise.
pub open spec fn finish_spec(samples: Seq<i32>, sample_rate: u32, channels: u16) -> Result<
    (Seq<i32>, u32, u16),
    DecodeError,
> {
    if sample_rate >= 1 && channels >= 1 {
        Ok((samples, sample_rate, channels))
    } else {
        Err(DecodeError::NoUsableTrack)
    }
}

/// The decode loop as a fold: starting from what is already accumulated,
/// process the events in order — append each packet's samples and adopt its
/// metadata, finish normally at end of stream (or when the events run out),
/// and stop with the reported error on a failure.
pub open spec fn decode_spec(
    events: Seq<DecodeEvent>,
    samples: Seq<i32>,
    sample_rate: u32,
    channels: u16,
) -> Result<(Seq<i32>, u32, u16), DecodeError>
    decreases events.len(),
{
    if events.len() == 0 {
        finish_spec(samples, sample_rate, channels)
    } else {
        match events[0] {
            DecodeEvent::Packet { samples: p, sample_rate: r, channels: c } => decode_spec(
                events.drop_first(),
                samples + p@,
                r,
                c,
            ),
            DecodeEvent::EndOfStream => finish_spec(samples, sample_rate, channels),
            DecodeEvent::Failed(e) => Err(e),
        }
    }
}

/// The running state of the decode loop: the samples gathered so far and the
/// most recently reported format metadata (zero until a packet arrives).
pub struct DecodeAccumulator {
    /// All samples decoded so far, in stream order.
    pub samples: Vec<i32>,
    /// Sample rate of the last packet, or `0` before the first.
    pub sample_rate: u32,
    /// Channel count of the last packet, or `0` before the first.
    pub channels: u16,
}

impl DecodeAccumulator {
    /// An empty accumulation: no samples, no metadata yet.
    pub fn new() -> (acc: DecodeAccumulator)
        ensures
            acc.samples@ == Seq::<i32>::empty(),
            acc.sample_rate == 0,
            acc.channels == 0,
    {
        DecodeAccumulator { samples: Vec::new(), sample_rate: 0, channels: 0 }
    }

    /// Take one decoded packet: its samples go to the end, in order, and its
    /// metadata becomes the stream's — the last packet wins.
    pub fn push_packet(&mut self, chunk: Vec<i32>, sample_rate: u32, channels: u16)
        ensures
            final(self).samples@ == old(self).samples@ + chunk@,
            final(self).sample_rate == sample_rate,
            final(self).channels == channels,
    {
        let mut chunk = chunk;
        self.samples.append(&mut chunk);
        self.sample_rate = sample_rate;
        self.channels = channels;
    }

    /// Close the accumulation: a buffer with the cursor at the start if the
    /// stream reported usable metadata, and `NoUsableTrack` if it never did.
    pub fn finish(self) -> (r: Result<AudioData, DecodeError>)
        ensures
            match finish_spec(self.samples@, self.sample_rate, self.channels) {
                Ok((s, rate, ch)) => r matches Ok(a) && a.data@ == s && a.sample_rate == rate
                    && a.channels == ch && a.cursor_steps() == 0 && a.wf(),
                Err(e) => r matches Err(e2) && e2 == e,
            },
    {
        if self.sample_rate >= 1 && self.channels >= 1 {
            Ok(AudioData {
                data: self.samples,
                sample_rate: self.sample_rate,
                channels: self.channels,
                position_whole: 0,
                position_half: false,
            })
        } else {
            Err(DecodeError::NoUsableTrack)
        }
    }
}

/// Run the whole decode loop over the events observed of a decoder, in order,
/// and return exactly what [`decode_spec`] folds them to: the finished buffer,
/// or the first failure, or `NoUsableTrack` for a stream without usable
/// metadata.  The returned buffer's cursor is at the start.
#[verifier::loop_isolation(false)]
pub fn run_decode(events: Vec<DecodeEvent>) -> (r: Result<AudioData, DecodeError>)
    ensures
        match decode_spec(events@, Seq::<i32>::empty(), 0, 0) {
            Ok((s, rate, ch)) => r matches Ok(a) && a.data@ == s && a.sample_rate == rate
                && a.channels == ch && a.cursor_steps() == 0 && a.wf(),
            Err(e) => r matches Err(e2) && e2 == e,
        },
{
    let ghost all: Seq<DecodeEvent> = events@;
    let mut remaining = events;
    let mut acc = DecodeAccumulator::new();
    while remaining.len() > 0
        invariant
            decode_spec(all, Seq::<i32>::empty(), 0, 0) == decode_spec(
                remaining@,
                acc.samples@,
                acc.sample_rate,
                acc.channels,
            ),
        decreases remaining@.len(),
    {
        let ghost before: Seq<DecodeEvent> = remaining@;
        let ev = remaining.remove(0);
        proof {
            assert(remaining@ =~= before.drop_first());
        }
        match ev {
            DecodeEvent::Packet { samples: p, sample_rate: r, channels: c } => {
                acc.push_packet(p, r, c);
            },
            DecodeEvent::EndOfStream => {
                return acc.finish();
            },
            DecodeEvent::Failed(e) => {
                return Err(e);
            },
        }
    }
    acc.finish()
}

} // verus!
