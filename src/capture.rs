//! The recording buffer: samples accumulate only while it is armed, arming
//! starts a session with an empty buffer, and draining hands the session's
//! samples out exactly once.

use vstd::prelude::*;
use crate::wav::{encode, valid_format, wav_bytes, EncodeError, MAX_SAMPLES};

verus! {

/// The samples captured so far and whether capture is on.
pub struct RecordingBuffer {
    armed: bool,
    samples: Vec<i16>,
}

/// What a buffer holds: whether it is armed, and its samples in order.
pub struct BufferState {
    pub armed: bool,
    pub samples: Seq<i16>,
}

/// Arming starts a fresh session.
pub open spec fn arm_state(s: BufferState) -> BufferState {
    BufferState { armed: true, samples: Seq::empty() }
}

/// Samples delivered by the device are kept only while armed.
pub open spec fn append_state(s: BufferState, data: Seq<i16>) -> BufferState {
    if s.armed {
        BufferState { armed: true, samples: s.samples + data }
    } else {
        s
    }
}

/// Draining disarms and empties the buffer; it hands out what it held.
pub open spec fn drain_state(s: BufferState) -> BufferState {
    BufferState { armed: false, samples: Seq::empty() }
}

/// The buffer after the device delivers each of `chunks` in turn.
pub open spec fn append_all(s: BufferState, chunks: Seq<Seq<i16>>) -> BufferState
    decreases chunks.len(),
{
    if chunks.len() == 0 {
        s
    } else {
        append_state(append_all(s, chunks.drop_last()), chunks.last())
    }
}

/// All of `chunks`, one after the other.
pub open spec fn concat_all(chunks: Seq<Seq<i16>>) -> Seq<i16>
    decreases chunks.len(),
{
    if chunks.len() == 0 {
        Seq::empty()
    } else {
        concat_all(chunks.drop_last()) + chunks.last()
    }
}

impl View for RecordingBuffer {
    type V = BufferState;

    closed spec fn view(&self) -> BufferState {
        BufferState { armed: self.armed, samples: self.samples@ }
    }
}

impl RecordingBuffer {
    /// An empty, disarmed buffer.
    pub fn new() -> (r: RecordingBuffer)
        ensures
            r@ == (BufferState { armed: false, samples: Seq::empty() }),
    {
        RecordingBuffer { armed: false, samples: Vec::new() }
    }

    pub fn is_armed(&self) -> (r: bool)
        ensures
            r == self@.armed,
    {
        self.armed
    }

    /// Number of samples held.
    pub fn len(&self) -> (r: usize)
        ensures
            r == self@.samples.len(),
    {
        self.samples.len()
    }

    /// Clears the samples and turns capture on.
    pub fn arm(&mut self)
        ensures
            final(self)@ == arm_state(old(self)@),
    {
        self.samples.clear();
        self.armed = true;
    }

    /// Takes in a block of samples from the device: appended while armed,
    /// dropped otherwise.
    pub fn append(&mut self, data: &[i16])
        ensures
            final(self)@ == append_state(old(self)@, data@),
    {
        if !self.armed {
            return;
        }
        let mut i: usize = 0;
        while i < data.len()
            invariant
                self.armed,
                i <= data@.len(),
                self.samples@ == old(self)@.samples + data@.subrange(0, i as int),
            decreases data@.len() - i,
        {
            self.samples.push(data[i]);
            i = i + 1;
            assert(self.samples@ =~= old(self)@.samples + data@.subrange(0, i as int));
        }
        assert(data@.subrange(0, data@.len() as int) =~= data@);
    }

    /// Turns capture off; the samples stay.
    pub fn disarm(&mut self)
        ensures
            final(self)@ == (BufferState { armed: false, samples: old(self)@.samples }),
    {
        self.armed = false;
    }

    /// Turns capture off and hands out the session's samples, leaving the
    /// buffer empty.
    pub fn disarm_and_drain(&mut self) -> (r: Vec<i16>)
        ensures
            r@ == old(self)@.samples,
            final(self)@ == drain_state(old(self)@),
    {
        self.armed = false;
        let mut out = Vec::new();
        std::mem::swap(&mut out, &mut self.samples);
        out
    }

    /// Ends the session: drains the buffer and encodes the samples as a WAV
    /// file at the device's rate and channel count. No samples give no
    /// bytes.
    pub fn finish(&mut self, sample_rate: u32, channels: u16) -> (r: Result<Vec<u8>, EncodeError>)
        requires
            valid_format(channels, sample_rate),
        ensures
            final(self)@ == drain_state(old(self)@),
            old(self)@.samples.len() == 0 ==> (r matches Ok(b) && b@.len() == 0),
            old(self)@.samples.len() > 0 ==> match r {
                Ok(b) => old(self)@.samples.len() <= MAX_SAMPLES && old(self)@.samples.len() % (
                channels as nat) == 0 && b@ == wav_bytes(channels, sample_rate, old(self)@.samples),
                Err(EncodeError::TooLong) => old(self)@.samples.len() > MAX_SAMPLES,
                Err(EncodeError::UnfinishedFrame) => old(self)@.samples.len() <= MAX_SAMPLES
                    && old(self)@.samples.len() % (channels as nat) != 0,
            },
    {
        let samples = self.disarm_and_drain();
        encode(&samples, sample_rate, channels)
    }
}

/// A session sees only its own samples: whatever the buffer held before,
/// arming it, letting the device deliver any blocks, and draining it hands
/// out exactly those blocks, in order.
pub proof fn lemma_session_isolated(s: BufferState, chunks: Seq<Seq<i16>>)
    ensures
        append_all(arm_state(s), chunks).samples == concat_all(chunks),
        append_all(arm_state(s), chunks).armed,
    decreases chunks.len(),
{
    if chunks.len() > 0 {
        lemma_session_isolated(s, chunks.drop_last());
    } else {
        assert(concat_all(chunks) =~= Seq::<i16>::empty());
    }
}

} // verus!
