//! The audio capture sink: interleaves and buffers every quantized stereo
//! sample the emulation core delivers, and surrenders the whole buffer
//! exactly once at teardown.

use vstd::prelude::*;

verus! {

/// The interleaved stereo stream of two equal-rate channels: left sample,
/// right sample, left sample, ...  Pairing stops at the shorter channel.
pub open spec fn interleaved(left: Seq<i16>, right: Seq<i16>) -> Seq<i16> {
    let frames = if left.len() <= right.len() {
        left.len()
    } else {
        right.len()
    };
    Seq::new(2 * frames, |i: int| if i % 2 == 0 { left[i / 2] } else { right[i / 2] })
}

/// Feeding two equal-length channels yields exactly one interleaved stereo
/// frame per input frame, each holding the input samples unchanged.
pub proof fn lemma_interleaved_frames(left: Seq<i16>, right: Seq<i16>)
    requires
        left.len() == right.len(),
    ensures
        interleaved(left, right).len() == 2 * left.len(),
        forall|i: int|
            0 <= i < left.len() ==> interleaved(left, right)[2 * i] == left[i]
                && interleaved(left, right)[2 * i + 1] == right[i],
{
    assert forall|i: int| 0 <= i < left.len() implies interleaved(left, right)[2 * i] == left[i]
        && interleaved(left, right)[2 * i + 1] == right[i] by {
        assert((2 * i) % 2 == 0 && (2 * i) / 2 == i) by (nonlinear_arith);
        assert((2 * i + 1) % 2 == 1 && (2 * i + 1) / 2 == i) by (nonlinear_arith);
    }
}

/// The audio capture sink.  It realizes the emulation core's audio-output
/// callback at the level of already-quantized 16-bit samples: chunks of
/// paired channel samples arrive in delivery order, are interleaved, and
/// accumulate in one append-only buffer for the whole run.  The buffer is
/// surrendered exactly once, at teardown, for serialization to a stereo PCM
/// file at the configured rate.
pub struct Player {
    outfile: String,
    sample_rate: u32,
    buffer: Vec<i16>,
}

impl Player {
    /// Path of the file the captured samples are destined for.
    pub closed spec fn path(&self) -> Seq<char> {
        self.outfile@
    }

    /// The configured target sample rate.
    pub closed spec fn rate(&self) -> u32 {
        self.sample_rate
    }

    /// Every sample captured so far, interleaved left-right.
    pub closed spec fn captured(&self) -> Seq<i16> {
        self.buffer@
    }

    /// A fresh sink for the given output path and sample rate, holding no
    /// samples yet.
    pub fn new(outfile: String, sample_rate: u32) -> (p: Player)
        ensures
            p.path() == outfile@,
            p.rate() == sample_rate,
            p.captured() == Seq::<i16>::empty(),
    {
        Player { outfile, sample_rate, buffer: Vec::new() }
    }

    /// A fresh boxed sink, ready to be handed to the emulation core's
    /// audio attachment point.
    pub fn boxed_new(outfile: String, sample_rate: u32) -> (p: Box<Player>)
        ensures
            p.path() == outfile@,
            p.rate() == sample_rate,
            p.captured() == Seq::<i16>::empty(),
    {
        Box::new(Player::new(outfile, sample_rate))
    }

    /// Receive one chunk of paired channel samples: append their
    /// interleaving to the captured stream.  Nothing already captured is
    /// dropped or reordered.
    pub fn play(&mut self, left: &Vec<i16>, right: &Vec<i16>)
        ensures
            final(self).captured() == old(self).captured() + interleaved(left@, right@),
            final(self).path() == old(self).path(),
            final(self).rate() == old(self).rate(),
    {
        let frames: usize = if left.len() <= right.len() {
            left.len()
        } else {
            right.len()
        };
        let ghost full = old(self).buffer@ + interleaved(left@, right@);
        let mut i: usize = 0;
        while i < frames
            invariant
                i <= frames,
                frames == if left@.len() <= right@.len() {
                    left@.len()
                } else {
                    right@.len()
                },
                full == old(self).buffer@ + interleaved(left@, right@),
                full.len() == old(self).buffer@.len() + 2 * frames,
                self.buffer@ == full.take(old(self).buffer@.len() + 2 * i),
                self.outfile == old(self).outfile,
                self.sample_rate == old(self).sample_rate,
            decreases frames - i,
        {
            self.buffer.push(left[i]);
            self.buffer.push(right[i]);
            proof {
                let n = old(self).buffer@.len() as int;
                assert((2 * i) % 2 == 0 && (2 * i) / 2 == i) by (nonlinear_arith);
                assert((2 * i + 1) % 2 == 1 && (2 * i + 1) / 2 == i) by (nonlinear_arith);
                assert(full[n + 2 * i] == left@[i as int]);
                assert(full[n + 2 * i + 1] == right@[i as int]);
                assert(self.buffer@ =~= full.take(n + 2 * (i + 1)));
            }
            i = i + 1;
        }
        proof {
            assert(self.buffer@ =~= full);
        }
    }

    /// The target rate the emulation core is expected to produce audio at;
    /// the sink itself never resamples.
    pub fn samples_rate(&self) -> (r: u32)
        ensures
            r == self.rate(),
    {
        self.sample_rate
    }

    /// The sink never blocks its producer and has no backpressure to
    /// signal, so it never reports an underflow.
    pub fn underflowed(&self) -> (r: bool)
        ensures
            r == false,
    {
        false
    }

    /// Teardown: surrender the whole captured stream together with the
    /// output path and rate it must be written under.  Consuming the sink
    /// makes a second teardown impossible, and nothing captured so far is
    /// withheld, however the run ended.
    pub fn finalize(self) -> (r: (String, u32, Vec<i16>))
        ensures
            r.0@ == self.path(),
            r.1 == self.rate(),
            r.2@ == self.captured(),
    {
        (self.outfile, self.sample_rate, self.buffer)
    }
}

} // verus!
