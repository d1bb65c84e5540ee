//! The sample accumulator: reassembles driver-sized packets into fixed-size
//! analysis windows.
//!
//! Packets append to a growable buffer; whenever the buffer holds at least
//! `window_size` samples, the oldest `window_size` samples leave as one
//! window and the remainder stays buffered. Slicing is non-overlapping and
//! oldest-first, so every appended sample is consumed by exactly one window
//! or still sits in the buffer: the conservation law
//! `samples_appended == windows_emitted * window_size + buffer length`
//! holds in every reachable state.

use vstd::prelude::*;

use crate::channel::{PacketType, SampleBits};

verus! {

/// Whether `n` is a power of two. Analysis windows must have such a length,
/// as the Fourier stage downstream requires it.
pub open spec fn is_pow2(n: nat) -> bool
    decreases n,
{
    if n == 0 {
        false
    } else if n == 1 {
        true
    } else {
        n % 2 == 0 && is_pow2(n / 2)
    }
}

/// Decide `is_pow2` at run time.
pub fn valid_window_size(n: usize) -> (r: bool)
    ensures
        r == is_pow2(n as nat),
{
    if n == 0 {
        return false;
    }
    let mut m: usize = n;
    while m > 1
        invariant
            1 <= m,
            is_pow2(n as nat) == is_pow2(m as nat),
        decreases m,
    {
        if m % 2 == 1 {
            return false;
        }
        m = m / 2;
    }
    true
}

/// Buffers arriving packets and emits fixed-size analysis windows.
pub struct SampleAccumulator {
    buffer: PacketType,
    window_size: usize,
    windows_emitted: u64,
    samples_appended: u64,
}

impl SampleAccumulator {
    /// The samples currently buffered, oldest first.
    pub closed spec fn spec_buffer(&self) -> Seq<SampleBits> {
        self.buffer@
    }

    /// The fixed length of every emitted window.
    pub closed spec fn spec_window_size(&self) -> usize {
        self.window_size
    }

    /// How many windows have been emitted so far.
    pub closed spec fn spec_windows_emitted(&self) -> u64 {
        self.windows_emitted
    }

    /// How many samples have ever been appended.
    pub closed spec fn spec_samples_appended(&self) -> u64 {
        self.samples_appended
    }

    /// Well-formedness: the window size is a power of two, and no sample has
    /// been lost or duplicated — the samples ever appended are exactly those
    /// emitted in windows plus those still buffered.
    pub closed spec fn wf(&self) -> bool {
        &&& is_pow2(self.window_size as nat)
        &&& self.samples_appended as int == self.windows_emitted as int * self.window_size as int
            + self.buffer@.len()
    }

    /// A fresh accumulator with an empty buffer.
    pub fn new(window_size: usize) -> (r: SampleAccumulator)
        requires
            is_pow2(window_size as nat),
        ensures
            r.wf(),
            r.spec_window_size() == window_size,
            r.spec_buffer() == Seq::<SampleBits>::empty(),
            r.spec_windows_emitted() == 0,
            r.spec_samples_appended() == 0,
    {
        let r = SampleAccumulator {
            buffer: Vec::new(),
            window_size,
            windows_emitted: 0,
            samples_appended: 0,
        };
        assert(r.buffer@ =~= Seq::<SampleBits>::empty());
        r
    }

    /// Append one packet's samples to the buffer, in order, draining the
    /// packet. No window is emitted here; `take_window` and `drain_windows`
    /// do that.
    pub fn append_packet(&mut self, packet: &mut PacketType)
        requires
            old(self).wf(),
            old(self).spec_samples_appended() + old(packet)@.len() <= u64::MAX,
        ensures
            final(self).wf(),
            final(self).spec_buffer() == old(self).spec_buffer() + old(packet)@,
            final(packet)@ == Seq::<SampleBits>::empty(),
            final(self).spec_window_size() == old(self).spec_window_size(),
            final(self).spec_windows_emitted() == old(self).spec_windows_emitted(),
            final(self).spec_samples_appended() == old(self).spec_samples_appended() + old(
                packet,
            )@.len(),
    {
        let n: usize = packet.len();
        self.samples_appended = self.samples_appended + n as u64;
        self.buffer.append(packet);
    }

    /// The fixed window length.
    pub fn window_size(&self) -> (r: usize)
        ensures
            r == self.spec_window_size(),
    {
        self.window_size
    }

    /// How many samples are buffered and not yet emitted.
    pub fn buffered_len(&self) -> (r: usize)
        ensures
            r == self.spec_buffer().len(),
    {
        self.buffer.len()
    }

    /// How many windows have been emitted so far.
    pub fn windows_emitted(&self) -> (r: u64)
        ensures
            r == self.spec_windows_emitted(),
    {
        self.windows_emitted
    }

    /// How many samples have ever been appended.
    pub fn samples_appended(&self) -> (r: u64)
        ensures
            r == self.spec_samples_appended(),
    {
        self.samples_appended
    }

    /// Whether a full window is available.
    pub fn has_window(&self) -> (r: bool)
        ensures
            r == (self.spec_buffer().len() >= self.spec_window_size()),
    {
        self.buffer.len() >= self.window_size
    }

    /// Emit the oldest `window_size` samples as one window, keeping the
    /// remainder buffered; `None` while no full window is available.
    pub fn take_window(&mut self) -> (r: Option<PacketType>)
        requires
            old(self).wf(),
        ensures
            final(self).wf(),
            final(self).spec_window_size() == old(self).spec_window_size(),
            final(self).spec_samples_appended() == old(self).spec_samples_appended(),
            old(self).spec_buffer().len() < old(self).spec_window_size() ==> {
                &&& r is None
                &&& *final(self) == *old(self)
            },
            old(self).spec_buffer().len() >= old(self).spec_window_size() ==> {
                &&& r matches Some(w) && w@ == old(self).spec_buffer().subrange(
                    0,
                    old(self).spec_window_size() as int,
                )
                &&& final(self).spec_buffer() == old(self).spec_buffer().subrange(
                    old(self).spec_window_size() as int,
                    old(self).spec_buffer().len() as int,
                )
                &&& final(self).spec_windows_emitted() == old(self).spec_windows_emitted() + 1
            },
    {
        if self.buffer.len() >= self.window_size {
            proof {
                lemma_pow2_pos(self.window_size as nat);
                assert(self.windows_emitted as int + 1 <= self.windows_emitted as int
                    * self.window_size as int + self.window_size as int) by (nonlinear_arith)
                    requires
                        self.window_size >= 1,
                        self.windows_emitted >= 0,
                {}
            }
            let mut rest = self.buffer.split_off(self.window_size);
            core::mem::swap(&mut self.buffer, &mut rest);
            self.windows_emitted = self.windows_emitted + 1;
            proof {
                assert(self.samples_appended as int == self.windows_emitted as int
                    * self.window_size as int + self.buffer@.len()) by (nonlinear_arith)
                    requires
                        self.samples_appended as int == (self.windows_emitted as int - 1)
                            * self.window_size as int + self.buffer@.len()
                            + self.window_size as int,
                {}
            }
            Some(rest)
        } else {
            None
        }
    }

    /// Emit every complete window now buffered, oldest first. The result
    /// holds consecutive non-overlapping slices of the old buffer, and what
    /// stays buffered is exactly the tail after them — shorter than one
    /// window.
    pub fn drain_windows(&mut self) -> (r: Vec<PacketType>)
        requires
            old(self).wf(),
        ensures
            final(self).wf(),
            final(self).spec_window_size() == old(self).spec_window_size(),
            final(self).spec_samples_appended() == old(self).spec_samples_appended(),
            final(self).spec_buffer().len() < final(self).spec_window_size(),
            old(self).spec_buffer().len() == r@.len() * old(self).spec_window_size()
                + final(self).spec_buffer().len(),
            forall|i: int|
                0 <= i < r@.len() ==> r@[i]@ == old(self).spec_buffer().subrange(
                    i * old(self).spec_window_size(),
                    (i + 1) * old(self).spec_window_size(),
                ),
            final(self).spec_buffer() == old(self).spec_buffer().subrange(
                r@.len() * old(self).spec_window_size() as int,
                old(self).spec_buffer().len() as int,
            ),
            final(self).spec_windows_emitted() == old(self).spec_windows_emitted() + r@.len(),
    {
        let mut windows: Vec<PacketType> = Vec::new();
        let ghost orig: Seq<SampleBits> = self.buffer@;
        let ghost ws: int = self.window_size as int;
        proof {
            lemma_pow2_pos(self.window_size as nat);
            assert(windows@.len() == 0);
            assert(windows@.len() * ws == 0) by (nonlinear_arith)
                requires
                    windows@.len() == 0,
            {}
            assert(orig.subrange(0, orig.len() as int) =~= orig);
        }
        while self.buffer.len() >= self.window_size
            invariant
                self.wf(),
                self.spec_window_size() == old(self).spec_window_size(),
                self.spec_samples_appended() == old(self).spec_samples_appended(),
                ws == self.window_size as int,
                ws >= 1,
                orig == old(self).spec_buffer(),
                orig.len() == windows@.len() * ws + self.buffer@.len(),
                forall|i: int|
                    0 <= i < windows@.len() ==> windows@[i]@ == orig.subrange(
                        i * ws,
                        (i + 1) * ws,
                    ),
                self.buffer@ == orig.subrange(windows@.len() * ws, orig.len() as int),
                self.spec_windows_emitted() == old(self).spec_windows_emitted()
                    + windows@.len(),
            decreases self.buffer@.len(),
        {
            let ghost k: int = windows@.len() as int;
            let ghost before: Seq<SampleBits> = self.buffer@;
            let w = self.take_window();
            let w = w.unwrap();
            proof {
                assert(0 <= k * ws && k * ws + ws <= orig.len()) by (nonlinear_arith)
                    requires
                        ws >= 1,
                        k >= 0,
                        orig.len() == k * ws + before.len(),
                        before.len() >= ws,
                {}
                assert(w@ =~= orig.subrange(k * ws, (k + 1) * ws)) by {
                    assert(w@ == before.subrange(0, ws));
                    assert(before == orig.subrange(k * ws, orig.len() as int));
                    assert((k + 1) * ws == k * ws + ws) by (nonlinear_arith);
                }
                assert(self.buffer@ =~= orig.subrange((k + 1) * ws, orig.len() as int)) by {
                    assert(self.buffer@ == before.subrange(ws, before.len() as int));
                    assert((k + 1) * ws == k * ws + ws) by (nonlinear_arith);
                }
            }
            windows.push(w);
            proof {
                assert(orig.len() == windows@.len() * ws + self.buffer@.len())
                    by (nonlinear_arith)
                    requires
                        orig.len() == k * ws + before.len(),
                        windows@.len() == k + 1,
                        self.buffer@.len() == before.len() - ws,
                        ws >= 1,
                {}
            }
        }
        windows
    }
}

/// A power of two is positive.
proof fn lemma_pow2_pos(n: nat)
    requires
        is_pow2(n),
    ensures
        n >= 1,
{
}

/// The conservation law of the accumulator: in every well-formed state, the
/// samples ever appended equal the samples emitted in windows plus the
/// samples still buffered — none lost, none duplicated.
pub proof fn lemma_sample_conservation(acc: SampleAccumulator)
    requires
        acc.wf(),
    ensures
        acc.spec_samples_appended() as int == acc.spec_windows_emitted() as int
            * acc.spec_window_size() as int + acc.spec_buffer().len(),
{
}

} // verus!
