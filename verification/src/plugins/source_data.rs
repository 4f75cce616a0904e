//! Sources of radar samples: random dummy data, and the playback of a
//! recording whose frames are replayed in a loop.

use vstd::prelude::*;
use crate::plugins::samples::{encodes_samples, pack_samples};

verus! {

/// The number of data samples per packet.
pub const NUM_SAMPLES: usize = 1000;

/// `fastrand::i32` over the inclusive range `lo..=hi`: some value in that
/// range; which one is up to the thread's random generator.
#[verifier::external_body]
fn random_i32_in(lo: i32, hi: i32) -> (r: i32)
    requires
        lo <= hi,
    ensures
        lo <= r <= hi,
{
    fastrand::i32(lo..=hi)
}

/// Organizational struct for dummy data: random samples.
pub struct DummyData;

impl DummyData {
    /// Draws `NUM_SAMPLES` random complex samples, as real and imaginary
    /// parts; every `i32` is a possible part.
    pub fn random_samples(&self) -> (parts: (Vec<i32>, Vec<i32>))
        ensures
            parts.0@.len() == NUM_SAMPLES,
            parts.1@.len() == NUM_SAMPLES,
    {
        let mut re: Vec<i32> = Vec::new();
        let mut im: Vec<i32> = Vec::new();
        let mut i: usize = 0;
        while i < NUM_SAMPLES
            invariant
                i <= NUM_SAMPLES,
                re@.len() == i,
                im@.len() == i,
            decreases NUM_SAMPLES - i,
        {
            re.push(random_i32_in(i32::MIN, i32::MAX));
            im.push(random_i32_in(i32::MIN, i32::MAX));
            i = i + 1;
        }
        (re, im)
    }
}

/// Why a recording cannot be played back.
#[derive(Debug, Clone, Copy, PartialEq, Eq, Structural)]
pub enum DemoDataError {
    /// The recording has no frame of real or of imaginary parts.
    EmptyDataset,
}

/// What a settings update did to the playback delay.
#[derive(Debug, Clone, Copy, PartialEq, Eq, Structural)]
pub enum DelayChange {
    /// The delay is now fixed at this many milliseconds.
    Manual(u16),
    /// The delay now follows the recording's own timing.
    Auto,
    /// The update did not mention the delay.
    Unchanged,
}

/// The integer part of demo playback: the recorded frames of samples, the
/// frame that comes next, and the delay between frames.
pub struct DemoData {
    manual_delay: bool,
    delay: u16,
    idx: usize,
    real_ds: Vec<Vec<i32>>,
    imag_ds: Vec<Vec<i32>>,
}

/// The rows of a two-dimensional dataset.
pub open spec fn rows(ds: Seq<Vec<i32>>) -> Seq<Seq<i32>> {
    ds.map_values(|r: Vec<i32>| r@)
}

/// Frame `idx` can be packed: it has no real part, or there is a frame `idx`
/// of imaginary parts with at least as many parts.
pub open spec fn frame_playable(re_rows: Seq<Seq<i32>>, im_rows: Seq<Seq<i32>>, idx: int) -> bool {
    ||| re_rows[idx].len() == 0
    ||| (idx < im_rows.len() && re_rows[idx].len() <= im_rows[idx].len())
}

/// The imaginary parts that go with the real parts of frame `idx`.
pub open spec fn frame_imag(re_rows: Seq<Seq<i32>>, im_rows: Seq<Seq<i32>>, idx: int) -> Seq<i32> {
    if re_rows[idx].len() == 0 {
        Seq::empty()
    } else {
        im_rows[idx].take(re_rows[idx].len() as int)
    }
}

/// The index of the frame after `idx` in a recording of `count` frames.
pub open spec fn next_frame(idx: nat, count: nat) -> nat {
    (idx + 1) % count
}

/// The frame index after `n` frames have been sent from `idx`.
pub open spec fn frame_after(idx: nat, count: nat, n: nat) -> nat
    decreases n,
{
    if n == 0 {
        idx
    } else {
        next_frame(frame_after(idx, count, (n - 1) as nat), count)
    }
}

impl DemoData {
    /// The real parts of the recorded frames.
    pub closed spec fn real_rows(&self) -> Seq<Seq<i32>> {
        rows(self.real_ds@)
    }

    /// The imaginary parts of the recorded frames.
    pub closed spec fn imag_rows(&self) -> Seq<Seq<i32>> {
        rows(self.imag_ds@)
    }

    /// The index of the frame that is sent next.
    pub closed spec fn frame(&self) -> nat {
        self.idx as nat
    }

    /// The delay was set by hand and does not follow the recording.
    pub closed spec fn manual(&self) -> bool {
        self.manual_delay
    }

    /// Milliseconds to wait after sending a frame.
    pub closed spec fn delay_ms(&self) -> u16 {
        self.delay
    }

    /// The recording is not empty, its shapes match, and the next frame is
    /// one of its frames.
    pub open spec fn wf(&self) -> bool {
        &&& self.real_rows().len() > 0
        &&& self.frame() < self.real_rows().len()
    }

    /// Starts the playback of a recording at its first frame, with the delay
    /// following the recording. Frames are not checked against each other
    /// here: a frame with too few imaginary parts is refused only when it is
    /// played (see `frame_ready`).
    pub fn from_datasets(real_ds: Vec<Vec<i32>>, imag_ds: Vec<Vec<i32>>) -> (r: Result<DemoData, DemoDataError>)
        ensures
            (real_ds@.len() == 0 || imag_ds@.len() == 0) ==> r == Err::<DemoData, _>(DemoDataError::EmptyDataset),
            (real_ds@.len() > 0 && imag_ds@.len() > 0) ==> (r matches Ok(d) && {
                &&& d.wf()
                &&& d.real_rows() == rows(real_ds@)
                &&& d.imag_rows() == rows(imag_ds@)
                &&& d.frame() == 0
                &&& !d.manual()
                &&& d.delay_ms() == 0
            }),
    {
        if real_ds.len() == 0 || imag_ds.len() == 0 {
            return Err(DemoDataError::EmptyDataset);
        }
        Ok(DemoData { manual_delay: false, delay: 0, idx: 0, real_ds, imag_ds })
    }

    /// Whether the frame that is sent next can be packed: it has no sample,
    /// or it has at least as many imaginary parts as real parts.
    pub fn frame_ready(&self) -> (r: bool)
        requires
            self.wf(),
        ensures
            r == frame_playable(self.real_rows(), self.imag_rows(), self.frame() as int),
            self.real_rows()[self.frame() as int].len() == 0 ==> r,
            (self.frame() < self.imag_rows().len()
                && self.real_rows()[self.frame() as int].len() <= self.imag_rows()[self.frame() as int].len()) ==> r,
            (self.real_rows()[self.frame() as int].len() > 0 && (self.frame() >= self.imag_rows().len()
                || self.imag_rows()[self.frame() as int].len() < self.real_rows()[self.frame() as int].len())) ==> !r,
    {
        let i = self.idx;
        proof {
            assert(self.real_rows()[i as int] == self.real_ds@[i as int]@);
            if (i as int) < self.imag_ds@.len() {
                assert(self.imag_rows()[i as int] == self.imag_ds@[i as int]@);
            }
        }
        self.real_ds[i].len() == 0 || (i < self.imag_ds.len() && self.real_ds[i].len() <= self.imag_ds[i].len())
    }

    /// Whether the delay was set by hand.
    pub fn manual_delay(&self) -> (m: bool)
        ensures
            m == self.manual(),
    {
        self.manual_delay
    }

    /// Milliseconds to wait after sending a frame.
    pub fn delay(&self) -> (d: u16)
        ensures
            d == self.delay_ms(),
    {
        self.delay
    }

    /// The index of the frame that is sent next.
    pub fn idx(&self) -> (i: usize)
        ensures
            i == self.frame(),
    {
        self.idx
    }

    /// The number of recorded frames.
    pub fn frame_count(&self) -> (n: usize)
        ensures
            n == self.real_rows().len(),
    {
        self.real_ds.len()
    }

    /// The number of samples in the frame that is sent next.
    pub fn current_samples(&self) -> (n: u64)
        requires
            self.wf(),
        ensures
            n == self.real_rows()[self.frame() as int].len(),
    {
        proof {
            assert(self.real_rows()[self.frame() as int] == self.real_ds@[self.idx as int]@);
        }
        self.real_ds[self.idx].len() as u64
    }

    /// The packet bytes of the frame that is sent next: each of its samples
    /// as a `Complex<i32>`, in order. The frame must be playable
    /// (`frame_ready`).
    pub fn frame_data(&self) -> (data: Vec<u8>)
        requires
            self.wf(),
            frame_playable(self.real_rows(), self.imag_rows(), self.frame() as int),
        ensures
            encodes_samples(
                data@,
                self.real_rows()[self.frame() as int],
                frame_imag(self.real_rows(), self.imag_rows(), self.frame() as int),
            ),
    {
        let i = self.idx;
        proof {
            assert(self.real_rows()[i as int] == self.real_ds@[i as int]@);
        }
        if self.real_ds[i].len() == 0 {
            let empty: Vec<i32> = Vec::new();
            return pack_samples(self.real_ds[i].as_slice(), empty.as_slice());
        }
        proof {
            assert(self.imag_rows()[i as int] == self.imag_ds@[i as int]@);
        }
        pack_samples(self.real_ds[i].as_slice(), self.imag_ds[i].as_slice())
    }

    /// Applies a settings update: a playback delay of zero switches back to
    /// the recording's timing, any other value fixes the delay at that many
    /// milliseconds, and no value leaves the delay alone.
    pub fn update_state(&mut self, playback_delay: Option<u16>) -> (change: DelayChange)
        ensures
            final(self).frame() == old(self).frame(),
            final(self).real_rows() == old(self).real_rows(),
            final(self).imag_rows() == old(self).imag_rows(),
            match playback_delay {
                None => {
                    &&& change == DelayChange::Unchanged
                    &&& final(self).manual() == old(self).manual()
                    &&& final(self).delay_ms() == old(self).delay_ms()
                },
                Some(pd) => if pd != 0 {
                    &&& change == DelayChange::Manual(pd)
                    &&& final(self).manual()
                    &&& final(self).delay_ms() == pd
                } else {
                    &&& change == DelayChange::Auto
                    &&& !final(self).manual()
                    &&& final(self).delay_ms() == old(self).delay_ms()
                },
            },
    {
        match playback_delay {
            Some(pd) => {
                if pd != 0 {
                    self.manual_delay = true;
                    self.delay = pd;
                    DelayChange::Manual(pd)
                } else {
                    self.manual_delay = false;
                    DelayChange::Auto
                }
            },
            None => DelayChange::Unchanged,
        }
    }

    /// Ends the frame that was just sent: unless the delay was set by hand it
    /// becomes the recording's time step, `dt_millis` milliseconds truncated
    /// to 16 bits, and playback moves to the next frame, wrapping around to
    /// the first after the last.
    pub fn finish_frame(&mut self, dt_millis: u128)
        requires
            old(self).wf(),
        ensures
            final(self).wf(),
            final(self).real_rows() == old(self).real_rows(),
            final(self).imag_rows() == old(self).imag_rows(),
            final(self).frame() == next_frame(old(self).frame(), old(self).real_rows().len()),
            final(self).manual() == old(self).manual(),
            final(self).delay_ms() == if old(self).manual() {
                old(self).delay_ms() as int
            } else {
                (dt_millis % 0x1_0000) as int
            },
    {
        if !self.manual_delay {
            self.delay = (dt_millis % 0x1_0000) as u16;
        }
        let count = self.real_ds.len();
        assert(count == self.real_rows().len());
        self.idx = (self.idx + 1) % count;
    }
}

/// A recording whose imaginary dataset has the shape of its real one can be
/// played frame after frame: every frame is ready; and a frame is refused
/// only when it has real parts and lacks as many imaginary parts.
pub proof fn lemma_matching_shapes_play(re_rows: Seq<Seq<i32>>, im_rows: Seq<Seq<i32>>, idx: int)
    requires
        0 <= idx < re_rows.len(),
    ensures
        (idx < im_rows.len() && re_rows[idx].len() <= im_rows[idx].len()) ==> frame_playable(re_rows, im_rows, idx),
        (re_rows.len() == im_rows.len() && re_rows[idx].len() == im_rows[idx].len()) ==> frame_playable(re_rows, im_rows, idx),
        !frame_playable(re_rows, im_rows, idx) <==> (re_rows[idx].len() > 0
            && (idx >= im_rows.len() || im_rows[idx].len() < re_rows[idx].len())),
{
}

/// The samples of a playable frame pair each real part with the imaginary
/// part at the same position: the frame has as many imaginary parts as real
/// ones, and part `k` is `imag[idx][k]`.
pub proof fn lemma_frame_pairs_parts(re_rows: Seq<Seq<i32>>, im_rows: Seq<Seq<i32>>, idx: int)
    requires
        0 <= idx < re_rows.len(),
        frame_playable(re_rows, im_rows, idx),
    ensures
        frame_imag(re_rows, im_rows, idx).len() == re_rows[idx].len(),
        forall|k: int| 0 <= k < re_rows[idx].len() ==> #[trigger] frame_imag(re_rows, im_rows, idx)[k] == im_rows[idx][k],
{
}

/// Playback loops over the recording: after `n` frames from frame `idx`, the
/// next frame is `(idx + n) mod count`; in particular after `count` frames it
/// is `idx` again.
pub proof fn lemma_playback_wraps(idx: nat, count: nat, n: nat)
    requires
        count > 0,
        idx < count,
    ensures
        frame_after(idx, count, n) == (idx + n) % count,
        frame_after(idx, count, count) == idx,
{
    lemma_frame_after_closed(idx, count, n);
    lemma_frame_after_closed(idx, count, count);
    vstd::arithmetic::div_mod::lemma_mod_add_multiples_vanish(idx as int, count as int);
    vstd::arithmetic::div_mod::lemma_small_mod(idx, count);
}

proof fn lemma_frame_after_closed(idx: nat, count: nat, n: nat)
    requires
        count > 0,
        idx < count,
    ensures
        frame_after(idx, count, n) == (idx + n) % count,
    decreases n,
{
    if n == 0 {
        vstd::arithmetic::div_mod::lemma_small_mod(idx, count);
    } else {
        lemma_frame_after_closed(idx, count, (n - 1) as nat);
        vstd::arithmetic::div_mod::lemma_add_mod_noop_right(1, idx + n - 1, count as int);
    }
}

} // verus!
