//! Pacing of compute submits: how many sample dispatches go into one submit.

use vstd::prelude::*;

verus! {

/// Upper bound on sample dispatches packed into one submit. Bounds the damage if the
/// pacer's first measurement is skewed fast by pipeline warm-up.
pub const MAX_SAMPLES_PER_SUBMIT: u32 = 64;

/// `v` brought into `[lo, hi]`, as `Ord::clamp` does when `lo <= hi`.
pub open spec fn clamp_int(v: int, lo: int, hi: int) -> int {
    if v < lo {
        lo
    } else if v > hi {
        hi
    } else {
        v
    }
}

/// The smaller of two integers.
pub open spec fn min_int(a: int, b: int) -> int {
    if a <= b {
        a
    } else {
        b
    }
}

/// `v` brought into `[lo, hi]`.
fn clamp_u32(v: u32, lo: u32, hi: u32) -> (r: u32)
    requires
        lo <= hi,
    ensures
        v < lo ==> r == lo,
        v > hi ==> r == hi,
        lo <= v <= hi ==> r == v,
{
    if v < lo {
        lo
    } else if v > hi {
        hi
    } else {
        v
    }
}

/// Picks how many sample dispatches to pack into one submit so each lands near a
/// target duration: long enough to amortise the submit and queue-idle round trip,
/// short enough to stay well under the driver's watchdog.
///
/// The pacer starts at one dispatch per submit and adapts to measurements fed back
/// through [`SubmitPacer::record_estimate`]; the chunk never exceeds the limit it
/// was made with.
pub struct SubmitPacer {
    chunk: u32,
    max: u32,
}

impl SubmitPacer {
    /// The chunk size the pacer currently aims for.
    pub closed spec fn spec_chunk(self) -> u32 {
        self.chunk
    }

    /// The limit the pacer was made with.
    pub closed spec fn spec_max(self) -> u32 {
        self.max
    }

    /// The number of dispatches [`SubmitPacer::chunk`] hands out when `remaining`
    /// dispatches are left: the current chunk brought into `[1, max]`, or all that
    /// remains when that is less.
    pub open spec fn chunk_for(self, remaining: u32) -> int {
        let c = self.spec_chunk() as int;
        let m = self.spec_max() as int;
        let k = if c < 1 {
            1
        } else if c > m {
            m
        } else {
            c
        };
        if k <= remaining {
            k
        } else {
            remaining as int
        }
    }

    /// The current chunk is at least one, and within the limit whenever the
    /// limit admits any chunk at all.
    #[verifier::type_invariant]
    closed spec fn inv(self) -> bool {
        &&& 1 <= self.chunk
        &&& self.max >= 1 ==> self.chunk <= self.max
    }

    /// A pacer that starts at one dispatch per submit, limited to `max`.
    pub fn new(max: u32) -> (p: Self)
        ensures
            p.spec_chunk() == 1,
            p.spec_max() == max,
    {
        SubmitPacer { chunk: 1, max }
    }

    /// The limit the pacer was made with.
    pub fn max(&self) -> (r: u32)
        ensures
            r == self.spec_max(),
    {
        self.max
    }

    /// Dispatches to record in the next submit, never more than `remaining`.
    pub fn chunk(&self, remaining: u32) -> (n: u32)
        requires
            self.spec_max() >= 1,
        ensures
            n == self.chunk_for(remaining),
            1 <= self.spec_chunk() <= self.spec_max() && self.spec_chunk() <= remaining
                ==> n == self.spec_chunk(),
            1 <= self.spec_chunk() <= self.spec_max() && self.spec_chunk() > remaining
                ==> n == remaining,
            self.spec_chunk() > self.spec_max() && self.spec_max() <= remaining
                ==> n == self.spec_max(),
            self.spec_chunk() > self.spec_max() && self.spec_max() > remaining
                ==> n == remaining,
            self.spec_chunk() < 1 && remaining >= 1 ==> n == 1,
            n <= remaining,
            n <= self.spec_max(),
            remaining >= 1 ==> n >= 1,
    {
        proof {
            use_type_invariant(self);
        }
        let clamped = clamp_u32(self.chunk, 1, self.max);
        if clamped <= remaining {
            clamped
        } else {
            remaining
        }
    }

    /// Feeds back a measurement: `estimate` is the number of dispatches that, by
    /// the last submit's timing, fit into one submit. The next chunk is that
    /// estimate brought into `[1, max]`.
    pub fn record_estimate(&mut self, estimate: u32)
        requires
            old(self).spec_max() >= 1,
        ensures
            final(self).spec_max() == old(self).spec_max(),
            final(self).spec_chunk() == clamp_int(estimate as int, 1, old(self).spec_max() as int),
            estimate < 1 ==> final(self).spec_chunk() == 1,
            estimate > old(self).spec_max() ==> final(self).spec_chunk() == old(self).spec_max(),
            1 <= estimate <= old(self).spec_max() ==> final(self).spec_chunk() == estimate,
            1 <= final(self).spec_chunk() <= final(self).spec_max(),
    {
        self.chunk = clamp_u32(estimate, 1, self.max);
    }
}

/// When the current chunk lies within `[1, max]` it is handed out as it is, as
/// long as that many dispatches remain; otherwise everything that remains is.
pub proof fn lemma_chunk_is_current_or_remaining(p: SubmitPacer, remaining: u32)
    requires
        1 <= p.spec_chunk() <= p.spec_max(),
    ensures
        p.spec_chunk() <= remaining ==> p.chunk_for(remaining) == p.spec_chunk(),
        p.spec_chunk() > remaining ==> p.chunk_for(remaining) == remaining,
{
}

/// How two calls with different numbers of remaining dispatches relate: with
/// more remaining, the chunk never shrinks, and once the current chunk fits it
/// no longer grows.
pub proof fn lemma_chunk_monotone_in_remaining(p: SubmitPacer, r1: u32, r2: u32)
    requires
        1 <= p.spec_chunk() <= p.spec_max(),
        r1 <= r2,
    ensures
        p.chunk_for(r1) <= p.chunk_for(r2),
        p.spec_chunk() <= r1 ==> p.chunk_for(r1) == p.chunk_for(r2),
        p.chunk_for(r2) - p.chunk_for(r1) <= r2 - r1,
{
}

/// A pacer fresh from [`SubmitPacer::new`] hands out one dispatch per submit
/// (none when nothing is left), whatever its limit.
pub proof fn lemma_fresh_pacer_hands_out_one(p: SubmitPacer, remaining: u32)
    requires
        p.spec_chunk() == 1,
        p.spec_max() >= 1,
    ensures
        remaining >= 1 ==> p.chunk_for(remaining) == 1,
        remaining == 0 ==> p.chunk_for(remaining) == 0,
        p.chunk_for(remaining) == min_int(1, remaining as int),
{
}

/// A pacer limited to at most [`MAX_SAMPLES_PER_SUBMIT`] never hands out more
/// dispatches than that bound, whatever it was fed.
pub proof fn lemma_chunk_within_cap(p: SubmitPacer, remaining: u32)
    requires
        1 <= p.spec_max() <= MAX_SAMPLES_PER_SUBMIT,
    ensures
        1 <= remaining ==> 1 <= p.chunk_for(remaining),
        p.chunk_for(remaining) <= MAX_SAMPLES_PER_SUBMIT,
        p.chunk_for(remaining) <= remaining,
{
}

/// After an estimate within the limit is recorded, the next chunk is that
/// estimate when that many dispatches remain, and everything that remains
/// otherwise.
pub proof fn lemma_estimate_is_followed(before: SubmitPacer, after: SubmitPacer, estimate: u32, remaining: u32)
    requires
        before.spec_max() >= 1,
        after.spec_max() == before.spec_max(),
        after.spec_chunk() == clamp_int(estimate as int, 1, before.spec_max() as int),
        1 <= estimate <= before.spec_max(),
    ensures
        after.spec_chunk() == estimate,
        estimate <= remaining ==> after.chunk_for(remaining) == estimate,
        estimate > remaining ==> after.chunk_for(remaining) == remaining,
        after.chunk_for(remaining) == min_int(estimate as int, remaining as int),
{
}

/// An estimate beyond the limit is held at the limit; an estimate of zero is
/// raised to one dispatch.
pub proof fn lemma_estimate_is_bounded(before: SubmitPacer, after: SubmitPacer, estimate: u32, remaining: u32)
    requires
        before.spec_max() >= 1,
        after.spec_max() == before.spec_max(),
        after.spec_chunk() == clamp_int(estimate as int, 1, before.spec_max() as int),
    ensures
        estimate > before.spec_max() && before.spec_max() <= remaining
            ==> after.chunk_for(remaining) == before.spec_max(),
        estimate > before.spec_max() && before.spec_max() > remaining
            ==> after.chunk_for(remaining) == remaining,
        estimate == 0 && remaining >= 1 ==> after.chunk_for(remaining) == 1,
        estimate == 0 && remaining == 0 ==> after.chunk_for(remaining) == 0,
        estimate > before.spec_max() ==> after.chunk_for(remaining) == min_int(before.spec_max() as int, remaining as int),
        estimate == 0 ==> after.chunk_for(remaining) == min_int(1, remaining as int),
{
}

/// The chunk handed out is the smaller of the remaining dispatches and the
/// current chunk brought into `[1, max]`.
pub proof fn lemma_chunk_for_is_min_of_clamp(p: SubmitPacer, remaining: u32)
    requires
        p.spec_max() >= 1,
    ensures
        p.chunk_for(remaining) == min_int(clamp_int(p.spec_chunk() as int, 1, p.spec_max() as int), remaining as int),
{
}

} // verus!
