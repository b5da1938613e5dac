//! Audio capture plumbing: the capture-source choice and the ring of recent
//! samples that the analysis reads.
//!
//! The spectrum analysis itself works on floating-point samples and lives
//! with the capture code outside this library; the ring is generic over the
//! sample type.

use vstd::prelude::*;

verus! {

/// Where to pull audio from.
#[derive(Copy, Clone, Debug, PartialEq, Eq, Structural)]
pub enum AudioSource {
    /// Windows: loopback of the default output; elsewhere the default input.
    Auto,
    /// Default input device (microphone / line-in).
    Input,
    /// Loopback of the default output device (what you hear).
    Loopback,
}

/// Whether capture should first try loopback of the default output device
/// (before falling back to the default input device).
pub fn wants_loopback(source: AudioSource, on_windows: bool) -> (r: bool)
    ensures
        r == match source {
            AudioSource::Loopback => true,
            AudioSource::Input => false,
            AudioSource::Auto => on_windows,
        },
{
    match source {
        AudioSource::Loopback => true,
        AudioSource::Input => false,
        AudioSource::Auto => on_windows,
    }
}

/// A fixed-size ring of the most recent samples.
pub struct Ring<T> {
    buf: Vec<T>,
    pos: usize,
}

proof fn lemma_rot_index(pos: int, i: int, n: int)
    requires
        0 <= pos < n,
        0 <= i,
    ensures
        (pos + i) % n == (if pos + i % n < n {
            pos + i % n
        } else {
            pos + i % n - n
        }),
        0 <= i % n < n,
{
    vstd::arithmetic::div_mod::lemma_mod_bound(i, n);
    vstd::arithmetic::div_mod::lemma_add_mod_noop_right(pos, i, n);
    let k = i % n;
    if pos + k < n {
        vstd::arithmetic::div_mod::lemma_small_mod((pos + k) as nat, n as nat);
    } else {
        vstd::arithmetic::div_mod::lemma_small_mod((pos + k - n) as nat, n as nat);
        vstd::arithmetic::div_mod::lemma_mod_add_multiples_vanish(pos + k - n, n);
    }
}

impl<T: Copy> Ring<T> {
    /// The samples, oldest first.
    pub closed spec fn view(&self) -> Seq<T> {
        self.buf@.subrange(self.pos as int, self.buf@.len() as int) + self.buf@.subrange(
            0,
            self.pos as int,
        )
    }

    /// The ring can take samples: it has room for at least one.
    pub closed spec fn well_formed(&self) -> bool {
        self.buf@.len() > 0 && self.pos < self.buf@.len()
    }

    /// A ring of `n` slots, all holding `fill`.
    pub fn new(n: usize, fill: T) -> (r: Self)
        ensures
            r.view() == Seq::new(n as nat, |i: int| fill),
            r.well_formed() <==> n > 0,
    {
        let mut buf: Vec<T> = Vec::new();
        let mut i: usize = 0;
        while i < n
            invariant
                i <= n,
                buf@ == Seq::new(i as nat, |k: int| fill),
            decreases n - i,
        {
            buf.push(fill);
            i = i + 1;
            assert(buf@ =~= Seq::new(i as nat, |k: int| fill));
        }
        let r = Ring { buf, pos: 0 };
        assert(r.view() =~= Seq::new(n as nat, |k: int| fill));
        r
    }

    /// Record a new sample, dropping the oldest.
    pub fn push(&mut self, s: T)
        requires
            old(self).well_formed(),
        ensures
            final(self).well_formed(),
            final(self).view() == old(self).view().drop_first().push(s),
    {
        let n = self.buf.len();
        let ghost old_view = self.view();
        self.buf.set(self.pos, s);
        proof {
            if self.pos + 1 < n {
                vstd::arithmetic::div_mod::lemma_small_mod((self.pos + 1) as nat, n as nat);
            } else {
                vstd::arithmetic::div_mod::lemma_mod_self_0(n as int);
            }
        }
        self.pos = (self.pos + 1) % n;
        assert(self.view() =~= old_view.drop_first().push(s));
    }

    /// Copy oldest→newest into `out`, wrapping around when `out` is longer
    /// than the ring.
    pub fn snapshot(&self, out: &mut Vec<T>)
        requires
            self.well_formed() || old(out)@.len() == 0,
            old(out)@.len() + self.view().len() <= usize::MAX,
        ensures
            final(out)@.len() == old(out)@.len(),
            forall|i: int|
                0 <= i < final(out)@.len() ==> #[trigger] final(out)@[i] == self.view()[i
                    % self.view().len() as int],
    {
        let n = self.buf.len();
        let len = out.len();
        let mut i: usize = 0;
        while i < len
            invariant
                n == self.buf@.len(),
                len == out@.len(),
                len == old(out)@.len(),
                i <= len,
                len > 0 ==> self.well_formed(),
                len + n <= usize::MAX,
                forall|k: int|
                    0 <= k < i ==> #[trigger] out@[k] == self.view()[k % self.view().len() as int],
            decreases len - i,
        {
            proof {
                lemma_rot_index(self.pos as int, i as int, n as int);
            }
            let v = self.buf[(self.pos + i) % n];
            out.set(i, v);
            i = i + 1;
        }
    }
}

/// The ring always holds the most recent samples: after pushing a run of
/// samples at least as long as the ring, it holds exactly the last ones.
pub open spec fn pushed_all<T>(start: Seq<T>, samples: Seq<T>) -> Seq<T>
    decreases samples.len(),
{
    if samples.len() == 0 {
        start
    } else {
        pushed_all(start, samples.drop_last()).drop_first().push(samples.last())
    }
}

/// Pushing keeps the length, and a run at least as long as the ring leaves
/// exactly its last `n` samples, oldest first.
pub proof fn lemma_ring_keeps_latest<T>(start: Seq<T>, samples: Seq<T>)
    requires
        start.len() > 0,
    ensures
        pushed_all(start, samples).len() == start.len(),
        samples.len() >= start.len() ==> pushed_all(start, samples) == samples.subrange(
            samples.len() - start.len(),
            samples.len() as int,
        ),
        samples.len() < start.len() ==> pushed_all(start, samples) == start.subrange(
            samples.len() as int,
            start.len() as int,
        ) + samples,
    decreases samples.len(),
{
    if samples.len() > 0 {
        let prev = samples.drop_last();
        lemma_ring_keeps_latest(start, prev);
        let n = start.len();
        if samples.len() >= n {
            if prev.len() >= n {
                assert(pushed_all(start, samples) =~= samples.subrange(
                    samples.len() - n,
                    samples.len() as int,
                ));
            } else {
                assert(pushed_all(start, samples) =~= samples.subrange(
                    samples.len() - n,
                    samples.len() as int,
                ));
            }
        } else {
            assert(pushed_all(start, samples) =~= start.subrange(
                samples.len() as int,
                n as int,
            ) + samples);
        }
    }
}

} // verus!
