use vstd::prelude::*;

use crate::error::CoreError;
use crate::throttle::{
    grant_result, grant_state, record_state, AdmitResult, RateLimiter, RateWindow, window_quota,
    DEFAULT_WINDOW_NANOS,
};

verus! {

/// The byte that the synthetic source repeats.
pub const FILL_BYTE: u8 = 1;

pub open spec fn fill(n: int) -> Seq<u8> {
    Seq::new(n as nat, |i: int| FILL_BYTE)
}

pub open spec fn min_int(a: int, b: int) -> int {
    if a < b {
        a
    } else {
        b
    }
}

/// A finite source that yields `FILL_BYTE` a fixed number of times, then
/// reports the end of the stream with empty reads.
pub struct CountedSource {
    remaining: u64,
}

impl CountedSource {
    pub closed spec fn left(&self) -> u64 {
        self.remaining
    }

    pub fn new(byte_count: u64) -> (r: CountedSource)
        ensures
            r.left() == byte_count,
    {
        CountedSource { remaining: byte_count }
    }

    pub fn remaining(&self) -> (r: u64)
        ensures
            r == self.left(),
    {
        self.remaining
    }

    /// Reads at most `max` bytes: as many as are left, up to `max`.
    pub fn read_into(&mut self, max: usize) -> (r: Vec<u8>)
        ensures
            r@ == fill(min_int(max as int, old(self).left() as int)),
            final(self).left() == old(self).left() - r@.len(),
    {
        let n: usize = if (max as u64) < self.remaining {
            max
        } else {
            self.remaining as usize
        };
        let mut out: Vec<u8> = Vec::with_capacity(n);
        let mut i: usize = 0;
        while i < n
            invariant
                i <= n,
                out@ == fill(i as int),
            decreases n - i,
        {
            out.push(FILL_BYTE);
            i = i + 1;
            assert(out@ =~= fill(i as int));
        }
        self.remaining = self.remaining - n as u64;
        out
    }
}

/// The outcome of one read attempt on a throttled stream.
pub enum ReadStep {
    /// These bytes were read; none at all means end of stream, or an empty
    /// destination buffer.
    Ready(Vec<u8>),
    /// The window's quota is spent: suspend until this instant, then ask again.
    Pending(u64),
}

/// What a read of `capacity` bytes at `now` yields, given the limiter's
/// window and the bytes left in the source.
pub open spec fn read_outcome(w: RateWindow, left: u64, capacity: usize, now: u64) -> Option<Seq<u8>> {
    match grant_result(w, capacity as u64, now) {
        AdmitResult::WaitUntil(_) => None,
        AdmitResult::Allow(n) => Some(fill(min_int(n as int, left as int))),
    }
}

/// A counted source read under a rate limiter: each read is narrowed to what
/// the current window still allows, and what was read is charged to it.
pub struct ThrottledReader {
    inner: CountedSource,
    limiter: RateLimiter,
    initial: Ghost<nat>,
}

impl ThrottledReader {
    pub closed spec fn wf(&self) -> bool {
        &&& self.limiter.wf()
        &&& self.initial@ == self.inner.left() + self.limiter@.total_released
    }

    /// The length of the source when it was wrapped.
    pub closed spec fn initial_len(&self) -> nat {
        self.initial@
    }

    pub closed spec fn window(&self) -> RateWindow {
        self.limiter@
    }

    pub closed spec fn left(&self) -> u64 {
        self.inner.left()
    }

    /// Wraps `inner` at `bytes_per_sec`, over the default window, with the
    /// first window starting at `now`.
    pub fn new(inner: CountedSource, bytes_per_sec: u64, now: u64) -> (r: Result<ThrottledReader, CoreError>)
        requires
            now + DEFAULT_WINDOW_NANOS <= u64::MAX,
        ensures
            r is Err <==> window_quota(bytes_per_sec as int, DEFAULT_WINDOW_NANOS as int) == 0,
            r is Err ==> r == Err::<ThrottledReader, CoreError>(CoreError::Configuration),
            r matches Ok(t) ==> t.wf() && t.left() == inner.left() && t.window().bytes_per_sec
                == bytes_per_sec && t.window().window_len == DEFAULT_WINDOW_NANOS
                && t.window().window_start == now && t.window().released == 0
                && t.window().total_released == 0 && t.window().origin == now
                && t.initial_len() == inner.left(),
    {
        match RateLimiter::new(bytes_per_sec, DEFAULT_WINDOW_NANOS, now) {
            Ok(limiter) => Ok(ThrottledReader { inner, limiter, initial: Ghost(inner.left() as nat) }),
            Err(e) => Err(e),
        }
    }

    /// One read attempt into a buffer with room for `capacity` bytes at `now`:
    /// either a wait until the window ends, or exactly one read of the source
    /// narrowed to the grant, whose length is then charged to the window.
    pub fn poll_read(&mut self, capacity: usize, now: u64) -> (r: ReadStep)
        requires
            old(self).wf(),
            now + old(self).window().window_len <= u64::MAX,
        ensures
            final(self).wf(),
            final(self).initial_len() == old(self).initial_len(),
            match r {
                ReadStep::Pending(d) => {
                    &&& grant_result(old(self).window(), capacity as u64, now)
                        == AdmitResult::WaitUntil(d)
                    &&& read_outcome(old(self).window(), old(self).left(), capacity, now) is None
                    &&& final(self).window() == grant_state(old(self).window(), capacity as u64, now)
                    &&& final(self).left() == old(self).left()
                },
                ReadStep::Ready(bytes) => {
                    &&& read_outcome(old(self).window(), old(self).left(), capacity, now)
                        == Some(bytes@)
                    &&& final(self).window() == record_state(
                        grant_state(old(self).window(), capacity as u64, now),
                        bytes@.len() as u64,
                    )
                    &&& final(self).left() == old(self).left() - bytes@.len()
                },
            },
    {
        match self.limiter.grant(capacity as u64, now) {
            AdmitResult::WaitUntil(deadline) => ReadStep::Pending(deadline),
            AdmitResult::Allow(n) => {
                proof {
                    crate::throttle::lemma_window_within_quota(&self.limiter);
                }
                let max: usize = if n < capacity as u64 {
                    n as usize
                } else {
                    capacity
                };
                let bytes = self.inner.read_into(max);
                self.limiter.record(bytes.len() as u64);
                ReadStep::Ready(bytes)
            },
        }
    }

    /// Bytes still to come from the source.
    pub fn remaining(&self) -> (r: u64)
        ensures
            r == self.left(),
    {
        self.inner.remaining()
    }

    pub fn limiter(&self) -> (r: &RateLimiter)
        ensures
            r@ == self.window(),
    {
        &self.limiter
    }
}

/// The rate bound on a throttled stream: the bytes it has delivered by any
/// instant `now` no earlier than the current window's start, times one second,
/// are at most its rate times the time since it was created plus one window.
/// So `N` bytes at `R` bytes per second take at least `N / R` seconds, less
/// one window.
pub proof fn lemma_stream_rate_bound(t: &ThrottledReader, now: u64)
    requires
        t.wf(),
        now >= t.window().window_start,
    ensures
        (t.initial_len() - t.left()) * (crate::throttle::NANOS_PER_SEC as int) <= (
        t.window().bytes_per_sec as int) * (now - t.window().origin + t.window().window_len),
{
    crate::throttle::lemma_rate_bound(&t.limiter, now);
}

} // verus!
