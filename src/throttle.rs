use vstd::prelude::*;

use crate::error::CoreError;

verus! {

pub const NANOS_PER_SEC: u64 = 1_000_000_000;

/// The default accounting window: 100 ms.
pub const DEFAULT_WINDOW_NANOS: u64 = 100_000_000;

/// Bytes that may be released per window at `bytes_per_sec`:
/// `floor(bytes_per_sec * window / 1 s)`, capped at `u64::MAX`.
pub open spec fn window_quota(bytes_per_sec: int, window_nanos: int) -> int {
    let q = bytes_per_sec * window_nanos / (NANOS_PER_SEC as int);
    if q > u64::MAX {
        u64::MAX as int
    } else {
        q
    }
}

/// What the limiter grants for one read attempt.
#[derive(Debug, Clone, Copy, PartialEq, Eq, Structural)]
pub enum AdmitResult {
    /// Up to this many bytes may be read now.
    Allow(u64),
    /// Nothing may be read before this instant (nanoseconds).
    WaitUntil(u64),
}

/// The abstract state of a rate window. Times are in nanoseconds on a
/// monotonic clock; `origin`, `windows_closed` and `total_released` are the
/// history since the limiter was created.
pub ghost struct RateWindow {
    pub bytes_per_sec: u64,
    pub window_len: u64,
    pub quota: u64,
    pub window_start: u64,
    pub released: u64,
    pub pending_wake: Option<u64>,
    pub origin: int,
    pub windows_closed: nat,
    pub total_released: nat,
}

pub open spec fn window_expired(m: RateWindow, now: u64) -> bool {
    now >= m.window_start && now - m.window_start >= m.window_len
}

/// The window after a reset at `now`: a fresh count, no pending wake.
pub open spec fn reset_window(m: RateWindow, now: u64) -> RateWindow {
    RateWindow {
        window_start: now,
        released: 0,
        pending_wake: None,
        windows_closed: m.windows_closed + 1,
        ..m
    }
}

pub open spec fn refreshed(m: RateWindow, now: u64) -> RateWindow {
    if window_expired(m, now) {
        reset_window(m, now)
    } else {
        m
    }
}

pub open spec fn remaining(m: RateWindow) -> int {
    m.quota - m.released
}

pub open spec fn window_end(m: RateWindow) -> int {
    m.window_start + m.window_len
}

/// The grant for `requested` bytes at `now`.
pub open spec fn grant_result(m: RateWindow, requested: u64, now: u64) -> AdmitResult {
    let f = refreshed(m, now);
    if requested == 0 {
        AdmitResult::Allow(0)
    } else if remaining(f) <= 0 {
        AdmitResult::WaitUntil(window_end(f) as u64)
    } else if remaining(f) < requested {
        AdmitResult::Allow(remaining(f) as u64)
    } else {
        AdmitResult::Allow(requested)
    }
}

/// The window after asking for `requested` bytes at `now`.
pub open spec fn grant_state(m: RateWindow, requested: u64, now: u64) -> RateWindow {
    let f = refreshed(m, now);
    if requested == 0 {
        m
    } else if remaining(f) <= 0 {
        RateWindow { pending_wake: Some(window_end(f) as u64), ..f }
    } else {
        f
    }
}

/// The window after `n` granted bytes were actually consumed.
pub open spec fn record_state(m: RateWindow, n: u64) -> RateWindow {
    RateWindow {
        released: (m.released + n) as u64,
        total_released: (m.total_released + n) as nat,
        ..m
    }
}

pub open spec fn window_wf(m: RateWindow) -> bool {
    &&& m.window_len > 0
    &&& m.quota > 0
    &&& m.quota == window_quota(m.bytes_per_sec as int, m.window_len as int)
    &&& m.released <= m.quota
    &&& window_end(m) <= u64::MAX
    &&& (m.pending_wake matches Some(d) ==> d == window_end(m) && m.released == m.quota)
    &&& m.origin + m.windows_closed * m.window_len <= m.window_start
    &&& m.total_released <= m.windows_closed * m.quota + m.released
}

/// Windowed byte accounting for a target rate: at most `quota` bytes per
/// window, with the window restarting once its length has elapsed.
pub struct RateLimiter {
    bytes_per_sec: u64,
    window_len: u64,
    quota: u64,
    window_start: u64,
    released: u64,
    pending_wake: Option<u64>,
    origin: Ghost<int>,
    windows_closed: Ghost<nat>,
    total_released: Ghost<nat>,
}

impl View for RateLimiter {
    type V = RateWindow;

    closed spec fn view(&self) -> RateWindow {
        RateWindow {
            bytes_per_sec: self.bytes_per_sec,
            window_len: self.window_len,
            quota: self.quota,
            window_start: self.window_start,
            released: self.released,
            pending_wake: self.pending_wake,
            origin: self.origin@,
            windows_closed: self.windows_closed@,
            total_released: self.total_released@,
        }
    }
}

/// Computes `window_quota` exactly.
pub fn compute_quota(bytes_per_sec: u64, window_nanos: u64) -> (r: u64)
    ensures
        r == window_quota(bytes_per_sec as int, window_nanos as int),
{
    let a = bytes_per_sec as u128;
    let b = window_nanos as u128;
    proof {
        assert((a as int) * (b as int) <= (u64::MAX as int) * (u64::MAX as int)) by (nonlinear_arith)
            requires
                a <= u64::MAX,
                b <= u64::MAX,
        ;
        assert((u64::MAX as int) * (u64::MAX as int) <= u128::MAX);
    }
    let q = a * b / (NANOS_PER_SEC as u128);
    if q > u64::MAX as u128 {
        u64::MAX
    } else {
        q as u64
    }
}

impl RateLimiter {
    pub closed spec fn wf(&self) -> bool {
        window_wf(self@)
    }

    /// A limiter for `bytes_per_sec` over windows of `window_nanos`, whose
    /// first window starts at `now`. A rate that releases no byte per window
    /// would stall forever, so it is a configuration error.
    pub fn new(bytes_per_sec: u64, window_nanos: u64, now: u64) -> (r: Result<RateLimiter, CoreError>)
        requires
            now + window_nanos <= u64::MAX,
        ensures
            r is Err <==> window_quota(bytes_per_sec as int, window_nanos as int) == 0,
            r is Err ==> r == Err::<RateLimiter, CoreError>(CoreError::Configuration),
            r matches Ok(l) ==> l.wf() && l@ == (RateWindow {
                bytes_per_sec,
                window_len: window_nanos,
                quota: window_quota(bytes_per_sec as int, window_nanos as int) as u64,
                window_start: now,
                released: 0,
                pending_wake: None,
                origin: now as int,
                windows_closed: 0,
                total_released: 0,
            }),
    {
        let quota = compute_quota(bytes_per_sec, window_nanos);
        if quota == 0 {
            return Err(CoreError::Configuration);
        }
        proof {
            if window_nanos == 0 {
                assert(bytes_per_sec as int * 0 == 0);
            }
        }
        Ok(RateLimiter {
            bytes_per_sec,
            window_len: window_nanos,
            quota,
            window_start: now,
            released: 0,
            pending_wake: None,
            origin: Ghost(now as int),
            windows_closed: Ghost(0),
            total_released: Ghost(0),
        })
    }

    /// Asks for up to `requested` bytes at `now`. A request for nothing is
    /// granted without looking at the window; otherwise an elapsed window is
    /// restarted first, and the grant is what is left of its quota, or a wait
    /// until the window ends when nothing is left.
    pub fn grant(&mut self, requested: u64, now: u64) -> (r: AdmitResult)
        requires
            old(self).wf(),
            now + old(self)@.window_len <= u64::MAX,
        ensures
            final(self).wf(),
            r == grant_result(old(self)@, requested, now),
            final(self)@ == grant_state(old(self)@, requested, now),
    {
        if requested == 0 {
            return AdmitResult::Allow(0);
        }
        if now >= self.window_start && now - self.window_start >= self.window_len {
            proof {
                let m = self@;
                assert(m.windows_closed * m.window_len + m.window_len == (m.windows_closed + 1) * m.window_len) by (nonlinear_arith);
                assert(m.windows_closed * m.quota + m.released <= (m.windows_closed + 1) * m.quota) by (nonlinear_arith)
                    requires m.released <= m.quota;
            }
            self.window_start = now;
            self.released = 0;
            self.pending_wake = None;
            self.windows_closed = Ghost(self.windows_closed@ + 1);
        }
        let remaining = self.quota - self.released;
        if remaining == 0 {
            let deadline = self.window_start + self.window_len;
            self.pending_wake = Some(deadline);
            AdmitResult::WaitUntil(deadline)
        } else if remaining < requested {
            AdmitResult::Allow(remaining)
        } else {
            AdmitResult::Allow(requested)
        }
    }

    /// Reports that `n` of the granted bytes were consumed.
    pub fn record(&mut self, n: u64)
        requires
            old(self).wf(),
            n <= remaining(old(self)@),
        ensures
            final(self).wf(),
            final(self)@ == record_state(old(self)@, n),
    {
        self.released = self.released + n;
        self.total_released = Ghost((self.total_released@ + n) as nat);
    }

    pub fn remaining(&self) -> (r: u64)
        requires
            self.wf(),
        ensures
            r == remaining(self@),
    {
        self.quota - self.released
    }

    pub fn quota(&self) -> (r: u64)
        ensures
            r == self@.quota,
    {
        self.quota
    }

    pub fn released(&self) -> (r: u64)
        ensures
            r == self@.released,
    {
        self.released
    }

    pub fn window_start(&self) -> (r: u64)
        ensures
            r == self@.window_start,
    {
        self.window_start
    }

    pub fn window_len(&self) -> (r: u64)
        ensures
            r == self@.window_len,
    {
        self.window_len
    }

    pub fn pending_wake(&self) -> (r: Option<u64>)
        ensures
            r == self@.pending_wake,
    {
        self.pending_wake
    }
}

/// At every observation of a well-formed limiter, the bytes released in the
/// current window do not exceed the window's quota.
pub proof fn lemma_window_within_quota(l: &RateLimiter)
    requires
        l.wf(),
    ensures
        l@.released <= l@.quota,
        remaining(l@) >= 0,
{
}

/// The rate bound: by any instant `now` no earlier than the current window's
/// start, the bytes released since the limiter was created, times one second,
/// are at most the rate times the time elapsed plus one window. So releasing
/// `N` bytes at rate `R` takes at least `N / R` seconds less one window.
pub proof fn lemma_rate_bound(l: &RateLimiter, now: u64)
    requires
        l.wf(),
        now >= l@.window_start,
    ensures
        l@.total_released * (NANOS_PER_SEC as int) <= (l@.bytes_per_sec as int) * (now - l@.origin
            + l@.window_len),
{
    let m = l@;
    let t = m.total_released as int;
    let c = m.windows_closed as int;
    let q = m.quota as int;
    let w = m.window_len as int;
    let r = m.bytes_per_sec as int;
    let e = now - m.origin;
    let s = NANOS_PER_SEC as int;
    assert(t <= q * (c + 1)) by (nonlinear_arith)
        requires t <= c * q + m.released, m.released <= q;
    assert(c * w <= e);
    assert(q * s <= r * w) by (nonlinear_arith)
        requires
            q == window_quota(r, w),
            q >= 0, r >= 0, w > 0, s == 1_000_000_000,
    {
        let p = r * w / s;
        assert(p * s <= r * w) by (nonlinear_arith) requires p == r * w / s, s > 0, r * w >= 0;
    }
    assert(t * w <= q * (e + w)) by (nonlinear_arith)
        requires t <= q * (c + 1), c * w <= e, q >= 0, w > 0, c >= 0;
    assert(t * s * w <= r * (e + w) * w) by (nonlinear_arith)
        requires t * w <= q * (e + w), q * s <= r * w, s > 0, e + w >= 0, q >= 0, t >= 0;
    assert(t * s <= r * (e + w)) by (nonlinear_arith)
        requires t * s * w <= r * (e + w) * w, w > 0;
}

/// A wait is never followed by another: once the clock reaches the deadline
/// of a `WaitUntil`, asking again for a non-zero amount restarts the window
/// and is granted a non-zero amount.
pub proof fn lemma_wait_ends_at_deadline(m: RateWindow, requested: u64, now: u64, later: u64)
    requires
        window_wf(m),
        grant_result(m, requested, now) is WaitUntil,
        later >= grant_result(m, requested, now)->WaitUntil_0,
        requested > 0,
    ensures
        window_expired(grant_state(m, requested, now), later),
        grant_result(grant_state(m, requested, now), requested, later) matches AdmitResult::Allow(n)
            && n > 0 && n <= requested,
{
}

} // verus!
