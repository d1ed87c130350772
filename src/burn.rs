use vstd::prelude::*;

use crate::error::CoreError;

verus! {

/// Length of one compute-then-sleep cycle: 10 ms.
pub const CYCLE_NANOS: u64 = 10_000_000;

/// Intensity is given in parts per million: this is 1.0, continuous compute.
pub const FULL_INTENSITY: u32 = 1_000_000;

/// The SHA-256 digest of `data`.
pub uninterp spec fn sha256_of(data: Seq<u8>) -> Seq<u8>;

/// Relies on sha2::Sha256::digest (through digest::Digest): the SHA-256 hash
/// of the input, which is always 32 bytes.
#[verifier::external_body]
fn sha256(data: &[u8]) -> (r: Vec<u8>)
    ensures
        r@ == sha256_of(data@),
        r@.len() == 32,
{
    <sha2::Sha256 as sha2::Digest>::digest(data).to_vec()
}

/// The little-endian bytes of the low `n` bytes of `x`.
pub open spec fn le_bytes(x: nat, n: nat) -> Seq<u8>
    decreases n,
{
    if n == 0 {
        Seq::empty()
    } else {
        seq![(x % 256) as u8] + le_bytes(x / 256, (n - 1) as nat)
    }
}

/// The eight little-endian bytes of `x`.
pub fn to_le_bytes(x: u64) -> (r: Vec<u8>)
    ensures
        r@ == le_bytes(x as nat, 8),
{
    let mut out: Vec<u8> = Vec::with_capacity(8);
    let mut v: u64 = x;
    let mut i: usize = 0;
    while i < 8
        invariant
            i <= 8,
            out@ + le_bytes(v as nat, (8 - i) as nat) == le_bytes(x as nat, 8),
        decreases 8 - i,
    {
        let ghost prev = out@;
        let ghost rest = le_bytes(v as nat, (8 - i) as nat);
        assert(rest == seq![(v % 256) as u8] + le_bytes((v / 256) as nat, (8 - i - 1) as nat));
        out.push((v % 256) as u8);
        v = v / 256;
        i = i + 1;
        assert(out@ + le_bytes(v as nat, (8 - i) as nat) =~= prev + rest);
    }
    assert(out@ =~= le_bytes(x as nat, 8));
    out
}

/// One unit of burnt work: the SHA-256 digest of the counter's eight
/// little-endian bytes.
pub fn work_unit(counter: u64) -> (r: Vec<u8>)
    ensures
        r@ == sha256_of(le_bytes(counter as nat, 8)),
        r@.len() == 32,
{
    let bytes = to_le_bytes(counter);
    sha256(bytes.as_slice())
}

/// How long to burn, and how hard.
#[derive(Debug, Clone, Copy, PartialEq, Eq, Structural)]
pub struct BurnConfig {
    pub duration_nanos: u64,
    pub intensity_ppm: u32,
}

pub open spec fn work_share(intensity_ppm: int) -> int {
    CYCLE_NANOS * intensity_ppm / (FULL_INTENSITY as int)
}

impl BurnConfig {
    /// A configuration for `duration_nanos` at `intensity_ppm` millionths of
    /// full intensity; an intensity above one is a configuration error.
    pub fn new(duration_nanos: u64, intensity_ppm: u32) -> (r: Result<BurnConfig, CoreError>)
        ensures
            r is Err <==> intensity_ppm > FULL_INTENSITY,
            r is Err ==> r == Err::<BurnConfig, CoreError>(CoreError::Configuration),
            r matches Ok(c) ==> c == (BurnConfig { duration_nanos, intensity_ppm }),
    {
        if intensity_ppm > FULL_INTENSITY {
            Err(CoreError::Configuration)
        } else {
            Ok(BurnConfig { duration_nanos, intensity_ppm })
        }
    }

    /// Compute time per cycle: the cycle length scaled by the intensity.
    pub fn work_nanos(&self) -> (r: u64)
        requires
            self.intensity_ppm <= FULL_INTENSITY,
        ensures
            r == work_share(self.intensity_ppm as int),
            r <= CYCLE_NANOS,
    {
        proof {
            let p = self.intensity_ppm as int;
            assert(CYCLE_NANOS * p <= CYCLE_NANOS * FULL_INTENSITY) by (nonlinear_arith)
                requires p <= FULL_INTENSITY as int, p >= 0;
            assert(CYCLE_NANOS * p / (FULL_INTENSITY as int) <= CYCLE_NANOS) by (nonlinear_arith)
                requires CYCLE_NANOS * p <= CYCLE_NANOS * FULL_INTENSITY, p >= 0;
        }
        CYCLE_NANOS * (self.intensity_ppm as u64) / (FULL_INTENSITY as u64)
    }

    /// Sleep time per cycle: what the compute time leaves of the cycle.
    pub fn sleep_nanos(&self) -> (r: u64)
        requires
            self.intensity_ppm <= FULL_INTENSITY,
        ensures
            r == CYCLE_NANOS - work_share(self.intensity_ppm as int),
    {
        CYCLE_NANOS - self.work_nanos()
    }
}

/// Where the burner stands within its current cycle.
#[derive(Debug, Clone, Copy, PartialEq, Eq, Structural)]
pub enum BurnPhase {
    /// Before a cycle: the deadline is checked next.
    Between,
    /// Computing in a cycle whose compute part began at this instant.
    Working(u64),
}

/// What the driver of a burner does next.
#[derive(Debug, Clone, Copy, PartialEq, Eq, Structural)]
pub enum BurnStep {
    /// One unit of work was done; ask again.
    Worked,
    /// Block the thread for this many nanoseconds, then ask again.
    Sleep(u64),
    /// The deadline has passed; this is the final counter.
    Done(u64),
}

pub ghost struct BurnState {
    pub work: u64,
    pub sleep: u64,
    pub end: u64,
    pub counter: u64,
    pub phase: BurnPhase,
}

pub open spec fn bump(c: u64) -> u64 {
    if c == u64::MAX {
        c
    } else {
        (c + 1) as u64
    }
}

pub open spec fn elapsed_since(now: u64, start: u64) -> int {
    if now >= start {
        now - start
    } else {
        0
    }
}

/// A new cycle at `now`: finish when the deadline has passed, else work at
/// once, or sleep the whole cycle when there is no compute share.
pub open spec fn begin_cycle(s: BurnState, now: u64) -> (BurnState, BurnStep) {
    if now >= s.end {
        (BurnState { phase: BurnPhase::Between, ..s }, BurnStep::Done(s.counter))
    } else if s.work > 0 {
        (BurnState { phase: BurnPhase::Working(now), counter: bump(s.counter), ..s }, BurnStep::Worked)
    } else {
        (BurnState { phase: BurnPhase::Between, ..s }, BurnStep::Sleep(s.sleep))
    }
}

/// The transition of the burner at `now`.
pub open spec fn burn_step(s: BurnState, now: u64) -> (BurnState, BurnStep) {
    match s.phase {
        BurnPhase::Between => begin_cycle(s, now),
        BurnPhase::Working(start) => {
            if elapsed_since(now, start) < s.work {
                (BurnState { counter: bump(s.counter), ..s }, BurnStep::Worked)
            } else if s.sleep > 0 {
                (BurnState { phase: BurnPhase::Between, ..s }, BurnStep::Sleep(s.sleep))
            } else {
                begin_cycle(s, now)
            }
        },
    }
}

pub open spec fn burn_wf(s: BurnState) -> bool {
    &&& s.work + s.sleep == CYCLE_NANOS
    &&& (s.work == 0 ==> s.counter == 0)
}

/// Burns CPU until a deadline, alternating compute and sleep within fixed
/// cycles. The caller drives it with the clock and performs the sleeps.
pub struct Burner {
    work: u64,
    sleep: u64,
    end: u64,
    counter: u64,
    phase: BurnPhase,
}

impl View for Burner {
    type V = BurnState;

    closed spec fn view(&self) -> BurnState {
        BurnState {
            work: self.work,
            sleep: self.sleep,
            end: self.end,
            counter: self.counter,
            phase: self.phase,
        }
    }
}

impl Burner {
    pub open spec fn wf(&self) -> bool {
        burn_wf(self@)
    }

    /// A burner for `config` whose deadline is `now` plus the duration.
    pub fn start(config: BurnConfig, now: u64) -> (r: Burner)
        requires
            config.intensity_ppm <= FULL_INTENSITY,
            now + config.duration_nanos <= u64::MAX,
        ensures
            r.wf(),
            r@ == (BurnState {
                work: work_share(config.intensity_ppm as int) as u64,
                sleep: (CYCLE_NANOS - work_share(config.intensity_ppm as int)) as u64,
                end: (now + config.duration_nanos) as u64,
                counter: 0,
                phase: BurnPhase::Between,
            }),
    {
        Burner {
            work: config.work_nanos(),
            sleep: config.sleep_nanos(),
            end: now + config.duration_nanos,
            counter: 0,
            phase: BurnPhase::Between,
        }
    }

    fn begin_cycle(&mut self, now: u64) -> (r: BurnStep)
        requires
            old(self).wf(),
        ensures
            final(self).wf(),
            (final(self)@, r) == begin_cycle(old(self)@, now),
    {
        if now >= self.end {
            self.phase = BurnPhase::Between;
            BurnStep::Done(self.counter)
        } else if self.work > 0 {
            self.phase = BurnPhase::Working(now);
            self.work_once();
            BurnStep::Worked
        } else {
            self.phase = BurnPhase::Between;
            BurnStep::Sleep(self.sleep)
        }
    }

    fn work_once(&mut self)
        requires
            old(self).wf(),
            old(self).work > 0,
        ensures
            final(self)@ == (BurnState { counter: bump(old(self)@.counter), ..old(self)@ }),
    {
        let _digest = work_unit(self.counter);
        self.counter = self.counter.saturating_add(1);
    }

    /// Advances the burner at `now`. The counter never decreases, only work
    /// moves it, the result is `Done` exactly when a new cycle would start at
    /// or after the deadline, and no sleep is longer than one cycle.
    pub fn step(&mut self, now: u64) -> (r: BurnStep)
        requires
            old(self).wf(),
        ensures
            final(self).wf(),
            (final(self)@, r) == burn_step(old(self)@, now),
            final(self)@.counter >= old(self)@.counter,
            r is Worked ==> final(self)@.counter == bump(old(self)@.counter),
            !(r is Worked) ==> final(self)@.counter == old(self)@.counter,
            r matches BurnStep::Done(c) ==> now >= old(self)@.end && c == old(self)@.counter,
            r matches BurnStep::Sleep(d) ==> 0 < d <= CYCLE_NANOS,
    {
        match self.phase {
            BurnPhase::Between => self.begin_cycle(now),
            BurnPhase::Working(start) => {
                let elapsed: u64 = now.saturating_sub(start);
                if elapsed < self.work {
                    self.work_once();
                    BurnStep::Worked
                } else if self.sleep > 0 {
                    self.phase = BurnPhase::Between;
                    BurnStep::Sleep(self.sleep)
                } else {
                    self.begin_cycle(now)
                }
            },
        }
    }

    /// Units of work done so far.
    pub fn counter(&self) -> (r: u64)
        ensures
            r == self@.counter,
    {
        self.counter
    }
}

/// At zero intensity the burner only sleeps: no step does work, and the
/// counter stays at zero.
pub proof fn lemma_idle_burn_does_no_work(s: BurnState, now: u64)
    requires
        burn_wf(s),
        s.work == 0,
    ensures
        !(burn_step(s, now).1 is Worked),
        burn_step(s, now).0.counter == 0,
        burn_wf(burn_step(s, now).0),
        burn_step(s, now).1 matches BurnStep::Done(c) ==> c == 0,
{
}

/// Successive steps never lower the counter, so each run's counter only
/// grows, and a run ends only once its deadline has passed.
pub proof fn lemma_counter_monotone(s: BurnState, now: u64)
    requires
        burn_wf(s),
    ensures
        burn_step(s, now).0.counter >= s.counter,
        burn_step(s, now).0.end == s.end,
        burn_step(s, now).1 matches BurnStep::Done(c) ==> now >= s.end && c == s.counter,
{
}

} // verus!
