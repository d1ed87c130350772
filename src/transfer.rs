use vstd::prelude::*;

use crate::error::CoreError;
use crate::stream::{CountedSource, ThrottledReader};
use crate::throttle::{window_quota, DEFAULT_WINDOW_NANOS};

verus! {

/// Where a transfer's bytes go.
#[derive(Debug, Clone, Copy, PartialEq, Eq, Structural)]
pub enum Destination {
    /// An open connection to a sink that discards what it receives.
    Network,
    /// A temporary file created for the transfer.
    Disk,
}

/// A validated transfer: how many bytes, at what rate, to where.
#[derive(Debug, Clone, Copy)]
pub struct TransferSpec {
    byte_count: u64,
    bits_per_sec: u64,
    destination: Destination,
}

/// Whether a rate in bits per second releases at least one byte per window.
pub open spec fn rate_usable(bits_per_sec: u64) -> bool {
    window_quota((bits_per_sec / 8) as int, DEFAULT_WINDOW_NANOS as int) > 0
}

impl TransferSpec {
    pub closed spec fn count(&self) -> u64 {
        self.byte_count
    }

    pub closed spec fn rate_bits(&self) -> u64 {
        self.bits_per_sec
    }

    pub closed spec fn target(&self) -> Destination {
        self.destination
    }

    pub open spec fn wf(&self) -> bool {
        rate_usable(self.rate_bits())
    }

    /// Validates a transfer. A rate too low to release a byte per window
    /// (zero among them) is a configuration error, raised before any read.
    pub fn new(byte_count: u64, bits_per_sec: u64, destination: Destination) -> (r: Result<
        TransferSpec,
        CoreError,
    >)
        ensures
            r is Err <==> !rate_usable(bits_per_sec),
            r is Err ==> r == Err::<TransferSpec, CoreError>(CoreError::Configuration),
            r matches Ok(t) ==> t.wf() && t.count() == byte_count && t.rate_bits() == bits_per_sec
                && t.target() == destination,
    {
        let quota = crate::throttle::compute_quota(bits_per_sec / 8, DEFAULT_WINDOW_NANOS);
        if quota == 0 {
            Err(CoreError::Configuration)
        } else {
            Ok(TransferSpec { byte_count, bits_per_sec, destination })
        }
    }

    pub fn byte_count(&self) -> (r: u64)
        ensures
            r == self.count(),
    {
        self.byte_count
    }

    pub fn destination(&self) -> (r: Destination)
        ensures
            r == self.target(),
    {
        self.destination
    }

    /// The byte rate the stream is throttled to.
    pub fn bytes_per_sec(&self) -> (r: u64)
        ensures
            r == self.rate_bits() / 8,
    {
        self.bits_per_sec / 8
    }

    /// The transfer's source: `byte_count` synthetic bytes throttled to
    /// `bits_per_sec / 8` bytes per second, its first window starting at `now`.
    pub fn open(&self, now: u64) -> (r: Result<ThrottledReader, CoreError>)
        requires
            now + DEFAULT_WINDOW_NANOS <= u64::MAX,
        ensures
            r is Ok <==> self.wf(),
            r is Err ==> r == Err::<ThrottledReader, CoreError>(CoreError::Configuration),
            r matches Ok(t) ==> {
                &&& t.wf()
                &&& t.left() == self.count()
                &&& t.initial_len() == self.count()
                &&& t.window().bytes_per_sec == self.rate_bits() / 8
                &&& t.window().window_len == DEFAULT_WINDOW_NANOS
                &&& t.window().window_start == now
                &&& t.window().origin == now
                &&& t.window().released == 0
            },
    {
        ThrottledReader::new(CountedSource::new(self.byte_count), self.bits_per_sec / 8, now)
    }
}

} // verus!
