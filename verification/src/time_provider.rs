//! Millisecond time sources: a direct system-clock reader, a
//! monotonic-clock reader relative to process start, and a cached clock
//! whose value a background refresher keeps fresh so the generation hot
//! path never touches the system clock.

use vstd::prelude::*;

use core::sync::atomic::AtomicU64;
use core::sync::atomic::Ordering;
use std::time::Instant;
use std::time::SystemTime;

verus! {

/// Relies on `std::time::SystemTime::now`: the wall clock as milliseconds
/// since the Unix epoch, zero for a reading before that epoch. Nothing is
/// promised of the value: the wall clock may move arbitrarily between
/// calls.
#[verifier::external_body]
pub(crate) fn system_millis() -> u64 {
    SystemTime::now().duration_since(SystemTime::UNIX_EPOCH).map(|d| d.as_millis() as u64)
        .unwrap_or(0)
}

#[verifier::external_type_specification]
#[verifier::external_body]
pub struct ExInstant(Instant);

/// Relies on `std::time::Instant::now`: an opaque reading of the monotonic
/// clock.
#[verifier::external_body]
fn instant_now() -> Instant {
    Instant::now()
}

/// Relies on `std::time::Instant::elapsed`: the milliseconds since the
/// given reading was taken. Nothing is promised of the value.
#[verifier::external_body]
fn elapsed_millis(since: &Instant) -> u64 {
    since.elapsed().as_millis() as u64
}

/// A source of millisecond timestamps. Nothing relates successive
/// readings: a source may be stale, and a wall clock may move backwards.
pub trait TimeProvider {
    fn current_millis(&self) -> u64;
}

/// Reads the system clock on every call.
pub struct SystemTimeProvider;

impl TimeProvider for SystemTimeProvider {
    fn current_millis(&self) -> u64 {
        system_millis()
    }
}

/// Derives the current time from one wall-clock reading taken at
/// construction plus the monotonic clock's elapsed time since, so later
/// wall-clock adjustments do not show through.
pub struct RelativeTimeProvider {
    start_instant: Instant,
    start_millis: u64,
}

impl RelativeTimeProvider {
    /// Captures the monotonic-clock reading and the wall-clock time that
    /// all later readings are relative to.
    pub fn new() -> Self {
        RelativeTimeProvider { start_instant: instant_now(), start_millis: system_millis() }
    }
}

impl TimeProvider for RelativeTimeProvider {
    fn current_millis(&self) -> u64 {
        let elapsed = elapsed_millis(&self.start_instant);
        if elapsed <= u64::MAX - self.start_millis {
            self.start_millis + elapsed
        } else {
            u64::MAX
        }
    }
}

/// A millisecond timestamp held in an atomic cell, read without blocking
/// and without a system call. The owner is expected to run one background
/// refresher that calls `force_update` every `update_interval` milliseconds
/// while `is_running` holds; the cached value is stale by at most that
/// interval. Without a refresher the value only advances when someone calls
/// `force_update`.
pub struct CachedTimeProvider {
    cached_millis: AtomicU64,
    running: AtomicU64,
    update_interval_ms: u64,
}

impl CachedTimeProvider {
    /// The refresh interval this provider was configured with.
    pub closed spec fn spec_update_interval(&self) -> u64 {
        self.update_interval_ms
    }

    /// Seeds the cache with one synchronous clock reading and marks the
    /// refresher as running. Starting the refresher itself is the owner's
    /// business, and so is stopping it: shutdown is cooperative, through
    /// `stop`.
    pub fn new(update_interval_ms: u64) -> (r: Self)
        ensures
            r.spec_update_interval() == update_interval_ms,
    {
        CachedTimeProvider {
            cached_millis: AtomicU64::new(system_millis()),
            running: AtomicU64::new(1),
            update_interval_ms,
        }
    }

    /// Re-reads the system clock into the cache.
    pub fn force_update(&self) {
        let now = system_millis();
        self.cached_millis.store(now, Ordering::Relaxed);
    }

    /// Asks the background refresher to exit at its next wake; readings
    /// stay valid, they merely stop getting fresher.
    pub fn stop(&self) {
        self.running.store(0, Ordering::Relaxed);
    }

    /// Whether a background refresher should keep running.
    pub fn is_running(&self) -> bool {
        self.running.load(Ordering::Relaxed) == 1
    }

    /// The refresh interval this provider was configured with.
    pub fn update_interval(&self) -> (r: u64)
        ensures
            r == self.spec_update_interval(),
    {
        self.update_interval_ms
    }
}

impl TimeProvider for CachedTimeProvider {
    fn current_millis(&self) -> u64 {
        self.cached_millis.load(Ordering::Relaxed)
    }
}

} // verus!
