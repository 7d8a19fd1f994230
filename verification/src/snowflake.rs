//! The identifier generator: a state machine over a sequence counter and a
//! last-used millisecond that, fed clock readings, emits strictly
//! increasing identifiers for one (worker, datacenter) pair, refuses to
//! run on a clock observed moving backwards, and keeps an optional worker
//! identity record abreast of its progress.

use vstd::prelude::*;

use std::sync::Arc;

use crate::digits::push_dec;
use crate::digits::push_radix_pad;
use crate::digits::spec_dec;
use crate::digits::spec_radix_pad;
use crate::snowflake_core::EPOCH;
use crate::snowflake_core::MAX_DATACENTER_ID;
use crate::snowflake_core::MAX_TIMESTAMP_OFFSET;
use crate::snowflake_core::MAX_WORKER_ID;
use crate::snowflake_core::SEQUENCE_MASK;
use crate::snowflake_core::build_snowflake_id;
use crate::snowflake_core::extract_datacenter_id;
use crate::snowflake_core::extract_sequence;
use crate::snowflake_core::extract_timestamp;
use crate::snowflake_core::extract_worker_id;
use crate::snowflake_core::lemma_id_monotonic;
use crate::snowflake_core::spec_datacenter_id;
use crate::snowflake_core::spec_encode;
use crate::snowflake_core::spec_sequence;
use crate::snowflake_core::spec_timestamp;
use crate::snowflake_core::spec_worker_id;
use crate::time_provider::CachedTimeProvider;
use crate::time_provider::TimeProvider;
use crate::worker_manager::WorkerError;
use crate::worker_manager::WorkerInfo;
use crate::worker_manager::WorkerManager;
use crate::worker_manager::spec_render_record;
use vstd::string::StringExecFns;

verus! {

/// How many times a generator polls the clock for the next millisecond
/// before it gives the wait up as hopeless.
const SPIN_POLL_BOUND: u64 = 1000000000;

/// The identifier generator. All state changes go through `&mut self`, so
/// one instance behind one exclusive lock serializes emission; the cached
/// clock it reads is the only thing shared with other threads.
pub struct Snowflake {
    worker_id: u64,
    datacenter_id: u64,
    sequence: u64,
    last_timestamp: u64,
    worker_manager: Option<WorkerManager>,
    time_provider: Arc<CachedTimeProvider>,
}

impl Snowflake {
    /// The worker id this generator stamps into identifiers.
    pub closed spec fn spec_worker_id(&self) -> u64 {
        self.worker_id
    }

    /// The datacenter id this generator stamps into identifiers.
    pub closed spec fn spec_datacenter_id(&self) -> u64 {
        self.datacenter_id
    }

    /// The sequence number used by the most recent identifier.
    pub closed spec fn spec_sequence(&self) -> u64 {
        self.sequence
    }

    /// The millisecond used by the most recent identifier; zero before the
    /// first one.
    pub closed spec fn spec_last_timestamp(&self) -> u64 {
        self.last_timestamp
    }

    /// The worker identity this generator keeps abreast of its progress,
    /// if it was built from one.
    pub closed spec fn spec_identity(&self) -> Option<WorkerInfo> {
        match self.worker_manager {
            Some(m) => Some(m.spec_info()),
            None => None,
        }
    }

    /// Well-formed: the ids fit their 5-bit fields and the sequence its
    /// 12 bits. Constructors establish this and every operation keeps it.
    pub open spec fn wf(&self) -> bool {
        self.spec_worker_id() <= MAX_WORKER_ID && self.spec_datacenter_id() <= MAX_DATACENTER_ID
            && self.spec_sequence() <= SEQUENCE_MASK
    }

    /// An ephemeral generator (no persisted identity) reading the given
    /// cached clock. The ids must fit their ranges; `validate_ids` is the
    /// runtime check for callers that cannot know.
    pub fn new_with_provider(
        worker_id: u64,
        datacenter_id: u64,
        time_provider: Arc<CachedTimeProvider>,
    ) -> (r: Self)
        requires
            worker_id <= MAX_WORKER_ID,
            datacenter_id <= MAX_DATACENTER_ID,
        ensures
            r.wf(),
            r.spec_worker_id() == worker_id,
            r.spec_datacenter_id() == datacenter_id,
            r.spec_sequence() == 0,
            r.spec_last_timestamp() == 0,
            r.spec_identity() is None,
    {
        Snowflake {
            worker_id,
            datacenter_id,
            sequence: 0,
            last_timestamp: 0,
            worker_manager: None,
            time_provider,
        }
    }

    /// An ephemeral generator with a cached clock of its own, refreshed at
    /// one millisecond when an owner runs a refresher for it.
    pub fn new(worker_id: u64, datacenter_id: u64) -> (r: Self)
        requires
            worker_id <= MAX_WORKER_ID,
            datacenter_id <= MAX_DATACENTER_ID,
        ensures
            r.wf(),
            r.spec_worker_id() == worker_id,
            r.spec_datacenter_id() == datacenter_id,
            r.spec_sequence() == 0,
            r.spec_last_timestamp() == 0,
            r.spec_identity() is None,
    {
        Self::new_with_provider(worker_id, datacenter_id, Arc::new(CachedTimeProvider::new(1)))
    }

    /// A generator seeded from a loaded worker identity, reading the given
    /// cached clock. The identity's last-seen time seeds the generator's,
    /// and one checkpoint runs immediately to record the startup time;
    /// a clock already behind the record refuses construction.
    pub fn new_with_config_provider(
        manager: WorkerManager,
        time_provider: Arc<CachedTimeProvider>,
    ) -> (r: Result<Self, WorkerError>)
        requires
            manager.wf(),
        ensures
            r matches Ok(sf) ==> sf.wf() && sf.spec_worker_id() == manager.spec_info().worker_id
                && sf.spec_datacenter_id() == manager.spec_info().datacenter_id
                && sf.spec_sequence() == 0 && sf.spec_last_timestamp()
                == manager.spec_info().last_timestamp && (sf.spec_identity() matches Some(info)
                && info.worker_id == manager.spec_info().worker_id && info.datacenter_id
                == manager.spec_info().datacenter_id && info.creation_time
                == manager.spec_info().creation_time && info.last_timestamp
                >= manager.spec_info().last_timestamp),
            r matches Err(e) ==> (e matches WorkerError::ClockBackwardsError(last, now) && last
                == manager.spec_info().last_timestamp && now < last),
    {
        let mut manager = manager;
        let seed_last = manager.get_worker_info().last_timestamp;
        let worker_id = manager.get_worker_id();
        let datacenter_id = manager.get_datacenter_id();
        match manager.update_and_save() {
            Ok(_content) => {},
            Err(e) => {
                return Err(e);
            },
        }
        Ok(
            Snowflake {
                worker_id,
                datacenter_id,
                sequence: 0,
                last_timestamp: seed_last,
                worker_manager: Some(manager),
                time_provider,
            },
        )
    }

    /// A generator seeded from a loaded worker identity, with a cached
    /// clock of its own.
    pub fn new_with_config(manager: WorkerManager) -> (r: Result<Self, WorkerError>)
        requires
            manager.wf(),
        ensures
            r matches Ok(sf) ==> sf.wf() && sf.spec_worker_id() == manager.spec_info().worker_id
                && sf.spec_datacenter_id() == manager.spec_info().datacenter_id
                && sf.spec_sequence() == 0 && sf.spec_last_timestamp()
                == manager.spec_info().last_timestamp && (sf.spec_identity() matches Some(info)
                && info.worker_id == manager.spec_info().worker_id && info.datacenter_id
                == manager.spec_info().datacenter_id && info.creation_time
                == manager.spec_info().creation_time && info.last_timestamp
                >= manager.spec_info().last_timestamp),
            r matches Err(e) ==> (e matches WorkerError::ClockBackwardsError(last, now) && last
                == manager.spec_info().last_timestamp && now < last),
    {
        Self::new_with_config_provider(manager, Arc::new(CachedTimeProvider::new(1)))
    }

    /// The record text to persist for this generator's identity, if it
    /// carries one. Persisting it at some cadence is the owner's policy;
    /// the text always reflects the latest successful generation.
    pub fn identity_record(&self) -> (r: Option<String>)
        ensures
            r is Some <==> self.spec_identity() is Some,
            r matches Some(content) ==> (self.spec_identity() matches Some(info) && content@
                == spec_render_record(
                info.worker_id,
                info.datacenter_id,
                info.last_timestamp,
                info.creation_time,
            )),
    {
        match &self.worker_manager {
            Some(m) => Some(m.get_worker_info().to_file_content()),
            None => None,
        }
    }

    fn current_millis(&self) -> u64 {
        self.time_provider.current_millis()
    }

    /// Busy-waits until the cached clock reports a millisecond beyond the
    /// given one, refreshing the cache itself so progress does not hang on
    /// the background refresher. Each poll re-reads the system clock, so
    /// the wait normally lasts under a millisecond; a clock that stands
    /// still through the whole poll budget yields `None`.
    fn til_next_millis(&self, last_timestamp: u64) -> (r: Option<u64>)
        ensures
            r matches Some(ts) ==> ts > last_timestamp,
    {
        let mut polls: u64 = 0;
        while polls < SPIN_POLL_BOUND
            invariant
                polls <= SPIN_POLL_BOUND,
            decreases SPIN_POLL_BOUND - polls,
        {
            self.time_provider.force_update();
            let ts = self.current_millis();
            if ts > last_timestamp {
                return Some(ts);
            }
            polls = polls + 1;
        }
        None
    }

    /// One step of the generator on a given clock reading `t`. A reading
    /// behind the last-used millisecond is a clock regression and changes
    /// nothing; the reading that exhausts its millisecond's 4096 sequence
    /// numbers changes nothing and reports the exhaustion; a reading
    /// outside the 41-bit timestamp field changes nothing and reports
    /// that. Any other reading commits: the sequence advances within the
    /// same millisecond or resets on a fresh one, the identity record (if
    /// any) is stamped with `t`, and the emitted identifier packs exactly
    /// the committed state.
    pub fn next_id_at(&mut self, t: u64) -> (r: Result<u64, WorkerError>)
        requires
            old(self).wf(),
        ensures
            final(self).wf(),
            final(self).spec_worker_id() == old(self).spec_worker_id(),
            final(self).spec_datacenter_id() == old(self).spec_datacenter_id(),
            r is Err ==> *final(self) == *old(self),
            t < old(self).spec_last_timestamp() ==> r == Err::<u64, WorkerError>(
                WorkerError::ClockBackwardsError(old(self).spec_last_timestamp(), t),
            ),
            t == old(self).spec_last_timestamp() && old(self).spec_sequence() == SEQUENCE_MASK
                ==> r == Err::<u64, WorkerError>(WorkerError::SequenceExhausted(t)),
            t >= old(self).spec_last_timestamp() && !(t == old(self).spec_last_timestamp() && old(self).spec_sequence() == SEQUENCE_MASK) && !(EPOCH <= t && t - EPOCH
                <= MAX_TIMESTAMP_OFFSET) ==> r == Err::<u64, WorkerError>(
                WorkerError::TimestampOutOfRange(t),
            ),
            t >= old(self).spec_last_timestamp() && !(t == old(self).spec_last_timestamp() && old(self).spec_sequence() == SEQUENCE_MASK) && EPOCH <= t && t - EPOCH <= MAX_TIMESTAMP_OFFSET
                ==> {
                &&& final(self).spec_last_timestamp() == t
                &&& final(self).spec_sequence() == (if t == old(self).spec_last_timestamp() {
                    old(self).spec_sequence() + 1
                } else {
                    0
                })
                &&& r == Ok::<u64, WorkerError>(
                    spec_encode(
                        t,
                        old(self).spec_datacenter_id(),
                        old(self).spec_worker_id(),
                        final(self).spec_sequence(),
                    ),
                )
            },
            r is Ok ==> final(self).spec_last_timestamp() > old(self).spec_last_timestamp() || (
            final(self).spec_last_timestamp() == old(self).spec_last_timestamp() && final(self).spec_sequence() == old(self).spec_sequence() + 1),
            r is Ok ==> EPOCH <= final(self).spec_last_timestamp() && final(self).spec_last_timestamp() - EPOCH <= MAX_TIMESTAMP_OFFSET,
            r is Ok ==> old(self).spec_sequence() == SEQUENCE_MASK ==> final(self).spec_last_timestamp() > old(self).spec_last_timestamp(),
            r is Ok ==> final(self).spec_identity() == (match old(self).spec_identity() {
                Some(info) => Some(WorkerInfo { last_timestamp: t, ..info }),
                None => None::<WorkerInfo>,
            }),
    {
        if t < self.last_timestamp {
            return Err(WorkerError::ClockBackwardsError(self.last_timestamp, t));
        }
        let new_seq: u64;
        if t == self.last_timestamp {
            if self.sequence == SEQUENCE_MASK {
                return Err(WorkerError::SequenceExhausted(t));
            }
            new_seq = self.sequence + 1;
        } else {
            new_seq = 0;
        }
        if t < EPOCH || t - EPOCH > MAX_TIMESTAMP_OFFSET {
            return Err(WorkerError::TimestampOutOfRange(t));
        }
        self.sequence = new_seq;
        self.last_timestamp = t;
        match &mut self.worker_manager {
            Some(m) => {
                m.record_progress(t);
            },
            None => {},
        }
        Ok(build_snowflake_id(t, self.datacenter_id, self.worker_id, new_seq))
    }

    /// Generates the next identifier from the cached clock. When the
    /// current millisecond's sequence numbers are exhausted, waits for the
    /// next millisecond first, so exhaustion is only reported when the
    /// clock stood still through the whole wait; the errors that remain
    /// are a regressing clock and a reading outside the timestamp field.
    /// No error changes any state.
    pub fn next_id(&mut self) -> (r: Result<u64, WorkerError>)
        requires
            old(self).wf(),
        ensures
            final(self).wf(),
            final(self).spec_worker_id() == old(self).spec_worker_id(),
            final(self).spec_datacenter_id() == old(self).spec_datacenter_id(),
            r is Err ==> *final(self) == *old(self),
            r is Err ==> (r matches Err(WorkerError::ClockBackwardsError(last, obs)) && last
                == old(self).spec_last_timestamp() && obs < last) || (r matches Err(
            WorkerError::TimestampOutOfRange(obs)) && !(EPOCH <= obs && obs - EPOCH
                <= MAX_TIMESTAMP_OFFSET)) || (r matches Err(WorkerError::SequenceExhausted(m))
                && m == old(self).spec_last_timestamp() && old(self).spec_sequence()
                == SEQUENCE_MASK),
            r is Ok ==> final(self).spec_last_timestamp() > old(self).spec_last_timestamp() || (
            final(self).spec_last_timestamp() == old(self).spec_last_timestamp() && final(self).spec_sequence() == old(self).spec_sequence() + 1),
            r is Ok ==> old(self).spec_sequence() == SEQUENCE_MASK ==> final(self).spec_last_timestamp() > old(self).spec_last_timestamp(),
            r is Ok ==> EPOCH <= final(self).spec_last_timestamp() && final(self).spec_last_timestamp() - EPOCH <= MAX_TIMESTAMP_OFFSET,
            r matches Ok(id) ==> id == spec_encode(
                final(self).spec_last_timestamp(),
                final(self).spec_datacenter_id(),
                final(self).spec_worker_id(),
                final(self).spec_sequence(),
            ),
            r is Ok ==> final(self).spec_identity() == (match old(self).spec_identity() {
                Some(info) => Some(
                    WorkerInfo { last_timestamp: final(self).spec_last_timestamp(), ..info },
                ),
                None => None::<WorkerInfo>,
            }),
    {
        let t0 = self.current_millis();
        if t0 == self.last_timestamp && self.sequence == SEQUENCE_MASK {
            match self.til_next_millis(self.last_timestamp) {
                Some(t) => self.next_id_at(t),
                None => Err(WorkerError::SequenceExhausted(self.last_timestamp)),
            }
        } else {
            self.next_id_at(t0)
        }
    }

    /// The worker id this generator stamps into identifiers.
    pub fn get_worker_id(&self) -> (r: u64)
        ensures
            r == self.spec_worker_id(),
    {
        self.worker_id
    }

    /// The datacenter id this generator stamps into identifiers.
    pub fn get_datacenter_id(&self) -> (r: u64)
        ensures
            r == self.spec_datacenter_id(),
    {
        self.datacenter_id
    }

    /// The millisecond used by the most recent identifier; zero before
    /// the first one.
    pub fn get_last_timestamp(&self) -> (r: u64)
        ensures
            r == self.spec_last_timestamp(),
    {
        self.last_timestamp
    }

    /// Splits an identifier into its fields; usable without a generator.
    pub fn parse_id(id: u64) -> (info: SnowflakeInfo)
        ensures
            info.id == id,
            info.timestamp == spec_timestamp(id),
            info.datacenter_id == spec_datacenter_id(id),
            info.worker_id == spec_worker_id(id),
            info.sequence == spec_sequence(id),
            info.datacenter_id <= MAX_DATACENTER_ID,
            info.worker_id <= MAX_WORKER_ID,
            info.sequence <= SEQUENCE_MASK,
    {
        SnowflakeInfo {
            id,
            timestamp: extract_timestamp(id),
            datacenter_id: extract_datacenter_id(id),
            worker_id: extract_worker_id(id),
            sequence: extract_sequence(id),
        }
    }
}

/// Two successful generations of one generator yield strictly increasing
/// identifiers: each success leaves the (timestamp, sequence) state
/// lexicographically above where it was and emits the identifier packing
/// that state, and packing respects the lexicographic order.
pub proof fn lemma_next_id_monotonic(s1: Snowflake, s2: Snowflake, id1: u64, id2: u64)
    requires
        s1.wf(),
        s2.wf(),
        s1.spec_worker_id() == s2.spec_worker_id(),
        s1.spec_datacenter_id() == s2.spec_datacenter_id(),
        EPOCH <= s1.spec_last_timestamp(),
        s1.spec_last_timestamp() - EPOCH <= MAX_TIMESTAMP_OFFSET,
        EPOCH <= s2.spec_last_timestamp(),
        s2.spec_last_timestamp() - EPOCH <= MAX_TIMESTAMP_OFFSET,
        id1 == spec_encode(
            s1.spec_last_timestamp(),
            s1.spec_datacenter_id(),
            s1.spec_worker_id(),
            s1.spec_sequence(),
        ),
        id2 == spec_encode(
            s2.spec_last_timestamp(),
            s2.spec_datacenter_id(),
            s2.spec_worker_id(),
            s2.spec_sequence(),
        ),
        s2.spec_last_timestamp() > s1.spec_last_timestamp() || (s2.spec_last_timestamp()
            == s1.spec_last_timestamp() && s2.spec_sequence() > s1.spec_sequence()),
    ensures
        id2 > id1,
{
    lemma_id_monotonic(
        s1.spec_last_timestamp(),
        s1.spec_sequence(),
        s2.spec_last_timestamp(),
        s2.spec_sequence(),
        s1.spec_datacenter_id(),
        s1.spec_worker_id(),
    );
}

/// An identifier split into its fields, with renderings for people.
#[derive(Debug, Clone)]
pub struct SnowflakeInfo {
    pub id: u64,
    pub timestamp: u64,
    pub datacenter_id: u64,
    pub worker_id: u64,
    pub sequence: u64,
}

/// A millisecond timestamp as seconds since the Unix epoch, a dot, and
/// three millisecond digits.
pub open spec fn spec_timestamp_string(timestamp: u64) -> Seq<char> {
    spec_dec((timestamp / 1000) as nat) + seq!['.'] + spec_radix_pad((timestamp % 1000) as nat, 10, 3)
}

/// An identifier in hexadecimal: `0x` and sixteen digits.
pub open spec fn spec_hex_string(id: u64) -> Seq<char> {
    "0x"@ + spec_radix_pad(id as nat, 16, 16)
}

/// An identifier as its sixty-four bits.
pub open spec fn spec_binary_string(id: u64) -> Seq<char> {
    spec_radix_pad(id as nat, 2, 64)
}

/// The multi-line human-readable summary of an identifier's fields.
pub open spec fn spec_format_details(info: SnowflakeInfo) -> Seq<char> {
    "Snowflake ID: "@ + spec_dec(info.id as nat) + "\nHex: "@ + spec_hex_string(info.id)
        + "\nBinary: "@ + spec_binary_string(info.id) + "\nTimestamp: "@ + spec_dec(
        info.timestamp as nat,
    ) + " ("@ + spec_timestamp_string(info.timestamp) + ")\nDatacenter ID: "@ + spec_dec(
        info.datacenter_id as nat,
    ) + "\nWorker ID: "@ + spec_dec(info.worker_id as nat) + "\nSequence: "@ + spec_dec(
        info.sequence as nat,
    )
}

impl SnowflakeInfo {
    /// The carried timestamp as seconds since the Unix epoch with three
    /// millisecond digits, such as `1640995200.100`.
    pub fn timestamp_as_string(&self) -> (r: String)
        ensures
            r@ == spec_timestamp_string(self.timestamp),
    {
        let mut s = String::new();
        push_dec(&mut s, self.timestamp / 1000);
        s.append(".");
        push_radix_pad(&mut s, self.timestamp % 1000, 10, 3);
        proof {
            reveal_strlit(".");
            assert(s@ =~= spec_timestamp_string(self.timestamp));
        }
        s
    }

    /// The identifier in hexadecimal: `0x` and sixteen digits.
    pub fn id_as_hex(&self) -> (r: String)
        ensures
            r@ == spec_hex_string(self.id),
    {
        let mut s = String::from_str("0x");
        push_radix_pad(&mut s, self.id, 16, 16);
        s
    }

    /// The identifier as its sixty-four bits.
    pub fn id_as_binary(&self) -> (r: String)
        ensures
            r@ == spec_binary_string(self.id),
    {
        let mut s = String::new();
        push_radix_pad(&mut s, self.id, 2, 64);
        proof {
            assert(s@ =~= spec_binary_string(self.id));
        }
        s
    }

    /// A multi-line summary of the identifier and all its fields.
    pub fn format_details(&self) -> (r: String)
        ensures
            r@ == spec_format_details(*self),
    {
        let mut s = String::from_str("Snowflake ID: ");
        push_dec(&mut s, self.id);
        s.append("\nHex: ");
        let hex = self.id_as_hex();
        s.append(hex.as_str());
        s.append("\nBinary: ");
        let bin = self.id_as_binary();
        s.append(bin.as_str());
        s.append("\nTimestamp: ");
        push_dec(&mut s, self.timestamp);
        s.append(" (");
        let ts = self.timestamp_as_string();
        s.append(ts.as_str());
        s.append(")\nDatacenter ID: ");
        push_dec(&mut s, self.datacenter_id);
        s.append("\nWorker ID: ");
        push_dec(&mut s, self.worker_id);
        s.append("\nSequence: ");
        push_dec(&mut s, self.sequence);
        proof {
            assert(s@ =~= spec_format_details(*self));
        }
        s
    }
}

} // verus!
