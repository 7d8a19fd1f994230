//! Bit-layout codec for snowflake identifiers.
//!
//! An identifier is a 64-bit unsigned integer laid out, most significant bit
//! first, as: one unused sign bit (always 0), a 41-bit offset in milliseconds
//! from a fixed epoch, a 5-bit datacenter id, a 5-bit worker id and a 12-bit
//! per-millisecond sequence number.

use vstd::prelude::*;

use crate::digits::spec_dec;
use crate::digits::push_dec;
use vstd::string::StringExecFns;

verus! {

/// Milliseconds between the Unix epoch and 2021-01-01T00:00:00Z, the fixed
/// reference instant subtracted from wall-clock time before embedding.
pub const EPOCH: u64 = 1609459200000;

pub const WORKER_ID_BITS: u64 = 5;
pub const DATACENTER_ID_BITS: u64 = 5;
pub const SEQUENCE_BITS: u64 = 12;

/// Largest worker id: 5 bits, so 31.
pub const MAX_WORKER_ID: u64 = 31;
/// Largest datacenter id: 5 bits, so 31.
pub const MAX_DATACENTER_ID: u64 = 31;

pub const WORKER_ID_SHIFT: u64 = 12;
pub const DATACENTER_ID_SHIFT: u64 = 17;
pub const TIMESTAMP_SHIFT: u64 = 22;
/// Largest sequence number: 12 bits, so 4095.
pub const SEQUENCE_MASK: u64 = 4095;

/// Largest timestamp offset representable in the 41-bit field.
pub const MAX_TIMESTAMP_OFFSET: u64 = 2199023255551;

/// Whether the four fields fit their bit widths, so that packing them
/// cannot corrupt a neighbouring field.
pub open spec fn fields_in_range(
    timestamp: u64,
    datacenter_id: u64,
    worker_id: u64,
    sequence: u64,
) -> bool {
    &&& EPOCH <= timestamp
    &&& timestamp - EPOCH <= MAX_TIMESTAMP_OFFSET
    &&& datacenter_id <= MAX_DATACENTER_ID
    &&& worker_id <= MAX_WORKER_ID
    &&& sequence <= SEQUENCE_MASK
}

/// The identifier that packs the given fields: the timestamp offset in
/// bits 22..62, the datacenter id in bits 17..21, the worker id in
/// bits 12..16 and the sequence in bits 0..11.
pub open spec fn spec_encode(
    timestamp: u64,
    datacenter_id: u64,
    worker_id: u64,
    sequence: u64,
) -> u64
    recommends
        fields_in_range(timestamp, datacenter_id, worker_id, sequence),
{
    (((timestamp - EPOCH) as u64) << 22) | (datacenter_id << 17) | (worker_id << 12) | sequence
}

/// The millisecond timestamp a given identifier carries.
pub open spec fn spec_timestamp(id: u64) -> u64 {
    ((id >> 22) + EPOCH) as u64
}

/// The datacenter id a given identifier carries.
pub open spec fn spec_datacenter_id(id: u64) -> u64 {
    (id >> 17) & 31
}

/// The worker id a given identifier carries.
pub open spec fn spec_worker_id(id: u64) -> u64 {
    (id >> 12) & 31
}

/// The sequence number a given identifier carries.
pub open spec fn spec_sequence(id: u64) -> u64 {
    id & 4095
}

/// Decoding recovers every field that encoding packed: the codec loses
/// no information on fields that fit their bit widths.
pub proof fn lemma_id_round_trip(timestamp: u64, datacenter_id: u64, worker_id: u64, sequence: u64)
    requires
        fields_in_range(timestamp, datacenter_id, worker_id, sequence),
    ensures
        spec_timestamp(spec_encode(timestamp, datacenter_id, worker_id, sequence)) == timestamp,
        spec_datacenter_id(spec_encode(timestamp, datacenter_id, worker_id, sequence))
            == datacenter_id,
        spec_worker_id(spec_encode(timestamp, datacenter_id, worker_id, sequence)) == worker_id,
        spec_sequence(spec_encode(timestamp, datacenter_id, worker_id, sequence)) == sequence,
{
    let off = (timestamp - EPOCH) as u64;
    assert(off <= 2199023255551 && datacenter_id <= 31 && worker_id <= 31 && sequence <= 4095
        ==> (((off << 22) | (datacenter_id << 17) | (worker_id << 12) | sequence) >> 22 == off
        && (((off << 22) | (datacenter_id << 17) | (worker_id << 12) | sequence) >> 17) & 31
            == datacenter_id
        && (((off << 22) | (datacenter_id << 17) | (worker_id << 12) | sequence) >> 12) & 31
            == worker_id
        && ((off << 22) | (datacenter_id << 17) | (worker_id << 12) | sequence) & 4095
            == sequence)) by (bit_vector);
}

/// For one (worker, datacenter) pair, identifiers order exactly as their
/// (timestamp, sequence) pairs order lexicographically: advancing either
/// the millisecond or the sequence within it yields a strictly larger
/// identifier.
pub proof fn lemma_id_monotonic(
    timestamp1: u64,
    sequence1: u64,
    timestamp2: u64,
    sequence2: u64,
    datacenter_id: u64,
    worker_id: u64,
)
    requires
        fields_in_range(timestamp1, datacenter_id, worker_id, sequence1),
        fields_in_range(timestamp2, datacenter_id, worker_id, sequence2),
        timestamp1 < timestamp2 || (timestamp1 == timestamp2 && sequence1 < sequence2),
    ensures
        spec_encode(timestamp1, datacenter_id, worker_id, sequence1) < spec_encode(
            timestamp2,
            datacenter_id,
            worker_id,
            sequence2,
        ),
{
    let off1 = (timestamp1 - EPOCH) as u64;
    let off2 = (timestamp2 - EPOCH) as u64;
    assert((off1 <= 2199023255551 && off2 <= 2199023255551 && datacenter_id <= 31 && worker_id
        <= 31 && sequence1 <= 4095 && sequence2 <= 4095 && (off1 < off2 || (off1 == off2
        && sequence1 < sequence2))) ==> ((off1 << 22) | (datacenter_id << 17) | (worker_id << 12)
        | sequence1) < ((off2 << 22) | (datacenter_id << 17) | (worker_id << 12) | sequence2))
        by (bit_vector);
}

/// The millisecond timestamp embedded in an identifier.
pub fn extract_timestamp(id: u64) -> (r: u64)
    ensures
        r == spec_timestamp(id),
{
    proof {
        assert(id >> 22 <= 0x3ffffffffff) by (bit_vector);
    }
    (id >> 22) + EPOCH
}

/// The worker id embedded in an identifier.
pub fn extract_worker_id(id: u64) -> (r: u64)
    ensures
        r == spec_worker_id(id),
        r <= MAX_WORKER_ID,
{
    proof {
        assert((id >> 12) & 31 <= 31) by (bit_vector);
    }
    (id >> 12) & 31
}

/// The datacenter id embedded in an identifier.
pub fn extract_datacenter_id(id: u64) -> (r: u64)
    ensures
        r == spec_datacenter_id(id),
        r <= MAX_DATACENTER_ID,
{
    proof {
        assert((id >> 17) & 31 <= 31) by (bit_vector);
    }
    (id >> 17) & 31
}

/// The sequence number embedded in an identifier.
pub fn extract_sequence(id: u64) -> (r: u64)
    ensures
        r == spec_sequence(id),
        r <= SEQUENCE_MASK,
{
    proof {
        assert(id & 4095 <= 4095) by (bit_vector);
    }
    id & 4095
}

/// Packs a timestamp, datacenter id, worker id and sequence number into one
/// identifier. Inputs must fit their bit widths; silent truncation would
/// corrupt adjacent fields.
pub fn build_snowflake_id(
    timestamp: u64,
    datacenter_id: u64,
    worker_id: u64,
    sequence: u64,
) -> (r: u64)
    requires
        fields_in_range(timestamp, datacenter_id, worker_id, sequence),
    ensures
        r == spec_encode(timestamp, datacenter_id, worker_id, sequence),
        spec_timestamp(r) == timestamp,
        spec_datacenter_id(r) == datacenter_id,
        spec_worker_id(r) == worker_id,
        spec_sequence(r) == sequence,
{
    proof {
        lemma_id_round_trip(timestamp, datacenter_id, worker_id, sequence);
    }
    ((timestamp - EPOCH) << 22) | (datacenter_id << 17) | (worker_id << 12) | sequence
}

/// The message validation reports for a worker id above the maximum.
pub open spec fn spec_worker_id_message(worker_id: u64) -> Seq<char> {
    "worker_id "@ + spec_dec(worker_id as nat) + " exceeds maximum 31"@
}

/// The message validation reports for a datacenter id above the maximum.
pub open spec fn spec_datacenter_id_message(datacenter_id: u64) -> Seq<char> {
    "datacenter_id "@ + spec_dec(datacenter_id as nat) + " exceeds maximum 31"@
}

/// Checks that a worker id and a datacenter id both fit their 5-bit fields;
/// an id above 31 is a configuration error, reported with the offending
/// value. The worker id is checked first.
pub fn validate_ids(worker_id: u64, datacenter_id: u64) -> (r: Result<(), String>)
    ensures
        r is Ok <==> (worker_id <= MAX_WORKER_ID && datacenter_id <= MAX_DATACENTER_ID),
        worker_id > MAX_WORKER_ID ==> (r matches Err(m) && m@ == spec_worker_id_message(
            worker_id,
        )),
        worker_id <= MAX_WORKER_ID && datacenter_id > MAX_DATACENTER_ID ==> (r matches Err(m)
            && m@ == spec_datacenter_id_message(datacenter_id)),
{
    if worker_id > MAX_WORKER_ID {
        let mut m = String::from_str("worker_id ");
        push_dec(&mut m, worker_id);
        m.append(" exceeds maximum 31");
        return Err(m);
    }
    if datacenter_id > MAX_DATACENTER_ID {
        let mut m = String::from_str("datacenter_id ");
        push_dec(&mut m, datacenter_id);
        m.append(" exceeds maximum 31");
        return Err(m);
    }
    Ok(())
}

} // verus!
