//! The worker identity store: a worker's id, datacenter, last-seen
//! timestamp and creation time, rendered to and parsed from a small
//! four-line record, with the clock-regression check that detects a
//! machine whose clock was set backwards between runs.
//!
//! Reading and writing the record's bytes is the owner's business: this
//! module parses, validates, updates and renders, and hands the rendered
//! record back to whoever persists it.

use vstd::prelude::*;

use crate::digits::first_nl;
use crate::digits::find_nl;
use crate::digits::lemma_dec_round;
use crate::digits::lemma_digit_not_marker;
use crate::digits::lemma_first_nl_at;
use crate::digits::lemma_trim_digits;
use crate::digits::parse_u64_field;
use crate::digits::push_dec;
use crate::digits::spec_dec;
use crate::digits::spec_parse_u64;
use crate::digits::spec_trim;
use crate::digits::trim_str;
use crate::digits::end_non_space;
use crate::digits::first_non_space;
use crate::digits::is_space;
use crate::digits::is_digit;
use crate::snowflake_core::MAX_DATACENTER_ID;
use crate::snowflake_core::MAX_WORKER_ID;
use crate::time_provider::system_millis;
use vstd::string::StringExecFns;
use vstd::string::StrSliceExecFns;

verus! {

/// Errors of the identity store and the identifier generator.
#[derive(Debug)]
pub enum WorkerError {
    /// A storage failure, reported by whatever I/O layer loads and
    /// persists records; this crate only carries the message through.
    IoError(String),
    /// A malformed persisted record; the message names the first
    /// offending part.
    ParseError(String),
    /// The clock was observed behind a recorded time: the recorded time,
    /// then the observed reading.
    ClockBackwardsError(u64, u64),
    /// A worker id or datacenter id outside its 5-bit range: the pair as
    /// given.
    ConfigError(u64, u64),
    /// A clock reading below the epoch or beyond the 41-bit timestamp
    /// field.
    TimestampOutOfRange(u64),
    /// All 4096 sequence numbers of the given millisecond are used up.
    SequenceExhausted(u64),
}

/// A worker's persisted identity. The fields are plain data; bounds on the
/// ids are demanded where a generator is built from them.
#[derive(Debug, Clone)]
pub struct WorkerInfo {
    pub worker_id: u64,
    pub datacenter_id: u64,
    pub last_timestamp: u64,
    pub creation_time: u64,
}

/// The record text for the four fields: one unsigned decimal per line, in
/// this order, each line terminated by a line feed.
pub open spec fn spec_render_record(
    worker_id: u64,
    datacenter_id: u64,
    last_timestamp: u64,
    creation_time: u64,
) -> Seq<char> {
    spec_dec(worker_id as nat) + seq!['\n'] + spec_dec(datacenter_id as nat) + seq!['\n']
        + spec_dec(last_timestamp as nat) + seq!['\n'] + spec_dec(creation_time as nat)
        + seq!['\n']
}

/// How record text is read back: trim the whole text, split it at line
/// feeds, require at least four lines, and parse each of the first four as
/// an unsigned 64-bit decimal; later lines are ignored.
pub open spec fn spec_parse_record(s: Seq<char>) -> Option<(u64, u64, u64, u64)> {
    let t = spec_trim(s);
    let e0 = first_nl(t, 0);
    let e1 = first_nl(t, e0 + 1);
    let e2 = first_nl(t, e1 + 1);
    if e2 >= t.len() {
        None
    } else {
        let e3 = first_nl(t, e2 + 1);
        let f0 = spec_parse_u64(t.subrange(0, e0));
        let f1 = spec_parse_u64(t.subrange(e0 + 1, e1));
        let f2 = spec_parse_u64(t.subrange(e1 + 1, e2));
        let f3 = spec_parse_u64(t.subrange(e2 + 1, e3));
        if f0 is Some && f1 is Some && f2 is Some && f3 is Some {
            Some((f0.unwrap(), f1.unwrap(), f2.unwrap(), f3.unwrap()))
        } else {
            None
        }
    }
}

/// The message reported for record text that does not parse; the empty
/// sequence for text that does.
pub open spec fn spec_parse_error_message(s: Seq<char>) -> Seq<char> {
    let t = spec_trim(s);
    let e0 = first_nl(t, 0);
    let e1 = first_nl(t, e0 + 1);
    let e2 = first_nl(t, e1 + 1);
    if e2 >= t.len() {
        "Invalid file format: missing required fields"@
    } else {
        let e3 = first_nl(t, e2 + 1);
        if spec_parse_u64(t.subrange(0, e0)) is None {
            "Invalid worker_id"@
        } else if spec_parse_u64(t.subrange(e0 + 1, e1)) is None {
            "Invalid datacenter_id"@
        } else if spec_parse_u64(t.subrange(e1 + 1, e2)) is None {
            "Invalid last_timestamp"@
        } else if spec_parse_u64(t.subrange(e2 + 1, e3)) is None {
            "Invalid creation_time"@
        } else {
            Seq::empty()
        }
    }
}

impl WorkerInfo {
    /// A fresh identity stamped with the current clock reading: the
    /// last-seen and creation times are one and the same reading.
    pub fn new(worker_id: u64, datacenter_id: u64) -> (r: Self)
        ensures
            r.worker_id == worker_id,
            r.datacenter_id == datacenter_id,
            r.last_timestamp == r.creation_time,
    {
        let current_time = system_millis();
        WorkerInfo {
            worker_id,
            datacenter_id,
            last_timestamp: current_time,
            creation_time: current_time,
        }
    }

    /// Parses record text into an identity; fails on fewer than four
    /// lines or on a line that is not an unsigned decimal, naming the
    /// first offending part.
    pub fn from_file_content(content: &str) -> (r: Result<Self, WorkerError>)
        ensures
            r matches Ok(w) ==> spec_parse_record(content@) == Some(
                (w.worker_id, w.datacenter_id, w.last_timestamp, w.creation_time),
            ),
            r matches Err(e) ==> spec_parse_record(content@) is None && (e matches
                WorkerError::ParseError(m) && m@ == spec_parse_error_message(content@)),
    {
        let t = trim_str(content);
        let n = t.unicode_len();
        let e0 = find_nl(t, 0);
        if e0 == n {
            return Err(
                WorkerError::ParseError(
                    String::from_str("Invalid file format: missing required fields"),
                ),
            );
        }
        let e1 = find_nl(t, e0 + 1);
        if e1 == n {
            return Err(
                WorkerError::ParseError(
                    String::from_str("Invalid file format: missing required fields"),
                ),
            );
        }
        let e2 = find_nl(t, e1 + 1);
        if e2 == n {
            return Err(
                WorkerError::ParseError(
                    String::from_str("Invalid file format: missing required fields"),
                ),
            );
        }
        let e3 = find_nl(t, e2 + 1);
        let l0 = t.substring_char(0, e0);
        let l1 = t.substring_char(e0 + 1, e1);
        let l2 = t.substring_char(e1 + 1, e2);
        let l3 = t.substring_char(e2 + 1, e3);
        let worker_id = match parse_u64_field(l0) {
            Some(v) => v,
            None => {
                return Err(WorkerError::ParseError(String::from_str("Invalid worker_id")));
            },
        };
        let datacenter_id = match parse_u64_field(l1) {
            Some(v) => v,
            None => {
                return Err(WorkerError::ParseError(String::from_str("Invalid datacenter_id")));
            },
        };
        let last_timestamp = match parse_u64_field(l2) {
            Some(v) => v,
            None => {
                return Err(WorkerError::ParseError(String::from_str("Invalid last_timestamp")));
            },
        };
        let creation_time = match parse_u64_field(l3) {
            Some(v) => v,
            None => {
                return Err(WorkerError::ParseError(String::from_str("Invalid creation_time")));
            },
        };
        Ok(WorkerInfo { worker_id, datacenter_id, last_timestamp, creation_time })
    }

    /// Renders the identity as its four-line record text.
    pub fn to_file_content(&self) -> (r: String)
        ensures
            r@ == spec_render_record(
                self.worker_id,
                self.datacenter_id,
                self.last_timestamp,
                self.creation_time,
            ),
    {
        let mut s = String::new();
        push_dec(&mut s, self.worker_id);
        s.append("\n");
        push_dec(&mut s, self.datacenter_id);
        s.append("\n");
        push_dec(&mut s, self.last_timestamp);
        s.append("\n");
        push_dec(&mut s, self.creation_time);
        s.append("\n");
        proof {
            reveal_strlit("\n");
            assert("\n"@ =~= seq!['\n']);
            assert(s@ =~= spec_render_record(
                self.worker_id,
                self.datacenter_id,
                self.last_timestamp,
                self.creation_time,
            ));
        }
        s
    }

    /// Stamps the identity with the current clock reading; the other
    /// fields stay as they are.
    pub fn update_timestamp(&mut self)
        ensures
            final(self).worker_id == old(self).worker_id,
            final(self).datacenter_id == old(self).datacenter_id,
            final(self).creation_time == old(self).creation_time,
    {
        self.last_timestamp = system_millis();
    }

    /// The regression check against a given clock reading: a reading
    /// strictly before the recorded last-seen time is a clock-regression
    /// error, anything else passes.
    pub fn check_clock_backwards_at(&self, now: u64) -> (r: Result<(), WorkerError>)
        ensures
            r == if now < self.last_timestamp {
                Err::<(), WorkerError>(
                    WorkerError::ClockBackwardsError(self.last_timestamp, now),
                )
            } else {
                Ok::<(), WorkerError>(())
            },
    {
        if now < self.last_timestamp {
            Err(WorkerError::ClockBackwardsError(self.last_timestamp, now))
        } else {
            Ok(())
        }
    }

    /// Reads the clock and checks it has not fallen behind the recorded
    /// last-seen time. Which way it goes depends on the clock; whatever
    /// comes back, an error is exactly a regression report against the
    /// recorded time.
    pub fn check_clock_backwards(&self) -> (r: Result<(), WorkerError>)
        ensures
            r is Err ==> (r matches Err(WorkerError::ClockBackwardsError(last, now)) && last
                == self.last_timestamp && now < last),
    {
        let now = system_millis();
        self.check_clock_backwards_at(now)
    }
}

/// Rendering an identity and parsing the text back yields the identity:
/// the record format loses no information, for every field value.
pub proof fn lemma_record_round_trip(
    worker_id: u64,
    datacenter_id: u64,
    last_timestamp: u64,
    creation_time: u64,
)
    ensures
        spec_parse_record(
            spec_render_record(worker_id, datacenter_id, last_timestamp, creation_time),
        ) == Some((worker_id, datacenter_id, last_timestamp, creation_time)),
{
    let a = spec_dec(worker_id as nat);
    let b = spec_dec(datacenter_id as nat);
    let c = spec_dec(last_timestamp as nat);
    let d = spec_dec(creation_time as nat);
    let nl = seq!['\n'];
    lemma_dec_round(worker_id as nat);
    lemma_dec_round(datacenter_id as nat);
    lemma_dec_round(last_timestamp as nat);
    lemma_dec_round(creation_time as nat);
    let s = spec_render_record(worker_id, datacenter_id, last_timestamp, creation_time);
    let t = a + nl + b + nl + c + nl + d;
    assert(s =~= t + nl);
    let nl1 = a.len() as int;
    let nl2 = nl1 + 1 + b.len();
    let nl3 = nl2 + 1 + c.len();
    let len = t.len() as int;
    assert(len == nl3 + 1 + d.len());
    assert(forall|i: int| 0 <= i < nl1 ==> t[i] == a[i]);
    assert(t[nl1] == '\n');
    assert(forall|i: int| nl1 + 1 <= i < nl2 ==> t[i] == b[i - nl1 - 1]);
    assert(t[nl2 as int] == '\n');
    assert(forall|i: int| nl2 + 1 <= i < nl3 ==> t[i] == c[i - nl2 - 1]);
    assert(t[nl3 as int] == '\n');
    assert(forall|i: int| nl3 + 1 <= i < len ==> t[i] == d[i - nl3 - 1]);
    // every character of the four rendered numbers is a digit, hence
    // neither blank nor a line feed
    assert(forall|i: int| 0 <= i < nl1 ==> is_digit(#[trigger] t[i]));
    assert(forall|i: int| nl1 + 1 <= i < nl2 ==> is_digit(#[trigger] t[i]));
    assert(forall|i: int| nl2 + 1 <= i < nl3 ==> is_digit(#[trigger] t[i]));
    assert(forall|i: int| nl3 + 1 <= i < len ==> is_digit(#[trigger] t[i]));
    assert forall|i: int| 0 <= i < len && is_digit(t[i]) implies !is_space(t[i]) && t[i] != '\n'
        && t[i] != '+' by {
        lemma_digit_not_marker(t[i]);
    }
    // the whole text trims to t: the only trailing blank is the final
    // line feed, and the first character is a digit
    assert(is_digit(s[0]) && !is_space(s[0]));
    assert(first_non_space(s, 0) == 0);
    assert(s[s.len() - 1] == '\n' && is_space(s[s.len() - 1]));
    assert(s[s.len() - 2] == t[len - 1] && is_digit(t[len - 1]));
    assert(end_non_space(s, s.len() as int) == end_non_space(s, s.len() - 1));
    assert(end_non_space(s, s.len() - 1) == s.len() - 1);
    assert(spec_trim(s) =~= t);
    // the three inner line feeds split t into the four rendered numbers
    lemma_first_nl_at(t, 0, nl1);
    lemma_first_nl_at(t, nl1 + 1, nl2 as int);
    lemma_first_nl_at(t, nl2 + 1, nl3 as int);
    lemma_first_nl_at(t, nl3 + 1, len);
    assert(first_nl(t, 0) == nl1);
    assert(first_nl(t, nl1 + 1) == nl2);
    assert(first_nl(t, nl2 + 1) == nl3);
    assert(first_nl(t, nl3 + 1) == len);
    assert(t.subrange(0, nl1) =~= a);
    assert(t.subrange(nl1 + 1, nl2 as int) =~= b);
    assert(t.subrange(nl2 + 1, nl3 as int) =~= c);
    assert(t.subrange(nl3 + 1, len) =~= d);
    lemma_parse_digit_string(worker_id);
    lemma_parse_digit_string(datacenter_id);
    lemma_parse_digit_string(last_timestamp);
    lemma_parse_digit_string(creation_time);
}

/// The decimal rendering of a value parses back to that value.
proof fn lemma_parse_digit_string(n: u64)
    ensures
        spec_parse_u64(spec_dec(n as nat)) == Some(n),
{
    let a = spec_dec(n as nat);
    lemma_dec_round(n as nat);
    lemma_trim_digits(a);
    lemma_digit_not_marker(a[0]);
}

/// The identity store: holds the in-memory copy of one worker's record,
/// keeps its ids within bounds, and runs the regression check on every
/// checkpoint. Storage is abstract: constructors take record text, and
/// checkpoints hand the new record text back to the owner to persist.
#[derive(Debug)]
pub struct WorkerManager {
    worker_info: WorkerInfo,
}

impl WorkerManager {
    /// The identity this store holds.
    pub closed spec fn spec_info(&self) -> WorkerInfo {
        self.worker_info
    }

    /// Both ids fit their 5-bit fields.
    pub open spec fn wf(&self) -> bool {
        self.spec_info().worker_id <= MAX_WORKER_ID && self.spec_info().datacenter_id
            <= MAX_DATACENTER_ID
    }

    /// Loads an identity from record text: parse it, demand ids within
    /// bounds, and check the clock has not fallen behind the record's
    /// last-seen time.
    pub fn from_record(content: &str) -> (r: Result<WorkerManager, WorkerError>)
        ensures
            r matches Ok(m) ==> m.wf() && spec_parse_record(content@) == Some(
                (
                    m.spec_info().worker_id,
                    m.spec_info().datacenter_id,
                    m.spec_info().last_timestamp,
                    m.spec_info().creation_time,
                ),
            ),
            r matches Err(e) ==> {
                ||| (spec_parse_record(content@) is None && (e matches WorkerError::ParseError(m)
                    && m@ == spec_parse_error_message(content@)))
                ||| (spec_parse_record(content@) matches Some(f) && (f.0 > MAX_WORKER_ID || f.1
                    > MAX_DATACENTER_ID) && e == WorkerError::ConfigError(f.0, f.1))
                ||| (spec_parse_record(content@) matches Some(f) && f.0 <= MAX_WORKER_ID && f.1
                    <= MAX_DATACENTER_ID && (e matches WorkerError::ClockBackwardsError(last, now)
                    && last == f.2 && now < last))
            },
    {
        let info = match WorkerInfo::from_file_content(content) {
            Ok(i) => i,
            Err(e) => {
                return Err(e);
            },
        };
        if info.worker_id > MAX_WORKER_ID || info.datacenter_id > MAX_DATACENTER_ID {
            return Err(WorkerError::ConfigError(info.worker_id, info.datacenter_id));
        }
        match info.check_clock_backwards() {
            Ok(_) => Ok(WorkerManager { worker_info: info }),
            Err(e) => Err(e),
        }
    }

    /// A fresh identity for a worker with no record yet: the seed —
    /// typically a hash of the host identity and the current time — is
    /// reduced into the 5-bit worker-id range; the datacenter id must
    /// already fit its range.
    pub fn create(seed: u64, default_datacenter_id: u64) -> (r: Result<WorkerManager, WorkerError>)
        ensures
            r matches Ok(m) ==> m.wf() && m.spec_info().worker_id == seed % 32
                && m.spec_info().datacenter_id == default_datacenter_id
                && m.spec_info().last_timestamp == m.spec_info().creation_time,
            r is Err <==> default_datacenter_id > MAX_DATACENTER_ID,
            r is Err ==> r == Err::<WorkerManager, WorkerError>(
                WorkerError::ConfigError(seed % 32, default_datacenter_id),
            ),
    {
        let worker_id = seed % 32;
        if default_datacenter_id > MAX_DATACENTER_ID {
            return Err(WorkerError::ConfigError(worker_id, default_datacenter_id));
        }
        let info = WorkerInfo::new(worker_id, default_datacenter_id);
        Ok(WorkerManager { worker_info: info })
    }

    /// The identity this store holds.
    pub fn get_worker_info(&self) -> (r: &WorkerInfo)
        ensures
            *r == self.spec_info(),
    {
        &self.worker_info
    }

    /// A checkpoint: one clock reading serves both the regression check
    /// and the update. If the reading has not fallen behind the recorded
    /// last-seen time, the identity is stamped with it and the new record
    /// text to persist is returned; otherwise nothing changes.
    pub fn update_and_save(&mut self) -> (r: Result<String, WorkerError>)
        ensures
            final(self).spec_info().worker_id == old(self).spec_info().worker_id,
            final(self).spec_info().datacenter_id == old(self).spec_info().datacenter_id,
            final(self).spec_info().creation_time == old(self).spec_info().creation_time,
            old(self).wf() ==> final(self).wf(),
            r matches Err(e) ==> *final(self) == *old(self) && (e matches
                WorkerError::ClockBackwardsError(last, now) && last == old(self).spec_info().last_timestamp && now < last),
            r matches Ok(content) ==> final(self).spec_info().last_timestamp >= old(self).spec_info().last_timestamp && content@ == spec_render_record(
                final(self).spec_info().worker_id,
                final(self).spec_info().datacenter_id,
                final(self).spec_info().last_timestamp,
                final(self).spec_info().creation_time,
            ),
    {
        let now = system_millis();
        if now < self.worker_info.last_timestamp {
            return Err(WorkerError::ClockBackwardsError(self.worker_info.last_timestamp, now));
        }
        self.worker_info.last_timestamp = now;
        Ok(self.worker_info.to_file_content())
    }

    /// Stamps the identity with a caller-supplied clock reading, for
    /// owners that already hold a fresh reading; the record text to
    /// persist can be rendered from the returned identity.
    pub fn record_progress(&mut self, now: u64)
        ensures
            final(self).spec_info() == (WorkerInfo { last_timestamp: now, ..old(self).spec_info() }),
            old(self).wf() ==> final(self).wf(),
    {
        self.worker_info.last_timestamp = now;
    }

    /// The worker id of the held identity.
    pub fn get_worker_id(&self) -> (r: u64)
        ensures
            r == self.spec_info().worker_id,
    {
        self.worker_info.worker_id
    }

    /// The datacenter id of the held identity.
    pub fn get_datacenter_id(&self) -> (r: u64)
        ensures
            r == self.spec_info().datacenter_id,
    {
        self.worker_info.datacenter_id
    }
}

} // verus!
